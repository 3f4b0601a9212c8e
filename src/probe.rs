use vstd::prelude::*;
use crate::hardware::{BYTES_PER_MIB, GpuInfo};
use crate::text::{
    chars_of, contains, contains_chars, decimal_of, is_line, lower_of, lowercase, parse_decimal,
    same_text, trim_text, trimmed_of,
};

verus! {

/// The GPU probes, in the order they are tried.
#[derive(Clone, Copy, Debug, PartialEq, Eq, Structural)]
pub enum Probe {
    /// The discrete-GPU vendor tool that reports total memory in MiB.
    NvidiaSmi,
    /// The alternate vendor tool, which reports no memory size here.
    RocmSmi,
    /// The DRM device tree, with the PCI listing as a fallback.
    IntelDevices,
    /// The platform display report, naming system-on-chip GPUs.
    AppleDisplays,
}

/// One DRM card entry, as read from its device directory.
pub struct DrmCard {
    /// The `vendor` file, when it could be read.
    pub vendor: Option<String>,
    /// The `mem_info_vram_total` file (bytes), when it could be read.
    pub vram_total: Option<String>,
}

/// What running one probe gave back. A tool that could not be run, exited
/// with a failure, or wrote text that is not UTF-8 gives `None`.
pub enum ProbeOutcome {
    NvidiaSmi(Option<String>),
    /// Whether the tool ran and exited successfully.
    RocmSmi(bool),
    /// The DRM card entries (`None` when the tree cannot be listed) and the
    /// PCI listing.
    IntelDevices { cards: Option<Vec<DrmCard>>, lspci: Option<String> },
    AppleDisplays(Option<String>),
}

/// What the detector does next.
pub enum CascadeStep {
    /// Run this probe and hand its outcome to `next_step`.
    Run(Probe),
    /// Detection is over.
    Done(GpuInfo),
}

/// Device-name markers looked for in tool output.
#[derive(Clone, Copy, Debug, PartialEq, Eq, Structural)]
pub enum Marker {
    /// An integrated GPU of the Arc class.
    IntelArc,
    /// A system-on-chip GPU with unified memory.
    AppleSilicon,
}

/// Whether a lowercased line names the marker's device.
pub open spec fn marked(m: Marker, lower: Seq<char>) -> bool {
    match m {
        Marker::IntelArc => contains(lower, "intel"@) && contains(lower, "arc"@),
        Marker::AppleSilicon => contains(lower, "apple m"@) || contains(lower, "apple gpu"@),
    }
}

/// Whether some line of `t`, lowercased, names the marker's device.
pub open spec fn some_line_marked(t: Seq<char>, m: Marker) -> bool {
    exists|i: int, j: int| is_line(t, i, j) && marked(m, lower_of(#[trigger] t.subrange(i, j)))
}

/// The vendor identifier of the integrated/Arc GPU family.
pub open spec fn intel_vendor() -> Seq<char> {
    "0x8086"@
}

/// A card is looked at only when its vendor file reads as the expected
/// vendor; a card whose vendor cannot be read is passed over.
pub open spec fn card_candidate(c: DrmCard) -> bool {
    match c.vendor {
        Some(v) => trimmed_of(v@) == intel_vendor(),
        None => false,
    }
}

/// A byte count in whole MiB, rounded up, so that a nonzero count stays
/// nonzero.
pub open spec fn mib_rounded_up(b: u64) -> u64 {
    if b % BYTES_PER_MIB == 0 {
        (b / BYTES_PER_MIB) as u64
    } else {
        (b / BYTES_PER_MIB + 1) as u64
    }
}

/// A card's dedicated memory in MiB (rounded up), when its file reads as a
/// nonzero byte count.
pub open spec fn card_vram_mib(c: DrmCard) -> Option<u64> {
    match c.vram_total {
        Some(t) => match decimal_of(trimmed_of(t@)) {
            Some(b) => if b > 0 {
                Some(mib_rounded_up(b))
            } else {
                None
            },
            None => None,
        },
        None => None,
    }
}

/// Walks the cards in order: the first candidate card with dedicated memory
/// gives that size; a candidate card without it gives 0 (shared memory) when
/// the PCI listing names an Arc device; with no card left, the listing alone
/// decides.
pub open spec fn intel_scan(cards: Seq<DrmCard>, arc: bool) -> Option<u64>
    decreases cards.len(),
{
    if cards.len() == 0 {
        if arc {
            Some(0)
        } else {
            None
        }
    } else if card_candidate(cards[0]) && card_vram_mib(cards[0]) is Some {
        card_vram_mib(cards[0])
    } else if card_candidate(cards[0]) && arc {
        Some(0)
    } else {
        intel_scan(cards.drop_first(), arc)
    }
}

/// The DRM cards that were listed; none when the tree could not be listed.
pub open spec fn seen_cards(cards: Option<Vec<DrmCard>>) -> Seq<DrmCard> {
    match cards {
        Some(cs) => cs@,
        None => Seq::empty(),
    }
}

pub open spec fn text_marked(t: Option<String>, m: Marker) -> bool {
    match t {
        Some(s) => some_line_marked(s@, m),
        None => false,
    }
}

/// What a probe's outcome says of the GPU; `None` is a negative result.
pub open spec fn reading_of(o: ProbeOutcome, available_ram_mib: u64) -> Option<GpuInfo> {
    match o {
        ProbeOutcome::NvidiaSmi(out) => match out {
            Some(t) => match decimal_of(trimmed_of(t@)) {
                Some(mib) => Some(GpuInfo { has_gpu: true, vram_mib: Some(mib), unified_memory: false }),
                None => None,
            },
            None => None,
        },
        ProbeOutcome::RocmSmi(ok) => if ok {
            Some(GpuInfo { has_gpu: true, vram_mib: None, unified_memory: false })
        } else {
            None
        },
        ProbeOutcome::IntelDevices { cards, lspci } => {
            match intel_scan(seen_cards(cards), text_marked(lspci, Marker::IntelArc)) {
                Some(v) => Some(GpuInfo { has_gpu: true, vram_mib: Some(v), unified_memory: false }),
                None => None,
            }
        },
        ProbeOutcome::AppleDisplays(out) => if text_marked(out, Marker::AppleSilicon) {
            Some(
                GpuInfo { has_gpu: true, vram_mib: Some(available_ram_mib), unified_memory: true },
            )
        } else {
            None
        },
    }
}

pub open spec fn probe_of(o: ProbeOutcome) -> Probe {
    match o {
        ProbeOutcome::NvidiaSmi(_) => Probe::NvidiaSmi,
        ProbeOutcome::RocmSmi(_) => Probe::RocmSmi,
        ProbeOutcome::IntelDevices { .. } => Probe::IntelDevices,
        ProbeOutcome::AppleDisplays(_) => Probe::AppleDisplays,
    }
}

/// The probe tried after `p`, if any.
pub open spec fn after(p: Probe) -> Option<Probe> {
    match p {
        Probe::NvidiaSmi => Some(Probe::RocmSmi),
        Probe::RocmSmi => Some(Probe::IntelDevices),
        Probe::IntelDevices => Some(Probe::AppleDisplays),
        Probe::AppleDisplays => None,
    }
}

/// The first positive probe wins; after a negative one the next is run, and
/// after the last one no GPU is reported.
pub open spec fn step_of(o: ProbeOutcome, available_ram_mib: u64) -> CascadeStep {
    match reading_of(o, available_ram_mib) {
        Some(g) => CascadeStep::Done(g),
        None => match after(probe_of(o)) {
            Some(p) => CascadeStep::Run(p),
            None => CascadeStep::Done(GpuInfo::spec_none()),
        },
    }
}

/// Whether a line, lowercased, names the marker's device.
pub fn line_marked(line: &str, m: Marker) -> (r: bool)
    ensures
        r == marked(m, lower_of(line@)),
{
    let low = lowercase(line);
    let lc = chars_of(low.as_str());
    match m {
        Marker::IntelArc => {
            let a = contains_chars(&lc, &chars_of("intel"));
            let b = contains_chars(&lc, &chars_of("arc"));
            a && b
        },
        Marker::AppleSilicon => {
            let a = contains_chars(&lc, &chars_of("apple m"));
            let b = contains_chars(&lc, &chars_of("apple gpu"));
            a || b
        },
    }
}

/// Whether some line of the text, lowercased, names the marker's device.
pub fn any_line_marked(text: &str, m: Marker) -> (r: bool)
    ensures
        r == some_line_marked(text@, m),
{
    let t = chars_of(text);
    let n = t.len();
    let mut start: usize = 0;
    let mut k: usize = 0;
    while k < n
        invariant
            t@ == text@,
            n == t@.len(),
            start <= k <= n,
            start == 0 || t@[start - 1] == '\n',
            forall|q: int| start <= q < k ==> #[trigger] t@[q] != '\n',
            forall|i: int, j: int|
                is_line(text@, i, j) && j < start ==> !marked(
                    m,
                    lower_of(#[trigger] text@.subrange(i, j)),
                ),
        decreases n - k,
    {
        if t[k] == '\n' {
            let line = text.substring_char(start, k);
            assert(is_line(text@, start as int, k as int));
            if line_marked(line, m) {
                return true;
            }
            assert forall|i: int, j: int|
                is_line(text@, i, j) && j < k + 1 implies !marked(
                m,
                lower_of(#[trigger] text@.subrange(i, j)),
            ) by {
                if j >= start {
                    if j < k {
                        assert(t@[j] != '\n');
                    }
                    if i < start {
                        assert(text@[start - 1] == '\n');
                    }
                    if i > start {
                        assert(text@[i - 1] == '\n');
                    }
                }
            }
            start = k + 1;
        }
        k = k + 1;
    }
    let line = text.substring_char(start, n);
    assert(is_line(text@, start as int, n as int));
    let last = line_marked(line, m);
    if !last {
        assert forall|i: int, j: int| is_line(text@, i, j) implies !marked(
            m,
            lower_of(#[trigger] text@.subrange(i, j)),
        ) by {
            if j >= start {
                if j < n {
                    assert(t@[j] != '\n');
                }
                if i < start {
                    assert(text@[start - 1] == '\n');
                }
                if i > start {
                    assert(text@[i - 1] == '\n');
                }
            }
        }
    }
    last
}

fn text_marked_exec(t: &Option<String>, m: Marker) -> (r: bool)
    ensures
        r == text_marked(*t, m),
{
    match t {
        Some(s) => any_line_marked(s.as_str(), m),
        None => false,
    }
}

/// Whether the card is looked at: its vendor file reads as the expected
/// vendor.
pub fn is_candidate(c: &DrmCard) -> (r: bool)
    ensures
        r == card_candidate(*c),
{
    match &c.vendor {
        Some(v) => same_text(trim_text(v.as_str()), "0x8086"),
        None => false,
    }
}

/// The card's dedicated memory in MiB, rounded up, when its file reads as
/// a nonzero byte count.
pub fn card_vram(c: &DrmCard) -> (r: Option<u64>)
    ensures
        r == card_vram_mib(*c),
{
    match &c.vram_total {
        Some(t) => match parse_decimal(trim_text(t.as_str())) {
            Some(b) => {
                if b > 0 {
                    let whole = b / BYTES_PER_MIB;
                    if b % BYTES_PER_MIB == 0 {
                        Some(whole)
                    } else {
                        Some(whole + 1)
                    }
                } else {
                    None
                }
            },
            None => None,
        },
        None => None,
    }
}

/// Reads the DRM cards and the PCI listing as `intel_scan` describes.
pub fn scan_intel(cards: &Vec<DrmCard>, arc: bool) -> (r: Option<u64>)
    ensures
        r == intel_scan(cards@, arc),
{
    let n = cards.len();
    let mut i: usize = 0;
    assert(cards@.subrange(0, n as int) =~= cards@);
    while i < n
        invariant
            n == cards@.len(),
            i <= n,
            intel_scan(cards@, arc) == intel_scan(cards@.subrange(i as int, n as int), arc),
        decreases n - i,
    {
        proof {
            let rest = cards@.subrange(i as int, n as int);
            assert(rest[0] == cards@[i as int]);
            assert(rest.drop_first() =~= cards@.subrange(i + 1, n as int));
        }
        let c = &cards[i];
        if is_candidate(c) {
            let v = card_vram(c);
            if v.is_some() {
                return v;
            }
            if arc {
                return Some(0);
            }
        }
        i = i + 1;
    }
    assert(cards@.subrange(n as int, n as int).len() == 0);
    if arc {
        Some(0)
    } else {
        None
    }
}

/// Whether the PCI listing can change what the DRM cards give, so that the
/// listing has to be read at all.
pub fn listing_needed(cards: &Option<Vec<DrmCard>>) -> (r: bool)
    ensures
        r == (intel_scan(seen_cards(*cards), true) != intel_scan(seen_cards(*cards), false)),
{
    let empty: Vec<DrmCard> = Vec::new();
    let cs = match cards {
        Some(cs) => cs,
        None => &empty,
    };
    scan_intel(cs, true) != scan_intel(cs, false)
}

/// What a probe's outcome says of the GPU; `None` is a negative result.
/// `available_ram_mib` is the shared pool reported for unified memory.
/// The discrete-GPU tool's reading is a whole number of MiB; a fractional
/// reading is not taken.
pub fn read_outcome(o: &ProbeOutcome, available_ram_mib: u64) -> (r: Option<GpuInfo>)
    ensures
        r == reading_of(*o, available_ram_mib),
{
    match o {
        ProbeOutcome::NvidiaSmi(out) => match out {
            Some(t) => match parse_decimal(trim_text(t.as_str())) {
                Some(mib) => Some(GpuInfo { has_gpu: true, vram_mib: Some(mib), unified_memory: false }),
                None => None,
            },
            None => None,
        },
        ProbeOutcome::RocmSmi(ok) => {
            if *ok {
                Some(GpuInfo { has_gpu: true, vram_mib: None, unified_memory: false })
            } else {
                None
            }
        },
        ProbeOutcome::IntelDevices { cards, lspci } => {
            let arc = text_marked_exec(lspci, Marker::IntelArc);
            let found = match cards {
                Some(cs) => scan_intel(cs, arc),
                None => {
                    let empty: Vec<DrmCard> = Vec::new();
                    scan_intel(&empty, arc)
                },
            };
            match found {
                Some(v) => Some(GpuInfo { has_gpu: true, vram_mib: Some(v), unified_memory: false }),
                None => None,
            }
        },
        ProbeOutcome::AppleDisplays(out) => {
            if text_marked_exec(out, Marker::AppleSilicon) {
                Some(
                    GpuInfo {
                        has_gpu: true,
                        vram_mib: Some(available_ram_mib),
                        unified_memory: true,
                    },
                )
            } else {
                None
            }
        },
    }
}

/// Where detection starts.
pub fn first_step() -> (r: CascadeStep)
    ensures
        r == CascadeStep::Run(Probe::NvidiaSmi),
{
    CascadeStep::Run(Probe::NvidiaSmi)
}

/// Decides, from one probe's outcome, whether detection is over and with
/// what result, or which probe runs next.
pub fn next_step(o: &ProbeOutcome, available_ram_mib: u64) -> (r: CascadeStep)
    ensures
        r == step_of(*o, available_ram_mib),
{
    match read_outcome(o, available_ram_mib) {
        Some(g) => CascadeStep::Done(g),
        None => match o {
            ProbeOutcome::NvidiaSmi(_) => CascadeStep::Run(Probe::RocmSmi),
            ProbeOutcome::RocmSmi(_) => CascadeStep::Run(Probe::IntelDevices),
            ProbeOutcome::IntelDevices { .. } => CascadeStep::Run(Probe::AppleDisplays),
            ProbeOutcome::AppleDisplays(_) => CascadeStep::Done(GpuInfo::none()),
        },
    }
}

} // verus!
