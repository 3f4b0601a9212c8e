use vstd::prelude::*;
use crate::hardware::SystemSpecs;

verus! {

/// Utilization at or under this percentage grades as `Perfect`.
pub const PERFECT_MAX_PCT: u64 = 50;

/// Utilization at or under this percentage grades as `Good`.
pub const GOOD_MAX_PCT: u64 = 75;

/// Utilization at or under this percentage grades as `Marginal`.
pub const MARGINAL_MAX_PCT: u64 = 95;

/// Utilization over this percentage earns the advice to close other applications.
pub const CROWDED_PCT: u64 = 90;

/// Utilization is reported in hundredths of a percent: a ratio of one is 10000.
pub const RATIO_SCALE: u64 = 10000;

/// Largest utilization reported, in hundredths of a percent (999%).
pub const UTILIZATION_CAP: u64 = 99900;

/// How a model would run on the machine.
#[derive(Clone, Copy, Debug, PartialEq, Eq, Structural)]
pub enum RunMode {
    Gpu,
    CpuOffload,
    CpuOnly,
}

/// How comfortably a model fits in the memory pool it is compared with.
#[derive(Clone, Copy, Debug, PartialEq, Eq, Structural)]
pub enum FitLevel {
    Perfect,
    Good,
    Marginal,
    TooTight,
}

/// The advisory notes an assessment can carry.
#[derive(Clone, Copy, Debug, PartialEq, Eq, Structural)]
pub enum Note {
    /// A GPU is present but the size of its pool is unknown or shared.
    CapacityUnconfirmed,
    /// The GPU's pool is smaller than the model asks for.
    InsufficientVram,
    /// The model asks for a GPU and none was found.
    NoGpu,
    /// The GPU shares its pool with the operating system.
    SharedPool,
    /// The compared pool is almost full.
    Crowded,
}

/// A catalog entry describing one model's requirements.
pub struct ModelSpec {
    pub name: String,
    pub provider: String,
    pub parameter_count: String,
    pub quantization: String,
    pub context_length: u64,
    /// GPU memory the model needs; `None` when it has no GPU requirement.
    pub min_vram_mib: Option<u64>,
    pub min_ram_mib: u64,
    pub recommended_ram_mib: u64,
    pub use_case: String,
}

/// The grade of one model against one snapshot.
pub struct FitAssessment {
    pub run_mode: RunMode,
    pub fit_level: FitLevel,
    /// The requirement compared, for the chosen mode.
    pub memory_required_mib: u64,
    /// The pool compared against, for the chosen mode.
    pub memory_available_mib: u64,
    /// `memory_required_mib / memory_available_mib`, in hundredths of a
    /// percent, rounded down and capped at `UTILIZATION_CAP`.
    pub utilization_pct: u64,
    pub notes: Vec<String>,
}

/// The run mode for a model, given whether the machine has a GPU and the
/// size of that GPU's pool.
pub open spec fn mode_of(has_gpu: bool, pool: Option<u64>, min_vram: Option<u64>) -> RunMode {
    match min_vram {
        None => RunMode::CpuOnly,
        Some(need) => if !has_gpu {
            RunMode::CpuOnly
        } else {
            match pool {
                None => RunMode::CpuOffload,
                Some(p) => if p == 0 {
                    RunMode::CpuOffload
                } else if p >= need {
                    RunMode::Gpu
                } else {
                    RunMode::CpuOffload
                },
            }
        },
    }
}

pub open spec fn spec_run_mode(s: SystemSpecs, m: ModelSpec) -> RunMode {
    mode_of(s.has_gpu, s.gpu_vram_mib, m.min_vram_mib)
}

/// The requirement compared in the given mode.
pub open spec fn required_of(s: SystemSpecs, m: ModelSpec) -> u64 {
    match spec_run_mode(s, m) {
        RunMode::Gpu => m.min_vram_mib.unwrap(),
        _ => m.min_ram_mib,
    }
}

/// The pool compared against in the given mode.
pub open spec fn available_of(s: SystemSpecs, m: ModelSpec) -> u64 {
    match spec_run_mode(s, m) {
        RunMode::Gpu => s.gpu_vram_mib.unwrap(),
        _ => s.available_ram_mib,
    }
}

/// `required / available`, in hundredths of a percent, rounded down and
/// capped; an empty pool counts as saturated.
pub open spec fn utilization_of(required: nat, available: nat) -> nat {
    if available == 0 {
        UTILIZATION_CAP as nat
    } else {
        let u = required * RATIO_SCALE as nat / available;
        if u > UTILIZATION_CAP {
            UTILIZATION_CAP as nat
        } else {
            u
        }
    }
}

/// Whether `required` is at most `pct` percent of `available`.
pub open spec fn within(required: nat, available: nat, pct: nat) -> bool {
    required * 100 <= pct * available
}

/// The fit level of a requirement against a pool; an empty pool is too tight.
pub open spec fn level_of(required: nat, available: nat) -> FitLevel {
    if available == 0 {
        FitLevel::TooTight
    } else if within(required, available, PERFECT_MAX_PCT as nat) {
        FitLevel::Perfect
    } else if within(required, available, GOOD_MAX_PCT as nat) {
        FitLevel::Good
    } else if within(required, available, MARGINAL_MAX_PCT as nat) {
        FitLevel::Marginal
    } else {
        FitLevel::TooTight
    }
}

/// Orders the fit levels from best (0) to worst (3).
pub open spec fn severity(l: FitLevel) -> nat {
    match l {
        FitLevel::Perfect => 0,
        FitLevel::Good => 1,
        FitLevel::Marginal => 2,
        FitLevel::TooTight => 3,
    }
}

/// Whether the pool is over `CROWDED_PCT` percent full; an empty pool is.
pub open spec fn crowded(required: nat, available: nat) -> bool {
    available == 0 || !within(required, available, CROWDED_PCT as nat)
}

/// The notes of an assessment, in the order they are shown.
pub open spec fn notes_of(s: SystemSpecs, m: ModelSpec) -> Seq<Note> {
    let mode = spec_run_mode(s, m);
    let first: Seq<Note> = if mode == RunMode::CpuOffload {
        match s.gpu_vram_mib {
            Some(p) => if p > 0 {
                seq![Note::InsufficientVram]
            } else {
                seq![Note::CapacityUnconfirmed]
            },
            None => seq![Note::CapacityUnconfirmed],
        }
    } else if mode == RunMode::CpuOnly && m.min_vram_mib is Some {
        seq![Note::NoGpu]
    } else {
        seq![]
    };
    let second: Seq<Note> = if s.unified_memory {
        seq![Note::SharedPool]
    } else {
        seq![]
    };
    let third: Seq<Note> = if crowded(required_of(s, m) as nat, available_of(s, m) as nat) {
        seq![Note::Crowded]
    } else {
        seq![]
    };
    first + second + third
}

/// What `assess(s, m)` returns, field by field.
pub open spec fn assessment_of(s: SystemSpecs, m: ModelSpec, a: FitAssessment) -> bool {
    let req = required_of(s, m);
    let avail = available_of(s, m);
    &&& a.run_mode == spec_run_mode(s, m)
    &&& a.memory_required_mib == req
    &&& a.memory_available_mib == avail
    &&& a.utilization_pct as nat == utilization_of(req as nat, avail as nat)
    &&& a.fit_level == level_of(req as nat, avail as nat)
    &&& a.notes@.len() == notes_of(s, m).len()
    &&& forall|i: int|
        0 <= i < a.notes@.len() ==> #[trigger] a.notes@[i]@ == notes_of(s, m)[i].spec_text()
}

impl Note {
    pub open spec fn spec_text(self) -> Seq<char> {
        match self {
            Note::CapacityUnconfirmed => "GPU memory could not be confirmed; part of the model runs on the CPU, so actual performance may vary."@,
            Note::InsufficientVram => "Not enough GPU memory; part of the model is offloaded to system RAM."@,
            Note::NoGpu => "No GPU detected; the model runs on the CPU only."@,
            Note::SharedPool => "GPU memory is shared with the operating system and other applications."@,
            Note::Crowded => "Memory use is over 90%; close other applications before running this model."@,
        }
    }

    /// The note's wording.
    pub fn text(&self) -> (r: String)
        ensures
            r@ == self.spec_text(),
    {
        match self {
            Note::CapacityUnconfirmed => String::from_str("GPU memory could not be confirmed; part of the model runs on the CPU, so actual performance may vary."),
            Note::InsufficientVram => String::from_str("Not enough GPU memory; part of the model is offloaded to system RAM."),
            Note::NoGpu => String::from_str("No GPU detected; the model runs on the CPU only."),
            Note::SharedPool => String::from_str("GPU memory is shared with the operating system and other applications."),
            Note::Crowded => String::from_str("Memory use is over 90%; close other applications before running this model."),
        }
    }
}

/// Picks how the model would run: on the GPU when the GPU's known, nonzero
/// pool holds the model's GPU requirement; partly offloaded when a GPU is
/// present but its pool is unknown, shared or too small; on the CPU when the
/// model needs no GPU or the machine has none.
pub fn run_mode_for(has_gpu: bool, pool: Option<u64>, min_vram: Option<u64>) -> (r: RunMode)
    ensures
        r == mode_of(has_gpu, pool, min_vram),
{
    match min_vram {
        None => RunMode::CpuOnly,
        Some(need) => {
            if !has_gpu {
                RunMode::CpuOnly
            } else {
                match pool {
                    None => RunMode::CpuOffload,
                    Some(p) => {
                        if p == 0 {
                            RunMode::CpuOffload
                        } else if p >= need {
                            RunMode::Gpu
                        } else {
                            RunMode::CpuOffload
                        }
                    },
                }
            }
        },
    }
}

/// `required / available` in hundredths of a percent, rounded down and capped
/// at `UTILIZATION_CAP`; an empty pool gives the cap.
pub fn utilization_for(required: u64, available: u64) -> (r: u64)
    ensures
        r as nat == utilization_of(required as nat, available as nat),
        r <= UTILIZATION_CAP,
{
    if available == 0 {
        UTILIZATION_CAP
    } else {
        assert(required as u128 * RATIO_SCALE as u128 <= 0xffff_ffff_ffff_ffff * 10000u128)
            by (nonlinear_arith)
            requires required <= 0xffff_ffff_ffff_ffffu64;
        let scaled: u128 = required as u128 * RATIO_SCALE as u128;
        let u: u128 = scaled / available as u128;
        if u > UTILIZATION_CAP as u128 {
            UTILIZATION_CAP
        } else {
            u as u64
        }
    }
}

/// Whether `required` is at most `pct` percent of `available`, computed exactly.
fn is_within(required: u64, available: u64, pct: u64) -> (r: bool)
    requires
        pct <= 100,
    ensures
        r == within(required as nat, available as nat, pct as nat),
{
    assert(pct * available <= 100 * available) by (nonlinear_arith)
        requires pct <= 100;
    (required as u128) * 100 <= (pct as u128) * (available as u128)
}

/// Grades a requirement against a pool by the share of the pool it takes:
/// `Perfect` up to 50%, `Good` up to 75%, `Marginal` up to 95%, `TooTight`
/// beyond that or when the pool is empty.
pub fn fit_level_for(required: u64, available: u64) -> (r: FitLevel)
    ensures
        r == level_of(required as nat, available as nat),
{
    if available == 0 {
        FitLevel::TooTight
    } else if is_within(required, available, PERFECT_MAX_PCT) {
        FitLevel::Perfect
    } else if is_within(required, available, GOOD_MAX_PCT) {
        FitLevel::Good
    } else if is_within(required, available, MARGINAL_MAX_PCT) {
        FitLevel::Marginal
    } else {
        FitLevel::TooTight
    }
}

/// Grades a model against a snapshot: picks the run mode, compares the
/// model's requirement for that mode with the matching pool, and adds the
/// advisory notes. Reads its inputs only.
pub fn assess(specs: &SystemSpecs, model: &ModelSpec) -> (r: FitAssessment)
    ensures
        assessment_of(*specs, *model, r),
{
    let mode = run_mode_for(specs.has_gpu, specs.gpu_vram_mib, model.min_vram_mib);
    let (required, available): (u64, u64) = match mode {
        RunMode::Gpu => (model.min_vram_mib.unwrap(), specs.gpu_vram_mib.unwrap()),
        _ => (model.min_ram_mib, specs.available_ram_mib),
    };
    let utilization = utilization_for(required, available);
    let level = fit_level_for(required, available);

    let mut kinds: Vec<Note> = Vec::new();
    if mode == RunMode::CpuOffload {
        match specs.gpu_vram_mib {
            Some(p) => {
                if p > 0 {
                    kinds.push(Note::InsufficientVram);
                } else {
                    kinds.push(Note::CapacityUnconfirmed);
                }
            },
            None => kinds.push(Note::CapacityUnconfirmed),
        }
    } else if mode == RunMode::CpuOnly && model.min_vram_mib.is_some() {
        kinds.push(Note::NoGpu);
    }
    if specs.unified_memory {
        kinds.push(Note::SharedPool);
    }
    if available == 0 || !is_within(required, available, CROWDED_PCT) {
        kinds.push(Note::Crowded);
    }
    assert(kinds@ =~= notes_of(*specs, *model));

    let mut notes: Vec<String> = Vec::new();
    let mut i: usize = 0;
    while i < kinds.len()
        invariant
            i <= kinds@.len(),
            notes@.len() == i,
            forall|j: int| 0 <= j < i ==> #[trigger] notes@[j]@ == kinds@[j].spec_text(),
        decreases kinds@.len() - i,
    {
        notes.push(kinds[i].text());
        i = i + 1;
    }

    FitAssessment {
        run_mode: mode,
        fit_level: level,
        memory_required_mib: required,
        memory_available_mib: available,
        utilization_pct: utilization,
        notes,
    }
}

/// Two assessments of the same snapshot and model agree in every field.
pub proof fn lemma_assess_deterministic(
    s: SystemSpecs,
    m: ModelSpec,
    a: FitAssessment,
    b: FitAssessment,
)
    requires
        assessment_of(s, m, a),
        assessment_of(s, m, b),
    ensures
        a.run_mode == b.run_mode,
        a.fit_level == b.fit_level,
        a.memory_required_mib == b.memory_required_mib,
        a.memory_available_mib == b.memory_available_mib,
        a.utilization_pct == b.utilization_pct,
        a.notes@.len() == b.notes@.len(),
        forall|i: int| 0 <= i < a.notes@.len() ==> #[trigger] a.notes@[i]@ == b.notes@[i]@,
{
    assert forall|i: int| 0 <= i < a.notes@.len() implies #[trigger] a.notes@[i]@ == b.notes@[i]@ by {
        assert(a.notes@[i]@ == notes_of(s, m)[i].spec_text());
        assert(b.notes@[i]@ == notes_of(s, m)[i].spec_text());
    }
}

/// Against a fixed pool, a larger requirement never lowers the utilization
/// and never improves the fit level.
pub proof fn lemma_pressure_monotone(smaller: nat, larger: nat, available: nat)
    requires
        smaller <= larger,
    ensures
        utilization_of(smaller, available) <= utilization_of(larger, available),
        severity(level_of(smaller, available)) <= severity(level_of(larger, available)),
{
    if available > 0 {
        let k = RATIO_SCALE as nat;
        assert(smaller * k <= larger * k) by (nonlinear_arith)
            requires smaller <= larger;
        vstd::arithmetic::div_mod::lemma_div_is_ordered(
            (smaller * k) as int,
            (larger * k) as int,
            available as int,
        );
    }
}

} // verus!
