use llmfit::hardware::{available_ram_mib, GpuInfo, GpuSummary, SystemSpecs};
use llmfit::probe::{
    any_line_marked, first_step, listing_needed, next_step, read_outcome, CascadeStep, DrmCard, Marker, Probe,
    ProbeOutcome,
};
use llmfit::text::parse_decimal;
use llmfit::ui::{fit_indicator, truncate_str};
use llmfit::fit::FitLevel;

const GIB_BYTES: u64 = 1 << 30;

fn card(vendor: Option<&str>, vram: Option<&str>) -> DrmCard {
    DrmCard {
        vendor: vendor.map(|v| v.to_string()),
        vram_total: vram.map(|v| v.to_string()),
    }
}

fn gpu(has_gpu: bool, vram_mib: Option<u64>, unified_memory: bool) -> GpuInfo {
    GpuInfo { has_gpu, vram_mib, unified_memory }
}

#[test]
fn nvidia_output_is_read_in_mib() {
    let o = ProbeOutcome::NvidiaSmi(Some("24576\n".to_string()));
    assert_eq!(read_outcome(&o, 1000), Some(gpu(true, Some(24576), false)));
    match next_step(&o, 1000) {
        CascadeStep::Done(g) => assert_eq!(g, gpu(true, Some(24576), false)),
        CascadeStep::Run(_) => panic!("a positive probe ends detection"),
    }
}

#[test]
fn nvidia_unparsable_output_falls_through() {
    let o = ProbeOutcome::NvidiaSmi(Some("N/A".to_string()));
    assert_eq!(read_outcome(&o, 1000), None);
    assert!(matches!(next_step(&o, 1000), CascadeStep::Run(Probe::RocmSmi)));
    let missing = ProbeOutcome::NvidiaSmi(None);
    assert!(matches!(next_step(&missing, 1000), CascadeStep::Run(Probe::RocmSmi)));
}

#[test]
fn rocm_reports_gpu_without_size() {
    let o = ProbeOutcome::RocmSmi(true);
    assert_eq!(read_outcome(&o, 1000), Some(gpu(true, None, false)));
    let failed = ProbeOutcome::RocmSmi(false);
    assert!(matches!(next_step(&failed, 1000), CascadeStep::Run(Probe::IntelDevices)));
}

#[test]
fn intel_card_with_vram() {
    let o = ProbeOutcome::IntelDevices {
        cards: Some(vec![
            card(Some("0x10de\n"), Some("8589934592\n")),
            card(Some("0x8086\n"), Some("17179869184\n")),
        ]),
        lspci: None,
    };
    assert_eq!(read_outcome(&o, 1000), Some(gpu(true, Some(16384), false)));
}

#[test]
fn intel_integrated_arc_is_shared() {
    let listing = "00:02.0 VGA compatible controller: Intel Corporation Meteor Lake-P [Intel Arc Graphics]\n00:14.0 USB controller";
    let o = ProbeOutcome::IntelDevices {
        cards: Some(vec![card(Some("0x8086"), None)]),
        lspci: Some(listing.to_string()),
    };
    assert_eq!(read_outcome(&o, 1000), Some(gpu(true, Some(0), false)));
    let fallback = ProbeOutcome::IntelDevices { cards: None, lspci: Some(listing.to_string()) };
    assert_eq!(read_outcome(&fallback, 1000), Some(gpu(true, Some(0), false)));
}

#[test]
fn intel_nothing_found() {
    let o = ProbeOutcome::IntelDevices {
        cards: Some(vec![card(Some("0x10de"), Some("8589934592"))]),
        lspci: Some("00:02.0 VGA compatible controller: NVIDIA Corporation".to_string()),
    };
    assert_eq!(read_outcome(&o, 1000), None);
    assert!(matches!(next_step(&o, 1000), CascadeStep::Run(Probe::AppleDisplays)));
}

#[test]
fn apple_silicon_shares_available_ram() {
    let report = "Graphics/Displays:\n\n    Apple M2 Pro:\n\n      Chipset Model: Apple M2 Pro\n";
    let o = ProbeOutcome::AppleDisplays(Some(report.to_string()));
    assert_eq!(read_outcome(&o, 12345), Some(gpu(true, Some(12345), true)));
}

#[test]
fn last_negative_probe_reports_no_gpu() {
    let o = ProbeOutcome::AppleDisplays(Some("Chipset Model: AMD Radeon Pro 5500M".to_string()));
    match next_step(&o, 1000) {
        CascadeStep::Done(g) => assert_eq!(g, GpuInfo::none()),
        CascadeStep::Run(_) => panic!("no probe follows the last one"),
    }
}

#[test]
fn cascade_starts_with_nvidia() {
    assert!(matches!(first_step(), CascadeStep::Run(Probe::NvidiaSmi)));
}

#[test]
fn line_markers_ignore_case() {
    assert!(any_line_marked("foo\nINTEL ARC A770\nbar", Marker::IntelArc));
    assert!(!any_line_marked("intel\narc", Marker::IntelArc));
    assert!(any_line_marked("Chipset: APPLE GPU", Marker::AppleSilicon));
    assert!(!any_line_marked("", Marker::AppleSilicon));
}

#[test]
fn decimal_parsing() {
    assert_eq!(parse_decimal("0"), Some(0));
    assert_eq!(parse_decimal("18446744073709551615"), Some(u64::MAX));
    assert_eq!(parse_decimal("18446744073709551616"), None);
    assert_eq!(parse_decimal(""), None);
    assert_eq!(parse_decimal("12a"), None);
    assert_eq!(parse_decimal("-1"), None);
    assert_eq!(parse_decimal("+42"), Some(42));
    assert_eq!(parse_decimal("+"), None);
    assert_eq!(parse_decimal("++1"), None);
}

#[test]
fn snapshot_keeps_available_under_total() {
    let s = SystemSpecs::from_readings(8 * GIB_BYTES, 9 * GIB_BYTES, 4, None, GpuInfo::none());
    assert_eq!(s.total_ram_mib, 8192);
    assert_eq!(s.available_ram_mib, 8192);
    assert!(s.available_ram_mib <= s.total_ram_mib);
    assert_eq!(s.cpu_name, "Unknown CPU");
    assert!(!s.has_gpu);
    assert_eq!(available_ram_mib(8 * GIB_BYTES, 3 * GIB_BYTES + 5), 3072);
}

#[test]
fn snapshot_unified_implies_gpu() {
    let s = SystemSpecs::from_readings(
        16 * GIB_BYTES,
        10 * GIB_BYTES,
        10,
        Some("Apple M2".to_string()),
        gpu(false, Some(999), true),
    );
    assert!(s.unified_memory);
    assert!(s.has_gpu);
    assert_eq!(s.gpu_vram_mib, Some(10240));
    assert_eq!(s.cpu_name, "Apple M2");
    assert_eq!(s.gpu_summary(), GpuSummary::Unified(10240));
}

#[test]
fn gpu_summary_lines() {
    let base = |has_gpu, vram, unified| {
        SystemSpecs::from_readings(GIB_BYTES, GIB_BYTES, 1, None, gpu(has_gpu, vram, unified))
    };
    assert_eq!(base(false, None, false).gpu_summary(), GpuSummary::NotDetected);
    assert_eq!(base(true, Some(8192), false).gpu_summary(), GpuSummary::Dedicated(8192));
    assert_eq!(base(true, Some(0), false).gpu_summary(), GpuSummary::SharedSystem);
    assert_eq!(base(true, None, false).gpu_summary(), GpuSummary::Unknown);
}

#[test]
fn truncation() {
    assert_eq!(truncate_str("short", 10), "short");
    assert_eq!(truncate_str("exactly", 7), "exactly");
    assert_eq!(truncate_str("a longer use case", 8), "a longe…");
    assert_eq!(truncate_str("héllo wörld", 6), "héll…");
    assert_eq!(truncate_str("héllo", 5), "hél…");
    assert_eq!(truncate_str("héllo", 6), "héllo");
    assert_eq!(truncate_str("", 0), "");
}

#[test]
fn indicator_is_a_dot() {
    assert_eq!(fit_indicator(FitLevel::Perfect), "●");
    assert_eq!(fit_indicator(FitLevel::TooTight), "●");
}

#[test]
fn card_with_unreadable_vendor_is_passed_over() {
    let o = ProbeOutcome::IntelDevices {
        cards: Some(vec![card(None, Some("17179869184\n"))]),
        lspci: None,
    };
    assert_eq!(read_outcome(&o, 1000), None);
}

#[test]
fn small_vram_rounds_up_to_one_mib() {
    let o = ProbeOutcome::IntelDevices {
        cards: Some(vec![card(Some("0x8086\n"), Some("1000\n"))]),
        lspci: None,
    };
    assert_eq!(read_outcome(&o, 1000), Some(gpu(true, Some(1), false)));
    let exact = ProbeOutcome::IntelDevices {
        cards: Some(vec![card(Some("0x8086"), Some("+2097152"))]),
        lspci: None,
    };
    assert_eq!(read_outcome(&exact, 1000), Some(gpu(true, Some(2), false)));
    let over = ProbeOutcome::IntelDevices {
        cards: Some(vec![card(Some("0x8086"), Some("2097153"))]),
        lspci: None,
    };
    assert_eq!(read_outcome(&over, 1000), Some(gpu(true, Some(3), false)));
}

#[test]
fn listing_only_read_when_it_matters() {
    assert!(!listing_needed(&Some(vec![card(Some("0x8086"), Some("8589934592"))])));
    assert!(listing_needed(&Some(vec![card(Some("0x8086"), None)])));
    assert!(listing_needed(&None));
    assert!(listing_needed(&Some(vec![card(None, None)])));
}

#[test]
fn zero_cpu_count_reads_as_one_core() {
    let s = SystemSpecs::from_readings(GIB_BYTES, GIB_BYTES, 0, None, GpuInfo::none());
    assert_eq!(s.total_cpu_cores, 1);
    let t = SystemSpecs::from_readings(GIB_BYTES, GIB_BYTES, 12, None, GpuInfo::none());
    assert_eq!(t.total_cpu_cores, 12);
}
