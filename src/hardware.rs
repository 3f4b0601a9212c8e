use vstd::prelude::*;

verus! {

/// Bytes in one mebibyte.
pub const BYTES_PER_MIB: u64 = 1048576;

/// What the GPU probes found.
#[derive(Clone, Copy, Debug, PartialEq, Eq, Structural)]
pub struct GpuInfo {
    pub has_gpu: bool,
    /// Size of the GPU's pool; `None` when it is unknown.
    pub vram_mib: Option<u64>,
    pub unified_memory: bool,
}

impl GpuInfo {
    pub open spec fn spec_none() -> GpuInfo {
        GpuInfo { has_gpu: false, vram_mib: None, unified_memory: false }
    }

    /// No GPU found.
    pub fn none() -> (r: GpuInfo)
        ensures
            r == GpuInfo::spec_none(),
    {
        GpuInfo { has_gpu: false, vram_mib: None, unified_memory: false }
    }
}

/// A one-time snapshot of the machine's CPU, RAM and GPU capacity.
#[derive(Clone, Debug)]
pub struct SystemSpecs {
    pub total_ram_mib: u64,
    pub available_ram_mib: u64,
    pub total_cpu_cores: usize,
    pub cpu_name: String,
    pub has_gpu: bool,
    /// Size of the GPU's memory pool; `None` when a GPU is present but the
    /// size of its pool is unknown.
    pub gpu_vram_mib: Option<u64>,
    /// The GPU draws from system RAM rather than from a pool of its own.
    pub unified_memory: bool,
}

impl SystemSpecs {
    /// The snapshot's invariant.
    pub open spec fn wf(&self) -> bool {
        &&& self.available_ram_mib <= self.total_ram_mib
        &&& self.total_cpu_cores >= 1
        &&& self.unified_memory ==> self.has_gpu
        &&& self.gpu_vram_mib is Some ==> self.has_gpu
        &&& (self.unified_memory && self.gpu_vram_mib is Some) ==> self.gpu_vram_mib
            == Some(self.available_ram_mib)
    }

    /// Builds the snapshot from the raw readings: RAM in bytes (the
    /// available amount capped at the total), the CPU count, the first CPU's
    /// brand (`"Unknown CPU"` when there is none) and the probes' GPU result.
    /// A CPU count of 0, from a system that lists no CPU, is taken as one core.
    /// A unified-memory GPU with a known pool reports the available RAM as
    /// that pool, and any sign of a GPU sets `has_gpu`.
    pub fn from_readings(
        total_ram_bytes: u64,
        available_ram_bytes: u64,
        cpu_count: usize,
        cpu_brand: Option<String>,
        gpu: GpuInfo,
    ) -> (r: SystemSpecs)
        ensures
            r.wf(),
            r.total_ram_mib == mib_of(total_ram_bytes),
            r.available_ram_mib == spec_available_mib(total_ram_bytes, available_ram_bytes),
            r.total_cpu_cores == spec_core_count(cpu_count),
            r.cpu_name@ == (match cpu_brand {
                Some(b) => b@,
                None => unknown_cpu(),
            }),
            r.has_gpu == (gpu.has_gpu || gpu.unified_memory || gpu.vram_mib is Some),
            r.unified_memory == gpu.unified_memory,
            r.gpu_vram_mib == (if gpu.unified_memory && gpu.vram_mib is Some {
                Some(r.available_ram_mib)
            } else {
                gpu.vram_mib
            }),
    {
        let available = available_ram_mib(total_ram_bytes, available_ram_bytes);
        let cpu_name = match cpu_brand {
            Some(b) => b,
            None => String::from_str("Unknown CPU"),
        };
        let vram = if gpu.unified_memory && gpu.vram_mib.is_some() {
            Some(available)
        } else {
            gpu.vram_mib
        };
        SystemSpecs {
            total_ram_mib: total_ram_bytes / BYTES_PER_MIB,
            available_ram_mib: available,
            total_cpu_cores: if cpu_count == 0 {
                1
            } else {
                cpu_count
            },
            cpu_name,
            has_gpu: gpu.has_gpu || gpu.unified_memory || gpu.vram_mib.is_some(),
            gpu_vram_mib: vram,
            unified_memory: gpu.unified_memory,
        }
    }

    pub open spec fn spec_gpu_summary(&self) -> GpuSummary {
        if !self.has_gpu {
            GpuSummary::NotDetected
        } else if self.unified_memory {
            GpuSummary::Unified(
                match self.gpu_vram_mib {
                    Some(v) => v,
                    None => 0,
                },
            )
        } else {
            match self.gpu_vram_mib {
                Some(v) => if v > 0 {
                    GpuSummary::Dedicated(v)
                } else {
                    GpuSummary::SharedSystem
                },
                None => GpuSummary::Unknown,
            }
        }
    }

    /// Which GPU line the summary shows.
    pub fn gpu_summary(&self) -> (r: GpuSummary)
        ensures
            r == self.spec_gpu_summary(),
    {
        if !self.has_gpu {
            GpuSummary::NotDetected
        } else if self.unified_memory {
            GpuSummary::Unified(
                match self.gpu_vram_mib {
                    Some(v) => v,
                    None => 0,
                },
            )
        } else {
            match self.gpu_vram_mib {
                Some(v) => {
                    if v > 0 {
                        GpuSummary::Dedicated(v)
                    } else {
                        GpuSummary::SharedSystem
                    }
                },
                None => GpuSummary::Unknown,
            }
        }
    }
}

/// The GPU line of the text summary.
#[derive(Clone, Copy, Debug, PartialEq, Eq, Structural)]
pub enum GpuSummary {
    NotDetected,
    /// A dedicated pool of this many MiB.
    Dedicated(u64),
    /// A GPU that uses system memory and has no pool of its own.
    SharedSystem,
    /// A GPU whose pool size is unknown.
    Unknown,
    /// A unified-memory GPU sharing this many MiB of system RAM.
    Unified(u64),
}

pub open spec fn unknown_cpu() -> Seq<char> {
    "Unknown CPU"@
}

/// The number of cores a snapshot reports: at least one.
pub open spec fn spec_core_count(cpu_count: usize) -> usize {
    if cpu_count == 0 {
        1
    } else {
        cpu_count
    }
}

pub open spec fn mib_of(bytes: u64) -> u64 {
    (bytes / BYTES_PER_MIB) as u64
}

pub open spec fn spec_available_mib(total_ram_bytes: u64, available_ram_bytes: u64) -> u64 {
    if available_ram_bytes <= total_ram_bytes {
        mib_of(available_ram_bytes)
    } else {
        mib_of(total_ram_bytes)
    }
}

/// The available RAM in MiB, capped at the total.
pub fn available_ram_mib(total_ram_bytes: u64, available_ram_bytes: u64) -> (r: u64)
    ensures
        r == spec_available_mib(total_ram_bytes, available_ram_bytes),
        r <= mib_of(total_ram_bytes),
{
    let capped = if available_ram_bytes <= total_ram_bytes {
        available_ram_bytes
    } else {
        total_ram_bytes
    };
    assert(capped / BYTES_PER_MIB <= total_ram_bytes / BYTES_PER_MIB) by {
        vstd::arithmetic::div_mod::lemma_div_is_ordered(
            capped as int,
            total_ram_bytes as int,
            BYTES_PER_MIB as int,
        );
    }
    capped / BYTES_PER_MIB
}

} // verus!
