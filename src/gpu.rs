//! The GPU snapshot and the text of its report block.
use vstd::prelude::*;
use crate::text::{decimal, labeled, labeled_number, push_line, text_of, texts};
use crate::units::{gib_text, push_gib, push_watts, watts_text};

verus! {

/// One reading of the first GPU, in the units the driver reports.
pub struct GpuSnapshot {
    pub name: String,
    pub num_cores: u32,
    /// Memory bus width in bits.
    pub memory_bus_width: u32,
    /// Graphics clock in MHz.
    pub core_clock: u32,
    /// Memory clock in MHz.
    pub memory_clock: u32,
    /// Temperature in degrees Celsius.
    pub gpu_temperature: u32,
    /// Power draw in milliwatts.
    pub power_usage_mw: u32,
    /// Enforced power limit in milliwatts.
    pub power_limit_mw: u32,
    /// Memory in use, in bytes.
    pub memory_used: u64,
    /// Memory in all, in bytes.
    pub memory_total: u64,
}

/// The reading that failed.
#[derive(Clone, Copy, Debug, PartialEq, Eq, Structural)]
pub enum GpuField {
    Device,
    PowerLimit,
    MemoryInfo,
    PowerUsage,
    Temperature,
    CoreClock,
    MemoryClock,
    Name,
    NumCores,
    MemoryBusWidth,
}

/// Why no GPU snapshot could be taken.
#[derive(Clone, Copy, Debug, PartialEq, Eq, Structural)]
pub enum GpuError {
    /// The management library could not be loaded or initialised.
    InitFailed,
    /// One reading failed; the snapshot is dropped whole.
    QueryFailed(GpuField),
}

/// The name of a reading, as the report shows it.
pub open spec fn field_text(f: GpuField) -> Seq<char> {
    match f {
        GpuField::Device => "device"@,
        GpuField::PowerLimit => "power limit"@,
        GpuField::MemoryInfo => "memory info"@,
        GpuField::PowerUsage => "power usage"@,
        GpuField::Temperature => "temperature"@,
        GpuField::CoreClock => "core clock"@,
        GpuField::MemoryClock => "memory clock"@,
        GpuField::Name => "name"@,
        GpuField::NumCores => "core count"@,
        GpuField::MemoryBusWidth => "memory bus width"@,
    }
}

/// The one line that reports a failed GPU read.
pub open spec fn error_line(e: GpuError) -> Seq<char> {
    match e {
        GpuError::InitFailed => "Error: GPU management library could not be initialized"@,
        GpuError::QueryFailed(f) => "Error: GPU query failed: "@ + field_text(f),
    }
}

/// The lines of the GPU block for a snapshot.
pub open spec fn gpu_lines(g: GpuSnapshot) -> Seq<Seq<char>> {
    seq![
        "GPU Name: "@ + g.name@,
        "Number of Cores: "@ + decimal(g.num_cores as nat),
        "Memory Bus Width: "@ + decimal(g.memory_bus_width as nat) + "-bit bus width"@,
        "GPU Core Clocks: "@ + decimal(g.core_clock as nat) + " MHz"@,
        "GPU Memory Clock: "@ + decimal(g.memory_clock as nat) + " MHz"@,
        "GPU Temperature: "@ + decimal(g.gpu_temperature as nat) + " C"@,
        "Power Usage: "@ + watts_text(g.power_usage_mw as nat) + " W"@,
        "Power Limit: "@ + decimal((g.power_limit_mw / 1000) as nat) + " W"@,
        "Memory Used: "@ + gib_text(g.memory_used as nat) + " GB"@,
        "Memory Total: "@ + gib_text(g.memory_total as nat) + " GB"@,
    ]
}

/// The GPU block: the snapshot's lines, or the one error line.
pub open spec fn gpu_report_lines(r: Result<GpuSnapshot, GpuError>) -> Seq<Seq<char>> {
    match r {
        Ok(g) => gpu_lines(g),
        Err(e) => seq![error_line(e)],
    }
}

fn field_str(f: GpuField) -> (r: &'static str)
    ensures
        r@ == field_text(f),
{
    match f {
        GpuField::Device => "device",
        GpuField::PowerLimit => "power limit",
        GpuField::MemoryInfo => "memory info",
        GpuField::PowerUsage => "power usage",
        GpuField::Temperature => "temperature",
        GpuField::CoreClock => "core clock",
        GpuField::MemoryClock => "memory clock",
        GpuField::Name => "name",
        GpuField::NumCores => "core count",
        GpuField::MemoryBusWidth => "memory bus width",
    }
}

impl GpuError {
    /// The line that reports this error.
    pub fn to_line(&self) -> (r: String)
        ensures
            r@ == error_line(*self),
    {
        match self {
            GpuError::InitFailed => text_of("Error: GPU management library could not be initialized"),
            GpuError::QueryFailed(f) => labeled("Error: GPU query failed: ", field_str(*f)),
        }
    }
}

impl GpuSnapshot {
    /// The enforced power limit in whole watts.
    pub fn power_limit_watts(&self) -> (r: u32)
        ensures
            r == self.power_limit_mw / 1000,
    {
        crate::units::milliwatts_to_watts(self.power_limit_mw)
    }

    /// The lines of the GPU block.
    pub fn report_lines(&self) -> (r: Vec<String>)
        ensures
            texts(r@) == gpu_lines(*self),
    {
        proof {
            reveal_strlit("");
        }
        let mut lines: Vec<String> = Vec::new();
        push_line(&mut lines, labeled("GPU Name: ", self.name.as_str()));
        push_line(&mut lines, labeled_number("Number of Cores: ", self.num_cores as u64, ""));
        push_line(
            &mut lines,
            labeled_number("Memory Bus Width: ", self.memory_bus_width as u64, "-bit bus width"),
        );
        push_line(&mut lines, labeled_number("GPU Core Clocks: ", self.core_clock as u64, " MHz"));
        push_line(
            &mut lines,
            labeled_number("GPU Memory Clock: ", self.memory_clock as u64, " MHz"),
        );
        push_line(
            &mut lines,
            labeled_number("GPU Temperature: ", self.gpu_temperature as u64, " C"),
        );
        let mut usage = String::from_str("Power Usage: ");
        push_watts(&mut usage, self.power_usage_mw);
        usage.append(" W");
        push_line(&mut lines, usage);
        push_line(
            &mut lines,
            labeled_number("Power Limit: ", self.power_limit_watts() as u64, " W"),
        );
        let mut used = String::from_str("Memory Used: ");
        push_gib(&mut used, self.memory_used);
        used.append(" GB");
        push_line(&mut lines, used);
        let mut total = String::from_str("Memory Total: ");
        push_gib(&mut total, self.memory_total);
        total.append(" GB");
        push_line(&mut lines, total);
        assert(texts(lines@) =~= gpu_lines(*self));
        lines
    }
}

/// The GPU block for a read that may have failed: its lines, or one error line.
pub fn gpu_report(r: &Result<GpuSnapshot, GpuError>) -> (lines: Vec<String>)
    ensures
        texts(lines@) == gpu_report_lines(*r),
{
    match r {
        Ok(g) => g.report_lines(),
        Err(e) => {
            let mut lines: Vec<String> = Vec::new();
            push_line(&mut lines, e.to_line());
            assert(texts(lines@) =~= seq![error_line(*e)]);
            lines
        },
    }
}

} // verus!
