//! The host snapshot, its disks, and the text of the system and disk blocks.
use vstd::prelude::*;
use crate::text::{decimal, fixed2, labeled, labeled_number, push_decimal, push_fixed2, push_line, texts};
use crate::units::{gib_text, push_gib};
use crate::uptime::convert_seconds;

verus! {

/// The kind of a storage device; any kind not recognised is `Unknown`.
#[derive(Clone, Copy, Debug, PartialEq, Eq, Structural)]
pub enum DiskKind {
    Unknown,
    SolidState,
    Rotational,
}

/// One mounted volume.
pub struct DiskSnapshot {
    pub name: String,
    pub kind: DiskKind,
    pub file_system: String,
    pub mount_point: String,
    /// Capacity in bytes.
    pub total_space: u64,
    /// Free space in bytes.
    pub available_space: u64,
}

/// One reading of the host.
pub struct HostSnapshot {
    /// Memory in all, in bytes.
    pub total_memory: u64,
    /// Memory in use, in bytes.
    pub used_memory: u64,
    /// Swap in all, in bytes.
    pub total_swap: u64,
    /// Swap in use, in bytes.
    pub used_swap: u64,
    pub system_name: Option<String>,
    pub kernel_version: Option<String>,
    pub os_version: Option<String>,
    pub host_name: Option<String>,
    /// Seconds since boot.
    pub uptime: u64,
    pub disks: Vec<DiskSnapshot>,
    /// Mean CPU usage over all logical cores, in hundredths of a percent.
    pub average_cpu_usage: u64,
}

/// The label of a disk kind.
pub open spec fn kind_text(k: DiskKind) -> Seq<char> {
    match k {
        DiskKind::Unknown => "Unknown"@,
        DiskKind::SolidState => "SSD"@,
        DiskKind::Rotational => "HDD"@,
    }
}

/// An optional identity string, or `unknown` where the platform gives none.
pub open spec fn optional_text(o: Option<String>) -> Seq<char> {
    match o {
        Some(s) => s@,
        None => "unknown"@,
    }
}

/// The line of one disk: its fields separated by tabs, sizes in GiB.
pub open spec fn disk_line(d: DiskSnapshot) -> Seq<char> {
    d.name@ + "\t"@ + kind_text(d.kind) + "\t"@ + d.file_system@ + "\t"@ + d.mount_point@
        + "\t"@ + gib_text(d.total_space as nat) + " GB\t"@ + gib_text(d.available_space as nat)
        + " GB"@
}

/// The lines of a list of disks, one each, in order.
pub open spec fn disk_lines(s: Seq<DiskSnapshot>) -> Seq<Seq<char>> {
    s.map_values(|d: DiskSnapshot| disk_line(d))
}

/// The uptime line, with the uptime split into days, hours, minutes and seconds.
pub open spec fn uptime_line(s: u64) -> Seq<char> {
    "Uptime "@ + decimal(s as nat) + " seconds is equivalent to "@ + decimal((s / 86400) as nat)
        + " days, "@ + decimal(((s / 3600) % 24) as nat) + " hours, "@ + decimal(
        ((s / 60) % 60) as nat,
    ) + " minutes, and "@ + decimal((s % 60) as nat) + " seconds"@
}

/// The lines of the system block and the disk block.
pub open spec fn host_lines(h: HostSnapshot) -> Seq<Seq<char>> {
    seq![
        "=> system:"@,
        "Total Memory: "@ + gib_text(h.total_memory as nat) + " GB"@,
        "Used Memory: "@ + gib_text(h.used_memory as nat) + " GB"@,
        "Total Swap: "@ + gib_text(h.total_swap as nat) + " GB"@,
        "Used Swap: "@ + gib_text(h.used_swap as nat) + " GB"@,
        "System Name: "@ + optional_text(h.system_name),
        "Kernel Version: "@ + optional_text(h.kernel_version),
        "OS Version: "@ + optional_text(h.os_version),
        "Host Name: "@ + optional_text(h.host_name),
        uptime_line(h.uptime),
        "Average CPU Usage: "@ + fixed2(h.average_cpu_usage as nat) + "%"@,
        "=> disks:"@,
    ] + disk_lines(h.disks@)
}

fn kind_str(k: DiskKind) -> (r: &'static str)
    ensures
        r@ == kind_text(k),
{
    match k {
        DiskKind::Unknown => "Unknown",
        DiskKind::SolidState => "SSD",
        DiskKind::Rotational => "HDD",
    }
}

fn gib_line(label: &str, bytes: u64) -> (r: String)
    ensures
        r@ == label@ + gib_text(bytes as nat) + " GB"@,
{
    let mut s = String::from_str(label);
    push_gib(&mut s, bytes);
    s.append(" GB");
    s
}

fn optional_line(label: &str, o: &Option<String>) -> (r: String)
    ensures
        r@ == label@ + optional_text(*o),
{
    match o {
        Some(s) => labeled(label, s.as_str()),
        None => labeled(label, "unknown"),
    }
}

impl DiskSnapshot {
    /// The line of this disk.
    pub fn report_line(&self) -> (r: String)
        ensures
            r@ == disk_line(*self),
    {
        let mut s = String::from_str(self.name.as_str());
        s.append("\t");
        s.append(kind_str(self.kind));
        s.append("\t");
        s.append(self.file_system.as_str());
        s.append("\t");
        s.append(self.mount_point.as_str());
        s.append("\t");
        push_gib(&mut s, self.total_space);
        s.append(" GB\t");
        push_gib(&mut s, self.available_space);
        s.append(" GB");
        assert(s@ =~= disk_line(*self));
        s
    }
}

/// The uptime line for `seconds` since boot.
pub fn uptime_report_line(seconds: u64) -> (r: String)
    ensures
        r@ == uptime_line(seconds),
{
    let (days, hours, minutes, rest) = convert_seconds(seconds);
    let mut s = labeled_number("Uptime ", seconds, " seconds is equivalent to ");
    push_decimal(&mut s, days);
    s.append(" days, ");
    push_decimal(&mut s, hours);
    s.append(" hours, ");
    push_decimal(&mut s, minutes);
    s.append(" minutes, and ");
    push_decimal(&mut s, rest);
    s.append(" seconds");
    assert(s@ =~= uptime_line(seconds));
    s
}

impl HostSnapshot {
    /// The lines of the system block, then the disk block.
    pub fn report_lines(&self) -> (r: Vec<String>)
        ensures
            texts(r@) == host_lines(*self),
    {
        let mut lines: Vec<String> = Vec::new();
        push_line(&mut lines, String::from_str("=> system:"));
        push_line(&mut lines, gib_line("Total Memory: ", self.total_memory));
        push_line(&mut lines, gib_line("Used Memory: ", self.used_memory));
        push_line(&mut lines, gib_line("Total Swap: ", self.total_swap));
        push_line(&mut lines, gib_line("Used Swap: ", self.used_swap));
        push_line(&mut lines, optional_line("System Name: ", &self.system_name));
        push_line(&mut lines, optional_line("Kernel Version: ", &self.kernel_version));
        push_line(&mut lines, optional_line("OS Version: ", &self.os_version));
        push_line(&mut lines, optional_line("Host Name: ", &self.host_name));
        push_line(&mut lines, uptime_report_line(self.uptime));
        let mut cpu = String::from_str("Average CPU Usage: ");
        push_fixed2(&mut cpu, self.average_cpu_usage);
        cpu.append("%");
        push_line(&mut lines, cpu);
        push_line(&mut lines, String::from_str("=> disks:"));
        let head = Ghost(texts(lines@));
        let mut i: usize = 0;
        while i < self.disks.len()
            invariant
                i <= self.disks@.len(),
                texts(lines@) == head@ + disk_lines(self.disks@.subrange(0, i as int)),
            decreases self.disks@.len() - i,
        {
            push_line(&mut lines, self.disks[i].report_line());
            assert(disk_lines(self.disks@.subrange(0, i as int + 1)) =~= disk_lines(
                self.disks@.subrange(0, i as int),
            ).push(disk_line(self.disks@[i as int])));
            i = i + 1;
        }
        assert(self.disks@.subrange(0, self.disks@.len() as int) =~= self.disks@);
        assert(texts(lines@) =~= host_lines(*self));
        lines
    }
}

} // verus!
