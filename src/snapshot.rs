use vstd::prelude::*;

use crate::format::round_half_even;

verus! {

/// Usage figures of one disk or partition.
pub struct DiskInfo {
    /// Mount point of the disk.
    pub name: String,
    /// File system type ("ext4", "NTFS", ...).
    pub file_system: String,
    /// Total space in bytes.
    pub total_space: u64,
    /// Available space in bytes.
    pub available_space: u64,
}

/// Traffic counters of one network interface, since boot.
pub struct NetworkInfo {
    /// Interface name ("eth0", ...).
    pub name: String,
    pub bytes_received: u64,
    pub bytes_transmitted: u64,
    pub packets_received: u64,
    pub packets_transmitted: u64,
}

/// One snapshot of the host's metrics; byte counts are raw.
pub struct SystemInfo {
    pub os_name: String,
    pub os_version: String,
    /// Physical CPU cores; 0 when unknown.
    pub cpu_cores: usize,
    pub total_memory: u64,
    pub used_memory: u64,
    pub total_swap: u64,
    pub used_swap: u64,
    /// Disks in the order the host reports them.
    pub disks: Vec<DiskInfo>,
    /// Network interfaces in the order the host reports them.
    pub networks: Vec<NetworkInfo>,
}

/// The text that stands in for a name the host does not report.
pub open spec fn unavailable_text() -> Seq<char> {
    seq!['N', '/', 'A']
}

/// A reported text, or the stand-in when it is missing.
pub open spec fn text_or_unavailable(v: Option<String>) -> Seq<char> {
    match v {
        Some(s) => s@,
        None => unavailable_text(),
    }
}

/// Used space of a disk: total less available, or 0 where the host reports
/// more available than total.
pub open spec fn used_space(total: nat, available: nat) -> nat {
    if available <= total {
        (total - available) as nat
    } else {
        0
    }
}

/// Share of a disk in use, in tenths of a percent rounded half to even;
/// 0 for a disk of no size.
pub open spec fn usage_tenths(total: nat, available: nat) -> nat {
    if total == 0 {
        0
    } else {
        round_half_even(used_space(total, available) * 1000, total)
    }
}

fn text_or_unavailable_exec(v: Option<String>) -> (r: String)
    ensures
        r@ == text_or_unavailable(v),
{
    match v {
        Some(s) => s,
        None => {
            proof {
                reveal_strlit("N/A");
            }
            String::from_str("N/A")
        },
    }
}

impl DiskInfo {
    /// Used space in bytes.
    pub fn used_space(&self) -> (r: u64)
        ensures
            r as nat == used_space(self.total_space as nat, self.available_space as nat),
    {
        if self.available_space <= self.total_space {
            self.total_space - self.available_space
        } else {
            0
        }
    }

    /// Share of the disk in use, in tenths of a percent (0.0 for a disk of no size).
    pub fn usage_tenths(&self) -> (r: u64)
        ensures
            r as nat == usage_tenths(self.total_space as nat, self.available_space as nat),
            self.total_space == 0 ==> r == 0,
    {
        if self.total_space == 0 {
            0
        } else {
            let used = self.used_space();
            let x: u128 = used as u128 * 1000;
            let d: u128 = self.total_space as u128;
            let q = x / d;
            let rem = x % d;
            proof {
                vstd::arithmetic::div_mod::lemma_div_is_ordered(x as int, (d * 1000) as int, d as int);
                vstd::arithmetic::div_mod::lemma_div_by_multiple(1000, d as int);
            }
            assert(q <= 1000);
            if 2 * rem > d || (2 * rem == d && q % 2 == 1) {
                (q + 1) as u64
            } else {
                q as u64
            }
        }
    }
}

impl SystemInfo {
    /// Builds the snapshot from the host's readings: a missing name or version
    /// becomes "N/A", a missing core count 0; the rest is kept as given.
    pub fn from_readings(
        os_name: Option<String>,
        os_version: Option<String>,
        cpu_cores: Option<usize>,
        total_memory: u64,
        used_memory: u64,
        total_swap: u64,
        used_swap: u64,
        disks: Vec<DiskInfo>,
        networks: Vec<NetworkInfo>,
    ) -> (r: SystemInfo)
        ensures
            r.os_name@ == text_or_unavailable(os_name),
            r.os_version@ == text_or_unavailable(os_version),
            r.cpu_cores == match cpu_cores {
                Some(c) => c,
                None => 0,
            },
            r.total_memory == total_memory,
            r.used_memory == used_memory,
            r.total_swap == total_swap,
            r.used_swap == used_swap,
            r.disks@ == disks@,
            r.networks@ == networks@,
    {
        let cores = match cpu_cores {
            Some(c) => c,
            None => 0,
        };
        SystemInfo {
            os_name: text_or_unavailable_exec(os_name),
            os_version: text_or_unavailable_exec(os_version),
            cpu_cores: cores,
            total_memory,
            used_memory,
            total_swap,
            used_swap,
            disks,
            networks,
        }
    }
}

/// A disk of no size is shown as 0.0% used, whatever space it reports as
/// available.
pub proof fn lemma_empty_disk_unused(available: nat)
    ensures
        usage_tenths(0, available) == 0,
{
}

} // verus!
