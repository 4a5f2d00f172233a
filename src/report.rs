use vstd::prelude::*;

use crate::format::{decimal, decimal_string, digit_char, format_bytes, format_bytes_spec};
use crate::snapshot::{used_space, usage_tenths, DiskInfo, NetworkInfo, SystemInfo};

verus! {

/// `t` tenths of a percent written with one decimal.
pub open spec fn percent_text(t: nat) -> Seq<char> {
    decimal(t / 10) + seq!['.', digit_char(t % 10)]
}

/// The report line of one disk: used / total (percent used, available) [file system].
pub open spec fn disk_line(d: DiskInfo) -> Seq<char> {
    let total = d.total_space as nat;
    let available = d.available_space as nat;
    "  "@ + d.name@ + ": "@ + format_bytes_spec(used_space(total, available)) + " / "@
        + format_bytes_spec(total) + " ("@ + percent_text(usage_tenths(total, available))
        + "% used, "@ + format_bytes_spec(available) + " available) ["@ + d.file_system@
        + "]\n"@
}

/// The report lines of the disks, in order.
pub open spec fn disk_lines(ds: Seq<DiskInfo>) -> Seq<char>
    decreases ds.len(),
{
    if ds.len() == 0 {
        Seq::empty()
    } else {
        disk_lines(ds.drop_last()) + disk_line(ds.last())
    }
}

/// The disk section: its heading, then one line per disk or a notice that
/// there is none.
pub open spec fn disk_section(ds: Seq<DiskInfo>) -> Seq<char> {
    if ds.len() == 0 {
        "\nDisk Usage:\n"@ + "  No disks detected\n"@
    } else {
        "\nDisk Usage:\n"@ + disk_lines(ds)
    }
}

/// The three report lines of one network interface: its name, then what it
/// received and transmitted.
pub open spec fn network_lines(n: NetworkInfo) -> Seq<char> {
    "  "@ + n.name@ + ":\n"@ + "    Received: "@ + format_bytes_spec(n.bytes_received as nat)
        + " ("@ + decimal(n.packets_received as nat) + " packets)\n"@ + "    Transmitted: "@
        + format_bytes_spec(n.bytes_transmitted as nat) + " ("@ + decimal(
        n.packets_transmitted as nat,
    ) + " packets)\n"@
}

/// The report lines of the interfaces, in order.
pub open spec fn network_block(ns: Seq<NetworkInfo>) -> Seq<char>
    decreases ns.len(),
{
    if ns.len() == 0 {
        Seq::empty()
    } else {
        network_block(ns.drop_last()) + network_lines(ns.last())
    }
}

/// The network section: its heading, then the interfaces or a notice that
/// there is none.
pub open spec fn network_section(ns: Seq<NetworkInfo>) -> Seq<char> {
    if ns.len() == 0 {
        "\nNetwork Interfaces:\n"@ + "  No network interfaces detected\n"@
    } else {
        "\nNetwork Interfaces:\n"@ + network_block(ns)
    }
}

/// The head of the report: OS, cores, and memory and swap in binary units.
pub open spec fn summary(info: SystemInfo) -> Seq<char> {
    "System Information:\n"@ + "  OS Name: "@ + info.os_name@ + "\n"@ + "  OS Version: "@
        + info.os_version@ + "\n"@ + "  CPU Cores: "@ + decimal(info.cpu_cores as nat) + "\n"@
        + "  Total Memory: "@ + format_bytes_spec(info.total_memory as nat) + "\n"@
        + "  Used Memory: "@ + format_bytes_spec(info.used_memory as nat) + "\n"@
        + "  Total Swap: "@ + format_bytes_spec(info.total_swap as nat) + "\n"@
        + "  Used Swap: "@ + format_bytes_spec(info.used_swap as nat) + "\n"@
}

/// The whole console report of a snapshot.
pub open spec fn report_text(info: SystemInfo) -> Seq<char> {
    summary(info) + disk_section(info.disks@) + network_section(info.networks@)
}

/// `t` tenths of a percent written with one decimal ("12.5").
pub fn percent_string(t: u64) -> (r: String)
    ensures
        r@ == percent_text(t as nat),
{
    let mut s = decimal_string(t / 10);
    s.append(".");
    let d = decimal_string(t % 10);
    s.append(d.as_str());
    proof {
        reveal_strlit(".");
        assert(decimal((t % 10) as nat) == seq![digit_char((t % 10) as nat)]);
    }
    assert(s@ =~= percent_text(t as nat));
    s
}

/// The report line of one disk.
pub fn disk_line_string(d: &DiskInfo) -> (r: String)
    ensures
        r@ == disk_line(*d),
{
    let mut s = String::from_str("  ");
    s.append(d.name.as_str());
    s.append(": ");
    s.append(format_bytes(d.used_space()).as_str());
    s.append(" / ");
    s.append(format_bytes(d.total_space).as_str());
    s.append(" (");
    s.append(percent_string(d.usage_tenths()).as_str());
    s.append("% used, ");
    s.append(format_bytes(d.available_space).as_str());
    s.append(" available) [");
    s.append(d.file_system.as_str());
    s.append("]\n");
    s
}

/// The three report lines of one network interface.
pub fn network_lines_string(n: &NetworkInfo) -> (r: String)
    ensures
        r@ == network_lines(*n),
{
    let mut s = String::from_str("  ");
    s.append(n.name.as_str());
    s.append(":\n");
    s.append("    Received: ");
    s.append(format_bytes(n.bytes_received).as_str());
    s.append(" (");
    s.append(decimal_string(n.packets_received).as_str());
    s.append(" packets)\n");
    s.append("    Transmitted: ");
    s.append(format_bytes(n.bytes_transmitted).as_str());
    s.append(" (");
    s.append(decimal_string(n.packets_transmitted).as_str());
    s.append(" packets)\n");
    s
}

/// The head of the report.
pub fn summary_string(info: &SystemInfo) -> (r: String)
    ensures
        r@ == summary(*info),
{
    let mut s = String::from_str("System Information:\n");
    s.append("  OS Name: ");
    s.append(info.os_name.as_str());
    s.append("\n");
    s.append("  OS Version: ");
    s.append(info.os_version.as_str());
    s.append("\n");
    s.append("  CPU Cores: ");
    s.append(decimal_string(info.cpu_cores as u64).as_str());
    s.append("\n");
    s.append("  Total Memory: ");
    s.append(format_bytes(info.total_memory).as_str());
    s.append("\n");
    s.append("  Used Memory: ");
    s.append(format_bytes(info.used_memory).as_str());
    s.append("\n");
    s.append("  Total Swap: ");
    s.append(format_bytes(info.total_swap).as_str());
    s.append("\n");
    s.append("  Used Swap: ");
    s.append(format_bytes(info.used_swap).as_str());
    s.append("\n");
    s
}

/// The disk section of the report.
pub fn disk_section_string(disks: &Vec<DiskInfo>) -> (r: String)
    ensures
        r@ == disk_section(disks@),
{
    let mut s = String::from_str("\nDisk Usage:\n");
    if disks.len() == 0 {
        s.append("  No disks detected\n");
        return s;
    }
    let ghost head = s@;
    let mut i: usize = 0;
    while i < disks.len()
        invariant
            i <= disks@.len(),
            s@ == head + disk_lines(disks@.subrange(0, i as int)),
        decreases disks@.len() - i,
    {
        let line = disk_line_string(&disks[i]);
        s.append(line.as_str());
        proof {
            assert(disks@.subrange(0, i + 1).drop_last() =~= disks@.subrange(0, i as int));
            assert(s@ =~= head + disk_lines(disks@.subrange(0, i + 1)));
        }
        i += 1;
    }
    assert(disks@.subrange(0, disks@.len() as int) =~= disks@);
    s
}

/// The network section of the report.
pub fn network_section_string(networks: &Vec<NetworkInfo>) -> (r: String)
    ensures
        r@ == network_section(networks@),
{
    let mut s = String::from_str("\nNetwork Interfaces:\n");
    if networks.len() == 0 {
        s.append("  No network interfaces detected\n");
        return s;
    }
    let ghost head = s@;
    let mut i: usize = 0;
    while i < networks.len()
        invariant
            i <= networks@.len(),
            s@ == head + network_block(networks@.subrange(0, i as int)),
        decreases networks@.len() - i,
    {
        let lines = network_lines_string(&networks[i]);
        s.append(lines.as_str());
        proof {
            assert(networks@.subrange(0, i + 1).drop_last() =~= networks@.subrange(0, i as int));
            assert(s@ =~= head + network_block(networks@.subrange(0, i + 1)));
        }
        i += 1;
    }
    assert(networks@.subrange(0, networks@.len() as int) =~= networks@);
    s
}

/// The console report of a snapshot: OS, cores, memory and swap with byte
/// counts in binary units, then one line per disk and three per network
/// interface, or a notice where there are none. Each line ends in '\n'.
pub fn report(info: &SystemInfo) -> (r: String)
    ensures
        r@ == report_text(*info),
{
    let mut s = summary_string(info);
    s.append(disk_section_string(&info.disks).as_str());
    s.append(network_section_string(&info.networks).as_str());
    s
}

} // verus!
