//! Host-wide counters, read out of the contents of the kernel's statistics
//! files.
//!
//! Each of the four files is a table of whitespace-separated words, one
//! record to a line. The functions here are handed the text of a file and
//! pick out the columns; a word that is no number counts as 0.

use crate::text::{
    chars_of, has_prefix, lines, matches_at, number_or_zero, parse_or_zero, same_text, seqs_of,
    split_lines, split_whitespace, string_of, words,
};
use crate::stats::text_of;
use vstd::prelude::*;
use vstd::string::*;

verus! {

/// Kilobytes in a megabyte.
pub const KB_PER_MB: u64 = 1_024;

/// The processor's time counters, summed over all cores, in the kernel's
/// ticks.
#[derive(Clone, Copy, Debug, PartialEq, Eq, Structural)]
pub struct CpuTimes {
    pub user: u64,
    pub system: u64,
    pub idle: u64,
    pub iowait: u64,
}

/// Main memory, in megabytes.
#[derive(Clone, Copy, Debug, PartialEq, Eq, Structural)]
pub struct MemoryUsage {
    pub total_mb: u64,
    pub used_mb: u64,
    pub free_mb: u64,
    pub avail_mb: u64,
}

/// Swap space, in megabytes.
#[derive(Clone, Copy, Debug, PartialEq, Eq, Structural)]
pub struct SwapUsage {
    pub total_mb: u64,
    pub used_mb: u64,
}

/// The counters of one block device.
#[derive(Clone, Debug, PartialEq, Eq)]
pub struct DiskCounters {
    pub device: String,
    pub reads: u64,
    pub writes: u64,
    pub sectors_read: u64,
    pub sectors_written: u64,
}

/// [`DiskCounters`] as a mathematical value.
pub struct DiskView {
    pub device: Seq<char>,
    pub reads: u64,
    pub writes: u64,
    pub sectors_read: u64,
    pub sectors_written: u64,
}

impl View for DiskCounters {
    type V = DiskView;

    open spec fn view(&self) -> DiskView {
        DiskView {
            device: self.device@,
            reads: self.reads,
            writes: self.writes,
            sectors_read: self.sectors_read,
            sectors_written: self.sectors_written,
        }
    }
}

/// The counters of one network interface.
#[derive(Clone, Debug, PartialEq, Eq)]
pub struct InterfaceCounters {
    pub interface: String,
    pub rx_bytes: u64,
    pub tx_bytes: u64,
    pub rx_packets: u64,
    pub tx_packets: u64,
    pub rx_errs: u64,
    pub tx_errs: u64,
}

/// [`InterfaceCounters`] as a mathematical value.
pub struct InterfaceView {
    pub interface: Seq<char>,
    pub rx_bytes: u64,
    pub tx_bytes: u64,
    pub rx_packets: u64,
    pub tx_packets: u64,
    pub rx_errs: u64,
    pub tx_errs: u64,
}

impl View for InterfaceCounters {
    type V = InterfaceView;

    open spec fn view(&self) -> InterfaceView {
        InterfaceView {
            interface: self.interface@,
            rx_bytes: self.rx_bytes,
            tx_bytes: self.tx_bytes,
            rx_packets: self.rx_packets,
            tx_packets: self.tx_packets,
            rx_errs: self.rx_errs,
            tx_errs: self.tx_errs,
        }
    }
}

/// The views of a sequence of disk counters.
pub open spec fn disks_of(v: Seq<DiskCounters>) -> Seq<DiskView> {
    Seq::new(v.len(), |i: int| v[i]@)
}

/// The views of a sequence of interface counters.
pub open spec fn interfaces_of(v: Seq<InterfaceCounters>) -> Seq<InterfaceView> {
    Seq::new(v.len(), |i: int| v[i]@)
}

/// The first of `lines` that begins with `cpu` and a space: the line of the
/// counters summed over all cores.
pub open spec fn first_cpu_line(lines: Seq<Seq<char>>) -> Option<Seq<char>>
    decreases lines.len(),
{
    if lines.len() == 0 {
        None
    } else if has_prefix(lines[0], "cpu "@) {
        Some(lines[0])
    } else {
        first_cpu_line(lines.drop_first())
    }
}

/// The counters of a processor line: of its words, the second is the user
/// time, the fourth the system time, the fifth the idle time and the sixth,
/// where there is one, the time spent waiting for I/O. A line of fewer than
/// five words gives nothing.
pub open spec fn cpu_line_times(line: Seq<char>) -> Option<CpuTimes> {
    let w = split_whitespace(line);
    if w.len() >= 5 {
        Some(
            CpuTimes {
                user: number_or_zero(w[1]),
                system: number_or_zero(w[3]),
                idle: number_or_zero(w[4]),
                iowait: if w.len() > 5 {
                    number_or_zero(w[5])
                } else {
                    0
                },
            },
        )
    } else {
        None
    }
}

/// The processor's counters according to the text of the processor
/// statistics file.
pub open spec fn cpu_times(content: Seq<char>) -> Option<CpuTimes> {
    match first_cpu_line(split_lines(content)) {
        Some(line) => cpu_line_times(line),
        None => None,
    }
}

/// The value of `key` in the lines of the memory statistics file: the second
/// word of the last line that has at least two words and `key` as its
/// first; 0 where there is no such line.
pub open spec fn meminfo_value(lines: Seq<Seq<char>>, key: Seq<char>) -> u64
    decreases lines.len(),
{
    if lines.len() == 0 {
        0
    } else {
        let w = split_whitespace(lines.last());
        if w.len() >= 2 && w[0] == key {
            number_or_zero(w[1])
        } else {
            meminfo_value(lines.drop_last(), key)
        }
    }
}

/// Main memory according to the text of the memory statistics file, which
/// counts in kilobytes. What is used is what is not free.
pub open spec fn memory_usage(content: Seq<char>) -> MemoryUsage {
    let l = split_lines(content);
    let total = meminfo_value(l, "MemTotal:"@);
    let free = meminfo_value(l, "MemFree:"@);
    MemoryUsage {
        total_mb: total / KB_PER_MB,
        used_mb: (if total >= free {
            (total - free) as u64
        } else {
            0
        }) / KB_PER_MB,
        free_mb: free / KB_PER_MB,
        avail_mb: meminfo_value(l, "MemAvailable:"@) / KB_PER_MB,
    }
}

/// Swap space according to the text of the memory statistics file; nothing
/// where the host has none.
pub open spec fn swap_usage(content: Seq<char>) -> Option<SwapUsage> {
    let l = split_lines(content);
    let total = meminfo_value(l, "SwapTotal:"@);
    let free = meminfo_value(l, "SwapFree:"@);
    if total > 0 {
        Some(
            SwapUsage {
                total_mb: total / KB_PER_MB,
                used_mb: (if total >= free {
                    (total - free) as u64
                } else {
                    0
                }) / KB_PER_MB,
            },
        )
    } else {
        None
    }
}

/// The counters of one line of the disk statistics file. A line of fewer
/// than fourteen words, a loop device, a RAM disk and a device that has
/// neither read nor written give nothing.
pub open spec fn disk_line(line: Seq<char>) -> Option<DiskView> {
    let w = split_whitespace(line);
    if w.len() >= 14 && !has_prefix(w[2], "loop"@) && !has_prefix(w[2], "ram"@) && (number_or_zero(
        w[3],
    ) > 0 || number_or_zero(w[7]) > 0) {
        Some(
            DiskView {
                device: w[2],
                reads: number_or_zero(w[3]),
                writes: number_or_zero(w[7]),
                sectors_read: number_or_zero(w[5]),
                sectors_written: number_or_zero(w[9]),
            },
        )
    } else {
        None
    }
}

/// The counters of the devices of `lines`, in order.
pub open spec fn disk_lines(lines: Seq<Seq<char>>) -> Seq<DiskView>
    decreases lines.len(),
{
    if lines.len() == 0 {
        Seq::empty()
    } else {
        let before = disk_lines(lines.drop_last());
        match disk_line(lines.last()) {
            Some(d) => before.push(d),
            None => before,
        }
    }
}

/// The counters of the block devices according to the text of the disk
/// statistics file.
pub open spec fn disk_counters(content: Seq<char>) -> Seq<DiskView> {
    disk_lines(split_lines(content))
}

/// `s` without the colons at its end.
pub open spec fn strip_colons(s: Seq<char>) -> Seq<char>
    decreases s.len(),
{
    if s.len() > 0 && s.last() == ':' {
        strip_colons(s.drop_last())
    } else {
        s
    }
}

/// The counters of one line of the network statistics file. A line of fewer
/// than seventeen words, the loopback interface, a virtual Ethernet pair and
/// an interface that has neither received nor sent give nothing.
pub open spec fn interface_line(line: Seq<char>) -> Option<InterfaceView> {
    let w = split_whitespace(line);
    if w.len() >= 17 && strip_colons(w[0]) != "lo"@ && !has_prefix(strip_colons(w[0]), "veth"@) && (
    number_or_zero(w[1]) > 0 || number_or_zero(w[9]) > 0) {
        Some(
            InterfaceView {
                interface: strip_colons(w[0]),
                rx_bytes: number_or_zero(w[1]),
                tx_bytes: number_or_zero(w[9]),
                rx_packets: number_or_zero(w[2]),
                tx_packets: number_or_zero(w[10]),
                rx_errs: number_or_zero(w[3]),
                tx_errs: number_or_zero(w[11]),
            },
        )
    } else {
        None
    }
}

/// The counters of the interfaces of `lines`, in order.
pub open spec fn interface_lines(lines: Seq<Seq<char>>) -> Seq<InterfaceView>
    decreases lines.len(),
{
    if lines.len() == 0 {
        Seq::empty()
    } else {
        let before = interface_lines(lines.drop_last());
        match interface_line(lines.last()) {
            Some(n) => before.push(n),
            None => before,
        }
    }
}

/// The counters of the network interfaces according to the text of the
/// network statistics file, whose first two lines are headings.
pub open spec fn interface_counters(content: Seq<char>) -> Seq<InterfaceView> {
    let l = split_lines(content);
    if l.len() <= 2 {
        Seq::empty()
    } else {
        interface_lines(l.subrange(2, l.len() as int))
    }
}

/// The processor's counters according to the text of the processor
/// statistics file.
pub fn collect_cpu_metrics(content: &str) -> (times: Option<CpuTimes>)
    ensures
        times == cpu_times(content@),
{
    let chars = chars_of(content);
    let ls = lines(&chars);
    let key = chars_of("cpu ");
    let mut i: usize = 0;
    assert(seqs_of(ls@).subrange(0, ls@.len() as int) =~= seqs_of(ls@));
    while i < ls.len()
        invariant
            i <= ls.len(),
            key@ == "cpu "@,
            seqs_of(ls@) == split_lines(content@),
            first_cpu_line(seqs_of(ls@)) == first_cpu_line(
                seqs_of(ls@).subrange(i as int, ls@.len() as int),
            ),
        decreases ls.len() - i,
    {
        let ghost rest = seqs_of(ls@).subrange(i as int, ls@.len() as int);
        assert(rest[0] == ls@[i as int]@);
        assert(rest.drop_first() =~= seqs_of(ls@).subrange(i + 1, ls@.len() as int));
        if matches_at(&ls[i], &key, 0) {
            let w = words(&ls[i]);
            if w.len() < 5 {
                return None;
            }
            assert(forall|k: int| 0 <= k < w@.len() ==> seqs_of(w@)[k] == w@[k]@);
            let iowait: u64 = if w.len() > 5 {
                parse_or_zero(&w[5])
            } else {
                0
            };
            return Some(
                CpuTimes {
                    user: parse_or_zero(&w[1]),
                    system: parse_or_zero(&w[3]),
                    idle: parse_or_zero(&w[4]),
                    iowait,
                },
            );
        }
        i += 1;
    }
    assert(seqs_of(ls@).subrange(i as int, ls@.len() as int).len() == 0);
    None
}

/// The values of the five keys of the memory statistics file that the
/// metrics are made of, in kilobytes: total, free and available memory,
/// total and free swap space.
fn meminfo_values(content: &str) -> (v: (u64, u64, u64, u64, u64))
    ensures
        v.0 == meminfo_value(split_lines(content@), "MemTotal:"@),
        v.1 == meminfo_value(split_lines(content@), "MemFree:"@),
        v.2 == meminfo_value(split_lines(content@), "MemAvailable:"@),
        v.3 == meminfo_value(split_lines(content@), "SwapTotal:"@),
        v.4 == meminfo_value(split_lines(content@), "SwapFree:"@),
{
    let chars = chars_of(content);
    let ls = lines(&chars);
    let k_total = chars_of("MemTotal:");
    let k_free = chars_of("MemFree:");
    let k_avail = chars_of("MemAvailable:");
    let k_swap_total = chars_of("SwapTotal:");
    let k_swap_free = chars_of("SwapFree:");
    let mut total: u64 = 0;
    let mut free: u64 = 0;
    let mut avail: u64 = 0;
    let mut swap_total: u64 = 0;
    let mut swap_free: u64 = 0;
    let mut i: usize = 0;
    while i < ls.len()
        invariant
            i <= ls.len(),
            k_total@ == "MemTotal:"@,
            k_free@ == "MemFree:"@,
            k_avail@ == "MemAvailable:"@,
            k_swap_total@ == "SwapTotal:"@,
            k_swap_free@ == "SwapFree:"@,
            total == meminfo_value(seqs_of(ls@).subrange(0, i as int), "MemTotal:"@),
            free == meminfo_value(seqs_of(ls@).subrange(0, i as int), "MemFree:"@),
            avail == meminfo_value(seqs_of(ls@).subrange(0, i as int), "MemAvailable:"@),
            swap_total == meminfo_value(seqs_of(ls@).subrange(0, i as int), "SwapTotal:"@),
            swap_free == meminfo_value(seqs_of(ls@).subrange(0, i as int), "SwapFree:"@),
        decreases ls.len() - i,
    {
        let ghost upto = seqs_of(ls@).subrange(0, i + 1);
        assert(upto.drop_last() =~= seqs_of(ls@).subrange(0, i as int));
        assert(upto.last() == ls@[i as int]@);
        let w = words(&ls[i]);
        if w.len() >= 2 {
            assert(seqs_of(w@)[0] == w@[0]@);
            assert(seqs_of(w@)[1] == w@[1]@);
            let value: u64 = parse_or_zero(&w[1]);
            if same_text(&w[0], &k_total) {
                total = value;
            }
            if same_text(&w[0], &k_free) {
                free = value;
            }
            if same_text(&w[0], &k_avail) {
                avail = value;
            }
            if same_text(&w[0], &k_swap_total) {
                swap_total = value;
            }
            if same_text(&w[0], &k_swap_free) {
                swap_free = value;
            }
        }
        i += 1;
    }
    assert(seqs_of(ls@).subrange(0, i as int) =~= seqs_of(ls@));
    (total, free, avail, swap_total, swap_free)
}

/// Main memory and swap space according to the text of the memory
/// statistics file.
pub fn collect_memory_metrics(content: &str) -> (usage: (MemoryUsage, Option<SwapUsage>))
    ensures
        usage.0 == memory_usage(content@),
        usage.1 == swap_usage(content@),
{
    let (total, free, avail, swap_total, swap_free) = meminfo_values(content);
    let used: u64 = if total >= free {
        total - free
    } else {
        0
    };
    let memory = MemoryUsage {
        total_mb: total / KB_PER_MB,
        used_mb: used / KB_PER_MB,
        free_mb: free / KB_PER_MB,
        avail_mb: avail / KB_PER_MB,
    };
    let swap = if swap_total > 0 {
        let swap_used: u64 = if swap_total >= swap_free {
            swap_total - swap_free
        } else {
            0
        };
        Some(SwapUsage { total_mb: swap_total / KB_PER_MB, used_mb: swap_used / KB_PER_MB })
    } else {
        None
    };
    (memory, swap)
}

/// The counters of one line of the disk statistics file.
fn parse_disk_line(line: &Vec<char>) -> (disk: Option<DiskCounters>)
    ensures
        disk is None <==> disk_line(line@) is None,
        disk matches Some(d) ==> disk_line(line@) == Some(d@),
{
    let w = words(line);
    if w.len() < 14 {
        return None;
    }
    assert(forall|k: int| 0 <= k < w@.len() ==> seqs_of(w@)[k] == w@[k]@);
    let k_loop = chars_of("loop");
    let k_ram = chars_of("ram");
    if matches_at(&w[2], &k_loop, 0) || matches_at(&w[2], &k_ram, 0) {
        return None;
    }
    let reads: u64 = parse_or_zero(&w[3]);
    let writes: u64 = parse_or_zero(&w[7]);
    if reads > 0 || writes > 0 {
        Some(
            DiskCounters {
                device: string_of(&w[2]),
                reads,
                writes,
                sectors_read: parse_or_zero(&w[5]),
                sectors_written: parse_or_zero(&w[9]),
            },
        )
    } else {
        None
    }
}

/// The counters of the block devices according to the text of the disk
/// statistics file, in the order of its lines.
pub fn collect_disk_metrics(content: &str) -> (disks: Vec<DiskCounters>)
    ensures
        disks_of(disks@) == disk_counters(content@),
{
    let chars = chars_of(content);
    let ls = lines(&chars);
    let mut disks: Vec<DiskCounters> = Vec::new();
    let mut i: usize = 0;
    assert(disks_of(disks@) =~= Seq::<DiskView>::empty());
    while i < ls.len()
        invariant
            i <= ls.len(),
            disks_of(disks@) == disk_lines(seqs_of(ls@).subrange(0, i as int)),
        decreases ls.len() - i,
    {
        let ghost upto = seqs_of(ls@).subrange(0, i + 1);
        assert(upto.drop_last() =~= seqs_of(ls@).subrange(0, i as int));
        assert(upto.last() == ls@[i as int]@);
        match parse_disk_line(&ls[i]) {
            Some(d) => {
                let ghost before = disks@;
                let ghost dv = d@;
                disks.push(d);
                assert(disks_of(disks@) =~= disks_of(before).push(dv));
            },
            None => {},
        }
        i += 1;
    }
    assert(seqs_of(ls@).subrange(0, i as int) =~= seqs_of(ls@));
    disks
}

/// The number of characters of `word` that stand before the colons at its
/// end.
fn colons_start(word: &Vec<char>) -> (end: usize)
    ensures
        end <= word.len(),
        word@.subrange(0, end as int) == strip_colons(word@),
{
    let mut end: usize = word.len();
    assert(word@.subrange(0, end as int) =~= word@);
    while end > 0 && word[end - 1] == ':'
        invariant
            end <= word.len(),
            strip_colons(word@) == strip_colons(word@.subrange(0, end as int)),
        decreases end,
    {
        assert(word@.subrange(0, end as int).drop_last() =~= word@.subrange(0, end - 1));
        end -= 1;
    }
    end
}

/// The counters of one line of the network statistics file.
fn parse_interface_line(line: &Vec<char>) -> (net: Option<InterfaceCounters>)
    ensures
        net is None <==> interface_line(line@) is None,
        net matches Some(n) ==> interface_line(line@) == Some(n@),
{
    let w = words(line);
    if w.len() < 17 {
        return None;
    }
    assert(forall|k: int| 0 <= k < w@.len() ==> seqs_of(w@)[k] == w@[k]@);
    let end = colons_start(&w[0]);
    let mut name: Vec<char> = Vec::new();
    let mut j: usize = 0;
    while j < end
        invariant
            w@.len() > 0,
            j <= end <= w@[0]@.len(),
            name@ == w@[0]@.subrange(0, j as int),
        decreases end - j,
    {
        name.push(w[0][j]);
        assert(w@[0]@.subrange(0, j + 1) =~= w@[0]@.subrange(0, j as int).push(w@[0]@[j as int]));
        j += 1;
    }
    let k_lo = chars_of("lo");
    let k_veth = chars_of("veth");
    if same_text(&name, &k_lo) || matches_at(&name, &k_veth, 0) {
        return None;
    }
    let rx_bytes: u64 = parse_or_zero(&w[1]);
    let tx_bytes: u64 = parse_or_zero(&w[9]);
    if rx_bytes > 0 || tx_bytes > 0 {
        Some(
            InterfaceCounters {
                interface: string_of(&name),
                rx_bytes,
                tx_bytes,
                rx_packets: parse_or_zero(&w[2]),
                tx_packets: parse_or_zero(&w[10]),
                rx_errs: parse_or_zero(&w[3]),
                tx_errs: parse_or_zero(&w[11]),
            },
        )
    } else {
        None
    }
}

/// The counters of the network interfaces according to the text of the
/// network statistics file, in the order of its lines.
pub fn collect_network_metrics(content: &str) -> (nets: Vec<InterfaceCounters>)
    ensures
        interfaces_of(nets@) == interface_counters(content@),
{
    let chars = chars_of(content);
    let ls = lines(&chars);
    let mut nets: Vec<InterfaceCounters> = Vec::new();
    assert(interfaces_of(nets@) =~= Seq::<InterfaceView>::empty());
    if ls.len() <= 2 {
        return nets;
    }
    let mut i: usize = 2;
    assert(seqs_of(ls@).subrange(2, 2) =~= Seq::<Seq<char>>::empty());
    while i < ls.len()
        invariant
            2 <= i <= ls.len(),
            interfaces_of(nets@) == interface_lines(seqs_of(ls@).subrange(2, i as int)),
        decreases ls.len() - i,
    {
        let ghost upto = seqs_of(ls@).subrange(2, i + 1);
        assert(upto.drop_last() =~= seqs_of(ls@).subrange(2, i as int));
        assert(upto.last() == ls@[i as int]@);
        match parse_interface_line(&ls[i]) {
            Some(n) => {
                let ghost before = nets@;
                let ghost nv = n@;
                nets.push(n);
                assert(interfaces_of(nets@) =~= interfaces_of(before).push(nv));
            },
            None => {},
        }
        i += 1;
    }
    nets
}

/// The text of the four statistics files, each as far as it could be read.
#[derive(Clone, Debug, PartialEq, Eq)]
pub struct ProcFiles {
    /// The processor statistics file.
    pub stat: Option<String>,
    /// The memory statistics file.
    pub meminfo: Option<String>,
    /// The disk statistics file.
    pub diskstats: Option<String>,
    /// The network statistics file.
    pub net_dev: Option<String>,
}

/// [`ProcFiles`] as a mathematical value.
pub struct ProcFilesView {
    pub stat: Option<Seq<char>>,
    pub meminfo: Option<Seq<char>>,
    pub diskstats: Option<Seq<char>>,
    pub net_dev: Option<Seq<char>>,
}

impl View for ProcFiles {
    type V = ProcFilesView;

    open spec fn view(&self) -> ProcFilesView {
        ProcFilesView {
            stat: text_of(self.stat),
            meminfo: text_of(self.meminfo),
            diskstats: text_of(self.diskstats),
            net_dev: text_of(self.net_dev),
        }
    }
}

/// The file for want of which the collection of host metrics breaks off.
#[derive(Clone, Copy, Debug, PartialEq, Eq, Structural)]
pub enum SystemFailure {
    /// The processor statistics file could not be read: nothing was
    /// collected.
    ProcessorFile,
    /// The memory statistics file could not be read: only the processor's
    /// counters were collected.
    MemoryFile,
}

/// The host-wide metrics of one collection.
#[derive(Clone, Debug, PartialEq, Eq)]
pub struct SystemMetrics {
    /// The node on which the metrics were taken.
    pub node_id: String,
    pub cpu: Option<CpuTimes>,
    pub memory: Option<MemoryUsage>,
    pub swap: Option<SwapUsage>,
    pub disks: Vec<DiskCounters>,
    pub interfaces: Vec<InterfaceCounters>,
    /// Why the collection broke off, where it did.
    pub failure: Option<SystemFailure>,
}

/// [`SystemMetrics`] as a mathematical value.
pub struct SystemMetricsView {
    pub node_id: Seq<char>,
    pub cpu: Option<CpuTimes>,
    pub memory: Option<MemoryUsage>,
    pub swap: Option<SwapUsage>,
    pub disks: Seq<DiskView>,
    pub interfaces: Seq<InterfaceView>,
    pub failure: Option<SystemFailure>,
}

impl View for SystemMetrics {
    type V = SystemMetricsView;

    open spec fn view(&self) -> SystemMetricsView {
        SystemMetricsView {
            node_id: self.node_id@,
            cpu: self.cpu,
            memory: self.memory,
            swap: self.swap,
            disks: disks_of(self.disks@),
            interfaces: interfaces_of(self.interfaces@),
            failure: self.failure,
        }
    }
}

/// The host-wide metrics according to the four files. The files are taken
/// in order: processor, memory, disks, network. The first two are needed:
/// where one of them could not be read the collection breaks off there, and
/// what would have followed is left out. A disk or network file that could
/// not be read leaves only its own part empty.
pub open spec fn system_metrics(node: Seq<char>, files: ProcFilesView) -> SystemMetricsView {
    match files.stat {
        None => SystemMetricsView {
            node_id: node,
            cpu: None,
            memory: None,
            swap: None,
            disks: Seq::empty(),
            interfaces: Seq::empty(),
            failure: Some(SystemFailure::ProcessorFile),
        },
        Some(stat) => match files.meminfo {
            None => SystemMetricsView {
                node_id: node,
                cpu: cpu_times(stat),
                memory: None,
                swap: None,
                disks: Seq::empty(),
                interfaces: Seq::empty(),
                failure: Some(SystemFailure::MemoryFile),
            },
            Some(meminfo) => SystemMetricsView {
                node_id: node,
                cpu: cpu_times(stat),
                memory: Some(memory_usage(meminfo)),
                swap: swap_usage(meminfo),
                disks: match files.diskstats {
                    Some(d) => disk_counters(d),
                    None => Seq::empty(),
                },
                interfaces: match files.net_dev {
                    Some(n) => interface_counters(n),
                    None => Seq::empty(),
                },
                failure: None,
            },
        },
    }
}

/// The host-wide metrics of the node `node_name` according to the four
/// statistics files.
pub fn collect_system_metrics(node_name: &str, files: &ProcFiles) -> (metrics: SystemMetrics)
    ensures
        metrics@ == system_metrics(node_name@, files@),
{
    let mut metrics = SystemMetrics {
        node_id: String::from_str(node_name),
        cpu: None,
        memory: None,
        swap: None,
        disks: Vec::new(),
        interfaces: Vec::new(),
        failure: None,
    };
    assert(disks_of(metrics.disks@) =~= Seq::<DiskView>::empty());
    assert(interfaces_of(metrics.interfaces@) =~= Seq::<InterfaceView>::empty());
    match &files.stat {
        None => {
            metrics.failure = Some(SystemFailure::ProcessorFile);
            return metrics;
        },
        Some(stat) => {
            metrics.cpu = collect_cpu_metrics(stat.as_str());
        },
    }
    match &files.meminfo {
        None => {
            metrics.failure = Some(SystemFailure::MemoryFile);
            return metrics;
        },
        Some(meminfo) => {
            let (memory, swap) = collect_memory_metrics(meminfo.as_str());
            metrics.memory = Some(memory);
            metrics.swap = swap;
        },
    }
    match &files.diskstats {
        Some(d) => {
            metrics.disks = collect_disk_metrics(d.as_str());
        },
        None => {},
    }
    match &files.net_dev {
        Some(n) => {
            metrics.interfaces = collect_network_metrics(n.as_str());
        },
        None => {},
    }
    metrics
}

} // verus!
