//! Reading counters out of the contents of a cgroup's files, and the sample
//! that they make up.
//!
//! The functions here never see a file: they are handed what was read, or
//! `None` where nothing could be read. A missing file and a file that does
//! not parse both leave their one field at zero; the other fields are
//! unaffected.

use crate::text::{
    chars_of, has_prefix, lemma_number_is_one_word, lemma_split_lines_single,
    lemma_split_whitespace_two_words, lines, matches_at, no_line_feed, no_whitespace, parse_u64,
    parse_u64_between, seqs_of, split_lines, split_whitespace, trim, trim_bounds, words,
};
use vstd::prelude::*;
use vstd::string::*;

verus! {

/// Microseconds in a millisecond.
pub const USEC_PER_MS: u64 = 1_000;

/// Nanoseconds in a millisecond.
pub const NSEC_PER_MS: u64 = 1_000_000;

/// Bytes in a megabyte.
pub const BYTES_PER_MB: u64 = 1_048_576;

/// The least memory limit of the split hierarchy that stands for "no
/// limit": half of the greatest 64-bit number.
pub const UNLIMITED_FROM: u64 = 0x7FFF_FFFF_FFFF_FFFF;

/// The key of the usage line in the unified hierarchy's CPU file.
pub const USAGE_KEY: &'static str = "usage_usec";

/// The content of the unified hierarchy's memory ceiling file that stands
/// for "no limit".
pub const NO_CEILING: &'static str = "max";

/// One snapshot of a pod's or container's counters.
#[derive(Clone, Debug, PartialEq, Eq)]
pub struct ResourceSample {
    /// The node on which the sample was taken.
    pub node_id: String,
    /// The directory name of the pod.
    pub pod_id: String,
    /// The directory name of the container; `None` in the unified hierarchy,
    /// where a sample stands for a whole pod.
    pub container_id: Option<String>,
    /// CPU time consumed so far, in milliseconds.
    pub cpu_ms: u64,
    /// Memory in use, in megabytes.
    pub mem_mb: u64,
    /// Memory limit in megabytes; 0 where there is none or it is unknown.
    pub mem_limit_mb: u64,
}

/// A [`ResourceSample`] as a mathematical value.
pub struct SampleView {
    pub node_id: Seq<char>,
    pub pod_id: Seq<char>,
    pub container_id: Option<Seq<char>>,
    pub cpu_ms: u64,
    pub mem_mb: u64,
    pub mem_limit_mb: u64,
}

impl View for ResourceSample {
    type V = SampleView;

    open spec fn view(&self) -> SampleView {
        SampleView {
            node_id: self.node_id@,
            pod_id: self.pod_id@,
            container_id: text_of(self.container_id),
            cpu_ms: self.cpu_ms,
            mem_mb: self.mem_mb,
            mem_limit_mb: self.mem_limit_mb,
        }
    }
}

/// What was read of the three counter files of one cgroup: the content of
/// each, or `None` where the file could not be read.
#[derive(Clone, Debug, PartialEq, Eq)]
pub struct StatFiles {
    /// The CPU usage file.
    pub cpu: Option<String>,
    /// The memory usage file.
    pub mem_usage: Option<String>,
    /// The memory limit file.
    pub mem_limit: Option<String>,
}

/// [`StatFiles`] as a mathematical value.
pub struct StatFilesView {
    pub cpu: Option<Seq<char>>,
    pub mem_usage: Option<Seq<char>>,
    pub mem_limit: Option<Seq<char>>,
}

impl View for StatFiles {
    type V = StatFilesView;

    open spec fn view(&self) -> StatFilesView {
        StatFilesView {
            cpu: text_of(self.cpu),
            mem_usage: text_of(self.mem_usage),
            mem_limit: text_of(self.mem_limit),
        }
    }
}

/// The characters of an optional string.
pub open spec fn text_of(s: Option<String>) -> Option<Seq<char>> {
    match s {
        Some(t) => Some(t@),
        None => None,
    }
}

/// What one line of the unified hierarchy's CPU file says of the usage, in
/// milliseconds: the line begins with the usage key, is made of exactly two
/// words, and the second is a number of microseconds. Any other line says
/// nothing.
pub open spec fn usage_line_ms(line: Seq<char>) -> Option<u64> {
    let w = split_whitespace(line);
    if has_prefix(line, USAGE_KEY@) && w.len() == 2 {
        match parse_u64(w[1]) {
            Some(usec) => Some(usec / USEC_PER_MS),
            None => None,
        }
    } else {
        None
    }
}

/// What the last of `lines` that says anything of the usage says of it.
pub open spec fn last_usage_ms(lines: Seq<Seq<char>>) -> Option<u64>
    decreases lines.len(),
{
    if lines.len() == 0 {
        None
    } else {
        match usage_line_ms(lines.last()) {
            Some(ms) => Some(ms),
            None => last_usage_ms(lines.drop_last()),
        }
    }
}

/// CPU time in milliseconds according to the unified hierarchy's CPU file:
/// what its last usage line says, or 0 where no line says anything.
pub open spec fn cpu_stat_ms(content: Seq<char>) -> u64 {
    match last_usage_ms(split_lines(content)) {
        Some(ms) => ms,
        None => 0,
    }
}

/// CPU time in milliseconds according to the split hierarchy's usage file,
/// which holds one number of nanoseconds; 0 where it holds no number.
pub open spec fn cpu_usage_ms(content: Seq<char>) -> u64 {
    match parse_u64(trim(content)) {
        Some(nsec) => nsec / NSEC_PER_MS,
        None => 0,
    }
}

/// Megabytes according to a file that holds one number of bytes; 0 where it
/// holds no number.
pub open spec fn bytes_mb(content: Seq<char>) -> u64 {
    match parse_u64(trim(content)) {
        Some(bytes) => bytes / BYTES_PER_MB,
        None => 0,
    }
}

/// The memory limit in megabytes according to the unified hierarchy's
/// ceiling file: 0 for the word that stands for "no limit", which is never
/// read as a number, and else as for any file of bytes.
pub open spec fn ceiling_mb(content: Seq<char>) -> u64 {
    if trim(content) == NO_CEILING@ {
        0
    } else {
        bytes_mb(content)
    }
}

/// The memory limit in megabytes according to the split hierarchy's limit
/// file: 0 for a number from [`UNLIMITED_FROM`] on, which stands for "no
/// limit", and for what is no number.
pub open spec fn limit_mb(content: Seq<char>) -> u64 {
    match parse_u64(trim(content)) {
        Some(bytes) => if bytes < UNLIMITED_FROM {
            bytes / BYTES_PER_MB
        } else {
            0
        },
        None => 0,
    }
}

/// The sample of a pod of the unified hierarchy.
pub open spec fn pod_sample(node: Seq<char>, pod: Seq<char>, files: StatFilesView) -> SampleView {
    SampleView {
        node_id: node,
        pod_id: pod,
        container_id: None,
        cpu_ms: match files.cpu {
            Some(c) => cpu_stat_ms(c),
            None => 0,
        },
        mem_mb: match files.mem_usage {
            Some(c) => bytes_mb(c),
            None => 0,
        },
        mem_limit_mb: match files.mem_limit {
            Some(c) => ceiling_mb(c),
            None => 0,
        },
    }
}

/// The sample of a container of the split hierarchy.
pub open spec fn container_sample(
    node: Seq<char>,
    pod: Seq<char>,
    container: Seq<char>,
    files: StatFilesView,
) -> SampleView {
    SampleView {
        node_id: node,
        pod_id: pod,
        container_id: Some(container),
        cpu_ms: match files.cpu {
            Some(c) => cpu_usage_ms(c),
            None => 0,
        },
        mem_mb: match files.mem_usage {
            Some(c) => bytes_mb(c),
            None => 0,
        },
        mem_limit_mb: match files.mem_limit {
            Some(c) => limit_mb(c),
            None => 0,
        },
    }
}

/// What one line of the unified hierarchy's CPU file says of the usage.
fn usage_line(line: &Vec<char>) -> (r: Option<u64>)
    ensures
        r == usage_line_ms(line@),
{
    let key = chars_of(USAGE_KEY);
    if !matches_at(line, &key, 0) {
        return None;
    }
    let w = words(line);
    if w.len() != 2 {
        return None;
    }
    assert(seqs_of(w@)[1] == w@[1]@);
    assert(w@[1]@.subrange(0, w@[1]@.len() as int) =~= w@[1]@);
    match parse_u64_between(&w[1], 0, w[1].len()) {
        Some(usec) => Some(usec / USEC_PER_MS),
        None => None,
    }
}

/// CPU time in milliseconds according to the unified hierarchy's CPU file.
pub fn parse_cpu_stat(content: &str) -> (ms: u64)
    ensures
        ms == cpu_stat_ms(content@),
{
    let chars = chars_of(content);
    let ls = lines(&chars);
    let mut found: Option<u64> = None;
    let mut i: usize = 0;
    while i < ls.len()
        invariant
            i <= ls.len(),
            found == last_usage_ms(seqs_of(ls@).subrange(0, i as int)),
        decreases ls.len() - i,
    {
        let ghost upto = seqs_of(ls@).subrange(0, i + 1);
        assert(upto.drop_last() =~= seqs_of(ls@).subrange(0, i as int));
        assert(upto.last() == ls@[i as int]@);
        match usage_line(&ls[i]) {
            Some(ms) => {
                found = Some(ms);
            },
            None => {},
        }
        i += 1;
    }
    assert(seqs_of(ls@).subrange(0, i as int) =~= seqs_of(ls@));
    match found {
        Some(ms) => ms,
        None => 0,
    }
}

/// CPU time in milliseconds according to the split hierarchy's usage file.
pub fn parse_cpu_usage(content: &str) -> (ms: u64)
    ensures
        ms == cpu_usage_ms(content@),
{
    let chars = chars_of(content);
    let (lo, hi) = trim_bounds(&chars);
    match parse_u64_between(&chars, lo, hi) {
        Some(nsec) => nsec / NSEC_PER_MS,
        None => 0,
    }
}

/// Megabytes according to a file that holds one number of bytes.
pub fn parse_bytes_mb(content: &str) -> (mb: u64)
    ensures
        mb == bytes_mb(content@),
{
    let chars = chars_of(content);
    let (lo, hi) = trim_bounds(&chars);
    match parse_u64_between(&chars, lo, hi) {
        Some(bytes) => bytes / BYTES_PER_MB,
        None => 0,
    }
}

/// The memory limit in megabytes according to the unified hierarchy's
/// ceiling file.
pub fn parse_ceiling_mb(content: &str) -> (mb: u64)
    ensures
        mb == ceiling_mb(content@),
{
    let chars = chars_of(content);
    let (lo, hi) = trim_bounds(&chars);
    let word = chars_of(NO_CEILING);
    if hi - lo == word.len() && matches_at(&chars, &word, lo) {
        return 0;
    }
    match parse_u64_between(&chars, lo, hi) {
        Some(bytes) => bytes / BYTES_PER_MB,
        None => 0,
    }
}

/// The memory limit in megabytes according to the split hierarchy's limit
/// file.
pub fn parse_limit_mb(content: &str) -> (mb: u64)
    ensures
        mb == limit_mb(content@),
{
    let chars = chars_of(content);
    let (lo, hi) = trim_bounds(&chars);
    match parse_u64_between(&chars, lo, hi) {
        Some(bytes) => if bytes < UNLIMITED_FROM {
            bytes / BYTES_PER_MB
        } else {
            0
        },
        None => 0,
    }
}

/// The sample of a pod of the unified hierarchy, from what was read of its
/// three files.
pub fn collect_pod_cgroup_v2(node_name: &str, pod_id: &str, files: &StatFiles) -> (sample:
    ResourceSample)
    ensures
        sample@ == pod_sample(node_name@, pod_id@, files@),
{
    let cpu_ms: u64 = match &files.cpu {
        Some(c) => parse_cpu_stat(c.as_str()),
        None => 0,
    };
    let mem_mb: u64 = match &files.mem_usage {
        Some(c) => parse_bytes_mb(c.as_str()),
        None => 0,
    };
    let mem_limit_mb: u64 = match &files.mem_limit {
        Some(c) => parse_ceiling_mb(c.as_str()),
        None => 0,
    };
    ResourceSample {
        node_id: String::from_str(node_name),
        pod_id: String::from_str(pod_id),
        container_id: None,
        cpu_ms,
        mem_mb,
        mem_limit_mb,
    }
}

/// The sample of a container of the split hierarchy, from what was read of
/// its three files.
pub fn collect_container_cgroup_v1(
    node_name: &str,
    pod_id: &str,
    container_id: &str,
    files: &StatFiles,
) -> (sample: ResourceSample)
    ensures
        sample@ == container_sample(node_name@, pod_id@, container_id@, files@),
{
    let cpu_ms: u64 = match &files.cpu {
        Some(c) => parse_cpu_usage(c.as_str()),
        None => 0,
    };
    let mem_mb: u64 = match &files.mem_usage {
        Some(c) => parse_bytes_mb(c.as_str()),
        None => 0,
    };
    let mem_limit_mb: u64 = match &files.mem_limit {
        Some(c) => parse_limit_mb(c.as_str()),
        None => 0,
    };
    ResourceSample {
        node_id: String::from_str(node_name),
        pod_id: String::from_str(pod_id),
        container_id: Some(String::from_str(container_id)),
        cpu_ms,
        mem_mb,
        mem_limit_mb,
    }
}

/// The unified hierarchy counts CPU time in microseconds: a usage line that
/// carries the number `usec` makes the sample's CPU time `usec / 1000`,
/// rounded down.
pub proof fn lemma_cpu_stat_rounds_down(number: Seq<char>, usec: u64)
    requires
        parse_u64(number) == Some(usec),
    ensures
        usage_line_ms(USAGE_KEY@.push(' ') + number) == Some((usec / 1_000) as u64),
        cpu_stat_ms(USAGE_KEY@.push(' ') + number) == usec / 1_000,
{
    reveal_strlit("usage_usec");
    let key = USAGE_KEY@;
    let line = key.push(' ') + number;
    lemma_number_is_one_word(number);
    assert(no_whitespace(key));
    lemma_split_whitespace_two_words(key, ' ', number);
    assert(line.subrange(0, key.len() as int) =~= key);
    assert(has_prefix(line, key));
    assert(split_whitespace(line)[1] == number);
    assert(no_line_feed(line));
    lemma_split_lines_single(line);
    assert(seq![line].last() == line);
}

/// The split hierarchy counts CPU time in nanoseconds: a usage file that
/// holds the number `nsec` makes the sample's CPU time `nsec / 1_000_000`,
/// rounded down.
pub proof fn lemma_cpu_usage_rounds_down(content: Seq<char>, nsec: u64)
    requires
        parse_u64(trim(content)) == Some(nsec),
    ensures
        cpu_usage_ms(content) == nsec / 1_000_000,
{
}

/// A limit of the split hierarchy from half of the greatest 64-bit number on
/// stands for "no limit" and is reported as 0, never as itself.
pub proof fn lemma_huge_limit_is_unlimited(content: Seq<char>, bytes: u64)
    requires
        parse_u64(trim(content)) == Some(bytes),
        bytes >= u64::MAX / 2,
    ensures
        limit_mb(content) == 0,
        UNLIMITED_FROM == u64::MAX / 2,
{
}

/// A limit of the split hierarchy below that bound is reported in whole
/// megabytes.
pub proof fn lemma_limit_below_bound(content: Seq<char>, bytes: u64)
    requires
        parse_u64(trim(content)) == Some(bytes),
        bytes < u64::MAX / 2,
    ensures
        limit_mb(content) == bytes / 1_048_576,
{
}

/// The unified hierarchy's word for "no limit" is reported as 0, and so is
/// any other ceiling that is no number.
pub proof fn lemma_no_ceiling_is_unlimited(content: Seq<char>)
    requires
        trim(content) == NO_CEILING@ || parse_u64(trim(content)) is None,
    ensures
        ceiling_mb(content) == 0,
{
}

/// A file that could not be read leaves its own field at zero and the other
/// two as they would have been.
pub proof fn lemma_missing_file_zeroes_one_field(
    node: Seq<char>,
    pod: Seq<char>,
    container: Seq<char>,
    files: StatFilesView,
)
    ensures
        files.cpu is None ==> container_sample(node, pod, container, files).cpu_ms == 0
            && pod_sample(node, pod, files).cpu_ms == 0,
        files.mem_usage is None ==> container_sample(node, pod, container, files).mem_mb == 0
            && pod_sample(node, pod, files).mem_mb == 0,
        files.mem_limit is None ==> container_sample(node, pod, container, files).mem_limit_mb
            == 0 && pod_sample(node, pod, files).mem_limit_mb == 0,
        container_sample(node, pod, container, files).mem_mb == container_sample(
            node,
            pod,
            container,
            StatFilesView { cpu: None, mem_usage: files.mem_usage, mem_limit: None },
        ).mem_mb,
        container_sample(node, pod, container, files).cpu_ms == container_sample(
            node,
            pod,
            container,
            StatFilesView { cpu: files.cpu, mem_usage: None, mem_limit: None },
        ).cpu_ms,
        container_sample(node, pod, container, files).mem_limit_mb == container_sample(
            node,
            pod,
            container,
            StatFilesView { cpu: None, mem_usage: None, mem_limit: files.mem_limit },
        ).mem_limit_mb,
{
}

} // verus!
