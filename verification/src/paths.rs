//! The fixed paths of the two hierarchies, and the textual rules by which
//! further paths are derived from them.
//!
//! Paths are text. Nothing here resolves a link or asks the file system: the
//! correspondence between the controller trees is one of spelling.

use crate::text::{chars_of, find, has_substring, is_first_occurrence, occurs_at};
use vstd::prelude::*;
use vstd::string::*;

verus! {

/// The file whose existence marks the unified hierarchy.
pub const V2_MARKER: &'static str = "/sys/fs/cgroup/cgroup.controllers";

/// The directory below which the unified hierarchy keeps its pods.
pub const V2_ROOT: &'static str = "/sys/fs/cgroup/kubepods.slice";

/// The root of the split hierarchy's CPU tree, tried first.
pub const V1_ROOT: &'static str = "/sys/fs/cgroup/cpu/kubepods";

/// The root of the split hierarchy's CPU tree, tried second.
pub const V1_ROOT_FALLBACK: &'static str = "/sys/fs/cgroup/cpu/kubepods.slice";

/// The name that every root carries; a listing failure on a path that holds
/// it is reported.
pub const ROOT_NAME: &'static str = "kubepods";

/// The path segment of the CPU controller's tree.
pub const CPU_SEGMENT: &'static str = "/cpu/";

/// The path segment of the memory controller's tree.
pub const MEMORY_SEGMENT: &'static str = "/memory/";

/// The CPU usage file of a pod in the unified hierarchy.
pub const V2_CPU_FILE: &'static str = "cpu.stat";

/// The memory usage file of a pod in the unified hierarchy.
pub const V2_MEMORY_FILE: &'static str = "memory.current";

/// The memory ceiling file of a pod in the unified hierarchy.
pub const V2_CEILING_FILE: &'static str = "memory.max";

/// The CPU usage file of a container in the split hierarchy's CPU tree.
pub const V1_CPU_FILE: &'static str = "cpuacct.usage";

/// The memory usage file of a container in the split hierarchy's memory
/// tree.
pub const V1_MEMORY_FILE: &'static str = "memory.usage_in_bytes";

/// The memory limit file of a container in the split hierarchy's memory
/// tree.
pub const V1_LIMIT_FILE: &'static str = "memory.limit_in_bytes";

/// The path of the entry `name` of the directory `dir`.
pub open spec fn child_path(dir: Seq<char>, name: Seq<char>) -> Seq<char> {
    dir + "/"@ + name
}

/// `s` with `old_len` characters from position `i` on replaced by `new`.
pub open spec fn splice(s: Seq<char>, i: int, old_len: int, new: Seq<char>) -> Seq<char> {
    s.subrange(0, i) + new + s.subrange(i + old_len, s.len() as int)
}

/// `s` with the leftmost occurrence of `pat` replaced by `new`; `s` itself
/// where `pat` does not occur.
pub open spec fn replace_first(s: Seq<char>, pat: Seq<char>, new: Seq<char>) -> Seq<char> {
    if has_substring(s, pat) {
        splice(s, choose|i: int| is_first_occurrence(pat, s, i), pat.len() as int, new)
    } else {
        s
    }
}

/// The path in the memory controller's tree that corresponds to a path in
/// the CPU controller's tree: the leftmost CPU segment becomes the memory
/// segment, and nothing else changes.
pub open spec fn memory_path(cpu_path: Seq<char>) -> Seq<char> {
    replace_first(cpu_path, CPU_SEGMENT@, MEMORY_SEGMENT@)
}

/// The leftmost occurrence is unique, so `replace_first` is the splice at
/// whichever position is shown to be leftmost.
pub proof fn lemma_replace_first_at(s: Seq<char>, pat: Seq<char>, new: Seq<char>, i: int)
    requires
        is_first_occurrence(pat, s, i),
    ensures
        replace_first(s, pat, new) == splice(s, i, pat.len() as int, new),
{
    let j = choose|j: int| is_first_occurrence(pat, s, j);
    assert(is_first_occurrence(pat, s, j));
    assert(i == j);
}

/// The path of the entry `name` of the directory `dir`.
pub fn join_path(dir: &str, name: &str) -> (path: String)
    ensures
        path@ == child_path(dir@, name@),
{
    let mut path = String::from_str(dir);
    path.append("/");
    path.append(name);
    path
}

/// The path in the memory controller's tree that corresponds to `cpu_path`.
pub fn derive_memory_path(cpu_path: &str) -> (path: String)
    ensures
        path@ == memory_path(cpu_path@),
{
    let chars = chars_of(cpu_path);
    let segment = chars_of(CPU_SEGMENT);
    match find(&chars, &segment) {
        Some(i) => {
            proof {
                lemma_replace_first_at(cpu_path@, CPU_SEGMENT@, MEMORY_SEGMENT@, i as int);
            }
            let total: usize = chars.len();
            assert(occurs_at(segment@, chars@, i as int));
            let after: usize = i + segment.len();
            let mut path = String::from_str(cpu_path.substring_char(0, i));
            path.append(MEMORY_SEGMENT);
            path.append(cpu_path.substring_char(after, total));
            path
        },
        None => String::from_str(cpu_path),
    }
}

/// A path whose leftmost CPU segment follows `before` has the memory segment
/// in that place, with what stands before and after it unchanged.
pub proof fn lemma_memory_path_swaps_segment(before: Seq<char>, after: Seq<char>)
    requires
        is_first_occurrence(CPU_SEGMENT@, before + CPU_SEGMENT@ + after, before.len() as int),
    ensures
        memory_path(before + CPU_SEGMENT@ + after) == before + MEMORY_SEGMENT@ + after,
{
    let s = before + CPU_SEGMENT@ + after;
    let n = before.len() as int;
    lemma_replace_first_at(s, CPU_SEGMENT@, MEMORY_SEGMENT@, n);
    assert(s.subrange(0, n) =~= before);
    assert(s.subrange(n + CPU_SEGMENT@.len(), s.len() as int) =~= after);
}

/// A path with no CPU segment has itself as its memory path.
pub proof fn lemma_memory_path_without_segment(path: Seq<char>)
    requires
        !has_substring(path, CPU_SEGMENT@),
    ensures
        memory_path(path) == path,
{
}

/// Below the mount point of the hierarchy, the memory path of a path in the
/// CPU tree is the same path in the memory tree: `/sys/fs/cgroup/cpu/X`
/// becomes `/sys/fs/cgroup/memory/X`, whatever `X` is, and even where `X`
/// holds a CPU segment of its own.
pub proof fn lemma_memory_path_below_mount(rest: Seq<char>)
    ensures
        memory_path("/sys/fs/cgroup/cpu/"@ + rest) == "/sys/fs/cgroup/memory/"@ + rest,
{
    reveal_strlit("/sys/fs/cgroup");
    reveal_strlit("/sys/fs/cgroup/cpu/");
    reveal_strlit("/sys/fs/cgroup/memory/");
    reveal_strlit("/cpu/");
    reveal_strlit("/memory/");
    let mount = "/sys/fs/cgroup"@;
    let s = mount + CPU_SEGMENT@ + rest;
    assert(s =~= "/sys/fs/cgroup/cpu/"@ + rest);
    assert(mount + MEMORY_SEGMENT@ + rest =~= "/sys/fs/cgroup/memory/"@ + rest);
    assert(s.subrange(14, 19) =~= CPU_SEGMENT@);
    assert forall|j: int| 0 <= j < 14 implies !occurs_at(CPU_SEGMENT@, s, j) by {
        if occurs_at(CPU_SEGMENT@, s, j) {
            let sub = s.subrange(j, j + 5);
            assert(sub[0] == '/' && sub[1] == 'c' && sub[2] == 'p');
            assert(s[j] == '/' && s[j + 1] == 'c' && s[j + 2] == 'p');
        }
    }
    lemma_memory_path_swaps_segment(mount, rest);
}

} // verus!
