//! The walk over the hierarchy, as a machine that its caller drives.
//!
//! A pass alternates between asking the file system something and deciding
//! what that answer means. The deciding is done here; the asking is left to
//! the caller. A [`Pass`] holds the work that is still to do, in the order in
//! which it will be taken up. The caller reads the next [`Request`], carries
//! it out, hands the answer back, and goes on until the request is
//! [`Request::Done`]. Work that an answer gives rise to is taken up before
//! the work that was already waiting, so the samples of one pass come in the
//! order of a depth-first walk that follows each listing as it was given.

use crate::classify::{
    classify, classify_entry, is_container, is_container_name, is_pod_slice, is_pod_slice_name,
    EntryKind,
};
use crate::paths::{
    child_path, derive_memory_path, join_path, lemma_memory_path_below_mount, memory_path,
    ROOT_NAME, V1_CPU_FILE, V1_LIMIT_FILE, V1_MEMORY_FILE, V1_ROOT, V1_ROOT_FALLBACK,
    V2_CEILING_FILE, V2_CPU_FILE, V2_MARKER, V2_MEMORY_FILE, V2_ROOT,
};
use crate::stats::{
    collect_container_cgroup_v1, collect_pod_cgroup_v2, container_sample, pod_sample,
    ResourceSample, SampleView, StatFiles, StatFilesView,
};
use crate::text::{contains, has_substring, occurs_at};
use vstd::prelude::*;
use vstd::string::*;

verus! {

/// The layout of the hierarchy.
#[derive(Clone, Copy, Debug, PartialEq, Eq, Structural)]
pub enum HierarchyVersion {
    /// The split hierarchy: one tree per controller.
    V1,
    /// The unified hierarchy: one tree for all controllers.
    V2,
}

/// One entry of a directory listing.
#[derive(Clone, Debug, PartialEq, Eq)]
pub struct DirEntry {
    /// The entry's name, without the directory's path.
    pub name: String,
    /// Whether the entry is a directory.
    pub is_dir: bool,
}

/// A [`DirEntry`] as a mathematical value.
pub struct DirEntryView {
    pub name: Seq<char>,
    pub is_dir: bool,
}

impl View for DirEntry {
    type V = DirEntryView;

    open spec fn view(&self) -> DirEntryView {
        DirEntryView { name: self.name@, is_dir: self.is_dir }
    }
}

/// The views of the entries of a listing.
pub open spec fn entries_of(v: Seq<DirEntry>) -> Seq<DirEntryView> {
    Seq::new(v.len(), |i: int| v[i]@)
}

/// The view of the answer to a listing request.
pub open spec fn listing_of(l: Result<Vec<DirEntry>, String>) -> Result<
    Seq<DirEntryView>,
    Seq<char>,
> {
    match l {
        Ok(v) => Ok(entries_of(v@)),
        Err(e) => Err(e@),
    }
}

/// One piece of work of a pass.
#[derive(Clone, Debug, PartialEq, Eq)]
pub enum Task {
    /// Find out which hierarchy the node has.
    DetectVersion,
    /// Find the root of the split hierarchy: the first candidate, or with
    /// `fallback` the second.
    FindV1Root { fallback: bool },
    /// List the root of the unified hierarchy and look for pods.
    ListV2Root,
    /// List a quality-of-service level of the split hierarchy and look for
    /// pods and further levels.
    ListSlice { path: String },
    /// List a pod of the split hierarchy and look for containers.
    ListPod { path: String, pod_id: String },
    /// Read the counters of a pod of the unified hierarchy.
    ReadPod { path: String, pod_id: String },
    /// Read the counters of a container of the split hierarchy.
    ReadContainer { cpu_path: String, pod_id: String, container_id: String },
}

/// A [`Task`] as a mathematical value.
pub enum TaskView {
    DetectVersion,
    FindV1Root { fallback: bool },
    ListV2Root,
    ListSlice { path: Seq<char> },
    ListPod { path: Seq<char>, pod_id: Seq<char> },
    ReadPod { path: Seq<char>, pod_id: Seq<char> },
    ReadContainer { cpu_path: Seq<char>, pod_id: Seq<char>, container_id: Seq<char> },
}

impl View for Task {
    type V = TaskView;

    open spec fn view(&self) -> TaskView {
        match *self {
            Task::DetectVersion => TaskView::DetectVersion,
            Task::FindV1Root { fallback } => TaskView::FindV1Root { fallback },
            Task::ListV2Root => TaskView::ListV2Root,
            Task::ListSlice { path } => TaskView::ListSlice { path: path@ },
            Task::ListPod { path, pod_id } => TaskView::ListPod { path: path@, pod_id: pod_id@ },
            Task::ReadPod { path, pod_id } => TaskView::ReadPod { path: path@, pod_id: pod_id@ },
            Task::ReadContainer { cpu_path, pod_id, container_id } => TaskView::ReadContainer {
                cpu_path: cpu_path@,
                pod_id: pod_id@,
                container_id: container_id@,
            },
        }
    }
}

/// The views of a sequence of tasks.
pub open spec fn tasks_of(v: Seq<Task>) -> Seq<TaskView> {
    Seq::new(v.len(), |i: int| v[i]@)
}

/// What a pass asks its caller to do next.
#[derive(Clone, Debug, PartialEq, Eq)]
pub enum Request {
    /// Nothing: the pass is over.
    Done,
    /// Say whether anything exists at `path`.
    Exists { path: String },
    /// List the directory at `path`.
    ListDir { path: String },
    /// Read the three counter files of one cgroup.
    ReadFiles { cpu: String, mem_usage: String, mem_limit: String },
}

/// A [`Request`] as a mathematical value.
pub enum RequestView {
    Done,
    Exists { path: Seq<char> },
    ListDir { path: Seq<char> },
    ReadFiles { cpu: Seq<char>, mem_usage: Seq<char>, mem_limit: Seq<char> },
}

impl View for Request {
    type V = RequestView;

    open spec fn view(&self) -> RequestView {
        match *self {
            Request::Done => RequestView::Done,
            Request::Exists { path } => RequestView::Exists { path: path@ },
            Request::ListDir { path } => RequestView::ListDir { path: path@ },
            Request::ReadFiles { cpu, mem_usage, mem_limit } => RequestView::ReadFiles {
                cpu: cpu@,
                mem_usage: mem_usage@,
                mem_limit: mem_limit@,
            },
        }
    }
}

/// A listing failure that is worth reporting.
#[derive(Clone, Debug, PartialEq, Eq)]
pub struct Diagnostic {
    /// The directory that could not be listed.
    pub path: String,
    /// What the file system said.
    pub reason: String,
}

/// A [`Diagnostic`] as a mathematical value.
pub struct DiagnosticView {
    pub path: Seq<char>,
    pub reason: Seq<char>,
}

impl View for Diagnostic {
    type V = DiagnosticView;

    open spec fn view(&self) -> DiagnosticView {
        DiagnosticView { path: self.path@, reason: self.reason@ }
    }
}

/// The view of an optional diagnostic.
pub open spec fn report_of(d: Option<Diagnostic>) -> Option<DiagnosticView> {
    match d {
        Some(d) => Some(d@),
        None => None,
    }
}

/// The view of an optional sample.
pub open spec fn sample_of(s: Option<ResourceSample>) -> Option<SampleView> {
    match s {
        Some(s) => Some(s@),
        None => None,
    }
}

/// The hierarchy that the marker selects: the unified one where the marker
/// exists, the split one where it does not. Nothing else is looked at.
pub open spec fn selected_version(marker_present: bool) -> HierarchyVersion {
    if marker_present {
        HierarchyVersion::V2
    } else {
        HierarchyVersion::V1
    }
}

/// The work that follows detection.
pub open spec fn detection_tasks(marker_present: bool) -> Seq<TaskView> {
    match selected_version(marker_present) {
        HierarchyVersion::V2 => seq![TaskView::ListV2Root],
        HierarchyVersion::V1 => seq![TaskView::FindV1Root { fallback: false }],
    }
}

/// The work that follows the probe of a root candidate of the split
/// hierarchy: the walk begins at a candidate that exists; after the first
/// candidate the second is tried; after the second there is nothing to do.
pub open spec fn root_tasks(fallback: bool, exists: bool) -> Seq<TaskView> {
    if exists {
        seq![
            TaskView::ListSlice {
                path: if fallback {
                    V1_ROOT_FALLBACK@
                } else {
                    V1_ROOT@
                },
            },
        ]
    } else if fallback {
        Seq::empty()
    } else {
        seq![TaskView::FindV1Root { fallback: true }]
    }
}

/// The pods among the entries of the unified hierarchy's root, in listing
/// order: the directories whose name marks a pod slice.
pub open spec fn pod_slice_tasks(entries: Seq<DirEntryView>) -> Seq<TaskView>
    decreases entries.len(),
{
    if entries.len() == 0 {
        Seq::empty()
    } else {
        let before = pod_slice_tasks(entries.drop_last());
        let e = entries.last();
        if e.is_dir && is_pod_slice_name(e.name) {
            before.push(TaskView::ReadPod { path: child_path(V2_ROOT@, e.name), pod_id: e.name })
        } else {
            before
        }
    }
}

/// The pods and further levels among the entries of a quality-of-service
/// level at `dir`, in listing order. Entries that are no directories, and
/// directories of neither kind, give rise to nothing.
pub open spec fn slice_tasks(dir: Seq<char>, entries: Seq<DirEntryView>) -> Seq<TaskView>
    decreases entries.len(),
{
    if entries.len() == 0 {
        Seq::empty()
    } else {
        let before = slice_tasks(dir, entries.drop_last());
        let e = entries.last();
        if !e.is_dir {
            before
        } else {
            match classify(e.name) {
                EntryKind::PodMatch => before.push(
                    TaskView::ListPod { path: child_path(dir, e.name), pod_id: e.name },
                ),
                EntryKind::QosMatch => before.push(
                    TaskView::ListSlice { path: child_path(dir, e.name) },
                ),
                EntryKind::Unrecognized => before,
            }
        }
    }
}

/// The containers among the entries of the pod `pod_id` at `pod_path`, in
/// listing order: the directories whose name marks a container.
pub open spec fn container_tasks(
    pod_path: Seq<char>,
    pod_id: Seq<char>,
    entries: Seq<DirEntryView>,
) -> Seq<TaskView>
    decreases entries.len(),
{
    if entries.len() == 0 {
        Seq::empty()
    } else {
        let before = container_tasks(pod_path, pod_id, entries.drop_last());
        let e = entries.last();
        if e.is_dir && is_container_name(e.name) {
            before.push(
                TaskView::ReadContainer {
                    cpu_path: child_path(pod_path, e.name),
                    pod_id,
                    container_id: e.name,
                },
            )
        } else {
            before
        }
    }
}

/// What is reported of a listing failure: the failure itself where the path
/// holds the name of the roots, nothing where it does not.
pub open spec fn failure_report(path: Seq<char>, reason: Seq<char>) -> Option<DiagnosticView> {
    if has_substring(path, ROOT_NAME@) {
        Some(DiagnosticView { path, reason })
    } else {
        None
    }
}

/// What a task asks of the caller.
pub open spec fn request_of(task: TaskView) -> RequestView {
    match task {
        TaskView::DetectVersion => RequestView::Exists { path: V2_MARKER@ },
        TaskView::FindV1Root { fallback } => RequestView::Exists {
            path: if fallback {
                V1_ROOT_FALLBACK@
            } else {
                V1_ROOT@
            },
        },
        TaskView::ListV2Root => RequestView::ListDir { path: V2_ROOT@ },
        TaskView::ListSlice { path } => RequestView::ListDir { path },
        TaskView::ListPod { path, pod_id } => RequestView::ListDir { path },
        TaskView::ReadPod { path, pod_id } => RequestView::ReadFiles {
            cpu: child_path(path, V2_CPU_FILE@),
            mem_usage: child_path(path, V2_MEMORY_FILE@),
            mem_limit: child_path(path, V2_CEILING_FILE@),
        },
        TaskView::ReadContainer { cpu_path, pod_id, container_id } => RequestView::ReadFiles {
            cpu: child_path(cpu_path, V1_CPU_FILE@),
            mem_usage: child_path(memory_path(cpu_path), V1_MEMORY_FILE@),
            mem_limit: child_path(memory_path(cpu_path), V1_LIMIT_FILE@),
        },
    }
}

/// The work that a listing gives rise to.
pub open spec fn listed_tasks(task: TaskView, entries: Seq<DirEntryView>) -> Seq<TaskView> {
    match task {
        TaskView::ListV2Root => pod_slice_tasks(entries),
        TaskView::ListSlice { path } => slice_tasks(path, entries),
        TaskView::ListPod { path, pod_id } => container_tasks(path, pod_id, entries),
        _ => Seq::empty(),
    }
}

/// The state of a pass as a mathematical value.
pub struct PassView {
    /// The node for which the pass collects.
    pub node: Seq<char>,
    /// The work that is still to do; the first task is taken up next.
    pub agenda: Seq<TaskView>,
}

impl PassView {
    /// What the pass asks next.
    pub open spec fn request(self) -> RequestView {
        if self.agenda.len() == 0 {
            RequestView::Done
        } else {
            request_of(self.agenda[0])
        }
    }

    /// The pass once its first task is settled and has given rise to
    /// `found`.
    pub open spec fn proceed(self, found: Seq<TaskView>) -> PassView {
        PassView { node: self.node, agenda: found + self.agenda.drop_first() }
    }

    /// The pass after the answer to an existence request. Where the pass did
    /// not ask for one, nothing changes.
    pub open spec fn after_exists(self, exists: bool) -> PassView {
        if self.agenda.len() == 0 {
            self
        } else {
            match self.agenda[0] {
                TaskView::DetectVersion => self.proceed(detection_tasks(exists)),
                TaskView::FindV1Root { fallback } => self.proceed(root_tasks(fallback, exists)),
                _ => self,
            }
        }
    }

    /// The pass after the answer to a listing request. A failed listing
    /// settles the task and gives rise to nothing. Where the pass did not
    /// ask for a listing, nothing changes.
    pub open spec fn after_listing(self, listing: Result<Seq<DirEntryView>, Seq<char>>) -> PassView {
        if self.request() is ListDir {
            match listing {
                Ok(entries) => self.proceed(listed_tasks(self.agenda[0], entries)),
                Err(_) => self.proceed(Seq::empty()),
            }
        } else {
            self
        }
    }

    /// What the answer to a listing request makes the pass report.
    pub open spec fn listing_report(
        self,
        listing: Result<Seq<DirEntryView>, Seq<char>>,
    ) -> Option<DiagnosticView> {
        match (self.request(), listing) {
            (RequestView::ListDir { path }, Err(reason)) => failure_report(path, reason),
            _ => None,
        }
    }

    /// The pass after the answer to a read request. Where the pass did not
    /// ask for one, nothing changes.
    pub open spec fn after_files(self) -> PassView {
        if self.request() is ReadFiles {
            self.proceed(Seq::empty())
        } else {
            self
        }
    }

    /// The sample that the answer to a read request makes the pass emit.
    pub open spec fn files_sample(self, files: StatFilesView) -> Option<SampleView> {
        if self.agenda.len() == 0 {
            None
        } else {
            match self.agenda[0] {
                TaskView::ReadPod { path, pod_id } => Some(pod_sample(self.node, pod_id, files)),
                TaskView::ReadContainer { cpu_path, pod_id, container_id } => Some(
                    container_sample(self.node, pod_id, container_id, files),
                ),
                _ => None,
            }
        }
    }
}

/// One collection pass over the hierarchy of a node.
#[derive(Clone, Debug)]
pub struct Pass {
    node_name: String,
    agenda: Vec<Task>,
}

impl View for Pass {
    type V = PassView;

    closed spec fn view(&self) -> PassView {
        PassView { node: self.node_name@, agenda: tasks_of(self.agenda@) }
    }
}

/// The hierarchy that the marker selects.
pub fn select_version(marker_present: bool) -> (version: HierarchyVersion)
    ensures
        version == selected_version(marker_present),
        marker_present ==> version == HierarchyVersion::V2,
        !marker_present ==> version == HierarchyVersion::V1,
{
    if marker_present {
        HierarchyVersion::V2
    } else {
        HierarchyVersion::V1
    }
}

/// Begins a pass for the node `node_name`. Its first request asks whether
/// the marker of the unified hierarchy exists.
pub fn collect_container_metrics(node_name: &str) -> (pass: Pass)
    ensures
        pass@ == (PassView { node: node_name@, agenda: seq![TaskView::DetectVersion] }),
        pass@.request() == (RequestView::Exists { path: V2_MARKER@ }),
{
    let mut agenda: Vec<Task> = Vec::new();
    agenda.push(Task::DetectVersion);
    let pass = Pass { node_name: String::from_str(node_name), agenda };
    assert(pass@.agenda =~= seq![TaskView::DetectVersion]);
    pass
}

/// The work that follows the probe of a root candidate of the split
/// hierarchy.
pub fn collect_cgroup_v1_metrics(fallback: bool, exists: bool) -> (tasks: Vec<Task>)
    ensures
        tasks_of(tasks@) == root_tasks(fallback, exists),
{
    let mut tasks: Vec<Task> = Vec::new();
    if exists {
        let root = if fallback {
            V1_ROOT_FALLBACK
        } else {
            V1_ROOT
        };
        tasks.push(Task::ListSlice { path: String::from_str(root) });
    } else if !fallback {
        tasks.push(Task::FindV1Root { fallback: true });
    }
    assert(tasks_of(tasks@) =~= root_tasks(fallback, exists));
    tasks
}

/// The pods among the entries of the unified hierarchy's root, as the work
/// of reading each.
pub fn collect_cgroup_v2_metrics(listing: &Vec<DirEntry>) -> (tasks: Vec<Task>)
    ensures
        tasks_of(tasks@) == pod_slice_tasks(entries_of(listing@)),
{
    let mut tasks: Vec<Task> = Vec::new();
    let mut i: usize = 0;
    assert(tasks_of(tasks@) =~= Seq::<TaskView>::empty());
    while i < listing.len()
        invariant
            i <= listing.len(),
            tasks_of(tasks@) == pod_slice_tasks(entries_of(listing@).subrange(0, i as int)),
        decreases listing.len() - i,
    {
        let entry = &listing[i];
        let ghost upto = entries_of(listing@).subrange(0, i + 1);
        assert(upto.drop_last() =~= entries_of(listing@).subrange(0, i as int));
        assert(upto.last() == entry@);
        if entry.is_dir && is_pod_slice(entry.name.as_str()) {
            let ghost before = tasks@;
            let task = Task::ReadPod {
                path: join_path(V2_ROOT, entry.name.as_str()),
                pod_id: entry.name.clone(),
            };
            tasks.push(task);
            assert(tasks_of(tasks@) =~= tasks_of(before).push(task@));
        }
        i += 1;
    }
    assert(entries_of(listing@).subrange(0, i as int) =~= entries_of(listing@));
    tasks
}

/// The pods and further levels among the entries of the quality-of-service
/// level at `dir`, as the work of listing each.
pub fn process_v1_dir(dir: &str, listing: &Vec<DirEntry>) -> (tasks: Vec<Task>)
    ensures
        tasks_of(tasks@) == slice_tasks(dir@, entries_of(listing@)),
{
    let mut tasks: Vec<Task> = Vec::new();
    let mut i: usize = 0;
    assert(tasks_of(tasks@) =~= Seq::<TaskView>::empty());
    while i < listing.len()
        invariant
            i <= listing.len(),
            tasks_of(tasks@) == slice_tasks(dir@, entries_of(listing@).subrange(0, i as int)),
        decreases listing.len() - i,
    {
        let entry = &listing[i];
        let ghost upto = entries_of(listing@).subrange(0, i + 1);
        assert(upto.drop_last() =~= entries_of(listing@).subrange(0, i as int));
        assert(upto.last() == entry@);
        if entry.is_dir {
            let ghost before = tasks@;
            match classify_entry(entry.name.as_str()) {
                EntryKind::PodMatch => {
                    let task = Task::ListPod {
                        path: join_path(dir, entry.name.as_str()),
                        pod_id: entry.name.clone(),
                    };
                    tasks.push(task);
                    assert(tasks_of(tasks@) =~= tasks_of(before).push(task@));
                },
                EntryKind::QosMatch => {
                    let task = Task::ListSlice { path: join_path(dir, entry.name.as_str()) };
                    tasks.push(task);
                    assert(tasks_of(tasks@) =~= tasks_of(before).push(task@));
                },
                EntryKind::Unrecognized => {},
            }
        }
        i += 1;
    }
    assert(entries_of(listing@).subrange(0, i as int) =~= entries_of(listing@));
    tasks
}

/// The containers among the entries of the pod `pod_name` at `pod_path`, as
/// the work of reading each.
pub fn process_v1_pod(pod_path: &str, pod_name: &str, listing: &Vec<DirEntry>) -> (tasks: Vec<
    Task,
>)
    ensures
        tasks_of(tasks@) == container_tasks(pod_path@, pod_name@, entries_of(listing@)),
{
    let mut tasks: Vec<Task> = Vec::new();
    let mut i: usize = 0;
    assert(tasks_of(tasks@) =~= Seq::<TaskView>::empty());
    while i < listing.len()
        invariant
            i <= listing.len(),
            tasks_of(tasks@) == container_tasks(
                pod_path@,
                pod_name@,
                entries_of(listing@).subrange(0, i as int),
            ),
        decreases listing.len() - i,
    {
        let entry = &listing[i];
        let ghost upto = entries_of(listing@).subrange(0, i + 1);
        assert(upto.drop_last() =~= entries_of(listing@).subrange(0, i as int));
        assert(upto.last() == entry@);
        if entry.is_dir && is_container(entry.name.as_str()) {
            let ghost before = tasks@;
            let task = Task::ReadContainer {
                cpu_path: join_path(pod_path, entry.name.as_str()),
                pod_id: String::from_str(pod_name),
                container_id: entry.name.clone(),
            };
            tasks.push(task);
            assert(tasks_of(tasks@) =~= tasks_of(before).push(task@));
        }
        i += 1;
    }
    assert(entries_of(listing@).subrange(0, i as int) =~= entries_of(listing@));
    tasks
}

/// What is reported of the failure to list `path`.
pub fn listing_failure(path: String, reason: String) -> (report: Option<Diagnostic>)
    ensures
        report_of(report) == failure_report(path@, reason@),
{
    if contains(path.as_str(), ROOT_NAME) {
        Some(Diagnostic { path, reason })
    } else {
        None
    }
}

/// What `task` asks of the caller.
pub fn request_for(task: &Task) -> (request: Request)
    ensures
        request@ == request_of(task@),
{
    match task {
        Task::DetectVersion => Request::Exists { path: String::from_str(V2_MARKER) },
        Task::FindV1Root { fallback } => {
            let root = if *fallback {
                V1_ROOT_FALLBACK
            } else {
                V1_ROOT
            };
            Request::Exists { path: String::from_str(root) }
        },
        Task::ListV2Root => Request::ListDir { path: String::from_str(V2_ROOT) },
        Task::ListSlice { path } => Request::ListDir { path: path.clone() },
        Task::ListPod { path, pod_id } => Request::ListDir { path: path.clone() },
        Task::ReadPod { path, pod_id } => Request::ReadFiles {
            cpu: join_path(path.as_str(), V2_CPU_FILE),
            mem_usage: join_path(path.as_str(), V2_MEMORY_FILE),
            mem_limit: join_path(path.as_str(), V2_CEILING_FILE),
        },
        Task::ReadContainer { cpu_path, pod_id, container_id } => {
            let memory_dir = derive_memory_path(cpu_path.as_str());
            Request::ReadFiles {
                cpu: join_path(cpu_path.as_str(), V1_CPU_FILE),
                mem_usage: join_path(memory_dir.as_str(), V1_MEMORY_FILE),
                mem_limit: join_path(memory_dir.as_str(), V1_LIMIT_FILE),
            }
        },
    }
}

impl Pass {
    /// The node for which the pass collects.
    pub fn node_name(&self) -> (name: &str)
        ensures
            name@ == self@.node,
    {
        self.node_name.as_str()
    }

    /// Whether the pass is over.
    pub fn is_done(&self) -> (done: bool)
        ensures
            done == (self@.request() is Done),
            done == (self@.agenda.len() == 0),
    {
        self.agenda.len() == 0
    }

    /// What the pass asks its caller to do next.
    pub fn request(&self) -> (request: Request)
        ensures
            request@ == self@.request(),
    {
        if self.agenda.len() == 0 {
            Request::Done
        } else {
            request_for(&self.agenda[0])
        }
    }

    /// Settles the first task and puts the work that it gave rise to in its
    /// place.
    fn proceed(&mut self, found: Vec<Task>)
        requires
            old(self)@.agenda.len() > 0,
        ensures
            final(self)@ == old(self)@.proceed(tasks_of(found@)),
    {
        let mut agenda = found;
        self.agenda.remove(0);
        agenda.append(&mut self.agenda);
        self.agenda = agenda;
        assert(tasks_of(self.agenda@) =~= tasks_of(found@) + tasks_of(old(self).agenda@).drop_first());
    }

    /// Takes the answer to [`Request::Exists`].
    pub fn answer_exists(&mut self, exists: bool)
        ensures
            final(self)@ == old(self)@.after_exists(exists),
    {
        if self.agenda.len() == 0 {
            return ;
        }
        let found: Vec<Task> = match &self.agenda[0] {
            Task::DetectVersion => {
                let mut tasks: Vec<Task> = Vec::new();
                match select_version(exists) {
                    HierarchyVersion::V2 => tasks.push(Task::ListV2Root),
                    HierarchyVersion::V1 => tasks.push(Task::FindV1Root { fallback: false }),
                }
                assert(tasks_of(tasks@) =~= detection_tasks(exists));
                tasks
            },
            Task::FindV1Root { fallback } => collect_cgroup_v1_metrics(*fallback, exists),
            _ => {
                return ;
            },
        };
        self.proceed(found);
    }

    /// Takes the answer to [`Request::ListDir`]: the entries in the order in
    /// which the directory gave them, or the reason why it could not be
    /// listed. Returns what is to be reported of a failure.
    pub fn answer_listing(&mut self, listing: Result<Vec<DirEntry>, String>) -> (report: Option<
        Diagnostic,
    >)
        ensures
            final(self)@ == old(self)@.after_listing(listing_of(listing)),
            report_of(report) == old(self)@.listing_report(listing_of(listing)),
    {
        if self.agenda.len() == 0 {
            return None;
        }
        match listing {
            Ok(entries) => {
                let found: Vec<Task> = match &self.agenda[0] {
                    Task::ListV2Root => collect_cgroup_v2_metrics(&entries),
                    Task::ListSlice { path } => process_v1_dir(path.as_str(), &entries),
                    Task::ListPod { path, pod_id } => process_v1_pod(
                        path.as_str(),
                        pod_id.as_str(),
                        &entries,
                    ),
                    _ => {
                        return None;
                    },
                };
                self.proceed(found);
                None
            },
            Err(reason) => {
                let path: String = match &self.agenda[0] {
                    Task::ListV2Root => String::from_str(V2_ROOT),
                    Task::ListSlice { path } => path.clone(),
                    Task::ListPod { path, pod_id } => path.clone(),
                    _ => {
                        return None;
                    },
                };
                self.proceed(Vec::new());
                listing_failure(path, reason)
            },
        }
    }

    /// Takes the answer to [`Request::ReadFiles`]: what was read of each of
    /// the three files. Returns the sample to emit.
    pub fn answer_files(&mut self, files: &StatFiles) -> (sample: Option<ResourceSample>)
        ensures
            final(self)@ == old(self)@.after_files(),
            sample_of(sample) == old(self)@.files_sample(files@),
    {
        if self.agenda.len() == 0 {
            return None;
        }
        let sample = match &self.agenda[0] {
            Task::ReadPod { path, pod_id } => collect_pod_cgroup_v2(
                self.node_name.as_str(),
                pod_id.as_str(),
                files,
            ),
            Task::ReadContainer { cpu_path, pod_id, container_id } => collect_container_cgroup_v1(
                self.node_name.as_str(),
                pod_id.as_str(),
                container_id.as_str(),
                files,
            ),
            _ => {
                return None;
            },
        };
        self.proceed(Vec::new());
        Some(sample)
    }
}

/// Detection looks at the marker and at nothing else: where the marker
/// exists the pass goes on in the unified hierarchy, and its next request
/// lists that hierarchy's root. No root of the split hierarchy is asked for,
/// whether or not one exists.
pub proof fn lemma_marker_selects_unified(pass: PassView)
    requires
        pass.agenda.len() > 0,
        pass.agenda[0] == TaskView::DetectVersion,
    ensures
        selected_version(true) == HierarchyVersion::V2,
        pass.after_exists(true).agenda == seq![TaskView::ListV2Root] + pass.agenda.drop_first(),
        pass.after_exists(true).request() == (RequestView::ListDir { path: V2_ROOT@ }),
        pass.after_exists(false).request() == (RequestView::Exists { path: V1_ROOT@ }),
{
    assert(pass.after_exists(true).agenda[0] == TaskView::ListV2Root);
    assert(pass.after_exists(false).agenda[0] == TaskView::FindV1Root { fallback: false });
}

/// A pod none of whose entries is taken for a container gives rise to no
/// work.
pub proof fn lemma_no_container_no_task(
    pod_path: Seq<char>,
    pod_id: Seq<char>,
    entries: Seq<DirEntryView>,
)
    requires
        forall|i: int|
            0 <= i < entries.len() ==> !((#[trigger] entries[i]).is_dir && is_container_name(
                entries[i].name,
            )),
    ensures
        container_tasks(pod_path, pod_id, entries) == Seq::<TaskView>::empty(),
    decreases entries.len(),
{
    if entries.len() > 0 {
        let front = entries.drop_last();
        assert forall|i: int| 0 <= i < front.len() implies !((#[trigger] front[i]).is_dir
            && is_container_name(front[i].name)) by {
            assert(front[i] == entries[i]);
        }
        lemma_no_container_no_task(pod_path, pod_id, front);
    }
}

/// A pod without containers is no error: listing it settles the task, adds
/// no work, so that no sample will come of it, and reports nothing.
pub proof fn lemma_pod_without_containers(pass: PassView, entries: Seq<DirEntryView>)
    requires
        pass.agenda.len() > 0,
        pass.agenda[0] is ListPod,
        forall|i: int|
            0 <= i < entries.len() ==> !((#[trigger] entries[i]).is_dir && is_container_name(
                entries[i].name,
            )),
    ensures
        pass.after_listing(Ok(entries)).agenda == pass.agenda.drop_first(),
        pass.listing_report(Ok(entries)) is None,
{
    lemma_no_container_no_task(pass.agenda[0]->ListPod_path, pass.agenda[0]->ListPod_pod_id, entries);
    assert(Seq::<TaskView>::empty() + pass.agenda.drop_first() =~= pass.agenda.drop_first());
}

/// A listing that fails settles its task and adds no work, whatever the
/// directory and the reason: the walk goes on with what was waiting.
pub proof fn lemma_failed_listing_is_skipped(pass: PassView, reason: Seq<char>)
    requires
        pass.request() is ListDir,
    ensures
        pass.after_listing(Err(reason)).agenda == pass.agenda.drop_first(),
        pass.after_listing(Err(reason)).node == pass.node,
{
    assert(Seq::<TaskView>::empty() + pass.agenda.drop_first() =~= pass.agenda.drop_first());
}

/// Every root holds the name by which failures are reported.
pub proof fn lemma_roots_hold_root_name()
    ensures
        has_substring(V2_ROOT@, ROOT_NAME@),
        has_substring(V1_ROOT@, ROOT_NAME@),
        has_substring(V1_ROOT_FALLBACK@, ROOT_NAME@),
{
    reveal_strlit("kubepods");
    reveal_strlit("/sys/fs/cgroup/kubepods.slice");
    reveal_strlit("/sys/fs/cgroup/cpu/kubepods");
    reveal_strlit("/sys/fs/cgroup/cpu/kubepods.slice");
    assert(V2_ROOT@.subrange(15, 23) =~= ROOT_NAME@);
    assert(occurs_at(ROOT_NAME@, V2_ROOT@, 15));
    assert(V1_ROOT@.subrange(19, 27) =~= ROOT_NAME@);
    assert(occurs_at(ROOT_NAME@, V1_ROOT@, 19));
    assert(V1_ROOT_FALLBACK@.subrange(19, 27) =~= ROOT_NAME@);
    assert(occurs_at(ROOT_NAME@, V1_ROOT_FALLBACK@, 19));
}

/// Where the listing of a root fails, for want of permission or for any
/// other reason, and nothing else is waiting, the pass is over: it emits no
/// sample, reports the failure, and its caller is free to go on.
pub proof fn lemma_failed_root_listing_ends_pass(pass: PassView, reason: Seq<char>)
    requires
        pass.agenda.len() == 1,
        pass.agenda[0] == TaskView::ListV2Root || pass.agenda[0] == (TaskView::ListSlice {
            path: V1_ROOT@,
        }) || pass.agenda[0] == (TaskView::ListSlice { path: V1_ROOT_FALLBACK@ }),
    ensures
        pass.after_listing(Err(reason)).request() is Done,
        pass.listing_report(Err(reason)) is Some,
        pass.listing_report(Err(reason))->0.reason == reason,
{
    lemma_roots_hold_root_name();
    assert(pass.after_listing(Err(reason)).agenda =~= Seq::<TaskView>::empty());
}

/// A listing never emits a sample, and a read emits exactly one: the sample
/// of the pod or container that the task names, for the node of the pass.
pub proof fn lemma_one_sample_per_read(pass: PassView, files: StatFilesView)
    requires
        pass.request() is ReadFiles,
    ensures
        pass.files_sample(files) is Some,
        pass.files_sample(files)->0.node_id == pass.node,
        pass.after_files().agenda == pass.agenda.drop_first(),
{
    assert(Seq::<TaskView>::empty() + pass.agenda.drop_first() =~= pass.agenda.drop_first());
}

/// A pass over a unified hierarchy whose root holds one directory, a pod
/// slice named `name`, asks for that pod's three files, emits exactly one
/// sample, which carries `name` as its pod, and is over.
pub proof fn lemma_single_pod_pass(node: Seq<char>, name: Seq<char>, files: StatFilesView)
    requires
        is_pod_slice_name(name),
    ensures
        ({
            let start = PassView { node, agenda: seq![TaskView::DetectVersion] };
            let listed = start.after_exists(true).after_listing(
                Ok(seq![DirEntryView { name, is_dir: true }]),
            );
            &&& start.after_exists(true).request() == (RequestView::ListDir { path: V2_ROOT@ })
            &&& listed.request() == (RequestView::ReadFiles {
                cpu: child_path(child_path(V2_ROOT@, name), V2_CPU_FILE@),
                mem_usage: child_path(child_path(V2_ROOT@, name), V2_MEMORY_FILE@),
                mem_limit: child_path(child_path(V2_ROOT@, name), V2_CEILING_FILE@),
            })
            &&& listed.files_sample(files) == Some(pod_sample(node, name, files))
            &&& listed.files_sample(files)->0.pod_id == name
            &&& listed.after_files().request() is Done
        }),
{
    let start = PassView { node, agenda: seq![TaskView::DetectVersion] };
    let found = start.after_exists(true);
    assert(found.agenda =~= seq![TaskView::ListV2Root]);
    let entries = seq![DirEntryView { name, is_dir: true }];
    let task = TaskView::ReadPod { path: child_path(V2_ROOT@, name), pod_id: name };
    assert(entries.drop_last() =~= Seq::<DirEntryView>::empty());
    assert(pod_slice_tasks(entries.drop_last()) =~= Seq::<TaskView>::empty());
    assert(pod_slice_tasks(entries) =~= seq![task]);
    let listed = found.after_listing(Ok(entries));
    assert(listed.agenda =~= seq![task]);
    assert(listed.after_files().agenda =~= Seq::<TaskView>::empty());
}

/// The files of a container below the mount point of the hierarchy: the CPU
/// file is asked for in the CPU tree and the two memory files at the same
/// place in the memory tree.
pub proof fn lemma_container_files_in_both_trees(
    rest: Seq<char>,
    pod_id: Seq<char>,
    container_id: Seq<char>,
)
    ensures
        request_of(
            TaskView::ReadContainer {
                cpu_path: "/sys/fs/cgroup/cpu/"@ + rest,
                pod_id,
                container_id,
            },
        ) == (RequestView::ReadFiles {
            cpu: child_path("/sys/fs/cgroup/cpu/"@ + rest, V1_CPU_FILE@),
            mem_usage: child_path("/sys/fs/cgroup/memory/"@ + rest, V1_MEMORY_FILE@),
            mem_limit: child_path("/sys/fs/cgroup/memory/"@ + rest, V1_LIMIT_FILE@),
        }),
{
    lemma_memory_path_below_mount(rest);
}

/// The task lists no directory, or lists one whose path holds the name of
/// the roots.
pub open spec fn is_rooted(task: TaskView) -> bool {
    match request_of(task) {
        RequestView::ListDir { path } => has_substring(path, ROOT_NAME@),
        _ => true,
    }
}

/// Every task of `tasks` is rooted.
pub open spec fn all_rooted(tasks: Seq<TaskView>) -> bool {
    forall|i: int| 0 <= i < tasks.len() ==> is_rooted(#[trigger] tasks[i])
}

/// A path that holds a name still holds it with an entry's name appended.
pub proof fn lemma_child_path_keeps_substring(dir: Seq<char>, name: Seq<char>, pat: Seq<char>)
    requires
        has_substring(dir, pat),
    ensures
        has_substring(child_path(dir, name), pat),
{
    let i = choose|i: int| occurs_at(pat, dir, i);
    let child = child_path(dir, name);
    assert(child.subrange(i, i + pat.len()) =~= dir.subrange(i, i + pat.len()));
    assert(occurs_at(pat, child, i));
}

/// What is found below a rooted directory is rooted.
pub proof fn lemma_listed_tasks_rooted(task: TaskView, entries: Seq<DirEntryView>)
    requires
        is_rooted(task),
    ensures
        all_rooted(listed_tasks(task, entries)),
    decreases entries.len(),
{
    if entries.len() > 0 {
        lemma_listed_tasks_rooted(task, entries.drop_last());
        let e = entries.last();
        match task {
            TaskView::ListSlice { path } => {
                lemma_child_path_keeps_substring(path, e.name, ROOT_NAME@);
            },
            _ => {},
        }
    }
}

/// Rootedness is an invariant of the pass: it holds at the start, and no
/// answer breaks it.
pub proof fn lemma_rooted_is_invariant(
    pass: PassView,
    exists: bool,
    listing: Result<Seq<DirEntryView>, Seq<char>>,
)
    requires
        all_rooted(pass.agenda),
    ensures
        all_rooted(seq![TaskView::DetectVersion]),
        all_rooted(pass.after_exists(exists).agenda),
        all_rooted(pass.after_listing(listing).agenda),
        all_rooted(pass.after_files().agenda),
{
    lemma_roots_hold_root_name();
    let rest = pass.agenda.drop_first();
    if pass.agenda.len() > 0 {
        assert forall|i: int| 0 <= i < rest.len() implies is_rooted(#[trigger] rest[i]) by {
            assert(rest[i] == pass.agenda[i + 1]);
        }
        assert(is_rooted(pass.agenda[0]));
        match listing {
            Ok(entries) => {
                lemma_listed_tasks_rooted(pass.agenda[0], entries);
            },
            Err(_) => {},
        }
    }
}

/// In a pass that began at the start, every listing that fails is reported,
/// with the directory and the reason.
pub proof fn lemma_every_failure_is_reported(pass: PassView, reason: Seq<char>)
    requires
        all_rooted(pass.agenda),
        pass.request() is ListDir,
    ensures
        pass.listing_report(Err(reason)) == Some(
            DiagnosticView { path: pass.request()->ListDir_path, reason },
        ),
{
    assert(is_rooted(pass.agenda[0]));
}

/// What a listing gives rise to follows the listing: the work found in a
/// listing made of two parts is the work found in the first part, followed
/// by the work found in the second. No entry's work is moved, dropped or
/// doubled by what stands around it, and nothing is sorted.
pub proof fn lemma_tasks_follow_listing(
    task: TaskView,
    first: Seq<DirEntryView>,
    second: Seq<DirEntryView>,
)
    ensures
        listed_tasks(task, first + second) == listed_tasks(task, first) + listed_tasks(
            task,
            second,
        ),
    decreases second.len(),
{
    if second.len() == 0 {
        assert(first + second =~= first);
        assert(listed_tasks(task, first) + Seq::<TaskView>::empty() =~= listed_tasks(task, first));
    } else {
        let whole = first + second;
        assert(whole.drop_last() =~= first + second.drop_last());
        assert(whole.last() == second.last());
        lemma_tasks_follow_listing(task, first, second.drop_last());
        let a = listed_tasks(task, first);
        let b = listed_tasks(task, second.drop_last());
        assert(listed_tasks(task, whole) =~= a + listed_tasks(task, second));
    }
}

/// The task belongs to a pass over the unified hierarchy: it lists that
/// hierarchy's root, or reads a pod directly below it.
pub open spec fn is_unified(task: TaskView) -> bool {
    match task {
        TaskView::ListV2Root => true,
        TaskView::ReadPod { path, pod_id } => path == child_path(V2_ROOT@, pod_id),
        _ => false,
    }
}

/// The task belongs to a pass over the split hierarchy: it looks for that
/// hierarchy's root, lists one of its levels or pods, or reads a container.
pub open spec fn is_split(task: TaskView) -> bool {
    task is FindV1Root || task is ListSlice || task is ListPod || task is ReadContainer
}

/// Every task of `tasks` belongs to a pass over the unified hierarchy.
pub open spec fn all_unified(tasks: Seq<TaskView>) -> bool {
    forall|i: int| 0 <= i < tasks.len() ==> is_unified(#[trigger] tasks[i])
}

/// Every task of `tasks` belongs to a pass over the split hierarchy.
pub open spec fn all_split(tasks: Seq<TaskView>) -> bool {
    forall|i: int| 0 <= i < tasks.len() ==> is_split(#[trigger] tasks[i])
}

/// What is found by a task of one hierarchy belongs to the same hierarchy.
pub proof fn lemma_listed_tasks_keep_hierarchy(task: TaskView, entries: Seq<DirEntryView>)
    ensures
        is_unified(task) ==> all_unified(listed_tasks(task, entries)),
        is_split(task) ==> all_split(listed_tasks(task, entries)),
    decreases entries.len(),
{
    if entries.len() > 0 {
        lemma_listed_tasks_keep_hierarchy(task, entries.drop_last());
    }
}

/// The marker decides for the whole pass. Once it was found, every task of
/// the pass belongs to the unified hierarchy, whatever the later answers
/// are and whatever else exists: the pass probes nothing more and lists
/// nothing but that hierarchy's root, and every sample stands for a whole
/// pod.
pub proof fn lemma_unified_pass_stays_unified(
    pass: PassView,
    exists: bool,
    listing: Result<Seq<DirEntryView>, Seq<char>>,
    files: StatFilesView,
)
    requires
        all_unified(pass.agenda),
    ensures
        all_unified(
            (PassView { node: pass.node, agenda: seq![TaskView::DetectVersion] }).after_exists(
                true,
            ).agenda,
        ),
        all_unified(pass.after_exists(exists).agenda),
        all_unified(pass.after_listing(listing).agenda),
        all_unified(pass.after_files().agenda),
        !(pass.request() is Exists),
        pass.request() is ListDir ==> pass.request() == (RequestView::ListDir { path: V2_ROOT@ }),
        pass.files_sample(files) matches Some(s) ==> s.container_id is None,
{
    let rest = pass.agenda.drop_first();
    if pass.agenda.len() > 0 {
        assert(is_unified(pass.agenda[0]));
        assert forall|i: int| 0 <= i < rest.len() implies is_unified(#[trigger] rest[i]) by {
            assert(rest[i] == pass.agenda[i + 1]);
        }
        match listing {
            Ok(entries) => {
                lemma_listed_tasks_keep_hierarchy(pass.agenda[0], entries);
            },
            Err(_) => {},
        }
    }
}

/// Once the marker was not found, every task of the pass belongs to the
/// split hierarchy, whatever the later answers are: the pass probes nothing
/// but the two roots of that hierarchy, never lists the root of the unified
/// one, and every sample stands for a container.
pub proof fn lemma_split_pass_stays_split(
    pass: PassView,
    exists: bool,
    listing: Result<Seq<DirEntryView>, Seq<char>>,
    files: StatFilesView,
)
    requires
        all_split(pass.agenda),
    ensures
        all_split(
            (PassView { node: pass.node, agenda: seq![TaskView::DetectVersion] }).after_exists(
                false,
            ).agenda,
        ),
        all_split(pass.after_exists(exists).agenda),
        all_split(pass.after_listing(listing).agenda),
        all_split(pass.after_files().agenda),
        pass.request() matches RequestView::Exists { path } ==> path == V1_ROOT@ || path
            == V1_ROOT_FALLBACK@,
        pass.agenda.len() > 0 ==> pass.agenda[0] != TaskView::ListV2Root,
        pass.files_sample(files) matches Some(s) ==> s.container_id is Some,
{
    let rest = pass.agenda.drop_first();
    if pass.agenda.len() > 0 {
        assert(is_split(pass.agenda[0]));
        assert forall|i: int| 0 <= i < rest.len() implies is_split(#[trigger] rest[i]) by {
            assert(rest[i] == pass.agenda[i + 1]);
        }
        match listing {
            Ok(entries) => {
                lemma_listed_tasks_keep_hierarchy(pass.agenda[0], entries);
            },
            Err(_) => {},
        }
    }
}

} // verus!
