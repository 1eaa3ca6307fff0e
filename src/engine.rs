//! The decisions and the bookkeeping of an export run.
//!
//! The run itself, which copies and deletes files, belongs to the caller: it asks
//! the engine what to do with each task, performs that, and hands the outcome
//! back to an [`ExportRun`], which collects successes and failures. A failure
//! never stops the run.
use crate::date::{decimal, decimal_text};
use crate::paths::{
    extension, file_stem, path_extension, path_file_stem, path_with_extension, path_with_file_name,
    with_extension, with_file_name,
};
use crate::pipeline::views;
use vstd::string::*;
use crate::task::{ExportTask, ExportTaskView};
use vstd::prelude::*;

verus! {

/// The key by which tasks are executed: the asset's id for a copy; deletions
/// come after all copies.
pub open spec fn task_key(t: ExportTaskView) -> int {
    match t {
        ExportTaskView::Copy(m) => m.asset.id as int,
        ExportTaskView::Delete(_) => 0x8000_0000,
    }
}

pub open spec fn ordered_by_key(s: Seq<ExportTaskView>) -> bool {
    forall|i: int, j: int| 0 <= i < j < s.len() ==> task_key(s[i]) <= task_key(s[j])
}

/// The tasks of `s` with the key `k`, in their order.
pub open spec fn with_key(s: Seq<ExportTaskView>, k: int) -> Seq<ExportTaskView> {
    s.filter(|t: ExportTaskView| task_key(t) == k)
}

proof fn lemma_with_key_push(s: Seq<ExportTaskView>, x: ExportTaskView, k: int)
    ensures
        with_key(s.push(x), k) == if task_key(x) == k {
            with_key(s, k).push(x)
        } else {
            with_key(s, k)
        },
{
    reveal(Seq::filter);
    assert(s.push(x).drop_last() =~= s);
}

proof fn lemma_with_key_none(s: Seq<ExportTaskView>, k: int)
    requires
        forall|j: int| 0 <= j < s.len() ==> task_key(#[trigger] s[j]) != k,
    ensures
        with_key(s, k) == Seq::<ExportTaskView>::empty(),
    decreases s.len(),
{
    reveal(Seq::filter);
    if s.len() > 0 {
        lemma_with_key_none(s.drop_last(), k);
        assert(task_key(s[s.len() - 1]) != k);
    }
}

/// Inserting `x` where every task before has a key no greater than its own and
/// every task after a greater one appends `x` to the tasks of its key and
/// leaves the others as they were.
proof fn lemma_with_key_insert(s: Seq<ExportTaskView>, pos: int, x: ExportTaskView, k: int)
    requires
        0 <= pos <= s.len(),
        forall|j: int| pos <= j < s.len() ==> task_key(#[trigger] s[j]) > task_key(x),
    ensures
        with_key(s.insert(pos, x), k) == if task_key(x) == k {
            with_key(s, k).push(x)
        } else {
            with_key(s, k)
        },
{
    let a = s.subrange(0, pos);
    let b = s.subrange(pos, s.len() as int);
    let pred = |t: ExportTaskView| task_key(t) == k;
    assert(s =~= a + b);
    assert(s.insert(pos, x) =~= a.push(x) + b);
    Seq::filter_distributes_over_add(a, b, pred);
    Seq::filter_distributes_over_add(a.push(x), b, pred);
    lemma_with_key_push(a, x, k);
    if task_key(x) == k {
        lemma_with_key_none(b, k);
        assert(with_key(b, k) =~= Seq::<ExportTaskView>::empty());
        assert(with_key(a, k).push(x) + Seq::<ExportTaskView>::empty() =~= (with_key(a, k) + Seq::<ExportTaskView>::empty()).push(x));
    }
}

fn key_of_task(t: &ExportTask) -> (r: i64)
    ensures
        r == task_key(t@),
{
    match t {
        ExportTask::Copy(m) => m.asset.id as i64,
        ExportTask::Delete(_) => 0x8000_0000,
    }
}

/// The tasks in the order of execution: by the id of their asset, deletions
/// last; tasks with equal keys keep the order they were given in.
pub fn order_tasks(tasks: Vec<ExportTask>) -> (r: Vec<ExportTask>)
    ensures
        ordered_by_key(views(r@)),
        views(r@).to_multiset() == views(tasks@).to_multiset(),
        forall|k: int| #[trigger] with_key(views(r@), k) == with_key(views(tasks@), k),
{
    let mut out: Vec<ExportTask> = Vec::new();
    let mut i: usize = 0;
    assert(views(tasks@).subrange(0, 0) =~= Seq::<ExportTaskView>::empty());
    assert(views(out@) =~= Seq::<ExportTaskView>::empty());
    while i < tasks.len()
        invariant
            i <= tasks@.len(),
            ordered_by_key(views(out@)),
            views(out@).to_multiset() == views(tasks@).subrange(0, i as int).to_multiset(),
            forall|k: int| #[trigger] with_key(views(out@), k) == with_key(views(tasks@).subrange(0, i as int), k),
        decreases tasks.len() - i,
    {
        let t = tasks[i].clone();
        let k = key_of_task(&t);
        let mut pos: usize = 0;
        while pos < out.len() && key_of_task(&out[pos]) <= k
            invariant
                pos <= out@.len(),
                k == task_key(t@),
                forall|j: int| 0 <= j < pos ==> task_key(#[trigger] views(out@)[j]) <= k,
            decreases out.len() - pos,
        {
            pos = pos + 1;
        }
        let ghost before = views(out@);
        proof {
            assert forall|j: int| pos <= j < before.len() implies task_key(#[trigger] before[j]) > k by {
                assert(task_key(before[pos as int]) > k);
                assert(task_key(before[pos as int]) <= task_key(before[j]));
            }
            assert(views(tasks@).subrange(0, i + 1) =~= views(tasks@).subrange(0, i as int).push(t@));
            vstd::seq_lib::to_multiset_build(views(tasks@).subrange(0, i as int), t@);
            vstd::seq_lib::to_multiset_insert(before, pos as int, t@);
        }
        out.insert(pos, t);
        assert(views(out@) =~= before.insert(pos as int, t@));
        assert forall|kk: int| #[trigger] with_key(views(out@), kk) == with_key(views(tasks@).subrange(0, i + 1), kk) by {
            lemma_with_key_insert(before, pos as int, t@, kk);
            lemma_with_key_push(views(tasks@).subrange(0, i as int), t@, kk);
        }
        assert(ordered_by_key(views(out@))) by {
            let s = views(out@);
            assert forall|a: int, b: int| 0 <= a < b < s.len() implies task_key(s[a]) <= task_key(s[b]) by {
                if b < pos {
                } else if b == pos {
                    assert(s[a] == before[a]);
                } else if a == pos {
                    assert(s[b] == before[b - 1]);
                } else if a < pos {
                    assert(s[a] == before[a]);
                    assert(s[b] == before[b - 1]);
                } else {
                    assert(s[a] == before[a - 1]);
                    assert(s[b] == before[b - 1]);
                }
            }
        }
        i = i + 1;
    }
    assert(views(tasks@).subrange(0, i as int) =~= views(tasks@));
    out
}

/// The message for a copy whose destination lacks a stem or an extension.
pub open spec fn copy_refusal(what: Seq<char>, source: Seq<char>, destination: Seq<char>) -> Seq<char> {
    "Original file name has no "@ + what + " - source: "@ + source + ", original filename: "@
        + destination
}

fn refusal(what: &str, source: &String, destination: &String) -> (r: String)
    ensures
        r@ == copy_refusal(what@, source@, destination@),
{
    let r = String::from_str("Original file name has no ").concat(what).concat(" - source: ").concat(
        source.as_str(),
    ).concat(", original filename: ").concat(destination.as_str());
    assert(r@ =~= copy_refusal(what@, source@, destination@));
    r
}

/// Checks that a copy's destination has a file stem and an extension, as the
/// copy step requires; the refusal names what is missing and both paths.
pub fn check_copy_destination(source: &String, destination: &String) -> (r: Result<(), String>)
    ensures
        r is Ok <==> file_stem(destination@) is Some && extension(destination@) is Some,
        r matches Err(e) ==> e@ == if file_stem(destination@) is None {
            copy_refusal("stem"@, source@, destination@)
        } else {
            copy_refusal("extension"@, source@, destination@)
        },
{
    if path_file_stem(destination.as_str()).is_none() {
        return Err(refusal("stem", source, destination));
    }
    if path_extension(destination.as_str()).is_none() {
        return Err(refusal("extension", source, destination));
    }
    Ok(())
}

/// The largest number of alternative names tried for a copy whose destination
/// exists.
pub const MAX_NUMBERED_NAMES: u32 = 10;

/// The destination `d` renamed to `stem (n).ext`.
pub open spec fn numbered_name(d: Seq<char>, n: nat) -> Seq<char> {
    with_extension(
        with_file_name(d, file_stem(d).unwrap() + " ("@ + decimal(n) + ")"@),
        extension(d).unwrap(),
    )
}

/// The `attempt`-th name that the copy step tries for a destination that
/// exists: the destination itself first, then `stem (0).ext` to `stem (9).ext`.
/// When all of them exist the copy fails. A destination without a stem or an
/// extension is refused as by [`check_copy_destination`].
pub fn collision_candidate(source: &String, destination: &String, attempt: u32) -> (r: Result<String, String>)
    ensures
        file_stem(destination@) is None || extension(destination@) is None ==> r is Err,
        file_stem(destination@) is Some && extension(destination@) is Some ==> {
            &&& attempt == 0 ==> (r matches Ok(p) && p@ == destination@)
            &&& 1 <= attempt <= MAX_NUMBERED_NAMES ==> (r matches Ok(p) && p@ == numbered_name(
                destination@,
                (attempt - 1) as nat,
            ))
            &&& attempt > MAX_NUMBERED_NAMES ==> (r matches Err(e) && e@ == file_stem(
                destination@,
            ).unwrap() + ": Too many files with the same name"@)
        },
{
    if let Err(e) = check_copy_destination(source, destination) {
        return Err(e);
    }
    let stem = match path_file_stem(destination.as_str()) {
        Some(s) => s,
        None => {
            return Err(String::new());
        },
    };
    let ext = match path_extension(destination.as_str()) {
        Some(e) => e,
        None => {
            return Err(String::new());
        },
    };
    if attempt == 0 {
        return Ok(destination.clone());
    }
    if attempt > MAX_NUMBERED_NAMES {
        let msg = stem.concat(": Too many files with the same name");
        return Err(msg);
    }
    let name = stem.concat(" (").concat(decimal_text((attempt - 1) as u64).as_str()).concat(")");
    let ghost expected = file_stem(destination@).unwrap() + " ("@ + decimal((attempt - 1) as nat) + ")"@;
    assert(name@ =~= expected);
    let renamed = path_with_file_name(destination.as_str(), name.as_str());
    Ok(path_with_extension(renamed.as_str(), ext.as_str()))
}

/// The counts that a run reports before it starts.
pub struct ExportMetadata {
    pub total_asset_count: usize,
    pub exportable_asset_count: usize,
    pub export_task_count: usize,
}

impl ExportMetadata {
    /// Tells whether some catalogued assets are not available for export.
    pub fn has_unavailable_assets(&self) -> (r: bool)
        ensures
            r == (self.total_asset_count != self.exportable_asset_count),
    {
        self.total_asset_count != self.exportable_asset_count
    }
}

/// A user's answer to a yes/no question.
#[derive(Clone, Copy, PartialEq, Eq, Structural, Debug)]
pub enum Answer {
    Yes,
    No,
}

/// What the caller is to do for one task.
pub enum StepAction {
    /// Nothing: the copy is skipped, or the run only pretends.
    Nothing,
    /// Copy the file at `source` to `destination`.
    Copy { source: String, destination: String },
    /// Delete the file at `path`.
    Delete { path: String },
}

pub enum StepActionView {
    Nothing,
    Copy { source: Seq<char>, destination: Seq<char> },
    Delete { path: Seq<char> },
}

impl View for StepAction {
    type V = StepActionView;

    open spec fn view(&self) -> StepActionView {
        match self {
            StepAction::Nothing => StepActionView::Nothing,
            StepAction::Copy { source, destination } => StepActionView::Copy {
                source: source@,
                destination: destination@,
            },
            StepAction::Delete { path } => StepActionView::Delete { path: path@ },
        }
    }
}

/// The action for a task: none in a dry run or for a skipped copy, else the
/// task's own operation.
pub open spec fn step_action(dry_run: bool, t: ExportTaskView) -> StepActionView {
    if dry_run {
        StepActionView::Nothing
    } else {
        match t {
            ExportTaskView::Copy(m) => if m.skip {
                StepActionView::Nothing
            } else {
                StepActionView::Copy { source: m.source, destination: m.destination }
            },
            ExportTaskView::Delete(p) => StepActionView::Delete { path: p },
        }
    }
}

/// An export engine: one that performs the tasks, or one that only pretends.
pub struct ExportEngine {
    pub dry_run: bool,
}

impl ExportEngine {
    /// An engine that copies and deletes files.
    pub fn new() -> (r: ExportEngine)
        ensures
            !r.dry_run,
    {
        ExportEngine { dry_run: false }
    }

    /// An engine that touches no file and counts every task as done.
    pub fn dry_run() -> (r: ExportEngine)
        ensures
            r.dry_run,
    {
        ExportEngine { dry_run: true }
    }

    /// Starts a run if the user agreed to it; declining ends the export cleanly,
    /// with nothing done.
    pub fn start(&self, answer: Answer) -> (r: Option<ExportRun>)
        ensures
            r is Some <==> answer == Answer::Yes,
            r matches Some(run) ==> run.succeeded == 0 && run.failures@.len() == 0,
    {
        match answer {
            Answer::Yes => Some(ExportRun::new()),
            Answer::No => None,
        }
    }

    /// What to do for `task`.
    pub fn plan_step(&self, task: &ExportTask) -> (r: StepAction)
        ensures
            r@ == step_action(self.dry_run, task@),
    {
        if self.dry_run {
            return StepAction::Nothing;
        }
        match task {
            ExportTask::Copy(m) => if m.skip {
                StepAction::Nothing
            } else {
                StepAction::Copy { source: m.source.clone(), destination: m.destination.clone() }
            },
            ExportTask::Delete(p) => StepAction::Delete { path: p.clone() },
        }
    }
}

/// A task that failed: where it read from, where it wrote to (or what it was to
/// delete), and why it failed.
pub struct TaskFailure {
    pub source: String,
    pub destination: String,
    pub message: String,
}

pub struct TaskFailureView {
    pub source: Seq<char>,
    pub destination: Seq<char>,
    pub message: Seq<char>,
}

impl View for TaskFailure {
    type V = TaskFailureView;

    open spec fn view(&self) -> TaskFailureView {
        TaskFailureView { source: self.source@, destination: self.destination@, message: self.message@ }
    }
}

/// The record of a failure of the task `t` with the message `msg`.
pub open spec fn failure_of(t: ExportTaskView, msg: Seq<char>) -> TaskFailureView {
    match t {
        ExportTaskView::Copy(m) => TaskFailureView { source: m.source, destination: m.destination, message: msg },
        ExportTaskView::Delete(p) => TaskFailureView { source: Seq::empty(), destination: p, message: msg },
    }
}

/// The tally of a run in progress.
pub struct ExportRun {
    pub succeeded: usize,
    pub failures: Vec<TaskFailure>,
}

/// How a run ended.
pub enum ExportOutcome {
    /// Every task succeeded; the count of tasks.
    Success(usize),
    /// The count of tasks that succeeded, and the failures of the others.
    Failure(usize, Vec<TaskFailure>),
}

impl ExportRun {
    /// A run before its first task.
    pub fn new() -> (r: ExportRun)
        ensures
            r.succeeded == 0,
            r.failures@.len() == 0,
    {
        ExportRun { succeeded: 0, failures: Vec::new() }
    }

    /// The number of tasks recorded so far.
    pub open spec fn recorded(&self) -> int {
        self.succeeded + self.failures@.len()
    }

    /// Records the outcome of `task`.
    pub fn record(&mut self, task: &ExportTask, outcome: Result<(), String>)
        requires
            old(self).succeeded < usize::MAX,
        ensures
            outcome is Ok ==> final(self).succeeded == old(self).succeeded + 1
                && final(self).failures@ == old(self).failures@,
            outcome matches Err(msg) ==> final(self).succeeded == old(self).succeeded
                && final(self).failures@.len() == old(self).failures@.len() + 1
                && final(self).failures@.drop_last() == old(self).failures@
                && final(self).failures@.last()@ == failure_of(task@, msg@),
    {
        match outcome {
            Ok(()) => {
                self.succeeded = self.succeeded + 1;
            },
            Err(message) => {
                let failure = match task {
                    ExportTask::Copy(m) => TaskFailure {
                        source: m.source.clone(),
                        destination: m.destination.clone(),
                        message,
                    },
                    ExportTask::Delete(p) => TaskFailure {
                        source: String::new(),
                        destination: p.clone(),
                        message,
                    },
                };
                self.failures.push(failure);
                assert(self.failures@.drop_last() =~= old(self).failures@);
            },
        }
    }

    /// Records the step planned for `task`: a step with no file operation (a
    /// skipped copy, or any step of a dry run) succeeds; any other has the
    /// outcome `performed` of its file operation.
    pub fn record_step(&mut self, task: &ExportTask, action: &StepAction, performed: Result<(), String>)
        requires
            old(self).succeeded < usize::MAX,
        ensures
            (action@ is Nothing || performed is Ok) ==> final(self).succeeded == old(self).succeeded + 1
                && final(self).failures@ == old(self).failures@,
            !(action@ is Nothing) ==> (performed matches Err(msg) ==> final(self).succeeded
                == old(self).succeeded && final(self).failures@.len() == old(self).failures@.len() + 1
                && final(self).failures@.drop_last() == old(self).failures@
                && final(self).failures@.last()@ == failure_of(task@, msg@)),
    {
        match action {
            StepAction::Nothing => self.record(task, Ok(())),
            _ => self.record(task, performed),
        }
    }

    /// How the run ended: a success when no task failed.
    pub fn finish(self) -> (r: ExportOutcome)
        ensures
            self.failures@.len() == 0 ==> r == ExportOutcome::Success(self.succeeded),
            self.failures@.len() > 0 ==> (r matches ExportOutcome::Failure(n, f) && n == self.succeeded
                && f@ == self.failures@),
    {
        if self.failures.len() == 0 {
            ExportOutcome::Success(self.succeeded)
        } else {
            ExportOutcome::Failure(self.succeeded, self.failures)
        }
    }
}

} // verus!
