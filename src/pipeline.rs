//! The pipeline sequencer: runs a batch of operations one after another, each
//! on the previous one's output, and says which superseded intermediate file
//! to delete. The transcoder itself, and the deletion, are the caller's: the
//! sequencer hands out one action at a time and is told how each run went.

use vstd::prelude::*;
use crate::compile::{ProcessError, OperationKind, invocation_args, kind_of, compile_operation, output_named_exactly_once};
use crate::order::{execution_order, is_execution_order};
use crate::params::Param;

verus! {

/// One step of a batch.
#[derive(Clone, Debug)]
pub struct Operation {
    pub kind: String,
    pub parameters: Vec<Param>,
    pub order: u32,
}

/// How a transcoder run ended.
#[derive(Clone, Debug)]
pub enum StepResult {
    Succeeded,
    /// The run failed; carries the transcoder's diagnostic text.
    Failed(String),
}

impl StepResult {
    /// Classifies a finished transcoder run by its exit status.
    pub fn from_exit(success: bool, stderr: String) -> (r: StepResult)
        ensures
            success ==> r is Succeeded,
            !success ==> (r matches StepResult::Failed(e) && e@ == stderr@),
    {
        if success { StepResult::Succeeded } else { StepResult::Failed(stderr) }
    }
}

/// What the caller is to do next.
#[derive(Debug)]
pub enum Action {
    /// Run the transcoder with these arguments.
    Run(Vec<String>),
    /// The batch is done; this is the final output.
    Finish(String),
    /// The batch stopped with this error.
    Abort(ProcessError),
}

/// The answer to a finished run: a file to delete, if any, and the next action.
#[derive(Debug)]
pub struct Directive {
    pub remove: Option<String>,
    pub action: Action,
}

#[derive(Clone, Copy, Debug, PartialEq, Eq, Structural)]
pub enum Stage {
    /// No run is awaited and the batch has not ended.
    Ready,
    /// A transcoder run has been handed out and its outcome is awaited.
    Awaiting,
    Finished,
    Failed,
}

pub struct Pipeline {
    /// The operations as given.
    pub ops: Vec<Operation>,
    /// Positions of `ops` in the order in which they run.
    pub order: Vec<usize>,
    /// The source file; never deleted here.
    pub original: String,
    /// The working area in which outputs are named.
    pub dir: String,
    /// The frontier: the file that the next step reads.
    pub current: String,
    /// The output of the run being awaited.
    pub pending: String,
    /// How many steps have completed.
    pub done: usize,
    pub stage: Stage,
    /// Intermediate files written by completed steps and not yet deleted.
    pub live: Ghost<Set<Seq<char>>>,
    /// Positions of the operations handed to the transcoder, in that order.
    pub runs: Ghost<Seq<usize>>,
}

pub open spec fn orders_of(ops: Seq<Operation>) -> Seq<u32> {
    ops.map_values(|o: Operation| o.order)
}

/// `path` is `dir/output_<id>.mp4` for a 36-character `id`.
pub open spec fn output_path_in(dir: Seq<char>, path: Seq<char>) -> bool {
    exists|id: Seq<char>| id.len() == 36 && path == dir + "/output_"@ + id + ".mp4"@
}

/// Relies on uuid::Uuid::new_v4 and its hyphenated text form, which is 36
/// characters long.
#[verifier::external_body]
fn fresh_id() -> (r: String)
    ensures
        r@.len() == 36,
{
    uuid::Uuid::new_v4().to_string()
}

/// A fresh output path in `dir`: `dir/output_<random id>.mp4`.
pub fn fresh_output_path(dir: &String) -> (r: String)
    ensures
        output_path_in(dir@, r@),
{
    let id = fresh_id();
    let r = dir.clone().concat("/output_").concat(id.as_str()).concat(".mp4");
    assert(r@ == dir@ + "/output_"@ + id@ + ".mp4"@);
    r
}

impl Pipeline {
    pub open spec fn wf(&self) -> bool {
        &&& is_execution_order(orders_of(self.ops@), self.order@)
        &&& self.done <= self.ops@.len()
        &&& (self.done == 0 <==> self.current@ == self.original@)
        &&& self.live@ == (if self.done == 0 { Set::<Seq<char>>::empty() } else { set![self.current@] })
        &&& match self.stage {
            Stage::Ready => self.runs@ == self.order@.take(self.done as int),
            Stage::Awaiting => self.done < self.ops@.len()
                && self.runs@ == self.order@.take(self.done + 1)
                && self.pending@ != self.current@
                && self.pending@ != self.original@,
            Stage::Finished => self.done == self.ops@.len() && self.runs@ == self.order@.take(self.done as int),
            Stage::Failed => self.runs@ == self.order@.take(self.done as int)
                || (self.done < self.ops@.len() && self.runs@ == self.order@.take(self.done + 1)),
        }
    }

    /// The operation that runs as step `k`.
    pub open spec fn step_op(&self, k: int) -> Operation {
        self.ops@[self.order@[k] as int]
    }

    /// What handing out the next step does with the output path `path`, from
    /// `pre` (no step awaited) to `post`.
    pub open spec fn launched_with(pre: Pipeline, post: Pipeline, a: Action, path: Seq<char>) -> bool {
        &&& post.wf()
        &&& post.ops@ == pre.ops@ && post.order@ == pre.order@
        &&& post.original@ == pre.original@ && post.dir@ == pre.dir@
        &&& post.current@ == pre.current@ && post.done == pre.done
        &&& post.live@ == pre.live@
        &&& if pre.done == pre.ops@.len() {
            post.stage == Stage::Finished && post.runs@ == pre.runs@
                && (a matches Action::Finish(f) && f@ == pre.current@)
        } else {
            let op = pre.step_op(pre.done as int);
            match kind_of(op.kind@) {
                None => post.stage == Stage::Failed && post.runs@ == pre.runs@
                    && (a matches Action::Abort(ProcessError::UnsupportedOperation(k)) && k@ == op.kind@),
                Some(kind) => if path == pre.current@ || path == pre.original@ {
                    post.stage == Stage::Failed && post.runs@ == pre.runs@
                        && (a matches Action::Abort(ProcessError::ResourceAllocationFailed(f)) && f@ == path)
                } else {
                    post.stage == Stage::Awaiting
                        && post.pending@ == path
                        && post.runs@ == pre.runs@.push(pre.order@[pre.done as int])
                        && (a matches Action::Run(args)
                            && args.deep_view() == invocation_args(pre.current@, kind, op.parameters@, path))
                },
            }
        }
    }

    /// What handing out the next step does, with an output path drawn fresh in
    /// the working area.
    pub open spec fn launched(pre: Pipeline, post: Pipeline, a: Action) -> bool {
        exists|path: Seq<char>| #[trigger] output_path_in(pre.dir@, path)
            && Pipeline::launched_with(pre, post, a, path)
    }

    /// A pipeline that will run `ops` on `original`, naming outputs in `dir`.
    pub fn new(original: String, dir: String, ops: Vec<Operation>) -> (r: Pipeline)
        ensures
            r.wf(),
            r.stage == Stage::Ready,
            r.done == 0,
            r.ops@ == ops@,
            r.original@ == original@,
            r.current@ == original@,
            r.dir@ == dir@,
    {
        let mut orders: Vec<u32> = Vec::new();
        let mut i: usize = 0;
        while i < ops.len()
            invariant
                i <= ops@.len(),
                orders@ == orders_of(ops@).take(i as int),
            decreases ops@.len() - i,
        {
            orders.push(ops[i].order);
            i = i + 1;
            assert(orders@ =~= orders_of(ops@).take(i as int));
        }
        assert(orders@ =~= orders_of(ops@));
        let order = execution_order(&orders);
        assert(Seq::<usize>::empty() =~= order@.take(0));
        let current = original.clone();
        let pending = original.clone();
        Pipeline {
            ops,
            order,
            original,
            dir,
            current,
            pending,
            done: 0,
            stage: Stage::Ready,
            live: Ghost(Set::empty()),
            runs: Ghost(Seq::empty()),
        }
    }

    pub fn is_ready(&self) -> (r: bool)
        ensures
            r == (self.stage == Stage::Ready),
    {
        self.stage == Stage::Ready
    }

    pub fn is_awaiting(&self) -> (r: bool)
        ensures
            r == (self.stage == Stage::Awaiting),
    {
        self.stage == Stage::Awaiting
    }

    /// Hands out the next step, writing its output to `path`, or finishes
    /// when none is left. An unknown kind aborts with `UnsupportedOperation`;
    /// a path equal to the frontier or to the source aborts with
    /// `ResourceAllocationFailed`.
    pub fn launch_with(&mut self, path: String) -> (a: Action)
        requires
            old(self).wf(),
            old(self).stage == Stage::Ready,
        ensures
            Pipeline::launched_with(*old(self), *final(self), a, path@),
    {
        if self.done == self.ops.len() {
            self.stage = Stage::Finished;
            return Action::Finish(self.current.clone());
        }
        let idx = self.order[self.done];
        let kind = OperationKind::from_name(&self.ops[idx].kind);
        if kind.is_none() {
            self.stage = Stage::Failed;
            return Action::Abort(ProcessError::UnsupportedOperation(self.ops[idx].kind.clone()));
        }
        if path == self.current || path == self.original {
            self.stage = Stage::Failed;
            return Action::Abort(ProcessError::ResourceAllocationFailed(path));
        }
        match compile_operation(&self.current, &self.ops[idx].kind, &self.ops[idx].parameters, &path) {
            Ok(args) => {
                self.pending = path;
                self.stage = Stage::Awaiting;
                self.runs = Ghost(self.runs@.push(idx));
                assert(self.runs@ =~= self.order@.take(self.done + 1));
                Action::Run(args)
            },
            Err(e) => {
                self.stage = Stage::Failed;
                Action::Abort(e)
            },
        }
    }

    /// Hands out the next step with a fresh output path in the working area.
    fn launch(&mut self) -> (a: Action)
        requires
            old(self).wf(),
            old(self).stage == Stage::Ready,
        ensures
            Pipeline::launched(*old(self), *final(self), a),
    {
        let path = fresh_output_path(&self.dir);
        let ghost pre: Pipeline = *self;
        let a = self.launch_with(path);
        assert(output_path_in(pre.dir@, path@));
        a
    }

    /// Starts the batch: hands out its first step.
    pub fn start(&mut self) -> (a: Action)
        requires
            old(self).wf(),
            old(self).stage == Stage::Ready,
        ensures
            Pipeline::launched(*old(self), *final(self), a),
    {
        self.launch()
    }

    /// Takes the outcome of the awaited run. A failure stops the batch with
    /// `TranscodeFailed`; a success makes its output the frontier, names the
    /// superseded frontier for deletion unless it is the source, and hands out
    /// the next step.
    pub fn advance(&mut self, outcome: StepResult) -> (d: Directive)
        requires
            old(self).wf(),
            old(self).stage == Stage::Awaiting,
        ensures
            final(self).wf(),
            final(self).ops@ == old(self).ops@,
            final(self).original@ == old(self).original@,
            match outcome {
                StepResult::Failed(e) => final(self).stage == Stage::Failed
                    && final(self).runs@ == old(self).runs@
                    && final(self).done == old(self).done
                    && final(self).current@ == old(self).current@
                    && d.remove is None
                    && (d.action matches Action::Abort(ProcessError::TranscodeFailed(m)) && m@ == e@),
                StepResult::Succeeded => {
                    &&& (if old(self).current@ == old(self).original@ {
                        d.remove is None
                    } else {
                        d.remove matches Some(f) && f@ == old(self).current@
                    })
                    &&& final(self).live@ == match d.remove {
                        Some(f) => old(self).live@.insert(old(self).pending@).remove(f@),
                        None => old(self).live@.insert(old(self).pending@),
                    }
                    &&& exists|mid: Pipeline|
                        mid.current@ == old(self).pending@
                        && mid.done == old(self).done + 1
                        && mid.runs@ == old(self).runs@
                        && mid.ops@ == old(self).ops@ && mid.order@ == old(self).order@
                        && mid.original@ == old(self).original@ && mid.dir@ == old(self).dir@
                        && mid.live@ == final(self).live@
                        && #[trigger] Pipeline::launched(mid, *final(self), d.action)
                },
            },
    {
        match outcome {
            StepResult::Failed(e) => {
                self.stage = Stage::Failed;
                Directive { remove: None, action: Action::Abort(ProcessError::TranscodeFailed(e)) }
            },
            StepResult::Succeeded => {
                let remove = if self.current == self.original {
                    None
                } else {
                    Some(self.current.clone())
                };
                let n = self.ops.len();
                assert(self.done < n);
                let next = self.pending.clone();
                self.current = next;
                self.done = self.done + 1;
                let ghost added = self.live@.insert(self.pending@);
                let ghost removed: Option<Seq<char>> = match &remove {
                    Some(f) => Some(f@),
                    None => None,
                };
                self.live = Ghost(match removed {
                    Some(f) => added.remove(f),
                    None => added,
                });
                assert(self.live@ =~= Set::<Seq<char>>::empty().insert(self.pending@));
                self.stage = Stage::Ready;
                let ghost mid: Pipeline = *self;
                let action = self.launch();
                assert(Pipeline::launched(mid, *self, action));
                Directive { remove, action }
            },
        }
    }
}

/// A finished batch handed every operation to the transcoder exactly once, in
/// ascending `order` with ties in the order given.
pub proof fn finished_batch_ran_each_once_in_order(p: Pipeline)
    requires
        p.wf(),
        p.stage == Stage::Finished,
    ensures
        p.runs@ == p.order@,
        p.runs@.len() == p.ops@.len(),
        is_execution_order(orders_of(p.ops@), p.runs@),
{
    assert(p.order@.take(p.done as int) =~= p.order@);
}

/// Every run that the sequencer hands out reads the frontier as given, in
/// second place, and names its output exactly once, last: a fresh
/// `dir/output_<id>.mp4` path that is neither the frontier nor the source.
pub proof fn run_names_its_output_once(pre: Pipeline, post: Pipeline, a: Action)
    requires
        Pipeline::launched(pre, post, a),
    ensures
        match a {
            Action::Run(args) => {
                &&& output_path_in(pre.dir@, post.pending@)
                &&& post.pending@ != pre.current@ && post.pending@ != pre.original@
                &&& args.deep_view()[1] == pre.current@
                &&& args.deep_view().last() == post.pending@
                &&& forall|i: int| 0 <= i < args.deep_view().len() - 1
                    ==> #[trigger] args.deep_view()[i] != post.pending@
            },
            _ => true,
        },
{
    let path = choose|path: Seq<char>| #[trigger] output_path_in(pre.dir@, path)
        && Pipeline::launched_with(pre, post, a, path);
    if a is Run {
        let id = choose|id: Seq<char>| id.len() == 36 && path == pre.dir@ + "/output_"@ + id + ".mp4"@;
        reveal_strlit(".mp4");
        assert(path[path.len() - 2] == (pre.dir@ + "/output_"@ + id + ".mp4"@)[path.len() - 2]);
        assert(path[path.len() - 2] == 'p');
        let op = pre.step_op(pre.done as int);
        let kind = kind_of(op.kind@)->Some_0;
        output_named_exactly_once(pre.current@, kind, op.parameters@, path);
    }
}

/// After a finished batch of at least one operation, the one intermediate file
/// left is the final output, and it is not the source.
pub proof fn finished_batch_leaves_one_intermediate(p: Pipeline)
    requires
        p.wf(),
        p.stage == Stage::Finished,
        p.ops@.len() >= 1,
    ensures
        p.live@ == set![p.current@],
        p.current@ != p.original@,
{
}

/// A batch that failed ran a prefix of its execution order, ending no later
/// than the step that failed; nothing can be run from a failed pipeline, since
/// only a ready or an awaiting one takes a call.
pub proof fn failed_batch_ran_a_prefix(p: Pipeline)
    requires
        p.wf(),
        p.stage == Stage::Failed,
    ensures
        p.runs@.len() <= p.done + 1,
        p.runs@ == p.order@.take(p.runs@.len() as int),
{
}

} // verus!
