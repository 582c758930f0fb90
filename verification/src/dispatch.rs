//! Dispatch executor: records one compute pass as an ordered command
//! sequence and submits it to the queue as a single atomic unit of work.

use vstd::prelude::*;
use crate::error::GpuError;
use crate::pipeline::{BindingSet, Pipeline};

verus! {

/// One recorded operation of a compute pass.
#[derive(Clone, Copy, Debug, PartialEq, Eq, Structural)]
pub enum CommandOp {
    /// Opens the compute pass.
    BeginComputePass,
    /// Binds the pipeline to the pass.
    SetPipeline,
    /// Binds the resource set at the given binding index.
    SetBindGroup(u32),
    /// Launches the given counts of workgroups along each axis.
    Dispatch(u32, u32, u32),
    /// Closes the compute pass.
    EndComputePass,
}

/// An ordered, append-only list of recorded operations. Submitting a
/// sequence consumes it, so a sequence can never be submitted twice.
pub struct CommandSequence {
    ops: Vec<CommandOp>,
}

impl CommandSequence {
    /// The recorded operations, in recording order.
    pub closed spec fn ops(self) -> Seq<CommandOp> {
        self.ops@
    }

    /// Reads the recorded operations, in recording order.
    pub fn operations(&self) -> (r: &Vec<CommandOp>)
        ensures
            r@ == self.ops(),
    {
        &self.ops
    }
}

/// The operations of one compute pass over a `grid_x` by `grid_y` dispatch
/// grid, in the order the executor records them.
pub open spec fn compute_pass_ops(grid_x: u32, grid_y: u32) -> Seq<CommandOp> {
    seq![
        CommandOp::BeginComputePass,
        CommandOp::SetPipeline,
        CommandOp::SetBindGroup(0u32),
        CommandOp::Dispatch(grid_x, grid_y, 1u32),
        CommandOp::EndComputePass,
    ]
}

/// The ordered command queue of the device context. It executes submissions
/// in order; `log` records what was submitted, submission by submission.
pub struct Queue {
    submitted: u64,
    log: Ghost<Seq<Seq<CommandOp>>>,
}

impl Queue {
    /// Everything submitted so far: one operation sequence per submission,
    /// oldest first.
    pub closed spec fn log(self) -> Seq<Seq<CommandOp>> {
        self.log@
    }

    pub closed spec fn wf(self) -> bool {
        self.log@.len() == self.submitted
    }

    /// A fresh queue with nothing submitted, bound to a newly created device.
    pub(crate) fn empty() -> (q: Queue)
        ensures
            q.wf(),
            q.log().len() == 0,
    {
        Queue { submitted: 0, log: Ghost(Seq::empty()) }
    }

    /// How many command sequences have been submitted to this queue.
    pub fn submission_count(&self) -> (n: u64)
        requires
            self.wf(),
        ensures
            n == self.log().len(),
    {
        self.submitted
    }

    /// Submits one recorded command sequence to the queue as a single atomic
    /// unit of work, consuming the sequence.
    pub fn submit(&mut self, commands: CommandSequence)
        requires
            old(self).wf(),
            old(self).log().len() < u64::MAX,
        ensures
            final(self).wf(),
            final(self).log() == old(self).log().push(commands.ops()),
    {
        self.submitted = self.submitted + 1;
        self.log = Ghost(self.log@.push(commands.ops()));
    }
}

/// Records the compute pass in order: begin pass, bind the pipeline, bind
/// the resource set at binding index zero, dispatch `(grid.0, grid.1, 1)`
/// workgroups, end the pass.
pub fn record_compute_pass(pipeline: &Pipeline, bindings: &BindingSet, grid: (u32, u32)) -> (c:
    CommandSequence)
    requires
        pipeline.wf(),
        bindings.slots@ == pipeline.bindings@,
    ensures
        c.ops() == compute_pass_ops(grid.0, grid.1),
{
    let mut ops: Vec<CommandOp> = Vec::new();
    ops.push(CommandOp::BeginComputePass);
    ops.push(CommandOp::SetPipeline);
    ops.push(CommandOp::SetBindGroup(0));
    ops.push(CommandOp::Dispatch(grid.0, grid.1, 1));
    ops.push(CommandOp::EndComputePass);
    proof {
        assert(ops@ =~= compute_pass_ops(grid.0, grid.1));
    }
    CommandSequence { ops }
}

/// Checks that the binding set was built against this pipeline's layout,
/// then records one compute pass and submits it. A binding set built against
/// a different layout is rejected before anything reaches the queue.
pub fn dispatch(queue: &mut Queue, pipeline: &Pipeline, bindings: &BindingSet, grid: (u32, u32)) -> (
    r: Result<(), GpuError>)
    requires
        old(queue).wf(),
        old(queue).log().len() < u64::MAX,
        pipeline.wf(),
    ensures
        final(queue).wf(),
        bindings.slots@ == pipeline.bindings@ ==> (r == Ok::<(), GpuError>(())
            && final(queue).log() == old(queue).log().push(compute_pass_ops(grid.0, grid.1))),
        bindings.slots@ != pipeline.bindings@ ==> (r == Err::<(), GpuError>(
            GpuError::BindingLayoutMismatch,
        ) && *final(queue) == *old(queue)),
{
    if !layouts_equal(&bindings.slots, &pipeline.bindings) {
        return Err(GpuError::BindingLayoutMismatch);
    }
    let commands = record_compute_pass(pipeline, bindings, grid);
    queue.submit(commands);
    Ok(())
}

/// Whether two binding layouts declare the same kinds in the same order.
fn layouts_equal(a: &Vec<crate::pipeline::BindingKind>, b: &Vec<crate::pipeline::BindingKind>) -> (
    r: bool)
    ensures
        r <==> a@ == b@,
{
    if a.len() != b.len() {
        return false;
    }
    let n: usize = a.len();
    let mut i: usize = 0;
    while i < n
        invariant
            n == a@.len(),
            n == b@.len(),
            i <= n,
            forall|k: int| 0 <= k < i ==> a@[k] == b@[k],
        decreases n - i,
    {
        if a[i] != b[i] {
            return false;
        }
        i = i + 1;
    }
    proof {
        assert(a@ =~= b@);
    }
    true
}

} // verus!
