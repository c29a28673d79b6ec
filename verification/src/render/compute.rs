//! Dispatch of the sequences whose pipelines are compiled, and the submission
//! of what was recorded.

use vstd::prelude::*;
use crate::noise_queue::ComputeNoiseRenderQueue;
use crate::noise_queue::RenderComputeNoise;
use crate::noise_queue::RenderComputeNoiseView;
use crate::render::node::ComputeNoiseBindGroups;
use crate::render::node::ComputeNoiseBindGroupsView;
use crate::render::node::spec_dispatch_of_set;
use crate::render::node::spec_dispatches_of_half;
use crate::render::pipeline::BindGroup;
use crate::render::pipeline::BindGroupView;
use crate::render::pipeline::CachedComputePipelineId;
use crate::render::pipeline::PipelineCatalog;

verus! {

/// One compute pass: a pipeline, its bind groups from group 0 on, and the
/// number of workgroups along each axis.
#[derive(Debug, PartialEq, Eq)]
pub struct ComputeDispatch {
    pub pipeline_id: CachedComputePipelineId,
    pub bind_groups: Vec<BindGroup>,
    pub workgroups: (u32, u32, u32),
}

/// A compute pass as plain values.
pub struct ComputeDispatchView {
    pub pipeline_id: CachedComputePipelineId,
    pub bind_groups: Seq<BindGroupView>,
    pub workgroups: (u32, u32, u32),
}

impl DeepView for ComputeDispatch {
    type V = ComputeDispatchView;

    open spec fn deep_view(&self) -> ComputeDispatchView {
        ComputeDispatchView {
            pipeline_id: self.pipeline_id,
            bind_groups: self.bind_groups.deep_view(),
            workgroups: self.workgroups,
        }
    }
}

/// The command buffer that is being recorded, and whether it holds anything
/// that is to be submitted. A command buffer is open at all times: when one
/// is finished, the next is opened at once.
pub struct ComputeNoiseEncoder {
    encoder: Vec<ComputeDispatch>,
    submit: bool,
}

/// The pass that runs a prepared instruction: one workgroup for every 8 texels
/// along each axis.
pub open spec fn spec_dispatch_of(noise: RenderComputeNoiseView) -> ComputeDispatchView {
    ComputeDispatchView {
        pipeline_id: noise.pipeline_id,
        bind_groups: seq![noise.bind_group],
        workgroups: noise.size.spec_workgroup_count(),
    }
}

/// The passes of a sequence, one for each instruction, in order.
pub open spec fn spec_dispatches(sequence: Seq<RenderComputeNoiseView>) -> Seq<
    ComputeDispatchView,
> {
    Seq::new(sequence.len(), |k: int| spec_dispatch_of(sequence[k]))
}

/// A sequence can run when the pipeline of each of its instructions is compiled.
pub open spec fn spec_sequence_ready(
    pipelines: PipelineCatalog,
    sequence: Seq<RenderComputeNoiseView>,
) -> bool {
    forall|k: int|
        0 <= k < sequence.len() ==> pipelines.spec_is_ready((#[trigger] sequence[k]).pipeline_id)
}

/// The sequences that cannot run yet, in the order in which they wait.
pub open spec fn spec_remaining(
    pipelines: PipelineCatalog,
    queue: Seq<Seq<RenderComputeNoiseView>>,
) -> Seq<Seq<RenderComputeNoiseView>>
    decreases queue.len(),
{
    if queue.len() == 0 {
        Seq::empty()
    } else {
        let before = spec_remaining(pipelines, queue.drop_last());
        if spec_sequence_ready(pipelines, queue.last()) {
            before
        } else {
            before.push(queue.last())
        }
    }
}

/// The passes of the sequences that can run, sequence by sequence in the
/// order in which they wait.
pub open spec fn spec_recorded(
    pipelines: PipelineCatalog,
    queue: Seq<Seq<RenderComputeNoiseView>>,
) -> Seq<ComputeDispatchView>
    decreases queue.len(),
{
    if queue.len() == 0 {
        Seq::empty()
    } else {
        let before = spec_recorded(pipelines, queue.drop_last());
        if spec_sequence_ready(pipelines, queue.last()) {
            before + spec_dispatches(queue.last())
        } else {
            before
        }
    }
}

impl ComputeNoiseEncoder {
    /// The passes recorded into the open command buffer.
    pub closed spec fn commands(&self) -> Seq<ComputeDispatchView> {
        self.encoder.deep_view()
    }

    /// Whether the open command buffer is to be submitted.
    pub closed spec fn submit(&self) -> bool {
        self.submit
    }

    /// An encoder with an open, empty command buffer.
    pub fn new() -> (encoder: ComputeNoiseEncoder)
        ensures
            encoder.commands() == Seq::<ComputeDispatchView>::empty(),
            !encoder.submit(),
    {
        let commands: Vec<ComputeDispatch> = Vec::new();
        assert(commands.deep_view() =~= Seq::<ComputeDispatchView>::empty());
        ComputeNoiseEncoder { encoder: commands, submit: false }
    }

    /// Whether the open command buffer is to be submitted.
    pub fn is_submit(&self) -> (submit: bool)
        ensures
            submit == self.submit(),
    {
        self.submit
    }

    /// Records `passes` behind what the open command buffer holds, and marks
    /// the buffer for submission if there is a pass among them.
    pub fn record(&mut self, passes: Vec<ComputeDispatch>)
        ensures
            final(self).commands() == old(self).commands() + passes.deep_view(),
            final(self).submit() == (old(self).submit() || passes.len() > 0),
    {
        let ghost added = passes.deep_view();
        let dispatched: bool = passes.len() > 0;
        let mut passes = passes;
        self.encoder.append(&mut passes);
        assert(self.commands() =~= old(self).commands() + added);
        if dispatched {
            self.submit = true;
        }
    }

    /// The number of passes recorded into the open command buffer.
    pub fn recorded(&self) -> (count: usize)
        ensures
            count == self.commands().len(),
    {
        self.encoder.len()
    }
}

/// Decides [`spec_sequence_ready`].
pub fn sequence_ready(pipelines: &PipelineCatalog, sequence: &Vec<RenderComputeNoise>) -> (ready:
    bool)
    requires
        pipelines.wf(),
    ensures
        ready == spec_sequence_ready(*pipelines, sequence.deep_view()),
{
    let mut k: usize = 0;
    while k < sequence.len()
        invariant
            pipelines.wf(),
            k <= sequence.len(),
            forall|j: int|
                0 <= j < k ==> pipelines.spec_is_ready(
                    (#[trigger] sequence.deep_view()[j]).pipeline_id,
                ),
        decreases sequence.len() - k,
    {
        if !pipelines.is_ready(sequence[k].pipeline_id) {
            assert(!pipelines.spec_is_ready(sequence.deep_view()[k as int].pipeline_id));
            return false;
        }
        k = k + 1;
    }
    true
}

/// Records one pass for each instruction of `sequence`, in order.
fn record_sequence(commands: &mut Vec<ComputeDispatch>, sequence: Vec<RenderComputeNoise>)
    ensures
        final(commands).deep_view() == old(commands).deep_view() + spec_dispatches(
            sequence.deep_view(),
        ),
{
    let ghost all = sequence.deep_view();
    assert(commands.deep_view() =~= old(commands).deep_view() + spec_dispatches(all.take(0)));
    for render_noise in iter: sequence
        invariant
            iter.seq().len() == all.len(),
            forall|j: int| 0 <= j < all.len() ==> (#[trigger] iter.seq()[j]).deep_view() == all[j],
            commands.deep_view() == old(commands).deep_view() + spec_dispatches(
                all.take(iter.index() as int),
            ),
    {
        let ghost before = commands.deep_view();
        let ghost k = iter.index() as int;
        let workgroups = render_noise.size.workgroup_count();
        let bind_groups = vec![render_noise.bind_group];
        assert(bind_groups.deep_view() =~= seq![render_noise.deep_view().bind_group]);
        let dispatch = ComputeDispatch {
            pipeline_id: render_noise.pipeline_id,
            bind_groups,
            workgroups,
        };
        assert(dispatch.deep_view() == spec_dispatch_of(all[k]));
        commands.push(dispatch);
        assert(commands.deep_view() =~= before.push(spec_dispatch_of(all[k])));
        assert(spec_dispatches(all.take(k + 1)) =~= spec_dispatches(all.take(k)).push(
            spec_dispatch_of(all[k]),
        ));
    }
    assert(all.take(all.len() as int) =~= all);
}

/// Records the passes of every waiting sequence whose pipelines are all
/// compiled, in the order in which the sequences wait, and takes those
/// sequences out of the queue. The others stay, in their order. If a pass was
/// recorded, the command buffer is marked for submission.
pub fn compute_noise(
    compute_noise_encoder: &mut ComputeNoiseEncoder,
    compute_noise_queue: &mut ComputeNoiseRenderQueue,
    pipelines: &PipelineCatalog,
)
    requires
        pipelines.wf(),
    ensures
        final(compute_noise_queue)@ == spec_remaining(*pipelines, old(compute_noise_queue)@),
        final(compute_noise_encoder).commands() == old(compute_noise_encoder).commands()
            + spec_recorded(*pipelines, old(compute_noise_queue)@),
        final(compute_noise_encoder).submit() == (old(compute_noise_encoder).submit()
            || spec_recorded(*pipelines, old(compute_noise_queue)@).len() > 0),
{
    let mut waiting: Vec<Vec<RenderComputeNoise>> = Vec::new();
    core::mem::swap(&mut waiting, &mut compute_noise_queue.queue);
    let ghost all = old(compute_noise_queue)@;
    let recorded_before: usize = compute_noise_encoder.encoder.len();
    proof {
        assert(all.take(0) =~= Seq::<Seq<RenderComputeNoiseView>>::empty());
        assert(compute_noise_queue@ =~= spec_remaining(*pipelines, all.take(0)));
        assert(compute_noise_encoder.commands() =~= old(compute_noise_encoder).commands()
            + spec_recorded(*pipelines, all.take(0)));
    }
    for sequence in iter: waiting
        invariant
            pipelines.wf(),
            iter.seq().len() == all.len(),
            recorded_before == old(compute_noise_encoder).commands().len(),
            compute_noise_encoder.submit() == old(compute_noise_encoder).submit(),
            forall|j: int| 0 <= j < all.len() ==> (#[trigger] iter.seq()[j]).deep_view() == all[j],
            compute_noise_queue@ == spec_remaining(*pipelines, all.take(iter.index() as int)),
            compute_noise_encoder.commands() == old(compute_noise_encoder).commands()
                + spec_recorded(*pipelines, all.take(iter.index() as int)),
    {
        let ghost i = iter.index() as int;
        let ghost remaining_before = compute_noise_queue@;
        proof {
            let taken = all.take(i + 1);
            assert(taken.drop_last() =~= all.take(i));
            assert(taken.last() == all[i]);
            assert(sequence.deep_view() == all[i]);
        }
        if sequence_ready(pipelines, &sequence) {
            record_sequence(&mut compute_noise_encoder.encoder, sequence);
        } else {
            compute_noise_queue.queue.push(sequence);
            assert(compute_noise_queue@ =~= remaining_before.push(all[i]));
        }
    }
    assert(all.take(all.len() as int) =~= all);
    if compute_noise_encoder.encoder.len() > recorded_before {
        compute_noise_encoder.submit = true;
    }
}

/// Finishes the open command buffer if it is marked for submission, and opens
/// a new one. The result is what the host is to submit: the passes in the
/// order in which they were recorded.
pub fn submit_compute_noise(compute_noise_encoder: &mut ComputeNoiseEncoder) -> (finished: Option<
    Vec<ComputeDispatch>,
>)
    ensures
        !final(compute_noise_encoder).submit(),
        old(compute_noise_encoder).submit() ==> {
            &&& finished is Some
            &&& finished->0.deep_view() == old(compute_noise_encoder).commands()
            &&& final(compute_noise_encoder).commands() == Seq::<ComputeDispatchView>::empty()
        },
        !old(compute_noise_encoder).submit() ==> {
            &&& finished is None
            &&& final(compute_noise_encoder).commands() == old(compute_noise_encoder).commands()
        },
{
    if compute_noise_encoder.submit {
        let mut finished: Vec<ComputeDispatch> = Vec::new();
        core::mem::swap(&mut finished, &mut compute_noise_encoder.encoder);
        assert(compute_noise_encoder.commands() =~= Seq::<ComputeDispatchView>::empty());
        compute_noise_encoder.submit = false;
        Some(finished)
    } else {
        None
    }
}

/// Records one pass on `pipeline_id` for each of `sets`, in order.
fn record_sets(
    commands: &mut Vec<ComputeDispatch>,
    pipeline_id: CachedComputePipelineId,
    sets: Vec<ComputeNoiseBindGroups>,
)
    ensures
        final(commands).deep_view() == old(commands).deep_view() + spec_dispatches_of_half(
            pipeline_id,
            sets.deep_view(),
        ),
{
    let ghost all = sets.deep_view();
    assert(commands.deep_view() =~= old(commands).deep_view() + spec_dispatches_of_half(
        pipeline_id,
        all.take(0),
    ));
    for set in iter: sets
        invariant
            iter.seq().len() == all.len(),
            forall|j: int| 0 <= j < all.len() ==> (#[trigger] iter.seq()[j]).deep_view() == all[j],
            commands.deep_view() == old(commands).deep_view() + spec_dispatches_of_half(
                pipeline_id,
                all.take(iter.index() as int),
            ),
    {
        let ghost before = commands.deep_view();
        let ghost k = iter.index() as int;
        let workgroups = set.size.workgroup_count();
        let bind_groups = vec![set.image_bind_group, set.noise_bind_group];
        assert(bind_groups.deep_view() =~= seq![all[k].image_bind_group, all[k].noise_bind_group]);
        let dispatch = ComputeDispatch { pipeline_id, bind_groups, workgroups };
        assert(dispatch.deep_view() == spec_dispatch_of_set(pipeline_id, all[k]));
        commands.push(dispatch);
        assert(commands.deep_view() =~= before.push(spec_dispatch_of_set(pipeline_id, all[k])));
        assert(spec_dispatches_of_half(pipeline_id, all.take(k + 1)) =~= spec_dispatches_of_half(
            pipeline_id,
            all.take(k),
        ).push(spec_dispatch_of_set(pipeline_id, all[k])));
    }
    assert(all.take(all.len() as int) =~= all);
}

/// Runs everything that waits for one kernel type, and submits at once. When
/// the pipeline is compiled and something waits, one pass on `pipeline_id` is
/// recorded for each waiting resource set, in order; the command buffer is
/// finished and handed out for submission, a new one is opened, and nothing
/// waits any more. Else nothing happens: a tick that runs no pass submits
/// nothing.
pub fn run_compute_noise(
    compute_noise_renderer: &mut ComputeNoiseEncoder,
    compute_noise_queue: &mut Vec<ComputeNoiseBindGroups>,
    pipeline_ready: bool,
    pipeline_id: CachedComputePipelineId,
) -> (finished: Option<Vec<ComputeDispatch>>)
    ensures
        finished is Some <==> pipeline_ready && old(compute_noise_queue).deep_view().len() > 0,
        finished is Some ==> {
            &&& finished->0.deep_view() == old(compute_noise_renderer).commands()
                + spec_dispatches_of_half(pipeline_id, old(compute_noise_queue).deep_view())
            &&& final(compute_noise_queue).deep_view() == Seq::<
                ComputeNoiseBindGroupsView,
            >::empty()
            &&& final(compute_noise_renderer).commands() == Seq::<ComputeDispatchView>::empty()
            &&& !final(compute_noise_renderer).submit()
        },
        finished is None ==> {
            &&& final(compute_noise_queue).deep_view() == old(compute_noise_queue).deep_view()
            &&& final(compute_noise_renderer).commands() == old(compute_noise_renderer).commands()
            &&& final(compute_noise_renderer).submit() == old(compute_noise_renderer).submit()
        },
{
    if !pipeline_ready || compute_noise_queue.len() == 0 {
        return None;
    }
    let mut commands: Vec<ComputeDispatch> = Vec::new();
    core::mem::swap(&mut commands, &mut compute_noise_renderer.encoder);
    assert(compute_noise_renderer.commands() =~= Seq::<ComputeDispatchView>::empty());
    let mut waiting: Vec<ComputeNoiseBindGroups> = Vec::new();
    core::mem::swap(&mut waiting, compute_noise_queue);
    assert(compute_noise_queue.deep_view() =~= Seq::<ComputeNoiseBindGroupsView>::empty());
    record_sets(&mut commands, pipeline_id, waiting);
    compute_noise_renderer.submit = false;
    Some(commands)
}

} // verus!
