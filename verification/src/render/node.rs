//! The scheduler of one kernel type: a state machine over a double buffer.
//!
//! While the pipeline of the kernel type compiles, resource sets gather in
//! half 0. From then on one half is written while the other is run: in state
//! `Ready(p)` half `p` is run and half `1 - p` is written. Each tick empties
//! the half that was run last, turns to the other half and runs it.

use core::marker::PhantomData;
use vstd::prelude::*;
use crate::image::ComputeNoiseSize;
use crate::image::ImageHandle;
use crate::image::ImageSizes;
use crate::noise::ComputeNoise;
use crate::noise::ErasedComputeNoise;
use crate::noise::ErasedComputeNoiseView;
use crate::noise_queue::ComputeNoiseError;
use crate::noise_queue::ComputeNoiseRejection;
use crate::render::compute::ComputeDispatch;
use crate::render::compute::ComputeDispatchView;
use crate::render::pipeline::BindGroup;
use crate::render::pipeline::BindGroupEntry;
use crate::render::pipeline::BindGroupEntryView;
use crate::render::pipeline::BindGroupView;
use crate::render::pipeline::BindingResource;
use crate::render::pipeline::BindingResourceView;
use crate::render::pipeline::CachedComputePipelineId;
use crate::table::copy_vec;

verus! {

/// Where the scheduler stands: waiting for the pipeline, or running the half
/// with the given index.
#[derive(Clone, Copy, Debug, PartialEq, Eq, Structural)]
pub enum ComputeNoiseNodeState {
    Loading,
    Ready(usize),
}

impl Default for ComputeNoiseNodeState {
    fn default() -> (state: ComputeNoiseNodeState)
        ensures
            state == ComputeNoiseNodeState::Loading,
    {
        ComputeNoiseNodeState::Loading
    }
}

impl ComputeNoiseNodeState {
    /// The index of a half is 0 or 1.
    pub open spec fn wf(self) -> bool {
        match self {
            ComputeNoiseNodeState::Loading => true,
            ComputeNoiseNodeState::Ready(index) => index == 0 || index == 1,
        }
    }

    /// The half that is written: half 1 while half 0 is run, else half 0.
    pub open spec fn spec_writable(self) -> int {
        if self == ComputeNoiseNodeState::Ready(0) {
            1
        } else {
            0
        }
    }

    /// The state after a tick. The first tick on which the pipeline is
    /// compiled turns to half 0; every later one turns to the other half.
    pub open spec fn spec_after_update(self, pipeline_ready: bool) -> ComputeNoiseNodeState {
        match self {
            ComputeNoiseNodeState::Loading => if pipeline_ready {
                ComputeNoiseNodeState::Ready(0)
            } else {
                ComputeNoiseNodeState::Loading
            },
            ComputeNoiseNodeState::Ready(index) => if index == 0 {
                ComputeNoiseNodeState::Ready(1)
            } else {
                ComputeNoiseNodeState::Ready(0)
            },
        }
    }

    /// The index of the half that is written.
    pub fn writable(self) -> (index: usize)
        ensures
            index == self.spec_writable(),
    {
        match self {
            ComputeNoiseNodeState::Ready(0) => 1,
            _ => 0,
        }
    }
}

/// The resources of one kernel run: the group of the image, the group of the
/// kernel's parameters, and the size of the run.
#[derive(Debug, PartialEq, Eq)]
pub struct ComputeNoiseBindGroups {
    pub image_bind_group: BindGroup,
    pub noise_bind_group: BindGroup,
    pub size: ComputeNoiseSize,
}

/// A resource set as plain values.
pub struct ComputeNoiseBindGroupsView {
    pub image_bind_group: BindGroupView,
    pub noise_bind_group: BindGroupView,
    pub size: ComputeNoiseSize,
}

impl DeepView for ComputeNoiseBindGroups {
    type V = ComputeNoiseBindGroupsView;

    open spec fn deep_view(&self) -> ComputeNoiseBindGroupsView {
        ComputeNoiseBindGroupsView {
            image_bind_group: self.image_bind_group.deep_view(),
            noise_bind_group: self.noise_bind_group.deep_view(),
            size: self.size,
        }
    }
}

/// One request for one kernel run: the image to write, the kernel, and the
/// size of the run.
pub struct ComputeNoiseRequest {
    pub target: ImageHandle,
    pub kernel: ErasedComputeNoise,
    pub size: ComputeNoiseSize,
}

/// A request as plain values.
pub struct ComputeNoiseRequestView {
    pub target: ImageHandle,
    pub kernel: ErasedComputeNoiseView,
    pub size: ComputeNoiseSize,
}

impl DeepView for ComputeNoiseRequest {
    type V = ComputeNoiseRequestView;

    open spec fn deep_view(&self) -> ComputeNoiseRequestView {
        ComputeNoiseRequestView {
            target: self.target,
            kernel: self.kernel.deep_view(),
            size: self.size,
        }
    }
}

/// Two lists of resource sets. At any time one is written and the other is run.
pub struct DoubleBuffer {
    pub first: Vec<ComputeNoiseBindGroups>,
    pub second: Vec<ComputeNoiseBindGroups>,
}

/// A double buffer as plain values.
pub struct DoubleBufferView {
    pub first: Seq<ComputeNoiseBindGroupsView>,
    pub second: Seq<ComputeNoiseBindGroupsView>,
}

impl DoubleBufferView {
    /// Half 0 is the first list, half 1 the second.
    pub open spec fn half(self, index: int) -> Seq<ComputeNoiseBindGroupsView> {
        if index == 0 {
            self.first
        } else {
            self.second
        }
    }

    /// The double buffer with `entries` as its half `index`.
    pub open spec fn with_half(
        self,
        index: int,
        entries: Seq<ComputeNoiseBindGroupsView>,
    ) -> DoubleBufferView {
        if index == 0 {
            DoubleBufferView { first: entries, second: self.second }
        } else {
            DoubleBufferView { first: self.first, second: entries }
        }
    }
}

impl DeepView for DoubleBuffer {
    type V = DoubleBufferView;

    open spec fn deep_view(&self) -> DoubleBufferView {
        DoubleBufferView { first: self.first.deep_view(), second: self.second.deep_view() }
    }
}

impl DoubleBuffer {
    pub fn new() -> (buffer: DoubleBuffer)
        ensures
            buffer.deep_view().first == Seq::<ComputeNoiseBindGroupsView>::empty(),
            buffer.deep_view().second == Seq::<ComputeNoiseBindGroupsView>::empty(),
    {
        let buffer = DoubleBuffer { first: Vec::new(), second: Vec::new() };
        assert(buffer.first.deep_view() =~= Seq::<ComputeNoiseBindGroupsView>::empty());
        assert(buffer.second.deep_view() =~= Seq::<ComputeNoiseBindGroupsView>::empty());
        buffer
    }

    /// The number of resource sets in a half.
    pub fn half_len(&self, index: usize) -> (len: usize)
        ensures
            len == self.deep_view().half(index as int).len(),
    {
        if index == 0 {
            self.first.len()
        } else {
            self.second.len()
        }
    }

    /// Puts `entries` behind what the half `index` holds.
    pub fn extend(&mut self, index: usize, entries: Vec<ComputeNoiseBindGroups>)
        ensures
            final(self).deep_view() == old(self).deep_view().with_half(
                index as int,
                old(self).deep_view().half(index as int) + entries.deep_view(),
            ),
    {
        let ghost added = entries.deep_view();
        let mut entries = entries;
        if index == 0 {
            self.first.append(&mut entries);
            assert(self.first.deep_view() =~= old(self).first.deep_view() + added);
        } else {
            self.second.append(&mut entries);
            assert(self.second.deep_view() =~= old(self).second.deep_view() + added);
        }
    }

    /// Empties the half `index`.
    pub fn clear(&mut self, index: usize)
        ensures
            final(self).deep_view() == old(self).deep_view().with_half(
                index as int,
                Seq::empty(),
            ),
    {
        if index == 0 {
            self.first.clear();
            assert(self.first.deep_view() =~= Seq::<ComputeNoiseBindGroupsView>::empty());
        } else {
            self.second.clear();
            assert(self.second.deep_view() =~= Seq::<ComputeNoiseBindGroupsView>::empty());
        }
    }
}

/// The scheduler of the kernel type `T`.
pub struct ComputeNoiseNode<T: ComputeNoise> {
    state: ComputeNoiseNodeState,
    _phantom_data: PhantomData<T>,
}

/// The pass that runs a resource set on `pipeline_id`: the image's group is
/// group 0, the kernel's group 1, and there is one workgroup for every 8
/// texels along each axis.
pub open spec fn spec_dispatch_of_set(
    pipeline_id: CachedComputePipelineId,
    set: ComputeNoiseBindGroupsView,
) -> ComputeDispatchView {
    ComputeDispatchView {
        pipeline_id,
        bind_groups: seq![set.image_bind_group, set.noise_bind_group],
        workgroups: set.size.spec_workgroup_count(),
    }
}

/// The passes of a half: one for each resource set, in the order in which
/// the sets came.
pub open spec fn spec_dispatches_of_half(
    pipeline_id: CachedComputePipelineId,
    half: Seq<ComputeNoiseBindGroupsView>,
) -> Seq<ComputeDispatchView> {
    Seq::new(half.len(), |k: int| spec_dispatch_of_set(pipeline_id, half[k]))
}

/// The double buffer after `sets` were put into it in `state`: they stand
/// behind what the half that is written held, and the other half is as it was.
pub open spec fn spec_filled(
    buffer: DoubleBufferView,
    state: ComputeNoiseNodeState,
    sets: Seq<ComputeNoiseBindGroupsView>,
) -> DoubleBufferView {
    buffer.with_half(state.spec_writable(), buffer.half(state.spec_writable()) + sets)
}

/// The double buffer after a tick in `state`: the half that was run last is empty.
pub open spec fn spec_buffer_after_update(
    state: ComputeNoiseNodeState,
    buffer: DoubleBufferView,
) -> DoubleBufferView {
    match state {
        ComputeNoiseNodeState::Loading => buffer,
        ComputeNoiseNodeState::Ready(index) => buffer.with_half(index as int, Seq::empty()),
    }
}

/// The resource sets that a tick in `state` runs: none while the pipeline
/// compiles, else those of the half that the state points to.
pub open spec fn spec_run_sets(
    state: ComputeNoiseNodeState,
    buffer: DoubleBufferView,
) -> Seq<ComputeNoiseBindGroupsView> {
    match state {
        ComputeNoiseNodeState::Loading => Seq::empty(),
        ComputeNoiseNodeState::Ready(index) => buffer.half(index as int),
    }
}

impl<T: ComputeNoise> ComputeNoiseNode<T> {
    /// Where the scheduler stands.
    pub closed spec fn state(&self) -> ComputeNoiseNodeState {
        self.state
    }

    /// A scheduler that waits for its pipeline.
    pub fn new() -> (node: Self)
        ensures
            node.state() == ComputeNoiseNodeState::Loading,
    {
        ComputeNoiseNode { state: ComputeNoiseNodeState::Loading, _phantom_data: PhantomData }
    }

    pub fn get_state(&self) -> (state: ComputeNoiseNodeState)
        ensures
            state == self.state(),
    {
        self.state
    }

    /// The first part of a tick. While the pipeline compiles nothing happens;
    /// once it is compiled the scheduler turns to half 0. From then on each
    /// tick empties the half that was run and turns to the other.
    pub fn update(&mut self, pipeline_ready: bool, queue: &mut DoubleBuffer)
        requires
            old(self).state().wf(),
        ensures
            final(self).state() == old(self).state().spec_after_update(pipeline_ready),
            final(self).state().wf(),
            final(queue).deep_view() == spec_buffer_after_update(
                old(self).state(),
                old(queue).deep_view(),
            ),
    {
        match self.state {
            ComputeNoiseNodeState::Loading => {
                if pipeline_ready {
                    self.state = ComputeNoiseNodeState::Ready(0);
                }
            },
            ComputeNoiseNodeState::Ready(index) => {
                if index == 0 {
                    queue.clear(0);
                    self.state = ComputeNoiseNodeState::Ready(1);
                } else {
                    queue.clear(1);
                    self.state = ComputeNoiseNodeState::Ready(0);
                }
            },
        }
    }

    /// The second part of a tick: one pass on `pipeline_id` for each resource
    /// set of the half that the state points to, in the order in which the
    /// sets came. The sets stay until the next tick empties the half.
    pub fn run(&self, pipeline_id: CachedComputePipelineId, queue: &DoubleBuffer) -> (passes: Vec<
        ComputeDispatch,
    >)
        requires
            self.state().wf(),
        ensures
            passes.deep_view() == spec_dispatches_of_half(
                pipeline_id,
                spec_run_sets(self.state(), queue.deep_view()),
            ),
    {
        match self.state {
            ComputeNoiseNodeState::Loading => {
                let passes: Vec<ComputeDispatch> = Vec::new();
                assert(passes.deep_view() =~= spec_dispatches_of_half(
                    pipeline_id,
                    Seq::<ComputeNoiseBindGroupsView>::empty(),
                ));
                passes
            },
            ComputeNoiseNodeState::Ready(index) => {
                if index == 0 {
                    dispatches_of_half(pipeline_id, &queue.first)
                } else {
                    dispatches_of_half(pipeline_id, &queue.second)
                }
            },
        }
    }

    /// One tick: [`Self::update`], then [`Self::run`].
    pub fn tick(
        &mut self,
        pipeline_ready: bool,
        pipeline_id: CachedComputePipelineId,
        queue: &mut DoubleBuffer,
    ) -> (passes: Vec<ComputeDispatch>)
        requires
            old(self).state().wf(),
        ensures
            final(self).state() == old(self).state().spec_after_update(pipeline_ready),
            final(self).state().wf(),
            final(queue).deep_view() == spec_buffer_after_update(
                old(self).state(),
                old(queue).deep_view(),
            ),
            passes.deep_view() == spec_dispatches_of_half(
                pipeline_id,
                spec_run_sets(final(self).state(), final(queue).deep_view()),
            ),
    {
        self.update(pipeline_ready, queue);
        self.run(pipeline_id, queue)
    }
}

/// The passes of a half.
fn dispatches_of_half(
    pipeline_id: CachedComputePipelineId,
    half: &Vec<ComputeNoiseBindGroups>,
) -> (passes: Vec<ComputeDispatch>)
    ensures
        passes.deep_view() == spec_dispatches_of_half(pipeline_id, half.deep_view()),
{
    let mut passes: Vec<ComputeDispatch> = Vec::new();
    let mut k: usize = 0;
    while k < half.len()
        invariant
            k <= half.len(),
            passes.len() == k,
            forall|j: int|
                0 <= j < k ==> (#[trigger] passes@[j]).deep_view() == spec_dispatch_of_set(
                    pipeline_id,
                    half@[j].deep_view(),
                ),
        decreases half.len() - k,
    {
        let set = &half[k];
        let bind_groups = vec![set.image_bind_group.duplicate(), set.noise_bind_group.duplicate()];
        assert(bind_groups.deep_view() =~= seq![
            set.deep_view().image_bind_group,
            set.deep_view().noise_bind_group,
        ]);
        passes.push(
            ComputeDispatch { pipeline_id, bind_groups, workgroups: set.size.workgroup_count() },
        );
        k = k + 1;
    }
    assert(passes.deep_view() =~= spec_dispatches_of_half(pipeline_id, half.deep_view()));
    passes
}

/// What is wrong with a request, if anything is: the device does not hold the
/// target; or the target is of another dimensionality than the size of the
/// run; or the kernel is declared for another dimensionality than that.
pub open spec fn spec_check_request(
    gpu_images: ImageSizes,
    request: ComputeNoiseRequestView,
) -> Option<ComputeNoiseError> {
    if !gpu_images.contains(request.target) {
        Some(ComputeNoiseError::ImageNotFound)
    } else if gpu_images.value_of(request.target).spec_dimension()
        != request.size.spec_dimension() {
        Some(ComputeNoiseError::DimensionMismatch)
    } else if request.kernel.dimension is Some && request.kernel.dimension
        != Some(request.size.spec_dimension()) {
        Some(ComputeNoiseError::DimensionMismatch)
    } else {
        None
    }
}

/// The group of a kernel's parameters: buffer `i` at binding `i`.
pub open spec fn spec_noise_bind_group(words: Seq<Seq<u32>>) -> BindGroupView {
    BindGroupView {
        entries: Seq::new(
            words.len(),
            |i: int|
                BindGroupEntryView {
                    binding: i as u32,
                    resource: BindingResourceView::Buffer(words[i]),
                },
        ),
    }
}

/// The group of an image: its view at binding 0, its extent at binding 1.
pub open spec fn spec_image_bind_group(
    target: ImageHandle,
    size: ComputeNoiseSize,
) -> BindGroupView {
    BindGroupView {
        entries: seq![
            BindGroupEntryView { binding: 0, resource: BindingResourceView::TextureView(target) },
            BindGroupEntryView { binding: 1, resource: BindingResourceView::ImageSize(size) },
        ],
    }
}

/// The resource set of a request.
pub open spec fn spec_resource_set(request: ComputeNoiseRequestView) -> ComputeNoiseBindGroupsView {
    ComputeNoiseBindGroupsView {
        image_bind_group: spec_image_bind_group(request.target, request.size),
        noise_bind_group: spec_noise_bind_group(request.kernel.words),
        size: request.size,
    }
}

/// The resource sets of the requests that nothing is wrong with, in the order
/// of the requests. A request that something is wrong with has none.
pub open spec fn spec_resource_sets(
    gpu_images: ImageSizes,
    requests: Seq<ComputeNoiseRequestView>,
) -> Seq<ComputeNoiseBindGroupsView>
    decreases requests.len(),
{
    if requests.len() == 0 {
        Seq::empty()
    } else {
        let before = spec_resource_sets(gpu_images, requests.drop_last());
        if spec_check_request(gpu_images, requests.last()) is None {
            before.push(spec_resource_set(requests.last()))
        } else {
            before
        }
    }
}

/// The requests that were dropped, in the order of the requests.
pub open spec fn spec_request_rejections(
    gpu_images: ImageSizes,
    requests: Seq<ComputeNoiseRequestView>,
) -> Seq<ComputeNoiseRejection>
    decreases requests.len(),
{
    if requests.len() == 0 {
        Seq::empty()
    } else {
        let before = spec_request_rejections(gpu_images, requests.drop_last());
        match spec_check_request(gpu_images, requests.last()) {
            None => before,
            Some(error) => before.push(
                ComputeNoiseRejection { request: (requests.len() - 1) as usize, error },
            ),
        }
    }
}

/// Checks one request against the images that the device holds.
pub fn check_request(gpu_images: &ImageSizes, request: &ComputeNoiseRequest) -> (error: Option<
    ComputeNoiseError,
>)
    requires
        gpu_images.wf(),
    ensures
        error == spec_check_request(*gpu_images, request.deep_view()),
{
    let stored = match gpu_images.get(&request.target) {
        Some(stored) => *stored,
        None => {
            return Some(ComputeNoiseError::ImageNotFound);
        },
    };
    let dimension = request.size.dimension();
    if stored.dimension() != dimension {
        return Some(ComputeNoiseError::DimensionMismatch);
    }
    match request.kernel.dimension {
        Some(declared) => {
            if declared != dimension {
                return Some(ComputeNoiseError::DimensionMismatch);
            }
        },
        None => {},
    }
    None
}

/// The resource set of a request.
pub fn resource_set(request: &ComputeNoiseRequest) -> (set: ComputeNoiseBindGroups)
    ensures
        set.deep_view() == spec_resource_set(request.deep_view()),
{
    let image_entries = vec![
        BindGroupEntry { binding: 0, resource: BindingResource::TextureView(request.target) },
        BindGroupEntry { binding: 1, resource: BindingResource::ImageSize(request.size) },
    ];
    assert(image_entries.deep_view() =~= spec_image_bind_group(
        request.target,
        request.size,
    ).entries);
    let mut noise_entries: Vec<BindGroupEntry> = Vec::new();
    let words = &request.kernel.buffers;
    let mut i: usize = 0;
    while i < words.len()
        invariant
            i <= words.len(),
            noise_entries.len() == i,
            forall|j: int|
                0 <= j < i ==> (#[trigger] noise_entries@[j]).deep_view() == (BindGroupEntryView {
                    binding: j as u32,
                    resource: BindingResourceView::Buffer(words@[j]@),
                }),
        decreases words.len() - i,
    {
        noise_entries.push(
            BindGroupEntry {
                binding: #[verifier::truncate]
                (i as u32),
                resource: BindingResource::Buffer(copy_vec(&words[i])),
            },
        );
        i = i + 1;
    }
    proof {
        let expected = spec_noise_bind_group(request.deep_view().kernel.words).entries;
        assert(noise_entries.deep_view().len() == expected.len());
        assert forall|j: int| 0 <= j < expected.len() implies noise_entries.deep_view()[j]
            == expected[j] by {
            assert(words.deep_view()[j] =~= words@[j]@);
        }
        assert(noise_entries.deep_view() =~= expected);
    }
    ComputeNoiseBindGroups {
        image_bind_group: BindGroup { entries: image_entries },
        noise_bind_group: BindGroup { entries: noise_entries },
        size: request.size,
    }
}

/// Binds the requests and puts their resource sets, in the order of the
/// requests, behind what the half that is written holds. A request that
/// something is wrong with is dropped and reported; the other half is not
/// touched.
pub fn prepare_bind_groups(
    gpu_images: &ImageSizes,
    compute_noise: &Vec<ComputeNoiseRequest>,
    state: ComputeNoiseNodeState,
    compute_noise_render_queue: &mut DoubleBuffer,
) -> (rejected: Vec<ComputeNoiseRejection>)
    requires
        gpu_images.wf(),
    ensures
        final(compute_noise_render_queue).deep_view() == spec_filled(
            old(compute_noise_render_queue).deep_view(),
            state,
            spec_resource_sets(*gpu_images, compute_noise.deep_view()),
        ),
        rejected@ == spec_request_rejections(*gpu_images, compute_noise.deep_view()),
{
    let mut bind_groups: Vec<ComputeNoiseBindGroups> = Vec::new();
    let mut rejected: Vec<ComputeNoiseRejection> = Vec::new();
    let mut i: usize = 0;
    proof {
        assert(compute_noise.deep_view().take(0) =~= Seq::<ComputeNoiseRequestView>::empty());
        assert(bind_groups.deep_view() =~= Seq::<ComputeNoiseBindGroupsView>::empty());
    }
    while i < compute_noise.len()
        invariant
            gpu_images.wf(),
            i <= compute_noise.len(),
            bind_groups.deep_view() == spec_resource_sets(
                *gpu_images,
                compute_noise.deep_view().take(i as int),
            ),
            rejected@ == spec_request_rejections(
                *gpu_images,
                compute_noise.deep_view().take(i as int),
            ),
        decreases compute_noise.len() - i,
    {
        let request = &compute_noise[i];
        let ghost before = bind_groups.deep_view();
        proof {
            let taken = compute_noise.deep_view().take(i + 1);
            assert(taken.drop_last() =~= compute_noise.deep_view().take(i as int));
            assert(taken.last() == request.deep_view());
        }
        match check_request(gpu_images, request) {
            None => {
                let set = resource_set(request);
                bind_groups.push(set);
                assert(bind_groups.deep_view() =~= before.push(
                    spec_resource_set(request.deep_view()),
                ));
            },
            Some(error) => {
                rejected.push(ComputeNoiseRejection { request: i, error });
            },
        }
        i = i + 1;
    }
    assert(compute_noise.deep_view().take(i as int) =~= compute_noise.deep_view());
    compute_noise_render_queue.extend(state.writable(), bind_groups);
    rejected
}

/// A request is dropped when the device holds its target and the kernel is
/// declared for another dimensionality than the target has.
pub proof fn lemma_request_mismatch_is_rejected(
    gpu_images: ImageSizes,
    request: ComputeNoiseRequestView,
)
    requires
        gpu_images.contains(request.target),
        request.kernel.dimension is Some,
        request.kernel.dimension != Some(gpu_images.value_of(request.target).spec_dimension()),
    ensures
        spec_check_request(gpu_images, request) == Some(ComputeNoiseError::DimensionMismatch),
{
}

/// A request that is dropped has no resource set: the requests give the
/// resource sets that they would give without it.
pub proof fn lemma_rejected_request_adds_nothing(
    gpu_images: ImageSizes,
    requests: Seq<ComputeNoiseRequestView>,
    i: int,
)
    requires
        0 <= i < requests.len(),
        spec_check_request(gpu_images, requests[i]) is Some,
    ensures
        spec_resource_sets(gpu_images, requests) == spec_resource_sets(
            gpu_images,
            requests.remove(i),
        ),
    decreases requests.len(),
{
    if i == requests.len() - 1 {
        assert(requests.remove(i) =~= requests.drop_last());
    } else {
        lemma_rejected_request_adds_nothing(gpu_images, requests.drop_last(), i);
        assert(requests.remove(i).drop_last() =~= requests.drop_last().remove(i));
        assert(requests.remove(i).last() == requests.last());
    }
}

/// `tail` is the end of `all`.
pub open spec fn spec_is_suffix(
    tail: Seq<ComputeNoiseBindGroupsView>,
    all: Seq<ComputeNoiseBindGroupsView>,
) -> bool {
    &&& tail.len() <= all.len()
    &&& all.skip(all.len() - tail.len()) == tail
}

/// Nothing is lost and nothing runs twice. `appended` is every resource set
/// that was ever put into the double buffer, in order, and `drained` every one
/// that was ever run, in order. Between ticks, what was appended is what was
/// run, followed by what waits in the half that is written. The other half
/// holds nothing that has not been run: it is empty while the pipeline
/// compiles, and afterwards it holds what was run last.
pub open spec fn spec_conserved(
    state: ComputeNoiseNodeState,
    buffer: DoubleBufferView,
    appended: Seq<ComputeNoiseBindGroupsView>,
    drained: Seq<ComputeNoiseBindGroupsView>,
) -> bool {
    &&& state.wf()
    &&& appended == drained + buffer.half(state.spec_writable())
    &&& match state {
        ComputeNoiseNodeState::Loading => buffer.half(1).len() == 0,
        ComputeNoiseNodeState::Ready(index) => spec_is_suffix(buffer.half(index as int), drained),
    }
}

/// A new scheduler with an empty double buffer has appended nothing and run nothing.
pub proof fn lemma_new_is_conserved()
    ensures
        spec_conserved(
            ComputeNoiseNodeState::Loading,
            DoubleBufferView { first: Seq::empty(), second: Seq::empty() },
            Seq::empty(),
            Seq::empty(),
        ),
{
    let empty = Seq::<ComputeNoiseBindGroupsView>::empty();
    assert(empty =~= empty + empty);
}

/// Putting resource sets into the half that is written appends them and runs nothing.
pub proof fn lemma_fill_conserves(
    state: ComputeNoiseNodeState,
    buffer: DoubleBufferView,
    appended: Seq<ComputeNoiseBindGroupsView>,
    drained: Seq<ComputeNoiseBindGroupsView>,
    sets: Seq<ComputeNoiseBindGroupsView>,
)
    requires
        spec_conserved(state, buffer, appended, drained),
    ensures
        spec_conserved(state, spec_filled(buffer, state, sets), appended + sets, drained),
{
    let writable = state.spec_writable();
    assert(appended + sets =~= drained + (buffer.half(writable) + sets));
}

/// A tick runs exactly what waited in the half that was written, in order,
/// and appends nothing; what it empties had been run before. After the tick
/// the half that is written is empty.
pub proof fn lemma_tick_conserves(
    state: ComputeNoiseNodeState,
    pipeline_ready: bool,
    buffer: DoubleBufferView,
    appended: Seq<ComputeNoiseBindGroupsView>,
    drained: Seq<ComputeNoiseBindGroupsView>,
)
    requires
        spec_conserved(state, buffer, appended, drained),
    ensures
        ({
            let after = state.spec_after_update(pipeline_ready);
            let buffer_after = spec_buffer_after_update(state, buffer);
            let ran = spec_run_sets(after, buffer_after);
            &&& spec_conserved(after, buffer_after, appended, drained + ran)
            &&& after != ComputeNoiseNodeState::Loading ==> ran == buffer.half(
                state.spec_writable(),
            ) && buffer_after.half(after.spec_writable()).len() == 0
            &&& after == ComputeNoiseNodeState::Loading ==> ran.len() == 0 && buffer_after
                == buffer
        }),
{
    let after = state.spec_after_update(pipeline_ready);
    let buffer_after = spec_buffer_after_update(state, buffer);
    let ran = spec_run_sets(after, buffer_after);
    let empty = Seq::<ComputeNoiseBindGroupsView>::empty();
    if after == ComputeNoiseNodeState::Loading {
        assert(drained + ran =~= drained);
    } else {
        let pending = buffer.half(state.spec_writable());
        assert(ran == pending);
        assert(buffer_after.half(after.spec_writable()) =~= empty);
        assert(appended =~= (drained + ran) + empty);
        assert((drained + ran).skip((drained + ran).len() - ran.len()) =~= ran);
    }
}

/// Between ticks, what was run is the beginning of what was appended: every
/// resource set is run at most once, in the order in which it came, and none
/// is skipped.
pub proof fn lemma_drained_is_prefix(
    state: ComputeNoiseNodeState,
    buffer: DoubleBufferView,
    appended: Seq<ComputeNoiseBindGroupsView>,
    drained: Seq<ComputeNoiseBindGroupsView>,
)
    requires
        spec_conserved(state, buffer, appended, drained),
    ensures
        drained.len() + buffer.half(state.spec_writable()).len() == appended.len(),
        appended.take(drained.len() as int) == drained,
{
    assert(appended.take(drained.len() as int) =~= drained);
}

} // verus!
