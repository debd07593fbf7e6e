use vstd::prelude::*;

verus! {

/// Render commands that will be executed by a canvas, in the order they
/// were queued.
pub enum Commands<F> {
    /// Run a render feature: prepare it, then let it record into the pass.
    FeatureCommand(F),
}

/// A call a canvas makes on a render feature during a frame.
#[derive(PartialEq, Eq, Structural, Clone, Copy, Debug)]
pub enum FeatureCall {
    /// `RenderFeature::prepare`, with the device and the queue.
    Prepare,
    /// `RenderFeature::render`, with the frame's render pass.
    Render,
}

/// A call on the queued feature at `feature`, counted from the first
/// queued.
#[derive(PartialEq, Eq, Structural, Clone, Copy, Debug)]
pub struct ScheduledCall {
    /// Position of the feature in the frame's commands.
    pub feature: usize,
    /// The call made on it.
    pub call: FeatureCall,
}

/// The calls a frame makes on its `count` features: each feature, first
/// queued first, is prepared and then renders, before the next one is
/// prepared; no other call is made.
pub open spec fn spec_frame_schedule(count: nat) -> Seq<ScheduledCall> {
    Seq::new(
        2 * count,
        |k: int|
            ScheduledCall {
                feature: (k / 2) as usize,
                call: if k % 2 == 0 {
                    FeatureCall::Prepare
                } else {
                    FeatureCall::Render
                },
            },
    )
}

/// The calls a frame makes on its `count` features, in order. A frame of
/// more than half the address space of features cannot be scheduled.
pub fn frame_schedule(count: usize) -> (calls: Vec<ScheduledCall>)
    requires
        count <= usize::MAX / 2,
    ensures
        calls@ == spec_frame_schedule(count as nat),
{
    let mut calls: Vec<ScheduledCall> = Vec::new();
    let mut i: usize = 0;
    while i < count
        invariant
            i <= count,
            count <= usize::MAX / 2,
            calls@ == spec_frame_schedule(i as nat),
        decreases count - i,
    {
        calls.push(ScheduledCall { feature: i, call: FeatureCall::Prepare });
        calls.push(ScheduledCall { feature: i, call: FeatureCall::Render });
        assert(calls@ =~= spec_frame_schedule((i + 1) as nat));
        i = i + 1;
    }
    calls
}

/// In a frame's schedule, feature `i` is prepared at position `2 i` and
/// renders at position `2 i + 1`, for every one of its features.
pub proof fn lemma_frame_schedule(count: nat, i: nat)
    requires
        i < count,
        i < usize::MAX,
    ensures
        spec_frame_schedule(count).len() == 2 * count,
        spec_frame_schedule(count)[2 * (i as int)] == (ScheduledCall {
            feature: i as usize,
            call: FeatureCall::Prepare,
        }),
        spec_frame_schedule(count)[2 * i + 1int] == (ScheduledCall {
            feature: i as usize,
            call: FeatureCall::Render,
        }),
{
    assert((2 * i) / 2 == i) by (nonlinear_arith);
    assert((2 * i + 1) / 2 == i) by (nonlinear_arith);
    assert((2 * i) % 2 == 0) by (nonlinear_arith);
    assert((2 * i + 1) % 2 == 1) by (nonlinear_arith);
}

} // verus!
