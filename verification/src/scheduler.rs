//! The frame scheduler: the per-slot synchronization protocol that
//! drives wait → acquire → record/submit → present for each
//! concurrency slot, enforces the at-most-N-frames-in-flight bound
//! through the per-slot fence, and folds surface staleness and
//! resize requests into swapchain recreation at the one safe point —
//! the present step.
//!
//! The scheduler is the decision core alone: the caller performs the
//! device calls (fence wait, acquire, submit, present, idle wait)
//! and reports their outcomes back, and the scheduler says what to
//! do next. `in_flight` mirrors the per-slot fences: a slot is in
//! flight from its submission until its fence has been waited on.

use vstd::prelude::*;

verus! {

/// The scheduler's abstract state: the concurrency depth, the active
/// slot, the sticky resize flag, and one in-flight bit per slot.
pub struct SchedulerView {
    pub depth: nat,
    pub current_frame: nat,
    pub resize_requested: bool,
    pub in_flight: Seq<bool>,
}

impl SchedulerView {
    /// At least one slot, the active slot in range, one in-flight
    /// bit per slot.
    pub open spec fn spec_well_formed(self) -> bool {
        &&& self.depth >= 1
        &&& self.current_frame < self.depth
        &&& self.in_flight.len() == self.depth
    }
}

/// How many slots currently have unfenced device work.
pub open spec fn spec_count_in_flight(s: Seq<bool>) -> nat
    decreases s.len(),
{
    if s.len() == 0 {
        0
    } else {
        spec_count_in_flight(s.drop_last()) + (if s.last() {
            1nat
        } else {
            0nat
        })
    }
}

/// Step 1 of a cycle: the active slot's fence has been waited on, so
/// that slot no longer has unfenced work.
pub open spec fn spec_wait_fence(v: SchedulerView) -> SchedulerView {
    SchedulerView { in_flight: v.in_flight.update(v.current_frame as int, false), ..v }
}

/// Step 2 of a cycle: acquisition triggers recreation exactly when
/// the surface reports itself out of date; the resize flag is not
/// consulted here.
pub open spec fn spec_acquire_recreates(v: SchedulerView, out_of_date: bool) -> bool {
    out_of_date
}

/// Step 5 of a cycle: the active slot's work has been submitted with
/// its fence, so the slot is in flight again.
pub open spec fn spec_submit(v: SchedulerView) -> SchedulerView {
    SchedulerView { in_flight: v.in_flight.update(v.current_frame as int, true), ..v }
}

/// Step 6 of a cycle: presentation triggers recreation when the
/// surface is out of date or a resize was requested during the
/// cycle.
pub open spec fn spec_present_recreates(v: SchedulerView, out_of_date: bool) -> bool {
    out_of_date || v.resize_requested
}

/// The state after the present step: on recreation the resize flag
/// is consumed and the slot index stays; otherwise the scheduler
/// advances to the next slot.
pub open spec fn spec_after_present(v: SchedulerView, out_of_date: bool) -> SchedulerView {
    if spec_present_recreates(v, out_of_date) {
        SchedulerView { resize_requested: false, ..v }
    } else {
        SchedulerView { current_frame: ((v.current_frame + 1) % v.depth) as nat, ..v }
    }
}

/// The device has gone fully idle: every fence has signaled, so no
/// slot is in flight. Recreation and shutdown pass through here.
pub open spec fn spec_device_idle(v: SchedulerView) -> SchedulerView {
    SchedulerView { in_flight: Seq::new(v.in_flight.len(), |i: int| false), ..v }
}

/// A resize event: the sticky flag is set and nothing else moves.
pub open spec fn spec_request_resize(v: SchedulerView) -> SchedulerView {
    SchedulerView { resize_requested: true, ..v }
}

/// What one full cycle reports: whether a present call succeeded,
/// and whether the swapchain was recreated.
#[derive(Clone, Copy, Debug)]
pub struct CycleOutcome {
    pub presented: bool,
    pub recreated: bool,
}

/// One scheduler cycle, as the composition of its steps: wait on the
/// slot's fence; abort and recreate if acquisition reports the
/// surface out of date; otherwise record, submit and present, then
/// recreate if presentation reported the surface out of date or a
/// resize was pending. Recreation waits for the device to go idle.
pub open spec fn spec_cycle(
    v: SchedulerView,
    acquire_out_of_date: bool,
    present_out_of_date: bool,
) -> (SchedulerView, CycleOutcome) {
    let waited = spec_wait_fence(v);
    if spec_acquire_recreates(waited, acquire_out_of_date) {
        (spec_device_idle(waited), CycleOutcome { presented: false, recreated: true })
    } else {
        let submitted = spec_submit(waited);
        let recreate = spec_present_recreates(submitted, present_out_of_date);
        let after = spec_after_present(submitted, present_out_of_date);
        if recreate {
            (
                spec_device_idle(after),
                CycleOutcome { presented: !present_out_of_date, recreated: true },
            )
        } else {
            (after, CycleOutcome { presented: true, recreated: false })
        }
    }
}

/// The frame scheduler's concrete state, mirrored by
/// [`SchedulerView`]. One record per renderer; allocated once and
/// reused for every cycle.
pub struct FrameScheduler {
    pub depth: usize,
    pub current_frame: usize,
    pub resize_requested: bool,
    pub in_flight: Vec<bool>,
}

impl View for FrameScheduler {
    type V = SchedulerView;

    open spec fn view(&self) -> SchedulerView {
        SchedulerView {
            depth: self.depth as nat,
            current_frame: self.current_frame as nat,
            resize_requested: self.resize_requested,
            in_flight: self.in_flight@,
        }
    }
}

impl FrameScheduler {
    /// Builds a scheduler for `depth` frame slots: slot 0 active, no
    /// resize pending, no slot in flight (every fence starts
    /// signaled).
    pub fn new(depth: usize) -> (s: Self)
        requires
            depth >= 1,
        ensures
            s@.spec_well_formed(),
            s@.depth == depth,
            s@.current_frame == 0,
            !s@.resize_requested,
            forall|i: int| 0 <= i < depth ==> !s@.in_flight[i],
    {
        let mut in_flight: Vec<bool> = Vec::new();
        let mut i: usize = 0;
        while i < depth
            invariant
                0 <= i <= depth,
                in_flight@.len() == i,
                forall|j: int| 0 <= j < i ==> !in_flight@[j],
            decreases depth - i,
        {
            in_flight.push(false);
            i = i + 1;
        }

        FrameScheduler { depth, current_frame: 0, resize_requested: false, in_flight }
    }

    /// The slot whose resources the current cycle uses.
    pub fn current_slot(&self) -> (i: usize)
        ensures
            i == self@.current_frame,
    {
        self.current_frame
    }

    /// Whether a resize request is pending, still unconsumed.
    pub fn resize_pending(&self) -> (r: bool)
        ensures
            r == self@.resize_requested,
    {
        self.resize_requested
    }

    /// Records a resize event from the windowing layer. The flag is
    /// sticky: it is not acted on here but consumed at the present
    /// step of the next cycle, so no frame is submitted against a
    /// stale extent without a clean recreation boundary.
    pub fn request_resize(&mut self)
        ensures
            final(self)@ == spec_request_resize(old(self)@),
    {
        self.resize_requested = true;
    }

    /// Step 1: the caller has finished waiting on the active slot's
    /// fence, so that slot's previous work is complete.
    pub fn note_fence_waited(&mut self)
        requires
            old(self)@.spec_well_formed(),
        ensures
            final(self)@ == spec_wait_fence(old(self)@),
            final(self)@.spec_well_formed(),
    {
        let slot = self.current_frame;
        self.in_flight[slot] = false;
    }

    /// Step 2: whether the cycle must abort and recreate the
    /// swapchain, given what acquisition reported. Only surface
    /// staleness aborts here; a pending resize waits for the present
    /// step.
    pub fn acquire_recreates(&self, out_of_date: bool) -> (r: bool)
        ensures
            r == spec_acquire_recreates(self@, out_of_date),
    {
        out_of_date
    }

    /// Step 5: the caller has submitted the active slot's command
    /// buffer with the slot's fence. The slot must not already be in
    /// flight: its fence was waited on at step 1 of this cycle.
    pub fn note_submitted(&mut self)
        requires
            old(self)@.spec_well_formed(),
            !old(self)@.in_flight[old(self)@.current_frame as int],
        ensures
            final(self)@ == spec_submit(old(self)@),
            final(self)@.spec_well_formed(),
    {
        let slot = self.current_frame;
        self.in_flight[slot] = true;
    }

    /// Step 6: decides from the present outcome and the sticky flag
    /// whether to recreate the swapchain; consumes the flag on
    /// recreation, otherwise advances to the next slot.
    pub fn handle_present(&mut self, out_of_date: bool) -> (recreate: bool)
        requires
            old(self)@.spec_well_formed(),
        ensures
            recreate == spec_present_recreates(old(self)@, out_of_date),
            final(self)@ == spec_after_present(old(self)@, out_of_date),
            final(self)@.spec_well_formed(),
    {
        if out_of_date || self.resize_requested {
            self.resize_requested = false;
            true
        } else {
            self.current_frame = (self.current_frame + 1) % self.depth;
            false
        }
    }

    /// The caller has waited for the device to go fully idle — as
    /// recreation and shutdown do — so every slot's work is complete.
    pub fn note_device_idle(&mut self)
        requires
            old(self)@.spec_well_formed(),
        ensures
            final(self)@ == spec_device_idle(old(self)@),
            final(self)@.spec_well_formed(),
    {
        let mut i: usize = 0;
        while i < self.depth
            invariant
                self@.depth == old(self)@.depth,
                self@.current_frame == old(self)@.current_frame,
                self@.resize_requested == old(self)@.resize_requested,
                self@.in_flight.len() == old(self)@.in_flight.len(),
                old(self)@.spec_well_formed(),
                0 <= i <= self.depth,
                forall|j: int| 0 <= j < i ==> !self@.in_flight[j],
                forall|j: int|
                    i <= j < self@.in_flight.len() ==> self@.in_flight[j] == old(
                        self,
                    )@.in_flight[j],
            decreases self.depth - i,
        {
            self.in_flight[i] = false;
            i = i + 1;
        }

        proof {
            assert(self@.in_flight =~= Seq::new(old(self)@.in_flight.len(), |j: int| false));
        }
    }
}

proof fn lemma_count_le_len(s: Seq<bool>)
    ensures
        spec_count_in_flight(s) <= s.len(),
    decreases s.len(),
{
    if s.len() > 0 {
        lemma_count_le_len(s.drop_last());
    }
}

proof fn lemma_count_update(s: Seq<bool>, i: int, b: bool)
    requires
        0 <= i < s.len(),
    ensures
        spec_count_in_flight(s.update(i, b)) == spec_count_in_flight(s) + (if b {
            1nat
        } else {
            0nat
        }) - (if s[i] {
            1nat
        } else {
            0nat
        }),
    decreases s.len(),
{
    let t = s.update(i, b);
    if i == s.len() - 1 {
        assert(t.drop_last() =~= s.drop_last());
        assert(t.last() == b);
    } else {
        lemma_count_update(s.drop_last(), i, b);
        assert(t.drop_last() =~= s.drop_last().update(i, b));
        assert(t.last() == s.last());
    }
}

/// At most N frames have unfenced device work, for a scheduler of
/// depth N: there is one in-flight bit per slot, and a slot is
/// resubmitted only after its fence has been waited on.
pub proof fn lemma_in_flight_bounded(v: SchedulerView)
    requires
        v.spec_well_formed(),
    ensures
        spec_count_in_flight(v.in_flight) <= v.depth,
{
    lemma_count_le_len(v.in_flight);
}

/// The submit step keeps the in-flight bound: it is taken only after
/// this cycle's fence wait, so it raises the count by exactly one
/// and the count stays within the depth.
pub proof fn lemma_submit_preserves_bound(v: SchedulerView)
    requires
        v.spec_well_formed(),
        !v.in_flight[v.current_frame as int],
    ensures
        spec_count_in_flight(spec_submit(v).in_flight) == spec_count_in_flight(v.in_flight) + 1,
        spec_count_in_flight(spec_submit(v).in_flight) <= v.depth,
{
    lemma_count_update(v.in_flight, v.current_frame as int, true);
    lemma_count_drop_known(v.in_flight, v.current_frame as int);
}

proof fn lemma_count_drop_known(s: Seq<bool>, i: int)
    requires
        0 <= i < s.len(),
        !s[i],
    ensures
        spec_count_in_flight(s) <= s.len() - 1,
    decreases s.len(),
{
    if i == s.len() - 1 {
        lemma_count_le_len(s.drop_last());
    } else {
        lemma_count_drop_known(s.drop_last(), i);
    }
}

/// Three consecutive redraws with no resize request and a surface
/// that stays current yield three successful presents, no
/// recreation, and the slot index advancing by one per cycle.
pub proof fn lemma_three_redraws_without_recreation(v: SchedulerView)
    requires
        v.spec_well_formed(),
        !v.resize_requested,
    ensures
        ({
            let (v1, o1) = spec_cycle(v, false, false);
            let (v2, o2) = spec_cycle(v1, false, false);
            let (v3, o3) = spec_cycle(v2, false, false);
            &&& o1.presented && o2.presented && o3.presented
            &&& !o1.recreated && !o2.recreated && !o3.recreated
            &&& v1.current_frame == (v.current_frame + 1) % v.depth
            &&& v2.current_frame == (v1.current_frame + 1) % v.depth
            &&& v3.current_frame == (v2.current_frame + 1) % v.depth
        }),
{
}

/// A resize event delivered between two redraws is consumed at the
/// present step of the following cycle, and there alone: that cycle
/// does not recreate at acquisition — never mid-recording — its
/// present succeeds and is followed by exactly one recreation, and
/// the next cycle runs without any recreation.
pub proof fn lemma_resize_recreates_once_at_present(v: SchedulerView)
    requires
        v.spec_well_formed(),
        !v.resize_requested,
    ensures
        ({
            let (v1, o1) = spec_cycle(v, false, false);
            let v1r = spec_request_resize(v1);
            let (v2, o2) = spec_cycle(v1r, false, false);
            let (v3, o3) = spec_cycle(v2, false, false);
            &&& !o1.recreated
            &&& !spec_acquire_recreates(spec_wait_fence(v1r), false)
            &&& o2.recreated && o2.presented
            &&& !v2.resize_requested
            &&& v2.current_frame == v1r.current_frame
            &&& !o3.recreated && o3.presented
        }),
{
}

/// In a cycle that goes on to record and submit, the slot whose
/// per-frame data is written has no unfenced work at the moment of
/// the write: its fence was waited on at step 1 of the same cycle,
/// before the mapped uniform buffer is touched.
pub proof fn lemma_updated_slot_is_fenced(v: SchedulerView)
    requires
        v.spec_well_formed(),
    ensures
        !spec_wait_fence(v).in_flight[spec_wait_fence(v).current_frame as int],
{
}

} // verus!
