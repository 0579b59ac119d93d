//! Pacing of frames over a fixed ring of frame slots.
//!
//! One frame is a walk through the phases `Idle`, `Waiting`, `Acquiring`,
//! `Submitting`, `Presenting` and back to `Idle`. The driver performs no
//! device call itself: each step takes what the last call reported and
//! answers with the call to make next. A slot's commands are submitted only
//! after the wait on that slot's fence has returned, so no slot ever has two
//! submissions outstanding. A surface reported stale leads through
//! `Rebuilding`, which skips the frame and leaves the cursor where it was.

use vstd::prelude::*;

verus! {

/// Why the frame loop cannot go on.
#[derive(Clone, Copy, Debug, PartialEq, Eq, Structural)]
pub enum FrameFailure {
    /// Waiting for a slot's fence failed.
    FenceWait,
    /// Acquiring a target image failed for another reason than staleness.
    Acquire,
    /// No command buffer was recorded for the acquired image.
    ImageIndex,
    /// Resetting the fence or submitting the commands failed.
    Submit,
    /// Presenting failed for another reason than staleness.
    Present,
    /// Rebuilding the surface-dependent resources failed.
    Rebuild,
    /// A report arrived that the call in progress does not give.
    UnexpectedEvent,
}

/// Where the driver stands within a frame.
#[derive(Clone, Copy, Debug, PartialEq, Eq, Structural)]
pub enum FramePhase {
    Idle,
    Waiting,
    Acquiring,
    Submitting { image_index: u32 },
    Presenting { image_index: u32 },
    Rebuilding,
    Failed(FrameFailure),
}

/// What the caller reports to the driver.
#[derive(Clone, Copy, Debug, PartialEq, Eq, Structural)]
pub enum FrameEvent {
    /// A frame is to be drawn.
    Redraw,
    /// The host has found, between frames, that the surface has changed.
    SurfaceChanged,
    /// The wait for the slot's fence has returned.
    FenceWaited,
    /// A target image was acquired; `suboptimal` tells whether the call
    /// added that the image chain no longer suits the surface.
    ImageAcquired { image_index: u32, suboptimal: bool },
    /// The fence was reset and the commands were submitted.
    Submitted,
    /// The image was queued for presentation; `suboptimal` tells whether the
    /// call added that the image chain no longer suits the surface.
    Presented { suboptimal: bool },
    /// The surface-dependent resources were rebuilt.
    Rebuilt,
    /// The call did not succeed and returned the given result code.
    CallFailed { code: i32 },
}

/// `VK_ERROR_OUT_OF_DATE_KHR`: the surface has changed so that the image
/// chain can no longer be presented to it.
pub const ERROR_OUT_OF_DATE: i32 = -1000001004;

/// `VK_SUBOPTIMAL_KHR`: the image chain can still be presented but no longer
/// matches the surface.
pub const SUBOPTIMAL: i32 = 1000001003;

/// Whether a result code of an acquisition tells of a stale surface.
pub open spec fn stale_acquisition(code: i32) -> bool {
    code == ERROR_OUT_OF_DATE
}

/// Whether a result code of a presentation tells of a stale surface.
pub open spec fn stale_presentation(code: i32) -> bool {
    code == ERROR_OUT_OF_DATE || code == SUBOPTIMAL
}

/// The call that the caller is to make next.
#[derive(Clone, Copy, Debug, PartialEq, Eq, Structural)]
pub enum FrameAction {
    /// Wait, without a time limit, for the fence of `slot`.
    WaitForFence { slot: u32 },
    /// Acquire the next target image, signaling the slot's image-available
    /// semaphore.
    AcquireImage { slot: u32 },
    /// Reset the slot's fence, then submit the commands recorded for the
    /// acquired image: they wait for the slot's image-available semaphore at
    /// color output, and signal the slot's render-finished semaphore and fence.
    Submit { slot: u32, image_index: u32 },
    /// Present the acquired image once the slot's render-finished semaphore
    /// is signaled.
    Present { slot: u32, image_index: u32 },
    /// Wait for the device to go idle, destroy the surface-dependent
    /// resources and construct them anew.
    Rebuild,
    /// The frame is over. Nothing is due until the next redraw.
    Done,
    /// The loop has failed; the caller is to stop.
    Fatal(FrameFailure),
}

/// The driver's state as a mathematical value.
pub struct FrameModel {
    pub slot_count: u32,
    /// The slot of the current frame.
    pub cursor: u32,
    pub phase: FramePhase,
    /// For each slot, whether commands were submitted on it whose completion
    /// has not been confirmed by a wait on its fence.
    pub in_flight: Seq<bool>,
}

/// Number of `true` entries.
pub open spec fn count_set(flags: Seq<bool>) -> nat
    decreases flags.len(),
{
    if flags.len() == 0 {
        0
    } else {
        count_set(flags.drop_last()) + if flags.last() {
            1nat
        } else {
            0nat
        }
    }
}

impl FrameModel {
    /// The state of a driver that has not drawn a frame yet.
    pub open spec fn start(slot_count: u32) -> FrameModel {
        FrameModel {
            slot_count,
            cursor: 0,
            phase: FramePhase::Idle,
            in_flight: Seq::new(slot_count as nat, |i: int| false),
        }
    }

    /// The cursor names a slot, and a slot whose commands are about to be
    /// submitted has nothing outstanding.
    pub open spec fn wf(self) -> bool {
        &&& self.slot_count > 0
        &&& self.cursor < self.slot_count
        &&& self.in_flight.len() == self.slot_count
        &&& match self.phase {
            FramePhase::Acquiring => !self.in_flight[self.cursor as int],
            FramePhase::Submitting { image_index } => {
                &&& !self.in_flight[self.cursor as int]
                &&& image_index < self.slot_count
            },
            FramePhase::Presenting { image_index } => {
                &&& self.in_flight[self.cursor as int]
                &&& image_index < self.slot_count
            },
            _ => true,
        }
    }

    /// Number of submissions whose completion has not been confirmed.
    pub open spec fn unconfirmed(self) -> nat {
        count_set(self.in_flight)
    }

    /// The slot after the current one, around the ring.
    pub open spec fn next_cursor(self) -> u32 {
        ((self.cursor + 1) % (self.slot_count as int)) as u32
    }

    /// The same state in another phase.
    pub open spec fn to(self, phase: FramePhase) -> FrameModel {
        FrameModel { phase, ..self }
    }

    /// The state after `event`.
    pub open spec fn next(self, event: FrameEvent) -> FrameModel {
        match (self.phase, event) {
            (FramePhase::Failed(_), _) => self,
            (FramePhase::Idle, FrameEvent::Redraw) => self.to(FramePhase::Waiting),
            (FramePhase::Idle, FrameEvent::SurfaceChanged) => self.to(FramePhase::Rebuilding),
            (FramePhase::Waiting, FrameEvent::FenceWaited) => FrameModel {
                phase: FramePhase::Acquiring,
                in_flight: self.in_flight.update(self.cursor as int, false),
                ..self
            },
            (FramePhase::Waiting, FrameEvent::CallFailed { .. }) => self.to(
                FramePhase::Failed(FrameFailure::FenceWait),
            ),
            (FramePhase::Acquiring, FrameEvent::ImageAcquired { image_index, .. }) => if image_index
                < self.slot_count {
                self.to(FramePhase::Submitting { image_index })
            } else {
                self.to(FramePhase::Failed(FrameFailure::ImageIndex))
            },
            (FramePhase::Acquiring, FrameEvent::CallFailed { code }) => if stale_acquisition(code) {
                self.to(FramePhase::Rebuilding)
            } else {
                self.to(FramePhase::Failed(FrameFailure::Acquire))
            },
            (FramePhase::Submitting { image_index }, FrameEvent::Submitted) => FrameModel {
                phase: FramePhase::Presenting { image_index },
                in_flight: self.in_flight.update(self.cursor as int, true),
                ..self
            },
            (FramePhase::Submitting { .. }, FrameEvent::CallFailed { .. }) => self.to(
                FramePhase::Failed(FrameFailure::Submit),
            ),
            (FramePhase::Presenting { .. }, FrameEvent::Presented { suboptimal }) => if suboptimal {
                self.to(FramePhase::Rebuilding)
            } else {
                FrameModel { phase: FramePhase::Idle, cursor: self.next_cursor(), ..self }
            },
            (FramePhase::Presenting { .. }, FrameEvent::CallFailed { code }) => {
                if stale_presentation(code) {
                    self.to(FramePhase::Rebuilding)
                } else {
                    self.to(FramePhase::Failed(FrameFailure::Present))
                }
            },
            (FramePhase::Rebuilding, FrameEvent::Rebuilt) => FrameModel {
                phase: FramePhase::Idle,
                in_flight: Seq::new(self.slot_count as nat, |i: int| false),
                ..self
            },
            (FramePhase::Rebuilding, FrameEvent::CallFailed { .. }) => self.to(
                FramePhase::Failed(FrameFailure::Rebuild),
            ),
            _ => self.to(FramePhase::Failed(FrameFailure::UnexpectedEvent)),
        }
    }

    /// The call that is due in this state.
    pub open spec fn due(self) -> FrameAction {
        match self.phase {
            FramePhase::Idle => FrameAction::Done,
            FramePhase::Waiting => FrameAction::WaitForFence { slot: self.cursor },
            FramePhase::Acquiring => FrameAction::AcquireImage { slot: self.cursor },
            FramePhase::Submitting { image_index } => FrameAction::Submit {
                slot: self.cursor,
                image_index,
            },
            FramePhase::Presenting { image_index } => FrameAction::Present {
                slot: self.cursor,
                image_index,
            },
            FramePhase::Rebuilding => FrameAction::Rebuild,
            FramePhase::Failed(failure) => FrameAction::Fatal(failure),
        }
    }

    /// The state after each of `events` in turn.
    pub open spec fn run(self, events: Seq<FrameEvent>) -> FrameModel
        decreases events.len(),
    {
        if events.len() == 0 {
            self
        } else {
            self.run(events.drop_last()).next(events.last())
        }
    }

    /// The reports of one frame that meets no stale surface.
    pub open spec fn frame(image_index: u32) -> Seq<FrameEvent> {
        seq![
            FrameEvent::Redraw,
            FrameEvent::FenceWaited,
            FrameEvent::ImageAcquired { image_index, suboptimal: false },
            FrameEvent::Submitted,
            FrameEvent::Presented { suboptimal: false },
        ]
    }

    /// The state after one such frame for each of `images`, in turn.
    pub open spec fn run_frames(self, images: Seq<u32>) -> FrameModel
        decreases images.len(),
    {
        if images.len() == 0 {
            self
        } else {
            self.run_frames(images.drop_last()).run(Self::frame(images.last()))
        }
    }
}

/// Drives the frame loop: holds the cursor and what is known of each slot.
pub struct FrameDriver {
    slot_count: u32,
    cursor: u32,
    phase: FramePhase,
    in_flight: Vec<bool>,
}

impl View for FrameDriver {
    type V = FrameModel;

    closed spec fn view(&self) -> FrameModel {
        FrameModel {
            slot_count: self.slot_count,
            cursor: self.cursor,
            phase: self.phase,
            in_flight: self.in_flight@,
        }
    }
}

impl FrameDriver {
    /// Whether the driver's state is one that the frame loop can reach.
    pub open spec fn wf(&self) -> bool {
        self@.wf()
    }

    /// A driver for `slot_count` frame slots, idle, with the cursor on the
    /// first slot and nothing outstanding.
    pub fn new(slot_count: u32) -> (driver: FrameDriver)
        requires
            slot_count > 0,
        ensures
            driver@ == FrameModel::start(slot_count),
            driver.wf(),
    {
        let mut in_flight: Vec<bool> = Vec::new();
        let mut i: u32 = 0;
        while i < slot_count
            invariant
                i <= slot_count,
                in_flight@ == Seq::new(i as nat, |k: int| false),
            decreases slot_count - i,
        {
            in_flight.push(false);
            i = i + 1;
        }
        FrameDriver { slot_count, cursor: 0, phase: FramePhase::Idle, in_flight }
    }

    /// The slot of the current frame.
    pub fn cursor(&self) -> (cursor: u32)
        ensures
            cursor == self@.cursor,
    {
        self.cursor
    }

    /// Number of frame slots.
    pub fn slot_count(&self) -> (n: u32)
        ensures
            n == self@.slot_count,
    {
        self.slot_count
    }

    /// Where the driver stands within a frame.
    pub fn phase(&self) -> (phase: FramePhase)
        ensures
            phase == self@.phase,
    {
        self.phase
    }

    /// Number of submissions whose completion has not been confirmed.
    pub fn unconfirmed(&self) -> (n: usize)
        ensures
            n == self@.unconfirmed(),
            n <= self@.in_flight.len(),
    {
        let mut n: usize = 0;
        let mut i: usize = 0;
        while i < self.in_flight.len()
            invariant
                i <= self.in_flight@.len(),
                n == count_set(self.in_flight@.take(i as int)),
                n <= i,
            decreases self.in_flight@.len() - i,
        {
            assert(self.in_flight@.take(i + 1).drop_last() == self.in_flight@.take(i as int));
            if self.in_flight[i] {
                n = n + 1;
            }
            i = i + 1;
        }
        assert(self.in_flight@.take(i as int) == self.in_flight@);
        n
    }

    /// Takes in what the last call reported and answers with the call to
    /// make next.
    pub fn step(&mut self, event: FrameEvent) -> (action: FrameAction)
        requires
            old(self).wf(),
        ensures
            final(self)@ == old(self)@.next(event),
            action == final(self)@.due(),
            final(self).wf(),
    {
        match (self.phase, event) {
            (FramePhase::Failed(_), _) => {},
            (FramePhase::Idle, FrameEvent::Redraw) => {
                self.phase = FramePhase::Waiting;
            },
            (FramePhase::Idle, FrameEvent::SurfaceChanged) => {
                self.phase = FramePhase::Rebuilding;
            },
            (FramePhase::Waiting, FrameEvent::FenceWaited) => {
                self.in_flight[self.cursor as usize] = false;
                self.phase = FramePhase::Acquiring;
            },
            (FramePhase::Waiting, FrameEvent::CallFailed { .. }) => {
                self.phase = FramePhase::Failed(FrameFailure::FenceWait);
            },
            (FramePhase::Acquiring, FrameEvent::ImageAcquired { image_index, .. }) => {
                if image_index < self.slot_count {
                    self.phase = FramePhase::Submitting { image_index };
                } else {
                    self.phase = FramePhase::Failed(FrameFailure::ImageIndex);
                }
            },
            (FramePhase::Acquiring, FrameEvent::CallFailed { code }) => {
                if code == ERROR_OUT_OF_DATE {
                    self.phase = FramePhase::Rebuilding;
                } else {
                    self.phase = FramePhase::Failed(FrameFailure::Acquire);
                }
            },
            (FramePhase::Submitting { image_index }, FrameEvent::Submitted) => {
                self.in_flight[self.cursor as usize] = true;
                self.phase = FramePhase::Presenting { image_index };
            },
            (FramePhase::Submitting { .. }, FrameEvent::CallFailed { .. }) => {
                self.phase = FramePhase::Failed(FrameFailure::Submit);
            },
            (FramePhase::Presenting { .. }, FrameEvent::Presented { suboptimal }) => {
                if suboptimal {
                    self.phase = FramePhase::Rebuilding;
                } else {
                    self.cursor = (self.cursor + 1) % self.slot_count;
                    self.phase = FramePhase::Idle;
                }
            },
            (FramePhase::Presenting { .. }, FrameEvent::CallFailed { code }) => {
                if code == ERROR_OUT_OF_DATE || code == SUBOPTIMAL {
                    self.phase = FramePhase::Rebuilding;
                } else {
                    self.phase = FramePhase::Failed(FrameFailure::Present);
                }
            },
            (FramePhase::Rebuilding, FrameEvent::Rebuilt) => {
                let mut i: usize = 0;
                while i < self.in_flight.len()
                    invariant
                        i <= self.in_flight@.len(),
                        self.in_flight@.len() == old(self).in_flight@.len(),
                        self.slot_count == old(self).slot_count,
                        self.cursor == old(self).cursor,
                        self.phase == old(self).phase,
                        forall|k: int| 0 <= k < i ==> !self.in_flight@[k],
                    decreases self.in_flight@.len() - i,
                {
                    self.in_flight[i] = false;
                    i = i + 1;
                }
                assert(self.in_flight@ == Seq::new(self.slot_count as nat, |k: int| false));
                self.phase = FramePhase::Idle;
            },
            (FramePhase::Rebuilding, FrameEvent::CallFailed { .. }) => {
                self.phase = FramePhase::Failed(FrameFailure::Rebuild);
            },
            _ => {
                self.phase = FramePhase::Failed(FrameFailure::UnexpectedEvent);
            },
        }
        self.due()
    }

    /// The call that is due in the driver's state.
    pub fn due(&self) -> (action: FrameAction)
        ensures
            action == self@.due(),
    {
        match self.phase {
            FramePhase::Idle => FrameAction::Done,
            FramePhase::Waiting => FrameAction::WaitForFence { slot: self.cursor },
            FramePhase::Acquiring => FrameAction::AcquireImage { slot: self.cursor },
            FramePhase::Submitting { image_index } => FrameAction::Submit {
                slot: self.cursor,
                image_index,
            },
            FramePhase::Presenting { image_index } => FrameAction::Present {
                slot: self.cursor,
                image_index,
            },
            FramePhase::Rebuilding => FrameAction::Rebuild,
            FramePhase::Failed(failure) => FrameAction::Fatal(failure),
        }
    }
}

/// No more flags are set than there are flags.
pub proof fn lemma_count_set_bounded(flags: Seq<bool>)
    ensures
        count_set(flags) <= flags.len(),
    decreases flags.len(),
{
    if flags.len() > 0 {
        lemma_count_set_bounded(flags.drop_last());
    }
}

/// Where no flag is set, none is counted.
pub proof fn lemma_count_set_of_none(flags: Seq<bool>)
    requires
        forall|i: int| 0 <= i < flags.len() ==> !flags[i],
    ensures
        count_set(flags) == 0,
    decreases flags.len(),
{
    if flags.len() > 0 {
        lemma_count_set_of_none(flags.drop_last());
    }
}

/// A report never leads out of the states that the frame loop can reach.
pub proof fn lemma_next_preserves_wf(state: FrameModel, event: FrameEvent)
    requires
        state.wf(),
    ensures
        state.next(event).wf(),
        state.next(event).slot_count == state.slot_count,
{
}

/// Running one more report is running the reports before it, then that one.
pub proof fn lemma_run_push(state: FrameModel, events: Seq<FrameEvent>, event: FrameEvent)
    ensures
        state.run(events.push(event)) == state.run(events).next(event),
{
    assert(events.push(event).drop_last() == events);
}

/// Whatever is reported, in whatever order, the driver stays in a state that
/// the frame loop can reach.
pub proof fn lemma_run_preserves_wf(state: FrameModel, events: Seq<FrameEvent>)
    requires
        state.wf(),
    ensures
        state.run(events).wf(),
        state.run(events).slot_count == state.slot_count,
    decreases events.len(),
{
    if events.len() > 0 {
        lemma_run_preserves_wf(state, events.drop_last());
        lemma_next_preserves_wf(state.run(events.drop_last()), events.last());
    }
}

/// At any time, after any reports whatever, no more submissions are
/// unconfirmed than there are frame slots, and commands are due to be
/// submitted on a slot only when nothing submitted on that slot is
/// unconfirmed: the wait on its fence has returned since.
pub proof fn lemma_frame_slot_invariant(slot_count: u32, events: Seq<FrameEvent>)
    requires
        slot_count > 0,
    ensures
        ({
            let state = FrameModel::start(slot_count).run(events);
            &&& state.wf()
            &&& state.unconfirmed() <= slot_count
            &&& (state.due() matches FrameAction::Submit { slot, .. } ==> slot == state.cursor
                && !state.in_flight[slot as int])
        }),
{
    lemma_run_preserves_wf(FrameModel::start(slot_count), events);
    lemma_count_set_bounded(FrameModel::start(slot_count).run(events).in_flight);
}

/// A submission becomes unconfirmed on the current slot only, and only from
/// a state in which that slot had none; the wait on a slot's fence confirms
/// that slot and no other.
pub proof fn lemma_slots_change_one_at_a_time(state: FrameModel, event: FrameEvent, slot: int)
    requires
        state.wf(),
        0 <= slot < state.slot_count,
    ensures
        !state.in_flight[slot] && state.next(event).in_flight[slot] ==> slot == state.cursor
            && state.phase is Submitting && event == FrameEvent::Submitted,
        state.in_flight[slot] && !state.next(event).in_flight[slot] ==> (slot == state.cursor
            && state.phase == FramePhase::Waiting && event == FrameEvent::FenceWaited) || (
        state.phase == FramePhase::Rebuilding && event == FrameEvent::Rebuilt),
{
}

/// A frame that meets no stale surface ends idle, with the cursor on the
/// next slot around the ring.
pub proof fn lemma_frame_advances_cursor(state: FrameModel, image_index: u32)
    requires
        state.wf(),
        state.phase == FramePhase::Idle,
        image_index < state.slot_count,
    ensures
        state.run(FrameModel::frame(image_index)).phase == FramePhase::Idle,
        state.run(FrameModel::frame(image_index)).cursor == (state.cursor + 1) % (
        state.slot_count as int),
        state.run(FrameModel::frame(image_index)).slot_count == state.slot_count,
        state.run(FrameModel::frame(image_index)).wf(),
{
    let e0 = Seq::<FrameEvent>::empty();
    let e1 = e0.push(FrameEvent::Redraw);
    let e2 = e1.push(FrameEvent::FenceWaited);
    let e3 = e2.push(FrameEvent::ImageAcquired { image_index, suboptimal: false });
    let e4 = e3.push(FrameEvent::Submitted);
    let e5 = e4.push(FrameEvent::Presented { suboptimal: false });
    assert(e5 == FrameModel::frame(image_index));
    assert(state.run(e0) == state);
    lemma_run_push(state, e0, FrameEvent::Redraw);
    lemma_run_push(state, e1, FrameEvent::FenceWaited);
    lemma_run_push(state, e2, FrameEvent::ImageAcquired { image_index, suboptimal: false });
    lemma_run_push(state, e3, FrameEvent::Submitted);
    lemma_run_push(state, e4, FrameEvent::Presented { suboptimal: false });
}

/// After `k` frames that meet no stale surface the cursor is `k` modulo the
/// number of slots, and the frame after them waits on the fence of that
/// slot: around the ring, each slot's fence is waited on once in every
/// `slot_count` frames.
pub proof fn lemma_cursor_after_frames(slot_count: u32, images: Seq<u32>)
    requires
        slot_count > 0,
        forall|i: int| 0 <= i < images.len() ==> images[i] < slot_count,
    ensures
        ({
            let state = FrameModel::start(slot_count).run_frames(images);
            &&& state.wf()
            &&& state.slot_count == slot_count
            &&& state.phase == FramePhase::Idle
            &&& state.cursor == images.len() % (slot_count as nat)
            &&& state.next(FrameEvent::Redraw).due() == FrameAction::WaitForFence {
                slot: (images.len() % (slot_count as nat)) as u32,
            }
        }),
    decreases images.len(),
{
    if images.len() > 0 {
        let before = images.drop_last();
        lemma_cursor_after_frames(slot_count, before);
        let state = FrameModel::start(slot_count).run_frames(before);
        lemma_frame_advances_cursor(state, images.last());
        assert((before.len() % (slot_count as nat) + 1) % (slot_count as nat) == (before.len() + 1)
            % (slot_count as nat)) by (nonlinear_arith)
            requires
                slot_count > 0,
        ;
    }
}

/// A frame whose acquisition finds the surface out of date is skipped: after
/// the rebuild the driver is idle, the cursor is where it was, and nothing
/// is unconfirmed.
pub proof fn lemma_stale_acquisition_keeps_cursor(state: FrameModel)
    requires
        state.wf(),
        state.phase == FramePhase::Idle,
    ensures
        ({
            let stale = state.next(FrameEvent::Redraw).next(FrameEvent::FenceWaited).next(
                FrameEvent::CallFailed { code: ERROR_OUT_OF_DATE },
            );
            &&& stale.due() == FrameAction::Rebuild
            &&& stale.next(FrameEvent::Rebuilt).phase == FramePhase::Idle
            &&& stale.next(FrameEvent::Rebuilt).cursor == state.cursor
            &&& stale.next(FrameEvent::Rebuilt).unconfirmed() == 0
            &&& stale.next(FrameEvent::Rebuilt).wf()
        }),
{
    let rebuilt = state.next(FrameEvent::Redraw).next(FrameEvent::FenceWaited).next(
        FrameEvent::CallFailed { code: ERROR_OUT_OF_DATE },
    ).next(FrameEvent::Rebuilt);
    lemma_count_set_of_none(rebuilt.in_flight);
}

/// A presentation that finds the surface out of date, or no longer suited,
/// leads to a rebuild and leaves the cursor where it was.
pub proof fn lemma_stale_presentation_keeps_cursor(state: FrameModel, event: FrameEvent)
    requires
        state.wf(),
        state.phase is Presenting,
        event == (FrameEvent::Presented { suboptimal: true }) || (event matches
            FrameEvent::CallFailed { code } && stale_presentation(code)),
    ensures
        state.next(event).due() == FrameAction::Rebuild,
        state.next(event).next(FrameEvent::Rebuilt).phase == FramePhase::Idle,
        state.next(event).next(FrameEvent::Rebuilt).cursor == state.cursor,
{
}

/// A change of the surface that the host reports between frames leads to a
/// rebuild as a stale frame does: the cursor stays, and afterwards nothing is
/// unconfirmed.
pub proof fn lemma_reported_change_rebuilds(state: FrameModel)
    requires
        state.wf(),
        state.phase == FramePhase::Idle,
    ensures
        state.next(FrameEvent::SurfaceChanged).due() == FrameAction::Rebuild,
        state.next(FrameEvent::SurfaceChanged).next(FrameEvent::Rebuilt).phase == FramePhase::Idle,
        state.next(FrameEvent::SurfaceChanged).next(FrameEvent::Rebuilt).cursor == state.cursor,
        state.next(FrameEvent::SurfaceChanged).next(FrameEvent::Rebuilt).unconfirmed() == 0,
{
    lemma_count_set_of_none(
        state.next(FrameEvent::SurfaceChanged).next(FrameEvent::Rebuilt).in_flight,
    );
}

/// Once the loop has failed it stays failed and asks for nothing more.
pub proof fn lemma_frame_failure_is_final(state: FrameModel, event: FrameEvent)
    requires
        state.phase is Failed,
    ensures
        state.next(event) == state,
        state.due() is Fatal,
{
}

} // verus!
