use vstd::prelude::*;

verus! {

/// The loop's state.  It starts `Running`; the two others are final.
#[derive(Clone, Copy, Debug, PartialEq, Eq, Structural)]
pub enum LoopState {
    Running,
    /// Stopped because the time limit was reached; the sink is released.
    Finished,
    /// Stopped because a read or a write failed.
    Failed,
}

/// What the loop is told after carrying out its last action.
#[derive(Clone, Copy, Debug, PartialEq, Eq, Structural)]
pub enum Event {
    /// A read returned a frame; `empty` when decoding produced nothing.
    FrameRead { empty: bool },
    /// A read failed.
    ReadFailed,
    /// The last frame was accepted by the sink.
    FrameWritten,
    /// The sink refused the last frame.
    WriteFailed,
    /// The whole seconds that have elapsed since the loop started.
    Clock { elapsed_secs: u64 },
}

/// What the loop asks to be done next.
#[derive(Clone, Copy, Debug, PartialEq, Eq, Structural)]
pub enum Action {
    /// Read the next frame from the device.
    ReadFrame,
    /// Hand the frame just read to the sink.
    WriteFrame,
    /// Report the elapsed time.
    CheckClock,
    /// Release the sink and exit cleanly.
    ReleaseSink,
    /// Stop with an error.
    Abort,
}

/// How long the loop runs.
#[derive(Clone, Copy, Debug, PartialEq, Eq, Structural)]
pub struct LoopConfig {
    /// `None` runs until an error.
    pub time_limit_secs: Option<u64>,
}

/// Whether the time limit of `cfg` has been reached after `elapsed` seconds.
pub open spec fn limit_reached(cfg: LoopConfig, elapsed: int) -> bool {
    cfg.time_limit_secs matches Some(limit) && elapsed >= limit
}

/// One transition of the loop.  An iteration reads a frame, writes it when
/// it is not empty, then checks the clock.
pub open spec fn transition(cfg: LoopConfig, state: LoopState, event: Event) -> (
    LoopState,
    Action,
) {
    match state {
        LoopState::Finished => (LoopState::Finished, Action::ReleaseSink),
        LoopState::Failed => (LoopState::Failed, Action::Abort),
        LoopState::Running => match event {
            Event::FrameRead { empty } => if empty {
                (LoopState::Running, Action::CheckClock)
            } else {
                (LoopState::Running, Action::WriteFrame)
            },
            Event::FrameWritten => (LoopState::Running, Action::CheckClock),
            Event::ReadFailed => (LoopState::Failed, Action::Abort),
            Event::WriteFailed => (LoopState::Failed, Action::Abort),
            Event::Clock { elapsed_secs } => if limit_reached(cfg, elapsed_secs as int) {
                (LoopState::Finished, Action::ReleaseSink)
            } else {
                (LoopState::Running, Action::ReadFrame)
            },
        },
    }
}

/// The first action of a loop: read a frame.
pub fn start() -> (r: (LoopState, Action))
    ensures
        r == (LoopState::Running, Action::ReadFrame),
{
    (LoopState::Running, Action::ReadFrame)
}

/// Moves the loop from `state` on `event` to its next state and action.
pub fn step(cfg: &LoopConfig, state: LoopState, event: Event) -> (r: (LoopState, Action))
    ensures
        r == transition(*cfg, state, event),
{
    match state {
        LoopState::Finished => (LoopState::Finished, Action::ReleaseSink),
        LoopState::Failed => (LoopState::Failed, Action::Abort),
        LoopState::Running => match event {
            Event::FrameRead { empty } => {
                if empty {
                    (LoopState::Running, Action::CheckClock)
                } else {
                    (LoopState::Running, Action::WriteFrame)
                }
            },
            Event::FrameWritten => (LoopState::Running, Action::CheckClock),
            Event::ReadFailed => (LoopState::Failed, Action::Abort),
            Event::WriteFailed => (LoopState::Failed, Action::Abort),
            Event::Clock { elapsed_secs } => {
                let reached = match cfg.time_limit_secs {
                    Some(limit) => elapsed_secs >= limit,
                    None => false,
                };
                if reached {
                    (LoopState::Finished, Action::ReleaseSink)
                } else {
                    (LoopState::Running, Action::ReadFrame)
                }
            },
        },
    }
}

/// The states the loop passes through on `events`, starting `Running`:
/// entry `i` is the state before event `i`, the last one the state after all.
pub open spec fn states_of(cfg: LoopConfig, events: Seq<Event>) -> Seq<LoopState>
    decreases events.len(),
{
    if events.len() == 0 {
        seq![LoopState::Running]
    } else {
        let prev = states_of(cfg, events.drop_last());
        prev.push(transition(cfg, prev.last(), events.last()).0)
    }
}

/// The action the loop asks for after event `i` of `events`.
pub open spec fn action_after(cfg: LoopConfig, events: Seq<Event>, i: int) -> Action {
    transition(cfg, states_of(cfg, events)[i], events[i]).1
}

/// On any run of the loop, the sink is asked to write only right after a
/// read that returned a non-empty frame: an empty frame is never written.
pub proof fn lemma_write_only_after_nonempty_frame(cfg: LoopConfig, events: Seq<Event>, i: int)
    requires
        0 <= i < events.len(),
        action_after(cfg, events, i) == Action::WriteFrame,
    ensures
        events[i] == (Event::FrameRead { empty: false }),
{
}

/// Once the loop has stopped, no event brings it back to reading or
/// writing frames.
pub proof fn lemma_stopped_is_final(cfg: LoopConfig, state: LoopState, event: Event)
    requires
        state != LoopState::Running,
    ensures
        transition(cfg, state, event).0 == state,
        transition(cfg, state, event).1 != Action::ReadFrame,
        transition(cfg, state, event).1 != Action::WriteFrame,
{
}

} // verus!
