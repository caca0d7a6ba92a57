//! Dispatch-loop decision logic: the pure state/event functions driving the
//! read → inspect/rewrite → write cycle. The I/O shell around the library
//! owns the device and the readiness wait; it hands each outcome in here and
//! performs the action handed back. The same decision core serves both
//! topologies: the single loop applies `dispatch_cycle` directly, while in
//! the pipelined topology the worker context applies `worker_process` to
//! each buffer drained from the hand-off queue.

use crate::rewrite::{
    echo_reply_spec, handle_packet, spec_discards, spec_passes_through, spec_replies,
    PacketAction,
};
use vstd::prelude::*;

verus! {

/// What one attempted device read produced, as handed in by the I/O shell.
pub enum ReadOutcome {
    /// One whole packet was moved off the device.
    Packet(Vec<u8>),
    /// The device was not ready after all (a non-blocking read would have
    /// blocked): the cycle ends with no packet processed.
    WouldBlock,
    /// Any other read error: the cycle's packet is lost, the loop goes on.
    Failed,
}

/// What the I/O shell must do to finish the cycle.
pub enum CycleAction {
    /// Write this whole buffer to the device.
    WriteOut(Vec<u8>),
    /// Write nothing this cycle.
    Idle,
}

/// One full PROCESS step: decides, from the outcome of the cycle's read,
/// what the cycle writes. A read packet is inspected and either answered
/// with a synthesized Echo Reply, emitted unchanged, or dropped as
/// malformed; a failed or would-block read ends the cycle quietly.
pub fn dispatch_cycle(outcome: ReadOutcome) -> (r: CycleAction)
    ensures
        outcome matches ReadOutcome::Packet(b) ==> {
            &&& spec_replies(b@) ==> (r matches CycleAction::WriteOut(w) && w@
                == echo_reply_spec(b@))
            &&& spec_passes_through(b@) ==> (r matches CycleAction::WriteOut(w) && w@ == b@)
            &&& spec_discards(b@) ==> r is Idle
        },
        outcome is WouldBlock ==> r is Idle,
        outcome is Failed ==> r is Idle,
{
    match outcome {
        ReadOutcome::Packet(b) => match handle_packet(b.as_slice()) {
            PacketAction::Reply(v) => CycleAction::WriteOut(v),
            PacketAction::PassThrough => CycleAction::WriteOut(b),
            PacketAction::Discard => CycleAction::Idle,
        },
        ReadOutcome::WouldBlock => CycleAction::Idle,
        ReadOutcome::Failed => CycleAction::Idle,
    }
}

/// The worker context's whole decision in the pipelined topology: one
/// buffer drained from the inbound hand-off queue either yields a buffer to
/// push onto the outbound queue (the reply, or the original unchanged) or
/// nothing (the malformed case).
pub fn worker_process(buf: Vec<u8>) -> (r: Option<Vec<u8>>)
    ensures
        spec_replies(buf@) ==> (r matches Some(v) && v@ == echo_reply_spec(buf@)),
        spec_passes_through(buf@) ==> (r matches Some(v) && v@ == buf@),
        spec_discards(buf@) ==> r is None,
{
    match handle_packet(buf.as_slice()) {
        PacketAction::Reply(v) => Some(v),
        PacketAction::PassThrough => Some(buf),
        PacketAction::Discard => None,
    }
}

/// The dispatch loop's control state.
#[derive(Clone, Copy, PartialEq, Eq, Structural, Debug)]
pub enum LoopState {
    /// Blocked on a readiness notification for the device.
    WaitReady,
    /// Performing one read, one decision and one write.
    Process,
    /// Shut down: the loop runs no further cycle.
    Terminated,
}

/// A control event delivered to the loop.
#[derive(Clone, Copy, PartialEq, Eq, Structural, Debug)]
pub enum LoopEvent {
    /// The device signalled read or write readiness.
    Ready,
    /// The current cycle's read, decision and write are done.
    CycleDone,
    /// An explicit shutdown request (the only way the loop terminates).
    Shutdown,
}

/// The loop's state transition: readiness moves the waiting loop into a
/// processing cycle, a finished cycle returns it to waiting, a shutdown
/// request terminates it from any state, the terminal state is absorbing,
/// and any other event leaves the state unchanged.
pub fn loop_step(state: LoopState, event: LoopEvent) -> (r: LoopState)
    ensures
        event is Shutdown ==> r is Terminated,
        state is Terminated ==> r is Terminated,
        state is WaitReady && event is Ready ==> r is Process,
        state is Process && event is CycleDone ==> r is WaitReady,
        state is WaitReady && event is CycleDone ==> r is WaitReady,
        state is Process && event is Ready ==> r is Process,
{
    match event {
        LoopEvent::Shutdown => LoopState::Terminated,
        LoopEvent::Ready => match state {
            LoopState::WaitReady => LoopState::Process,
            LoopState::Process => LoopState::Process,
            LoopState::Terminated => LoopState::Terminated,
        },
        LoopEvent::CycleDone => match state {
            LoopState::WaitReady => LoopState::WaitReady,
            LoopState::Process => LoopState::WaitReady,
            LoopState::Terminated => LoopState::Terminated,
        },
    }
}

} // verus!
