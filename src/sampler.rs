//! Decisions of the periodic sampler: on every tick (or manual trigger) it
//! delivers a fresh sample only when the consumer can be resolved and the
//! shared provider state could be taken; otherwise it skips that tick quietly
//! and waits for the next. A failed resolution never stops the sampler: only an
//! explicit shutdown does, after which it delivers nothing more.
use vstd::prelude::*;

verus! {

/// Whether the sampler still acts on ticks.
#[derive(PartialEq, Eq, Structural, Clone, Copy, Debug)]
pub enum SamplerState {
    Running,
    Stopped,
}

/// What happened since the last decision.
#[derive(PartialEq, Eq, Structural, Clone, Copy, Debug)]
pub enum SamplerEvent {
    /// A timer tick or a manual trigger, with the outcome of resolving the
    /// consumer handle and of the non-blocking attempt to take the provider
    /// state (made only where the consumer was resolved).
    Tick { consumer_alive: bool, state_acquired: bool },
    /// The owner asks the sampler to stop.
    Shutdown,
}

/// What the driver of the sampler is to do.
#[derive(PartialEq, Eq, Structural, Clone, Copy, Debug)]
pub enum SamplerAction {
    /// Refresh the provider state and push the display fields to the consumer.
    Deliver,
    /// The consumer is gone: do nothing this tick.
    SkipConsumerGone,
    /// The provider state is busy or poisoned: do nothing this tick.
    SkipStateBusy,
    /// The sampler has stopped: schedule no more ticks.
    Halt,
}

/// The next state and the action for `event` in `state`.
pub open spec fn next_spec(state: SamplerState, event: SamplerEvent) -> (SamplerState, SamplerAction) {
    match state {
        SamplerState::Stopped => (SamplerState::Stopped, SamplerAction::Halt),
        SamplerState::Running => match event {
            SamplerEvent::Shutdown => (SamplerState::Stopped, SamplerAction::Halt),
            SamplerEvent::Tick { consumer_alive, state_acquired } => if !consumer_alive {
                (SamplerState::Running, SamplerAction::SkipConsumerGone)
            } else if !state_acquired {
                (SamplerState::Running, SamplerAction::SkipStateBusy)
            } else {
                (SamplerState::Running, SamplerAction::Deliver)
            },
        },
    }
}

/// The state after a sequence of events.
pub open spec fn run_state(state: SamplerState, events: Seq<SamplerEvent>) -> SamplerState
    decreases events.len(),
{
    if events.len() == 0 {
        state
    } else {
        run_state(next_spec(state, events[0]).0, events.drop_first())
    }
}

/// How many deliveries a sequence of events leads to.
pub open spec fn deliveries(state: SamplerState, events: Seq<SamplerEvent>) -> nat
    decreases events.len(),
{
    if events.len() == 0 {
        0
    } else {
        let (s, a) = next_spec(state, events[0]);
        (if a == SamplerAction::Deliver {
            1nat
        } else {
            0nat
        }) + deliveries(s, events.drop_first())
    }
}

/// The event is a tick on which the consumer could not be resolved.
pub open spec fn is_unresolved_tick(event: SamplerEvent) -> bool {
    match event {
        SamplerEvent::Tick { consumer_alive, .. } => !consumer_alive,
        SamplerEvent::Shutdown => false,
    }
}

/// The periodic sampler's decision state, shared by the timer path and the
/// manual-trigger path.
pub struct Sampler {
    pub state: SamplerState,
}

impl Sampler {
    /// A sampler that acts on ticks.
    pub fn new() -> (r: Sampler)
        ensures
            r.state == SamplerState::Running,
    {
        Sampler { state: SamplerState::Running }
    }

    /// Whether the sampler still acts on ticks.
    pub fn is_running(&self) -> (r: bool)
        ensures
            r == (self.state == SamplerState::Running),
    {
        self.state == SamplerState::Running
    }

    /// Takes one event and says what to do: a running sampler delivers on a
    /// tick where the consumer was resolved and the provider state taken,
    /// skips other ticks and stays running, and stops on shutdown; a stopped
    /// sampler only halts.
    pub fn on_event(&mut self, event: SamplerEvent) -> (r: SamplerAction)
        ensures
            (final(self).state, r) == next_spec(old(self).state, event),
            r == SamplerAction::Deliver <==> old(self).state == SamplerState::Running && event
                == (SamplerEvent::Tick { consumer_alive: true, state_acquired: true }),
    {
        match self.state {
            SamplerState::Stopped => SamplerAction::Halt,
            SamplerState::Running => match event {
                SamplerEvent::Shutdown => {
                    self.state = SamplerState::Stopped;
                    SamplerAction::Halt
                },
                SamplerEvent::Tick { consumer_alive, state_acquired } => {
                    if !consumer_alive {
                        SamplerAction::SkipConsumerGone
                    } else if !state_acquired {
                        SamplerAction::SkipStateBusy
                    } else {
                        SamplerAction::Deliver
                    }
                },
            },
        }
    }
}

/// Once the consumer can no longer be resolved, any number of further ticks
/// leaves a running sampler running (it keeps scheduling ticks) and delivers
/// nothing.
pub proof fn lemma_unresolved_ticks_keep_running(events: Seq<SamplerEvent>)
    requires
        forall|i: int| 0 <= i < events.len() ==> is_unresolved_tick(#[trigger] events[i]),
    ensures
        run_state(SamplerState::Running, events) == SamplerState::Running,
        deliveries(SamplerState::Running, events) == 0,
    decreases events.len(),
{
    if events.len() > 0 {
        assert(is_unresolved_tick(events[0]));
        let rest = events.drop_first();
        assert forall|i: int| 0 <= i < rest.len() implies is_unresolved_tick(#[trigger] rest[i]) by {
            assert(rest[i] == events[i + 1]);
        }
        lemma_unresolved_ticks_keep_running(rest);
    }
}

/// A stopped sampler stays stopped and delivers nothing, whatever follows.
pub proof fn lemma_stopped_is_final(events: Seq<SamplerEvent>)
    ensures
        run_state(SamplerState::Stopped, events) == SamplerState::Stopped,
        deliveries(SamplerState::Stopped, events) == 0,
    decreases events.len(),
{
    if events.len() > 0 {
        lemma_stopped_is_final(events.drop_first());
    }
}

} // verus!
