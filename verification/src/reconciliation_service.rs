//! When the balancer turns its desired state into the state agents apply.
//! The conversion itself happens outside; this is the bookkeeping that decides
//! when to attempt it.
use vstd::prelude::*;

verus! {

/// What the reconciliation loop observed.
#[derive(PartialEq, Eq, Structural, Debug, Clone, Copy)]
pub enum ReconciliationEvent {
    /// The service is shutting down.
    Shutdown,
    /// A second passed.
    Tick,
    /// A new desired state arrived and was stored.
    DesiredStateChanged,
}

/// What the reconciliation loop does next.
#[derive(PartialEq, Eq, Structural, Debug, Clone, Copy)]
pub enum ReconciliationAction {
    /// Leave the loop.
    Stop,
    /// Try to convert the stored desired state and apply it.
    Convert,
    /// Nothing to do.
    Wait,
}

/// Whether the stored desired state is converted after `event`, and what
/// the loop does.
pub open spec fn reconciliation_step(converted: bool, event: ReconciliationEvent) -> (
    bool,
    ReconciliationAction,
) {
    match event {
        ReconciliationEvent::Shutdown => (converted, ReconciliationAction::Stop),
        ReconciliationEvent::Tick => (
            converted,
            if converted {
                ReconciliationAction::Wait
            } else {
                ReconciliationAction::Convert
            },
        ),
        ReconciliationEvent::DesiredStateChanged => (false, ReconciliationAction::Convert),
    }
}

/// Whether the stored desired state is converted after an attempt.
pub open spec fn converted_after_attempt(converted: bool, succeeded: bool) -> bool {
    converted || succeeded
}

/// A new desired state is always converted; a failed conversion is tried
/// again at the next tick, and after a successful one ticks do nothing until
/// the desired state changes again.
pub proof fn law_conversion_retried_until_success(converted: bool, succeeded: bool)
    ensures
        reconciliation_step(converted, ReconciliationEvent::DesiredStateChanged).1
            == ReconciliationAction::Convert,
        ({
            let after_change = reconciliation_step(
                converted,
                ReconciliationEvent::DesiredStateChanged,
            ).0;
            let after_attempt = converted_after_attempt(after_change, succeeded);
            reconciliation_step(after_attempt, ReconciliationEvent::Tick).1 == if succeeded {
                ReconciliationAction::Wait
            } else {
                ReconciliationAction::Convert
            }
        }),
{
}

/// What follows a conversion of the desired state.
#[derive(PartialEq, Eq, Structural, Debug, Clone, Copy)]
pub enum ConversionStep<S, E> {
    /// The conversion failed: nothing is applied, and the next tick tries
    /// again.
    Failed(E),
    /// The desired state converts to no applicable state: nothing is
    /// applied, and the desired state counts as converted.
    NothingToApply,
    /// Set the agents' desired state from this applicable state, then
    /// report the result with `on_agents_updated`.
    ApplyToAgents(S),
}

pub struct ReconciliationService {
    /// The stored desired state has been converted and applied.
    pub is_converted_to_applicable_state: bool,
}

impl ReconciliationService {
    pub fn new() -> (res: ReconciliationService)
        ensures
            !res.is_converted_to_applicable_state,
    {
        ReconciliationService { is_converted_to_applicable_state: false }
    }

    /// What to do after `event`: a new desired state is always converted, a
    /// tick retries a conversion that has not succeeded yet.
    pub fn on_event(&mut self, event: ReconciliationEvent) -> (res: ReconciliationAction)
        ensures
            (final(self).is_converted_to_applicable_state, res) == reconciliation_step(
                old(self).is_converted_to_applicable_state,
                event,
            ),
    {
        match event {
            ReconciliationEvent::Shutdown => ReconciliationAction::Stop,
            ReconciliationEvent::Tick => {
                if self.is_converted_to_applicable_state {
                    ReconciliationAction::Wait
                } else {
                    ReconciliationAction::Convert
                }
            },
            ReconciliationEvent::DesiredStateChanged => {
                self.is_converted_to_applicable_state = false;
                ReconciliationAction::Convert
            },
        }
    }

    /// What follows the conversion of the stored desired state: a failure
    /// leaves the service as it was; no applicable state marks the desired
    /// state converted with nothing applied; an applicable state is to be
    /// applied to the agents first.
    pub fn on_conversion<S, E>(&mut self, conversion: Result<Option<S>, E>) -> (res: ConversionStep<
        S,
        E,
    >)
        ensures
            match conversion {
                Err(e) => res matches ConversionStep::Failed(f) && f == e
                    && final(self).is_converted_to_applicable_state
                    == old(self).is_converted_to_applicable_state,
                Ok(None) => res matches ConversionStep::NothingToApply
                    && final(self).is_converted_to_applicable_state,
                Ok(Some(state)) => res matches ConversionStep::ApplyToAgents(s) && s == state
                    && final(self).is_converted_to_applicable_state
                    == old(self).is_converted_to_applicable_state,
            },
    {
        match conversion {
            Err(e) => ConversionStep::Failed(e),
            Ok(None) => {
                self.is_converted_to_applicable_state = true;
                ConversionStep::NothingToApply
            },
            Ok(Some(state)) => ConversionStep::ApplyToAgents(state),
        }
    }

    /// What follows setting the agents' desired state from `state`: on
    /// success `state` becomes the balancer's applicable state (it is
    /// returned to be stored) and the desired state counts as converted; on
    /// failure the error is returned, nothing is stored and the service is as
    /// it was.
    pub fn on_agents_updated<S, E>(&mut self, state: S, agents_updated: Result<(), E>) -> (res:
        Result<S, E>)
        ensures
            match agents_updated {
                Ok(()) => res matches Ok(s) && s == state
                    && final(self).is_converted_to_applicable_state,
                Err(e) => res matches Err(f) && f == e && final(self).is_converted_to_applicable_state
                    == old(self).is_converted_to_applicable_state,
            },
    {
        match agents_updated {
            Ok(()) => {
                self.is_converted_to_applicable_state = true;
                Ok(state)
            },
            Err(e) => Err(e),
        }
    }

    /// Records how a conversion attempt ended: only success marks the desired
    /// state as converted; after a failure the next tick tries again.
    pub fn on_conversion_result(&mut self, succeeded: bool)
        ensures
            final(self).is_converted_to_applicable_state == converted_after_attempt(
                old(self).is_converted_to_applicable_state,
                succeeded,
            ),
    {
        if succeeded {
            self.is_converted_to_applicable_state = true;
        }
    }
}

} // verus!
