//! One llama.cpp agent as the balancer sees it: where to reach it and how many
//! of its slots are idle or processing.
use vstd::prelude::*;

use crate::text::clone_option_string;

verus! {

/// What an agent reports about itself.
pub struct StatusUpdate {
    pub agent_name: Option<String>,
    pub error: Option<String>,
    /// `host:port` of the agent's llama.cpp server.
    pub external_llamacpp_addr: String,
    pub model: Option<String>,
    pub slots_idle: usize,
    pub slots_processing: usize,
}

/// An agent registered in the pool.
pub struct UpstreamPeer {
    pub agent_id: String,
    pub agent_name: Option<String>,
    pub error: Option<String>,
    pub external_llamacpp_addr: String,
    /// Time (in milliseconds) of the status report the slot counts come from.
    pub last_update: u64,
    pub model: Option<String>,
    /// Time (in milliseconds) until which the peer must not receive requests.
    pub quarantined_until: Option<u64>,
    pub slots_idle: usize,
    pub slots_processing: usize,
}

/// Why a slot could not be taken or released.
#[derive(PartialEq, Eq, Structural, Debug, Clone, Copy)]
pub enum SlotError {
    NoIdleSlot,
    NoProcessingSlot,
}

impl UpstreamPeer {
    /// The slot counts fit together in a `usize`.
    pub open spec fn wf(&self) -> bool {
        self.slots_idle + self.slots_processing <= usize::MAX
    }

    /// The peer is quarantined at time `now`.
    pub open spec fn spec_is_quarantined(&self, now: u64) -> bool {
        match self.quarantined_until {
            Some(until) => now < until,
            None => false,
        }
    }

    /// The peer may receive a request at time `now`.
    pub open spec fn spec_is_usable(&self, now: u64) -> bool {
        &&& self.error is None
        &&& self.slots_idle > 0
        &&& !self.spec_is_quarantined(now)
    }

    /// `self` is at least as good a choice as `other`: more idle slots, or as
    /// many idle slots and no more processing ones.
    pub open spec fn is_better_or_equal(&self, other: &UpstreamPeer) -> bool {
        ||| self.slots_idle > other.slots_idle
        ||| (self.slots_idle == other.slots_idle && self.slots_processing <= other.slots_processing)
    }

    /// The peer after one idle slot has started processing.
    pub open spec fn with_slot_taken(self) -> UpstreamPeer {
        UpstreamPeer {
            slots_idle: (self.slots_idle - 1) as usize,
            slots_processing: (self.slots_processing + 1) as usize,
            ..self
        }
    }

    /// The peer after one processing slot has become idle.
    pub open spec fn with_slot_released(self) -> UpstreamPeer {
        UpstreamPeer {
            slots_idle: (self.slots_idle + 1) as usize,
            slots_processing: (self.slots_processing - 1) as usize,
            ..self
        }
    }

    /// The peer a first status report creates.
    pub open spec fn spec_from_status_update(
        agent_id: String,
        status: StatusUpdate,
        now: u64,
    ) -> UpstreamPeer {
        UpstreamPeer {
            agent_id,
            agent_name: status.agent_name,
            error: status.error,
            external_llamacpp_addr: status.external_llamacpp_addr,
            last_update: now,
            model: status.model,
            quarantined_until: None,
            slots_idle: status.slots_idle,
            slots_processing: status.slots_processing,
        }
    }

    /// The peer after a later status report: everything the agent reports is
    /// replaced; the identity and the quarantine stay.
    pub open spec fn with_status_update(self, status: StatusUpdate, now: u64) -> UpstreamPeer {
        UpstreamPeer {
            agent_name: status.agent_name,
            error: status.error,
            external_llamacpp_addr: status.external_llamacpp_addr,
            last_update: now,
            model: status.model,
            slots_idle: status.slots_idle,
            slots_processing: status.slots_processing,
            ..self
        }
    }

    /// A status report replaces everything the agent reports: afterwards the
    /// peer carries exactly the report's error, address, model, name and slot
    /// counts, and the report's time; its identity and quarantine stay.
    pub proof fn law_status_update_replaces_report(self, status: StatusUpdate, now: u64)
        ensures
            self.with_status_update(status, now).error == status.error,
            self.with_status_update(status, now).external_llamacpp_addr
                == status.external_llamacpp_addr,
            self.with_status_update(status, now).model == status.model,
            self.with_status_update(status, now).agent_name == status.agent_name,
            self.with_status_update(status, now).slots_idle == status.slots_idle,
            self.with_status_update(status, now).slots_processing == status.slots_processing,
            self.with_status_update(status, now).last_update == now,
            self.with_status_update(status, now).agent_id == self.agent_id,
            self.with_status_update(status, now).quarantined_until == self.quarantined_until,
            UpstreamPeer::spec_from_status_update(self.agent_id, status, now).error == status.error,
            UpstreamPeer::spec_from_status_update(self.agent_id, status, now).external_llamacpp_addr
                == status.external_llamacpp_addr,
            UpstreamPeer::spec_from_status_update(self.agent_id, status, now).model == status.model,
            UpstreamPeer::spec_from_status_update(self.agent_id, status, now).agent_name
                == status.agent_name,
            UpstreamPeer::spec_from_status_update(self.agent_id, status, now).slots_idle
                == status.slots_idle,
            UpstreamPeer::spec_from_status_update(self.agent_id, status, now).slots_processing
                == status.slots_processing,
    {
    }

    pub fn new_from_status_update(agent_id: String, status: StatusUpdate, now: u64) -> (res:
        UpstreamPeer)
        ensures
            res == UpstreamPeer::spec_from_status_update(agent_id, status, now),
    {
        UpstreamPeer {
            agent_id,
            agent_name: status.agent_name,
            error: status.error,
            external_llamacpp_addr: status.external_llamacpp_addr,
            last_update: now,
            model: status.model,
            quarantined_until: None,
            slots_idle: status.slots_idle,
            slots_processing: status.slots_processing,
        }
    }

    pub fn update_status(&mut self, status: StatusUpdate, now: u64)
        ensures
            *final(self) == old(self).with_status_update(status, now),
    {
        self.agent_name = status.agent_name;
        self.error = status.error;
        self.external_llamacpp_addr = status.external_llamacpp_addr;
        self.last_update = now;
        self.model = status.model;
        self.slots_idle = status.slots_idle;
        self.slots_processing = status.slots_processing;
    }

    pub fn is_quarantined(&self, now: u64) -> (res: bool)
        ensures
            res == self.spec_is_quarantined(now),
    {
        match self.quarantined_until {
            Some(until) => now < until,
            None => false,
        }
    }

    pub fn is_usable(&self, now: u64) -> (res: bool)
        ensures
            res == self.spec_is_usable(now),
    {
        self.error.is_none() && self.slots_idle > 0 && !self.is_quarantined(now)
    }

    pub fn is_better_or_equal_to(&self, other: &UpstreamPeer) -> (res: bool)
        ensures
            res == self.is_better_or_equal(other),
    {
        self.slots_idle > other.slots_idle || (self.slots_idle == other.slots_idle
            && self.slots_processing <= other.slots_processing)
    }

    /// Moves one idle slot to processing; refused when no slot is idle.
    pub fn take_slot(&mut self) -> (res: Result<(), SlotError>)
        requires
            old(self).wf(),
        ensures
            old(self).slots_idle == 0 ==> res == Err::<(), SlotError>(SlotError::NoIdleSlot)
                && *final(self) == *old(self),
            old(self).slots_idle > 0 ==> res is Ok && *final(self) == old(self).with_slot_taken(),
            final(self).wf(),
    {
        if self.slots_idle < 1 {
            return Err(SlotError::NoIdleSlot);
        }
        self.slots_idle = self.slots_idle - 1;
        self.slots_processing = self.slots_processing + 1;
        Ok(())
    }

    /// Moves one processing slot back to idle; refused when none is processing.
    pub fn release_slot(&mut self) -> (res: Result<(), SlotError>)
        requires
            old(self).wf(),
        ensures
            old(self).slots_processing == 0 ==> res == Err::<(), SlotError>(
                SlotError::NoProcessingSlot,
            ) && *final(self) == *old(self),
            old(self).slots_processing > 0 ==> res is Ok && *final(self)
                == old(self).with_slot_released(),
            final(self).wf(),
    {
        if self.slots_processing < 1 {
            return Err(SlotError::NoProcessingSlot);
        }
        self.slots_idle = self.slots_idle + 1;
        self.slots_processing = self.slots_processing - 1;
        Ok(())
    }
}

impl Clone for UpstreamPeer {
    fn clone(&self) -> (res: Self)
        ensures
            res == *self,
    {
        UpstreamPeer {
            agent_id: self.agent_id.clone(),
            agent_name: clone_option_string(&self.agent_name),
            error: clone_option_string(&self.error),
            external_llamacpp_addr: self.external_llamacpp_addr.clone(),
            last_update: self.last_update,
            model: clone_option_string(&self.model),
            quarantined_until: self.quarantined_until,
            slots_idle: self.slots_idle,
            slots_processing: self.slots_processing,
        }
    }
}

} // verus!
