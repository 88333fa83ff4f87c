//! The agents connected over the agent socket, as the balancer records them
//! from their status snapshots, keyed by agent id.
use vstd::prelude::*;

use crate::agent_socket::RegisterAgentParams;
use crate::agent_socket::SlotAggregatedStatusSnapshot;

verus! {

/// An agent as last reported: its identity, slots, download and model.
pub struct AgentRecord {
    pub id: String,
    pub name: Option<String>,
    pub desired_slots_total: i32,
    pub download_current: usize,
    pub download_filename: Option<String>,
    pub download_total: usize,
    pub issues: Vec<String>,
    pub model_path: Option<String>,
    /// The version of the newest snapshot applied.
    pub newest_update_version: i32,
    pub slots_processing: i32,
    pub slots_total: i32,
    pub state_application_status_code: i32,
    pub uses_chat_template_override: bool,
}

/// The record of agent `id`, named `name`, built from `snapshot`.
pub open spec fn spec_agent_record(
    id: String,
    name: Option<String>,
    snapshot: SlotAggregatedStatusSnapshot,
) -> AgentRecord {
    AgentRecord {
        id,
        name,
        desired_slots_total: snapshot.desired_slots_total,
        download_current: snapshot.download_current,
        download_filename: snapshot.download_filename,
        download_total: snapshot.download_total,
        issues: snapshot.issues,
        model_path: snapshot.model_path,
        newest_update_version: snapshot.version,
        slots_processing: snapshot.slots_processing,
        slots_total: snapshot.slots_total,
        state_application_status_code: snapshot.state_application_status,
        uses_chat_template_override: snapshot.uses_chat_template_override,
    }
}

/// Whether a status snapshot changed a record.
#[derive(PartialEq, Eq, Structural, Debug, Clone, Copy)]
pub enum AgentUpdateResult {
    /// The snapshot is not newer than the record: nothing changed.
    NoMeaningfulChanges,
    /// The record now holds the snapshot; the requests waiting for an agent
    /// are woken.
    Updated,
}

/// The record after `snapshot` is applied: a snapshot newer than the
/// record's newest replaces every reported field; an older one or one of the
/// same version changes nothing. Identity and name stay.
pub open spec fn spec_after_snapshot(
    record: AgentRecord,
    snapshot: SlotAggregatedStatusSnapshot,
) -> (AgentRecord, AgentUpdateResult) {
    if snapshot.version > record.newest_update_version {
        (spec_agent_record(record.id, record.name, snapshot), AgentUpdateResult::Updated)
    } else {
        (record, AgentUpdateResult::NoMeaningfulChanges)
    }
}

/// The record of agent `agent_id` as its registration describes it.
pub fn agent_from_registration(agent_id: String, params: RegisterAgentParams) -> (res: AgentRecord)
    ensures
        res == spec_agent_record(agent_id, params.name, params.slot_aggregated_status_snapshot),
{
    let RegisterAgentParams { name, slot_aggregated_status_snapshot: s } = params;
    AgentRecord {
        id: agent_id,
        name,
        desired_slots_total: s.desired_slots_total,
        download_current: s.download_current,
        download_filename: s.download_filename,
        download_total: s.download_total,
        issues: s.issues,
        model_path: s.model_path,
        newest_update_version: s.version,
        slots_processing: s.slots_processing,
        slots_total: s.slots_total,
        state_application_status_code: s.state_application_status,
        uses_chat_template_override: s.uses_chat_template_override,
    }
}

impl AgentRecord {
    /// Applies a status snapshot of the agent, and says whether it changed
    /// anything.
    pub fn apply_snapshot(&mut self, snapshot: SlotAggregatedStatusSnapshot) -> (res:
        AgentUpdateResult)
        ensures
            (*final(self), res) == spec_after_snapshot(*old(self), snapshot),
    {
        if snapshot.version > self.newest_update_version {
            let SlotAggregatedStatusSnapshot {
                desired_slots_total,
                download_current,
                download_filename,
                download_total,
                issues,
                model_path,
                slots_processing,
                slots_total,
                state_application_status,
                uses_chat_template_override,
                version,
            } = snapshot;
            self.desired_slots_total = desired_slots_total;
            self.download_current = download_current;
            self.download_filename = download_filename;
            self.download_total = download_total;
            self.issues = issues;
            self.model_path = model_path;
            self.newest_update_version = version;
            self.slots_processing = slots_processing;
            self.slots_total = slots_total;
            self.state_application_status_code = state_application_status;
            self.uses_chat_template_override = uses_chat_template_override;
            AgentUpdateResult::Updated
        } else {
            AgentUpdateResult::NoMeaningfulChanges
        }
    }
}

/// No two records share an agent id.
pub open spec fn unique_record_ids(s: Seq<AgentRecord>) -> bool {
    forall|a: int, b: int|
        0 <= a < s.len() && 0 <= b < s.len() && a != b ==> #[trigger] s[a].id@ != #[trigger] s[b].id@
}

/// Some record has agent id `id`.
pub open spec fn has_record(s: Seq<AgentRecord>, id: Seq<char>) -> bool {
    exists|i: int| 0 <= i < s.len() && #[trigger] s[i].id@ == id
}

/// The position of the record with agent id `id` (meaningful when
/// `has_record`).
pub open spec fn index_of_record(s: Seq<AgentRecord>, id: Seq<char>) -> int {
    choose|i: int| 0 <= i < s.len() && #[trigger] s[i].id@ == id
}

/// Why a registration was refused.
#[derive(PartialEq, Eq, Structural, Debug, Clone, Copy)]
pub enum AgentRegistryError {
    /// An agent with this id is already registered.
    AlreadyRegistered,
}

/// The registered agents.
pub struct AgentRegistry {
    pub agents: Vec<AgentRecord>,
}

impl AgentRegistry {
    pub open spec fn wf(&self) -> bool {
        unique_record_ids(self.agents@)
    }

    pub fn new() -> (res: AgentRegistry)
        ensures
            res.agents@ == Seq::<AgentRecord>::empty(),
            res.wf(),
    {
        AgentRegistry { agents: Vec::new() }
    }

    /// The position of the record of `agent_id`, if any.
    pub fn find(&self, agent_id: &str) -> (res: Option<usize>)
        requires
            self.wf(),
        ensures
            res is None <==> !has_record(self.agents@, agent_id@),
            res is Some ==> res->0 == index_of_record(self.agents@, agent_id@),
    {
        let mut i: usize = 0;
        while i < self.agents.len()
            invariant
                self.wf(),
                i <= self.agents@.len(),
                forall|j: int| 0 <= j < i ==> #[trigger] self.agents@[j].id@ != agent_id@,
            decreases self.agents@.len() - i,
        {
            if crate::text::str_equals(self.agents[i].id.as_str(), agent_id) {
                assert(has_record(self.agents@, agent_id@));
                let ghost k = index_of_record(self.agents@, agent_id@);
                assert(k == i) by {
                    if k != i {
                        assert(self.agents@[k].id@ != self.agents@[i as int].id@);
                    }
                }
                return Some(i);
            }
            i = i + 1;
        }
        None
    }

    /// Registers `record`; refused, changing nothing, when an agent with its
    /// id is already registered.
    pub fn register(&mut self, record: AgentRecord) -> (res: Result<(), AgentRegistryError>)
        requires
            old(self).wf(),
        ensures
            final(self).wf(),
            has_record(old(self).agents@, record.id@) ==> res == Err::<(), AgentRegistryError>(
                AgentRegistryError::AlreadyRegistered,
            ) && final(self).agents@ == old(self).agents@,
            !has_record(old(self).agents@, record.id@) ==> res is Ok && final(self).agents@
                == old(self).agents@.push(record),
    {
        match self.find(record.id.as_str()) {
            Some(_) => Err(AgentRegistryError::AlreadyRegistered),
            None => {
                let ghost before = self.agents@;
                self.agents.push(record);
                proof {
                    let t = self.agents@;
                    assert forall|a: int, b: int|
                        0 <= a < t.len() && 0 <= b < t.len() && a != b implies #[trigger] t[a].id@
                        != #[trigger] t[b].id@ by {
                        if a < before.len() && b < before.len() {
                            assert(t[a] == before[a] && t[b] == before[b]);
                        } else if a < before.len() {
                            assert(t[a] == before[a]);
                        } else {
                            assert(t[b] == before[b]);
                        }
                    }
                }
                Ok(())
            },
        }
    }

    /// Applies a status snapshot to the record of `agent_id`: `None`, changing
    /// nothing, when that agent is not registered.
    pub fn apply_snapshot(&mut self, agent_id: &str, snapshot: SlotAggregatedStatusSnapshot) -> (res:
        Option<AgentUpdateResult>)
        requires
            old(self).wf(),
        ensures
            final(self).wf(),
            !has_record(old(self).agents@, agent_id@) ==> res is None && final(self).agents@ == old(
                self,
            ).agents@,
            has_record(old(self).agents@, agent_id@) ==> ({
                let i = index_of_record(old(self).agents@, agent_id@);
                let (record, result) = spec_after_snapshot(old(self).agents@[i], snapshot);
                &&& res == Some(result)
                &&& final(self).agents@ == old(self).agents@.update(i, record)
            }),
    {
        match self.find(agent_id) {
            None => None,
            Some(i) => {
                let ghost before = self.agents@;
                let mut record = self.agents.remove(i);
                let result = record.apply_snapshot(snapshot);
                self.agents.insert(i, record);
                proof {
                    assert(self.agents@ =~= before.update(i as int, record));
                    let t = self.agents@;
                    assert forall|a: int, b: int|
                        0 <= a < t.len() && 0 <= b < t.len() && a != b implies #[trigger] t[a].id@
                        != #[trigger] t[b].id@ by {
                        assert(t[a].id == before[a].id);
                        assert(t[b].id == before[b].id);
                    }
                }
                Some(result)
            },
        }
    }

    /// Removes the record of `agent_id`; says whether there was one.
    pub fn remove(&mut self, agent_id: &str) -> (res: bool)
        requires
            old(self).wf(),
        ensures
            final(self).wf(),
            res == has_record(old(self).agents@, agent_id@),
            !res ==> final(self).agents@ == old(self).agents@,
            res ==> final(self).agents@ == old(self).agents@.remove(
                index_of_record(old(self).agents@, agent_id@),
            ),
            !has_record(final(self).agents@, agent_id@),
    {
        match self.find(agent_id) {
            None => false,
            Some(i) => {
                let ghost before = self.agents@;
                self.agents.remove(i);
                proof {
                    let t = self.agents@;
                    assert forall|a: int, b: int|
                        0 <= a < t.len() && 0 <= b < t.len() && a != b implies #[trigger] t[a].id@
                        != #[trigger] t[b].id@ by {
                        let a0 = if a < i { a } else { a + 1 };
                        let b0 = if b < i { b } else { b + 1 };
                        assert(t[a] == before[a0]);
                        assert(t[b] == before[b0]);
                    }
                    assert forall|a: int| 0 <= a < t.len() implies #[trigger] t[a].id@ != agent_id@ by {
                        let a0 = if a < i { a } else { a + 1 };
                        assert(t[a] == before[a0]);
                        assert(before[a0].id@ != before[i as int].id@);
                    }
                }
                true
            },
        }
    }
}

/// A snapshot that is not newer than what an agent last reported changes
/// nothing; a newer one leaves the agent's identity and name as they were.
pub proof fn law_stale_snapshot_changes_nothing(
    record: AgentRecord,
    snapshot: SlotAggregatedStatusSnapshot,
)
    ensures
        snapshot.version <= record.newest_update_version ==> spec_after_snapshot(
            record,
            snapshot,
        ) == (record, AgentUpdateResult::NoMeaningfulChanges),
        spec_after_snapshot(record, snapshot).0.id == record.id,
        spec_after_snapshot(record, snapshot).0.name == record.name,
        spec_after_snapshot(record, snapshot).0.newest_update_version >= record.newest_update_version,
{
}

/// A snapshot newer than the record replaces every field the agent
/// reports: afterwards each of them equals the snapshot's value, the
/// record's newest version is the snapshot's, and the update is reported as
/// meaningful.
pub proof fn law_newer_snapshot_replaces_report(
    record: AgentRecord,
    snapshot: SlotAggregatedStatusSnapshot,
)
    requires
        snapshot.version > record.newest_update_version,
    ensures
        ({
            let (after, result) = spec_after_snapshot(record, snapshot);
            &&& result == AgentUpdateResult::Updated
            &&& after.id == record.id
            &&& after.name == record.name
            &&& after.desired_slots_total == snapshot.desired_slots_total
            &&& after.download_current == snapshot.download_current
            &&& after.download_filename == snapshot.download_filename
            &&& after.download_total == snapshot.download_total
            &&& after.issues == snapshot.issues
            &&& after.model_path == snapshot.model_path
            &&& after.newest_update_version == snapshot.version
            &&& after.slots_processing == snapshot.slots_processing
            &&& after.slots_total == snapshot.slots_total
            &&& after.state_application_status_code == snapshot.state_application_status
            &&& after.uses_chat_template_override == snapshot.uses_chat_template_override
        }),
{
}

/// A registration records every field of the agent's snapshot.
pub proof fn law_registration_records_snapshot(
    agent_id: String,
    name: Option<String>,
    snapshot: SlotAggregatedStatusSnapshot,
)
    ensures
        ({
            let r = spec_agent_record(agent_id, name, snapshot);
            &&& r.id == agent_id
            &&& r.name == name
            &&& r.desired_slots_total == snapshot.desired_slots_total
            &&& r.download_current == snapshot.download_current
            &&& r.download_filename == snapshot.download_filename
            &&& r.download_total == snapshot.download_total
            &&& r.issues == snapshot.issues
            &&& r.model_path == snapshot.model_path
            &&& r.newest_update_version == snapshot.version
            &&& r.slots_processing == snapshot.slots_processing
            &&& r.slots_total == snapshot.slots_total
            &&& r.state_application_status_code == snapshot.state_application_status
            &&& r.uses_chat_template_override == snapshot.uses_chat_template_override
        }),
{
}

/// Applying the same snapshot twice changes nothing the second time.
pub proof fn law_snapshot_applied_once(record: AgentRecord, snapshot: SlotAggregatedStatusSnapshot)
    ensures
        ({
            let (once, _) = spec_after_snapshot(record, snapshot);
            spec_after_snapshot(once, snapshot) == (once, AgentUpdateResult::NoMeaningfulChanges)
        }),
{
}

/// Registering an agent and then removing it leaves the registry as it was.
pub proof fn law_register_then_remove_agent_restores(s: Seq<AgentRecord>, record: AgentRecord)
    requires
        unique_record_ids(s),
        !has_record(s, record.id@),
    ensures
        has_record(s.push(record), record.id@),
        s.push(record).remove(index_of_record(s.push(record), record.id@)) == s,
{
    let t = s.push(record);
    assert(t[s.len() as int].id@ == record.id@);
    let k = index_of_record(t, record.id@);
    assert(k == s.len()) by {
        if k < s.len() {
            assert(t[k] == s[k]);
        }
    }
    assert(t.remove(k) =~= s);
}

} // verus!
