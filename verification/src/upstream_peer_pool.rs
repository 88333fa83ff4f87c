//! The set of agents the balancer forwards requests to, kept in order of
//! preference, with the slot accounting that requests perform on it.
use vstd::prelude::*;

use crate::upstream_peer::SlotError;
use crate::upstream_peer::StatusUpdate;
use crate::upstream_peer::UpstreamPeer;

verus! {

broadcast use {vstd::seq_lib::group_to_multiset_ensures, vstd::multiset::group_multiset_axioms};

/// Why the pool refused a slot operation.
#[derive(PartialEq, Eq, Structural, Debug, Clone, Copy)]
pub enum PoolError {
    /// No agent with the given id is registered.
    NoSuchPeer,
    /// The agent had no slot in the state the operation needs.
    Slot(SlotError),
}

pub struct UpstreamPeerPool {
    pub agents: Vec<UpstreamPeer>,
    /// How many requests are waiting for a slot to become available.
    pub request_buffer_length: usize,
}

/// No two peers share an agent id.
pub open spec fn unique_agent_ids(s: Seq<UpstreamPeer>) -> bool {
    forall|i: int, j: int|
        0 <= i < s.len() && 0 <= j < s.len() && i != j ==> #[trigger] s[i].agent_id@
            != #[trigger] s[j].agent_id@
}

/// Every peer's slot counts fit in a `usize` together.
pub open spec fn peers_wf(s: Seq<UpstreamPeer>) -> bool {
    forall|i: int| 0 <= i < s.len() ==> #[trigger] s[i].wf()
}

/// Every peer is at least as good a choice as every peer after it.
pub open spec fn is_sorted_by_preference(s: Seq<UpstreamPeer>) -> bool {
    forall|i: int, j: int|
        0 <= i < j < s.len() ==> #[trigger] s[i].is_better_or_equal(&#[trigger] s[j])
}

/// Some peer has the agent id `id`.
pub open spec fn has_agent(s: Seq<UpstreamPeer>, id: Seq<char>) -> bool {
    exists|i: int| 0 <= i < s.len() && #[trigger] s[i].agent_id@ == id
}

/// The position of the peer with agent id `id` (meaningful when `has_agent`).
pub open spec fn index_of_agent(s: Seq<UpstreamPeer>, id: Seq<char>) -> int {
    choose|i: int| 0 <= i < s.len() && #[trigger] s[i].agent_id@ == id
}

/// `k` is the first position of a peer usable at `now`.
pub open spec fn is_first_usable(s: Seq<UpstreamPeer>, now: u64, k: int) -> bool {
    &&& 0 <= k < s.len()
    &&& s[k].spec_is_usable(now)
    &&& forall|j: int| 0 <= j < k ==> !(#[trigger] s[j].spec_is_usable(now))
}

/// The first peer usable at `now`, in the pool's order.
pub open spec fn best_peer(s: Seq<UpstreamPeer>, now: u64) -> Option<UpstreamPeer> {
    if has_usable_peer(s, now) {
        Some(s[choose|k: int| is_first_usable(s, now, k)])
    } else {
        None
    }
}

/// Some peer is usable at `now`.
pub open spec fn has_usable_peer(s: Seq<UpstreamPeer>, now: u64) -> bool {
    exists|i: int| 0 <= i < s.len() && #[trigger] s[i].spec_is_usable(now)
}

/// The peer serves the model named `model`.
pub open spec fn serves_model(p: UpstreamPeer, model: Seq<char>) -> bool {
    match p.model {
        Some(m) => m@ == model,
        None => false,
    }
}

/// A peer serves a model exactly when the model it reports is the
/// requested name, character for character: a name that is only part of a
/// served name, or that extends it, is not served.
pub proof fn law_model_served_only_by_exact_name(p: UpstreamPeer, model: Seq<char>)
    ensures
        serves_model(p, model) <==> (p.model is Some && p.model->0@ == model),
        p.model is Some && p.model->0@.len() != model.len() ==> !serves_model(p, model),
{
}

/// The pool supports a model exactly when some agent reports that very
/// name.
pub proof fn law_model_supported_iff_reported(s: Seq<UpstreamPeer>, model: Seq<char>)
    ensures
        (exists|i: int| 0 <= i < s.len() && #[trigger] serves_model(s[i], model)) <==> (exists|
            i: int,
        |
            0 <= i < s.len() && (#[trigger] s[i]).model is Some && s[i].model->0@ == model),
{
    if exists|i: int| 0 <= i < s.len() && #[trigger] serves_model(s[i], model) {
        let i = choose|i: int| 0 <= i < s.len() && #[trigger] serves_model(s[i], model);
        assert(s[i].model is Some && s[i].model->0@ == model);
    }
    if exists|i: int| 0 <= i < s.len() && (#[trigger] s[i]).model is Some && s[i].model->0@ == model {
        let i = choose|i: int| 0 <= i < s.len() && (#[trigger] s[i]).model is Some && s[i].model->0@ == model;
        assert(serves_model(s[i], model));
    }
}

/// The answer of taking a slot of agent `id`, and the peers afterwards.
pub open spec fn take_slot_outcome(s: Seq<UpstreamPeer>, id: Seq<char>) -> (
    Result<(), PoolError>,
    Seq<UpstreamPeer>,
) {
    if !has_agent(s, id) {
        (Err(PoolError::NoSuchPeer), s)
    } else {
        let i = index_of_agent(s, id);
        if s[i].slots_idle == 0 {
            (Err(PoolError::Slot(SlotError::NoIdleSlot)), s)
        } else {
            (Ok(()), s.update(i, s[i].with_slot_taken()))
        }
    }
}

/// The answer of releasing a slot of agent `id` held since the report of
/// time `last_update`, and the peers afterwards.
pub open spec fn release_slot_outcome(s: Seq<UpstreamPeer>, id: Seq<char>, last_update: u64) -> (
    Result<(), PoolError>,
    Seq<UpstreamPeer>,
) {
    if !has_agent(s, id) {
        (Err(PoolError::NoSuchPeer), s)
    } else {
        let i = index_of_agent(s, id);
        if s[i].last_update > last_update {
            (Ok(()), s)
        } else if s[i].slots_processing == 0 {
            (Err(PoolError::Slot(SlotError::NoProcessingSlot)), s)
        } else {
            (Ok(()), s.update(i, s[i].with_slot_released()))
        }
    }
}

/// The idle slots of all peers together.
pub open spec fn total_idle(s: Seq<UpstreamPeer>) -> int
    decreases s.len(),
{
    if s.len() == 0 {
        0
    } else {
        total_idle(s.drop_last()) + s.last().slots_idle
    }
}

/// The processing slots of all peers together.
pub open spec fn total_processing(s: Seq<UpstreamPeer>) -> int
    decreases s.len(),
{
    if s.len() == 0 {
        0
    } else {
        total_processing(s.drop_last()) + s.last().slots_processing
    }
}

/// Two sequences of peers hold the same peers, in any order.
pub open spec fn same_peers(a: Seq<UpstreamPeer>, b: Seq<UpstreamPeer>) -> bool {
    a.to_multiset() == b.to_multiset()
}

/// The peers after the status report of `agent_id` is recorded, before
/// reordering: an existing peer takes the report, a new one is appended.
pub open spec fn peers_after_status_update(
    s: Seq<UpstreamPeer>,
    agent_id: String,
    status: StatusUpdate,
    now: u64,
) -> Seq<UpstreamPeer> {
    if has_agent(s, agent_id@) {
        let i = index_of_agent(s, agent_id@);
        s.update(i, s[i].with_status_update(status, now))
    } else {
        s.push(UpstreamPeer::spec_from_status_update(agent_id, status, now))
    }
}

/// After the status report of `agent_id` is recorded, in whatever order the
/// peers are put, exactly one peer has that agent id, and it carries exactly
/// the reported error, address, model, name and slot counts, stamped with
/// the report's time; a peer that reported an error and then reports none is
/// usable again as soon as it has an idle slot and no quarantine.
pub proof fn law_status_report_recorded(
    s: Seq<UpstreamPeer>,
    t: Seq<UpstreamPeer>,
    agent_id: String,
    status: StatusUpdate,
    now: u64,
)
    requires
        unique_agent_ids(s),
        same_peers(t, peers_after_status_update(s, agent_id, status, now)),
    ensures
        exists|j: int|
            0 <= j < t.len() && #[trigger] t[j].agent_id@ == agent_id@ && t[j].error == status.error
                && t[j].external_llamacpp_addr == status.external_llamacpp_addr && t[j].model
                == status.model && t[j].agent_name == status.agent_name && t[j].slots_idle
                == status.slots_idle && t[j].slots_processing == status.slots_processing
                && t[j].last_update == now,
        forall|a: int, b: int|
            0 <= a < t.len() && 0 <= b < t.len() && t[a].agent_id@ == agent_id@ && t[b].agent_id@
                == agent_id@ ==> #[trigger] t[a] == #[trigger] t[b],
{
    let r = peers_after_status_update(s, agent_id, status, now);
    let k: int = if has_agent(s, agent_id@) {
        index_of_agent(s, agent_id@)
    } else {
        s.len() as int
    };
    assert(0 <= k < r.len());
    assert(r[k].agent_id@ == agent_id@);
    assert(r.to_multiset().count(r[k]) > 0) by {
        r.to_multiset_ensures();
        assert(r.contains(r[k]));
    }
    assert(t.contains(r[k])) by {
        t.to_multiset_ensures();
        r.to_multiset_ensures();
    }
    let j = choose|j: int| 0 <= j < t.len() && t[j] == r[k];
    assert(t[j].agent_id@ == agent_id@);
    assert forall|a: int, b: int|
        0 <= a < t.len() && 0 <= b < t.len() && t[a].agent_id@ == agent_id@ && t[b].agent_id@
            == agent_id@ implies #[trigger] t[a] == #[trigger] t[b] by {
        t.to_multiset_ensures();
        r.to_multiset_ensures();
        assert(t.contains(t[a]) && t.contains(t[b]));
        assert(t.to_multiset().count(t[a]) > 0 && t.to_multiset().count(t[b]) > 0);
        assert(r.to_multiset().count(t[a]) > 0 && r.to_multiset().count(t[b]) > 0);
        assert(r.contains(t[a]) && r.contains(t[b]));
        let ia = choose|i: int| 0 <= i < r.len() && r[i] == t[a];
        let ib = choose|i: int| 0 <= i < r.len() && r[i] == t[b];
        assert(ia == k) by {
            if ia != k {
                if ia < s.len() {
                    assert(r[ia] == s[ia]);
                    if has_agent(s, agent_id@) {
                        assert(s[ia].agent_id@ != s[k].agent_id@);
                    } else {
                        assert(s[ia].agent_id@ == agent_id@);
                    }
                }
            }
        }
        assert(ib == k) by {
            if ib != k {
                if ib < s.len() {
                    assert(r[ib] == s[ib]);
                    if has_agent(s, agent_id@) {
                        assert(s[ib].agent_id@ != s[k].agent_id@);
                    } else {
                        assert(s[ib].agent_id@ == agent_id@);
                    }
                }
            }
        }
    }
}

/// Reordering keeps the peers with their distinct ids.
proof fn lemma_same_peers_keeps_unique_ids(a: Seq<UpstreamPeer>, b: Seq<UpstreamPeer>)
    requires
        same_peers(a, b),
        unique_agent_ids(a),
        peers_wf(a),
    ensures
        unique_agent_ids(b),
        peers_wf(b),
{
    assert(a.no_duplicates()) by {
        assert forall|i: int, j: int|
            0 <= i < a.len() && 0 <= j < a.len() && i != j implies a[i] != a[j] by {
            assert(a[i].agent_id@ != a[j].agent_id@);
        }
    }
    a.lemma_multiset_has_no_duplicates();
    assert forall|x: UpstreamPeer| b.to_multiset().contains(x) implies b.to_multiset().count(x)
        == 1 by {}
    b.lemma_multiset_has_no_duplicates_conv();
    assert forall|i: int, j: int|
        0 <= i < b.len() && 0 <= j < b.len() && i != j implies #[trigger] b[i].agent_id@
        != #[trigger] b[j].agent_id@ by {
        vstd::seq_lib::to_multiset_contains(b, b[i]);
        vstd::seq_lib::to_multiset_contains(b, b[j]);
        vstd::seq_lib::to_multiset_contains(a, b[i]);
        vstd::seq_lib::to_multiset_contains(a, b[j]);
        assert(b.contains(b[i]));
        assert(b.contains(b[j]));
        assert(a.contains(b[i]));
        assert(a.contains(b[j]));
        let x = choose|x: int| 0 <= x < a.len() && a[x] == b[i];
        let y = choose|y: int| 0 <= y < a.len() && a[y] == b[j];
        assert(b[i] != b[j]);
    }
    assert forall|i: int| 0 <= i < b.len() implies #[trigger] b[i].wf() by {
        vstd::seq_lib::to_multiset_contains(b, b[i]);
        vstd::seq_lib::to_multiset_contains(a, b[i]);
        assert(b.contains(b[i]));
        assert(a.contains(b[i]));
    }
}

/// Replacing a peer by one with the same id and fitting slot counts keeps the
/// pool well formed.
proof fn lemma_update_keeps_wf(s: Seq<UpstreamPeer>, i: int, p: UpstreamPeer)
    requires
        unique_agent_ids(s),
        peers_wf(s),
        0 <= i < s.len(),
        p.agent_id@ == s[i].agent_id@,
        p.wf(),
    ensures
        unique_agent_ids(s.update(i, p)),
        peers_wf(s.update(i, p)),
{
    let t = s.update(i, p);
    assert forall|a: int, b: int|
        0 <= a < t.len() && 0 <= b < t.len() && a != b implies #[trigger] t[a].agent_id@
        != #[trigger] t[b].agent_id@ by {
        assert(s[a].agent_id@ != s[b].agent_id@);
    }
    assert forall|a: int| 0 <= a < t.len() implies #[trigger] t[a].wf() by {
        if a != i {
            assert(s[a].wf());
        }
    }
}

/// Taking a slot of an agent and then releasing it, with a status report no
/// newer than the one the slot was taken under, leaves the peers as they were.
pub proof fn law_take_then_release_restores(s: Seq<UpstreamPeer>, id: Seq<char>, last_update: u64)
    requires
        unique_agent_ids(s),
        peers_wf(s),
        take_slot_outcome(s, id).0 is Ok,
        s[index_of_agent(s, id)].last_update <= last_update,
    ensures
        release_slot_outcome(take_slot_outcome(s, id).1, id, last_update) == (
            Ok::<(), PoolError>(()),
            s,
        ),
{
    let i = index_of_agent(s, id);
    let t = take_slot_outcome(s, id).1;
    assert(t[i].agent_id@ == id);
    assert(has_agent(t, id));
    let j = index_of_agent(t, id);
    assert(j == i) by {
        if j != i {
            assert(t[j] == s[j]);
            assert(s[j].agent_id@ != s[i].agent_id@);
        }
    }
    assert(s[i].wf());
    assert(t[i] == s[i].with_slot_taken());
    assert(t[i].with_slot_released() == s[i]);
    assert(t.update(i, t[i].with_slot_released()) =~= s);
}

/// A request that takes a slot and later gives it back, with any reordering
/// of the pool in between, leaves the pool with the peers it had before.
pub proof fn law_take_then_release_keeps_peers(
    s: Seq<UpstreamPeer>,
    reordered: Seq<UpstreamPeer>,
    id: Seq<char>,
    last_update: u64,
)
    requires
        unique_agent_ids(s),
        peers_wf(s),
        take_slot_outcome(s, id).0 is Ok,
        s[index_of_agent(s, id)].last_update <= last_update,
        same_peers(reordered, take_slot_outcome(s, id).1),
    ensures
        release_slot_outcome(reordered, id, last_update).0 is Ok,
        same_peers(release_slot_outcome(reordered, id, last_update).1, s),
{
    broadcast use vstd::seq_lib::to_multiset_update;

    let i = index_of_agent(s, id);
    let t = take_slot_outcome(s, id).1;
    let a = s[i].with_slot_taken();
    assert(s[i].wf());
    assert(t == s.update(i, a));
    lemma_update_keeps_wf(s, i, a);
    lemma_same_peers_keeps_unique_ids(t, reordered);
    vstd::seq_lib::to_multiset_contains(t, a);
    vstd::seq_lib::to_multiset_contains(reordered, a);
    assert(t[i] == a);
    assert(t.contains(a));
    assert(reordered.contains(a));
    let j = choose|j: int| 0 <= j < reordered.len() && reordered[j] == a;
    assert(reordered[j].agent_id@ == id);
    assert(has_agent(reordered, id));
    let k = index_of_agent(reordered, id);
    assert(k == j) by {
        if k != j {
            assert(reordered[k].agent_id@ != reordered[j].agent_id@);
        }
    }
    assert(a.with_slot_released() == s[i]);
    let r = reordered.update(j, s[i]);
    assert(r.to_multiset() == reordered.to_multiset().insert(s[i]).remove(a));
    assert(s.update(i, a).to_multiset() == s.to_multiset().insert(a).remove(s[i]));
    assert(r.to_multiset() =~= s.to_multiset());
}

/// An agent that registers and is then removed, with any reordering of the
/// pool in between, leaves the pool with the peers it had before.
pub proof fn law_register_then_remove_restores(
    s: Seq<UpstreamPeer>,
    added: UpstreamPeer,
    reordered: Seq<UpstreamPeer>,
)
    requires
        !has_agent(s, added.agent_id@),
        same_peers(reordered, s.push(added)),
    ensures
        has_agent(reordered, added.agent_id@),
        same_peers(reordered.remove(index_of_agent(reordered, added.agent_id@)), s),
{
    let t = s.push(added);
    let id = added.agent_id@;
    vstd::seq_lib::to_multiset_contains(t, added);
    vstd::seq_lib::to_multiset_contains(reordered, added);
    assert(t[s.len() as int] == added);
    assert(t.contains(added));
    assert(reordered.contains(added));
    let j = choose|j: int| 0 <= j < reordered.len() && reordered[j] == added;
    assert(reordered[j].agent_id@ == id);
    assert(has_agent(reordered, id));
    let k = index_of_agent(reordered, id);
    assert(reordered[k] == added) by {
        let x = reordered[k];
        vstd::seq_lib::to_multiset_contains(reordered, x);
        vstd::seq_lib::to_multiset_contains(t, x);
        assert(reordered.contains(x));
        assert(t.contains(x));
        let m = choose|m: int| 0 <= m < t.len() && t[m] == x;
        if m < s.len() {
            assert(s[m] == x);
            assert(s[m].agent_id@ == id);
            assert(has_agent(s, id));
        }
    }
    vstd::seq_lib::to_multiset_remove(reordered, k);
    assert(t.to_multiset() == s.to_multiset().insert(added));
    assert(reordered.remove(k).to_multiset() =~= s.to_multiset());
}

/// Replacing one peer changes the pool's totals by the difference of the two.
proof fn lemma_totals_after_update(s: Seq<UpstreamPeer>, i: int, p: UpstreamPeer)
    requires
        0 <= i < s.len(),
    ensures
        total_idle(s.update(i, p)) == total_idle(s) - s[i].slots_idle + p.slots_idle,
        total_processing(s.update(i, p)) == total_processing(s) - s[i].slots_processing
            + p.slots_processing,
    decreases s.len(),
{
    let t = s.update(i, p);
    if i == s.len() - 1 {
        assert(t.drop_last() =~= s.drop_last());
    } else {
        lemma_totals_after_update(s.drop_last(), i, p);
        assert(t.drop_last() =~= s.drop_last().update(i, p));
    }
}

/// Requests taking and releasing slots never change how many slots the pool
/// has in total: the idle and processing slots of all peers together.
pub proof fn law_pool_total_slots_kept(s: Seq<UpstreamPeer>, id: Seq<char>, last_update: u64)
    requires
        peers_wf(s),
    ensures
        total_idle(take_slot_outcome(s, id).1) + total_processing(take_slot_outcome(s, id).1)
            == total_idle(s) + total_processing(s),
        total_idle(release_slot_outcome(s, id, last_update).1) + total_processing(
            release_slot_outcome(s, id, last_update).1,
        ) == total_idle(s) + total_processing(s),
{
    if has_agent(s, id) {
        let i = index_of_agent(s, id);
        assert(s[i].wf());
        lemma_totals_after_update(s, i, s[i].with_slot_taken());
        lemma_totals_after_update(s, i, s[i].with_slot_released());
    }
}

/// Taking or releasing a slot never changes how many slots a peer has in
/// total, nor any other peer.
pub proof fn law_slot_operations_keep_totals(
    s: Seq<UpstreamPeer>,
    id: Seq<char>,
    last_update: u64,
)
    requires
        peers_wf(s),
    ensures
        take_slot_outcome(s, id).1.len() == s.len(),
        release_slot_outcome(s, id, last_update).1.len() == s.len(),
        forall|k: int|
            0 <= k < s.len() ==> #[trigger] take_slot_outcome(s, id).1[k].slots_idle
                + take_slot_outcome(s, id).1[k].slots_processing == s[k].slots_idle
                + s[k].slots_processing,
        forall|k: int|
            0 <= k < s.len() ==> #[trigger] release_slot_outcome(s, id, last_update).1[k].slots_idle
                + release_slot_outcome(s, id, last_update).1[k].slots_processing == s[k].slots_idle
                + s[k].slots_processing,
{
    if has_agent(s, id) {
        let i = index_of_agent(s, id);
        assert(s[i].wf());
    }
}

/// In a pool in order of preference, the peer chosen for a request is usable
/// and at least as good a choice as every other usable peer.
pub proof fn law_best_peer_is_preferred(s: Seq<UpstreamPeer>, now: u64)
    requires
        is_sorted_by_preference(s),
        has_usable_peer(s, now),
    ensures
        best_peer(s, now) matches Some(p) && p.spec_is_usable(now) && forall|j: int|
            0 <= j < s.len() && #[trigger] s[j].spec_is_usable(now) ==> p.is_better_or_equal(&s[j]),
{
    let w = choose|i: int| 0 <= i < s.len() && #[trigger] s[i].spec_is_usable(now);
    assert(exists|k: int| is_first_usable(s, now, k)) by {
        lemma_first_usable_exists(s, now, w);
    }
    let k = choose|k: int| is_first_usable(s, now, k);
    assert forall|j: int| 0 <= j < s.len() && #[trigger] s[j].spec_is_usable(now) implies s[k].is_better_or_equal(&s[j]) by {
        if j > k {
            assert(s[k].is_better_or_equal(&s[j]));
        } else if j < k {
            assert(!s[j].spec_is_usable(now));
        }
    }
}

/// When some peer is usable, a first usable one exists.
proof fn lemma_first_usable_exists(s: Seq<UpstreamPeer>, now: u64, w: int)
    requires
        0 <= w < s.len(),
        s[w].spec_is_usable(now),
    ensures
        exists|k: int| is_first_usable(s, now, k),
    decreases w,
{
    if forall|j: int| 0 <= j < w ==> !(#[trigger] s[j].spec_is_usable(now)) {
        assert(is_first_usable(s, now, w));
    } else {
        let v = choose|j: int| 0 <= j < w && #[trigger] s[j].spec_is_usable(now);
        lemma_first_usable_exists(s, now, v);
    }
}

/// A peer quarantined until `until` is not chosen for requests before then.
pub proof fn law_quarantined_peer_not_chosen(
    s: Seq<UpstreamPeer>,
    id: Seq<char>,
    until: u64,
    now: u64,
)
    requires
        unique_agent_ids(s),
        has_agent(s, id),
        now < until,
    ensures
        ({
            let i = index_of_agent(s, id);
            let t = s.update(i, UpstreamPeer { quarantined_until: Some(until), ..s[i] });
            best_peer(t, now) matches Some(p) ==> p.agent_id@ != id
        }),
{
    let i = index_of_agent(s, id);
    let t = s.update(i, UpstreamPeer { quarantined_until: Some(until), ..s[i] });
    if has_usable_peer(t, now) {
        let w = choose|w: int| 0 <= w < t.len() && #[trigger] t[w].spec_is_usable(now);
        lemma_first_usable_exists(t, now, w);
        let k = choose|k: int| is_first_usable(t, now, k);
        if t[k].agent_id@ == id {
            if k != i {
                assert(t[k] == s[k]);
                assert(s[k].agent_id@ != s[i].agent_id@);
            }
            assert(!t[i].spec_is_usable(now));
        }
    }
}

impl UpstreamPeerPool {
    /// Distinct agent ids and slot counts that fit in a `usize`.
    pub open spec fn wf(&self) -> bool {
        &&& unique_agent_ids(self.agents@)
        &&& peers_wf(self.agents@)
    }

    pub fn new() -> (res: UpstreamPeerPool)
        ensures
            res.agents@ == Seq::<UpstreamPeer>::empty(),
            res.request_buffer_length == 0,
            res.wf(),
    {
        UpstreamPeerPool { agents: Vec::new(), request_buffer_length: 0 }
    }

    /// The position of the peer with the given agent id, if any.
    pub fn find_agent(&self, agent_id: &str) -> (res: Option<usize>)
        requires
            self.wf(),
        ensures
            res is None <==> !has_agent(self.agents@, agent_id@),
            res is Some ==> res->0 == index_of_agent(self.agents@, agent_id@) && has_agent(
                self.agents@,
                agent_id@,
            ),
    {
        let mut i: usize = 0;
        while i < self.agents.len()
            invariant
                self.wf(),
                i <= self.agents@.len(),
                forall|j: int| 0 <= j < i ==> #[trigger] self.agents@[j].agent_id@ != agent_id@,
            decreases self.agents@.len() - i,
        {
            if crate::text::str_equals(self.agents[i].agent_id.as_str(), agent_id) {
                assert(has_agent(self.agents@, agent_id@));
                let ghost k = index_of_agent(self.agents@, agent_id@);
                assert(self.agents@[k].agent_id@ == agent_id@);
                assert(k == i) by {
                    if k != i {
                        assert(self.agents@[k].agent_id@ != self.agents@[i as int].agent_id@);
                    }
                }
                return Some(i);
            }
            i = i + 1;
        }
        None
    }

    /// Records a status report of `agent_id` taken at time `now`, then puts the
    /// peers back in order of preference.
    pub fn register_status_update(&mut self, agent_id: &str, status: StatusUpdate, now: u64)
        requires
            old(self).wf(),
            status.slots_idle + status.slots_processing <= usize::MAX,
        ensures
            final(self).wf(),
            is_sorted_by_preference(final(self).agents@),
            exists|id: String|
                #![trigger peers_after_status_update(old(self).agents@, id, status, now)]
                id@ == agent_id@ && same_peers(
                    final(self).agents@,
                    peers_after_status_update(old(self).agents@, id, status, now),
                ),
            final(self).request_buffer_length == old(self).request_buffer_length,
    {
        let id = agent_id.to_owned();
        let ghost old_agents = self.agents@;
        match self.find_agent(agent_id) {
            Some(i) => {
                let mut peer = self.agents[i].clone();
                peer.update_status(status, now);
                self.agents.set(i, peer);
                proof {
                    let s = self.agents@;
                    assert forall|a: int, b: int|
                        0 <= a < s.len() && 0 <= b < s.len() && a != b implies #[trigger] s[a].agent_id@
                        != #[trigger] s[b].agent_id@ by {
                        assert(old_agents[a].agent_id@ != old_agents[b].agent_id@);
                    }
                    assert forall|a: int| 0 <= a < s.len() implies #[trigger] s[a].wf() by {
                        assert(old_agents[a].wf());
                    }
                }
            },
            None => {
                let peer = UpstreamPeer::new_from_status_update(id, status, now);
                self.agents.push(peer);
                proof {
                    let s = self.agents@;
                    assert forall|a: int, b: int|
                        0 <= a < s.len() && 0 <= b < s.len() && a != b implies #[trigger] s[a].agent_id@
                        != #[trigger] s[b].agent_id@ by {
                        if a < old_agents.len() && b < old_agents.len() {
                            assert(old_agents[a].agent_id@ != old_agents[b].agent_id@);
                        } else if a < old_agents.len() {
                            assert(old_agents[a].agent_id@ != agent_id@);
                        } else {
                            assert(old_agents[b].agent_id@ != agent_id@);
                        }
                    }
                    assert forall|a: int| 0 <= a < s.len() implies #[trigger] s[a].wf() by {
                        if a < old_agents.len() {
                            assert(old_agents[a].wf());
                        }
                    }
                }
            },
        }
        let ghost updated = self.agents@;
        assert(updated == peers_after_status_update(old_agents, id, status, now));
        self.restore_integrity();
    }

    /// Marks one processing slot of `agent_id` as taken by a request.
    pub fn take_slot(&mut self, agent_id: &str) -> (res: Result<(), PoolError>)
        requires
            old(self).wf(),
        ensures
            final(self).wf(),
            final(self).request_buffer_length == old(self).request_buffer_length,
            (res, final(self).agents@) == take_slot_outcome(old(self).agents@, agent_id@),
    {
        match self.find_agent(agent_id) {
            None => Err(PoolError::NoSuchPeer),
            Some(i) => {
                let ghost old_agents = self.agents@;
                let mut peer = self.agents[i].clone();
                assert(peer.wf());
                match peer.take_slot() {
                    Err(e) => Err(PoolError::Slot(e)),
                    Ok(()) => {
                        self.agents.set(i, peer);
                        proof {
                            lemma_update_keeps_wf(old_agents, i as int, peer);
                        }
                        Ok(())
                    },
                }
            },
        }
    }

    /// Gives back one slot of `agent_id` that a request held since the status
    /// report of time `last_update`. When the agent has reported since then,
    /// its report already counts the slot, and nothing changes.
    pub fn release_slot(&mut self, agent_id: &str, last_update: u64) -> (res: Result<(), PoolError>)
        requires
            old(self).wf(),
        ensures
            final(self).wf(),
            final(self).request_buffer_length == old(self).request_buffer_length,
            (res, final(self).agents@) == release_slot_outcome(
                old(self).agents@,
                agent_id@,
                last_update,
            ),
    {
        match self.find_agent(agent_id) {
            None => Err(PoolError::NoSuchPeer),
            Some(i) => {
                if self.agents[i].last_update > last_update {
                    return Ok(());
                }
                let ghost old_agents = self.agents@;
                let mut peer = self.agents[i].clone();
                assert(peer.wf());
                match peer.release_slot() {
                    Err(e) => Err(PoolError::Slot(e)),
                    Ok(()) => {
                        self.agents.set(i, peer);
                        proof {
                            lemma_update_keeps_wf(old_agents, i as int, peer);
                        }
                        Ok(())
                    },
                }
            },
        }
    }

    /// Keeps `agent_id` from receiving requests until time `until`; says
    /// whether such an agent is registered.
    pub fn quarantine_peer(&mut self, agent_id: &str, until: u64) -> (res: bool)
        requires
            old(self).wf(),
        ensures
            final(self).wf(),
            final(self).request_buffer_length == old(self).request_buffer_length,
            res == has_agent(old(self).agents@, agent_id@),
            !res ==> final(self).agents@ == old(self).agents@,
            res ==> ({
                let i = index_of_agent(old(self).agents@, agent_id@);
                final(self).agents@ == old(self).agents@.update(
                    i,
                    UpstreamPeer { quarantined_until: Some(until), ..old(self).agents@[i] },
                )
            }),
    {
        match self.find_agent(agent_id) {
            None => false,
            Some(i) => {
                let ghost old_agents = self.agents@;
                let mut peer = self.agents[i].clone();
                assert(peer.wf());
                peer.quarantined_until = Some(until);
                self.agents.set(i, peer);
                proof {
                    lemma_update_keeps_wf(old_agents, i as int, peer);
                }
                true
            },
        }
    }

    /// The first peer, in the pool's order, that may receive a request at `now`.
    pub fn use_best_peer(&self, now: u64) -> (res: Option<UpstreamPeer>)
        ensures
            res == best_peer(self.agents@, now),
    {
        let mut i: usize = 0;
        while i < self.agents.len()
            invariant
                i <= self.agents@.len(),
                forall|j: int| 0 <= j < i ==> !(#[trigger] self.agents@[j].spec_is_usable(now)),
            decreases self.agents@.len() - i,
        {
            if self.agents[i].is_usable(now) {
                let peer = self.agents[i].clone();
                assert(is_first_usable(self.agents@, now, i as int));
                proof {
                    let k = choose|k: int| is_first_usable(self.agents@, now, k);
                    assert(k == i) by {
                        if k < i {
                            assert(!self.agents@[k].spec_is_usable(now));
                        } else if k > i {
                            assert(!self.agents@[i as int].spec_is_usable(now));
                        }
                    }
                }
                return Some(peer);
            }
            i = i + 1;
        }
        None
    }

    /// Whether some registered agent serves `model`.
    pub fn has_peer_supporting_model(&self, model: &str) -> (res: bool)
        ensures
            res == exists|i: int|
                0 <= i < self.agents@.len() && serves_model(#[trigger] self.agents@[i], model@),
    {
        let mut i: usize = 0;
        while i < self.agents.len()
            invariant
                i <= self.agents@.len(),
                forall|j: int| 0 <= j < i ==> !serves_model(#[trigger] self.agents@[j], model@),
            decreases self.agents@.len() - i,
        {
            match &self.agents[i].model {
                Some(m) => {
                    if crate::text::str_equals(m.as_str(), model) {
                        return true;
                    }
                },
                None => {},
            }
            i = i + 1;
        }
        false
    }

    /// Removes the agent `agent_id`; says whether it was registered.
    pub fn remove_peer(&mut self, agent_id: &str) -> (res: bool)
        requires
            old(self).wf(),
        ensures
            final(self).wf(),
            final(self).request_buffer_length == old(self).request_buffer_length,
            res == has_agent(old(self).agents@, agent_id@),
            !res ==> final(self).agents@ == old(self).agents@,
            res ==> final(self).agents@ == old(self).agents@.remove(
                index_of_agent(old(self).agents@, agent_id@),
            ),
            !has_agent(final(self).agents@, agent_id@),
    {
        match self.find_agent(agent_id) {
            None => false,
            Some(i) => {
                let ghost old_agents = self.agents@;
                self.agents.remove(i);
                proof {
                    let t = self.agents@;
                    assert forall|a: int, b: int|
                        0 <= a < t.len() && 0 <= b < t.len() && a != b implies #[trigger] t[a].agent_id@
                        != #[trigger] t[b].agent_id@ by {
                        let a0 = if a < i { a } else { a + 1 };
                        let b0 = if b < i { b } else { b + 1 };
                        assert(t[a] == old_agents[a0]);
                        assert(t[b] == old_agents[b0]);
                        assert(old_agents[a0].agent_id@ != old_agents[b0].agent_id@);
                    }
                    assert forall|a: int| 0 <= a < t.len() implies #[trigger] t[a].wf() by {
                        let a0 = if a < i { a } else { a + 1 };
                        assert(t[a] == old_agents[a0]);
                        assert(old_agents[a0].wf());
                    }
                    assert forall|a: int| 0 <= a < t.len() implies #[trigger] t[a].agent_id@ != agent_id@ by {
                        let a0 = if a < i { a } else { a + 1 };
                        assert(t[a] == old_agents[a0]);
                        assert(old_agents[a0].agent_id@ != old_agents[i as int].agent_id@);
                    }
                }
                true
            },
        }
    }

    /// The idle and the processing slots of all peers together; `None` when
    /// a sum does not fit in a `usize`.
    pub fn total_slots(&self) -> (res: Option<(usize, usize)>)
        ensures
            res == if total_idle(self.agents@) <= usize::MAX && total_processing(self.agents@)
                <= usize::MAX {
                Some((total_idle(self.agents@) as usize, total_processing(self.agents@) as usize))
            } else {
                None::<(usize, usize)>
            },
    {
        let mut idle: u128 = 0;
        let mut processing: u128 = 0;
        let mut i: usize = 0;
        while i < self.agents.len()
            invariant
                i <= self.agents@.len(),
                idle == total_idle(self.agents@.take(i as int)),
                processing == total_processing(self.agents@.take(i as int)),
                idle <= i * usize::MAX,
                processing <= i * usize::MAX,
            decreases self.agents@.len() - i,
        {
            assert(self.agents@.take(i + 1).drop_last() =~= self.agents@.take(i as int));
            assert((i + 1) * usize::MAX == i * usize::MAX + usize::MAX) by (nonlinear_arith);
            assert(i * usize::MAX + usize::MAX <= usize::MAX * usize::MAX + usize::MAX) by (nonlinear_arith)
                requires i <= usize::MAX;
            idle = idle + self.agents[i].slots_idle as u128;
            processing = processing + self.agents[i].slots_processing as u128;
            i = i + 1;
        }
        assert(self.agents@.take(self.agents@.len() as int) =~= self.agents@);
        if idle > usize::MAX as u128 || processing > usize::MAX as u128 {
            None
        } else {
            Some((idle as usize, processing as usize))
        }
    }

    /// Puts the peers back in order of preference (most idle slots first,
    /// then fewest processing slots), keeping the same peers.
    pub fn restore_integrity(&mut self)
        requires
            old(self).wf(),
        ensures
            final(self).wf(),
            same_peers(final(self).agents@, old(self).agents@),
            is_sorted_by_preference(final(self).agents@),
            final(self).request_buffer_length == old(self).request_buffer_length,
    {
        let mut input: Vec<UpstreamPeer> = Vec::new();
        std::mem::swap(&mut input, &mut self.agents);
        let ghost unsorted = input@;
        let mut sorted: Vec<UpstreamPeer> = Vec::new();
        let mut k: usize = 0;
        while k < input.len()
            invariant
                input@ == unsorted,
                k <= unsorted.len(),
                sorted@.to_multiset() == unsorted.take(k as int).to_multiset(),
                is_sorted_by_preference(sorted@),
            decreases unsorted.len() - k,
        {
            let peer = input[k].clone();
            assert(unsorted.take(k + 1) =~= unsorted.take(k as int).push(peer));
            let mut pos: usize = sorted.len();
            while pos > 0 && !sorted[pos - 1].is_better_or_equal_to(&peer)
                invariant
                    pos <= sorted@.len(),
                    is_sorted_by_preference(sorted@),
                    forall|j: int| pos <= j < sorted@.len() ==> !#[trigger] sorted@[j].is_better_or_equal(&peer),
                decreases pos,
            {
                pos = pos - 1;
            }
            proof {
                let s = sorted@;
                let t = s.insert(pos as int, peer);
                assert forall|i: int, j: int| 0 <= i < j < t.len() implies #[trigger] t[i].is_better_or_equal(&#[trigger] t[j]) by {
                    if j < pos {
                        assert(t[i] == s[i] && t[j] == s[j]);
                    } else if j == pos {
                        assert(t[j] == peer);
                        assert(t[i] == s[i]);
                        assert(s[pos - 1].is_better_or_equal(&peer));
                        assert(s[i].is_better_or_equal(&s[pos - 1]) || i == pos - 1);
                    } else if i == pos {
                        assert(t[i] == peer);
                        assert(t[j] == s[j - 1]);
                        assert(!s[j - 1].is_better_or_equal(&peer));
                    } else if i < pos {
                        assert(t[i] == s[i]);
                        assert(t[j] == s[j - 1]);
                    } else {
                        assert(t[i] == s[i - 1]);
                        assert(t[j] == s[j - 1]);
                    }
                }
                vstd::seq_lib::to_multiset_insert(s, pos as int, peer);
            }
            sorted.insert(pos, peer);
            k = k + 1;
        }
        assert(unsorted.take(unsorted.len() as int) =~= unsorted);
        proof {
            lemma_same_peers_keeps_unique_ids(unsorted, sorted@);
        }
        self.agents = sorted;
    }
}

} // verus!
