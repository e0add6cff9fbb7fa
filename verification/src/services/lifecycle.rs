//! The lifecycle of the contracts as a state machine, and what holds of
//! every history of it.
//!
//! A state is the stored contracts together with the payments that are
//! pending and the contracts that are paid for good. An event is one call of
//! the contract service. The calls run one at a time: while a transfer is
//! under way, between `issue_payment` and `settle_payment`, other calls may
//! run, and each is an event of its own.

use super::contract_service::{
    payment_effect_of_issue, payment_failure, settle_effect, sign_effect,
};
use crate::repositories::contract_repository::Contracts;
use crate::repositories::types::contract::ContractView;
use crate::repositories::types::uuid::parse_uuid;
use vstd::prelude::*;

verus! {

/// What the service holds, and where its payments stand.
pub struct Lifecycle {
    /// The stored contracts.
    pub contracts: Contracts,
    /// The contracts with a payment that is issued and not yet settled.
    pub pending: Set<u128>,
    /// The contracts whose payment went through.
    pub paid: Set<u128>,
}

/// One call of the contract service.
pub enum Event {
    /// `create_contract` stored `contract` and returned `id`.
    Created { id: u128, contract: ContractView },
    /// `sign_contract` was called.
    Signed { contract_id: Seq<char>, caller: Seq<u8> },
    /// `issue_payment` was called.
    Issued { contract_id: Seq<char>, caller: Seq<u8> },
    /// `settle_payment` was called with the pending payment of `id`.
    Settled { id: u128, transferred: bool },
}

/// Whether the event can happen in the state: a contract is created under an
/// id that is not in use, unsigned and unpaid, and a payment is settled only
/// while it is pending. The other calls can always be made.
pub open spec fn possible(state: Lifecycle, event: Event) -> bool {
    match event {
        Event::Created { id, contract } => !state.contracts.contains_key(id)
            && !contract.buyer_signed && !contract.seller_signed && !contract.issued_payment,
        Event::Signed { .. } => true,
        Event::Issued { .. } => true,
        Event::Settled { id, .. } => state.pending.contains(id),
    }
}

/// The state after the event.
pub open spec fn after(state: Lifecycle, event: Event) -> Lifecycle {
    match event {
        Event::Created { id, contract } => Lifecycle {
            contracts: state.contracts.insert(id, contract),
            ..state
        },
        Event::Signed { contract_id, caller } => Lifecycle {
            contracts: sign_effect(state.contracts, contract_id, caller),
            ..state
        },
        Event::Issued { contract_id, caller } => Lifecycle {
            contracts: payment_effect_of_issue(state.contracts, contract_id, caller),
            pending: if payment_failure(state.contracts, contract_id, caller) is None {
                state.pending.insert(parse_uuid(contract_id)->0)
            } else {
                state.pending
            },
            ..state
        },
        Event::Settled { id, transferred } => Lifecycle {
            contracts: settle_effect(state.contracts, id, transferred),
            pending: state.pending.remove(id),
            paid: if transferred {
                state.paid.insert(id)
            } else {
                state.paid
            },
        },
    }
}

/// Whether the events can happen one after the other, from the state on.
pub open spec fn possible_history(state: Lifecycle, events: Seq<Event>) -> bool
    decreases events.len(),
{
    events.len() == 0 || (possible_history(state, events.drop_last()) && possible(
        after_history(state, events.drop_last()),
        events.last(),
    ))
}

/// The state after the events, one after the other.
pub open spec fn after_history(state: Lifecycle, events: Seq<Event>) -> Lifecycle
    decreases events.len(),
{
    if events.len() == 0 {
        state
    } else {
        after(after_history(state, events.drop_last()), events.last())
    }
}

/// What holds of the state at all times. A payment flag is set only in a
/// contract that both parties have signed, and exactly in the contracts
/// whose payment is pending or went through; no payment is both.
pub open spec fn consistent(state: Lifecycle) -> bool {
    &&& forall|id: u128| #[trigger]
        state.contracts.contains_key(id) && state.contracts[id].issued_payment
            ==> state.contracts[id].is_signed()
    &&& forall|id: u128| #[trigger]
        state.contracts.contains_key(id) ==> (state.contracts[id].issued_payment <==> (
            state.pending.contains(id) || state.paid.contains(id)))
    &&& forall|id: u128| #[trigger]
        state.pending.contains(id) ==> state.contracts.contains_key(id) && !state.paid.contains(id)
    &&& forall|id: u128| #[trigger] state.paid.contains(id) ==> state.contracts.contains_key(id)
}

/// The state of a service that starts with no contracts.
pub open spec fn empty_lifecycle() -> Lifecycle {
    Lifecycle { contracts: Map::empty(), pending: Set::empty(), paid: Set::empty() }
}

/// The service starts in a consistent state.
pub proof fn law_start_is_consistent()
    ensures
        consistent(empty_lifecycle()),
{
}

/// Every call keeps the state consistent. It keeps every contract that was
/// stored and every payment that went through, and never clears a
/// signature.
pub proof fn law_event_keeps_consistent(state: Lifecycle, event: Event)
    requires
        consistent(state),
        possible(state, event),
    ensures
        consistent(after(state, event)),
        state.contracts.dom().subset_of(after(state, event).contracts.dom()),
        state.paid.subset_of(after(state, event).paid),
        forall|id: u128| #[trigger]
            state.contracts.contains_key(id) && state.contracts[id].is_signed() ==> after(
                state,
                event,
            ).contracts[id].is_signed(),
{
}

/// The payment flag of a contract is set by a call only if both parties had
/// signed, and cleared only by the settlement of a transfer that failed.
pub proof fn law_payment_flag_changes(state: Lifecycle, event: Event, id: u128)
    requires
        consistent(state),
        possible(state, event),
        state.contracts.contains_key(id),
    ensures
        !state.contracts[id].issued_payment && after(state, event).contracts[id].issued_payment
            ==> state.contracts[id].is_signed() && event is Issued,
        state.contracts[id].issued_payment && !after(state, event).contracts[id].issued_payment
            ==> event == (Event::Settled { id, transferred: false }),
{
}

/// No call changes the terms of a stored contract: its parties, its text and
/// the time of its creation stay as they were written.
pub proof fn law_terms_are_kept(state: Lifecycle, event: Event, id: u128)
    requires
        possible(state, event),
        state.contracts.contains_key(id),
    ensures
        after(state, event).contracts.contains_key(id),
        after(state, event).contracts[id].buyer == state.contracts[id].buyer,
        after(state, event).contracts[id].seller == state.contracts[id].seller,
        after(state, event).contracts[id].contract_json == state.contracts[id].contract_json,
        after(state, event).contracts[id].created_at == state.contracts[id].created_at,
{
}

/// A signature flag is set only by a call of `sign_contract` for that
/// contract by the party whose flag it is.
pub proof fn law_flag_is_set_by_its_party(state: Lifecycle, event: Event, id: u128)
    requires
        possible(state, event),
        state.contracts.contains_key(id),
    ensures
        !state.contracts[id].buyer_signed && after(state, event).contracts[id].buyer_signed ==> {
            &&& event is Signed
            &&& parse_uuid(event->Signed_contract_id) == Some(id)
            &&& event->Signed_caller == state.contracts[id].buyer
        },
        !state.contracts[id].seller_signed && after(state, event).contracts[id].seller_signed
            ==> {
            &&& event is Signed
            &&& parse_uuid(event->Signed_contract_id) == Some(id)
            &&& event->Signed_caller == state.contracts[id].seller
        },
{
}

/// Every history keeps the state consistent, every stored contract stored
/// and every payment that went through.
pub proof fn law_history_keeps_consistent(state: Lifecycle, events: Seq<Event>)
    requires
        consistent(state),
        possible_history(state, events),
    ensures
        consistent(after_history(state, events)),
        state.contracts.dom().subset_of(after_history(state, events).contracts.dom()),
        state.paid.subset_of(after_history(state, events).paid),
    decreases events.len(),
{
    if events.len() > 0 {
        law_history_keeps_consistent(state, events.drop_last());
        law_event_keeps_consistent(after_history(state, events.drop_last()), events.last());
    }
}

/// The first `count` events of a possible history are a possible history.
proof fn lemma_history_prefix(state: Lifecycle, events: Seq<Event>, count: int)
    requires
        possible_history(state, events),
        0 <= count <= events.len(),
    ensures
        possible_history(state, events.take(count)),
        count < events.len() ==> possible(after_history(state, events.take(count)), events[count]),
    decreases events.len(),
{
    if count == events.len() {
        assert(events.take(count) =~= events);
    } else {
        lemma_history_prefix(state, events.drop_last(), count);
        assert(events.drop_last().take(count) =~= events.take(count));
        if count == events.len() - 1 {
            assert(events.take(count) =~= events.drop_last());
        }
    }
}

/// The events of a possible history from `from` on are a possible history
/// from the state that the events before them lead to, and lead where the
/// whole history leads.
proof fn lemma_history_suffix(state: Lifecycle, events: Seq<Event>, from: int)
    requires
        possible_history(state, events),
        0 <= from <= events.len(),
    ensures
        possible_history(after_history(state, events.take(from)), events.skip(from)),
        after_history(after_history(state, events.take(from)), events.skip(from))
            == after_history(state, events),
    decreases events.len(),
{
    if from == events.len() {
        assert(events.take(from) =~= events);
    } else {
        lemma_history_suffix(state, events.drop_last(), from);
        assert(events.drop_last().take(from) =~= events.take(from));
        assert(events.drop_last().skip(from) =~= events.skip(from).drop_last());
        assert(events.skip(from).last() == events.last());
    }
}

/// A contract is never created under an id that was in use, at the start or
/// for a contract created earlier: the ids of a history are all distinct.
pub proof fn law_created_ids_are_distinct(
    state: Lifecycle,
    events: Seq<Event>,
    earlier: int,
    later: int,
)
    requires
        consistent(state),
        possible_history(state, events),
        0 <= earlier < later < events.len(),
        events[later] is Created,
    ensures
        !state.contracts.contains_key(events[later]->Created_id),
        events[earlier] is Created ==> events[earlier]->Created_id != events[later]->Created_id,
{
    let id = events[later]->Created_id;
    lemma_history_prefix(state, events, later);
    let before = events.take(later);
    law_history_keeps_consistent(state, before);
    assert(!after_history(state, before).contracts.contains_key(id));
    if events[earlier] is Created {
        lemma_history_prefix(state, before, earlier);
        lemma_history_prefix(state, before, earlier + 1);
        assert(before.take(earlier + 1).drop_last() =~= before.take(earlier));
        assert(before.take(earlier + 1).last() == events[earlier]);
        let reached = after_history(state, before.take(earlier + 1));
        assert(reached.contracts.contains_key(events[earlier]->Created_id));
        lemma_history_suffix(state, before, earlier + 1);
        law_history_keeps_consistent(state, before.take(earlier + 1));
        law_history_keeps_consistent(reached, before.skip(earlier + 1));
    }
}

/// Once the payment of a contract went through, it stays marked as paid
/// through every history, and no request to issue it again succeeds: at
/// most one payout is made for a contract.
pub proof fn law_paid_for_good(
    state: Lifecycle,
    events: Seq<Event>,
    id: u128,
    contract_id: Seq<char>,
    caller: Seq<u8>,
)
    requires
        consistent(state),
        possible_history(state, events),
        state.paid.contains(id),
        parse_uuid(contract_id) == Some(id),
    ensures
        after_history(state, events).contracts.contains_key(id),
        after_history(state, events).contracts[id].issued_payment,
        !after_history(state, events).pending.contains(id),
        payment_failure(after_history(state, events).contracts, contract_id, caller) is Some,
{
    law_history_keeps_consistent(state, events);
    assert(after_history(state, events).paid.contains(id));
}

} // verus!
