//! What holds of the ledger whatever calls are made.

use vstd::prelude::*;
use crate::events::{AddRoomEvent, Notification, Receipt, Transfer};
use crate::identity::AccountId;
use crate::state::{is_vacant, reply, successor, vacated, Call, HotelState};
use crate::types::{Balance, HotelError, Room, RoomId};

verus! {

/// A hotel that has just been opened holds nothing, issues identifiers from
/// zero, and meets every invariant.
pub proof fn lemma_init_well_formed(land_lord: AccountId)
    ensures
        HotelState::init(land_lord).well_formed(),
        HotelState::init(land_lord).gap_free(),
        HotelState::init(land_lord).tenants_named(),
        HotelState::init(land_lord).has_identifiers_for(u128::MAX as nat),
        HotelState::init(land_lord).rooms() == Seq::<Room>::empty(),
{
}

/// A refused call leaves the ledger as it was: nothing is written and no
/// identifier is used up.
pub proof fn lemma_refused_call_changes_nothing(before: HotelState, call: Call)
    requires
        before.apply(call) is Err,
    ensures
        successor(before, before.apply(call)) == before,
{
}

/// Every call keeps the invariant of the ledger.
pub proof fn lemma_call_keeps_well_formed(before: HotelState, call: Call)
    requires
        before.well_formed(),
        before.has_identifiers_left_for(call),
    ensures
        successor(before, before.apply(call)).well_formed(),
{
}

/// No call takes anything away: the landlord stays, no room is deleted or
/// changes its premises, no agreement and no rent is deleted or rewritten,
/// and no counter goes down or rises by more than one.
pub proof fn lemma_call_keeps_records(before: HotelState, call: Call)
    requires
        before.well_formed(),
        before.has_identifiers_left_for(call),
    ensures
        before.kept_by(successor(before, before.apply(call))),
        successor(before, before.apply(call)).room_id <= before.room_id + 1,
        successor(before, before.apply(call)).agreement_id <= before.agreement_id + 1,
        successor(before, before.apply(call)).rent_id <= before.rent_id + 1,
{
}

/// No call leaves a gap among the room identifiers.
pub proof fn lemma_call_keeps_gap_free(before: HotelState, call: Call)
    requires
        before.gap_free(),
        before.has_identifiers_left_for(call),
    ensures
        successor(before, before.apply(call)).gap_free(),
{
}

/// A room stays vacant exactly when its tenant is the null identity, whatever
/// call is made and whoever makes it, with one exception: `sign_agreement`
/// by the null identity, which is not refused and leaves the room occupied
/// with the null identity for a tenant.
pub proof fn lemma_call_keeps_tenants_named(before: HotelState, call: Call)
    requires
        before.tenants_named(),
        call is SignAgreement ==> call.caller() != AccountId::null(),
    ensures
        successor(before, before.apply(call)).tenants_named(),
{
}

/// Only `sign_agreement` fills a vacant room, only `agreement_completed` and
/// `agreement_terminated` empty an occupied one, and every other call,
/// `pay_rent` among them, leaves every room as it was, whoever makes it.
pub proof fn lemma_vacancy_changes(before: HotelState, call: Call, id: RoomId)
    requires
        before.well_formed(),
        before.room.contains_key(id),
    ensures
        ({
            let was = before.room[id];
            let after = successor(before, before.apply(call));
            &&& after.room.contains_key(id)
            &&& was.vacant && !after.room[id].vacant ==> {
                &&& call is SignAgreement
                &&& call.room() == Some(id)
                &&& after.room[id].current_tenant == call.caller()
            }
            &&& !was.vacant && after.room[id].vacant ==> {
                &&& call is AgreementCompleted || call is AgreementTerminated
                &&& call.room() == Some(id)
                &&& call.caller() == before.land_lord
                &&& after.room[id] == vacated(was)
            }
            &&& was.vacant == after.room[id].vacant ==> after.room[id] == was
            &&& call.room() != Some(id) ==> after.room[id] == was
            &&& call is PayRent ==> after.room == before.room
        }),
{
}

/// No call changes the landlord or lowers a counter, and a call raises a
/// counter by one at most.
pub proof fn lemma_call_raises_counters(before: HotelState, call: Call)
    requires
        before.has_identifiers_left_for(call),
    ensures
        ({
            let after = successor(before, before.apply(call));
            &&& after.land_lord == before.land_lord
            &&& before.room_id <= after.room_id <= before.room_id + 1
            &&& before.agreement_id <= after.agreement_id <= before.agreement_id + 1
            &&& before.rent_id <= after.rent_id <= before.rent_id + 1
            &&& after.room_id == before.room_id + 1 <==> call is AddRoom && before.apply(call) is Ok
        }),
{
}

/// Whatever calls are made, one after the other, the landlord stays and each
/// counter rises by one at most for each call.
pub proof fn lemma_run_raises_counters(start: HotelState, calls: Seq<Call>)
    requires
        start.has_identifiers_for(calls.len()),
    ensures
        start.run(calls).land_lord == start.land_lord,
        start.room_id <= start.run(calls).room_id <= start.room_id + calls.len(),
        start.agreement_id <= start.run(calls).agreement_id <= start.agreement_id + calls.len(),
        start.rent_id <= start.run(calls).rent_id <= start.rent_id + calls.len(),
        start.replies(calls).len() == calls.len(),
    decreases calls.len(),
{
    if calls.len() > 0 {
        lemma_run_raises_counters(start, calls.drop_last());
        lemma_call_raises_counters(start.run(calls.drop_last()), calls.last());
    }
}

/// Whatever calls are made on a well-formed ledger, one after the other, the
/// ledger stays well formed and keeps all it held; and if it had no gap among
/// its room identifiers, it has none afterwards.
pub proof fn lemma_run_keeps_well_formed(start: HotelState, calls: Seq<Call>)
    requires
        start.well_formed(),
        start.has_identifiers_for(calls.len()),
    ensures
        start.run(calls).well_formed(),
        start.kept_by(start.run(calls)),
        start.gap_free() ==> start.run(calls).gap_free(),
    decreases calls.len(),
{
    if calls.len() > 0 {
        let earlier = calls.drop_last();
        lemma_run_keeps_well_formed(start, earlier);
        lemma_run_raises_counters(start, earlier);
        let before = start.run(earlier);
        lemma_call_keeps_well_formed(before, calls.last());
        lemma_call_keeps_records(before, calls.last());
        if start.gap_free() {
            lemma_call_keeps_gap_free(before, calls.last());
        }
    }
}

/// Every ledger reached from a hotel that has just been opened is well
/// formed and has no gap among its room identifiers.
pub proof fn lemma_reachable_well_formed(land_lord: AccountId, calls: Seq<Call>)
    requires
        calls.len() <= u128::MAX,
    ensures
        HotelState::init(land_lord).run(calls).well_formed(),
        HotelState::init(land_lord).run(calls).gap_free(),
{
    lemma_init_well_formed(land_lord);
    lemma_run_keeps_well_formed(HotelState::init(land_lord), calls);
}

/// In every ledger reached from a hotel that has just been opened, a room is
/// vacant exactly when its tenant is the null identity, as long as the null
/// identity signs no agreement.
pub proof fn lemma_reachable_tenants_named(land_lord: AccountId, calls: Seq<Call>)
    requires
        forall|i: int|
            0 <= i < calls.len() && (#[trigger] calls[i]) is SignAgreement ==> calls[i].caller()
                != AccountId::null(),
    ensures
        HotelState::init(land_lord).run(calls).tenants_named(),
    decreases calls.len(),
{
    lemma_init_well_formed(land_lord);
    if calls.len() > 0 {
        let earlier = calls.drop_last();
        assert forall|i: int| 0 <= i < earlier.len() && (#[trigger] earlier[i]) is SignAgreement
            implies earlier[i].caller() != AccountId::null() by {
            assert(earlier[i] == calls[i]);
        }
        lemma_reachable_tenants_named(land_lord, earlier);
        assert(calls.last() == calls[calls.len() - 1]);
        lemma_call_keeps_tenants_named(HotelState::init(land_lord).run(earlier), calls.last());
    }
}

/// What `add_room` by the landlord answers when the room counter stands at
/// `room_id`.
pub open spec fn room_added(room_id: int, land_lord: AccountId) -> Result<Receipt, HotelError> {
    Ok(
        Receipt {
            transfer: None,
            notification: Notification::AddRoom(
                AddRoomEvent { room_id: room_id as RoomId, owner: land_lord },
            ),
        },
    )
}

/// When the landlord adds rooms one after the other, each one gets the
/// identifier that follows that of the one before: the `i`-th room gets the
/// room counter the ledger started with plus `i`, and is stored under it as
/// a vacant room.
pub proof fn lemma_room_ids_count_up(start: HotelState, calls: Seq<Call>)
    requires
        forall|i: int|
            0 <= i < calls.len() ==> (#[trigger] calls[i]) is AddRoom && calls[i].caller()
                == start.land_lord,
        start.room_id + calls.len() <= u128::MAX,
        start.agreement_id + calls.len() <= u128::MAX,
    ensures
        start.run(calls).land_lord == start.land_lord,
        start.run(calls).room_id == start.room_id + calls.len(),
        start.run(calls).agreement_id == start.agreement_id + calls.len(),
        start.replies(calls).len() == calls.len(),
        forall|i: int|
            0 <= i < calls.len() ==> #[trigger] start.replies(calls)[i] == room_added(
                start.room_id + i,
                start.land_lord,
            ),
        forall|i: int|
            0 <= i < calls.len() ==> #[trigger] start.run(calls).room.contains_key(
                (start.room_id + i) as RoomId,
            ) && start.run(calls).room[(start.room_id + i) as RoomId].room_id == start.room_id + i
                && start.run(calls).room[(start.room_id + i) as RoomId].vacant,
    decreases calls.len(),
{
    if calls.len() > 0 {
        let earlier = calls.drop_last();
        assert forall|i: int| 0 <= i < earlier.len() implies (#[trigger] earlier[i]) is AddRoom
            && earlier[i].caller() == start.land_lord by {
            assert(earlier[i] == calls[i]);
        }
        lemma_room_ids_count_up(start, earlier);
        let before = start.run(earlier);
        let last = calls.last();
        assert(last == calls[calls.len() - 1]);
        assert(last is AddRoom && last.caller() == start.land_lord);
        let after = start.run(calls);
        assert forall|i: int| 0 <= i < calls.len() implies #[trigger] start.replies(calls)[i]
            == room_added(start.room_id + i, start.land_lord) by {
            if i < earlier.len() {
                assert(start.replies(calls)[i] == start.replies(earlier)[i]);
            }
        }
        assert forall|i: int| 0 <= i < calls.len() implies #[trigger] after.room.contains_key(
            (start.room_id + i) as RoomId,
        ) && after.room[(start.room_id + i) as RoomId].room_id == start.room_id + i
            && after.room[(start.room_id + i) as RoomId].vacant by {
            if i < earlier.len() {
                assert(before.room.contains_key((start.room_id + i) as RoomId));
            }
        }
    }
}

/// In a hotel that has just been opened, the `i`-th room the landlord adds
/// gets the identifier `i`.
pub proof fn lemma_room_ids_start_at_zero(land_lord: AccountId, calls: Seq<Call>)
    requires
        forall|i: int|
            0 <= i < calls.len() ==> (#[trigger] calls[i]) is AddRoom && calls[i].caller()
                == land_lord,
        calls.len() <= u128::MAX,
    ensures
        forall|i: int|
            0 <= i < calls.len() ==> #[trigger] HotelState::init(land_lord).replies(calls)[i]
                == room_added(i, land_lord),
{
    lemma_room_ids_count_up(HotelState::init(land_lord), calls);
}

/// Whether `answer` is the answer to an `add_room` that went through.
pub open spec fn adds_room(answer: Result<Receipt, HotelError>) -> bool {
    answer is Ok && answer->Ok_0.notification is AddRoom
}

/// Whatever calls are made, one after the other, no room identifier is given
/// out twice: of two rooms that were added, the later one has the greater
/// identifier, and every identifier given out lies between the room counter
/// before the calls and the room counter after them.
pub proof fn lemma_room_ids_never_repeat(start: HotelState, calls: Seq<Call>)
    requires
        start.has_identifiers_for(calls.len()),
    ensures
        forall|i: int|
            0 <= i < calls.len() && adds_room(#[trigger] start.replies(calls)[i]) ==> start.room_id
                <= start.replies(calls)[i]->Ok_0.notification.subject() < start.run(
                calls,
            ).room_id,
        forall|i: int, j: int|
            0 <= i < j < calls.len() && adds_room(#[trigger] start.replies(calls)[i])
                && adds_room(#[trigger] start.replies(calls)[j]) ==> start.replies(
                calls,
            )[i]->Ok_0.notification.subject() < start.replies(
                calls,
            )[j]->Ok_0.notification.subject(),
    decreases calls.len(),
{
    if calls.len() > 0 {
        let earlier = calls.drop_last();
        lemma_room_ids_never_repeat(start, earlier);
        lemma_run_raises_counters(start, earlier);
        let before = start.run(earlier);
        lemma_call_raises_counters(before, calls.last());
        assert forall|i: int| 0 <= i < earlier.len() implies #[trigger] start.replies(calls)[i]
            == start.replies(earlier)[i] by {}
    }
}

/// `sign_agreement` on a room that does not exist is refused with
/// `RoomNotFound` and changes nothing. The landlord is left out as a caller:
/// the guard refuses the landlord before the room is looked up.
pub proof fn lemma_sign_agreement_unknown_room(
    before: HotelState,
    caller: AccountId,
    value: Balance,
    room_id: RoomId,
)
    requires
        caller != before.land_lord,
        !before.room.contains_key(room_id),
    ensures
        reply(before.sign_agreement(caller, value, room_id)) == Err::<Receipt, HotelError>(
            HotelError::RoomNotFound,
        ),
        successor(before, before.sign_agreement(caller, value, room_id)) == before,
{
}

/// `sign_agreement` with less than rent plus deposit is refused with
/// `NotEnoughAgreementFee` and changes nothing, whether the room is vacant or
/// not.
pub proof fn lemma_sign_agreement_insufficient_value(
    before: HotelState,
    caller: AccountId,
    value: Balance,
    room_id: RoomId,
)
    requires
        caller != before.land_lord,
        before.room.contains_key(room_id),
        value < before.room[room_id].rent_per_month + before.room[room_id].security_deposit,
    ensures
        reply(before.sign_agreement(caller, value, room_id)) == Err::<Receipt, HotelError>(
            HotelError::NotEnoughAgreementFee,
        ),
        successor(before, before.sign_agreement(caller, value, room_id)) == before,
{
}

/// `sign_agreement` succeeds exactly when the caller is not the landlord, the
/// room exists and is vacant, and the value covers rent and deposit.
pub proof fn lemma_sign_agreement_succeeds_iff(
    before: HotelState,
    caller: AccountId,
    value: Balance,
    room_id: RoomId,
)
    ensures
        before.sign_agreement(caller, value, room_id) is Ok <==> caller != before.land_lord
            && before.room.contains_key(room_id) && before.room[room_id].vacant && value
            >= before.room[room_id].rent_per_month + before.room[room_id].security_deposit,
{
}

/// After a successful `sign_agreement` the room is occupied by the signer and
/// is among the rooms the landlord is shown; one agreement and one rent have
/// been written that were not there before, both about that room, the rent
/// in the name of the signer; and rent plus deposit are due to the landlord.
pub proof fn lemma_sign_agreement_effect(
    before: HotelState,
    caller: AccountId,
    value: Balance,
    room_id: RoomId,
)
    requires
        before.well_formed(),
        before.sign_agreement(caller, value, room_id) is Ok,
    ensures
        ({
            let step = before.sign_agreement(caller, value, room_id)->Ok_0;
            let after = step.state;
            &&& after.room.contains_key(room_id)
            &&& !after.room[room_id].vacant
            &&& after.room[room_id].current_tenant == caller
            &&& after.room[room_id].agreement_id == before.agreement_id
            &&& after.get_room(before.land_lord) is Ok
            &&& after.rooms().contains(after.room[room_id])
            &&& !before.agreement.contains_key(before.agreement_id)
            &&& after.agreement.contains_key(before.agreement_id)
            &&& after.agreement[before.agreement_id].room_id == room_id
            &&& after.agreement[before.agreement_id].agreement_id == before.agreement_id
            &&& !before.rent.contains_key(before.rent_id)
            &&& after.rent.contains_key(before.rent_id)
            &&& after.rent[before.rent_id].room_id == room_id
            &&& after.rent[before.rent_id].rent_id == before.rent_id
            &&& after.rent[before.rent_id].tenant_address == caller
            &&& step.receipt.transfer == Some(
                Transfer {
                    to: before.land_lord,
                    value: (before.room[room_id].rent_per_month
                        + before.room[room_id].security_deposit) as Balance,
                },
            )
        }),
{
    let after = before.sign_agreement(caller, value, room_id)->Ok_0.state;
    lemma_rooms_below_holds(after, after.room_id as nat, room_id);
}

/// `pay_rent` on a room by anybody but its current tenant is refused with
/// `NotATenantAddress` and changes nothing. For a room that does not exist
/// the answer is `RoomNotFound`.
pub proof fn lemma_pay_rent_by_stranger(
    before: HotelState,
    caller: AccountId,
    value: Balance,
    room_id: RoomId,
)
    requires
        before.room.contains_key(room_id),
        caller != before.room[room_id].current_tenant,
    ensures
        reply(before.pay_rent(caller, value, room_id)) == Err::<Receipt, HotelError>(
            HotelError::NotATenantAddress,
        ),
        successor(before, before.pay_rent(caller, value, room_id)) == before,
{
}

/// `pay_rent` on a vacant room is refused with `NotATenantAddress` and
/// changes nothing, whoever calls.
pub proof fn lemma_pay_rent_on_vacant_room(
    before: HotelState,
    caller: AccountId,
    value: Balance,
    room_id: RoomId,
)
    requires
        before.room.contains_key(room_id),
        before.room[room_id].vacant,
    ensures
        reply(before.pay_rent(caller, value, room_id)) == Err::<Receipt, HotelError>(
            HotelError::NotATenantAddress,
        ),
        successor(before, before.pay_rent(caller, value, room_id)) == before,
{
}

/// `pay_rent` succeeds exactly when the room exists, is occupied by the
/// caller, and the value covers the rent.
pub proof fn lemma_pay_rent_succeeds_iff(
    before: HotelState,
    caller: AccountId,
    value: Balance,
    room_id: RoomId,
)
    ensures
        before.pay_rent(caller, value, room_id) is Ok <==> before.room.contains_key(room_id)
            && !before.room[room_id].vacant && before.room[room_id].current_tenant == caller
            && value >= before.room[room_id].rent_per_month,
{
}

/// `pay_rent` that goes through changes no room and no agreement, whoever
/// pays; it writes one rent that was not there before, about that room and in
/// the name of the caller, and the rent is due to the landlord.
pub proof fn lemma_pay_rent_effect(
    before: HotelState,
    caller: AccountId,
    value: Balance,
    room_id: RoomId,
)
    requires
        before.well_formed(),
        before.pay_rent(caller, value, room_id) is Ok,
    ensures
        ({
            let step = before.pay_rent(caller, value, room_id)->Ok_0;
            let after = step.state;
            &&& after.room == before.room
            &&& after.agreement == before.agreement
            &&& !before.rent.contains_key(before.rent_id)
            &&& after.rent.contains_key(before.rent_id)
            &&& after.rent[before.rent_id].room_id == room_id
            &&& after.rent[before.rent_id].tenant_address == caller
            &&& before.tenants_named() ==> after.tenants_named()
            &&& step.receipt.transfer == Some(
                Transfer { to: before.land_lord, value: before.room[room_id].rent_per_month },
            )
        }),
{
}

/// `agreement_completed` by the landlord on a vacant room is refused with
/// `RoomIsVacant` and changes nothing; on an occupied room it makes the room
/// vacant, puts the null identity in the tenant's place, leaves everything
/// else as it was, and the deposit is due to the tenant who was there.
pub proof fn lemma_agreement_completed_effect(before: HotelState, room_id: RoomId)
    requires
        before.room.contains_key(room_id),
    ensures
        before.room[room_id].vacant ==> reply(
            before.agreement_completed(before.land_lord, room_id),
        ) == Err::<Receipt, HotelError>(HotelError::RoomIsVacant) && successor(
            before,
            before.agreement_completed(before.land_lord, room_id),
        ) == before,
        !before.room[room_id].vacant ==> ({
            let outcome = before.agreement_completed(before.land_lord, room_id);
            &&& outcome is Ok
            &&& outcome->Ok_0.state.room[room_id].vacant
            &&& outcome->Ok_0.state.room[room_id].current_tenant == AccountId::null()
            &&& outcome->Ok_0.state.room[room_id] == vacated(before.room[room_id])
            &&& outcome->Ok_0.state.room == before.room.insert(
                room_id,
                vacated(before.room[room_id]),
            )
            &&& outcome->Ok_0.state.agreement == before.agreement
            &&& outcome->Ok_0.state.rent == before.rent
            &&& outcome->Ok_0.receipt.transfer == Some(
                Transfer {
                    to: before.room[room_id].current_tenant,
                    value: before.room[room_id].security_deposit,
                },
            )
        }),
{
}

/// `agreement_terminated` does to the ledger what `agreement_completed`
/// does, and is refused when it is; but nothing is paid.
pub proof fn lemma_agreement_terminated_effect(
    before: HotelState,
    caller: AccountId,
    room_id: RoomId,
)
    ensures
        successor(before, before.agreement_terminated(caller, room_id)) == successor(
            before,
            before.agreement_completed(caller, room_id),
        ),
        before.agreement_terminated(caller, room_id) is Err ==> before.agreement_terminated(
            caller,
            room_id,
        )->Err_0 == before.agreement_completed(caller, room_id)->Err_0,
        before.agreement_terminated(caller, room_id) is Ok <==> before.agreement_completed(
            caller,
            room_id,
        ) is Ok,
        before.agreement_terminated(caller, room_id) is Ok ==> before.agreement_terminated(
            caller,
            room_id,
        )->Ok_0.receipt.transfer is None,
{
}

/// Each of the two operations of the landlord on a tenancy is refused with
/// `CallerIsNotOwner` for anybody else, as is `add_room`, before anything
/// else is looked at.
pub proof fn lemma_owner_guard(before: HotelState, call: Call)
    requires
        call is AddRoom || call is AgreementCompleted || call is AgreementTerminated,
        call.caller() != before.land_lord,
    ensures
        reply(before.apply(call)) == Err::<Receipt, HotelError>(HotelError::CallerIsNotOwner),
{
}

/// A room is listed below `bound` if it is stored under an identifier below
/// `bound`.
pub proof fn lemma_rooms_below_holds(state: HotelState, bound: nat, id: RoomId)
    requires
        state.room.contains_key(id),
        id < bound <= u128::MAX,
    ensures
        state.rooms_below(bound).contains(state.room[id]),
    decreases bound,
{
    let before = (bound - 1) as nat;
    if id == before {
        let listed = state.rooms_below(before).push(state.room[id]);
        assert(listed[listed.len() - 1] == state.room[id]);
    } else {
        lemma_rooms_below_holds(state, before, id);
        let earlier = state.rooms_below(before);
        let i = choose|i: int| 0 <= i < earlier.len() && earlier[i] == state.room[id];
        assert(state.rooms_below(bound)[i] == state.room[id]);
    }
}

/// In a well-formed ledger the rooms listed below `bound` are stored rooms
/// with identifiers below `bound`, listed by strictly ascending identifier.
pub proof fn lemma_rooms_below_ascending(state: HotelState, bound: nat)
    requires
        state.well_formed(),
        bound <= u128::MAX,
    ensures
        forall|i: int|
            0 <= i < state.rooms_below(bound).len() ==> {
                let room = #[trigger] state.rooms_below(bound)[i];
                &&& room.room_id < bound
                &&& state.room.contains_key(room.room_id)
                &&& state.room[room.room_id] == room
            },
        forall|i: int, j: int|
            0 <= i < j < state.rooms_below(bound).len() ==> (#[trigger] state.rooms_below(
                bound,
            )[i]).room_id < (#[trigger] state.rooms_below(bound)[j]).room_id,
        state.rooms_below(bound).len() <= bound,
    decreases bound,
{
    if bound > 0 {
        lemma_rooms_below_ascending(state, (bound - 1) as nat);
    }
}

/// What `get_room` shows the landlord of a well-formed ledger: every stored
/// room once, by strictly ascending identifier, and nothing else.
pub proof fn lemma_rooms_listing(state: HotelState)
    requires
        state.well_formed(),
    ensures
        state.get_room(state.land_lord) == Ok::<Seq<Room>, HotelError>(
            state.rooms(),
        ),
        forall|i: int|
            0 <= i < state.rooms().len() ==> {
                let room = #[trigger] state.rooms()[i];
                &&& state.room.contains_key(room.room_id)
                &&& state.room[room.room_id] == room
            },
        forall|i: int, j: int|
            0 <= i < j < state.rooms().len() ==> (#[trigger] state.rooms()[i]).room_id
                < (#[trigger] state.rooms()[j]).room_id,
        forall|id: RoomId| #[trigger]
            state.room.contains_key(id) ==> state.rooms().contains(state.room[id]),
{
    lemma_rooms_below_ascending(state, state.room_id as nat);
    assert forall|id: RoomId| #[trigger] state.room.contains_key(id) implies state.rooms().contains(
        state.room[id],
    ) by {
        lemma_rooms_below_holds(state, state.room_id as nat, id);
    }
}

/// In a ledger without gaps among its room identifiers, listing the rooms
/// below `bound` gives `bound` rooms, and the room at position `i` is the
/// one stored under `i`. With the room counter for `bound` this is what
/// `get_room` shows the landlord.
pub proof fn lemma_rooms_listing_gap_free(state: HotelState, bound: nat)
    requires
        state.gap_free(),
        bound <= state.room_id,
    ensures
        state.rooms_below(bound).len() == bound,
        forall|i: int|
            0 <= i < bound ==> #[trigger] state.rooms_below(bound)[i] == state.room[i as RoomId],
    decreases bound,
{
    if bound > 0 {
        lemma_rooms_listing_gap_free(state, (bound - 1) as nat);
        assert(state.room.contains_key((bound - 1) as RoomId));
    }
}

/// `get_available_room` never shows a room that has a tenant; what it shows
/// are rooms that `get_room` shows, and it leaves out no vacant one.
pub proof fn lemma_available_rooms_are_vacant(state: HotelState)
    ensures
        forall|i: int|
            0 <= i < state.available_rooms().len() ==> {
                &&& (#[trigger] state.available_rooms()[i]).vacant
                &&& state.rooms().contains(state.available_rooms()[i])
            },
        forall|i: int|
            0 <= i < state.rooms().len() && (#[trigger] state.rooms()[i]).vacant
                ==> state.available_rooms().contains(state.rooms()[i]),
        state.available_rooms().len() <= state.rooms().len(),
{
    let all = state.rooms();
    let free = state.available_rooms();
    assert forall|i: int| 0 <= i < free.len() implies (#[trigger] free[i]).vacant && all.contains(
        free[i],
    ) by {
        all.lemma_filter_pred(is_vacant(), i);
        assert(free.contains(free[i]));
        all.lemma_filter_contains_rev(is_vacant(), free[i]);
    }
    assert forall|i: int| 0 <= i < all.len() && (#[trigger] all[i]).vacant implies free.contains(
        all[i],
    ) by {
        all.lemma_filter_contains(is_vacant(), i);
    }
    all.lemma_filter_len(is_vacant());
}

} // verus!
