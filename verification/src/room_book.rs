//! The operations of the hotel.

use vstd::prelude::*;
use crate::events::{
    AddRoomEvent, AgreementCompletedEvent, AgreementTerminatedEvent, Notification, Receipt,
    RentPaymentEvent, SignAgreementEvent, Transfer,
};
use crate::guard::{is_normal_user, only_owner};
use crate::hotel::Hotel;
use crate::identity::AccountId;
use crate::laws::{lemma_call_keeps_tenants_named, lemma_call_keeps_well_formed};
use crate::state::{is_vacant, reply, successor, Call, HotelState, Step};
use crate::types::{
    AgreementId, Balance, HotelError, Rent, RentId, Room, RoomAgreement, RoomId, Timestamp,
    LOCK_IN_PERIOD,
};

verus! {

/// A listing of rooms as a sequence.
pub open spec fn listed(res: Result<Vec<Room>, HotelError>) -> Result<Seq<Room>, HotelError> {
    match res {
        Ok(rooms) => Ok(rooms@),
        Err(e) => Err(e),
    }
}

/// The booking operations. Each one says, over the ledger before the call,
/// what it returns and what ledger it leaves behind; a refused operation
/// leaves the ledger untouched. An operation that issues identifiers asks
/// that they are left, but only of a call that goes through: a call that is
/// refused may be made on any ledger.
pub trait RoomBook: View<V = HotelState> {
    /// The landlord registers a room. It gets the next room identifier and
    /// starts out vacant.
    fn add_room(
        &mut self,
        caller: AccountId,
        room_name: String,
        room_address: String,
        rent_per_month: Balance,
        security_deposit: Balance,
        time_stamp: Timestamp,
    ) -> (res: Result<Receipt, HotelError>)
        requires
            old(self)@.add_room(
                caller,
                room_name,
                room_address,
                rent_per_month,
                security_deposit,
                time_stamp,
            ) is Ok ==> old(self)@.room_id < u128::MAX && old(self)@.agreement_id < u128::MAX,
        ensures
            res == reply(
                old(self)@.add_room(
                    caller,
                    room_name,
                    room_address,
                    rent_per_month,
                    security_deposit,
                    time_stamp,
                ),
            ),
            final(self)@ == successor(
                old(self)@,
                old(self)@.add_room(
                    caller,
                    room_name,
                    room_address,
                    rent_per_month,
                    security_deposit,
                    time_stamp,
                ),
            ),
            old(self)@.well_formed() ==> final(self)@.well_formed(),
            old(self)@.tenants_named() ==> final(self)@.tenants_named(),
    ;

    /// Somebody other than the landlord moves into a vacant room, offering
    /// `value`, which must cover rent and deposit. No failure is foreseen for
    /// the null identity as a signer: it is the one caller after whose call
    /// an occupied room may have the null identity for a tenant.
    fn sign_agreement(
        &mut self,
        caller: AccountId,
        value: Balance,
        room_id: RoomId,
    ) -> (res: Result<Receipt, HotelError>)
        requires
            old(self)@.sign_agreement(caller, value, room_id) is Ok ==> old(self)@.agreement_id
                < u128::MAX && old(self)@.rent_id < u128::MAX,
        ensures
            res == reply(old(self)@.sign_agreement(caller, value, room_id)),
            final(self)@ == successor(
                old(self)@,
                old(self)@.sign_agreement(caller, value, room_id),
            ),
            old(self)@.well_formed() ==> final(self)@.well_formed(),
            old(self)@.tenants_named() && caller != AccountId::null()
                ==> final(self)@.tenants_named(),
    ;

    /// The tenant of an occupied room pays a month's rent, offering `value`,
    /// which must cover the rent. Nobody can pay the rent of a vacant room.
    fn pay_rent(
        &mut self,
        caller: AccountId,
        value: Balance,
        room_id: RoomId,
    ) -> (res: Result<Receipt, HotelError>)
        requires
            old(self)@.pay_rent(caller, value, room_id) is Ok ==> old(self)@.agreement_id
                < u128::MAX && old(self)@.rent_id < u128::MAX,
        ensures
            res == reply(old(self)@.pay_rent(caller, value, room_id)),
            final(self)@ == successor(old(self)@, old(self)@.pay_rent(caller, value, room_id)),
            old(self)@.well_formed() ==> final(self)@.well_formed(),
            old(self)@.tenants_named() ==> final(self)@.tenants_named(),
    ;

    /// The landlord ends the tenancy of a room and returns the deposit to the
    /// tenant.
    fn agreement_completed(&mut self, caller: AccountId, room_id: RoomId) -> (res: Result<
        Receipt,
        HotelError,
    >)
        ensures
            res == reply(old(self)@.agreement_completed(caller, room_id)),
            final(self)@ == successor(
                old(self)@,
                old(self)@.agreement_completed(caller, room_id),
            ),
            old(self)@.well_formed() ==> final(self)@.well_formed(),
            old(self)@.tenants_named() ==> final(self)@.tenants_named(),
    ;

    /// The landlord ends the tenancy of a room early; the deposit is not
    /// returned.
    fn agreement_terminated(&mut self, caller: AccountId, room_id: RoomId) -> (res: Result<
        Receipt,
        HotelError,
    >)
        ensures
            res == reply(old(self)@.agreement_terminated(caller, room_id)),
            final(self)@ == successor(
                old(self)@,
                old(self)@.agreement_terminated(caller, room_id),
            ),
            old(self)@.well_formed() ==> final(self)@.well_formed(),
            old(self)@.tenants_named() ==> final(self)@.tenants_named(),
    ;

    /// The landlord lists every room, by ascending identifier.
    fn get_room(&self, caller: AccountId) -> (res: Result<Vec<Room>, HotelError>)
        ensures
            listed(res) == self@.get_room(caller),
    ;

    /// Anybody lists the rooms without a tenant, by ascending identifier.
    fn get_available_room(&self) -> (rooms: Vec<Room>)
        ensures
            rooms@ == self@.available_rooms(),
            forall|i: int| 0 <= i < rooms@.len() ==> (#[trigger] rooms@[i]).vacant,
    ;

    /// Returns the landlord.
    fn get_landlord(&self) -> (land_lord: AccountId)
        ensures
            land_lord == self@.land_lord,
    ;

    /// Issues the next room identifier.
    fn next_room_id(&mut self) -> (id: RoomId)
        requires
            old(self)@.room_id < u128::MAX,
        ensures
            id == old(self)@.room_id,
            final(self)@ == (HotelState { room_id: (id + 1) as RoomId, ..old(self)@ }),
            old(self)@.well_formed() ==> final(self)@.well_formed(),
    ;

    /// Issues the next agreement identifier.
    fn next_agreement_id(&mut self) -> (id: AgreementId)
        requires
            old(self)@.agreement_id < u128::MAX,
        ensures
            id == old(self)@.agreement_id,
            final(self)@ == (HotelState { agreement_id: (id + 1) as AgreementId, ..old(self)@ }),
            old(self)@.well_formed() ==> final(self)@.well_formed(),
    ;

    /// Issues the next rent identifier.
    fn next_rent_id(&mut self) -> (id: RentId)
        requires
            old(self)@.rent_id < u128::MAX,
        ensures
            id == old(self)@.rent_id,
            final(self)@ == (HotelState { rent_id: (id + 1) as RentId, ..old(self)@ }),
            old(self)@.well_formed() ==> final(self)@.well_formed(),
    ;
}

/// The answer of a guarded attempt, from the form in which a guard hands it
/// on: refused by the guard or by the body, not made, or gone through.
fn outward(res: Result<Option<Result<Receipt, HotelError>>, HotelError>) -> (answer: Option<
    Result<Receipt, HotelError>,
>)
    ensures
        answer == (match res {
            Ok(inner) => inner,
            Err(e) => Some(Err(e)),
        }),
{
    match res {
        Ok(inner) => inner,
        Err(e) => Some(Err(e)),
    }
}

impl Hotel {
    /// Registers a room for `caller`, whoever the caller is, if a room
    /// identifier and an agreement identifier are left.
    fn register_room(
        &mut self,
        caller: AccountId,
        room_name: String,
        room_address: String,
        rent_per_month: Balance,
        security_deposit: Balance,
        time_stamp: Timestamp,
    ) -> (res: Option<Receipt>)
        ensures
            res is Some <==> old(self)@.room_id < u128::MAX && old(self)@.agreement_id < u128::MAX,
            res is None ==> final(self)@ == old(self)@,
            res matches Some(receipt) ==> (Step { state: final(self)@, receipt })
                == old(self)@.register_room(
                caller,
                room_name,
                room_address,
                rent_per_month,
                security_deposit,
                time_stamp,
            ),
    {
        if self.hotel_data.room_id == u128::MAX || self.hotel_data.agreement_id == u128::MAX {
            return None;
        }
        let room_id = self.next_room_id();
        let agreement_id = self.next_agreement_id();
        let new_room = Room {
            room_id,
            agreement_id,
            room_name,
            room_address,
            rent_per_month,
            security_deposit,
            time_stamp,
            vacant: true,
            landlord: caller,
            current_tenant: AccountId::zero(),
        };
        self.hotel_data.room.insert(room_id, new_room);
        Some(
            Receipt {
                transfer: None,
                notification: Notification::AddRoom(AddRoomEvent { room_id, owner: caller }),
            },
        )
    }

    /// Moves `caller` into room `room_id`, whoever the caller is. Every test
    /// is made before anything is written; where all pass but an identifier
    /// is not left, nothing is done.
    fn begin_tenancy(
        &mut self,
        caller: AccountId,
        value: Balance,
        room_id: RoomId,
    ) -> (res: Option<Result<Receipt, HotelError>>)
        ensures
            res is None <==> old(self)@.begin_tenancy(caller, value, room_id) is Ok && !(old(
                self,
            )@.agreement_id < u128::MAX && old(self)@.rent_id < u128::MAX),
            res is None ==> final(self)@ == old(self)@,
            res matches Some(answer) ==> answer == reply(
                old(self)@.begin_tenancy(caller, value, room_id),
            ) && final(self)@ == successor(
                old(self)@,
                old(self)@.begin_tenancy(caller, value, room_id),
            ),
    {
        let room = match self.room(room_id) {
            Some(room) => room,
            None => return Some(Err(HotelError::RoomNotFound)),
        };
        let room_landlord = room.landlord;
        let total_fee = match room.rent_per_month.checked_add(room.security_deposit) {
            Some(sum) => sum,
            None => return Some(Err(HotelError::NotEnoughAgreementFee)),
        };
        if value < total_fee {
            return Some(Err(HotelError::NotEnoughAgreementFee));
        }
        if !room.vacant {
            return Some(Err(HotelError::RoomIsNotVacant));
        }
        if self.hotel_data.agreement_id == u128::MAX || self.hotel_data.rent_id == u128::MAX {
            return None;
        }
        let agreement_id = self.next_agreement_id();
        let agreement = RoomAgreement {
            room_id,
            agreement_id,
            room_name: room.room_name.clone(),
            room_address: room.room_address.clone(),
            rent_per_month: room.rent_per_month,
            security_deposit: room.security_deposit,
            lock_in_period: LOCK_IN_PERIOD,
            time_stamp: room.time_stamp,
        };
        let rent_id = self.next_rent_id();
        let rent = Rent {
            rent_id,
            room_id,
            agreement_id,
            room_name: room.room_name.clone(),
            room_address: room.room_address.clone(),
            rent_per_month: room.rent_per_month,
            time_stamp: room.time_stamp,
            tenant_address: caller,
            land_lord_address: room_landlord,
        };
        let room = Room { agreement_id, vacant: false, current_tenant: caller, ..room };
        self.hotel_data.room.insert(room_id, room);
        self.hotel_data.agreement.insert(agreement_id, agreement);
        self.hotel_data.rent.insert(rent_id, rent);
        Some(
            Ok(
                Receipt {
                    transfer: Some(Transfer { to: room_landlord, value: total_fee }),
                    notification: Notification::SignAgreement(
                        SignAgreementEvent { room_id, agreement_signer: caller },
                    ),
                },
            ),
        )
    }

    /// Ends the tenancy of room `room_id`, whoever asks for it, and returns
    /// the deposit if `refund` says so.
    fn end_tenancy(&mut self, room_id: RoomId, refund: bool) -> (res: Result<Receipt, HotelError>)
        ensures
            res == reply(old(self)@.end_tenancy(room_id, refund)),
            final(self)@ == successor(old(self)@, old(self)@.end_tenancy(room_id, refund)),
    {
        let room = match self.room(room_id) {
            Some(room) => room,
            None => return Err(HotelError::RoomNotFound),
        };
        if room.vacant {
            return Err(HotelError::RoomIsVacant);
        }
        let receipt = if refund {
            Receipt {
                transfer: Some(Transfer { to: room.current_tenant, value: room.security_deposit }),
                notification: Notification::AgreementCompleted(AgreementCompletedEvent { room_id }),
            }
        } else {
            Receipt {
                transfer: None,
                notification: Notification::AgreementTerminated(
                    AgreementTerminatedEvent { room_id },
                ),
            }
        };
        let room = Room { vacant: true, current_tenant: AccountId::zero(), ..room };
        self.hotel_data.room.insert(room_id, room);
        Ok(receipt)
    }

    /// `add_room` for a caller who does not know whether identifiers are
    /// left: where the call would go through but a room identifier or an
    /// agreement identifier is not left, nothing is done and nothing is
    /// answered.
    pub fn try_add_room(
        &mut self,
        caller: AccountId,
        room_name: String,
        room_address: String,
        rent_per_month: Balance,
        security_deposit: Balance,
        time_stamp: Timestamp,
    ) -> (res: Option<Result<Receipt, HotelError>>)
        ensures
            res == old(self)@.attempt(
                Call::AddRoom {
                    caller,
                    room_name,
                    room_address,
                    rent_per_month,
                    security_deposit,
                    time_stamp,
                },
            ),
            final(self)@ == old(self)@.after_attempt(
                Call::AddRoom {
                    caller,
                    room_name,
                    room_address,
                    rent_per_month,
                    security_deposit,
                    time_stamp,
                },
            ),
            old(self)@.well_formed() ==> final(self)@.well_formed(),
            old(self)@.tenants_named() ==> final(self)@.tenants_named(),
    {
        let ghost before = *self;
        let ghost step = self@.register_room(
            caller,
            room_name,
            room_address,
            rent_per_month,
            security_deposit,
            time_stamp,
        );
        let ghost call = Call::AddRoom {
            caller,
            room_name,
            room_address,
            rent_per_month,
            security_deposit,
            time_stamp,
        };
        let res = only_owner(
            self,
            caller,
            |hotel: &mut Hotel| -> (r: Result<Option<Result<Receipt, HotelError>>, HotelError>)
                requires
                    *old(hotel) == before,
                ensures
                    r is Ok,
                    r->Ok_0 is Some <==> before@.room_id < u128::MAX && before@.agreement_id
                        < u128::MAX,
                    r->Ok_0 is None ==> final(hotel)@ == before@,
                    r->Ok_0 is Some ==> r->Ok_0 == Some(reply(Ok(step))) && final(hotel)@
                        == step.state,
                {
                    match hotel.register_room(
                        caller,
                        room_name,
                        room_address,
                        rent_per_month,
                        security_deposit,
                        time_stamp,
                    ) {
                        Some(receipt) => Ok(Some(Ok(receipt))),
                        None => Ok(None),
                    }
                }
        );
        proof {
            if before@.well_formed() && before@.has_identifiers_left_for(call) {
                lemma_call_keeps_well_formed(before@, call);
            }
            if before@.tenants_named() && before@.has_identifiers_left_for(call) && (call
                is SignAgreement ==> caller != AccountId::null()) {
                lemma_call_keeps_tenants_named(before@, call);
            }
        }
        outward(res)
    }

    /// `sign_agreement` for a caller who does not know whether identifiers
    /// are left: where the call would go through but an agreement identifier
    /// or a rent identifier is not left, nothing is done and nothing is
    /// answered.
    pub fn try_sign_agreement(
        &mut self,
        caller: AccountId,
        value: Balance,
        room_id: RoomId,
    ) -> (res: Option<Result<Receipt, HotelError>>)
        ensures
            res == old(self)@.attempt(Call::SignAgreement { caller, value, room_id }),
            final(self)@ == old(self)@.after_attempt(
                Call::SignAgreement { caller, value, room_id },
            ),
            old(self)@.well_formed() ==> final(self)@.well_formed(),
            old(self)@.tenants_named() && caller != AccountId::null()
                ==> final(self)@.tenants_named(),
    {
        let ghost before = *self;
        let ghost call = Call::SignAgreement { caller, value, room_id };
        let ghost outcome = self@.begin_tenancy(caller, value, room_id);
        let res = is_normal_user(
            self,
            caller,
            |hotel: &mut Hotel| -> (r: Result<Option<Result<Receipt, HotelError>>, HotelError>)
                requires
                    *old(hotel) == before,
                ensures
                    r is Ok,
                    r->Ok_0 is None <==> outcome is Ok && !(before@.agreement_id < u128::MAX
                        && before@.rent_id < u128::MAX),
                    r->Ok_0 is None ==> final(hotel)@ == before@,
                    r->Ok_0 is Some ==> r->Ok_0 == Some(reply(outcome)) && final(hotel)@
                        == successor(before@, outcome),
                { Ok(hotel.begin_tenancy(caller, value, room_id)) }
        );
        proof {
            if before@.well_formed() && before@.has_identifiers_left_for(call) {
                lemma_call_keeps_well_formed(before@, call);
            }
            if before@.tenants_named() && before@.has_identifiers_left_for(call) && (call
                is SignAgreement ==> caller != AccountId::null()) {
                lemma_call_keeps_tenants_named(before@, call);
            }
        }
        outward(res)
    }

    /// `pay_rent` for a caller who does not know whether identifiers are
    /// left: where the call would go through but an agreement identifier or
    /// a rent identifier is not left, nothing is done and nothing is
    /// answered. Every test is made before anything is written.
    pub fn try_pay_rent(
        &mut self,
        caller: AccountId,
        value: Balance,
        room_id: RoomId,
    ) -> (res: Option<Result<Receipt, HotelError>>)
        ensures
            res == old(self)@.attempt(Call::PayRent { caller, value, room_id }),
            final(self)@ == old(self)@.after_attempt(Call::PayRent { caller, value, room_id }),
            old(self)@.well_formed() ==> final(self)@.well_formed(),
            old(self)@.tenants_named() ==> final(self)@.tenants_named(),
    {
        let ghost before = self@;
        let ghost call = Call::PayRent { caller, value, room_id };
        let room = match self.room(room_id) {
            Some(room) => room,
            None => return Some(Err(HotelError::RoomNotFound)),
        };
        if room.vacant || caller != room.current_tenant {
            return Some(Err(HotelError::NotATenantAddress));
        }
        if value < room.rent_per_month {
            return Some(Err(HotelError::NotEnoughRentFee));
        }
        if self.hotel_data.agreement_id == u128::MAX || self.hotel_data.rent_id == u128::MAX {
            return None;
        }
        let land_lord = room.landlord;
        let rent_id = self.next_rent_id();
        let agreement_id = self.next_agreement_id();
        let rent = Rent {
            rent_id,
            room_id,
            agreement_id,
            room_name: room.room_name,
            room_address: room.room_address,
            rent_per_month: room.rent_per_month,
            time_stamp: room.time_stamp,
            tenant_address: caller,
            land_lord_address: land_lord,
        };
        self.hotel_data.rent.insert(rent_id, rent);
        proof {
            if before.well_formed() {
                lemma_call_keeps_well_formed(before, call);
            }
            if before.tenants_named() {
                lemma_call_keeps_tenants_named(before, call);
            }
        }
        Some(
            Ok(
                Receipt {
                    transfer: Some(Transfer { to: land_lord, value: room.rent_per_month }),
                    notification: Notification::RentPayment(
                        RentPaymentEvent { room_id, rent_payment_signer: caller },
                    ),
                },
            ),
        )
    }
}

impl RoomBook for Hotel {
    fn add_room(
        &mut self,
        caller: AccountId,
        room_name: String,
        room_address: String,
        rent_per_month: Balance,
        security_deposit: Balance,
        time_stamp: Timestamp,
    ) -> (res: Result<Receipt, HotelError>) {
        self.try_add_room(
            caller,
            room_name,
            room_address,
            rent_per_month,
            security_deposit,
            time_stamp,
        ).unwrap()
    }

    fn sign_agreement(
        &mut self,
        caller: AccountId,
        value: Balance,
        room_id: RoomId,
    ) -> (res: Result<Receipt, HotelError>) {
        self.try_sign_agreement(caller, value, room_id).unwrap()
    }

    fn pay_rent(
        &mut self,
        caller: AccountId,
        value: Balance,
        room_id: RoomId,
    ) -> (res: Result<Receipt, HotelError>) {
        self.try_pay_rent(caller, value, room_id).unwrap()
    }

    fn agreement_completed(&mut self, caller: AccountId, room_id: RoomId) -> (res: Result<
        Receipt,
        HotelError,
    >) {
        let ghost before = *self;
        let res = only_owner(
            self,
            caller,
            |hotel: &mut Hotel| -> (r: Result<Receipt, HotelError>)
                requires
                    *old(hotel) == before,
                ensures
                    r == reply(before@.end_tenancy(room_id, true)),
                    final(hotel)@ == successor(before@, before@.end_tenancy(room_id, true)),
                { hotel.end_tenancy(room_id, true) }
        );
        proof {
            if before@.well_formed() {
                lemma_call_keeps_well_formed(
                    before@,
                    Call::AgreementCompleted { caller, room_id },
                );
            }
            if before@.tenants_named() {
                lemma_call_keeps_tenants_named(
                    before@,
                    Call::AgreementCompleted { caller, room_id },
                );
            }
        }
        res
    }

    fn agreement_terminated(&mut self, caller: AccountId, room_id: RoomId) -> (res: Result<
        Receipt,
        HotelError,
    >) {
        let ghost before = *self;
        let res = only_owner(
            self,
            caller,
            |hotel: &mut Hotel| -> (r: Result<Receipt, HotelError>)
                requires
                    *old(hotel) == before,
                ensures
                    r == reply(before@.end_tenancy(room_id, false)),
                    final(hotel)@ == successor(before@, before@.end_tenancy(room_id, false)),
                { hotel.end_tenancy(room_id, false) }
        );
        proof {
            if before@.well_formed() {
                lemma_call_keeps_well_formed(
                    before@,
                    Call::AgreementTerminated { caller, room_id },
                );
            }
            if before@.tenants_named() {
                lemma_call_keeps_tenants_named(
                    before@,
                    Call::AgreementTerminated { caller, room_id },
                );
            }
        }
        res
    }

    fn get_room(&self, caller: AccountId) -> (res: Result<Vec<Room>, HotelError>) {
        if caller != self.hotel_data.land_lord {
            return Err(HotelError::CallerIsNotOwner);
        }
        let mut room: Vec<Room> = Vec::new();
        let mut room_id: RoomId = 0;
        while room_id < self.hotel_data.room_id
            invariant
                room_id <= self.hotel_data.room_id,
                room@ == self@.rooms_below(room_id as nat),
            decreases self.hotel_data.room_id - room_id,
        {
            proof {
                self@.lemma_rooms_below_step(room_id as nat);
            }
            match self.hotel_data.room.get(&room_id) {
                Some(value) => room.push(value.clone()),
                None => (),
            }
            room_id += 1;
        }
        Ok(room)
    }

    fn get_available_room(&self) -> (rooms: Vec<Room>) {
        let mut room: Vec<Room> = Vec::new();
        let mut room_id: RoomId = 0;
        while room_id < self.hotel_data.room_id
            invariant
                room_id <= self.hotel_data.room_id,
                room@ == self@.rooms_below(room_id as nat).filter(is_vacant()),
            decreases self.hotel_data.room_id - room_id,
        {
            proof {
                self@.lemma_rooms_below_step(room_id as nat);
            }
            match self.hotel_data.room.get(&room_id) {
                Some(value) => {
                    if value.vacant {
                        room.push(value.clone())
                    }
                },
                None => (),
            }
            room_id += 1;
        }
        room
    }

    fn get_landlord(&self) -> (land_lord: AccountId) {
        self.hotel_data.land_lord.clone()
    }

    fn next_room_id(&mut self) -> (id: RoomId) {
        let room_id = self.hotel_data.room_id;
        self.hotel_data.room_id += 1;
        room_id
    }

    fn next_agreement_id(&mut self) -> (id: AgreementId) {
        let agreement_id = self.hotel_data.agreement_id;
        self.hotel_data.agreement_id += 1;
        agreement_id
    }

    fn next_rent_id(&mut self) -> (id: RentId) {
        let rent_id = self.hotel_data.rent_id;
        self.hotel_data.rent_id += 1;
        rent_id
    }
}

} // verus!
