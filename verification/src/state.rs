//! The ledger as a mathematical value, and each operation as a function from
//! the ledger before the call to the outcome of the call.

use vstd::prelude::*;
use crate::events::{
    AddRoomEvent, AgreementCompletedEvent, AgreementTerminatedEvent, Notification, Receipt,
    RentPaymentEvent, SignAgreementEvent, Transfer,
};
use crate::identity::AccountId;
use crate::types::{
    AgreementId, Balance, HotelError, Rent, RentId, Room, RoomAgreement, RoomId, Timestamp,
    LOCK_IN_PERIOD,
};

verus! {

/// Everything the hotel remembers between calls: the landlord, the three
/// keyed stores and the next free identifier of each kind.
#[verifier::ext_equal]
pub struct HotelState {
    pub land_lord: AccountId,
    pub room: Map<RoomId, Room>,
    pub agreement: Map<AgreementId, RoomAgreement>,
    pub rent: Map<RentId, Rent>,
    pub room_id: RoomId,
    pub agreement_id: AgreementId,
    pub rent_id: RentId,
}

/// A successful operation: the ledger it leaves behind and what it hands back.
#[verifier::ext_equal]
pub struct Step {
    pub state: HotelState,
    pub receipt: Receipt,
}

/// How an operation ends: with a step, or refused.
pub type Outcome = Result<Step, HotelError>;

/// What the caller of an operation sees of its outcome.
pub open spec fn reply(outcome: Outcome) -> Result<Receipt, HotelError> {
    match outcome {
        Ok(step) => Ok(step.receipt),
        Err(e) => Err(e),
    }
}

/// The ledger after an operation with the given outcome: a refused operation
/// leaves the ledger as it was.
pub open spec fn successor(before: HotelState, outcome: Outcome) -> HotelState {
    match outcome {
        Ok(step) => step.state,
        Err(_) => before,
    }
}

/// The room as it stands once `tenant` has signed agreement `agreement_id`.
pub open spec fn let_to(room: Room, tenant: AccountId, agreement_id: AgreementId) -> Room {
    Room { agreement_id, vacant: false, current_tenant: tenant, ..room }
}

/// The room as it stands once its tenancy has ended.
pub open spec fn vacated(room: Room) -> Room {
    Room { vacant: true, current_tenant: AccountId::null(), ..room }
}

/// The test that picks the rooms without a tenant.
pub open spec fn is_vacant() -> spec_fn(Room) -> bool {
    |room: Room| room.vacant
}

/// The terms of the tenancy of `room`, stored under `room_id`.
pub open spec fn agreement_on(room_id: RoomId, room: Room) -> RoomAgreement {
    RoomAgreement {
        room_id,
        agreement_id: room.agreement_id,
        room_name: room.room_name,
        room_address: room.room_address,
        rent_per_month: room.rent_per_month,
        security_deposit: room.security_deposit,
        lock_in_period: LOCK_IN_PERIOD,
        time_stamp: room.time_stamp,
    }
}

/// The record of one payment of the rent of `room`, stored under `room_id`,
/// made by its current tenant.
pub open spec fn rent_on(
    rent_id: RentId,
    room_id: RoomId,
    agreement_id: AgreementId,
    room: Room,
) -> Rent {
    Rent {
        rent_id,
        room_id,
        agreement_id,
        room_name: room.room_name,
        room_address: room.room_address,
        rent_per_month: room.rent_per_month,
        time_stamp: room.time_stamp,
        tenant_address: room.current_tenant,
        land_lord_address: room.landlord,
    }
}

impl HotelState {
    /// The ledger of a hotel that has just been opened by `land_lord`.
    pub open spec fn init(land_lord: AccountId) -> HotelState {
        HotelState {
            land_lord,
            room: Map::empty(),
            agreement: Map::empty(),
            rent: Map::empty(),
            room_id: 0,
            agreement_id: 0,
            rent_id: 0,
        }
    }

    /// The guard of the landlord: `body` goes ahead only for the landlord.
    pub open spec fn only_owner(self, caller: AccountId, body: Outcome) -> Outcome {
        if caller == self.land_lord {
            body
        } else {
            Err(HotelError::CallerIsNotOwner)
        }
    }

    /// The guard of everybody else: `body` goes ahead only for a caller who is
    /// not the landlord.
    pub open spec fn is_normal_user(self, caller: AccountId, body: Outcome) -> Outcome {
        if caller != self.land_lord {
            body
        } else {
            Err(HotelError::CallerIsOwner)
        }
    }

    /// What becomes of the ledger when `caller` registers a room, whoever the
    /// caller is. The room takes the next room identifier and reserves the
    /// next agreement identifier.
    pub open spec fn register_room(
        self,
        caller: AccountId,
        room_name: String,
        room_address: String,
        rent_per_month: Balance,
        security_deposit: Balance,
        time_stamp: Timestamp,
    ) -> Step {
        Step {
            state: HotelState {
                room: self.room.insert(
                    self.room_id,
                    Room {
                        room_id: self.room_id,
                        agreement_id: self.agreement_id,
                        room_name,
                        room_address,
                        rent_per_month,
                        security_deposit,
                        time_stamp,
                        vacant: true,
                        landlord: caller,
                        current_tenant: AccountId::null(),
                    },
                ),
                room_id: (self.room_id + 1) as RoomId,
                agreement_id: (self.agreement_id + 1) as AgreementId,
                ..self
            },
            receipt: Receipt {
                transfer: None,
                notification: Notification::AddRoom(
                    AddRoomEvent { room_id: self.room_id, owner: caller },
                ),
            },
        }
    }

    /// `add_room`: the landlord registers a room.
    pub open spec fn add_room(
        self,
        caller: AccountId,
        room_name: String,
        room_address: String,
        rent_per_month: Balance,
        security_deposit: Balance,
        time_stamp: Timestamp,
    ) -> Outcome {
        self.only_owner(
            caller,
            Ok(
                self.register_room(
                    caller,
                    room_name,
                    room_address,
                    rent_per_month,
                    security_deposit,
                    time_stamp,
                ),
            ),
        )
    }

    /// What becomes of the ledger when `caller` offers `value` to move into
    /// room `room_id`, whoever the caller is. The room must exist, the value
    /// must cover rent and deposit, and the room must be vacant, tested in
    /// this order. Rent and deposit go to the landlord of the room.
    pub open spec fn begin_tenancy(
        self,
        caller: AccountId,
        value: Balance,
        room_id: RoomId,
    ) -> Outcome {
        if !self.room.contains_key(room_id) {
            Err(HotelError::RoomNotFound)
        } else if value < self.room[room_id].rent_per_month + self.room[room_id].security_deposit {
            Err(HotelError::NotEnoughAgreementFee)
        } else if !self.room[room_id].vacant {
            Err(HotelError::RoomIsNotVacant)
        } else {
            let before = self.room[room_id];
            let after = let_to(before, caller, self.agreement_id);
            Ok(
                Step {
                    state: HotelState {
                        room: self.room.insert(room_id, after),
                        agreement: self.agreement.insert(
                            self.agreement_id,
                            agreement_on(room_id, after),
                        ),
                        rent: self.rent.insert(
                            self.rent_id,
                            rent_on(self.rent_id, room_id, self.agreement_id, after),
                        ),
                        agreement_id: (self.agreement_id + 1) as AgreementId,
                        rent_id: (self.rent_id + 1) as RentId,
                        ..self
                    },
                    receipt: Receipt {
                        transfer: Some(
                            Transfer {
                                to: before.landlord,
                                value: (before.rent_per_month + before.security_deposit) as Balance,
                            },
                        ),
                        notification: Notification::SignAgreement(
                            SignAgreementEvent { room_id, agreement_signer: caller },
                        ),
                    },
                },
            )
        }
    }

    /// `sign_agreement`: somebody other than the landlord moves into a room.
    pub open spec fn sign_agreement(
        self,
        caller: AccountId,
        value: Balance,
        room_id: RoomId,
    ) -> Outcome {
        self.is_normal_user(caller, self.begin_tenancy(caller, value, room_id))
    }

    /// `pay_rent`: the tenant of a room pays a month's rent. The room must
    /// exist, it must have a tenant and the caller must be that tenant, and
    /// the value must cover the rent, tested in this order. A vacant room has
    /// no tenant, so nobody can pay its rent, not even the null identity that
    /// stands in the tenant's place. The room stays as it is. The rent goes
    /// to the landlord of the room; the payment takes the next rent
    /// identifier and the next agreement identifier.
    pub open spec fn pay_rent(self, caller: AccountId, value: Balance, room_id: RoomId) -> Outcome {
        if !self.room.contains_key(room_id) {
            Err(HotelError::RoomNotFound)
        } else if self.room[room_id].vacant || caller != self.room[room_id].current_tenant {
            Err(HotelError::NotATenantAddress)
        } else if value < self.room[room_id].rent_per_month {
            Err(HotelError::NotEnoughRentFee)
        } else {
            let room = self.room[room_id];
            Ok(
                Step {
                    state: HotelState {
                        rent: self.rent.insert(
                            self.rent_id,
                            rent_on(self.rent_id, room_id, self.agreement_id, room),
                        ),
                        agreement_id: (self.agreement_id + 1) as AgreementId,
                        rent_id: (self.rent_id + 1) as RentId,
                        ..self
                    },
                    receipt: Receipt {
                        transfer: Some(Transfer { to: room.landlord, value: room.rent_per_month }),
                        notification: Notification::RentPayment(
                            RentPaymentEvent { room_id, rent_payment_signer: caller },
                        ),
                    },
                },
            )
        }
    }

    /// What becomes of the ledger when the tenancy of room `room_id` ends,
    /// whoever asks for it. The room must exist and must have a tenant. With
    /// `refund` the deposit goes back to the tenant; without it nothing is
    /// paid.
    pub open spec fn end_tenancy(self, room_id: RoomId, refund: bool) -> Outcome {
        if !self.room.contains_key(room_id) {
            Err(HotelError::RoomNotFound)
        } else if self.room[room_id].vacant {
            Err(HotelError::RoomIsVacant)
        } else {
            let before = self.room[room_id];
            Ok(
                Step {
                    state: HotelState { room: self.room.insert(room_id, vacated(before)), ..self },
                    receipt: Receipt {
                        transfer: if refund {
                            Some(
                                Transfer {
                                    to: before.current_tenant,
                                    value: before.security_deposit,
                                },
                            )
                        } else {
                            None
                        },
                        notification: if refund {
                            Notification::AgreementCompleted(AgreementCompletedEvent { room_id })
                        } else {
                            Notification::AgreementTerminated(AgreementTerminatedEvent { room_id })
                        },
                    },
                },
            )
        }
    }

    /// `agreement_completed`: the landlord ends a tenancy and returns the
    /// deposit.
    pub open spec fn agreement_completed(self, caller: AccountId, room_id: RoomId) -> Outcome {
        self.only_owner(caller, self.end_tenancy(room_id, true))
    }

    /// `agreement_terminated`: the landlord ends a tenancy early and keeps
    /// the deposit.
    pub open spec fn agreement_terminated(self, caller: AccountId, room_id: RoomId) -> Outcome {
        self.only_owner(caller, self.end_tenancy(room_id, false))
    }

    /// The stored rooms whose identifier is below `bound`, by ascending
    /// identifier.
    pub open spec fn rooms_below(self, bound: nat) -> Seq<Room>
        decreases bound,
    {
        if bound == 0 {
            Seq::empty()
        } else {
            let id = (bound - 1) as RoomId;
            let rest = self.rooms_below((bound - 1) as nat);
            if self.room.contains_key(id) {
                rest.push(self.room[id])
            } else {
                rest
            }
        }
    }

    /// Every room an identifier was issued for, by ascending identifier.
    pub open spec fn rooms(self) -> Seq<Room> {
        self.rooms_below(self.room_id as nat)
    }

    /// The rooms of `rooms` that have no tenant, in the same order.
    pub open spec fn available_rooms(self) -> Seq<Room> {
        self.rooms().filter(is_vacant())
    }

    /// `get_room`: the landlord lists the rooms.
    pub open spec fn get_room(self, caller: AccountId) -> Result<Seq<Room>, HotelError> {
        if caller == self.land_lord {
            Ok(self.rooms())
        } else {
            Err(HotelError::CallerIsNotOwner)
        }
    }

    /// Listing the rooms below `bound + 1` is listing the rooms below `bound`
    /// and then room `bound`, if it is stored.
    pub proof fn lemma_rooms_below_step(self, bound: nat)
        requires
            bound <= u128::MAX,
        ensures
            self.rooms_below(bound + 1) == (if self.room.contains_key(bound as RoomId) {
                self.rooms_below(bound).push(self.room[bound as RoomId])
            } else {
                self.rooms_below(bound)
            }),
            self.rooms_below(bound + 1).filter(is_vacant()) == (if self.room.contains_key(
                bound as RoomId,
            ) && self.room[bound as RoomId].vacant {
                self.rooms_below(bound).filter(is_vacant()).push(self.room[bound as RoomId])
            } else {
                self.rooms_below(bound).filter(is_vacant())
            }),
    {
        reveal(Seq::filter);
        let below = self.rooms_below(bound);
        if self.room.contains_key(bound as RoomId) {
            assert(below.push(self.room[bound as RoomId]).drop_last() =~= below);
        }
    }
}

/// Whether two records describe the same premises on the same terms: all that
/// a tenancy never changes about a room.
pub open spec fn same_premises(a: Room, b: Room) -> bool {
    &&& a.room_id == b.room_id
    &&& a.room_name == b.room_name
    &&& a.room_address == b.room_address
    &&& a.rent_per_month == b.rent_per_month
    &&& a.security_deposit == b.security_deposit
    &&& a.time_stamp == b.time_stamp
    &&& a.landlord == b.landlord
}

/// A call of one of the five booking operations, with the caller and the
/// value that came with it.
pub enum Call {
    AddRoom {
        caller: AccountId,
        room_name: String,
        room_address: String,
        rent_per_month: Balance,
        security_deposit: Balance,
        time_stamp: Timestamp,
    },
    SignAgreement { caller: AccountId, value: Balance, room_id: RoomId },
    PayRent { caller: AccountId, value: Balance, room_id: RoomId },
    AgreementCompleted { caller: AccountId, room_id: RoomId },
    AgreementTerminated { caller: AccountId, room_id: RoomId },
}

impl Call {
    /// The room the call names, if it names one.
    pub open spec fn room(self) -> Option<RoomId> {
        match self {
            Call::AddRoom { .. } => None,
            Call::SignAgreement { room_id, .. } => Some(room_id),
            Call::PayRent { room_id, .. } => Some(room_id),
            Call::AgreementCompleted { room_id, .. } => Some(room_id),
            Call::AgreementTerminated { room_id, .. } => Some(room_id),
        }
    }

    /// Who makes the call.
    pub open spec fn caller(self) -> AccountId {
        match self {
            Call::AddRoom { caller, .. } => caller,
            Call::SignAgreement { caller, .. } => caller,
            Call::PayRent { caller, .. } => caller,
            Call::AgreementCompleted { caller, .. } => caller,
            Call::AgreementTerminated { caller, .. } => caller,
        }
    }
}

impl HotelState {
    /// The invariant of the ledger. Every key lies below the counter it was
    /// issued from and is written in the record it leads to; every room
    /// belongs to the landlord, and a vacant room has the null identity for a
    /// tenant; every agreement and every rent is about a stored room. That an
    /// occupied room has another tenant than the null identity is
    /// `tenants_named`.
    pub open spec fn well_formed(self) -> bool {
        &&& forall|id: RoomId| #[trigger]
            self.room.contains_key(id) ==> {
                &&& id < self.room_id
                &&& self.room[id].room_id == id
                &&& self.room[id].landlord == self.land_lord
                &&& self.room[id].agreement_id < self.agreement_id
                &&& self.room[id].vacant ==> self.room[id].current_tenant == AccountId::null()
            }
        &&& forall|id: AgreementId| #[trigger]
            self.agreement.contains_key(id) ==> {
                &&& id < self.agreement_id
                &&& self.agreement[id].agreement_id == id
                &&& self.room.contains_key(self.agreement[id].room_id)
            }
        &&& forall|id: RentId| #[trigger]
            self.rent.contains_key(id) ==> {
                &&& id < self.rent_id
                &&& self.rent[id].rent_id == id
                &&& self.rent[id].agreement_id < self.agreement_id
                &&& self.rent[id].land_lord_address == self.land_lord
                &&& self.room.contains_key(self.rent[id].room_id)
            }
    }

    /// Whether every identifier below the room counter leads to a room.
    pub open spec fn gap_free(self) -> bool {
        forall|id: RoomId| id < self.room_id ==> #[trigger] self.room.contains_key(id)
    }

    /// Whether a room has a tenant exactly when its tenant is not the null
    /// identity. Every call keeps this but one: `sign_agreement` by the null
    /// identity, for which no failure is foreseen, leaves a room occupied
    /// with the null identity for a tenant.
    pub open spec fn tenants_named(self) -> bool {
        forall|id: RoomId| #[trigger]
            self.room.contains_key(id) ==> (self.room[id].vacant <==> self.room[id].current_tenant
                == AccountId::null())
    }

    /// Whether the counters that `call` raises can still be raised. A call
    /// that is refused raises none.
    pub open spec fn has_identifiers_left_for(self, call: Call) -> bool {
        self.apply(call) is Ok ==> match call {
            Call::AddRoom { .. } => self.room_id < u128::MAX && self.agreement_id < u128::MAX,
            Call::SignAgreement { .. } => self.agreement_id < u128::MAX && self.rent_id
                < u128::MAX,
            Call::PayRent { .. } => self.agreement_id < u128::MAX && self.rent_id < u128::MAX,
            Call::AgreementCompleted { .. } => true,
            Call::AgreementTerminated { .. } => true,
        }
    }

    /// What `call` is answered when it is made only if the identifiers it
    /// needs are left: nothing, where it would go through but an identifier
    /// it needs is not left.
    pub open spec fn attempt(self, call: Call) -> Option<Result<Receipt, HotelError>> {
        if self.has_identifiers_left_for(call) {
            Some(reply(self.apply(call)))
        } else {
            None
        }
    }

    /// The ledger after such an attempt: as it was, where the call was not
    /// made.
    pub open spec fn after_attempt(self, call: Call) -> HotelState {
        if self.has_identifiers_left_for(call) {
            successor(self, self.apply(call))
        } else {
            self
        }
    }

    /// Whether each counter can still be raised `calls` times.
    pub open spec fn has_identifiers_for(self, calls: nat) -> bool {
        &&& self.room_id + calls <= u128::MAX
        &&& self.agreement_id + calls <= u128::MAX
        &&& self.rent_id + calls <= u128::MAX
    }

    /// Whether `later` keeps all that this ledger holds: the landlord, every
    /// room with its premises, every agreement and every rent as they were
    /// written, and no counter lower than it was.
    pub open spec fn kept_by(self, later: HotelState) -> bool {
        &&& later.land_lord == self.land_lord
        &&& self.room_id <= later.room_id
        &&& self.agreement_id <= later.agreement_id
        &&& self.rent_id <= later.rent_id
        &&& forall|id: RoomId| #[trigger]
            self.room.contains_key(id) ==> later.room.contains_key(id) && same_premises(
                self.room[id],
                later.room[id],
            )
        &&& forall|id: AgreementId| #[trigger]
            self.agreement.contains_key(id) ==> later.agreement.contains_key(id)
                && later.agreement[id] == self.agreement[id]
        &&& forall|id: RentId| #[trigger]
            self.rent.contains_key(id) ==> later.rent.contains_key(id) && later.rent[id]
                == self.rent[id]
    }

    /// The outcome of `call` on this ledger.
    pub open spec fn apply(self, call: Call) -> Outcome {
        match call {
            Call::AddRoom {
                caller,
                room_name,
                room_address,
                rent_per_month,
                security_deposit,
                time_stamp,
            } => self.add_room(
                caller,
                room_name,
                room_address,
                rent_per_month,
                security_deposit,
                time_stamp,
            ),
            Call::SignAgreement { caller, value, room_id } => self.sign_agreement(
                caller,
                value,
                room_id,
            ),
            Call::PayRent { caller, value, room_id } => self.pay_rent(caller, value, room_id),
            Call::AgreementCompleted { caller, room_id } => self.agreement_completed(
                caller,
                room_id,
            ),
            Call::AgreementTerminated { caller, room_id } => self.agreement_terminated(
                caller,
                room_id,
            ),
        }
    }

    /// The ledger after `calls`, made one after the other.
    pub open spec fn run(self, calls: Seq<Call>) -> HotelState
        decreases calls.len(),
    {
        if calls.len() == 0 {
            self
        } else {
            let before = self.run(calls.drop_last());
            successor(before, before.apply(calls.last()))
        }
    }

    /// What each of `calls` returns, made one after the other.
    pub open spec fn replies(self, calls: Seq<Call>) -> Seq<Result<Receipt, HotelError>>
        decreases calls.len(),
    {
        if calls.len() == 0 {
            Seq::empty()
        } else {
            let before = self.run(calls.drop_last());
            self.replies(calls.drop_last()).push(reply(before.apply(calls.last())))
        }
    }
}

} // verus!
