//! What an operation asks of its host: a payment to carry out and a
//! notification to publish.

use vstd::prelude::*;
use crate::identity::AccountId;
use crate::types::{Balance, RoomId};

verus! {

/// A room was added by the landlord.
#[derive(Clone, Copy, Debug, PartialEq, Eq)]
pub struct AddRoomEvent {
    pub room_id: RoomId,
    pub owner: AccountId,
}

/// A tenant signed the agreement for a room.
#[derive(Clone, Copy, Debug, PartialEq, Eq)]
pub struct SignAgreementEvent {
    pub room_id: RoomId,
    pub agreement_signer: AccountId,
}

/// A tenant paid the rent of a room.
#[derive(Clone, Copy, Debug, PartialEq, Eq)]
pub struct RentPaymentEvent {
    pub room_id: RoomId,
    pub rent_payment_signer: AccountId,
}

/// The agreement for a room ran its course.
#[derive(Clone, Copy, Debug, PartialEq, Eq)]
pub struct AgreementCompletedEvent {
    pub room_id: RoomId,
}

/// The agreement for a room was ended early.
#[derive(Clone, Copy, Debug, PartialEq, Eq)]
pub struct AgreementTerminatedEvent {
    pub room_id: RoomId,
}

/// The notification that goes with a successful operation.
#[derive(Clone, Copy, Debug, PartialEq, Eq)]
pub enum Notification {
    AddRoom(AddRoomEvent),
    SignAgreement(SignAgreementEvent),
    RentPayment(RentPaymentEvent),
    AgreementCompleted(AgreementCompletedEvent),
    AgreementTerminated(AgreementTerminatedEvent),
}

/// An instruction to move `value` to `to`.
#[derive(Clone, Copy, Debug, PartialEq, Eq)]
pub struct Transfer {
    pub to: AccountId,
    pub value: Balance,
}

/// What a successful operation hands back: the payment the host has to make,
/// if any, and the notification it has to publish. Whether the operation
/// stands once the payment has been tried is for `settled` to say.
#[derive(Clone, Copy, Debug, PartialEq, Eq)]
pub struct Receipt {
    pub transfer: Option<Transfer>,
    pub notification: Notification,
}

/// A sink for notifications. The host implements it to reach its observers;
/// nothing is promised of what a sink does with a notification.
pub trait HotelRoomBookingEvents {
    fn emit_add_room_event(&self, room_id: RoomId, owner: AccountId);

    fn emit_sign_agreement_event(&self, room_id: RoomId, agreement_signer: AccountId);

    fn emit_rent_payment_event(&self, room_id: RoomId, rent_payment_signer: AccountId);

    fn emit_agreement_complete_event(&self, room_id: RoomId);

    fn emit_agreement_terminated_event(&self, room_id: RoomId);
}

impl Notification {
    /// The room the notification is about.
    pub open spec fn subject(self) -> RoomId {
        match self {
            Notification::AddRoom(e) => e.room_id,
            Notification::SignAgreement(e) => e.room_id,
            Notification::RentPayment(e) => e.room_id,
            Notification::AgreementCompleted(e) => e.room_id,
            Notification::AgreementTerminated(e) => e.room_id,
        }
    }

    /// Returns the room the notification is about.
    pub fn room_id(&self) -> (id: RoomId)
        ensures
            id == self.subject(),
    {
        match self {
            Notification::AddRoom(e) => e.room_id,
            Notification::SignAgreement(e) => e.room_id,
            Notification::RentPayment(e) => e.room_id,
            Notification::AgreementCompleted(e) => e.room_id,
            Notification::AgreementTerminated(e) => e.room_id,
        }
    }

    /// Hands the notification to the method of `sink` that is meant for its
    /// kind, with the fields of the event as arguments.
    pub fn emit<S: HotelRoomBookingEvents>(&self, sink: &S) {
        match self {
            Notification::AddRoom(e) => sink.emit_add_room_event(e.room_id, e.owner),
            Notification::SignAgreement(e) => sink.emit_sign_agreement_event(
                e.room_id,
                e.agreement_signer,
            ),
            Notification::RentPayment(e) => sink.emit_rent_payment_event(
                e.room_id,
                e.rent_payment_signer,
            ),
            Notification::AgreementCompleted(e) => sink.emit_agreement_complete_event(e.room_id),
            Notification::AgreementTerminated(e) => sink.emit_agreement_terminated_event(
                e.room_id,
            ),
        }
    }
}

} // verus!
