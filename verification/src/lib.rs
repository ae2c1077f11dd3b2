//! A booking ledger for a single hotel.
//!
//! The ledger tracks rooms, rental agreements and rent payments, and decides
//! who may create, occupy, pay for or release a room. Every operation takes
//! the identity of the caller (and, where money is due, the value attached to
//! the call) as plain arguments and returns either a typed failure or a
//! [`Receipt`] naming the payment the host has to carry out and the
//! notification it has to publish. The host tries the payment and hands the
//! outcome to [`settled`], which says whether the operation stands: a payment
//! that fails leaves the ledger as it was.

pub mod events;
pub mod guard;
pub mod hotel;
pub mod identity;
pub mod laws;
pub mod room_book;
pub mod settle;
pub mod state;
pub mod types;

pub use events::{
    AddRoomEvent, AgreementCompletedEvent, AgreementTerminatedEvent, HotelRoomBookingEvents,
    Notification, Receipt, RentPaymentEvent, SignAgreementEvent, Transfer,
};
pub use guard::{is_normal_user, only_owner};
pub use hotel::{Data, Hotel};
pub use identity::{AccountId, ZERO_ADDRESS};
pub use room_book::RoomBook;
pub use settle::settled;
pub use state::{Call, HotelState, Outcome, Step};
pub use types::{
    AgreementId, Balance, HotelError, Rent, RentId, Room, RoomAgreement, RoomId, Timestamp,
    LOCK_IN_PERIOD,
};
