//! The records the ledger keeps and the failures it reports.

use vstd::prelude::*;
use crate::identity::AccountId;

verus! {

/// Identifier of a room.
pub type RoomId = u128;

/// Identifier of a rental agreement.
pub type AgreementId = u128;

/// Identifier of a rent payment.
pub type RentId = u128;

/// An amount of money, in the smallest unit.
pub type Balance = u128;

/// A point in time, as the host counts it.
pub type Timestamp = u64;

/// The lock-in period written into every agreement.
pub const LOCK_IN_PERIOD: u64 = 1;

/// A room of the hotel and the state of its tenancy.
#[derive(Debug, PartialEq, Eq)]
pub struct Room {
    pub room_id: RoomId,
    pub agreement_id: AgreementId,
    pub room_name: String,
    pub room_address: String,
    pub rent_per_month: Balance,
    pub security_deposit: Balance,
    pub time_stamp: Timestamp,
    pub vacant: bool,
    pub landlord: AccountId,
    pub current_tenant: AccountId,
}

impl Clone for Room {
    fn clone(&self) -> (r: Self)
        ensures
            r == *self,
    {
        Room {
            room_id: self.room_id,
            agreement_id: self.agreement_id,
            room_name: self.room_name.clone(),
            room_address: self.room_address.clone(),
            rent_per_month: self.rent_per_month,
            security_deposit: self.security_deposit,
            time_stamp: self.time_stamp,
            vacant: self.vacant,
            landlord: self.landlord,
            current_tenant: self.current_tenant,
        }
    }
}

/// The terms of a tenancy, written down once when it begins.
#[derive(Debug, PartialEq, Eq)]
pub struct RoomAgreement {
    pub room_id: RoomId,
    pub agreement_id: AgreementId,
    pub room_name: String,
    pub room_address: String,
    pub rent_per_month: Balance,
    pub security_deposit: Balance,
    pub lock_in_period: u64,
    pub time_stamp: Timestamp,
}

impl Clone for RoomAgreement {
    fn clone(&self) -> (r: Self)
        ensures
            r == *self,
    {
        RoomAgreement {
            room_id: self.room_id,
            agreement_id: self.agreement_id,
            room_name: self.room_name.clone(),
            room_address: self.room_address.clone(),
            rent_per_month: self.rent_per_month,
            security_deposit: self.security_deposit,
            lock_in_period: self.lock_in_period,
            time_stamp: self.time_stamp,
        }
    }
}

/// One payment of rent, written down once when it is made.
#[derive(Debug, PartialEq, Eq)]
pub struct Rent {
    pub rent_id: RentId,
    pub room_id: RoomId,
    pub agreement_id: AgreementId,
    pub room_name: String,
    pub room_address: String,
    pub rent_per_month: Balance,
    pub time_stamp: Timestamp,
    pub tenant_address: AccountId,
    pub land_lord_address: AccountId,
}

impl Clone for Rent {
    fn clone(&self) -> (r: Self)
        ensures
            r == *self,
    {
        Rent {
            rent_id: self.rent_id,
            room_id: self.room_id,
            agreement_id: self.agreement_id,
            room_name: self.room_name.clone(),
            room_address: self.room_address.clone(),
            rent_per_month: self.rent_per_month,
            time_stamp: self.time_stamp,
            tenant_address: self.tenant_address,
            land_lord_address: self.land_lord_address,
        }
    }
}

/// Why an operation was refused.
#[derive(Clone, Copy, Debug, PartialEq, Eq, Structural)]
pub enum HotelError {
    /// The landlord called an operation meant for everybody else.
    CallerIsOwner,
    /// Somebody other than the landlord called an operation meant for the landlord.
    CallerIsNotOwner,
    /// No room has the given identifier.
    RoomNotFound,
    /// The room already has a tenant.
    RoomIsNotVacant,
    /// The room has no tenant.
    RoomIsVacant,
    /// The value attached to the call is less than rent plus deposit.
    NotEnoughAgreementFee,
    /// The value attached to the call is less than the rent.
    NotEnoughRentFee,
    /// The caller is not the tenant of the room.
    NotATenantAddress,
}

} // verus!
