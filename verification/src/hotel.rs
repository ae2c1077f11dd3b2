//! The hotel: the ledger as it is held in memory.

use std::collections::HashMap;
use vstd::prelude::*;
use crate::identity::AccountId;
use crate::state::HotelState;
use crate::types::{AgreementId, Rent, RentId, Room, RoomAgreement, RoomId};

verus! {

/// The three keyed stores, the next free identifier of each kind, and the
/// landlord.
pub struct Data {
    pub room: HashMap<RoomId, Room>,
    pub agreement: HashMap<AgreementId, RoomAgreement>,
    pub rent: HashMap<RentId, Rent>,
    pub room_id: RoomId,
    pub agreement_id: AgreementId,
    pub rent_id: RentId,
    pub land_lord: AccountId,
}

impl View for Data {
    type V = HotelState;

    open spec fn view(&self) -> HotelState {
        HotelState {
            land_lord: self.land_lord,
            room: self.room@,
            agreement: self.agreement@,
            rent: self.rent@,
            room_id: self.room_id,
            agreement_id: self.agreement_id,
            rent_id: self.rent_id,
        }
    }
}

/// A hotel with one landlord.
pub struct Hotel {
    pub hotel_data: Data,
}

impl View for Hotel {
    type V = HotelState;

    open spec fn view(&self) -> HotelState {
        self.hotel_data@
    }
}

impl Clone for Hotel {
    fn clone(&self) -> (copy: Self)
        ensures
            copy@ == self@,
    {
        Hotel {
            hotel_data: Data {
                room: self.hotel_data.room.clone(),
                agreement: self.hotel_data.agreement.clone(),
                rent: self.hotel_data.rent.clone(),
                room_id: self.hotel_data.room_id,
                agreement_id: self.hotel_data.agreement_id,
                rent_id: self.hotel_data.rent_id,
                land_lord: self.hotel_data.land_lord,
            },
        }
    }
}

impl Hotel {
    /// Opens a hotel with no rooms, whose landlord is `caller` from now on.
    pub fn new(caller: AccountId) -> (hotel: Hotel)
        ensures
            hotel@ == HotelState::init(caller),
            hotel@.well_formed(),
    {
        Hotel {
            hotel_data: Data {
                room: HashMap::new(),
                agreement: HashMap::new(),
                rent: HashMap::new(),
                room_id: 0,
                agreement_id: 0,
                rent_id: 0,
                land_lord: caller,
            },
        }
    }

    /// Looks up the room stored under `room_id`.
    pub fn room(&self, room_id: RoomId) -> (found: Option<Room>)
        ensures
            found == self@.room.get(room_id),
    {
        match self.hotel_data.room.get(&room_id) {
            Some(room) => Some(room.clone()),
            None => None,
        }
    }

    /// Looks up the agreement stored under `agreement_id`.
    pub fn agreement(&self, agreement_id: AgreementId) -> (found: Option<RoomAgreement>)
        ensures
            found == self@.agreement.get(agreement_id),
    {
        match self.hotel_data.agreement.get(&agreement_id) {
            Some(agreement) => Some(agreement.clone()),
            None => None,
        }
    }

    /// Looks up the rent stored under `rent_id`.
    pub fn rent(&self, rent_id: RentId) -> (found: Option<Rent>)
        ensures
            found == self@.rent.get(rent_id),
    {
        match self.hotel_data.rent.get(&rent_id) {
            Some(rent) => Some(rent.clone()),
            None => None,
        }
    }
}

} // verus!
