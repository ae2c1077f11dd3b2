//! The two guards that stand before the operations of the hotel.

use vstd::prelude::*;
use crate::hotel::Hotel;
use crate::identity::AccountId;
use crate::types::HotelError;

verus! {

/// Lets `body` work on the hotel only if `caller` is the landlord; anybody
/// else is refused with `CallerIsNotOwner` and the hotel is left as it was.
pub fn only_owner<F, R>(instance: &mut Hotel, caller: AccountId, body: F) -> (res: Result<
    R,
    HotelError,
>) where F: FnOnce(&mut Hotel) -> Result<R, HotelError>
    requires
        caller == old(instance)@.land_lord ==> forall|hotel: &mut Hotel|
            *hotel == *old(instance) ==> #[trigger] call_requires(body, (hotel,)),
    ensures
        caller != old(instance)@.land_lord ==> res == Err::<R, HotelError>(
            HotelError::CallerIsNotOwner,
        ) && *final(instance) == *old(instance),
        caller == old(instance)@.land_lord ==> exists|hotel: &mut Hotel|
            {
                &&& *hotel == *old(instance)
                &&& *final(hotel) == *final(instance)
                &&& #[trigger] call_ensures(body, (hotel,), res)
            },
{
    if caller != instance.hotel_data.land_lord {
        return Err(HotelError::CallerIsNotOwner);
    }
    body(instance)
}

/// Lets `body` work on the hotel only if `caller` is not the landlord; the
/// landlord is refused with `CallerIsOwner` and the hotel is left as it was.
pub fn is_normal_user<F, R>(instance: &mut Hotel, caller: AccountId, body: F) -> (res: Result<
    R,
    HotelError,
>) where F: FnOnce(&mut Hotel) -> Result<R, HotelError>
    requires
        caller != old(instance)@.land_lord ==> forall|hotel: &mut Hotel|
            *hotel == *old(instance) ==> #[trigger] call_requires(body, (hotel,)),
    ensures
        caller == old(instance)@.land_lord ==> res == Err::<R, HotelError>(
            HotelError::CallerIsOwner,
        ) && *final(instance) == *old(instance),
        caller != old(instance)@.land_lord ==> exists|hotel: &mut Hotel|
            {
                &&& *hotel == *old(instance)
                &&& *final(hotel) == *final(instance)
                &&& #[trigger] call_ensures(body, (hotel,), res)
            },
{
    if caller == instance.hotel_data.land_lord {
        return Err(HotelError::CallerIsOwner);
    }
    body(instance)
}

} // verus!
