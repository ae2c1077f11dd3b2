//! What stands once the host has tried to make the payment of a receipt.

use vstd::prelude::*;
use crate::events::{Notification, Receipt};
use crate::hotel::Hotel;

verus! {

/// Decides which ledger stands after an operation that went through. `before`
/// is the hotel as it was before the operation, `after` the hotel as the
/// operation left it, `receipt` what the operation handed back, and `paid`
/// whether the host could make the payment that the receipt asks for.
///
/// Where the receipt asks for no payment, or the payment was made, the
/// operation stands: the answer is the hotel after it and the notification to
/// publish. Where the payment could not be made, the operation has failed
/// and nothing of it stands: the answer is the hotel as it was before, and
/// nothing is to be published.
pub fn settled(before: Hotel, after: Hotel, receipt: Receipt, paid: bool) -> (kept: Result<
    (Hotel, Notification),
    Hotel,
>)
    ensures
        receipt.transfer is None || paid ==> kept == Ok::<(Hotel, Notification), Hotel>(
            (after, receipt.notification),
        ),
        receipt.transfer is Some && !paid ==> kept == Err::<(Hotel, Notification), Hotel>(before),
{
    if receipt.transfer.is_none() || paid {
        Ok((after, receipt.notification))
    } else {
        Err(before)
    }
}

} // verus!
