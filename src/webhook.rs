use vstd::prelude::*;
use crate::status::Status;

verus! {

/// A request to watch an address: the amount expected (in satoshis), the
/// confirmation depth it must reach, and the time (seconds since the Unix
/// epoch) after which the watch expires.
pub struct WaitOnParams {
    pub address: String,
    pub amount: u64,
    pub confirmations_num: i32,
    pub timestamp: u64,
}

/// The record of one watch: the request's parameters, its status, and what
/// has been observed so far. Amounts are in satoshis.
///
/// `amount` is set once any scan has been seen and then follows the latest
/// observation; `confirmations_num` is set on success.
pub struct Webhook {
    pub expiry: u64,
    pub status: Status,
    pub address: String,
    pub required_amount: u64,
    pub amount: Option<u64>,
    pub required_confirmations_num: i32,
    pub confirmations_num: Option<i32>,
}

/// What a raw scan total means for a watch.
#[derive(Debug, Clone, Copy, PartialEq, Eq, Structural)]
pub enum Fill {
    /// The total reaches the required amount: confirmations are to be counted.
    Reached,
    /// Not enough yet, and nothing to notify.
    NotReachedYet,
    /// Not enough yet, and the watch has just become a partial payment: the
    /// one partial notification is due.
    NotifyPartial,
}

/// The record of a freshly accepted request.
pub open spec fn new_webhook(p: WaitOnParams) -> Webhook {
    Webhook {
        expiry: p.timestamp,
        status: Status::Waiting,
        address: p.address,
        required_amount: p.amount,
        amount: None,
        required_confirmations_num: p.confirmations_num,
        confirmations_num: None,
    }
}

/// The record after a raw scan total is observed, and what that total means.
pub open spec fn fill(w: Webhook, total: u64) -> (Webhook, Fill) {
    let seen = Webhook { amount: Some(total), ..w };
    if total < w.required_amount {
        if total > 0 && w.status != Status::PartialPayment {
            (Webhook { status: Status::PartialPayment, ..seen }, Fill::NotifyPartial)
        } else {
            (seen, Fill::NotReachedYet)
        }
    } else {
        (seen, Fill::Reached)
    }
}

impl Webhook {
    /// The record of a freshly accepted request: status `Waiting`, nothing
    /// observed yet.
    pub fn new(params: WaitOnParams) -> (r: Webhook)
        ensures
            r == new_webhook(params),
    {
        Webhook {
            expiry: params.timestamp,
            status: Status::Waiting,
            address: params.address,
            required_amount: params.amount,
            amount: None,
            required_confirmations_num: params.confirmations_num,
            confirmations_num: None,
        }
    }

    /// Records the raw total of a scan and says what it means: enough value
    /// to count confirmations, or not enough yet. The first time a nonzero
    /// total short of the required amount is seen the status becomes
    /// `PartialPayment` and a partial notification is due; later short
    /// totals change nothing but the observed amount.
    pub fn fill_and_send_partial(&mut self, total_amount: u64) -> (r: Fill)
        ensures
            (*final(self), r) == fill(*old(self), total_amount),
    {
        self.amount = Some(total_amount);
        if total_amount < self.required_amount {
            if total_amount > 0 && self.status != Status::PartialPayment {
                self.status = Status::PartialPayment;
                Fill::NotifyPartial
            } else {
                Fill::NotReachedYet
            }
        } else {
            Fill::Reached
        }
    }
}

} // verus!
