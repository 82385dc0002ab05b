use vstd::prelude::*;
use crate::webhook::WaitOnParams;

verus! {

/// A watch request as it arrives: the address (absent where the caller
/// asks for a new one), the expected amount written in bitcoin, the
/// confirmation depth, and how many minutes the watch may last.
pub struct WaitOnForm {
    pub address: Option<String>,
    pub amount_in_btc: String,
    pub confirmations_num: i32,
    pub expiry_in_mins: u64,
}

/// Why a request was refused.
#[derive(Debug, Clone, Copy, PartialEq, Eq, Structural)]
pub enum FormError {
    /// The request names no address.
    MissingAddress,
    /// The expiry time lies beyond what a timestamp can hold.
    ExpiryOutOfRange,
    /// The amount is not a non-negative amount of bitcoin.
    BadAmount,
    /// The required confirmation depth is negative.
    NegativeConfirmations,
}

/// The number of satoshis that a decimal text of bitcoin stands for, where
/// it stands for a valid non-negative amount.
pub uninterp spec fn btc_amount_of(text: Seq<char>) -> Option<u64>;

/// Relies on `bitcoin::Amount::from_str_in` with `Denomination::Bitcoin`:
/// parses a decimal amount of bitcoin into satoshis, or fails. The outcome
/// depends on the text alone.
#[verifier::external_body]
fn parse_btc_amount(text: &str) -> (r: Option<u64>)
    ensures
        r == btc_amount_of(text@),
{
    match bitcoincore_rpc::bitcoin::Amount::from_str_in(
        text,
        bitcoincore_rpc::bitcoin::Denomination::Bitcoin,
    ) {
        Ok(a) => Some(a.to_sat()),
        Err(_) => None,
    }
}

/// The watch parameters for a request on `address` made at time `now`
/// (seconds since the Unix epoch), or why it is refused. The checks come in
/// this order: the expiry, the amount, the confirmation depth.
pub open spec fn params_for(
    address: String,
    amount_text: Seq<char>,
    confirmations_num: i32,
    expiry_in_mins: u64,
    now: u64,
) -> Result<WaitOnParams, FormError> {
    let expiry = now + expiry_in_mins * 60;
    if expiry > u64::MAX {
        Err(FormError::ExpiryOutOfRange)
    } else if btc_amount_of(amount_text) is None {
        Err(FormError::BadAmount)
    } else if confirmations_num < 0 {
        Err(FormError::NegativeConfirmations)
    } else {
        Ok(
            WaitOnParams {
                address,
                amount: btc_amount_of(amount_text)->Some_0,
                confirmations_num,
                timestamp: expiry as u64,
            },
        )
    }
}

/// Builds watch parameters from the parts of a request.
fn build_params(
    address: String,
    amount_in_btc: &String,
    confirmations_num: i32,
    expiry_in_mins: u64,
    now: u64,
) -> (r: Result<WaitOnParams, FormError>)
    ensures
        r == params_for(address, amount_in_btc@, confirmations_num, expiry_in_mins, now),
{
    let expiry = match expiry_in_mins.checked_mul(60) {
        Some(secs) => match now.checked_add(secs) {
            Some(t) => t,
            None => return Err(FormError::ExpiryOutOfRange),
        },
        None => return Err(FormError::ExpiryOutOfRange),
    };
    let amount = match parse_btc_amount(amount_in_btc.as_str()) {
        Some(a) => a,
        None => return Err(FormError::BadAmount),
    };
    if confirmations_num < 0 {
        return Err(FormError::NegativeConfirmations);
    }
    Ok(WaitOnParams { address, amount, confirmations_num, timestamp: expiry })
}

impl WaitOnForm {
    /// The watch parameters for this request made at time `now`, on the
    /// address it names; refused where it names none, and otherwise as
    /// `params_for` says.
    pub fn into_params(self, now: u64) -> (r: Result<WaitOnParams, FormError>)
        ensures
            r == match self.address {
                None => Err(FormError::MissingAddress),
                Some(a) => params_for(
                    a,
                    self.amount_in_btc@,
                    self.confirmations_num,
                    self.expiry_in_mins,
                    now,
                ),
            },
    {
        match self.address {
            None => Err(FormError::MissingAddress),
            Some(a) => build_params(
                a,
                &self.amount_in_btc,
                self.confirmations_num,
                self.expiry_in_mins,
                now,
            ),
        }
    }

    /// The watch parameters for this request made at time `now`, on a
    /// freshly made `address`; whatever address the request names is
    /// ignored.
    pub fn into_params_on(self, address: String, now: u64) -> (r: Result<WaitOnParams, FormError>)
        ensures
            r == params_for(
                address,
                self.amount_in_btc@,
                self.confirmations_num,
                self.expiry_in_mins,
                now,
            ),
    {
        build_params(address, &self.amount_in_btc, self.confirmations_num, self.expiry_in_mins, now)
    }
}

} // verus!
