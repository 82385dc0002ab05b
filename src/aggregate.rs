use vstd::prelude::*;
use crate::webhook::Webhook;

verus! {

/// What a transaction lookup reported: the transaction's value in satoshis
/// (signed, as the ledger reports it for the wallet) and its current number
/// of confirmations.
#[derive(Debug, Clone, Copy, PartialEq, Eq, Structural)]
pub struct TxInfo {
    pub amount: i64,
    pub confirmations: i32,
}

/// The largest value a signed ledger amount can hold.
pub const MAX_SIGNED_AMOUNT: i64 = 0x7fff_ffff_ffff_ffff;

/// Whether a lookup passes the depth filter: it answered, and its
/// transaction has at least `required` confirmations.
pub open spec fn is_retained(t: Option<TxInfo>, required: int) -> bool {
    t is Some && t->Some_0.confirmations >= required
}

/// How many lookups pass the depth filter.
pub open spec fn retained_count(s: Seq<Option<TxInfo>>, required: int) -> nat
    decreases s.len(),
{
    if s.len() == 0 {
        0
    } else {
        retained_count(s.drop_last(), required) + if is_retained(s.last(), required) {
            1nat
        } else {
            0nat
        }
    }
}

/// The sum of the values of the lookups that pass the depth filter.
pub open spec fn retained_value(s: Seq<Option<TxInfo>>, required: int) -> int
    decreases s.len(),
{
    if s.len() == 0 {
        0
    } else {
        retained_value(s.drop_last(), required) + if is_retained(s.last(), required) {
            s.last()->Some_0.amount as int
        } else {
            0
        }
    }
}

/// The sum of the confirmation counts of the lookups that pass the depth
/// filter.
pub open spec fn retained_confirmations(s: Seq<Option<TxInfo>>, required: int) -> int
    decreases s.len(),
{
    if s.len() == 0 {
        0
    } else {
        retained_confirmations(s.drop_last(), required) + if is_retained(s.last(), required) {
            s.last()->Some_0.confirmations as int
        } else {
            0
        }
    }
}

/// The confirmed amount and the representative confirmation count of a
/// set of lookups: `(0, 0)` where none passes the depth filter; otherwise
/// the sum of the retained values and the mean (rounded down) of the
/// retained confirmation counts. `None` where the retained values add up to
/// less than zero or to more than a signed amount can hold.
pub open spec fn aggregate(s: Seq<Option<TxInfo>>, required: int) -> Option<(u64, i32)> {
    let n = retained_count(s, required);
    let v = retained_value(s, required);
    if n == 0 {
        Some((0u64, 0i32))
    } else if v < 0 || v > MAX_SIGNED_AMOUNT {
        None
    } else {
        Some((v as u64, (retained_confirmations(s, required) / (n as int)) as i32))
    }
}

/// Reduces the lookups of the transactions behind a scan to the confirmed
/// amount and a representative confirmation count.
///
/// `lookups` holds one entry per unspent output: `None` where looking up
/// its transaction failed, which skips it. Only transactions with at least
/// the watch's required number of confirmations count. The representative count
/// is the mean of their confirmation counts, rounded down: a coarse summary,
/// not the smallest count.
pub fn scan_utxo_transactions(lookups: &Vec<Option<TxInfo>>, wb: &Webhook) -> (r: Option<(u64, i32)>)
    requires
        wb.required_confirmations_num >= 0,
    ensures
        r == aggregate(lookups@, wb.required_confirmations_num as int),
{
    let required_confirmations = wb.required_confirmations_num;
    let ghost s = lookups@;
    let ghost req = required_confirmations as int;
    let mut value: i128 = 0;
    let mut confirmations: u128 = 0;
    let mut count: usize = 0;
    let mut i: usize = 0;
    while i < lookups.len()
        invariant
            i <= s.len(),
            s == lookups@,
            req == required_confirmations as int,
            req >= 0,
            count <= i,
            count == retained_count(s.take(i as int), req),
            value == retained_value(s.take(i as int), req),
            confirmations == retained_confirmations(s.take(i as int), req),
            -(i as int) * 0x8000_0000_0000_0000 <= value <= (i as int) * 0x8000_0000_0000_0000,
            0 <= confirmations <= (count as int) * 0x7fff_ffff,
        decreases s.len() - i,
    {
        assert(s.take(i as int + 1).drop_last() =~= s.take(i as int));
        assert(s.take(i as int + 1).last() == s[i as int]);
        match lookups[i] {
            Some(t) => {
                if t.confirmations >= required_confirmations {
                    value = value + t.amount as i128;
                    confirmations = confirmations + t.confirmations as u128;
                    count = count + 1;
                }
            },
            None => {},
        }
        i = i + 1;
    }
    assert(s.take(s.len() as int) =~= s);
    if count == 0 {
        return Some((0, 0));
    }
    if value < 0 || value > MAX_SIGNED_AMOUNT as i128 {
        return None;
    }
    let mean: u128 = confirmations / (count as u128);
    assert(mean <= 0x7fff_ffff) by (nonlinear_arith)
        requires
            mean == confirmations / (count as u128),
            count > 0,
            confirmations <= (count as int) * 0x7fff_ffff,
    ;
    Some((value as u64, mean as i32))
}

} // verus!
