use vstd::prelude::*;

verus! {

/// The money supply cap, in satoshis: no valid amount or sum of amounts exceeds it.
pub const MAX_MONEY: u64 = 2_100_000_000_000_000;

/// Satoshis in one coin.
pub const SAT_PER_COIN: u64 = 100_000_000;

/// The sum of a list of amounts, as a mathematical integer.
pub open spec fn sum_of(s: Seq<u64>) -> int
    decreases s.len(),
{
    if s.len() == 0 {
        0
    } else {
        sum_of(s.drop_last()) + s.last()
    }
}

/// A sum of amounts is never negative.
pub proof fn lemma_sum_nonneg(s: Seq<u64>)
    ensures
        sum_of(s) >= 0,
    decreases s.len(),
{
    if s.len() > 0 {
        lemma_sum_nonneg(s.drop_last());
    }
}

/// A prefix never sums to more than the whole list.
pub proof fn lemma_prefix_sum_le(s: Seq<u64>, k: int)
    requires
        0 <= k <= s.len(),
    ensures
        sum_of(s.subrange(0, k)) <= sum_of(s),
    decreases s.len(),
{
    if k < s.len() {
        assert(s.drop_last() =~= s.subrange(0, s.len() - 1));
        assert(s.drop_last().subrange(0, k) =~= s.subrange(0, k));
        lemma_prefix_sum_le(s.drop_last(), k);
    } else {
        assert(s.subrange(0, k) =~= s);
    }
}

/// Why a fee could not be computed.
#[derive(Debug, Clone, Copy, PartialEq, Eq, Structural)]
pub enum FeeError {
    /// The inputs or the outputs add up to more than the money supply.
    AmountOutOfRange,
    /// The outputs spend more than the inputs bring in.
    OutputsExceedInputs,
}

/// The fee of a transaction whose inputs and outputs carry these values.
pub open spec fn fee_of(inputs: Seq<u64>, outputs: Seq<u64>) -> Result<u64, FeeError> {
    if sum_of(inputs) > MAX_MONEY || sum_of(outputs) > MAX_MONEY {
        Err(FeeError::AmountOutOfRange)
    } else if sum_of(outputs) > sum_of(inputs) {
        Err(FeeError::OutputsExceedInputs)
    } else {
        Ok((sum_of(inputs) - sum_of(outputs)) as u64)
    }
}

/// Adds up a list of amounts; `None` where the sum exceeds the money supply.
pub fn total(values: &Vec<u64>) -> (r: Option<u64>)
    ensures
        match r {
            Some(t) => t == sum_of(values@) && t <= MAX_MONEY,
            None => sum_of(values@) > MAX_MONEY,
        },
{
    let mut acc: u64 = 0;
    let mut i: usize = 0;
    while i < values.len()
        invariant
            i <= values.len(),
            acc == sum_of(values@.subrange(0, i as int)),
            acc <= MAX_MONEY,
        decreases values.len() - i,
    {
        assert(values@.subrange(0, i + 1).drop_last() =~= values@.subrange(0, i as int));
        if values[i] > MAX_MONEY - acc {
            proof {
                lemma_prefix_sum_le(values@, i + 1);
            }
            return None;
        }
        acc = acc + values[i];
        i = i + 1;
    }
    assert(values@.subrange(0, i as int) =~= values@);
    Some(acc)
}

/// The fee of a transaction: what its inputs bring in less what its outputs
/// pay out, all in satoshis, so no rounding enters.
pub fn fee(inputs: &Vec<u64>, outputs: &Vec<u64>) -> (r: Result<u64, FeeError>)
    ensures
        r == fee_of(inputs@, outputs@),
{
    let tin = total(inputs);
    let tout = total(outputs);
    match (tin, tout) {
        (Some(a), Some(b)) => {
            if b > a {
                Err(FeeError::OutputsExceedInputs)
            } else {
                Ok(a - b)
            }
        },
        _ => Err(FeeError::AmountOutOfRange),
    }
}

/// The fee of a valid transaction (its amounts within the money supply, its
/// outputs not spending more than its inputs) is computed, is never negative,
/// and is exactly what makes the outputs and the fee add up to the inputs.
pub proof fn lemma_fee_balances(inputs: Seq<u64>, outputs: Seq<u64>)
    requires
        sum_of(inputs) <= MAX_MONEY,
        sum_of(outputs) <= sum_of(inputs),
    ensures
        fee_of(inputs, outputs) is Ok,
        fee_of(inputs, outputs)->Ok_0 >= 0,
        fee_of(inputs, outputs)->Ok_0 + sum_of(outputs) == sum_of(inputs),
{
    lemma_sum_nonneg(outputs);
}

} // verus!
