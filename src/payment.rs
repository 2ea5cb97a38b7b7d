use vstd::prelude::*;
use crate::amount::{fee, fee_of, sum_of, FeeError};

verus! {

/// One output of a transaction: the script it pays to and its value in satoshis.
#[derive(Debug)]
pub struct TxOutput {
    pub script: Vec<u8>,
    pub value: u64,
}

/// The values of a list of outputs, in order.
pub open spec fn values_of(outputs: Seq<TxOutput>) -> Seq<u64> {
    outputs.map_values(|o: TxOutput| o.value)
}

/// Whether an output pays to the given script.
pub open spec fn pays_to(o: TxOutput, script: Seq<u8>) -> bool {
    o.script@ == script
}

/// Why the outputs of a payment could not be told apart.
#[derive(Debug, Clone, Copy, PartialEq, Eq, Structural)]
pub enum SplitError {
    /// A payment with change has exactly two outputs; this one has another number.
    NotTwoOutputs,
    /// Neither output pays the recipient.
    NoPaymentOutput,
    /// Both outputs pay the recipient, so there is no change.
    NoChangeOutput,
}

/// Which output of a two-output payment went to the recipient and which came back as change.
#[derive(Debug, Clone, Copy, PartialEq, Eq, Structural)]
pub struct PaymentSplit {
    pub payment: usize,
    pub change: usize,
}

/// How the outputs of a payment split between the recipient and the change.
pub open spec fn split_of(outputs: Seq<TxOutput>, recipient: Seq<u8>) -> Result<PaymentSplit, SplitError> {
    if outputs.len() != 2 {
        Err(SplitError::NotTwoOutputs)
    } else if pays_to(outputs[0], recipient) && pays_to(outputs[1], recipient) {
        Err(SplitError::NoChangeOutput)
    } else if pays_to(outputs[0], recipient) {
        Ok(PaymentSplit { payment: 0, change: 1 })
    } else if pays_to(outputs[1], recipient) {
        Ok(PaymentSplit { payment: 1, change: 0 })
    } else {
        Err(SplitError::NoPaymentOutput)
    }
}

fn same_bytes(a: &Vec<u8>, b: &Vec<u8>) -> (r: bool)
    ensures
        r == (a@ == b@),
{
    if a.len() != b.len() {
        return false;
    }
    let mut i: usize = 0;
    while i < a.len()
        invariant
            i <= a.len(),
            a.len() == b.len(),
            forall|k: int| 0 <= k < i ==> a@[k] == b@[k],
        decreases a.len() - i,
    {
        if a[i] != b[i] {
            return false;
        }
        i = i + 1;
    }
    assert(a@ =~= b@);
    true
}

/// Finds the payment output and the change output of a two-output payment
/// to `recipient`; any other shape of outputs is an error, never a guess.
pub fn split_outputs(outputs: &Vec<TxOutput>, recipient: &Vec<u8>) -> (r: Result<PaymentSplit, SplitError>)
    ensures
        r == split_of(outputs@, recipient@),
{
    if outputs.len() != 2 {
        return Err(SplitError::NotTwoOutputs);
    }
    let first = same_bytes(&outputs[0].script, recipient);
    let second = same_bytes(&outputs[1].script, recipient);
    if first && second {
        Err(SplitError::NoChangeOutput)
    } else if first {
        Ok(PaymentSplit { payment: 0, change: 1 })
    } else if second {
        Ok(PaymentSplit { payment: 1, change: 0 })
    } else {
        Err(SplitError::NoPaymentOutput)
    }
}

/// What a confirmed payment moved, in satoshis.
#[derive(Debug, Clone, Copy, PartialEq, Eq, Structural)]
pub struct Settlement {
    pub split: PaymentSplit,
    pub input_total: u64,
    pub payment_value: u64,
    pub change_value: u64,
    pub fee: u64,
}

/// Why a payment could not be accounted for.
#[derive(Debug, Clone, Copy, PartialEq, Eq, Structural)]
pub enum SettleError {
    Split(SplitError),
    Fee(FeeError),
}

/// The account of a payment to `recipient`.
pub open spec fn settlement_of(input_values: Seq<u64>, outputs: Seq<TxOutput>, recipient: Seq<u8>) -> Result<
    Settlement,
    SettleError,
> {
    match split_of(outputs, recipient) {
        Err(e) => Err(SettleError::Split(e)),
        Ok(split) => match fee_of(input_values, values_of(outputs)) {
            Err(e) => Err(SettleError::Fee(e)),
            Ok(f) => Ok(
                Settlement {
                    split,
                    input_total: sum_of(input_values) as u64,
                    payment_value: outputs[split.payment as int].value,
                    change_value: outputs[split.change as int].value,
                    fee: f,
                },
            ),
        },
    }
}

/// Accounts for a payment to `recipient`: which output is which, and the fee.
/// `input_values` are the values of the outputs that the payment's inputs spend.
pub fn settle(input_values: &Vec<u64>, outputs: &Vec<TxOutput>, recipient: &Vec<u8>) -> (r: Result<
    Settlement,
    SettleError,
>)
    ensures
        r == settlement_of(input_values@, outputs@, recipient@),
        split_of(outputs@, recipient@) is Err ==> r == Err::<Settlement, SettleError>(
            SettleError::Split(split_of(outputs@, recipient@)->Err_0),
        ),
        split_of(outputs@, recipient@) is Ok && fee_of(input_values@, values_of(outputs@)) is Err
            ==> r == Err::<Settlement, SettleError>(
            SettleError::Fee(fee_of(input_values@, values_of(outputs@))->Err_0),
        ),
        r is Ok <==> split_of(outputs@, recipient@) is Ok && fee_of(
            input_values@,
            values_of(outputs@),
        ) is Ok,
        r matches Ok(s) ==> {
            &&& s.split == split_of(outputs@, recipient@)->Ok_0
            &&& s.payment_value == outputs@[s.split.payment as int].value
            &&& s.change_value == outputs@[s.split.change as int].value
            &&& s.input_total == sum_of(input_values@)
            &&& s.fee == fee_of(input_values@, values_of(outputs@))->Ok_0
            &&& s.fee + s.payment_value + s.change_value == s.input_total
        },
{
    let split = match split_outputs(outputs, recipient) {
        Ok(s) => s,
        Err(e) => return Err(SettleError::Split(e)),
    };
    let values: Vec<u64> = vec![outputs[0].value, outputs[1].value];
    proof {
        assert(values@ =~= values_of(outputs@));
        assert(sum_of(values@) == outputs@[0].value + outputs@[1].value) by {
            reveal_with_fuel(sum_of, 3);
            assert(values@.drop_last().drop_last() =~= Seq::<u64>::empty());
        }
    }
    match fee(input_values, &values) {
        Ok(f) => {
            let input_total = f + outputs[0].value + outputs[1].value;
            Ok(
                Settlement {
                    split,
                    input_total,
                    payment_value: outputs[split.payment].value,
                    change_value: outputs[split.change].value,
                    fee: f,
                },
            )
        },
        Err(e) => Err(SettleError::Fee(e)),
    }
}

} // verus!
