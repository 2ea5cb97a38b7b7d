use regtest_flow::{
    fee, settle, split_outputs, total, FeeError, PaymentSplit, SettleError, SplitError, TxOutput,
    MAX_MONEY, SAT_PER_COIN,
};

fn out(script: &[u8], value: u64) -> TxOutput {
    TxOutput { script: script.to_vec(), value }
}

#[test]
fn total_adds_amounts() {
    assert_eq!(total(&vec![]), Some(0));
    assert_eq!(total(&vec![1, 2, 3]), Some(6));
    assert_eq!(total(&vec![MAX_MONEY]), Some(MAX_MONEY));
}

#[test]
fn total_refuses_more_than_the_money_supply() {
    assert_eq!(total(&vec![MAX_MONEY, 1]), None);
    assert_eq!(total(&vec![u64::MAX, u64::MAX]), None);
}

#[test]
fn fee_is_inputs_less_outputs_exactly() {
    // 20.0001 coins in, 20 coins paid, 0.00005 coins of change.
    let input = 20 * SAT_PER_COIN + 10_000;
    let payment = 20 * SAT_PER_COIN;
    let change = 5_000;
    assert_eq!(fee(&vec![input], &vec![payment, change]), Ok(5_000));
}

#[test]
fn fee_of_several_inputs_and_outputs() {
    assert_eq!(fee(&vec![50 * SAT_PER_COIN, 50 * SAT_PER_COIN], &vec![70 * SAT_PER_COIN, 29 * SAT_PER_COIN, 99_990_000]), Ok(10_000));
    assert_eq!(fee(&vec![7], &vec![7]), Ok(0));
    assert_eq!(fee(&vec![], &vec![]), Ok(0));
}

#[test]
fn fee_errors() {
    assert_eq!(fee(&vec![10], &vec![11]), Err(FeeError::OutputsExceedInputs));
    assert_eq!(fee(&vec![MAX_MONEY, 1], &vec![1]), Err(FeeError::AmountOutOfRange));
    assert_eq!(fee(&vec![5], &vec![MAX_MONEY, MAX_MONEY]), Err(FeeError::AmountOutOfRange));
}

#[test]
fn split_finds_payment_either_way_round() {
    let to = vec![0x00, 0x14, 0xaa];
    let outputs = vec![out(&[0x00, 0x14, 0xaa], 100), out(&[0x51], 5)];
    assert_eq!(split_outputs(&outputs, &to), Ok(PaymentSplit { payment: 0, change: 1 }));
    let outputs = vec![out(&[0x51], 5), out(&[0x00, 0x14, 0xaa], 100)];
    assert_eq!(split_outputs(&outputs, &to), Ok(PaymentSplit { payment: 1, change: 0 }));
}

#[test]
fn split_refuses_other_shapes() {
    let to = vec![0x00, 0x14, 0xaa];
    let three = vec![out(&to, 1), out(&[0x51], 2), out(&[0x52], 3)];
    assert_eq!(split_outputs(&three, &to), Err(SplitError::NotTwoOutputs));
    let one = vec![out(&to, 1)];
    assert_eq!(split_outputs(&one, &to), Err(SplitError::NotTwoOutputs));
    assert_eq!(split_outputs(&vec![], &to), Err(SplitError::NotTwoOutputs));
    let none = vec![out(&[0x51], 1), out(&[0x00, 0x14], 2)];
    assert_eq!(split_outputs(&none, &to), Err(SplitError::NoPaymentOutput));
    let both = vec![out(&to, 1), out(&to, 2)];
    assert_eq!(split_outputs(&both, &to), Err(SplitError::NoChangeOutput));
}

#[test]
fn settle_accounts_for_a_payment() {
    let to = vec![0x00, 0x14, 0xaa];
    let outputs = vec![out(&[0x51], 9_990_000), out(&to, 20 * SAT_PER_COIN)];
    let s = settle(&vec![50 * SAT_PER_COIN, 10_000], &outputs, &to);
    let s = s.unwrap();
    assert_eq!(s.split, PaymentSplit { payment: 1, change: 0 });
    assert_eq!(s.input_total, 50 * SAT_PER_COIN + 10_000);
    assert_eq!(s.payment_value, 20 * SAT_PER_COIN);
    assert_eq!(s.change_value, 9_990_000);
    assert_eq!(s.fee, 50 * SAT_PER_COIN + 10_000 - 20 * SAT_PER_COIN - 9_990_000);
}

#[test]
fn settle_errors() {
    let to = vec![0x51];
    let three = vec![out(&to, 1), out(&[0x52], 1), out(&[0x53], 1)];
    assert_eq!(settle(&vec![10], &three, &to), Err(SettleError::Split(SplitError::NotTwoOutputs)));
    let two = vec![out(&to, 6), out(&[0x52], 6)];
    assert_eq!(settle(&vec![10], &two, &to), Err(SettleError::Fee(FeeError::OutputsExceedInputs)));
}
