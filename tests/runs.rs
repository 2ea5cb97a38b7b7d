use bitcoin::{Address, Network, ScriptBuf};
use regtest_flow::{
    check_address, Action, AddressError, Chain, EnsureWallet, Reply, Run, RunError, RpcFailure,
    SettleError, SplitError, Stage, TxOutput, WalletRole, PAYMENT_SAT, SAT_PER_COIN,
};

fn regtest_address(byte: u8) -> (String, Vec<u8>) {
    let a = Address::p2wsh(ScriptBuf::from_bytes(vec![byte]).as_script(), Network::Regtest);
    (a.to_string(), a.script_pubkey().into_bytes())
}

#[test]
fn regtest_address_checks_on_regtest() {
    let (text, script) = regtest_address(0x51);
    assert_eq!(check_address(&text, Chain::Regtest), Ok(script));
}

#[test]
fn regtest_address_fails_on_other_chains() {
    let (text, _) = regtest_address(0x51);
    assert_eq!(check_address(&text, Chain::Bitcoin), Err(AddressError::NetworkMismatch));
    assert_eq!(check_address(&text, Chain::Testnet), Err(AddressError::NetworkMismatch));
    assert_eq!(check_address(&text, Chain::Signet), Err(AddressError::NetworkMismatch));
}

#[test]
fn garbage_is_no_address() {
    assert_eq!(check_address("not an address", Chain::Regtest), Err(AddressError::NetworkMismatch));
    assert_eq!(check_address("", Chain::Regtest), Err(AddressError::NetworkMismatch));
}

/// Drives a run up to the point where the trader's address was accepted.
fn run_to_send(miner: &str, trader: &str) -> Run {
    let (mut run, first) = Run::new(Chain::Regtest);
    assert!(matches!(first, Action::GetChainInfo));
    assert!(matches!(run.advance(Reply::Done), Action::CreateWallet(WalletRole::Miner)));
    let exists = RpcFailure { code: -4, message: "Database already exists.".to_string() };
    assert!(matches!(run.advance(Reply::Failed(exists)), Action::LoadWallet(WalletRole::Miner)));
    assert!(matches!(run.advance(Reply::Done), Action::CreateWallet(WalletRole::Trader)));
    assert!(matches!(run.advance(Reply::Done), Action::NewAddress(WalletRole::Miner)));
    match run.advance(Reply::Address(miner.to_string())) {
        Action::Mine { blocks, to } => {
            assert_eq!(blocks, 103);
            assert_eq!(to, miner);
        }
        other => panic!("unexpected {other:?}"),
    }
    assert!(matches!(run.advance(Reply::Done), Action::GetBalance(WalletRole::Miner)));
    assert!(matches!(run.advance(Reply::Balance(150 * SAT_PER_COIN)), Action::NewAddress(WalletRole::Trader)));
    match run.advance(Reply::Address(trader.to_string())) {
        Action::Send { from, to, amount } => {
            assert_eq!(from, WalletRole::Miner);
            assert_eq!(to, trader);
            assert_eq!(amount, 20 * SAT_PER_COIN);
        }
        other => panic!("unexpected {other:?}"),
    }
    run
}

#[test]
fn whole_run_reports_the_fee() {
    let (miner, miner_script) = regtest_address(0x51);
    let (trader, trader_script) = regtest_address(0x52);
    let mut run = run_to_send(&miner, &trader);
    match run.advance(Reply::Txid("ab".repeat(32))) {
        Action::GetMempoolEntry(t) => assert_eq!(t, "ab".repeat(32)),
        other => panic!("unexpected {other:?}"),
    }
    match run.advance(Reply::Done) {
        Action::Mine { blocks, to } => {
            assert_eq!(blocks, 1);
            assert_eq!(to, miner);
        }
        other => panic!("unexpected {other:?}"),
    }
    assert!(matches!(run.advance(Reply::Done), Action::GetTransaction(_)));
    let outputs = vec![
        TxOutput { script: trader_script, value: PAYMENT_SAT },
        TxOutput { script: miner_script, value: 29 * SAT_PER_COIN + 99_990_000 },
    ];
    let hash = "cd".repeat(32);
    match run.advance(Reply::Transaction { block_hash: Some(hash.clone()), outputs }) {
        Action::GetBlock(h) => assert_eq!(h, hash),
        other => panic!("unexpected {other:?}"),
    }
    assert!(matches!(run.advance(Reply::Height(104)), Action::GetInputValues(_)));
    match run.advance(Reply::InputValues(vec![50 * SAT_PER_COIN])) {
        Action::Finish(report) => {
            assert_eq!(report.miner_address, miner);
            assert_eq!(report.trader_address, trader);
            assert_eq!(report.miner_balance, 150 * SAT_PER_COIN);
            assert_eq!(report.block_height, 104);
            assert_eq!(report.block_hash, hash);
            assert_eq!(report.settlement.payment_value, 20 * SAT_PER_COIN);
            assert_eq!(report.settlement.change_value, 29 * SAT_PER_COIN + 99_990_000);
            assert_eq!(report.settlement.fee, 10_000);
        }
        other => panic!("unexpected {other:?}"),
    }
    assert_eq!(run.stage, Stage::Finished);
}

#[test]
fn unreachable_node_is_a_connection_error() {
    let (mut run, _) = Run::new(Chain::Regtest);
    assert!(matches!(run.advance(Reply::Unreachable), Action::Abort(RunError::Connection)));
    assert_eq!(run.stage, Stage::Aborted);
}

#[test]
fn node_error_ends_the_run() {
    let (mut run, _) = Run::new(Chain::Regtest);
    let f = RpcFailure { code: -28, message: "Loading block index".to_string() };
    match run.advance(Reply::Failed(f)) {
        Action::Abort(RunError::Rpc(f)) => assert_eq!(f.code, -28),
        other => panic!("unexpected {other:?}"),
    }
}

#[test]
fn real_wallet_failure_ends_the_run() {
    let (mut run, _) = Run::new(Chain::Regtest);
    run.advance(Reply::Done);
    let f = RpcFailure { code: -4, message: "Error: disk full".to_string() };
    assert!(matches!(run.advance(Reply::Failed(f)), Action::Abort(RunError::WalletUnavailable(WalletRole::Miner))));
    assert_eq!(run.stage, Stage::Aborted);
}

#[test]
fn wallet_stage_moves_to_load() {
    let (mut run, _) = Run::new(Chain::Regtest);
    run.advance(Reply::Done);
    run.advance(Reply::Failed(RpcFailure { code: -36, message: String::new() }));
    assert_eq!(run.stage, Stage::MinerWallet(EnsureWallet::Load));
}

#[test]
fn mainnet_address_from_a_regtest_node_is_refused() {
    let (mut run, _) = Run::new(Chain::Regtest);
    run.advance(Reply::Done);
    run.advance(Reply::Done);
    run.advance(Reply::Done);
    let a = Address::p2wsh(ScriptBuf::from_bytes(vec![0x51]).as_script(), Network::Bitcoin).to_string();
    assert!(matches!(run.advance(Reply::Address(a)), Action::Abort(RunError::AddressNetworkMismatch(WalletRole::Miner))));
}

#[test]
fn unexpected_reply_ends_the_run() {
    let (mut run, _) = Run::new(Chain::Regtest);
    assert!(matches!(run.advance(Reply::Height(3)), Action::Abort(RunError::UnexpectedReply)));
    assert!(matches!(run.advance(Reply::Done), Action::Abort(RunError::UnexpectedReply)));
}

#[test]
fn unconfirmed_transaction_ends_the_run() {
    let (miner, _) = regtest_address(0x51);
    let (trader, _) = regtest_address(0x52);
    let mut run = run_to_send(&miner, &trader);
    run.advance(Reply::Txid("ab".repeat(32)));
    run.advance(Reply::Done);
    run.advance(Reply::Done);
    let r = run.advance(Reply::Transaction { block_hash: None, outputs: vec![] });
    assert!(matches!(r, Action::Abort(RunError::NotConfirmed)));
}

#[test]
fn payment_with_three_outputs_is_refused() {
    let (miner, miner_script) = regtest_address(0x51);
    let (trader, trader_script) = regtest_address(0x52);
    let mut run = run_to_send(&miner, &trader);
    run.advance(Reply::Txid("ab".repeat(32)));
    run.advance(Reply::Done);
    run.advance(Reply::Done);
    let outputs = vec![
        TxOutput { script: trader_script, value: PAYMENT_SAT },
        TxOutput { script: miner_script.clone(), value: 10 * SAT_PER_COIN },
        TxOutput { script: miner_script, value: 10 * SAT_PER_COIN },
    ];
    run.advance(Reply::Transaction { block_hash: Some("cd".repeat(32)), outputs });
    run.advance(Reply::Height(104));
    let r = run.advance(Reply::InputValues(vec![50 * SAT_PER_COIN]));
    assert!(matches!(r, Action::Abort(RunError::Settle(SettleError::Split(SplitError::NotTwoOutputs)))));
}
