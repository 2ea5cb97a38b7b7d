use vstd::prelude::*;
use crate::address::{address_script, check_address, Chain};
use crate::maturity::{blocks_to_mine, mature_rewards};
use crate::payment::{settle, settlement_of, SettleError, Settlement, TxOutput};
use crate::wallet::{ensure_wallet_step, kind_of, next_ensure, EnsureWallet, RpcFailure, WalletReply};

verus! {

/// Block rewards that must have matured before the payment is made.
pub const MATURED_REWARDS: u64 = 3;

/// The payment from one wallet to the other, in satoshis (twenty coins).
pub const PAYMENT_SAT: u64 = 2_000_000_000;

/// Blocks mined to confirm the payment.
pub const CONFIRMING_BLOCKS: u64 = 1;

/// The two wallets of a run: one mines and pays, the other receives.
#[derive(Debug, Clone, Copy, PartialEq, Eq, Structural)]
pub enum WalletRole {
    Miner,
    Trader,
}

pub open spec fn role_name(role: WalletRole) -> Seq<char> {
    match role {
        WalletRole::Miner => seq!['M', 'i', 'n', 'e', 'r'],
        WalletRole::Trader => seq!['T', 'r', 'a', 'd', 'e', 'r'],
    }
}

impl WalletRole {
    /// The name of the wallet on the node.
    pub fn name(&self) -> (r: &'static str)
        ensures
            r@ == role_name(*self),
    {
        match self {
            WalletRole::Miner => {
                proof {
                    reveal_strlit("Miner");
                }
                "Miner"
            },
            WalletRole::Trader => {
                proof {
                    reveal_strlit("Trader");
                }
                "Trader"
            },
        }
    }
}

/// Where a run stands: the call whose reply it waits for.
#[derive(Debug, Clone, Copy, PartialEq, Eq, Structural)]
pub enum Stage {
    ChainInfo,
    MinerWallet(EnsureWallet),
    TraderWallet(EnsureWallet),
    MinerAddress,
    Funding,
    Balance,
    TraderAddress,
    Sending,
    Mempool,
    Confirming,
    Fetching,
    BlockInfo,
    Inputs,
    Finished,
    Aborted,
}

/// What the node answered to the last action, in plain values.
#[derive(Debug)]
pub enum Reply {
    /// The node could not be reached, or turned the credentials down.
    Unreachable,
    /// The node sent back an error payload.
    Failed(RpcFailure),
    /// The call succeeded and its result is not needed.
    Done,
    /// A new address.
    Address(String),
    /// A wallet balance, in satoshis.
    Balance(u64),
    /// The id of a transaction that was sent.
    Txid(String),
    /// A transaction: the block holding it, if any, and its outputs.
    Transaction { block_hash: Option<String>, outputs: Vec<TxOutput> },
    /// The height of a block.
    Height(u64),
    /// The values of the outputs that a transaction's inputs spend, in input order.
    InputValues(Vec<u64>),
}

/// Why a run stopped before its end.
#[derive(Debug)]
pub enum RunError {
    Connection,
    Rpc(RpcFailure),
    WalletUnavailable(WalletRole),
    AddressNetworkMismatch(WalletRole),
    NotConfirmed,
    Settle(SettleError),
    UnexpectedReply,
}

/// What a finished run found out.
#[derive(Debug)]
pub struct Report {
    pub miner_address: String,
    pub miner_balance: u64,
    pub trader_address: String,
    pub txid: String,
    pub block_hash: String,
    pub block_height: u64,
    pub settlement: Settlement,
}

/// The next thing to ask of the node, or the end of the run.
#[derive(Debug)]
pub enum Action {
    GetChainInfo,
    CreateWallet(WalletRole),
    LoadWallet(WalletRole),
    NewAddress(WalletRole),
    Mine { blocks: u64, to: String },
    GetBalance(WalletRole),
    Send { from: WalletRole, to: String, amount: u64 },
    GetMempoolEntry(String),
    GetTransaction(String),
    GetBlock(String),
    GetInputValues(String),
    Finish(Report),
    Abort(RunError),
}

/// The state of one run of the walk-through.
#[derive(Debug)]
pub struct Run {
    pub stage: Stage,
    pub chain: Chain,
    pub miner_address: String,
    pub miner_balance: u64,
    pub trader_address: String,
    pub trader_script: Vec<u8>,
    pub txid: String,
    pub block_hash: String,
    pub block_height: u64,
    pub outputs: Vec<TxOutput>,
}

/// Whether `reply` is the kind of answer that `stage` waits for.
pub open spec fn awaits(stage: Stage, reply: Reply) -> bool {
    match stage {
        Stage::ChainInfo | Stage::Funding | Stage::Mempool | Stage::Confirming => reply is Done,
        Stage::MinerWallet(step) | Stage::TraderWallet(step) => (step == EnsureWallet::Create || step
            == EnsureWallet::Load) && (reply is Done || reply is Failed),
        Stage::MinerAddress | Stage::TraderAddress => reply is Address,
        Stage::Balance => reply is Balance,
        Stage::Sending => reply is Txid,
        Stage::Fetching => reply is Transaction,
        Stage::BlockInfo => reply is Height,
        Stage::Inputs => reply is InputValues,
        Stage::Finished | Stage::Aborted => false,
    }
}

/// The error that ends a run on a reply that its stage does not wait for.
pub open spec fn abort_for(reply: Reply) -> RunError {
    match reply {
        Reply::Unreachable => RunError::Connection,
        Reply::Failed(f) => RunError::Rpc(f),
        _ => RunError::UnexpectedReply,
    }
}

/// A reply to a wallet call, as the ensure steps see it.
pub open spec fn wallet_reply(reply: Reply) -> WalletReply {
    match reply {
        Reply::Failed(f) => Some(kind_of(f.code, f.message@)),
        _ => None,
    }
}

/// Whether two states of a run hold the same data, whatever their stages.
pub open spec fn same_data(a: Run, b: Run) -> bool {
    &&& a.chain == b.chain
    &&& a.miner_address == b.miner_address
    &&& a.miner_balance == b.miner_balance
    &&& a.trader_address == b.trader_address
    &&& a.trader_script == b.trader_script
    &&& a.txid == b.txid
    &&& a.block_hash == b.block_hash
    &&& a.block_height == b.block_height
    &&& a.outputs == b.outputs
}

impl Run {
    /// Starts a run against a node of `chain`: the first call asks for the chain's state.
    pub fn new(chain: Chain) -> (r: (Run, Action))
        ensures
            r.0.stage == Stage::ChainInfo,
            r.0.chain == chain,
            r.1 is GetChainInfo,
    {
        let run = Run {
            stage: Stage::ChainInfo,
            chain,
            miner_address: String::new(),
            miner_balance: 0,
            trader_address: String::new(),
            trader_script: Vec::new(),
            txid: String::new(),
            block_hash: String::new(),
            block_height: 0,
            outputs: Vec::new(),
        };
        (run, Action::GetChainInfo)
    }

    fn abort(&mut self, reply: Reply) -> (r: Action)
        ensures
            final(self).stage == Stage::Aborted,
            same_data(*old(self), *final(self)),
            r == Action::Abort(abort_for(reply)),
    {
        self.stage = Stage::Aborted;
        match reply {
            Reply::Unreachable => Action::Abort(RunError::Connection),
            Reply::Failed(f) => Action::Abort(RunError::Rpc(f)),
            _ => Action::Abort(RunError::UnexpectedReply),
        }
    }

    fn wallet_answer(&mut self, role: WalletRole, step: EnsureWallet, reply: Reply) -> (r: Action)
        requires
            reply is Done || reply is Failed,
        ensures
            same_data(*old(self), *final(self)),
            next_ensure(step, wallet_reply(reply)) == EnsureWallet::Ready ==> (role
                == WalletRole::Miner ==> final(self).stage == Stage::TraderWallet(EnsureWallet::Create)
                && r == Action::CreateWallet(WalletRole::Trader)) && (role == WalletRole::Trader
                ==> final(self).stage == Stage::MinerAddress && r == Action::NewAddress(
                WalletRole::Miner,
            )),
            next_ensure(step, wallet_reply(reply)) == EnsureWallet::Load ==> final(self).stage == (
            if role == WalletRole::Miner {
                Stage::MinerWallet(EnsureWallet::Load)
            } else {
                Stage::TraderWallet(EnsureWallet::Load)
            }) && r == Action::LoadWallet(role),
            next_ensure(step, wallet_reply(reply)) != EnsureWallet::Ready && next_ensure(
                step,
                wallet_reply(reply),
            ) != EnsureWallet::Load ==> final(self).stage == Stage::Aborted && r == Action::Abort(
                RunError::WalletUnavailable(role),
            ),
    {
        let answer: Result<(), RpcFailure> = match reply {
            Reply::Failed(f) => Err(f),
            _ => Ok(()),
        };
        let next = ensure_wallet_step(step, &answer);
        match next {
            EnsureWallet::Ready => match role {
                WalletRole::Miner => {
                    self.stage = Stage::TraderWallet(EnsureWallet::Create);
                    Action::CreateWallet(WalletRole::Trader)
                },
                WalletRole::Trader => {
                    self.stage = Stage::MinerAddress;
                    Action::NewAddress(WalletRole::Miner)
                },
            },
            EnsureWallet::Load => {
                self.stage = match role {
                    WalletRole::Miner => Stage::MinerWallet(EnsureWallet::Load),
                    WalletRole::Trader => Stage::TraderWallet(EnsureWallet::Load),
                };
                Action::LoadWallet(role)
            },
            _ => {
                self.stage = Stage::Aborted;
                Action::Abort(RunError::WalletUnavailable(role))
            },
        }
    }
    /// Takes the node's reply to the last action and decides the next one.
    /// The run fails fast: a reply that the stage does not wait for, or an
    /// error from the node, ends it, except that a wallet which is already
    /// there is no error.
    pub fn advance(&mut self, reply: Reply) -> (r: Action)
        ensures
            final(self).chain == old(self).chain,
            old(self).stage != Stage::MinerAddress ==> final(self).miner_address == old(
                self,
            ).miner_address,
            old(self).stage != Stage::Balance ==> final(self).miner_balance == old(self).miner_balance,
            old(self).stage != Stage::TraderAddress ==> final(self).trader_address == old(
                self,
            ).trader_address && final(self).trader_script == old(self).trader_script,
            old(self).stage != Stage::Sending ==> final(self).txid == old(self).txid,
            old(self).stage != Stage::Fetching ==> final(self).block_hash == old(self).block_hash
                && final(self).outputs == old(self).outputs,
            old(self).stage != Stage::BlockInfo ==> final(self).block_height == old(self).block_height,
            !awaits(old(self).stage, reply) ==> final(self).stage == Stage::Aborted && r
                == Action::Abort(abort_for(reply)),
            awaits(old(self).stage, reply) ==> match old(self).stage {
                Stage::ChainInfo => final(self).stage == Stage::MinerWallet(EnsureWallet::Create) && r
                    == Action::CreateWallet(WalletRole::Miner),
                Stage::MinerWallet(step) => match next_ensure(step, wallet_reply(reply)) {
                    EnsureWallet::Ready => final(self).stage == Stage::TraderWallet(
                        EnsureWallet::Create,
                    ) && r == Action::CreateWallet(WalletRole::Trader),
                    EnsureWallet::Load => final(self).stage == Stage::MinerWallet(EnsureWallet::Load)
                        && r == Action::LoadWallet(WalletRole::Miner),
                    _ => final(self).stage == Stage::Aborted && r == Action::Abort(
                        RunError::WalletUnavailable(WalletRole::Miner),
                    ),
                },
                Stage::TraderWallet(step) => match next_ensure(step, wallet_reply(reply)) {
                    EnsureWallet::Ready => final(self).stage == Stage::MinerAddress && r
                        == Action::NewAddress(WalletRole::Miner),
                    EnsureWallet::Load => final(self).stage == Stage::TraderWallet(EnsureWallet::Load)
                        && r == Action::LoadWallet(WalletRole::Trader),
                    _ => final(self).stage == Stage::Aborted && r == Action::Abort(
                        RunError::WalletUnavailable(WalletRole::Trader),
                    ),
                },
                Stage::MinerAddress => {
                    let s = reply->Address_0;
                    match address_script(s@, old(self).chain) {
                        Some(_) => {
                            &&& final(self).stage == Stage::Funding
                            &&& final(self).miner_address == s
                            &&& r matches Action::Mine { blocks, to } && blocks
                                == MATURED_REWARDS + crate::maturity::COINBASE_MATURITY
                                && mature_rewards(blocks as nat) == MATURED_REWARDS && to@ == s@
                        },
                        None => final(self).stage == Stage::Aborted && r == Action::Abort(
                            RunError::AddressNetworkMismatch(WalletRole::Miner),
                        ),
                    }
                },
                Stage::Funding => final(self).stage == Stage::Balance && r == Action::GetBalance(
                    WalletRole::Miner,
                ),
                Stage::Balance => final(self).stage == Stage::TraderAddress && final(self).miner_balance
                    == reply->Balance_0 && r == Action::NewAddress(WalletRole::Trader),
                Stage::TraderAddress => {
                    let s = reply->Address_0;
                    match address_script(s@, old(self).chain) {
                        Some(script) => {
                            &&& final(self).stage == Stage::Sending
                            &&& final(self).trader_address == s
                            &&& final(self).trader_script@ == script
                            &&& r matches Action::Send { from, to, amount } && from
                                == WalletRole::Miner && to@ == s@ && amount == PAYMENT_SAT
                        },
                        None => final(self).stage == Stage::Aborted && r == Action::Abort(
                            RunError::AddressNetworkMismatch(WalletRole::Trader),
                        ),
                    }
                },
                Stage::Sending => {
                    &&& final(self).stage == Stage::Mempool
                    &&& final(self).txid == reply->Txid_0
                    &&& r matches Action::GetMempoolEntry(t) && t@ == reply->Txid_0@
                },
                Stage::Mempool => {
                    &&& final(self).stage == Stage::Confirming
                    &&& r matches Action::Mine { blocks, to } && blocks == CONFIRMING_BLOCKS && to@
                        == old(self).miner_address@
                },
                Stage::Confirming => {
                    &&& final(self).stage == Stage::Fetching
                    &&& r matches Action::GetTransaction(t) && t@ == old(self).txid@
                },
                Stage::Fetching => match reply->Transaction_block_hash {
                    None => final(self).stage == Stage::Aborted && r == Action::Abort(
                        RunError::NotConfirmed,
                    ),
                    Some(h) => {
                        &&& final(self).stage == Stage::BlockInfo
                        &&& final(self).block_hash == h
                        &&& final(self).outputs == reply->Transaction_outputs
                        &&& r matches Action::GetBlock(b) && b@ == h@
                    },
                },
                Stage::BlockInfo => {
                    &&& final(self).stage == Stage::Inputs
                    &&& final(self).block_height == reply->Height_0
                    &&& r matches Action::GetInputValues(t) && t@ == old(self).txid@
                },
                Stage::Inputs => match settlement_of(
                    reply->InputValues_0@,
                    old(self).outputs@,
                    old(self).trader_script@,
                ) {
                    Ok(settlement) => {
                        &&& final(self).stage == Stage::Finished
                        &&& r matches Action::Finish(report) && {
                            &&& report.settlement == settlement
                            &&& report.miner_address@ == old(self).miner_address@
                            &&& report.miner_balance == old(self).miner_balance
                            &&& report.trader_address@ == old(self).trader_address@
                            &&& report.txid@ == old(self).txid@
                            &&& report.block_hash@ == old(self).block_hash@
                            &&& report.block_height == old(self).block_height
                        }
                    },
                    Err(e) => final(self).stage == Stage::Aborted && r == Action::Abort(
                        RunError::Settle(e),
                    ),
                },
                _ => false,
            },
    {
        match self.stage {
            Stage::ChainInfo => match reply {
                Reply::Done => {
                    self.stage = Stage::MinerWallet(EnsureWallet::Create);
                    Action::CreateWallet(WalletRole::Miner)
                },
                other => self.abort(other),
            },
            Stage::MinerWallet(step) => {
                if (step == EnsureWallet::Create || step == EnsureWallet::Load) && (matches!(
                    reply,
                    Reply::Done
                ) || matches!(reply, Reply::Failed(_))) {
                    self.wallet_answer(WalletRole::Miner, step, reply)
                } else {
                    self.abort(reply)
                }
            },
            Stage::TraderWallet(step) => {
                if (step == EnsureWallet::Create || step == EnsureWallet::Load) && (matches!(
                    reply,
                    Reply::Done
                ) || matches!(reply, Reply::Failed(_))) {
                    self.wallet_answer(WalletRole::Trader, step, reply)
                } else {
                    self.abort(reply)
                }
            },
            Stage::MinerAddress => match reply {
                Reply::Address(s) => match check_address(s.as_str(), self.chain) {
                    Ok(_) => {
                        let to = s.clone();
                        self.miner_address = s;
                        self.stage = Stage::Funding;
                        Action::Mine { blocks: blocks_to_mine(MATURED_REWARDS), to }
                    },
                    Err(_) => {
                        self.stage = Stage::Aborted;
                        Action::Abort(RunError::AddressNetworkMismatch(WalletRole::Miner))
                    },
                },
                other => self.abort(other),
            },
            Stage::Funding => match reply {
                Reply::Done => {
                    self.stage = Stage::Balance;
                    Action::GetBalance(WalletRole::Miner)
                },
                other => self.abort(other),
            },
            Stage::Balance => match reply {
                Reply::Balance(b) => {
                    self.miner_balance = b;
                    self.stage = Stage::TraderAddress;
                    Action::NewAddress(WalletRole::Trader)
                },
                other => self.abort(other),
            },
            Stage::TraderAddress => match reply {
                Reply::Address(s) => match check_address(s.as_str(), self.chain) {
                    Ok(script) => {
                        let to = s.clone();
                        self.trader_address = s;
                        self.trader_script = script;
                        self.stage = Stage::Sending;
                        Action::Send { from: WalletRole::Miner, to, amount: PAYMENT_SAT }
                    },
                    Err(_) => {
                        self.stage = Stage::Aborted;
                        Action::Abort(RunError::AddressNetworkMismatch(WalletRole::Trader))
                    },
                },
                other => self.abort(other),
            },
            Stage::Sending => match reply {
                Reply::Txid(t) => {
                    let asked = t.clone();
                    self.txid = t;
                    self.stage = Stage::Mempool;
                    Action::GetMempoolEntry(asked)
                },
                other => self.abort(other),
            },
            Stage::Mempool => match reply {
                Reply::Done => {
                    self.stage = Stage::Confirming;
                    Action::Mine { blocks: CONFIRMING_BLOCKS, to: self.miner_address.clone() }
                },
                other => self.abort(other),
            },
            Stage::Confirming => match reply {
                Reply::Done => {
                    self.stage = Stage::Fetching;
                    Action::GetTransaction(self.txid.clone())
                },
                other => self.abort(other),
            },
            Stage::Fetching => match reply {
                Reply::Transaction { block_hash, outputs } => match block_hash {
                    Some(h) => {
                        let asked = h.clone();
                        self.block_hash = h;
                        self.outputs = outputs;
                        self.stage = Stage::BlockInfo;
                        Action::GetBlock(asked)
                    },
                    None => {
                        self.stage = Stage::Aborted;
                        Action::Abort(RunError::NotConfirmed)
                    },
                },
                other => self.abort(other),
            },
            Stage::BlockInfo => match reply {
                Reply::Height(h) => {
                    self.block_height = h;
                    self.stage = Stage::Inputs;
                    Action::GetInputValues(self.txid.clone())
                },
                other => self.abort(other),
            },
            Stage::Inputs => match reply {
                Reply::InputValues(values) => match settle(&values, &self.outputs, &self.trader_script) {
                    Ok(settlement) => {
                        self.stage = Stage::Finished;
                        Action::Finish(
                            Report {
                                miner_address: self.miner_address.clone(),
                                miner_balance: self.miner_balance,
                                trader_address: self.trader_address.clone(),
                                txid: self.txid.clone(),
                                block_hash: self.block_hash.clone(),
                                block_height: self.block_height,
                                settlement,
                            },
                        )
                    },
                    Err(e) => {
                        self.stage = Stage::Aborted;
                        Action::Abort(RunError::Settle(e))
                    },
                },
                other => self.abort(other),
            },
            _ => self.abort(reply),
        }
    }
}

} // verus!
