use vstd::prelude::*;
use crate::amount::SAT_PER_COIN;

verus! {

/// Confirmations a block reward needs beyond its own block before it can be spent.
pub const COINBASE_MATURITY: u64 = 100;

/// Blocks between two halvings of the reward on a regression-test chain.
pub const REGTEST_HALVING_INTERVAL: u64 = 150;

/// Rewards that have matured once `mined` blocks, all paying one wallet, sit
/// on top of a chain: the reward of the block at depth `d` (the tip has
/// depth 1) is spendable once `d > COINBASE_MATURITY`.
pub open spec fn mature_rewards(mined: nat) -> nat {
    if mined > COINBASE_MATURITY {
        (mined - COINBASE_MATURITY) as nat
    } else {
        0
    }
}

/// The reward of the block at `height` on a regression-test chain, in satoshis.
pub open spec fn regtest_subsidy(height: nat) -> nat {
    let halvings = height / (REGTEST_HALVING_INTERVAL as nat);
    if halvings >= 64 {
        0
    } else {
        ((50 * SAT_PER_COIN) as nat / pow2(halvings)) as nat
    }
}

pub open spec fn pow2(n: nat) -> nat
    decreases n,
{
    if n == 0 {
        1
    } else {
        2 * pow2((n - 1) as nat)
    }
}

/// The rewards of heights `1..=count`, added up.
pub open spec fn rewards_up_to(count: nat) -> nat
    decreases count,
{
    if count == 0 {
        0
    } else {
        rewards_up_to((count - 1) as nat) + regtest_subsidy(count)
    }
}

/// What a brand-new wallet can spend after `mined` blocks paying it were
/// mined onto a fresh regression-test chain (only the genesis block below).
pub open spec fn fresh_chain_spendable(mined: nat) -> nat {
    rewards_up_to(mature_rewards(mined))
}

/// How many blocks to mine so that `spendable` of their rewards have matured.
pub fn blocks_to_mine(spendable: u64) -> (r: u64)
    requires
        spendable <= u64::MAX - COINBASE_MATURITY,
    ensures
        r == spendable + COINBASE_MATURITY,
        mature_rewards(r as nat) == spendable,
{
    spendable + COINBASE_MATURITY
}

/// Mining `COINBASE_MATURITY + 3` blocks to a brand-new wallet on a fresh
/// chain leaves it three matured rewards, a positive spendable balance.
pub proof fn lemma_mining_funds_wallet()
    ensures
        mature_rewards((COINBASE_MATURITY + 3) as nat) == 3,
        fresh_chain_spendable((COINBASE_MATURITY + 3) as nat) == 3 * 50 * SAT_PER_COIN,
        fresh_chain_spendable((COINBASE_MATURITY + 3) as nat) > 0,
{
    reveal_with_fuel(rewards_up_to, 4);
    assert(pow2(0) == 1);
    assert(regtest_subsidy(1) == 50 * SAT_PER_COIN);
    assert(regtest_subsidy(2) == 50 * SAT_PER_COIN);
    assert(regtest_subsidy(3) == 50 * SAT_PER_COIN);
}

} // verus!
