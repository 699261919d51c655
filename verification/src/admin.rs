//! Setting the exchange up and changing its configuration: the root record,
//! pools, custodies, permissions and the hand-set oracle.

use vstd::prelude::*;
use crate::error::ErrorCode;
use crate::mpc::{same_bytes, zero_word};
use crate::state::{
    Assets, BorrowRateParams, BorrowRateState, Custody, CustomOracle, Fees, FeesStats, Multisig,
    OracleParams, Permissions, Perpetuals, Pool, PositionStats, PricingParams, Pubkey, TokenRatios,
    TradeStats, VolumeStats,
};

verus! {

/// Where a token mint's account holds the number of decimals.
pub const MINT_DECIMALS_OFFSET: usize = 44;

pub struct InitParams {
    pub min_signatures: u8,
    pub allow_swap: bool,
    pub allow_add_liquidity: bool,
    pub allow_remove_liquidity: bool,
    pub allow_open_position: bool,
    pub allow_close_position: bool,
    pub allow_pnl_withdrawal: bool,
    pub allow_collateral_withdrawal: bool,
    pub allow_size_change: bool,
}

pub struct AddPoolParams {
    pub name: String,
}

pub struct RemovePoolParams {}

pub struct AddCustodyParams {
    pub is_stable: bool,
    pub is_virtual: bool,
    pub oracle: OracleParams,
    pub pricing: PricingParams,
    pub permissions: Permissions,
    pub fees: Fees,
    pub borrow_rate: BorrowRateParams,
    pub ratios: Vec<TokenRatios>,
}

pub struct RemoveCustodyParams {
    pub ratios: Vec<TokenRatios>,
}

pub struct SetCustodyConfigParams {
    pub is_stable: bool,
    pub is_virtual: bool,
    pub oracle: OracleParams,
    pub pricing: PricingParams,
    pub permissions: Permissions,
    pub fees: Fees,
    pub borrow_rate: BorrowRateParams,
    pub ratios: Vec<TokenRatios>,
}

pub struct SetPermissionsParams {
    pub allow_swap: bool,
    pub allow_add_liquidity: bool,
    pub allow_remove_liquidity: bool,
    pub allow_open_position: bool,
    pub allow_close_position: bool,
    pub allow_pnl_withdrawal: bool,
    pub allow_collateral_withdrawal: bool,
    pub allow_size_change: bool,
}

pub struct SetAdminSignersParams {
    pub min_signatures: u8,
}

pub struct SetCustomOraclePriceParams {
    pub price: u64,
    pub expo: i32,
    pub conf: u64,
    pub ema: u64,
    pub publish_time: i64,
}

pub struct SetTestTimeParams {
    pub time: i64,
}

pub struct UpgradeCustodyParams {}

/// The bump seeds of the accounts that setting the exchange up creates.
pub struct InitBumps {
    pub transfer_authority: u8,
    pub perpetuals: u8,
    pub multisig: u8,
}

/// The addresses and bump seeds of a custody that is being added.
pub struct CustodyAccounts {
    pub custody: Pubkey,
    pub custody_token_mint: Pubkey,
    pub custody_token_account: Pubkey,
    pub custody_bump: u8,
    pub token_account_bump: u8,
}

/// The permissions that a set of switches stands for.
pub open spec fn permissions_of(p: SetPermissionsParams) -> Permissions {
    Permissions {
        allow_swap: p.allow_swap,
        allow_add_liquidity: p.allow_add_liquidity,
        allow_remove_liquidity: p.allow_remove_liquidity,
        allow_open_position: p.allow_open_position,
        allow_close_position: p.allow_close_position,
        allow_pnl_withdrawal: p.allow_pnl_withdrawal,
        allow_collateral_withdrawal: p.allow_collateral_withdrawal,
        allow_size_change: p.allow_size_change,
    }
}

/// The signers' record of an exchange that was just set up: nobody has
/// signed, and `min_signatures` is as given.
pub open spec fn initial_multisig(min_signatures: u8, bump: u8) -> Multisig {
    Multisig {
        num_signers: 0,
        num_signed: 0,
        min_signatures,
        instruction_accounts_len: 0,
        instruction_data_len: 0,
        instruction_hash: 0,
        signers: vstd::array::spec_array_fill_for_copy_type::<Pubkey, 6>(zero_word()),
        signed: vstd::array::spec_array_fill_for_copy_type::<u8, 6>(0u8),
        bump,
    }
}

/// Sets the exchange up at time `now`.
pub fn init(params: InitParams, bumps: InitBumps, now: i64) -> (r: Result<
    (Perpetuals, Multisig),
    ErrorCode,
>)
    ensures
        r matches Ok(made) && {
            &&& made.0.permissions == Permissions {
                allow_swap: params.allow_swap,
                allow_add_liquidity: params.allow_add_liquidity,
                allow_remove_liquidity: params.allow_remove_liquidity,
                allow_open_position: params.allow_open_position,
                allow_close_position: params.allow_close_position,
                allow_pnl_withdrawal: params.allow_pnl_withdrawal,
                allow_collateral_withdrawal: params.allow_collateral_withdrawal,
                allow_size_change: params.allow_size_change,
            }
            &&& made.0.pools@ == Seq::<Pubkey>::empty()
            &&& made.0.transfer_authority_bump == bumps.transfer_authority
            &&& made.0.perpetuals_bump == bumps.perpetuals
            &&& made.0.inception_time == now
            &&& made.1 == initial_multisig(params.min_signatures, bumps.multisig)
        },
{
    let perpetuals = Perpetuals {
        permissions: Permissions {
            allow_swap: params.allow_swap,
            allow_add_liquidity: params.allow_add_liquidity,
            allow_remove_liquidity: params.allow_remove_liquidity,
            allow_open_position: params.allow_open_position,
            allow_close_position: params.allow_close_position,
            allow_pnl_withdrawal: params.allow_pnl_withdrawal,
            allow_collateral_withdrawal: params.allow_collateral_withdrawal,
            allow_size_change: params.allow_size_change,
        },
        pools: Vec::new(),
        transfer_authority_bump: bumps.transfer_authority,
        perpetuals_bump: bumps.perpetuals,
        inception_time: now,
    };
    let multisig = Multisig {
        num_signers: 0,
        num_signed: 0,
        min_signatures: params.min_signatures,
        instruction_accounts_len: 0,
        instruction_data_len: 0,
        instruction_hash: 0,
        signers: [[0u8; 32]; 6],
        signed: [0u8; 6],
        bump: bumps.multisig,
    };
    Ok((perpetuals, multisig))
}

/// Adds an empty pool to the exchange at time `now` and hands its record
/// back.
pub fn add_pool(
    perpetuals: &mut Perpetuals,
    pool_address: Pubkey,
    params: AddPoolParams,
    pool_bump: u8,
    lp_token_bump: u8,
    now: i64,
) -> (r: Result<Pool, ErrorCode>)
    ensures
        r matches Ok(pool) && {
            &&& pool.name == params.name
            &&& pool.custodies@ == Seq::<Pubkey>::empty()
            &&& pool.ratios@ == Seq::<TokenRatios>::empty()
            &&& pool.aum_usd == 0
            &&& pool.bump == pool_bump
            &&& pool.lp_token_bump == lp_token_bump
            &&& pool.inception_time == now
        },
        final(perpetuals).pools@ == old(perpetuals).pools@.push(pool_address),
        final(perpetuals).permissions == old(perpetuals).permissions,
        final(perpetuals).transfer_authority_bump == old(perpetuals).transfer_authority_bump,
        final(perpetuals).perpetuals_bump == old(perpetuals).perpetuals_bump,
        final(perpetuals).inception_time == old(perpetuals).inception_time,
{
    let pool = Pool {
        name: params.name,
        custodies: Vec::new(),
        ratios: Vec::new(),
        aum_usd: 0,
        bump: pool_bump,
        lp_token_bump,
        inception_time: now,
    };
    perpetuals.pools.push(pool_address);
    Ok(pool)
}

/// The addresses without every occurrence of `key`, in their order.
pub open spec fn without(addresses: Seq<Pubkey>, key: Pubkey) -> Seq<Pubkey>
    decreases addresses.len(),
{
    if addresses.len() == 0 {
        Seq::empty()
    } else if addresses.last() == key {
        without(addresses.drop_last(), key)
    } else {
        without(addresses.drop_last(), key).push(addresses.last())
    }
}

/// Nothing that is left after a removal is the address removed, and every
/// other address stays.
pub proof fn lemma_without(addresses: Seq<Pubkey>, key: Pubkey)
    ensures
        !without(addresses, key).contains(key),
        forall|a: Pubkey|
            a != key ==> (#[trigger] without(addresses, key).contains(a) <==> addresses.contains(a)),
        without(addresses, key).len() <= addresses.len(),
    decreases addresses.len(),
{
    if addresses.len() > 0 {
        let front = addresses.drop_last();
        lemma_without(front, key);
        let kept = without(front, key);
        assert forall|a: Pubkey| a != key implies (#[trigger] without(addresses, key).contains(a)
            <==> addresses.contains(a)) by {
            if addresses.contains(a) {
                let i = choose|i: int| 0 <= i < addresses.len() && addresses[i] == a;
                if i < front.len() {
                    assert(front[i] == a);
                    assert(front.contains(a));
                    assert(kept.contains(a));
                    let j = choose|j: int| 0 <= j < kept.len() && kept[j] == a;
                    if addresses.last() != key {
                        assert(kept.push(addresses.last())[j] == a);
                    }
                } else {
                    assert(addresses.last() == a);
                    assert(kept.push(a)[kept.len() as int] == a);
                }
            }
            if without(addresses, key).contains(a) {
                let w = without(addresses, key);
                let j = choose|j: int| 0 <= j < w.len() && w[j] == a;
                if addresses.last() != key && j == kept.len() {
                    assert(addresses[addresses.len() - 1] == a);
                } else {
                    assert(kept[j] == a);
                    assert(kept.contains(a));
                    let i = choose|i: int| 0 <= i < front.len() && front[i] == a;
                    assert(addresses[i] == a);
                }
            }
        }
        if without(addresses, key).contains(key) {
            let w = without(addresses, key);
            let j = choose|j: int| 0 <= j < w.len() && w[j] == key;
            if addresses.last() != key && j == kept.len() {
            } else {
                assert(kept[j] == key);
                assert(kept.contains(key));
            }
        }
    }
}

/// Takes a pool out of the exchange's list.
pub fn remove_pool(
    perpetuals: &mut Perpetuals,
    pool_address: Pubkey,
    pool_bump: u8,
    _params: RemovePoolParams,
) -> (r: Result<u8, ErrorCode>)
    ensures
        r == Ok::<u8, ErrorCode>(pool_bump),
        final(perpetuals).pools@ == without(old(perpetuals).pools@, pool_address),
        final(perpetuals).permissions == old(perpetuals).permissions,
        final(perpetuals).transfer_authority_bump == old(perpetuals).transfer_authority_bump,
        final(perpetuals).perpetuals_bump == old(perpetuals).perpetuals_bump,
        final(perpetuals).inception_time == old(perpetuals).inception_time,
{
    let mut kept: Vec<Pubkey> = Vec::new();
    let mut i: usize = 0;
    while i < perpetuals.pools.len()
        invariant
            i <= perpetuals.pools@.len(),
            *perpetuals == *old(perpetuals),
            kept@ == without(perpetuals.pools@.take(i as int), pool_address),
        decreases perpetuals.pools@.len() - i,
    {
        let pool = perpetuals.pools[i];
        proof {
            let next = perpetuals.pools@.take(i + 1);
            assert(next.drop_last() =~= perpetuals.pools@.take(i as int));
            assert(next.last() == pool);
        }
        if !same_bytes(&pool, &pool_address) {
            kept.push(pool);
        }
        i = i + 1;
    }
    assert(perpetuals.pools@.take(i as int) =~= perpetuals.pools@);
    perpetuals.pools = kept;
    Ok(pool_bump)
}

/// Position statistics with no positions.
pub open spec fn no_positions() -> PositionStats {
    PositionStats {
        open_positions: 0,
        collateral_usd: 0,
        size_usd: 0,
        borrow_size_usd: 0,
        locked_amount: 0,
        weighted_price: 0,
        total_quantity: 0,
        cumulative_interest_usd: 0,
        cumulative_interest_snapshot: 0,
    }
}

/// The record of a custody that was just added at time `now`: configured as
/// given, with nothing owned, collected or traded yet.
pub open spec fn new_custody(
    pool_address: Pubkey,
    accounts: CustodyAccounts,
    decimals: u8,
    params: AddCustodyParams,
    now: i64,
) -> Custody {
    Custody {
        pool: pool_address,
        mint: accounts.custody_token_mint,
        token_account: accounts.custody_token_account,
        decimals,
        is_stable: params.is_stable,
        is_virtual: params.is_virtual,
        oracle: params.oracle,
        pricing: params.pricing,
        permissions: params.permissions,
        fees: params.fees,
        borrow_rate: params.borrow_rate,
        assets: Assets { collateral: 0, protocol_fees: 0, owned: 0, locked: 0 },
        collected_fees: FeesStats {
            swap_usd: 0,
            add_liquidity_usd: 0,
            remove_liquidity_usd: 0,
            open_position_usd: 0,
            close_position_usd: 0,
            liquidation_usd: 0,
        },
        volume_stats: VolumeStats {
            swap_usd: 0,
            add_liquidity_usd: 0,
            remove_liquidity_usd: 0,
            open_position_usd: 0,
            close_position_usd: 0,
            liquidation_usd: 0,
        },
        trade_stats: TradeStats { profit_usd: 0, loss_usd: 0, oi_long_usd: 0, oi_short_usd: 0 },
        long_positions: no_positions(),
        short_positions: no_positions(),
        borrow_rate_state: BorrowRateState { current_rate: 0, cumulative_interest: 0, last_update: now },
        bump: accounts.custody_bump,
        token_account_bump: accounts.token_account_bump,
    }
}

/// Appends every ratio to the list.
fn extend_ratios(ratios: &mut Vec<TokenRatios>, more: &Vec<TokenRatios>)
    ensures
        final(ratios)@ == old(ratios)@ + more@,
{
    let mut i: usize = 0;
    while i < more.len()
        invariant
            i <= more@.len(),
            ratios@ == old(ratios)@ + more@.take(i as int),
        decreases more@.len() - i,
    {
        ratios.push(more[i]);
        assert(more@.take(i + 1) =~= more@.take(i as int).push(more@[i as int]));
        i = i + 1;
    }
    assert(more@.take(i as int) =~= more@);
}

/// Adds a custody to a pool at time `now` and hands its record back. The
/// number of decimals is read from the token mint's account, which is invalid
/// input where it is too short to hold one. The pool's ratios grow by the
/// ratios given. On failure the pool stays as it was.
pub fn add_custody(
    pool: &mut Pool,
    pool_address: Pubkey,
    accounts: CustodyAccounts,
    custody_token_mint_data: &[u8],
    params: AddCustodyParams,
    now: i64,
) -> (r: Result<Custody, ErrorCode>)
    ensures
        custody_token_mint_data@.len() <= MINT_DECIMALS_OFFSET ==> (r matches Err(
            ErrorCode::InvalidInput,
        )),
        r is Err ==> *final(pool) == *old(pool),
        custody_token_mint_data@.len() > MINT_DECIMALS_OFFSET ==> {
            &&& r matches Ok(custody)
            &&& custody == new_custody(
                pool_address,
                accounts,
                custody_token_mint_data@[MINT_DECIMALS_OFFSET as int],
                params,
                now,
            )
            &&& final(pool).custodies@ == old(pool).custodies@.push(accounts.custody)
            &&& final(pool).ratios@ == old(pool).ratios@ + params.ratios@
            &&& final(pool).name == old(pool).name
            &&& final(pool).aum_usd == old(pool).aum_usd
            &&& final(pool).bump == old(pool).bump
            &&& final(pool).lp_token_bump == old(pool).lp_token_bump
            &&& final(pool).inception_time == old(pool).inception_time
        },
{
    if custody_token_mint_data.len() <= MINT_DECIMALS_OFFSET {
        return Err(ErrorCode::InvalidInput);
    }
    let decimals = custody_token_mint_data[MINT_DECIMALS_OFFSET];
    let empty = PositionStats {
        open_positions: 0,
        collateral_usd: 0,
        size_usd: 0,
        borrow_size_usd: 0,
        locked_amount: 0,
        weighted_price: 0,
        total_quantity: 0,
        cumulative_interest_usd: 0,
        cumulative_interest_snapshot: 0,
    };
    let custody = Custody {
        pool: pool_address,
        mint: accounts.custody_token_mint,
        token_account: accounts.custody_token_account,
        decimals,
        is_stable: params.is_stable,
        is_virtual: params.is_virtual,
        oracle: params.oracle,
        pricing: params.pricing,
        permissions: params.permissions,
        fees: params.fees,
        borrow_rate: params.borrow_rate,
        assets: Assets { collateral: 0, protocol_fees: 0, owned: 0, locked: 0 },
        collected_fees: FeesStats {
            swap_usd: 0,
            add_liquidity_usd: 0,
            remove_liquidity_usd: 0,
            open_position_usd: 0,
            close_position_usd: 0,
            liquidation_usd: 0,
        },
        volume_stats: VolumeStats {
            swap_usd: 0,
            add_liquidity_usd: 0,
            remove_liquidity_usd: 0,
            open_position_usd: 0,
            close_position_usd: 0,
            liquidation_usd: 0,
        },
        trade_stats: TradeStats { profit_usd: 0, loss_usd: 0, oi_long_usd: 0, oi_short_usd: 0 },
        long_positions: empty,
        short_positions: empty,
        borrow_rate_state: BorrowRateState { current_rate: 0, cumulative_interest: 0, last_update: now },
        bump: accounts.custody_bump,
        token_account_bump: accounts.token_account_bump,
    };
    pool.custodies.push(accounts.custody);
    extend_ratios(&mut pool.ratios, &params.ratios);
    Ok(custody)
}

/// The addresses without the first occurrence of `key`.
pub open spec fn without_first(addresses: Seq<Pubkey>, key: Pubkey) -> Seq<Pubkey> {
    match addresses.index_of_first(key) {
        Some(i) => addresses.remove(i),
        None => addresses,
    }
}

/// Finds where an address first occurs in a list.
fn find_first(addresses: &Vec<Pubkey>, key: &Pubkey) -> (r: Option<usize>)
    ensures
        match r {
            Some(i) => {
                &&& i < addresses@.len()
                &&& addresses@[i as int] == *key
                &&& forall|k: int| 0 <= k < i ==> addresses@[k] != *key
            },
            None => !addresses@.contains(*key),
        },
{
    let mut i: usize = 0;
    while i < addresses.len()
        invariant
            i <= addresses@.len(),
            forall|k: int| 0 <= k < i ==> addresses@[k] != *key,
        decreases addresses@.len() - i,
    {
        if same_bytes(&addresses[i], key) {
            return Some(i);
        }
        i = i + 1;
    }
    None
}

/// Takes a custody out of a pool: its first entry in the pool's list goes,
/// and the ratios given replace the pool's.
pub fn remove_custody(
    pool: &mut Pool,
    custody_address: Pubkey,
    custody_bump: u8,
    params: RemoveCustodyParams,
) -> (r: Result<u8, ErrorCode>)
    ensures
        r == Ok::<u8, ErrorCode>(custody_bump),
        final(pool).custodies@ == without_first(old(pool).custodies@, custody_address),
        final(pool).ratios@ == params.ratios@,
        final(pool).name == old(pool).name,
        final(pool).aum_usd == old(pool).aum_usd,
        final(pool).bump == old(pool).bump,
        final(pool).lp_token_bump == old(pool).lp_token_bump,
        final(pool).inception_time == old(pool).inception_time,
{
    match find_first(&pool.custodies, &custody_address) {
        Some(i) => {
            proof {
                let s = pool.custodies@;
                s.index_of_first_ensures(custody_address);
                assert(s.contains(custody_address));
                let j = s.index_of_first(custody_address)->0;
                assert(s[j] == custody_address);
                assert(s[i as int] == custody_address);
                assert(j == i);
            }
            pool.custodies.remove(i);
        },
        None => {
            proof {
                pool.custodies@.index_of_first_ensures(custody_address);
            }
        },
    }
    pool.ratios = params.ratios;
    Ok(custody_bump)
}

/// The custody with a new configuration; what it has accounted stays.
pub open spec fn reconfigured(custody: Custody, params: SetCustodyConfigParams) -> Custody {
    Custody {
        is_stable: params.is_stable,
        is_virtual: params.is_virtual,
        oracle: params.oracle,
        pricing: params.pricing,
        permissions: params.permissions,
        fees: params.fees,
        borrow_rate: params.borrow_rate,
        ..custody
    }
}

/// Replaces a custody's configuration and the pool's ratios.
pub fn set_custody_config(custody: &mut Custody, pool: &mut Pool, params: SetCustodyConfigParams) -> (r:
    Result<u8, ErrorCode>)
    ensures
        r == Ok::<u8, ErrorCode>(old(custody).bump),
        *final(custody) == reconfigured(*old(custody), params),
        *final(pool) == (Pool { ratios: params.ratios, ..*old(pool) }),
{
    custody.is_stable = params.is_stable;
    custody.is_virtual = params.is_virtual;
    custody.oracle = params.oracle;
    custody.pricing = params.pricing;
    custody.permissions = params.permissions;
    custody.fees = params.fees;
    custody.borrow_rate = params.borrow_rate;
    pool.ratios = params.ratios;
    Ok(custody.bump)
}

/// Replaces the exchange's permissions.
pub fn set_permissions(perpetuals: &mut Perpetuals, params: SetPermissionsParams) -> (r: Result<
    u8,
    ErrorCode,
>)
    ensures
        r == Ok::<u8, ErrorCode>(old(perpetuals).perpetuals_bump),
        *final(perpetuals) == (Perpetuals { permissions: permissions_of(params), ..*old(perpetuals) }),
{
    perpetuals.permissions = Permissions {
        allow_swap: params.allow_swap,
        allow_add_liquidity: params.allow_add_liquidity,
        allow_remove_liquidity: params.allow_remove_liquidity,
        allow_open_position: params.allow_open_position,
        allow_close_position: params.allow_close_position,
        allow_pnl_withdrawal: params.allow_pnl_withdrawal,
        allow_collateral_withdrawal: params.allow_collateral_withdrawal,
        allow_size_change: params.allow_size_change,
    };
    Ok(perpetuals.perpetuals_bump)
}

/// Sets how many signatures an administrative step needs.
pub fn set_admin_signers(multisig: &mut Multisig, params: SetAdminSignersParams) -> (r: Result<
    u8,
    ErrorCode,
>)
    ensures
        r == Ok::<u8, ErrorCode>(old(multisig).bump),
        *final(multisig) == (Multisig { min_signatures: params.min_signatures, ..*old(multisig) }),
{
    multisig.min_signatures = params.min_signatures;
    Ok(multisig.bump)
}

/// Sets the price of a hand-set oracle.
pub fn set_custom_oracle_price(custom_oracle: &mut CustomOracle, params: SetCustomOraclePriceParams) -> (r:
    Result<u8, ErrorCode>)
    ensures
        r == Ok::<u8, ErrorCode>(0),
        *final(custom_oracle) == (CustomOracle {
            price: params.price,
            expo: params.expo,
            conf: params.conf,
            ema: params.ema,
            publish_time: params.publish_time,
        }),
{
    custom_oracle.set(params.price, params.expo, params.conf, params.ema, params.publish_time);
    Ok(0)
}

/// Accepts a test time. The exchange keeps no clock of its own, so nothing
/// changes.
pub fn set_test_time(_params: SetTestTimeParams) -> (r: Result<u8, ErrorCode>)
    ensures
        r == Ok::<u8, ErrorCode>(0),
{
    Ok(0)
}

/// Upgrades a custody's record, which has one layout only: nothing changes.
pub fn upgrade_custody(custody: &Custody, _params: UpgradeCustodyParams) -> (r: Result<u8, ErrorCode>)
    ensures
        r == Ok::<u8, ErrorCode>(custody.bump),
{
    Ok(custody.bump)
}

} // verus!
