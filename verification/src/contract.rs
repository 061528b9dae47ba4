//! The vault engine and its dispatcher.
//!
//! Each operation is a single atomic transition of the vault state plus an
//! ordered queue of external-call instructions for the host. The oracle
//! readings an operation needs (the vault's own token balance, the per-pool
//! conversions) are taken by the host before the call and handed in as
//! plain values; `None` means the external query failed, and the operation
//! is then rejected with no state change.

use vstd::prelude::*;
use vstd::arithmetic::div_mod::{
    lemma_div_is_ordered, lemma_div_multiples_vanish, lemma_div_pos_is_pos,
    lemma_fundamental_div_mod, lemma_mod_bound,
};
use vstd::arithmetic::mul::lemma_mul_is_commutative;

use crate::error::ContractError;
use crate::ledger::Ledger;
use crate::msg::{ExecuteMsg, InstantiateMsg, Instruction, QueryMsg, TokenSelect, Valuation};
use crate::state::{Config, Swapvar, Vault};

verus! {

// ------------------------------------------------------------------
// Share pricing (the rules everything else is stated over)
// ------------------------------------------------------------------

/// Shares minted for a deposit of `amount` when `supply` shares are
/// outstanding and the vault's value is `value`: the first depositor sets
/// a 1:1 peg, afterwards shares are floor(amount * supply / value).
pub open spec fn shares_for_deposit(amount: int, supply: int, value: int) -> int {
    if supply == 0 {
        amount
    } else {
        (amount * supply) / value
    }
}

/// Underlying redeemed for burning `shares` when `supply` shares are
/// outstanding and the vault's value is `value`:
/// floor(shares * value / supply).
pub open spec fn amount_for_withdraw(shares: int, supply: int, value: int) -> int {
    (shares * value) / supply
}

/// The redeemable vault value a reading denotes: the direct underlying
/// balance, or the sum of what the two pools would pay for the vault's
/// receipt-token holdings.
pub open spec fn value_of_valuation(v: Valuation) -> int {
    match v {
        Valuation::Direct { balance } => balance as int,
        Valuation::Routed { rec_1_balance, converted_1, rec_2_balance, converted_2 } =>
            converted_1 + converted_2,
    }
}

/// A reading's shape agrees with the vault's variant: direct for a
/// single-pool vault, routed for a multi-pool vault.
pub open spec fn valuation_matches(routing: Option<Swapvar>, v: Valuation) -> bool {
    match routing {
        None => v is Direct,
        Some(_) => v is Routed,
    }
}

// ------------------------------------------------------------------
// Instantiate
// ------------------------------------------------------------------

/// An instantiate request is accepted exactly when the host validated
/// every identity it names.
pub open spec fn instantiate_accepted(msg: InstantiateMsg) -> bool {
    &&& msg.owner_addr is Some
    &&& msg.token_addr is Some
    &&& match msg.routing {
        None => true,
        Some(r) => {
            &&& r.lp_pool_1 is Some
            &&& r.lp_pool_2 is Some
            &&& r.rec_token1 is Some
            &&& r.rec_token2 is Some
        },
    }
}

/// The routing table an accepted multi-pool instantiate request sets up.
pub open spec fn routing_of_msg(r: crate::msg::RoutingMsg) -> Swapvar {
    Swapvar {
        lp_pool_1: r.lp_pool_1.unwrap(),
        rec_token_1: r.rec_token1.unwrap(),
        lp_pool_2: r.lp_pool_2.unwrap(),
        rec_token_2: r.rec_token2.unwrap(),
    }
}

/// Initialize a vault: configuration and routing table are fixed, the
/// ledger is empty and the total supply is zero. Rejected with
/// `Validation`, before any state exists, when the host refused any of
/// the named addresses.
pub fn instantiate(msg: InstantiateMsg) -> (r: Result<Vault, ContractError>)
    ensures
        r is Ok <==> instantiate_accepted(msg),
        r is Err ==> r == Err::<Vault, ContractError>(ContractError::Validation),
        r matches Ok(v) ==> {
            &&& v.wf()
            &&& v.total_supply() == 0
            &&& forall|h: u64| v.balance_of(h) == 0
            &&& v.config.owner == msg.owner_addr.unwrap()
            &&& v.config.token == msg.token_addr.unwrap()
            &&& (msg.routing is None ==> v.routing is None)
            &&& (msg.routing matches Some(rm) ==> v.routing == Some(routing_of_msg(rm)))
        },
{
    let owner = match msg.owner_addr {
        Some(o) => o,
        None => {
            return Err(ContractError::Validation);
        },
    };
    let token = match msg.token_addr {
        Some(t) => t,
        None => {
            return Err(ContractError::Validation);
        },
    };
    let routing = match msg.routing {
        None => None,
        Some(r) => {
            let lp_pool_1 = match r.lp_pool_1 {
                Some(p) => p,
                None => {
                    return Err(ContractError::Validation);
                },
            };
            let lp_pool_2 = match r.lp_pool_2 {
                Some(p) => p,
                None => {
                    return Err(ContractError::Validation);
                },
            };
            let rec_token_1 = match r.rec_token1 {
                Some(t) => t,
                None => {
                    return Err(ContractError::Validation);
                },
            };
            let rec_token_2 = match r.rec_token2 {
                Some(t) => t,
                None => {
                    return Err(ContractError::Validation);
                },
            };
            Some(Swapvar { lp_pool_1, rec_token_1, lp_pool_2, rec_token_2 })
        },
    };
    Ok(Vault { config: Config { token, owner }, routing, ledger: Ledger::new() })
}

// ------------------------------------------------------------------
// Deposit
// ------------------------------------------------------------------

/// When a deposit goes through: a positive amount, a valuation reading,
/// a nonzero vault value whenever shares are already outstanding (a zero
/// value there is a fatal inconsistency), and no overflow in the share
/// computation or the new supply.
pub open spec fn deposit_accepted(pre: Vault, amount: u128, vault_balance: Option<u128>) -> bool {
    let supply = pre.total_supply() as int;
    &&& amount > 0
    &&& vault_balance is Some
    &&& (supply > 0 ==> vault_balance.unwrap() > 0)
    &&& (supply > 0 ==> amount * supply <= u128::MAX)
    &&& supply + shares_for_deposit(amount as int, supply, vault_balance.unwrap() as int)
        <= u128::MAX
}

/// Which error a rejected deposit reports. The checks run in this order:
/// a zero amount is malformed, then a missing valuation reading, and what
/// remains is an arithmetic inconsistency (zero value with outstanding
/// shares, or overflow).
pub open spec fn deposit_error(pre: Vault, amount: u128, vault_balance: Option<u128>)
    -> ContractError {
    if amount == 0 {
        ContractError::Validation
    } else if vault_balance is None {
        ContractError::ExternalQuery
    } else {
        ContractError::Arithmetic
    }
}

/// The instruction queue of an accepted deposit, in the order the host
/// must run it: allowances for the routing pools first (multi-pool only),
/// then the pull-transfer of the depositor's funds, then the two swaps
/// that split the deposit half and half into the pools.
pub open spec fn deposit_instructions(
    config: Config,
    routing: Option<Swapvar>,
    sender: u64,
    vault_id: u64,
    amount: u128,
) -> Seq<Instruction> {
    match routing {
        None => seq![
            Instruction::TransferFrom {
                token: config.token,
                owner: sender,
                recipient: vault_id,
                amount,
            },
        ],
        Some(sv) => seq![
            Instruction::IncreaseAllowance {
                token: config.token,
                spender: sv.lp_pool_1,
                amount,
            },
            Instruction::IncreaseAllowance {
                token: config.token,
                spender: sv.lp_pool_2,
                amount,
            },
            Instruction::TransferFrom {
                token: config.token,
                owner: sender,
                recipient: vault_id,
                amount,
            },
            Instruction::Swap {
                pool: sv.lp_pool_1,
                input_token: TokenSelect::Token1,
                input_amount: (amount / 2) as u128,
                min_output: 0,
            },
            Instruction::Swap {
                pool: sv.lp_pool_2,
                input_token: TokenSelect::Token1,
                input_amount: (amount / 2) as u128,
                min_output: 0,
            },
        ],
    }
}

/// Everything a deposit guarantees, relating the vault before (`pre`) and
/// after (`post`): the invariant is kept; the call succeeds exactly when
/// accepted; a rejected call leaves the state untouched and reports the
/// documented error; an accepted call mints floor-priced shares for the
/// sender, grows the supply by the same count, touches no other holder,
/// and returns the exact instruction queue.
pub open spec fn deposit_post(
    pre: Vault,
    post: Vault,
    sender: u64,
    vault_id: u64,
    amount: u128,
    vault_balance: Option<u128>,
    r: Result<(u128, Vec<Instruction>), ContractError>,
) -> bool {
    &&& post.wf()
    &&& (r is Ok <==> deposit_accepted(pre, amount, vault_balance))
    &&& (r is Err ==> post == pre)
    &&& (r matches Err(e) ==> e == deposit_error(pre, amount, vault_balance))
    &&& (r matches Ok(out) ==> {
        let supply = pre.total_supply();
        let shares = shares_for_deposit(
            amount as int,
            supply as int,
            vault_balance.unwrap() as int,
        );
        &&& out.0 == shares
        &&& out.1@ == deposit_instructions(pre.config, pre.routing, sender, vault_id, amount)
        &&& post.total_supply() == supply + shares
        &&& post.balance_of(sender) == pre.balance_of(sender) + shares
        &&& (forall|h: u64| h != sender ==> post.balance_of(h) == pre.balance_of(h))
        &&& post.config == pre.config
        &&& post.routing == pre.routing
    })
}

/// Deposit `amount` of the underlying for `sender`, minting shares.
/// `vault_balance` is the vault's own underlying-token balance as the
/// oracle read it a moment ago (`None`: the query failed).
pub fn execute_deposit(
    vault: &mut Vault,
    sender: u64,
    vault_id: u64,
    amount: u128,
    vault_balance: Option<u128>,
) -> (r: Result<(u128, Vec<Instruction>), ContractError>)
    requires
        old(vault).wf(),
    ensures
        deposit_post(*old(vault), *final(vault), sender, vault_id, amount, vault_balance, r),
{
    let supply = vault.ledger.get_total_supply();
    if amount == 0 {
        return Err(ContractError::Validation);
    }
    let value = match vault_balance {
        Some(v) => v,
        None => {
            return Err(ContractError::ExternalQuery);
        },
    };
    let shares: u128;
    if supply == 0 {
        shares = amount;
    } else {
        if value == 0 {
            return Err(ContractError::Arithmetic);
        }
        let prod = match amount.checked_mul(supply) {
            Some(p) => p,
            None => {
                return Err(ContractError::Arithmetic);
            },
        };
        shares = prod / value;
    }
    let new_supply = match supply.checked_add(shares) {
        Some(s) => s,
        None => {
            return Err(ContractError::Arithmetic);
        },
    };
    let balance = vault.ledger.get_balance(sender);
    proof {
        vault.ledger.lemma_balance_le_sum(sender);
    }
    let new_balance = balance + shares;
    vault.ledger.set_total_supply(new_supply);
    vault.ledger.set_balance(sender, new_balance);
    let instructions = build_deposit_instructions(
        &vault.config,
        &vault.routing,
        sender,
        vault_id,
        amount,
    );
    Ok((shares, instructions))
}

/// Build a deposit's instruction queue.
fn build_deposit_instructions(
    config: &Config,
    routing: &Option<Swapvar>,
    sender: u64,
    vault_id: u64,
    amount: u128,
) -> (r: Vec<Instruction>)
    ensures
        r@ == deposit_instructions(*config, *routing, sender, vault_id, amount),
{
    let mut out: Vec<Instruction> = Vec::new();
    match routing {
        None => {
            out.push(Instruction::TransferFrom {
                token: config.token,
                owner: sender,
                recipient: vault_id,
                amount,
            });
        },
        Some(sv) => {
            let half = amount / 2;
            out.push(get_cw20_increase_allowance_msg(config.token, sv.lp_pool_1, amount));
            out.push(get_cw20_increase_allowance_msg(config.token, sv.lp_pool_2, amount));
            out.push(Instruction::TransferFrom {
                token: config.token,
                owner: sender,
                recipient: vault_id,
                amount,
            });
            out.push(Instruction::Swap {
                pool: sv.lp_pool_1,
                input_token: TokenSelect::Token1,
                input_amount: half,
                min_output: 0,
            });
            out.push(Instruction::Swap {
                pool: sv.lp_pool_2,
                input_token: TokenSelect::Token1,
                input_amount: half,
                min_output: 0,
            });
        },
    }
    proof {
        assert(out@ =~= deposit_instructions(*config, *routing, sender, vault_id, amount));
    }
    out
}

// ------------------------------------------------------------------
// Withdraw
// ------------------------------------------------------------------

/// When a withdraw goes through: a positive share count within the
/// holder's balance, a valuation reading, and no overflow when summing the
/// two pool conversions or pricing the shares.
pub open spec fn withdraw_accepted(
    pre: Vault,
    sender: u64,
    share: u128,
    valuation: Option<Valuation>,
) -> bool {
    &&& share > 0
    &&& share <= pre.balance_of(sender)
    &&& valuation is Some
    &&& (match valuation {
        Some(Valuation::Routed { rec_1_balance, converted_1, rec_2_balance, converted_2 }) => {
            &&& converted_1 + converted_2 <= u128::MAX
            &&& share * rec_1_balance <= u128::MAX
            &&& share * rec_2_balance <= u128::MAX
        },
        _ => true,
    })
    &&& share * value_of_valuation(valuation.unwrap()) <= u128::MAX
}

/// Which error a rejected withdraw reports. The checks run in this order:
/// a zero share count is malformed, then the holder's balance is checked,
/// then a missing valuation reading, and what remains is overflow.
pub open spec fn withdraw_error(
    pre: Vault,
    sender: u64,
    share: u128,
    valuation: Option<Valuation>,
) -> ContractError {
    if share == 0 {
        ContractError::Validation
    } else if share > pre.balance_of(sender) {
        ContractError::InsufficientShares
    } else if valuation is None {
        ContractError::ExternalQuery
    } else {
        ContractError::Arithmetic
    }
}

/// The slice of one receipt-token balance that redeeming `share` of
/// `supply` shares represents: floor(share * balance / supply). The
/// conversions a withdraw instructs are proportional to the redemption,
/// never the vault's whole position.
pub open spec fn leg_conversion_amount(share: u128, supply: u128, balance: u128) -> u128 {
    amount_for_withdraw(share as int, supply as int, balance as int) as u128
}

/// The instruction queue of an accepted withdraw, in the order the host
/// must run it: for a multi-pool vault, allowances and the swaps that
/// convert the redemption's proportional slice of each receipt-token
/// holding back to the underlying, and last the payout transfer whose
/// amount was computed assuming those conversions succeed. A single-pool
/// vault only pays out.
pub open spec fn withdraw_instructions(
    config: Config,
    routing: Option<Swapvar>,
    sender: u64,
    valuation: Valuation,
    share: u128,
    supply: u128,
    amount: u128,
) -> Seq<Instruction> {
    match routing {
        None => seq![
            Instruction::Transfer { token: config.token, recipient: sender, amount },
        ],
        Some(sv) => match valuation {
            Valuation::Routed { rec_1_balance, converted_1, rec_2_balance, converted_2 } => {
                let sub_1 = leg_conversion_amount(share, supply, rec_1_balance);
                let sub_2 = leg_conversion_amount(share, supply, rec_2_balance);
                seq![
                    Instruction::IncreaseAllowance {
                        token: sv.rec_token_1,
                        spender: sv.lp_pool_1,
                        amount: sub_1,
                    },
                    Instruction::IncreaseAllowance {
                        token: sv.rec_token_2,
                        spender: sv.lp_pool_2,
                        amount: sub_2,
                    },
                    Instruction::Swap {
                        pool: sv.lp_pool_1,
                        input_token: TokenSelect::Token1,
                        input_amount: sub_1,
                        min_output: 0,
                    },
                    Instruction::Swap {
                        pool: sv.lp_pool_2,
                        input_token: TokenSelect::Token2,
                        input_amount: sub_2,
                        min_output: 0,
                    },
                    Instruction::Transfer { token: config.token, recipient: sender, amount },
                ]
            },
            // a direct reading never reaches a multi-pool vault: the
            // engine requires the reading to match the vault's variant
            Valuation::Direct { .. } => Seq::empty(),
        },
    }
}

/// Everything a withdraw guarantees, relating the vault before (`pre`)
/// and after (`post`): the invariant is kept; the call succeeds exactly
/// when accepted; a rejected call leaves the state untouched and reports
/// the documented error; an accepted call burns the shares, pays out their
/// floor-priced slice of the vault value, touches no other holder, and
/// returns the exact instruction queue.
pub open spec fn withdraw_post(
    pre: Vault,
    post: Vault,
    sender: u64,
    share: u128,
    valuation: Option<Valuation>,
    r: Result<(u128, Vec<Instruction>), ContractError>,
) -> bool {
    &&& post.wf()
    &&& (r is Ok <==> withdraw_accepted(pre, sender, share, valuation))
    &&& (r is Err ==> post == pre)
    &&& (r matches Err(e) ==> e == withdraw_error(pre, sender, share, valuation))
    &&& (r matches Ok(out) ==> {
        let supply = pre.total_supply();
        let value = value_of_valuation(valuation.unwrap());
        let amount = amount_for_withdraw(share as int, supply as int, value);
        &&& out.0 == amount
        &&& out.1@ == withdraw_instructions(
            pre.config,
            pre.routing,
            sender,
            valuation.unwrap(),
            share,
            supply,
            (amount as u128),
        )
        &&& post.total_supply() == supply - share
        &&& post.balance_of(sender) == pre.balance_of(sender) - share
        &&& (forall|h: u64| h != sender ==> post.balance_of(h) == pre.balance_of(h))
        &&& post.config == pre.config
        &&& post.routing == pre.routing
    })
}

/// Redeem `share` shares for `sender`. `valuation` is the oracle's
/// reading of the vault's redeemable value (`None`: a query failed). The
/// reading's shape must match the vault's variant; the host builds both,
/// so it always can.
pub fn execute_withdraw(
    vault: &mut Vault,
    sender: u64,
    share: u128,
    valuation: Option<Valuation>,
) -> (r: Result<(u128, Vec<Instruction>), ContractError>)
    requires
        old(vault).wf(),
        valuation matches Some(v) ==> valuation_matches(old(vault).routing, v),
    ensures
        withdraw_post(*old(vault), *final(vault), sender, share, valuation, r),
{
    let supply = vault.ledger.get_total_supply();
    let balance = vault.ledger.get_balance(sender);
    if share == 0 {
        return Err(ContractError::Validation);
    }
    if share > balance {
        return Err(ContractError::InsufficientShares);
    }
    let val = match valuation {
        Some(v) => v,
        None => {
            return Err(ContractError::ExternalQuery);
        },
    };
    let value: u128 = match val {
        Valuation::Direct { balance: b } => b,
        Valuation::Routed { rec_1_balance: _, converted_1, rec_2_balance: _, converted_2 } => {
            match converted_1.checked_add(converted_2) {
                Some(s) => s,
                None => {
                    return Err(ContractError::Arithmetic);
                },
            }
        },
    };
    let prod = match share.checked_mul(value) {
        Some(p) => p,
        None => {
            return Err(ContractError::Arithmetic);
        },
    };
    // the per-leg conversions must be priceable too, before anything changes
    match val {
        Valuation::Routed { rec_1_balance, rec_2_balance, .. } => {
            if share.checked_mul(rec_1_balance).is_none() {
                return Err(ContractError::Arithmetic);
            }
            if share.checked_mul(rec_2_balance).is_none() {
                return Err(ContractError::Arithmetic);
            }
        },
        Valuation::Direct { .. } => {},
    }
    proof {
        vault.ledger.lemma_balance_le_sum(sender);
    }
    let amount = prod / supply;
    let new_supply = supply - share;
    let new_balance = balance - share;
    vault.ledger.set_total_supply(new_supply);
    vault.ledger.set_balance(sender, new_balance);
    let instructions = build_withdraw_instructions(
        &vault.config,
        &vault.routing,
        sender,
        val,
        share,
        supply,
        amount,
    );
    Ok((amount, instructions))
}

/// Build a withdraw's instruction queue. Each routed leg converts the
/// redemption's proportional slice of that receipt-token balance.
fn build_withdraw_instructions(
    config: &Config,
    routing: &Option<Swapvar>,
    sender: u64,
    valuation: Valuation,
    share: u128,
    supply: u128,
    amount: u128,
) -> (r: Vec<Instruction>)
    requires
        routing is Some ==> valuation is Routed,
        supply > 0,
        valuation matches Valuation::Routed { rec_1_balance, rec_2_balance, .. } ==>
            share * rec_1_balance <= u128::MAX && share * rec_2_balance <= u128::MAX,
    ensures
        r@ == withdraw_instructions(*config, *routing, sender, valuation, share, supply, amount),
{
    let mut out: Vec<Instruction> = Vec::new();
    match routing {
        None => {
            out.push(Instruction::Transfer { token: config.token, recipient: sender, amount });
        },
        Some(sv) => {
            match valuation {
                Valuation::Routed { rec_1_balance, converted_1: _, rec_2_balance, converted_2: _ } => {
                    let sub_1 = (share * rec_1_balance) / supply;
                    let sub_2 = (share * rec_2_balance) / supply;
                    out.push(get_cw20_increase_allowance_msg(sv.rec_token_1, sv.lp_pool_1, sub_1));
                    out.push(get_cw20_increase_allowance_msg(sv.rec_token_2, sv.lp_pool_2, sub_2));
                    out.push(Instruction::Swap {
                        pool: sv.lp_pool_1,
                        input_token: TokenSelect::Token1,
                        input_amount: sub_1,
                        min_output: 0,
                    });
                    out.push(Instruction::Swap {
                        pool: sv.lp_pool_2,
                        input_token: TokenSelect::Token2,
                        input_amount: sub_2,
                        min_output: 0,
                    });
                    out.push(Instruction::Transfer {
                        token: config.token,
                        recipient: sender,
                        amount,
                    });
                },
                Valuation::Direct { .. } => {
                    proof {
                        assert(false);
                    }
                },
            }
        },
    }
    proof {
        assert(out@ =~= withdraw_instructions(
            *config,
            *routing,
            sender,
            valuation,
            share,
            supply,
            amount,
        ));
    }
    out
}

/// The allowance instruction granting `spender` the right to pull up to
/// `amount` of `token_addr`.
pub fn get_cw20_increase_allowance_msg(token_addr: u64, spender: u64, amount: u128)
    -> (r: Instruction)
    ensures
        r == (Instruction::IncreaseAllowance { token: token_addr, spender, amount }),
{
    Instruction::IncreaseAllowance { token: token_addr, spender, amount }
}

// ------------------------------------------------------------------
// Dispatcher
// ------------------------------------------------------------------

/// The oracle reading a request needs: a deposit prices against the
/// vault's direct underlying balance in either variant; a withdraw's
/// reading must match the vault's variant.
pub open spec fn readings_compatible(
    pre: Vault,
    msg: ExecuteMsg,
    readings: Option<Valuation>,
) -> bool {
    match msg {
        ExecuteMsg::Deposit { .. } => match readings {
            None => true,
            Some(v) => v is Direct,
        },
        ExecuteMsg::Withdraw { .. } => match readings {
            None => true,
            Some(v) => valuation_matches(pre.routing, v),
        },
    }
}

/// The underlying balance a direct reading carries, if any.
pub open spec fn direct_balance(readings: Option<Valuation>) -> Option<u128> {
    match readings {
        Some(Valuation::Direct { balance }) => Some(balance),
        _ => None,
    }
}

/// Route a state-changing request to deposit or withdraw. `readings` is
/// whatever the oracle adapter read for this request; the outcome is the
/// routed operation's, unchanged.
pub fn execute(
    vault: &mut Vault,
    sender: u64,
    vault_id: u64,
    msg: ExecuteMsg,
    readings: Option<Valuation>,
) -> (r: Result<(u128, Vec<Instruction>), ContractError>)
    requires
        old(vault).wf(),
        readings_compatible(*old(vault), msg, readings),
    ensures
        msg matches ExecuteMsg::Deposit { amount } ==> deposit_post(
            *old(vault),
            *final(vault),
            sender,
            vault_id,
            amount,
            direct_balance(readings),
            r,
        ),
        msg matches ExecuteMsg::Withdraw { share } ==> withdraw_post(
            *old(vault),
            *final(vault),
            sender,
            share,
            readings,
            r,
        ),
{
    match msg {
        ExecuteMsg::Deposit { amount } => {
            let vault_balance = match readings {
                Some(Valuation::Direct { balance }) => Some(balance),
                _ => None,
            };
            execute_deposit(vault, sender, vault_id, amount, vault_balance)
        },
        ExecuteMsg::Withdraw { share } => execute_withdraw(vault, sender, share, readings),
    }
}

// ------------------------------------------------------------------
// Queries
// ------------------------------------------------------------------

/// The outstanding total share supply.
pub fn get_total_supply(vault: &Vault) -> (r: u128)
    ensures
        r == vault.total_supply(),
{
    vault.ledger.get_total_supply()
}

/// A holder's share balance; a holder without an entry reads as zero.
pub fn get_balance_of(vault: &Vault, address: u64) -> (r: u128)
    requires
        vault.wf(),
    ensures
        r == vault.balance_of(address),
{
    vault.ledger.get_balance(address)
}

/// Route a read-only query to the ledger.
pub fn query(vault: &Vault, msg: QueryMsg) -> (r: u128)
    requires
        vault.wf(),
    ensures
        msg matches QueryMsg::GetTotalSupply {} ==> r == vault.total_supply(),
        msg matches QueryMsg::GetBalanceOf { address } ==> r == vault.balance_of(address),
{
    match msg {
        QueryMsg::GetTotalSupply {} => get_total_supply(vault),
        QueryMsg::GetBalanceOf { address } => get_balance_of(vault, address),
    }
}

// ------------------------------------------------------------------
// Laws of the pricing rules
// ------------------------------------------------------------------

/// The multiplication bound behind the round-trip law: shares minted at
/// value `value` are worth at most the deposited amount at any value that
/// has grown by at most that deposit.
proof fn lemma_minted_value_bounded(
    amount: int,
    supply: int,
    value: int,
    value_at_withdraw: int,
    minted: int,
) by (nonlinear_arith)
    requires
        amount >= 1,
        supply >= 0,
        supply == 0 ==> minted == amount && value == 0,
        supply > 0 ==> value >= 1 && value * minted <= amount * supply && minted >= 0,
        0 <= value_at_withdraw <= value + amount,
    ensures
        minted * value_at_withdraw <= amount * (supply + minted),
{
}

/// Withdrawing immediately after a deposit never returns more than the
/// deposit: for a deposit of `amount` at supply `supply` and value
/// `value`, redeeming all minted shares at any value that has grown by at
/// most the deposit itself pays out at most `amount`; the only loss is
/// floor rounding. At bootstrap a vault with no shares holds no value.
pub proof fn lemma_round_trip_no_gain(
    amount: int,
    supply: int,
    value: int,
    value_at_withdraw: int,
)
    requires
        amount >= 1,
        supply >= 0,
        supply == 0 ==> value == 0,
        supply > 0 ==> value >= 1,
        0 <= value_at_withdraw <= value + amount,
    ensures
        ({
            let minted = shares_for_deposit(amount, supply, value);
            amount_for_withdraw(minted, supply + minted, value_at_withdraw) <= amount
        }),
{
    let minted = shares_for_deposit(amount, supply, value);
    if supply > 0 {
        lemma_fundamental_div_mod(amount * supply, value);
        lemma_mod_bound(amount * supply, value);
        lemma_div_pos_is_pos(amount * supply, value);
    }
    lemma_minted_value_bounded(amount, supply, value, value_at_withdraw, minted);
    let total = supply + minted;
    assert(total >= 1);
    lemma_div_is_ordered(minted * value_at_withdraw, amount * total, total);
    lemma_div_multiples_vanish(amount, total);
    lemma_mul_is_commutative(amount, total);
}

/// The payout grows with the vault value: at a fixed share count and
/// supply, a larger redeemable value never pays out less. With the value
/// of a multi-pool vault being the sum of its per-pool conversions, the
/// payout is monotone in each conversion.
pub proof fn lemma_withdraw_monotone_in_value(shares: int, supply: int, v1: int, v2: int)
    requires
        0 <= shares,
        0 < supply,
        0 <= v1 <= v2,
    ensures
        amount_for_withdraw(shares, supply, v1) <= amount_for_withdraw(shares, supply, v2),
{
    assert(shares * v1 <= shares * v2) by (nonlinear_arith)
        requires
            0 <= shares,
            v1 <= v2,
    ;
    lemma_div_is_ordered(shares * v1, shares * v2, supply);
}

/// At a fixed share count and supply, the payout scales exactly linearly
/// with the vault value whenever the base division is exact: if
/// `share * value` is a multiple of `supply`, redeeming against a value
/// `k` times as large pays out exactly `k` times as much. (With a
/// remainder, only monotonicity holds: the floor breaks exact linearity.)
pub proof fn lemma_withdraw_scales_with_value(share: int, supply: int, value: int, k: int)
    requires
        0 <= share,
        0 < supply,
        0 <= value,
        0 <= k,
        (share * value) % supply == 0,
    ensures
        amount_for_withdraw(share, supply, k * value) == k * amount_for_withdraw(
            share,
            supply,
            value,
        ),
{
    let q = (share * value) / supply;
    lemma_fundamental_div_mod(share * value, supply);
    assert(share * (k * value) == supply * (k * q)) by (nonlinear_arith)
        requires
            share * value == supply * q,
    ;
    lemma_div_multiples_vanish(k * q, supply);
}

} // verus!
