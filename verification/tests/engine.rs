use cw_vault::contract::{
    execute, execute_deposit, execute_withdraw, get_balance_of, get_cw20_increase_allowance_msg,
    get_total_supply, instantiate, query,
};
use cw_vault::error::ContractError;
use cw_vault::msg::{
    ExecuteMsg, InstantiateMsg, Instruction, QueryMsg, RoutingMsg, TokenSelect, Valuation,
};
use cw_vault::state::Vault;

const OWNER: u64 = 1;
const TOKEN: u64 = 2;
const VAULT: u64 = 99;
const ALICE: u64 = 10;
const BOB: u64 = 11;

fn single_pool_vault() -> Vault {
    instantiate(InstantiateMsg { owner_addr: Some(OWNER), token_addr: Some(TOKEN), routing: None })
        .unwrap()
}

fn multi_pool_vault() -> Vault {
    instantiate(InstantiateMsg {
        owner_addr: Some(OWNER),
        token_addr: Some(TOKEN),
        routing: Some(RoutingMsg {
            lp_pool_1: Some(21),
            lp_pool_2: Some(22),
            rec_token1: Some(31),
            rec_token2: Some(32),
        }),
    })
    .unwrap()
}

#[test]
fn bootstrap_deposit_mints_one_to_one() {
    let mut vault = single_pool_vault();
    let (shares, instructions) = execute_deposit(&mut vault, ALICE, VAULT, 100, Some(0)).unwrap();
    assert_eq!(shares, 100);
    assert_eq!(get_total_supply(&vault), 100);
    assert_eq!(get_balance_of(&vault, ALICE), 100);
    assert_eq!(
        instructions,
        vec![Instruction::TransferFrom { token: TOKEN, owner: ALICE, recipient: VAULT, amount: 100 }]
    );
}

#[test]
fn concrete_scenario_two_depositors() {
    let mut vault = single_pool_vault();

    let (shares, _) = execute_deposit(&mut vault, ALICE, VAULT, 100, Some(0)).unwrap();
    assert_eq!(shares, 100);
    assert_eq!(get_total_supply(&vault), 100);

    let (shares, _) = execute_deposit(&mut vault, BOB, VAULT, 50, Some(100)).unwrap();
    assert_eq!(shares, 50);
    assert_eq!(get_total_supply(&vault), 150);

    let (amount, _) = execute_withdraw(
        &mut vault,
        ALICE,
        100,
        Some(Valuation::Direct { balance: 150 }),
    )
    .unwrap();
    assert_eq!(amount, 100);
    assert_eq!(get_total_supply(&vault), 50);
    assert_eq!(get_balance_of(&vault, ALICE), 0);
    assert_eq!(get_balance_of(&vault, BOB), 50);
}

#[test]
fn proportional_deposit_rounds_down() {
    let mut vault = single_pool_vault();
    execute_deposit(&mut vault, ALICE, VAULT, 3, Some(0)).unwrap();
    // 10 * 3 / 7 = 30 / 7: floor is 4, not 5
    let (shares, _) = execute_deposit(&mut vault, BOB, VAULT, 10, Some(7)).unwrap();
    assert_eq!(shares, 4);
    assert_eq!(get_total_supply(&vault), 7);
    assert_eq!(get_balance_of(&vault, BOB), 4);
}

#[test]
fn round_trip_loses_at_most_rounding() {
    let mut vault = single_pool_vault();
    execute_deposit(&mut vault, ALICE, VAULT, 10, Some(0)).unwrap();
    // Bob deposits 7 at value 4: floor(7 * 10 / 4) = 17 shares
    let (shares, _) = execute_deposit(&mut vault, BOB, VAULT, 7, Some(4)).unwrap();
    assert_eq!(shares, 17);
    // the deposit settled, so the vault now holds 4 + 7 = 11
    let (amount, _) = execute_withdraw(
        &mut vault,
        BOB,
        17,
        Some(Valuation::Direct { balance: 11 }),
    )
    .unwrap();
    // floor(17 * 11 / 27) = 6: less than the 7 deposited, never more
    assert_eq!(amount, 6);
    assert!(amount <= 7);
}

#[test]
fn withdraw_more_than_balance_is_rejected() {
    let mut vault = single_pool_vault();
    execute_deposit(&mut vault, ALICE, VAULT, 100, Some(0)).unwrap();
    let err = execute_withdraw(&mut vault, ALICE, 150, Some(Valuation::Direct { balance: 100 }))
        .unwrap_err();
    assert_eq!(err, ContractError::InsufficientShares);
    assert_eq!(get_total_supply(&vault), 100);
    assert_eq!(get_balance_of(&vault, ALICE), 100);
}

#[test]
fn zero_amounts_are_rejected_before_any_mutation() {
    let mut vault = single_pool_vault();
    execute_deposit(&mut vault, ALICE, VAULT, 100, Some(0)).unwrap();

    let err = execute_deposit(&mut vault, ALICE, VAULT, 0, Some(100)).unwrap_err();
    assert_eq!(err, ContractError::Validation);

    let err = execute_withdraw(&mut vault, ALICE, 0, Some(Valuation::Direct { balance: 100 }))
        .unwrap_err();
    assert_eq!(err, ContractError::Validation);

    assert_eq!(get_total_supply(&vault), 100);
    assert_eq!(get_balance_of(&vault, ALICE), 100);
}

#[test]
fn missing_oracle_reading_is_rejected() {
    let mut vault = single_pool_vault();
    let err = execute_deposit(&mut vault, ALICE, VAULT, 5, None).unwrap_err();
    assert_eq!(err, ContractError::ExternalQuery);

    execute_deposit(&mut vault, ALICE, VAULT, 5, Some(0)).unwrap();
    let err = execute_withdraw(&mut vault, ALICE, 5, None).unwrap_err();
    assert_eq!(err, ContractError::ExternalQuery);
    assert_eq!(get_total_supply(&vault), 5);
}

#[test]
fn arithmetic_inconsistencies_are_rejected() {
    // zero vault value with outstanding shares: fatal, never defaulted
    let mut vault = single_pool_vault();
    execute_deposit(&mut vault, ALICE, VAULT, 5, Some(0)).unwrap();
    let err = execute_deposit(&mut vault, BOB, VAULT, 5, Some(0)).unwrap_err();
    assert_eq!(err, ContractError::Arithmetic);

    // amount * supply overflows
    let err = execute_deposit(&mut vault, BOB, VAULT, u128::MAX, Some(1)).unwrap_err();
    assert_eq!(err, ContractError::Arithmetic);

    // shares * value overflows
    let err = execute_withdraw(
        &mut vault,
        ALICE,
        5,
        Some(Valuation::Direct { balance: u128::MAX }),
    )
    .unwrap_err();
    assert_eq!(err, ContractError::Arithmetic);

    assert_eq!(get_total_supply(&vault), 5);
    assert_eq!(get_balance_of(&vault, ALICE), 5);
}

#[test]
fn multi_pool_deposit_routes_half_and_half() {
    let mut vault = multi_pool_vault();
    let (shares, instructions) = execute_deposit(&mut vault, ALICE, VAULT, 100, Some(0)).unwrap();
    assert_eq!(shares, 100);
    assert_eq!(
        instructions,
        vec![
            Instruction::IncreaseAllowance { token: TOKEN, spender: 21, amount: 100 },
            Instruction::IncreaseAllowance { token: TOKEN, spender: 22, amount: 100 },
            Instruction::TransferFrom { token: TOKEN, owner: ALICE, recipient: VAULT, amount: 100 },
            Instruction::Swap {
                pool: 21,
                input_token: TokenSelect::Token1,
                input_amount: 50,
                min_output: 0,
            },
            Instruction::Swap {
                pool: 22,
                input_token: TokenSelect::Token1,
                input_amount: 50,
                min_output: 0,
            },
        ]
    );
}

#[test]
fn multi_pool_withdraw_values_both_legs() {
    let mut vault = multi_pool_vault();
    execute_deposit(&mut vault, ALICE, VAULT, 100, Some(0)).unwrap();

    // receipt balances 30 and 40 convert to 70 and 50: V = 120
    let (amount, instructions) = execute_withdraw(
        &mut vault,
        ALICE,
        40,
        Some(Valuation::Routed {
            rec_1_balance: 30,
            converted_1: 70,
            rec_2_balance: 40,
            converted_2: 50,
        }),
    )
    .unwrap();
    // floor(40 * 120 / 100) = 48
    assert_eq!(amount, 48);
    assert_eq!(get_total_supply(&vault), 60);
    // each leg converts the redemption's slice of its receipt balance:
    // floor(40 * 30 / 100) = 12 and floor(40 * 40 / 100) = 16
    assert_eq!(
        instructions,
        vec![
            Instruction::IncreaseAllowance { token: 31, spender: 21, amount: 12 },
            Instruction::IncreaseAllowance { token: 32, spender: 22, amount: 16 },
            Instruction::Swap {
                pool: 21,
                input_token: TokenSelect::Token1,
                input_amount: 12,
                min_output: 0,
            },
            Instruction::Swap {
                pool: 22,
                input_token: TokenSelect::Token2,
                input_amount: 16,
                min_output: 0,
            },
            Instruction::Transfer { token: TOKEN, recipient: ALICE, amount: 48 },
        ]
    );
}

#[test]
fn multi_pool_routed_sum_can_overflow() {
    let mut vault = multi_pool_vault();
    execute_deposit(&mut vault, ALICE, VAULT, 5, Some(0)).unwrap();
    let err = execute_withdraw(
        &mut vault,
        ALICE,
        1,
        Some(Valuation::Routed {
            rec_1_balance: 1,
            converted_1: u128::MAX,
            rec_2_balance: 1,
            converted_2: 1,
        }),
    )
    .unwrap_err();
    assert_eq!(err, ContractError::Arithmetic);
    assert_eq!(get_total_supply(&vault), 5);
}

#[test]
fn multi_pool_leg_slice_can_overflow() {
    let mut vault = multi_pool_vault();
    execute_deposit(&mut vault, ALICE, VAULT, 5, Some(0)).unwrap();
    // the converted sum and the payout fit, but pricing the first leg's
    // proportional slice (share * receipt balance) does not
    let err = execute_withdraw(
        &mut vault,
        ALICE,
        5,
        Some(Valuation::Routed {
            rec_1_balance: u128::MAX,
            converted_1: 1,
            rec_2_balance: 1,
            converted_2: 1,
        }),
    )
    .unwrap_err();
    assert_eq!(err, ContractError::Arithmetic);
    assert_eq!(get_total_supply(&vault), 5);
    assert_eq!(get_balance_of(&vault, ALICE), 5);
}

#[test]
fn payout_scales_exactly_when_division_is_exact() {
    // two runs from identical ledger state, differing only in the value:
    // 40 * 50 is a multiple of 100, so doubling the value doubles the payout
    let mut vault = single_pool_vault();
    execute_deposit(&mut vault, ALICE, VAULT, 100, Some(0)).unwrap();
    let (amount, _) = execute_withdraw(&mut vault, ALICE, 40, Some(Valuation::Direct { balance: 50 }))
        .unwrap();
    assert_eq!(amount, 20);

    let mut vault = single_pool_vault();
    execute_deposit(&mut vault, ALICE, VAULT, 100, Some(0)).unwrap();
    let (amount, _) = execute_withdraw(&mut vault, ALICE, 40, Some(Valuation::Direct { balance: 100 }))
        .unwrap();
    assert_eq!(amount, 40);
}

#[test]
fn supply_equals_sum_of_balances_through_a_session() {
    let mut vault = single_pool_vault();
    execute_deposit(&mut vault, ALICE, VAULT, 100, Some(0)).unwrap();
    execute_deposit(&mut vault, BOB, VAULT, 60, Some(100)).unwrap();
    execute_withdraw(&mut vault, ALICE, 30, Some(Valuation::Direct { balance: 160 })).unwrap();
    execute_deposit(&mut vault, ALICE, VAULT, 10, Some(130)).unwrap();

    let total = get_balance_of(&vault, ALICE) + get_balance_of(&vault, BOB);
    assert_eq!(get_total_supply(&vault), total);
}

#[test]
fn execute_routes_requests() {
    let mut vault = single_pool_vault();
    let (shares, _) = execute(
        &mut vault,
        ALICE,
        VAULT,
        ExecuteMsg::Deposit { amount: 100 },
        Some(Valuation::Direct { balance: 0 }),
    )
    .unwrap();
    assert_eq!(shares, 100);

    let (amount, _) = execute(
        &mut vault,
        ALICE,
        VAULT,
        ExecuteMsg::Withdraw { share: 25 },
        Some(Valuation::Direct { balance: 100 }),
    )
    .unwrap();
    assert_eq!(amount, 25);
    assert_eq!(get_total_supply(&vault), 75);
}

#[test]
fn query_reads_supply_and_balances() {
    let mut vault = single_pool_vault();
    execute_deposit(&mut vault, ALICE, VAULT, 42, Some(0)).unwrap();
    assert_eq!(query(&vault, QueryMsg::GetTotalSupply {}), 42);
    assert_eq!(query(&vault, QueryMsg::GetBalanceOf { address: ALICE }), 42);
    // an absent holder reads as zero
    assert_eq!(query(&vault, QueryMsg::GetBalanceOf { address: BOB }), 0);
}

#[test]
fn instantiate_rejects_unvalidated_addresses() {
    let err = instantiate(InstantiateMsg { owner_addr: None, token_addr: Some(TOKEN), routing: None })
        .unwrap_err();
    assert_eq!(err, ContractError::Validation);

    let err = instantiate(InstantiateMsg {
        owner_addr: Some(OWNER),
        token_addr: Some(TOKEN),
        routing: Some(RoutingMsg {
            lp_pool_1: Some(21),
            lp_pool_2: None,
            rec_token1: Some(31),
            rec_token2: Some(32),
        }),
    })
    .unwrap_err();
    assert_eq!(err, ContractError::Validation);
}

#[test]
fn allowance_builder_carries_its_arguments() {
    let instruction = get_cw20_increase_allowance_msg(7, 8, 9);
    assert_eq!(instruction, Instruction::IncreaseAllowance { token: 7, spender: 8, amount: 9 });
}

#[test]
fn errors_describe_themselves() {
    assert_eq!(ContractError::Validation.describe(), "invalid request argument");
    assert_eq!(ContractError::InsufficientShares.describe(), "insufficient shares");
    assert_eq!(
        ContractError::Arithmetic.describe(),
        "arithmetic overflow or division by zero"
    );
    assert_eq!(ContractError::ExternalQuery.describe(), "external query failed");
}
