use dwav_token::config::{AccountId, DwavConfig, DwavError};
use dwav_token::engine::{compute_tax_breakdown, transfer_with_tax, TransferRequest};
use dwav_token::ledger::{Ledger, LedgerError};

fn id(n: u64) -> AccountId {
    AccountId::from_u64(n)
}

fn config(tax_enabled: bool, sell_tax_bps: u16, transfer_tax_bps: u16) -> DwavConfig {
    DwavConfig {
        authority: id(1),
        treasury_wallet: id(2),
        liquidity_wallet: id(3),
        marketing_wallet: id(4),
        sell_tax_bps,
        transfer_tax_bps,
        tax_enabled,
        total_tax_collected: 0,
        bump: 0,
    }
}

/// A ledger with the source (id 10, owned by id 11), the destination (id 12)
/// and the three beneficiary accounts of `config`, all starting at zero but
/// the source.
fn funded_ledger(source_balance: u64) -> Ledger {
    let mut ledger = Ledger::new();
    ledger.open_account(id(10), id(11), source_balance);
    ledger.open_account(id(12), id(12), 0);
    ledger.open_account(id(2), id(2), 0);
    ledger.open_account(id(3), id(3), 0);
    ledger.open_account(id(4), id(4), 0);
    ledger
}

fn request(amount: u64, is_sell: bool) -> TransferRequest {
    TransferRequest { source: id(10), destination: id(12), amount, is_sell, controller: id(11) }
}

fn balance(ledger: &Ledger, n: u64) -> u64 {
    ledger.balance_of(id(n)).unwrap()
}

#[test]
fn breakdown_concrete_one_unit_at_nine_decimals() {
    let c = config(true, 500, 500);
    let b = compute_tax_breakdown(&c, 1_000_000_000, true);
    assert_eq!(b.tax_amount, 50_000_000);
    assert_eq!(b.net_amount, 950_000_000);
    assert_eq!(b.treasury_amount, 20_000_000);
    assert_eq!(b.liquidity_amount, 20_000_000);
    assert_eq!(b.marketing_amount, 10_000_000);
}

#[test]
fn breakdown_rounding_remainder_goes_to_marketing() {
    let c = config(true, 500, 500);
    // amount 140 at 500 bps owes tax 7: 7 * 200 / 500 rounds down to 2
    let b = compute_tax_breakdown(&c, 140, true);
    assert_eq!(b.tax_amount, 7);
    assert_eq!(b.treasury_amount, 2);
    assert_eq!(b.liquidity_amount, 2);
    assert_eq!(b.marketing_amount, 3);
}

#[test]
fn breakdown_conserves_value_across_rates_and_amounts() {
    for rate in [0u16, 1, 3, 499, 500, 999, 1000] {
        let c = config(true, rate, rate);
        for amount in [0u64, 1, 7, 140, 999, 10_000, u64::MAX, u64::MAX - 1, 123_456_789_012_345]
        {
            for is_sell in [true, false] {
                let b = compute_tax_breakdown(&c, amount, is_sell);
                assert_eq!(
                    b.treasury_amount + b.liquidity_amount + b.marketing_amount + b.net_amount,
                    amount
                );
                assert!(b.tax_amount <= amount);
                assert_eq!(
                    b.treasury_amount + b.liquidity_amount + b.marketing_amount,
                    b.tax_amount
                );
            }
        }
    }
}

#[test]
fn breakdown_uses_sell_rate_only_for_sells() {
    let c = config(true, 1000, 100);
    let sell = compute_tax_breakdown(&c, 10_000, true);
    let plain = compute_tax_breakdown(&c, 10_000, false);
    assert_eq!(sell.tax_amount, 1000);
    assert_eq!(plain.tax_amount, 100);
}

#[test]
fn breakdown_tax_disabled_forces_zero_tax() {
    let c = config(false, 1000, 1000);
    let b = compute_tax_breakdown(&c, 10_000, true);
    assert_eq!(b.tax_amount, 0);
    assert_eq!(b.net_amount, 10_000);
    assert_eq!(b.treasury_amount, 0);
    assert_eq!(b.liquidity_amount, 0);
    assert_eq!(b.marketing_amount, 0);
}

#[test]
fn transfer_with_tax_moves_all_four_shares() {
    let c = config(true, 500, 500);
    let mut ledger = funded_ledger(2_000_000_000);
    let r = transfer_with_tax(&c, &mut ledger, &request(1_000_000_000, true));
    let b = r.unwrap();
    assert_eq!(b.tax_amount, 50_000_000);
    assert_eq!(balance(&ledger, 10), 1_000_000_000);
    assert_eq!(balance(&ledger, 12), 950_000_000);
    assert_eq!(balance(&ledger, 2), 20_000_000);
    assert_eq!(balance(&ledger, 3), 20_000_000);
    assert_eq!(balance(&ledger, 4), 10_000_000);
}

#[test]
fn transfer_with_tax_disabled_moves_only_the_net() {
    let c = config(false, 1000, 1000);
    let mut ledger = funded_ledger(500);
    let r = transfer_with_tax(&c, &mut ledger, &request(500, true));
    let b = r.unwrap();
    assert_eq!(b.tax_amount, 0);
    assert_eq!(b.net_amount, 500);
    assert_eq!(balance(&ledger, 10), 0);
    assert_eq!(balance(&ledger, 12), 500);
    assert_eq!(balance(&ledger, 2), 0);
    assert_eq!(balance(&ledger, 3), 0);
    assert_eq!(balance(&ledger, 4), 0);
}

#[test]
fn transfer_with_tax_zero_amount_is_a_no_op() {
    let c = config(true, 500, 500);
    let mut ledger = funded_ledger(100);
    let r = transfer_with_tax(&c, &mut ledger, &request(0, false));
    let b = r.unwrap();
    assert_eq!(b.tax_amount, 0);
    assert_eq!(b.net_amount, 0);
    assert_eq!(balance(&ledger, 10), 100);
    assert_eq!(balance(&ledger, 12), 0);
}

#[test]
fn transfer_with_tax_insufficient_balance_changes_nothing() {
    let c = config(true, 500, 500);
    let mut ledger = funded_ledger(999_999_999);
    let r = transfer_with_tax(&c, &mut ledger, &request(1_000_000_000, true));
    assert_eq!(r, Err(DwavError::TransferFailed(LedgerError::InsufficientBalance)));
    assert_eq!(balance(&ledger, 10), 999_999_999);
    assert_eq!(balance(&ledger, 12), 0);
    assert_eq!(balance(&ledger, 2), 0);
    assert_eq!(balance(&ledger, 3), 0);
    assert_eq!(balance(&ledger, 4), 0);
}

#[test]
fn transfer_with_tax_wrong_controller_changes_nothing() {
    let c = config(true, 500, 500);
    let mut ledger = funded_ledger(1_000);
    let req = TransferRequest {
        source: id(10),
        destination: id(12),
        amount: 100,
        is_sell: false,
        controller: id(99),
    };
    let r = transfer_with_tax(&c, &mut ledger, &req);
    assert_eq!(r, Err(DwavError::TransferFailed(LedgerError::AuthorizationMismatch)));
    assert_eq!(balance(&ledger, 10), 1_000);
    assert_eq!(balance(&ledger, 12), 0);
}

#[test]
fn transfer_with_tax_missing_beneficiary_rolls_back_the_net_move() {
    let c = config(true, 500, 500);
    let mut ledger = Ledger::new();
    ledger.open_account(id(10), id(11), 10_000);
    ledger.open_account(id(12), id(12), 0);
    // the three beneficiary accounts were never opened
    let r = transfer_with_tax(&c, &mut ledger, &request(10_000, true));
    assert_eq!(r, Err(DwavError::TransferFailed(LedgerError::UnknownAccount)));
    assert_eq!(balance(&ledger, 10), 10_000);
    assert_eq!(balance(&ledger, 12), 0);
}

#[test]
fn move_units_unknown_account_fails() {
    let mut ledger = Ledger::new();
    ledger.open_account(id(1), id(1), 50);
    let r = ledger.move_units(id(1), id(2), 10, id(1));
    assert_eq!(r, Err(LedgerError::UnknownAccount));
    assert_eq!(ledger.balance_of(id(1)), Some(50));
}

#[test]
fn move_units_balance_overflow_fails() {
    let mut ledger = Ledger::new();
    ledger.open_account(id(1), id(1), 50);
    ledger.open_account(id(2), id(2), u64::MAX);
    let r = ledger.move_units(id(1), id(2), 1, id(1));
    assert_eq!(r, Err(LedgerError::BalanceOverflow));
    assert_eq!(ledger.balance_of(id(1)), Some(50));
    assert_eq!(ledger.balance_of(id(2)), Some(u64::MAX));
}

#[test]
fn move_units_self_move_keeps_balance() {
    let mut ledger = Ledger::new();
    ledger.open_account(id(1), id(1), 50);
    assert_eq!(ledger.move_units(id(1), id(1), 30, id(1)), Ok(()));
    assert_eq!(ledger.balance_of(id(1)), Some(50));
    assert_eq!(ledger.move_units(id(1), id(1), 51, id(1)), Err(LedgerError::InsufficientBalance));
}

#[test]
fn ledger_queries_report_accounts() {
    let mut ledger = Ledger::new();
    assert!(!ledger.has_account(id(1)));
    assert_eq!(ledger.balance_of(id(1)), None);
    ledger.open_account(id(1), id(9), 7);
    assert!(ledger.has_account(id(1)));
    assert_eq!(ledger.balance_of(id(1)), Some(7));
}
