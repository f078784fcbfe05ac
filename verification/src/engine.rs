//! The taxed-transfer engine: tax computation, the three-way split, and the
//! atomic transfer of the net amount plus the beneficiary shares.

use vstd::prelude::*;
use crate::config::{AccountId, DwavConfig, DwavError};
use crate::ledger::{AccountEntry, Ledger, LedgerError, spec_move};
use crate::{BPS_DENOMINATOR, LIQUIDITY_BPS, MAX_TAX_BPS, SELL_TAX_BPS, TREASURY_BPS};

verus! {

/// One transfer request: who moves how much where, whether the sell rate
/// applies, and which identity authorizes the source account.
#[derive(Clone, Copy, PartialEq, Eq, Structural, Debug)]
pub struct TransferRequest {
    pub source: AccountId,
    pub destination: AccountId,
    pub amount: u64,
    pub is_sell: bool,
    pub controller: AccountId,
}

/// The amounts a taxed transfer moves: the tax owed, the net amount for the
/// destination, and the three beneficiary shares of the tax.
#[derive(Clone, Copy, PartialEq, Eq, Structural, Debug)]
pub struct TaxBreakdown {
    pub tax_amount: u64,
    pub net_amount: u64,
    pub treasury_amount: u64,
    pub liquidity_amount: u64,
    pub marketing_amount: u64,
}

/// The rate a transfer pays: zero when tax is disabled, else the configured
/// sell or transfer rate as the request's classification selects.
pub open spec fn spec_effective_rate(c: DwavConfig, is_sell: bool) -> u16 {
    if !c.tax_enabled {
        0
    } else if is_sell {
        c.sell_tax_bps
    } else {
        c.transfer_tax_bps
    }
}

/// The tax owed on `amount` at `rate_bps`, rounded down.
pub open spec fn spec_tax_amount(amount: u64, rate_bps: u16) -> int {
    amount * rate_bps / (BPS_DENOMINATOR as int)
}

/// The full breakdown of a taxed transfer. The treasury and liquidity shares
/// are fixed fractions of the collected tax — 200 and 200 out of the 500-bps
/// base scale — and the marketing share absorbs the whole rounding remainder.
pub open spec fn spec_breakdown(c: DwavConfig, amount: u64, is_sell: bool) -> TaxBreakdown {
    let tax = spec_tax_amount(amount, spec_effective_rate(c, is_sell));
    let treasury = tax * (TREASURY_BPS as int) / (SELL_TAX_BPS as int);
    let liquidity = tax * (LIQUIDITY_BPS as int) / (SELL_TAX_BPS as int);
    TaxBreakdown {
        tax_amount: tax as u64,
        net_amount: (amount - tax) as u64,
        treasury_amount: treasury as u64,
        liquidity_amount: liquidity as u64,
        marketing_amount: (tax - treasury - liquidity) as u64,
    }
}

/// The tax owed never exceeds the amount while the rate stays within the
/// basis-point denominator.
pub proof fn lemma_tax_le_amount(amount: u64, rate_bps: u16)
    requires
        rate_bps <= BPS_DENOMINATOR,
    ensures
        0 <= spec_tax_amount(amount, rate_bps) <= amount,
{
    let d = BPS_DENOMINATOR as int;
    assert(amount * rate_bps <= amount * d) by (nonlinear_arith)
        requires
            rate_bps <= d,
            amount >= 0,
    ;
    assert(amount * rate_bps / d <= amount * d / d) by (nonlinear_arith)
        requires
            amount * rate_bps <= amount * d,
            d > 0,
            amount * rate_bps >= 0,
    ;
    assert(amount * d / d == amount) by (nonlinear_arith)
        requires
            d > 0,
    ;
    assert(amount * rate_bps >= 0) by (nonlinear_arith)
        requires
            amount >= 0,
            rate_bps >= 0,
    ;
}

/// Value conservation of the split: the treasury and liquidity shares are
/// the rounded-down fixed fractions of the tax, both fit under it together,
/// the marketing share is the exact remainder, and the four output amounts
/// sum back to the requested amount for every rate within the ceiling.
pub proof fn lemma_breakdown_conservation(c: DwavConfig, amount: u64, is_sell: bool)
    requires
        c.wf(),
    ensures
        spec_effective_rate(c, is_sell) <= MAX_TAX_BPS,
        0 <= spec_tax_amount(amount, spec_effective_rate(c, is_sell)) <= amount,
        spec_breakdown(c, amount, is_sell).tax_amount == spec_tax_amount(
            amount,
            spec_effective_rate(c, is_sell),
        ),
        spec_breakdown(c, amount, is_sell).net_amount == amount - spec_breakdown(
            c,
            amount,
            is_sell,
        ).tax_amount,
        spec_breakdown(c, amount, is_sell).treasury_amount == spec_breakdown(
            c,
            amount,
            is_sell,
        ).tax_amount * (TREASURY_BPS as int) / (SELL_TAX_BPS as int),
        spec_breakdown(c, amount, is_sell).liquidity_amount == spec_breakdown(
            c,
            amount,
            is_sell,
        ).tax_amount * (LIQUIDITY_BPS as int) / (SELL_TAX_BPS as int),
        spec_breakdown(c, amount, is_sell).treasury_amount + spec_breakdown(
            c,
            amount,
            is_sell,
        ).liquidity_amount <= spec_breakdown(c, amount, is_sell).tax_amount,
        spec_breakdown(c, amount, is_sell).marketing_amount == spec_breakdown(
            c,
            amount,
            is_sell,
        ).tax_amount - spec_breakdown(c, amount, is_sell).treasury_amount - spec_breakdown(
            c,
            amount,
            is_sell,
        ).liquidity_amount,
        spec_breakdown(c, amount, is_sell).treasury_amount + spec_breakdown(
            c,
            amount,
            is_sell,
        ).liquidity_amount + spec_breakdown(c, amount, is_sell).marketing_amount + spec_breakdown(
            c,
            amount,
            is_sell,
        ).net_amount == amount,
{
    let rate = spec_effective_rate(c, is_sell);
    lemma_tax_le_amount(amount, rate);
    let tax = spec_tax_amount(amount, rate);
    lemma_share_bounds(tax);
}

/// The two rounded-down shares of the tax sit between zero and the tax, and
/// together never exceed it.
proof fn lemma_share_bounds(tax: int)
    requires
        0 <= tax,
    ensures
        0 <= tax * (TREASURY_BPS as int) / (SELL_TAX_BPS as int) <= tax,
        0 <= tax * (LIQUIDITY_BPS as int) / (SELL_TAX_BPS as int) <= tax,
        tax * (TREASURY_BPS as int) / (SELL_TAX_BPS as int) + tax * (LIQUIDITY_BPS as int) / (
        SELL_TAX_BPS as int) <= tax,
{
    let t: int = tax * 200 / 500;
    assert(500 * t <= tax * 200 && t >= 0 && tax * 200 >= 0) by (nonlinear_arith)
        requires
            tax >= 0,
            t == tax * 200 / 500,
    ;
    assert(500 * (t + t) <= 400 * tax) by (nonlinear_arith)
        requires
            500 * t <= tax * 200,
    ;
    assert(t + t <= tax) by (nonlinear_arith)
        requires
            500 * (t + t) <= 400 * tax,
            tax >= 0,
    ;
    assert(tax * (TREASURY_BPS as int) / (SELL_TAX_BPS as int) == t);
    assert(tax * (LIQUIDITY_BPS as int) / (SELL_TAX_BPS as int) == t);
}

/// Computes the tax owed, the net amount and the three-way split for one
/// transfer. The multiply is carried out on a widened 128-bit intermediate,
/// so every step of the computation is representable and the conservation
/// identity `treasury + liquidity + marketing + net == amount` holds exactly.
pub fn compute_tax_breakdown(config: &DwavConfig, amount: u64, is_sell: bool) -> (b: TaxBreakdown)
    requires
        config.wf(),
    ensures
        b == spec_breakdown(*config, amount, is_sell),
        b.tax_amount <= amount,
        b.net_amount == amount - b.tax_amount,
        b.treasury_amount + b.liquidity_amount <= b.tax_amount,
        b.marketing_amount == b.tax_amount - b.treasury_amount - b.liquidity_amount,
        b.treasury_amount + b.liquidity_amount + b.marketing_amount + b.net_amount == amount,
        !config.tax_enabled ==> b.tax_amount == 0 && b.net_amount == amount,
{
    proof {
        lemma_breakdown_conservation(*config, amount, is_sell);
    }
    let tax_bps: u16 = if config.tax_enabled {
        if is_sell {
            config.sell_tax_bps
        } else {
            config.transfer_tax_bps
        }
    } else {
        0
    };
    let tax_wide: u128 = (amount as u128) * (tax_bps as u128) / (BPS_DENOMINATOR as u128);
    let tax_amount: u64 = tax_wide as u64;
    let net_amount: u64 = amount - tax_amount;
    let treasury_wide: u128 = (tax_amount as u128) * (TREASURY_BPS as u128) / (
    SELL_TAX_BPS as u128);
    let liquidity_wide: u128 = (tax_amount as u128) * (LIQUIDITY_BPS as u128) / (
    SELL_TAX_BPS as u128);
    let treasury_amount: u64 = treasury_wide as u64;
    let liquidity_amount: u64 = liquidity_wide as u64;
    let marketing_amount: u64 = tax_amount - treasury_amount - liquidity_amount;
    TaxBreakdown { tax_amount, net_amount, treasury_amount, liquidity_amount, marketing_amount }
}

/// What a whole taxed transfer does to the ledger: the net move to the
/// destination, then — only when tax is owed — the three beneficiary moves,
/// each drawn from the source and authorized by the request's controller.
/// The first failing move decides the error; on success the result is the
/// ledger after all moves.
pub open spec fn spec_transfer_with_tax(
    m: Map<AccountId, AccountEntry>,
    c: DwavConfig,
    req: TransferRequest,
) -> Result<Map<AccountId, AccountEntry>, LedgerError> {
    let b = spec_breakdown(c, req.amount, req.is_sell);
    match spec_move(m, req.source, req.destination, b.net_amount, req.controller) {
        Err(e) => Err(e),
        Ok(m1) => if b.tax_amount == 0 {
            Ok(m1)
        } else {
            match spec_move(m1, req.source, c.treasury_wallet, b.treasury_amount, req.controller) {
                Err(e) => Err(e),
                Ok(m2) => match spec_move(
                    m2,
                    req.source,
                    c.liquidity_wallet,
                    b.liquidity_amount,
                    req.controller,
                ) {
                    Err(e) => Err(e),
                    Ok(m3) => spec_move(
                        m3,
                        req.source,
                        c.marketing_wallet,
                        b.marketing_amount,
                        req.controller,
                    ),
                },
            }
        },
    }
}

/// Moves `amount` units from the request's source to its destination after
/// deducting the tax the policy record owes, and routes the tax to the three
/// configured beneficiaries in one indivisible operation: either every move
/// commits, or the ledger is left untouched and the first ledger failure is
/// surfaced as `TransferFailed`.
pub fn transfer_with_tax(config: &DwavConfig, ledger: &mut Ledger, req: &TransferRequest) -> (r:
    Result<TaxBreakdown, DwavError>)
    requires
        config.wf(),
        old(ledger).wf(),
    ensures
        final(ledger).wf(),
        (r is Ok) == (spec_transfer_with_tax(old(ledger)@, *config, *req) is Ok),
        r is Ok ==> r->Ok_0 == spec_breakdown(*config, req.amount, req.is_sell)
            && spec_transfer_with_tax(old(ledger)@, *config, *req) == Ok::<_, LedgerError>(
            final(ledger)@,
        ),
        r is Err ==> *final(ledger) == *old(ledger) && spec_transfer_with_tax(
            old(ledger)@,
            *config,
            *req,
        ) is Err && r->Err_0 == DwavError::TransferFailed(
            spec_transfer_with_tax(old(ledger)@, *config, *req)->Err_0,
        ),
{
    let b = compute_tax_breakdown(config, req.amount, req.is_sell);
    let mut work = ledger.duplicate();
    match work.move_units(req.source, req.destination, b.net_amount, req.controller) {
        Ok(()) => {},
        Err(e) => {
            return Err(DwavError::TransferFailed(e));
        },
    }
    if b.tax_amount > 0 {
        match work.move_units(req.source, config.treasury_wallet, b.treasury_amount, req.controller) {
            Ok(()) => {},
            Err(e) => {
                return Err(DwavError::TransferFailed(e));
            },
        }
        match work.move_units(
            req.source,
            config.liquidity_wallet,
            b.liquidity_amount,
            req.controller,
        ) {
            Ok(()) => {},
            Err(e) => {
                return Err(DwavError::TransferFailed(e));
            },
        }
        match work.move_units(
            req.source,
            config.marketing_wallet,
            b.marketing_amount,
            req.controller,
        ) {
            Ok(()) => {},
            Err(e) => {
                return Err(DwavError::TransferFailed(e));
            },
        }
    }
    *ledger = work;
    Ok(b)
}

/// When tax collection is disabled a taxed transfer owes no tax and reduces
/// to exactly one ledger move of the full requested amount, whatever the
/// configured rates are.
pub proof fn lemma_tax_disabled_single_transfer(
    m: Map<AccountId, AccountEntry>,
    c: DwavConfig,
    req: TransferRequest,
)
    requires
        c.wf(),
        !c.tax_enabled,
    ensures
        spec_breakdown(c, req.amount, req.is_sell).tax_amount == 0,
        spec_breakdown(c, req.amount, req.is_sell).net_amount == req.amount,
        spec_transfer_with_tax(m, c, req) == spec_move(
            m,
            req.source,
            req.destination,
            req.amount,
            req.controller,
        ),
{
    lemma_breakdown_conservation(c, req.amount, req.is_sell);
}

/// When success is owed: a taxed transfer goes through whenever the five
/// accounts involved exist and are pairwise distinct, the request's
/// controller owns the source, the source holds at least the requested
/// amount, and every destination can absorb its share.
pub proof fn lemma_transfer_succeeds(
    m: Map<AccountId, AccountEntry>,
    c: DwavConfig,
    req: TransferRequest,
)
    requires
        c.wf(),
        m.contains_key(req.source),
        m.contains_key(req.destination),
        m.contains_key(c.treasury_wallet),
        m.contains_key(c.liquidity_wallet),
        m.contains_key(c.marketing_wallet),
        m[req.source].owner == req.controller,
        m[req.source].balance >= req.amount,
        req.source != req.destination,
        req.source != c.treasury_wallet,
        req.source != c.liquidity_wallet,
        req.source != c.marketing_wallet,
        req.destination != c.treasury_wallet,
        req.destination != c.liquidity_wallet,
        req.destination != c.marketing_wallet,
        c.treasury_wallet != c.liquidity_wallet,
        c.treasury_wallet != c.marketing_wallet,
        c.liquidity_wallet != c.marketing_wallet,
        m[req.destination].balance + spec_breakdown(c, req.amount, req.is_sell).net_amount
            <= u64::MAX,
        m[c.treasury_wallet].balance + spec_breakdown(c, req.amount, req.is_sell).treasury_amount
            <= u64::MAX,
        m[c.liquidity_wallet].balance + spec_breakdown(c, req.amount, req.is_sell).liquidity_amount
            <= u64::MAX,
        m[c.marketing_wallet].balance + spec_breakdown(c, req.amount, req.is_sell).marketing_amount
            <= u64::MAX,
    ensures
        spec_transfer_with_tax(m, c, req) is Ok,
{
    lemma_breakdown_conservation(c, req.amount, req.is_sell);
    let b = spec_breakdown(c, req.amount, req.is_sell);
    assert(spec_move(m, req.source, req.destination, b.net_amount, req.controller) is Ok);
    let m1 = spec_move(m, req.source, req.destination, b.net_amount, req.controller)->Ok_0;
    if b.tax_amount != 0 {
        assert(m1[req.source].owner == req.controller);
        assert(m1[c.treasury_wallet] == m[c.treasury_wallet]);
        assert(spec_move(m1, req.source, c.treasury_wallet, b.treasury_amount, req.controller)
            is Ok);
        let m2 = spec_move(
            m1,
            req.source,
            c.treasury_wallet,
            b.treasury_amount,
            req.controller,
        )->Ok_0;
        assert(m2[req.source].owner == req.controller);
        assert(m2[c.liquidity_wallet] == m[c.liquidity_wallet]);
        assert(spec_move(m2, req.source, c.liquidity_wallet, b.liquidity_amount, req.controller)
            is Ok);
        let m3 = spec_move(
            m2,
            req.source,
            c.liquidity_wallet,
            b.liquidity_amount,
            req.controller,
        )->Ok_0;
        assert(m3[req.source].owner == req.controller);
        assert(m3[c.marketing_wallet] == m[c.marketing_wallet]);
        assert(m3[req.source].balance >= b.marketing_amount);
        assert(spec_move(m3, req.source, c.marketing_wallet, b.marketing_amount, req.controller)
            is Ok);
    }
}

/// A taxed transfer whose source holds less than the requested amount fails,
/// provided the source is none of the four destination accounts; by the
/// contract of [`transfer_with_tax`] the ledger is then left untouched.
pub proof fn lemma_insufficient_balance_fails(
    m: Map<AccountId, AccountEntry>,
    c: DwavConfig,
    req: TransferRequest,
)
    requires
        c.wf(),
        m.contains_key(req.source),
        m[req.source].balance < req.amount,
        req.source != req.destination,
        req.source != c.treasury_wallet,
        req.source != c.liquidity_wallet,
        req.source != c.marketing_wallet,
    ensures
        spec_transfer_with_tax(m, c, req) is Err,
{
    lemma_breakdown_conservation(c, req.amount, req.is_sell);
    let b = spec_breakdown(c, req.amount, req.is_sell);
    let bal0 = m[req.source].balance as int;
    if spec_move(m, req.source, req.destination, b.net_amount, req.controller) is Ok {
        let m1 = spec_move(m, req.source, req.destination, b.net_amount, req.controller)->Ok_0;
        assert(m1.contains_key(req.source));
        assert(m1[req.source].balance == bal0 - b.net_amount);
        if b.tax_amount == 0 {
            assert(b.net_amount == req.amount);
            assert(false);
        } else {
            if spec_move(m1, req.source, c.treasury_wallet, b.treasury_amount, req.controller)
                is Ok {
                let m2 = spec_move(
                    m1,
                    req.source,
                    c.treasury_wallet,
                    b.treasury_amount,
                    req.controller,
                )->Ok_0;
                assert(m2.contains_key(req.source));
                assert(m2[req.source].balance == bal0 - b.net_amount - b.treasury_amount);
                if spec_move(m2, req.source, c.liquidity_wallet, b.liquidity_amount, req.controller)
                    is Ok {
                    let m3 = spec_move(
                        m2,
                        req.source,
                        c.liquidity_wallet,
                        b.liquidity_amount,
                        req.controller,
                    )->Ok_0;
                    assert(m3.contains_key(req.source));
                    assert(m3[req.source].balance == bal0 - b.net_amount - b.treasury_amount
                        - b.liquidity_amount);
                    assert(m3[req.source].balance < b.marketing_amount);
                    assert(spec_move(
                        m3,
                        req.source,
                        c.marketing_wallet,
                        b.marketing_amount,
                        req.controller,
                    ) is Err);
                }
            }
        }
    }
}

} // verus!
