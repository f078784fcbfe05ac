//! The policy record and its authority-gated configuration store.

use vstd::prelude::*;
use crate::ledger::LedgerError;
use crate::{MAX_TAX_BPS, SELL_TAX_BPS, TRANSFER_TAX_BPS};

verus! {

/// A 32-byte account identity, held as four 64-bit words.
///
/// Identities are opaque to the policy logic: the only operation it needs is
/// equality, used for the authority check and for keying the ledger.
#[derive(Clone, Copy, PartialEq, Eq, Structural, Debug)]
pub struct AccountId {
    pub w0: u64,
    pub w1: u64,
    pub w2: u64,
    pub w3: u64,
}

impl AccountId {
    /// A small identity, convenient for callers that number their accounts.
    pub fn from_u64(n: u64) -> (id: AccountId)
        ensures
            id == (AccountId { w0: n, w1: 0, w2: 0, w3: 0 }),
    {
        AccountId { w0: n, w1: 0, w2: 0, w3: 0 }
    }
}

/// Everything that can go wrong in a configuration or transfer operation.
#[derive(Clone, Copy, PartialEq, Eq, Structural, Debug)]
pub enum DwavError {
    /// The caller is not the record's current authority.
    Unauthorized,
    /// A requested tax rate exceeds the 1000-bps ceiling.
    RateTooHigh,
    /// The policy record already exists and cannot be created again.
    AlreadyInitialized,
    /// A tax computation step cannot be represented in the widened integers.
    ArithmeticOverflow,
    /// The underlying ledger rejected one of the requested moves.
    TransferFailed(LedgerError),
}

/// The singleton policy record controlling tax on transfers.
#[derive(Clone, Copy, PartialEq, Eq, Structural, Debug)]
pub struct DwavConfig {
    /// The identity permitted to mutate this record.
    pub authority: AccountId,
    /// Receives 2/5 of collected tax.
    pub treasury_wallet: AccountId,
    /// Receives 2/5 of collected tax.
    pub liquidity_wallet: AccountId,
    /// Receives the remaining 1/5 of collected tax, rounding included.
    pub marketing_wallet: AccountId,
    /// Sell tax in basis points; at most 1000.
    pub sell_tax_bps: u16,
    /// Transfer tax in basis points; at most 1000.
    pub transfer_tax_bps: u16,
    /// When false the effective tax rate is zero regardless of the rates.
    pub tax_enabled: bool,
    /// Bookkeeping accumulator for collected tax. The transfer engine reads
    /// the record without writing it, so the field stays as created.
    pub total_tax_collected: u64,
    /// Derivation tag handed in by the external keyed store.
    pub bump: u8,
}

impl DwavConfig {
    /// Both configured rates are within the 10% hard ceiling.
    pub open spec fn wf(&self) -> bool {
        self.sell_tax_bps <= MAX_TAX_BPS && self.transfer_tax_bps <= MAX_TAX_BPS
    }
}

/// The keyed store holding the policy record.
///
/// The record is created exactly once by [`ConfigStore::initialize`] and is
/// never deleted; every mutator first checks that the caller is the record's
/// current authority and leaves the record untouched when the check fails.
pub struct ConfigStore {
    record: Option<DwavConfig>,
}

impl ConfigStore {
    /// The record has been created.
    pub closed spec fn is_initialized(&self) -> bool {
        self.record is Some
    }

    /// The stored record; meaningful only once initialized.
    pub closed spec fn spec_record(&self) -> DwavConfig
        recommends
            self.is_initialized(),
    {
        self.record->Some_0
    }

    /// The store invariant: an existing record satisfies the rate ceiling.
    pub open spec fn wf(&self) -> bool {
        self.is_initialized() ==> self.spec_record().wf()
    }

    /// An empty store, before the one-time initialization.
    pub fn new() -> (s: ConfigStore)
        ensures
            !s.is_initialized(),
            s.wf(),
    {
        ConfigStore { record: None }
    }

    /// Whether the one-time initialization has happened.
    pub fn has_record(&self) -> (b: bool)
        ensures
            b == self.is_initialized(),
    {
        self.record.is_some()
    }

    /// Read access to the record.
    pub fn record(&self) -> (c: &DwavConfig)
        requires
            self.is_initialized(),
        ensures
            *c == self.spec_record(),
    {
        match &self.record {
            Some(c) => c,
            None => unreached(),
        }
    }

    /// Creates the singleton record with the launch defaults: both rates at
    /// 500 bps, tax disabled, nothing collected. Fails if it already exists.
    pub fn initialize(
        &mut self,
        authority: AccountId,
        treasury_wallet: AccountId,
        liquidity_wallet: AccountId,
        marketing_wallet: AccountId,
        bump: u8,
    ) -> (r: Result<(), DwavError>)
        requires
            old(self).wf(),
        ensures
            final(self).wf(),
            old(self).is_initialized() ==> r == Err::<(), DwavError>(DwavError::AlreadyInitialized)
                && *final(self) == *old(self),
            !old(self).is_initialized() ==> r == Ok::<(), DwavError>(())
                && final(self).is_initialized() && final(self).spec_record() == (DwavConfig {
                authority,
                treasury_wallet,
                liquidity_wallet,
                marketing_wallet,
                sell_tax_bps: SELL_TAX_BPS,
                transfer_tax_bps: TRANSFER_TAX_BPS,
                tax_enabled: false,
                total_tax_collected: 0,
                bump,
            }),
    {
        if self.record.is_some() {
            return Err(DwavError::AlreadyInitialized);
        }
        self.record = Some(
            DwavConfig {
                authority,
                treasury_wallet,
                liquidity_wallet,
                marketing_wallet,
                sell_tax_bps: SELL_TAX_BPS,
                transfer_tax_bps: TRANSFER_TAX_BPS,
                tax_enabled: false,
                total_tax_collected: 0,
                bump,
            },
        );
        Ok(())
    }

    /// Turns tax collection on or off. Only the authority may call this.
    pub fn set_tax_enabled(&mut self, caller: AccountId, enabled: bool) -> (r: Result<
        (),
        DwavError,
    >)
        requires
            old(self).is_initialized(),
            old(self).wf(),
        ensures
            final(self).is_initialized(),
            final(self).wf(),
            caller != old(self).spec_record().authority ==> r == Err::<(), DwavError>(
                DwavError::Unauthorized,
            ) && *final(self) == *old(self),
            caller == old(self).spec_record().authority ==> r == Ok::<(), DwavError>(())
                && final(self).spec_record() == (DwavConfig {
                tax_enabled: enabled,
                ..old(self).spec_record()
            }),
    {
        let c = match self.record {
            Some(c) => c,
            None => unreached(),
        };
        if caller != c.authority {
            return Err(DwavError::Unauthorized);
        }
        self.record = Some(DwavConfig { tax_enabled: enabled, ..c });
        Ok(())
    }

    /// Overwrites both tax rates atomically. Only the authority may call
    /// this, and neither rate may exceed the 1000-bps ceiling.
    pub fn update_tax_rates(
        &mut self,
        caller: AccountId,
        sell_tax_bps: u16,
        transfer_tax_bps: u16,
    ) -> (r: Result<(), DwavError>)
        requires
            old(self).is_initialized(),
            old(self).wf(),
        ensures
            final(self).is_initialized(),
            final(self).wf(),
            caller != old(self).spec_record().authority ==> r == Err::<(), DwavError>(
                DwavError::Unauthorized,
            ) && *final(self) == *old(self),
            caller == old(self).spec_record().authority && (sell_tax_bps > MAX_TAX_BPS
                || transfer_tax_bps > MAX_TAX_BPS) ==> r == Err::<(), DwavError>(
                DwavError::RateTooHigh,
            ) && *final(self) == *old(self),
            caller == old(self).spec_record().authority && sell_tax_bps <= MAX_TAX_BPS
                && transfer_tax_bps <= MAX_TAX_BPS ==> r == Ok::<(), DwavError>(())
                && final(self).spec_record() == (DwavConfig {
                sell_tax_bps,
                transfer_tax_bps,
                ..old(self).spec_record()
            }),
    {
        let c = match self.record {
            Some(c) => c,
            None => unreached(),
        };
        if caller != c.authority {
            return Err(DwavError::Unauthorized);
        }
        if sell_tax_bps > MAX_TAX_BPS {
            return Err(DwavError::RateTooHigh);
        }
        if transfer_tax_bps > MAX_TAX_BPS {
            return Err(DwavError::RateTooHigh);
        }
        self.record = Some(DwavConfig { sell_tax_bps, transfer_tax_bps, ..c });
        Ok(())
    }

    /// Overwrites each beneficiary wallet for which a new value is present
    /// and leaves the others untouched. Only the authority may call this.
    pub fn update_wallets(
        &mut self,
        caller: AccountId,
        treasury: Option<AccountId>,
        liquidity: Option<AccountId>,
        marketing: Option<AccountId>,
    ) -> (r: Result<(), DwavError>)
        requires
            old(self).is_initialized(),
            old(self).wf(),
        ensures
            final(self).is_initialized(),
            final(self).wf(),
            caller != old(self).spec_record().authority ==> r == Err::<(), DwavError>(
                DwavError::Unauthorized,
            ) && *final(self) == *old(self),
            caller == old(self).spec_record().authority ==> r == Ok::<(), DwavError>(())
                && final(self).spec_record() == (DwavConfig {
                treasury_wallet: if treasury is Some {
                    treasury->Some_0
                } else {
                    old(self).spec_record().treasury_wallet
                },
                liquidity_wallet: if liquidity is Some {
                    liquidity->Some_0
                } else {
                    old(self).spec_record().liquidity_wallet
                },
                marketing_wallet: if marketing is Some {
                    marketing->Some_0
                } else {
                    old(self).spec_record().marketing_wallet
                },
                ..old(self).spec_record()
            }),
    {
        let mut c = match self.record {
            Some(c) => c,
            None => unreached(),
        };
        if caller != c.authority {
            return Err(DwavError::Unauthorized);
        }
        if let Some(addr) = treasury {
            c.treasury_wallet = addr;
        }
        if let Some(addr) = liquidity {
            c.liquidity_wallet = addr;
        }
        if let Some(addr) = marketing {
            c.marketing_wallet = addr;
        }
        self.record = Some(c);
        Ok(())
    }

    /// Replaces the authority. Only the current authority may call this; the
    /// new value is not validated further, so a degenerate identity locks the
    /// record forever.
    pub fn transfer_authority(&mut self, caller: AccountId, new_authority: AccountId) -> (r: Result<
        (),
        DwavError,
    >)
        requires
            old(self).is_initialized(),
            old(self).wf(),
        ensures
            final(self).is_initialized(),
            final(self).wf(),
            caller != old(self).spec_record().authority ==> r == Err::<(), DwavError>(
                DwavError::Unauthorized,
            ) && *final(self) == *old(self),
            caller == old(self).spec_record().authority ==> r == Ok::<(), DwavError>(())
                && final(self).spec_record() == (DwavConfig {
                authority: new_authority,
                ..old(self).spec_record()
            }),
    {
        let c = match self.record {
            Some(c) => c,
            None => unreached(),
        };
        if caller != c.authority {
            return Err(DwavError::Unauthorized);
        }
        self.record = Some(DwavConfig { authority: new_authority, ..c });
        Ok(())
    }
}

} // verus!
