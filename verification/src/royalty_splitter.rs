//! The configurable split of payments among creator, platform and treasury.
//!
//! One configuration record holds the three percentage shares, which always
//! add up to one hundred, the two payee addresses, a pause flag and running
//! totals. Its administrator alone may change it. A distribution splits an
//! amount by the configured shares, pays the three parts out of a source
//! account, and leaves an audit entry.
//!
//! Every operation is all or nothing: when it returns an error, no record,
//! no balance and no log has changed.

use crate::ledger::{transfer, LedgerAccount};
use crate::change::updated;
use crate::pubkey::Pubkey;
pub use crate::split::DistributionRecord;
use crate::split::{lemma_shares_fit, record_of_split, remainder_of, share_of, split};
use vstd::prelude::*;

verus! {

/// Why an operation of the royalty splitter was rejected.
#[derive(Clone, Copy, Debug, PartialEq, Eq, Structural)]
pub enum RoyaltyError {
    /// The three shares do not add up to one hundred.
    InvalidShareTotal,
    /// The amount must be above zero.
    InvalidAmount,
    /// The paying account holds less than the amount.
    InsufficientFunds,
    /// The caller is not the administrator.
    UnauthorizedAdmin,
    /// The platform account is not the configured platform wallet.
    InvalidPlatformWallet,
    /// The treasury account is not the configured treasury wallet.
    InvalidTreasuryWallet,
    /// Distributions are paused.
    ContractPaused,
    /// The configuration has been initialized before.
    ConfigAlreadyInitialized,
    /// A balance or a running total would leave the range of its type.
    ArithmeticOverflow,
}

/// The configuration of the splitter and its running totals.
#[derive(Clone, Copy, Debug, PartialEq, Eq)]
pub struct RoyaltyConfig {
    pub creator_share: u8,
    pub platform_share: u8,
    pub treasury_share: u8,
    pub platform_wallet: Pubkey,
    pub treasury_wallet: Pubkey,
    pub admin: Pubkey,
    pub total_distributed: u64,
    pub total_transactions: u64,
    pub created_at: i64,
    pub updated_at: i64,
    pub is_paused: bool,
}

/// Whether three percentage shares make up the whole.
pub open spec fn shares_total_hundred(creator: u8, platform: u8, treasury: u8) -> bool {
    creator + platform + treasury == 100
}

impl RoyaltyConfig {
    /// The three shares add up to one hundred.
    pub open spec fn wf(self) -> bool {
        shares_total_hundred(self.creator_share, self.platform_share, self.treasury_share)
    }
}

/// The totals and shares as a query returns them.
#[derive(Clone, Copy, Debug, PartialEq, Eq)]
pub struct RoyaltyStats {
    pub total_distributed: u64,
    pub total_transactions: u64,
    pub creator_share: u8,
    pub platform_share: u8,
    pub treasury_share: u8,
}

/// The configuration was initialized.
#[derive(Clone, Copy, Debug, PartialEq, Eq)]
pub struct RoyaltyConfigInitialized {
    pub creator_share: u8,
    pub platform_share: u8,
    pub treasury_share: u8,
    pub platform_wallet: Pubkey,
    pub treasury_wallet: Pubkey,
}

/// A payment was split and paid out.
#[derive(Clone, Copy, Debug, PartialEq, Eq)]
pub struct PaymentDistributed {
    pub distribution_id: Pubkey,
    pub creator: Pubkey,
    pub total_amount: u64,
    pub creator_amount: u64,
    pub platform_amount: u64,
    pub treasury_amount: u64,
}

/// The configuration was changed.
#[derive(Clone, Copy, Debug, PartialEq, Eq)]
pub struct RoyaltyConfigUpdated {
    pub creator_share: u8,
    pub platform_share: u8,
    pub treasury_share: u8,
    pub platform_wallet: Pubkey,
    pub treasury_wallet: Pubkey,
}

/// Platform fees were withdrawn from the vault.
#[derive(Clone, Copy, Debug, PartialEq, Eq)]
pub struct PlatformFeesWithdrawn {
    pub amount: u64,
    pub destination: Pubkey,
    pub withdrawn_by: Pubkey,
}

/// Distributions were paused or resumed.
#[derive(Clone, Copy, Debug, PartialEq, Eq)]
pub struct PauseStateChanged {
    pub is_paused: bool,
    pub changed_by: Pubkey,
}

/// What the royalty splitter tells its observers.
#[derive(Clone, Copy, Debug, PartialEq, Eq)]
pub enum RoyaltyEvent {
    RoyaltyConfigInitialized(RoyaltyConfigInitialized),
    PaymentDistributed(PaymentDistributed),
    RoyaltyConfigUpdated(RoyaltyConfigUpdated),
    PlatformFeesWithdrawn(PlatformFeesWithdrawn),
    PauseStateChanged(PauseStateChanged),
}

/// The records that `initialize_config` works on. `royalty_config` is the
/// one place of the configuration: it is empty until the configuration is
/// initialized. `admin` is the caller that has been authenticated.
#[derive(Clone, Copy, Debug, PartialEq, Eq)]
pub struct InitializeConfig {
    pub royalty_config: Option<RoyaltyConfig>,
    pub admin: Pubkey,
}

/// The records that `distribute_payment` works on. The audit entry takes
/// `distribution_record_key` as its identifier.
#[derive(Clone, Copy, Debug, PartialEq, Eq)]
pub struct DistributePayment {
    pub royalty_config: RoyaltyConfig,
    pub distribution_record_key: Pubkey,
    pub source_account: LedgerAccount,
    pub creator_account: LedgerAccount,
    pub platform_account: LedgerAccount,
    pub treasury_account: LedgerAccount,
    pub payer: Pubkey,
}

/// The records that `update_config` works on. `admin` is the caller that
/// has been authenticated.
#[derive(Clone, Copy, Debug, PartialEq, Eq)]
pub struct UpdateConfig {
    pub royalty_config: RoyaltyConfig,
    pub admin: Pubkey,
}

/// The records that `withdraw_platform_fees` works on. `admin` is the
/// caller that has been authenticated.
#[derive(Clone, Copy, Debug, PartialEq, Eq)]
pub struct WithdrawPlatformFees {
    pub royalty_config: RoyaltyConfig,
    pub platform_vault: LedgerAccount,
    pub destination: LedgerAccount,
    pub admin: Pubkey,
}

/// The record that `get_stats` reads.
#[derive(Clone, Copy, Debug, PartialEq, Eq)]
pub struct GetStats {
    pub royalty_config: RoyaltyConfig,
}

/// The records that `set_pause_state` works on. `admin` is the caller that
/// has been authenticated.
#[derive(Clone, Copy, Debug, PartialEq, Eq)]
pub struct SetPauseState {
    pub royalty_config: RoyaltyConfig,
    pub admin: Pubkey,
}

/// The reason for which an initialization is rejected, if it is.
pub open spec fn initialize_error(occupied: bool, creator: u8, platform: u8, treasury: u8) -> Option<
    RoyaltyError,
> {
    if occupied {
        Some(RoyaltyError::ConfigAlreadyInitialized)
    } else if !shares_total_hundred(creator, platform, treasury) {
        Some(RoyaltyError::InvalidShareTotal)
    } else {
        None
    }
}

/// The configuration that an initialization stores: not paused, with both
/// running totals at zero.
pub open spec fn initial_config(
    creator_share: u8,
    platform_share: u8,
    treasury_share: u8,
    platform_wallet: Pubkey,
    treasury_wallet: Pubkey,
    admin: Pubkey,
    now: i64,
) -> RoyaltyConfig {
    RoyaltyConfig {
        creator_share,
        platform_share,
        treasury_share,
        platform_wallet,
        treasury_wallet,
        admin,
        total_distributed: 0,
        total_transactions: 0,
        created_at: now,
        updated_at: now,
        is_paused: false,
    }
}

/// The three parts of `amount` under the shares of `config`, as an audit
/// entry.
pub open spec fn distribution_of(
    config: RoyaltyConfig,
    distribution_id: Pubkey,
    creator: Pubkey,
    amount: u64,
    now: i64,
) -> DistributionRecord {
    record_of_split(
        distribution_id,
        creator,
        amount,
        config.creator_share,
        config.platform_share,
        now,
    )
}

/// The reason for which a distribution is rejected, if it is. The checks
/// come in this order.
pub open spec fn distribute_error(
    config: RoyaltyConfig,
    platform_key: Pubkey,
    treasury_key: Pubkey,
    amount: u64,
    source_balance: u64,
    creator_balance: u64,
    platform_balance: u64,
    treasury_balance: u64,
) -> Option<RoyaltyError> {
    let total = amount as nat;
    let first = config.creator_share as nat;
    let second = config.platform_share as nat;
    if config.is_paused {
        Some(RoyaltyError::ContractPaused)
    } else if platform_key != config.platform_wallet {
        Some(RoyaltyError::InvalidPlatformWallet)
    } else if treasury_key != config.treasury_wallet {
        Some(RoyaltyError::InvalidTreasuryWallet)
    } else if amount == 0 {
        Some(RoyaltyError::InvalidAmount)
    } else if !config.wf() {
        Some(RoyaltyError::InvalidShareTotal)
    } else if source_balance < amount {
        Some(RoyaltyError::InsufficientFunds)
    } else if creator_balance + share_of(total, first) > u64::MAX || platform_balance + share_of(
        total,
        second,
    ) > u64::MAX || treasury_balance + remainder_of(total, first, second) > u64::MAX
        || config.total_distributed + amount > u64::MAX || config.total_transactions + 1
        > u64::MAX {
        Some(RoyaltyError::ArithmeticOverflow)
    } else {
        None
    }
}

/// The configuration once a distribution of `amount` at `now` is counted.
pub open spec fn config_after_distribution(config: RoyaltyConfig, amount: u64, now: i64) -> RoyaltyConfig {
    RoyaltyConfig {
        total_distributed: (config.total_distributed + amount) as u64,
        total_transactions: (config.total_transactions + 1) as u64,
        updated_at: now,
        ..config
    }
}

/// The reason for which an update is rejected, if it is: the caller is not
/// the administrator, or the shares as they stand after the update do not
/// add up to one hundred.
pub open spec fn update_error(
    config: RoyaltyConfig,
    caller: Pubkey,
    creator_share: Option<u8>,
    platform_share: Option<u8>,
    treasury_share: Option<u8>,
) -> Option<RoyaltyError> {
    if caller != config.admin {
        Some(RoyaltyError::UnauthorizedAdmin)
    } else if !shares_total_hundred(
        updated(config.creator_share, creator_share),
        updated(config.platform_share, platform_share),
        updated(config.treasury_share, treasury_share),
    ) {
        Some(RoyaltyError::InvalidShareTotal)
    } else {
        None
    }
}

/// The configuration after an update at `now`: each field that the update
/// names takes the new value, every other one stays.
pub open spec fn updated_config(
    config: RoyaltyConfig,
    creator_share: Option<u8>,
    platform_share: Option<u8>,
    treasury_share: Option<u8>,
    platform_wallet: Option<Pubkey>,
    treasury_wallet: Option<Pubkey>,
    now: i64,
) -> RoyaltyConfig {
    RoyaltyConfig {
        creator_share: updated(config.creator_share, creator_share),
        platform_share: updated(config.platform_share, platform_share),
        treasury_share: updated(config.treasury_share, treasury_share),
        platform_wallet: updated(config.platform_wallet, platform_wallet),
        treasury_wallet: updated(config.treasury_wallet, treasury_wallet),
        updated_at: now,
        ..config
    }
}

/// The reason for which a withdrawal of platform fees is rejected, if it
/// is.
pub open spec fn withdraw_error(
    config: RoyaltyConfig,
    caller: Pubkey,
    amount: u64,
    vault_balance: u64,
    destination_balance: u64,
) -> Option<RoyaltyError> {
    if caller != config.admin {
        Some(RoyaltyError::UnauthorizedAdmin)
    } else if amount == 0 {
        Some(RoyaltyError::InvalidAmount)
    } else if vault_balance < amount {
        Some(RoyaltyError::InsufficientFunds)
    } else if destination_balance + amount > u64::MAX {
        Some(RoyaltyError::ArithmeticOverflow)
    } else {
        None
    }
}

/// The reason for which a change of the pause flag is rejected, if it is:
/// the caller is not the administrator.
pub open spec fn set_pause_error(config: RoyaltyConfig, caller: Pubkey) -> Option<RoyaltyError> {
    if caller != config.admin {
        Some(RoyaltyError::UnauthorizedAdmin)
    } else {
        None
    }
}

/// The configuration once its pause flag has been set to `is_paused` at
/// `now`.
pub open spec fn config_with_pause_state(config: RoyaltyConfig, is_paused: bool, now: i64) -> RoyaltyConfig {
    RoyaltyConfig { is_paused, updated_at: now, ..config }
}

/// The figures that a query on `config` returns.
pub open spec fn stats_of(config: RoyaltyConfig) -> RoyaltyStats {
    RoyaltyStats {
        total_distributed: config.total_distributed,
        total_transactions: config.total_transactions,
        creator_share: config.creator_share,
        platform_share: config.platform_share,
        treasury_share: config.treasury_share,
    }
}

/// Whether three percentage shares make up the whole.
fn total_is_hundred(creator: u8, platform: u8, treasury: u8) -> (ok: bool)
    ensures
        ok == shares_total_hundred(creator, platform, treasury),
{
    let total: u16 = creator as u16 + platform as u16 + treasury as u16;
    total == 100
}

/// Initializes the configuration with the three shares, the two payee
/// addresses and the caller as administrator.
///
/// The shares must add up to one hundred. The running totals start at
/// zero and distributions are not paused. The configuration is initialized
/// once: where `ctx.royalty_config` holds one already, the call is
/// rejected. On any rejection nothing changes.
pub fn initialize_config(
    ctx: &mut InitializeConfig,
    creator_share: u8,
    platform_share: u8,
    treasury_share: u8,
    platform_wallet: Pubkey,
    treasury_wallet: Pubkey,
    now: i64,
    events: &mut Vec<RoyaltyEvent>,
) -> (result: Result<(), RoyaltyError>)
    ensures
        match result {
            Ok(()) => {
                &&& initialize_error(
                    old(ctx).royalty_config is Some,
                    creator_share,
                    platform_share,
                    treasury_share,
                ) is None
                &&& final(ctx).royalty_config == Some(
                    initial_config(
                        creator_share,
                        platform_share,
                        treasury_share,
                        platform_wallet,
                        treasury_wallet,
                        old(ctx).admin,
                        now,
                    ),
                )
                &&& final(ctx).royalty_config->0.wf()
                &&& final(ctx).admin == old(ctx).admin
                &&& final(events)@ == old(events)@.push(
                    RoyaltyEvent::RoyaltyConfigInitialized(
                        RoyaltyConfigInitialized {
                            creator_share,
                            platform_share,
                            treasury_share,
                            platform_wallet,
                            treasury_wallet,
                        },
                    ),
                )
            },
            Err(e) => {
                &&& initialize_error(
                    old(ctx).royalty_config is Some,
                    creator_share,
                    platform_share,
                    treasury_share,
                ) == Some(e)
                &&& *final(ctx) == *old(ctx)
                &&& final(events)@ == old(events)@
            },
        },
{
    if ctx.royalty_config.is_some() {
        return Err(RoyaltyError::ConfigAlreadyInitialized);
    }
    if !total_is_hundred(creator_share, platform_share, treasury_share) {
        return Err(RoyaltyError::InvalidShareTotal);
    }
    ctx.royalty_config = Some(
        RoyaltyConfig {
            creator_share,
            platform_share,
            treasury_share,
            platform_wallet,
            treasury_wallet,
            admin: ctx.admin,
            total_distributed: 0,
            total_transactions: 0,
            created_at: now,
            updated_at: now,
            is_paused: false,
        },
    );
    events.push(
        RoyaltyEvent::RoyaltyConfigInitialized(
            RoyaltyConfigInitialized {
                creator_share,
                platform_share,
                treasury_share,
                platform_wallet,
                treasury_wallet,
            },
        ),
    );
    Ok(())
}

/// Splits `amount` by the configured shares and pays the three parts out
/// of the source account to creator, platform and treasury, in that order.
///
/// Distributions must not be paused, the platform and treasury accounts
/// must be the configured wallets, the amount must be above zero, and the
/// source must hold it. Creator and platform receive their percentage,
/// rounded down, and the treasury the rest, so that the source pays exactly
/// `amount`. The running totals count the distribution, and an audit entry
/// for the beneficiary `creator` is appended to `records`. On any rejection
/// nothing changes.
pub fn distribute_payment(
    ctx: &mut DistributePayment,
    amount: u64,
    creator: Pubkey,
    now: i64,
    events: &mut Vec<RoyaltyEvent>,
    records: &mut Vec<DistributionRecord>,
) -> (result: Result<(), RoyaltyError>)
    ensures
        match result {
            Ok(()) => {
                let paid = distribution_of(
                    old(ctx).royalty_config,
                    old(ctx).distribution_record_key,
                    creator,
                    amount,
                    now,
                );
                &&& distribute_error(
                    old(ctx).royalty_config,
                    old(ctx).platform_account.key,
                    old(ctx).treasury_account.key,
                    amount,
                    old(ctx).source_account.balance,
                    old(ctx).creator_account.balance,
                    old(ctx).platform_account.balance,
                    old(ctx).treasury_account.balance,
                ) is None
                &&& paid.wf()
                &&& final(ctx).royalty_config == config_after_distribution(
                    old(ctx).royalty_config,
                    amount,
                    now,
                )
                &&& final(ctx).royalty_config.wf()
                &&& final(ctx).source_account == old(ctx).source_account.debited(amount as int)
                &&& final(ctx).creator_account == old(ctx).creator_account.credited(
                    paid.creator_amount as int,
                )
                &&& final(ctx).platform_account == old(ctx).platform_account.credited(
                    paid.platform_amount as int,
                )
                &&& final(ctx).treasury_account == old(ctx).treasury_account.credited(
                    paid.treasury_amount as int,
                )
                &&& final(ctx).distribution_record_key == old(ctx).distribution_record_key
                &&& final(ctx).payer == old(ctx).payer
                &&& final(events)@ == old(events)@.push(
                    RoyaltyEvent::PaymentDistributed(
                        PaymentDistributed {
                            distribution_id: old(ctx).distribution_record_key,
                            creator,
                            total_amount: amount,
                            creator_amount: paid.creator_amount,
                            platform_amount: paid.platform_amount,
                            treasury_amount: paid.treasury_amount,
                        },
                    ),
                )
                &&& final(records)@ == old(records)@.push(paid)
            },
            Err(e) => {
                &&& distribute_error(
                    old(ctx).royalty_config,
                    old(ctx).platform_account.key,
                    old(ctx).treasury_account.key,
                    amount,
                    old(ctx).source_account.balance,
                    old(ctx).creator_account.balance,
                    old(ctx).platform_account.balance,
                    old(ctx).treasury_account.balance,
                ) == Some(e)
                &&& *final(ctx) == *old(ctx)
                &&& final(events)@ == old(events)@
                &&& final(records)@ == old(records)@
            },
        },
{
    let config = ctx.royalty_config;
    if config.is_paused {
        return Err(RoyaltyError::ContractPaused);
    }
    if ctx.platform_account.key != config.platform_wallet {
        return Err(RoyaltyError::InvalidPlatformWallet);
    }
    if ctx.treasury_account.key != config.treasury_wallet {
        return Err(RoyaltyError::InvalidTreasuryWallet);
    }
    if amount == 0 {
        return Err(RoyaltyError::InvalidAmount);
    }
    if !total_is_hundred(config.creator_share, config.platform_share, config.treasury_share) {
        return Err(RoyaltyError::InvalidShareTotal);
    }
    if ctx.source_account.balance < amount {
        return Err(RoyaltyError::InsufficientFunds);
    }
    let parts = split(amount, config.creator_share, config.platform_share);
    proof {
        lemma_shares_fit(
            amount as nat,
            config.creator_share as nat,
            config.platform_share as nat,
        );
    }
    let mut source = ctx.source_account;
    let mut creator_account = ctx.creator_account;
    let mut platform = ctx.platform_account;
    let mut treasury = ctx.treasury_account;
    if transfer(&mut source, &mut creator_account, parts.0).is_err() {
        return Err(RoyaltyError::ArithmeticOverflow);
    }
    if transfer(&mut source, &mut platform, parts.1).is_err() {
        return Err(RoyaltyError::ArithmeticOverflow);
    }
    if transfer(&mut source, &mut treasury, parts.2).is_err() {
        return Err(RoyaltyError::ArithmeticOverflow);
    }
    let total_distributed = match config.total_distributed.checked_add(amount) {
        Some(total) => total,
        None => {
            return Err(RoyaltyError::ArithmeticOverflow);
        },
    };
    let total_transactions = match config.total_transactions.checked_add(1) {
        Some(total) => total,
        None => {
            return Err(RoyaltyError::ArithmeticOverflow);
        },
    };
    ctx.royalty_config.total_distributed = total_distributed;
    ctx.royalty_config.total_transactions = total_transactions;
    ctx.royalty_config.updated_at = now;
    ctx.source_account = source;
    ctx.creator_account = creator_account;
    ctx.platform_account = platform;
    ctx.treasury_account = treasury;
    events.push(
        RoyaltyEvent::PaymentDistributed(
            PaymentDistributed {
                distribution_id: ctx.distribution_record_key,
                creator,
                total_amount: amount,
                creator_amount: parts.0,
                platform_amount: parts.1,
                treasury_amount: parts.2,
            },
        ),
    );
    records.push(
        DistributionRecord {
            distribution_id: ctx.distribution_record_key,
            creator,
            total_amount: amount,
            creator_amount: parts.0,
            platform_amount: parts.1,
            treasury_amount: parts.2,
            timestamp: now,
        },
    );
    Ok(())
}

/// Changes shares and payee addresses. Only the administrator may.
///
/// Each value that is given replaces the stored one. The shares as they
/// stand after the update must add up to one hundred, else the update is
/// rejected as a whole. On any rejection nothing changes.
pub fn update_config(
    ctx: &mut UpdateConfig,
    creator_share: Option<u8>,
    platform_share: Option<u8>,
    treasury_share: Option<u8>,
    platform_wallet: Option<Pubkey>,
    treasury_wallet: Option<Pubkey>,
    now: i64,
    events: &mut Vec<RoyaltyEvent>,
) -> (result: Result<(), RoyaltyError>)
    ensures
        match result {
            Ok(()) => {
                &&& update_error(
                    old(ctx).royalty_config,
                    old(ctx).admin,
                    creator_share,
                    platform_share,
                    treasury_share,
                ) is None
                &&& final(ctx).royalty_config == updated_config(
                    old(ctx).royalty_config,
                    creator_share,
                    platform_share,
                    treasury_share,
                    platform_wallet,
                    treasury_wallet,
                    now,
                )
                &&& final(ctx).royalty_config.wf()
                &&& final(ctx).admin == old(ctx).admin
                &&& final(events)@ == old(events)@.push(
                    RoyaltyEvent::RoyaltyConfigUpdated(
                        RoyaltyConfigUpdated {
                            creator_share: final(ctx).royalty_config.creator_share,
                            platform_share: final(ctx).royalty_config.platform_share,
                            treasury_share: final(ctx).royalty_config.treasury_share,
                            platform_wallet: final(ctx).royalty_config.platform_wallet,
                            treasury_wallet: final(ctx).royalty_config.treasury_wallet,
                        },
                    ),
                )
            },
            Err(e) => {
                &&& update_error(
                    old(ctx).royalty_config,
                    old(ctx).admin,
                    creator_share,
                    platform_share,
                    treasury_share,
                ) == Some(e)
                &&& *final(ctx) == *old(ctx)
                &&& final(events)@ == old(events)@
            },
        },
{
    let mut config = ctx.royalty_config;
    if ctx.admin != config.admin {
        return Err(RoyaltyError::UnauthorizedAdmin);
    }
    if let Some(share) = creator_share {
        config.creator_share = share;
    }
    if let Some(share) = platform_share {
        config.platform_share = share;
    }
    if let Some(share) = treasury_share {
        config.treasury_share = share;
    }
    if !total_is_hundred(config.creator_share, config.platform_share, config.treasury_share) {
        return Err(RoyaltyError::InvalidShareTotal);
    }
    if let Some(wallet) = platform_wallet {
        config.platform_wallet = wallet;
    }
    if let Some(wallet) = treasury_wallet {
        config.treasury_wallet = wallet;
    }
    config.updated_at = now;
    ctx.royalty_config = config;
    events.push(
        RoyaltyEvent::RoyaltyConfigUpdated(
            RoyaltyConfigUpdated {
                creator_share: config.creator_share,
                platform_share: config.platform_share,
                treasury_share: config.treasury_share,
                platform_wallet: config.platform_wallet,
                treasury_wallet: config.treasury_wallet,
            },
        ),
    );
    Ok(())
}

/// Moves `amount` from the platform vault to the destination. Only the
/// administrator may; the amount must be above zero and the vault must
/// hold it. The configuration and its running totals stay as they are. On
/// any rejection nothing changes.
pub fn withdraw_platform_fees(
    ctx: &mut WithdrawPlatformFees,
    amount: u64,
    events: &mut Vec<RoyaltyEvent>,
) -> (result: Result<(), RoyaltyError>)
    ensures
        match result {
            Ok(()) => {
                &&& withdraw_error(
                    old(ctx).royalty_config,
                    old(ctx).admin,
                    amount,
                    old(ctx).platform_vault.balance,
                    old(ctx).destination.balance,
                ) is None
                &&& final(ctx).platform_vault == old(ctx).platform_vault.debited(amount as int)
                &&& final(ctx).destination == old(ctx).destination.credited(amount as int)
                &&& final(ctx).royalty_config == old(ctx).royalty_config
                &&& final(ctx).admin == old(ctx).admin
                &&& final(events)@ == old(events)@.push(
                    RoyaltyEvent::PlatformFeesWithdrawn(
                        PlatformFeesWithdrawn {
                            amount,
                            destination: old(ctx).destination.key,
                            withdrawn_by: old(ctx).admin,
                        },
                    ),
                )
            },
            Err(e) => {
                &&& withdraw_error(
                    old(ctx).royalty_config,
                    old(ctx).admin,
                    amount,
                    old(ctx).platform_vault.balance,
                    old(ctx).destination.balance,
                ) == Some(e)
                &&& *final(ctx) == *old(ctx)
                &&& final(events)@ == old(events)@
            },
        },
{
    if ctx.admin != ctx.royalty_config.admin {
        return Err(RoyaltyError::UnauthorizedAdmin);
    }
    if amount == 0 {
        return Err(RoyaltyError::InvalidAmount);
    }
    if ctx.platform_vault.balance < amount {
        return Err(RoyaltyError::InsufficientFunds);
    }
    let mut vault = ctx.platform_vault;
    let mut destination = ctx.destination;
    if transfer(&mut vault, &mut destination, amount).is_err() {
        return Err(RoyaltyError::ArithmeticOverflow);
    }
    ctx.platform_vault = vault;
    ctx.destination = destination;
    events.push(
        RoyaltyEvent::PlatformFeesWithdrawn(
            PlatformFeesWithdrawn {
                amount,
                destination: destination.key,
                withdrawn_by: ctx.admin,
            },
        ),
    );
    Ok(())
}

/// The running totals and the shares. The query always succeeds.
pub fn get_stats(ctx: &GetStats) -> (result: Result<RoyaltyStats, RoyaltyError>)
    ensures
        result == Ok::<RoyaltyStats, RoyaltyError>(stats_of(ctx.royalty_config)),
{
    Ok(
        RoyaltyStats {
            total_distributed: ctx.royalty_config.total_distributed,
            total_transactions: ctx.royalty_config.total_transactions,
            creator_share: ctx.royalty_config.creator_share,
            platform_share: ctx.royalty_config.platform_share,
            treasury_share: ctx.royalty_config.treasury_share,
        },
    )
}

/// Pauses or resumes distributions. Only the administrator may. On a
/// rejection nothing changes.
pub fn set_pause_state(
    ctx: &mut SetPauseState,
    is_paused: bool,
    now: i64,
    events: &mut Vec<RoyaltyEvent>,
) -> (result: Result<(), RoyaltyError>)
    ensures
        match result {
            Ok(()) => {
                &&& set_pause_error(old(ctx).royalty_config, old(ctx).admin) is None
                &&& final(ctx).royalty_config == config_with_pause_state(
                    old(ctx).royalty_config,
                    is_paused,
                    now,
                )
                &&& final(ctx).admin == old(ctx).admin
                &&& final(events)@ == old(events)@.push(
                    RoyaltyEvent::PauseStateChanged(
                        PauseStateChanged { is_paused, changed_by: old(ctx).admin },
                    ),
                )
            },
            Err(e) => {
                &&& set_pause_error(old(ctx).royalty_config, old(ctx).admin) == Some(e)
                &&& *final(ctx) == *old(ctx)
                &&& final(events)@ == old(events)@
            },
        },
{
    if ctx.admin != ctx.royalty_config.admin {
        return Err(RoyaltyError::UnauthorizedAdmin);
    }
    ctx.royalty_config.is_paused = is_paused;
    ctx.royalty_config.updated_at = now;
    events.push(
        RoyaltyEvent::PauseStateChanged(PauseStateChanged { is_paused, changed_by: ctx.admin }),
    );
    Ok(())
}

/// While distributions are paused, every distribution is rejected. The
/// administrator can always resume them: the administrator's change of the
/// pause flag is never rejected, and once the flag is cleared a
/// distribution is rejected for the pause no more, and for no reason that
/// it would not have been rejected for without the pause.
pub proof fn lemma_pause_gates_distribution(
    config: RoyaltyConfig,
    platform_key: Pubkey,
    treasury_key: Pubkey,
    amount: u64,
    source_balance: u64,
    creator_balance: u64,
    platform_balance: u64,
    treasury_balance: u64,
    now: i64,
)
    requires
        config.is_paused,
    ensures
        distribute_error(
            config,
            platform_key,
            treasury_key,
            amount,
            source_balance,
            creator_balance,
            platform_balance,
            treasury_balance,
        ) == Some(RoyaltyError::ContractPaused),
        set_pause_error(config, config.admin) is None,
        !config_with_pause_state(config, false, now).is_paused,
        distribute_error(
            config_with_pause_state(config, false, now),
            platform_key,
            treasury_key,
            amount,
            source_balance,
            creator_balance,
            platform_balance,
            treasury_balance,
        ) != Some(RoyaltyError::ContractPaused),
        distribute_error(
            config_with_pause_state(config, false, now),
            platform_key,
            treasury_key,
            amount,
            source_balance,
            creator_balance,
            platform_balance,
            treasury_balance,
        ) == distribute_error(
            (RoyaltyConfig { is_paused: false, ..config }),
            platform_key,
            treasury_key,
            amount,
            source_balance,
            creator_balance,
            platform_balance,
            treasury_balance,
        ),
{
}

/// An update that succeeds leaves shares that add up to one hundred,
/// whatever the configuration held before, and it leaves the running
/// totals, the administrator and the pause flag as they were.
pub proof fn lemma_update_keeps_invariant(
    config: RoyaltyConfig,
    caller: Pubkey,
    creator_share: Option<u8>,
    platform_share: Option<u8>,
    treasury_share: Option<u8>,
    platform_wallet: Option<Pubkey>,
    treasury_wallet: Option<Pubkey>,
    now: i64,
)
    requires
        update_error(config, caller, creator_share, platform_share, treasury_share) is None,
    ensures
        ({
            let after = updated_config(
                config,
                creator_share,
                platform_share,
                treasury_share,
                platform_wallet,
                treasury_wallet,
                now,
            );
            &&& after.wf()
            &&& after.total_distributed == config.total_distributed
            &&& after.total_transactions == config.total_transactions
            &&& after.admin == config.admin
            &&& after.is_paused == config.is_paused
        }),
{
}

} // verus!
