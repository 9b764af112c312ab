//! Service requests and the escrow that backs them.
//!
//! A requester creates a request and pays its amount into an escrow account.
//! The provider submits a result; the requester then approves it, which
//! pays the escrow out to creator, platform and treasury, or disputes it,
//! which leaves the funds where they are. A request that nobody has worked
//! on can be cancelled, which refunds the requester.
//!
//! Every operation is all or nothing: when it returns an error, no record,
//! no balance and no log has changed.

use crate::ledger::{transfer, LedgerAccount, TransferError};
use crate::pubkey::Pubkey;
use crate::split::{
    lemma_shares_fit, record_of_split, remainder_of, share_of, split, DistributionRecord,
};
use crate::text::{byte_len, fits};
use vstd::prelude::*;

verus! {

/// The most bytes that the payload of a request may take.
pub const MAX_REQUEST_DATA_LEN: usize = 1000;

/// The most bytes that a submitted result may take.
pub const MAX_RESULT_DATA_LEN: usize = 2000;

/// The most bytes that the reason of a dispute may take.
pub const MAX_DISPUTE_REASON_LEN: usize = 500;

/// The percentage of a settled amount that goes to the creator.
pub const CREATOR_SHARE: u8 = 85;

/// The percentage of a settled amount that goes to the platform. What is
/// left after creator and platform goes to the treasury.
pub const PLATFORM_SHARE: u8 = 10;

/// Why an operation on a service request was rejected.
#[derive(Clone, Copy, Debug, PartialEq, Eq, Structural)]
pub enum ErrorCode {
    /// The amount of a request must be above zero.
    InvalidAmount,
    /// The payload of a request is longer than `MAX_REQUEST_DATA_LEN`.
    PayloadTooLong,
    /// The result is longer than `MAX_RESULT_DATA_LEN`.
    ResultDataTooLong,
    /// The request is not in a status that admits the operation.
    InvalidRequestStatus,
    /// The caller is not the requester.
    UnauthorizedUser,
    /// The reason of a dispute is longer than `MAX_DISPUTE_REASON_LEN`.
    DisputeReasonTooLong,
    /// Only a pending request can be cancelled.
    CannotCancelRequest,
    /// A request is stored in this place already.
    RequestAlreadyExists,
    /// The requester holds less than the amount of the request.
    InsufficientFunds,
    /// The escrow holds less than is to be paid out of it.
    InsufficientCustodyBalance,
    /// A receiving account cannot hold what it is to receive.
    ArithmeticOverflow,
}

/// Where a service request stands in its life.
#[derive(Clone, Copy, Debug, PartialEq, Eq, Structural)]
pub enum RequestStatus {
    Pending,
    InProgress,
    Completed,
    Approved,
    Disputed,
    Cancelled,
}

/// One request of a requester to a provider, with the amount that the
/// escrow holds for it.
#[derive(Clone, Debug, PartialEq, Eq)]
pub struct ServiceRequest {
    pub request_id: Pubkey,
    pub agent_id: Pubkey,
    pub user: Pubkey,
    pub amount: u64,
    pub status: RequestStatus,
    pub request_data: String,
    pub result_data: String,
    pub created_at: i64,
    pub completed_at: Option<i64>,
    pub escrow_account: Pubkey,
}

/// What a `ServiceRequest` holds, with its texts as sequences of
/// characters.
pub struct ServiceRequestView {
    pub request_id: Pubkey,
    pub agent_id: Pubkey,
    pub user: Pubkey,
    pub amount: u64,
    pub status: RequestStatus,
    pub request_data: Seq<char>,
    pub result_data: Seq<char>,
    pub created_at: i64,
    pub completed_at: Option<i64>,
    pub escrow_account: Pubkey,
}

impl View for ServiceRequest {
    type V = ServiceRequestView;

    open spec fn view(&self) -> ServiceRequestView {
        ServiceRequestView {
            request_id: self.request_id,
            agent_id: self.agent_id,
            user: self.user,
            amount: self.amount,
            status: self.status,
            request_data: self.request_data@,
            result_data: self.result_data@,
            created_at: self.created_at,
            completed_at: self.completed_at,
            escrow_account: self.escrow_account,
        }
    }
}

/// Whether work on a request in this status may still begin or go on: no
/// result has been submitted and the request has not been cancelled.
pub open spec fn is_open(status: RequestStatus) -> bool {
    status is Pending || status is InProgress
}

/// Whether a request in this status admits no further operation.
pub open spec fn is_terminal(status: RequestStatus) -> bool {
    status is Approved || status is Disputed || status is Cancelled
}

/// Whether the escrow still holds the amount of a request in this status.
/// It does until the request is approved or cancelled.
pub open spec fn holds_funds(status: RequestStatus) -> bool {
    !(status is Approved || status is Cancelled)
}

/// What the escrow of a request holds for it: the amount of the request
/// until the request is approved or cancelled, and nothing from then on.
pub open spec fn custody_of(request: ServiceRequestView) -> int {
    if holds_funds(request.status) {
        request.amount as int
    } else {
        0
    }
}

/// The steps that the life of a request may take: from pending to in
/// progress or cancelled, from pending or in progress to completed, and
/// from completed to approved or disputed.
pub open spec fn can_transition(from: RequestStatus, to: RequestStatus) -> bool {
    match from {
        RequestStatus::Pending => to is InProgress || to is Cancelled || to is Completed,
        RequestStatus::InProgress => to is Completed,
        RequestStatus::Completed => to is Approved || to is Disputed,
        RequestStatus::Approved => false,
        RequestStatus::Disputed => false,
        RequestStatus::Cancelled => false,
    }
}

impl ServiceRequestView {
    /// The amount is above zero, the texts are within their limits, and a
    /// request that no result was submitted for holds no result and no time
    /// of completion, while every other one holds that time.
    pub open spec fn wf(self) -> bool {
        &&& self.amount > 0
        &&& byte_len(self.request_data) <= MAX_REQUEST_DATA_LEN
        &&& byte_len(self.result_data) <= MAX_RESULT_DATA_LEN
        &&& is_open(self.status) || self.status is Cancelled ==> self.result_data.len() == 0
            && self.completed_at is None
        &&& !(is_open(self.status) || self.status is Cancelled) ==> self.completed_at is Some
    }
}

/// A request was created and its amount was paid into escrow.
#[derive(Clone, Copy, Debug, PartialEq, Eq)]
pub struct ServiceRequestCreated {
    pub request_id: Pubkey,
    pub agent_id: Pubkey,
    pub user: Pubkey,
    pub amount: u64,
    pub timestamp: i64,
}

/// The provider submitted a result.
#[derive(Clone, Copy, Debug, PartialEq, Eq)]
pub struct ResultSubmitted {
    pub request_id: Pubkey,
    pub agent_id: Pubkey,
    pub timestamp: i64,
}

/// The requester approved the result and the escrow was paid out.
#[derive(Clone, Copy, Debug, PartialEq, Eq)]
pub struct PaymentReleased {
    pub request_id: Pubkey,
    pub creator: Pubkey,
    pub creator_amount: u64,
    pub platform_amount: u64,
    pub treasury_amount: u64,
    pub timestamp: i64,
}

/// The requester disputed the result.
#[derive(Clone, Debug, PartialEq, Eq)]
pub struct ResultDisputed {
    pub request_id: Pubkey,
    pub user: Pubkey,
    pub reason: String,
    pub timestamp: i64,
}

/// The requester cancelled the request and was refunded.
#[derive(Clone, Copy, Debug, PartialEq, Eq)]
pub struct RequestCancelled {
    pub request_id: Pubkey,
    pub user: Pubkey,
    pub refund_amount: u64,
    pub timestamp: i64,
}

/// What the escrow tells its observers.
#[derive(Clone, Debug, PartialEq, Eq)]
pub enum EscrowEvent {
    ServiceRequestCreated(ServiceRequestCreated),
    ResultSubmitted(ResultSubmitted),
    PaymentReleased(PaymentReleased),
    ResultDisputed(ResultDisputed),
    RequestCancelled(RequestCancelled),
}

/// The records that `create_service_request` works on. `service_request`
/// is the place, of address `service_request_key`, that belongs to this
/// requester and this provider: it is empty until the request is created.
/// `user` is the requester that the caller has authenticated.
#[derive(Clone, Debug, PartialEq, Eq)]
pub struct CreateServiceRequest {
    pub service_request_key: Pubkey,
    pub service_request: Option<ServiceRequest>,
    pub escrow_account: LedgerAccount,
    pub user: LedgerAccount,
}

/// The records that `submit_result` works on. `agent_authority` is the
/// caller; that it speaks for the provider is for the caller's side to
/// establish.
#[derive(Clone, Debug, PartialEq, Eq)]
pub struct SubmitResult {
    pub service_request: ServiceRequest,
    pub agent_authority: Pubkey,
}

/// The records that `approve_result` works on. `user` is the caller that
/// has been authenticated.
#[derive(Clone, Debug, PartialEq, Eq)]
pub struct ApproveResult {
    pub service_request: ServiceRequest,
    pub escrow_account: LedgerAccount,
    pub user: Pubkey,
    pub creator: LedgerAccount,
    pub platform_wallet: LedgerAccount,
    pub treasury_wallet: LedgerAccount,
}

/// The records that `dispute_result` works on. `user` is the caller that
/// has been authenticated.
#[derive(Clone, Debug, PartialEq, Eq)]
pub struct DisputeResult {
    pub service_request: ServiceRequest,
    pub user: Pubkey,
}

/// The records that `cancel_request` works on. `user` is the caller that
/// has been authenticated, with the account that the refund goes to.
#[derive(Clone, Debug, PartialEq, Eq)]
pub struct CancelRequest {
    pub service_request: ServiceRequest,
    pub escrow_account: LedgerAccount,
    pub user: LedgerAccount,
}

/// The reason for which moving `amount` out of a custody account is
/// refused, if it is: the custody holds less, or the receiving account
/// cannot hold it.
pub open spec fn disburse_error(custody_balance: u64, to_balance: u64, amount: u64) -> Option<
    ErrorCode,
> {
    if custody_balance < amount {
        Some(ErrorCode::InsufficientCustodyBalance)
    } else if to_balance + amount > u64::MAX {
        Some(ErrorCode::ArithmeticOverflow)
    } else {
        None
    }
}

/// The reason for which paying `amount` into a custody account is refused,
/// if it is: the payer holds less, or the custody cannot hold it.
pub open spec fn deposit_error(from_balance: u64, custody_balance: u64, amount: u64) -> Option<
    ErrorCode,
> {
    if from_balance < amount {
        Some(ErrorCode::InsufficientFunds)
    } else if custody_balance + amount > u64::MAX {
        Some(ErrorCode::ArithmeticOverflow)
    } else {
        None
    }
}

/// Pays `amount` from `from` into the custody account, or fails and leaves
/// both accounts as they were.
pub fn deposit(from: &mut LedgerAccount, custody: &mut LedgerAccount, amount: u64) -> (result:
    Result<(), ErrorCode>)
    ensures
        match result {
            Ok(()) => {
                &&& deposit_error(old(from).balance, old(custody).balance, amount) is None
                &&& *final(from) == old(from).debited(amount as int)
                &&& *final(custody) == old(custody).credited(amount as int)
            },
            Err(e) => {
                &&& deposit_error(old(from).balance, old(custody).balance, amount) == Some(e)
                &&& *final(from) == *old(from)
                &&& *final(custody) == *old(custody)
            },
        },
{
    match transfer(from, custody, amount) {
        Ok(()) => Ok(()),
        Err(TransferError::InsufficientFunds) => Err(ErrorCode::InsufficientFunds),
        Err(TransferError::BalanceOverflow) => Err(ErrorCode::ArithmeticOverflow),
    }
}

/// Pays `amount` out of the custody account to `to`, or fails and leaves
/// both accounts as they were.
pub fn disburse(custody: &mut LedgerAccount, to: &mut LedgerAccount, amount: u64) -> (result:
    Result<(), ErrorCode>)
    ensures
        match result {
            Ok(()) => {
                &&& disburse_error(old(custody).balance, old(to).balance, amount) is None
                &&& *final(custody) == old(custody).debited(amount as int)
                &&& *final(to) == old(to).credited(amount as int)
            },
            Err(e) => {
                &&& disburse_error(old(custody).balance, old(to).balance, amount) == Some(e)
                &&& *final(custody) == *old(custody)
                &&& *final(to) == *old(to)
            },
        },
{
    match transfer(custody, to, amount) {
        Ok(()) => Ok(()),
        Err(TransferError::InsufficientFunds) => Err(ErrorCode::InsufficientCustodyBalance),
        Err(TransferError::BalanceOverflow) => Err(ErrorCode::ArithmeticOverflow),
    }
}

/// Pays `amount` out of the custody account back to `to`. It does what
/// `disburse` does; the two are told apart for the reader of an audit.
pub fn refund(custody: &mut LedgerAccount, to: &mut LedgerAccount, amount: u64) -> (result:
    Result<(), ErrorCode>)
    ensures
        match result {
            Ok(()) => {
                &&& disburse_error(old(custody).balance, old(to).balance, amount) is None
                &&& *final(custody) == old(custody).debited(amount as int)
                &&& *final(to) == old(to).credited(amount as int)
            },
            Err(e) => {
                &&& disburse_error(old(custody).balance, old(to).balance, amount) == Some(e)
                &&& *final(custody) == *old(custody)
                &&& *final(to) == *old(to)
            },
        },
{
    disburse(custody, to, amount)
}

/// The reason for which the creation of a request is rejected, if it is.
/// `occupied` says whether a request is stored in its place already. The
/// checks come in this order.
pub open spec fn create_error(
    occupied: bool,
    amount: u64,
    request_data: Seq<char>,
    user_balance: u64,
    escrow_balance: u64,
) -> Option<ErrorCode> {
    if occupied {
        Some(ErrorCode::RequestAlreadyExists)
    } else if amount == 0 {
        Some(ErrorCode::InvalidAmount)
    } else if byte_len(request_data) > MAX_REQUEST_DATA_LEN {
        Some(ErrorCode::PayloadTooLong)
    } else {
        deposit_error(user_balance, escrow_balance, amount)
    }
}

/// The request that its creation stores: pending, with no result.
pub open spec fn created_request(
    request_id: Pubkey,
    agent_id: Pubkey,
    user: Pubkey,
    amount: u64,
    request_data: Seq<char>,
    now: i64,
    escrow_account: Pubkey,
) -> ServiceRequestView {
    ServiceRequestView {
        request_id,
        agent_id,
        user,
        amount,
        status: RequestStatus::Pending,
        request_data,
        result_data: Seq::empty(),
        created_at: now,
        completed_at: None,
        escrow_account,
    }
}

/// The reason for which a result is rejected, if it is: it is too long, or
/// a result has been submitted before or the request was cancelled.
pub open spec fn submit_result_error(status: RequestStatus, result_data: Seq<char>) -> Option<
    ErrorCode,
> {
    if byte_len(result_data) > MAX_RESULT_DATA_LEN {
        Some(ErrorCode::ResultDataTooLong)
    } else if !is_open(status) {
        Some(ErrorCode::InvalidRequestStatus)
    } else {
        None
    }
}

/// The request once the result `result_data` has been submitted at `now`.
pub open spec fn completed_request(
    request: ServiceRequestView,
    result_data: Seq<char>,
    now: i64,
) -> ServiceRequestView {
    ServiceRequestView {
        status: RequestStatus::Completed,
        result_data,
        completed_at: Some(now),
        ..request
    }
}

/// The reason for which an approval is rejected, if it is. The request
/// must be completed and the caller its requester; the escrow must hold the
/// amount, and each payee's account must be able to hold its part.
pub open spec fn approve_error(
    request: ServiceRequestView,
    caller: Pubkey,
    escrow_balance: u64,
    creator_balance: u64,
    platform_balance: u64,
    treasury_balance: u64,
) -> Option<ErrorCode> {
    let amount = request.amount as nat;
    if !(request.status is Completed) {
        Some(ErrorCode::InvalidRequestStatus)
    } else if caller != request.user {
        Some(ErrorCode::UnauthorizedUser)
    } else if escrow_balance < request.amount {
        Some(ErrorCode::InsufficientCustodyBalance)
    } else if creator_balance + share_of(amount, CREATOR_SHARE as nat) > u64::MAX
        || platform_balance + share_of(amount, PLATFORM_SHARE as nat) > u64::MAX
        || treasury_balance + remainder_of(amount, CREATOR_SHARE as nat, PLATFORM_SHARE as nat)
        > u64::MAX {
        Some(ErrorCode::ArithmeticOverflow)
    } else {
        None
    }
}

/// The reason for which a dispute is rejected, if it is.
pub open spec fn dispute_error(reason: Seq<char>, request: ServiceRequestView, caller: Pubkey) -> Option<
    ErrorCode,
> {
    if byte_len(reason) > MAX_DISPUTE_REASON_LEN {
        Some(ErrorCode::DisputeReasonTooLong)
    } else if !(request.status is Completed) {
        Some(ErrorCode::InvalidRequestStatus)
    } else if caller != request.user {
        Some(ErrorCode::UnauthorizedUser)
    } else {
        None
    }
}

/// The reason for which a cancellation is rejected, if it is. The request
/// must be pending and the caller its requester; the escrow must hold the
/// amount, and the requester's account must be able to take it back.
pub open spec fn cancel_error(
    request: ServiceRequestView,
    caller: Pubkey,
    escrow_balance: u64,
    user_balance: u64,
) -> Option<ErrorCode> {
    if !(request.status is Pending) {
        Some(ErrorCode::CannotCancelRequest)
    } else if caller != request.user {
        Some(ErrorCode::UnauthorizedUser)
    } else {
        disburse_error(escrow_balance, user_balance, request.amount)
    }
}

/// The request with its status set to `status` and nothing else changed.
pub open spec fn with_status(request: ServiceRequestView, status: RequestStatus) -> ServiceRequestView {
    ServiceRequestView { status, ..request }
}

/// Creates a service request for the provider `agent_id` and pays its
/// amount from the requester into escrow.
///
/// The amount must be above zero and the payload within its limit; the
/// requester must hold the amount. The request is stored as pending, with
/// no result. On any rejection nothing changes.
pub fn create_service_request(
    ctx: &mut CreateServiceRequest,
    agent_id: Pubkey,
    amount: u64,
    request_data: String,
    now: i64,
    events: &mut Vec<EscrowEvent>,
) -> (result: Result<(), ErrorCode>)
    ensures
        match result {
            Ok(()) => {
                &&& create_error(
                    old(ctx).service_request is Some,
                    amount,
                    request_data@,
                    old(ctx).user.balance,
                    old(ctx).escrow_account.balance,
                ) is None
                &&& final(ctx).service_request matches Some(request) && request@
                    == created_request(
                    old(ctx).service_request_key,
                    agent_id,
                    old(ctx).user.key,
                    amount,
                    request_data@,
                    now,
                    old(ctx).escrow_account.key,
                ) && request@.wf()
                &&& final(ctx).service_request_key == old(ctx).service_request_key
                &&& final(ctx).user == old(ctx).user.debited(amount as int)
                &&& final(ctx).escrow_account == old(ctx).escrow_account.credited(amount as int)
                &&& final(events)@ == old(events)@.push(
                    EscrowEvent::ServiceRequestCreated(
                        ServiceRequestCreated {
                            request_id: old(ctx).service_request_key,
                            agent_id,
                            user: old(ctx).user.key,
                            amount,
                            timestamp: now,
                        },
                    ),
                )
            },
            Err(e) => {
                &&& create_error(
                    old(ctx).service_request is Some,
                    amount,
                    request_data@,
                    old(ctx).user.balance,
                    old(ctx).escrow_account.balance,
                ) == Some(e)
                &&& *final(ctx) == *old(ctx)
                &&& final(events)@ == old(events)@
            },
        },
{
    if ctx.service_request.is_some() {
        return Err(ErrorCode::RequestAlreadyExists);
    }
    if amount == 0 {
        return Err(ErrorCode::InvalidAmount);
    }
    if !fits(&request_data, MAX_REQUEST_DATA_LEN) {
        return Err(ErrorCode::PayloadTooLong);
    }
    let mut user = ctx.user;
    let mut escrow = ctx.escrow_account;
    match deposit(&mut user, &mut escrow, amount) {
        Err(e) => {
            return Err(e);
        },
        Ok(()) => {},
    }
    let request = ServiceRequest {
        request_id: ctx.service_request_key,
        agent_id,
        user: user.key,
        amount,
        status: RequestStatus::Pending,
        request_data,
        result_data: String::new(),
        created_at: now,
        completed_at: None,
        escrow_account: escrow.key,
    };
    ctx.service_request = Some(request);
    ctx.user = user;
    ctx.escrow_account = escrow;
    events.push(
        EscrowEvent::ServiceRequestCreated(
            ServiceRequestCreated {
                request_id: ctx.service_request_key,
                agent_id,
                user: user.key,
                amount,
                timestamp: now,
            },
        ),
    );
    Ok(())
}

/// Records the provider's result and marks the request as completed.
///
/// The result must be within its limit, and the request pending or in
/// progress: a later result replaces none, since the first completes the
/// request. On any rejection nothing changes.
pub fn submit_result(
    ctx: &mut SubmitResult,
    result_data: String,
    now: i64,
    events: &mut Vec<EscrowEvent>,
) -> (result: Result<(), ErrorCode>)
    ensures
        match result {
            Ok(()) => {
                &&& submit_result_error(old(ctx).service_request.status, result_data@) is None
                &&& final(ctx).service_request@ == completed_request(
                    old(ctx).service_request@,
                    result_data@,
                    now,
                )
                &&& can_transition(
                    old(ctx).service_request.status,
                    final(ctx).service_request.status,
                )
                &&& old(ctx).service_request@.wf() ==> final(ctx).service_request@.wf()
                &&& final(ctx).agent_authority == old(ctx).agent_authority
                &&& final(events)@ == old(events)@.push(
                    EscrowEvent::ResultSubmitted(
                        ResultSubmitted {
                            request_id: old(ctx).service_request.request_id,
                            agent_id: old(ctx).service_request.agent_id,
                            timestamp: now,
                        },
                    ),
                )
            },
            Err(e) => {
                &&& submit_result_error(old(ctx).service_request.status, result_data@) == Some(e)
                &&& *final(ctx) == *old(ctx)
                &&& final(events)@ == old(events)@
            },
        },
{
    if !fits(&result_data, MAX_RESULT_DATA_LEN) {
        return Err(ErrorCode::ResultDataTooLong);
    }
    match ctx.service_request.status {
        RequestStatus::Pending | RequestStatus::InProgress => {},
        RequestStatus::Completed
        | RequestStatus::Approved
        | RequestStatus::Disputed
        | RequestStatus::Cancelled => {
            return Err(ErrorCode::InvalidRequestStatus);
        },
    }
    ctx.service_request.result_data = result_data;
    ctx.service_request.status = RequestStatus::Completed;
    ctx.service_request.completed_at = Some(now);
    events.push(
        EscrowEvent::ResultSubmitted(
            ResultSubmitted {
                request_id: ctx.service_request.request_id,
                agent_id: ctx.service_request.agent_id,
                timestamp: now,
            },
        ),
    );
    Ok(())
}

/// Approves a completed request and pays the escrow out.
///
/// The caller must be the requester. The amount is split by the fixed
/// policy, `CREATOR_SHARE` percent to the creator and `PLATFORM_SHARE`
/// percent to the platform, each rounded down, and the rest to the
/// treasury; the three parts leave the escrow in that order and add up to
/// the amount. The request becomes approved, the payment is announced, and
/// an audit entry with the request's identifier is appended to `records`.
/// On any rejection nothing changes.
pub fn approve_result(
    ctx: &mut ApproveResult,
    now: i64,
    events: &mut Vec<EscrowEvent>,
    records: &mut Vec<DistributionRecord>,
) -> (result: Result<(), ErrorCode>)
    ensures
        match result {
            Ok(()) => {
                let amount = old(ctx).service_request.amount;
                let paid = record_of_split(
                    old(ctx).service_request.request_id,
                    old(ctx).creator.key,
                    amount,
                    CREATOR_SHARE,
                    PLATFORM_SHARE,
                    now,
                );
                &&& approve_error(
                    old(ctx).service_request@,
                    old(ctx).user,
                    old(ctx).escrow_account.balance,
                    old(ctx).creator.balance,
                    old(ctx).platform_wallet.balance,
                    old(ctx).treasury_wallet.balance,
                ) is None
                &&& final(ctx).service_request@ == with_status(
                    old(ctx).service_request@,
                    RequestStatus::Approved,
                )
                &&& old(ctx).service_request@.wf() ==> final(ctx).service_request@.wf()
                &&& paid.wf()
                &&& final(ctx).escrow_account == old(ctx).escrow_account.debited(amount as int)
                &&& final(ctx).creator == old(ctx).creator.credited(paid.creator_amount as int)
                &&& final(ctx).platform_wallet == old(ctx).platform_wallet.credited(
                    paid.platform_amount as int,
                )
                &&& final(ctx).treasury_wallet == old(ctx).treasury_wallet.credited(
                    paid.treasury_amount as int,
                )
                &&& final(ctx).user == old(ctx).user
                &&& final(events)@ == old(events)@.push(
                    EscrowEvent::PaymentReleased(
                        PaymentReleased {
                            request_id: old(ctx).service_request.request_id,
                            creator: old(ctx).creator.key,
                            creator_amount: paid.creator_amount,
                            platform_amount: paid.platform_amount,
                            treasury_amount: paid.treasury_amount,
                            timestamp: now,
                        },
                    ),
                )
                &&& final(records)@ == old(records)@.push(paid)
            },
            Err(e) => {
                &&& approve_error(
                    old(ctx).service_request@,
                    old(ctx).user,
                    old(ctx).escrow_account.balance,
                    old(ctx).creator.balance,
                    old(ctx).platform_wallet.balance,
                    old(ctx).treasury_wallet.balance,
                ) == Some(e)
                &&& *final(ctx) == *old(ctx)
                &&& final(events)@ == old(events)@
                &&& final(records)@ == old(records)@
            },
        },
{
    match ctx.service_request.status {
        RequestStatus::Completed => {},
        RequestStatus::Pending
        | RequestStatus::InProgress
        | RequestStatus::Approved
        | RequestStatus::Disputed
        | RequestStatus::Cancelled => {
            return Err(ErrorCode::InvalidRequestStatus);
        },
    }
    if ctx.user != ctx.service_request.user {
        return Err(ErrorCode::UnauthorizedUser);
    }
    let amount = ctx.service_request.amount;
    if ctx.escrow_account.balance < amount {
        return Err(ErrorCode::InsufficientCustodyBalance);
    }
    let parts = split(amount, CREATOR_SHARE, PLATFORM_SHARE);
    proof {
        lemma_shares_fit(amount as nat, CREATOR_SHARE as nat, PLATFORM_SHARE as nat);
    }
    let mut escrow = ctx.escrow_account;
    let mut creator = ctx.creator;
    let mut platform = ctx.platform_wallet;
    let mut treasury = ctx.treasury_wallet;
    match disburse(&mut escrow, &mut creator, parts.0) {
        Err(e) => {
            return Err(e);
        },
        Ok(()) => {},
    }
    match disburse(&mut escrow, &mut platform, parts.1) {
        Err(e) => {
            return Err(e);
        },
        Ok(()) => {},
    }
    match disburse(&mut escrow, &mut treasury, parts.2) {
        Err(e) => {
            return Err(e);
        },
        Ok(()) => {},
    }
    ctx.service_request.status = RequestStatus::Approved;
    ctx.escrow_account = escrow;
    ctx.creator = creator;
    ctx.platform_wallet = platform;
    ctx.treasury_wallet = treasury;
    events.push(
        EscrowEvent::PaymentReleased(
            PaymentReleased {
                request_id: ctx.service_request.request_id,
                creator: creator.key,
                creator_amount: parts.0,
                platform_amount: parts.1,
                treasury_amount: parts.2,
                timestamp: now,
            },
        ),
    );
    records.push(
        DistributionRecord {
            distribution_id: ctx.service_request.request_id,
            creator: creator.key,
            total_amount: amount,
            creator_amount: parts.0,
            platform_amount: parts.1,
            treasury_amount: parts.2,
            timestamp: now,
        },
    );
    Ok(())
}

/// Disputes a completed request. The caller must be the requester and the
/// reason within its limit. The request becomes disputed; the escrow keeps
/// the funds. On any rejection nothing changes.
pub fn dispute_result(
    ctx: &mut DisputeResult,
    reason: String,
    now: i64,
    events: &mut Vec<EscrowEvent>,
) -> (result: Result<(), ErrorCode>)
    ensures
        match result {
            Ok(()) => {
                &&& dispute_error(reason@, old(ctx).service_request@, old(ctx).user) is None
                &&& final(ctx).service_request@ == with_status(
                    old(ctx).service_request@,
                    RequestStatus::Disputed,
                )
                &&& old(ctx).service_request@.wf() ==> final(ctx).service_request@.wf()
                &&& final(ctx).user == old(ctx).user
                &&& final(events)@ == old(events)@.push(
                    EscrowEvent::ResultDisputed(
                        ResultDisputed {
                            request_id: old(ctx).service_request.request_id,
                            user: old(ctx).user,
                            reason,
                            timestamp: now,
                        },
                    ),
                )
            },
            Err(e) => {
                &&& dispute_error(reason@, old(ctx).service_request@, old(ctx).user) == Some(e)
                &&& *final(ctx) == *old(ctx)
                &&& final(events)@ == old(events)@
            },
        },
{
    if !fits(&reason, MAX_DISPUTE_REASON_LEN) {
        return Err(ErrorCode::DisputeReasonTooLong);
    }
    match ctx.service_request.status {
        RequestStatus::Completed => {},
        RequestStatus::Pending
        | RequestStatus::InProgress
        | RequestStatus::Approved
        | RequestStatus::Disputed
        | RequestStatus::Cancelled => {
            return Err(ErrorCode::InvalidRequestStatus);
        },
    }
    if ctx.user != ctx.service_request.user {
        return Err(ErrorCode::UnauthorizedUser);
    }
    ctx.service_request.status = RequestStatus::Disputed;
    events.push(
        EscrowEvent::ResultDisputed(
            ResultDisputed {
                request_id: ctx.service_request.request_id,
                user: ctx.user,
                reason,
                timestamp: now,
            },
        ),
    );
    Ok(())
}

/// Cancels a pending request and refunds its amount from escrow to the
/// requester. The caller must be the requester. The request becomes
/// cancelled. On any rejection nothing changes.
pub fn cancel_request(ctx: &mut CancelRequest, now: i64, events: &mut Vec<EscrowEvent>) -> (result:
    Result<(), ErrorCode>)
    ensures
        match result {
            Ok(()) => {
                let amount = old(ctx).service_request.amount;
                &&& cancel_error(
                    old(ctx).service_request@,
                    old(ctx).user.key,
                    old(ctx).escrow_account.balance,
                    old(ctx).user.balance,
                ) is None
                &&& final(ctx).service_request@ == with_status(
                    old(ctx).service_request@,
                    RequestStatus::Cancelled,
                )
                &&& old(ctx).service_request@.wf() ==> final(ctx).service_request@.wf()
                &&& final(ctx).escrow_account == old(ctx).escrow_account.debited(amount as int)
                &&& final(ctx).user == old(ctx).user.credited(amount as int)
                &&& final(events)@ == old(events)@.push(
                    EscrowEvent::RequestCancelled(
                        RequestCancelled {
                            request_id: old(ctx).service_request.request_id,
                            user: old(ctx).user.key,
                            refund_amount: amount,
                            timestamp: now,
                        },
                    ),
                )
            },
            Err(e) => {
                &&& cancel_error(
                    old(ctx).service_request@,
                    old(ctx).user.key,
                    old(ctx).escrow_account.balance,
                    old(ctx).user.balance,
                ) == Some(e)
                &&& *final(ctx) == *old(ctx)
                &&& final(events)@ == old(events)@
            },
        },
{
    match ctx.service_request.status {
        RequestStatus::Pending => {},
        RequestStatus::InProgress
        | RequestStatus::Completed
        | RequestStatus::Approved
        | RequestStatus::Disputed
        | RequestStatus::Cancelled => {
            return Err(ErrorCode::CannotCancelRequest);
        },
    }
    if ctx.user.key != ctx.service_request.user {
        return Err(ErrorCode::UnauthorizedUser);
    }
    let amount = ctx.service_request.amount;
    let mut escrow = ctx.escrow_account;
    let mut user = ctx.user;
    match refund(&mut escrow, &mut user, amount) {
        Err(e) => {
            return Err(e);
        },
        Ok(()) => {},
    }
    ctx.service_request.status = RequestStatus::Cancelled;
    ctx.escrow_account = escrow;
    ctx.user = user;
    events.push(
        EscrowEvent::RequestCancelled(
            RequestCancelled {
                request_id: ctx.service_request.request_id,
                user: user.key,
                refund_amount: amount,
                timestamp: now,
            },
        ),
    );
    Ok(())
}

/// Creating a request and cancelling it again leaves the money where it
/// was: the cancellation of the fresh request by its requester succeeds,
/// the requester holds what they held before the creation, and so does the
/// escrow, which is empty if it was empty before.
pub proof fn lemma_create_then_cancel_restores_balances(
    request_id: Pubkey,
    agent_id: Pubkey,
    user: LedgerAccount,
    escrow: LedgerAccount,
    amount: u64,
    request_data: Seq<char>,
    now: i64,
)
    requires
        create_error(false, amount, request_data, user.balance, escrow.balance) is None,
    ensures
        ({
            let request = created_request(
                request_id,
                agent_id,
                user.key,
                amount,
                request_data,
                now,
                escrow.key,
            );
            let paying = user.debited(amount as int);
            let holding = escrow.credited(amount as int);
            &&& request.wf()
            &&& cancel_error(request, user.key, holding.balance, paying.balance) is None
            &&& paying.credited(amount as int) == user
            &&& holding.debited(amount as int) == escrow
            &&& with_status(request, RequestStatus::Cancelled).wf()
        }),
{
    assert(byte_len(Seq::<char>::empty()) == 0);
}

/// A request that is created, completed by a result and approved by its
/// requester is paid out in full: unless a payee's account cannot hold its
/// part, the approval succeeds, the three parts are the fixed shares of
/// the amount and add up to it, and the escrow is back at what it held
/// before the request was created.
pub proof fn lemma_settlement_pays_in_full(
    request_id: Pubkey,
    agent_id: Pubkey,
    user: LedgerAccount,
    escrow: LedgerAccount,
    amount: u64,
    request_data: Seq<char>,
    result_data: Seq<char>,
    created_at: i64,
    completed_at: i64,
    approved_at: i64,
    creator: LedgerAccount,
    platform: LedgerAccount,
    treasury: LedgerAccount,
)
    requires
        create_error(false, amount, request_data, user.balance, escrow.balance) is None,
        byte_len(result_data) <= MAX_RESULT_DATA_LEN,
    ensures
        ({
            let created = created_request(
                request_id,
                agent_id,
                user.key,
                amount,
                request_data,
                created_at,
                escrow.key,
            );
            let completed = completed_request(created, result_data, completed_at);
            let holding = escrow.credited(amount as int);
            let paid = record_of_split(
                request_id,
                creator.key,
                amount,
                CREATOR_SHARE,
                PLATFORM_SHARE,
                approved_at,
            );
            let outcome = approve_error(
                completed,
                user.key,
                holding.balance,
                creator.balance,
                platform.balance,
                treasury.balance,
            );
            &&& submit_result_error(created.status, result_data) is None
            &&& completed.wf()
            &&& outcome is None || outcome == Some(ErrorCode::ArithmeticOverflow)
            &&& outcome is None <==> creator.balance + paid.creator_amount <= u64::MAX
                && platform.balance + paid.platform_amount <= u64::MAX && treasury.balance
                + paid.treasury_amount <= u64::MAX
            &&& paid.wf()
            &&& paid.creator_amount == amount * 85 / 100
            &&& paid.platform_amount == amount * 10 / 100
            &&& holding.debited(amount as int) == escrow
            &&& with_status(completed, RequestStatus::Approved).wf()
        }),
{
    lemma_shares_fit(amount as nat, CREATOR_SHARE as nat, PLATFORM_SHARE as nat);
    assert(byte_len(Seq::<char>::empty()) == 0);
}

/// A request that is approved, disputed or cancelled admits no further
/// operation: whoever calls and whatever is passed, a result, an approval,
/// a dispute and a cancellation are all rejected. An approval of a request
/// that is approved already fails on the status of the request.
pub proof fn lemma_terminal_request_admits_no_operation(
    request: ServiceRequestView,
    caller: Pubkey,
    text: Seq<char>,
    escrow_balance: u64,
    creator_balance: u64,
    platform_balance: u64,
    treasury_balance: u64,
    user_balance: u64,
)
    requires
        is_terminal(request.status),
    ensures
        submit_result_error(request.status, text) is Some,
        byte_len(text) <= MAX_RESULT_DATA_LEN ==> submit_result_error(request.status, text)
            == Some(ErrorCode::InvalidRequestStatus),
        approve_error(
            request,
            caller,
            escrow_balance,
            creator_balance,
            platform_balance,
            treasury_balance,
        ) == Some(ErrorCode::InvalidRequestStatus),
        dispute_error(text, request, caller) is Some,
        byte_len(text) <= MAX_DISPUTE_REASON_LEN ==> dispute_error(text, request, caller) == Some(
            ErrorCode::InvalidRequestStatus,
        ),
        cancel_error(request, caller, escrow_balance, user_balance) == Some(
            ErrorCode::CannotCancelRequest,
        ),
        forall|to: RequestStatus| !can_transition(request.status, to),
{
}

/// Every operation that succeeds moves the request along a step that its
/// life allows, and an approval, a dispute and a cancellation leave it in
/// a status that admits no further operation.
pub proof fn lemma_operations_follow_lifecycle(
    request: ServiceRequestView,
    caller: Pubkey,
    text: Seq<char>,
    escrow_balance: u64,
    creator_balance: u64,
    platform_balance: u64,
    treasury_balance: u64,
    user_balance: u64,
)
    ensures
        submit_result_error(request.status, text) is None ==> can_transition(
            request.status,
            RequestStatus::Completed,
        ),
        approve_error(
            request,
            caller,
            escrow_balance,
            creator_balance,
            platform_balance,
            treasury_balance,
        ) is None ==> can_transition(request.status, RequestStatus::Approved),
        dispute_error(text, request, caller) is None ==> can_transition(
            request.status,
            RequestStatus::Disputed,
        ),
        cancel_error(request, caller, escrow_balance, user_balance) is None ==> can_transition(
            request.status,
            RequestStatus::Cancelled,
        ),
        is_terminal(RequestStatus::Approved),
        is_terminal(RequestStatus::Disputed),
        is_terminal(RequestStatus::Cancelled),
{
}

/// An escrow that is empty before a request is created holds, once the
/// creation has succeeded, exactly what the fresh request stands for: the
/// amount of the request.
pub proof fn lemma_creation_fills_custody(
    request_id: Pubkey,
    agent_id: Pubkey,
    user: LedgerAccount,
    escrow: LedgerAccount,
    amount: u64,
    request_data: Seq<char>,
    now: i64,
)
    requires
        escrow.balance == 0,
        create_error(false, amount, request_data, user.balance, escrow.balance) is None,
    ensures
        escrow.credited(amount as int).balance == amount,
        escrow.credited(amount as int).balance == custody_of(
            created_request(
                request_id,
                agent_id,
                user.key,
                amount,
                request_data,
                now,
                escrow.key,
            ),
        ),
{
}

/// The escrow follows the request. As long as the escrow holds what the
/// request stands for, no approval and no cancellation fails for lack of
/// funds in it, a result and a dispute leave its balance at what the
/// request stands for afterwards, and an approval or a cancellation that
/// succeeds leaves it empty, which is what the request then stands for.
pub proof fn lemma_custody_follows_request(
    request: ServiceRequestView,
    caller: Pubkey,
    text: Seq<char>,
    now: i64,
    escrow_balance: u64,
    creator_balance: u64,
    platform_balance: u64,
    treasury_balance: u64,
    user_balance: u64,
)
    requires
        escrow_balance == custody_of(request),
    ensures
        approve_error(
            request,
            caller,
            escrow_balance,
            creator_balance,
            platform_balance,
            treasury_balance,
        ) != Some(ErrorCode::InsufficientCustodyBalance),
        cancel_error(request, caller, escrow_balance, user_balance) != Some(
            ErrorCode::InsufficientCustodyBalance,
        ),
        submit_result_error(request.status, text) is None ==> custody_of(
            completed_request(request, text, now),
        ) == escrow_balance,
        dispute_error(text, request, caller) is None ==> custody_of(
            with_status(request, RequestStatus::Disputed),
        ) == escrow_balance,
        approve_error(
            request,
            caller,
            escrow_balance,
            creator_balance,
            platform_balance,
            treasury_balance,
        ) is None ==> custody_of(with_status(request, RequestStatus::Approved)) == 0
            && escrow_balance - request.amount == 0,
        cancel_error(request, caller, escrow_balance, user_balance) is None ==> custody_of(
            with_status(request, RequestStatus::Cancelled),
        ) == 0 && escrow_balance - request.amount == 0,
{
}

} // verus!
