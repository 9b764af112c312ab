//! Reputation of providers: the ratings that requesters give, and the
//! running averages that each provider's profile keeps of them.
//!
//! Averages are integers and are updated one rating at a time, rounding down
//! at every step. A rating that moderation finds invalid is taken out of the
//! overall average again; the three sub-scores keep its contribution.

use crate::pubkey::Pubkey;
use crate::text::{byte_len, fits, text_view};
use vstd::prelude::*;

verus! {

/// The lowest score that a rating may give.
pub const MIN_SCORE: u8 = 1;

/// The highest score that a rating may give.
pub const MAX_SCORE: u8 = 5;

/// The most bytes that a review may take.
pub const MAX_REVIEW_LEN: usize = 1000;

/// The most bytes that the reason of a report may take.
pub const MAX_REASON_LEN: usize = 500;

/// The most bytes that a moderator's note may take.
pub const MAX_NOTE_LEN: usize = 500;

/// Why an operation of the reputation system was rejected.
#[derive(Clone, Copy, Debug, PartialEq, Eq, Structural)]
pub enum ReputationError {
    /// A score lies outside of one to five.
    InvalidRating,
    /// The review is longer than `MAX_REVIEW_LEN`.
    ReviewTooLong,
    /// The reason of a report is longer than `MAX_REASON_LEN`.
    ReasonTooLong,
    /// The moderator's note is longer than `MAX_NOTE_LEN`.
    NoteTooLong,
    /// The requester has rated this request before.
    DuplicateRating,
    /// The provider has a reputation profile already.
    ProfileAlreadyInitialized,
    /// A count or an average would leave the range of its type.
    ArithmeticOverflow,
    /// The caller is not the administrator.
    UnauthorizedAdmin,
}

/// One requester's rating of one completed request.
#[derive(Clone, Debug, PartialEq, Eq)]
pub struct Rating {
    pub rating_id: Pubkey,
    pub agent_id: Pubkey,
    pub user: Pubkey,
    pub request_id: Pubkey,
    pub stars: u8,
    pub quality: u8,
    pub speed: u8,
    pub value: u8,
    pub review_text: String,
    pub created_at: i64,
    pub is_reported: bool,
    pub report_reason: Option<String>,
    pub is_moderated: bool,
    pub is_valid: bool,
    pub admin_note: Option<String>,
}

/// What a `Rating` holds, with its texts as sequences of characters.
pub struct RatingView {
    pub rating_id: Pubkey,
    pub agent_id: Pubkey,
    pub user: Pubkey,
    pub request_id: Pubkey,
    pub stars: u8,
    pub quality: u8,
    pub speed: u8,
    pub value: u8,
    pub review_text: Seq<char>,
    pub created_at: i64,
    pub is_reported: bool,
    pub report_reason: Option<Seq<char>>,
    pub is_moderated: bool,
    pub is_valid: bool,
    pub admin_note: Option<Seq<char>>,
}

impl View for Rating {
    type V = RatingView;

    open spec fn view(&self) -> RatingView {
        RatingView {
            rating_id: self.rating_id,
            agent_id: self.agent_id,
            user: self.user,
            request_id: self.request_id,
            stars: self.stars,
            quality: self.quality,
            speed: self.speed,
            value: self.value,
            review_text: self.review_text@,
            created_at: self.created_at,
            is_reported: self.is_reported,
            report_reason: text_view(self.report_reason),
            is_moderated: self.is_moderated,
            is_valid: self.is_valid,
            admin_note: text_view(self.admin_note),
        }
    }
}

impl RatingView {
    /// Every score lies in one to five and every text within its limit.
    pub open spec fn wf(self) -> bool {
        &&& score_in_range(self.stars)
        &&& score_in_range(self.quality)
        &&& score_in_range(self.speed)
        &&& score_in_range(self.value)
        &&& byte_len(self.review_text) <= MAX_REVIEW_LEN
        &&& self.report_reason matches Some(reason) ==> byte_len(reason) <= MAX_REASON_LEN
        &&& self.admin_note matches Some(note) ==> byte_len(note) <= MAX_NOTE_LEN
    }
}

/// The running quality figures of one provider.
#[derive(Clone, Copy, Debug, PartialEq, Eq)]
pub struct AgentReputationProfile {
    pub agent_id: Pubkey,
    pub total_ratings: u64,
    pub average_rating: u32,
    pub quality_score: u32,
    pub speed_score: u32,
    pub value_score: u32,
    pub created_at: i64,
    pub last_rating_at: i64,
}

impl AgentReputationProfile {
    /// A profile that counts no rating has no overall average.
    pub open spec fn wf(self) -> bool {
        self.total_ratings == 0 ==> self.average_rating == 0
    }
}

/// A provider's figures as a query returns them.
#[derive(Clone, Copy, Debug, PartialEq, Eq)]
pub struct AgentStats {
    pub agent_id: Pubkey,
    pub total_ratings: u64,
    pub average_rating: u32,
    pub quality_score: u32,
    pub speed_score: u32,
    pub value_score: u32,
}

/// Whether `score` is one that a rating may give.
pub open spec fn score_in_range(score: u8) -> bool {
    MIN_SCORE <= score <= MAX_SCORE
}

/// The mean of `count + 1` values, rounded down, given the mean `avg` of
/// the first `count` of them and the last one, `value`.
pub open spec fn running_mean(avg: int, count: int, value: int) -> int {
    (avg * count + value) / (count + 1)
}

/// The mean of `count - 1` values, rounded down, given the mean `avg` of
/// `count` values and the one, `value`, that is taken out. It is meant for
/// `count` above one and `value` no more than `avg * count`.
pub open spec fn mean_without(avg: int, count: int, value: int) -> int {
    (avg * count - value) / (count - 1)
}

/// A running mean lies between the previous mean and the new value, and
/// over no previous values it is the new value.
pub proof fn lemma_running_mean_bounds(avg: int, count: int, value: int)
    requires
        0 <= avg,
        0 <= count,
        0 <= value,
    ensures
        running_mean(avg, count, value) <= if avg >= value { avg } else { value },
        running_mean(avg, count, value) >= if avg <= value { avg } else { value },
        count == 0 ==> running_mean(avg, count, value) == value,
{
    let hi: int = if avg >= value { avg } else { value };
    let lo: int = if avg <= value { avg } else { value };
    let total: int = avg * count + value;
    let n: int = count + 1;
    assert(total <= hi * n && lo * n <= total) by (nonlinear_arith)
        requires
            total == avg * count + value,
            n == count + 1,
            0 <= count,
            0 <= lo <= avg <= hi,
            lo <= value <= hi,
    ;
    vstd::arithmetic::div_mod::lemma_div_is_ordered(total, hi * n, n);
    vstd::arithmetic::div_mod::lemma_div_is_ordered(lo * n, total, n);
    vstd::arithmetic::div_mod::lemma_div_multiples_vanish(hi, n);
    vstd::arithmetic::div_mod::lemma_div_multiples_vanish(lo, n);
    assert(hi * n == n * hi && lo * n == n * lo) by (nonlinear_arith);
    if count == 0 {
        assert(avg * count == 0) by (nonlinear_arith)
            requires
                count == 0,
        ;
        assert(total / n == value) by (nonlinear_arith)
            requires
                total == value,
                n == 1,
        ;
    }
}

/// The running mean after one more value: `current_avg` is the mean of
/// `current_count` values so far, and `new_value` joins them. The product
/// is formed in a wider type, so that no count is too large.
pub fn calculate_weighted_average(current_avg: u32, current_count: u64, new_value: u32) -> (mean:
    u32)
    ensures
        mean == running_mean(current_avg as int, current_count as int, new_value as int),
{
    proof {
        lemma_running_mean_bounds(current_avg as int, current_count as int, new_value as int);
        assert(current_avg * current_count <= 0xffff_ffff * 0xffff_ffff_ffff_ffff)
            by (nonlinear_arith)
            requires
                current_avg <= 0xffff_ffff,
                current_count <= 0xffff_ffff_ffff_ffff,
        ;
    }
    let total: u128 = (current_avg as u128) * (current_count as u128) + (new_value as u128);
    let mean: u128 = total / (current_count as u128 + 1);
    mean as u32
}

/// A rating was recorded and the provider's averages were brought up to
/// date.
#[derive(Clone, Copy, Debug, PartialEq, Eq)]
pub struct RatingSubmitted {
    pub rating_id: Pubkey,
    pub agent_id: Pubkey,
    pub user: Pubkey,
    pub stars: u8,
    pub new_average: u32,
}

/// A provider's reputation profile was created.
#[derive(Clone, Copy, Debug, PartialEq, Eq)]
pub struct AgentReputationInitialized {
    pub agent_id: Pubkey,
}

/// A rating was reported as inappropriate.
#[derive(Clone, Debug, PartialEq, Eq)]
pub struct RatingReported {
    pub rating_id: Pubkey,
    pub reporter: Pubkey,
    pub reason: String,
}

/// A moderator decided on a rating.
#[derive(Clone, Copy, Debug, PartialEq, Eq)]
pub struct RatingModerated {
    pub rating_id: Pubkey,
    pub is_valid: bool,
    pub moderator: Pubkey,
}

/// What the reputation system tells its observers.
#[derive(Clone, Debug, PartialEq, Eq)]
pub enum ReputationEvent {
    RatingSubmitted(RatingSubmitted),
    AgentReputationInitialized(AgentReputationInitialized),
    RatingReported(RatingReported),
    RatingModerated(RatingModerated),
}

/// The records that `submit_rating` works on. `rating` is the place that
/// belongs to this requester and this request: it is empty until they rate.
#[derive(Clone, Debug, PartialEq, Eq)]
pub struct SubmitRating {
    pub rating_key: Pubkey,
    pub rating: Option<Rating>,
    pub agent_profile_key: Pubkey,
    pub agent_profile: AgentReputationProfile,
    pub user: Pubkey,
}

/// The records that `initialize_agent_reputation` works on. `agent_profile`
/// is the place that belongs to this provider: it is empty until the
/// profile is made.
#[derive(Clone, Copy, Debug, PartialEq, Eq)]
pub struct InitializeAgentReputation {
    pub agent_profile: Option<AgentReputationProfile>,
    pub creator: Pubkey,
}

/// The record that `get_agent_stats` reads.
#[derive(Clone, Copy, Debug, PartialEq, Eq)]
pub struct GetAgentStats {
    pub agent_profile: AgentReputationProfile,
}

/// The records that `report_rating` works on.
#[derive(Clone, Debug, PartialEq, Eq)]
pub struct ReportRating {
    pub rating: Rating,
    pub reporter: Pubkey,
}

/// The records that `moderate_rating` works on. `administrator` is the
/// administrator on record, who alone may moderate, and `admin` is the
/// caller that has been authenticated.
#[derive(Clone, Debug, PartialEq, Eq)]
pub struct ModerateRating {
    pub rating: Rating,
    pub agent_profile: AgentReputationProfile,
    pub administrator: Pubkey,
    pub admin: Pubkey,
}

/// A profile for `agent_id` made at `now`, with no rating counted.
pub open spec fn fresh_profile(agent_id: Pubkey, now: i64) -> AgentReputationProfile {
    AgentReputationProfile {
        agent_id,
        total_ratings: 0,
        average_rating: 0,
        quality_score: 0,
        speed_score: 0,
        value_score: 0,
        created_at: now,
        last_rating_at: 0,
    }
}

/// The figures that a query on `profile` returns.
pub open spec fn stats_of(profile: AgentReputationProfile) -> AgentStats {
    AgentStats {
        agent_id: profile.agent_id,
        total_ratings: profile.total_ratings,
        average_rating: profile.average_rating,
        quality_score: profile.quality_score,
        speed_score: profile.speed_score,
        value_score: profile.value_score,
    }
}

/// The reason for which a rating is rejected, if it is. `occupied` says
/// whether the requester has rated the request before, and `total_ratings`
/// is the count on the provider's profile. The checks come in this order.
pub open spec fn submit_rating_error(
    occupied: bool,
    stars: u8,
    quality: u8,
    speed: u8,
    value: u8,
    review: Seq<char>,
    total_ratings: u64,
) -> Option<ReputationError> {
    if occupied {
        Some(ReputationError::DuplicateRating)
    } else if !(score_in_range(stars) && score_in_range(quality) && score_in_range(speed)
        && score_in_range(value)) {
        Some(ReputationError::InvalidRating)
    } else if byte_len(review) > MAX_REVIEW_LEN {
        Some(ReputationError::ReviewTooLong)
    } else if total_ratings == u64::MAX {
        Some(ReputationError::ArithmeticOverflow)
    } else {
        None
    }
}

/// The rating that a requester's submission creates.
pub open spec fn new_rating(
    rating_id: Pubkey,
    agent_id: Pubkey,
    user: Pubkey,
    request_id: Pubkey,
    stars: u8,
    quality: u8,
    speed: u8,
    value: u8,
    review: Seq<char>,
    now: i64,
) -> RatingView {
    RatingView {
        rating_id,
        agent_id,
        user,
        request_id,
        stars,
        quality,
        speed,
        value,
        review_text: review,
        created_at: now,
        is_reported: false,
        report_reason: None,
        is_moderated: false,
        is_valid: false,
        admin_note: None,
    }
}

/// The profile once a rating with these scores, given at `now`, has been
/// counted: each of the four averages takes its score in by the running
/// mean, and the count grows by one.
pub open spec fn profile_after_rating(
    profile: AgentReputationProfile,
    stars: u8,
    quality: u8,
    speed: u8,
    value: u8,
    now: i64,
) -> AgentReputationProfile {
    let count = profile.total_ratings as int;
    AgentReputationProfile {
        agent_id: profile.agent_id,
        total_ratings: (profile.total_ratings + 1) as u64,
        average_rating: running_mean(profile.average_rating as int, count, stars as int) as u32,
        quality_score: running_mean(profile.quality_score as int, count, quality as int) as u32,
        speed_score: running_mean(profile.speed_score as int, count, speed as int) as u32,
        value_score: running_mean(profile.value_score as int, count, value as int) as u32,
        created_at: profile.created_at,
        last_rating_at: now,
    }
}

/// The reason for which a moderator's decision is rejected, if it is. The
/// caller must be the administrator on record, and the note within its
/// limit. To take a rating of `stars` out of the overall average, the total
/// that the profile stands for must hold that many stars, and the new
/// average must fit its field. The checks come in this order.
pub open spec fn moderate_rating_error(
    administrator: Pubkey,
    caller: Pubkey,
    note: Seq<char>,
    is_valid: bool,
    profile: AgentReputationProfile,
    stars: u8,
) -> Option<ReputationError> {
    let avg = profile.average_rating as int;
    let count = profile.total_ratings as int;
    if caller != administrator {
        Some(ReputationError::UnauthorizedAdmin)
    } else if byte_len(note) > MAX_NOTE_LEN {
        Some(ReputationError::NoteTooLong)
    } else if !is_valid && count > 1 && (avg * count < stars || mean_without(
        avg,
        count,
        stars as int,
    ) > u32::MAX) {
        Some(ReputationError::ArithmeticOverflow)
    } else {
        None
    }
}

/// The profile once a moderator has decided on a rating of `stars`. A valid
/// rating leaves it as it is. An invalid one leaves the overall average and
/// the count: the last rating takes both to zero, any other lowers the count
/// by one and takes its stars out of the average. The sub-scores stay.
pub open spec fn profile_after_moderation(
    profile: AgentReputationProfile,
    is_valid: bool,
    stars: u8,
) -> AgentReputationProfile {
    if is_valid {
        profile
    } else if profile.total_ratings > 1 {
        AgentReputationProfile {
            total_ratings: (profile.total_ratings - 1) as u64,
            average_rating: mean_without(
                profile.average_rating as int,
                profile.total_ratings as int,
                stars as int,
            ) as u32,
            ..profile
        }
    } else {
        AgentReputationProfile { total_ratings: 0, average_rating: 0, ..profile }
    }
}

/// Records the rating of a completed request and counts it on the
/// provider's profile.
///
/// The scores must lie in one to five and the review within its limit. A
/// requester rates a request once: where `ctx.rating` holds a rating
/// already, the submission is rejected. On any rejection nothing changes.
pub fn submit_rating(
    ctx: &mut SubmitRating,
    request_id: Pubkey,
    stars: u8,
    quality: u8,
    speed: u8,
    value: u8,
    review_text: String,
    now: i64,
    events: &mut Vec<ReputationEvent>,
) -> (result: Result<(), ReputationError>)
    ensures
        match result {
            Ok(()) => {
                &&& submit_rating_error(
                    old(ctx).rating is Some,
                    stars,
                    quality,
                    speed,
                    value,
                    review_text@,
                    old(ctx).agent_profile.total_ratings,
                ) is None
                &&& final(ctx).rating matches Some(rating) && rating@ == new_rating(
                    old(ctx).rating_key,
                    old(ctx).agent_profile_key,
                    old(ctx).user,
                    request_id,
                    stars,
                    quality,
                    speed,
                    value,
                    review_text@,
                    now,
                ) && rating@.wf()
                &&& final(ctx).agent_profile == profile_after_rating(
                    old(ctx).agent_profile,
                    stars,
                    quality,
                    speed,
                    value,
                    now,
                )
                &&& final(ctx).rating_key == old(ctx).rating_key
                &&& final(ctx).agent_profile_key == old(ctx).agent_profile_key
                &&& final(ctx).user == old(ctx).user
                &&& final(events)@ == old(events)@.push(
                    ReputationEvent::RatingSubmitted(
                        RatingSubmitted {
                            rating_id: old(ctx).rating_key,
                            agent_id: old(ctx).agent_profile_key,
                            user: old(ctx).user,
                            stars,
                            new_average: final(ctx).agent_profile.average_rating,
                        },
                    ),
                )
            },
            Err(e) => {
                &&& submit_rating_error(
                    old(ctx).rating is Some,
                    stars,
                    quality,
                    speed,
                    value,
                    review_text@,
                    old(ctx).agent_profile.total_ratings,
                ) == Some(e)
                &&& *final(ctx) == *old(ctx)
                &&& final(events)@ == old(events)@
            },
        },
{
    if ctx.rating.is_some() {
        return Err(ReputationError::DuplicateRating);
    }
    if !(in_range(stars) && in_range(quality) && in_range(speed) && in_range(value)) {
        return Err(ReputationError::InvalidRating);
    }
    if !fits(&review_text, MAX_REVIEW_LEN) {
        return Err(ReputationError::ReviewTooLong);
    }
    let profile = ctx.agent_profile;
    if profile.total_ratings == u64::MAX {
        return Err(ReputationError::ArithmeticOverflow);
    }
    let count = profile.total_ratings;
    let counted = AgentReputationProfile {
        agent_id: profile.agent_id,
        total_ratings: count + 1,
        average_rating: calculate_weighted_average(profile.average_rating, count, stars as u32),
        quality_score: calculate_weighted_average(profile.quality_score, count, quality as u32),
        speed_score: calculate_weighted_average(profile.speed_score, count, speed as u32),
        value_score: calculate_weighted_average(profile.value_score, count, value as u32),
        created_at: profile.created_at,
        last_rating_at: now,
    };
    let rating = Rating {
        rating_id: ctx.rating_key,
        agent_id: ctx.agent_profile_key,
        user: ctx.user,
        request_id,
        stars,
        quality,
        speed,
        value,
        review_text,
        created_at: now,
        is_reported: false,
        report_reason: None,
        is_moderated: false,
        is_valid: false,
        admin_note: None,
    };
    ctx.rating = Some(rating);
    ctx.agent_profile = counted;
    events.push(
        ReputationEvent::RatingSubmitted(
            RatingSubmitted {
                rating_id: ctx.rating_key,
                agent_id: ctx.agent_profile_key,
                user: ctx.user,
                stars,
                new_average: counted.average_rating,
            },
        ),
    );
    Ok(())
}

/// Whether `score` is one that a rating may give.
fn in_range(score: u8) -> (ok: bool)
    ensures
        ok == score_in_range(score),
{
    MIN_SCORE <= score && score <= MAX_SCORE
}

/// Creates the reputation profile of the provider `agent_id`, with no
/// rating counted. A provider has one profile: where `ctx.agent_profile`
/// holds one already, the call is rejected and nothing changes.
pub fn initialize_agent_reputation(
    ctx: &mut InitializeAgentReputation,
    agent_id: Pubkey,
    now: i64,
    events: &mut Vec<ReputationEvent>,
) -> (result: Result<(), ReputationError>)
    ensures
        match result {
            Ok(()) => {
                &&& old(ctx).agent_profile is None
                &&& final(ctx).agent_profile == Some(fresh_profile(agent_id, now))
                &&& final(ctx).creator == old(ctx).creator
                &&& final(events)@ == old(events)@.push(
                    ReputationEvent::AgentReputationInitialized(
                        AgentReputationInitialized { agent_id },
                    ),
                )
            },
            Err(e) => {
                &&& old(ctx).agent_profile is Some
                &&& e == ReputationError::ProfileAlreadyInitialized
                &&& *final(ctx) == *old(ctx)
                &&& final(events)@ == old(events)@
            },
        },
{
    if ctx.agent_profile.is_some() {
        return Err(ReputationError::ProfileAlreadyInitialized);
    }
    ctx.agent_profile = Some(
        AgentReputationProfile {
            agent_id,
            total_ratings: 0,
            average_rating: 0,
            quality_score: 0,
            speed_score: 0,
            value_score: 0,
            created_at: now,
            last_rating_at: 0,
        },
    );
    events.push(
        ReputationEvent::AgentReputationInitialized(AgentReputationInitialized { agent_id }),
    );
    Ok(())
}

/// The provider's count and averages. The query always succeeds.
pub fn get_agent_stats(ctx: &GetAgentStats) -> (result: Result<AgentStats, ReputationError>)
    ensures
        result == Ok::<AgentStats, ReputationError>(stats_of(ctx.agent_profile)),
{
    Ok(
        AgentStats {
            agent_id: ctx.agent_profile.agent_id,
            total_ratings: ctx.agent_profile.total_ratings,
            average_rating: ctx.agent_profile.average_rating,
            quality_score: ctx.agent_profile.quality_score,
            speed_score: ctx.agent_profile.speed_score,
            value_score: ctx.agent_profile.value_score,
        },
    )
}

/// Marks a rating as reported and keeps the reason. No average changes. A
/// reason longer than `MAX_REASON_LEN` is rejected and nothing changes.
pub fn report_rating(ctx: &mut ReportRating, reason: String, events: &mut Vec<ReputationEvent>) -> (result:
    Result<(), ReputationError>)
    ensures
        match result {
            Ok(()) => {
                &&& byte_len(reason@) <= MAX_REASON_LEN
                &&& final(ctx).rating@ == (RatingView {
                    is_reported: true,
                    report_reason: Some(reason@),
                    ..old(ctx).rating@
                })
                &&& old(ctx).rating@.wf() ==> final(ctx).rating@.wf()
                &&& final(ctx).reporter == old(ctx).reporter
                &&& final(events)@ == old(events)@.push(
                    ReputationEvent::RatingReported(
                        RatingReported {
                            rating_id: old(ctx).rating.rating_id,
                            reporter: old(ctx).reporter,
                            reason,
                        },
                    ),
                )
            },
            Err(e) => {
                &&& byte_len(reason@) > MAX_REASON_LEN
                &&& e == ReputationError::ReasonTooLong
                &&& *final(ctx) == *old(ctx)
                &&& final(events)@ == old(events)@
            },
        },
{
    if !fits(&reason, MAX_REASON_LEN) {
        return Err(ReputationError::ReasonTooLong);
    }
    ctx.rating.is_reported = true;
    ctx.rating.report_reason = Some(reason.clone());
    events.push(
        ReputationEvent::RatingReported(
            RatingReported { rating_id: ctx.rating.rating_id, reporter: ctx.reporter, reason },
        ),
    );
    Ok(())
}

/// Records a moderator's decision on a rating and, where the rating is
/// found invalid, takes it out of the provider's overall average. Only the
/// administrator may.
///
/// The rating keeps the decision and the note. The profile becomes
/// `profile_after_moderation`: only the overall average and the count give
/// way, not the three sub-scores. A caller other than the administrator is
/// rejected, and so are a note longer than `MAX_NOTE_LEN` and a removal
/// that the profile's figures cannot bear; then nothing changes.
pub fn moderate_rating(
    ctx: &mut ModerateRating,
    is_valid: bool,
    admin_note: String,
    events: &mut Vec<ReputationEvent>,
) -> (result: Result<(), ReputationError>)
    ensures
        match result {
            Ok(()) => {
                &&& moderate_rating_error(
                    old(ctx).administrator,
                    old(ctx).admin,
                    admin_note@,
                    is_valid,
                    old(ctx).agent_profile,
                    old(ctx).rating.stars,
                ) is None
                &&& final(ctx).rating@ == (RatingView {
                    is_moderated: true,
                    is_valid,
                    admin_note: Some(admin_note@),
                    ..old(ctx).rating@
                })
                &&& old(ctx).rating@.wf() ==> final(ctx).rating@.wf()
                &&& final(ctx).agent_profile == profile_after_moderation(
                    old(ctx).agent_profile,
                    is_valid,
                    old(ctx).rating.stars,
                )
                &&& final(ctx).administrator == old(ctx).administrator
                &&& final(ctx).admin == old(ctx).admin
                &&& final(events)@ == old(events)@.push(
                    ReputationEvent::RatingModerated(
                        RatingModerated {
                            rating_id: old(ctx).rating.rating_id,
                            is_valid,
                            moderator: old(ctx).admin,
                        },
                    ),
                )
            },
            Err(e) => {
                &&& moderate_rating_error(
                    old(ctx).administrator,
                    old(ctx).admin,
                    admin_note@,
                    is_valid,
                    old(ctx).agent_profile,
                    old(ctx).rating.stars,
                ) == Some(e)
                &&& *final(ctx) == *old(ctx)
                &&& final(events)@ == old(events)@
            },
        },
{
    if ctx.admin != ctx.administrator {
        return Err(ReputationError::UnauthorizedAdmin);
    }
    if !fits(&admin_note, MAX_NOTE_LEN) {
        return Err(ReputationError::NoteTooLong);
    }
    let mut profile = ctx.agent_profile;
    if !is_valid {
        if profile.total_ratings > 1 {
            proof {
                assert(profile.average_rating * profile.total_ratings <= 0xffff_ffff
                    * 0xffff_ffff_ffff_ffff) by (nonlinear_arith)
                    requires
                        profile.average_rating <= 0xffff_ffff,
                        profile.total_ratings <= 0xffff_ffff_ffff_ffff,
                ;
            }
            let total: u128 = (profile.average_rating as u128) * (profile.total_ratings as u128);
            let stars: u128 = ctx.rating.stars as u128;
            if total < stars {
                return Err(ReputationError::ArithmeticOverflow);
            }
            let remaining: u64 = profile.total_ratings - 1;
            let mean: u128 = (total - stars) / (remaining as u128);
            if mean > u32::MAX as u128 {
                return Err(ReputationError::ArithmeticOverflow);
            }
            profile.total_ratings = remaining;
            profile.average_rating = mean as u32;
        } else {
            profile.total_ratings = 0;
            profile.average_rating = 0;
        }
    }
    ctx.rating.is_moderated = true;
    ctx.rating.is_valid = is_valid;
    ctx.rating.admin_note = Some(admin_note);
    ctx.agent_profile = profile;
    events.push(
        ReputationEvent::RatingModerated(
            RatingModerated { rating_id: ctx.rating.rating_id, is_valid, moderator: ctx.admin },
        ),
    );
    Ok(())
}

/// The scores of one rating and the time at which it was given.
pub struct Submission {
    pub stars: u8,
    pub quality: u8,
    pub speed: u8,
    pub value: u8,
    pub at: i64,
}

impl Submission {
    /// All four scores lie in one to five.
    pub open spec fn wf(self) -> bool {
        &&& score_in_range(self.stars)
        &&& score_in_range(self.quality)
        &&& score_in_range(self.speed)
        &&& score_in_range(self.value)
    }
}

/// The profile once the given ratings have been counted on it, one after
/// the other.
pub open spec fn profile_after_ratings(
    profile: AgentReputationProfile,
    submissions: Seq<Submission>,
) -> AgentReputationProfile
    decreases submissions.len(),
{
    if submissions.len() == 0 {
        profile
    } else {
        let last = submissions.last();
        profile_after_rating(
            profile_after_ratings(profile, submissions.drop_last()),
            last.stars,
            last.quality,
            last.speed,
            last.value,
            last.at,
        )
    }
}

/// The stars of the given ratings, in their order.
pub open spec fn stars_of(submissions: Seq<Submission>) -> Seq<int> {
    Seq::new(submissions.len(), |i: int| submissions[i].stars as int)
}

/// The mean of `values` as it comes out when the values are taken in one
/// at a time and the mean is rounded down after each: zero for no value,
/// and otherwise the running mean of the last value over the mean of those
/// before it.
pub open spec fn replayed_mean(values: Seq<int>) -> int
    decreases values.len(),
{
    if values.len() == 0 {
        0
    } else {
        running_mean(replayed_mean(values.drop_last()), values.len() - 1, values.last())
    }
}

/// The overall average that a profile reaches by counting ratings one by
/// one is the mean that replaying their stars gives, rounding down at each
/// step; the count is the number of ratings, and the average lies in one to
/// five. This holds of every sequence of ratings with scores in range,
/// counted from a profile that counts none.
pub proof fn lemma_incremental_average_is_replayed_mean(
    profile: AgentReputationProfile,
    submissions: Seq<Submission>,
)
    requires
        profile.total_ratings == 0,
        submissions.len() <= u64::MAX,
        forall|i: int| 0 <= i < submissions.len() ==> (#[trigger] submissions[i]).wf(),
    ensures
        profile_after_ratings(profile, submissions).total_ratings == submissions.len(),
        submissions.len() > 0 ==> {
            &&& profile_after_ratings(profile, submissions).average_rating == replayed_mean(
                stars_of(submissions),
            )
            &&& MIN_SCORE <= profile_after_ratings(profile, submissions).average_rating
                <= MAX_SCORE
        },
    decreases submissions.len(),
{
    if submissions.len() > 0 {
        let before = submissions.drop_last();
        let last = submissions.last();
        lemma_incremental_average_is_replayed_mean(profile, before);
        let reached = profile_after_ratings(profile, before);
        assert(stars_of(submissions).drop_last() =~= stars_of(before));
        assert(stars_of(submissions).last() == last.stars as int);
        assert(last.wf());
        lemma_running_mean_bounds(
            reached.average_rating as int,
            reached.total_ratings as int,
            last.stars as int,
        );
        if before.len() == 0 {
            lemma_running_mean_bounds(0, 0, last.stars as int);
        }
    }
}

/// Counting a rating leaves a well-formed profile, whatever it was before.
pub proof fn lemma_rating_keeps_profile_wf(
    profile: AgentReputationProfile,
    stars: u8,
    quality: u8,
    speed: u8,
    value: u8,
    now: i64,
)
    requires
        profile.total_ratings < u64::MAX,
    ensures
        profile_after_rating(profile, stars, quality, speed, value, now).wf(),
{
}

/// A moderator's decision leaves a well-formed profile well-formed. Where
/// the rating is found invalid, a profile that counts one rating ends with
/// no rating and no overall average, and one that counts more ends with
/// exactly one rating less; the three sub-scores stay as they were.
pub proof fn lemma_moderation_removes_one_rating(
    profile: AgentReputationProfile,
    is_valid: bool,
    stars: u8,
)
    ensures
        profile.wf() ==> profile_after_moderation(profile, is_valid, stars).wf(),
        is_valid ==> profile_after_moderation(profile, is_valid, stars) == profile,
        !is_valid && profile.total_ratings == 1 ==> {
            &&& profile_after_moderation(profile, is_valid, stars).total_ratings == 0
            &&& profile_after_moderation(profile, is_valid, stars).average_rating == 0
        },
        !is_valid && profile.total_ratings > 1 ==> profile_after_moderation(
            profile,
            is_valid,
            stars,
        ).total_ratings == profile.total_ratings - 1,
        profile_after_moderation(profile, is_valid, stars).quality_score
            == profile.quality_score,
        profile_after_moderation(profile, is_valid, stars).speed_score == profile.speed_score,
        profile_after_moderation(profile, is_valid, stars).value_score == profile.value_score,
{
}

/// Where the requester has rated the request before, a further rating is
/// rejected as a duplicate, whatever it holds.
pub proof fn lemma_duplicate_rating_is_rejected(
    stars: u8,
    quality: u8,
    speed: u8,
    value: u8,
    review: Seq<char>,
    total_ratings: u64,
)
    ensures
        submit_rating_error(true, stars, quality, speed, value, review, total_ratings) == Some(
            ReputationError::DuplicateRating,
        ),
{
}

/// A caller who is not the administrator on record cannot moderate,
/// whatever the decision, the note and the figures of the profile are.
pub proof fn lemma_only_administrator_moderates(
    administrator: Pubkey,
    caller: Pubkey,
    note: Seq<char>,
    is_valid: bool,
    profile: AgentReputationProfile,
    stars: u8,
)
    requires
        caller != administrator,
    ensures
        moderate_rating_error(administrator, caller, note, is_valid, profile, stars) == Some(
            ReputationError::UnauthorizedAdmin,
        ),
{
}

} // verus!
