//! Security checks: input limits, daily rate limits per user, string
//! sanitizing, and escrow id derivation.
use vstd::prelude::*;
use vstd::string::*;
use crate::chain::{seconds, seconds_of, Env, SECONDS_PER_DAY};
use crate::error::{invalid_input, ContractError, ErrorView};
use crate::hash_utils::{hex_chars, hex_encode, lemma_hex_len, sha256, sha256_digest};
use crate::state::{ContractState, RateLimit};
use crate::text::{
    alphanumeric_char, blen, concat3, decimal_chars, is_alphanumeric, is_whitespace, push_char, u64_to_string,
    whitespace_char,
};

verus! {

/// The highest platform fee, in percent.
pub const MAX_PLATFORM_FEE_PERCENT: u64 = 10;
/// The smallest amount an escrow may hold.
pub const MIN_ESCROW_AMOUNT: u128 = 1_000;
/// The longest job, in days.
pub const MAX_JOB_DURATION_DAYS: u64 = 365;
/// The longest title, in bytes.
pub const MAX_TITLE_LENGTH: usize = 100;
/// The longest description, in bytes.
pub const MAX_DESCRIPTION_LENGTH: usize = 10_000;
/// The longest cover letter, in bytes.
pub const MAX_COVER_LETTER_LENGTH: usize = 5_000;
/// The longest comment, in bytes.
pub const MAX_COMMENT_LENGTH: usize = 1_000;
/// The most skills on one record.
pub const MAX_SKILLS_COUNT: usize = 20;
/// The most documents on one record.
pub const MAX_DOCUMENTS_COUNT: usize = 10;
/// The most milestones on one record.
pub const MAX_MILESTONES_COUNT: usize = 10;
/// Jobs a user may post per day.
pub const MAX_JOBS_PER_USER_PER_DAY: u64 = 5;
/// Proposals a user may submit per day.
pub const MAX_PROPOSALS_PER_USER_PER_DAY: u64 = 20;
/// Bounties a user may create per day.
pub const MAX_BOUNTIES_PER_USER_PER_DAY: u64 = 3;
/// Disputes a user may raise per day.
pub const MAX_DISPUTES_PER_USER_PER_DAY: u64 = 2;
/// Escrows a user may create per day.
pub const MAX_ESCROWS_PER_USER_PER_DAY: u64 = 10;
/// Dispute resolutions an admin may make per day.
pub const MAX_ADMIN_ACTIONS_PER_DAY: u64 = 50;

/// Accepts every state; per-transaction guards are not kept.
pub fn reentrancy_guard(state: &ContractState) -> (r: Result<(), ContractError>)
    ensures
        r is Ok,
{
    Ok(())
}

/// Clears the guard stored under the (already validated) global address.
pub fn release_reentrancy_guard(state: &mut ContractState, global: String) -> (r: Result<(), ContractError>)
    requires
        old(state).reentrancy_guards.wf(),
        old(state).reentrancy_guards.entry_seq().len() < usize::MAX,
    ensures
        r is Ok,
        final(state).reentrancy_guards.wf(),
        final(state).reentrancy_guards@ == old(state).reentrancy_guards@.insert(global@, false),
        *final(state) == (ContractState { reentrancy_guards: final(state).reentrancy_guards, ..*old(state) }),
{
    state.reentrancy_guards.insert(global, false);
    Ok(())
}

/// Checks that a platform fee is at most ten percent.
pub fn validate_platform_fee(fee_percent: u64) -> (r: Result<(), ContractError>)
    ensures
        r is Ok <==> fee_percent <= MAX_PLATFORM_FEE_PERCENT,
        r matches Err(e) ==> e == (ContractError::PlatformFeeTooHigh { max: MAX_PLATFORM_FEE_PERCENT }),
{
    if fee_percent > MAX_PLATFORM_FEE_PERCENT {
        return Err(ContractError::PlatformFeeTooHigh { max: MAX_PLATFORM_FEE_PERCENT });
    }
    Ok(())
}

/// Checks that an escrow amount reaches the minimum.
pub fn validate_escrow_amount(amount: u128) -> (r: Result<(), ContractError>)
    ensures
        r is Ok <==> amount >= MIN_ESCROW_AMOUNT,
        r matches Err(e) ==> e@ == (ErrorView::EscrowAmountTooLow { min: decimal_chars(MIN_ESCROW_AMOUNT as nat) }),
{
    if amount < MIN_ESCROW_AMOUNT {
        return Err(ContractError::EscrowAmountTooLow { min: crate::text::u128_to_string(MIN_ESCROW_AMOUNT) });
    }
    Ok(())
}

/// Checks that a job lasts 1 to 365 days.
pub fn validate_job_duration(duration_days: u64) -> (r: Result<(), ContractError>)
    ensures
        r is Ok <==> (duration_days != 0 && duration_days <= MAX_JOB_DURATION_DAYS),
        r matches Err(e) ==> e@ == ErrorView::InvalidInput("Job duration must be between 1 and "@ + decimal_chars(MAX_JOB_DURATION_DAYS as nat) + " days"@),
{
    if duration_days == 0 || duration_days > MAX_JOB_DURATION_DAYS {
        let m = u64_to_string(MAX_JOB_DURATION_DAYS);
        return Err(
            ContractError::InvalidInput { error: concat3("Job duration must be between 1 and ", m.as_str(), " days") },
        );
    }
    Ok(())
}

/// The error refusing the texts of a record, if they break a limit.
pub open spec fn text_inputs_refusal(title: Seq<char>, description: Seq<char>, cover_letter: Option<Seq<char>>, comment: Option<Seq<char>>) -> Option<ErrorView> {
    if title.len() == 0 || blen(title) > MAX_TITLE_LENGTH {
        Some(ErrorView::InvalidInput("Title must be between 1-100 characters"@))
    } else if description.len() == 0 || blen(description) > MAX_DESCRIPTION_LENGTH {
        Some(ErrorView::InvalidInput("Description must be between 1-10000 characters"@))
    } else if cover_letter matches Some(l) && (l.len() == 0 || blen(l) > MAX_COVER_LETTER_LENGTH) {
        Some(ErrorView::InvalidInput("Cover letter must be between 1-5000 characters"@))
    } else if comment matches Some(c) && blen(c) > MAX_COMMENT_LENGTH {
        Some(ErrorView::InvalidInput("Comment must be less than 1000 characters"@))
    } else {
        None
    }
}

/// Whether the texts of a record are within the limits.
pub open spec fn text_inputs_ok(title: Seq<char>, description: Seq<char>, cover_letter: Option<Seq<char>>, comment: Option<Seq<char>>) -> bool {
    text_inputs_refusal(title, description, cover_letter, comment) is None
}

/// The view of an optional string slice.
pub open spec fn opt_view(s: Option<&str>) -> Option<Seq<char>> {
    match s {
        Some(x) => Some(x@),
        None => None,
    }
}

/// Checks the lengths of a title, a description, and optionally a cover letter and a comment.
pub fn validate_text_inputs(title: &str, description: &str, cover_letter: Option<&str>, comment: Option<&str>) -> (r: Result<(), ContractError>)
    ensures
        r is Ok <==> text_inputs_ok(title@, description@, opt_view(cover_letter), opt_view(comment)),
        r matches Err(e) ==> Some(e@) == text_inputs_refusal(title@, description@, opt_view(cover_letter), opt_view(comment)),
{
    if title.is_empty() || title.len() > MAX_TITLE_LENGTH {
        return Err(invalid_input("Title must be between 1-100 characters"));
    }
    if description.is_empty() || description.len() > MAX_DESCRIPTION_LENGTH {
        return Err(invalid_input("Description must be between 1-10000 characters"));
    }
    if let Some(letter) = cover_letter {
        if letter.is_empty() || letter.len() > MAX_COVER_LETTER_LENGTH {
            return Err(invalid_input("Cover letter must be between 1-5000 characters"));
        }
    }
    if let Some(c) = comment {
        if c.len() > MAX_COMMENT_LENGTH {
            return Err(invalid_input("Comment must be less than 1000 characters"));
        }
    }
    Ok(())
}

/// Checks the sizes of the skill, document and milestone lists.
pub fn validate_collections(skills: &Vec<String>, documents: &Vec<String>, milestones_count: usize) -> (r: Result<(), ContractError>)
    ensures
        r is Ok <==> (skills@.len() <= MAX_SKILLS_COUNT && documents@.len() <= MAX_DOCUMENTS_COUNT
            && milestones_count <= MAX_MILESTONES_COUNT),
        r matches Err(e) ==> e@ == ErrorView::InvalidInput(
            if skills@.len() > MAX_SKILLS_COUNT {
                "Maximum 20 skills allowed"@
            } else if documents@.len() > MAX_DOCUMENTS_COUNT {
                "Maximum 10 documents allowed"@
            } else {
                "Maximum 10 milestones allowed"@
            },
        ),
{
    if skills.len() > MAX_SKILLS_COUNT {
        return Err(invalid_input("Maximum 20 skills allowed"));
    }
    if documents.len() > MAX_DOCUMENTS_COUNT {
        return Err(invalid_input("Maximum 10 documents allowed"));
    }
    if milestones_count > MAX_MILESTONES_COUNT {
        return Err(invalid_input("Maximum 10 milestones allowed"));
    }
    Ok(())
}

/// The actions a user can take; some of them are counted per day.
#[derive(Clone, Copy, Debug, PartialEq, Eq, Structural)]
pub enum RateLimitAction {
    PostJob,
    SubmitProposal,
    EditJob,
    EditProposal,
    WithdrawProposal,
    DeleteJob,
    CancelJob,
    AcceptProposal,
    CompleteJob,
    CompleteMilestone,
    ApproveMilestone,
    RaiseDispute,
    ResolveDispute,
    CreateBounty,
    EditBounty,
    CancelBounty,
    SubmitToBounty,
    ReviewBountySubmission,
    SelectBountyWinners,
    CreateEscrow,
    ReleaseEscrow,
    RefundEscrow,
    UpdateProfile,
    SubmitRating,
    EditBountySubmission,
    WithdrawBountySubmission,
    CreateBountyEscrow,
    ReleaseBountyRewards,
}

/// The counters of a user seen for the first time at `now`.
pub open spec fn fresh_rate_limit(now: u64) -> RateLimit {
    RateLimit {
        daily_jobs: 0,
        daily_proposals: 0,
        daily_bounties: 0,
        daily_disputes: 0,
        daily_escrows: 0,
        daily_admin_actions: 0,
        last_reset: now,
    }
}

/// The counters at `now`: cleared once a day has passed since the last reset.
pub open spec fn rate_limit_window(current: Option<RateLimit>, now: u64) -> RateLimit {
    match current {
        None => fresh_rate_limit(now),
        Some(rl) => if seconds_of(now) >= seconds_of(rl.last_reset) + SECONDS_PER_DAY {
            fresh_rate_limit(now)
        } else {
            rl
        },
    }
}

/// The counter that an action draws on and its daily maximum; other actions are not counted.
pub open spec fn counted(rl: RateLimit, action: RateLimitAction) -> Option<(u64, u64)> {
    match action {
        RateLimitAction::PostJob => Some((rl.daily_jobs, MAX_JOBS_PER_USER_PER_DAY)),
        RateLimitAction::SubmitProposal => Some((rl.daily_proposals, MAX_PROPOSALS_PER_USER_PER_DAY)),
        RateLimitAction::CreateBounty => Some((rl.daily_bounties, MAX_BOUNTIES_PER_USER_PER_DAY)),
        RateLimitAction::RaiseDispute => Some((rl.daily_disputes, MAX_DISPUTES_PER_USER_PER_DAY)),
        RateLimitAction::CreateEscrow => Some((rl.daily_escrows, MAX_ESCROWS_PER_USER_PER_DAY)),
        RateLimitAction::ResolveDispute => Some((rl.daily_admin_actions, MAX_ADMIN_ACTIONS_PER_DAY)),
        _ => None,
    }
}

/// Whether the action is refused by the daily limit.
pub open spec fn rate_limited(current: Option<RateLimit>, now: u64, action: RateLimitAction) -> bool {
    counted(rate_limit_window(current, now), action) matches Some((count, max)) && count >= max
}

/// The counters after an allowed action.
pub open spec fn rate_limit_after(current: Option<RateLimit>, now: u64, action: RateLimitAction) -> RateLimit {
    let rl = rate_limit_window(current, now);
    match action {
        RateLimitAction::PostJob => RateLimit { daily_jobs: (rl.daily_jobs + 1) as u64, ..rl },
        RateLimitAction::SubmitProposal => RateLimit { daily_proposals: (rl.daily_proposals + 1) as u64, ..rl },
        RateLimitAction::CreateBounty => RateLimit { daily_bounties: (rl.daily_bounties + 1) as u64, ..rl },
        RateLimitAction::RaiseDispute => RateLimit { daily_disputes: (rl.daily_disputes + 1) as u64, ..rl },
        RateLimitAction::CreateEscrow => RateLimit { daily_escrows: (rl.daily_escrows + 1) as u64, ..rl },
        RateLimitAction::ResolveDispute => RateLimit {
            daily_admin_actions: (rl.daily_admin_actions + 1) as u64,
            ..rl
        },
        _ => rl,
    }
}

/// The description and limit named in the error of a refused action.
pub open spec fn rate_limit_error(action: RateLimitAction) -> (Seq<char>, u64) {
    match action {
        RateLimitAction::PostJob => ("posting jobs"@, MAX_JOBS_PER_USER_PER_DAY),
        RateLimitAction::SubmitProposal => ("submitting proposals"@, MAX_PROPOSALS_PER_USER_PER_DAY),
        RateLimitAction::CreateBounty => ("creating bounties"@, MAX_BOUNTIES_PER_USER_PER_DAY),
        RateLimitAction::RaiseDispute => ("raising disputes"@, MAX_DISPUTES_PER_USER_PER_DAY),
        RateLimitAction::CreateEscrow => ("creating escrows"@, MAX_ESCROWS_PER_USER_PER_DAY),
        _ => ("admin actions"@, MAX_ADMIN_ACTIONS_PER_DAY),
    }
}

/// The rate limit of `user` stored in the state, if any.
pub open spec fn stored_rate_limit(state: &ContractState, user: Seq<char>) -> Option<RateLimit> {
    if state.user_rate_limits@.contains_key(user) {
        Some(state.user_rate_limits@[user])
    } else {
        None
    }
}

fn fresh(now: u64) -> (r: RateLimit)
    ensures
        r == fresh_rate_limit(now),
{
    RateLimit {
        daily_jobs: 0,
        daily_proposals: 0,
        daily_bounties: 0,
        daily_disputes: 0,
        daily_escrows: 0,
        daily_admin_actions: 0,
        last_reset: now,
    }
}

fn exceeded(action: &str, limit: u64) -> (e: ContractError)
    ensures
        e matches ContractError::RateLimitExceeded { action: a, limit: l } && a@ == action@ && l == limit,
{
    ContractError::RateLimitExceeded { action: String::from_str(action), limit }
}

/// The counters after `action` at `now`, or the error that refuses it.
pub fn next_rate_limit(current: Option<&RateLimit>, now: u64, action: RateLimitAction) -> (r: Result<RateLimit, ContractError>)
    ensures
        ({
            let cur = match current {
                Some(c) => Some(*c),
                None => None,
            };
            &&& r is Ok <==> !rate_limited(cur, now, action)
            &&& r matches Ok(rl) ==> rl == rate_limit_after(cur, now, action)
            &&& r matches Err(e) ==> e matches ContractError::RateLimitExceeded { action: a, limit } && a@
                == rate_limit_error(action).0 && limit == rate_limit_error(action).1
        }),
{
    let mut rl = match current {
        Some(c) => c.copy(),
        None => fresh(now),
    };
    if current.is_some() && seconds(now) >= seconds(rl.last_reset) + SECONDS_PER_DAY {
        rl = fresh(now);
    }
    match action {
        RateLimitAction::PostJob => {
            if rl.daily_jobs >= MAX_JOBS_PER_USER_PER_DAY {
                return Err(exceeded("posting jobs", MAX_JOBS_PER_USER_PER_DAY));
            }
            rl.daily_jobs = rl.daily_jobs + 1;
        },
        RateLimitAction::SubmitProposal => {
            if rl.daily_proposals >= MAX_PROPOSALS_PER_USER_PER_DAY {
                return Err(exceeded("submitting proposals", MAX_PROPOSALS_PER_USER_PER_DAY));
            }
            rl.daily_proposals = rl.daily_proposals + 1;
        },
        RateLimitAction::CreateBounty => {
            if rl.daily_bounties >= MAX_BOUNTIES_PER_USER_PER_DAY {
                return Err(exceeded("creating bounties", MAX_BOUNTIES_PER_USER_PER_DAY));
            }
            rl.daily_bounties = rl.daily_bounties + 1;
        },
        RateLimitAction::RaiseDispute => {
            if rl.daily_disputes >= MAX_DISPUTES_PER_USER_PER_DAY {
                return Err(exceeded("raising disputes", MAX_DISPUTES_PER_USER_PER_DAY));
            }
            rl.daily_disputes = rl.daily_disputes + 1;
        },
        RateLimitAction::CreateEscrow => {
            if rl.daily_escrows >= MAX_ESCROWS_PER_USER_PER_DAY {
                return Err(exceeded("creating escrows", MAX_ESCROWS_PER_USER_PER_DAY));
            }
            rl.daily_escrows = rl.daily_escrows + 1;
        },
        RateLimitAction::ResolveDispute => {
            if rl.daily_admin_actions >= MAX_ADMIN_ACTIONS_PER_DAY {
                return Err(exceeded("admin actions", MAX_ADMIN_ACTIONS_PER_DAY));
            }
            rl.daily_admin_actions = rl.daily_admin_actions + 1;
        },
        _ => {},
    }
    Ok(rl)
}

/// Counts `action` against the daily limits of `user`, refusing it once a limit is reached.
pub fn check_rate_limit(state: &mut ContractState, env: &Env, user: &str, action: RateLimitAction) -> (r: Result<(), ContractError>)
    requires
        old(state).user_rate_limits.wf(),
        old(state).user_rate_limits.entry_seq().len() < usize::MAX || old(state).user_rate_limits@.contains_key(user@),
    ensures
        final(state).user_rate_limits.wf(),
        r is Ok <==> !rate_limited(stored_rate_limit(old(state), user@), env.time, action),
        r is Ok ==> final(state).user_rate_limits@ == old(state).user_rate_limits@.insert(
            user@,
            rate_limit_after(stored_rate_limit(old(state), user@), env.time, action),
        ),
        r is Err ==> *final(state) == *old(state),
        r matches Err(e) ==> e@ == (ErrorView::RateLimitExceeded { action: rate_limit_error(action).0, limit: rate_limit_error(action).1 }),
        *final(state) == (ContractState { user_rate_limits: final(state).user_rate_limits, ..*old(state) }),
        final(state).user_rate_limits.entry_seq().len() <= old(state).user_rate_limits.entry_seq().len() + 1,
        r is Ok ==> final(state).user_rate_limits@.contains_key(user@),
        old(state).user_rate_limits@.contains_key(user@) ==> final(state).user_rate_limits.entry_seq().len()
            == old(state).user_rate_limits.entry_seq().len(),
{
    let next = next_rate_limit(state.user_rate_limits.get(user), env.time, action);
    match next {
        Ok(rl) => {
            state.user_rate_limits.insert(String::from_str(user), rl);
            Ok(())
        },
        Err(e) => Err(e),
    }
}

/// Checks that a deadline lies after the current time.
pub fn validate_deadline(deadline: u64, current_time: u64) -> (r: Result<(), ContractError>)
    ensures
        r is Ok <==> deadline > current_time,
        r matches Err(e) ==> e is InvalidDeadline,
{
    if deadline <= current_time {
        return Err(ContractError::InvalidDeadline {  });
    }
    Ok(())
}

/// Checks that a rating lies between 1 and 5.
pub fn validate_rating(rating: u8) -> (r: Result<(), ContractError>)
    ensures
        r is Ok <==> (1 <= rating <= 5),
        r matches Err(e) ==> e@ == ErrorView::InvalidInput("Rating must be between 1-5"@),
{
    if rating == 0 || rating > 5 {
        return Err(invalid_input("Rating must be between 1-5"));
    }
    Ok(())
}

/// The punctuation that sanitizing keeps.
pub open spec fn allowed_punctuation() -> Seq<char> {
    ".,!?-_()[]{}@#$%^&*+=:;'\"<>/\\|`~"@
}

/// Whether sanitizing keeps a character.
pub open spec fn kept_char(c: char) -> bool {
    alphanumeric_char(c) || whitespace_char(c) || allowed_punctuation().contains(c)
}

/// `s` without leading whitespace.
pub open spec fn trim_start_chars(s: Seq<char>) -> Seq<char>
    decreases s.len(),
{
    if s.len() > 0 && whitespace_char(s[0]) {
        trim_start_chars(s.drop_first())
    } else {
        s
    }
}

/// `s` without trailing whitespace.
pub open spec fn trim_end_chars(s: Seq<char>) -> Seq<char>
    decreases s.len(),
{
    if s.len() > 0 && whitespace_char(s.last()) {
        trim_end_chars(s.drop_last())
    } else {
        s
    }
}

/// The sanitized form of a text: disallowed characters dropped, then trimmed.
pub open spec fn sanitized_chars(s: Seq<char>) -> Seq<char> {
    trim_end_chars(trim_start_chars(s.filter(|c: char| kept_char(c))))
}

/// Trimming the start keeps a suffix: every character of the result is one of the input's at
/// the same distance from the end, and the result does not start with whitespace.
proof fn lemma_trim_start(s: Seq<char>)
    ensures
        trim_start_chars(s).len() <= s.len(),
        forall|i: int| 0 <= i < trim_start_chars(s).len()
            ==> #[trigger] trim_start_chars(s)[i] == s[i + s.len() - trim_start_chars(s).len()],
        trim_start_chars(s).len() > 0 ==> !whitespace_char(trim_start_chars(s)[0]),
    decreases s.len(),
{
    if s.len() > 0 && whitespace_char(s[0]) {
        lemma_trim_start(s.drop_first());
    }
}

/// Trimming the end keeps a prefix that does not end with whitespace.
proof fn lemma_trim_end(s: Seq<char>)
    ensures
        trim_end_chars(s).len() <= s.len(),
        forall|i: int| 0 <= i < trim_end_chars(s).len() ==> #[trigger] trim_end_chars(s)[i] == s[i],
        trim_end_chars(s).len() > 0 ==> !whitespace_char(trim_end_chars(s).last()),
    decreases s.len(),
{
    if s.len() > 0 && whitespace_char(s.last()) {
        lemma_trim_end(s.drop_last());
    }
}

/// Filtering a text whose characters are all kept leaves it as it is.
proof fn lemma_filter_all_kept(s: Seq<char>)
    requires
        forall|i: int| 0 <= i < s.len() ==> kept_char(#[trigger] s[i]),
    ensures
        s.filter(|c: char| kept_char(c)) == s,
    decreases s.len(),
{
    reveal(Seq::filter);
    if s.len() > 0 {
        lemma_filter_all_kept(s.drop_last());
        assert(s.drop_last().push(s.last()) =~= s);
    }
}

/// A sanitized text is kept whole by sanitizing it again.
pub proof fn lemma_sanitize_idempotent(s: Seq<char>)
    ensures
        sanitized_chars(sanitized_chars(s)) == sanitized_chars(s),
{
    let f = s.filter(|c: char| kept_char(c));
    assert forall|i: int| 0 <= i < f.len() implies kept_char(#[trigger] f[i]) by {
        s.lemma_filter_pred(|c: char| kept_char(c), i);
    }
    let a = trim_start_chars(f);
    lemma_trim_start(f);
    let t = trim_end_chars(a);
    lemma_trim_end(a);
    assert forall|i: int| 0 <= i < t.len() implies kept_char(#[trigger] t[i]) by {
        assert(t[i] == a[i]);
        assert(a[i] == f[i + f.len() - a.len()]);
    }
    lemma_filter_all_kept(t);
    if t.len() > 0 {
        assert(t[0] == a[0]);
    }
    assert(trim_start_chars(t) == t);
    assert(trim_end_chars(t) == t);
}

fn is_allowed_punctuation(c: char) -> (r: bool)
    ensures
        r == allowed_punctuation().contains(c),
{
    let p = ".,!?-_()[]{}@#$%^&*+=:;'\"<>/\\|`~";
    let n = p.unicode_len();
    let mut i: usize = 0;
    while i < n
        invariant
            n == p@.len(),
            p@ == allowed_punctuation(),
            i <= n,
            forall|j: int| 0 <= j < i ==> p@[j] != c,
        decreases n - i,
    {
        if p.get_char(i) == c {
            return true;
        }
        i = i + 1;
    }
    false
}

proof fn lemma_trim_start_step(s: Seq<char>, i: int)
    requires
        0 <= i < s.len(),
        whitespace_char(s[i]),
    ensures
        trim_start_chars(s.subrange(i, s.len() as int)) == trim_start_chars(s.subrange(i + 1, s.len() as int)),
{
    assert(s.subrange(i, s.len() as int).drop_first() =~= s.subrange(i + 1, s.len() as int));
}

proof fn lemma_trim_end_step(s: Seq<char>, j: int)
    requires
        0 < j <= s.len(),
        whitespace_char(s[j - 1]),
    ensures
        trim_end_chars(s.subrange(0, j)) == trim_end_chars(s.subrange(0, j - 1)),
{
    assert(s.subrange(0, j).drop_last() =~= s.subrange(0, j - 1));
}

/// Keeps letters, digits, whitespace and common punctuation, then trims surrounding whitespace.
pub fn sanitize_string(input: &str) -> (r: String)
    ensures
        r@ == sanitized_chars(input@),
{
    let ghost keep = |c: char| kept_char(c);
    let n = input.unicode_len();
    let mut kept: Vec<char> = Vec::new();
    let mut i: usize = 0;
    while i < n
        invariant
            n == input@.len(),
            i <= n,
            kept@ == input@.subrange(0, i as int).filter(keep),
            forall|x: char| #[trigger] keep(x) == kept_char(x),
        decreases n - i,
    {
        let c = input.get_char(i);
        proof {
            assert(input@.subrange(0, i + 1) =~= input@.subrange(0, i as int).push(c));
            input@.subrange(0, i as int).lemma_filter_push(c, keep);
        }
        let k = is_alphanumeric(c) || is_whitespace(c) || is_allowed_punctuation(c);
        if k {
            kept.push(c);
        }
        i = i + 1;
    }
    assert(input@.subrange(0, n as int) =~= input@);
    let ghost f = kept@;
    let m = kept.len();
    let mut start: usize = 0;
    assert(f.subrange(0, m as int) =~= f);
    while start < m && is_whitespace(kept[start])
        invariant
            m == f.len(),
            kept@ == f,
            start <= m,
            trim_start_chars(f) == trim_start_chars(f.subrange(start as int, m as int)),
        decreases m - start,
    {
        proof {
            lemma_trim_start_step(f, start as int);
        }
        start = start + 1;
    }
    let ghost t = f.subrange(start as int, m as int);
    assert(trim_start_chars(t) == t) by {
        if t.len() > 0 {
            assert(t[0] == f[start as int]);
        }
    }
    let mut end: usize = m;
    assert(t.subrange(0, t.len() as int) =~= t);
    while end > start && is_whitespace(kept[end - 1])
        invariant
            m == f.len(),
            kept@ == f,
            start <= end <= m,
            t == f.subrange(start as int, m as int),
            trim_end_chars(t) == trim_end_chars(t.subrange(0, end - start)),
        decreases end,
    {
        proof {
            assert(t[end - start - 1] == f[end - 1]);
            lemma_trim_end_step(t, end - start);
        }
        end = end - 1;
    }
    let ghost u = t.subrange(0, end - start);
    assert(trim_end_chars(u) == u) by {
        if u.len() > 0 {
            assert(u.last() == f[end - 1]);
        }
    }
    let mut out = String::new();
    let mut k: usize = start;
    while k < end
        invariant
            kept@ == f,
            start <= k <= end <= m,
            m == f.len(),
            out@ == f.subrange(start as int, k as int),
        decreases end - k,
    {
        push_char(&mut out, kept[k]);
        assert(out@ =~= f.subrange(start as int, k + 1));
        k = k + 1;
    }
    assert(u =~= f.subrange(start as int, end as int));
    out
}

/// The escrow id input `<job_id>:<client>:<freelancer>:<timestamp>`.
pub open spec fn escrow_id_input(job_id: u64, client: Seq<char>, freelancer: Seq<char>, timestamp: u64) -> Seq<char> {
    decimal_chars(job_id as nat) + ":"@ + client + ":"@ + freelancer + ":"@ + decimal_chars(timestamp as nat)
}

/// The first sixteen hex digits of the SHA-256 digest of the escrow id input.
pub open spec fn escrow_id_chars(job_id: u64, client: Seq<char>, freelancer: Seq<char>, timestamp: u64) -> Seq<char> {
    hex_chars(sha256_digest(vstd::utf8::encode_utf8(escrow_id_input(job_id, client, freelancer, timestamp)))).subrange(0, 16)
}

/// A sixteen-character id derived from a job, its parties and a time.
pub fn generate_escrow_id(job_id: u64, client: &str, freelancer: &str, timestamp: u64) -> (r: String)
    ensures
        r@ == escrow_id_chars(job_id, client@, freelancer@, timestamp),
        r@.len() == 16,
        forall|i: int| 0 <= i < 16 ==> crate::hash_utils::is_lower_hex_digit(#[trigger] r@[i]),
{
    let a = u64_to_string(job_id);
    let b = concat3(a.as_str(), ":", client);
    let c = concat3(b.as_str(), ":", freelancer);
    let d = u64_to_string(timestamp);
    let input = concat3(c.as_str(), ":", d.as_str());
    assert(input@ =~= escrow_id_input(job_id, client@, freelancer@, timestamp));
    let digest = sha256(input.as_str().as_bytes());
    let hex = hex_encode(digest.as_slice());
    proof {
        lemma_hex_len(digest@);
        crate::hash_utils::lemma_hex_digits(digest@);
    }
    let s = hex.as_str().substring_char(0, 16);
    String::from_str(s)
}

} // verus!
