//! Input checks, arithmetic and classification helpers used across the contract.
use vstd::prelude::*;
use crate::chain::{days_after, plus_days};
use crate::error::{invalid_input, ContractError, ErrorView};
use crate::state::ContractState;
use crate::text::{blen, decimal_chars, lowercase_chars, str_eq, to_lowercase, u128_to_string, u64_to_string, concat3};

verus! {

/// Whether a title has 5 to 100 bytes.
pub open spec fn valid_job_title(title: Seq<char>) -> bool {
    5 <= blen(title) <= 100
}

/// Checks that a job title has 5 to 100 bytes.
pub fn validate_job_title(title: &str) -> (r: Result<(), ContractError>)
    ensures
        r is Ok <==> valid_job_title(title@),
        r matches Err(e) ==> e@ == ErrorView::InvalidInput("Title must be between 5-100 characters"@),
{
    if title.len() < 5 || title.len() > 100 {
        return Err(invalid_input("Title must be between 5-100 characters"));
    }
    Ok(())
}

/// Whether a description has 10 to 1000 bytes.
pub open spec fn valid_job_description(description: Seq<char>) -> bool {
    10 <= blen(description) <= 1000
}

/// Checks that a job description has 10 to 1000 bytes.
pub fn validate_job_description(description: &str) -> (r: Result<(), ContractError>)
    ensures
        r is Ok <==> valid_job_description(description@),
        r matches Err(e) ==> e@ == ErrorView::InvalidInput("Description must be between 10-1000 characters"@),
{
    if description.len() < 10 || description.len() > 1000 {
        return Err(invalid_input("Description must be between 10-1000 characters"));
    }
    Ok(())
}

/// The smallest budget of a paid project.
pub const MIN_PAID_BUDGET: u128 = 1_000u128;

/// Checks a budget: free (zero) or at least the minimum for a paid project.
pub fn validate_budget(budget: u128) -> (r: Result<(), ContractError>)
    ensures
        r is Ok <==> (budget == 0 || budget >= MIN_PAID_BUDGET),
        r matches Err(e) ==> e@ == (ErrorView::EscrowAmountTooLow { min: decimal_chars(MIN_PAID_BUDGET as nat) }),
{
    if budget == 0 {
        return Ok(());
    }
    if budget < MIN_PAID_BUDGET {
        return Err(ContractError::EscrowAmountTooLow { min: u128_to_string(MIN_PAID_BUDGET) });
    }
    Ok(())
}

/// Checks that a duration lies between 1 and `max_duration` days.
pub fn validate_duration(duration_days: u64, max_duration: u64) -> (r: Result<(), ContractError>)
    ensures
        r is Ok <==> (duration_days != 0 && duration_days <= max_duration),
        r matches Err(e) ==> e@ == ErrorView::InvalidInput("Duration must be between 1-"@ + decimal_chars(max_duration as nat) + " days"@),
{
    if duration_days == 0 || duration_days > max_duration {
        let m = u64_to_string(max_duration);
        return Err(ContractError::InvalidInput { error: concat3("Duration must be between 1-", m.as_str(), " days") });
    }
    Ok(())
}

/// Checks that a cover letter has 1 to 2000 bytes.
pub fn validate_cover_letter(cover_letter: &str) -> (r: Result<(), ContractError>)
    ensures
        r is Ok <==> (cover_letter@.len() > 0 && blen(cover_letter@) <= 2000),
        r matches Err(e) ==> e@ == ErrorView::InvalidInput("Cover letter must be between 1-2000 characters"@),
{
    if cover_letter.is_empty() || cover_letter.len() > 2000 {
        return Err(invalid_input("Cover letter must be between 1-2000 characters"));
    }
    Ok(())
}

/// Checks that a rating lies between 1 and 5.
pub fn validate_rating(rating: u8) -> (r: Result<(), ContractError>)
    ensures
        r is Ok <==> (1 <= rating <= 5),
        r matches Err(e) ==> e@ == ErrorView::InvalidInput("Rating must be between 1-5"@),
{
    if rating == 0 || rating > 5 {
        return Err(invalid_input("Rating must be between 1-5"));
    }
    Ok(())
}

/// Checks that a deadline lies after the current time.
pub fn validate_deadline(deadline: u64, current_time: u64) -> (r: Result<(), ContractError>)
    ensures
        r is Ok <==> deadline > current_time,
        r matches Err(e) ==> e is InvalidDeadline,
{
    if deadline <= current_time {
        return Err(ContractError::InvalidDeadline {  });
    }
    Ok(())
}

/// Fails while the contract is paused.
pub fn ensure_not_paused(state: &ContractState) -> (r: Result<(), ContractError>)
    ensures
        r is Ok <==> !state.config.paused,
        r matches Err(e) ==> e is ContractPaused,
{
    if state.config.paused {
        return Err(ContractError::ContractPaused {  });
    }
    Ok(())
}

/// Fails unless `sender` is the admin.
pub fn ensure_admin(state: &ContractState, sender: &str) -> (r: Result<(), ContractError>)
    ensures
        r is Ok <==> sender@ == state.config.admin@,
        r matches Err(e) ==> e is Unauthorized,
{
    if !str_eq(sender, state.config.admin.as_str()) {
        return Err(ContractError::Unauthorized {  });
    }
    Ok(())
}

/// `amount * percentage / 100`, refusing percentages above 100 and overflow.
pub fn safe_multiply_percentage(amount: u128, percentage: u64) -> (r: Result<u128, ContractError>)
    ensures
        percentage > 100 ==> (r matches Err(ContractError::InvalidInput { error }) && error@
            == "Percentage cannot exceed 100"@),
        percentage <= 100 && amount * percentage > u128::MAX ==> (r matches Err(
            ContractError::InvalidInput { error },
        ) && error@ == "Arithmetic overflow in percentage calculation"@),
        percentage <= 100 && amount * percentage <= u128::MAX ==> r == Ok::<u128, ContractError>(
            ((amount * percentage) / 100) as u128,
        ),
{
    if percentage > 100 {
        return Err(invalid_input("Percentage cannot exceed 100"));
    }
    match amount.checked_mul(percentage as u128) {
        Some(multiplied) => Ok(multiplied / 100),
        None => Err(invalid_input("Arithmetic overflow in percentage calculation")),
    }
}

/// The time `days` days after `current`.
pub fn get_future_timestamp(current: u64, days: u64) -> (r: u64)
    requires
        days_after(current, days) <= u64::MAX,
    ensures
        r == days_after(current, days),
{
    plus_days(current, days)
}

/// Whether `deadline` has passed at `current`.
pub fn is_expired(deadline: u64, current: u64) -> (r: bool)
    ensures
        r == (current > deadline),
{
    current > deadline
}

/// The category number of a lowercased category name.
pub open spec fn category_id_of(lower: Seq<char>) -> u8 {
    if lower == "web development"@ || lower == "web"@ {
        1
    } else if lower == "mobile development"@ || lower == "mobile"@ {
        2
    } else if lower == "design"@ || lower == "ui/ux"@ {
        3
    } else if lower == "writing"@ || lower == "content writing"@ {
        4
    } else if lower == "marketing"@ || lower == "digital marketing"@ {
        5
    } else if lower == "blockchain"@ || lower == "smart contracts"@ {
        6
    } else if lower == "data science"@ || lower == "machine learning"@ {
        7
    } else if lower == "devops"@ || lower == "infrastructure"@ {
        8
    } else if lower == "testing"@ || lower == "qa"@ {
        9
    } else if lower == "video editing"@ || lower == "video production"@ {
        10
    } else {
        99
    }
}

/// Maps a category name, in any case, to its number (99 for any other).
pub fn convert_category_to_id(category: &str) -> (r: u8)
    ensures
        r == category_id_of(lowercase_chars(category@)),
{
    let lower = to_lowercase(category);
    let l = lower.as_str();
    if str_eq(l, "web development") || str_eq(l, "web") {
        1
    } else if str_eq(l, "mobile development") || str_eq(l, "mobile") {
        2
    } else if str_eq(l, "design") || str_eq(l, "ui/ux") {
        3
    } else if str_eq(l, "writing") || str_eq(l, "content writing") {
        4
    } else if str_eq(l, "marketing") || str_eq(l, "digital marketing") {
        5
    } else if str_eq(l, "blockchain") || str_eq(l, "smart contracts") {
        6
    } else if str_eq(l, "data science") || str_eq(l, "machine learning") {
        7
    } else if str_eq(l, "devops") || str_eq(l, "infrastructure") {
        8
    } else if str_eq(l, "testing") || str_eq(l, "qa") {
        9
    } else if str_eq(l, "video editing") || str_eq(l, "video production") {
        10
    } else {
        99
    }
}

/// The skill number of a lowercased skill name.
pub open spec fn skill_id_of(lower: Seq<char>) -> u8 {
    if lower == "rust"@ {
        1
    } else if lower == "javascript"@ || lower == "js"@ {
        2
    } else if lower == "typescript"@ || lower == "ts"@ {
        3
    } else if lower == "python"@ {
        4
    } else if lower == "react"@ {
        5
    } else if lower == "vue"@ {
        6
    } else if lower == "angular"@ {
        7
    } else if lower == "nodejs"@ || lower == "node"@ {
        8
    } else if lower == "solidity"@ {
        9
    } else if lower == "cosmwasm"@ {
        10
    } else if lower == "html"@ {
        11
    } else if lower == "css"@ {
        12
    } else if lower == "figma"@ {
        13
    } else if lower == "photoshop"@ {
        14
    } else if lower == "illustrator"@ {
        15
    } else if lower == "after effects"@ {
        16
    } else if lower == "premiere pro"@ {
        17
    } else if lower == "copywriting"@ {
        18
    } else if lower == "seo"@ {
        19
    } else if lower == "social media"@ {
        20
    } else if lower == "aws"@ {
        21
    } else if lower == "docker"@ {
        22
    } else if lower == "kubernetes"@ {
        23
    } else if lower == "postgresql"@ {
        24
    } else if lower == "mongodb"@ {
        25
    } else {
        99
    }
}

/// Maps a skill name, in any case, to its number (99 for any other).
pub fn convert_skill_to_id(skill: &str) -> (r: u8)
    ensures
        r == skill_id_of(lowercase_chars(skill@)),
{
    let lower = to_lowercase(skill);
    let l = lower.as_str();
    if str_eq(l, "rust") {
        1
    } else if str_eq(l, "javascript") || str_eq(l, "js") {
        2
    } else if str_eq(l, "typescript") || str_eq(l, "ts") {
        3
    } else if str_eq(l, "python") {
        4
    } else if str_eq(l, "react") {
        5
    } else if str_eq(l, "vue") {
        6
    } else if str_eq(l, "angular") {
        7
    } else if str_eq(l, "nodejs") || str_eq(l, "node") {
        8
    } else if str_eq(l, "solidity") {
        9
    } else if str_eq(l, "cosmwasm") {
        10
    } else if str_eq(l, "html") {
        11
    } else if str_eq(l, "css") {
        12
    } else if str_eq(l, "figma") {
        13
    } else if str_eq(l, "photoshop") {
        14
    } else if str_eq(l, "illustrator") {
        15
    } else if str_eq(l, "after effects") {
        16
    } else if str_eq(l, "premiere pro") {
        17
    } else if str_eq(l, "copywriting") {
        18
    } else if str_eq(l, "seo") {
        19
    } else if str_eq(l, "social media") {
        20
    } else if str_eq(l, "aws") {
        21
    } else if str_eq(l, "docker") {
        22
    } else if str_eq(l, "kubernetes") {
        23
    } else if str_eq(l, "postgresql") {
        24
    } else if str_eq(l, "mongodb") {
        25
    } else {
        99
    }
}

/// Maps every skill name to its number, keeping the order.
pub fn convert_skills_to_ids(skills: &Vec<String>) -> (r: Vec<u8>)
    ensures
        r@.len() == skills@.len(),
        forall|i: int| 0 <= i < skills@.len() ==> r@[i] == skill_id_of(lowercase_chars(#[trigger] skills@[i]@)),
{
    let mut r: Vec<u8> = Vec::new();
    let mut i: usize = 0;
    while i < skills.len()
        invariant
            i <= skills@.len(),
            r@.len() == i,
            forall|j: int| 0 <= j < i ==> r@[j] == skill_id_of(lowercase_chars(#[trigger] skills@[j]@)),
        decreases skills@.len() - i,
    {
        r.push(convert_skill_to_id(skills[i].as_str()));
        i = i + 1;
    }
    r
}

/// The reward band of an amount: below 100 million, below a billion, or above.
pub open spec fn reward_range_of(amount: u128) -> u8 {
    if amount < 100_000_000 {
        1
    } else if amount < 1_000_000_000 {
        2
    } else {
        3
    }
}

/// The reward band of an amount (1 low, 2 medium, 3 high).
pub fn calculate_reward_range(reward: u128) -> (r: u8)
    ensures
        r == reward_range_of(reward),
{
    if reward < 100_000_000 {
        1
    } else if reward < 1_000_000_000 {
        2
    } else {
        3
    }
}

/// Whether a lowercased skill is one of the advanced ones.
pub open spec fn is_advanced_skill(lower: Seq<char>) -> bool {
    lower == "rust"@ || lower == "solidity"@ || lower == "cosmwasm"@ || lower == "machine learning"@ || lower
        == "blockchain"@ || lower == "kubernetes"@
}

/// Whether a lowercased skill is one of the intermediate ones.
pub open spec fn is_intermediate_skill(lower: Seq<char>) -> bool {
    lower == "typescript"@ || lower == "react"@ || lower == "vue"@ || lower == "angular"@ || lower == "nodejs"@
        || lower == "python"@
}

/// The difficulty of a skill list: 3 with an advanced skill, else 2 with an
/// intermediate one, else 1.
pub open spec fn difficulty_of(skills: Seq<String>) -> u8 {
    if exists|i: int| 0 <= i < skills.len() && is_advanced_skill(lowercase_chars(#[trigger] skills[i]@)) {
        3
    } else if exists|i: int| 0 <= i < skills.len() && is_intermediate_skill(lowercase_chars(#[trigger] skills[i]@)) {
        2
    } else {
        1
    }
}

fn skill_level(skill: &str) -> (r: u8)
    ensures
        r == (if is_advanced_skill(lowercase_chars(skill@)) {
            3u8
        } else if is_intermediate_skill(lowercase_chars(skill@)) {
            2u8
        } else {
            1u8
        }),
{
    let lower = to_lowercase(skill);
    let l = lower.as_str();
    if str_eq(l, "rust") || str_eq(l, "solidity") || str_eq(l, "cosmwasm") || str_eq(l, "machine learning")
        || str_eq(l, "blockchain") || str_eq(l, "kubernetes") {
        3
    } else if str_eq(l, "typescript") || str_eq(l, "react") || str_eq(l, "vue") || str_eq(l, "angular")
        || str_eq(l, "nodejs") || str_eq(l, "python") {
        2
    } else {
        1
    }
}

/// The difficulty level of a bounty from its skills (3 expert, 2 intermediate, 1 entry).
pub fn calculate_difficulty_from_skills(skills: &Vec<String>) -> (r: u8)
    ensures
        r == difficulty_of(skills@),
{
    let mut has_advanced = false;
    let mut has_intermediate = false;
    let mut i: usize = 0;
    while i < skills.len()
        invariant
            i <= skills@.len(),
            has_advanced == exists|j: int| 0 <= j < i && is_advanced_skill(lowercase_chars(#[trigger] skills@[j]@)),
            has_intermediate == exists|j: int| 0 <= j < i && is_intermediate_skill(
                lowercase_chars(#[trigger] skills@[j]@),
            ),
        decreases skills@.len() - i,
    {
        let level = skill_level(skills[i].as_str());
        if level == 3 {
            has_advanced = true;
        }
        if is_intermediate_skill_exec(skills[i].as_str()) {
            has_intermediate = true;
        }
        i = i + 1;
    }
    if has_advanced {
        3
    } else if has_intermediate {
        2
    } else {
        1
    }
}

fn is_intermediate_skill_exec(skill: &str) -> (r: bool)
    ensures
        r == is_intermediate_skill(lowercase_chars(skill@)),
{
    let lower = to_lowercase(skill);
    let l = lower.as_str();
    str_eq(l, "typescript") || str_eq(l, "react") || str_eq(l, "vue") || str_eq(l, "angular") || str_eq(l, "nodejs")
        || str_eq(l, "python")
}

/// The hourly rate assumed for a difficulty level.
pub open spec fn hourly_rate_of(difficulty: u8) -> u128 {
    if difficulty == 1 {
        15_000_000
    } else if difficulty == 2 {
        30_000_000
    } else if difficulty == 3 {
        60_000_000
    } else {
        25_000_000
    }
}

/// The estimated hours: reward over hourly rate, cut to 16 bits, then kept within 1..=500.
pub open spec fn estimated_hours_of(reward: u128, difficulty: u8) -> u16 {
    let h = (reward / hourly_rate_of(difficulty)) % 65536;
    if h < 1 {
        1
    } else if h > 500 {
        500
    } else {
        h as u16
    }
}

/// Estimates the hours of work that a reward pays for at the difficulty's hourly rate.
pub fn estimate_hours_from_reward_and_difficulty(reward: u128, difficulty: u8) -> (r: u16)
    ensures
        r == estimated_hours_of(reward, difficulty),
{
    let hourly_rate: u128 = if difficulty == 1 {
        15_000_000
    } else if difficulty == 2 {
        30_000_000
    } else if difficulty == 3 {
        60_000_000
    } else {
        25_000_000
    };
    let h: u128 = (reward / hourly_rate) % 65536;
    if h < 1 {
        1
    } else if h > 500 {
        500
    } else {
        h as u16
    }
}

/// `value * numerator / denominator`, rounded down, computed without an intermediate overflow.
pub fn multiply_ratio(value: u128, numerator: u64, denominator: u64) -> (r: u128)
    requires
        denominator > 0,
        (value * numerator) / (denominator as int) <= u128::MAX,
    ensures
        r == (value * numerator) / (denominator as int),
{
    let d = denominator as u128;
    let q = value / d;
    let rem = value % d;
    assert(value == q * d + rem) by (nonlinear_arith)
        requires
            d > 0,
            q == value / d,
            rem == value % d,
    ;
    assert(rem * numerator < 0x1_0000_0000_0000_0000 * 0x1_0000_0000_0000_0000) by (nonlinear_arith)
        requires
            rem < d,
            d <= 0xffff_ffff_ffff_ffff,
            numerator <= 0xffff_ffff_ffff_ffff,
    ;
    let low = (rem * (numerator as u128)) / d;
    assert((value * numerator) / (d as int) == q * numerator + low) by (nonlinear_arith)
        requires
            d > 0,
            value == q * d + rem,
            0 <= rem < d,
            low == (rem * numerator) / (d as int),
    {
        assert(value * numerator == (q * numerator) * d + rem * numerator);
        vstd::arithmetic::div_mod::lemma_fundamental_div_mod_converse(
            value * numerator,
            d as int,
            q * numerator + low,
            (rem * numerator) % (d as int),
        );
    }
    assert(q * numerator <= (value * numerator) / (d as int));
    q * (numerator as u128) + low
}

/// Whether a stored rating is about `user`.
pub open spec fn rates_user(user: Seq<char>) -> spec_fn((String, crate::state::Rating)) -> bool {
    |e: (String, crate::state::Rating)| e.1.rated@ == user
}

/// The sum of the ratings in a list of stored entries.
pub open spec fn rating_total(entries: Seq<(String, crate::state::Rating)>) -> nat
    decreases entries.len(),
{
    if entries.len() == 0 {
        0
    } else {
        rating_total(entries.drop_last()) + entries.last().1.rating as nat
    }
}

/// The ratings stored about `user`.
pub open spec fn ratings_about(state: &ContractState, user: Seq<char>) -> Seq<(String, crate::state::Rating)> {
    state.ratings.entry_seq().filter(rates_user(user))
}

/// The average of the ratings about `user`, as a decimal's atomics: zero when there are none.
pub open spec fn average_rating_atomics(state: &ContractState, user: Seq<char>) -> nat {
    let rs = ratings_about(state, user);
    if rs.len() == 0 {
        0
    } else {
        crate::decimal::ratio_atomics(rating_total(rs), rs.len())
    }
}

proof fn lemma_average_at_most_five(sum: nat, n: nat)
    requires
        n > 0,
        sum <= 5 * n,
    ensures
        crate::decimal::ratio_atomics(sum, n) <= 5 * crate::decimal::DECIMAL_FRACTIONAL,
{
    let f = crate::decimal::DECIMAL_FRACTIONAL as nat;
    assert(sum * f <= (5 * f) * n) by (nonlinear_arith)
        requires
            sum <= 5 * n,
    ;
    assert((sum * f) / n <= 5 * f) by (nonlinear_arith)
        requires
            sum * f <= (5 * f) * n,
            n > 0,
    ;
}

/// The average of the ratings about `user` and how many there are.
pub fn calculate_user_average_rating(state: &ContractState, user: &str) -> (r: Result<(crate::decimal::Decimal, u64), crate::error::StdError>)
    requires
        state.wf(),
        state.ratings.entry_seq().len() * 5 <= u64::MAX,
    ensures
        r matches Ok((avg, n)) && {
            &&& n == ratings_about(state, user@).len()
            &&& avg.atomics == average_rating_atomics(state, user@)
            &&& avg.atomics <= 5 * crate::decimal::DECIMAL_FRACTIONAL
        },
{
    let ghost entries = state.ratings.entry_seq();
    let ghost pred = rates_user(user@);
    proof {
        state.ratings.lemma_entry_seq();
        assert forall|j: int| 0 <= j < entries.len() implies #[trigger] entries[j].1.rating <= 5 by {
            assert(state.ratings@.contains_key(entries[j].0@));
        }
    }
    let n = state.ratings.len();
    let mut count: u64 = 0;
    let mut sum: u64 = 0;
    let mut i: usize = 0;
    while i < n
        invariant
            n == entries.len(),
            entries == state.ratings.entry_seq(),
            entries.len() * 5 <= u64::MAX,
            i <= n,
            pred == rates_user(user@),
            count == entries.subrange(0, i as int).filter(pred).len(),
            sum == rating_total(entries.subrange(0, i as int).filter(pred)),
            sum <= 5 * count,
            count <= i,
            forall|j: int| 0 <= j < entries.len() ==> #[trigger] entries[j].1.rating <= 5,
        decreases n - i,
    {
        let rating = state.ratings.value_at(i);
        proof {
            assert(entries.subrange(0, i + 1) =~= entries.subrange(0, i as int).push(entries[i as int]));
            entries.subrange(0, i as int).lemma_filter_push(entries[i as int], pred);
            let prev = entries.subrange(0, i as int).filter(pred);
            assert(prev.push(entries[i as int]).drop_last() =~= prev);
        }
        if crate::text::str_eq(rating.rated.as_str(), user) {
            count = count + 1;
            sum = sum + rating.rating as u64;
        }
        i = i + 1;
    }
    proof {
        assert(entries.subrange(0, n as int) =~= entries);
    }
    if count == 0 {
        return Ok((crate::decimal::Decimal::zero(), 0));
    }
    proof {
        lemma_average_at_most_five(sum as nat, count as nat);
    }
    Ok((crate::decimal::Decimal::from_ratio(sum, count), count))
}

/// Recomputes the average rating and the number of ratings in `user`'s statistics.
pub fn update_user_rating_stats(state: &mut ContractState, user: &str) -> (r: Result<(), crate::error::StdError>)
    requires
        old(state).wf(),
        crate::state::tables_have_room(old(state)),
        old(state).ratings.entry_seq().len() * 5 <= u64::MAX,
    ensures
        crate::state::room_used(*old(state), *final(state)),
        r is Ok,
        final(state).wf(),
        ({
            let s = crate::escrow::stats_in(old(state).user_stats@, user@);
            final(state).user_stats@ == old(state).user_stats@.insert(user@, crate::state::UserStats {
                average_rating: crate::decimal::Decimal { atomics: average_rating_atomics(old(state), user@) as u128 },
                total_ratings: ratings_about(old(state), user@).len() as u64,
                ..s
            })
        }),
        *final(state) == (ContractState { user_stats: final(state).user_stats, ..*old(state) }),
{
    let (average, total) = match calculate_user_average_rating(state, user) {
        Ok(x) => x,
        Err(e) => return Err(e),
    };
    let mut stats = crate::escrow::load_stats(state, user);
    stats.average_rating = average;
    stats.total_ratings = total;
    state.user_stats.insert(String::from_str(user), stats);
    Ok(())
}

} // verus!
