//! Ratings between the parties of a job, named by the rated user, and the ratings a
//! user received.
use vstd::prelude::*;
use crate::chain::{Env, MessageInfo, Response};
use crate::contract_helpers::{build_response_attributes, length_message, length_ok, standard_attrs, validate_optional_string_field};
use crate::decimal::{next_average_atomics, Decimal, DECIMAL_FRACTIONAL};
use crate::error::{invalid_input, ContractError, ErrorView, StdError, StdErrorView};
use crate::escrow::{is_assigned, job_kind, load_stats, stats_in};
use crate::jobs::{lemma_next_average_bounded, limits_after, rating_key, security_checks, security_refusal};
use crate::msg::RatingsResponse;
use crate::queries::entry_values;
use crate::security::RateLimitAction;
use crate::state::{ContractState, JobStatus, Rating, UserStats};
use crate::text::{decimal_chars, u64_to_string};

verus! {

/// Why `sender`'s rating of `rated` on `job_id` is refused, if it is.
pub open spec fn rate_user_refusal(
    pre: ContractState,
    now: u64,
    sender: Seq<char>,
    job_id: u64,
    rated: Seq<char>,
    rating: u32,
    comment: Option<Seq<char>>,
) -> Option<ErrorView> {
    let sec = security_refusal(pre, now, sender, RateLimitAction::SubmitRating);
    let job = pre.jobs@[job_id];
    if sec is Some {
        sec
    } else if !pre.jobs@.contains_key(job_id) {
        Some(ErrorView::Std(StdErrorView::NotFound { kind: job_kind() }))
    } else if job.status != JobStatus::Completed {
        Some(ErrorView::InvalidInput("Job must be completed to submit rating"@))
    } else if sender != job.poster@ && !is_assigned(job.assigned_freelancer, sender) {
        Some(ErrorView::Unauthorized)
    } else if rated != job.poster@ && !is_assigned(job.assigned_freelancer, rated) {
        Some(ErrorView::InvalidInput("Rated user is not involved in this job"@))
    } else if sender == rated {
        Some(ErrorView::InvalidInput("Cannot rate yourself"@))
    } else if rating == 0 || rating > 5 {
        Some(ErrorView::InvalidInput("Rating must be between 1 and 5"@))
    } else if comment matches Some(c) && !length_ok(c, 1, 500) {
        Some(ErrorView::InvalidInput(length_message("Comment"@, 1, 500)))
    } else if pre.ratings@.contains_key(rating_key(job_id, sender)) {
        Some(ErrorView::InvalidInput("You have already rated this job"@))
    } else {
        None
    }
}

/// The text an optional comment is stored as.
pub open spec fn comment_text(comment: Option<String>) -> Seq<char> {
    match comment {
        Some(c) => c@,
        None => Seq::empty(),
    }
}

/// What rating `rated` on `job_id` does: when it refuses and with which error; on success
/// the rating is stored under `<job_id>_<sender>` and the rated user's average and count of
/// ratings take it in.
pub open spec fn rate_user_outcome(
    pre: ContractState,
    post: ContractState,
    env: Env,
    info: MessageInfo,
    job_id: u64,
    rated: Seq<char>,
    rating: u32,
    comment: Option<String>,
    r: Result<Response, ContractError>,
) -> bool {
    let refusal = rate_user_refusal(pre, env.time, info.sender@, job_id, rated, rating, match comment {
        Some(c) => Some(c@),
        None => None,
    });
    let key = rating_key(job_id, info.sender@);
    let s = stats_in(pre.user_stats@, rated);
    &&& r is Err <==> refusal is Some
    &&& r matches Err(e) ==> refusal == Some(e@) && post == pre
    &&& r matches Ok(resp) ==> {
        &&& post == (ContractState {
            ratings: post.ratings,
            user_stats: post.user_stats,
            user_rate_limits: post.user_rate_limits,
            ..pre
        })
        &&& {
            let v = post.ratings@[key];
            &&& v.id@ == key
            &&& v.rated@ == rated
            &&& v.comment@ == comment_text(comment)
            &&& post.ratings@ == pre.ratings@.insert(key, Rating {
                id: v.id,
                job_id,
                rater: info.sender,
                rated: v.rated,
                rating: rating as u8,
                comment: v.comment,
                created_at: env.time,
            })
        }
        &&& post.user_stats@ == pre.user_stats@.insert(rated, UserStats {
            average_rating: Decimal {
                atomics: next_average_atomics(s.average_rating.atomics as nat, s.total_ratings as nat, rating as nat) as u128,
            },
            total_ratings: (s.total_ratings + 1) as u64,
            ..s
        })
        &&& post.user_rate_limits@ == limits_after(pre, env.time, info.sender@, RateLimitAction::SubmitRating)
        &&& resp.msgs() == Seq::<(bool, Seq<char>, Seq<char>, u128)>::empty()
        &&& resp.attrs() == standard_attrs("submit_rating"@, job_id, info.sender@) + seq![
            ("rated_user"@, rated),
            ("rating"@, decimal_chars(rating as nat)),
        ]
    }
}

/// A party of a job rates the other party, named by `rated_user` (an already validated
/// address), once per job, from 1 to 5 with an optional comment of at most 500 bytes, once the job is completed.
pub fn execute_submit_rating(
    state: &mut ContractState,
    env: &Env,
    info: &MessageInfo,
    job_id: u64,
    rated_user: &str,
    rating: u32,
    comment: Option<String>,
) -> (r: Result<Response, ContractError>)
    requires
        old(state).wf(),
        crate::state::tables_have_room(old(state)),
        stats_in(old(state).user_stats@, rated_user@).total_ratings < u64::MAX,
    ensures
        crate::state::room_used(*old(state), *final(state)),
        rate_user_outcome(*old(state), *final(state), *env, *info, job_id, rated_user@, rating, comment, r),
        final(state).wf(),
{
    let rl = match security_checks(state, env, info.sender.as_str(), RateLimitAction::SubmitRating) {
        Ok(rl) => rl,
        Err(e) => return Err(e),
    };
    let job = match state.jobs.get(&job_id) {
        Some(j) => j,
        None => return Err(ContractError::Std(StdError::NotFound { kind: String::from_str("Job") })),
    };
    if job.status != JobStatus::Completed {
        return Err(invalid_input("Job must be completed to submit rating"));
    }
    let sender_is_freelancer = match &job.assigned_freelancer {
        Some(f) => crate::text::str_eq(f.as_str(), info.sender.as_str()),
        None => false,
    };
    if !crate::text::str_eq(job.poster.as_str(), info.sender.as_str()) && !sender_is_freelancer {
        return Err(ContractError::Unauthorized {  });
    }
    let rated_is_freelancer = match &job.assigned_freelancer {
        Some(f) => crate::text::str_eq(f.as_str(), rated_user),
        None => false,
    };
    if !crate::text::str_eq(job.poster.as_str(), rated_user) && !rated_is_freelancer {
        return Err(invalid_input("Rated user is not involved in this job"));
    }
    if crate::text::str_eq(info.sender.as_str(), rated_user) {
        return Err(invalid_input("Cannot rate yourself"));
    }
    if rating == 0 || rating > 5 {
        return Err(invalid_input("Rating must be between 1 and 5"));
    }
    match validate_optional_string_field(&comment, "Comment", 500) {
        Ok(()) => {},
        Err(e) => return Err(e),
    }
    let id = u64_to_string(job_id);
    let key = crate::text::concat3(id.as_str(), "_", info.sender.as_str());
    if state.ratings.contains_key(key.as_str()) {
        return Err(invalid_input("You have already rated this job"));
    }
    let mut stats = load_stats(state, rated_user);
    proof {
        if state.user_stats@.contains_key(rated_user@) {
            assert(state.user_stats@[rated_user@].average_rating.atomics <= 5 * DECIMAL_FRACTIONAL);
        }
        lemma_next_average_bounded(stats.average_rating.atomics as nat, stats.total_ratings as nat, rating as nat);
    }
    stats.average_rating = crate::decimal::next_average(stats.average_rating, stats.total_ratings, rating as u64);
    stats.total_ratings = stats.total_ratings + 1;
    let text = match comment {
        Some(c) => c,
        None => String::new(),
    };
    let record = Rating {
        id: key.clone(),
        job_id,
        rater: info.sender.clone(),
        rated: String::from_str(rated_user),
        rating: rating as u8,
        comment: text,
        created_at: env.time,
    };
    state.ratings.insert(key, record);
    state.user_stats.insert(String::from_str(rated_user), stats);
    state.user_rate_limits.insert(info.sender.clone(), rl);
    let mut extra: Vec<(&str, String)> = Vec::new();
    extra.push(("rated_user", String::from_str(rated_user)));
    extra.push(("rating", u64_to_string(rating as u64)));
    let attrs = build_response_attributes("submit_rating", job_id, info.sender.as_str(), extra);
    let resp = Response { messages: Vec::new(), attributes: attrs };
    proof {
        assert(resp.msgs() =~= Seq::<(bool, Seq<char>, Seq<char>, u128)>::empty());
        assert(resp.attrs() =~= standard_attrs("submit_rating"@, job_id, info.sender@) + seq![
            ("rated_user"@, rated_user@),
            ("rating"@, decimal_chars(rating as nat)),
        ]);
        assert(*state == (ContractState {
            ratings: state.ratings,
            user_stats: state.user_stats,
            user_rate_limits: state.user_rate_limits,
            ..*old(state)
        }));
    }
    Ok(resp)
}

/// The test that a rating was received by `user`.
pub open spec fn rating_received_by(user: Seq<char>) -> spec_fn((String, Rating)) -> bool {
    |e: (String, Rating)| e.1.rated@ == user
}

/// The ratings an (already validated) user received, in descending order of their keys.
pub fn query_user_ratings(state: &ContractState, user: &str) -> (r: RatingsResponse)
    requires
        state.wf(),
    ensures
        r.ratings@ == entry_values(state.ratings.entry_seq().reverse().filter(rating_received_by(user@))),
{
    let ghost entries = state.ratings.entry_seq();
    let ghost pred = rating_received_by(user@);
    let n = state.ratings.len();
    let mut ratings: Vec<Rating> = Vec::new();
    let mut i: usize = n;
    proof {
        assert(entries.subrange(n as int, n as int).reverse() =~= Seq::<(String, Rating)>::empty());
    }
    while i > 0
        invariant
            n == entries.len(),
            entries == state.ratings.entry_seq(),
            i <= n,
            pred == rating_received_by(user@),
            ratings@ == entry_values(entries.subrange(i as int, n as int).reverse().filter(pred)),
        decreases i,
    {
        i = i - 1;
        let rating = state.ratings.value_at(i);
        proof {
            assert(entries.subrange(i as int, n as int).reverse() =~= entries.subrange(i + 1, n as int).reverse().push(entries[i as int]));
            entries.subrange(i + 1, n as int).reverse().lemma_filter_push(entries[i as int], pred);
        }
        if crate::text::str_eq(rating.rated.as_str(), user) {
            ratings.push(rating.copy());
        }
        proof {
            assert(ratings@ =~= entry_values(entries.subrange(i as int, n as int).reverse().filter(pred)));
        }
    }
    proof {
        assert(entries.subrange(0, n as int) =~= entries);
    }
    RatingsResponse { ratings }
}

} // verus!
