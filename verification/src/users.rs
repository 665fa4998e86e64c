//! User profiles: on-chain bookkeeping plus the hash of the off-chain profile content.
use vstd::prelude::*;
use crate::chain::{seconds, seconds_of, Env, MessageInfo, Response};
use crate::contract_helpers::standard_attrs;
use crate::decimal::Decimal;
use crate::error::{invalid_input, ContractError, ErrorView};
use crate::hash_utils::{content_hash_chars, content_hash_of, content_hash_parts, ContentHash};
use crate::helpers::{valid_job_description, valid_job_title};
use crate::jobs::{limits_after, opt_str, security_refusal};
use crate::security::{text_inputs_refusal, RateLimitAction};
use crate::state::{ContractState, UserProfile};

verus! {

/// The content key of a user's profile: `user_<address>`.
pub open spec fn user_key(user: Seq<char>) -> Seq<char> {
    "user_"@ + user
}

/// Why a profile text is refused, if it is: it is checked as a title and as a description,
/// then against its own limit.
pub open spec fn profile_text_refusal(t: Seq<char>, max: nat, too_long: Seq<char>) -> Option<ErrorView> {
    let text = text_inputs_refusal(t, t, None, None);
    if text is Some {
        text
    } else if !valid_job_title(t) {
        Some(ErrorView::InvalidInput("Title must be between 5-100 characters"@))
    } else if !valid_job_description(t) {
        Some(ErrorView::InvalidInput("Description must be between 10-1000 characters"@))
    } else if crate::text::blen(t) > max {
        Some(ErrorView::InvalidInput(too_long))
    } else {
        None
    }
}

/// Why updating the sender's profile is refused, if it is.
pub open spec fn profile_refusal(pre: ContractState, now: u64, sender: Seq<char>, display_name: Option<Seq<char>>, bio: Option<Seq<char>>) -> Option<ErrorView> {
    let sec = security_refusal(pre, now, sender, RateLimitAction::UpdateProfile);
    if sec is Some {
        sec
    } else if display_name matches Some(n) && profile_text_refusal(n, 100, "Display name too long"@) is Some {
        profile_text_refusal(display_name->Some_0, 100, "Display name too long"@)
    } else if bio matches Some(b) && profile_text_refusal(b, 1000, "Bio too long"@) is Some {
        profile_text_refusal(bio->Some_0, 1000, "Bio too long"@)
    } else {
        None
    }
}

fn check_profile_text(t: Option<&str>, max: usize, too_long: &str) -> (r: Result<(), ContractError>)
    ensures
        r is Err <==> (t matches Some(x) && profile_text_refusal(x@, max as nat, too_long@) is Some),
        r matches Err(e) ==> Some(e@) == profile_text_refusal(t->Some_0@, max as nat, too_long@),
{
    if let Some(x) = t {
        match crate::security::validate_text_inputs(x, x, None, None) {
            Ok(()) => {},
            Err(e) => return Err(e),
        }
        match crate::helpers::validate_job_title(x) {
            Ok(()) => {},
            Err(e) => return Err(e),
        }
        match crate::helpers::validate_job_description(x) {
            Ok(()) => {},
            Err(e) => return Err(e),
        }
        if x.len() > max {
            return Err(invalid_input(too_long));
        }
    }
    Ok(())
}

/// Whether `p` is the profile of a user seen for the first time at `now` (its content hash aside).
pub open spec fn new_profile(p: UserProfile, now: u64) -> bool {
    &&& p.created_at == now
    &&& p.updated_at == now
    &&& p.total_jobs_completed == 0
    &&& p.average_rating.atomics == 0
    &&& p.total_earned == 0
    &&& !p.is_verified
    &&& p.response_time_hours == 24
}

/// What `execute_update_user_profile` does: when it refuses and with which error, and the state and response when it succeeds.
pub open spec fn update_user_profile_outcome(
    pre: ContractState,
    post: ContractState,
    env: Env,
    info: MessageInfo,
    display_name: Option<Seq<char>>,
    bio: Option<Seq<char>>,
    bundle_json: Seq<char>,
    off_chain_storage_key: Seq<char>,
    r: Result<Response, ContractError>,
) -> bool {
    let refusal = profile_refusal(pre, env.time, info.sender@, display_name, bio);
    let key = user_key(info.sender@);
    let h = content_hash_chars(bundle_json);
    let p = post.user_profiles@[info.sender@];
    let had = pre.entity_to_hash@.contains_key(key);
    let previous = pre.entity_to_hash@[key]@;
    &&& r is Err <==> refusal is Some
    &&& r matches Err(e) ==> refusal == Some(e@) && post == pre
    &&& r matches Ok(resp) ==> {
        &&& post == (ContractState {
            user_profiles: post.user_profiles,
            content_hashes: post.content_hashes,
            hash_to_entity: post.hash_to_entity,
            entity_to_hash: post.entity_to_hash,
            user_rate_limits: post.user_rate_limits,
            ..pre
        })
        &&& post.user_profiles@ == pre.user_profiles@.insert(info.sender@, p)
        &&& content_hash_parts(p.content_hash) == content_hash_of(bundle_json, "user_profile"@, seconds_of(env.time) as u64)
        &&& p.updated_at == env.time
        &&& if pre.user_profiles@.contains_key(info.sender@) {
            p == (UserProfile { content_hash: p.content_hash, updated_at: env.time, ..pre.user_profiles@[info.sender@] })
        } else {
            new_profile(p, env.time)
        }
        &&& post.content_hashes@ == (if had {
            pre.content_hashes@.remove(previous)
        } else {
            pre.content_hashes@
        }).insert(h, p.content_hash)
        &&& post.hash_to_entity@.dom() == (if had {
            pre.hash_to_entity@.remove(previous)
        } else {
            pre.hash_to_entity@
        }).dom().insert(h)
        &&& post.hash_to_entity@[h]@ == key
        &&& forall|k: Seq<char>| #[trigger] post.hash_to_entity@.contains_key(k) && k != h
            ==> post.hash_to_entity@[k] == pre.hash_to_entity@[k]
        &&& post.entity_to_hash@ == pre.entity_to_hash@.insert(key, post.entity_to_hash@[key])
        &&& post.entity_to_hash@[key]@ == h
        &&& post.user_rate_limits@ == limits_after(pre, env.time, info.sender@, RateLimitAction::UpdateProfile)
        &&& resp.msgs() == Seq::<(bool, Seq<char>, Seq<char>, u128)>::empty()
        &&& resp.attrs() == standard_attrs("update_user_profile"@, 0, info.sender@) + seq![
            ("content_hash"@, h),
            ("off_chain_key"@, off_chain_storage_key),
        ]
    }
}

/// The sender updates their profile, creating it on first use. `bundle_json` is the serialized
/// profile bundle published off-chain; its hash replaces the previous one in the content tables.
pub fn execute_update_user_profile(
    state: &mut ContractState,
    env: &Env,
    info: &MessageInfo,
    display_name: Option<&str>,
    bio: Option<&str>,
    bundle_json: &str,
    off_chain_storage_key: &str,
) -> (r: Result<Response, ContractError>)
    requires
        old(state).wf(),
        crate::state::tables_have_room(old(state)),
    ensures
        crate::state::room_used(*old(state), *final(state)),
        update_user_profile_outcome(*old(state), *final(state), *env, *info, crate::jobs::opt_str(display_name), crate::jobs::opt_str(bio), bundle_json@, off_chain_storage_key@, r),
        final(state).wf(),
{
    let rl = match crate::jobs::security_checks(state, env, info.sender.as_str(), RateLimitAction::UpdateProfile) {
        Ok(rl) => rl,
        Err(e) => return Err(e),
    };
    let timestamp = seconds(env.time);
    let mut profile = match state.user_profiles.get(info.sender.as_str()) {
        Some(p) => p.copy(),
        None => {
            let empty = match crate::hash_utils::create_content_hash("", "user_profile", timestamp) {
                Ok(c) => c,
                Err(e) => return Err(ContractError::Std(e)),
            };
            UserProfile {
                created_at: env.time,
                updated_at: env.time,
                content_hash: empty,
                total_jobs_completed: 0,
                average_rating: Decimal::zero(),
                total_earned: 0,
                is_verified: false,
                response_time_hours: 24,
            }
        },
    };
    match check_profile_text(display_name, 100, "Display name too long") {
        Ok(()) => {},
        Err(e) => return Err(e),
    }
    match check_profile_text(bio, 1000, "Bio too long") {
        Ok(()) => {},
        Err(e) => return Err(e),
    }
    let (hash, content_hash) = match crate::hash_utils::bundle_content_hash(bundle_json, "user_profile", timestamp) {
        Ok(x) => x,
        Err(e) => return Err(ContractError::Std(e)),
    };
    let key = crate::text::concat2("user_", info.sender.as_str());
    let previous = match state.entity_to_hash.get(key.as_str()) {
        Some(h) => Some(h.clone()),
        None => None,
    };
    let ghost m_c = state.content_hashes@;
    let ghost m_h = state.hash_to_entity@;
    if let Some(old_hash) = previous {
        state.content_hashes.remove(old_hash.as_str());
        state.hash_to_entity.remove(old_hash.as_str());
    }
    let ghost c1 = state.content_hashes@;
    let ghost h1 = state.hash_to_entity@;
    state.content_hashes.insert(hash.clone(), content_hash.copy());
    state.hash_to_entity.insert(hash.clone(), key.clone());
    state.entity_to_hash.insert(key, hash.clone());
    profile.content_hash = content_hash;
    profile.updated_at = env.time;
    state.user_profiles.insert(info.sender.clone(), profile);
    state.user_rate_limits.insert(info.sender.clone(), rl);
    let mut extra: Vec<(&str, String)> = Vec::new();
    extra.push(("content_hash", hash));
    extra.push(("off_chain_key", String::from_str(off_chain_storage_key)));
    let attrs = crate::contract_helpers::build_response_attributes("update_user_profile", 0, info.sender.as_str(), extra);
    let resp = Response { messages: Vec::new(), attributes: attrs };
    proof {
        let kk = user_key(info.sender@);
        let had = old(state).entity_to_hash@.contains_key(kk);
        assert(key@ =~= kk);
        assert(c1 == (if had { m_c.remove(old(state).entity_to_hash@[kk]@) } else { m_c }));
        assert(state.hash_to_entity@.dom() =~= (if had { m_h.remove(old(state).entity_to_hash@[kk]@) } else { m_h }).dom().insert(content_hash_chars(bundle_json@)));
        assert(resp.msgs() =~= Seq::<(bool, Seq<char>, Seq<char>, u128)>::empty());
        assert(resp.attrs() =~= standard_attrs("update_user_profile"@, 0, info.sender@) + seq![
            ("content_hash"@, content_hash_chars(bundle_json@)),
            ("off_chain_key"@, off_chain_storage_key@),
        ]);
        assert(*state == (ContractState {
            user_profiles: state.user_profiles,
            content_hashes: state.content_hashes,
            hash_to_entity: state.hash_to_entity,
            entity_to_hash: state.entity_to_hash,
            user_rate_limits: state.user_rate_limits,
            ..*old(state)
        }));
    }
    Ok(resp)
}

/// The profile of a user the contract has not seen: everything zero or empty.
pub open spec fn empty_profile(p: UserProfile) -> bool {
    &&& p.created_at == 0
    &&& p.updated_at == 0
    &&& p.content_hash.hash@ == Seq::<char>::empty()
    &&& p.content_hash.data_type@ == Seq::<char>::empty()
    &&& p.content_hash.size_bytes == 0
    &&& p.content_hash.timestamp == 0
    &&& p.total_jobs_completed == 0
    &&& p.average_rating.atomics == 0
    &&& p.total_earned == 0
    &&& !p.is_verified
    &&& p.response_time_hours == 0
}

/// The profile of an (already validated) user, or an empty one.
pub fn query_user_profile(state: &ContractState, user: &str) -> (r: crate::msg::UserProfileResponse)
    requires
        state.wf(),
    ensures
        if state.user_profiles@.contains_key(user@) {
            r.profile == state.user_profiles@[user@]
        } else {
            empty_profile(r.profile)
        },
{
    match state.user_profiles.get(user) {
        Some(p) => crate::msg::UserProfileResponse { profile: p.copy() },
        None => crate::msg::UserProfileResponse {
            profile: UserProfile {
                created_at: 0,
                updated_at: 0,
                content_hash: ContentHash { hash: String::new(), data_type: String::new(), size_bytes: 0, timestamp: 0 },
                total_jobs_completed: 0,
                average_rating: Decimal { atomics: 0 },
                total_earned: 0,
                is_verified: false,
                response_time_hours: 0,
            },
        },
    }
}

/// Statistics after adding to the posted and completed counters and the amounts earned and spent.
pub open spec fn stats_added(s: crate::state::UserStats, posted: bool, completed: bool, earned: Option<u128>, spent: Option<u128>) -> crate::state::UserStats {
    crate::state::UserStats {
        total_jobs_posted: if posted { (s.total_jobs_posted + 1) as u64 } else { s.total_jobs_posted },
        total_jobs_completed: if completed { (s.total_jobs_completed + 1) as u64 } else { s.total_jobs_completed },
        total_earned: match earned {
            Some(e) => (s.total_earned + e) as u128,
            None => s.total_earned,
        },
        total_spent: match spent {
            Some(x) => (s.total_spent + x) as u128,
            None => s.total_spent,
        },
        ..s
    }
}

/// Whether those additions stay within the counters' ranges.
pub open spec fn stats_addition_fits(s: crate::state::UserStats, posted: bool, completed: bool, earned: Option<u128>, spent: Option<u128>) -> bool {
    &&& posted ==> s.total_jobs_posted < u64::MAX
    &&& completed ==> s.total_jobs_completed < u64::MAX
    &&& earned matches Some(e) ==> s.total_earned + e <= u128::MAX
    &&& spent matches Some(x) ==> s.total_spent + x <= u128::MAX
}

fn add_to_stats(state: &mut ContractState, user: &str, posted: bool, completed: bool, earned: Option<u128>, spent: Option<u128>)
    requires
        old(state).wf(),
        crate::state::tables_have_room(old(state)),
        stats_addition_fits(crate::escrow::stats_in(old(state).user_stats@, user@), posted, completed, earned, spent),
    ensures
        crate::state::room_used(*old(state), *final(state)),
        final(state).wf(),
        final(state).user_stats@ == old(state).user_stats@.insert(
            user@,
            stats_added(crate::escrow::stats_in(old(state).user_stats@, user@), posted, completed, earned, spent),
        ),
        *final(state) == (ContractState { user_stats: final(state).user_stats, ..*old(state) }),
{
    let mut stats = crate::escrow::load_stats(state, user);
    if posted {
        stats.total_jobs_posted = stats.total_jobs_posted + 1;
    }
    if completed {
        stats.total_jobs_completed = stats.total_jobs_completed + 1;
    }
    if let Some(e) = earned {
        stats.total_earned = stats.total_earned + e;
    }
    if let Some(x) = spent {
        stats.total_spent = stats.total_spent + x;
    }
    state.user_stats.insert(String::from_str(user), stats);
}

/// Records a job in a user's statistics: one more completed job when `job_completed`, plus the
/// amounts earned and spent.
pub fn update_user_job_stats(
    state: &mut ContractState,
    user: &str,
    job_completed: bool,
    amount_earned: Option<u128>,
    amount_spent: Option<u128>,
) -> (r: Result<(), ContractError>)
    requires
        old(state).wf(),
        crate::state::tables_have_room(old(state)),
        stats_addition_fits(crate::escrow::stats_in(old(state).user_stats@, user@), false, job_completed, amount_earned, amount_spent),
    ensures
        crate::state::room_used(*old(state), *final(state)),
        r is Ok,
        final(state).wf(),
        final(state).user_stats@ == old(state).user_stats@.insert(
            user@,
            stats_added(crate::escrow::stats_in(old(state).user_stats@, user@), false, job_completed, amount_earned, amount_spent),
        ),
        *final(state) == (ContractState { user_stats: final(state).user_stats, ..*old(state) }),
{
    add_to_stats(state, user, false, job_completed, amount_earned, amount_spent);
    Ok(())
}

/// Records a bounty in a user's statistics: a created bounty counts as a posted job and a won one
/// as a completed job, plus the amounts earned and spent.
pub fn update_user_bounty_stats(
    state: &mut ContractState,
    user: &str,
    bounty_created: bool,
    bounty_won: bool,
    amount_earned: Option<u128>,
    amount_spent: Option<u128>,
) -> (r: Result<(), ContractError>)
    requires
        old(state).wf(),
        crate::state::tables_have_room(old(state)),
        stats_addition_fits(crate::escrow::stats_in(old(state).user_stats@, user@), bounty_created, bounty_won, amount_earned, amount_spent),
    ensures
        crate::state::room_used(*old(state), *final(state)),
        r is Ok,
        final(state).wf(),
        final(state).user_stats@ == old(state).user_stats@.insert(
            user@,
            stats_added(crate::escrow::stats_in(old(state).user_stats@, user@), bounty_created, bounty_won, amount_earned, amount_spent),
        ),
        *final(state) == (ContractState { user_stats: final(state).user_stats, ..*old(state) }),
{
    add_to_stats(state, user, bounty_created, bounty_won, amount_earned, amount_spent);
    Ok(())
}

/// Reputation is not kept on-chain: a change of it stores nothing.
pub fn update_user_reputation(state: &mut ContractState, user: &str, reputation_change: i32) -> (r: Result<(), ContractError>)
    ensures
        r is Ok,
        *final(state) == *old(state),
{
    Ok(())
}

} // verus!
