//! Shared checks of the message handlers: text and list sizes, who may act,
//! which statuses allow an operation, and the attributes every response starts with.
use vstd::prelude::*;
use crate::chain::{attr_view, Attribute};
use crate::error::{ContractError, ErrorView};
use crate::state::{BountyStatus, JobStatus};
use crate::text::{blen, concat2, concat3, decimal_chars, u64_to_string};

verus! {

/// The message refusing a text field outside `min..=max` bytes.
pub open spec fn length_message(field_name: Seq<char>, min: usize, max: usize) -> Seq<char> {
    field_name + " must be between "@ + decimal_chars(min as nat) + "-"@ + decimal_chars(max as nat) + " characters"@
}

/// Whether a text field is non-empty and has `min..=max` bytes.
pub open spec fn length_ok(value: Seq<char>, min: usize, max: usize) -> bool {
    value.len() > 0 && min <= blen(value) <= max
}

fn usize_to_string(n: usize) -> (r: String)
    ensures
        r@ == decimal_chars(n as nat),
{
    u64_to_string(n as u64)
}

/// Checks that a text field is non-empty and has `min_length..=max_length` bytes.
pub fn validate_string_field(value: &str, field_name: &str, min_length: usize, max_length: usize) -> (r: Result<(), ContractError>)
    ensures
        r is Ok <==> length_ok(value@, min_length, max_length),
        r matches Err(e) ==> e@ == ErrorView::InvalidInput(length_message(field_name@, min_length, max_length)),
{
    if value.is_empty() || value.len() < min_length || value.len() > max_length {
        let a = concat2(field_name, " must be between ");
        let lo = usize_to_string(min_length);
        let hi = usize_to_string(max_length);
        let b = concat3(a.as_str(), lo.as_str(), "-");
        let c = concat3(b.as_str(), hi.as_str(), " characters");
        return Err(ContractError::InvalidInput { error: c });
    }
    Ok(())
}

/// Checks an optional text field: when present, non-empty and at most `max_length` bytes.
pub fn validate_optional_string_field(field: &Option<String>, field_name: &str, max_length: usize) -> (r: Result<(), ContractError>)
    ensures
        r is Ok <==> (field matches Some(v) ==> length_ok(v@, 1, max_length)),
        r matches Err(e) ==> e@ == ErrorView::InvalidInput(length_message(field_name@, 1, max_length)),
{
    if let Some(value) = field {
        return validate_string_field(value.as_str(), field_name, 1, max_length);
    }
    Ok(())
}

/// The message refusing a list outside `min..=max` items.
pub open spec fn count_message(field_name: Seq<char>, min: usize, max: usize) -> Seq<char> {
    field_name + " must have "@ + decimal_chars(min as nat) + "-"@ + decimal_chars(max as nat) + " items"@
}

/// Checks that a list has `min_count..=max_count` items.
pub fn validate_collection_size<T>(collection: &[T], field_name: &str, min_count: usize, max_count: usize) -> (r: Result<(), ContractError>)
    ensures
        r is Ok <==> min_count <= collection@.len() <= max_count,
        r matches Err(e) ==> e@ == ErrorView::InvalidInput(count_message(field_name@, min_count, max_count)),
{
    if collection.len() < min_count || collection.len() > max_count {
        let a = concat2(field_name, " must have ");
        let lo = usize_to_string(min_count);
        let hi = usize_to_string(max_count);
        let b = concat3(a.as_str(), lo.as_str(), "-");
        let c = concat3(b.as_str(), hi.as_str(), " items");
        return Err(ContractError::InvalidInput { error: c });
    }
    Ok(())
}

/// Checks that the acting user is the poster of the record.
pub fn validate_user_authorization(job_poster: &str, user: &str) -> (r: Result<(), ContractError>)
    ensures
        r is Ok <==> job_poster@ == user@,
        r matches Err(e) ==> e@ == ErrorView::Unauthorized,
{
    if !crate::text::str_eq(job_poster, user) {
        return Err(ContractError::Unauthorized {  });
    }
    Ok(())
}

/// The name a bounty status is shown with.
pub open spec fn bounty_status_name(s: BountyStatus) -> Seq<char> {
    match s {
        BountyStatus::Open => "Open"@,
        BountyStatus::InReview => "InReview"@,
        BountyStatus::Completed => "Completed"@,
        BountyStatus::Cancelled => "Cancelled"@,
        BountyStatus::Expired => "Expired"@,
    }
}

fn bounty_status_string(s: BountyStatus) -> (r: String)
    ensures
        r@ == bounty_status_name(s),
{
    match s {
        BountyStatus::Open => String::from_str("Open"),
        BountyStatus::InReview => String::from_str("InReview"),
        BountyStatus::Completed => String::from_str("Completed"),
        BountyStatus::Cancelled => String::from_str("Cancelled"),
        BountyStatus::Expired => String::from_str("Expired"),
    }
}

/// The message refusing an operation on a record in a status that does not allow it.
pub open spec fn status_message(operation: Seq<char>, kind: Seq<char>, status: Seq<char>) -> Seq<char> {
    "Cannot "@ + operation + " "@ + kind + " with status "@ + status
}

fn status_error(operation: &str, kind: &str, status: String) -> (e: ContractError)
    ensures
        e@ == ErrorView::InvalidInput(status_message(operation@, kind@, status@)),
{
    let a = concat3("Cannot ", operation, " ");
    let b = concat3(a.as_str(), kind, " with status ");
    ContractError::InvalidInput { error: concat2(b.as_str(), status.as_str()) }
}

/// Checks that a job's status is one of those that allow the operation.
pub fn validate_job_status_for_operation(status: &JobStatus, allowed_statuses: &[JobStatus], operation: &str) -> (r: Result<(), ContractError>)
    ensures
        r is Ok <==> allowed_statuses@.contains(*status),
        r matches Err(e) ==> e@ == ErrorView::InvalidInput(status_message(operation@, "job"@, crate::jobs::job_status_name(*status))),
{
    let mut i: usize = 0;
    while i < allowed_statuses.len()
        invariant
            i <= allowed_statuses@.len(),
            forall|j: int| 0 <= j < i ==> allowed_statuses@[j] != *status,
        decreases allowed_statuses@.len() - i,
    {
        if allowed_statuses[i] == *status {
            return Ok(());
        }
        i = i + 1;
    }
    Err(status_error(operation, "job", crate::jobs::job_status_string(*status)))
}

/// Checks that a bounty's status is one of those that allow the operation.
pub fn validate_bounty_status_for_operation(status: &BountyStatus, allowed_statuses: &[BountyStatus], operation: &str) -> (r: Result<(), ContractError>)
    ensures
        r is Ok <==> allowed_statuses@.contains(*status),
        r matches Err(e) ==> e@ == ErrorView::InvalidInput(status_message(operation@, "bounty"@, bounty_status_name(*status))),
{
    let mut i: usize = 0;
    while i < allowed_statuses.len()
        invariant
            i <= allowed_statuses@.len(),
            forall|j: int| 0 <= j < i ==> allowed_statuses@[j] != *status,
        decreases allowed_statuses@.len() - i,
    {
        if allowed_statuses[i] == *status {
            return Ok(());
        }
        i = i + 1;
    }
    Err(status_error(operation, "bounty", bounty_status_string(*status)))
}

/// The method, the record id and the acting user, as the first attributes of a response.
pub open spec fn standard_attrs(method: Seq<char>, id: u64, user: Seq<char>) -> Seq<(Seq<char>, Seq<char>)> {
    seq![("method"@, method), ("id"@, decimal_chars(id as nat)), ("user"@, user)]
}

/// The attributes that a response starts with: the method, the record id and the acting user,
/// followed by the additional pairs.
pub open spec fn response_attrs(method: Seq<char>, id: u64, user: Seq<char>, additional: Seq<(&str, String)>) -> Seq<(Seq<char>, Seq<char>)> {
    standard_attrs(method, id, user) + additional.map_values(
        |p: (&str, String)| (p.0@, p.1@),
    )
}

/// Builds the attributes of a response: the method, the record id and the acting user,
/// then the additional pairs in order.
pub fn build_response_attributes(method: &str, id: u64, user: &str, additional_attrs: Vec<(&str, String)>) -> (r: Vec<Attribute>)
    ensures
        r@.map_values(|a: Attribute| attr_view(a)) == response_attrs(method@, id, user@, additional_attrs@),
{
    let mut attrs: Vec<Attribute> = Vec::new();
    attrs.push(Attribute { key: String::from_str("method"), value: String::from_str(method) });
    attrs.push(Attribute { key: String::from_str("id"), value: u64_to_string(id) });
    attrs.push(Attribute { key: String::from_str("user"), value: String::from_str(user) });
    let ghost head = seq![("method"@, method@), ("id"@, decimal_chars(id as nat)), ("user"@, user@)];
    let ghost extra = additional_attrs@.map_values(|p: (&str, String)| (p.0@, p.1@));
    assert(attrs@.map_values(|a: Attribute| attr_view(a)) =~= head);
    let n = additional_attrs.len();
    let ghost all = additional_attrs@;
    let mut i: usize = 0;
    while i < n
        invariant
            n == all.len(),
            all == additional_attrs@,
            i <= n,
            attrs@.map_values(|a: Attribute| attr_view(a)) == head + all.subrange(0, i as int).map_values(
                |p: (&str, String)| (p.0@, p.1@),
            ),
        decreases n - i,
    {
        let key = additional_attrs[i].0;
        let value = additional_attrs[i].1.clone();
        let ghost before = attrs@;
        let item = Attribute { key: String::from_str(key), value };
        let ghost item_v = attr_view(item);
        attrs.push(item);
        proof {
            let f = |a: Attribute| attr_view(a);
            let g = |p: (&str, String)| (p.0@, p.1@);
            assert(attrs@.map_values(f) =~= before.map_values(f).push(item_v));
            assert(all.subrange(0, i + 1) =~= all.subrange(0, i as int).push(all[i as int]));
            assert(all.subrange(0, i + 1).map_values(g) =~= all.subrange(0, i as int).map_values(g).push(g(all[i as int])));
            assert(g(all[i as int]) == item_v);
            assert(attrs@.map_values(|a: Attribute| attr_view(a)) =~= head + all.subrange(0, i + 1).map_values(
                |p: (&str, String)| (p.0@, p.1@),
            ));
        }
        i = i + 1;
    }
    assert(all.subrange(0, n as int) =~= all);
    attrs
}

/// Why the inputs of a new job are refused, if they are.
pub open spec fn job_inputs_refusal(
    title: Seq<char>,
    description: Seq<char>,
    budget: u128,
    category: Seq<char>,
    skills_count: nat,
    duration_days: u64,
    company: Option<Seq<char>>,
    location: Option<Seq<char>>,
    max_duration_days: u64,
) -> Option<ErrorView> {
    let text = crate::security::text_inputs_refusal(title, description, None, None);
    if text is Some {
        text
    } else if !crate::helpers::valid_job_title(title) {
        Some(ErrorView::InvalidInput("Title must be between 5-100 characters"@))
    } else if !crate::helpers::valid_job_description(description) {
        Some(ErrorView::InvalidInput("Description must be between 10-1000 characters"@))
    } else if budget != 0 && budget < crate::helpers::MIN_PAID_BUDGET {
        Some(ErrorView::EscrowAmountTooLow { min: decimal_chars(crate::helpers::MIN_PAID_BUDGET as nat) })
    } else if duration_days == 0 || duration_days > max_duration_days {
        Some(ErrorView::InvalidInput("Duration must be between 1-"@ + decimal_chars(max_duration_days as nat) + " days"@))
    } else if !length_ok(category, 1, 50) {
        Some(ErrorView::InvalidInput(length_message("Category"@, 1, 50)))
    } else if skills_count < 1 || skills_count > 20 {
        Some(ErrorView::InvalidInput(count_message("Skills required"@, 1, 20)))
    } else if company matches Some(c) && !length_ok(c, 1, 100) {
        Some(ErrorView::InvalidInput(length_message("Company name"@, 1, 100)))
    } else if location matches Some(l) && !length_ok(l, 1, 100) {
        Some(ErrorView::InvalidInput(length_message("Location"@, 1, 100)))
    } else {
        None
    }
}

/// The view of an optional string.
pub open spec fn opt_string_view(s: Option<String>) -> Option<Seq<char>> {
    match s {
        Some(x) => Some(x@),
        None => None,
    }
}

/// Checks all inputs of a new job at once.
pub fn validate_job_creation_inputs(
    title: &str,
    description: &str,
    budget: u128,
    category: &str,
    skills_required: &[String],
    duration_days: u64,
    company: &Option<String>,
    location: &Option<String>,
    max_duration_days: u64,
) -> (r: Result<(), ContractError>)
    ensures
        ({
            let refusal = job_inputs_refusal(title@, description@, budget, category@, skills_required@.len(), duration_days, opt_string_view(*company), opt_string_view(*location), max_duration_days);
            &&& r is Err <==> refusal is Some
            &&& r matches Err(e) ==> refusal == Some(e@)
        }),
{
    match crate::security::validate_text_inputs(title, description, None, None) {
        Ok(()) => {},
        Err(e) => return Err(e),
    }
    match crate::helpers::validate_job_title(title) {
        Ok(()) => {},
        Err(e) => return Err(e),
    }
    match crate::helpers::validate_job_description(description) {
        Ok(()) => {},
        Err(e) => return Err(e),
    }
    match crate::helpers::validate_budget(budget) {
        Ok(()) => {},
        Err(e) => return Err(e),
    }
    match crate::helpers::validate_duration(duration_days, max_duration_days) {
        Ok(()) => {},
        Err(e) => return Err(e),
    }
    match validate_string_field(category, "Category", 1, 50) {
        Ok(()) => {},
        Err(e) => return Err(e),
    }
    match validate_collection_size(skills_required, "Skills required", 1, 20) {
        Ok(()) => {},
        Err(e) => return Err(e),
    }
    match validate_optional_string_field(company, "Company name", 100) {
        Ok(()) => {},
        Err(e) => return Err(e),
    }
    validate_optional_string_field(location, "Location", 100)
}

/// A page of jobs as a response, filtered by category, status and (already validated) poster.
pub fn build_jobs_response(
    state: &crate::state::ContractState,
    start_after: Option<u64>,
    limit: Option<u32>,
    category: Option<&str>,
    status: Option<JobStatus>,
    poster: Option<&str>,
) -> (r: Result<crate::msg::JobsResponse, crate::error::StdError>)
    requires
        state.wf(),
    ensures
        r matches Ok(resp) && crate::queries::query_jobs_answer(
            state,
            start_after,
            limit,
            crate::jobs::opt_str(category),
            status,
            crate::jobs::opt_str(poster),
            resp,
        ),
{
    let jobs = crate::queries::query_jobs_paginated(state, start_after, limit, category, status, poster);
    Ok(crate::msg::JobsResponse { jobs })
}

} // verus!
