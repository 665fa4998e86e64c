//! Content hashes that tie on-chain records to the texts kept off-chain, and
//! the bundles those texts are published in.
use vstd::prelude::*;
use vstd::string::*;
use sha2::Digest;
use base64::Engine;
use crate::error::StdError;
use crate::state::ProposalMilestone;
use crate::text::{concat3, decimal_chars, u64_to_string};

verus! {

/// The SHA-256 digest of a byte string, as `sha2::Sha256` computes it.
pub uninterp spec fn sha256_digest(data: Seq<u8>) -> Seq<u8>;

/// The standard (padded) base64 encoding of a byte string, as the `base64` crate's
/// `STANDARD` engine computes it.
pub uninterp spec fn base64_standard(data: Seq<u8>) -> Seq<char>;

/// The lowercase hexadecimal digit of a value below sixteen.
pub open spec fn hex_digit(v: nat) -> char {
    if v < 10 {
        ((v + 48) as u32) as char
    } else {
        ((v + 87) as u32) as char
    }
}

/// Two lowercase hexadecimal digits per byte, high nibble first.
pub open spec fn hex_chars(data: Seq<u8>) -> Seq<char>
    decreases data.len(),
{
    if data.len() == 0 {
        Seq::empty()
    } else {
        seq![hex_digit((data[0] / 16) as nat), hex_digit((data[0] % 16) as nat)] + hex_chars(data.drop_first())
    }
}

pub(crate) proof fn lemma_hex_len(data: Seq<u8>)
    ensures
        hex_chars(data).len() == 2 * data.len(),
    decreases data.len(),
{
    if data.len() > 0 {
        lemma_hex_len(data.drop_first());
    }
}

/// Whether a character is a lowercase hexadecimal digit.
pub open spec fn is_lower_hex_digit(c: char) -> bool {
    (48 <= c as u32 <= 57) || (97 <= c as u32 <= 102)
}

/// Every character of a hexadecimal encoding is a lowercase hexadecimal digit.
pub proof fn lemma_hex_digits(data: Seq<u8>)
    ensures
        forall|i: int| 0 <= i < hex_chars(data).len() ==> is_lower_hex_digit(#[trigger] hex_chars(data)[i]),
    decreases data.len(),
{
    if data.len() > 0 {
        lemma_hex_digits(data.drop_first());
        let hi = (data[0] / 16) as nat;
        let lo = (data[0] % 16) as nat;
        assert(is_lower_hex_digit(hex_digit(hi)));
        assert(is_lower_hex_digit(hex_digit(lo)));
        let rest = hex_chars(data.drop_first());
        assert forall|i: int| 0 <= i < hex_chars(data).len() implies is_lower_hex_digit(#[trigger] hex_chars(data)[i]) by {
            if i >= 2 {
                assert(hex_chars(data)[i] == rest[i - 2]);
            }
        }
    }
}

/// `Sha256::digest`: the 32-byte SHA-256 digest of `data`.
#[verifier::external_body]
pub(crate) fn sha256(data: &[u8]) -> (r: Vec<u8>)
    ensures
        r@ == sha256_digest(data@),
        r@.len() == 32,
{
    sha2::Sha256::digest(data).to_vec()
}

/// `general_purpose::STANDARD.encode`: the padded base64 text of `data`, four characters for
/// every three bytes begun, the last group padded with `=` (see `encoded_len` in the crate).
#[verifier::external_body]
fn base64_encode(data: &[u8]) -> (r: String)
    ensures
        r@ == base64_standard(data@),
        r@.len() == 4 * ((data@.len() + 2) / 3),
        data@.len() % 3 == 2 ==> r@[r@.len() - 1] == '=',
        data@.len() % 3 == 1 ==> r@[r@.len() - 1] == '=' && r@[r@.len() - 2] == '=',
{
    base64::engine::general_purpose::STANDARD.encode(data)
}

/// `hex::encode`: two lowercase hexadecimal digits per byte.
#[verifier::external_body]
pub(crate) fn hex_encode(data: &[u8]) -> (r: String)
    ensures
        r@ == hex_chars(data@),
{
    hex::encode(data)
}

/// Reference to content stored off-chain.
#[derive(Clone, Debug, PartialEq, Default)]
pub struct ContentHash {
    pub hash: String,
    pub data_type: String,
    pub size_bytes: u64,
    pub timestamp: u64,
}

/// The hash text of a content string: base64 of its SHA-256 digest.
pub open spec fn content_hash_chars(content: Seq<char>) -> Seq<char> {
    base64_standard(sha256_digest(vstd::utf8::encode_utf8(content)))
}

/// Generates the SHA-256 hash of `content`, encoded in base64.
pub fn generate_content_hash(content: &str) -> (r: Result<String, StdError>)
    ensures
        r matches Ok(h) && h@ == content_hash_chars(content@),
        r matches Ok(h) && h@.len() == 44 && h@[43] == '=',
{
    let digest = sha256(content.as_bytes());
    Ok(base64_encode(digest.as_slice()))
}

/// The content hash record of `content`.
pub open spec fn content_hash_of(content: Seq<char>, data_type: Seq<char>, timestamp: u64) -> (Seq<char>, Seq<char>, nat, u64) {
    (content_hash_chars(content), data_type, crate::text::blen(content), timestamp)
}

/// The parts of a content hash record, as plain values.
pub open spec fn content_hash_parts(c: ContentHash) -> (Seq<char>, Seq<char>, nat, u64) {
    (c.hash@, c.data_type@, c.size_bytes as nat, c.timestamp)
}

/// Builds the content hash record of `content`: its hash, type, byte size and time.
pub fn create_content_hash(content: &str, data_type: &str, timestamp: u64) -> (r: Result<ContentHash, StdError>)
    ensures
        r matches Ok(c) && content_hash_parts(c) == content_hash_of(content@, data_type@, timestamp),
{
    let hash = match generate_content_hash(content) {
        Ok(h) => h,
        Err(e) => return Err(e),
    };
    let size = content.len();
    Ok(ContentHash { hash, data_type: String::from_str(data_type), size_bytes: size as u64, timestamp })
}

/// Whether `content` hashes to `expected_hash`.
pub fn verify_content_hash(content: &str, expected_hash: &str) -> (r: Result<bool, StdError>)
    ensures
        r matches Ok(b) && b == (content_hash_chars(content@) == expected_hash@),
{
    let computed = match generate_content_hash(content) {
        Ok(h) => h,
        Err(e) => return Err(e),
    };
    Ok(crate::text::str_eq(computed.as_str(), expected_hash))
}

/// A value of one field of an off-chain bundle.
#[derive(Clone, Debug, PartialEq)]
pub enum FieldValue {
    Text(String),
    TextList(Vec<String>),
    Milestones(Vec<ProposalMilestone>),
}

/// The data of an off-chain bundle: named fields.
#[derive(Clone, Debug, PartialEq)]
pub struct OffChainData {
    pub fields: Vec<(String, FieldValue)>,
}

/// Bookkeeping about a bundle.
#[derive(Clone, Debug, PartialEq)]
pub struct BundleMetadata {
    pub created_at: u64,
    pub updated_at: u64,
    pub version: u32,
    pub entity_id: String,
    pub entity_type: String,
}

/// Content published off-chain and referenced from an on-chain record.
#[derive(Clone, Debug, PartialEq)]
pub struct OffChainBundle {
    pub id: String,
    pub content_type: String,
    pub data: OffChainData,
    pub metadata: BundleMetadata,
}

/// The bundle for an entity: its id is `<entity_type>_<entity_id>`, its version 1,
/// and both of its times `timestamp`.
pub fn create_off_chain_bundle(
    entity_id: String,
    entity_type: String,
    content_type: String,
    fields: Vec<(String, FieldValue)>,
    timestamp: u64,
) -> (r: OffChainBundle)
    ensures
        r.id@ == entity_type@ + "_"@ + entity_id@,
        r.content_type == content_type,
        r.data.fields == fields,
        r.metadata.created_at == timestamp,
        r.metadata.updated_at == timestamp,
        r.metadata.version == 1,
        r.metadata.entity_id == entity_id,
        r.metadata.entity_type == entity_type,
{
    let id = concat3(entity_type.as_str(), "_", entity_id.as_str());
    OffChainBundle {
        id,
        content_type,
        data: OffChainData { fields },
        metadata: BundleMetadata {
            created_at: timestamp,
            updated_at: timestamp,
            version: 1,
            entity_id,
            entity_type,
        },
    }
}

/// The hash of a bundle from its serialized JSON text, and the content hash record
/// of that text with the given data type and time.
pub fn bundle_content_hash(bundle_json: &str, data_type: &str, timestamp: u64) -> (r: Result<(String, ContentHash), StdError>)
    ensures
        r matches Ok((h, c)) && h@ == content_hash_chars(bundle_json@) && content_hash_parts(c)
            == content_hash_of(bundle_json@, data_type@, timestamp),
{
    let hash = match generate_content_hash(bundle_json) {
        Ok(h) => h,
        Err(e) => return Err(e),
    };
    let record = match create_content_hash(bundle_json, data_type, timestamp) {
        Ok(c) => c,
        Err(e) => return Err(e),
    };
    Ok((hash, record))
}

fn text_field(name: &str, value: &str) -> (f: (String, FieldValue))
    ensures
        f.0@ == name@,
        f.1 matches FieldValue::Text(t) && t@ == value@,
{
    (String::from_str(name), FieldValue::Text(String::from_str(value)))
}

fn list_field(name: &str, values: &Vec<String>) -> (f: (String, FieldValue))
    ensures
        f.0@ == name@,
        f.1 matches FieldValue::TextList(t) && t@ == values@,
{
    (String::from_str(name), FieldValue::TextList(crate::text::copy_strings(values)))
}

/// Whether a field list holds exactly the text field `name` = `value` at position `i`.
pub open spec fn is_text_field(fields: Seq<(String, FieldValue)>, i: int, name: Seq<char>, value: Seq<char>) -> bool {
    &&& 0 <= i < fields.len()
    &&& fields[i].0@ == name
    &&& fields[i].1 matches FieldValue::Text(t) && t@ == value
}

/// Whether a field list holds exactly the list field `name` = `values` at position `i`.
pub open spec fn is_list_field(fields: Seq<(String, FieldValue)>, i: int, name: Seq<char>, values: Seq<String>) -> bool {
    &&& 0 <= i < fields.len()
    &&& fields[i].0@ == name
    &&& fields[i].1 matches FieldValue::TextList(t) && t@ == values
}

/// Whether a field list holds the list field `name` whose texts are `values` at position `i`.
pub open spec fn is_texts_field(fields: Seq<(String, FieldValue)>, i: int, name: Seq<char>, values: Seq<Seq<char>>) -> bool {
    &&& 0 <= i < fields.len()
    &&& fields[i].0@ == name
    &&& fields[i].1 matches FieldValue::TextList(t) && texts(t@) == values
}

/// The texts of a list of strings.
pub open spec fn texts(v: Seq<String>) -> Seq<Seq<char>> {
    v.map_values(|s: String| s@)
}

/// Whether `b` is the bundle of job `job_id` with these texts, made at `timestamp`.
pub open spec fn job_bundle(b: OffChainBundle, job_id: u64, title: Seq<char>, description: Seq<char>, category: Seq<char>, skills: Seq<Seq<char>>, documents: Seq<Seq<char>>, timestamp: u64) -> bool {
    &&& b.id@ == "job"@ + "_"@ + decimal_chars(job_id as nat)
    &&& b.content_type@ == "job_content"@
    &&& b.metadata.entity_id@ == decimal_chars(job_id as nat)
    &&& b.metadata.entity_type@ == "job"@
    &&& b.metadata.created_at == timestamp
    &&& b.metadata.updated_at == timestamp
    &&& b.metadata.version == 1
    &&& b.data.fields@.len() == 5
    &&& is_text_field(b.data.fields@, 0, "title"@, title)
    &&& is_text_field(b.data.fields@, 1, "description"@, description)
    &&& is_text_field(b.data.fields@, 2, "category"@, category)
    &&& is_texts_field(b.data.fields@, 3, "skills_required"@, skills)
    &&& is_texts_field(b.data.fields@, 4, "documents"@, documents)
}

/// Whether `b` is the bundle of proposal `proposal_id` with this cover letter and these milestones.
pub open spec fn proposal_bundle(b: OffChainBundle, proposal_id: u64, cover_letter: Seq<char>, milestones: Seq<ProposalMilestone>, timestamp: u64) -> bool {
    &&& b.id@ == "proposal"@ + "_"@ + decimal_chars(proposal_id as nat)
    &&& b.content_type@ == "proposal_content"@
    &&& b.metadata.entity_id@ == decimal_chars(proposal_id as nat)
    &&& b.metadata.entity_type@ == "proposal"@
    &&& b.metadata.created_at == timestamp
    &&& b.metadata.updated_at == timestamp
    &&& b.data.fields@.len() == 2
    &&& is_text_field(b.data.fields@, 0, "cover_letter"@, cover_letter)
    &&& b.data.fields@[1].0@ == "milestones"@
    &&& b.data.fields@[1].1 matches FieldValue::Milestones(m) && m@ == milestones
}

/// Whether `b` is the bundle of bounty `bounty_id` with these texts.
pub open spec fn bounty_bundle(b: OffChainBundle, bounty_id: u64, title: Seq<char>, description: Seq<char>, requirements: Seq<Seq<char>>, documents: Seq<Seq<char>>, category: Seq<char>, skills: Seq<Seq<char>>, timestamp: u64) -> bool {
    &&& b.id@ == "bounty"@ + "_"@ + decimal_chars(bounty_id as nat)
    &&& b.content_type@ == "bounty_content"@
    &&& b.metadata.entity_id@ == decimal_chars(bounty_id as nat)
    &&& b.metadata.entity_type@ == "bounty"@
    &&& b.metadata.created_at == timestamp
    &&& b.metadata.updated_at == timestamp
    &&& b.data.fields@.len() == 6
    &&& is_text_field(b.data.fields@, 0, "title"@, title)
    &&& is_text_field(b.data.fields@, 1, "description"@, description)
    &&& is_text_field(b.data.fields@, 2, "category"@, category)
    &&& is_texts_field(b.data.fields@, 3, "requirements"@, requirements)
    &&& is_texts_field(b.data.fields@, 4, "documents"@, documents)
    &&& is_texts_field(b.data.fields@, 5, "skills_required"@, skills)
}

/// Whether `b` is the bundle of bounty submission `submission_id` with these texts.
pub open spec fn submission_bundle(b: OffChainBundle, submission_id: u64, title: Seq<char>, description: Seq<char>, deliverables: Seq<Seq<char>>, review_notes: Option<Seq<char>>, timestamp: u64) -> bool {
    &&& b.id@ == "bounty_submission"@ + "_"@ + decimal_chars(submission_id as nat)
    &&& b.content_type@ == "bounty_submission_content"@
    &&& b.metadata.entity_id@ == decimal_chars(submission_id as nat)
    &&& b.metadata.entity_type@ == "bounty_submission"@
    &&& b.metadata.created_at == timestamp
    &&& b.metadata.updated_at == timestamp
    &&& b.data.fields@.len() == 3 + (if review_notes is Some { 1int } else { 0 })
    &&& is_text_field(b.data.fields@, 0, "title"@, title)
    &&& is_text_field(b.data.fields@, 1, "description"@, description)
    &&& is_texts_field(b.data.fields@, 2, "deliverables"@, deliverables)
    &&& review_notes matches Some(n) ==> is_text_field(b.data.fields@, 3, "review_notes"@, n)
}

/// Whether `b` is the profile bundle of `user` with these texts.
pub open spec fn profile_bundle(b: OffChainBundle, user: Seq<char>, display_name: Option<Seq<char>>, bio: Option<Seq<char>>, skills: Seq<Seq<char>>, links: Seq<Seq<char>>, timestamp: u64) -> bool {
    let k = (if display_name is Some { 1int } else { 0 }) + (if bio is Some { 1int } else { 0 });
    &&& b.id@ == "user"@ + "_"@ + user
    &&& b.content_type@ == "user_profile"@
    &&& b.metadata.entity_id@ == user
    &&& b.metadata.entity_type@ == "user"@
    &&& b.metadata.created_at == timestamp
    &&& b.metadata.updated_at == timestamp
    &&& b.data.fields@.len() == k + 2
    &&& display_name matches Some(n) ==> is_text_field(b.data.fields@, 0, "display_name"@, n)
    &&& bio matches Some(t) ==> is_text_field(b.data.fields@, k - 1, "bio"@, t)
    &&& is_texts_field(b.data.fields@, k, "skills"@, skills)
    &&& is_texts_field(b.data.fields@, k + 1, "portfolio_links"@, links)
}

/// The bundle of a job's texts: title, description, category, skills, documents, and
/// the company and location where given.
pub fn create_job_content_bundle(
    job_id: u64,
    title: &str,
    description: &str,
    company: Option<&str>,
    location: Option<&str>,
    category: &str,
    skills_required: &Vec<String>,
    documents: &Vec<String>,
    timestamp: u64,
) -> (r: Result<OffChainBundle, StdError>)
    ensures
        r matches Ok(b) && {
            &&& b.id@ == "job"@ + "_"@ + decimal_chars(job_id as nat)
            &&& b.content_type@ == "job_content"@
            &&& b.metadata.entity_id@ == decimal_chars(job_id as nat)
            &&& b.metadata.entity_type@ == "job"@
            &&& b.metadata.created_at == timestamp
            &&& b.metadata.updated_at == timestamp
            &&& b.metadata.version == 1
            &&& b.data.fields@.len() == 5 + (if company is Some { 1int } else { 0 }) + (if location is Some { 1int } else { 0 })
            &&& is_text_field(b.data.fields@, 0, "title"@, title@)
            &&& is_text_field(b.data.fields@, 1, "description"@, description@)
            &&& is_text_field(b.data.fields@, 2, "category"@, category@)
            &&& is_list_field(b.data.fields@, 3, "skills_required"@, skills_required@)
            &&& is_list_field(b.data.fields@, 4, "documents"@, documents@)
            &&& company matches Some(c) ==> is_text_field(b.data.fields@, 5, "company"@, c@)
            &&& location matches Some(l) ==> is_text_field(b.data.fields@, b.data.fields@.len() - 1, "location"@, l@)
        },
{
    let mut fields: Vec<(String, FieldValue)> = Vec::new();
    fields.push(text_field("title", title));
    fields.push(text_field("description", description));
    fields.push(text_field("category", category));
    fields.push(list_field("skills_required", skills_required));
    fields.push(list_field("documents", documents));
    if let Some(comp) = company {
        fields.push(text_field("company", comp));
    }
    if let Some(loc) = location {
        fields.push(text_field("location", loc));
    }
    let id = u64_to_string(job_id);
    let b = create_off_chain_bundle(id, String::from_str("job"), String::from_str("job_content"), fields, timestamp);
    Ok(b)
}

/// The bundle of a proposal's texts: cover letter and milestones.
pub fn create_proposal_content_bundle(
    proposal_id: u64,
    cover_letter: &str,
    milestones: Vec<ProposalMilestone>,
    timestamp: u64,
) -> (r: Result<OffChainBundle, StdError>)
    ensures
        r matches Ok(b) && {
            &&& b.id@ == "proposal"@ + "_"@ + decimal_chars(proposal_id as nat)
            &&& b.content_type@ == "proposal_content"@
            &&& b.metadata.entity_id@ == decimal_chars(proposal_id as nat)
            &&& b.metadata.entity_type@ == "proposal"@
            &&& b.metadata.created_at == timestamp
            &&& b.metadata.updated_at == timestamp
            &&& b.data.fields@.len() == 2
            &&& is_text_field(b.data.fields@, 0, "cover_letter"@, cover_letter@)
            &&& b.data.fields@[1].0@ == "milestones"@
            &&& b.data.fields@[1].1 == FieldValue::Milestones(milestones)
        },
{
    let mut fields: Vec<(String, FieldValue)> = Vec::new();
    fields.push(text_field("cover_letter", cover_letter));
    fields.push((String::from_str("milestones"), FieldValue::Milestones(milestones)));
    let id = u64_to_string(proposal_id);
    Ok(create_off_chain_bundle(id, String::from_str("proposal"), String::from_str("proposal_content"), fields, timestamp))
}

/// The bundle of a bounty's texts.
pub fn create_bounty_content_bundle(
    bounty_id: u64,
    title: &str,
    description: &str,
    requirements: &Vec<String>,
    documents: &Vec<String>,
    category: &str,
    skills_required: &Vec<String>,
    timestamp: u64,
) -> (r: Result<OffChainBundle, StdError>)
    ensures
        r matches Ok(b) && {
            &&& b.id@ == "bounty"@ + "_"@ + decimal_chars(bounty_id as nat)
            &&& b.content_type@ == "bounty_content"@
            &&& b.metadata.entity_id@ == decimal_chars(bounty_id as nat)
            &&& b.metadata.entity_type@ == "bounty"@
            &&& b.metadata.created_at == timestamp
            &&& b.metadata.updated_at == timestamp
            &&& b.data.fields@.len() == 6
            &&& is_text_field(b.data.fields@, 0, "title"@, title@)
            &&& is_text_field(b.data.fields@, 1, "description"@, description@)
            &&& is_text_field(b.data.fields@, 2, "category"@, category@)
            &&& is_list_field(b.data.fields@, 3, "requirements"@, requirements@)
            &&& is_list_field(b.data.fields@, 4, "documents"@, documents@)
            &&& is_list_field(b.data.fields@, 5, "skills_required"@, skills_required@)
        },
{
    let mut fields: Vec<(String, FieldValue)> = Vec::new();
    fields.push(text_field("title", title));
    fields.push(text_field("description", description));
    fields.push(text_field("category", category));
    fields.push(list_field("requirements", requirements));
    fields.push(list_field("documents", documents));
    fields.push(list_field("skills_required", skills_required));
    let id = u64_to_string(bounty_id);
    Ok(create_off_chain_bundle(id, String::from_str("bounty"), String::from_str("bounty_content"), fields, timestamp))
}

/// The bundle of a bounty submission's texts, with review notes where given.
pub fn create_bounty_submission_content_bundle(
    submission_id: u64,
    title: &str,
    description: &str,
    deliverables: &Vec<String>,
    review_notes: Option<&str>,
    timestamp: u64,
) -> (r: Result<OffChainBundle, StdError>)
    ensures
        r matches Ok(b) && {
            &&& b.id@ == "bounty_submission"@ + "_"@ + decimal_chars(submission_id as nat)
            &&& b.content_type@ == "bounty_submission_content"@
            &&& b.metadata.entity_id@ == decimal_chars(submission_id as nat)
            &&& b.metadata.entity_type@ == "bounty_submission"@
            &&& b.metadata.created_at == timestamp
            &&& b.metadata.updated_at == timestamp
            &&& b.data.fields@.len() == 3 + (if review_notes is Some { 1int } else { 0 })
            &&& is_text_field(b.data.fields@, 0, "title"@, title@)
            &&& is_text_field(b.data.fields@, 1, "description"@, description@)
            &&& is_list_field(b.data.fields@, 2, "deliverables"@, deliverables@)
            &&& review_notes matches Some(n) ==> is_text_field(b.data.fields@, 3, "review_notes"@, n@)
        },
{
    let mut fields: Vec<(String, FieldValue)> = Vec::new();
    fields.push(text_field("title", title));
    fields.push(text_field("description", description));
    fields.push(list_field("deliverables", deliverables));
    if let Some(notes) = review_notes {
        fields.push(text_field("review_notes", notes));
    }
    let id = u64_to_string(submission_id);
    Ok(
        create_off_chain_bundle(
            id,
            String::from_str("bounty_submission"),
            String::from_str("bounty_submission_content"),
            fields,
            timestamp,
        ),
    )
}

/// The bundle of a user profile's texts.
pub fn create_user_profile_bundle(
    user_addr: &str,
    display_name: Option<&str>,
    bio: Option<&str>,
    skills: &Vec<String>,
    portfolio_links: &Vec<String>,
    timestamp: u64,
) -> (r: Result<OffChainBundle, StdError>)
    ensures
        r matches Ok(b) && {
            let k = (if display_name is Some { 1int } else { 0 }) + (if bio is Some { 1int } else { 0 });
            &&& b.id@ == "user"@ + "_"@ + user_addr@
            &&& b.content_type@ == "user_profile"@
            &&& b.metadata.entity_id@ == user_addr@
            &&& b.metadata.entity_type@ == "user"@
            &&& b.metadata.created_at == timestamp
            &&& b.metadata.updated_at == timestamp
            &&& b.data.fields@.len() == k + 2
            &&& display_name matches Some(n) ==> is_text_field(b.data.fields@, 0, "display_name"@, n@)
            &&& bio matches Some(t) ==> is_text_field(b.data.fields@, k - 1, "bio"@, t@)
            &&& is_list_field(b.data.fields@, k, "skills"@, skills@)
            &&& is_list_field(b.data.fields@, k + 1, "portfolio_links"@, portfolio_links@)
        },
{
    let mut fields: Vec<(String, FieldValue)> = Vec::new();
    if let Some(name) = display_name {
        fields.push(text_field("display_name", name));
    }
    if let Some(bio_text) = bio {
        fields.push(text_field("bio", bio_text));
    }
    fields.push(list_field("skills", skills));
    fields.push(list_field("portfolio_links", portfolio_links));
    Ok(
        create_off_chain_bundle(
            String::from_str(user_addr),
            String::from_str("user"),
            String::from_str("user_profile"),
            fields,
            timestamp,
        ),
    )
}

} // verus!
