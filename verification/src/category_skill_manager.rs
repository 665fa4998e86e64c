//! Numeric ids for category and skill names, created on first use.
use vstd::prelude::*;
use std::collections::HashMap;
use crate::error::StdError;
use crate::state::ContractState;
use crate::text::{lowercase_chars, str_eq, to_lowercase};

verus! {

broadcast use vstd::std_specs::hash::group_hash_axioms;

/// Whether the name stored under `id` has the lowercase form `lower`.
pub open spec fn names_match(m: Map<u8, String>, id: int, lower: Seq<char>) -> bool {
    &&& 0 <= id < 256
    &&& m.contains_key(id as u8)
    &&& lowercase_chars(m[id as u8]@) == lower
}

/// Whether some stored name has the lowercase form `lower`.
pub open spec fn has_match(m: Map<u8, String>, lower: Seq<char>) -> bool {
    exists|id: int| names_match(m, id, lower)
}

/// Whether `id` is the smallest id whose name has the lowercase form `lower`: the one a
/// lookup in ascending id order finds.
pub open spec fn is_first_match(m: Map<u8, String>, id: u8, lower: Seq<char>) -> bool {
    &&& names_match(m, id as int, lower)
    &&& forall|j: int| 0 <= j < id ==> !names_match(m, j, lower)
}

/// The smallest id whose name has the lowercase form `lower`.
pub open spec fn first_match(m: Map<u8, String>, lower: Seq<char>) -> u8 {
    choose|id: u8| is_first_match(m, id, lower)
}

proof fn lemma_first_match(m: Map<u8, String>, id: u8, lower: Seq<char>)
    requires
        is_first_match(m, id, lower),
    ensures
        first_match(m, lower) == id,
        has_match(m, lower),
{
    let f = first_match(m, lower);
    assert(is_first_match(m, f, lower));
    if f < id {
        assert(!names_match(m, f as int, lower));
    } else if id < f {
        assert(!names_match(m, id as int, lower));
    }
}

/// The id that the next new name gets: the counter, starting at 1.
pub open spec fn next_id(counter: Option<u8>) -> u8 {
    match counter {
        Some(n) => n,
        None => 1u8,
    }
}

/// Looks `name` up by its lowercase form, in ascending id order.
fn find_by_name(m: &HashMap<u8, String>, name: &str) -> (r: Option<u8>)
    ensures
        match r {
            Some(id) => is_first_match(m@, id, lowercase_chars(name@)),
            None => !has_match(m@, lowercase_chars(name@)),
        },
{
    let lower = to_lowercase(name);
    let mut i: u16 = 0;
    while i < 256
        invariant
            i <= 256,
            lower@ == lowercase_chars(name@),
            forall|j: int| 0 <= j < i ==> !names_match(m@, j, lower@),
        decreases 256 - i,
    {
        let id: u8 = i as u8;
        match m.get(&id) {
            Some(stored) => {
                let l = to_lowercase(stored.as_str());
                if str_eq(l.as_str(), lower.as_str()) {
                    return Some(id);
                }
            },
            None => {},
        }
        i = i + 1;
    }
    None
}

/// The id of a category name, compared without case; a new name gets the next id, until the
/// ids run out.
pub fn get_or_create_category_id(state: &mut ContractState, category_name: &str) -> (r: Result<u8, StdError>)
    ensures
        ({
            let m = old(state).categories@;
            let lower = lowercase_chars(category_name@);
            let next = next_id(old(state).category_counter);
            if has_match(m, lower) {
                r == Ok::<u8, StdError>(first_match(m, lower)) && *final(state) == *old(state)
            } else if next == 255 {
                &&& r matches Err(e) && e@ == (crate::error::StdErrorView::GenericErr { msg: "Maximum categories reached"@ })
                &&& *final(state) == *old(state)
            } else {
                &&& r == Ok::<u8, StdError>(next)
                &&& final(state).categories@ == m.insert(next, final(state).categories@[next])
                &&& final(state).categories@[next]@ == category_name@
                &&& *final(state) == (ContractState {
                    categories: final(state).categories,
                    category_counter: Some((next + 1) as u8),
                    ..*old(state)
                })
            }
        }),
{
    match find_by_name(&state.categories, category_name) {
        Some(id) => {
            proof {
                lemma_first_match(state.categories@, id, lowercase_chars(category_name@));
            }
            return Ok(id);
        },
        None => {},
    }
    let next: u8 = match state.category_counter {
        Some(n) => n,
        None => 1,
    };
    if next == 255 {
        return Err(StdError::GenericErr { msg: String::from_str("Maximum categories reached") });
    }
    state.categories.insert(next, String::from_str(category_name));
    state.category_counter = Some(next + 1);
    Ok(next)
}

/// One skill name looked up or created: the id it gets, if any, and the names and counter after.
pub open spec fn skill_step(m: Map<u8, String>, counter: Option<u8>, name: String) -> (Option<u8>, Map<u8, String>, Option<u8>) {
    let lower = lowercase_chars(name@);
    let next = next_id(counter);
    if has_match(m, lower) {
        (Some(first_match(m, lower)), m, counter)
    } else if next == 255 {
        (None, m, counter)
    } else {
        (Some(next), m.insert(next, name), Some((next + 1) as u8))
    }
}

/// The ids that a list of skill names gets, in order, and the names and counter after.
pub open spec fn skills_after(m: Map<u8, String>, counter: Option<u8>, names: Seq<String>) -> (Seq<u8>, Map<u8, String>, Option<u8>)
    decreases names.len(),
{
    if names.len() == 0 {
        (Seq::empty(), m, counter)
    } else {
        let prev = skills_after(m, counter, names.drop_last());
        let step = skill_step(prev.1, prev.2, names.last());
        (
            match step.0 {
                Some(id) => prev.0.push(id),
                None => prev.0,
            },
            step.1,
            step.2,
        )
    }
}

/// The ids of skill names, compared without case; a new name gets the next id, and is left
/// out once the ids run out.
pub fn get_or_create_skill_ids(state: &mut ContractState, skill_names: &[String]) -> (r: Result<Vec<u8>, StdError>)
    ensures
        ({
            let after = skills_after(old(state).skills@, old(state).skill_counter, skill_names@);
            &&& r matches Ok(ids) && ids@ == after.0
            &&& final(state).skills@ == after.1
            &&& *final(state) == (ContractState { skills: final(state).skills, skill_counter: after.2, ..*old(state) })
        }),
{
    let ghost m0 = state.skills@;
    let ghost c0 = state.skill_counter;
    let mut ids: Vec<u8> = Vec::new();
    let mut i: usize = 0;
    while i < skill_names.len()
        invariant
            i <= skill_names@.len(),
            ({
                let after = skills_after(m0, c0, skill_names@.subrange(0, i as int));
                &&& ids@ == after.0
                &&& state.skills@ == after.1
                &&& state.skill_counter == after.2
            }),
            *state == (ContractState { skills: state.skills, skill_counter: state.skill_counter, ..*old(state) }),
            m0 == old(state).skills@,
            c0 == old(state).skill_counter,
        decreases skill_names@.len() - i,
    {
        let name = &skill_names[i];
        proof {
            assert(skill_names@.subrange(0, i + 1).drop_last() =~= skill_names@.subrange(0, i as int));
        }
        match find_by_name(&state.skills, name.as_str()) {
            Some(id) => {
                proof {
                    lemma_first_match(state.skills@, id, lowercase_chars(name@));
                }
                ids.push(id);
            },
            None => {
                let next: u8 = match state.skill_counter {
                    Some(n) => n,
                    None => 1,
                };
                if next != 255 {
                    state.skills.insert(next, name.clone());
                    state.skill_counter = Some(next + 1);
                    ids.push(next);
                }
            },
        }
        i = i + 1;
    }
    proof {
        assert(skill_names@.subrange(0, skill_names@.len() as int) =~= skill_names@);
    }
    Ok(ids)
}

/// The name stored under a category id.
pub fn get_category_name(state: &ContractState, category_id: u8) -> (r: Result<Option<String>, StdError>)
    ensures
        r matches Ok(name) && name == (if state.categories@.contains_key(category_id) {
            Some(state.categories@[category_id])
        } else {
            None
        }),
{
    match state.categories.get(&category_id) {
        Some(n) => Ok(Some(n.clone())),
        None => Ok(None),
    }
}

/// The names stored under the given skill ids, in order; unknown ids are left out.
pub open spec fn skill_names_of(m: Map<u8, String>, ids: Seq<u8>) -> Seq<String>
    decreases ids.len(),
{
    if ids.len() == 0 {
        Seq::empty()
    } else {
        let prev = skill_names_of(m, ids.drop_last());
        if m.contains_key(ids.last()) {
            prev.push(m[ids.last()])
        } else {
            prev
        }
    }
}

/// The names of skill ids, in order; unknown ids are left out.
pub fn get_skill_names(state: &ContractState, skill_ids: &[u8]) -> (r: Result<Vec<String>, StdError>)
    ensures
        r matches Ok(names) && names@ == skill_names_of(state.skills@, skill_ids@),
{
    let mut names: Vec<String> = Vec::new();
    let mut i: usize = 0;
    while i < skill_ids.len()
        invariant
            i <= skill_ids@.len(),
            names@ == skill_names_of(state.skills@, skill_ids@.subrange(0, i as int)),
        decreases skill_ids@.len() - i,
    {
        proof {
            assert(skill_ids@.subrange(0, i + 1).drop_last() =~= skill_ids@.subrange(0, i as int));
        }
        let id = skill_ids[i];
        match state.skills.get(&id) {
            Some(n) => names.push(n.clone()),
            None => {},
        }
        i = i + 1;
    }
    proof {
        assert(skill_ids@.subrange(0, skill_ids@.len() as int) =~= skill_ids@);
    }
    Ok(names)
}

/// The budget band of an amount in micro-units: free, under 500, under 5,000, or more.
pub open spec fn budget_band(amount: u128) -> u8 {
    if amount == 0 {
        0
    } else if amount < 500_000_000 {
        1
    } else if amount < 5_000_000_000 {
        2
    } else {
        3
    }
}

/// The budget band of an amount in micro-units: 0 free, 1 under 500, 2 under 5,000, 3 above.
pub fn calculate_budget_range(budget: u128) -> (r: u8)
    ensures
        r == budget_band(budget),
{
    if budget == 0 {
        0
    } else if budget < 500_000_000 {
        1
    } else if budget < 5_000_000_000 {
        2
    } else {
        3
    }
}

/// The categories that a fresh contract offers, with ids counting from 1.
pub open spec fn default_categories() -> Seq<Seq<char>> {
    seq![
        "Web Development"@, "Mobile Development"@, "Data Science"@, "Design & Creative"@,
        "Writing & Content"@, "Marketing & Sales"@, "Business & Strategy"@, "Engineering"@,
        "AI & Machine Learning"@, "Blockchain & Crypto"@, "DevOps & Infrastructure"@, "QA & Testing"@,
        "Legal & Compliance"@, "Finance & Accounting"@, "Customer Support"@, "Other"@,
    ]
}

/// The skills that a fresh contract offers, with ids counting from 1.
pub open spec fn default_skills() -> Seq<Seq<char>> {
    seq![
        "JavaScript"@, "Python"@, "TypeScript"@, "Java"@, "C++"@, "C#"@, "Go"@, "Rust"@,
        "PHP"@, "Ruby"@, "Swift"@, "Kotlin"@, "Solidity"@, "SQL"@, "R"@, "MATLAB"@,
        "Scala"@, "Perl"@, "Dart"@, "Lua"@, "React"@, "Vue.js"@, "Angular"@, "Node.js"@,
        "Express"@, "Django"@, "Flask"@, "Laravel"@, "Spring"@, "ASP.NET"@, "Next.js"@, "Nuxt.js"@,
        "HTML/CSS"@, "Bootstrap"@, "Tailwind CSS"@, "React Native"@, "Flutter"@, "iOS Development"@, "Android Development"@, "Xamarin"@,
        "Ionic"@, "MongoDB"@, "PostgreSQL"@, "MySQL"@, "Redis"@, "Elasticsearch"@, "DynamoDB"@, "Cassandra"@,
        "AWS"@, "Google Cloud"@, "Azure"@, "Docker"@, "Kubernetes"@, "Terraform"@, "Jenkins"@, "GitLab CI"@,
        "UI/UX Design"@, "Figma"@, "Adobe Creative Suite"@, "Sketch"@, "Canva"@, "3D Modeling"@, "Animation"@, "Machine Learning"@,
        "Deep Learning"@, "TensorFlow"@, "PyTorch"@, "Data Analysis"@, "Pandas"@, "NumPy"@, "Smart Contracts"@, "DeFi"@,
        "NFTs"@, "Web3"@, "Ethereum"@, "Bitcoin"@, "Polygon"@, "Cosmos"@, "Project Management"@, "Agile"@,
        "Scrum"@, "Content Writing"@, "SEO"@, "Digital Marketing"@, "Social Media"@, "Video Editing"@, "Copywriting"@, "Translation"@,
        "Research"@, "Excel"@,
    ]
}

/// `m` with `names[i]` stored under `i + 1` for every position `i`.
pub open spec fn with_defaults(m: Map<u8, String>, names: Seq<Seq<char>>, result: Map<u8, String>) -> bool {
    &&& forall|id: u8| 1 <= id <= names.len() ==> #[trigger] result.contains_key(id) && result[id]@ == names[id - 1]
    &&& forall|id: u8| !(1 <= id <= names.len()) ==> (#[trigger] result.contains_key(id) <==> m.contains_key(id))
        && (m.contains_key(id) ==> result[id] == m[id])
}

fn store_names(m: &mut HashMap<u8, String>, names: &Vec<&str>)
    requires
        names@.len() < 255,
    ensures
        with_defaults(old(m)@, names@.map_values(|s: &str| s@), final(m)@),
{
    let ghost m0 = m@;
    let mut i: usize = 0;
    while i < names.len()
        invariant
            i <= names@.len() < 255,
            m0 == old(m)@,
            forall|id: u8| 1 <= id <= i ==> #[trigger] m@.contains_key(id) && m@[id]@ == names@[id - 1]@,
            forall|id: u8| !(1 <= id <= i) ==> (#[trigger] m@.contains_key(id) <==> m0.contains_key(id))
                && (m0.contains_key(id) ==> m@[id] == m0[id]),
        decreases names@.len() - i,
    {
        let id: u8 = (i + 1) as u8;
        m.insert(id, String::from_str(names[i]));
        i = i + 1;
    }
}

/// Stores the default categories and skills under ids counting from 1, and sets both
/// counters just past them.
pub fn initialize_default_mappings(state: &mut ContractState) -> (r: Result<(), StdError>)
    ensures
        r is Ok,
        with_defaults(old(state).categories@, default_categories(), final(state).categories@),
        with_defaults(old(state).skills@, default_skills(), final(state).skills@),
        *final(state) == (ContractState {
            categories: final(state).categories,
            category_counter: Some(17u8),
            skills: final(state).skills,
            skill_counter: Some(91u8),
            ..*old(state)
        }),
{
    let categories: Vec<&str> = vec![
            "Web Development", "Mobile Development", "Data Science", "Design & Creative",
            "Writing & Content", "Marketing & Sales", "Business & Strategy", "Engineering",
            "AI & Machine Learning", "Blockchain & Crypto", "DevOps & Infrastructure", "QA & Testing",
            "Legal & Compliance", "Finance & Accounting", "Customer Support", "Other",
    ];
    store_names(&mut state.categories, &categories);
    state.category_counter = Some(17);
    let skills: Vec<&str> = vec![
            "JavaScript", "Python", "TypeScript", "Java", "C++", "C#", "Go", "Rust",
            "PHP", "Ruby", "Swift", "Kotlin", "Solidity", "SQL", "R", "MATLAB",
            "Scala", "Perl", "Dart", "Lua", "React", "Vue.js", "Angular", "Node.js",
            "Express", "Django", "Flask", "Laravel", "Spring", "ASP.NET", "Next.js", "Nuxt.js",
            "HTML/CSS", "Bootstrap", "Tailwind CSS", "React Native", "Flutter", "iOS Development", "Android Development", "Xamarin",
            "Ionic", "MongoDB", "PostgreSQL", "MySQL", "Redis", "Elasticsearch", "DynamoDB", "Cassandra",
            "AWS", "Google Cloud", "Azure", "Docker", "Kubernetes", "Terraform", "Jenkins", "GitLab CI",
            "UI/UX Design", "Figma", "Adobe Creative Suite", "Sketch", "Canva", "3D Modeling", "Animation", "Machine Learning",
            "Deep Learning", "TensorFlow", "PyTorch", "Data Analysis", "Pandas", "NumPy", "Smart Contracts", "DeFi",
            "NFTs", "Web3", "Ethereum", "Bitcoin", "Polygon", "Cosmos", "Project Management", "Agile",
            "Scrum", "Content Writing", "SEO", "Digital Marketing", "Social Media", "Video Editing", "Copywriting", "Translation",
            "Research", "Excel",
    ];
    store_names(&mut state.skills, &skills);
    state.skill_counter = Some(91);
    proof {
        assert(categories@.map_values(|s: &str| s@) =~= default_categories());
        assert(skills@.map_values(|s: &str| s@) =~= default_skills());
    }
    Ok(())
}

} // verus!
