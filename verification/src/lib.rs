//! A freelance marketplace: jobs, proposals, escrows, disputes, ratings and
//! bounties, with the rules that decide every state change proved against
//! their contracts.
pub mod text;
pub mod store;
pub mod decimal;
pub mod error;
pub mod chain;
pub mod hash_utils;
pub mod state;
pub mod helpers;
pub mod security;
pub mod escrow;
pub mod jobs;
pub mod contract_helpers;
pub mod msg;
pub mod admin;
pub mod bounty;
pub mod users;
pub mod queries;
pub mod contract;
pub mod query_helpers;
pub mod laws;
pub mod category_skill_manager;
pub mod escrow_management;
pub mod admin_management;
pub mod job_management;
pub mod user_management;
