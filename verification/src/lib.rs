//! Verified core of the personal-finance transaction service: request
//! validation, settlement rules, text and identifier handling.
#![allow(unused_imports)]

pub mod text;
pub mod responses;
pub mod jwt;
pub mod user_client;
pub mod settings_client;
pub mod transaction_proof;
pub mod group_plan;
pub mod group_fund;
pub mod group_settlement;
pub mod dates;
pub mod groups;
pub mod personal;
pub mod transactions;
pub mod flutter_sync;
pub mod user;
pub mod config;
