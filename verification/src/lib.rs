pub mod account;
pub mod account_sessions;
pub mod api;
pub mod audit;
pub mod audit_log;
pub mod auth;
pub mod bytes;
pub mod challenge;
pub mod codec;
pub mod database;
pub mod device;
pub mod device_authority;
pub mod device_changes;
pub mod device_requests;
pub mod enrollment;
pub mod factor;
pub mod hash;
pub mod internal;
pub mod laws;
pub mod loading;
pub mod login;
pub mod login_answer;
pub mod login_finish;
pub mod mfa;
pub mod names;
pub mod password;
pub mod persist;
pub mod registration;
pub mod revocation;
pub mod risk_challenge;
pub mod rows;
pub mod rules;
pub mod session;
pub mod session_rows;
pub mod session_store;
pub mod signature;
pub mod sql;
pub mod step_up;
pub mod store;
pub mod table;
pub mod text;
