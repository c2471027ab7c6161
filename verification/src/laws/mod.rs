pub mod accounts;
pub mod challenges;
pub mod devices;
pub mod finished_logins;
pub mod login;
pub mod registrations;
pub mod security;
pub mod sessions;
