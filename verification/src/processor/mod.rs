pub mod create_session;
pub mod revoke_session;
