pub mod session_token;
