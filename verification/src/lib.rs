//! Stateless session-token service.
//!
//! The library mints signed, tamper-evident credentials bound to a user
//! identity, verifies them on incoming requests without server-side session
//! state, classifies requests as authenticated or anonymous, and decides the
//! login flow's outcome from an account lookup and submitted credentials.

mod active_code;
mod auth;
mod check_code;
mod email;
mod login;
mod status;
mod token;

pub use active_code::ActiveCode;
pub use active_code::ActiveStatus;
pub use check_code::CheckCode;
pub use check_code::CheckStatus;
pub use email::check_email;
pub use email::email_ok;
pub use email::sender;
pub use auth::ApiToken;
pub use auth::AuthOutcome;
pub use auth::authenticate;
pub use login::LoginInfo;
pub use login::LoginOutcome;
pub use login::SessionCookie;
pub use login::User;
pub use login::has_match;
pub use login::login;
pub use login::login_match;
pub use login::standard_cookie_attrs;
pub use status::DbApiError;
pub use status::DbErrorKind;
pub use token::TokenError;
pub use token::TokenService;
pub use token::claim_of;
pub use token::subject_claim;
pub use token::token_of;
pub use token::verify_model;
