//! What the screen shows about the current attempt.
use vstd::prelude::*;
use crate::auth::AuthError;

verus! {

/// Where the login form stands with respect to authentication.
#[derive(Debug)]
pub enum AuthState {
    Idle,
    Authenticating,
    Failed(AuthError),
}

pub const TITLE_IDLE: &'static str = "Authenticate";

pub const TITLE_BUSY: &'static str = "Authenticating";

pub const TITLE_REJECTED: &'static str = "Authentication Failed";

/// The title of the form and the diagnostic for the footer, if any. A
/// rejected credential is shown in the title, as a condition to retry; any
/// other failure leaves the title as it was and shows its detail.
pub fn get_title_and_error(auth_state: &AuthState) -> (r: (&'static str, Option<String>))
    ensures
        match auth_state {
            AuthState::Idle => r.0@ == TITLE_IDLE@ && r.1 is None,
            AuthState::Authenticating => r.0@ == TITLE_BUSY@ && r.1 is None,
            AuthState::Failed(AuthError::AuthFailed(_)) => r.0@ == TITLE_REJECTED@ && r.1 is None,
            AuthState::Failed(AuthError::Connection(e)) => r.0@ == TITLE_IDLE@ && r.1 == Some(*e),
            AuthState::Failed(AuthError::Protocol(e)) => r.0@ == TITLE_IDLE@ && r.1 == Some(*e),
            AuthState::Failed(AuthError::InvalidSession(e)) => r.0@ == TITLE_IDLE@ && r.1 == Some(
                *e,
            ),
        },
{
    match auth_state {
        AuthState::Idle => (TITLE_IDLE, None),
        AuthState::Authenticating => (TITLE_BUSY, None),
        AuthState::Failed(auth_error) => match auth_error {
            AuthError::AuthFailed(_) => (TITLE_REJECTED, None),
            AuthError::Connection(e) => (TITLE_IDLE, Some(e.clone())),
            AuthError::Protocol(e) => (TITLE_IDLE, Some(e.clone())),
            AuthError::InvalidSession(e) => (TITLE_IDLE, Some(e.clone())),
        },
    }
}

/// The offset that centres a span of `size` cells in one of `total` cells.
pub fn centered_margin(total: u16, size: u16) -> (r: u16)
    ensures
        r == (if total >= size { (total - size) / 2 } else { 0int }),
{
    if total >= size {
        (total - size) / 2
    } else {
        0
    }
}

} // verus!
