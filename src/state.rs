//! The selection remembered between runs.
use vstd::prelude::*;
use std::path::PathBuf;

verus! {

/// The last user and session that logged in.
#[derive(Debug)]
pub struct FerriteState {
    pub version: u8,
    pub last_user: Option<String>,
    pub last_session: Option<String>,
}

impl Default for FerriteState {
    fn default() -> (r: Self)
        ensures
            r.version == 0,
            r.last_user is None,
            r.last_session is None,
    {
        FerriteState { version: 0, last_user: None, last_session: None }
    }
}

#[verifier::external_type_specification]
#[verifier::external_body]
pub struct ExPathBuf(PathBuf);

/// The path that std makes of a text.
pub uninterp spec fn path_of(text: Seq<char>) -> PathBuf;

/// Relies on `PathBuf::from`: the path is made of the text alone.
#[verifier::external_body]
fn path_from(text: &str) -> (r: PathBuf)
    ensures
        r == path_of(text@),
{
    PathBuf::from(text)
}

pub const STATE_FILE: &'static str = "/var/lib/ferrite/state.json";

/// Where the remembered state is kept.
pub fn state_path() -> (r: PathBuf)
    ensures
        r == path_of(STATE_FILE@),
{
    path_from(STATE_FILE)
}

} // verus!
