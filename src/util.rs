//! Sessions that can be started, and where their descriptions are found.
use vstd::prelude::*;
use vstd::string::{StrSliceExecFns, StringExecFns};
use crate::protocol::option_view;

verus! {

/// A session that can be started: its name, and the command line (the
/// `Exec` value of its desktop entry) that starts it.
#[derive(Clone, Debug, Default)]
pub struct Session {
    pub name: String,
    pub exec_cmd: String,
}

pub const WAYLAND_SESSIONS: &'static str = "/usr/share/wayland-sessions";

pub const X_SESSIONS: &'static str = "/usr/share/xsessions";

pub const LOCAL_WAYLAND_SESSIONS: &'static str = "/usr/local/share/wayland-sessions";

pub const LOCAL_X_SESSIONS: &'static str = "/usr/local/share/xsessions";

pub const X11_SESSIONS: &'static str = "/etc/X11/Sessions";

pub const HOME_WAYLAND_SESSIONS: &'static str = "/.local/share/wayland-sessions";

pub const HOME_X_SESSIONS: &'static str = "/.local/share/xsessions";

/// The directories searched for session descriptions, in order: the
/// system's, then, if the home directory is known, the user's.
pub open spec fn search_paths(home: Option<Seq<char>>) -> Seq<Seq<char>> {
    let system = seq![
        WAYLAND_SESSIONS@,
        X_SESSIONS@,
        LOCAL_WAYLAND_SESSIONS@,
        LOCAL_X_SESSIONS@,
        X11_SESSIONS@,
    ];
    match home {
        Some(h) => system + seq![h + HOME_WAYLAND_SESSIONS@, h + HOME_X_SESSIONS@],
        None => system,
    }
}

/// The directories to search for sessions, given the home directory if it is known.
pub fn session_search_paths(home: Option<String>) -> (r: Vec<String>)
    ensures
        r@.map_values(|s: String| s@) == search_paths(option_view(home)),
{
    let mut paths: Vec<String> = Vec::new();
    paths.push(String::from_str(WAYLAND_SESSIONS));
    paths.push(String::from_str(X_SESSIONS));
    paths.push(String::from_str(LOCAL_WAYLAND_SESSIONS));
    paths.push(String::from_str(LOCAL_X_SESSIONS));
    paths.push(String::from_str(X11_SESSIONS));
    match home {
        Some(h) => {
            let user = h.clone();
            paths.push(h.concat(HOME_WAYLAND_SESSIONS));
            paths.push(user.concat(HOME_X_SESSIONS));
        },
        None => {},
    }
    assert(paths@.map_values(|s: String| s@) =~= search_paths(option_view(home)));
    paths
}

/// What the INI reader has seen of the current line: whether a comment has
/// begun, whether a `[` has been seen, whether a `]` came before the first
/// `[`, and whether every `]` so far came before it.
pub struct LineScan {
    pub comment: bool,
    pub opened: bool,
    pub closed_before: bool,
    pub pending: bool,
}

pub open spec fn fresh_line() -> LineScan {
    LineScan { comment: false, opened: false, closed_before: false, pending: false }
}

pub open spec fn scan_char(st: LineScan, c: char) -> LineScan {
    if st.comment {
        st
    } else if c == ';' || c == '#' {
        LineScan { comment: true, ..st }
    } else if c == '[' {
        if st.opened {
            st
        } else {
            LineScan { opened: true, pending: st.closed_before, ..st }
        }
    } else if c == ']' {
        if st.opened {
            LineScan { pending: false, ..st }
        } else {
            LineScan { closed_before: true, ..st }
        }
    } else {
        st
    }
}

/// The line scanned so far, up to its comment, has a `[` and its last `]`
/// comes before its first `[`.
pub open spec fn line_inverted(st: LineScan) -> bool {
    st.opened && st.pending
}

/// Whether some line of `s`, read from state `st`, up to its comment, has a
/// `[` and a `]` with the last `]` before the first `[`.
pub open spec fn inverted_from(s: Seq<char>, st: LineScan) -> bool
    decreases s.len(),
{
    if s.len() == 0 {
        line_inverted(st)
    } else if s[0] == '\n' {
        line_inverted(st) || inverted_from(s.drop_first(), fresh_line())
    } else {
        inverted_from(s.drop_first(), scan_char(st, s[0]))
    }
}

/// Whether some line of an INI text holds a section header whose closing
/// bracket comes before its opening one, on which configparser's reader
/// slices out of order and panics.
pub open spec fn has_inverted_header(s: Seq<char>) -> bool {
    inverted_from(s, fresh_line())
}

/// Whether `text` has a line on which the INI reader would fail.
pub fn inverted_header(text: &str) -> (r: bool)
    ensures
        r == has_inverted_header(text@),
{
    let n = text.unicode_len();
    let mut comment = false;
    let mut opened = false;
    let mut closed_before = false;
    let mut pending = false;
    let mut i: usize = 0;
    assert(text@.subrange(0, n as int) =~= text@);
    while i < n
        invariant
            n == text@.len(),
            i <= n,
            has_inverted_header(text@) == inverted_from(
                text@.subrange(i as int, n as int),
                LineScan { comment, opened, closed_before, pending },
            ),
        decreases n - i,
    {
        let c = text.get_char(i);
        assert(text@.subrange(i as int, n as int).drop_first() =~= text@.subrange(i + 1, n as int));
        if c == '\n' {
            if opened && pending {
                return true;
            }
            comment = false;
            opened = false;
            closed_before = false;
            pending = false;
        } else if comment {
        } else if c == ';' || c == '#' {
            comment = true;
        } else if c == '[' {
            if !opened {
                opened = true;
                pending = closed_before;
            }
        } else if c == ']' {
            if opened {
                pending = false;
            } else {
                closed_before = true;
            }
        }
        i = i + 1;
    }
    opened && pending
}

/// What configparser reads for `key` in `section` of an INI text.
pub uninterp spec fn ini_value(text: Seq<char>, section: Seq<char>, key: Seq<char>) -> Option<Seq<char>>;

/// Relies on configparser's `Ini::read` and `Ini::get`: the value of `key`
/// in `section` of `text`, none where the text does not parse or holds no
/// such value. It depends on the three texts alone. The reader panics on a
/// line whose last `]` comes before its first `[`, so such texts are left out.
#[verifier::external_body]
fn ini_get(text: &str, section: &str, key: &str) -> (r: Option<String>)
    requires
        !has_inverted_header(text@),
    ensures
        option_view(r) == ini_value(text@, section@, key@),
{
    let mut ini = ini::configparser::ini::Ini::new();
    match ini.read(text.to_string()) {
        Ok(_) => ini.get(section, key),
        Err(_) => None,
    }
}

pub const DESKTOP_ENTRY: &'static str = "desktop entry";

pub const NAME_KEY: &'static str = "name";

pub const EXEC_KEY: &'static str = "exec";

/// The session named by `name` and started by `exec_cmd`, if both are given.
pub fn session_from_fields(name: Option<String>, exec_cmd: Option<String>) -> (r: Option<Session>)
    ensures
        r is Some <==> (name is Some && exec_cmd is Some),
        r matches Some(s) ==> Some(s.name) == name && Some(s.exec_cmd) == exec_cmd,
{
    match (name, exec_cmd) {
        (Some(name), Some(exec_cmd)) => Some(Session { name, exec_cmd }),
        _ => None,
    }
}

/// The session that a desktop entry file describes: the `Name` and `Exec`
/// values of its `[Desktop Entry]` section, if it has both. A text with a
/// line whose last `]` comes before its first `[` describes none.
pub fn parse_desktop_entry(text: &str) -> (r: Option<Session>)
    ensures
        has_inverted_header(text@) ==> r is None,
        r is Some <==> (!has_inverted_header(text@) && ini_value(text@, DESKTOP_ENTRY@, NAME_KEY@) is Some && ini_value(
            text@,
            DESKTOP_ENTRY@,
            EXEC_KEY@,
        ) is Some),
        r matches Some(s) ==> Some(s.name@) == ini_value(text@, DESKTOP_ENTRY@, NAME_KEY@) && Some(
            s.exec_cmd@,
        ) == ini_value(text@, DESKTOP_ENTRY@, EXEC_KEY@),
{
    if inverted_header(text) {
        return None;
    }
    let name = ini_get(text, DESKTOP_ENTRY, NAME_KEY);
    let exec_cmd = ini_get(text, DESKTOP_ENTRY, EXEC_KEY);
    session_from_fields(name, exec_cmd)
}

} // verus!
