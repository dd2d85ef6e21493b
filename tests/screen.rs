use std::path::PathBuf;

use ferrite::app::{next_focus, prev_focus, MAX_FOCUS_INDEX};
use ferrite::auth::AuthError;
use ferrite::event::{key_command, login_record, Action, Key, KeyCommand};
use ferrite::power::{power_command, PowerAction};
use ferrite::select::SelectField;
use ferrite::state::{state_path, FerriteState};
use ferrite::ui::{centered_margin, get_title_and_error, AuthState};
use ferrite::util::{inverted_header, parse_desktop_entry, session_from_fields, session_search_paths, Session};

#[test]
fn titles_and_errors_follow_the_auth_state() {
    assert_eq!(get_title_and_error(&AuthState::Idle), ("Authenticate", None));
    assert_eq!(get_title_and_error(&AuthState::Authenticating), ("Authenticating", None));
    assert_eq!(
        get_title_and_error(&AuthState::Failed(AuthError::AuthFailed("bad password".to_string()))),
        ("Authentication Failed", None)
    );
    assert_eq!(
        get_title_and_error(&AuthState::Failed(AuthError::Connection("refused".to_string()))),
        ("Authenticate", Some("refused".to_string()))
    );
    assert_eq!(
        get_title_and_error(&AuthState::Failed(AuthError::Protocol("bad frame".to_string()))),
        ("Authenticate", Some("bad frame".to_string()))
    );
    assert_eq!(
        get_title_and_error(&AuthState::Failed(AuthError::InvalidSession("empty".to_string()))),
        ("Authenticate", Some("empty".to_string()))
    );
}

#[test]
fn margins_centre_the_form() {
    assert_eq!(centered_margin(100, 40), 30);
    assert_eq!(centered_margin(41, 40), 0);
    assert_eq!(centered_margin(10, 40), 0);
}

#[test]
fn focus_moves_within_the_form() {
    assert_eq!(next_focus(0, MAX_FOCUS_INDEX), 1);
    assert_eq!(next_focus(2, MAX_FOCUS_INDEX), 2);
    assert_eq!(next_focus(255, 255), 255);
    assert_eq!(prev_focus(2), 1);
    assert_eq!(prev_focus(0), 0);
}

#[test]
fn keys_map_to_commands() {
    assert_eq!(key_command(Key::Esc), KeyCommand::Quit);
    assert_eq!(key_command(Key::Down), KeyCommand::FocusNext);
    assert_eq!(key_command(Key::Up), KeyCommand::FocusPrev);
    assert_eq!(key_command(Key::Enter), KeyCommand::Submit);
    assert_eq!(key_command(Key::F(1)), KeyCommand::Power(PowerAction::Shutdown));
    assert_eq!(key_command(Key::F(2)), KeyCommand::Power(PowerAction::Reboot));
    assert_eq!(key_command(Key::F(3)), KeyCommand::Forward);
    assert_eq!(key_command(Key::Left), KeyCommand::Forward);
    assert_ne!(Action::Continue, Action::Quit);
}

#[test]
fn power_verbs() {
    assert_eq!(power_command(PowerAction::Reboot), "reboot");
    assert_eq!(power_command(PowerAction::Shutdown), "poweroff");
}

#[test]
fn successful_login_is_remembered() {
    let s = login_record("alice".to_string(), "Sway".to_string());
    assert_eq!(s.version, 1);
    assert_eq!(s.last_user, Some("alice".to_string()));
    assert_eq!(s.last_session, Some("Sway".to_string()));
    let d = FerriteState::default();
    assert_eq!(d.version, 0);
    assert_eq!(d.last_user, None);
    assert_eq!(d.last_session, None);
}

#[test]
fn state_lives_under_var_lib() {
    assert_eq!(state_path(), PathBuf::from("/var/lib/ferrite/state.json"));
}

fn field(items: Vec<String>) -> SelectField<String, fn(&String) -> String> {
    SelectField { selected_idx: 0, label: "Username".to_string(), index: 1, items, transform: |s: &String| s.clone() }
}

#[test]
fn select_field_moves_only_with_focus_and_within_bounds() {
    let mut f = field(vec!["root".to_string(), "alice".to_string()]);
    f.handle_event(0, Key::Right);
    assert_eq!(f.selected_idx, 0);
    f.handle_event(1, Key::Right);
    assert_eq!(f.selected_idx, 1);
    f.handle_event(1, Key::Right);
    assert_eq!(f.selected_idx, 1);
    assert_eq!(f.get_value(), "alice");
    f.handle_event(1, Key::Left);
    f.handle_event(1, Key::Left);
    assert_eq!(f.selected_idx, 0);
    f.handle_event(1, Key::Enter);
    assert_eq!(f.selected_idx, 0);
    assert_eq!((f.transform)(&f.get_value()), "root");
}

#[test]
fn empty_select_field_stays_at_start() {
    let mut f = field(vec![]);
    f.handle_event(1, Key::Right);
    f.handle_event(1, Key::Left);
    assert_eq!(f.selected_idx, 0);
}

#[test]
fn search_paths_with_and_without_home() {
    let system = vec![
        "/usr/share/wayland-sessions",
        "/usr/share/xsessions",
        "/usr/local/share/wayland-sessions",
        "/usr/local/share/xsessions",
        "/etc/X11/Sessions",
    ];
    assert_eq!(session_search_paths(None), system);
    let mut with_home = system.clone();
    with_home.push("/home/alice/.local/share/wayland-sessions");
    with_home.push("/home/alice/.local/share/xsessions");
    assert_eq!(session_search_paths(Some("/home/alice".to_string())), with_home);
}

#[test]
fn desktop_entry_gives_name_and_command() {
    let text = "[Desktop Entry]\nName=Sway\nComment=An i3-compatible Wayland compositor\nExec=sway\nType=Application\n";
    let s = parse_desktop_entry(text).expect("a session");
    assert_eq!(s.name, "Sway");
    assert_eq!(s.exec_cmd, "sway");
}

#[test]
fn desktop_entry_without_exec_is_skipped() {
    assert!(parse_desktop_entry("[Desktop Entry]\nName=Broken\n").is_none());
    assert!(parse_desktop_entry("[Other]\nName=Sway\nExec=sway\n").is_none());
}

#[test]
fn session_needs_both_fields() {
    let s: Session = session_from_fields(Some("Sway".to_string()), Some("sway".to_string())).unwrap();
    assert_eq!((s.name.as_str(), s.exec_cmd.as_str()), ("Sway", "sway"));
    assert!(session_from_fields(None, Some("sway".to_string())).is_none());
    assert!(session_from_fields(Some("Sway".to_string()), None).is_none());
}

#[test]
fn inverted_section_headers_are_caught_before_reading() {
    assert!(inverted_header("]x[\n"));
    assert!(inverted_header("[Desktop Entry]\nName=A\n] [\nExec=a\n"));
    assert!(!inverted_header("]a[b]\n"));
    assert!(!inverted_header("Comment=one ] two\n"));
    assert!(!inverted_header("; ] [\n"));
    assert!(!inverted_header("[Desktop Entry]\nName=Sway\n"));
    assert!(parse_desktop_entry("]x[\n[Desktop Entry]\nName=A\nExec=a\n").is_none());
    let s = parse_desktop_entry("[Desktop Entry]\nComment=odd ] text\nName=A\nExec=a\n").expect("a session");
    assert_eq!(s.exec_cmd, "a");
}
