use dialog_prompts::prompts::{
    BrowserAction, BrowserState, Confirmation, FileInput, Input, Key, LineStep, PasswordInput,
    PasswordState, PasswordStep, SelectionStyle,
};
use dialog_prompts::render::{count_newlines, LineCounter};

fn names(v: &[&str]) -> Vec<String> {
    v.iter().map(|s| s.to_string()).collect()
}

#[test]
fn confirmation_answers() {
    let c = Confirmation::new();
    assert_eq!(c.answer('\n'), Some(true));
    assert_eq!(c.answer('\r'), Some(true));
    assert_eq!(c.answer('n'), Some(false));
    assert_eq!(c.answer('Y'), Some(true));
    assert_eq!(c.answer('x'), None);
    let mut c = Confirmation::new();
    c.default(false).show_default(false);
    assert_eq!(c.answer('\n'), Some(false));
    assert_eq!(c.shown_default(), None);
}

#[test]
fn input_empty_line_takes_default() {
    let mut input: Input<String, ()> = Input::new();
    input.default("main".to_string());
    assert!(matches!(input.on_line(""), LineStep::UseDefault));
    assert_eq!(input.default.as_deref(), Some("main"));
}

#[test]
fn input_refused_line_asks_again() {
    let mut input: Input<String, ()> = Input::new();
    input.with_prompt("Name");
    assert!(matches!(input.on_line("hello"), LineStep::Check));
    match input.on_checked(Some("at most 3 characters".to_string())) {
        LineStep::Reject(m) => assert_eq!(m, "at most 3 characters"),
        _ => panic!("expected a rejection"),
    }
    assert!(matches!(input.on_line("hi"), LineStep::Check));
    assert!(matches!(input.on_checked(None), LineStep::Parse));
}

#[test]
fn input_empty_line_without_default_retries() {
    let input: Input<String, ()> = Input::new();
    assert!(matches!(input.on_line(""), LineStep::Retry));
    let mut input: Input<String, ()> = Input::new();
    input.allow_empty(true);
    assert!(matches!(input.on_line(""), LineStep::Check));
}

#[test]
fn input_verdict_decides() {
    let input: Input<String, ()> = Input::new();
    match input.on_checked(Some("too long".to_string())) {
        LineStep::Reject(m) => assert_eq!(m, "too long"),
        _ => panic!("expected a rejection"),
    }
    assert!(matches!(input.on_checked(None), LineStep::Parse));
}

#[test]
fn password_confirmation_matches() {
    let mut p = PasswordInput::new();
    p.with_prompt("Password").with_confirmation("Again", "Mismatch");
    let first = match p.on_entry(&PasswordState::First, "secret".to_string()) {
        PasswordStep::Confirm(s) => s,
        _ => panic!("expected a confirmation step"),
    };
    assert_eq!(first, "secret");
    match p.on_entry(&PasswordState::Confirming(first), "secret".to_string()) {
        PasswordStep::Done(s) => assert_eq!(s, "secret"),
        _ => panic!("expected the password"),
    }
}

#[test]
fn password_confirmation_mismatch_restarts() {
    let mut p = PasswordInput::new();
    p.with_confirmation("Again", "Mismatch");
    match p.on_entry(&PasswordState::Confirming("secret".to_string()), "other".to_string()) {
        PasswordStep::Mismatch(m) => assert_eq!(m, "Mismatch"),
        _ => panic!("expected a mismatch"),
    }
}

#[test]
fn password_empty_rules() {
    let mut p = PasswordInput::new();
    assert!(matches!(p.on_entry(&PasswordState::First, String::new()), PasswordStep::Retry));
    assert!(!p.accepts(""));
    p.allow_empty_password(true);
    assert!(p.accepts(""));
    match p.on_entry(&PasswordState::First, String::new()) {
        PasswordStep::Done(s) => assert_eq!(s, ""),
        _ => panic!("expected the empty password"),
    }
}

#[test]
fn browser_listing_is_sorted_after_dots() {
    let f: FileInput<()> = FileInput::new();
    assert_eq!(f.list_entries(names(&["y", "x"])), names(&[".", "..", "x", "y"]));
    assert_eq!(f.list_entries(Vec::new()), names(&[".", ".."]));
}

#[test]
fn browser_selection_wraps() {
    let f: FileInput<()> = FileInput::new();
    let entries = names(&[".", "..", "x", "y"]);
    assert_eq!(f.bump_index(&Some(3), &entries, true), 0);
    assert_eq!(f.bump_index(&Some(0), &entries, false), 3);
    assert_eq!(f.bump_index(&Some(1), &entries, true), 2);
    assert_eq!(f.bump_index(&Some(2), &entries, false), 1);
    assert_eq!(f.bump_index(&None, &entries, false), 0);
    assert_eq!(f.bump_index(&Some(4), &entries, false), 3);
    assert_eq!(f.bump_index(&Some(6), &entries, false), 0);
    assert_eq!(f.bump_index(&Some(6), &entries, true), 0);
}

#[test]
fn browser_keys() {
    let f: FileInput<()> = FileInput::new();
    let state = BrowserState { path: "/tmp".to_string(), entries: names(&[".", "..", "x"]), selected: Some(2) };
    assert!(matches!(f.on_key(&state, Key::Enter), BrowserAction::Open(ref n) if n == "x"));
    assert!(matches!(f.on_key(&state, Key::ArrowUp), BrowserAction::Move(false)));
    assert!(matches!(f.on_key(&state, Key::Escape), BrowserAction::Move(false)));
    assert!(matches!(f.on_key(&state, Key::Tab), BrowserAction::Move(true)));
    assert!(matches!(f.on_key(&state, Key::ArrowDown), BrowserAction::Move(true)));
    assert!(matches!(f.on_key(&state, Key::Char('q')), BrowserAction::Finish(ref p) if p == "/tmp"));
    let at_dot = BrowserState { selected: Some(0), ..state };
    assert!(matches!(f.on_key(&at_dot, Key::Enter), BrowserAction::Finish(ref p) if p == "/tmp"));
    let none = BrowserState { selected: None, ..at_dot };
    assert!(matches!(f.on_key(&none, Key::Enter), BrowserAction::Finish(ref p) if p == "/tmp"));
}

#[test]
fn browser_start_and_moves() {
    let mut f: FileInput<()> = FileInput::new();
    f.default("/home".to_string()).with_prompt("Pick");
    let s = f.start(names(&["y", "x"]));
    assert_eq!(s.path, "/home");
    assert_eq!(s.entries, names(&[".", "..", "x", "y"]));
    assert_eq!(s.selected, Some(0));
    let s = f.moved(s, names(&["x", "y"]), false);
    assert_eq!(s.selected, Some(3));
    let s = f.moved(s, names(&["x", "y"]), true);
    assert_eq!(s.selected, Some(0));
    let d = f.descend("/home/x".to_string(), names(&["b", "a"]));
    assert_eq!(d.entries, names(&[".", "..", "a", "b"]));
    assert_eq!(d.selected, Some(0));
}

#[test]
fn browser_frame_highlights_selection() {
    let mut f: FileInput<()> = FileInput::new();
    f.with_prompt("Pick");
    let state = BrowserState { path: "/tmp".to_string(), entries: names(&[".", "..", "x"]), selected: Some(1) };
    let frame = f.render(&state);
    assert_eq!(frame.prompt, "Pick /tmp");
    assert_eq!(frame.lines.len(), 3);
    assert_eq!(frame.lines[1].text, "..");
    assert_eq!(frame.lines[1].style, SelectionStyle::MenuSelected);
    assert_eq!(frame.lines[0].style, SelectionStyle::MenuUnselected);
    assert_eq!(frame.lines[2].style, SelectionStyle::MenuUnselected);
}

#[test]
fn line_counter_tracks_redraws() {
    let mut c = LineCounter::new();
    c.wrote_prompt("Pick /tmp");
    assert_eq!(c.prompt_height, 1);
    assert_eq!(c.height, 0);
    c.wrote_line("a\nb");
    c.add_line();
    assert_eq!(c.height, 3);
    assert_eq!(c.clear(), 4);
    assert_eq!(c.height, 0);
    c.set_prompts_reset_height(false);
    c.set_prompt_height(1);
    c.wrote_prompt("x");
    c.wrote_str("partial");
    assert_eq!(c.height, 1);
    assert_eq!(c.clear(), 2);
    assert_eq!(count_newlines("\n\nx\n"), 3);
}

#[test]
fn password_prompt_and_state_follow_steps() {
    let mut p = PasswordInput::new();
    p.with_prompt("Password").with_confirmation("Again", "Mismatch");
    assert_eq!(p.prompt_for(&PasswordState::First), "Password");
    let first = PasswordState::Confirming("secret".to_string());
    assert_eq!(p.prompt_for(&first), "Again");
    match p.next_state(PasswordState::First, &PasswordStep::Confirm("secret".to_string())) {
        PasswordState::Confirming(s) => assert_eq!(s, "secret"),
        PasswordState::First => panic!("expected the confirmation state"),
    }
    assert!(matches!(p.next_state(first, &PasswordStep::Retry), PasswordState::Confirming(ref s) if s == "secret"));
    let again = PasswordState::Confirming("secret".to_string());
    assert!(matches!(p.next_state(again, &PasswordStep::Mismatch("Mismatch".to_string())), PasswordState::First));
}
