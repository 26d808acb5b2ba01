use pull_request_popup::component::{
    visibility_blocking, CommandBlocking, CommandInfo, EventState, CLOSE_DESC, CLOSE_NAME,
    GROUP_GENERAL,
};
use pull_request_popup::input::{
    key_match, press_matches, InputEvent, KeyBinding, KeyCode, KeyConfig, KeyInput, KeyKind,
    CONTROL, NO_MODIFIERS, SHIFT,
};
use pull_request_popup::layout::{centered_rect_absolute, Rect};
use pull_request_popup::pull_request::{Environment, PullRequestPopup, TITLE};

fn env() -> Environment {
    Environment { key_config: KeyConfig::new() }
}

fn key(code: KeyCode, modifiers: u8, kind: KeyKind) -> InputEvent {
    InputEvent::Key(KeyInput { code, modifiers, kind })
}

fn press(code: KeyCode) -> InputEvent {
    key(code, NO_MODIFIERS, KeyKind::Press)
}

fn every_kind_of_event() -> Vec<InputEvent> {
    vec![
        press(KeyCode::Esc),
        press(KeyCode::Char('q')),
        press(KeyCode::Enter),
        key(KeyCode::Esc, CONTROL, KeyKind::Press),
        key(KeyCode::Esc, NO_MODIFIERS, KeyKind::Release),
        key(KeyCode::Esc, NO_MODIFIERS, KeyKind::Repeat),
        InputEvent::FocusGained,
        InputEvent::FocusLost,
        InputEvent::Mouse,
        InputEvent::Paste,
        InputEvent::Resize(80, 24),
    ]
}

#[test]
fn starts_hidden() {
    let p = PullRequestPopup::new(&env());
    assert!(!p.is_visible());
}

#[test]
fn last_toggle_decides_visibility() {
    let mut p = PullRequestPopup::new(&env());
    p.show();
    p.show();
    assert!(p.is_visible());
    p.close();
    assert!(!p.is_visible());
    p.close();
    assert!(!p.is_visible());
    p.open();
    assert!(p.is_visible());
    p.close();
    p.show();
    assert!(p.is_visible());
}

#[test]
fn hidden_popup_draws_nothing_and_passes_events_on() {
    for ev in every_kind_of_event() {
        let mut p = PullRequestPopup::new(&env());
        assert!(p.draw(Rect::new(0, 0, 80, 24)).is_none());
        assert_eq!(p.event(&ev), EventState::NotConsumed);
        assert!(!p.is_visible());
    }
}

#[test]
fn shown_popup_consumes_every_event() {
    let exit = env().key_config.exit_popup;
    for ev in every_kind_of_event() {
        let mut p = PullRequestPopup::new(&env());
        p.open();
        assert_eq!(p.event(&ev), EventState::Consumed);
        let dismissed = ev == InputEvent::Key(KeyInput {
            code: exit.code,
            modifiers: exit.modifiers,
            kind: KeyKind::Press,
        });
        assert_eq!(p.is_visible(), !dismissed);
    }
}

#[test]
fn release_of_exit_key_keeps_popup_open() {
    let mut p = PullRequestPopup::new(&env());
    p.open();
    let ev = key(KeyCode::Esc, NO_MODIFIERS, KeyKind::Release);
    assert_eq!(p.event(&ev), EventState::Consumed);
    assert!(p.is_visible());
}

#[test]
fn custom_exit_key_is_honoured() {
    let keys = KeyConfig { exit_popup: KeyBinding { code: KeyCode::Char('x'), modifiers: CONTROL } };
    let mut p = PullRequestPopup::new(&Environment { key_config: keys });
    p.show();
    assert_eq!(p.event(&press(KeyCode::Esc)), EventState::Consumed);
    assert!(p.is_visible());
    assert_eq!(p.event(&press(KeyCode::Char('x'))), EventState::Consumed);
    assert!(p.is_visible());
    assert_eq!(p.event(&key(KeyCode::Char('x'), CONTROL, KeyKind::Press)), EventState::Consumed);
    assert!(!p.is_visible());
}

fn check_commands(p: &PullRequestPopup, visible: bool) {
    let earlier = CommandInfo::new(
        pull_request_popup::component::close_popup(&KeyConfig::new()),
        false,
        false,
    );
    let mut out = vec![earlier];
    let blocking = p.commands(&mut out, false);
    assert_eq!(out.len(), 2);
    assert!(!out[0].enabled);
    let c = &out[1];
    assert!(c.enabled);
    assert_eq!(c.available, visible);
    assert_eq!(c.text.name, CLOSE_NAME);
    assert_eq!(c.text.desc, CLOSE_DESC);
    assert_eq!(c.text.group, GROUP_GENERAL);
    assert_eq!(c.text.key, KeyBinding { code: KeyCode::Esc, modifiers: NO_MODIFIERS });
    let expected = if visible { CommandBlocking::Blocking } else { CommandBlocking::PassingOn };
    assert_eq!(blocking, expected);
}

#[test]
fn commands_mirror_visibility() {
    let mut p = PullRequestPopup::new(&env());
    check_commands(&p, false);
    p.show();
    check_commands(&p, true);
    let mut out = Vec::new();
    p.commands(&mut out, true);
    assert_eq!(out.len(), 1);
    p.close();
    check_commands(&p, false);
}

#[test]
fn open_then_other_key_then_exit_key() {
    let mut p = PullRequestPopup::new(&env());
    assert!(!p.is_visible());
    p.open();
    assert!(p.is_visible());
    assert_eq!(p.event(&press(KeyCode::Char('a'))), EventState::Consumed);
    assert!(p.is_visible());
    assert_eq!(p.event(&press(KeyCode::Esc)), EventState::Consumed);
    assert!(!p.is_visible());
}

#[test]
fn hidden_popup_ignores_key() {
    let mut p = PullRequestPopup::new(&env());
    assert_eq!(p.event(&press(KeyCode::Esc)), EventState::NotConsumed);
    assert!(!p.is_visible());
    assert_eq!(p.event(&press(KeyCode::Char('j'))), EventState::NotConsumed);
    assert!(!p.is_visible());
}

#[test]
fn shown_popup_draws_centred_dialog() {
    let mut p = PullRequestPopup::new(&env());
    p.open();
    let d = p.draw(Rect::new(0, 0, 80, 24)).unwrap();
    assert_eq!(d.area, Rect { x: 15, y: 7, width: 50, height: 10 });
    assert_eq!(d.title, TITLE);
    assert_eq!(d.lines.len(), 7);
    assert_eq!(d.lines[0], "");
    assert_eq!(d.lines[6], "Press Esc to close this dialog.");
    assert!(d.active);
}

#[test]
fn dialog_is_clipped_to_small_surface() {
    let mut p = PullRequestPopup::new(&env());
    p.show();
    let d = p.draw(Rect::new(0, 0, 30, 5)).unwrap();
    assert_eq!(d.area, Rect { x: 0, y: 0, width: 30, height: 5 });
    let d = p.draw(Rect::new(0, 0, 0, 0)).unwrap();
    assert_eq!(d.area, Rect { x: 0, y: 0, width: 0, height: 0 });
}

#[test]
fn centred_rect_respects_offset_and_odd_space() {
    let r = centered_rect_absolute(50, 10, Rect::new(3, 4, 81, 25));
    assert_eq!(r, Rect { x: 18, y: 11, width: 50, height: 10 });
}

#[test]
fn rect_new_clamps_to_coordinate_range() {
    assert_eq!(Rect::new(65000, 65530, 1000, 10), Rect { x: 65000, y: 65530, width: 535, height: 5 });
    assert_eq!(Rect::new(1, 2, 3, 4), Rect { x: 1, y: 2, width: 3, height: 4 });
}

#[test]
fn key_match_needs_code_and_modifiers() {
    let b = KeyBinding { code: KeyCode::Char('c'), modifiers: CONTROL };
    let k = KeyInput { code: KeyCode::Char('c'), modifiers: CONTROL, kind: KeyKind::Release };
    assert!(key_match(&k, b));
    assert!(!key_match(&KeyInput { modifiers: SHIFT, ..k }, b));
    assert!(!key_match(&KeyInput { code: KeyCode::Char('d'), ..k }, b));
    assert!(!press_matches(&InputEvent::Key(k), b));
    assert!(press_matches(&InputEvent::Key(KeyInput { kind: KeyKind::Press, ..k }), b));
    assert!(!press_matches(&InputEvent::Mouse, b));
}

#[test]
fn blocking_follows_visibility() {
    assert_eq!(visibility_blocking(true), CommandBlocking::Blocking);
    assert_eq!(visibility_blocking(false), CommandBlocking::PassingOn);
}
