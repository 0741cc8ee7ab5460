use crates_tui::action::{all_commands, help_commands, search_commands, Command};
use crates_tui::keybindings::KeyBindings;
use crates_tui::keyparse::parse_key_sequence;
use crates_tui::keys::{KeyCode, KeyEvent, ALT, CONTROL, SHIFT};
use crates_tui::keytext::{key_event_to_string, keys_to_string};
use crates_tui::mode::Mode;

#[test]
fn parses_bracketed_sequences() {
    assert_eq!(
        parse_key_sequence("<ctrl-a><b>"),
        Ok(vec![KeyEvent::new(KeyCode::Char('a'), CONTROL), KeyEvent::new(KeyCode::Char('b'), 0)])
    );
    assert_eq!(parse_key_sequence("<g><g>").unwrap().len(), 2);
}

#[test]
fn parses_single_keys() {
    assert_eq!(parse_key_sequence("q"), Ok(vec![KeyEvent::new(KeyCode::Char('q'), 0)]));
    assert_eq!(parse_key_sequence("<q>"), Ok(vec![KeyEvent::new(KeyCode::Char('q'), 0)]));
    assert_eq!(parse_key_sequence("<Enter>"), Ok(vec![KeyEvent::new(KeyCode::Enter, 0)]));
    assert_eq!(parse_key_sequence("<esc>"), Ok(vec![KeyEvent::new(KeyCode::Esc, 0)]));
    assert_eq!(parse_key_sequence("<f5>"), Ok(vec![KeyEvent::new(KeyCode::F(5), 0)]));
    assert_eq!(parse_key_sequence("<space>"), Ok(vec![KeyEvent::new(KeyCode::Char(' '), 0)]));
    assert_eq!(parse_key_sequence("<minus>"), Ok(vec![KeyEvent::new(KeyCode::Char('-'), 0)]));
}

#[test]
fn parses_modifiers() {
    assert_eq!(
        parse_key_sequence("<Shift-a>"),
        Ok(vec![KeyEvent::new(KeyCode::Char('A'), SHIFT)])
    );
    assert_eq!(
        parse_key_sequence("<backtab>"),
        Ok(vec![KeyEvent::new(KeyCode::BackTab, SHIFT)])
    );
    assert_eq!(
        parse_key_sequence("<CTRL-alt-x>"),
        Ok(vec![KeyEvent::new(KeyCode::Char('x'), CONTROL | ALT)])
    );
}

#[test]
fn rejects_bad_sequences() {
    assert_eq!(parse_key_sequence("<q"), Err("Unable to parse `<q`".to_string()));
    assert_eq!(parse_key_sequence("<foo>"), Err("Unable to parse foo".to_string()));
    assert_eq!(parse_key_sequence("gg"), Err("Unable to parse gg".to_string()));
    assert_eq!(parse_key_sequence("<a><nope>"), Err("Unable to parse nope".to_string()));
}

#[test]
fn shows_key_presses() {
    assert_eq!(
        key_event_to_string(&KeyEvent::new(KeyCode::Char('a'), CONTROL | SHIFT)),
        "Ctrl-Shift-a"
    );
    assert_eq!(key_event_to_string(&KeyEvent::new(KeyCode::F(12), 0)), "F(12)");
    assert_eq!(key_event_to_string(&KeyEvent::new(KeyCode::F(7), ALT)), "Alt-F(7)");
    assert_eq!(key_event_to_string(&KeyEvent::new(KeyCode::F(255), 0)), "F(255)");
    assert_eq!(key_event_to_string(&KeyEvent::new(KeyCode::Char(' '), 0)), "Space");
    assert_eq!(key_event_to_string(&KeyEvent::new(KeyCode::BackTab, SHIFT)), "Shift-Backtab");
    assert_eq!(key_event_to_string(&KeyEvent::new(KeyCode::Null, 0)), "");
    let seq = parse_key_sequence("<g><g>").unwrap();
    assert_eq!(keys_to_string(&seq), "gg");
}

#[test]
fn config_text_for_command() {
    let mut b = KeyBindings::new();
    b.insert(Mode::Summary, &parse_key_sequence("<ctrl-c>").unwrap(), Command::Quit);
    b.insert(Mode::Summary, &parse_key_sequence("<q>").unwrap(), Command::Quit);
    b.insert(Mode::Summary, &parse_key_sequence("<j>").unwrap(), Command::ScrollDown);
    let mut shown = b.get_config_for_command(Mode::Summary, Command::Quit);
    shown.sort();
    assert_eq!(shown, vec!["Ctrl-c".to_string(), "q".to_string()]);
    assert!(b.get_config_for_command(Mode::Help, Command::Quit).is_empty());
}

#[test]
fn help_lists_commands_by_mode() {
    let all = all_commands();
    assert_eq!(all.len(), 4);
    assert_eq!(all[0], (Mode::Help, help_commands()));
    assert_eq!(all[3].0, Mode::Search);
    assert_eq!(search_commands()[1], Command::SubmitSearch);
    assert_eq!(all[1].1.len(), 19);
}

#[test]
fn bound_sequences_are_listed_once() {
    let mut b = KeyBindings::new();
    let q = parse_key_sequence("<q>").unwrap();
    b.insert(Mode::Summary, &q, Command::Quit);
    b.insert(Mode::Summary, &q, Command::Quit);
    b.insert(Mode::Summary, &q, Command::Quit);
    assert_eq!(b.get_keybindings_for_command(Mode::Summary, Command::Quit), vec![q]);
}
