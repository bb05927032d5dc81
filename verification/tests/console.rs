//! The console line editor and command parser.

use glw::console::Command;
use glw::console::Console;

fn type_line(console: &mut Console, line: &str) {
    for c in line.chars() {
        console.write(c);
    }
}

#[test]
fn quit_command_is_recognised() {
    let mut console = Console::new();
    type_line(&mut console, "/quit\n");
    let cmds = console.parse_commands();
    assert_eq!(cmds.len(), 1);
    assert!(matches!(cmds[0], Command::Quit));
    assert_eq!(console.input(), "");
    assert_eq!(console.output(), "/quit\n");
}

#[test]
fn quit_allows_trailing_spaces() {
    let mut console = Console::new();
    type_line(&mut console, "/quit  \r");
    let cmds = console.parse_commands();
    assert_eq!(cmds.len(), 1);
    assert!(matches!(cmds[0], Command::Quit));
}

#[test]
fn unknown_lines_come_back_as_invalid() {
    let mut console = Console::new();
    type_line(&mut console, "/help\n");
    let cmds = console.parse_commands();
    assert_eq!(cmds.len(), 1);
    match &cmds[0] {
        Command::Invalid(text) => assert_eq!(text, "/help"),
        Command::Quit => panic!("/help is not the quit command"),
    }
}

#[test]
fn an_unfinished_line_stays_buffered() {
    let mut console = Console::new();
    type_line(&mut console, "/qu");
    let cmds = console.parse_commands();
    assert!(cmds.is_empty());
    assert_eq!(console.input(), "/qu");
    assert_eq!(console.output(), "");
}

#[test]
fn backspace_deletes_the_last_character() {
    let mut console = Console::new();
    console.write('a');
    console.write('b');
    console.write('\u{8}');
    assert_eq!(console.input(), "a");
    // Backspace on an empty buffer is a no-op.
    console.write('\u{8}');
    console.write('\u{8}');
    assert_eq!(console.input(), "");
}

#[test]
fn leading_blanks_are_allowed_before_a_command() {
    let mut console = Console::new();
    type_line(&mut console, "  /quit\n");
    let cmds = console.parse_commands();
    assert_eq!(cmds.len(), 1);
    assert!(matches!(cmds[0], Command::Quit));
}
