use habitat_ui::error::UiError;
use habitat_ui::stream::{ColorChoice, Command, InputStream};
use habitat_ui::text::trimmed;
use habitat_ui::ui::{ask_step, env_settings, yes_no_reply, yes_no_step, Reply, UIReader, UI};

fn text_of(cmds: &[Command]) -> String {
    let mut s = String::new();
    for c in cmds {
        if let Command::Write(w) = c {
            s.push_str(w);
        }
    }
    s
}

fn ui_with(input: &str) -> UI {
    UI::with_streams(input.to_string(), ColorChoice::Never, false)
}

#[test]
fn yes_no_blank_line_takes_default() {
    let mut ui = ui_with("\n");
    assert_eq!(ui.prompt_yes_no("Continue?", Some(true)), Ok(true));
    assert_eq!(text_of(&ui.take_out()), "Continue? [Yes/no/quit] ");
    let mut ui = ui_with("\n");
    assert_eq!(ui.prompt_yes_no("Continue?", Some(false)), Ok(false));
    assert_eq!(text_of(&ui.take_out()), "Continue? [yes/No/quit] ");
}

#[test]
fn yes_no_without_default_asks_again_on_blank_line() {
    let mut ui = ui_with("\nmaybe\n  N \n");
    assert_eq!(ui.prompt_yes_no("Sure?", None), Ok(false));
    assert_eq!(text_of(&ui.take_out()), "Sure? [yes/no/quit] ".repeat(3));
}

#[test]
fn yes_no_without_default_at_end_of_input() {
    let mut ui = ui_with("\n");
    assert_eq!(ui.prompt_yes_no("Sure?", None), Err(UiError::EndOfInput));
    assert_eq!(text_of(&ui.take_out()), "Sure? [yes/no/quit] ".repeat(2));
}

#[test]
fn yes_no_quit_and_yes() {
    let mut ui = ui_with("Quit\nyes\n");
    assert_eq!(ui.prompt_yes_no("Go?", Some(false)), Err(UiError::Quit));
    assert_eq!(ui.prompt_yes_no("Go?", Some(false)), Ok(true));
}

#[test]
fn reply_decisions() {
    assert_eq!(yes_no_reply("\n", Some(true)), Reply::Answer(true));
    assert_eq!(yes_no_reply("\n", None), Reply::Again);
    assert_eq!(yes_no_reply("  Yep\n", None), Reply::Answer(true));
    assert_eq!(yes_no_reply("nope", Some(true)), Reply::Answer(false));
    assert_eq!(yes_no_reply("q", None), Reply::Quit);
    assert_eq!(yes_no_reply("x", Some(true)), Reply::Again);
}

#[test]
fn ask_blank_line_takes_default() {
    let mut ui = ui_with("\n");
    assert_eq!(ui.prompt_ask("Name", Some("foo")), Ok("foo".to_string()));
    assert_eq!(text_of(&ui.take_out()), "Name: [default: foo] ");
}

#[test]
fn ask_trims_the_answer() {
    let mut ui = ui_with("  bar  \n");
    assert_eq!(ui.prompt_ask("Name", Some("foo")), Ok("bar".to_string()));
    let mut ui = ui_with("\t\nbaz\n");
    assert_eq!(ui.prompt_ask("Name", None), Ok("baz".to_string()));
    assert_eq!(text_of(&ui.take_out()), "Name:  Name:  ");
}

#[test]
fn ask_without_default_at_end_of_input() {
    let mut ui = ui_with("");
    assert_eq!(ui.prompt_ask("Name", None), Err(UiError::EndOfInput));
    let mut ui = ui_with("");
    assert_eq!(ui.prompt_ask("Name", Some("d")), Ok("d".to_string()));
}

#[test]
fn read_line_keeps_line_breaks() {
    let mut input = InputStream::new("one\ntwo".to_string(), true);
    assert!(input.is_a_terminal());
    assert_eq!(input.read_line(), Some("one\n".to_string()));
    assert_eq!(input.read_line(), Some("two".to_string()));
    assert_eq!(input.read_line(), None);
}

#[test]
fn trimming_removes_unicode_white_space() {
    assert_eq!(trimmed("\u{3000} a b \u{a0}\n"), "a b");
    assert_eq!(trimmed("   "), "");
}

#[test]
fn tty_needs_all_three_streams() {
    let ui = ui_with("");
    assert!(!ui.is_a_tty());
    let tty = UI::with_streams(String::new(), ColorChoice::Auto, true);
    assert!(tty.is_a_tty());
}

#[test]
fn environment_overrides() {
    assert_eq!(env_settings(None, None), (None, ColorChoice::Auto));
    assert_eq!(env_settings(Some("1"), Some("true")), (Some(false), ColorChoice::Never));
    assert_eq!(env_settings(Some("true"), Some("0")), (Some(false), ColorChoice::Auto));
    assert_eq!(env_settings(Some("yes"), Some("1")), (None, ColorChoice::Never));
    assert_eq!(env_settings(Some("TRUE"), Some("")), (None, ColorChoice::Auto));
}

#[test]
fn yes_no_steps() {
    assert_eq!(yes_no_step(Some("y\n"), None), Ok(Reply::Answer(true)));
    assert_eq!(yes_no_step(Some("\n"), None), Ok(Reply::Again));
    assert_eq!(yes_no_step(None, Some(false)), Ok(Reply::Answer(false)));
    assert_eq!(yes_no_step(None, None), Err(UiError::EndOfInput));
}

#[test]
fn ask_steps() {
    assert_eq!(ask_step(Some(" x \n"), None), Ok(Some("x".to_string())));
    assert_eq!(ask_step(Some("\n"), None), Ok(None));
    assert_eq!(ask_step(Some("\n"), Some("d")), Ok(Some("d".to_string())));
    assert_eq!(ask_step(None, Some("d")), Ok(Some("d".to_string())));
    assert_eq!(ask_step(None, None), Err(UiError::EndOfInput));
}
