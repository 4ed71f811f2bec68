use habitat_ui::progress::ConsoleProgressBar;
use habitat_ui::status::Status;
use habitat_ui::stream::{print, ColorChoice, ColorSpec, Command, OutputStream, WriteStream};
use habitat_ui::symbols::{Color, UISymbolStyle};
use habitat_ui::ui::{UIWriter, UI};
use habitat_ui::wrap::print_wrapped;

fn text_of(cmds: &[Command]) -> String {
    let mut s = String::new();
    for c in cmds {
        if let Command::Write(w) = c {
            s.push_str(w);
        }
    }
    s
}

fn ascii_ui() -> UI {
    let mut ui = UI::with_sinks();
    ui.set_symbol_style(UISymbolStyle::Ascii);
    ui
}

#[test]
fn fatal_frames_each_line() {
    let mut ui = ascii_ui();
    ui.fatal("a\nb");
    let err = text_of(&ui.take_err());
    assert_eq!(err, "XXX\nXXX a\nXXX b\nXXX\n");
    assert_eq!(err.lines().count(), 4);
    assert!(ui.take_out().is_empty());
}

#[test]
fn fatal_of_one_line_message() {
    let mut ui = UI::with_sinks();
    ui.fatal("boom");
    assert_eq!(text_of(&ui.take_err()), "✗✗✗\n✗✗✗ boom\n✗✗✗\n");
}

#[test]
fn fatal_drops_crlf_endings() {
    let mut ui = ascii_ui();
    ui.fatal("x\r\ny\n");
    assert_eq!(text_of(&ui.take_err()), "XXX\nXXX x\nXXX y\nXXX\n");
}

#[test]
fn title_is_underlined_by_character_count() {
    let mut ui = ascii_ui();
    ui.title("Report");
    assert_eq!(text_of(&ui.take_out()), "Report\n======\n\n");
    ui.title("Übersicht");
    assert_eq!(text_of(&ui.take_out()), "Übersicht\n=========\n\n");
}

#[test]
fn begin_end_and_warn_lines() {
    let mut ui = UI::with_sinks();
    ui.begin("Promoting core/foo");
    ui.end("Done");
    assert_eq!(text_of(&ui.take_out()), "» Promoting core/foo\n★ Done\n");
    ui.warn("careful");
    assert_eq!(text_of(&ui.take_err()), "Ø careful\n");
}

#[test]
fn status_line_has_styled_prefix_and_plain_message() {
    let mut ui = ascii_ui();
    ui.status(Status::Promoted, "core/foo");
    let out = ui.take_out();
    assert_eq!(text_of(&out), "[x] Promoted core/foo\n");
    assert!(matches!(out.last(), Some(Command::Flush)));
}

#[test]
fn info_heading_and_break() {
    let mut ui = ascii_ui();
    ui.info("plain");
    ui.heading("Section");
    ui.br();
    assert_eq!(text_of(&ui.take_out()), "plain\nSection\n\n\n");
}

#[test]
fn plain_sink_ignores_color() {
    let mut ui = ascii_ui();
    ui.begin("x");
    let out = ui.take_out();
    assert!(out
        .iter()
        .all(|c| !matches!(c, Command::SetColor(_) | Command::Reset)));
}

#[test]
fn color_stream_records_color_changes() {
    let mut s = OutputStream::new(WriteStream::Stream { supports_color: true }, ColorChoice::Always, true);
    assert!(s.supports_color());
    let spec = ColorSpec::new(Some(Color::Red), true);
    print(&mut s, "hi", &spec);
    let cmds = s.take_commands();
    assert_eq!(cmds.len(), 5);
    assert!(matches!(cmds[0], Command::Reset));
    assert!(matches!(cmds[1], Command::SetColor(c) if c == spec));
    assert!(matches!(&cmds[2], Command::Write(w) if w == "hi"));
    assert!(matches!(cmds[3], Command::Flush));
    assert!(matches!(cmds[4], Command::Reset));
    assert!(s.take_commands().is_empty());
}

#[test]
fn plain_stream_has_no_color_support() {
    let s = OutputStream::new(WriteStream::Write, ColorChoice::Always, false);
    assert!(!s.supports_color());
    let t = OutputStream::new(WriteStream::Stream { supports_color: false }, ColorChoice::Never, true);
    assert!(!t.supports_color());
    assert!(t.is_a_terminal());
}

#[test]
fn wrap_keeps_lines_within_width() {
    let mut s = OutputStream::new(WriteStream::Write, ColorChoice::Never, false);
    print_wrapped(&mut s, "a b c d e", 6, 0);
    let text = text_of(&s.take_commands());
    assert_eq!(text, "a b c \nd e \n\n");
    for line in text.lines() {
        assert!(line.chars().count() <= 6);
    }
}

#[test]
fn wrap_separates_paragraphs_with_blank_lines() {
    let mut s = OutputStream::new(WriteStream::Write, ColorChoice::Never, false);
    print_wrapped(&mut s, "one two\n\nthree", 20, 2);
    assert_eq!(text_of(&s.take_commands()), "  one two \n\n  three \n\n");
}

#[test]
fn wrap_counts_characters_not_bytes() {
    let mut s = OutputStream::new(WriteStream::Write, ColorChoice::Never, false);
    print_wrapped(&mut s, "ééé ééé", 8, 0);
    assert_eq!(text_of(&s.take_commands()), "ééé ééé \n\n");
}

#[test]
fn wrap_of_empty_text_is_one_blank_line() {
    let mut s = OutputStream::new(WriteStream::Write, ColorChoice::Never, false);
    print_wrapped(&mut s, "", 10, 2);
    assert_eq!(text_of(&s.take_commands()), "\n");
}

#[test]
fn wrap_puts_an_overlong_word_on_its_own_line() {
    let mut s = OutputStream::new(WriteStream::Write, ColorChoice::Never, false);
    print_wrapped(&mut s, "hi extraordinary ok", 8, 1);
    assert_eq!(text_of(&s.take_commands()), " hi \n extraordinary \n ok \n\n");
}

#[test]
fn para_wraps_at_75_with_indent_2() {
    let mut ui = ascii_ui();
    let word = "abcd";
    let text = vec![word; 20].join(" ");
    ui.para(&text);
    let out = text_of(&ui.take_out());
    let lines: Vec<&str> = out.lines().collect();
    assert_eq!(lines.len(), 3);
    assert_eq!(lines[0], format!("  {}", "abcd ".repeat(14)));
    assert_eq!(lines[1], format!("  {}", "abcd ".repeat(6)));
    assert_eq!(lines[2], "");
}

#[test]
fn progress_completes_once_on_exact_total() {
    let mut p = ConsoleProgressBar::new();
    p.size(100);
    assert!(!p.advance(60));
    assert!(p.advance(40));
    assert_eq!(p.current(), 100);
    assert!(!p.advance(0));
    assert!(!p.advance(10));
    assert_eq!(p.current(), 110);
    assert_eq!(p.total(), 100);
}

#[test]
fn progress_overshoot_never_completes() {
    let mut p = ConsoleProgressBar::default();
    p.size(50);
    assert!(!p.advance(30));
    assert!(!p.advance(30));
    assert!(!p.advance(1));
}

#[test]
fn progress_only_on_a_terminal() {
    let ui = UI::with_sinks();
    assert!(ui.progress().is_none());
    let tty = UI::with_streams(String::new(), ColorChoice::Never, true);
    let p = tty.progress().unwrap();
    assert_eq!((p.total(), p.current()), (0, 0));
    assert!(tty.is_out_a_terminal());
    assert!(tty.is_err_a_terminal());
}

#[test]
fn fatal_of_empty_message_has_three_lines() {
    let mut ui = ascii_ui();
    ui.fatal("");
    let err = text_of(&ui.take_err());
    assert_eq!(err, "XXX\nXXX \nXXX\n");
    assert_eq!(err.lines().count(), 3);
}
