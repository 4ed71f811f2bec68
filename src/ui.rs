use vstd::prelude::*;
use vstd::string::*;

use crate::progress::ConsoleProgressBar;
use crate::status::{status_parts, Status};
use crate::stream::{
    print_emits, println_emits, ColorChoice, ColorSpec, Command, Emit, InputStream,
    OutputStream, WriteStream,
};
use crate::error::UiError;
use crate::symbols::{color_of, glyph_text, UIColor, UISymbol, UISymbolStyle};
use crate::text::{
    lemma_line_len_bound, line_body, line_len, lines_of, strip_line_ending, trim, trimmed,
};
use crate::wrap::{print_wrapped, wrap_emits};

verus! {

/// Bold text in a semantic color.
pub open spec fn bold(c: UIColor) -> ColorSpec {
    ColorSpec { fg: Some(color_of(c)), bold: true }
}

/// Regular-weight text in a semantic color.
pub open spec fn tinted(c: UIColor) -> ColorSpec {
    ColorSpec { fg: Some(color_of(c)), bold: false }
}

/// A glyph, a space and a message.
pub open spec fn glyph_msg(sym: UISymbol, style: UISymbolStyle, msg: Seq<char>) -> Seq<char> {
    glyph_text(sym, style) + " "@ + msg
}

/// A title over an underline of `=` as long as the title in characters.
pub open spec fn title_text(t: Seq<char>) -> Seq<char> {
    t + "\n"@ + Seq::new(t.len(), |i: int| '=') + "\n"@
}

fn bold_spec(c: UIColor) -> (r: ColorSpec)
    ensures
        r == bold(c),
{
    ColorSpec::new(Some(c.to_color()), true)
}

fn tinted_spec(c: UIColor) -> (r: ColorSpec)
    ensures
        r == tinted(c),
{
    ColorSpec::new(Some(c.to_color()), false)
}

fn concat(a: &str, b: &str) -> (r: String)
    ensures
        r@ == a@ + b@,
{
    let mut r = String::from_str(a);
    r.append(b);
    r
}

fn concat3(a: &str, b: &str, c: &str) -> (r: String)
    ensures
        r@ == a@ + b@ + c@,
{
    let mut r = String::from_str(a);
    r.append(b);
    r.append(c);
    r
}

/// The input stream and the two output streams of one session.
#[derive(Debug)]
pub struct Shell {
    input: InputStream,
    out: OutputStream,
    err: OutputStream,
}

impl Shell {
    pub closed spec fn input_spec(&self) -> InputStream {
        self.input
    }

    pub closed spec fn out_spec(&self) -> OutputStream {
        self.out
    }

    pub closed spec fn err_spec(&self) -> OutputStream {
        self.err
    }

    pub fn new(input: InputStream, out: OutputStream, err: OutputStream) -> (r: Shell)
        ensures
            r.input_spec() == input,
            r.out_spec() == out,
            r.err_spec() == err,
    {
        Shell { input, out, err }
    }

    pub fn input(&self) -> (r: &InputStream)
        ensures
            *r == self.input_spec(),
    {
        &self.input
    }

    pub fn out(&self) -> (r: &OutputStream)
        ensures
            *r == self.out_spec(),
    {
        &self.out
    }

    pub fn err(&self) -> (r: &OutputStream)
        ensures
            *r == self.err_spec(),
    {
        &self.err
    }
}

/// Console-backed user interface: styled output and interactive input over
/// a `Shell`, drawing glyphs in the symbol style currently in force.
#[derive(Debug)]
pub struct UI {
    shell: Shell,
    style: UISymbolStyle,
}

impl UI {
    pub closed spec fn input_spec(&self) -> InputStream {
        self.shell.input
    }

    pub closed spec fn out_spec(&self) -> OutputStream {
        self.shell.out
    }

    pub closed spec fn err_spec(&self) -> OutputStream {
        self.shell.err
    }

    pub closed spec fn style_spec(&self) -> UISymbolStyle {
        self.style
    }

    /// Every part of the state but standard output is unchanged.
    pub open spec fn only_out_changed(&self, prev: &UI) -> bool {
        &&& self.input_spec() == prev.input_spec()
        &&& self.err_spec() == prev.err_spec()
        &&& self.style_spec() == prev.style_spec()
        &&& self.out_spec().kind() == prev.out_spec().kind()
        &&& self.out_spec().choice() == prev.out_spec().choice()
        &&& self.out_spec().terminal() == prev.out_spec().terminal()
    }

    /// Every part of the state but standard error is unchanged.
    pub open spec fn only_err_changed(&self, prev: &UI) -> bool {
        &&& self.input_spec() == prev.input_spec()
        &&& self.out_spec() == prev.out_spec()
        &&& self.style_spec() == prev.style_spec()
        &&& self.err_spec().kind() == prev.err_spec().kind()
        &&& self.err_spec().choice() == prev.err_spec().choice()
        &&& self.err_spec().terminal() == prev.err_spec().terminal()
    }

    /// Creates a `UI` over a `Shell`, drawing glyphs in the default style.
    pub fn new(shell: Shell) -> (r: UI)
        ensures
            r.input_spec() == shell.input_spec(),
            r.out_spec() == shell.out_spec(),
            r.err_spec() == shell.err_spec(),
            r.style_spec() == UISymbolStyle::Full,
    {
        UI { shell, style: UISymbolStyle::Full }
    }

    /// Creates a `UI` that reads `input` and records its output on plain
    /// sinks, which ignore color.
    pub fn with_streams(input: String, coloring: ColorChoice, isatty: bool) -> (r: UI)
        ensures
            r.input_spec().pending() == input@,
            r.input_spec().terminal() == isatty,
            r.out_spec().kind() == WriteStream::Write,
            r.err_spec().kind() == WriteStream::Write,
            r.out_spec().choice() == coloring,
            r.err_spec().choice() == coloring,
            r.out_spec().terminal() == isatty,
            r.err_spec().terminal() == isatty,
            r.out_spec().emitted() == Seq::<Emit>::empty(),
            r.err_spec().emitted() == Seq::<Emit>::empty(),
            r.style_spec() == UISymbolStyle::Full,
    {
        UI::new(
            Shell::new(
                InputStream::new(input, isatty),
                OutputStream::new(WriteStream::Write, coloring, isatty),
                OutputStream::new(WriteStream::Write, coloring, isatty),
            ),
        )
    }

    /// Creates a `UI` with empty input and plain sinks, not a terminal.
    pub fn with_sinks() -> (r: UI)
        ensures
            r.input_spec().pending() == Seq::<char>::empty(),
            !r.input_spec().terminal(),
            r.out_spec().kind() == WriteStream::Write,
            r.err_spec().kind() == WriteStream::Write,
            r.out_spec().choice() == ColorChoice::Never,
            r.err_spec().choice() == ColorChoice::Never,
            !r.out_spec().terminal(),
            !r.err_spec().terminal(),
            r.out_spec().emitted() == Seq::<Emit>::empty(),
            r.err_spec().emitted() == Seq::<Emit>::empty(),
            r.style_spec() == UISymbolStyle::Full,
    {
        UI::with_streams(String::new(), ColorChoice::Never, false)
    }

    pub fn shell(&self) -> (r: &Shell)
        ensures
            r.input_spec() == self.input_spec(),
            r.out_spec() == self.out_spec(),
            r.err_spec() == self.err_spec(),
    {
        &self.shell
    }

    /// Sets the symbol style in which glyphs are drawn from now on.
    pub fn set_symbol_style(&mut self, style: UISymbolStyle)
        ensures
            final(self).style_spec() == style,
            final(self).input_spec() == old(self).input_spec(),
            final(self).out_spec() == old(self).out_spec(),
            final(self).err_spec() == old(self).err_spec(),
    {
        self.style = style;
    }

    pub fn symbol_style(&self) -> (r: UISymbolStyle)
        ensures
            r == self.style_spec(),
    {
        self.style
    }

    /// Hands over what was issued on standard output so far.
    pub fn take_out(&mut self) -> (r: Vec<Command>)
        ensures
            r@.map_values(|c: Command| c@) == old(self).out_spec().emitted(),
            final(self).out_spec().emitted() == Seq::<Emit>::empty(),
            final(self).only_out_changed(old(self)),
    {
        self.shell.out.take_commands()
    }

    /// Hands over what was issued on standard error so far.
    pub fn take_err(&mut self) -> (r: Vec<Command>)
        ensures
            r@.map_values(|c: Command| c@) == old(self).err_spec().emitted(),
            final(self).err_spec().emitted() == Seq::<Emit>::empty(),
            final(self).only_err_changed(old(self)),
    {
        self.shell.err.take_commands()
    }
}

/// The lines that `fatal` writes for the lines of its message.
pub open spec fn fatal_body(ls: Seq<Seq<char>>, colored: bool, style: UISymbolStyle) -> Seq<Emit>
    decreases ls.len(),
{
    if ls.len() == 0 {
        seq![]
    } else {
        fatal_body(ls.drop_last(), colored, style) + println_emits(
            colored,
            glyph_msg(UISymbol::ErrorX, style, ls.last()),
            bold(UIColor::Critical),
        )
    }
}

/// Everything `fatal` writes: a framing line, one line per line of the
/// message, a framing line.
pub open spec fn fatal_emits(msg: Seq<char>, colored: bool, style: UISymbolStyle) -> Seq<Emit> {
    let frame = println_emits(colored, glyph_text(UISymbol::ErrorX, style), bold(UIColor::Critical));
    frame + fatal_body(fatal_lines(msg), colored, style) + frame
}

/// The lines of a fatal message; an empty message counts as one empty line,
/// so that every fatal report has at least three lines.
pub open spec fn fatal_lines(msg: Seq<char>) -> Seq<Seq<char>> {
    if msg.len() == 0 {
        seq![Seq::<char>::empty()]
    } else {
        lines_of(msg)
    }
}

/// Everything `status` writes: the styled glyph and label, then the message.
pub open spec fn status_emits(
    colored: bool,
    status: Status,
    msg: Seq<char>,
    style: UISymbolStyle,
) -> Seq<Emit> {
    let (g, label, c) = status_parts(status);
    print_emits(colored, glyph_msg(g, style, label), bold(c)) + seq![
        Emit::Write(" "@ + msg + "\n"@),
        Emit::Flush,
    ]
}

/// Structured, colorized output operations.
pub trait UIWriter {
    /// Whether standard output is attached to a terminal.
    fn is_out_a_terminal(&self) -> bool;

    /// Whether standard error is attached to a terminal.
    fn is_err_a_terminal(&self) -> bool;

    /// A progress display, only when standard output is a terminal.
    fn progress(&self) -> Option<ConsoleProgressBar>;

    fn begin(&mut self, message: &str);

    fn end(&mut self, message: &str);

    fn status(&mut self, status: Status, message: &str);

    fn info(&mut self, text: &str);

    fn warn(&mut self, message: &str);

    fn fatal(&mut self, message: &str);

    fn title(&mut self, text: &str);

    fn heading(&mut self, text: &str);

    fn para(&mut self, text: &str)
        requires
            text@.len() < isize::MAX,
    ;

    fn br(&mut self);
}

impl UIWriter for UI {
    fn is_out_a_terminal(&self) -> (r: bool)
        ensures
            r == self.out_spec().terminal(),
    {
        self.shell.out.is_a_terminal()
    }

    fn is_err_a_terminal(&self) -> (r: bool)
        ensures
            r == self.err_spec().terminal(),
    {
        self.shell.err.is_a_terminal()
    }

    fn progress(&self) -> (r: Option<ConsoleProgressBar>)
        ensures
            self.out_spec().terminal() ==> (r matches Some(p) && p.declared_total() == 0
                && p.bytes_seen() == 0),
            !self.out_spec().terminal() ==> r is None,
    {
        if self.is_out_a_terminal() {
            Some(ConsoleProgressBar::new())
        } else {
            None
        }
    }

    /// Writes `<right-shift> <message>` in bold warning color.
    fn begin(&mut self, message: &str)
        ensures
            final(self).out_spec().emitted() == old(self).out_spec().emitted() + println_emits(
                old(self).out_spec().colored(),
                glyph_msg(UISymbol::RightShift, old(self).style_spec(), message@),
                bold(UIColor::Warn),
            ),
            final(self).only_out_changed(old(self)),
    {
        let line = concat3(UISymbol::RightShift.to_str(self.style), " ", message);
        crate::stream::println(&mut self.shell.out, line.as_str(), &bold_spec(UIColor::Warn));
    }

    /// Writes `<star> <message>` in bold end color.
    fn end(&mut self, message: &str)
        ensures
            final(self).out_spec().emitted() == old(self).out_spec().emitted() + println_emits(
                old(self).out_spec().colored(),
                glyph_msg(UISymbol::Star, old(self).style_spec(), message@),
                bold(UIColor::End),
            ),
            final(self).only_out_changed(old(self)),
    {
        let line = concat3(UISymbol::Star.to_str(self.style), " ", message);
        crate::stream::println(&mut self.shell.out, line.as_str(), &bold_spec(UIColor::End));
    }

    /// Writes the status glyph and label in the status color, then the
    /// message unstyled.
    fn status(&mut self, status: Status, message: &str)
        ensures
            final(self).out_spec().emitted() == old(self).out_spec().emitted() + status_emits(
                old(self).out_spec().colored(),
                status,
                message@,
                old(self).style_spec(),
            ),
            final(self).only_out_changed(old(self)),
    {
        let (symbol, label, color) = status.parts();
        let head = concat3(symbol.to_str(self.style), " ", label.as_str());
        crate::stream::print(&mut self.shell.out, head.as_str(), &bold_spec(color));
        let tail = concat3(" ", message, "\n");
        self.shell.out.write_all(tail.as_str());
        self.shell.out.flush();
    }

    /// Writes `<text>` and a line break, unstyled.
    fn info(&mut self, text: &str)
        ensures
            final(self).out_spec().emitted() == old(self).out_spec().emitted() + seq![
                Emit::Write(text@ + "\n"@),
                Emit::Flush,
            ],
            final(self).only_out_changed(old(self)),
    {
        let line = concat(text, "\n");
        self.shell.out.write_all(line.as_str());
        self.shell.out.flush();
    }

    /// Writes `<slashed-zero> <message>` in bold warning color to standard
    /// error.
    fn warn(&mut self, message: &str)
        ensures
            final(self).err_spec().emitted() == old(self).err_spec().emitted() + println_emits(
                old(self).err_spec().colored(),
                glyph_msg(UISymbol::SlashedZero, old(self).style_spec(), message@),
                bold(UIColor::Warn),
            ),
            final(self).only_err_changed(old(self)),
    {
        let line = concat3(UISymbol::SlashedZero.to_str(self.style), " ", message);
        crate::stream::println(&mut self.shell.err, line.as_str(), &bold_spec(UIColor::Warn));
    }

    /// Writes each line of `message` after the error glyph, between two
    /// lines of the error glyph alone, in bold critical color to standard
    /// error.
    fn fatal(&mut self, message: &str)
        ensures
            final(self).err_spec().emitted() == old(self).err_spec().emitted() + fatal_emits(
                message@,
                old(self).err_spec().colored(),
                old(self).style_spec(),
            ),
            final(self).only_err_changed(old(self)),
    {
        let ghost colored = old(self).err_spec().colored();
        let ghost e0 = old(self).err_spec().emitted();
        let glyph = UISymbol::ErrorX.to_str(self.style);
        let spec = bold_spec(UIColor::Critical);
        crate::stream::println(&mut self.shell.err, glyph, &spec);
        let ghost e1 = self.shell.err.emitted();
        let ghost mut done: Seq<Seq<char>> = seq![];
        if message.is_empty() {
            let line = concat(glyph, " ");
            crate::stream::println(&mut self.shell.err, line.as_str(), &spec);
            proof {
                assert(line@ =~= glyph_msg(UISymbol::ErrorX, self.style, Seq::<char>::empty()));
                done = seq![Seq::<char>::empty()];
                assert(done.drop_last() =~= Seq::<Seq<char>>::empty());
                assert(fatal_body(done.drop_last(), colored, self.style) == Seq::<Emit>::empty());
                assert(fatal_body(done, colored, self.style) =~= println_emits(
                    colored,
                    line@,
                    spec,
                ));
            }
        } else {
            let mut lines = InputStream::new(String::from_str(message), false);
            assert(done + lines_of(lines.pending()) =~= lines_of(message@));
            assert(fatal_body(done, colored, self.style) == Seq::<Emit>::empty());
            assert(e1 =~= e1 + Seq::<Emit>::empty());
            loop
                invariant
                    done + lines_of(lines.pending()) == lines_of(message@),
                    self.shell.err.emitted() == e1 + fatal_body(done, colored, self.style),
                    colored == self.shell.err.colored(),
                    spec == bold(UIColor::Critical),
                    glyph@ == glyph_text(UISymbol::ErrorX, self.style),
                    self.shell.input == old(self).shell.input,
                    self.shell.out == old(self).shell.out,
                    self.style == old(self).style,
                    self.shell.err.kind() == old(self).shell.err.kind(),
                    self.shell.err.choice() == old(self).shell.err.choice(),
                    self.shell.err.terminal() == old(self).shell.err.terminal(),
                ensures
                    done == lines_of(message@),
                    self.shell.err.emitted() == e1 + fatal_body(done, colored, self.style),
                    self.shell.input == old(self).shell.input,
                    self.shell.out == old(self).shell.out,
                    self.style == old(self).style,
                    self.shell.err.kind() == old(self).shell.err.kind(),
                    self.shell.err.choice() == old(self).shell.err.choice(),
                    self.shell.err.terminal() == old(self).shell.err.terminal(),
                decreases lines.pending().len(),
            {
                let ghost before = lines.pending();
                match lines.read_line() {
                    None => {
                        assert(done =~= done + lines_of(before));
                        break;
                    },
                    Some(raw) => {
                        let body = strip_line_ending(raw.as_str());
                        let line = concat3(glyph, " ", body.as_str());
                        crate::stream::println(&mut self.shell.err, line.as_str(), &spec);
                        proof {
                            lemma_line_len_bound(before);
                            let l = line_body(before.take(line_len(before) as int));
                            assert(lines_of(before) == seq![l] + lines_of(lines.pending()));
                            assert(done.push(l).drop_last() =~= done);
                            assert(done + lines_of(before) =~= done.push(l) + lines_of(lines.pending()));
                            done = done.push(l);
                        }
                    },
                }
            }
        }
        assert(done == fatal_lines(message@));
        crate::stream::println(&mut self.shell.err, glyph, &spec);
    }

    /// Writes `<text>`, a line break, and an underline of `=` as long as the
    /// text in characters, in bold info color.
    fn title(&mut self, text: &str)
        ensures
            final(self).out_spec().emitted() == old(self).out_spec().emitted() + println_emits(
                old(self).out_spec().colored(),
                title_text(text@),
                bold(UIColor::Info),
            ),
            final(self).only_out_changed(old(self)),
    {
        let n = text.unicode_len();
        let mut body = concat(text, "\n");
        let mut i: usize = 0;
        while i < n
            invariant
                i <= n,
                n == text@.len(),
                body@ == text@ + "\n"@ + Seq::new(i as nat, |k: int| '='),
            decreases n - i,
        {
            body.append("=");
            proof {
                reveal_strlit("=");
            }
            i = i + 1;
            assert(body@ =~= text@ + "\n"@ + Seq::new(i as nat, |k: int| '='));
        }
        body.append("\n");
        crate::stream::println(&mut self.shell.out, body.as_str(), &bold_spec(UIColor::Info));
    }

    /// Writes `<text>` and a line break in bold info color.
    fn heading(&mut self, text: &str)
        ensures
            final(self).out_spec().emitted() == old(self).out_spec().emitted() + println_emits(
                old(self).out_spec().colored(),
                text@ + "\n"@,
                bold(UIColor::Info),
            ),
            final(self).only_out_changed(old(self)),
    {
        let body = concat(text, "\n");
        crate::stream::println(&mut self.shell.out, body.as_str(), &bold_spec(UIColor::Info));
    }

    /// Writes `text` word-wrapped to 75 columns with an indent of 2.
    fn para(&mut self, text: &str)
        ensures
            final(self).out_spec().emitted() == old(self).out_spec().emitted() + wrap_emits(
                text@,
                75,
                2,
            ),
            final(self).only_out_changed(old(self)),
    {
        print_wrapped(&mut self.shell.out, text, 75, 2);
    }

    /// Writes a single line break.
    fn br(&mut self)
        ensures
            final(self).out_spec().emitted() == old(self).out_spec().emitted() + seq![
                Emit::Write("\n"@),
                Emit::Flush,
            ],
            final(self).only_out_changed(old(self)),
    {
        self.shell.out.write_all("\n");
        self.shell.out.flush();
    }
}

/// How one line of input answers a yes/no question.
#[derive(Clone, Copy, Debug, PartialEq, Eq, Structural)]
pub enum Reply {
    /// A definitive answer.
    Answer(bool),
    /// The operator asked to quit.
    Quit,
    /// No usable answer: ask again.
    Again,
}

/// Interprets a line by the first character after leading white space; a
/// blank line takes the default, if there is one.
pub open spec fn yes_no_reply_spec(line: Seq<char>, default: Option<bool>) -> Reply {
    let t = trim(line);
    if t.len() == 0 {
        match default {
            Some(b) => Reply::Answer(b),
            None => Reply::Again,
        }
    } else if t[0] == 'y' || t[0] == 'Y' {
        Reply::Answer(true)
    } else if t[0] == 'n' || t[0] == 'N' {
        Reply::Answer(false)
    } else if t[0] == 'q' || t[0] == 'Q' {
        Reply::Quit
    } else {
        Reply::Again
    }
}

/// Interprets one line of input as an answer to a yes/no question.
pub fn yes_no_reply(response: &str, default: Option<bool>) -> (r: Reply)
    ensures
        r == yes_no_reply_spec(response@, default),
{
    let t = trimmed(response);
    if t.unicode_len() == 0 {
        match default {
            Some(b) => Reply::Answer(b),
            None => Reply::Again,
        }
    } else {
        let c = t.as_str().get_char(0);
        if c == 'y' || c == 'Y' {
            Reply::Answer(true)
        } else if c == 'n' || c == 'N' {
            Reply::Answer(false)
        } else if c == 'q' || c == 'Q' {
            Reply::Quit
        } else {
            Reply::Again
        }
    }
}

/// How one line answers an open question: the line trimmed, unless it is
/// blank, in which case the default, if there is one.
pub open spec fn ask_reply_spec(line: Seq<char>, default: Option<Seq<char>>) -> Option<Seq<char>> {
    if trim(line).len() > 0 {
        Some(trim(line))
    } else {
        default
    }
}

/// Interprets one line of input as an answer to an open question; `None`
/// means ask again.
pub fn ask_reply(response: &str, default: Option<&str>) -> (r: Option<String>)
    ensures
        match ask_reply_spec(response@, opt_view(default)) {
            Some(v) => r matches Some(a) && a@ == v,
            None => r is None,
        },
{
    let t = trimmed(response);
    if t.unicode_len() > 0 {
        Some(t)
    } else {
        match default {
            Some(d) => Some(String::from_str(d)),
            None => None,
        }
    }
}

/// What a yes/no prompt does with the next line of input; `None` stands
/// for the end of the input, which takes the default if there is one.
pub fn yes_no_step(response: Option<&str>, default: Option<bool>) -> (r: Result<Reply, UiError>)
    ensures
        response matches Some(l) ==> r == Ok::<Reply, UiError>(yes_no_reply_spec(l@, default)),
        response is None ==> r == match default {
            Some(b) => Ok::<Reply, UiError>(Reply::Answer(b)),
            None => Err(UiError::EndOfInput),
        },
{
    match response {
        Some(l) => Ok(yes_no_reply(l, default)),
        None => match default {
            Some(b) => Ok(Reply::Answer(b)),
            None => Err(UiError::EndOfInput),
        },
    }
}

/// What an open question does with the next line of input: `Ok(Some(_))`
/// is the answer, `Ok(None)` means ask again. `None` stands for the end of
/// the input, which takes the default if there is one.
pub fn ask_step(response: Option<&str>, default: Option<&str>) -> (r: Result<Option<String>, UiError>)
    ensures
        match response {
            Some(l) => match ask_reply_spec(l@, opt_view(default)) {
                Some(v) => r matches Ok(Some(a)) && a@ == v,
                None => r matches Ok(None),
            },
            None => match default {
                Some(d) => r matches Ok(Some(a)) && a@ == d@,
                None => r == Err::<Option<String>, UiError>(UiError::EndOfInput),
            },
        },
{
    match response {
        Some(l) => Ok(ask_reply(l, default)),
        None => match default {
            Some(d) => Ok(Some(String::from_str(d))),
            None => Err(UiError::EndOfInput),
        },
    }
}

/// A boolean environment value: `"1"` or `"true"`.
pub open spec fn truthy(v: Option<Seq<char>>) -> bool {
    v == Some("1"@) || v == Some("true"@)
}

fn is_truthy(v: Option<&str>) -> (r: bool)
    ensures
        r == truthy(opt_view(v)),
{
    match v {
        Some(s) => {
            let t = String::from_str(s);
            t == String::from_str("1") || t == String::from_str("true")
        },
        None => false,
    }
}

/// The terminal hint and color policy that the non-interactive and
/// no-coloring overrides select: a truthy non-interactive value forces
/// non-terminal streams, a truthy no-coloring value forces `Never`; else
/// terminals are detected and color is `Auto`.
pub fn env_settings(noninteractive: Option<&str>, nocoloring: Option<&str>) -> (r: (
    Option<bool>,
    ColorChoice,
))
    ensures
        r.0 == (if truthy(opt_view(noninteractive)) {
            Some(false)
        } else {
            None::<bool>
        }),
        r.1 == (if truthy(opt_view(nocoloring)) {
            ColorChoice::Never
        } else {
            ColorChoice::Auto
        }),
{
    let isatty = if is_truthy(noninteractive) {
        Some(false)
    } else {
        None
    };
    let coloring = if is_truthy(nocoloring) {
        ColorChoice::Never
    } else {
        ColorChoice::Auto
    };
    (isatty, coloring)
}

/// The bracketed hint of a yes/no question: the part before the default,
/// the default in bold, the part after it.
pub open spec fn yes_no_hint(default: Option<bool>) -> (Seq<char>, Seq<char>, Seq<char>) {
    match default {
        Some(true) => ("["@, "Yes"@, "/no/quit]"@),
        Some(false) => ("[yes/"@, "No"@, "/quit]"@),
        None => ("[yes/no/quit]"@, ""@, ""@),
    }
}

/// What one asking of a yes/no question writes.
pub open spec fn yes_no_prompt_emits(colored: bool, question: Seq<char>, default: Option<bool>) -> Seq<
    Emit,
> {
    let (prefix, shown, suffix) = yes_no_hint(default);
    print_emits(colored, question, tinted(UIColor::Important)) + print_emits(
        colored,
        " "@ + prefix,
        tinted(UIColor::Plain),
    ) + print_emits(colored, shown, bold(UIColor::Plain)) + print_emits(
        colored,
        suffix + " "@,
        tinted(UIColor::Plain),
    )
}

/// `e` written `k` times.
pub open spec fn repeat_emits(e: Seq<Emit>, k: nat) -> Seq<Emit>
    decreases k,
{
    if k == 0 {
        seq![]
    } else {
        repeat_emits(e, (k - 1) as nat) + e
    }
}

/// A yes/no session over the input `input`: the outcome, how many times
/// the question was asked, and the input left over.
pub open spec fn yes_no_session(input: Seq<char>, default: Option<bool>) -> (
    Result<bool, UiError>,
    nat,
    Seq<char>,
)
    decreases input.len(),
    via yes_no_session_decreases
{
    if input.len() == 0 {
        (
            match default {
                Some(b) => Ok(b),
                None => Err(UiError::EndOfInput),
            },
            1,
            input,
        )
    } else {
        let n = line_len(input) as int;
        match yes_no_reply_spec(input.take(n), default) {
            Reply::Answer(b) => (Ok(b), 1, input.skip(n)),
            Reply::Quit => (Err(UiError::Quit), 1, input.skip(n)),
            Reply::Again => {
                let r = yes_no_session(input.skip(n), default);
                (r.0, r.1 + 1, r.2)
            },
        }
    }
}

#[via_fn]
proof fn yes_no_session_decreases(input: Seq<char>, default: Option<bool>) {
    lemma_line_len_bound(input);
}

pub open spec fn opt_view(o: Option<&str>) -> Option<Seq<char>> {
    match o {
        Some(d) => Some(d@),
        None => None,
    }
}

/// What one asking of an open question writes.
pub open spec fn ask_prompt_emits(colored: bool, question: Seq<char>, default: Option<Seq<char>>) -> Seq<
    Emit,
> {
    print_emits(colored, question, tinted(UIColor::Important)) + seq![Emit::Write(": "@)] + match default {
        Some(d) => print_emits(colored, "[default: "@, tinted(UIColor::Plain)) + print_emits(
            colored,
            d,
            bold(UIColor::Plain),
        ) + print_emits(colored, "]"@, tinted(UIColor::Plain)),
        None => seq![],
    } + seq![Emit::Write(" "@), Emit::Flush]
}

/// An open-question session over the input `input`: the answer (`None`
/// when the input ran out with no default), how many times the question
/// was asked, and the input left over.
pub open spec fn ask_session(input: Seq<char>, default: Option<Seq<char>>) -> (
    Option<Seq<char>>,
    nat,
    Seq<char>,
)
    decreases input.len(),
    via ask_session_decreases
{
    if input.len() == 0 {
        (default, 1, input)
    } else {
        let n = line_len(input) as int;
        let t = trim(input.take(n));
        if t.len() > 0 {
            (Some(t), 1, input.skip(n))
        } else {
            match default {
                Some(d) => (Some(d), 1, input.skip(n)),
                None => {
                    let r = ask_session(input.skip(n), default);
                    (r.0, r.1 + 1, r.2)
                },
            }
        }
    }
}

#[via_fn]
proof fn ask_session_decreases(input: Seq<char>, default: Option<Seq<char>>) {
    lemma_line_len_bound(input);
}

impl UI {
    /// Asks a yes/no question once, with a hint that shows the default.
    pub fn render_yes_no(&mut self, question: &str, default: Option<bool>)
        ensures
            final(self).out_spec().emitted() == old(self).out_spec().emitted() + yes_no_prompt_emits(
                old(self).out_spec().colored(),
                question@,
                default,
            ),
            final(self).only_out_changed(old(self)),
    {
        let (prefix, shown, suffix) = match default {
            Some(true) => ("[", "Yes", "/no/quit]"),
            Some(false) => ("[yes/", "No", "/quit]"),
            None => ("[yes/no/quit]", "", ""),
        };
        let ghost e0 = self.shell.out.emitted();
        let stream = &mut self.shell.out;
        crate::stream::print(stream, question, &tinted_spec(UIColor::Important));
        crate::stream::print(stream, concat(" ", prefix).as_str(), &tinted_spec(UIColor::Plain));
        crate::stream::print(stream, shown, &bold_spec(UIColor::Plain));
        crate::stream::print(stream, concat(suffix, " ").as_str(), &tinted_spec(UIColor::Plain));
        assert(self.shell.out.emitted() =~= e0 + yes_no_prompt_emits(
            old(self).out_spec().colored(),
            question@,
            default,
        ));
    }

    /// Asks an open question once, with the default shown if there is one.
    pub fn render_ask(&mut self, question: &str, default: Option<&str>)
        ensures
            final(self).out_spec().emitted() == old(self).out_spec().emitted() + ask_prompt_emits(
                old(self).out_spec().colored(),
                question@,
                opt_view(default),
            ),
            final(self).only_out_changed(old(self)),
    {
        let ghost e0 = self.shell.out.emitted();
        let stream = &mut self.shell.out;
        crate::stream::print(stream, question, &tinted_spec(UIColor::Important));
        stream.write_all(": ");
        let ghost e1 = stream.emitted();
        if let Some(d) = default {
            crate::stream::print(stream, "[default: ", &tinted_spec(UIColor::Plain));
            crate::stream::print(stream, d, &bold_spec(UIColor::Plain));
            crate::stream::print(stream, "]", &tinted_spec(UIColor::Plain));
        } else {
            assert(stream.emitted() =~= e1 + Seq::<Emit>::empty());
        }
        stream.write_all(" ");
        stream.flush();
        assert(self.shell.out.emitted() =~= e0 + ask_prompt_emits(
            old(self).out_spec().colored(),
            question@,
            opt_view(default),
        ));
    }
}

/// Interactive input operations.
pub trait UIReader {
    /// Whether input, output and error are all attached to a terminal.
    fn is_a_tty(&self) -> bool;

    fn prompt_ask(&mut self, question: &str, default: Option<&str>) -> Result<String, UiError>;

    fn prompt_yes_no(&mut self, question: &str, default: Option<bool>) -> Result<bool, UiError>;
}

impl UIReader for UI {
    fn is_a_tty(&self) -> (r: bool)
        ensures
            r == (self.input_spec().terminal() && self.out_spec().terminal()
                && self.err_spec().terminal()),
    {
        self.shell.input.is_a_terminal() && self.shell.out.is_a_terminal()
            && self.shell.err.is_a_terminal()
    }

    /// Asks until a line that is not blank is read, and returns it trimmed;
    /// a blank line, or the end of the input, takes the default if there is
    /// one. Without a default the end of the input is `EndOfInput`.
    fn prompt_ask(&mut self, question: &str, default: Option<&str>) -> (r: Result<String, UiError>)
        ensures
            ({
                let (res, k, rest) = ask_session(old(self).input_spec().pending(), opt_view(default));
                &&& match res {
                    Some(v) => r matches Ok(a) && a@ == v,
                    None => r == Err::<String, UiError>(UiError::EndOfInput),
                }
                &&& final(self).out_spec().emitted() == old(self).out_spec().emitted()
                    + repeat_emits(
                    ask_prompt_emits(old(self).out_spec().colored(), question@, opt_view(default)),
                    k,
                )
                &&& final(self).input_spec().pending() == rest
            }),
            final(self).input_spec().terminal() == old(self).input_spec().terminal(),
            final(self).err_spec() == old(self).err_spec(),
            final(self).style_spec() == old(self).style_spec(),
            final(self).out_spec().kind() == old(self).out_spec().kind(),
            final(self).out_spec().choice() == old(self).out_spec().choice(),
            final(self).out_spec().terminal() == old(self).out_spec().terminal(),
    {
        let ghost s0 = self.shell.input.pending();
        let ghost d = opt_view(default);
        let ghost e0 = self.shell.out.emitted();
        let ghost block = ask_prompt_emits(self.shell.out.colored(), question@, d);
        let ghost mut count: nat = 0;
        assert(e0 =~= e0 + repeat_emits(block, 0));
        loop
            invariant
                ask_session(s0, d).0 == ask_session(self.shell.input.pending(), d).0,
                ask_session(s0, d).1 == count + ask_session(self.shell.input.pending(), d).1,
                ask_session(s0, d).2 == ask_session(self.shell.input.pending(), d).2,
                d == opt_view(default),
                block == ask_prompt_emits(self.shell.out.colored(), question@, d),
                self.shell.out.emitted() == e0 + repeat_emits(block, count),
                s0 == old(self).shell.input.pending(),
                e0 == old(self).shell.out.emitted(),
                self.shell.input.terminal() == old(self).shell.input.terminal(),
                self.shell.err == old(self).shell.err,
                self.style == old(self).style,
                self.shell.out.kind() == old(self).shell.out.kind(),
                self.shell.out.choice() == old(self).shell.out.choice(),
                self.shell.out.terminal() == old(self).shell.out.terminal(),
            decreases self.shell.input.pending().len(),
        {
            self.render_ask(question, default);
            assert(e0 + repeat_emits(block, count + 1) =~= e0 + repeat_emits(block, count) + block);
            let ghost before = self.shell.input.pending();
            proof {
                lemma_line_len_bound(before);
            }
            match self.shell.input.read_line() {
                None => {
                    return match default {
                        Some(v) => Ok(String::from_str(v)),
                        None => Err(UiError::EndOfInput),
                    };
                },
                Some(line) => {
                    let t = trimmed(line.as_str());
                    if t.unicode_len() > 0 {
                        return Ok(t);
                    }
                    match default {
                        Some(v) => {
                            return Ok(String::from_str(v));
                        },
                        None => {
                            proof {
                                count = count + 1;
                            }
                        },
                    }
                },
            }
        }
    }

    /// Asks until a line answers yes, no or quit; a blank line, or the end
    /// of the input, takes the default if there is one. Without a default
    /// the end of the input is `EndOfInput`; quitting is `Quit`, on which the
    /// caller ends the process with success.
    fn prompt_yes_no(&mut self, question: &str, default: Option<bool>) -> (r: Result<bool, UiError>)
        ensures
            ({
                let (res, k, rest) = yes_no_session(old(self).input_spec().pending(), default);
                &&& r == res
                &&& final(self).out_spec().emitted() == old(self).out_spec().emitted()
                    + repeat_emits(
                    yes_no_prompt_emits(old(self).out_spec().colored(), question@, default),
                    k,
                )
                &&& final(self).input_spec().pending() == rest
            }),
            final(self).input_spec().terminal() == old(self).input_spec().terminal(),
            final(self).err_spec() == old(self).err_spec(),
            final(self).style_spec() == old(self).style_spec(),
            final(self).out_spec().kind() == old(self).out_spec().kind(),
            final(self).out_spec().choice() == old(self).out_spec().choice(),
            final(self).out_spec().terminal() == old(self).out_spec().terminal(),
    {
        let ghost s0 = self.shell.input.pending();
        let ghost e0 = self.shell.out.emitted();
        let ghost block = yes_no_prompt_emits(self.shell.out.colored(), question@, default);
        let ghost mut count: nat = 0;
        assert(e0 =~= e0 + repeat_emits(block, 0));
        loop
            invariant
                yes_no_session(s0, default).0 == yes_no_session(self.shell.input.pending(), default).0,
                yes_no_session(s0, default).1 == count + yes_no_session(
                    self.shell.input.pending(),
                    default,
                ).1,
                yes_no_session(s0, default).2 == yes_no_session(self.shell.input.pending(), default).2,
                block == yes_no_prompt_emits(self.shell.out.colored(), question@, default),
                self.shell.out.emitted() == e0 + repeat_emits(block, count),
                s0 == old(self).shell.input.pending(),
                e0 == old(self).shell.out.emitted(),
                self.shell.input.terminal() == old(self).shell.input.terminal(),
                self.shell.err == old(self).shell.err,
                self.style == old(self).style,
                self.shell.out.kind() == old(self).shell.out.kind(),
                self.shell.out.choice() == old(self).shell.out.choice(),
                self.shell.out.terminal() == old(self).shell.out.terminal(),
            decreases self.shell.input.pending().len(),
        {
            self.render_yes_no(question, default);
            assert(e0 + repeat_emits(block, count + 1) =~= e0 + repeat_emits(block, count) + block);
            let ghost before = self.shell.input.pending();
            proof {
                lemma_line_len_bound(before);
            }
            match self.shell.input.read_line() {
                None => {
                    return match default {
                        Some(b) => Ok(b),
                        None => Err(UiError::EndOfInput),
                    };
                },
                Some(line) => match yes_no_reply(line.as_str(), default) {
                    Reply::Answer(b) => {
                        return Ok(b);
                    },
                    Reply::Quit => {
                        return Err(UiError::Quit);
                    },
                    Reply::Again => {
                        proof {
                            count = count + 1;
                        }
                    },
                },
            }
        }
    }
}

/// A blank answer to a yes/no question takes the default.
pub proof fn blank_reply_takes_default(line: Seq<char>, b: bool)
    requires
        trim(line).len() == 0,
    ensures
        yes_no_reply_spec(line, Some(b)) == Reply::Answer(b),
{
}

/// Without a default, a blank answer to a yes/no question asks again, and
/// a session that meets one continues with the next line.
pub proof fn blank_reply_without_default_asks_again(input: Seq<char>)
    requires
        input.len() > 0,
        trim(input.take(line_len(input) as int)).len() == 0,
    ensures
        yes_no_reply_spec(input.take(line_len(input) as int), None) == Reply::Again,
        yes_no_session(input, None).0 == yes_no_session(
            input.skip(line_len(input) as int),
            None,
        ).0,
        yes_no_session(input, None).1 == yes_no_session(
            input.skip(line_len(input) as int),
            None,
        ).1 + 1,
{
}

/// An open question answered by a blank line returns the default.
pub proof fn blank_answer_takes_default(input: Seq<char>, d: Seq<char>)
    requires
        input.len() > 0,
        trim(input.take(line_len(input) as int)).len() == 0,
    ensures
        ask_session(input, Some(d)).0 == Some(d),
{
}

/// An open question answered by a line that is not blank returns that line
/// trimmed, whatever the default.
pub proof fn answer_is_trimmed(input: Seq<char>, d: Option<Seq<char>>)
    requires
        input.len() > 0,
        trim(input.take(line_len(input) as int)).len() > 0,
    ensures
        ask_session(input, d).0 == Some(trim(input.take(line_len(input) as int))),
{
}

/// A fatal report always has at least three lines: the two framing lines
/// and at least one line for the message.
pub proof fn fatal_has_a_message_line(msg: Seq<char>)
    ensures
        fatal_lines(msg).len() >= 1,
{
    if msg.len() > 0 {
        assert(lines_of(msg).len() >= 1);
    }
}

/// The `j`-th line of `input` is the line that starts at position `j`.
pub open spec fn line_at(input: Seq<char>, j: int) -> Seq<char> {
    input.skip(j).take(line_len(input.skip(j)) as int)
}

/// Without a default, a yes/no session answers only with the answer that
/// some line of the input gives: blank lines and other replies never make
/// it return `Ok`.
pub proof fn yes_no_without_default_needs_an_answer(input: Seq<char>, b: bool)
    requires
        yes_no_session(input, None).0 == Ok::<bool, UiError>(b),
    ensures
        exists|j: int|
            0 <= j < input.len() && yes_no_reply_spec(#[trigger] line_at(input, j), None)
                == Reply::Answer(b),
    decreases input.len(),
{
    lemma_line_len_bound(input);
    let n = line_len(input) as int;
    assert(input.skip(0) =~= input);
    if yes_no_reply_spec(input.take(n), None) == Reply::Answer(b) {
        assert(line_at(input, 0) == input.take(n));
    } else {
        let rest = input.skip(n);
        yes_no_without_default_needs_an_answer(rest, b);
        let k = choose|k: int|
            0 <= k < rest.len() && yes_no_reply_spec(#[trigger] line_at(rest, k), None)
                == Reply::Answer(b);
        assert(input.skip(n + k) =~= rest.skip(k));
        assert(line_at(input, n + k) == line_at(rest, k));
    }
}

} // verus!
