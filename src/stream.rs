use vstd::prelude::*;
use vstd::string::*;

use crate::symbols::Color;
use crate::text::{chars_of, line_len};

verus! {

/// When a color-capable stream uses color.
#[derive(Clone, Copy, Debug, PartialEq, Eq, Structural)]
pub enum ColorChoice {
    Always,
    AlwaysAnsi,
    Auto,
    Never,
}

/// Foreground color and weight of a stretch of text.
#[derive(Clone, Copy, Debug, PartialEq, Eq, Structural)]
pub struct ColorSpec {
    pub fg: Option<Color>,
    pub bold: bool,
}

impl ColorSpec {
    pub fn new(fg: Option<Color>, bold: bool) -> (r: ColorSpec)
        ensures
            r == (ColorSpec { fg, bold }),
    {
        ColorSpec { fg, bold }
    }
}

/// One operation performed on an output destination, in the order issued.
#[derive(Clone, Debug)]
pub enum Command {
    Reset,
    SetColor(ColorSpec),
    Write(String),
    Flush,
}

/// The mathematical value of a `Command`.
pub enum Emit {
    Reset,
    SetColor(ColorSpec),
    Write(Seq<char>),
    Flush,
}

impl View for Command {
    type V = Emit;

    open spec fn view(&self) -> Emit {
        match self {
            Command::Reset => Emit::Reset,
            Command::SetColor(c) => Emit::SetColor(*c),
            Command::Write(s) => Emit::Write(s@),
            Command::Flush => Emit::Flush,
        }
    }
}

/// The representation behind an output stream: a plain byte sink, or a
/// color-capable terminal stream.
#[derive(Clone, Copy, Debug, PartialEq, Eq, Structural)]
pub enum WriteStream {
    /// A plain write object without color support.
    Write,
    /// Color-enabled standard output or error, with whether it renders color.
    Stream { supports_color: bool },
}

/// The standard streams of a process.
#[derive(Clone, Copy, Debug, PartialEq, Eq, Structural)]
pub enum StdStream {
    Stdin,
    Stdout,
    Stderr,
}

/// A source of input text, with whether it is attached to a terminal.
#[derive(Debug)]
pub struct InputStream {
    inner: String,
    isatty: bool,
}

impl InputStream {
    /// The text not yet read.
    pub closed spec fn pending(&self) -> Seq<char> {
        self.inner@
    }

    /// Whether the stream is attached to a terminal.
    pub closed spec fn terminal(&self) -> bool {
        self.isatty
    }

    pub fn new(inner: String, isatty: bool) -> (r: InputStream)
        ensures
            r.pending() == inner@,
            r.terminal() == isatty,
    {
        InputStream { inner, isatty }
    }

    pub fn is_a_terminal(&self) -> (r: bool)
        ensures
            r == self.terminal(),
    {
        self.isatty
    }

    /// Reads one line, its line break included; `None` once the input is
    /// exhausted.
    pub fn read_line(&mut self) -> (r: Option<String>)
        ensures
            final(self).terminal() == old(self).terminal(),
            old(self).pending().len() == 0 ==> r is None && final(self).pending() == old(self).pending(),
            old(self).pending().len() > 0 ==> (r matches Some(line) && line@ == old(
                self,
            ).pending().take(line_len(old(self).pending()) as int)),
            old(self).pending().len() > 0 ==> final(self).pending() == old(self).pending().skip(
                line_len(old(self).pending()) as int,
            ),
    {
        let cs = chars_of(self.inner.as_str());
        let n = cs.len();
        if n == 0 {
            return None;
        }
        let ghost s = self.inner@;
        let mut j: usize = 0;
        assert(s.skip(0) =~= s);
        while j < n && cs[j] != '\n'
            invariant
                cs@ == s,
                n == s.len(),
                j <= n,
                line_len(s) == j + line_len(s.skip(j as int)),
            decreases n - j,
        {
            assert(s.skip(j as int).drop_first() =~= s.skip(j + 1));
            j = j + 1;
        }
        let end: usize = if j < n {
            j + 1
        } else {
            j
        };
        assert(line_len(s) == end) by {
            assert(s.skip(j as int).len() == n - j);
        }
        let line = String::from_str(self.inner.as_str().substring_char(0, end));
        let rest = String::from_str(self.inner.as_str().substring_char(end, n));
        assert(s.subrange(0, end as int) =~= s.take(end as int));
        assert(s.subrange(end as int, n as int) =~= s.skip(end as int));
        self.inner = rest;
        Some(line)
    }
}

/// A destination for text: records every write, flush and color change
/// in order. Color changes are recorded only on a color-capable stream;
/// on a plain sink they do nothing.
#[derive(Debug)]
pub struct OutputStream {
    inner: WriteStream,
    coloring: ColorChoice,
    isatty: bool,
    commands: Vec<Command>,
}

/// The commands that `print` issues.
pub open spec fn print_emits(colored: bool, text: Seq<char>, spec: ColorSpec) -> Seq<Emit> {
    if colored {
        seq![Emit::Reset, Emit::SetColor(spec), Emit::Write(text), Emit::Flush, Emit::Reset]
    } else {
        seq![Emit::Write(text), Emit::Flush]
    }
}

/// The commands that `println` issues.
pub open spec fn println_emits(colored: bool, text: Seq<char>, spec: ColorSpec) -> Seq<Emit> {
    print_emits(colored, text, spec) + seq![Emit::Write("\n"@), Emit::Flush]
}

impl OutputStream {
    /// The commands issued and not yet handed over, oldest first.
    pub closed spec fn emitted(&self) -> Seq<Emit> {
        self.commands@.map_values(|c: Command| c@)
    }

    /// Whether color changes are recorded.
    pub open spec fn colored(&self) -> bool {
        self.kind() is Stream
    }

    /// Whether the stream is attached to a terminal.
    pub closed spec fn terminal(&self) -> bool {
        self.isatty
    }

    /// The representation behind the stream.
    pub closed spec fn kind(&self) -> WriteStream {
        self.inner
    }

    /// The color policy of the stream.
    pub closed spec fn choice(&self) -> ColorChoice {
        self.coloring
    }

    pub fn new(inner: WriteStream, coloring: ColorChoice, isatty: bool) -> (r: OutputStream)
        ensures
            r.kind() == inner,
            r.choice() == coloring,
            r.terminal() == isatty,
            r.emitted() == Seq::<Emit>::empty(),
    {
        let r = OutputStream { inner, coloring, isatty, commands: Vec::new() };
        assert(r.emitted() =~= Seq::<Emit>::empty());
        r
    }

    pub fn is_a_terminal(&self) -> (r: bool)
        ensures
            r == self.terminal(),
    {
        self.isatty
    }

    pub fn coloring(&self) -> (r: ColorChoice)
        ensures
            r == self.choice(),
    {
        self.coloring
    }

    pub fn supports_color(&self) -> (r: bool)
        ensures
            r == (self.kind() matches WriteStream::Stream { supports_color } && supports_color),
    {
        match self.inner {
            WriteStream::Stream { supports_color } => supports_color,
            WriteStream::Write => false,
        }
    }

    fn record(&mut self, c: Command)
        ensures
            final(self).emitted() == old(self).emitted().push(c@),
            final(self).kind() == old(self).kind(),
            final(self).choice() == old(self).choice(),
            final(self).terminal() == old(self).terminal(),
    {
        self.commands.push(c);
        assert(self.emitted() =~= old(self).emitted().push(c@));
    }

    pub fn write_all(&mut self, text: &str)
        ensures
            final(self).emitted() == old(self).emitted().push(Emit::Write(text@)),
            final(self).kind() == old(self).kind(),
            final(self).choice() == old(self).choice(),
            final(self).terminal() == old(self).terminal(),
    {
        self.record(Command::Write(String::from_str(text)));
    }

    pub fn flush(&mut self)
        ensures
            final(self).emitted() == old(self).emitted().push(Emit::Flush),
            final(self).kind() == old(self).kind(),
            final(self).choice() == old(self).choice(),
            final(self).terminal() == old(self).terminal(),
    {
        self.record(Command::Flush);
    }

    pub fn set_color(&mut self, spec: &ColorSpec)
        ensures
            final(self).emitted() == if old(self).colored() {
                old(self).emitted().push(Emit::SetColor(*spec))
            } else {
                old(self).emitted()
            },
            final(self).kind() == old(self).kind(),
            final(self).choice() == old(self).choice(),
            final(self).terminal() == old(self).terminal(),
    {
        if let WriteStream::Stream { .. } = self.inner {
            self.record(Command::SetColor(*spec));
        }
    }

    pub fn reset(&mut self)
        ensures
            final(self).emitted() == if old(self).colored() {
                old(self).emitted().push(Emit::Reset)
            } else {
                old(self).emitted()
            },
            final(self).kind() == old(self).kind(),
            final(self).choice() == old(self).choice(),
            final(self).terminal() == old(self).terminal(),
    {
        if let WriteStream::Stream { .. } = self.inner {
            self.record(Command::Reset);
        }
    }

    /// Hands over the commands issued so far and starts a new record.
    pub fn take_commands(&mut self) -> (r: Vec<Command>)
        ensures
            r@.map_values(|c: Command| c@) == old(self).emitted(),
            final(self).emitted() == Seq::<Emit>::empty(),
            final(self).kind() == old(self).kind(),
            final(self).choice() == old(self).choice(),
            final(self).terminal() == old(self).terminal(),
    {
        let mut r = Vec::new();
        std::mem::swap(&mut r, &mut self.commands);
        assert(self.emitted() =~= Seq::<Emit>::empty());
        r
    }
}

/// Writes `text` in the given color and weight, then restores plain styling.
pub fn print(writer: &mut OutputStream, text: &str, spec: &ColorSpec)
    ensures
        final(writer).emitted() == old(writer).emitted() + print_emits(
            old(writer).colored(),
            text@,
            *spec,
        ),
        final(writer).kind() == old(writer).kind(),
        final(writer).choice() == old(writer).choice(),
        final(writer).terminal() == old(writer).terminal(),
{
    let ghost e0 = writer.emitted();
    writer.reset();
    writer.set_color(spec);
    writer.write_all(text);
    writer.flush();
    writer.reset();
    assert(writer.emitted() =~= e0 + print_emits(old(writer).colored(), text@, *spec));
}

/// `print`, followed by a line break.
pub fn println(writer: &mut OutputStream, text: &str, spec: &ColorSpec)
    ensures
        final(writer).emitted() == old(writer).emitted() + println_emits(
            old(writer).colored(),
            text@,
            *spec,
        ),
        final(writer).kind() == old(writer).kind(),
        final(writer).choice() == old(writer).choice(),
        final(writer).terminal() == old(writer).terminal(),
{
    let ghost e0 = writer.emitted();
    print(writer, text, spec);
    writer.write_all("\n");
    writer.flush();
    assert(writer.emitted() =~= e0 + println_emits(old(writer).colored(), text@, *spec));
}

} // verus!
