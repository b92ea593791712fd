//! The command language: what a line typed at the prompt asks for.

use vstd::prelude::*;
use crate::number::{parse_number, parse_number_spec};
use crate::path::{extension, extension_spec};
use crate::text::{same, split_words, texts, words};

verus! {

/// How an image named in a `load` command is brought in.
#[derive(Clone, Copy, Debug, PartialEq, Eq)]
pub enum ImageKind {
    /// A Meadowlark source file: it is compiled, and the result is loaded.
    Source,
    /// A ROM image: it is loaded as it is.
    Binary,
}

/// The operand of a command that a number was expected in.
#[derive(Clone, Copy, Debug, PartialEq, Eq)]
pub enum Operand {
    /// The address of an examine command.
    Address,
    /// The low end of a range.
    Low,
    /// The high end of a range.
    High,
    /// The base of a span.
    Base,
    /// The length of a span.
    Length,
}

/// A command line, read.
#[derive(Clone, Debug, PartialEq, Eq)]
pub enum Command {
    /// `load <path>` with an extension that names a kind of image.
    Load { path: String, kind: ImageKind },
    /// `load <path>` with any other extension, or none.
    LoadUnsupported { path: String },
    /// `listing`: the program as rows of hex.
    Listing,
    /// `clearhist`: forget the command history.
    ClearHistory,
    /// `reset`: restart the machine and clear its display.
    Reset,
    /// `registers`: show the register file.
    Registers,
    /// `run`: run until the machine stops.
    Run,
    /// `step`, or an empty line: execute one instruction.
    Step,
    /// `hexdump`: dump the whole image.
    DumpImage,
    /// `x <addr>`: show the 16-bit word at an address.
    ExamineWord { token: String, addr: u16 },
    /// `x/b <addr>`: show the byte at an address.
    ExamineByte { token: String, addr: u16 },
    /// `hexdump <lo> .. <hi>`: dump the addresses from `lo` to `hi`.
    DumpRange { lo: u16, hi: u16 },
    /// `hexdump <base> :+ <len>`: dump `len` bytes from `base` on.
    DumpSpan { base: u16, len: u16 },
    /// `help`: list the commands.
    Help,
    /// `quit`: leave the debugger.
    Quit,
    /// A command whose operand is no number.
    BadOperand { which: Operand, token: String },
    /// Anything else.
    Unknown,
}

/// A command with its texts as sequences of characters.
pub enum CommandView {
    Load { path: Seq<char>, kind: ImageKind },
    LoadUnsupported { path: Seq<char> },
    Listing,
    ClearHistory,
    Reset,
    Registers,
    Run,
    Step,
    DumpImage,
    ExamineWord { token: Seq<char>, addr: u16 },
    ExamineByte { token: Seq<char>, addr: u16 },
    DumpRange { lo: u16, hi: u16 },
    DumpSpan { base: u16, len: u16 },
    Help,
    Quit,
    BadOperand { which: Operand, token: Seq<char> },
    Unknown,
}

impl View for Command {
    type V = CommandView;

    open spec fn view(&self) -> CommandView {
        match *self {
            Command::Load { path, kind } => CommandView::Load { path: path@, kind },
            Command::LoadUnsupported { path } => CommandView::LoadUnsupported { path: path@ },
            Command::Listing => CommandView::Listing,
            Command::ClearHistory => CommandView::ClearHistory,
            Command::Reset => CommandView::Reset,
            Command::Registers => CommandView::Registers,
            Command::Run => CommandView::Run,
            Command::Step => CommandView::Step,
            Command::DumpImage => CommandView::DumpImage,
            Command::ExamineWord { token, addr } => CommandView::ExamineWord {
                token: token@,
                addr,
            },
            Command::ExamineByte { token, addr } => CommandView::ExamineByte {
                token: token@,
                addr,
            },
            Command::DumpRange { lo, hi } => CommandView::DumpRange { lo, hi },
            Command::DumpSpan { base, len } => CommandView::DumpSpan { base, len },
            Command::Help => CommandView::Help,
            Command::Quit => CommandView::Quit,
            Command::BadOperand { which, token } => CommandView::BadOperand {
                which,
                token: token@,
            },
            Command::Unknown => CommandView::Unknown,
        }
    }
}

/// What `load` makes of a path: the kind of image that its extension
/// names. `meadowlark` and `meadow` name a source file, `bin` and `rom` a
/// ROM image; no other extension is supported.
pub open spec fn load_spec(path: Seq<char>) -> CommandView {
    match extension_spec(path) {
        Some(ext) => if ext == "meadowlark"@ || ext == "meadow"@ {
            CommandView::Load { path, kind: ImageKind::Source }
        } else if ext == "bin"@ || ext == "rom"@ {
            CommandView::Load { path, kind: ImageKind::Binary }
        } else {
            CommandView::LoadUnsupported { path }
        },
        None => CommandView::LoadUnsupported { path },
    }
}

/// An examine command for the address written as `token`.
pub open spec fn examine_spec(token: Seq<char>, byte: bool) -> CommandView {
    match parse_number_spec(token) {
        Some(addr) => if byte {
            CommandView::ExamineByte { token, addr }
        } else {
            CommandView::ExamineWord { token, addr }
        },
        None => CommandView::BadOperand { which: Operand::Address, token },
    }
}

/// A range dump from `lo` to `hi`. The low end is read first: where both
/// are malformed, the command names the low end.
pub open spec fn range_spec(lo: Seq<char>, hi: Seq<char>) -> CommandView {
    match parse_number_spec(lo) {
        None => CommandView::BadOperand { which: Operand::Low, token: lo },
        Some(l) => match parse_number_spec(hi) {
            None => CommandView::BadOperand { which: Operand::High, token: hi },
            Some(h) => CommandView::DumpRange { lo: l, hi: h },
        },
    }
}

/// A span dump of `len` bytes from `base`. The base is read first.
pub open spec fn span_spec(base: Seq<char>, len: Seq<char>) -> CommandView {
    match parse_number_spec(base) {
        None => CommandView::BadOperand { which: Operand::Base, token: base },
        Some(b) => match parse_number_spec(len) {
            None => CommandView::BadOperand { which: Operand::Length, token: len },
            Some(n) => CommandView::DumpSpan { base: b, len: n },
        },
    }
}

/// Whether `w` is the dump command's name, `hexdump` or `x`.
pub open spec fn is_dump_word(w: Seq<char>) -> bool {
    w == "hexdump"@ || w == "x"@
}

/// The command that one word alone stands for.
pub open spec fn one_word_spec(w: Seq<char>) -> CommandView {
    if w == "listing"@ || w == "program"@ || w == "prog"@ {
        CommandView::Listing
    } else if w == "clearhist"@ {
        CommandView::ClearHistory
    } else if w == "reset"@ {
        CommandView::Reset
    } else if w == "registers"@ || w == "regs"@ || w == "reg"@ {
        CommandView::Registers
    } else if w == "run"@ {
        CommandView::Run
    } else if w == "step"@ || w == "s"@ {
        CommandView::Step
    } else if is_dump_word(w) {
        CommandView::DumpImage
    } else if w == "help"@ || w == "h"@ || w == "?"@ {
        CommandView::Help
    } else if w == "quit"@ || w == "q"@ {
        CommandView::Quit
    } else {
        CommandView::Unknown
    }
}

/// The command that two words stand for.
pub open spec fn two_words_spec(w: Seq<char>, arg: Seq<char>) -> CommandView {
    if w == "load"@ || w == "l"@ {
        load_spec(arg)
    } else if w == "x"@ || w == "x/w"@ {
        examine_spec(arg, false)
    } else if w == "x/b"@ {
        examine_spec(arg, true)
    } else {
        CommandView::Unknown
    }
}

/// The command that four words stand for.
pub open spec fn four_words_spec(
    w: Seq<char>,
    first: Seq<char>,
    sign: Seq<char>,
    second: Seq<char>,
) -> CommandView {
    if is_dump_word(w) && sign == ".."@ {
        range_spec(first, second)
    } else if is_dump_word(w) && sign == ":+"@ {
        span_spec(first, second)
    } else {
        CommandView::Unknown
    }
}

/// The command that a line stands for. The line is split into words at
/// ASCII whitespace, and the words are matched as they are written, small
/// and capital letters apart. A line without words is a step.
pub open spec fn parse_command_spec(line: Seq<char>) -> CommandView {
    let w = words(line);
    if w.len() == 0 {
        CommandView::Step
    } else if w.len() == 1 {
        one_word_spec(w[0])
    } else if w.len() == 2 {
        two_words_spec(w[0], w[1])
    } else if w.len() == 4 {
        four_words_spec(w[0], w[1], w[2], w[3])
    } else {
        CommandView::Unknown
    }
}

fn parse_load(path: &str) -> (cmd: Command)
    ensures
        cmd@ == load_spec(path@),
{
    match extension(path) {
        Some(ext) => {
            let e = ext.as_str();
            if same(e, "meadowlark") || same(e, "meadow") {
                Command::Load { path: path.to_owned(), kind: ImageKind::Source }
            } else if same(e, "bin") || same(e, "rom") {
                Command::Load { path: path.to_owned(), kind: ImageKind::Binary }
            } else {
                Command::LoadUnsupported { path: path.to_owned() }
            }
        },
        None => Command::LoadUnsupported { path: path.to_owned() },
    }
}

fn parse_examine(token: &str, byte: bool) -> (cmd: Command)
    ensures
        cmd@ == examine_spec(token@, byte),
{
    match parse_number(token) {
        Some(addr) => if byte {
            Command::ExamineByte { token: token.to_owned(), addr }
        } else {
            Command::ExamineWord { token: token.to_owned(), addr }
        },
        None => Command::BadOperand { which: Operand::Address, token: token.to_owned() },
    }
}

fn parse_range(lo: &str, hi: &str) -> (cmd: Command)
    ensures
        cmd@ == range_spec(lo@, hi@),
{
    match parse_number(lo) {
        None => Command::BadOperand { which: Operand::Low, token: lo.to_owned() },
        Some(l) => match parse_number(hi) {
            None => Command::BadOperand { which: Operand::High, token: hi.to_owned() },
            Some(h) => Command::DumpRange { lo: l, hi: h },
        },
    }
}

fn parse_span(base: &str, len: &str) -> (cmd: Command)
    ensures
        cmd@ == span_spec(base@, len@),
{
    match parse_number(base) {
        None => Command::BadOperand { which: Operand::Base, token: base.to_owned() },
        Some(b) => match parse_number(len) {
            None => Command::BadOperand { which: Operand::Length, token: len.to_owned() },
            Some(n) => Command::DumpSpan { base: b, len: n },
        },
    }
}

fn parse_one_word(w: &str) -> (cmd: Command)
    ensures
        cmd@ == one_word_spec(w@),
{
    if same(w, "listing") || same(w, "program") || same(w, "prog") {
        Command::Listing
    } else if same(w, "clearhist") {
        Command::ClearHistory
    } else if same(w, "reset") {
        Command::Reset
    } else if same(w, "registers") || same(w, "regs") || same(w, "reg") {
        Command::Registers
    } else if same(w, "run") {
        Command::Run
    } else if same(w, "step") || same(w, "s") {
        Command::Step
    } else if same(w, "hexdump") || same(w, "x") {
        Command::DumpImage
    } else if same(w, "help") || same(w, "h") || same(w, "?") {
        Command::Help
    } else if same(w, "quit") || same(w, "q") {
        Command::Quit
    } else {
        Command::Unknown
    }
}

/// Reads a command line.
pub fn parse_command(line: &str) -> (cmd: Command)
    ensures
        cmd@ == parse_command_spec(line@),
{
    let w = split_words(line);
    assert(forall|i: int| 0 <= i < w.len() ==> (#[trigger] w@[i])@ == texts(w@)[i]);
    if w.len() == 0 {
        Command::Step
    } else if w.len() == 1 {
        parse_one_word(w[0].as_str())
    } else if w.len() == 2 {
        let name = w[0].as_str();
        if same(name, "load") || same(name, "l") {
            parse_load(w[1].as_str())
        } else if same(name, "x") || same(name, "x/w") {
            parse_examine(w[1].as_str(), false)
        } else if same(name, "x/b") {
            parse_examine(w[1].as_str(), true)
        } else {
            Command::Unknown
        }
    } else if w.len() == 4 {
        let name = w[0].as_str();
        let sign = w[2].as_str();
        let dump = same(name, "hexdump") || same(name, "x");
        if dump && same(sign, "..") {
            parse_range(w[1].as_str(), w[3].as_str())
        } else if dump && same(sign, ":+") {
            parse_span(w[1].as_str(), w[3].as_str())
        } else {
            Command::Unknown
        }
    } else {
        Command::Unknown
    }
}

} // verus!
