//! The command interpreter: what submitting a command line does to a
//! session.

use vstd::prelude::*;
use vstd::string::StringExecFns;
use crate::app::{App, AppView, RunMode};
use crate::command::{parse_command, parse_command_spec, Command, CommandView, Operand};
use crate::log::{info_entries, lemma_entries_push, CmdMsg, CmdMsgView};
use crate::text::{lemma_texts_push, same, texts};

verus! {

/// The lines that `help` shows.
pub open spec fn help_lines() -> Seq<Seq<char>> {
    seq![
        "Commands:"@,
        "  - load <PATH> (l)"@,
        "  - step (s, ENTER)"@,
        "  - run"@,
        "  - reset"@,
        "  - registers (regs)"@,
        "  - program (prog, listing)"@,
        "  - hexdump (x)"@,
        "  - hexdump (x) <LOW> .. <HIGH>"@,
        "  - hexdump (x) <BASE> :+ <LEN>"@,
        "  - clearhist"@,
        "  - help (h, ?)"@,
        "  - quit (q)"@,
    ]
}

/// What is said of an operand that is no number.
pub open spec fn operand_error(which: Operand, token: Seq<char>) -> Seq<char> {
    (match which {
        Operand::Address => "Invalid address: `"@,
        Operand::Low => "Invalid low address: `"@,
        Operand::High => "Invalid high address: `"@,
        Operand::Base => "Invalid base address: `"@,
        Operand::Length => "Invalid length: `"@,
    }) + token + "`"@
}

impl AppView {
    /// The history once `line` was submitted: `line` is added at its end
    /// unless the latest entry is the same line.
    pub open spec fn recorded(self, line: Seq<char>) -> Seq<Seq<char>> {
        if self.history.len() > 0 && self.history.last() == line {
            self.history
        } else {
            self.history.push(line)
        }
    }

    /// What every submission does before the command itself acts: the line
    /// is recorded in the history and echoed in the log, the history cursor
    /// goes back to 0 and the log is scrolled to its latest entry.
    pub open spec fn echoed(self, line: Seq<char>) -> AppView {
        AppView {
            history: self.recorded(line),
            history_cursor: 0,
            output: self.output.push(CmdMsgView::Command(line)),
            scroll: 0,
            ..self
        }
    }

    /// The name of what `run` runs: the ROM file, or else the lark source,
    /// or else the Meadowlark source, or else a placeholder.
    pub open spec fn image_name(self) -> Seq<char> {
        if self.romfile is Some {
            self.romfile.unwrap()
        } else if self.lark_src is Some {
            self.lark_src.unwrap()
        } else if self.meadowlark_src is Some {
            self.meadowlark_src.unwrap()
        } else {
            "<unknown source file>"@
        }
    }

    /// The session without the latest entry of its history.
    pub open spec fn unrecorded(self) -> AppView {
        AppView { history: self.history.drop_last(), ..self }
    }

    /// The session after `line` was submitted. What a command needs from
    /// the machine is not in here: it is shown when the machine's answer is
    /// handed in.
    pub open spec fn submit(self, line: Seq<char>) -> AppView {
        let s = self.echoed(line);
        match parse_command_spec(line) {
            CommandView::LoadUnsupported { path } => s.said(
                CmdMsgView::Error("Unknown file extension: "@ + path),
            ).said(CmdMsgView::Info("  - Supported extensions: .bin, .rom"@)),
            CommandView::Listing => s.said(CmdMsgView::Info("Program:"@)),
            CommandView::ClearHistory => AppView { history: Seq::empty(), ..s },
            CommandView::Run => AppView {
                run_mode: RunMode::RunningToBreakpoint,
                ..s.said(CmdMsgView::Log("Running `"@ + self.image_name() + "`..."@))
            },
            CommandView::Step => (if line.len() == 0 {
                s.unrecorded()
            } else {
                s
            }).said(CmdMsgView::Log("Stepping..."@)),
            CommandView::DumpImage | CommandView::DumpRange { .. } | CommandView::DumpSpan {
                ..
            } => s.said(CmdMsgView::Info("Hexdump of ROM:"@)),
            CommandView::Help => s.said_all(info_entries(help_lines())),
            CommandView::Quit => AppView { should_quit: true, ..s.unrecorded() },
            CommandView::BadOperand { which, token } => s.said(
                CmdMsgView::Error(operand_error(which, token)),
            ),
            CommandView::Unknown => s.said(
                CmdMsgView::Error("Unknown command: `"@ + line + "`"@),
            ),
            CommandView::Load { .. }
            | CommandView::Reset
            | CommandView::Registers
            | CommandView::ExamineWord { .. }
            | CommandView::ExamineByte { .. } => s,
        }
    }
}

/// The three texts one after another.
fn join(head: &str, body: &str, tail: &str) -> (out: String)
    ensures
        out@ == head@ + body@ + tail@,
{
    let mut out = String::from_str(head);
    out.append(body);
    out.append(tail);
    out
}

impl App {
    /// Adds an entry at the end of the log.
    pub(crate) fn say(&mut self, msg: CmdMsg)
        ensures
            final(self)@ == old(self)@.said(msg@),
    {
        proof {
            lemma_entries_push(self.cmd_output@, msg);
        }
        self.cmd_output.push(msg);
    }

    pub(crate) fn cmd_log(&mut self, text: String)
        ensures
            final(self)@ == old(self)@.said(CmdMsgView::Log(text@)),
    {
        self.say(CmdMsg::Log(text));
    }

    pub(crate) fn cmd_info(&mut self, text: String)
        ensures
            final(self)@ == old(self)@.said(CmdMsgView::Info(text@)),
    {
        self.say(CmdMsg::Info(text));
    }

    pub(crate) fn cmd_err(&mut self, text: String)
        ensures
            final(self)@ == old(self)@.said(CmdMsgView::Error(text@)),
    {
        self.say(CmdMsg::Error(text));
    }

    /// Adds one `Info` entry for each of the rows.
    pub(crate) fn cmd_info_rows(&mut self, rows: Vec<String>)
        ensures
            final(self)@ == old(self)@.said_all(info_entries(texts(rows@))),
    {
        let n: usize = rows.len();
        let mut i: usize = 0;
        assert(self@.output =~= old(self)@.output + info_entries(texts(rows@)).take(0));
        while i < n
            invariant
                i <= n == rows.len(),
                self@ == old(self)@.said_all(info_entries(texts(rows@)).take(i as int)),
            decreases n - i,
        {
            self.cmd_info(rows[i].clone());
            i += 1;
            assert(self@.output =~= old(self)@.output + info_entries(texts(rows@)).take(i as int));
        }
        assert(info_entries(texts(rows@)).take(n as int) =~= info_entries(texts(rows@)));
    }

    /// The name of what `run` runs.
    fn image_name(&self) -> (name: String)
        ensures
            name@ == self@.image_name(),
    {
        match &self.romfile {
            Some(path) => path.clone(),
            None => match &self.lark_src {
                Some(path) => path.clone(),
                None => match &self.meadowlark_src {
                    Some(path) => path.clone(),
                    None => String::from_str("<unknown source file>"),
                },
            },
        }
    }

    /// Records and echoes a submitted line.
    fn echo(&mut self, line: &str)
        ensures
            final(self)@ == old(self)@.echoed(line@),
    {
        let n: usize = self.cmd_history.len();
        assert(n > 0 ==> self@.history.last() == self.cmd_history@[n - 1]@);
        if n == 0 || !same(self.cmd_history[n - 1].as_str(), line) {
            let entry = line.to_owned();
            proof {
                lemma_texts_push(self.cmd_history@, entry);
            }
            self.cmd_history.push(entry);
        }
        self.cmd_history_idx = 0;
        self.cmd_output_scroll = 0;
        self.say(CmdMsg::Command(line.to_owned()));
    }

    /// Takes the latest entry out of the history.
    fn unrecord(&mut self)
        requires
            old(self)@.history.len() > 0,
            old(self)@.history_cursor == 0,
        ensures
            final(self)@ == old(self)@.unrecorded(),
    {
        self.cmd_history.pop();
        assert(texts(self.cmd_history@) =~= old(self)@.history.drop_last());
    }

    /// Says what `help` says.
    fn help(&mut self)
        ensures
            final(self)@ == old(self)@.said_all(info_entries(help_lines())),
    {
        self.cmd_info(String::from_str("Commands:"));
        self.cmd_info(String::from_str("  - load <PATH> (l)"));
        self.cmd_info(String::from_str("  - step (s, ENTER)"));
        self.cmd_info(String::from_str("  - run"));
        self.cmd_info(String::from_str("  - reset"));
        self.cmd_info(String::from_str("  - registers (regs)"));
        self.cmd_info(String::from_str("  - program (prog, listing)"));
        self.cmd_info(String::from_str("  - hexdump (x)"));
        self.cmd_info(String::from_str("  - hexdump (x) <LOW> .. <HIGH>"));
        self.cmd_info(String::from_str("  - hexdump (x) <BASE> :+ <LEN>"));
        self.cmd_info(String::from_str("  - clearhist"));
        self.cmd_info(String::from_str("  - help (h, ?)"));
        self.cmd_info(String::from_str("  - quit (q)"));
        assert(self@.output =~= old(self)@.output + info_entries(help_lines()));
    }

    /// Says that an operand is no number.
    fn bad_operand(&mut self, which: Operand, token: &str)
        ensures
            final(self)@ == old(self)@.said(CmdMsgView::Error(operand_error(which, token@))),
    {
        let head = match which {
            Operand::Address => "Invalid address: `",
            Operand::Low => "Invalid low address: `",
            Operand::High => "Invalid high address: `",
            Operand::Base => "Invalid base address: `",
            Operand::Length => "Invalid length: `",
        };
        self.cmd_err(join(head, token, "`"));
    }

    /// Submits a command line. The line is recorded and echoed, and the
    /// command it stands for does what it can do without the machine. The
    /// command is handed back: where it needs the machine, the caller
    /// carries it out there and hands in what came of it.
    pub fn do_cmd(&mut self, line: &str) -> (cmd: Command)
        ensures
            cmd@ == parse_command_spec(line@),
            final(self)@ == old(self)@.submit(line@),
            final(self)@.scroll == 0,
            final(self)@.history_cursor == 0,
            final(self)@.wf(),
    {
        let cmd = parse_command(line);
        self.echo(line);
        match &cmd {
            Command::LoadUnsupported { path } => {
                self.cmd_err(join("Unknown file extension: ", path.as_str(), ""));
                proof {
                    reveal_strlit("");
                    assert("Unknown file extension: "@ + path@ + ""@ =~= "Unknown file extension: "@
                        + path@);
                }
                self.cmd_info(String::from_str("  - Supported extensions: .bin, .rom"));
            },
            Command::Listing => {
                self.cmd_info(String::from_str("Program:"));
            },
            Command::ClearHistory => {
                self.cmd_history.clear();
                assert(texts(self.cmd_history@) =~= Seq::<Seq<char>>::empty());
            },
            Command::Run => {
                let name = self.image_name();
                self.cmd_log(join("Running `", name.as_str(), "`..."));
                self.run_mode = RunMode::RunningToBreakpoint;
            },
            Command::Step => {
                if line.unicode_len() == 0 {
                    self.unrecord();
                }
                self.cmd_log(String::from_str("Stepping..."));
            },
            Command::DumpImage | Command::DumpRange { .. } | Command::DumpSpan { .. } => {
                self.cmd_info(String::from_str("Hexdump of ROM:"));
            },
            Command::Help => {
                self.help();
            },
            Command::Quit => {
                self.unrecord();
                self.should_quit = true;
            },
            Command::BadOperand { which, token } => {
                self.bad_operand(*which, token.as_str());
            },
            Command::Unknown => {
                self.cmd_err(join("Unknown command: `", line, "`"));
            },
            Command::Load { .. }
            | Command::Reset
            | Command::Registers
            | Command::ExamineWord { .. }
            | Command::ExamineByte { .. } => {},
        }
        cmd
    }
}

} // verus!
