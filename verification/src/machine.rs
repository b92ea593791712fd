//! What the machine's answers do to a session. The caller carries out a
//! command on the machine and hands in what came of it; here it is put
//! into the log.

use vstd::prelude::*;
use vstd::string::StringExecFns;
use crate::app::{App, AppView, Instr};
use crate::command::{Command, CommandView};
use crate::dump::{
    byte_line, byte_line_spec, dump_rows, dump_rows_spec, listing_rows, listing_rows_spec,
    word_line, word_line_spec,
};
use crate::log::{info_entries, log_entries, CmdMsgView};
use crate::number::{digits, push_number};
use crate::text::{lines, split_lines, texts};

verus! {

/// The memory that a dump command shows: the address of its first byte and
/// the number of its bytes. A range runs from its low end to its high end,
/// both included, and is empty where the high end lies below the low end.
/// A span has the length that was given. Addresses wrap round after
/// `0xFFFF`.
pub open spec fn extent_spec(cmd: CommandView) -> Option<(u16, u32)> {
    match cmd {
        CommandView::DumpRange { lo, hi } => Some(
            (lo, if hi >= lo {
                (hi - lo + 1) as u32
            } else {
                0u32
            }),
        ),
        CommandView::DumpSpan { base, len } => Some((base, len as u32)),
        _ => None,
    }
}

impl Command {
    /// The memory that a dump command shows, and `None` for any other
    /// command.
    pub fn extent(&self) -> (extent: Option<(u16, u32)>)
        ensures
            extent == extent_spec(self@),
    {
        match self {
            Command::DumpRange { lo, hi } => {
                if *hi >= *lo {
                    Some((*lo, (*hi - *lo) as u32 + 1))
                } else {
                    Some((*lo, 0))
                }
            },
            Command::DumpSpan { base, len } => Some((*base, *len as u32)),
            _ => None,
        }
    }
}

/// What the log says of an image that was loaded.
pub open spec fn loaded_text(path: Seq<char>, size: nat) -> Seq<char> {
    "Loaded ROM file `"@ + path + "` ("@ + digits(size, 10, true) + " bytes)"@
}

impl AppView {
    /// The session after an image was loaded from `path`: the path is the
    /// ROM file's, the instructions are those of the image, and the log
    /// says what was loaded, after the failure of the disassembly if there
    /// was one.
    pub open spec fn loaded(
        self,
        path: Seq<char>,
        size: nat,
        disassembly: Seq<Instr>,
        failure: Option<Seq<char>>,
    ) -> AppView {
        let s = match failure {
            Some(error) => self.said(CmdMsgView::Error("Disassembly error: "@ + error)),
            None => self,
        };
        AppView { romfile: Some(path), disassembly, ..s }.said(
            CmdMsgView::Info(loaded_text(path, size)),
        )
    }

    /// The session after an image was refused as too large: the log names
    /// the file, the greatest size and the size of the file.
    pub open spec fn refused(self, path: Seq<char>, max: nat, size: nat) -> AppView {
        self.said(CmdMsgView::Error("ROM file too large: "@ + path)).said(
            CmdMsgView::Info("  - Max ROM size: "@ + digits(max, 10, true)),
        ).said(CmdMsgView::Info("  - Given ROM size: "@ + digits(size, 10, true)))
    }
}

/// `head`, then `body`.
fn prefixed(head: &str, body: &str) -> (out: String)
    ensures
        out@ == head@ + body@,
{
    let mut out = String::from_str(head);
    out.append(body);
    out
}

/// `head`, then `n` in decimal.
fn counted(head: &str, n: usize) -> (out: String)
    ensures
        out@ == head@ + digits(n as nat, 10, true),
{
    let mut out = String::from_str(head);
    push_number(&mut out, n as u64, 10, true, 0, ' ');
    out
}

impl App {
    /// A step of the machine has failed: the log says how.
    pub fn step_failed(&mut self, error: &str)
        requires
            old(self)@.wf(),
        ensures
            final(self)@ == old(self)@.said(CmdMsgView::Error("CPU Error: "@ + error@)),
            final(self)@.wf(),
    {
        self.cmd_err(prefixed("CPU Error: ", error));
    }

    /// The register file, as the machine writes it: one log entry for each
    /// of its lines.
    pub fn show_registers(&mut self, text: &str)
        requires
            old(self)@.wf(),
        ensures
            final(self)@ == old(self)@.said_all(log_entries(lines(text@))),
            final(self)@.wf(),
    {
        let rows = split_lines(text);
        let n: usize = rows.len();
        let mut i: usize = 0;
        assert(self@.output =~= old(self)@.output + log_entries(texts(rows@)).take(0));
        while i < n
            invariant
                i <= n == rows.len(),
                self@ == old(self)@.said_all(log_entries(texts(rows@)).take(i as int)),
            decreases n - i,
        {
            self.cmd_log(rows[i].clone());
            i += 1;
            assert(self@.output =~= old(self)@.output + log_entries(texts(rows@)).take(i as int));
        }
        assert(log_entries(texts(rows@)).take(n as int) =~= log_entries(texts(rows@)));
    }

    /// The image for `listing`: one entry for each row of the listing.
    pub fn show_listing(&mut self, image: &[u8])
        requires
            old(self)@.wf(),
        ensures
            final(self)@ == old(self)@.said_all(info_entries(listing_rows_spec(image@))),
            final(self)@.wf(),
    {
        self.cmd_info_rows(listing_rows(image));
    }

    /// The bytes for a dump, the first of which lies at `start`: one entry
    /// for each row of sixteen.
    pub fn show_dump(&mut self, start: u16, bytes: &[u8])
        requires
            old(self)@.wf(),
        ensures
            final(self)@ == old(self)@.said_all(info_entries(dump_rows_spec(start, bytes@))),
            final(self)@.wf(),
    {
        self.cmd_info_rows(dump_rows(start, bytes));
    }

    /// The word for `x`, read at the address that was written as `token`.
    pub fn show_word(&mut self, token: &str, word: u16)
        requires
            old(self)@.wf(),
        ensures
            final(self)@ == old(self)@.said(CmdMsgView::Info(word_line_spec(token@, word))),
            final(self)@.wf(),
    {
        self.cmd_info(word_line(token, word));
    }

    /// The byte for `x/b`, read at the address that was written as `token`.
    pub fn show_byte(&mut self, token: &str, byte: u8)
        requires
            old(self)@.wf(),
        ensures
            final(self)@ == old(self)@.said(CmdMsgView::Info(byte_line_spec(token@, byte))),
            final(self)@.wf(),
    {
        self.cmd_info(byte_line(token, byte));
    }

    /// An image of `size` bytes was loaded from `path`, and these are its
    /// instructions. Where the disassembly failed, `failure` says how, and
    /// the instructions are those found before it did.
    pub fn rom_loaded(
        &mut self,
        path: &str,
        size: usize,
        disassembly: Vec<Instr>,
        failure: Option<&str>,
    )
        requires
            old(self)@.wf(),
        ensures
            final(self)@ == old(self)@.loaded(
                path@,
                size as nat,
                disassembly@,
                match failure {
                    Some(error) => Some(error@),
                    None => None,
                },
            ),
            final(self)@.wf(),
    {
        match failure {
            Some(error) => {
                self.cmd_err(prefixed("Disassembly error: ", error));
            },
            None => {},
        }
        self.romfile = Some(path.to_owned());
        self.disassembly = disassembly;
        let mut text = prefixed("Loaded ROM file `", path);
        text.append("` (");
        push_number(&mut text, size as u64, 10, true, 0, ' ');
        text.append(" bytes)");
        self.cmd_info(text);
    }

    /// The ROM file could not be read: the log says why, and nothing else
    /// changes.
    pub fn rom_unreadable(&mut self, error: &str)
        requires
            old(self)@.wf(),
        ensures
            final(self)@ == old(self)@.said(
                CmdMsgView::Error("Error reading ROM file: "@ + error@),
            ),
            final(self)@.wf(),
    {
        self.cmd_err(prefixed("Error reading ROM file: ", error));
    }

    /// The ROM file at `path` holds `size` bytes, more than the `max` that
    /// the machine takes: the log says so, and nothing else changes.
    pub fn rom_too_large(&mut self, path: &str, max: usize, size: usize)
        requires
            old(self)@.wf(),
        ensures
            final(self)@ == old(self)@.refused(path@, max as nat, size as nat),
            final(self)@.wf(),
    {
        self.cmd_err(prefixed("ROM file too large: ", path));
        self.cmd_info(counted("  - Max ROM size: ", max));
        self.cmd_info(counted("  - Given ROM size: ", size));
    }

    /// The Meadowlark source could not be compiled: the log says why, and
    /// nothing else changes.
    pub fn compile_failed(&mut self, error: &str)
        requires
            old(self)@.wf(),
        ensures
            final(self)@ == old(self)@.said(
                CmdMsgView::Error("Error compiling Meadowlark file: "@ + error@),
            ),
            final(self)@.wf(),
    {
        self.cmd_err(prefixed("Error compiling Meadowlark file: ", error));
    }

    /// The Meadowlark source at `path` was compiled, and what came of
    /// loading the result has been handed in: the source is now this one.
    pub fn compiled(&mut self, path: &str)
        requires
            old(self)@.wf(),
        ensures
            final(self)@ == (AppView { meadowlark_src: Some(path@), ..old(self)@ }),
            final(self)@.wf(),
    {
        self.meadowlark_src = Some(path.to_owned());
    }
}

} // verus!
