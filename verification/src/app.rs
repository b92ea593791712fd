//! The state of a debugger session and its mathematical model.

use vstd::prelude::*;
use crate::cli::Opts;
use crate::command::Command;
use crate::input::{input_cursor, input_new, input_text};
use crate::log::{entries, CmdMsg, CmdMsgView};
use crate::scroll::{scroll_position, scroll_view_new};
use crate::session::Session;
use crate::text::texts;

verus! {

/// Whether the machine waits for the operator or runs on its own.
#[derive(Clone, Copy, Debug, PartialEq, Eq, Structural)]
pub enum RunMode {
    /// The machine advances only when told to.
    Idle,
    /// The machine advances by one instruction in every turn of the loop,
    /// until it halts, meets a breakpoint or an illegal instruction, or the
    /// operator stops it.
    RunningToBreakpoint,
}

/// A disassembled instruction: its text and the number of bytes it takes.
#[derive(Clone, Debug, PartialEq, Eq)]
pub struct Instr {
    pub text: String,
    pub size: u16,
}

/// The text of an optional string.
pub open spec fn opt_text(s: Option<String>) -> Option<Seq<char>> {
    match s {
        Some(text) => Some(text@),
        None => None,
    }
}

/// The first of two optional values that is there.
pub open spec fn first_of<T>(a: Option<T>, b: Option<T>) -> Option<T> {
    if a is Some {
        a
    } else {
        b
    }
}

/// The model of a session.
pub struct AppView {
    pub run_mode: RunMode,
    /// The text of the input line.
    pub input: Seq<char>,
    /// The cursor in the input line.
    pub input_cursor: nat,
    /// Whether keys go to the input line (or to the machine).
    pub input_focus: bool,
    /// The commands submitted so far, the latest last.
    pub history: Seq<Seq<char>>,
    /// How far back in the history the input line has gone: 0 for not at
    /// all, 1 for the latest entry.
    pub history_cursor: nat,
    /// The output log, the latest entry last.
    pub output: Seq<CmdMsgView>,
    /// How many of the latest entries are scrolled out of sight.
    pub scroll: nat,
    pub meadowlark_src: Option<Seq<char>>,
    pub lark_src: Option<Seq<char>>,
    pub romfile: Option<Seq<char>>,
    /// The instructions of the image that was loaded last.
    pub disassembly: Seq<Instr>,
    /// The column and row that the disassembly pane is shifted by.
    pub disassembly_scroll: (u16, u16),
    /// The cell of the last click of the left mouse button.
    pub mouse_click: Option<(u16, u16)>,
    pub tab_idx: usize,
    pub should_quit: bool,
}

impl AppView {
    /// What holds of every session: the history cursor points into the
    /// history or just before it, and no more entries are scrolled out of
    /// sight than the log has.
    pub open spec fn wf(self) -> bool {
        &&& self.history_cursor <= self.history.len()
        &&& self.scroll <= self.output.len()
    }

    /// The session with one more entry at the end of its log.
    pub open spec fn said(self, msg: CmdMsgView) -> AppView {
        AppView { output: self.output.push(msg), ..self }
    }

    /// The session with more entries at the end of its log.
    pub open spec fn said_all(self, msgs: Seq<CmdMsgView>) -> AppView {
        AppView { output: self.output + msgs, ..self }
    }
}

/// A debugger session.
pub struct App {
    pub(crate) meadowlark_src: Option<String>,
    pub(crate) lark_src: Option<String>,
    pub(crate) romfile: Option<String>,
    pub(crate) disassembly: Vec<Instr>,
    pub(crate) run_mode: RunMode,
    pub(crate) cmd_input: tui_input::Input,
    pub(crate) cmd_input_focus: bool,
    pub(crate) cmd_output: Vec<CmdMsg>,
    pub(crate) cmd_output_scroll: usize,
    pub(crate) cmd_history: Vec<String>,
    pub(crate) cmd_history_idx: usize,
    pub(crate) mouse_click: Option<(u16, u16)>,
    pub(crate) tab_idx: usize,
    pub(crate) disassembly_scroll: tui_scrollview::ScrollViewState,
    pub(crate) should_quit: bool,
}

impl View for App {
    type V = AppView;

    open(crate) spec fn view(&self) -> AppView {
        AppView {
            run_mode: self.run_mode,
            input: input_text(self.cmd_input),
            input_cursor: input_cursor(self.cmd_input),
            input_focus: self.cmd_input_focus,
            history: texts(self.cmd_history@),
            history_cursor: self.cmd_history_idx as nat,
            output: entries(self.cmd_output@),
            scroll: self.cmd_output_scroll as nat,
            meadowlark_src: opt_text(self.meadowlark_src),
            lark_src: opt_text(self.lark_src),
            romfile: opt_text(self.romfile),
            disassembly: self.disassembly@,
            disassembly_scroll: scroll_position(self.disassembly_scroll),
            mouse_click: self.mouse_click,
            tab_idx: self.tab_idx,
            should_quit: self.should_quit,
        }
    }
}

/// The session that a debugger starts with.
pub open spec fn initial(opts: Opts, session: Session, history: Seq<Seq<char>>) -> AppView {
    AppView {
        run_mode: RunMode::Idle,
        input: Seq::empty(),
        input_cursor: 0,
        input_focus: true,
        history,
        history_cursor: 0,
        output: Seq::empty(),
        scroll: 0,
        meadowlark_src: first_of(opt_text(opts.meadowlark_src), opt_text(session.meadowlark_src)),
        lark_src: first_of(opt_text(opts.lark_src), opt_text(session.lark_src)),
        romfile: first_of(opt_text(opts.romfile), opt_text(session.romfile)),
        disassembly: Seq::empty(),
        disassembly_scroll: (0u16, 0u16),
        mouse_click: None,
        tab_idx: session.tab_idx,
        should_quit: false,
    }
}

fn or(a: Option<String>, b: Option<String>) -> (r: Option<String>)
    ensures
        opt_text(r) == first_of(opt_text(a), opt_text(b)),
{
    match a {
        Some(text) => Some(text),
        None => b,
    }
}

impl App {
    /// A new session: idle, with an empty input line that has the focus and
    /// an empty log. A path given in the options goes before the one that
    /// the last session left, and the history is the one handed in.
    pub fn new(opts: Opts, session: Session, history: Vec<String>) -> (app: App)
        ensures
            app@ == initial(opts, session, texts(history@)),
            app@.wf(),
    {
        let app = App {
            meadowlark_src: or(opts.meadowlark_src, session.meadowlark_src),
            lark_src: or(opts.lark_src, session.lark_src),
            romfile: or(opts.romfile, session.romfile),
            disassembly: Vec::new(),
            run_mode: RunMode::Idle,
            cmd_input: input_new(),
            cmd_input_focus: true,
            cmd_output: Vec::new(),
            cmd_output_scroll: 0,
            cmd_history: history,
            cmd_history_idx: 0,
            mouse_click: None,
            tab_idx: session.tab_idx,
            disassembly_scroll: scroll_view_new(),
            should_quit: false,
        };
        assert(app@.output =~= Seq::empty());
        assert(app@.disassembly =~= Seq::empty());
        app
    }

    /// Whether the debugger is to end.
    pub fn should_quit(&self) -> (quit: bool)
        ensures
            quit == self@.should_quit,
    {
        self.should_quit
    }

    /// Whether the machine is idle or runs.
    pub fn run_mode(&self) -> (mode: RunMode)
        ensures
            mode == self@.run_mode,
    {
        self.run_mode
    }

    /// Whether keys go to the input line.
    pub fn input_focus(&self) -> (focus: bool)
        ensures
            focus == self@.input_focus,
    {
        self.cmd_input_focus
    }

    /// The input line.
    pub fn input(&self) -> (input: &tui_input::Input)
        ensures
            input_text(*input) == self@.input,
            input_cursor(*input) == self@.input_cursor,
    {
        &self.cmd_input
    }

    /// The output log, the latest entry last.
    pub fn output(&self) -> (log: &Vec<CmdMsg>)
        ensures
            entries(log@) == self@.output,
    {
        &self.cmd_output
    }

    /// How many of the latest entries of the log are scrolled out of
    /// sight: never more than the log holds.
    pub fn scroll(&self) -> (scroll: usize)
        requires
            self@.wf(),
        ensures
            scroll == self@.scroll,
            scroll <= self@.output.len(),
    {
        self.cmd_output_scroll
    }

    /// The command history, the latest entry last.
    pub fn history(&self) -> (history: &Vec<String>)
        ensures
            texts(history@) == self@.history,
    {
        &self.cmd_history
    }

    /// How far back in the history the input line has gone: never further
    /// than the history reaches.
    pub fn history_cursor(&self) -> (cursor: usize)
        requires
            self@.wf(),
        ensures
            cursor == self@.history_cursor,
            cursor <= self@.history.len(),
    {
        self.cmd_history_idx
    }

    /// The path of the ROM file that was loaded last, or that the session
    /// started with.
    pub fn romfile(&self) -> (path: &Option<String>)
        ensures
            opt_text(*path) == self@.romfile,
    {
        &self.romfile
    }

    /// The path of the lark source.
    pub fn lark_src(&self) -> (path: &Option<String>)
        ensures
            opt_text(*path) == self@.lark_src,
    {
        &self.lark_src
    }

    /// The path of the Meadowlark source.
    pub fn meadowlark_src(&self) -> (path: &Option<String>)
        ensures
            opt_text(*path) == self@.meadowlark_src,
    {
        &self.meadowlark_src
    }

    /// The instructions of the image that was loaded last.
    pub fn disassembly(&self) -> (instrs: &Vec<Instr>)
        ensures
            instrs@ == self@.disassembly,
    {
        &self.disassembly
    }

    /// The scroll position of the disassembly pane.
    pub fn disassembly_scroll(&self) -> (state: tui_scrollview::ScrollViewState)
        ensures
            scroll_position(state) == self@.disassembly_scroll,
    {
        self.disassembly_scroll
    }

    /// Puts back the scroll position of the disassembly pane after the
    /// pane was drawn with it.
    pub fn set_disassembly_scroll(&mut self, state: tui_scrollview::ScrollViewState)
        ensures
            final(self)@ == (AppView {
                disassembly_scroll: scroll_position(state),
                ..old(self)@
            }),
    {
        self.disassembly_scroll = state;
    }

    /// The cell of the last click of the left mouse button.
    pub fn mouse_click(&self) -> (cell: Option<(u16, u16)>)
        ensures
            cell == self@.mouse_click,
    {
        self.mouse_click
    }

    /// The tab that is shown.
    pub fn tab_idx(&self) -> (tab: usize)
        ensures
            tab == self@.tab_idx,
    {
        self.tab_idx
    }

    /// What is to be done before the first turn of the loop: where a ROM
    /// file is known, it is loaded.
    pub fn startup(&self) -> (cmd: Option<Command>)
        ensures
            match self@.romfile {
                Some(path) => cmd is Some && cmd.unwrap()@ == (crate::command::CommandView::Load {
                    path,
                    kind: crate::command::ImageKind::Binary,
                }),
                None => cmd is None,
            },
    {
        match &self.romfile {
            Some(path) => Some(
                Command::Load { path: path.clone(), kind: crate::command::ImageKind::Binary },
            ),
            None => None,
        }
    }
}

} // verus!
