//! One turn of the debugger's loop: how long to wait for the terminal, what
//! an event from the terminal does, and what the machine's signals do.

use vstd::prelude::*;
use vstd::string::StringExecFns;
use crate::app::{App, AppView, RunMode};
use crate::command::{parse_command_spec, Command, CommandView};
use crate::input::{
    edited, input_handle, input_reset, input_value, input_with_value, InputEvent, Key, KeyPress,
    CONTROL,
};
use crate::log::{CmdMsg, CmdMsgView, Signal};
use crate::number::{digits, padded, push_number};
use crate::scroll::{one_down, one_up, scroll_view_down, scroll_view_up};
use crate::text::texts;

verus! {

/// The address of the cell in which the machine finds the code of the key
/// that was pressed last.
pub const KEY_CODE_ADDR: u16 = 0xF000;

/// How long the loop waits for the terminal while the machine is idle, in
/// milliseconds.
pub const IDLE_WAIT_MS: u64 = 50;

/// What is left for the caller to do after an event.
#[derive(Clone, Debug, PartialEq, Eq)]
pub enum Effect {
    /// Nothing.
    Nothing,
    /// Write `code` to the machine's memory at `cell`, then raise the
    /// machine's key interrupt.
    SendKey { cell: u16, code: u8 },
    /// Carry out the command on the machine and hand in what came of it.
    Execute(Command),
    /// The operator has stopped the run.
    Cancelled,
}

/// An effect, with the command as its view.
pub enum EffectView {
    Nothing,
    SendKey { cell: u16, code: u8 },
    Execute(CommandView),
    Cancelled,
}

impl View for Effect {
    type V = EffectView;

    open spec fn view(&self) -> EffectView {
        match *self {
            Effect::Nothing => EffectView::Nothing,
            Effect::SendKey { cell, code } => EffectView::SendKey { cell, code },
            Effect::Execute(cmd) => EffectView::Execute(cmd@),
            Effect::Cancelled => EffectView::Cancelled,
        }
    }
}

/// Whether a key press asks the debugger to quit: `c` or `d` with the
/// control key held.
pub open spec fn is_quit_key(press: KeyPress) -> bool {
    (press.key == Key::Char('c') || press.key == Key::Char('d')) && press.modifiers & CONTROL
        == CONTROL
}

/// The code under which a character reaches the machine: the lowest eight
/// bits of its code point.
pub open spec fn key_code(c: char) -> u8 {
    ((c as u32) % 256) as u8
}

/// A program counter as the log shows it: `0x` and four hex digits in
/// small letters.
pub open spec fn pc_text(pc: u16) -> Seq<char> {
    "0x"@ + padded(digits(pc as nat, 16, false), 4, '0')
}

impl AppView {
    /// The history entry that lies `back` submissions back, and the empty
    /// line for `back` 0.
    pub open spec fn entry(self, back: nat) -> Seq<char> {
        if 0 < back <= self.history.len() {
            self.history[self.history.len() - back]
        } else {
            Seq::empty()
        }
    }

    /// The session with the history cursor at `back` and that entry in the
    /// input line, the cursor of the line at its end.
    pub open spec fn recalled(self, back: nat) -> AppView {
        AppView {
            history_cursor: back,
            input: self.entry(back),
            input_cursor: self.entry(back).len(),
            ..self
        }
    }

    /// One entry further back in the history; at the oldest entry the
    /// cursor stays where it is.
    pub open spec fn older(self) -> AppView {
        self.recalled(
            if self.history_cursor < self.history.len() {
                self.history_cursor + 1
            } else {
                self.history_cursor
            },
        )
    }

    /// One entry forward in the history; past the latest entry comes the
    /// empty line, and there the cursor stays.
    pub open spec fn newer(self) -> AppView {
        self.recalled(
            if self.history_cursor > 0 {
                (self.history_cursor - 1) as nat
            } else {
                0
            },
        )
    }

    /// The log scrolled by one entry towards the older ones, as far as
    /// there are any; the disassembly pane moves up by a row.
    pub open spec fn scrolled_up(self) -> AppView {
        AppView {
            scroll: if self.scroll < self.output.len() {
                self.scroll + 1
            } else {
                self.scroll
            },
            disassembly_scroll: one_up(self.disassembly_scroll),
            ..self
        }
    }

    /// The log scrolled by one entry towards the latest, as far as any is
    /// out of sight; the disassembly pane moves down by a row.
    pub open spec fn scrolled_down(self) -> AppView {
        AppView {
            scroll: if self.scroll > 0 {
                (self.scroll - 1) as nat
            } else {
                0
            },
            disassembly_scroll: one_down(self.disassembly_scroll),
            ..self
        }
    }

    /// The session with an empty input line.
    pub open spec fn cleared(self) -> AppView {
        AppView { input: Seq::empty(), input_cursor: 0, ..self }
    }

    /// The session after the input line has taken a key press.
    pub open spec fn typed(self, press: KeyPress) -> AppView {
        let line = edited(self.input, self.input_cursor, press.key, press.modifiers);
        AppView { input: line.0, input_cursor: line.1, ..self }
    }

    /// The session after the machine was stopped: idle, and the log says
    /// so.
    pub open spec fn halted(self) -> AppView {
        AppView { run_mode: RunMode::Idle, ..self.said(CmdMsgView::Log("CPU halted."@)) }
    }

    /// The session after a key press.
    ///
    /// Control with `c` or `d` asks to quit. `Home` hands the focus from
    /// the input line to the machine and back. `Esc` stops a run, or else
    /// empties the input line. `Up` and `Down` walk the history, and
    /// `Enter` submits the input line and empties it. Any other key goes to
    /// the input line; but a character typed while the machine has the
    /// focus goes to the machine and leaves the session as it is.
    pub open spec fn pressed(self, press: KeyPress) -> AppView {
        if is_quit_key(press) {
            AppView { should_quit: true, ..self }
        } else {
            match press.key {
                Key::Home => AppView { input_focus: !self.input_focus, ..self },
                Key::Esc => if self.run_mode == RunMode::RunningToBreakpoint {
                    self.halted()
                } else {
                    self.cleared()
                },
                Key::Up => self.older(),
                Key::Down => self.newer(),
                Key::Enter => self.cleared().submit(self.input),
                Key::Char(_) => if self.input_focus {
                    self.typed(press)
                } else {
                    self
                },
                _ => self.typed(press),
            }
        }
    }

    /// What is left to do after a key press: to carry out the command that
    /// `Enter` submitted, to send the machine the character typed while it
    /// had the focus, or to take note that `Esc` stopped a run.
    pub open spec fn press_effect(self, press: KeyPress) -> EffectView {
        if is_quit_key(press) {
            EffectView::Nothing
        } else {
            match press.key {
                Key::Esc => if self.run_mode == RunMode::RunningToBreakpoint {
                    EffectView::Cancelled
                } else {
                    EffectView::Nothing
                },
                Key::Enter => EffectView::Execute(parse_command_spec(self.input)),
                Key::Char(c) => if self.input_focus {
                    EffectView::Nothing
                } else {
                    EffectView::SendKey { cell: KEY_CODE_ADDR, code: key_code(c) }
                },
                _ => EffectView::Nothing,
            }
        }
    }

    /// The session after an event from the terminal. The mouse wheel
    /// scrolls, whoever has the focus; a click is taken note of.
    pub open spec fn handled(self, event: InputEvent) -> AppView {
        match event {
            InputEvent::Press(press) => self.pressed(press),
            InputEvent::ScrollUp => self.scrolled_up(),
            InputEvent::ScrollDown => self.scrolled_down(),
            InputEvent::Click { column, row } => AppView {
                mouse_click: Some((column, row)),
                ..self
            },
            InputEvent::Other => self,
        }
    }

    /// What is left to do after an event from the terminal.
    pub open spec fn effect(self, event: InputEvent) -> EffectView {
        match event {
            InputEvent::Press(press) => self.press_effect(press),
            _ => EffectView::Nothing,
        }
    }

    /// The session after a signal of the machine, whose program counter
    /// stands at `pc`. A message goes into the log. Any other signal ends a
    /// run, and the log says why.
    pub open spec fn signalled(self, signal: Signal, pc: u16) -> AppView {
        match signal {
            Signal::Log(msg) => self.said(CmdMsgView::CpuMsg(msg)),
            Signal::Halt => self.halted(),
            Signal::Breakpoint => AppView {
                run_mode: RunMode::Idle,
                ..self.said(CmdMsgView::Log("BREAKPOINT at pc="@ + pc_text(pc)))
            },
            Signal::IllegalInstr => AppView {
                run_mode: RunMode::Idle,
                ..self.said(CmdMsgView::Error("Illegal instruction at pc="@ + pc_text(pc)))
            },
        }
    }

    /// The session after the first `n` of the signals, taken in order.
    pub open spec fn drained(self, signals: Seq<Signal>, n: nat, pc: u16) -> AppView
        decreases n,
    {
        if n == 0 || n > signals.len() {
            self
        } else {
            self.drained(signals, (n - 1) as nat, pc).signalled(signals[n - 1], pc)
        }
    }
}

/// `head`, then the program counter.
fn at_pc(head: &str, pc: u16) -> (text: String)
    ensures
        text@ == head@ + pc_text(pc),
{
    let mut text = String::from_str(head);
    text.append("0x");
    push_number(&mut text, pc as u64, 16, false, 4, '0');
    assert(text@ =~= head@ + pc_text(pc));
    text
}

impl App {
    /// Whether the machine is to take a step at the start of this turn.
    pub fn is_running(&self) -> (running: bool)
        ensures
            running == (self@.run_mode == RunMode::RunningToBreakpoint),
    {
        self.run_mode == RunMode::RunningToBreakpoint
    }

    /// How long this turn may wait for the terminal, in milliseconds: not
    /// at all while the machine runs, and `IDLE_WAIT_MS` while it is idle.
    pub fn poll_budget_ms(&self) -> (wait: u64)
        ensures
            wait == if self@.run_mode == RunMode::RunningToBreakpoint {
                0
            } else {
                IDLE_WAIT_MS
            },
    {
        if self.is_running() {
            0
        } else {
            IDLE_WAIT_MS
        }
    }

    /// Puts the history entry that lies `back` submissions back into the
    /// input line.
    fn recall(&mut self, back: usize)
        requires
            back <= old(self)@.history.len(),
        ensures
            final(self)@ == old(self)@.recalled(back as nat),
    {
        let n: usize = self.cmd_history.len();
        let text = if back > 0 {
            assert(self.cmd_history@[n - back]@ == texts(self.cmd_history@)[n - back]);
            self.cmd_history[n - back].clone()
        } else {
            String::new()
        };
        self.cmd_history_idx = back;
        self.cmd_input = input_with_value(text);
    }

    /// Stops the machine and says so.
    fn halt(&mut self)
        ensures
            final(self)@ == old(self)@.halted(),
    {
        self.cmd_log(String::from_str("CPU halted."));
        self.run_mode = RunMode::Idle;
    }

    /// Takes a key press.
    fn press(&mut self, press: KeyPress) -> (effect: Effect)
        requires
            old(self)@.wf(),
        ensures
            final(self)@ == old(self)@.pressed(press),
            effect@ == old(self)@.press_effect(press),
            final(self)@.wf(),
    {
        let quit = match press.key {
            Key::Char(c) => (c == 'c' || c == 'd') && press.modifiers & CONTROL == CONTROL,
            _ => false,
        };
        if quit {
            self.should_quit = true;
            return Effect::Nothing;
        }
        match press.key {
            Key::Home => {
                self.cmd_input_focus = !self.cmd_input_focus;
                Effect::Nothing
            },
            Key::Esc => {
                if self.is_running() {
                    self.halt();
                    Effect::Cancelled
                } else {
                    input_reset(&mut self.cmd_input);
                    Effect::Nothing
                }
            },
            Key::Up => {
                let back: usize = if self.cmd_history_idx < self.cmd_history.len() {
                    self.cmd_history_idx + 1
                } else {
                    self.cmd_history_idx
                };
                self.recall(back);
                Effect::Nothing
            },
            Key::Down => {
                let back: usize = if self.cmd_history_idx > 0 {
                    self.cmd_history_idx - 1
                } else {
                    0
                };
                self.recall(back);
                Effect::Nothing
            },
            Key::Enter => {
                let line = input_value(&self.cmd_input);
                input_reset(&mut self.cmd_input);
                Effect::Execute(self.do_cmd(line.as_str()))
            },
            Key::Char(c) => {
                if self.cmd_input_focus {
                    input_handle(&mut self.cmd_input, press);
                    Effect::Nothing
                } else {
                    let code: u32 = c as u32;
                    Effect::SendKey { cell: KEY_CODE_ADDR, code: (code % 256) as u8 }
                }
            },
            _ => {
                input_handle(&mut self.cmd_input, press);
                Effect::Nothing
            },
        }
    }

    /// Takes an event from the terminal and says what is left to do.
    pub fn update(&mut self, event: InputEvent) -> (effect: Effect)
        requires
            old(self)@.wf(),
        ensures
            final(self)@ == old(self)@.handled(event),
            effect@ == old(self)@.effect(event),
            final(self)@.wf(),
    {
        match event {
            InputEvent::Press(press) => self.press(press),
            InputEvent::ScrollUp => {
                if self.cmd_output_scroll < self.cmd_output.len() {
                    self.cmd_output_scroll = self.cmd_output_scroll + 1;
                }
                scroll_view_up(&mut self.disassembly_scroll);
                Effect::Nothing
            },
            InputEvent::ScrollDown => {
                if self.cmd_output_scroll > 0 {
                    self.cmd_output_scroll = self.cmd_output_scroll - 1;
                }
                scroll_view_down(&mut self.disassembly_scroll);
                Effect::Nothing
            },
            InputEvent::Click { column, row } => {
                self.mouse_click = Some((column, row));
                Effect::Nothing
            },
            InputEvent::Other => Effect::Nothing,
        }
    }

    /// Takes one signal of the machine, whose program counter stands at
    /// `pc`.
    pub fn signal(&mut self, signal: Signal, pc: u16)
        requires
            old(self)@.wf(),
        ensures
            final(self)@ == old(self)@.signalled(signal, pc),
            final(self)@.wf(),
    {
        match signal {
            Signal::Log(msg) => {
                self.say(CmdMsg::CpuMsg(msg));
            },
            Signal::Halt => {
                self.halt();
            },
            Signal::Breakpoint => {
                self.cmd_log(at_pc("BREAKPOINT at pc=", pc));
                self.run_mode = RunMode::Idle;
            },
            Signal::IllegalInstr => {
                self.cmd_err(at_pc("Illegal instruction at pc=", pc));
                self.run_mode = RunMode::Idle;
            },
        }
    }

    /// Takes the signals that the machine has sent since the last turn, in
    /// the order in which it sent them.
    pub fn drain(&mut self, signals: Vec<Signal>, pc: u16)
        requires
            old(self)@.wf(),
        ensures
            final(self)@ == old(self)@.drained(signals@, signals@.len(), pc),
            final(self)@.wf(),
    {
        let ghost all = signals@;
        for signal in it: signals
            invariant
                it.seq() == all,
                self@ == old(self)@.drained(all, it.index() as nat, pc),
                self@.wf(),
        {
            self.signal(signal, pc);
        }
    }
}

} // verus!
