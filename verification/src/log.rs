//! What the debugger shows in its output pane, and what the machine tells
//! the debugger.

use vstd::prelude::*;

verus! {

/// How an argument of a traced instruction is to be shown.
#[derive(Clone, Copy, Debug, PartialEq, Eq)]
pub enum ArgStyle {
    /// A register.
    Reg,
    /// An immediate value.
    Imm,
}

/// One argument of a traced instruction.
#[derive(Clone, Debug, PartialEq, Eq)]
pub struct LogArg {
    pub style: Option<ArgStyle>,
    pub text: String,
}

/// A message of the machine's own log.
#[derive(Clone, Debug, PartialEq, Eq)]
pub enum LogMsg {
    /// The machine reports an error.
    Error(String),
    /// An instruction was executed.
    Instr { size: u16, name: String, args: Vec<LogArg> },
    /// The program printed a value for debugging.
    DebugPuts { addr: u16, value: String },
    /// A memory-mapped device was read.
    MmioRead { addr: u16, value: String },
    /// A memory-mapped device was written.
    MmioWrite { addr: u16, value: String },
}

/// What the machine signals to the debugger between two steps.
#[derive(Clone, Debug, PartialEq, Eq)]
pub enum Signal {
    /// A message for the log.
    Log(LogMsg),
    /// The machine has halted.
    Halt,
    /// The machine has reached a breakpoint.
    Breakpoint,
    /// The machine has met an instruction it does not know.
    IllegalInstr,
}

/// An entry of the output log.
#[derive(Clone, Debug, PartialEq, Eq)]
pub enum CmdMsg {
    /// What the debugger does.
    Log(String),
    /// What a command found.
    Info(String),
    /// What went wrong.
    Error(String),
    /// A command line, as it was submitted.
    Command(String),
    /// A message of the machine.
    CpuMsg(LogMsg),
}

/// An entry of the output log with its text as a sequence of characters.
/// A message of the machine is kept as it came.
pub enum CmdMsgView {
    Log(Seq<char>),
    Info(Seq<char>),
    Error(Seq<char>),
    Command(Seq<char>),
    CpuMsg(LogMsg),
}

impl View for CmdMsg {
    type V = CmdMsgView;

    open spec fn view(&self) -> CmdMsgView {
        match *self {
            CmdMsg::Log(text) => CmdMsgView::Log(text@),
            CmdMsg::Info(text) => CmdMsgView::Info(text@),
            CmdMsg::Error(text) => CmdMsgView::Error(text@),
            CmdMsg::Command(text) => CmdMsgView::Command(text@),
            CmdMsg::CpuMsg(msg) => CmdMsgView::CpuMsg(msg),
        }
    }
}

/// The views of the entries of a log, in order.
pub open spec fn entries(log: Seq<CmdMsg>) -> Seq<CmdMsgView> {
    Seq::new(log.len(), |i: int| log[i]@)
}

pub proof fn lemma_entries_push(log: Seq<CmdMsg>, msg: CmdMsg)
    ensures
        entries(log.push(msg)) == entries(log).push(msg@),
{
    assert(entries(log.push(msg)) =~= entries(log).push(msg@));
}

/// One `Info` entry for each of the rows, in order.
pub open spec fn info_entries(rows: Seq<Seq<char>>) -> Seq<CmdMsgView> {
    Seq::new(rows.len(), |i: int| CmdMsgView::Info(rows[i]))
}

/// One `Log` entry for each of the rows, in order.
pub open spec fn log_entries(rows: Seq<Seq<char>>) -> Seq<CmdMsgView> {
    Seq::new(rows.len(), |i: int| CmdMsgView::Log(rows[i]))
}

} // verus!
