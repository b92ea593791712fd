//! What holds of every session, whatever is submitted, typed or signalled.

use vstd::prelude::*;
use crate::app::AppView;
use crate::command::{is_dump_word, parse_command_spec, CommandView};
use crate::input::InputEvent;
use crate::interpret::operand_error;
use crate::log::{CmdMsgView, Signal};
use crate::machine::extent_spec;
use crate::number::parse_number_spec;
use crate::text::words;

verus! {

/// Whether no entry of the history is the same as the one before it.
pub open spec fn no_repeats(history: Seq<Seq<char>>) -> bool {
    forall|i: int| 0 <= i < history.len() - 1 ==> #[trigger] history[i] != history[i + 1]
}

/// Whether a line is a command with an operand that is no number: an
/// examine command, or a dump of a range or of a span.
pub open spec fn has_malformed_operand(line: Seq<char>) -> bool {
    let w = words(line);
    ||| w.len() == 2 && (w[0] == "x"@ || w[0] == "x/w"@ || w[0] == "x/b"@) && parse_number_spec(
        w[1],
    ) is None
    ||| w.len() == 4 && is_dump_word(w[0]) && (w[2] == ".."@ || w[2] == ":+"@) && (
    parse_number_spec(w[1]) is None || parse_number_spec(w[3]) is None)
}

/// A command with a malformed operand does nothing but report it: the log
/// gains the echo of the line and one error entry, the command asks for no
/// memory to be shown, and apart from what every submission does the
/// session stays as it was.
pub proof fn lemma_malformed_operand_only_reported(s: AppView, line: Seq<char>)
    requires
        has_malformed_operand(line),
    ensures
        parse_command_spec(line) is BadOperand,
        extent_spec(parse_command_spec(line)) is None,
        s.submit(line) == s.echoed(line).said(
            CmdMsgView::Error(
                operand_error(
                    parse_command_spec(line)->BadOperand_which,
                    parse_command_spec(line)->BadOperand_token,
                ),
            ),
        ),
        s.submit(line).output == s.output.push(CmdMsgView::Command(line)).push(
            CmdMsgView::Error(
                operand_error(
                    parse_command_spec(line)->BadOperand_which,
                    parse_command_spec(line)->BadOperand_token,
                ),
            ),
        ),
{
    reveal_strlit("x");
    reveal_strlit("x/w");
    reveal_strlit("x/b");
    reveal_strlit("load");
    reveal_strlit("l");
    let w = words(line);
    if w.len() == 2 {
        assert(w[0].len() == 1 || w[0].len() == 3);
        assert(w[0][0] == 'x');
        assert(w[0] != "load"@ && w[0] != "l"@);
    }
}

/// Submitting a line never puts an entry into the history next to an equal
/// one.
pub proof fn lemma_submit_adds_no_repeat(s: AppView, line: Seq<char>)
    requires
        no_repeats(s.history),
    ensures
        no_repeats(s.submit(line).history),
{
    let h = s.recorded(line);
    assert(no_repeats(h)) by {
        assert forall|i: int| 0 <= i < h.len() - 1 implies #[trigger] h[i] != h[i + 1] by {
            if i < s.history.len() - 1 {
                assert(s.history[i] != s.history[i + 1]);
            }
        }
    }
    assert(no_repeats(h.drop_last())) by {
        assert forall|i: int| 0 <= i < h.drop_last().len() - 1 implies #[trigger] h.drop_last()[i]
            != h.drop_last()[i + 1] by {
            assert(h[i] != h[i + 1]);
        }
    }
    assert(no_repeats(Seq::<Seq<char>>::empty()));
}

/// No event from the terminal puts an entry into the history next to an
/// equal one: only a submission changes the history at all.
pub proof fn lemma_event_adds_no_repeat(s: AppView, event: InputEvent)
    requires
        no_repeats(s.history),
    ensures
        no_repeats(s.handled(event).history),
{
    lemma_submit_adds_no_repeat(s.cleared(), s.input);
}

/// Submitting the same line twice in a row leaves the history as the
/// first submission left it.
pub proof fn lemma_submit_twice(s: AppView, line: Seq<char>)
    requires
        no_repeats(s.history),
    ensures
        s.submit(line).submit(line).history == s.submit(line).history,
{
    let h0 = s.history;
    let h = s.recorded(line);
    let s1 = s.submit(line);
    let h1 = s1.history;
    let h2 = s1.submit(line).history;
    if h1 == h {
        assert(h1.last() == line);
        assert(s1.recorded(line) == h1);
        assert(h2 =~= h1);
    } else if h1 == Seq::<Seq<char>>::empty() {
        assert(s1.recorded(line) =~= seq![line]);
        assert(s1.recorded(line).drop_last() =~= h1);
        assert(h2 =~= h1);
    } else {
        assert(h1 == h.drop_last());
        if h0.len() > 0 && h0.last() == line {
            assert(h == h0);
            assert(h1.len() > 0 ==> h1.last() == h0[h0.len() - 2]);
            assert(h1.len() > 0 ==> h0[h0.len() - 2] != h0[h0.len() - 2 + 1]);
        } else {
            assert(h1 =~= h0);
        }
        assert(s1.recorded(line) == h1.push(line));
        assert(h1.push(line).drop_last() =~= h1);
        assert(h2 =~= h1);
    }
}

/// The session after `n` presses of `Up`.
pub open spec fn older_times(s: AppView, n: nat) -> AppView
    decreases n,
{
    if n == 0 {
        s
    } else {
        older_times(s, (n - 1) as nat).older()
    }
}

/// Walking back through the history stops at its oldest entry: after `n`
/// presses of `Up` the cursor has moved by `n`, but not past the length of
/// the history, and from the first press on the input line holds the entry
/// that the cursor points at.
pub proof fn lemma_older_stops_at_oldest(s: AppView, n: nat)
    requires
        s.wf(),
    ensures
        older_times(s, n).wf(),
        older_times(s, n).history == s.history,
        older_times(s, n).history_cursor == if s.history_cursor + n <= s.history.len() {
            s.history_cursor + n
        } else {
            s.history.len()
        },
        n > 0 ==> older_times(s, n).input == s.entry(older_times(s, n).history_cursor),
        n > 0 && s.history_cursor + n >= s.history.len() > 0 ==> older_times(s, n).input
            == s.history[0],
    decreases n,
{
    if n > 0 {
        lemma_older_stops_at_oldest(s, (n - 1) as nat);
    }
}

/// The history cursor never leaves the history, and no more of the log is
/// scrolled out of sight than it holds: what holds of a session before an
/// event from the terminal, holds after it.
pub proof fn lemma_event_keeps_in_range(s: AppView, event: InputEvent)
    requires
        s.wf(),
    ensures
        s.handled(event).wf(),
        s.handled(event).history_cursor <= s.handled(event).history.len(),
        s.handled(event).scroll <= s.handled(event).output.len(),
{
    lemma_submit_in_range(s.cleared(), s.input);
}

/// And so after a signal of the machine.
pub proof fn lemma_signal_keeps_in_range(s: AppView, signal: Signal, pc: u16)
    requires
        s.wf(),
    ensures
        s.signalled(signal, pc).wf(),
{
}

/// And after all the signals of a turn.
pub proof fn lemma_drain_keeps_in_range(s: AppView, signals: Seq<Signal>, n: nat, pc: u16)
    requires
        s.wf(),
    ensures
        s.drained(signals, n, pc).wf(),
    decreases n,
{
    if 0 < n <= signals.len() {
        lemma_drain_keeps_in_range(s, signals, (n - 1) as nat, pc);
    }
}

/// Scrolling stops at both ends: at the oldest entry the log scrolls no
/// further up, and at the latest no further down.
pub proof fn lemma_scroll_stops_at_ends(s: AppView)
    requires
        s.wf(),
    ensures
        s.scrolled_up().wf(),
        s.scrolled_down().wf(),
        s.scroll == s.output.len() ==> s.scrolled_up().scroll == s.scroll,
        s.scroll < s.output.len() ==> s.scrolled_up().scroll == s.scroll + 1,
        s.scroll == 0 ==> s.scrolled_down().scroll == 0,
        s.scroll > 0 ==> s.scrolled_down().scroll == s.scroll - 1,
{
}

/// Every submission brings the latest entry of the log into sight and the
/// history cursor back to the empty line, whatever the line and wherever
/// the session stood.
pub proof fn lemma_submit_in_range(s: AppView, line: Seq<char>)
    ensures
        s.submit(line).scroll == 0,
        s.submit(line).history_cursor == 0,
        s.submit(line).wf(),
        s.submit(line).output.len() > s.output.len(),
        s.submit(line).output[s.output.len() as int] == CmdMsgView::Command(line),
{
}

/// A run ends on a halt, a breakpoint or an illegal instruction, and on no
/// other signal; and each of them says so in one entry of the log.
pub proof fn lemma_signal_ends_run(s: AppView, signal: Signal, pc: u16)
    ensures
        !(signal is Log) ==> s.signalled(signal, pc).run_mode == crate::app::RunMode::Idle,
        signal is Log ==> s.signalled(signal, pc).run_mode == s.run_mode,
        s.signalled(signal, pc).output.len() == s.output.len() + 1,
{
}

} // verus!
