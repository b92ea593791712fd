//! What the panes show: the part of the log that is in sight, and the
//! listing of the disassembly.

use vstd::prelude::*;
use vstd::string::StringExecFns;
use crate::app::Instr;
use crate::log::CmdMsg;
use crate::number::{digits, padded, push_number};
use crate::text::{chars_of, push_chars};

verus! {

/// The part of a sequence that a window shows: what is left once `skip`
/// elements are passed over, and of that no more than `height` elements.
pub open spec fn window<T>(s: Seq<T>, skip: nat, height: nat) -> Seq<T> {
    let from = if skip <= s.len() {
        skip
    } else {
        s.len()
    };
    let to = if from + height <= s.len() {
        from + height
    } else {
        s.len()
    };
    s.subrange(from as int, to as int)
}

/// The log with its latest entry first.
pub open spec fn latest_first(log: Seq<CmdMsg>) -> Seq<CmdMsg> {
    Seq::new(log.len(), |i: int| log[log.len() - 1 - i])
}

/// The address of the instruction at position `i`, where the first lies at
/// `start`: `start` and the sizes of the instructions before it, in a
/// 16-bit address space that wraps round.
pub open spec fn instr_address(instrs: Seq<Instr>, start: u16, i: int) -> u16
    decreases i,
{
    if i <= 0 || i > instrs.len() {
        start
    } else {
        ((instr_address(instrs, start, i - 1) + instrs[i - 1].size) % 0x1_0000) as u16
    }
}

/// The position of the first tab at or after `i`, or the length of `s`
/// where there is none.
pub open spec fn tab_at(s: Seq<char>, i: int) -> int
    decreases s.len() - i,
{
    if 0 <= i < s.len() && s[i] != '\t' {
        tab_at(s, i + 1)
    } else {
        i
    }
}

/// An instruction's text in columns: where a tab parts the operation from
/// its arguments, the operation is brought to eight characters with spaces
/// behind it and the arguments follow; a text without a tab stays as it
/// is.
pub open spec fn aligned(text: Seq<char>) -> Seq<char> {
    let k = tab_at(text, 0);
    if 0 <= k < text.len() {
        let op = text.subrange(0, k);
        let fill = if k < 8 {
            Seq::new((8 - k) as nat, |i: int| ' ')
        } else {
            Seq::empty()
        };
        op + fill + text.subrange(k + 1, text.len() as int)
    } else {
        text
    }
}

/// The line of the listing for an instruction at an address: `0x`, the
/// address in four capital hex digits, four spaces and the instruction's
/// text in columns.
pub open spec fn listing_line(address: u16, text: Seq<char>) -> Seq<char> {
    "0x"@ + padded(digits(address as nat, 16, true), 4, '0') + "    "@ + aligned(text)
}

/// Appends an instruction's text in columns to `out`.
fn push_aligned(out: &mut String, text: &str)
    ensures
        final(out)@ == old(out)@ + aligned(text@),
{
    let chars = chars_of(text);
    let n: usize = chars.len();
    let mut k: usize = 0;
    while k < n && chars[k] != '\t'
        invariant
            k <= n == chars.len(),
            chars@ == text@,
            tab_at(text@, k as int) == tab_at(text@, 0),
        decreases n - k,
    {
        k += 1;
    }
    if k < n {
        push_chars(out, &chars, 0, k);
        let ghost head = out@;
        let mut i: usize = k;
        while i < 8
            invariant
                k <= i,
                i <= 8 || i == k,
                out@ == head + Seq::new((i - k) as nat, |j: int| ' '),
            decreases 8 - i,
        {
            out.push(' ');
            i += 1;
            assert(out@ =~= head + Seq::new((i - k) as nat, |j: int| ' '));
        }
        let ghost filled = out@;
        push_chars(out, &chars, k + 1, n);
        proof {
            if k >= 8 {
                assert(filled =~= head + Seq::<char>::empty());
            }
            assert(out@ =~= old(out)@ + aligned(text@));
        }
    } else {
        out.append(text);
    }
}

/// A line of the listing of the disassembly.
#[derive(Clone, Debug, PartialEq, Eq)]
pub struct DisassemblyRow {
    /// The address of the instruction.
    pub address: u16,
    /// The line as it is shown.
    pub text: String,
    /// Whether the program counter stands at this instruction.
    pub current: bool,
}

/// The disassembly of an image, for the pane that lists it.
pub struct DisassemblyView<'a> {
    /// The instructions, in the order in which they lie in memory.
    pub disassembly: &'a Vec<Instr>,
    /// The address of the first instruction.
    pub start: u16,
    /// The program counter.
    pub pc: u16,
}

impl<'a> DisassemblyView<'a> {
    /// The lines of the listing, one for each instruction: each with the
    /// address at which its instruction lies, and marked where the program
    /// counter stands there.
    pub fn rows(&self) -> (rows: Vec<DisassemblyRow>)
        ensures
            rows.len() == self.disassembly.len(),
            forall|i: int|
                0 <= i < rows.len() ==> {
                    &&& (#[trigger] rows[i]).address == instr_address(
                        self.disassembly@,
                        self.start,
                        i,
                    )
                    &&& rows[i].text@ == listing_line(rows[i].address, self.disassembly[i].text@)
                    &&& rows[i].current == (rows[i].address == self.pc)
                },
    {
        let n: usize = self.disassembly.len();
        let mut rows: Vec<DisassemblyRow> = Vec::new();
        let mut address: u16 = self.start;
        let mut i: usize = 0;
        while i < n
            invariant
                i <= n == self.disassembly.len(),
                rows.len() == i,
                address == instr_address(self.disassembly@, self.start, i as int),
                forall|k: int|
                    0 <= k < i ==> {
                        &&& (#[trigger] rows[k]).address == instr_address(
                            self.disassembly@,
                            self.start,
                            k,
                        )
                        &&& rows[k].text@ == listing_line(
                            rows[k].address,
                            self.disassembly[k].text@,
                        )
                        &&& rows[k].current == (rows[k].address == self.pc)
                    },
            decreases n - i,
        {
            let instr = &self.disassembly[i];
            let mut text = String::from_str("0x");
            push_number(&mut text, address as u64, 16, true, 4, '0');
            text.append("    ");
            push_aligned(&mut text, instr.text.as_str());
            rows.push(DisassemblyRow { address, text, current: address == self.pc });
            address = ((address as u32 + instr.size as u32) % 0x1_0000) as u16;
            i += 1;
        }
        rows
    }
}

/// The entries that a sequence of references points at.
pub open spec fn pointed(refs: Seq<&CmdMsg>) -> Seq<CmdMsg> {
    Seq::new(refs.len(), |i: int| *refs[i])
}

/// The entries of a log that a pane of the given height shows, the latest
/// first: those that are not scrolled out of sight, and of them no more
/// than the pane has rows.
pub fn visible<'a>(log: &'a Vec<CmdMsg>, scroll: usize, height: usize) -> (shown: Vec<&'a CmdMsg>)
    ensures
        pointed(shown@) == window(
            latest_first(log@),
            scroll as nat,
            height as nat,
        ),
{
    let n: usize = log.len();
    let skip: usize = if scroll <= n {
        scroll
    } else {
        n
    };
    let count: usize = if height <= n - skip {
        height
    } else {
        n - skip
    };
    let mut shown: Vec<&CmdMsg> = Vec::new();
    let mut i: usize = 0;
    let ghost all = latest_first(log@);
    assert(pointed(shown@) =~= all.subrange(skip as int, skip + i));
    while i < count
        invariant
            i <= count,
            skip + count <= n == log.len(),
            all == latest_first(log@),
            shown.len() == i,
            pointed(shown@) == all.subrange(skip as int, skip + i),
        decreases count - i,
    {
        let ghost before = shown@;
        shown.push(&log[n - 1 - skip - i]);
        i += 1;
        assert(forall|k: int| 0 <= k < i - 1 ==> shown@[k] == before[k]);
        assert(forall|k: int| 0 <= k < i - 1 ==> pointed(before)[k] == all[skip + k]);
        assert(*shown@[i - 1] == all[skip + i - 1]);
        assert(pointed(shown@) =~= all.subrange(skip as int, skip + i));
    }
    shown
}

} // verus!
