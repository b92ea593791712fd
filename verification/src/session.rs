//! What a session leaves behind for the next: the paths last used and the
//! tab last shown, as a text of `key = value` lines, and the latest entries
//! of the command history.

use vstd::prelude::*;
use vstd::string::StringExecFns;
use crate::app::{opt_text, App};
use crate::number::{digits, parse_digits, push_number, read_digits};
use crate::text::{chars_of, lemma_texts_push, lines, same, split_lines, string_of, texts};

verus! {

/// How many entries of the command history are kept from one session to
/// the next.
pub const MAX_HIST_LEN: usize = 512;

/// The paths last used and the tab last shown.
#[derive(Clone, Debug, PartialEq, Eq)]
pub struct Session {
    pub meadowlark_src: Option<String>,
    pub lark_src: Option<String>,
    pub romfile: Option<String>,
    pub tab_idx: usize,
}

/// A session record with its paths as sequences of characters.
pub struct SessionView {
    pub meadowlark_src: Option<Seq<char>>,
    pub lark_src: Option<Seq<char>>,
    pub romfile: Option<Seq<char>>,
    pub tab_idx: usize,
}

impl View for Session {
    type V = SessionView;

    open spec fn view(&self) -> SessionView {
        SessionView {
            meadowlark_src: opt_text(self.meadowlark_src),
            lark_src: opt_text(self.lark_src),
            romfile: opt_text(self.romfile),
            tab_idx: self.tab_idx,
        }
    }
}

/// The line that records a path under a key, and nothing where there is no
/// path.
pub open spec fn path_line(key: Seq<char>, path: Option<Seq<char>>) -> Seq<char> {
    match path {
        Some(p) => key + " = "@ + p + seq!['\n'],
        None => Seq::empty(),
    }
}

/// The text that records a session: a line for each path that is there,
/// and a line for the tab.
pub open spec fn serialized(s: SessionView) -> Seq<char> {
    path_line("meadowlark_src"@, s.meadowlark_src) + path_line("lark_src"@, s.lark_src)
        + path_line("romfile"@, s.romfile) + "tab_idx = "@ + digits(s.tab_idx as nat, 10, true)
        + seq!['\n']
}

/// Whether ` = ` stands in `line` at position `i`.
pub open spec fn sep_at(line: Seq<char>, i: int) -> bool {
    0 <= i && i + 3 <= line.len() && line[i] == ' ' && line[i + 1] == '=' && line[i + 2] == ' '
}

/// The first position at or after `i` at which ` = ` stands in `line`.
pub open spec fn find_sep(line: Seq<char>, i: int) -> Option<int>
    decreases line.len() - i,
{
    if i < 0 || i + 3 > line.len() {
        None
    } else if sep_at(line, i) {
        Some(i)
    } else {
        find_sep(line, i + 1)
    }
}

/// The record without anything in it.
pub open spec fn blank() -> SessionView {
    SessionView { meadowlark_src: None, lark_src: None, romfile: None, tab_idx: 0 }
}

/// The record after a line was read. The line is split at its first
/// ` = ` into a key and a value; a line without one cannot be read. A path
/// key sets its path. `tab_idx` sets the tab to the number that the value
/// writes in decimal digits, and to 0 where it writes none that fits. Any
/// other key changes nothing.
pub open spec fn applied(s: SessionView, line: Seq<char>) -> Option<SessionView> {
    match find_sep(line, 0) {
        None => None,
        Some(i) => {
            let key = line.subrange(0, i);
            let value = line.subrange(i + 3, line.len() as int);
            Some(
                if key == "meadowlark_src"@ {
                    SessionView { meadowlark_src: Some(value), ..s }
                } else if key == "lark_src"@ {
                    SessionView { lark_src: Some(value), ..s }
                } else if key == "romfile"@ {
                    SessionView { romfile: Some(value), ..s }
                } else if key == "tab_idx"@ {
                    SessionView {
                        tab_idx: match read_digits(value, 10, usize::MAX as nat) {
                            Some(n) => n as usize,
                            None => 0,
                        },
                        ..s
                    }
                } else {
                    s
                },
            )
        },
    }
}

/// The record after the first `n` of the lines were read, in order.
pub open spec fn read_lines(text: Seq<Seq<char>>, n: nat) -> Option<SessionView>
    decreases n,
{
    if n == 0 || n > text.len() {
        Some(blank())
    } else {
        match read_lines(text, (n - 1) as nat) {
            Some(s) => applied(s, text[n - 1]),
            None => None,
        }
    }
}

/// The record that a text holds, if every line of it can be read.
pub open spec fn deserialized(text: Seq<char>) -> Option<SessionView> {
    read_lines(lines(text), lines(text).len())
}

/// The latest `MAX_HIST_LEN` entries of a history, or all of them where
/// there are no more.
pub open spec fn kept(history: Seq<Seq<char>>) -> Seq<Seq<char>> {
    if history.len() > MAX_HIST_LEN {
        history.skip(history.len() - MAX_HIST_LEN)
    } else {
        history
    }
}

fn push_path_line(out: &mut String, key: &str, path: &Option<String>)
    ensures
        final(out)@ == old(out)@ + path_line(key@, opt_text(*path)),
{
    match path {
        Some(p) => {
            out.append(key);
            out.append(" = ");
            out.append(p.as_str());
            out.push('\n');
            assert(out@ =~= old(out)@ + path_line(key@, opt_text(*path)));
        },
        None => {
            assert(out@ =~= old(out)@ + path_line(key@, opt_text(*path)));
        },
    }
}

/// Where the first ` = ` stands in `chars`.
fn locate_sep(chars: &Vec<char>) -> (at: Option<usize>)
    ensures
        match at {
            Some(i) => find_sep(chars@, 0) == Some(i as int) && i + 3 <= chars.len(),
            None => find_sep(chars@, 0) is None,
        },
{
    let n: usize = chars.len();
    let mut i: usize = 0;
    while n >= 3 && i <= n - 3
        invariant
            n == chars.len(),
            n >= 3 ==> i <= n - 2,
            find_sep(chars@, i as int) == find_sep(chars@, 0),
        decreases n - i,
    {
        if chars[i] == ' ' && chars[i + 1] == '=' && chars[i + 2] == ' ' {
            return Some(i);
        }
        i += 1;
    }
    None
}

impl Session {
    /// The text that records this session.
    pub fn serialize(&self) -> (text: String)
        ensures
            text@ == serialized(self@),
    {
        let mut text = String::new();
        push_path_line(&mut text, "meadowlark_src", &self.meadowlark_src);
        push_path_line(&mut text, "lark_src", &self.lark_src);
        push_path_line(&mut text, "romfile", &self.romfile);
        text.append("tab_idx = ");
        push_number(&mut text, self.tab_idx as u64, 10, true, 0, ' ');
        text.push('\n');
        assert(text@ =~= serialized(self@));
        text
    }

    /// Reads one line into the record.
    fn apply(&mut self, line: &str) -> (ok: bool)
        ensures
            ok ==> applied(old(self)@, line@) == Some(final(self)@),
            !ok ==> applied(old(self)@, line@) is None && final(self)@ == old(self)@,
    {
        let chars = chars_of(line);
        let at: usize = match locate_sep(&chars) {
            Some(i) => i,
            None => {
                return false;
            },
        };
        let key = string_of(&chars, 0, at);
        let k = key.as_str();
        if same(k, "meadowlark_src") {
            self.meadowlark_src = Some(string_of(&chars, at + 3, chars.len()));
        } else if same(k, "lark_src") {
            self.lark_src = Some(string_of(&chars, at + 3, chars.len()));
        } else if same(k, "romfile") {
            self.romfile = Some(string_of(&chars, at + 3, chars.len()));
        } else if same(k, "tab_idx") {
            assert(chars@.skip(at + 3) =~= line@.subrange(at + 3, line@.len() as int));
            self.tab_idx = match parse_digits(&chars, at + 3, 10, usize::MAX as u64) {
                Some(n) => n as usize,
                None => 0,
            };
        }
        true
    }

    /// The record that a text holds: `None` where a line of it cannot be
    /// read, and the record without anything in it for the empty text.
    pub fn deserialize(text: &str) -> (session: Option<Session>)
        ensures
            match session {
                Some(s) => deserialized(text@) == Some(s@),
                None => deserialized(text@) is None,
            },
    {
        let rows = split_lines(text);
        let mut session = Session { meadowlark_src: None, lark_src: None, romfile: None, tab_idx: 0 };
        let n: usize = rows.len();
        let mut i: usize = 0;
        while i < n
            invariant
                i <= n == rows.len(),
                texts(rows@) == lines(text@),
                read_lines(lines(text@), i as nat) == Some(session@),
            decreases n - i,
        {
            assert(rows@[i as int]@ == texts(rows@)[i as int]);
            if !session.apply(rows[i].as_str()) {
                proof {
                    lemma_unreadable(lines(text@), (i + 1) as nat, n as nat);
                }
                return None;
            }
            i += 1;
        }
        Some(session)
    }
}

/// Once a line cannot be read, no later line mends it.
proof fn lemma_unreadable(text: Seq<Seq<char>>, k: nat, n: nat)
    requires
        k <= n <= text.len(),
        read_lines(text, k) is None,
    ensures
        read_lines(text, n) is None,
    decreases n - k,
{
    if k < n {
        lemma_unreadable(text, k, (n - 1) as nat);
    }
}

impl App {
    /// What this session leaves for the next.
    pub fn session(&self) -> (session: Session)
        ensures
            session@ == (SessionView {
                meadowlark_src: self@.meadowlark_src,
                lark_src: self@.lark_src,
                romfile: self@.romfile,
                tab_idx: self@.tab_idx,
            }),
    {
        Session {
            meadowlark_src: self.meadowlark_src.clone(),
            lark_src: self.lark_src.clone(),
            romfile: self.romfile.clone(),
            tab_idx: self.tab_idx,
        }
    }

    /// The entries of the history that are kept for the next session, the
    /// latest last.
    pub fn history_to_save(&self) -> (entries: Vec<String>)
        ensures
            texts(entries@) == kept(self@.history),
    {
        let n: usize = self.cmd_history.len();
        let from: usize = if n > MAX_HIST_LEN {
            n - MAX_HIST_LEN
        } else {
            0
        };
        let mut entries: Vec<String> = Vec::new();
        let mut i: usize = from;
        while i < n
            invariant
                from <= i <= n == self.cmd_history.len(),
                texts(entries@) == texts(self.cmd_history@).subrange(from as int, i as int),
            decreases n - i,
        {
            let entry = self.cmd_history[i].clone();
            proof {
                lemma_texts_push(entries@, entry);
            }
            entries.push(entry);
            i += 1;
            assert(texts(entries@) =~= texts(self.cmd_history@).subrange(from as int, i as int));
        }
        assert(texts(entries@) =~= kept(self@.history));
        entries
    }
}

} // verus!
