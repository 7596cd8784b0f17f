//! Who may write: while another desktop process may write, this one may not.
use vstd::prelude::*;

use crate::number::{is_white, white};
use crate::text::{chars_of, same_text, text_of, unquoted, without_quotes};

verus! {

/// Another desktop process, with its command line where it could be read.
#[derive(Debug, PartialEq)]
pub struct DesktopProcess {
    pub process_id: u32,
    pub command_line: Option<String>,
}

/// `s[i..j]` is a word: no white space in it and none of its neighbours
/// belongs to it.
pub open spec fn is_word(s: Seq<char>, i: int, j: int) -> bool {
    &&& 0 <= i < j <= s.len()
    &&& forall|k: int| i <= k < j ==> !white(#[trigger] s[k])
    &&& i == 0 || white(s[i - 1])
    &&& j == s.len() || white(s[j])
}

/// One of the words is the argument that keeps a process from writing.
pub open spec fn reads_only(command_line: Seq<char>) -> bool {
    exists|i: int, j: int|
        #[trigger] is_word(command_line, i, j) && without_quotes(command_line.subrange(i, j)) == "--read-only"@
}

fn asks_for_reading_only(command_line: &str) -> (r: bool)
    ensures
        r == reads_only(command_line@),
{
    let chars = chars_of(command_line);
    let ghost s = command_line@;
    let n: usize = chars.len();
    let mut i: usize = 0;
    while i < n
        invariant
            i <= n,
            n == chars@.len(),
            chars@ == s,
            s == command_line@,
            i == 0 || i == n || white(s[i - 1]),
            forall|a: int, b: int|
                #[trigger] is_word(s, a, b) && a < i ==> without_quotes(s.subrange(a, b)) != "--read-only"@,
        decreases n - i,
    {
        if is_white(chars[i]) {
            i = i + 1;
        } else {
            let start: usize = i;
            let mut word: Vec<char> = Vec::new();
            let mut j: usize = i;
            while j < n && !is_white(chars[j])
                invariant
                    start <= j <= n,
                    n == chars@.len(),
                    chars@ == s,
                    word@ == s.subrange(start as int, j as int),
                    forall|k: int| start <= k < j ==> !white(#[trigger] s[k]),
                ensures
                    start <= j <= n,
                    word@ == s.subrange(start as int, j as int),
                    forall|k: int| start <= k < j ==> !white(#[trigger] s[k]),
                    j < n ==> white(s[j as int]),
                decreases n - j,
            {
                word.push(chars[j]);
                j = j + 1;
                assert(s.subrange(start as int, j as int) =~= s.subrange(start as int, j - 1).push(s[j - 1]));
            }
            assert(is_word(s, start as int, j as int));
            let bare = unquoted(text_of(&word).as_str());
            if same_text(bare.as_str(), "--read-only") {
                return true;
            }
            proof {
                assert forall|a: int, b: int| #[trigger] is_word(s, a, b) && a < j + 1 implies without_quotes(
                    s.subrange(a, b),
                ) != "--read-only"@ by {
                    if a >= start {
                        if a == start {
                            if b < j {
                                assert(!white(s[b]));
                            }
                            if b > j {
                                assert(!white(s[j as int]));
                            }
                        } else if a <= j {
                            if a < j {
                                assert(!white(s[a - 1]));
                            } else {
                                assert(!white(s[a]));
                            }
                        }
                    }
                }
            }
            i = if j < n { j + 1 } else { j };
        }
    }
    false
}

/// The process may write, as far as its command line tells.
pub open spec fn may_write(p: DesktopProcess, own: u32) -> bool {
    p.process_id != own && !(p.command_line matches Some(c) && reads_only(c@))
}

/// The first other process that may write, if any; the lease is refused while
/// there is one.
pub fn other_writer(processes: &Vec<DesktopProcess>, own: u32) -> (r: Option<u32>)
    ensures
        match r {
            Some(pid) => exists|i: int|
                0 <= i < processes@.len() && may_write(#[trigger] processes@[i], own) && processes@[i].process_id == pid
                    && forall|k: int| 0 <= k < i ==> !may_write(#[trigger] processes@[k], own),
            None => forall|k: int| 0 <= k < processes@.len() ==> !may_write(#[trigger] processes@[k], own),
        },
{
    let mut i: usize = 0;
    while i < processes.len()
        invariant
            i <= processes@.len(),
            forall|k: int| 0 <= k < i ==> !may_write(#[trigger] processes@[k], own),
        decreases processes@.len() - i,
    {
        let p = &processes[i];
        let read_only = match &p.command_line {
            Some(c) => asks_for_reading_only(c.as_str()),
            None => false,
        };
        if p.process_id != own && !read_only {
            assert(may_write(processes@[i as int], own));
            return Some(p.process_id);
        }
        i = i + 1;
    }
    None
}

} // verus!
