//! Reading the control utility's list of adapters.
//!
//! The utility prints one adapter per line. Lines end in a line feed, with or
//! without a carriage return before it; the last line may lack its ending.
//! Lines that hold nothing but white space name no adapter.

use vstd::prelude::*;
use vstd::string::*;
use crate::text::chars_of;

verus! {

/// White space, as Unicode defines it.
pub open spec fn is_space(c: char) -> bool {
    ||| ('\u{9}' <= c && c <= '\u{d}')
    ||| c == ' '
    ||| c == '\u{85}'
    ||| c == '\u{a0}'
    ||| c == '\u{1680}'
    ||| ('\u{2000}' <= c && c <= '\u{200a}')
    ||| c == '\u{2028}'
    ||| c == '\u{2029}'
    ||| c == '\u{202f}'
    ||| c == '\u{205f}'
    ||| c == '\u{3000}'
}

/// A line that holds nothing but white space.
pub open spec fn blank(line: Seq<char>) -> bool {
    forall|k: int| 0 <= k < line.len() ==> is_space(#[trigger] line[k])
}

/// Where the first line of `s` ends: the position of the first line feed, or
/// the length of `s` where it holds none.
pub open spec fn line_end(s: Seq<char>) -> int
    decreases s.len(),
{
    if s.len() == 0 || s[0] == '\n' {
        0
    } else {
        1 + line_end(s.drop_first())
    }
}

/// A line without the carriage return that stood before its line feed.
pub open spec fn without_return(line: Seq<char>) -> Seq<char> {
    if line.len() > 0 && line.last() == '\r' {
        line.drop_last()
    } else {
        line
    }
}

/// The first line of a non-empty `s`, without its ending.
pub open spec fn first_line(s: Seq<char>) -> Seq<char> {
    let end = line_end(s);
    if end < s.len() {
        without_return(s.subrange(0, end))
    } else {
        s
    }
}

/// What follows the first line of `s` and its ending.
pub open spec fn after_first_line(s: Seq<char>) -> Seq<char> {
    let end = line_end(s);
    if end < s.len() {
        s.subrange(end + 1, s.len() as int)
    } else {
        Seq::empty()
    }
}

/// The adapters that the listing `s` names: its lines that are not blank, in
/// order and as they stand.
pub open spec fn names_in(s: Seq<char>) -> Seq<Seq<char>>
    decreases s.len(),
    via names_in_decreases
{
    if s.len() == 0 {
        Seq::empty()
    } else {
        let line = first_line(s);
        let rest = names_in(after_first_line(s));
        if blank(line) {
            rest
        } else {
            seq![line] + rest
        }
    }
}

#[via_fn]
proof fn names_in_decreases(s: Seq<char>) {
    lemma_line_end_in_range(s);
}

/// The first line ends inside the text.
pub proof fn lemma_line_end_in_range(s: Seq<char>)
    ensures
        0 <= line_end(s) <= s.len(),
    decreases s.len(),
{
    if s.len() > 0 && s[0] != '\n' {
        lemma_line_end_in_range(s.drop_first());
    }
}

/// The first line ends at `k` where no line feed stands before `k` and one
/// stands at `k`, or the text ends there.
pub proof fn lemma_line_end_is(s: Seq<char>, k: int)
    requires
        0 <= k <= s.len(),
        forall|j: int| 0 <= j < k ==> s[j] != '\n',
        k == s.len() || s[k] == '\n',
    ensures
        line_end(s) == k,
    decreases s.len(),
{
    if k > 0 {
        let t = s.drop_first();
        assert forall|j: int| 0 <= j < k - 1 implies t[j] != '\n' by {
            assert(t[j] == s[j + 1]);
        }
        lemma_line_end_is(t, k - 1);
    }
}

/// Whether `c` is white space.
pub fn is_whitespace(c: char) -> (r: bool)
    ensures
        r == is_space(c),
{
    ('\u{9}' <= c && c <= '\u{d}') || c == ' ' || c == '\u{85}' || c == '\u{a0}' || c
        == '\u{1680}' || ('\u{2000}' <= c && c <= '\u{200a}') || c == '\u{2028}' || c
        == '\u{2029}' || c == '\u{202f}' || c == '\u{205f}' || c == '\u{3000}'
}

fn is_blank(text: &Vec<char>, from: usize, to: usize) -> (r: bool)
    requires
        from <= to <= text@.len(),
    ensures
        r == blank(text@.subrange(from as int, to as int)),
{
    let mut i: usize = from;
    while i < to
        invariant
            from <= i <= to,
            to <= text@.len(),
            forall|k: int| from <= k < i ==> is_space(#[trigger] text@[k]),
        decreases to - i,
    {
        if !is_whitespace(text[i]) {
            proof {
                let line = text@.subrange(from as int, to as int);
                assert(line[i - from] == text@[i as int]);
            }
            return false;
        }
        i = i + 1;
    }
    proof {
        let line = text@.subrange(from as int, to as int);
        assert forall|k: int| 0 <= k < line.len() implies is_space(#[trigger] line[k]) by {
            assert(line[k] == text@[from + k]);
        }
    }
    true
}

/// The names of the adapters that the control utility listed.
pub fn parse_adapter_list(output: &str) -> (names: Vec<String>)
    ensures
        names@.len() == names_in(output@).len(),
        forall|k: int| 0 <= k < names@.len() ==> (#[trigger] names@[k])@ == names_in(output@)[k],
{
    let text = chars_of(output);
    let n: usize = text.len();
    let mut names: Vec<String> = Vec::new();
    let ghost mut found: Seq<Seq<char>> = Seq::empty();
    let mut start: usize = 0;
    proof {
        assert(text@.subrange(0, n as int) =~= text@);
    }
    while start < n
        invariant
            text@ == output@,
            n == text@.len(),
            start <= n,
            names@.len() == found.len(),
            forall|k: int| 0 <= k < names@.len() ==> (#[trigger] names@[k])@ == found[k],
            found + names_in(text@.subrange(start as int, n as int)) == names_in(text@),
        decreases n - start,
    {
        let ghost tail = text@.subrange(start as int, n as int);
        let mut i: usize = start;
        while i < n && text[i] != '\n'
            invariant
                start <= i <= n,
                n == text@.len(),
                forall|k: int| start <= k < i ==> text@[k] != '\n',
            decreases n - i,
        {
            i = i + 1;
        }
        let ended: bool = i < n;
        let end: usize = if ended && i > start && text[i - 1] == '\r' {
            i - 1
        } else {
            i
        };
        let next: usize = if ended {
            i + 1
        } else {
            n
        };
        proof {
            assert forall|j: int| 0 <= j < i - start implies tail[j] != '\n' by {
                assert(tail[j] == text@[start + j]);
            }
            lemma_line_end_is(tail, i - start);
            let raw = tail.subrange(0, i - start);
            assert(raw =~= text@.subrange(start as int, i as int));
            if ended {
                if raw.len() > 0 {
                    assert(raw.last() == text@[i - 1]);
                }
                assert(without_return(raw) =~= text@.subrange(start as int, end as int));
                assert(after_first_line(tail) =~= text@.subrange(next as int, n as int));
            } else {
                assert(tail =~= text@.subrange(start as int, end as int));
                assert(after_first_line(tail) =~= text@.subrange(next as int, n as int));
            }
            assert(first_line(tail) == text@.subrange(start as int, end as int));
        }
        if !is_blank(&text, start, end) {
            let line = output.substring_char(start, end);
            names.push(String::from_str(line));
            proof {
                let before = found;
                found = found.push(line@);
                assert(found + names_in(text@.subrange(next as int, n as int)) =~= before
                    + names_in(tail));
            }
        }
        start = next;
    }
    proof {
        assert(found + names_in(text@.subrange(n as int, n as int)) =~= found);
    }
    names
}

} // verus!
