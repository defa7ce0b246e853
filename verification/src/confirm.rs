//! Classifying the interactive confirmation answer.
//!
//! The surrounding binary reads one line from standard input and hands it
//! here; an answer is affirmative when, after trimming whitespace as
//! `str::trim` does, it is `y` or `yes` in any ASCII case. Anything else
//! cancels the whole batch. (Case folding can stay ASCII: no other character
//! lowercases to `y`, `e` or `s`.)

use vstd::prelude::*;

verus! {

/// The characters `str::trim` removes: the Unicode White_Space set.
pub open spec fn is_space_char(c: char) -> bool {
    ||| c == '\u{0009}'
    ||| c == '\u{000a}'
    ||| c == '\u{000b}'
    ||| c == '\u{000c}'
    ||| c == '\u{000d}'
    ||| c == '\u{0020}'
    ||| c == '\u{0085}'
    ||| c == '\u{00a0}'
    ||| c == '\u{1680}'
    ||| c == '\u{2000}'
    ||| c == '\u{2001}'
    ||| c == '\u{2002}'
    ||| c == '\u{2003}'
    ||| c == '\u{2004}'
    ||| c == '\u{2005}'
    ||| c == '\u{2006}'
    ||| c == '\u{2007}'
    ||| c == '\u{2008}'
    ||| c == '\u{2009}'
    ||| c == '\u{200a}'
    ||| c == '\u{2028}'
    ||| c == '\u{2029}'
    ||| c == '\u{202f}'
    ||| c == '\u{205f}'
    ||| c == '\u{3000}'
}

/// `s` without its leading whitespace.
pub open spec fn trim_front(s: Seq<char>) -> Seq<char>
    decreases s.len(),
{
    if s.len() > 0 && is_space_char(s[0]) {
        trim_front(s.drop_first())
    } else {
        s
    }
}

/// `s` without its trailing whitespace.
pub open spec fn trim_back(s: Seq<char>) -> Seq<char>
    decreases s.len(),
{
    if s.len() > 0 && is_space_char(s.last()) {
        trim_back(s.drop_last())
    } else {
        s
    }
}

/// `s` without leading and trailing whitespace.
pub open spec fn trimmed(s: Seq<char>) -> Seq<char> {
    trim_back(trim_front(s))
}

/// Whether the answer, trimmed, is `y` or `yes` in any ASCII case.
pub open spec fn affirmative_spec(s: Seq<char>) -> bool {
    let t = trimmed(s);
    ||| (t.len() == 1 && (t[0] == 'y' || t[0] == 'Y'))
    ||| (t.len() == 3 && (t[0] == 'y' || t[0] == 'Y') && (t[1] == 'e' || t[1] == 'E') && (t[2]
        == 's' || t[2] == 'S'))
}

/// Whether `c` is a character `str::trim` removes.
fn is_space(c: char) -> (r: bool)
    ensures
        r == is_space_char(c),
{
    c == '\u{0009}' || c == '\u{000a}' || c == '\u{000b}' || c == '\u{000c}' || c == '\u{000d}'
        || c == '\u{0020}' || c == '\u{0085}' || c == '\u{00a0}' || c == '\u{1680}' || c
        == '\u{2000}' || c == '\u{2001}' || c == '\u{2002}' || c == '\u{2003}' || c == '\u{2004}'
        || c == '\u{2005}' || c == '\u{2006}' || c == '\u{2007}' || c == '\u{2008}' || c
        == '\u{2009}' || c == '\u{200a}' || c == '\u{2028}' || c == '\u{2029}' || c == '\u{202f}'
        || c == '\u{205f}' || c == '\u{3000}'
}

/// Classify one confirmation answer: `y` or `yes` in any ASCII case, with
/// surrounding whitespace ignored, confirms the batch; anything else
/// declines it.
pub fn is_affirmative(answer: &str) -> (r: bool)
    ensures
        r == affirmative_spec(answer@),
{
    let len = answer.unicode_len();
    let mut start: usize = 0;
    proof {
        assert(answer@.subrange(0, len as int) =~= answer@);
    }
    while start < len && is_space(answer.get_char(start))
        invariant
            0 <= start <= len,
            len == answer@.len(),
            trim_front(answer@) == trim_front(answer@.subrange(start as int, len as int)),
        decreases len - start,
    {
        proof {
            let seg = answer@.subrange(start as int, len as int);
            assert(seg[0] == answer@[start as int]);
            assert(seg.drop_first() =~= answer@.subrange(start + 1, len as int));
        }
        start = start + 1;
    }
    proof {
        let seg = answer@.subrange(start as int, len as int);
        if start < len {
            assert(seg[0] == answer@[start as int]);
        }
        assert(trim_front(answer@) == seg);
    }
    let mut end: usize = len;
    while end > start && is_space(answer.get_char(end - 1))
        invariant
            start <= end <= len,
            len == answer@.len(),
            trim_front(answer@) == answer@.subrange(start as int, len as int),
            trimmed(answer@) == trim_back(answer@.subrange(start as int, end as int)),
        decreases end,
    {
        proof {
            let seg = answer@.subrange(start as int, end as int);
            assert(seg.last() == answer@[end - 1]);
            assert(seg.drop_last() =~= answer@.subrange(start as int, end - 1));
        }
        end = end - 1;
    }
    let ghost t = answer@.subrange(start as int, end as int);
    proof {
        if end > start {
            assert(t.last() == answer@[end - 1]);
        }
        assert(trimmed(answer@) == t);
    }
    let n = end - start;
    if n == 1 {
        let c0 = answer.get_char(start);
        proof {
            assert(t[0] == answer@[start as int]);
        }
        c0 == 'y' || c0 == 'Y'
    } else if n == 3 {
        let c0 = answer.get_char(start);
        let c1 = answer.get_char(start + 1);
        let c2 = answer.get_char(start + 2);
        proof {
            assert(t[0] == answer@[start as int]);
            assert(t[1] == answer@[start + 1]);
            assert(t[2] == answer@[start + 2]);
        }
        (c0 == 'y' || c0 == 'Y') && (c1 == 'e' || c1 == 'E') && (c2 == 's' || c2 == 'S')
    } else {
        false
    }
}

} // verus!
