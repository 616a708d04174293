//! Small verified helpers over strings: appending single characters and
//! rendering unsigned numbers in decimal.

use vstd::prelude::*;
use vstd::string::StrSliceExecFns;

verus! {

/// Relies on `String::push` of std: it appends exactly the given character
/// at the end of the string.
pub assume_specification [String::push] (s: &mut String, ch: char)
    ensures
        final(s)@ == old(s)@.push(ch),
;

/// Whitespace, as trimmed from the ends of user-entered text: the Unicode
/// `White_Space` set.
pub open spec fn blank_char(c: char) -> bool {
    ||| c == ' '
    ||| c == '\t'
    ||| c == '\n'
    ||| c == '\u{b}'
    ||| c == '\u{c}'
    ||| c == '\r'
    ||| c == '\u{85}'
    ||| c == '\u{a0}'
    ||| c == '\u{1680}'
    ||| 0x2000 <= c as u32 <= 0x200a
    ||| c == '\u{2028}'
    ||| c == '\u{2029}'
    ||| c == '\u{202f}'
    ||| c == '\u{205f}'
    ||| c == '\u{3000}'
}

/// Whitespace, as trimmed from the ends of user-entered text.
pub fn char_is_blank(c: char) -> (r: bool)
    ensures
        r == blank_char(c),
{
    c == ' ' || c == '\t' || c == '\n' || c == '\u{b}' || c == '\u{c}' || c == '\r' || c
        == '\u{85}' || c == '\u{a0}' || c == '\u{1680}' || (0x2000 <= c as u32 && c as u32
        <= 0x200a) || c == '\u{2028}' || c == '\u{2029}' || c == '\u{202f}' || c == '\u{205f}' || c
        == '\u{3000}'
}

/// Whether the text holds nothing but whitespace (an empty text does).
pub open spec fn all_blank(s: Seq<char>) -> bool {
    forall|i: int| 0 <= i < s.len() ==> blank_char(#[trigger] s[i])
}

/// Whether the text holds nothing but whitespace.
pub fn is_all_blank(s: &str) -> (r: bool)
    ensures
        r == all_blank(s@),
{
    let n = s.unicode_len();
    let mut i: usize = 0;
    while i < n
        invariant
            n == s@.len(),
            i <= n,
            forall|j: int| 0 <= j < i ==> blank_char(#[trigger] s@[j]),
        decreases n - i,
    {
        let c = s.get_char(i);
        if !char_is_blank(c) {
            return false;
        }
        i = i + 1;
    }
    true
}

/// The character for one decimal digit.
pub open spec fn decimal_digit(d: int) -> char
    recommends
        0 <= d < 10,
{
    ((48 + d) as u8) as char
}

/// The decimal rendering of a number: its digits, most significant first,
/// with no leading zero except for the number zero itself.
pub open spec fn decimal_string(n: nat) -> Seq<char>
    decreases n,
{
    if n < 10 {
        seq![decimal_digit(n as int)]
    } else {
        decimal_string(n / 10).push(decimal_digit((n % 10) as int))
    }
}

/// Renders a number in decimal.
pub fn u64_to_string(n: u64) -> (r: String)
    ensures
        r@ == decimal_string(n as nat),
    decreases n,
{
    if n < 10 {
        let mut r = String::new();
        r.push((48 + n as u8) as char);
        r
    } else {
        let mut r = u64_to_string(n / 10);
        r.push((48 + (n % 10) as u8) as char);
        r
    }
}

/// Whether the text ends with the given suffix.
pub open spec fn ends_with(s: Seq<char>, suffix: Seq<char>) -> bool {
    s.len() >= suffix.len() && s.skip(s.len() - suffix.len()) == suffix
}

/// Whether the text ends with the given suffix.
pub fn str_ends_with(s: &str, suffix: &str) -> (r: bool)
    ensures
        r == ends_with(s@, suffix@),
{
    let n = s.unicode_len();
    let m = suffix.unicode_len();
    if n < m {
        return false;
    }
    let start = n - m;
    let mut i: usize = 0;
    while i < m
        invariant
            n == s@.len(),
            m == suffix@.len(),
            m <= n,
            start == n - m,
            i <= m,
            forall|j: int| 0 <= j < i ==> s@[start + j] == suffix@[j],
        decreases m - i,
    {
        if s.get_char(start + i) != suffix.get_char(i) {
            proof {
                assert(s@.skip(start as int)[i as int] != suffix@[i as int]);
            }
            return false;
        }
        i = i + 1;
    }
    proof {
        assert(s@.skip(start as int) =~= suffix@);
    }
    true
}

/// The index of the first line break in the text, or its length when it has
/// none.
pub open spec fn first_newline(s: Seq<char>) -> int
    decreases s.len(),
{
    if s.len() == 0 {
        0
    } else if s[0] == '\n' {
        0
    } else {
        1 + first_newline(s.drop_first())
    }
}

/// A line with a trailing carriage return dropped, as a `\r\n` break leaves
/// it.
pub open spec fn strip_cr(l: Seq<char>) -> Seq<char> {
    if l.len() > 0 && l[l.len() - 1] == '\r' {
        l.drop_last()
    } else {
        l
    }
}

/// The lines of the text, split at `\n` breaks, each stripped of a carriage
/// return left by a `\r\n` break. A final break ends the last line rather
/// than opening an empty one; a last line without a break is taken whole.
pub open spec fn lines_of(s: Seq<char>) -> Seq<Seq<char>>
    decreases s.len(),
{
    if s.len() == 0 {
        Seq::empty()
    } else {
        let i = first_newline(s);
        if 0 <= i < s.len() {
            seq![strip_cr(s.take(i))] + lines_of(s.skip(i + 1))
        } else {
            seq![s]
        }
    }
}

/// Where the first line break lies: within the text, or at its length.
proof fn lemma_first_newline_range(s: Seq<char>)
    ensures
        0 <= first_newline(s) <= s.len(),
    decreases s.len(),
{
    if s.len() > 0 && s[0] != '\n' {
        lemma_first_newline_range(s.drop_first());
    }
}

/// A break at `k`, with none before it, is the first break.
proof fn lemma_first_newline_at(s: Seq<char>, k: int)
    requires
        0 <= k < s.len(),
        s[k] == '\n',
        forall|l: int| 0 <= l < k ==> (#[trigger] s[l]) != '\n',
    ensures
        first_newline(s) == k,
    decreases s.len(),
{
    if k > 0 {
        lemma_first_newline_at(s.drop_first(), k - 1);
    }
}

/// A text without a break has its first break at its length.
proof fn lemma_first_newline_none(s: Seq<char>)
    requires
        forall|l: int| 0 <= l < s.len() ==> (#[trigger] s[l]) != '\n',
    ensures
        first_newline(s) == s.len(),
    decreases s.len(),
{
    if s.len() > 0 {
        lemma_first_newline_none(s.drop_first());
    }
}

/// Splitting starts at the first break: the text before it is the first
/// line, the text after it yields the rest.
pub proof fn lemma_lines_of_break(first: Seq<char>, rest: Seq<char>)
    requires
        forall|l: int| 0 <= l < first.len() ==> (#[trigger] first[l]) != '\n',
    ensures
        lines_of(first + seq!['\n'] + rest) =~~= seq![strip_cr(first)] + lines_of(rest),
{
    let s = first + seq!['\n'] + rest;
    assert forall|l: int| 0 <= l < first.len() implies (#[trigger] s[l]) != '\n' by {
        assert(s[l] == first[l]);
    }
    assert(s[first.len() as int] == '\n');
    lemma_first_newline_at(s, first.len() as int);
    assert(s.take(first.len() as int) =~= first);
    assert(s.skip(first.len() + 1 as int) =~= rest);
}

/// A nonempty text has at least one line.
pub proof fn lemma_lines_of_nonempty(s: Seq<char>)
    requires
        s.len() > 0,
    ensures
        lines_of(s).len() >= 1,
{
    lemma_first_newline_range(s);
}

/// The lines of the text, split at `\n` breaks, each stripped of a carriage
/// return left by a `\r\n` break.
pub fn split_lines(content: &str) -> (r: Vec<String>)
    ensures
        r.deep_view() == lines_of(content@),
{
    let n = content.unicode_len();
    let mut out: Vec<String> = Vec::new();
    let mut cur = String::new();
    let mut pending_cr = false;
    let ghost mut line_start: int = 0;
    let mut i: usize = 0;
    proof {
        assert(content@.skip(0) =~= content@);
        assert(out.deep_view() =~~= Seq::<Seq<char>>::empty());
        assert(lines_of(content@) =~~= out.deep_view() + lines_of(content@.skip(0)));
        assert(cur@ + Seq::<char>::empty() =~= content@.subrange(0, 0));
    }
    while i < n
        invariant
            n == content@.len(),
            0 <= line_start <= i <= n,
            lines_of(content@) == out.deep_view() + lines_of(content@.skip(line_start)),
            cur@ + (if pending_cr {
                seq!['\r']
            } else {
                Seq::<char>::empty()
            }) == content@.subrange(line_start, i as int),
            !pending_cr ==> cur@.len() == 0 || cur@[cur@.len() - 1] != '\r',
            forall|l: int| line_start <= l < i ==> (#[trigger] content@[l]) != '\n',
        decreases n - i,
    {
        let c = content.get_char(i);
        if c == '\n' {
            let done = cur;
            cur = String::new();
            proof {
                let rest = content@.skip(line_start);
                let k = i - line_start;
                assert forall|l: int| 0 <= l < k implies (#[trigger] rest[l]) != '\n' by {
                    assert(rest[l] == content@[line_start + l]);
                }
                assert(rest[k] == '\n');
                lemma_first_newline_at(rest, k);
                assert(rest.take(k) =~= content@.subrange(line_start, i as int));
                if pending_cr {
                    assert(rest.take(k) == done@ + seq!['\r']);
                    assert(rest.take(k)[rest.take(k).len() - 1] == '\r');
                    assert(strip_cr(rest.take(k)) =~= done@);
                } else {
                    assert(strip_cr(rest.take(k)) =~= done@);
                }
                assert(rest.skip(k + 1) =~= content@.skip(i + 1));
                assert(lines_of(rest) =~~= seq![done@] + lines_of(content@.skip(i + 1)));
            }
            let ghost out_before = out.deep_view();
            let ghost done_view = done@;
            out.push(done);
            pending_cr = false;
            proof {
                line_start = i + 1;
                assert(out.deep_view() =~~= out_before.push(done_view));
                assert(lines_of(content@) =~~= out.deep_view() + lines_of(
                    content@.skip(line_start),
                ));
                assert(cur@ + Seq::<char>::empty() =~= content@.subrange(line_start, i + 1));
            }
        } else {
            if pending_cr {
                cur.push('\r');
                pending_cr = false;
            }
            if c == '\r' {
                pending_cr = true;
            } else {
                cur.push(c);
            }
            proof {
                assert(cur@ + (if pending_cr {
                    seq!['\r']
                } else {
                    Seq::<char>::empty()
                }) =~= content@.subrange(line_start, i + 1));
            }
        }
        i = i + 1;
    }
    if pending_cr {
        cur.push('\r');
    }
    proof {
        assert(cur@ =~= content@.subrange(line_start, n as int));
    }
    if !cur.as_str().is_empty() {
        proof {
            let rest = content@.skip(line_start);
            assert(rest =~= cur@);
            lemma_first_newline_none(rest);
            assert(lines_of(rest) =~~= seq![cur@]);
        }
        let ghost out_before = out.deep_view();
        let ghost cur_view = cur@;
        out.push(cur);
        proof {
            assert(out.deep_view() =~~= out_before.push(cur_view));
            assert(lines_of(content@) =~~= out.deep_view());
        }
    } else {
        proof {
            assert(content@.skip(line_start) =~= Seq::<char>::empty());
            assert(lines_of(content@) =~~= out.deep_view() + Seq::<Seq<char>>::empty());
            assert(out.deep_view() + Seq::<Seq<char>>::empty() =~~= out.deep_view());
        }
    }
    out
}

} // verus!
