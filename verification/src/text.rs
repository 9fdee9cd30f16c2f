//! Text helpers: equality, white space, trimming and decimal numbers.

use vstd::prelude::*;
use vstd::string::StringExecFns;
use vstd::string::StrSliceExecFns;

verus! {

/// The characters with the Unicode property `White_Space`.
pub open spec fn is_white_space(c: char) -> bool {
    let n = c as u32;
    ||| 0x09 <= n <= 0x0d
    ||| n == 0x20
    ||| n == 0x85
    ||| n == 0xa0
    ||| n == 0x1680
    ||| 0x2000 <= n <= 0x200a
    ||| n == 0x2028
    ||| n == 0x2029
    ||| n == 0x202f
    ||| n == 0x205f
    ||| n == 0x3000
}

/// A text of white space only; the empty text is one.
pub open spec fn is_blank(s: Seq<char>) -> bool {
    forall|i: int| 0 <= i < s.len() ==> is_white_space(#[trigger] s[i])
}

/// `s` from its first character on that is not white space.
pub open spec fn without_leading_space(s: Seq<char>) -> Seq<char>
    decreases s.len(),
{
    if s.len() > 0 && is_white_space(s.first()) {
        without_leading_space(s.drop_first())
    } else {
        s
    }
}

/// `s` up to its last character that is not white space.
pub open spec fn without_trailing_space(s: Seq<char>) -> Seq<char>
    decreases s.len(),
{
    if s.len() > 0 && is_white_space(s.last()) {
        without_trailing_space(s.drop_last())
    } else {
        s
    }
}

/// `s` without the white space at its two ends.
pub open spec fn trimmed(s: Seq<char>) -> Seq<char> {
    without_trailing_space(without_leading_space(s))
}

/// The character of one decimal digit.
pub open spec fn digit(d: nat) -> char {
    if d == 0 {
        '0'
    } else if d == 1 {
        '1'
    } else if d == 2 {
        '2'
    } else if d == 3 {
        '3'
    } else if d == 4 {
        '4'
    } else if d == 5 {
        '5'
    } else if d == 6 {
        '6'
    } else if d == 7 {
        '7'
    } else if d == 8 {
        '8'
    } else {
        '9'
    }
}

/// The decimal digits of `n`, the most significant first, without leading zeros.
pub open spec fn decimal(n: nat) -> Seq<char>
    decreases n,
{
    if n < 10 {
        seq![digit(n)]
    } else {
        decimal(n / 10).push(digit(n % 10))
    }
}

/// Whether `a` and `b` hold the same characters.
pub fn same_text(a: &str, b: &str) -> (same: bool)
    ensures
        same == (a@ == b@),
{
    a.to_owned() == b.to_owned()
}

/// Whether `c` has the Unicode property `White_Space`.
pub fn white_space(c: char) -> (white: bool)
    ensures
        white == is_white_space(c),
{
    let n: u32 = c as u32;
    (0x09 <= n && n <= 0x0d) || n == 0x20 || n == 0x85 || n == 0xa0 || n == 0x1680
        || (0x2000 <= n && n <= 0x200a) || n == 0x2028 || n == 0x2029 || n == 0x202f
        || n == 0x205f || n == 0x3000
}

proof fn lemma_without_leading_space(s: Seq<char>, k: int)
    requires
        0 <= k <= s.len(),
        forall|i: int| 0 <= i < k ==> is_white_space(#[trigger] s[i]),
        k < s.len() ==> !is_white_space(s[k]),
    ensures
        without_leading_space(s) == s.subrange(k, s.len() as int),
    decreases k,
{
    if k == 0 {
        assert(s.subrange(0, s.len() as int) == s);
    } else {
        assert(is_white_space(s[0]));
        let rest = s.drop_first();
        assert forall|i: int| 0 <= i < k - 1 implies is_white_space(#[trigger] rest[i]) by {
            assert(rest[i] == s[i + 1]);
        }
        lemma_without_leading_space(rest, k - 1);
        assert(rest.subrange(k - 1, rest.len() as int) == s.subrange(k, s.len() as int));
    }
}

proof fn lemma_without_trailing_space(s: Seq<char>, k: int)
    requires
        0 <= k <= s.len(),
        forall|i: int| k <= i < s.len() ==> is_white_space(#[trigger] s[i]),
        k > 0 ==> !is_white_space(s[k - 1]),
    ensures
        without_trailing_space(s) == s.subrange(0, k),
    decreases s.len(),
{
    if k == s.len() {
        assert(s.subrange(0, k) == s);
    } else {
        assert(is_white_space(s[s.len() - 1]));
        let rest = s.drop_last();
        assert forall|i: int| k <= i < rest.len() implies is_white_space(#[trigger] rest[i]) by {
            assert(rest[i] == s[i]);
        }
        lemma_without_trailing_space(rest, k);
        assert(rest.subrange(0, k) == s.subrange(0, k));
    }
}

proof fn lemma_leading_space_of_blank(s: Seq<char>)
    ensures
        is_blank(s) <==> without_leading_space(s).len() == 0,
        without_leading_space(s).len() > 0 ==> !is_white_space(without_leading_space(s)[0]),
    decreases s.len(),
{
    if s.len() > 0 && is_white_space(s.first()) {
        let rest = s.drop_first();
        lemma_leading_space_of_blank(rest);
        assert(is_blank(rest) ==> is_blank(s)) by {
            assert forall|i: int| is_blank(rest) && 0 <= i < s.len() implies is_white_space(
                #[trigger] s[i],
            ) by {
                if i > 0 {
                    assert(s[i] == rest[i - 1]);
                }
            }
        }
    } else if s.len() > 0 {
        assert(!is_white_space(s[0]));
    }
}

proof fn lemma_trailing_space_stops(s: Seq<char>)
    requires
        s.len() > 0,
        !is_white_space(s[0]),
    ensures
        without_trailing_space(s).len() > 0,
    decreases s.len(),
{
    if is_white_space(s.last()) {
        lemma_trailing_space_stops(s.drop_last());
    }
}

/// Where the text inside the surrounding white space of a text starts and ends.
/// Both are zero for a blank text.
fn inner_range(s: &str) -> (range: (usize, usize))
    ensures
        range.0 <= range.1 <= s@.len(),
        trimmed(s@) == s@.subrange(range.0 as int, range.1 as int),
{
    let total: usize = s.unicode_len();
    let mut start: usize = 0;
    let mut end: usize = 0;
    let mut seen: usize = 0;
    for c in iter: s.chars()
        invariant
            iter.seq() == s@,
            total == s@.len(),
            seen == iter.index(),
            start <= end <= seen <= total,
            forall|i: int| 0 <= i < start ==> is_white_space(#[trigger] s@[i]),
            forall|i: int| end <= i < seen ==> is_white_space(#[trigger] s@[i]),
            start == end ==> start == 0,
            start < end ==> !is_white_space(s@[start as int]) && !is_white_space(s@[end - 1]),
    {
        if !white_space(c) {
            if start == end {
                start = seen;
            }
            end = seen + 1;
        }
        seen = seen + 1;
    }
    proof {
        if start == end {
            lemma_without_leading_space(s@, s@.len() as int);
        } else {
            lemma_without_leading_space(s@, start as int);
            let tail = s@.subrange(start as int, s@.len() as int);
            assert forall|i: int| end - start <= i < tail.len() implies is_white_space(
                #[trigger] tail[i],
            ) by {
                assert(tail[i] == s@[i + start]);
            }
            lemma_without_trailing_space(tail, end - start);
            assert(tail.subrange(0, end - start) == s@.subrange(start as int, end as int));
        }
        assert(trimmed(s@) == s@.subrange(start as int, end as int));
    }
    (start, end)
}

/// `s` without the white space at its two ends.
pub fn trim(s: &str) -> (inner: &str)
    ensures
        inner@ == trimmed(s@),
{
    let (start, end) = inner_range(s);
    s.substring_char(start, end)
}

/// Whether `s` holds white space only.
pub fn blank(s: &str) -> (all_white: bool)
    ensures
        all_white == is_blank(s@),
{
    proof {
        law_blank_is_trimmed_to_nothing(s@);
    }
    let (start, end) = inner_range(s);
    start == end
}

/// A text is blank exactly when nothing is left of it after trimming.
pub proof fn law_blank_is_trimmed_to_nothing(s: Seq<char>)
    ensures
        is_blank(s) <==> trimmed(s).len() == 0,
{
    lemma_leading_space_of_blank(s);
    let t = without_leading_space(s);
    if t.len() > 0 {
        lemma_trailing_space_stops(t);
    }
}

fn digit_text(d: u32) -> (text: &'static str)
    requires
        d < 10,
    ensures
        text@ == seq![digit(d as nat)],
{
    proof {
        reveal_strlit("0");
        reveal_strlit("1");
        reveal_strlit("2");
        reveal_strlit("3");
        reveal_strlit("4");
        reveal_strlit("5");
        reveal_strlit("6");
        reveal_strlit("7");
        reveal_strlit("8");
        reveal_strlit("9");
    }
    if d == 0 {
        "0"
    } else if d == 1 {
        "1"
    } else if d == 2 {
        "2"
    } else if d == 3 {
        "3"
    } else if d == 4 {
        "4"
    } else if d == 5 {
        "5"
    } else if d == 6 {
        "6"
    } else if d == 7 {
        "7"
    } else if d == 8 {
        "8"
    } else {
        "9"
    }
}

/// `n` in decimal.
pub fn decimal_text(n: u32) -> (text: String)
    ensures
        text@ == decimal(n as nat),
    decreases n,
{
    if n < 10 {
        digit_text(n).to_owned()
    } else {
        let high = decimal_text(n / 10);
        let text = high.concat(digit_text(n % 10));
        assert(text@ == decimal(n as nat));
        text
    }
}

/// The white space characters, one by one.
pub proof fn law_white_space_characters(c: char)
    ensures
        is_white_space(c) <==> {
            ||| c == '\t'
            ||| c == '\n'
            ||| c == '\u{b}'
            ||| c == '\u{c}'
            ||| c == '\r'
            ||| c == ' '
            ||| c == '\u{85}'
            ||| c == '\u{a0}'
            ||| c == '\u{1680}'
            ||| c == '\u{2000}'
            ||| c == '\u{2001}'
            ||| c == '\u{2002}'
            ||| c == '\u{2003}'
            ||| c == '\u{2004}'
            ||| c == '\u{2005}'
            ||| c == '\u{2006}'
            ||| c == '\u{2007}'
            ||| c == '\u{2008}'
            ||| c == '\u{2009}'
            ||| c == '\u{200a}'
            ||| c == '\u{2028}'
            ||| c == '\u{2029}'
            ||| c == '\u{202f}'
            ||| c == '\u{205f}'
            ||| c == '\u{3000}'
        },
{
}

/// The empty text is blank, a single character is where it is white space, and two texts
/// one after the other are where both are.
pub proof fn law_blank_texts(a: Seq<char>, b: Seq<char>, c: char)
    ensures
        is_blank(Seq::<char>::empty()),
        is_blank(seq![c]) <==> is_white_space(c),
        is_blank(a + b) <==> is_blank(a) && is_blank(b),
{
    assert(seq![c][0] == c);
    if is_blank(a + b) {
        assert forall|i: int| 0 <= i < a.len() implies is_white_space(#[trigger] a[i]) by {
            assert((a + b)[i] == a[i]);
        }
        assert forall|i: int| 0 <= i < b.len() implies is_white_space(#[trigger] b[i]) by {
            assert((a + b)[a.len() + i] == b[i]);
        }
    }
}

proof fn lemma_leading_space_ends(s: Seq<char>) -> (k: int)
    ensures
        0 <= k <= s.len(),
        without_leading_space(s) == s.subrange(k, s.len() as int),
        forall|i: int| 0 <= i < k ==> is_white_space(#[trigger] s[i]),
        k < s.len() ==> !is_white_space(s[k]),
    decreases s.len(),
{
    if s.len() > 0 && is_white_space(s.first()) {
        let rest = s.drop_first();
        let k = lemma_leading_space_ends(rest);
        assert forall|i: int| 0 <= i < k + 1 implies is_white_space(#[trigger] s[i]) by {
            if i > 0 {
                assert(s[i] == rest[i - 1]);
            }
        }
        assert(rest.subrange(k, rest.len() as int) == s.subrange(k + 1, s.len() as int));
        k + 1
    } else {
        assert(s.subrange(0, s.len() as int) == s);
        0
    }
}

proof fn lemma_trailing_space_starts(s: Seq<char>) -> (k: int)
    ensures
        0 <= k <= s.len(),
        without_trailing_space(s) == s.subrange(0, k),
        forall|i: int| k <= i < s.len() ==> is_white_space(#[trigger] s[i]),
        k > 0 ==> !is_white_space(s[k - 1]),
    decreases s.len(),
{
    if s.len() > 0 && is_white_space(s.last()) {
        let rest = s.drop_last();
        let k = lemma_trailing_space_starts(rest);
        assert forall|i: int| k <= i < s.len() implies is_white_space(#[trigger] s[i]) by {
            if i < s.len() - 1 {
                assert(s[i] == rest[i]);
            }
        }
        assert(rest.subrange(0, k) == s.subrange(0, k));
        k
    } else {
        assert(s.subrange(0, s.len() as int) == s);
        s.len() as int
    }
}

/// Trimming takes white space from the two ends and nothing else: what is left is a part
/// of the text that neither starts nor ends with white space, and what was taken on
/// either side of it is white space.
pub proof fn law_trimming_takes_white_space_from_the_ends(s: Seq<char>) -> (range: (int, int))
    ensures
        0 <= range.0 <= range.1 <= s.len(),
        trimmed(s) == s.subrange(range.0, range.1),
        forall|i: int| 0 <= i < range.0 ==> is_white_space(#[trigger] s[i]),
        forall|i: int| range.1 <= i < s.len() ==> is_white_space(#[trigger] s[i]),
        range.0 < range.1 ==> !is_white_space(s[range.0]) && !is_white_space(s[range.1 - 1]),
{
    let start = lemma_leading_space_ends(s);
    let tail = s.subrange(start, s.len() as int);
    let k = lemma_trailing_space_starts(tail);
    assert(tail.subrange(0, k) == s.subrange(start, start + k));
    assert forall|i: int| start + k <= i < s.len() implies is_white_space(#[trigger] s[i]) by {
        assert(s[i] == tail[i - start]);
    }
    if k > 0 {
        assert(s[start] == tail[0]);
        assert(s[start + k - 1] == tail[k - 1]);
    }
    (start, start + k)
}

/// The number that a row of decimal digits stands for.
pub open spec fn number_of(digits: Seq<char>) -> int
    decreases digits.len(),
{
    if digits.len() == 0 {
        0
    } else {
        10 * number_of(digits.drop_last()) + (digits.last() as int - '0' as int)
    }
}

/// A number in decimal is made of digits, has no zero in front unless it is zero, and
/// reads back as the number.
pub proof fn law_decimal_reads_back(n: nat)
    ensures
        number_of(decimal(n)) == n,
        decimal(n).len() > 0,
        forall|i: int| 0 <= i < decimal(n).len() ==> '0' <= #[trigger] decimal(n)[i] <= '9',
        n > 0 ==> decimal(n)[0] != '0',
        n == 0 ==> decimal(n).len() == 1,
    decreases n,
{
    reveal_with_fuel(number_of, 2);
    if n < 10 {
        assert(decimal(n) == seq![digit(n)]);
        assert(decimal(n).drop_last() == Seq::<char>::empty());
    } else {
        law_decimal_reads_back(n / 10);
        let high = decimal(n / 10);
        assert(decimal(n) == high.push(digit(n % 10)));
        assert(decimal(n).drop_last() == high);
        assert forall|i: int| 0 <= i < decimal(n).len() implies '0' <= #[trigger] decimal(n)[i]
            <= '9' by {
            if i < high.len() {
                assert(decimal(n)[i] == high[i]);
            }
        }
        assert(decimal(n)[0] == high[0]);
    }
}

} // verus!
