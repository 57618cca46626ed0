//! White space in text: what counts as blank, and what is left of a line
//! once the white space at both ends is taken off.

use vstd::prelude::*;
use vstd::string::StrSliceExecFns;

verus! {

/// The texts of a sequence of strings.
pub open spec fn texts(lines: Seq<String>) -> Seq<Seq<char>> {
    Seq::new(lines.len(), |i: int| lines[i]@)
}

/// The characters with the Unicode property `White_Space`.
pub open spec fn white_space(c: char) -> bool {
    let n = c as u32;
    ||| 0x09 <= n <= 0x0D
    ||| n == 0x20
    ||| n == 0x85
    ||| n == 0xA0
    ||| n == 0x1680
    ||| 0x2000 <= n <= 0x200A
    ||| n == 0x2028
    ||| n == 0x2029
    ||| n == 0x202F
    ||| n == 0x205F
    ||| n == 0x3000
}

/// Whether `c` is white space.
pub fn is_white_space(c: char) -> (r: bool)
    ensures
        r == white_space(c),
{
    let n: u32 = c as u32;
    (0x09 <= n && n <= 0x0D) || n == 0x20 || n == 0x85 || n == 0xA0 || n == 0x1680 || (0x2000 <= n
        && n <= 0x200A) || n == 0x2028 || n == 0x2029 || n == 0x202F || n == 0x205F || n == 0x3000
}

/// Every character of `s` is white space.
pub open spec fn blank(s: Seq<char>) -> bool {
    forall|i: int| 0 <= i < s.len() ==> white_space(#[trigger] s[i])
}

/// The number of white-space characters at the start of `s`.
pub open spec fn leading(s: Seq<char>) -> nat
    decreases s.len(),
{
    if s.len() > 0 && white_space(s[0]) {
        1 + leading(s.drop_first())
    } else {
        0
    }
}

/// The number of white-space characters at the end of `s`.
pub open spec fn trailing(s: Seq<char>) -> nat
    decreases s.len(),
{
    if s.len() > 0 && white_space(s.last()) {
        1 + trailing(s.drop_last())
    } else {
        0
    }
}

/// `s` without the white space at its start and at its end.
pub open spec fn trimmed(s: Seq<char>) -> Seq<char> {
    if blank(s) {
        Seq::empty()
    } else {
        s.subrange(leading(s) as int, s.len() - trailing(s))
    }
}

/// `n` is the number of white-space characters at the start of `s` when the
/// first `n` are white space and the next one, if any, is not.
pub proof fn leading_is(s: Seq<char>, n: nat)
    requires
        n <= s.len(),
        forall|i: int| 0 <= i < n ==> white_space(#[trigger] s[i]),
        n < s.len() ==> !white_space(s[n as int]),
    ensures
        leading(s) == n,
    decreases n,
{
    if n > 0 {
        leading_is(s.drop_first(), (n - 1) as nat);
    }
}

/// `n` is the number of white-space characters at the end of `s` when the
/// last `n` are white space and the one before them, if any, is not.
pub proof fn trailing_is(s: Seq<char>, n: nat)
    requires
        n <= s.len(),
        forall|i: int| s.len() - n <= i < s.len() ==> white_space(#[trigger] s[i]),
        n < s.len() ==> !white_space(s[s.len() - n - 1]),
    ensures
        trailing(s) == n,
    decreases n,
{
    if n > 0 {
        trailing_is(s.drop_last(), (n - 1) as nat);
    }
}

/// Whether `text` holds nothing but white space.
pub fn is_blank(text: &str) -> (r: bool)
    ensures
        r == blank(text@),
{
    let n = text.unicode_len();
    let mut i: usize = 0;
    while i < n
        invariant
            n == text@.len(),
            i <= n,
            forall|j: int| 0 <= j < i ==> white_space(#[trigger] text@[j]),
        decreases n - i,
    {
        if !is_white_space(text.get_char(i)) {
            return false;
        }
        i += 1;
    }
    true
}

/// The text of `line` between its first and its last character that is not
/// white space; empty where there is none.
pub fn trim(line: &str) -> (r: String)
    ensures
        r@ == trimmed(line@),
{
    let n = line.unicode_len();
    let mut start: usize = 0;
    while start < n && is_white_space(line.get_char(start))
        invariant
            n == line@.len(),
            start <= n,
            forall|j: int| 0 <= j < start ==> white_space(#[trigger] line@[j]),
        decreases n - start,
    {
        start += 1;
    }
    if start == n {
        return String::new();
    }
    let mut end: usize = n;
    while end > start + 1 && is_white_space(line.get_char(end - 1))
        invariant
            n == line@.len(),
            start < end <= n,
            !white_space(line@[start as int]),
            forall|j: int| end <= j < n ==> white_space(#[trigger] line@[j]),
        decreases end,
    {
        end -= 1;
    }
    proof {
        leading_is(line@, start as nat);
        trailing_is(line@, (n - end) as nat);
    }
    String::from_str(line.substring_char(start, end))
}

} // verus!
