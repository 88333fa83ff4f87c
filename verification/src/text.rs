//! Small string operations the rest of the library is built on.
use vstd::prelude::*;
use vstd::string::*;

verus! {

/// Whether `needle` occurs in `haystack` as a contiguous run starting at `start`.
pub open spec fn occurs_at(haystack: Seq<char>, needle: Seq<char>, start: int) -> bool {
    0 <= start && start + needle.len() <= haystack.len() && haystack.subrange(
        start,
        start + needle.len(),
    ) == needle
}

/// Whether `needle` occurs anywhere in `haystack`.
pub open spec fn contains_seq(haystack: Seq<char>, needle: Seq<char>) -> bool {
    exists|start: int| occurs_at(haystack, needle, start)
}

/// The decimal digit character for `d`, which is below ten.
pub open spec fn digit_char(d: nat) -> char {
    if d == 0 {
        '0'
    } else if d == 1 {
        '1'
    } else if d == 2 {
        '2'
    } else if d == 3 {
        '3'
    } else if d == 4 {
        '4'
    } else if d == 5 {
        '5'
    } else if d == 6 {
        '6'
    } else if d == 7 {
        '7'
    } else if d == 8 {
        '8'
    } else {
        '9'
    }
}

/// The decimal representation of `n`, without sign or leading zeros.
pub open spec fn decimal(n: nat) -> Seq<char>
    decreases n,
{
    if n < 10 {
        seq![digit_char(n)]
    } else {
        decimal(n / 10).push(digit_char(n % 10))
    }
}

/// Whether two string slices hold the same characters.
pub fn str_equals(a: &str, b: &str) -> (res: bool)
    ensures
        res == (a@ == b@),
{
    let n = a.unicode_len();
    if n != b.unicode_len() {
        return false;
    }
    let mut i: usize = 0;
    while i < n
        invariant
            n == a@.len(),
            n == b@.len(),
            i <= n,
            forall|j: int| 0 <= j < i ==> a@[j] == b@[j],
        decreases n - i,
    {
        if a.get_char(i) != b.get_char(i) {
            return false;
        }
        i = i + 1;
    }
    assert(a@ =~= b@);
    true
}

/// Whether `needle` occurs in `haystack` at character position `start`.
fn occurs_at_exec(haystack: &str, needle: &str, start: usize) -> (res: bool)
    requires
        start + needle@.len() <= haystack@.len(),
    ensures
        res == occurs_at(haystack@, needle@, start as int),
{
    let n = needle.unicode_len();
    let h = haystack.unicode_len();
    let mut i: usize = 0;
    while i < n
        invariant
            n == needle@.len(),
            h == haystack@.len(),
            start + n <= h,
            i <= n,
            forall|j: int| 0 <= j < i ==> haystack@[start + j] == needle@[j],
        decreases n - i,
    {
        if haystack.get_char(start + i) != needle.get_char(i) {
            assert(haystack@.subrange(start as int, start + n)[i as int] != needle@[i as int]);
            return false;
        }
        i = i + 1;
    }
    assert(haystack@.subrange(start as int, start + n) =~= needle@);
    true
}

/// Whether `needle` occurs anywhere in `haystack` (the empty needle occurs in every haystack).
pub fn contains_str(haystack: &str, needle: &str) -> (res: bool)
    ensures
        res == contains_seq(haystack@, needle@),
{
    let h = haystack.unicode_len();
    let n = needle.unicode_len();
    if n == 0 {
        assert(haystack@.subrange(0, 0) =~= needle@);
        assert(occurs_at(haystack@, needle@, 0));
        return true;
    }
    if n > h {
        assert forall|start: int| !occurs_at(haystack@, needle@, start) by {}
        return false;
    }
    let mut start: usize = 0;
    while start <= h - n
        invariant
            h == haystack@.len(),
            n == needle@.len(),
            1 <= n <= h,
            start <= h - n + 1,
            forall|s: int| 0 <= s < start ==> !occurs_at(haystack@, needle@, s),
        decreases h - n + 1 - start,
    {
        if occurs_at_exec(haystack, needle, start) {
            return true;
        }
        start = start + 1;
    }
    assert forall|s: int| !occurs_at(haystack@, needle@, s) by {
        if 0 <= s && s + n <= h {
            assert(s < start);
        }
    }
    false
}

/// Appends the decimal digit `d` to `out`.
fn push_digit(out: &mut String, d: usize)
    requires
        d < 10,
    ensures
        final(out)@ == old(out)@.push(digit_char(d as nat)),
{
    proof {
        reveal_strlit("0");
        reveal_strlit("1");
        reveal_strlit("2");
        reveal_strlit("3");
        reveal_strlit("4");
        reveal_strlit("5");
        reveal_strlit("6");
        reveal_strlit("7");
        reveal_strlit("8");
        reveal_strlit("9");
    }
    if d == 0 {
        out.append("0");
    } else if d == 1 {
        out.append("1");
    } else if d == 2 {
        out.append("2");
    } else if d == 3 {
        out.append("3");
    } else if d == 4 {
        out.append("4");
    } else if d == 5 {
        out.append("5");
    } else if d == 6 {
        out.append("6");
    } else if d == 7 {
        out.append("7");
    } else if d == 8 {
        out.append("8");
    } else {
        out.append("9");
    }
    assert(final(out)@ =~= old(out)@.push(digit_char(d as nat)));
}

/// Appends the decimal representation of `n` to `out`.
pub fn push_decimal(out: &mut String, n: usize)
    ensures
        final(out)@ == old(out)@ + decimal(n as nat),
    decreases n,
{
    if n >= 10 {
        push_decimal(out, n / 10);
    }
    push_digit(out, n % 10);
    assert(final(out)@ =~= old(out)@ + decimal(n as nat));
}

/// An owned copy of an optional string.
pub fn clone_option_string(s: &Option<String>) -> (res: Option<String>)
    ensures
        res == *s,
{
    match s {
        Some(v) => Some(v.clone()),
        None => None,
    }
}

} // verus!
