//! Text helpers: decimal rendering of integers and comparison of strings.
use vstd::prelude::*;

verus! {

/// The character of a decimal digit.
pub open spec fn digit_char(d: int) -> char {
    if d == 0 { '0' }
    else if d == 1 { '1' }
    else if d == 2 { '2' }
    else if d == 3 { '3' }
    else if d == 4 { '4' }
    else if d == 5 { '5' }
    else if d == 6 { '6' }
    else if d == 7 { '7' }
    else if d == 8 { '8' }
    else { '9' }
}

/// The decimal digits of a natural number, most significant first.
pub open spec fn nat_digits(n: nat) -> Seq<char>
    decreases n,
{
    if n < 10 {
        seq![digit_char(n as int)]
    } else {
        nat_digits(n / 10) + seq![digit_char((n % 10) as int)]
    }
}

/// The decimal text of an integer, with a leading '-' when negative.
pub open spec fn decimal(v: int) -> Seq<char> {
    if v < 0 {
        seq!['-'] + nat_digits((-v) as nat)
    } else {
        nat_digits(v as nat)
    }
}

fn digit_str(d: u64) -> (res: &'static str)
    requires
        d < 10,
    ensures
        res@ == seq![digit_char(d as int)],
{
    proof {
        reveal_strlit("0");
        reveal_strlit("1");
        reveal_strlit("2");
        reveal_strlit("3");
        reveal_strlit("4");
        reveal_strlit("5");
        reveal_strlit("6");
        reveal_strlit("7");
        reveal_strlit("8");
        reveal_strlit("9");
    }
    if d == 0 { "0" }
    else if d == 1 { "1" }
    else if d == 2 { "2" }
    else if d == 3 { "3" }
    else if d == 4 { "4" }
    else if d == 5 { "5" }
    else if d == 6 { "6" }
    else if d == 7 { "7" }
    else if d == 8 { "8" }
    else { "9" }
}

/// Appends the decimal digits of `n` to `out`.
pub fn push_nat(out: &mut String, n: u64)
    ensures
        final(out)@ == old(out)@ + nat_digits(n as nat),
    decreases n,
{
    if n < 10 {
        out.append(digit_str(n));
    } else {
        push_nat(out, n / 10);
        out.append(digit_str(n % 10));
    }
}

/// Appends the decimal text of `v` to `out`.
pub fn push_int(out: &mut String, v: i64)
    ensures
        final(out)@ == old(out)@ + decimal(v as int),
{
    if v < 0 {
        proof { reveal_strlit("-"); }
        out.append("-");
        let m: u64 = if v == i64::MIN { 9223372036854775808u64 } else { (-v) as u64 };
        push_nat(out, m);
        assert(out@ =~= old(out)@ + decimal(v as int));
    } else {
        push_nat(out, v as u64);
    }
}

/// Returns the decimal text of `v`, as `v.to_string()` writes it.
pub fn int_to_string(v: i64) -> (res: String)
    ensures
        res@ == decimal(v as int),
{
    let mut s = String::new();
    push_int(&mut s, v);
    assert(s@ =~= decimal(v as int));
    s
}

/// Returns whether two strings hold the same characters.
pub fn str_eq(a: &str, b: &str) -> (res: bool)
    ensures
        res == (a@ == b@),
{
    let n = a.unicode_len();
    let m = b.unicode_len();
    if n != m {
        return false;
    }
    let mut i: usize = 0;
    while i < n
        invariant
            n == a@.len(),
            m == b@.len(),
            n == m,
            i <= n,
            forall|j: int| 0 <= j < i ==> a@[j] == b@[j],
        decreases n - i,
    {
        if a.get_char(i) != b.get_char(i) {
            return false;
        }
        i = i + 1;
    }
    assert(a@ =~= b@);
    true
}

/// The part of `s` before the first `c` (all of `s` when there is no `c`).
pub open spec fn before_char(s: Seq<char>, c: char) -> Seq<char>
    decreases s.len(),
{
    if s.len() == 0 {
        s
    } else if s[0] == c {
        Seq::empty()
    } else {
        seq![s[0]] + before_char(s.drop_first(), c)
    }
}

/// The part of `s` after the first `c` (empty when there is no `c`).
pub open spec fn after_char(s: Seq<char>, c: char) -> Seq<char>
    decreases s.len(),
{
    if s.len() == 0 {
        s
    } else if s[0] == c {
        s.drop_first()
    } else {
        after_char(s.drop_first(), c)
    }
}

/// Splitting at the first `c`, found at index `i`.
pub proof fn lemma_split_at_first(s: Seq<char>, c: char, i: int)
    requires
        0 <= i <= s.len(),
        i < s.len() ==> s[i] == c,
        forall|j: int| 0 <= j < i ==> s[j] != c,
    ensures
        before_char(s, c) == s.subrange(0, i),
        i < s.len() ==> after_char(s, c) == s.subrange(i + 1, s.len() as int),
        i == s.len() ==> after_char(s, c) == Seq::<char>::empty(),
    decreases s.len(),
{
    if s.len() > 0 && i > 0 {
        assert forall|j: int| 0 <= j < i - 1 implies s.drop_first()[j] != c by {
            assert(s.drop_first()[j] == s[j + 1]);
        }
        lemma_split_at_first(s.drop_first(), c, i - 1);
        assert(before_char(s, c) =~= s.subrange(0, i));
        if i < s.len() {
            assert(after_char(s, c) =~= s.subrange(i + 1, s.len() as int));
        }
    } else if s.len() > 0 {
        assert(before_char(s, c) =~= s.subrange(0, i));
        assert(after_char(s, c) =~= s.subrange(i + 1, s.len() as int));
    }
}

/// Returns the index of the first `c` in `s`, or the length of `s`.
pub fn find_char(s: &str, c: char) -> (res: usize)
    ensures
        res <= s@.len(),
        res < s@.len() ==> s@[res as int] == c,
        forall|j: int| 0 <= j < res ==> s@[j] != c,
{
    let n = s.unicode_len();
    let mut i: usize = 0;
    while i < n
        invariant
            n == s@.len(),
            i <= n,
            forall|j: int| 0 <= j < i ==> s@[j] != c,
        decreases n - i,
    {
        if s.get_char(i) == c {
            return i;
        }
        i = i + 1;
    }
    i
}

/// The Unicode lowercase form of a text, as `str::to_lowercase` gives it.
pub uninterp spec fn lowercase(s: Seq<char>) -> Seq<char>;

/// Calls `str::to_lowercase`, which maps every character to its Unicode
/// lowercase form; the result depends on the text alone.
#[verifier::external_body]
pub(crate) fn to_lowercase(s: &str) -> (res: String)
    ensures
        res@ == lowercase(s@),
{
    s.to_lowercase()
}

/// The text of `s` as std's `Debug` writes a `str`: in double quotes,
/// with the characters escaped as `char::escape_debug` does.
pub uninterp spec fn debug_text(s: Seq<char>) -> Seq<char>;

/// Writes `s` with `{:?}`; the result depends on `s` alone.
#[verifier::external_body]
pub(crate) fn debug_str(s: &str) -> (res: String)
    ensures
        res@ == debug_text(s@),
{
    format!("{:?}", s)
}

/// The `n`-th part (from 0) of `s` split at each `c`, as `str::split(c).nth(n)`
/// gives it; `None` where `s` has fewer parts.
pub open spec fn segment(s: Seq<char>, c: char, n: nat) -> Option<Seq<char>>
    decreases n,
{
    if n == 0 {
        Some(before_char(s, c))
    } else if s.contains(c) {
        segment(after_char(s, c), c, (n - 1) as nat)
    } else {
        None
    }
}

/// The index of the first `c` in `s` at or after `from`, or the length.
pub fn find_char_from(s: &str, c: char, from: usize) -> (res: usize)
    requires
        from <= s@.len(),
    ensures
        from <= res <= s@.len(),
        res < s@.len() ==> s@[res as int] == c,
        forall|j: int| from <= j < res ==> s@[j] != c,
{
    let n = s.unicode_len();
    let mut i: usize = from;
    while i < n
        invariant
            n == s@.len(),
            from <= i <= n,
            forall|j: int| from <= j < i ==> s@[j] != c,
        decreases n - i,
    {
        if s.get_char(i) == c {
            return i;
        }
        i = i + 1;
    }
    i
}

/// Returns the `n`-th part (from 0) of `s` split at each `c`.
pub fn nth_segment(s: &str, c: char, n: usize) -> (res: Option<String>)
    ensures
        match res {
            Some(t) => segment(s@, c, n as nat) == Some(t@),
            None => segment(s@, c, n as nat) is None,
        },
{
    let len = s.unicode_len();
    let mut start: usize = 0;
    let mut k: usize = 0;
    assert(s@.subrange(0, len as int) =~= s@);
    while k < n
        invariant
            len == s@.len(),
            k <= n,
            start <= len,
            segment(s@, c, n as nat) == segment(s@.subrange(start as int, len as int), c, (n - k) as nat),
        decreases n - k,
    {
        let pos = find_char_from(s, c, start);
        let ghost sub = s@.subrange(start as int, len as int);
        proof {
            lemma_split_at_first(sub, c, pos - start);
            assert forall|j: int| 0 <= j < pos - start implies sub[j] != c by {
                assert(sub[j] == s@[start + j]);
            }
        }
        if pos == len {
            proof {
                assert(!sub.contains(c)) by {
                    if sub.contains(c) {
                        let j = choose|j: int| 0 <= j < sub.len() && sub[j] == c;
                        assert(sub[j] == s@[start + j]);
                    }
                }
            }
            return None;
        }
        proof {
            assert(sub[pos - start] == c);
            assert(sub.contains(c));
            assert(sub.subrange(pos - start + 1, sub.len() as int) =~= s@.subrange(pos + 1, len as int));
        }
        start = pos + 1;
        k = k + 1;
    }
    let end = find_char_from(s, c, start);
    let ghost sub = s@.subrange(start as int, len as int);
    proof {
        assert forall|j: int| 0 <= j < end - start implies sub[j] != c by {
            assert(sub[j] == s@[start + j]);
        }
        if end < len {
            assert(sub[end - start] == c);
        }
        lemma_split_at_first(sub, c, end - start);
        assert(sub.subrange(0, end - start) =~= s@.subrange(start as int, end as int));
    }
    Some(s.substring_char(start, end).to_owned())
}

} // verus!
