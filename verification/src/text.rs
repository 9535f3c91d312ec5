//! Character-level helpers shared by the grant and icon pipelines:
//! blank trimming, suffix tests, and decimal rendering.

use vstd::prelude::*;

verus! {

/// The blank characters this library trims from property-list output.
pub open spec fn is_space_char(c: char) -> bool {
    c == ' ' || c == '\t' || c == '\n' || c == '\r'
}

/// Exec counterpart of `is_space_char`.
pub fn space_char(c: char) -> (b: bool)
    ensures
        b == is_space_char(c),
{
    c == ' ' || c == '\t' || c == '\n' || c == '\r'
}

/// `s` ends with `suffix`.
pub open spec fn ends_with(s: Seq<char>, suffix: Seq<char>) -> bool {
    suffix.len() <= s.len() && s.subrange(s.len() - suffix.len(), s.len() as int) == suffix
}

/// Whether `s` ends with `suffix`, decided character by character.
pub fn str_ends_with(s: &str, suffix: &str) -> (b: bool)
    ensures
        b == ends_with(s@, suffix@),
{
    let n = s.unicode_len();
    let m = suffix.unicode_len();
    if m > n {
        return false;
    }
    let mut i: usize = 0;
    while i < m
        invariant
            m <= n,
            n == s@.len(),
            m == suffix@.len(),
            forall|k: int| 0 <= k < i ==> s@[n - m + k] == suffix@[k],
        decreases m - i,
    {
        if s.get_char(n - m + i) != suffix.get_char(i) {
            proof {
                assert(s@.subrange(n - m, n as int)[i as int] != suffix@[i as int]);
            }
            return false;
        }
        i += 1;
    }
    proof {
        assert(s@.subrange(n - m, n as int) =~= suffix@);
    }
    true
}

/// `s` with its leading blanks removed.
pub open spec fn trim_front(s: Seq<char>) -> Seq<char>
    decreases s.len(),
{
    if s.len() > 0 && is_space_char(s[0]) {
        trim_front(s.drop_first())
    } else {
        s
    }
}

/// `s` with its trailing blanks removed.
pub open spec fn trim_back(s: Seq<char>) -> Seq<char>
    decreases s.len(),
{
    if s.len() > 0 && is_space_char(s.last()) {
        trim_back(s.drop_last())
    } else {
        s
    }
}

/// `s` with leading and trailing blanks removed.
pub open spec fn trimmed(s: Seq<char>) -> Seq<char> {
    trim_back(trim_front(s))
}

/// Trimming text that holds nothing but blanks leaves nothing.
pub proof fn lemma_trimmed_of_blanks(s: Seq<char>)
    requires
        forall|k: int| 0 <= k < s.len() ==> is_space_char(s[k]),
    ensures
        trimmed(s).len() == 0,
{
    lemma_trim_front_range(s, s.len() as int);
    assert(s.subrange(s.len() as int, s.len() as int) =~= Seq::<char>::empty());
}

/// If the first `i` characters of `s` are blank and the character at `i`
/// (if any) is not, trimming the front of `s` keeps exactly `s[i..]`.
pub proof fn lemma_trim_front_range(s: Seq<char>, i: int)
    requires
        0 <= i <= s.len(),
        forall|k: int| 0 <= k < i ==> is_space_char(s[k]),
        i == s.len() || !is_space_char(s[i]),
    ensures
        trim_front(s) == s.subrange(i, s.len() as int),
    decreases i,
{
    if i == 0 {
        assert(s.subrange(0, s.len() as int) =~= s);
    } else {
        let t = s.drop_first();
        assert(forall|k: int| 0 <= k < i - 1 ==> is_space_char(#[trigger] t[k]));
        lemma_trim_front_range(t, i - 1);
        assert(t.subrange(i - 1, t.len() as int) =~= s.subrange(i, s.len() as int));
    }
}

/// If every character of `s` from `j` on is blank and the character at
/// `j - 1` (if any) is not, trimming the back of `s` keeps exactly `s[..j]`.
pub proof fn lemma_trim_back_range(s: Seq<char>, j: int)
    requires
        0 <= j <= s.len(),
        forall|k: int| j <= k < s.len() ==> is_space_char(s[k]),
        j == 0 || !is_space_char(s[j - 1]),
    ensures
        trim_back(s) == s.subrange(0, j),
    decreases s.len() - j,
{
    if j == s.len() {
        assert(s.subrange(0, s.len() as int) =~= s);
    } else {
        let t = s.drop_last();
        assert(forall|k: int| j <= k < t.len() ==> is_space_char(#[trigger] t[k]));
        lemma_trim_back_range(t, j);
        assert(t.subrange(0, j) =~= s.subrange(0, j));
    }
}

/// Index of the first non-blank character of `s` at or after `from`;
/// the length of `s` if all of them are blank.
fn first_non_space(s: &str, from: usize) -> (r: usize)
    requires
        from <= s@.len(),
        forall|k: int| 0 <= k < from ==> is_space_char(s@[k]),
    ensures
        from <= r <= s@.len(),
        forall|k: int| 0 <= k < r ==> is_space_char(s@[k]),
        r == s@.len() || !is_space_char(s@[r as int]),
    decreases s@.len() - from,
{
    let n = s.unicode_len();
    if from < n {
        if space_char(s.get_char(from)) {
            return first_non_space(s, from + 1);
        }
    }
    from
}

/// Least index `r >= floor` such that every character of `s` from `r` on
/// is blank, scanning down from `upto`.
fn last_non_space(s: &str, floor: usize, upto: usize) -> (r: usize)
    requires
        floor <= upto <= s@.len(),
        forall|k: int| upto <= k < s@.len() ==> is_space_char(s@[k]),
    ensures
        floor <= r <= upto,
        forall|k: int| r <= k < s@.len() ==> is_space_char(s@[k]),
        r == floor || !is_space_char(s@[r - 1]),
    decreases upto,
{
    if upto > floor {
        if space_char(s.get_char(upto - 1)) {
            return last_non_space(s, floor, upto - 1);
        }
    }
    upto
}

/// `s` with leading and trailing blanks removed.
pub fn str_trim(s: &str) -> (r: String)
    ensures
        r@ == trimmed(s@),
{
    let n = s.unicode_len();
    let i = first_non_space(s, 0);
    let j = last_non_space(s, i, n);
    let r = s.substring_char(i, j).to_owned();
    proof {
        lemma_trim_front_range(s@, i as int);
        let t = s@.subrange(i as int, s@.len() as int);
        assert(forall|k: int| j - i <= k < t.len() ==> is_space_char(#[trigger] t[k]));
        lemma_trim_back_range(t, j - i);
        assert(t.subrange(0, j - i) =~= s@.subrange(i as int, j as int));
    }
    r
}

/// The decimal digit `d` as a character.
pub open spec fn digit_char(d: nat) -> char {
    if d == 0 {
        '0'
    } else if d == 1 {
        '1'
    } else if d == 2 {
        '2'
    } else if d == 3 {
        '3'
    } else if d == 4 {
        '4'
    } else if d == 5 {
        '5'
    } else if d == 6 {
        '6'
    } else if d == 7 {
        '7'
    } else if d == 8 {
        '8'
    } else {
        '9'
    }
}

/// The decimal rendering of `n`, most significant digit first.
pub open spec fn dec_digits(n: nat) -> Seq<char>
    decreases n,
{
    if n < 10 {
        seq![digit_char(n)]
    } else {
        dec_digits(n / 10) + seq![digit_char(n % 10)]
    }
}

/// Appends the single decimal digit `d` to `out`.
fn append_digit(out: &mut String, d: u64)
    requires
        d < 10,
    ensures
        final(out)@ == old(out)@ + seq![digit_char(d as nat)],
{
    let piece: &str = if d == 0 {
        "0"
    } else if d == 1 {
        "1"
    } else if d == 2 {
        "2"
    } else if d == 3 {
        "3"
    } else if d == 4 {
        "4"
    } else if d == 5 {
        "5"
    } else if d == 6 {
        "6"
    } else if d == 7 {
        "7"
    } else if d == 8 {
        "8"
    } else {
        "9"
    };
    proof {
        reveal_strlit("0");
        reveal_strlit("1");
        reveal_strlit("2");
        reveal_strlit("3");
        reveal_strlit("4");
        reveal_strlit("5");
        reveal_strlit("6");
        reveal_strlit("7");
        reveal_strlit("8");
        reveal_strlit("9");
        assert(piece@ =~= seq![digit_char(d as nat)]);
    }
    out.append(piece);
}

/// Appends the decimal rendering of `n` to `out`.
pub fn append_decimal(out: &mut String, n: u64)
    ensures
        final(out)@ == old(out)@ + dec_digits(n as nat),
    decreases n,
{
    if n < 10 {
        append_digit(out, n);
    } else {
        append_decimal(out, n / 10);
        append_digit(out, n % 10);
        proof {
            assert(old(out)@ + dec_digits((n / 10) as nat) + seq![digit_char((n % 10) as nat)]
                =~= old(out)@ + dec_digits(n as nat));
        }
    }
}

} // verus!
