//! Text helpers on `Seq<char>` models: decimal rendering, pattern
//! counting and removal, and whitespace trimming.

use vstd::prelude::*;

verus! {

broadcast use vstd::string::group_string_axioms;

/// The character of a decimal digit.
pub open spec fn digit_char(d: nat) -> char {
    if d == 0 { '0' }
    else if d == 1 { '1' }
    else if d == 2 { '2' }
    else if d == 3 { '3' }
    else if d == 4 { '4' }
    else if d == 5 { '5' }
    else if d == 6 { '6' }
    else if d == 7 { '7' }
    else if d == 8 { '8' }
    else { '9' }
}

/// The decimal rendering of a natural number, without leading zeros.
pub open spec fn decimal(n: nat) -> Seq<char>
    decreases n,
{
    if n < 10 {
        seq![digit_char(n)]
    } else {
        decimal(n / 10).push(digit_char(n % 10))
    }
}

/// The decimal rendering of an integer, with a leading `-` when negative.
pub open spec fn signed_decimal(n: int) -> Seq<char> {
    if n < 0 {
        seq!['-'] + decimal((-n) as nat)
    } else {
        decimal(n as nat)
    }
}

fn digit_str(d: u64) -> (s: &'static str)
    requires
        d < 10,
    ensures
        s@ == seq![digit_char(d as nat)],
{
    proof {
        reveal_strlit("0");
        reveal_strlit("1");
        reveal_strlit("2");
        reveal_strlit("3");
        reveal_strlit("4");
        reveal_strlit("5");
        reveal_strlit("6");
        reveal_strlit("7");
        reveal_strlit("8");
        reveal_strlit("9");
    }
    match d {
        0 => "0",
        1 => "1",
        2 => "2",
        3 => "3",
        4 => "4",
        5 => "5",
        6 => "6",
        7 => "7",
        8 => "8",
        _ => "9",
    }
}

/// Appends the decimal rendering of `n` to `out`.
pub fn push_decimal(out: &mut String, n: u64)
    ensures
        final(out)@ == old(out)@ + decimal(n as nat),
    decreases n,
{
    if n >= 10 {
        push_decimal(out, n / 10);
    }
    out.append(digit_str(n % 10));
    proof {
        if n >= 10 {
            assert(old(out)@ + decimal(n as nat) =~= old(out)@ + decimal((n / 10) as nat)
                + seq![digit_char((n % 10) as nat)]);
        }
    }
}

/// Renders an unsigned integer in decimal, as `u64::to_string` does.
pub fn decimal_u64(n: u64) -> (s: String)
    ensures
        s@ == decimal(n as nat),
{
    let mut s = String::new();
    push_decimal(&mut s, n);
    assert(s@ =~= decimal(n as nat));
    s
}

/// Renders a signed integer in decimal, as `i64::to_string` does.
pub fn decimal_i64(n: i64) -> (s: String)
    ensures
        s@ == signed_decimal(n as int),
{
    let mut s = String::new();
    if n < 0 {
        proof {
            reveal_strlit("-");
        }
        s.append("-");
        let magnitude: u64 = (0i128 - (n as i128)) as u64;
        push_decimal(&mut s, magnitude);
        assert(s@ =~= signed_decimal(n as int));
    } else {
        push_decimal(&mut s, n as u64);
        assert(s@ =~= signed_decimal(n as int));
    }
    s
}

/// The characters of a string slice, in order.
pub fn chars_of(s: &str) -> (v: Vec<char>)
    ensures
        v@ == s@,
{
    let mut v: Vec<char> = Vec::new();
    for c in it: s.chars()
        invariant
            v@ == it.seq().take(it.index() as int),
    {
        v.push(c);
        assert(v@ =~= it.seq().take(it.index() + 1));
    }
    assert(v@ =~= s@);
    v
}


/// Whether `pat` occurs in `s` at position `i`.
pub open spec fn occurs_at(s: Seq<char>, i: int, pat: Seq<char>) -> bool {
    0 <= i && i + pat.len() <= s.len() && s.subrange(i, i + pat.len()) == pat
}

/// The number of non-overlapping occurrences of `pat` in `s`, found from the
/// left as `str::matches` finds them. The empty pattern occurs before every
/// character and at the end.
pub open spec fn count_matches(s: Seq<char>, pat: Seq<char>) -> nat
    decreases s.len(),
{
    if pat.len() == 0 {
        s.len() + 1
    } else if s.len() < pat.len() {
        0
    } else if s.take(pat.len() as int) == pat {
        1 + count_matches(s.skip(pat.len() as int), pat)
    } else {
        count_matches(s.skip(1), pat)
    }
}

/// `s` with every non-overlapping occurrence of `pat`, found from the left,
/// removed, as `str::replace(pat, "")` gives it. Removing the empty pattern
/// leaves `s` as it is.
pub open spec fn remove_matches(s: Seq<char>, pat: Seq<char>) -> Seq<char>
    decreases s.len(),
{
    if pat.len() == 0 || s.len() < pat.len() {
        s
    } else if s.take(pat.len() as int) == pat {
        remove_matches(s.skip(pat.len() as int), pat)
    } else {
        seq![s[0]] + remove_matches(s.skip(1), pat)
    }
}

/// A counted occurrence is a full match: when `count_matches` finds one,
/// `pat` occurs in `s` at the returned position.
proof fn lemma_counted_occurrence_witness(s: Seq<char>, pat: Seq<char>) -> (i: int)
    requires
        pat.len() > 0,
        count_matches(s, pat) > 0,
    ensures
        occurs_at(s, i, pat),
    decreases s.len(),
{
    if s.take(pat.len() as int) == pat {
        assert(s.subrange(0, pat.len() as int) =~= s.take(pat.len() as int));
        0
    } else {
        let j = lemma_counted_occurrence_witness(s.skip(1), pat);
        assert(s.skip(1).subrange(j, j + pat.len()) =~= s.subrange(j + 1, j + 1 + pat.len()));
        j + 1
    }
}

/// Occurrences of a non-empty pattern are whole matches, side by side and
/// never overlapping: text in which the pattern occurs nowhere has none, any
/// counted occurrence is a place where the whole pattern stands, and the
/// occurrences together take no more room than the text.
pub proof fn lemma_count_matches_counts_whole_matches(s: Seq<char>, pat: Seq<char>)
    requires
        pat.len() > 0,
    ensures
        (forall|i: int| !#[trigger] occurs_at(s, i, pat)) ==> count_matches(s, pat) == 0,
        count_matches(s, pat) > 0 ==> exists|i: int| #[trigger] occurs_at(s, i, pat),
        count_matches(s, pat) * pat.len() <= s.len(),
    decreases s.len(),
{
    if count_matches(s, pat) > 0 {
        let i = lemma_counted_occurrence_witness(s, pat);
        assert(occurs_at(s, i, pat));
    }
    if s.len() >= pat.len() {
        if s.take(pat.len() as int) == pat {
            lemma_count_matches_counts_whole_matches(s.skip(pat.len() as int), pat);
        } else {
            lemma_count_matches_counts_whole_matches(s.skip(1), pat);
        }
        assert(count_matches(s, pat) * pat.len() <= s.len()) by (nonlinear_arith)
            requires
                s.take(pat.len() as int) == pat ==> count_matches(s, pat) == 1 + count_matches(s.skip(pat.len() as int), pat),
                s.take(pat.len() as int) != pat ==> count_matches(s, pat) == count_matches(s.skip(1), pat),
                count_matches(s.skip(pat.len() as int), pat) * pat.len() <= s.skip(pat.len() as int).len()
                    || s.take(pat.len() as int) != pat,
                count_matches(s.skip(1), pat) * pat.len() <= s.skip(1).len() || s.take(pat.len() as int) == pat,
                s.skip(pat.len() as int).len() == s.len() - pat.len(),
                s.skip(1).len() == s.len() - 1,
                pat.len() > 0,
        ;
    }
}

fn occurs_at_exec(cs: &Vec<char>, i: usize, pat: &Vec<char>) -> (r: bool)
    requires
        i <= cs.len(),
    ensures
        r == occurs_at(cs@, i as int, pat@),
{
    if pat.len() > cs.len() - i {
        return false;
    }
    let mut j: usize = 0;
    while j < pat.len()
        invariant
            i + pat.len() <= cs.len(),
            j <= pat.len(),
            forall|k: int| 0 <= k < j ==> cs@[i + k] == pat@[k],
        decreases pat.len() - j,
    {
        if cs[i + j] != pat[j] {
            assert(cs@.subrange(i as int, i + pat.len())[j as int] != pat@[j as int]);
            return false;
        }
        j = j + 1;
    }
    assert(cs@.subrange(i as int, i + pat.len()) =~= pat@);
    true
}

proof fn lemma_skip_step(s: Seq<char>, i: int, k: int)
    requires
        0 <= i,
        0 <= k,
        i + k <= s.len(),
    ensures
        s.skip(i).skip(k) == s.skip(i + k),
        s.skip(i).take(k) == s.subrange(i, i + k),
{
    assert(s.skip(i).skip(k) =~= s.skip(i + k));
    assert(s.skip(i).take(k) =~= s.subrange(i, i + k));
}

/// Counts the non-overlapping occurrences of a pattern, as
/// `text.matches(pat).count()` does. For the empty pattern the count is one
/// more than the number of characters, which must fit in a `usize`.
pub fn count_occurrences(text: &str, pat: &str) -> (n: usize)
    requires
        pat@.len() > 0 || text@.len() < usize::MAX,
    ensures
        n == count_matches(text@, pat@),
{
    let cs = chars_of(text);
    let ps = chars_of(pat);
    if ps.len() == 0 {
        return cs.len() + 1;
    }
    let mut i: usize = 0;
    let mut n: usize = 0;
    assert(cs@.skip(0) =~= cs@);
    while i < cs.len() && ps.len() <= cs.len() - i
        invariant
            cs@ == text@,
            ps@ == pat@,
            ps@.len() > 0,
            i <= cs@.len(),
            n <= i,
            count_matches(text@, pat@) == n + count_matches(cs@.skip(i as int), pat@),
        decreases cs.len() - i,
    {
        proof {
            lemma_skip_step(cs@, i as int, ps@.len() as int);
            lemma_skip_step(cs@, i as int, 1);
        }
        if occurs_at_exec(&cs, i, &ps) {
            n = n + 1;
            i = i + ps.len();
        } else {
            i = i + 1;
        }
    }
    n
}

/// Removes every non-overlapping occurrence of a pattern, as
/// `text.replace(pat, "")` does.
pub fn remove_occurrences(text: &str, pat: &str) -> (r: String)
    ensures
        r@ == remove_matches(text@, pat@),
{
    let cs = chars_of(text);
    let ps = chars_of(pat);
    if ps.len() == 0 {
        let mut copy = String::new();
        copy.append(text);
        assert(copy@ =~= text@);
        return copy;
    }
    let n = cs.len();
    let mut out = String::new();
    let mut seg: usize = 0;
    let mut i: usize = 0;
    assert(cs@.skip(0) =~= cs@);
    assert(cs@.subrange(0, 0) =~= Seq::<char>::empty());
    while i < n && ps.len() <= n - i
        invariant
            cs@ == text@,
            ps@ == pat@,
            n == cs@.len(),
            ps@.len() > 0,
            seg <= i <= n,
            remove_matches(text@, pat@) == out@ + cs@.subrange(seg as int, i as int)
                + remove_matches(cs@.skip(i as int), pat@),
        decreases n - i,
    {
        proof {
            lemma_skip_step(cs@, i as int, ps@.len() as int);
            lemma_skip_step(cs@, i as int, 1);
        }
        if occurs_at_exec(&cs, i, &ps) {
            let piece = text.substring_char(seg, i);
            out.append(piece);
            i = i + ps.len();
            seg = i;
            assert(cs@.subrange(seg as int, i as int) =~= Seq::<char>::empty());
        } else {
            assert(cs@.subrange(seg as int, i + 1) =~= cs@.subrange(seg as int, i as int)
                + seq![cs@.skip(i as int)[0]]);
            i = i + 1;
        }
    }
    let rest = text.substring_char(seg, n);
    out.append(rest);
    assert(cs@.subrange(seg as int, i as int) + cs@.skip(i as int) =~= cs@.subrange(seg as int, n as int));
    out
}


/// Whether a character has the Unicode `White_Space` property, the
/// property that `char::is_whitespace` reports: the controls U+0009 to
/// U+000D, U+0020, U+0085, U+00A0, U+1680, U+2000 to U+200A, U+2028,
/// U+2029, U+202F, U+205F and U+3000.
pub open spec fn white_space(c: char) -> bool {
    let u = c as u32;
    ||| 0x09 <= u <= 0x0D
    ||| u == 0x20
    ||| u == 0x85
    ||| u == 0xA0
    ||| u == 0x1680
    ||| 0x2000 <= u <= 0x200A
    ||| u == 0x2028
    ||| u == 0x2029
    ||| u == 0x202F
    ||| u == 0x205F
    ||| u == 0x3000
}

/// Whether a character is white space, as `char::is_whitespace` says.
pub fn is_whitespace(c: char) -> (r: bool)
    ensures
        r == white_space(c),
{
    let u = c as u32;
    (0x09 <= u && u <= 0x0D) || u == 0x20 || u == 0x85 || u == 0xA0 || u == 0x1680
        || (0x2000 <= u && u <= 0x200A) || u == 0x2028 || u == 0x2029 || u == 0x202F
        || u == 0x205F || u == 0x3000
}

/// The first position at or after `i` that is not flagged as white space.
pub open spec fn first_kept(white: Seq<bool>, i: int) -> int
    decreases white.len() - i,
{
    if 0 <= i < white.len() && white[i] {
        first_kept(white, i + 1)
    } else {
        i
    }
}

/// The end of the range `lo..hi` once trailing positions flagged as white
/// space are dropped.
pub open spec fn kept_end(white: Seq<bool>, lo: int, hi: int) -> int
    decreases hi - lo,
{
    if lo < hi && white[hi - 1] {
        kept_end(white, lo, hi - 1)
    } else {
        hi
    }
}

/// `s` without the leading and trailing characters that `white` flags.
pub open spec fn trim_flagged_spec(s: Seq<char>, white: Seq<bool>) -> Seq<char> {
    let lo = first_kept(white, 0);
    s.subrange(lo, kept_end(white, lo, s.len() as int))
}

/// For each character of `s`, whether it is white space.
pub open spec fn white_flags(s: Seq<char>) -> Seq<bool> {
    Seq::new(s.len(), |i: int| white_space(s[i]))
}

/// `s` without leading and trailing white space, as `str::trim` gives it.
pub open spec fn trim_spec(s: Seq<char>) -> Seq<char> {
    trim_flagged_spec(s, white_flags(s))
}

/// Drops the leading and trailing characters of `text` that `white` flags;
/// `white` holds one flag per character.
pub fn trim_flagged(text: &str, white: &Vec<bool>) -> (r: String)
    requires
        white@.len() == text@.len(),
    ensures
        r@ == trim_flagged_spec(text@, white@),
{
    let n = white.len();
    let mut lo: usize = 0;
    while lo < n && white[lo]
        invariant
            n == white@.len(),
            lo <= n,
            first_kept(white@, 0) == first_kept(white@, lo as int),
        decreases n - lo,
    {
        lo = lo + 1;
    }
    let mut hi: usize = n;
    while hi > lo && white[hi - 1]
        invariant
            n == white@.len(),
            lo <= hi <= n,
            kept_end(white@, lo as int, n as int) == kept_end(white@, lo as int, hi as int),
        decreases hi - lo,
    {
        hi = hi - 1;
    }
    let piece = text.substring_char(lo, hi);
    let mut out = String::new();
    out.append(piece);
    assert(out@ =~= text@.subrange(lo as int, hi as int));
    out
}

/// Removes leading and trailing white space, as `str::trim` does.
pub fn trim(text: &str) -> (r: String)
    ensures
        r@ == trim_spec(text@),
{
    let cs = chars_of(text);
    let mut white: Vec<bool> = Vec::new();
    let mut i: usize = 0;
    while i < cs.len()
        invariant
            cs@ == text@,
            i <= cs@.len(),
            white@ =~= white_flags(text@).take(i as int),
        decreases cs.len() - i,
    {
        white.push(is_whitespace(cs[i]));
        i = i + 1;
    }
    assert(white@ =~= white_flags(text@));
    trim_flagged(text, &white)
}

} // verus!
