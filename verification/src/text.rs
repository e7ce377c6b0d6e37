//! Character-level preparation of a date/time string before parsing:
//! whitespace trimming, substitution of every "GMT" occurrence by the
//! fixed offset marker "+0000", and the loose offset-suffix check (the
//! string must end in four decimal digits).

use vstd::prelude::*;
use vstd::string::StrSliceExecFns;
use vstd::string::StringExecFns;

verus! {

/// The Unicode White_Space characters: what counts as surrounding
/// whitespace for trimming.
pub open spec fn is_space(c: char) -> bool {
    let u = c as u32;
    ||| u == 0x09
    ||| u == 0x0A
    ||| u == 0x0B
    ||| u == 0x0C
    ||| u == 0x0D
    ||| u == 0x20
    ||| u == 0x85
    ||| u == 0xA0
    ||| u == 0x1680
    ||| (0x2000 <= u && u <= 0x200A)
    ||| u == 0x2028
    ||| u == 0x2029
    ||| u == 0x202F
    ||| u == 0x205F
    ||| u == 0x3000
}

/// Decides `is_space` for one character.
pub fn is_space_char(c: char) -> (r: bool)
    ensures
        r == is_space(c),
{
    let u = c as u32;
    u == 0x09 || u == 0x0A || u == 0x0B || u == 0x0C || u == 0x0D || u == 0x20 || u == 0x85
        || u == 0xA0 || u == 0x1680 || (0x2000 <= u && u <= 0x200A) || u == 0x2028 || u == 0x2029
        || u == 0x202F || u == 0x205F || u == 0x3000
}

/// An ASCII decimal digit.
pub open spec fn is_digit(c: char) -> bool {
    48 <= c as u32 && c as u32 <= 57
}

/// Decides `is_digit` for one character.
pub fn is_digit_char(c: char) -> (r: bool)
    ensures
        r == is_digit(c),
{
    let u = c as u32;
    48 <= u && u <= 57
}

/// The longest whitespace prefix removed.
pub open spec fn trim_start_rec(s: Seq<char>) -> Seq<char>
    decreases s.len(),
{
    if s.len() > 0 && is_space(s[0]) {
        trim_start_rec(s.drop_first())
    } else {
        s
    }
}

/// The longest whitespace suffix removed.
pub open spec fn trim_end_rec(s: Seq<char>) -> Seq<char>
    decreases s.len(),
{
    if s.len() > 0 && is_space(s.last()) {
        trim_end_rec(s.drop_last())
    } else {
        s
    }
}

/// Leading and trailing whitespace removed.
pub open spec fn trim_spec(s: Seq<char>) -> Seq<char> {
    trim_end_rec(trim_start_rec(s))
}

proof fn lemma_trim_start_skip(s: Seq<char>, lo: int)
    requires
        0 <= lo <= s.len(),
        forall|k: int| 0 <= k < lo ==> is_space(s[k]),
        lo == s.len() || !is_space(s[lo]),
    ensures
        trim_start_rec(s) == s.skip(lo),
    decreases lo,
{
    if lo == 0 {
        assert(s.skip(0) =~= s);
    } else {
        let t = s.drop_first();
        assert(forall|k: int| 0 <= k < lo - 1 ==> is_space(t[k]));
        lemma_trim_start_skip(t, lo - 1);
        assert(t.skip(lo - 1) =~= s.skip(lo));
    }
}

proof fn lemma_trim_end_take(s: Seq<char>, hi: int)
    requires
        0 <= hi <= s.len(),
        forall|k: int| hi <= k < s.len() ==> is_space(s[k]),
        hi == 0 || !is_space(s[hi - 1]),
    ensures
        trim_end_rec(s) == s.take(hi),
    decreases s.len() - hi,
{
    if hi == s.len() {
        assert(s.take(hi) =~= s);
    } else {
        let t = s.drop_last();
        assert(is_space(s.last()));
        assert(forall|k: int| hi <= k < t.len() ==> is_space(t[k]));
        lemma_trim_end_take(t, hi);
        assert(t.take(hi) =~= s.take(hi));
    }
}

/// Removes leading and trailing whitespace.
pub fn trim_str<'a>(s: &'a str) -> (r: &'a str)
    ensures
        r@ == trim_spec(s@),
{
    let n = s.unicode_len();
    let mut lo: usize = 0;
    while lo < n && is_space_char(s.get_char(lo))
        invariant
            lo <= n,
            n == s@.len(),
            forall|k: int| 0 <= k < lo ==> is_space(s@[k]),
        decreases n - lo,
    {
        lo = lo + 1;
    }
    let mut hi: usize = n;
    while hi > lo && is_space_char(s.get_char(hi - 1))
        invariant
            lo <= hi <= n,
            n == s@.len(),
            forall|k: int| 0 <= k < lo ==> is_space(s@[k]),
            lo == n || !is_space(s@[lo as int]),
            forall|k: int| hi <= k < n ==> is_space(s@[k]),
        decreases hi,
    {
        hi = hi - 1;
    }
    let r = s.substring_char(lo, hi);
    proof {
        lemma_trim_start_skip(s@, lo as int);
        let t = s@.skip(lo as int);
        assert(forall|k: int| hi - lo <= k < t.len() ==> is_space(t[k]));
        lemma_trim_end_take(t, hi - lo);
        assert(t.take(hi - lo) =~= s@.subrange(lo as int, hi as int));
    }
    r
}

/// Every occurrence of "GMT" replaced, left to right, by "+0000".
pub open spec fn replace_gmt_spec(s: Seq<char>) -> Seq<char>
    decreases s.len(),
{
    if s.len() >= 3 && s[0] == 'G' && s[1] == 'M' && s[2] == 'T' {
        "+0000"@ + replace_gmt_spec(s.skip(3))
    } else if s.len() > 0 {
        seq![s[0]] + replace_gmt_spec(s.skip(1))
    } else {
        Seq::<char>::empty()
    }
}

/// Replaces every occurrence of "GMT" by the fixed offset marker
/// "+0000".
pub fn replace_gmt(s: &str) -> (r: String)
    ensures
        r@ == replace_gmt_spec(s@),
{
    let n = s.unicode_len();
    let mut out = String::new();
    let mut i: usize = 0;
    proof {
        assert(s@.skip(0) =~= s@);
        assert(Seq::<char>::empty() + replace_gmt_spec(s@) =~= replace_gmt_spec(s@));
    }
    while i < n
        invariant
            i <= n,
            n == s@.len(),
            out@ + replace_gmt_spec(s@.skip(i as int)) == replace_gmt_spec(s@),
        decreases n - i,
    {
        let ghost prev = out@;
        let ghost t = s@.skip(i as int);
        if n - i >= 3 && s.get_char(i) == 'G' && s.get_char(i + 1) == 'M' && s.get_char(i + 2)
            == 'T' {
            out.append("+0000");
            proof {
                assert(t.len() >= 3 && t[0] == 'G' && t[1] == 'M' && t[2] == 'T');
                assert(t.skip(3) =~= s@.skip(i + 3));
                assert(replace_gmt_spec(t) == "+0000"@ + replace_gmt_spec(s@.skip(i + 3)));
                assert((prev + "+0000"@) + replace_gmt_spec(s@.skip(i + 3)) =~= prev + ("+0000"@
                    + replace_gmt_spec(s@.skip(i + 3))));
            }
            i = i + 3;
        } else {
            let piece = s.substring_char(i, i + 1);
            out.append(piece);
            proof {
                assert(t.len() > 0);
                assert(!(t.len() >= 3 && t[0] == 'G' && t[1] == 'M' && t[2] == 'T'));
                assert(piece@ =~= seq![t[0]]);
                assert(t.skip(1) =~= s@.skip(i + 1));
                assert(replace_gmt_spec(t) == seq![t[0]] + replace_gmt_spec(s@.skip(i + 1)));
                assert((prev + seq![t[0]]) + replace_gmt_spec(s@.skip(i + 1)) =~= prev + (
                seq![t[0]] + replace_gmt_spec(s@.skip(i + 1))));
            }
            i = i + 1;
        }
    }
    proof {
        assert(s@.skip(n as int) =~= Seq::<char>::empty());
        assert(out@ + Seq::<char>::empty() =~= out@);
    }
    out
}

/// The loose offset-suffix rule: the string ends in four decimal
/// digits. Any four-digit tail passes, whatever sign (or none) stands
/// before it; this deliberately keeps the permissive behaviour of the
/// tool this crate mirrors.
pub open spec fn ends_in_four_digits(s: Seq<char>) -> bool {
    &&& s.len() >= 4
    &&& is_digit(s[s.len() - 4])
    &&& is_digit(s[s.len() - 3])
    &&& is_digit(s[s.len() - 2])
    &&& is_digit(s[s.len() - 1])
}

/// Decides `ends_in_four_digits`.
pub fn has_four_digit_suffix(s: &str) -> (r: bool)
    ensures
        r == ends_in_four_digits(s@),
{
    let n = s.unicode_len();
    if n < 4 {
        false
    } else {
        is_digit_char(s.get_char(n - 4)) && is_digit_char(s.get_char(n - 3)) && is_digit_char(
            s.get_char(n - 2),
        ) && is_digit_char(s.get_char(n - 1))
    }
}

} // verus!
