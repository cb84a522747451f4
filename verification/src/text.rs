//! Text helpers shared by the chunker and the prompt builder: phrase-boundary
//! detection, whitespace trimming, and decimal rendering of integers.

use vstd::prelude::*;

verus! {

/// Characters that end a spoken phrase: sentence and clause punctuation, or a
/// line break.
pub open spec fn is_boundary_char(c: char) -> bool {
    c == '.' || c == '!' || c == '?' || c == ',' || c == ';' || c == ':' || c == '\n'
}

/// Whitespace stripped from the ends of an emitted chunk.
pub open spec fn is_space_char(c: char) -> bool {
    c == ' ' || c == '\t' || c == '\r' || c == '\n'
}

pub fn boundary_char(c: char) -> (r: bool)
    ensures
        r == is_boundary_char(c),
{
    c == '.' || c == '!' || c == '?' || c == ',' || c == ';' || c == ':' || c == '\n'
}

pub fn space_char(c: char) -> (r: bool)
    ensures
        r == is_space_char(c),
{
    c == ' ' || c == '\t' || c == '\r' || c == '\n'
}

/// Whether the accumulated text ends on a phrase boundary, so that emitting it
/// now yields a natural spoken pause.
pub fn has_phrase_boundary(s: &str) -> (r: bool)
    ensures
        r == (s@.len() > 0 && is_boundary_char(s@.last())),
{
    let n = s.unicode_len();
    if n == 0 {
        false
    } else {
        boundary_char(s.get_char(n - 1))
    }
}

pub open spec fn trim_start_spec(s: Seq<char>) -> Seq<char>
    decreases s.len(),
{
    if s.len() > 0 && is_space_char(s.first()) {
        trim_start_spec(s.drop_first())
    } else {
        s
    }
}

pub open spec fn trim_end_spec(s: Seq<char>) -> Seq<char>
    decreases s.len(),
{
    if s.len() > 0 && is_space_char(s.last()) {
        trim_end_spec(s.drop_last())
    } else {
        s
    }
}

/// The text with leading and trailing whitespace removed.
pub open spec fn trim_spec(s: Seq<char>) -> Seq<char> {
    trim_end_spec(trim_start_spec(s))
}

proof fn lemma_trim_start_skip(s: Seq<char>, i: int)
    requires
        0 <= i <= s.len(),
        forall|k: int| 0 <= k < i ==> is_space_char(s[k]),
        i < s.len() ==> !is_space_char(s[i]),
    ensures
        trim_start_spec(s) == s.subrange(i, s.len() as int),
    decreases i,
{
    if i == 0 {
        assert(s.subrange(0, s.len() as int) =~= s);
    } else {
        let t = s.drop_first();
        lemma_trim_start_skip(t, i - 1);
        assert(t.subrange(i - 1, t.len() as int) =~= s.subrange(i, s.len() as int));
    }
}

proof fn lemma_trim_end_skip(s: Seq<char>, j: int)
    requires
        0 <= j <= s.len(),
        forall|k: int| j <= k < s.len() ==> is_space_char(s[k]),
        j > 0 ==> !is_space_char(s[j - 1]),
    ensures
        trim_end_spec(s) == s.subrange(0, j),
    decreases s.len() - j,
{
    if j == s.len() {
        assert(s.subrange(0, j) =~= s);
    } else {
        let t = s.drop_last();
        lemma_trim_end_skip(t, j);
        assert(t.subrange(0, j) =~= s.subrange(0, j));
    }
}

/// A copy of the text with leading and trailing whitespace removed.
pub fn trim_str(s: &str) -> (r: String)
    ensures
        r@ == trim_spec(s@),
{
    let n = s.unicode_len();
    let mut i: usize = 0;
    while i < n && space_char(s.get_char(i))
        invariant
            0 <= i <= n,
            n == s@.len(),
            forall|k: int| 0 <= k < i ==> is_space_char(s@[k]),
        decreases n - i,
    {
        i = i + 1;
    }
    if i == n {
        proof {
            lemma_trim_start_skip(s@, i as int);
            assert(s@.subrange(i as int, s@.len() as int) =~= Seq::<char>::empty());
        }
        return String::new();
    }
    let mut j: usize = n;
    while j > i && space_char(s.get_char(j - 1))
        invariant
            i <= j <= n,
            n == s@.len(),
            i < n,
            !is_space_char(s@[i as int]),
            forall|k: int| j <= k < n ==> is_space_char(s@[k]),
        decreases j,
    {
        j = j - 1;
    }
    proof {
        lemma_trim_start_skip(s@, i as int);
        let t = s@.subrange(i as int, n as int);
        lemma_trim_end_skip(t, j - i);
        assert(t.subrange(0, j - i) =~= s@.subrange(i as int, j as int));
    }
    let sub = s.substring_char(i, j);
    sub.to_owned()
}

/// The decimal digit for a value below ten.
pub open spec fn digit_char(d: int) -> char {
    if d == 0 {
        '0'
    } else if d == 1 {
        '1'
    } else if d == 2 {
        '2'
    } else if d == 3 {
        '3'
    } else if d == 4 {
        '4'
    } else if d == 5 {
        '5'
    } else if d == 6 {
        '6'
    } else if d == 7 {
        '7'
    } else if d == 8 {
        '8'
    } else {
        '9'
    }
}

/// Decimal rendering of a non-negative integer, most significant digit first.
pub open spec fn dec_rep(n: nat) -> Seq<char>
    decreases n,
{
    if n < 10 {
        seq![digit_char(n as int)]
    } else {
        dec_rep(n / 10).push(digit_char((n % 10) as int))
    }
}

/// Decimal rendering of an integer, with a leading minus sign when negative.
pub open spec fn int_rep(i: int) -> Seq<char> {
    if i >= 0 {
        dec_rep(i as nat)
    } else {
        seq!['-'] + dec_rep((-i) as nat)
    }
}

/// Relies on `String::push`: appends exactly the given character.
#[verifier::external_body]
pub(crate) fn push_char(s: &mut String, c: char)
    ensures
        final(s)@ == old(s)@.push(c),
{
    s.push(c);
}

fn digit_of(d: u64) -> (c: char)
    requires
        d < 10,
    ensures
        c == digit_char(d as int),
{
    if d == 0 {
        '0'
    } else if d == 1 {
        '1'
    } else if d == 2 {
        '2'
    } else if d == 3 {
        '3'
    } else if d == 4 {
        '4'
    } else if d == 5 {
        '5'
    } else if d == 6 {
        '6'
    } else if d == 7 {
        '7'
    } else if d == 8 {
        '8'
    } else {
        '9'
    }
}

fn push_dec(s: &mut String, n: u64)
    ensures
        final(s)@ == old(s)@ + dec_rep(n as nat),
    decreases n,
{
    if n < 10 {
        push_char(s, digit_of(n));
        assert(old(s)@ + dec_rep(n as nat) =~= old(s)@.push(digit_char(n as int)));
    } else {
        push_dec(s, n / 10);
        push_char(s, digit_of(n % 10));
        assert(old(s)@ + dec_rep(n as nat) =~= (old(s)@ + dec_rep((n / 10) as nat)).push(
            digit_char((n % 10) as int),
        ));
    }
}

/// The decimal text of a non-negative number.
pub fn u64_to_string(n: u64) -> (r: String)
    ensures
        r@ == dec_rep(n as nat),
{
    let mut s = String::new();
    push_dec(&mut s, n);
    proof {
        assert(Seq::<char>::empty() + dec_rep(n as nat) =~= dec_rep(n as nat));
    }
    s
}

/// The decimal text of a signed number.
pub fn i64_to_string(n: i64) -> (r: String)
    ensures
        r@ == int_rep(n as int),
{
    if n >= 0 {
        u64_to_string(n as u64)
    } else {
        let mag: u64 = ((-(n + 1)) as u64) + 1;
        assert(mag as int == -(n as int));
        let mut s = String::new();
        push_char(&mut s, '-');
        push_dec(&mut s, mag);
        proof {
            assert(Seq::<char>::empty().push('-') =~= seq!['-']);
        }
        s
    }
}

/// Zero-padded three-digit rendering, as used for the fractional part of a
/// frequency in megahertz.
pub open spec fn pad3_rep(n: int) -> Seq<char> {
    if n < 10 {
        seq!['0', '0'] + dec_rep(n as nat)
    } else if n < 100 {
        seq!['0'] + dec_rep(n as nat)
    } else {
        dec_rep(n as nat)
    }
}

/// The three-digit, zero-padded decimal text of a value below a thousand.
pub fn u64_to_padded3(n: u64) -> (r: String)
    requires
        n < 1000,
    ensures
        r@ == pad3_rep(n as int),
{
    let mut s = String::new();
    if n < 10 {
        push_char(&mut s, '0');
        push_char(&mut s, '0');
        assert(s@ =~= seq!['0', '0']);
    } else if n < 100 {
        push_char(&mut s, '0');
        assert(s@ =~= seq!['0']);
    } else {
        assert(s@ =~= Seq::<char>::empty());
    }
    push_dec(&mut s, n);
    proof {
        if n >= 100 {
            assert(Seq::<char>::empty() + dec_rep(n as nat) =~= dec_rep(n as nat));
        }
    }
    s
}

/// Zero-padded four-digit rendering, as used for a transponder code.
pub open spec fn pad4_rep(n: int) -> Seq<char> {
    if n < 10 {
        seq!['0', '0', '0'] + dec_rep(n as nat)
    } else if n < 100 {
        seq!['0', '0'] + dec_rep(n as nat)
    } else if n < 1000 {
        seq!['0'] + dec_rep(n as nat)
    } else {
        dec_rep(n as nat)
    }
}

/// The four-digit, zero-padded decimal text of a transponder code.
pub fn u64_to_padded4(n: u64) -> (r: String)
    requires
        n < 10000,
    ensures
        r@ == pad4_rep(n as int),
{
    let mut s = String::new();
    if n < 10 {
        push_char(&mut s, '0');
        push_char(&mut s, '0');
        push_char(&mut s, '0');
        assert(s@ =~= seq!['0', '0', '0']);
    } else if n < 100 {
        push_char(&mut s, '0');
        push_char(&mut s, '0');
        assert(s@ =~= seq!['0', '0']);
    } else if n < 1000 {
        push_char(&mut s, '0');
        assert(s@ =~= seq!['0']);
    } else {
        assert(s@ =~= Seq::<char>::empty());
    }
    push_dec(&mut s, n);
    proof {
        if n >= 1000 {
            assert(Seq::<char>::empty() + dec_rep(n as nat) =~= dec_rep(n as nat));
        }
    }
    s
}

} // verus!
