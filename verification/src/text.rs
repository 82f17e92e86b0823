//! Text primitives shared by the identifier codec and the URI templates:
//! substring replacement, decimal rendering and comparison, each stated over
//! the character sequence that a string denotes.

use vstd::prelude::*;

verus! {

/// Whether `s` begins with `prefix`.
pub open spec fn starts_with(s: Seq<char>, prefix: Seq<char>) -> bool {
    prefix.len() <= s.len() && s.subrange(0, prefix.len() as int) == prefix
}

/// `sep` before every character of `s` and once more at the end.
pub open spec fn interleaved(s: Seq<char>, sep: Seq<char>) -> Seq<char>
    decreases s.len(),
{
    if s.len() == 0 {
        sep
    } else {
        sep + seq![s[0]] + interleaved(s.skip(1), sep)
    }
}

/// `s` with every occurrence of `from` replaced by `to`. Occurrences are
/// found from left to right and do not overlap. An empty `from` matches at
/// every character boundary, both ends included.
pub open spec fn replaced(s: Seq<char>, from: Seq<char>, to: Seq<char>) -> Seq<char>
    decreases s.len(),
{
    if from.len() == 0 {
        interleaved(s, to)
    } else if s.len() == 0 {
        s
    } else if starts_with(s, from) {
        to + replaced(s.skip(from.len() as int), from, to)
    } else {
        seq![s[0]] + replaced(s.skip(1), from, to)
    }
}

/// The character that stands for the digit `d`, for `d` below ten.
pub open spec fn digit(d: nat) -> char {
    (48 + d) as char
}

/// `n` written in base ten, without sign or leading zeros.
pub open spec fn decimal(n: nat) -> Seq<char>
    decreases n,
{
    if n < 10 {
        seq![digit(n)]
    } else {
        decimal(n / 10).push(digit(n % 10))
    }
}

/// Appends one character to a string. Stands for `String::push`, which adds
/// the given character at the end and leaves the rest as it was.
#[verifier::external_body]
fn push_char(s: &mut String, c: char)
    ensures
        final(s)@ == old(s)@.push(c),
{
    s.push(c);
}

/// The characters of `s`, in order.
pub fn chars_of(s: &str) -> (r: Vec<char>)
    ensures
        r@ == s@,
{
    let mut out: Vec<char> = Vec::new();
    for c in it: s.chars()
        invariant
            it.seq() == s@,
            out@ == s@.take(it.index() as int),
    {
        out.push(c);
    }
    out
}

/// The string made of the characters `v[from..to]`.
pub fn string_of(v: &Vec<char>, from: usize, to: usize) -> (r: String)
    requires
        from <= to <= v@.len(),
    ensures
        r@ == v@.subrange(from as int, to as int),
{
    let mut out = String::new();
    let mut i: usize = from;
    while i < to
        invariant
            from <= i <= to <= v@.len(),
            out@ == v@.subrange(from as int, i as int),
        decreases to - i,
    {
        push_char(&mut out, v[i]);
        i += 1;
    }
    out
}

/// Whether two strings hold the same characters.
pub fn str_eq(a: &str, b: &str) -> (r: bool)
    ensures
        r == (a@ == b@),
{
    let x = a.as_bytes();
    let y = b.as_bytes();
    proof {
        vstd::utf8::encode_utf8_decode_utf8(a@);
        vstd::utf8::encode_utf8_decode_utf8(b@);
    }
    if x.len() != y.len() {
        return false;
    }
    let mut i: usize = 0;
    while i < x.len()
        invariant
            x@ == vstd::utf8::encode_utf8(a@),
            y@ == vstd::utf8::encode_utf8(b@),
            x@.len() == y@.len(),
            i <= x@.len(),
            forall|k: int| 0 <= k < i ==> x@[k] == y@[k],
        decreases x@.len() - i,
    {
        if x[i] != y[i] {
            return false;
        }
        i += 1;
    }
    assert(x@ =~= y@);
    true
}

/// Whether `pattern` occurs in `text` at position `at`.
fn occurs_at(text: &Vec<char>, at: usize, pattern: &Vec<char>) -> (r: bool)
    requires
        at <= text@.len(),
    ensures
        r == starts_with(text@.skip(at as int), pattern@),
{
    if pattern.len() > text.len() - at {
        return false;
    }
    let ghost rest = text@.skip(at as int);
    let mut k: usize = 0;
    while k < pattern.len()
        invariant
            at <= text@.len(),
            pattern@.len() <= text@.len() - at,
            text@.len() <= usize::MAX,
            rest == text@.skip(at as int),
            k <= pattern@.len(),
            forall|j: int| 0 <= j < k ==> rest[j] == pattern@[j],
        decreases pattern@.len() - k,
    {
        if text[at + k] != pattern[k] {
            assert(rest.subrange(0, pattern@.len() as int)[k as int] == rest[k as int]);
            return false;
        }
        k += 1;
    }
    assert(rest.subrange(0, pattern@.len() as int) =~= pattern@);
    true
}

/// `s` with every occurrence of `from` replaced by `to`.
pub fn replace(s: &str, from: &str, to: &str) -> (r: String)
    ensures
        r@ == replaced(s@, from@, to@),
{
    let text = chars_of(s);
    let pattern = chars_of(from);
    let mut out = String::new();
    let mut i: usize = 0;
    assert(text@.skip(0) =~= text@);
    if pattern.len() == 0 {
        assert(out@ + interleaved(text@, to@) =~= interleaved(text@, to@));
        while i < text.len()
            invariant
                i <= text@.len(),
                out@ + interleaved(text@.skip(i as int), to@) == interleaved(text@, to@),
            decreases text@.len() - i,
        {
            let ghost before = out@;
            let ghost rest = text@.skip(i as int);
            out.append(to);
            push_char(&mut out, text[i]);
            i += 1;
            proof {
                assert(rest.skip(1) =~= text@.skip(i as int));
                assert(out@ + interleaved(text@.skip(i as int), to@) =~= before + interleaved(
                    rest,
                    to@,
                ));
            }
        }
        out.append(to);
        assert(text@.skip(i as int).len() == 0);
        out
    } else {
        assert(out@ + replaced(text@, from@, to@) =~= replaced(text@, from@, to@));
        while i < text.len()
            invariant
                i <= text@.len(),
                pattern@ == from@,
                pattern@.len() > 0,
                out@ + replaced(text@.skip(i as int), from@, to@) == replaced(text@, from@, to@),
            decreases text@.len() - i,
        {
            let ghost before = out@;
            let ghost rest = text@.skip(i as int);
            if occurs_at(&text, i, &pattern) {
                out.append(to);
                i += pattern.len();
                proof {
                    assert(rest.skip(from@.len() as int) =~= text@.skip(i as int));
                    assert(out@ + replaced(text@.skip(i as int), from@, to@) =~= before
                        + replaced(rest, from@, to@));
                }
            } else {
                push_char(&mut out, text[i]);
                i += 1;
                proof {
                    assert(rest.skip(1) =~= text@.skip(i as int));
                    assert(out@ + replaced(text@.skip(i as int), from@, to@) =~= before
                        + replaced(rest, from@, to@));
                }
            }
        }
        assert(text@.skip(i as int).len() == 0);
        assert(out@ =~= out@ + replaced(text@.skip(i as int), from@, to@));
        out
    }
}

/// Appends `n` in base ten to `out`.
pub fn push_decimal(out: &mut String, n: usize)
    ensures
        final(out)@ == old(out)@ + decimal(n as nat),
    decreases n,
{
    if n >= 10 {
        push_decimal(out, n / 10);
    }
    let d: u8 = (n % 10) as u8;
    let c: char = (48u8 + d) as char;
    push_char(out, c);
    assert(out@ =~= old(out)@ + decimal(n as nat));
}

/// `n` in base ten.
pub fn decimal_string(n: usize) -> (r: String)
    ensures
        r@ == decimal(n as nat),
{
    let mut out = String::new();
    push_decimal(&mut out, n);
    assert(out@ =~= decimal(n as nat));
    out
}

/// Replacing one character by another and then the other by the one gives
/// the text back, where the other does not occur in the text to begin with.
pub proof fn lemma_replaced_and_back(s: Seq<char>, one: char, other: char)
    requires
        !s.contains(other),
    ensures
        replaced(replaced(s, seq![one], seq![other]), seq![other], seq![one]) == s,
    decreases s.len(),
{
    let from = seq![one];
    let to = seq![other];
    if s.len() > 0 {
        let rest = s.skip(1);
        assert forall|c: char| #[trigger] rest.contains(c) implies s.contains(c) by {
            let i = choose|i: int| 0 <= i < rest.len() && rest[i] == c;
            assert(s[i + 1] == c);
        }
        lemma_replaced_and_back(rest, one, other);
        let there = replaced(rest, from, to);
        assert(s.contains(s[0]));
        assert(s.subrange(0, 1) =~= seq![s[0]]);
        assert(from[0] == one && to[0] == other);
        if s[0] == one {
            assert(s.subrange(0, 1) =~= from);
            let whole = to + there;
            assert(whole.subrange(0, 1) =~= to);
            assert(whole.skip(1) =~= there);
            assert(from + rest =~= s);
        } else {
            assert(!starts_with(s, from));
            let whole = seq![s[0]] + there;
            assert(whole.subrange(0, 1) =~= seq![s[0]]);
            assert(!starts_with(whole, to));
            assert(whole.skip(1) =~= there);
            assert(whole[0] == s[0]);
            assert(seq![s[0]] + rest =~= s);
        }
    }
}

} // verus!
