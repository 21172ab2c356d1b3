//! What reading and writing of text comes to, character by character.
use crate::text;
use vstd::prelude::*;

verus! {

// -- Splitting ---------------------------------------------------------------

/// White space is what Unicode says it is.
pub proof fn law_white_space(c: char)
    ensures
        text::is_space(c) <==> (9 <= c as u32 <= 13 || c as u32 == 32 || c as u32 == 0x85 || c as u32
            == 0xA0 || c as u32 == 0x1680 || 0x2000 <= c as u32 <= 0x200A || c as u32 == 0x2028
            || c as u32 == 0x2029 || c as u32 == 0x202F || c as u32 == 0x205F || c as u32
            == 0x3000),
{
}

/// Whether `s` is nothing but white space.
pub open spec fn is_blank(s: Seq<char>) -> bool {
    forall|i: int| 0 <= i < s.len() ==> text::is_space(#[trigger] s[i])
}

proof fn lemma_trim_start(a: Seq<char>, s: Seq<char>)
    requires
        is_blank(a),
    ensures
        text::trim_start(a + s) == text::trim_start(s),
    decreases a.len(),
{
    if a.len() == 0 {
        assert(a + s =~= s);
    } else {
        let b = a.skip(1);
        assert forall|i: int| 0 <= i < b.len() implies text::is_space(#[trigger] b[i]) by {
            assert(b[i] == a[i + 1]);
        }
        assert(text::is_space(a[0]));
        assert((a + s).skip(1) =~= b + s);
        lemma_trim_start(b, s);
    }
}

proof fn lemma_trim_end(s: Seq<char>, b: Seq<char>)
    requires
        is_blank(b),
    ensures
        text::trim_end(s + b) == text::trim_end(s),
    decreases b.len(),
{
    if b.len() == 0 {
        assert(s + b =~= s);
    } else {
        assert(text::is_space(b[b.len() - 1]));
        assert((s + b).drop_last() =~= s + b.drop_last());
        lemma_trim_end(s, b.drop_last());
    }
}

/// Trimming takes the white space from both ends, and nothing else.
pub proof fn law_trimming(a: Seq<char>, s: Seq<char>, b: Seq<char>)
    requires
        is_blank(a),
        is_blank(b),
        s.len() > 0 ==> !text::is_space(s[0]) && !text::is_space(s.last()),
    ensures
        text::trimmed(a + s + b) == s,
{
    assert(a + s + b =~= a + (s + b));
    lemma_trim_start(a, s + b);
    if s.len() > 0 {
        assert(text::trim_start(s + b) == s + b);
    } else {
        assert(s + b =~= b);
        lemma_trim_start(b, Seq::empty());
        assert(b + Seq::<char>::empty() =~= b);
        assert(text::trim_start(Seq::empty()) =~= Seq::empty());
        assert(s =~= Seq::empty());
    }
    lemma_trim_end(s, b);
}

/// What follows a prefix is what was put behind it.
pub proof fn law_prefix(p: Seq<char>, r: Seq<char>, s: Seq<char>)
    ensures
        text::after_prefix(p + r, p) == Some(r),
        text::after_prefix(s, p) is Some ==> s == p + text::after_prefix(s, p).unwrap(),
{
    assert(p.is_prefix_of(p + r));
    assert((p + r).skip(p.len() as int) =~= r);
    if text::after_prefix(s, p) is Some {
        assert(s =~= p + s.skip(p.len() as int));
    }
}

/// A text is cut at the first separator, and not at all where there is none.
/// Its pieces are what stands between the separators.
pub proof fn law_splitting(a: Seq<char>, b: Seq<char>, sep: char)
    requires
        forall|i: int| 0 <= i < a.len() ==> a[i] != sep,
    ensures
        text::cut(a + (seq![sep] + b), sep) == Some((a, b)),
        text::cut(a, sep) is None,
        text::pieces(a + (seq![sep] + b), sep) == seq![a] + text::pieces(b, sep),
        text::pieces(a, sep) == seq![a],
{
    text::lemma_pieces_cons(a, b, sep);
}

/// Words are what any white space sets apart, however much of it there is.
pub proof fn law_words(w: Seq<char>, c: char, s: Seq<char>)
    requires
        w.len() > 0,
        forall|i: int| 0 <= i < w.len() ==> !text::is_space(#[trigger] w[i]),
        text::is_space(c),
    ensures
        text::words(w + (seq![c] + s)) == seq![w] + text::words(s),
        text::words(seq![c] + s) == text::words(s),
        text::words(w) == seq![w],
        text::words(Seq::empty()) == Seq::<Seq<char>>::empty(),
{
    let t = w + (seq![c] + s);
    assert(!text::is_space(w[0]));
    assert(text::trim_start(t) == t);
    text::lemma_word_len_of(w, seq![c] + s);
    assert(t.take(w.len() as int) =~= w);
    assert(t.skip(w.len() as int) =~= seq![c] + s);
    assert((seq![c] + s).skip(1) =~= s);
    assert(text::trim_start(seq![c] + s) == text::trim_start(s));
    assert(text::words(seq![c] + s) == text::words(s));
    assert(text::first_word(t) == Some((w, seq![c] + s)));
    assert(text::words(t) == seq![w] + text::words(seq![c] + s));
    text::lemma_words_one(w);
    assert(text::words(Seq::empty()) =~= Seq::<Seq<char>>::empty());
}

// -- Numbers -----------------------------------------------------------------

/// The value of one digit, and of a digit behind others; a sign in front.
pub proof fn law_numerals(s: Seq<char>, c: char)
    requires
        48 <= c as u32 <= 57,
    ensures
        text::numeral(seq![c]) == Some(c as u32 - 48),
        s.len() > 0 && 48 <= s[0] as u32 <= 57 && text::numeral(s) is Some ==> text::numeral(
            s.push(c),
        ) == Some(10 * text::numeral(s).unwrap() + (c as u32 - 48)) && text::numeral(seq!['-'] + s)
            == Some(-text::numeral(s).unwrap()) && text::numeral(seq!['+'] + s) == text::numeral(s),
{
    assert(seq![c].drop_last() =~= Seq::empty());
    assert(text::digits_value(Seq::empty()) == 0);
    assert(text::is_digits(seq![c]));
    if s.len() > 0 && 48 <= s[0] as u32 <= 57 && text::numeral(s) is Some {
        let t = s.push(c);
        assert forall|i: int| 0 <= i < t.len() implies text::is_digit(t[i]) by {
            if i < s.len() {
                assert(text::is_digit(s[i]));
            }
        }
        assert(t.drop_last() =~= s);
        assert((seq!['-'] + s).skip(1) =~= s);
        assert((seq!['+'] + s).skip(1) =~= s);
    }
}

/// Nothing but digits, behind one sign at most, is a number.
pub proof fn law_only_digits_are_numbers(s: Seq<char>, i: int)
    requires
        text::numeral(s) is Some,
        0 <= i < s.len(),
    ensures
        48 <= s[i] as u32 <= 57 || i == 0 && s.len() > 1 && (s[0] == '-' || s[0] == '+'),
        s.len() > 0,
{
    if s[0] == '-' || s[0] == '+' {
        if i > 0 {
            assert(text::is_digit(s.skip(1)[i - 1]));
        }
    } else {
        assert(text::is_digit(s[i]));
    }
}

/// The empty text is no number.
pub proof fn law_empty_text_is_no_number()
    ensures
        text::numeral(Seq::empty()) is None,
{
}

/// A number is read within a range exactly where it lies there; where nothing
/// negative is wanted, a minus sign is refused too.
pub proof fn law_numbers_in_range(s: Seq<char>, min: int, max: int, n: int)
    ensures
        text::numeral_within(s, min, max) == Some(n) <==> text::numeral(s) == Some(n) && min <= n
            <= max && (min < 0 || s[0] != '-'),
        n >= 1_000_000 ==> text::capped(n) == 1_000_000,
        n <= -1_000_000 ==> text::capped(n) == -1_000_000,
        -1_000_000 <= n <= 1_000_000 ==> text::capped(n) == n,
{
}

proof fn lemma_no_leading_zero(n: nat)
    requires
        n > 0,
    ensures
        text::dec(n)[0] != '0',
        text::dec(n).len() > 0,
    decreases n,
{
    if n >= 10 {
        lemma_no_leading_zero(n / 10);
    }
}

/// A number is written with digits only, without a leading zero, and with a
/// minus sign where it is negative. So it reads back, and no two numbers are
/// written alike.
pub proof fn law_written_numbers(n: int, m: int)
    ensures
        text::numeral(text::dec_int(n)) == Some(n),
        text::dec_int(n) == text::dec_int(m) ==> n == m,
        n > 0 ==> 49 <= text::dec_int(n)[0] as u32 <= 57,
        n < 0 ==> text::dec_int(n)[0] == '-' && 49 <= text::dec_int(n)[1] as u32 <= 57,
        text::dec_int(0) == seq!['0'],
        n >= 0 ==> text::dec_int(n) == text::dec(n as nat),
{
    text::law_written_number_reads_back(n);
    text::law_written_number_reads_back(m);
    if n > 0 {
        lemma_no_leading_zero(n as nat);
        text::lemma_dec_digits(n as nat);
        assert(text::is_digit(text::dec(n as nat)[0]));
    }
    if n < 0 {
        lemma_no_leading_zero((-n) as nat);
        text::lemma_dec_digits((-n) as nat);
        assert(text::is_digit(text::dec((-n) as nat)[0]));
        assert(text::dec_int(n)[1] == text::dec((-n) as nat)[0]);
    }
}

/// Two digits, with a leading zero where one would do.
pub proof fn law_two_digits(n: nat)
    requires
        n < 100,
    ensures
        text::dec2(n).len() == 2,
        text::dec2(n)[0] as u32 == 48 + n / 10,
        text::dec2(n)[1] as u32 == 48 + n % 10,
{
    reveal_with_fuel(text::dec, 2);
}

/// A list of numbers has a separator before every number but the first.
pub proof fn law_joined_numbers(ns: Seq<u8>, n: u8, sep: Seq<char>)
    ensures
        text::joined(Seq::empty(), sep) == Seq::<char>::empty(),
        text::joined(seq![n], sep) == text::dec_int(n as int),
        ns.len() > 0 ==> text::joined(ns.push(n), sep) == text::joined(ns, sep) + sep
            + text::dec_int(n as int),
{
    assert(ns.push(n).drop_last() =~= ns);
}

/// Truth values in words.
pub proof fn law_truth_values()
    ensures
        text::bool_text(true) == "true"@,
        text::bool_text(false) == "false"@,
{
}

} // verus!
