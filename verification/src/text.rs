//! Reading and writing of plain text: trimming, splitting, numerals.
use vstd::prelude::*;
use vstd::string::*;
use vstd::utf8::*;

verus! {

/// Unicode white space.
pub open spec fn is_space(c: char) -> bool {
    ||| '\u{9}' <= c <= '\u{d}'
    ||| c == '\u{20}'
    ||| c == '\u{85}'
    ||| c == '\u{a0}'
    ||| c == '\u{1680}'
    ||| '\u{2000}' <= c <= '\u{200a}'
    ||| c == '\u{2028}'
    ||| c == '\u{2029}'
    ||| c == '\u{202f}'
    ||| c == '\u{205f}'
    ||| c == '\u{3000}'
}

pub(crate) fn space(c: char) -> (r: bool)
    ensures
        r == is_space(c),
{
    ('\u{9}' <= c && c <= '\u{d}') || c == '\u{20}' || c == '\u{85}' || c == '\u{a0}' || c
        == '\u{1680}' || ('\u{2000}' <= c && c <= '\u{200a}') || c == '\u{2028}' || c == '\u{2029}'
        || c == '\u{202f}' || c == '\u{205f}' || c == '\u{3000}'
}

/// The characters of `s`.
pub(crate) fn chars_of(s: &str) -> (r: Vec<char>)
    ensures
        r@ == s@,
{
    let mut v: Vec<char> = Vec::new();
    for c in it: s.chars()
        invariant
            v@ == s@.take(it.index()),
            it.seq() == s@,
    {
        v.push(c);
        assert(v@ =~= s@.take(it.index() + 1));
    }
    assert(s@.take(s@.len() as int) =~= s@);
    v
}

/// Whether two texts are the same.
pub fn same(a: &str, b: &str) -> (r: bool)
    ensures
        r == (a@ == b@),
{
    let x: Vec<char> = chars_of(a);
    let y: Vec<char> = chars_of(b);
    if x.len() != y.len() {
        return false;
    }
    let mut i: usize = 0;
    while i < x.len()
        invariant
            i <= x@.len(),
            x@.len() == y@.len(),
            x@ == a@,
            y@ == b@,
            forall|j: int| 0 <= j < i ==> x@[j] == y@[j],
        decreases x@.len() - i,
    {
        if x[i] != y[i] {
            assert(a@[i as int] != b@[i as int]);
            return false;
        }
        i = i + 1;
    }
    assert(a@ =~= b@);
    true
}

// -- Trimming ----------------------------------------------------------------

/// `s` without white space at its front.
pub open spec fn trim_start(s: Seq<char>) -> Seq<char>
    decreases s.len(),
{
    if s.len() > 0 && is_space(s[0]) {
        trim_start(s.skip(1))
    } else {
        s
    }
}

/// `s` without white space at its end.
pub open spec fn trim_end(s: Seq<char>) -> Seq<char>
    decreases s.len(),
{
    if s.len() > 0 && is_space(s.last()) {
        trim_end(s.drop_last())
    } else {
        s
    }
}

/// `s` without white space at either end.
pub open spec fn trimmed(s: Seq<char>) -> Seq<char> {
    trim_end(trim_start(s))
}

/// `text` without white space at either end.
pub fn trim(text: &str) -> (r: &str)
    ensures
        r@ == trimmed(text@),
{
    let v: Vec<char> = chars_of(text);
    let mut i: usize = 0;
    let ghost s = text@;
    assert(s.skip(0) =~= s);
    while i < v.len() && space(v[i])
        invariant
            v@ == s,
            i <= s.len(),
            trim_start(s.skip(i as int)) == trim_start(s),
        decreases s.len() - i,
    {
        assert(s.skip(i as int).skip(1) =~= s.skip(i + 1));
        i = i + 1;
    }
    let ghost t = s.skip(i as int);
    assert(trim_start(s) == t);
    let mut j: usize = v.len();
    assert(s.subrange(i as int, j as int) =~= t);
    while j > i && space(v[j - 1])
        invariant
            v@ == s,
            i <= j <= s.len(),
            trim_end(s.subrange(i as int, j as int)) == trim_end(t),
        decreases j,
    {
        assert(s.subrange(i as int, j as int).drop_last() =~= s.subrange(i as int, j - 1));
        j = j - 1;
    }
    text.substring_char(i, j)
}

// -- Splitting ---------------------------------------------------------------

/// What follows `prefix` in `s`.
pub open spec fn after_prefix(s: Seq<char>, prefix: Seq<char>) -> Option<Seq<char>> {
    if prefix.is_prefix_of(s) {
        Some(s.skip(prefix.len() as int))
    } else {
        None
    }
}

/// What follows `prefix` in `text`.
pub fn strip_prefix<'a>(text: &'a str, prefix: &str) -> (r: Option<&'a str>)
    ensures
        match r {
            Some(rest) => after_prefix(text@, prefix@) == Some(rest@),
            None => after_prefix(text@, prefix@) is None,
        },
{
    let n: usize = prefix.unicode_len();
    let m: usize = text.unicode_len();
    if n > m {
        return None;
    }
    if same(text.substring_char(0, n), prefix) {
        assert(prefix@.is_prefix_of(text@));
        Some(text.substring_char(n, m))
    } else {
        None
    }
}

/// What stands before and behind the first `sep` in `s`.
pub open spec fn cut(s: Seq<char>, sep: char) -> Option<(Seq<char>, Seq<char>)>
    decreases s.len(),
{
    if s.len() == 0 {
        None
    } else if s[0] == sep {
        Some((Seq::empty(), s.skip(1)))
    } else {
        match cut(s.skip(1), sep) {
            Some((a, b)) => Some((seq![s[0]] + a, b)),
            None => None,
        }
    }
}

proof fn lemma_cut(s: Seq<char>, sep: char, i: int)
    requires
        0 <= i <= s.len(),
        forall|j: int| 0 <= j < i ==> s[j] != sep,
        i < s.len() ==> s[i] == sep,
    ensures
        i < s.len() ==> cut(s, sep) == Some((s.take(i), s.skip(i + 1))),
        i == s.len() ==> cut(s, sep) is None,
    decreases s.len(),
{
    if s.len() > 0 && i > 0 {
        let t = s.skip(1);
        assert forall|j: int| 0 <= j < i - 1 implies t[j] != sep by {
            assert(t[j] == s[j + 1]);
        }
        lemma_cut(t, sep, i - 1);
        assert(i < s.len() ==> seq![s[0]] + t.take(i - 1) =~= s.take(i));
        assert(i < s.len() ==> t.skip(i) =~= s.skip(i + 1));
    } else if s.len() > 0 {
        assert(s.take(0) =~= Seq::empty());
    }
}

/// What stands before and behind the first `sep` in `text`.
pub fn split_once(text: &str, sep: char) -> (r: Option<(&str, &str)>)
    ensures
        match r {
            Some((a, b)) => cut(text@, sep) == Some((a@, b@)),
            None => cut(text@, sep) is None,
        },
{
    let v: Vec<char> = chars_of(text);
    let mut i: usize = 0;
    while i < v.len() && v[i] != sep
        invariant
            v@ == text@,
            i <= v@.len(),
            forall|j: int| 0 <= j < i ==> v@[j] != sep,
        decreases v@.len() - i,
    {
        i = i + 1;
    }
    proof {
        lemma_cut(text@, sep, i as int);
    }
    if i < v.len() {
        let a = text.substring_char(0, i);
        let b = text.substring_char(i + 1, v.len());
        assert(a@ =~= text@.take(i as int));
        assert(b@ =~= text@.skip(i + 1));
        Some((a, b))
    } else {
        None
    }
}

proof fn lemma_cut_shortens(s: Seq<char>, sep: char)
    ensures
        cut(s, sep) matches Some((a, b)) ==> a.len() + b.len() + 1 == s.len(),
    decreases s.len(),
{
    if s.len() > 0 {
        lemma_cut_shortens(s.skip(1), sep);
    }
}

/// The pieces of `s` between the occurrences of `sep`.
pub open spec fn pieces(s: Seq<char>, sep: char) -> Seq<Seq<char>>
    decreases s.len(),
    via pieces_shrink
{
    match cut(s, sep) {
        None => seq![s],
        Some((a, b)) => seq![a] + pieces(b, sep),
    }
}

#[via_fn]
proof fn pieces_shrink(s: Seq<char>, sep: char) {
    lemma_cut_shortens(s, sep);
}

/// The texts of a list of slices.
pub open spec fn texts(list: Seq<&str>) -> Seq<Seq<char>> {
    list.map_values(|t: &str| t@)
}

/// The pieces of `text` between the occurrences of `sep`.
pub fn split(text: &str, sep: char) -> (r: Vec<&str>)
    ensures
        texts(r@) == pieces(text@, sep),
{
    let mut out: Vec<&str> = Vec::new();
    let mut rest = text;
    assert(texts(out@) + pieces(rest@, sep) =~= pieces(text@, sep));
    loop
        invariant
            texts(out@) + pieces(rest@, sep) == pieces(text@, sep),
        decreases rest@.len(),
    {
        proof {
            lemma_cut_shortens(rest@, sep);
        }
        let ghost before = texts(out@);
        match split_once(rest, sep) {
            None => {
                out.push(rest);
                assert(texts(out@) =~= before + seq![rest@]);
                return out;
            },
            Some((piece, behind)) => {
                out.push(piece);
                assert(texts(out@) + pieces(behind@, sep) =~= before + (seq![piece@] + pieces(
                    behind@,
                    sep,
                )));
                rest = behind;
            },
        }
    }
}

/// Length of the word at the front of `s`.
pub open spec fn word_len(s: Seq<char>) -> nat
    decreases s.len(),
{
    if s.len() == 0 || is_space(s[0]) {
        0
    } else {
        1 + word_len(s.skip(1))
    }
}

/// The first word of `s` and what follows it.
pub open spec fn first_word(s: Seq<char>) -> Option<(Seq<char>, Seq<char>)> {
    let t = trim_start(s);
    let n = word_len(t) as int;
    if t.len() == 0 {
        None
    } else {
        Some((t.take(n), t.skip(n)))
    }
}

proof fn lemma_first_word_shortens(s: Seq<char>)
    ensures
        trim_start(s).len() <= s.len(),
        word_len(trim_start(s)) <= trim_start(s).len(),
        first_word(s) matches Some((w, rest)) ==> rest.len() < s.len() && w.len() > 0,
    decreases s.len(),
{
    let t = trim_start(s);
    lemma_word_len(t);
    if s.len() > 0 && is_space(s[0]) {
        lemma_first_word_shortens(s.skip(1));
    }
}

proof fn lemma_word_len(s: Seq<char>)
    ensures
        word_len(s) <= s.len(),
    decreases s.len(),
{
    if s.len() > 0 {
        lemma_word_len(s.skip(1));
    }
}

/// The words of `s`: what white space separates.
pub open spec fn words(s: Seq<char>) -> Seq<Seq<char>>
    decreases s.len(),
    via words_shrink
{
    match first_word(s) {
        None => Seq::empty(),
        Some((w, rest)) => seq![w] + words(rest),
    }
}

#[via_fn]
proof fn words_shrink(s: Seq<char>) {
    lemma_first_word_shortens(s);
}

/// The first word of `text` and what follows it.
pub fn next_word(text: &str) -> (r: Option<(&str, &str)>)
    ensures
        match r {
            Some((w, rest)) => first_word(text@) == Some((w@, rest@)) && rest@.len() < text@.len(),
            None => first_word(text@) is None,
        },
{
    let v: Vec<char> = chars_of(text);
    let ghost s = text@;
    let mut i: usize = 0;
    assert(s.skip(0) =~= s);
    while i < v.len() && space(v[i])
        invariant
            v@ == s,
            i <= s.len(),
            trim_start(s.skip(i as int)) == trim_start(s),
        decreases s.len() - i,
    {
        assert(s.skip(i as int).skip(1) =~= s.skip(i + 1));
        i = i + 1;
    }
    let ghost t = s.skip(i as int);
    assert(trim_start(s) == t);
    let mut j: usize = i;
    while j < v.len() && !space(v[j])
        invariant
            v@ == s,
            i <= j <= s.len(),
            word_len(t) == (j - i) + word_len(s.skip(j as int)),
            t == s.skip(i as int),
        decreases s.len() - j,
    {
        assert(s.skip(j as int).skip(1) =~= s.skip(j + 1));
        j = j + 1;
    }
    assert(word_len(t) == j - i);
    proof {
        lemma_first_word_shortens(s);
    }
    if i == v.len() {
        return None;
    }
    let w = text.substring_char(i, j);
    let rest = text.substring_char(j, v.len());
    assert(w@ =~= t.take(j - i));
    assert(rest@ =~= t.skip(j - i));
    Some((w, rest))
}

// -- Numerals ----------------------------------------------------------------

/// Whether `c` is a decimal digit.
pub open spec fn is_digit(c: char) -> bool {
    '0' <= c <= '9'
}

/// The number that a sequence of decimal digits stands for.
pub open spec fn digits_value(s: Seq<char>) -> nat
    decreases s.len(),
{
    if s.len() == 0 {
        0
    } else {
        digits_value(s.drop_last()) * 10 + (s.last() as u32 - '0' as u32) as nat
    }
}

/// Whether `s` is made of decimal digits, at least one.
pub open spec fn is_digits(s: Seq<char>) -> bool {
    s.len() > 0 && forall|i: int| 0 <= i < s.len() ==> is_digit(s[i])
}

/// The integer that `s` spells in decimal, with an optional sign.
pub open spec fn numeral(s: Seq<char>) -> Option<int> {
    if s.len() > 0 && s[0] == '-' {
        if is_digits(s.skip(1)) {
            Some(-(digits_value(s.skip(1)) as int))
        } else {
            None
        }
    } else if s.len() > 0 && s[0] == '+' {
        if is_digits(s.skip(1)) {
            Some(digits_value(s.skip(1)) as int)
        } else {
            None
        }
    } else if is_digits(s) {
        Some(digits_value(s) as int)
    } else {
        None
    }
}

/// The integer that `s` spells, where it lies within `min..=max`. A minus sign
/// is no part of an unsigned numeral.
pub open spec fn numeral_within(s: Seq<char>, min: int, max: int) -> Option<int> {
    match numeral(s) {
        Some(n) => if min <= n <= max && (min < 0 || s[0] != '-') {
            Some(n)
        } else {
            None
        },
        None => None,
    }
}

/// Every number beyond is read as this one.
pub const NUMERAL_CAP: i32 = 1_000_000;

/// `n`, brought into `-NUMERAL_CAP..=NUMERAL_CAP`.
pub open spec fn capped(n: int) -> int {
    if n > NUMERAL_CAP {
        NUMERAL_CAP as int
    } else if n < -NUMERAL_CAP {
        -NUMERAL_CAP as int
    } else {
        n
    }
}

/// Read an integer. Numbers too large to matter are capped.
pub fn read_numeral(text: &str) -> (r: Option<i32>)
    ensures
        match r {
            Some(v) => numeral(text@) is Some && v == capped(numeral(text@).unwrap()),
            None => numeral(text@) is None,
        },
{
    let v: Vec<char> = chars_of(text);
    if v.len() == 0 {
        return None;
    }
    let negative: bool = v[0] == '-';
    let from: usize = if negative || v[0] == '+' { 1 } else { 0 };
    let ghost d = text@.skip(from as int);
    assert(from == 0 ==> d =~= text@);
    if v.len() == from {
        return None;
    }
    let mut n: i32 = 0;
    let mut i: usize = from;
    assert(d.take(0) =~= Seq::empty());
    while i < v.len()
        invariant
            v@ == text@,
            d == text@.skip(from as int),
            from <= i <= v@.len(),
            from <= 1,
            forall|j: int| 0 <= j < i - from ==> is_digit(d[j]),
            0 <= n <= NUMERAL_CAP,
            n == capped(digits_value(d.take(i - from)) as int),
            negative == (text@[0] == '-'),
            from == (if negative || text@[0] == '+' { 1int } else { 0 }),
            text@.len() > 0,
            from == 0 ==> d == text@,
        decreases v@.len() - i,
    {
        let c: char = v[i];
        if c < '0' || c > '9' {
            assert(!is_digit(d[i - from]));
            return None;
        }
        let x: i32 = (c as u32 - '0' as u32) as i32;
        assert(d.take(i - from + 1).drop_last() =~= d.take(i - from));
        n = if n * 10 + x > NUMERAL_CAP { NUMERAL_CAP } else { n * 10 + x };
        i = i + 1;
    }
    assert(d.take(d.len() as int) =~= d);
    if negative {
        Some(-n)
    } else {
        Some(n)
    }
}

/// Read an integer within `min..=max`.
pub fn parse_within(text: &str, min: i32, max: i32) -> (r: Option<i32>)
    requires
        -NUMERAL_CAP < min <= max < NUMERAL_CAP,
    ensures
        match r {
            Some(v) => numeral_within(text@, min as int, max as int) == Some(v as int),
            None => numeral_within(text@, min as int, max as int) is None,
        },
{
    match read_numeral(text) {
        None => None,
        Some(v) => {
            if v < min || v > max {
                None
            } else if min >= 0 && text.get_char(0) == '-' {
                None
            } else {
                Some(v)
            }
        },
    }
}

/// Read a `u8`.
pub fn parse_u8(text: &str) -> (r: Option<u8>)
    ensures
        match r {
            Some(v) => numeral_within(text@, 0, 255) == Some(v as int),
            None => numeral_within(text@, 0, 255) is None,
        },
{
    match parse_within(text, 0, 255) {
        Some(v) => Some(v as u8),
        None => None,
    }
}

/// Read an `i8`.
pub fn parse_i8(text: &str) -> (r: Option<i8>)
    ensures
        match r {
            Some(v) => numeral_within(text@, -128, 127) == Some(v as int),
            None => numeral_within(text@, -128, 127) is None,
        },
{
    match parse_within(text, -128, 127) {
        Some(v) => Some(v as i8),
        None => None,
    }
}

// -- Writing numbers ---------------------------------------------------------

/// The decimal digit of `d`.
pub open spec fn digit(d: nat) -> char {
    ('0' as u32 + d) as char
}

/// `n` in decimal.
pub open spec fn dec(n: nat) -> Seq<char>
    decreases n,
{
    if n < 10 {
        seq![digit(n)]
    } else {
        dec(n / 10).push(digit(n % 10))
    }
}

/// `n` in decimal, with a minus sign where it is negative.
pub open spec fn dec_int(n: int) -> Seq<char> {
    if n < 0 {
        seq!['-'] + dec((-n) as nat)
    } else {
        dec(n as nat)
    }
}

/// `n` in decimal with at least two digits.
pub open spec fn dec2(n: nat) -> Seq<char> {
    if n < 10 {
        seq!['0'] + dec(n)
    } else {
        dec(n)
    }
}

fn digit_text(d: u32) -> (r: &'static str)
    requires
        d < 10,
    ensures
        r@ == seq![digit(d as nat)],
{
    proof {
        reveal_strlit("0");
        reveal_strlit("1");
        reveal_strlit("2");
        reveal_strlit("3");
        reveal_strlit("4");
        reveal_strlit("5");
        reveal_strlit("6");
        reveal_strlit("7");
        reveal_strlit("8");
        reveal_strlit("9");
    }
    let r = match d {
        0 => "0",
        1 => "1",
        2 => "2",
        3 => "3",
        4 => "4",
        5 => "5",
        6 => "6",
        7 => "7",
        8 => "8",
        _ => "9",
    };
    assert(r@ =~= seq![digit(d as nat)]);
    r
}

/// Append `n` in decimal.
pub fn push_dec(out: &mut String, n: u32)
    ensures
        final(out)@ == old(out)@ + dec(n as nat),
    decreases n,
{
    if n >= 10 {
        push_dec(out, n / 10);
    }
    let ghost before = out@;
    out.append(digit_text(n % 10));
    assert(out@ =~= old(out)@ + dec(n as nat));
}

/// Append `n` in decimal, with a minus sign where it is negative.
pub fn push_dec_int(out: &mut String, n: i32)
    requires
        n > i32::MIN,
    ensures
        final(out)@ == old(out)@ + dec_int(n as int),
{
    if n < 0 {
        proof {
            reveal_strlit("-");
        }
        out.append("-");
        push_dec(out, (-n) as u32);
        assert(out@ =~= old(out)@ + dec_int(n as int));
    } else {
        push_dec(out, n as u32);
    }
}

/// Append `n` in decimal with at least two digits.
pub fn push_dec2(out: &mut String, n: u32)
    ensures
        final(out)@ == old(out)@ + dec2(n as nat),
{
    if n < 10 {
        proof {
            reveal_strlit("0");
        }
        out.append("0");
    }
    push_dec(out, n);
    assert(out@ =~= old(out)@ + dec2(n as nat));
}

/// A truth value in words.
pub open spec fn bool_text(b: bool) -> Seq<char> {
    if b {
        "true"@
    } else {
        "false"@
    }
}

/// Append a truth value.
pub fn push_bool(out: &mut String, b: bool)
    ensures
        final(out)@ == old(out)@ + bool_text(b),
{
    out.append(if b { "true" } else { "false" });
}

/// Numbers in decimal with `sep` between them.
pub open spec fn joined(ns: Seq<u8>, sep: Seq<char>) -> Seq<char>
    decreases ns.len(),
{
    if ns.len() == 0 {
        Seq::empty()
    } else if ns.len() == 1 {
        dec(ns[0] as nat)
    } else {
        joined(ns.drop_last(), sep) + sep + dec(ns.last() as nat)
    }
}

/// Append numbers in decimal with `sep` between them.
pub fn push_joined(out: &mut String, ns: &[u8], sep: &str)
    ensures
        final(out)@ == old(out)@ + joined(ns@, sep@),
{
    let mut i: usize = 0;
    assert(ns@.take(0) =~= Seq::empty());
    assert(out@ =~= old(out)@ + joined(ns@.take(0), sep@));
    while i < ns.len()
        invariant
            i <= ns@.len(),
            out@ == old(out)@ + joined(ns@.take(i as int), sep@),
        decreases ns@.len() - i,
    {
        let ghost head = ns@.take(i + 1);
        assert(head.drop_last() =~= ns@.take(i as int));
        if i > 0 {
            out.append(sep);
        }
        push_dec(out, ns[i] as u32);
        assert(out@ =~= old(out)@ + joined(head, sep@));
        i = i + 1;
    }
    assert(ns@.take(ns@.len() as int) =~= ns@);
}

proof fn lemma_dec_reads_back(n: nat)
    ensures
        is_digits(dec(n)),
        digits_value(dec(n)) == n,
    decreases n,
{
    if n < 10 {
        assert(dec(n).drop_last() =~= Seq::empty());
        assert(digits_value(Seq::empty()) == 0);
        assert(dec(n).last() as u32 == '0' as u32 + n);
    } else {
        lemma_dec_reads_back(n / 10);
        assert(dec(n).drop_last() =~= dec(n / 10));
        assert(dec(n).last() as u32 == '0' as u32 + n % 10);
    }
}

/// A number that has been written reads back as itself.
pub proof fn law_written_number_reads_back(n: int)
    ensures
        numeral(dec_int(n)) == Some(n),
{
    if n < 0 {
        lemma_dec_reads_back((-n) as nat);
        assert(dec_int(n).skip(1) =~= dec((-n) as nat));
    } else {
        lemma_dec_reads_back(n as nat);
        assert(is_digit(dec(n as nat)[0]));
    }
}

// -- Properties of words and pieces ------------------------------------------

/// Whether `s` is one word.
pub open spec fn is_word(s: Seq<char>) -> bool {
    s.len() > 0 && forall|i: int| 0 <= i < s.len() ==> !is_space(#[trigger] s[i])
}

/// A number in decimal is one word.
pub(crate) proof fn lemma_dec_is_word(n: int)
    ensures
        is_word(dec_int(n)),
{
    if n < 0 {
        lemma_dec_reads_back((-n) as nat);
    } else {
        lemma_dec_reads_back(n as nat);
    }
    assert forall|i: int| 0 <= i < dec_int(n).len() implies !is_space(#[trigger] dec_int(n)[i]) by {
        if n < 0 {
            assert(i > 0 ==> is_digit(dec((-n) as nat)[i - 1]));
        } else {
            assert(is_digit(dec(n as nat)[i]));
        }
    }
}

/// The digits of a number in decimal.
pub(crate) proof fn lemma_dec_digits(n: nat)
    ensures
        is_digits(dec(n)),
{
    lemma_dec_reads_back(n);
}

/// What neither begins nor ends with white space is not trimmed.
pub(crate) proof fn lemma_not_trimmed(s: Seq<char>)
    requires
        s.len() > 0,
        !is_space(s[0]),
        !is_space(s.last()),
    ensures
        trimmed(s) == s,
{
}

/// A number in decimal does not begin with a minus sign unless it is negative,
/// and reads back.
pub(crate) proof fn lemma_number(n: int, min: int, max: int)
    requires
        min <= n <= max,
        min < 0 || n >= 0,
    ensures
        numeral_within(dec_int(n), min, max) == Some(n),
        is_word(dec_int(n)),
        trimmed(dec_int(n)) == dec_int(n),
        n >= 0 ==> is_digit(dec_int(n)[0]),
{
    law_written_number_reads_back(n);
    lemma_dec_is_word(n);
    let d = dec_int(n);
    assert(!is_space(d[0]));
    assert(!is_space(d[d.len() - 1]));
    lemma_not_trimmed(d);
    if n >= 0 {
        lemma_dec_digits(n as nat);
    }
}

pub(crate) proof fn lemma_word_len_of(w: Seq<char>, rest: Seq<char>)
    requires
        forall|i: int| 0 <= i < w.len() ==> !is_space(#[trigger] w[i]),
        rest.len() > 0 ==> is_space(rest[0]),
    ensures
        word_len(w + rest) == w.len(),
    decreases w.len(),
{
    if w.len() > 0 {
        let v = w.skip(1);
        assert forall|i: int| 0 <= i < v.len() implies !is_space(#[trigger] v[i]) by {
            assert(v[i] == w[i + 1]);
        }
        lemma_word_len_of(v, rest);
        assert((w + rest).skip(1) =~= v + rest);
        assert(!is_space(w[0]));
    } else {
        assert(w + rest =~= rest);
    }
}

/// White space in front of words does not matter.
pub(crate) proof fn lemma_words_skip_blank(s: Seq<char>)
    ensures
        words(seq![' '] + s) == words(s),
        trim_start(seq![' '] + s) == trim_start(s),
{
    assert((seq![' '] + s).skip(1) =~= s);
}

/// A word in front, set off by a blank, is the first word.
pub(crate) proof fn lemma_words_cons(w: Seq<char>, rest: Seq<char>)
    requires
        is_word(w),
    ensures
        words(w + (seq![' '] + rest)) == seq![w] + words(rest),
{
    let t = w + (seq![' '] + rest);
    assert(!is_space(w[0]));
    assert(trim_start(t) == t);
    lemma_word_len_of(w, seq![' '] + rest);
    assert(t.take(w.len() as int) =~= w);
    assert(t.skip(w.len() as int) =~= seq![' '] + rest);
    lemma_words_skip_blank(rest);
}

/// A single word.
pub(crate) proof fn lemma_words_one(w: Seq<char>)
    requires
        is_word(w),
    ensures
        words(w) == seq![w],
{
    assert(!is_space(w[0]));
    assert(trim_start(w) == w);
    lemma_word_len_of(w, Seq::empty());
    assert(w + Seq::empty() =~= w);
    assert(w.take(w.len() as int) =~= w);
    assert(w.skip(w.len() as int) =~= Seq::empty());
    assert(words(Seq::empty()) =~= Seq::empty());
    assert(words(w) =~= seq![w]);
}

/// A piece in front, set off by the separator, is the first piece.
pub(crate) proof fn lemma_pieces_cons(a: Seq<char>, b: Seq<char>, sep: char)
    requires
        forall|i: int| 0 <= i < a.len() ==> a[i] != sep,
    ensures
        cut(a + (seq![sep] + b), sep) == Some((a, b)),
        pieces(a + (seq![sep] + b), sep) == seq![a] + pieces(b, sep),
        cut(a, sep) is None,
        pieces(a, sep) == seq![a],
{
    let t = a + (seq![sep] + b);
    lemma_cut(t, sep, a.len() as int);
    assert(t.take(a.len() as int) =~= a);
    assert(t.skip(a.len() as int + 1) =~= b);
    lemma_cut(a, sep, a.len() as int);
}

// -- UTF-8 -------------------------------------------------------------------

/// `core::str::from_utf8`: the text that the bytes encode, exactly when they
/// are valid UTF-8.
#[verifier::external_body]
pub(crate) fn from_utf8(bytes: &[u8]) -> (r: Option<&str>)
    ensures
        match r {
            Some(t) => valid_utf8(bytes@) && t.spec_bytes() == bytes@,
            None => !valid_utf8(bytes@),
        },
{
    core::str::from_utf8(bytes).ok()
}

/// Encoding goes character by character.
pub(crate) proof fn lemma_encode_concat(a: Seq<char>, b: Seq<char>)
    ensures
        encode_utf8(a + b) == encode_utf8(a) + encode_utf8(b),
    decreases a.len(),
{
    if a.len() == 0 {
        assert(a + b =~= b);
        assert(encode_utf8(a) =~= Seq::empty());
        assert(Seq::<u8>::empty() + encode_utf8(b) =~= encode_utf8(b));
    } else {
        lemma_encode_concat(a.drop_first(), b);
        assert((a + b).drop_first() =~= a.drop_first() + b);
        assert(encode_utf8(a + b) =~= encode_utf8(a) + encode_utf8(b));
    }
}

} // verus!
