//! Text helpers shared by the name parsers and the formatters: strings are
//! reasoned about through their character sequences (`s@`).
use vstd::prelude::*;

verus! {

broadcast use vstd::string::group_string_axioms;

/// The characters of a string slice, in order.
pub fn chars_of(s: &str) -> (r: Vec<char>)
    ensures
        r@ == s@,
{
    let mut r: Vec<char> = Vec::new();
    for c in it: s.chars()
        invariant
            r@ == it.seq().take(it.index() as int),
    {
        r.push(c);
    }
    r
}

/// Appends one character to a string (`String::push`).
#[verifier::external_body]
pub(crate) fn push_char(s: &mut String, c: char)
    ensures
        final(s)@ == old(s)@.push(c),
{
    s.push(c);
}

/// Appends a string slice to a string.
pub fn push_str(s: &mut String, t: &str)
    ensures
        final(s)@ == old(s)@ + t@,
{
    s.append(t);
}

/// A new string holding a copy of the characters of `s`.
pub fn copy_str(s: &str) -> (r: String)
    ensures
        r@ == s@,
{
    s.to_owned()
}

/// Builds a string from a sequence of characters.
pub fn string_from_chars(v: &[char]) -> (r: String)
    ensures
        r@ == v@,
{
    let mut r = String::new();
    let mut i: usize = 0;
    while i < v.len()
        invariant
            i <= v@.len(),
            r@ == v@.take(i as int),
        decreases v@.len() - i,
    {
        push_char(&mut r, v[i]);
        i = i + 1;
        assert(r@ =~= v@.take(i as int));
    }
    assert(v@.take(v@.len() as int) =~= v@);
    r
}

/// Whether two character vectors hold the same characters.
pub fn chars_eq(a: &[char], b: &[char]) -> (r: bool)
    ensures
        r == (a@ == b@),
{
    if a.len() != b.len() {
        return false;
    }
    let mut i: usize = 0;
    while i < a.len()
        invariant
            a@.len() == b@.len(),
            i <= a@.len(),
            forall|j: int| 0 <= j < i ==> a@[j] == b@[j],
        decreases a@.len() - i,
    {
        if a[i] != b[i] {
            return false;
        }
        i = i + 1;
    }
    assert(a@ =~= b@);
    true
}

/// Whether two string slices hold the same characters.
pub fn str_eq(a: &str, b: &str) -> (r: bool)
    ensures
        r == (a@ == b@),
{
    let a = chars_of(a);
    let b = chars_of(b);
    chars_eq(a.as_slice(), b.as_slice())
}

/// `parts` written one after the other with `sep` between neighbours.
pub open spec fn join(parts: Seq<Seq<char>>, sep: Seq<char>) -> Seq<char>
    decreases parts.len(),
{
    if parts.len() == 0 {
        Seq::empty()
    } else if parts.len() == 1 {
        parts[0]
    } else {
        join(parts.drop_last(), sep) + sep + parts.last()
    }
}

/// The character of a decimal digit.
pub open spec fn digit_char(d: nat) -> char {
    if d == 0 { '0' }
    else if d == 1 { '1' }
    else if d == 2 { '2' }
    else if d == 3 { '3' }
    else if d == 4 { '4' }
    else if d == 5 { '5' }
    else if d == 6 { '6' }
    else if d == 7 { '7' }
    else if d == 8 { '8' }
    else { '9' }
}

/// The decimal notation of `n`, without leading zeros ("0" for zero).
pub open spec fn decimal(n: nat) -> Seq<char>
    decreases n,
{
    if n < 10 {
        seq![digit_char(n)]
    } else {
        decimal(n / 10).push(digit_char(n % 10))
    }
}

fn digit_to_char(d: u64) -> (c: char)
    requires
        d < 10,
    ensures
        c == digit_char(d as nat),
{
    if d == 0 { '0' }
    else if d == 1 { '1' }
    else if d == 2 { '2' }
    else if d == 3 { '3' }
    else if d == 4 { '4' }
    else if d == 5 { '5' }
    else if d == 6 { '6' }
    else if d == 7 { '7' }
    else if d == 8 { '8' }
    else { '9' }
}

/// Appends the decimal notation of `n` to `s`.
pub fn push_decimal(s: &mut String, n: u64)
    ensures
        final(s)@ == old(s)@ + decimal(n as nat),
    decreases n,
{
    if n < 10 {
        push_char(s, digit_to_char(n));
        assert(decimal(n as nat) =~= seq![digit_char(n as nat)]);
    } else {
        push_decimal(s, n / 10);
        push_char(s, digit_to_char(n % 10));
    }
}

/// The decimal notation of `n` as a string (`u64::to_string`).
pub fn decimal_string(n: u64) -> (r: String)
    ensures
        r@ == decimal(n as nat),
{
    let mut r = String::new();
    push_decimal(&mut r, n);
    assert(r@ =~= decimal(n as nat));
    r
}

} // verus!

verus! {

/// Whether `c` is in the Unicode property that `\w` names outside ASCII
/// (Alphabetic, Mark, Decimal_Number, Connector_Punctuation, Join_Control).
pub uninterp spec fn unicode_word_char(c: char) -> bool;

/// An ASCII word character: `[0-9A-Za-z_]`.
pub open spec fn ascii_word_char(c: char) -> bool {
    ('0' <= c && c <= '9') || ('A' <= c && c <= 'Z') || ('a' <= c && c <= 'z') || c == '_'
}

/// A character that the pattern `\w` matches.
pub open spec fn is_word_char(c: char) -> bool {
    if (c as u32) < 128 {
        ascii_word_char(c)
    } else {
        unicode_word_char(c)
    }
}

/// `regex_syntax::is_word_character`: whether `c` is matched by `\w`. Its
/// table starts with exactly `0-9`, `A-Z`, `_` and `a-z` below 128; beyond
/// ASCII the result is the table lookup, named `unicode_word_char`.
#[verifier::external_body]
pub(crate) fn word_char(c: char) -> (r: bool)
    ensures
        (c as u32) < 128 ==> r == ascii_word_char(c),
        (c as u32) >= 128 ==> r == unicode_word_char(c),
{
    regex_syntax::is_word_character(c)
}

/// The pieces of `s` between occurrences of `sep`, as `str::split` gives
/// them (an empty text is one empty piece).
pub open spec fn split_on(s: Seq<char>, sep: char) -> Seq<Seq<char>>
    decreases s.len(),
{
    if s.len() == 0 {
        seq![Seq::empty()]
    } else {
        let parts = split_on(s.drop_last(), sep);
        if s.last() == sep {
            parts.push(Seq::empty())
        } else {
            parts.update(parts.len() - 1, parts.last().push(s.last()))
        }
    }
}

pub proof fn lemma_split_on_nonempty(s: Seq<char>, sep: char)
    ensures
        split_on(s, sep).len() >= 1,
    decreases s.len(),
{
    if s.len() > 0 {
        lemma_split_on_nonempty(s.drop_last(), sep);
    }
}

/// Splits a character sequence at every `sep`.
pub fn split_chars(v: &[char], sep: char) -> (r: Vec<Vec<char>>)
    ensures
        r.deep_view() == split_on(v@, sep),
{
    let mut r: Vec<Vec<char>> = Vec::new();
    r.push(Vec::new());
    let mut i: usize = 0;
    proof {
        assert(v@.take(0) =~= Seq::<char>::empty());
        assert(r.deep_view() =~~= split_on(v@.take(0), sep));
    }
    while i < v.len()
        invariant
            i <= v@.len(),
            r.deep_view() == split_on(v@.take(i as int), sep),
            r@.len() >= 1,
        decreases v@.len() - i,
    {
        let c = v[i];
        proof {
            assert(v@.take(i + 1).drop_last() =~= v@.take(i as int));
        }
        if c == sep {
            r.push(Vec::new());
            assert(r.deep_view() =~~= split_on(v@.take(i + 1), sep));
        } else {
            let last = r.len() - 1;
            let mut piece = r.pop().unwrap();
            piece.push(c);
            r.push(piece);
            assert(r.deep_view() =~~= split_on(v@.take(i + 1), sep));
        }
        i = i + 1;
    }
    assert(v@.take(v@.len() as int) =~= v@);
    r
}

} // verus!

verus! {

/// Joining the pieces of a split with the separator gives back the text.
pub proof fn lemma_join_split(s: Seq<char>, sep: char)
    ensures
        join(split_on(s, sep), seq![sep]) == s,
    decreases s.len(),
{
    if s.len() == 0 {
        assert(join(split_on(s, sep), seq![sep]) =~= s);
    } else {
        let init = s.drop_last();
        lemma_join_split(init, sep);
        lemma_split_on_nonempty(init, sep);
        let parts = split_on(init, sep);
        if s.last() == sep {
            let q = parts.push(Seq::<char>::empty());
            assert(q.drop_last() =~= parts);
            assert(join(q, seq![sep]) =~= s);
        } else {
            let q = parts.update(parts.len() - 1, parts.last().push(s.last()));
            if parts.len() == 1 {
                assert(join(q, seq![sep]) =~= s);
            } else {
                assert(q.drop_last() =~= parts.drop_last());
                assert(join(q, seq![sep]) =~= join(parts, seq![sep]).push(s.last()));
                assert(join(q, seq![sep]) =~= s);
            }
        }
    }
}

/// The text of a two-piece split is the first piece, the separator and the
/// second piece.
pub proof fn lemma_split_two(s: Seq<char>, sep: char)
    requires
        split_on(s, sep).len() == 2,
    ensures
        s == split_on(s, sep)[0] + seq![sep] + split_on(s, sep)[1],
{
    lemma_join_split(s, sep);
    let parts = split_on(s, sep);
    assert(parts.drop_last().len() == 1);
    assert(join(parts, seq![sep]) == join(parts.drop_last(), seq![sep]) + seq![sep] + parts.last());
}

} // verus!

verus! {

/// Whether `c` occurs in `v`.
pub fn contains_char(v: &[char], c: char) -> (r: bool)
    ensures
        r == v@.contains(c),
{
    let mut i: usize = 0;
    while i < v.len()
        invariant
            i <= v@.len(),
            forall|j: int| 0 <= j < i ==> v@[j] != c,
        decreases v@.len() - i,
    {
        if v[i] == c {
            assert(v@[i as int] == c);
            return true;
        }
        i = i + 1;
    }
    false
}

} // verus!

verus! {

/// A text without the separator is a single piece.
pub proof fn lemma_split_no_sep(s: Seq<char>, sep: char)
    requires
        !s.contains(sep),
    ensures
        split_on(s, sep) == seq![s],
    decreases s.len(),
{
    if s.len() > 0 {
        let init = s.drop_last();
        assert(!init.contains(sep)) by {
            if init.contains(sep) {
                let k = choose|k: int| 0 <= k < init.len() && init[k] == sep;
                assert(s[k] == sep);
            }
        }
        lemma_split_no_sep(init, sep);
        assert(s[s.len() - 1] != sep);
        assert(init.push(s.last()) =~= s);
        assert(split_on(s, sep) =~= seq![s]);
    } else {
        assert(s =~= Seq::<char>::empty());
        assert(split_on(s, sep) =~= seq![s]);
    }
}

/// Appending text without the separator extends the last piece.
pub proof fn lemma_split_append(p: Seq<char>, b: Seq<char>, sep: char)
    requires
        !b.contains(sep),
    ensures
        split_on(p + b, sep) == split_on(p, sep).update(
            split_on(p, sep).len() - 1,
            split_on(p, sep).last() + b,
        ),
    decreases b.len(),
{
    lemma_split_on_nonempty(p, sep);
    if b.len() == 0 {
        assert(p + b =~= p);
        assert(split_on(p, sep).last() + b =~= split_on(p, sep).last());
        assert(split_on(p, sep).update(split_on(p, sep).len() - 1, split_on(p, sep).last())
            =~= split_on(p, sep));
    } else {
        let bi = b.drop_last();
        assert(!bi.contains(sep)) by {
            if bi.contains(sep) {
                let k = choose|k: int| 0 <= k < bi.len() && bi[k] == sep;
                assert(b[k] == sep);
            }
        }
        lemma_split_append(p, bi, sep);
        assert((p + b).drop_last() =~= p + bi);
        assert(b[b.len() - 1] != sep);
        assert((p + b).last() == b.last());
        lemma_split_on_nonempty(p + bi, sep);
        let pp = split_on(p, sep);
        let qq = split_on(p + bi, sep);
        assert(qq.last() == pp.last() + bi);
        assert((pp.last() + bi).push(b.last()) =~= pp.last() + b);
        assert(split_on(p + b, sep) == qq.update(qq.len() - 1, qq.last().push((p + b).last())));
        assert(split_on(p + b, sep) =~= split_on(p, sep).update(
            split_on(p, sep).len() - 1,
            split_on(p, sep).last() + b,
        ));
    }
}

/// Pieces without the separator, joined by it, split back into themselves.
pub proof fn lemma_split_join(parts: Seq<Seq<char>>, sep: char)
    requires
        parts.len() >= 1,
        forall|i: int| 0 <= i < parts.len() ==> !(#[trigger] parts[i]).contains(sep),
    ensures
        split_on(join(parts, seq![sep]), sep) == parts,
    decreases parts.len(),
{
    if parts.len() == 1 {
        lemma_split_no_sep(parts[0], sep);
        assert(split_on(join(parts, seq![sep]), sep) =~= parts);
    } else {
        let init = parts.drop_last();
        lemma_split_join(init, sep);
        let p = join(init, seq![sep]);
        let ps = p + seq![sep];
        assert(ps.drop_last() =~= p);
        assert(split_on(ps, sep) == split_on(p, sep).push(Seq::empty()));
        lemma_split_append(ps, parts.last(), sep);
        assert(Seq::<char>::empty() + parts.last() =~= parts.last());
        assert(join(parts, seq![sep]) == ps + parts.last());
        assert(split_on(join(parts, seq![sep]), sep) =~= parts);
    }
}

} // verus!

verus! {

/// The strings of `parts` written one after the other with `sep` between
/// neighbours (`[String]::join`).
pub fn join_strings(parts: &Vec<String>, sep: &str) -> (r: String)
    ensures
        r@ == join(parts.deep_view(), sep@),
{
    let mut r = String::new();
    let ghost all = parts.deep_view();
    let mut i: usize = 0;
    while i < parts.len()
        invariant
            i <= parts@.len(),
            all == parts.deep_view(),
            all.len() == parts@.len(),
            r@ == join(all.take(i as int), sep@),
        decreases parts@.len() - i,
    {
        proof {
            assert(all.take(i + 1).drop_last() =~= all.take(i as int));
            assert(all[i as int] == parts@[i as int]@);
        }
        if i != 0 {
            push_str(&mut r, sep);
        } else {
            assert(all.take(0) =~= Seq::<Seq<char>>::empty());
        }
        push_str(&mut r, parts[i].as_str());
        proof {
            if i == 0 {
                assert(r@ =~= all.take(1)[0]);
            }
        }
        i = i + 1;
    }
    assert(all.take(parts@.len() as int) =~= all);
    r
}

} // verus!

verus! {

/// An ASCII decimal digit.
pub open spec fn is_digit(c: char) -> bool {
    '0' <= c && c <= '9'
}

/// The value of a decimal digit character.
pub open spec fn digit_value(c: char) -> nat {
    ((c as u32) - ('0' as u32)) as nat
}

/// The value of a run of decimal digits.
pub open spec fn digits_value(s: Seq<char>) -> nat
    decreases s.len(),
{
    if s.len() == 0 {
        0
    } else {
        digits_value(s.drop_last()) * 10 + digit_value(s.last())
    }
}

/// The digits of a number text: the text without a leading `+`.
pub open spec fn unsigned_digits(s: Seq<char>) -> Seq<char> {
    if s.len() > 0 && s[0] == '+' { s.drop_first() } else { s }
}

/// Whether every character is a decimal digit.
pub open spec fn all_digits(d: Seq<char>) -> bool {
    forall|i: int| 0 <= i < d.len() ==> is_digit(#[trigger] d[i])
}

/// What `str::parse::<u32>` gives: an optional `+`, then at least one
/// decimal digit, with a value that fits in `u32`.
pub open spec fn parse_u32_spec(s: Seq<char>) -> Option<u32> {
    let d = unsigned_digits(s);
    if d.len() > 0 && all_digits(d) && digits_value(d) <= u32::MAX {
        Some(digits_value(d) as u32)
    } else {
        None
    }
}

proof fn lemma_digits_value_monotone(s: Seq<char>, n: int)
    requires
        0 <= n <= s.len(),
    ensures
        digits_value(s.take(n)) <= digits_value(s),
    decreases s.len() - n,
{
    if n < s.len() {
        lemma_digits_value_monotone(s, n + 1);
        assert(s.take(n + 1).drop_last() =~= s.take(n));
    } else {
        assert(s.take(n) =~= s);
    }
}

/// Reads a `u32` in decimal, as `str::parse::<u32>` does.
pub fn parse_u32(s: &str) -> (r: Option<u32>)
    ensures
        r == parse_u32_spec(s@),
{
    let v = chars_of(s);
    let start: usize = if v.len() > 0 && v[0] == '+' { 1 } else { 0 };
    let ghost d = unsigned_digits(s@);
    assert(d =~= v@.skip(start as int));
    if start >= v.len() {
        assert(d.len() == 0);
        return None;
    }
    let mut acc: u64 = 0;
    let mut i: usize = start;
    while i < v.len()
        invariant
            start <= i <= v@.len(),
            d == v@.skip(start as int),
            v@ == s@,
            d == unsigned_digits(s@),
            acc == digits_value(d.take(i - start)),
            acc <= u32::MAX,
            forall|j: int| 0 <= j < i - start ==> is_digit(#[trigger] d[j]),
        decreases v@.len() - i,
    {
        let c = v[i];
        assert(d[i - start] == c);
        if !('0' <= c && c <= '9') {
            assert(!is_digit(d[i - start]));
            assert(!all_digits(d));
            return None;
        }
        let dv = (c as u32 - '0' as u32) as u64;
        assert(d.take(i - start + 1).drop_last() =~= d.take(i - start));
        acc = acc * 10 + dv;
        if acc > 0xffff_ffff {
            proof {
                lemma_digits_value_monotone(d, i - start + 1);
            }
            return None;
        }
        i = i + 1;
    }
    assert(d.take(i - start) =~= d);
    Some(acc as u32)
}

} // verus!

verus! {

/// Whether `a` comes before `b` in the order that `str` comparison gives:
/// code point by code point, a proper prefix first.
pub open spec fn lex_less(a: Seq<char>, b: Seq<char>) -> bool
    decreases a.len(),
{
    if a.len() == 0 {
        b.len() > 0
    } else if b.len() == 0 {
        false
    } else if a[0] < b[0] {
        true
    } else if a[0] > b[0] {
        false
    } else {
        lex_less(a.drop_first(), b.drop_first())
    }
}

/// `lex_less` is a strict total order: exactly one of `a < b`, `a == b`,
/// `b < a` holds.
pub proof fn lemma_lex_trichotomy(a: Seq<char>, b: Seq<char>)
    ensures
        (lex_less(a, b) as int) + (lex_less(b, a) as int) + ((a == b) as int) == 1,
    decreases a.len(),
{
    if a.len() > 0 && b.len() > 0 && a[0] == b[0] {
        lemma_lex_trichotomy(a.drop_first(), b.drop_first());
        if a.drop_first() == b.drop_first() {
            assert forall|i: int| 0 <= i < a.len() implies a[i] == b[i] by {
                if i > 0 {
                    assert(a[i] == a.drop_first()[i - 1]);
                    assert(b[i] == b.drop_first()[i - 1]);
                }
            }
            assert(a =~= b);
        } else {
            assert(a != b) by {
                if a == b {
                    assert(a.drop_first() == b.drop_first());
                }
            }
        }
    } else if a.len() == 0 && b.len() == 0 {
        assert(a =~= b);
    } else {
        assert(a != b) by {
            if a == b {
                assert(a.len() == b.len());
            }
        }
    }
}

/// `lex_less` is transitive.
pub proof fn lemma_lex_transitive(a: Seq<char>, b: Seq<char>, c: Seq<char>)
    requires
        lex_less(a, b),
        lex_less(b, c),
    ensures
        lex_less(a, c),
    decreases a.len(),
{
    if a.len() > 0 && b.len() > 0 && c.len() > 0 && a[0] == b[0] && b[0] == c[0] {
        lemma_lex_transitive(a.drop_first(), b.drop_first(), c.drop_first());
    }
}

proof fn lemma_lex_step(a: Seq<char>, b: Seq<char>, i: int)
    requires
        0 <= i <= a.len(),
        i <= b.len(),
    ensures
        i < a.len() && i < b.len() && a[i] == b[i] ==> (lex_less(a.skip(i), b.skip(i)) == lex_less(
            a.skip(i + 1),
            b.skip(i + 1),
        ) && lex_less(b.skip(i), a.skip(i)) == lex_less(b.skip(i + 1), a.skip(i + 1))),
        i < a.len() && i < b.len() && a[i] < b[i] ==> lex_less(a.skip(i), b.skip(i)) && !lex_less(
            b.skip(i),
            a.skip(i),
        ),
        i < a.len() && i < b.len() && a[i] > b[i] ==> !lex_less(a.skip(i), b.skip(i)) && lex_less(
            b.skip(i),
            a.skip(i),
        ),
        i == a.len() && i < b.len() ==> lex_less(a.skip(i), b.skip(i)) && !lex_less(b.skip(i), a.skip(i)),
        i < a.len() && i == b.len() ==> !lex_less(a.skip(i), b.skip(i)) && lex_less(b.skip(i), a.skip(i)),
        i == a.len() && i == b.len() ==> !lex_less(a.skip(i), b.skip(i)) && !lex_less(b.skip(i), a.skip(i)),
{
    if i < a.len() && i < b.len() {
        assert(a.skip(i)[0] == a[i]);
        assert(b.skip(i)[0] == b[i]);
        assert(a.skip(i).drop_first() =~= a.skip(i + 1));
        assert(b.skip(i).drop_first() =~= b.skip(i + 1));
    }
}

/// Compares two character sequences as `str` comparison does: negative
/// when `a` comes first, zero when they are equal, positive otherwise.
pub fn lex_compare(a: &[char], b: &[char]) -> (r: i8)
    ensures
        r < 0 <==> lex_less(a@, b@),
        r > 0 <==> lex_less(b@, a@),
        r == 0 <==> a@ == b@,
{
    let mut i: usize = 0;
    assert(a@.skip(0) =~= a@);
    assert(b@.skip(0) =~= b@);
    proof {
        lemma_lex_trichotomy(a@, b@);
    }
    while i < a.len() && i < b.len()
        invariant
            i <= a@.len(),
            i <= b@.len(),
            lex_less(a@, b@) == lex_less(a@.skip(i as int), b@.skip(i as int)),
            lex_less(b@, a@) == lex_less(b@.skip(i as int), a@.skip(i as int)),
            a@.take(i as int) == b@.take(i as int),
        decreases a@.len() - i,
    {
        proof {
            lemma_lex_step(a@, b@, i as int);
        }
        if a[i] < b[i] {
            return -1;
        }
        if a[i] > b[i] {
            return 1;
        }
        assert(a@.take(i + 1) =~= a@.take(i as int).push(a@[i as int]));
        assert(b@.take(i + 1) =~= b@.take(i as int).push(b@[i as int]));
        i = i + 1;
    }
    proof {
        lemma_lex_step(a@, b@, i as int);
    }
    if i < a.len() {
        1
    } else if i < b.len() {
        -1
    } else {
        assert(a@ =~= a@.take(i as int));
        assert(b@ =~= b@.take(i as int));
        0
    }
}

} // verus!

verus! {

/// The lowercase form of a text as `str::to_lowercase` gives it (Unicode
/// lowercase mapping).
pub uninterp spec fn lowercase(s: Seq<char>) -> Seq<char>;

/// The text with ASCII capitals turned into small letters.
pub open spec fn ascii_lowercase(s: Seq<char>) -> Seq<char> {
    Seq::new(
        s.len(),
        |i: int| if 'A' <= s[i] && s[i] <= 'Z' { ((s[i] as u32) + 32) as char } else { s[i] },
    )
}

/// `str::to_lowercase`. The result is named `lowercase`; for ASCII text it
/// is the text with `A`-`Z` turned into `a`-`z`, as the documentation of the
/// ASCII case mapping says.
#[verifier::external_body]
pub(crate) fn to_lowercase(s: &str) -> (r: String)
    ensures
        r@ == lowercase(s@),
        vstd::utf8::is_ascii_chars(s@) ==> r@ == ascii_lowercase(s@),
{
    s.to_lowercase()
}

} // verus!
