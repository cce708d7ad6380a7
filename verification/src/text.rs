//! Small string utilities shared by the rest of the crate.
//!
//! Contracts speak of strings through their views, sequences of `char`.

use vstd::prelude::*;

verus! {

/// Appends one character to a string.
///
/// Trusted: the body is `String::push` of the standard library, of which
/// the verifier knows nothing. The contract claims what the documentation
/// of `String::push` says: the character is appended at the end and
/// nothing else changes.
#[verifier::external_body]
pub(crate) fn push_char(s: &mut String, c: char)
    ensures
        final(s)@ == old(s)@.push(c),
{
    s.push(c)
}

/// The characters of `s`, in order.
pub fn chars_of(s: &str) -> (out: Vec<char>)
    ensures
        out@ == s@,
{
    let mut out: Vec<char> = Vec::new();
    for c in it: s.chars()
        invariant
            it.seq() == s@,
            out@ == s@.subrange(0, it.index() as int),
    {
        out.push(c);
        assert(out@ =~= s@.subrange(0, it.index() + 1));
    }
    assert(out@ =~= s@);
    out
}

/// The string made of the characters `chars[from..to]`.
pub fn string_of_chars(chars: &Vec<char>, from: usize, to: usize) -> (out: String)
    requires
        from <= to <= chars.len(),
    ensures
        out@ == chars@.subrange(from as int, to as int),
{
    let mut out = String::new();
    let mut i: usize = from;
    while i < to
        invariant
            from <= i <= to <= chars.len(),
            out@ == chars@.subrange(from as int, i as int),
        decreases to - i,
    {
        push_char(&mut out, chars[i]);
        assert(out@ =~= chars@.subrange(from as int, i + 1));
        i = i + 1;
    }
    out
}

/// The decimal digit that stands for `d`.
pub open spec fn digit_char(d: nat) -> char
    recommends
        d < 10,
{
    (('0' as nat) + d) as char
}

/// The decimal numeral of `n`, without sign or leading zeros; `0` is `"0"`.
pub open spec fn decimal(n: nat) -> Seq<char>
    decreases n,
{
    if n < 10 {
        seq![digit_char(n)]
    } else {
        decimal(n / 10).push(digit_char(n % 10))
    }
}

/// Every numeral is a non-empty run of the digits `0` to `9`.
pub proof fn lemma_decimal_digits(n: nat)
    ensures
        decimal(n).len() >= 1,
        forall|i: int| 0 <= i < decimal(n).len() ==> '0' <= #[trigger] decimal(n)[i] <= '9',
    decreases n,
{
    if n >= 10 {
        lemma_decimal_digits(n / 10);
    }
}

/// Different digits are written differently.
proof fn lemma_digit_char_injective(a: nat, b: nat)
    requires
        a < 10,
        b < 10,
        digit_char(a) == digit_char(b),
    ensures
        a == b,
{
    assert(digit_char(a) as nat == ('0' as nat) + a);
    assert(digit_char(b) as nat == ('0' as nat) + b);
}

/// Different numbers have different numerals.
pub proof fn lemma_decimal_injective(a: nat, b: nat)
    requires
        decimal(a) == decimal(b),
    ensures
        a == b,
    decreases a,
{
    lemma_decimal_digits(a / 10);
    lemma_decimal_digits(b / 10);
    if a < 10 {
        if b >= 10 {
            assert(decimal(b).len() >= 2);
        } else {
            assert(decimal(a)[0] == digit_char(a));
            assert(decimal(b)[0] == digit_char(b));
            lemma_digit_char_injective(a, b);
        }
    } else {
        if b < 10 {
            assert(decimal(a).len() >= 2);
        } else {
            let da = decimal(a / 10);
            let db = decimal(b / 10);
            assert(decimal(a).last() == decimal(b).last());
            assert(decimal(a).last() == digit_char(a % 10));
            assert(decimal(b).last() == digit_char(b % 10));
            lemma_digit_char_injective(a % 10, b % 10);
            assert(da =~= decimal(a).drop_last());
            assert(db =~= decimal(b).drop_last());
            lemma_decimal_injective(a / 10, b / 10);
        }
    }
}

fn digit_of(d: u8) -> (c: char)
    requires
        d < 10,
    ensures
        c == digit_char(d as nat),
{
    (48u8 + d) as char
}

/// Appends the decimal numeral of `n` to `s`.
pub fn push_decimal(s: &mut String, n: u128)
    ensures
        final(s)@ == old(s)@ + decimal(n as nat),
{
    let mut digits: Vec<char> = Vec::new();
    let mut rest: u128 = n;
    // `digits` collects the numeral from its last digit backwards.
    while rest >= 10
        invariant
            decimal(n as nat) == decimal(rest as nat) + digits@.reverse(),
        decreases rest,
    {
        let d = digit_of((rest % 10) as u8);
        let ghost before = digits@;
        digits.push(d);
        proof {
            let q = (rest / 10) as nat;
            assert(decimal(rest as nat) == decimal(q).push(d));
            assert(digits@.reverse() =~= seq![d] + before.reverse());
            assert(decimal(q).push(d) + before.reverse() =~= decimal(q) + digits@.reverse());
        }
        rest = rest / 10;
    }
    push_char(s, digit_of(rest as u8));
    let ghost head = s@;
    let ghost total = digits@;
    let mut i: usize = digits.len();
    while i > 0
        invariant
            i <= digits.len(),
            digits@ == total,
            s@ == head + total.reverse().subrange(0, total.len() - i),
        decreases i,
    {
        i = i - 1;
        push_char(s, digits[i]);
        assert(s@ =~= head + total.reverse().subrange(0, total.len() - i));
    }
    assert(total.reverse().subrange(0, total.len() as int) =~= total.reverse());
    assert(s@ =~= old(s)@ + decimal(n as nat));
}

/// The string whose characters are those of `a` followed by those of `b`.
pub fn join(a: &str, b: &str) -> (out: String)
    ensures
        out@ == a@ + b@,
{
    let mut out = a.to_owned();
    out.append(b);
    out
}

/// A copy of an optional string.
pub fn clone_opt(o: &Option<String>) -> (out: Option<String>)
    ensures
        out.deep_view() == o.deep_view(),
{
    match o {
        Some(s) => Some(s.clone()),
        None => None,
    }
}

/// `c` is white space as Unicode defines it.
pub open spec fn is_space(c: char) -> bool {
    ||| '\u{0009}' <= c <= '\u{000D}'
    ||| c == '\u{0020}'
    ||| c == '\u{0085}'
    ||| c == '\u{00A0}'
    ||| c == '\u{1680}'
    ||| '\u{2000}' <= c <= '\u{200A}'
    ||| c == '\u{2028}'
    ||| c == '\u{2029}'
    ||| c == '\u{202F}'
    ||| c == '\u{205F}'
    ||| c == '\u{3000}'
}

/// `s` without the white space at its start.
pub open spec fn trim_start(s: Seq<char>) -> Seq<char>
    decreases s.len(),
{
    if s.len() > 0 && is_space(s[0]) {
        trim_start(s.drop_first())
    } else {
        s
    }
}

/// `s` without the white space at its end.
pub open spec fn trim_end(s: Seq<char>) -> Seq<char>
    decreases s.len(),
{
    if s.len() > 0 && is_space(s.last()) {
        trim_end(s.drop_last())
    } else {
        s
    }
}

/// `s` without the white space at its start and at its end.
pub open spec fn trimmed(s: Seq<char>) -> Seq<char> {
    trim_end(trim_start(s))
}

fn space(c: char) -> (yes: bool)
    ensures
        yes == is_space(c),
{
    ('\u{0009}' <= c && c <= '\u{000D}') || c == '\u{0020}' || c == '\u{0085}' || c == '\u{00A0}'
        || c == '\u{1680}' || ('\u{2000}' <= c && c <= '\u{200A}') || c == '\u{2028}' || c
        == '\u{2029}' || c == '\u{202F}' || c == '\u{205F}' || c == '\u{3000}'
}

/// The text without the white space at its start and at its end.
pub fn trim(text: &str) -> (out: String)
    ensures
        out@ == trimmed(text@),
{
    let chars = chars_of(text);
    let n = chars.len();
    let mut from: usize = 0;
    assert(chars@.subrange(0, n as int) =~= chars@);
    while from < n && space(chars[from])
        invariant
            from <= n,
            n == chars@.len(),
            trim_start(chars@) == trim_start(chars@.subrange(from as int, n as int)),
        decreases n - from,
    {
        assert(chars@.subrange(from as int, n as int).drop_first() =~= chars@.subrange(
            from + 1,
            n as int,
        ));
        from = from + 1;
    }
    let mut to: usize = n;
    while to > from && space(chars[to - 1])
        invariant
            from <= to <= n,
            n == chars@.len(),
            trimmed(chars@) == trim_end(chars@.subrange(from as int, to as int)),
        decreases to,
    {
        assert(chars@.subrange(from as int, to as int).drop_last() =~= chars@.subrange(
            from as int,
            to - 1,
        ));
        to = to - 1;
    }
    string_of_chars(&chars, from, to)
}

/// The first place at or after `from` where `s` holds `c`, or the length
/// of `s` where there is none.
pub open spec fn index_of(s: Seq<char>, c: char, from: int) -> int
    decreases s.len() - from,
{
    if from < 0 || from >= s.len() {
        s.len() as int
    } else if s[from] == c {
        from
    } else {
        index_of(s, c, from + 1)
    }
}

/// `index_of` yields the first place at or after `from` that holds `c`.
pub proof fn lemma_index_of(s: Seq<char>, c: char, from: int)
    requires
        0 <= from <= s.len(),
    ensures
        from <= index_of(s, c, from) <= s.len(),
        index_of(s, c, from) < s.len() ==> s[index_of(s, c, from)] == c,
        forall|i: int| from <= i < index_of(s, c, from) ==> s[i] != c,
    decreases s.len() - from,
{
    if from < s.len() && s[from] != c {
        lemma_index_of(s, c, from + 1);
    }
}

/// Searching a part of `s` is searching `s` from where the part begins,
/// as long as the search ends inside the part.
pub proof fn lemma_index_of_part(s: Seq<char>, c: char, start: int, end: int, from: int)
    requires
        0 <= start <= end <= s.len(),
        0 <= from <= end - start,
    ensures
        index_of(s.subrange(start, end), c, from) == if index_of(s, c, start + from) < end {
            index_of(s, c, start + from) - start
        } else {
            end - start
        },
    decreases end - start - from,
{
    let part = s.subrange(start, end);
    if from < end - start {
        assert(part[from] == s[start + from]);
        if s[start + from] != c {
            lemma_index_of_part(s, c, start, end, from + 1);
        }
    } else {
        lemma_index_of(s, c, start + from);
    }
}

/// The first place at or after `from` where `chars` holds `c`, or the
/// length of `chars` where there is none.
pub fn find_char(chars: &Vec<char>, c: char, from: usize) -> (at: usize)
    requires
        from <= chars.len(),
    ensures
        at == index_of(chars@, c, from as int),
        from <= at <= chars.len(),
{
    let mut at: usize = from;
    while at < chars.len() && chars[at] != c
        invariant
            from <= at <= chars.len(),
            index_of(chars@, c, from as int) == index_of(chars@, c, at as int),
        decreases chars.len() - at,
    {
        at = at + 1;
    }
    at
}

/// `word` stands in `text` at the place `at`.
pub open spec fn occurs_at(text: Seq<char>, word: Seq<char>, at: int) -> bool {
    &&& 0 <= at
    &&& at + word.len() <= text.len()
    &&& text.subrange(at, at + word.len()) == word
}

/// `word` stands somewhere in `text`.
pub open spec fn contains_word(text: Seq<char>, word: Seq<char>) -> bool {
    exists|at: int| occurs_at(text, word, at)
}

/// Whether `word` stands somewhere in `text`.
pub fn contains(text: &Vec<char>, word: &Vec<char>) -> (found: bool)
    ensures
        found == contains_word(text@, word@),
{
    if word.len() > text.len() {
        return false;
    }
    let last: usize = text.len() - word.len();
    let mut at: usize = 0;
    while at <= last
        invariant
            at <= last + 1,
            last == text.len() - word.len(),
            forall|k: int| 0 <= k < at ==> !occurs_at(text@, word@, k),
        decreases last + 1 - at,
    {
        let mut i: usize = 0;
        while i < word.len() && text[at + i] == word[i]
            invariant
                i <= word.len(),
                at + word.len() <= text.len(),
                forall|j: int| 0 <= j < i ==> text@[at + j] == word@[j],
            decreases word.len() - i,
        {
            i = i + 1;
        }
        if i == word.len() {
            assert(text@.subrange(at as int, at + word.len()) =~= word@);
            assert(occurs_at(text@, word@, at as int));
            return true;
        }
        assert(!occurs_at(text@, word@, at as int)) by {
            if occurs_at(text@, word@, at as int) {
                assert(text@.subrange(at as int, at + word.len())[i as int] == word@[i as int]);
            }
        }
        at = at + 1;
    }
    false
}

/// A copy of `chars[from..to]`.
pub fn copy_range(chars: &Vec<char>, from: usize, to: usize) -> (out: Vec<char>)
    requires
        from <= to <= chars.len(),
    ensures
        out@ == chars@.subrange(from as int, to as int),
{
    let mut out: Vec<char> = Vec::new();
    let mut i: usize = from;
    while i < to
        invariant
            from <= i <= to <= chars.len(),
            out@ == chars@.subrange(from as int, i as int),
        decreases to - i,
    {
        out.push(chars[i]);
        assert(out@ =~= chars@.subrange(from as int, i + 1));
        i = i + 1;
    }
    out
}

} // verus!
