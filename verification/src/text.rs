//! Text operations on sequences of characters: what they mean, and code that does them.
use vstd::prelude::*;

verus! {

// ---- Characters and building blocks of the standard library --------------------------------

/// The character has the Unicode property White_Space.
pub open spec fn is_white_space(c: char) -> bool {
    ||| '\t' <= c && c <= '\r'
    ||| c == ' '
    ||| c == '\u{85}'
    ||| c == '\u{a0}'
    ||| c == '\u{1680}'
    ||| '\u{2000}' <= c && c <= '\u{200a}'
    ||| '\u{2028}' <= c && c <= '\u{2029}'
    ||| c == '\u{202f}'
    ||| c == '\u{205f}'
    ||| c == '\u{3000}'
}

/// `char::is_whitespace` tells whether the character has the property White_Space, which Unicode
/// gives to the characters of ten ranges.
pub assume_specification[ char::is_whitespace ](c: char) -> (r: bool)
    ensures
        r == is_white_space(c),
;

/// `String::push` appends one character.
pub assume_specification[ String::push ](s: &mut String, c: char)
    ensures
        final(s)@ == old(s)@.push(c),
;

/// The lowercase form of a text, by the Unicode property Lowercase.
pub uninterp spec fn lowercase(s: Seq<char>) -> Seq<char>;

/// `str::to_lowercase` gives the lowercase form of the whole text.
pub assume_specification[ str::to_lowercase ](s: &str) -> (r: String)
    ensures
        r@ == lowercase(s@),
;

/// The uppercase form of one character, which may take more than one character.
pub uninterp spec fn uppercase_of(c: char) -> Seq<char>;

/// `char::to_uppercase` gives the characters of the uppercase form, in order.
#[verifier::external_body]
fn uppercase(c: char) -> (r: String)
    ensures
        r@ == uppercase_of(c),
{
    c.to_uppercase().collect::<String>()
}

/// The characters of each text of a list.
pub open spec fn texts(list: Seq<String>) -> Seq<Seq<char>> {
    list.map_values(|s: String| s@)
}

/// The characters of a text, as a vector.
pub fn chars_of(s: &str) -> (r: Vec<char>)
    ensures
        r@ == s@,
{
    let mut out: Vec<char> = Vec::new();
    for c in it: s.chars()
        invariant
            out@ == it.seq().take(it.index()),
            it.seq() == s@,
    {
        out.push(c);
    }
    out
}

/// The text that the characters from `lo` up to `hi` spell.
pub fn text_between(chars: &Vec<char>, lo: usize, hi: usize) -> (r: String)
    requires
        lo <= hi <= chars@.len(),
    ensures
        r@ == chars@.subrange(lo as int, hi as int),
{
    let mut out = String::new();
    let mut i: usize = lo;
    while i < hi
        invariant
            lo <= i <= hi <= chars@.len(),
            out@ == chars@.subrange(lo as int, i as int),
        decreases hi - i,
    {
        out.push(chars[i]);
        i = i + 1;
    }
    out
}

/// Two texts hold the same characters.
pub fn same(a: &str, b: &str) -> (r: bool)
    ensures
        r == (a@ == b@),
{
    a.to_owned() == b.to_owned()
}

/// The two texts one after the other.
pub fn cat2(a: &str, b: &str) -> (r: String)
    ensures
        r@ == a@ + b@,
{
    let mut out = a.to_owned();
    out.append(b);
    out
}

/// The three texts one after the other.
pub fn cat3(a: &str, b: &str, c: &str) -> (r: String)
    ensures
        r@ == a@ + b@ + c@,
{
    let mut out = cat2(a, b);
    out.append(c);
    out
}

/// The four texts one after the other.
pub fn cat4(a: &str, b: &str, c: &str, d: &str) -> (r: String)
    ensures
        r@ == a@ + b@ + c@ + d@,
{
    let mut out = cat3(a, b, c);
    out.append(d);
    out
}

/// The five texts one after the other.
pub fn cat5(a: &str, b: &str, c: &str, d: &str, e: &str) -> (r: String)
    ensures
        r@ == a@ + b@ + c@ + d@ + e@,
{
    let mut out = cat4(a, b, c, d);
    out.append(e);
    out
}

// ---- Trimming ------------------------------------------------------------------------------

/// The text without its leading white space.
pub open spec fn trim_start(s: Seq<char>) -> Seq<char>
    decreases s.len(),
{
    if s.len() > 0 && is_white_space(s[0]) {
        trim_start(s.drop_first())
    } else {
        s
    }
}

/// The text without its trailing white space.
pub open spec fn trim_end(s: Seq<char>) -> Seq<char>
    decreases s.len(),
{
    if s.len() > 0 && is_white_space(s.last()) {
        trim_end(s.drop_last())
    } else {
        s
    }
}

/// The text without leading and trailing white space.
pub open spec fn trimmed(s: Seq<char>) -> Seq<char> {
    trim_end(trim_start(s))
}

/// Removes leading and trailing white space.
pub fn trim(s: &str) -> (r: String)
    ensures
        r@ == trimmed(s@),
{
    let chars = chars_of(s);
    let n: usize = chars.len();
    let mut lo: usize = 0;
    assert(s@.skip(0) =~= s@);
    while lo < n && chars[lo].is_whitespace()
        invariant
            lo <= n == chars@.len(),
            chars@ == s@,
            trim_start(s@) == trim_start(s@.skip(lo as int)),
        decreases n - lo,
    {
        assert(s@.skip(lo as int).drop_first() =~= s@.skip(lo + 1));
        lo = lo + 1;
    }
    assert(trim_start(s@) == s@.skip(lo as int));
    let mut hi: usize = n;
    assert(s@.skip(lo as int) =~= s@.subrange(lo as int, n as int));
    while lo < hi && chars[hi - 1].is_whitespace()
        invariant
            lo <= hi <= n == chars@.len(),
            chars@ == s@,
            trimmed(s@) == trim_end(s@.subrange(lo as int, hi as int)),
        decreases hi,
    {
        assert(s@.subrange(lo as int, hi as int).drop_last() =~= s@.subrange(lo as int, hi - 1));
        hi = hi - 1;
    }
    assert(trimmed(s@) == s@.subrange(lo as int, hi as int)) by {
        if lo < hi {
            assert(s@.subrange(lo as int, hi as int).last() == s@[hi - 1]);
        }
    }
    text_between(&chars, lo, hi)
}

proof fn trim_start_skips(s: Seq<char>) -> (lo: int)
    ensures
        0 <= lo <= s.len(),
        trim_start(s) == s.skip(lo),
        forall|i: int| 0 <= i < lo ==> is_white_space(#[trigger] s[i]),
        lo < s.len() ==> !is_white_space(s[lo]),
    decreases s.len(),
{
    if s.len() > 0 && is_white_space(s[0]) {
        let rest = s.drop_first();
        let lo = trim_start_skips(rest);
        assert(rest.skip(lo) =~= s.skip(lo + 1));
        assert forall|i: int| 0 <= i < lo + 1 implies is_white_space(#[trigger] s[i]) by {
            if i > 0 {
                assert(rest[i - 1] == s[i]);
            }
        }
        lo + 1
    } else {
        assert(s.skip(0) =~= s);
        0
    }
}

proof fn trim_end_takes(s: Seq<char>) -> (hi: int)
    ensures
        0 <= hi <= s.len(),
        trim_end(s) == s.take(hi),
        forall|i: int| hi <= i < s.len() ==> is_white_space(#[trigger] s[i]),
        hi > 0 ==> !is_white_space(s[hi - 1]),
    decreases s.len(),
{
    if s.len() > 0 && is_white_space(s.last()) {
        let rest = s.drop_last();
        let hi = trim_end_takes(rest);
        assert(rest.take(hi) =~= s.take(hi));
        assert forall|i: int| hi <= i < s.len() implies is_white_space(#[trigger] s[i]) by {
            if i < rest.len() {
                assert(rest[i] == s[i]);
            }
        }
        hi
    } else {
        assert(s.take(s.len() as int) =~= s);
        s.len() as int
    }
}

/// Trimming takes white space away and nothing else: what is left is a part of the text, what
/// stood before and behind it is white space, and it neither begins nor ends with white space.
pub proof fn trimming_takes_white_space(s: Seq<char>) -> (cut: (int, int))
    ensures
        0 <= cut.0 <= cut.1 <= s.len(),
        trimmed(s) == s.subrange(cut.0, cut.1),
        forall|i: int| 0 <= i < cut.0 || cut.1 <= i < s.len() ==> is_white_space(#[trigger] s[i]),
        cut.0 < cut.1 ==> !is_white_space(s[cut.0]) && !is_white_space(s[cut.1 - 1]),
{
    let lo = trim_start_skips(s);
    let rest = s.skip(lo);
    let hi = trim_end_takes(rest);
    assert(rest.take(hi) =~= s.subrange(lo, lo + hi));
    assert forall|i: int| 0 <= i < lo || lo + hi <= i < s.len() implies is_white_space(
        #[trigger] s[i],
    ) by {
        if i >= lo + hi {
            assert(rest[i - lo] == s[i]);
        }
    }
    if hi > 0 {
        assert(rest[0] == s[lo]);
        assert(rest[hi - 1] == s[lo + hi - 1]);
    }
    (lo, lo + hi)
}

/// A text that neither begins nor ends with white space is left alone.
pub proof fn trimmed_texts_stay(s: Seq<char>)
    requires
        s.len() > 0 ==> !is_white_space(s[0]) && !is_white_space(s.last()),
    ensures
        trimmed(s) == s,
{
}

/// The text without any `c` at its end.
pub open spec fn without_trailing(s: Seq<char>, c: char) -> Seq<char>
    decreases s.len(),
{
    if s.len() > 0 && s.last() == c {
        without_trailing(s.drop_last(), c)
    } else {
        s
    }
}

/// Removes every `c` at the end of the text.
pub fn trim_end_char(s: &str, c: char) -> (r: String)
    ensures
        r@ == without_trailing(s@, c),
{
    let chars = chars_of(s);
    let mut hi: usize = chars.len();
    assert(s@.take(hi as int) =~= s@);
    while hi > 0 && chars[hi - 1] == c
        invariant
            hi <= chars@.len(),
            chars@ == s@,
            without_trailing(s@, c) == without_trailing(s@.take(hi as int), c),
        decreases hi,
    {
        assert(s@.take(hi as int).drop_last() =~= s@.take(hi - 1));
        hi = hi - 1;
    }
    assert(s@.take(hi as int) =~= s@.subrange(0, hi as int));
    text_between(&chars, 0, hi)
}

// ---- Searching -----------------------------------------------------------------------------

/// The pattern stands in the text, character by character, from position `i` on.
pub open spec fn occurs_at(s: Seq<char>, p: Seq<char>, i: int) -> bool {
    0 <= i && i + p.len() <= s.len() && s.subrange(i, i + p.len()) == p
}

/// The pattern stands somewhere in the text.
pub open spec fn contains(s: Seq<char>, p: Seq<char>) -> bool {
    exists|i: int| occurs_at(s, p, i)
}

/// The text begins with the pattern.
pub open spec fn has_prefix(s: Seq<char>, p: Seq<char>) -> bool {
    occurs_at(s, p, 0)
}

/// Tells whether the pattern stands at position `i`.
pub fn matches_at(s: &Vec<char>, p: &Vec<char>, i: usize) -> (r: bool)
    ensures
        r == occurs_at(s@, p@, i as int),
{
    if i > s.len() || s.len() - i < p.len() {
        return false;
    }
    let mut k: usize = 0;
    while k < p.len()
        invariant
            k <= p@.len(),
            i + p.len() <= s.len(),
            forall|j: int| 0 <= j < k ==> s@[i + j] == p@[j],
        decreases p@.len() - k,
    {
        if s[i + k] != p[k] {
            assert(s@.subrange(i as int, i + p@.len())[k as int] != p@[k as int]);
            return false;
        }
        k = k + 1;
    }
    assert(s@.subrange(i as int, i + p@.len()) =~= p@);
    true
}

/// Tells whether the text begins with the pattern.
pub fn starts_with(s: &str, p: &str) -> (r: bool)
    ensures
        r == has_prefix(s@, p@),
{
    matches_at(&chars_of(s), &chars_of(p), 0)
}

/// What follows the pattern, where the text begins with it.
pub fn strip_prefix(s: &str, p: &str) -> (r: Option<String>)
    ensures
        r is Some <==> has_prefix(s@, p@),
        r matches Some(rest) ==> rest@ == s@.skip(p@.len() as int),
{
    let chars = chars_of(s);
    let pattern = chars_of(p);
    if matches_at(&chars, &pattern, 0) {
        assert(s@.skip(p@.len() as int) =~= s@.subrange(p@.len() as int, s@.len() as int));
        Some(text_between(&chars, pattern.len(), chars.len()))
    } else {
        None
    }
}

/// Tells whether the pattern stands somewhere in the text.
pub fn has(s: &str, p: &str) -> (r: bool)
    ensures
        r == contains(s@, p@),
{
    let chars = chars_of(s);
    let pattern = chars_of(p);
    let mut i: usize = 0;
    while i < chars.len()
        invariant
            i <= chars@.len(),
            chars@ == s@,
            pattern@ == p@,
            forall|j: int| 0 <= j < i ==> !occurs_at(s@, p@, j),
        decreases chars@.len() - i,
    {
        if matches_at(&chars, &pattern, i) {
            return true;
        }
        i = i + 1;
    }
    let r = matches_at(&chars, &pattern, i);
    assert(!r ==> forall|j: int| !occurs_at(s@, p@, j));
    r
}

/// The text before the first `c`, or all of it.
pub open spec fn before_first(s: Seq<char>, c: char) -> Seq<char>
    decreases s.len(),
{
    if s.len() == 0 || s[0] == c {
        Seq::empty()
    } else {
        seq![s[0]] + before_first(s.drop_first(), c)
    }
}

/// Cuts the text before the first `c`.
pub fn cut_at(s: &str, c: char) -> (r: String)
    ensures
        r@ == before_first(s@, c),
{
    let chars = chars_of(s);
    let mut i: usize = 0;
    assert(s@.skip(0) =~= s@);
    assert(s@.take(0) + before_first(s@, c) =~= before_first(s@, c));
    while i < chars.len() && chars[i] != c
        invariant
            i <= chars@.len(),
            chars@ == s@,
            before_first(s@, c) == s@.take(i as int) + before_first(s@.skip(i as int), c),
        decreases chars@.len() - i,
    {
        assert(s@.skip(i as int).drop_first() =~= s@.skip(i + 1));
        assert(s@.take(i as int) + (seq![s@[i as int]] + before_first(s@.skip(i + 1), c))
            =~= s@.take(i + 1) + before_first(s@.skip(i + 1), c));
        i = i + 1;
    }
    assert(before_first(s@, c) =~= s@.subrange(0, i as int));
    text_between(&chars, 0, i)
}

/// The text with every occurrence of `from`, taken from the left, replaced by `to`.
pub open spec fn replaced(s: Seq<char>, from: Seq<char>, to: Seq<char>) -> Seq<char>
    decreases s.len(),
{
    if s.len() == 0 || from.len() == 0 {
        s
    } else if has_prefix(s, from) {
        to + replaced(s.skip(from.len() as int), from, to)
    } else {
        seq![s[0]] + replaced(s.drop_first(), from, to)
    }
}

/// Replaces every occurrence of `from`, taken from the left, by `to`.
pub fn replace(s: &str, from: &str, to: &str) -> (r: String)
    requires
        from@.len() > 0,
    ensures
        r@ == replaced(s@, from@, to@),
{
    let chars = chars_of(s);
    let pattern = chars_of(from);
    let mut out = String::new();
    let mut i: usize = 0;
    assert(s@.skip(0) =~= s@);
    assert(out@ + replaced(s@, from@, to@) =~= replaced(s@, from@, to@));
    while i < chars.len()
        invariant
            i <= chars@.len(),
            chars@ == s@,
            pattern@ == from@,
            from@.len() > 0,
            replaced(s@, from@, to@) == out@ + replaced(s@.skip(i as int), from@, to@),
        decreases chars@.len() - i,
    {
        let ghost rest = s@.skip(i as int);
        let ghost before = out@;
        let here = matches_at(&chars, &pattern, i);
        assert(here == has_prefix(rest, from@)) by {
            if i + from@.len() <= s@.len() {
                assert(rest.subrange(0, from@.len() as int) =~= s@.subrange(
                    i as int,
                    i + from@.len(),
                ));
            }
        }
        if here {
            out.append(to);
            assert(rest.skip(from@.len() as int) =~= s@.skip(i + from@.len()));
            assert(before + (to@ + replaced(s@.skip(i + from@.len()), from@, to@)) =~= before + to@
                + replaced(s@.skip(i + from@.len()), from@, to@));
            i = i + pattern.len();
        } else {
            out.push(chars[i]);
            assert(rest.drop_first() =~= s@.skip(i + 1));
            assert(before + (seq![s@[i as int]] + replaced(s@.skip(i + 1), from@, to@)) =~= out@
                + replaced(s@.skip(i + 1), from@, to@));
            i = i + 1;
        }
    }
    assert(out@ + s@.skip(i as int) =~= out@);
    out
}

// ---- Lists of texts ------------------------------------------------------------------------

/// The texts one after the other, with the separator between two of them.
pub open spec fn joined(list: Seq<Seq<char>>, sep: Seq<char>) -> Seq<char>
    decreases list.len(),
{
    if list.len() == 0 {
        Seq::empty()
    } else if list.len() == 1 {
        list[0]
    } else {
        joined(list.drop_last(), sep) + sep + list.last()
    }
}

/// Joins the texts with the separator.
pub fn join(list: &Vec<String>, sep: &str) -> (r: String)
    ensures
        r@ == joined(texts(list@), sep@),
{
    let mut out = String::new();
    let mut i: usize = 0;
    while i < list.len()
        invariant
            i <= list@.len(),
            out@ == joined(texts(list@).take(i as int), sep@),
        decreases list@.len() - i,
    {
        let ghost all = texts(list@);
        assert(all.take(i + 1).drop_last() =~= all.take(i as int));
        if i > 0 {
            out.append(sep);
        }
        out.append(list[i].as_str());
        assert(i == 0 ==> out@ =~= all[0]);
        i = i + 1;
    }
    assert(texts(list@).take(i as int) =~= texts(list@));
    out
}

// ---- Case ----------------------------------------------------------------------------------

/// The character with an ASCII capital turned into the small letter.
pub open spec fn ascii_lower(c: char) -> char {
    if 'A' <= c && c <= 'Z' {
        (c as u32 + 32) as char
    } else {
        c
    }
}

/// The two texts are the same but for the case of ASCII letters.
pub open spec fn same_but_case(a: Seq<char>, b: Seq<char>) -> bool {
    a.len() == b.len() && forall|i: int|
        0 <= i < a.len() ==> ascii_lower(#[trigger] a[i]) == ascii_lower(b[i])
}

fn lower_ascii(c: char) -> (r: char)
    ensures
        r == ascii_lower(c),
{
    if 'A' <= c && c <= 'Z' {
        (c as u8 + 32) as char
    } else {
        c
    }
}

/// Compares two texts, ignoring the case of ASCII letters.
pub fn eq_ignore_ascii_case(a: &str, b: &str) -> (r: bool)
    ensures
        r == same_but_case(a@, b@),
{
    let x = chars_of(a);
    let y = chars_of(b);
    if x.len() != y.len() {
        return false;
    }
    let mut i: usize = 0;
    while i < x.len()
        invariant
            i <= x@.len() == y@.len(),
            x@ == a@,
            y@ == b@,
            forall|j: int| 0 <= j < i ==> ascii_lower(#[trigger] a@[j]) == ascii_lower(b@[j]),
        decreases x@.len() - i,
    {
        if lower_ascii(x[i]) != lower_ascii(y[i]) {
            assert(ascii_lower(a@[i as int]) != ascii_lower(b@[i as int]));
            return false;
        }
        i = i + 1;
    }
    true
}

/// The text with its first character in uppercase.
pub open spec fn capitalized(s: Seq<char>) -> Seq<char> {
    if s.len() == 0 {
        s
    } else {
        uppercase_of(s[0]) + s.drop_first()
    }
}

/// Puts the first character of the text in uppercase.
pub fn capitalize(s: &str) -> (r: String)
    ensures
        r@ == capitalized(s@),
{
    let chars = chars_of(s);
    if chars.len() == 0 {
        return String::new();
    }
    let mut out = uppercase(chars[0]);
    let rest = text_between(&chars, 1, chars.len());
    assert(rest@ =~= s@.drop_first());
    out.append(rest.as_str());
    out
}

// ---- Length --------------------------------------------------------------------------------

/// A text of more than `limit` characters is cut to its first `keep`, and `tail` follows them.
pub open spec fn clipped(s: Seq<char>, limit: nat, keep: nat, tail: Seq<char>) -> Seq<char> {
    if s.len() > limit {
        s.take(keep as int) + tail
    } else {
        s
    }
}

/// Cuts a text of more than `limit` characters.
pub fn clip(s: &str, limit: usize, keep: usize, tail: &str) -> (r: String)
    requires
        keep <= limit,
    ensures
        r@ == clipped(s@, limit as nat, keep as nat, tail@),
{
    let chars = chars_of(s);
    if chars.len() > limit {
        assert(s@.take(keep as int) =~= s@.subrange(0, keep as int));
        let mut out = text_between(&chars, 0, keep);
        out.append(tail);
        out
    } else {
        s.to_owned()
    }
}

// ---- Numbers -------------------------------------------------------------------------------

/// The character of a digit below sixteen, in lowercase.
pub open spec fn digit(d: nat) -> char {
    if d < 10 {
        (48 + d) as char
    } else {
        (87 + d) as char
    }
}

/// A number written in the given base, without leading zeros.
pub open spec fn numeral(n: nat, base: nat) -> Seq<char>
    decreases n,
{
    if n < base || base < 2 {
        seq![digit(n)]
    } else {
        proof {
            assert(n / base < n) by (nonlinear_arith)
                requires
                    n >= base,
                    base >= 2,
            ;
        }
        numeral(n / base, base).push(digit(n % base))
    }
}

/// A number written in decimal.
pub open spec fn decimal(n: nat) -> Seq<char> {
    numeral(n, 10)
}

/// A signed number written in decimal.
pub open spec fn signed_decimal(n: int) -> Seq<char> {
    if n < 0 {
        "-"@ + decimal((-n) as nat)
    } else {
        decimal(n as nat)
    }
}

fn digit_char(d: u8) -> (r: char)
    requires
        d < 16,
    ensures
        r == digit(d as nat),
{
    if d < 10 {
        (48 + d) as char
    } else {
        (87 + d) as char
    }
}

/// Writes a number in base ten or sixteen.
pub fn write_number(n: u128, base: u8) -> (r: String)
    requires
        base == 10 || base == 16,
    ensures
        r@ == numeral(n as nat, base as nat),
    decreases n,
{
    let b: u128 = base as u128;
    if n < b {
        let mut out = String::new();
        out.push(digit_char(n as u8));
        assert(out@ =~= seq![digit(n as nat)]);
        out
    } else {
        let mut out = write_number(n / b, base);
        out.push(digit_char((n % b) as u8));
        out
    }
}

/// Writes a number in decimal.
pub fn write_decimal(n: u64) -> (r: String)
    ensures
        r@ == decimal(n as nat),
{
    write_number(n as u128, 10)
}

/// Writes a signed number in decimal.
pub fn write_signed(n: i64) -> (r: String)
    ensures
        r@ == signed_decimal(n as int),
{
    if n < 0 {
        let size: u128 = (-(n as i128)) as u128;
        cat2("-", write_number(size, 10).as_str())
    } else {
        write_decimal(n as u64)
    }
}

/// The character is one of the ten ASCII digits.
pub open spec fn is_digit(c: char) -> bool {
    '0' <= c && c <= '9'
}

/// The number that a row of ASCII digits spells.
pub open spec fn digits_value(s: Seq<char>) -> nat
    decreases s.len(),
{
    if s.len() == 0 {
        0
    } else {
        digits_value(s.drop_last()) * 10 + (s.last() as u32 - 48) as nat
    }
}

/// Every character is an ASCII digit.
pub open spec fn all_digits(s: Seq<char>) -> bool {
    forall|i: int| 0 <= i < s.len() ==> is_digit(#[trigger] s[i])
}

/// The text without a plus sign at its start.
pub open spec fn without_plus(s: Seq<char>) -> Seq<char> {
    if s.len() > 0 && s[0] == '+' {
        s.drop_first()
    } else {
        s
    }
}

/// The number below 256 that a text spells: ASCII digits, behind a plus sign or not.
pub open spec fn parsed_u8(s: Seq<char>) -> Option<u8> {
    let t = without_plus(s);
    if t.len() > 0 && all_digits(t) && digits_value(t) <= 255 {
        Some(digits_value(t) as u8)
    } else {
        None
    }
}

/// Reads a number below 256.
pub fn parse_u8(s: &str) -> (r: Option<u8>)
    ensures
        r == parsed_u8(s@),
{
    let chars = chars_of(s);
    let start: usize = if chars.len() > 0 && chars[0] == '+' {
        1
    } else {
        0
    };
    let ghost t = without_plus(s@);
    assert(t =~= s@.skip(start as int));
    if start == chars.len() {
        return None;
    }
    let mut value: u32 = 0;
    let mut i: usize = start;
    assert(t.take(0) =~= Seq::empty());
    while i < chars.len()
        invariant
            start <= i <= chars@.len(),
            chars@ == s@,
            t == without_plus(s@),
            t == s@.skip(start as int),
            start < chars@.len(),
            forall|j: int| 0 <= j < i - start ==> is_digit(#[trigger] t[j]),
            value <= 1000,
            digits_value(t.take(i - start)) <= 255 ==> value == digits_value(t.take(i - start)),
            digits_value(t.take(i - start)) > 255 ==> value > 255,
        decreases chars@.len() - i,
    {
        let c = chars[i];
        assert(t[i - start] == c);
        if !('0' <= c && c <= '9') {
            assert(!is_digit(t[i - start]));
            return None;
        }
        assert(t.take(i - start + 1).drop_last() =~= t.take(i - start));
        let next: u32 = value * 10 + (c as u32 - 48);
        value = if next > 1000 {
            1000
        } else {
            next
        };
        i = i + 1;
    }
    assert(t.take(i - start) =~= t);
    if value <= 255 {
        Some(value as u8)
    } else {
        None
    }
}

// ---- Laws of numbers -----------------------------------------------------------------------

proof fn decimals_begin_with_a_digit(n: nat)
    ensures
        decimal(n).len() > 0,
        decimal(n)[0] != '-',
    decreases n,
{
    if n >= 10 {
        decimals_begin_with_a_digit(n / 10);
    }
}

/// A decimal below a power of ten has no more digits than the power has zeros, and no other
/// characters than digits.
pub proof fn decimals_are_short(n: nat, digits: nat)
    requires
        digits > 0,
        n < vstd::arithmetic::power::pow(10, digits),
    ensures
        decimal(n).len() <= digits,
        all_digits(decimal(n)),
    decreases digits,
{
    if n >= 10 {
        assert(digits > 1) by {
            if digits == 1 {
                vstd::arithmetic::power::lemma_pow1(10);
            }
        }
        let fewer = (digits - 1) as nat;
        vstd::arithmetic::power::lemma_pow_adds(10, fewer, 1);
        vstd::arithmetic::power::lemma_pow1(10);
        decimals_are_short(n / 10, fewer);
        let rest = decimal(n / 10);
        assert forall|i: int| 0 <= i < decimal(n).len() implies is_digit(
            #[trigger] decimal(n)[i],
        ) by {
            if i < rest.len() {
                assert(decimal(n)[i] == rest[i]);
            }
        }
    }
}

proof fn decimals_differ(a: nat, b: nat)
    requires
        decimal(a) == decimal(b),
    ensures
        a == b,
    decreases a,
{
    if a < 10 && b < 10 {
        assert(decimal(a)[0] == digit(a));
        assert(decimal(b)[0] == digit(b));
    } else if a < 10 {
        decimals_begin_with_a_digit(b / 10);
    } else if b < 10 {
        decimals_begin_with_a_digit(a / 10);
    } else {
        assert(decimal(a).drop_last() =~= decimal(a / 10));
        assert(decimal(b).drop_last() =~= decimal(b / 10));
        assert(decimal(a).last() == digit(a % 10));
        assert(decimal(b).last() == digit(b % 10));
        decimals_differ(a / 10, b / 10);
    }
}

/// No two numbers are written alike.
pub proof fn numbers_are_written_apart(a: int, b: int)
    requires
        signed_decimal(a) == signed_decimal(b),
    ensures
        a == b,
{
    reveal_strlit("-");
    let x = signed_decimal(a);
    let y = signed_decimal(b);
    if a < 0 {
        assert(x[0] == '-');
        assert(x.drop_first() =~= decimal((-a) as nat));
    } else {
        decimals_begin_with_a_digit(a as nat);
    }
    if b < 0 {
        assert(y[0] == '-');
        assert(y.drop_first() =~= decimal((-b) as nat));
    } else {
        decimals_begin_with_a_digit(b as nat);
    }
    if a < 0 {
        decimals_differ((-a) as nat, (-b) as nat);
    } else {
        decimals_differ(a as nat, b as nat);
    }
}

/// The digits of a number spell it.
pub proof fn decimals_read_back(n: nat)
    ensures
        decimal(n).len() > 0,
        all_digits(decimal(n)),
        digits_value(decimal(n)) == n,
    decreases n,
{
    let s = decimal(n);
    if n >= 10 {
        let rest = decimal(n / 10);
        decimals_read_back(n / 10);
        assert(s.drop_last() =~= rest);
        assert(s.last() == digit(n % 10));
        assert forall|i: int| 0 <= i < s.len() implies is_digit(#[trigger] s[i]) by {
            if i < rest.len() {
                assert(s[i] == rest[i]);
            }
        }
    } else {
        assert(s.drop_last() =~= Seq::empty());
        assert(s.last() == digit(n));
        assert(digits_value(s.drop_last()) == 0);
    }
}

/// A number below 256 is read back as it was written, and so with a plus sign before it; a text with
/// anything but digits is no number, nor is one that spells more than 255.
pub proof fn small_numbers_read_back(n: nat, s: Seq<char>)
    ensures
        n <= 255 ==> parsed_u8(decimal(n)) == Some(n as u8),
        n <= 255 ==> parsed_u8(seq!['+'] + decimal(n)) == Some(n as u8),
        n > 255 ==> parsed_u8(decimal(n)) is None,
        (exists|i: int| 0 < i < s.len() && !is_digit(#[trigger] s[i])) ==> parsed_u8(s) is None,
        s.len() > 0 && !is_digit(s[0]) && s[0] != '+' ==> parsed_u8(s) is None,
        parsed_u8(Seq::empty()) is None,
{
    decimals_read_back(n);
    let t = decimal(n);
    assert(is_digit(t[0]));
    assert(without_plus(t) == t);
    assert(without_plus(seq!['+'] + t) =~= t);
    if exists|i: int| 0 < i < s.len() && !is_digit(#[trigger] s[i]) {
        let i = choose|i: int| 0 < i < s.len() && !is_digit(#[trigger] s[i]);
        let bare = without_plus(s);
        if s[0] == '+' {
            assert(bare[i - 1] == s[i]);
        } else {
            assert(bare[i] == s[i]);
        }
    }
}

/// The value of a digit below sixteen.
pub open spec fn digit_value(c: char) -> nat {
    if is_digit(c) {
        (c as u32 - 48) as nat
    } else {
        (c as u32 - 87) as nat
    }
}

/// The number that a row of digits spells in a base.
pub open spec fn numeral_value(s: Seq<char>, base: nat) -> nat
    decreases s.len(),
{
    if s.len() == 0 {
        0
    } else {
        numeral_value(s.drop_last(), base) * base + digit_value(s.last())
    }
}

/// A number in a base up to sixteen is spelled with the digits of the base, `a` to `f` above nine,
/// and they spell the number.
pub proof fn numerals_read_back(n: nat, base: nat)
    requires
        2 <= base <= 16,
    ensures
        numeral_value(numeral(n, base), base) == n,
        forall|i: int|
            0 <= i < numeral(n, base).len() ==> is_digit(#[trigger] numeral(n, base)[i]) || ('a'
                <= numeral(n, base)[i] && numeral(n, base)[i] <= 'f'),
    decreases n,
{
    let s = numeral(n, base);
    if n >= base {
        assert(n / base < n) by (nonlinear_arith)
            requires
                n >= base,
                base >= 2,
        ;
        assert(n % base < base) by (nonlinear_arith)
            requires
                base >= 2,
        ;
        let rest = numeral(n / base, base);
        numerals_read_back(n / base, base);
        assert(s.drop_last() =~= rest);
        assert(s.last() == digit(n % base));
        assert forall|i: int| 0 <= i < s.len() implies is_digit(#[trigger] s[i]) || ('a' <= s[i]
            && s[i] <= 'f') by {
            if i < rest.len() {
                assert(s[i] == rest[i]);
            }
        }
        assert((n / base) * base + n % base == n) by (nonlinear_arith)
            requires
                base >= 2,
        ;
    } else {
        assert(s.drop_last() =~= Seq::empty());
        assert(s.last() == digit(n));
        assert(numeral_value(s.drop_last(), base) == 0);
        assert(0 * base == 0) by (nonlinear_arith);
    }
}

// ---- Laws of texts -------------------------------------------------------------------------

/// A text that is put between two others stands in the whole.
pub proof fn parts_are_contained(before: Seq<char>, part: Seq<char>, behind: Seq<char>)
    ensures
        contains(before + part + behind, part),
{
    let whole = before + part + behind;
    let at = before.len() as int;
    assert(whole.subrange(at, at + part.len()) =~= part);
    assert(occurs_at(whole, part, at));
}

/// What comes before the first of a character is cut off exactly there; a text without the
/// character stays whole.
pub proof fn cuts_are_at_the_first(s: Seq<char>, c: char, rest: Seq<char>)
    requires
        !s.contains(c),
    ensures
        before_first(s, c) == s,
        before_first(s + seq![c] + rest, c) == s,
    decreases s.len(),
{
    let whole = s + seq![c] + rest;
    if s.len() > 0 {
        let fewer = s.drop_first();
        assert(s.contains(s[0]));
        assert forall|i: int| 0 <= i < fewer.len() implies fewer[i] != c by {
            assert(s.contains(s[i + 1]));
        }
        cuts_are_at_the_first(fewer, c, rest);
        assert(whole.drop_first() =~= fewer + seq![c] + rest);
        assert(seq![s[0]] + fewer =~= s);
    } else {
        assert(before_first(s, c) =~= s);
        assert(before_first(whole, c) =~= s);
    }
}

/// Only the character itself is taken from the end of a text, and all of it.
pub proof fn trailing_characters_go(s: Seq<char>, c: char)
    ensures
        without_trailing(s, c).len() <= s.len(),
        without_trailing(s, c) == s.take(without_trailing(s, c).len() as int),
        forall|i: int| without_trailing(s, c).len() <= i < s.len() ==> #[trigger] s[i] == c,
        without_trailing(s, c).len() > 0 ==> without_trailing(s, c).last() != c,
    decreases s.len(),
{
    if s.len() > 0 && s.last() == c {
        let rest = s.drop_last();
        let kept = without_trailing(rest, c);
        trailing_characters_go(rest, c);
        assert(rest.take(kept.len() as int) =~= s.take(kept.len() as int));
        assert forall|i: int| kept.len() <= i < s.len() implies #[trigger] s[i] == c by {
            if i < rest.len() {
                assert(rest[i] == s[i]);
            }
        }
    } else {
        assert(s.take(s.len() as int) =~= s);
    }
}

proof fn replacing_skips(a: Seq<char>, rest: Seq<char>, from: Seq<char>, to: Seq<char>)
    requires
        from.len() > 0,
        forall|i: int| 0 <= i < a.len() ==> !occurs_at(a + rest, from, i),
    ensures
        replaced(a + rest, from, to) == a + replaced(rest, from, to),
    decreases a.len(),
{
    if a.len() > 0 {
        let fewer = a.drop_first();
        let s = a + rest;
        let t = fewer + rest;
        assert(s.drop_first() =~= t);
        assert(!occurs_at(s, from, 0));
        assert forall|i: int| 0 <= i < fewer.len() implies !occurs_at(t, from, i) by {
            if occurs_at(t, from, i) {
                assert(s.subrange(i + 1, i + 1 + from.len()) =~= t.subrange(i, i + from.len()));
                assert(occurs_at(s, from, i + 1));
            }
        }
        replacing_skips(fewer, rest, from, to);
        assert(s[0] == a[0]);
        assert(seq![a[0]] + (fewer + replaced(rest, from, to)) =~= a + replaced(rest, from, to));
    } else {
        assert(a + rest =~= rest);
        assert(a + replaced(rest, from, to) =~= replaced(rest, from, to));
    }
}

/// A text without the pattern stays as it is; where the pattern stands once, the replacement comes
/// in its place and the rest stays.
pub proof fn patterns_are_replaced(
    before: Seq<char>,
    from: Seq<char>,
    behind: Seq<char>,
    to: Seq<char>,
)
    requires
        from.len() > 0,
        !contains(behind, from),
        forall|i: int| 0 <= i < before.len() ==> !occurs_at(before + from + behind, from, i),
    ensures
        replaced(behind, from, to) == behind,
        replaced(before + from + behind, from, to) == before + to + behind,
{
    let none = Seq::<char>::empty();
    assert(behind + none =~= behind);
    assert forall|i: int| 0 <= i < behind.len() implies !occurs_at(behind + none, from, i) by {
    }
    replacing_skips(behind, none, from, to);
    assert(replaced(none, from, to) == none);
    let rest = from + behind;
    assert(before + from + behind =~= before + rest);
    replacing_skips(before, rest, from, to);
    assert(rest.subrange(0, from.len() as int) =~= from);
    assert(rest.skip(from.len() as int) =~= behind);
    assert(before + (to + behind) =~= before + to + behind);
}

/// The parts of a text between the separators.
pub open spec fn parts(s: Seq<char>, sep: char) -> Seq<Seq<char>>
    decreases s.len(),
{
    if s.len() == 0 {
        seq![s]
    } else {
        let rest = parts(s.drop_last(), sep);
        if s.last() == sep {
            rest.push(Seq::empty())
        } else {
            rest.update(rest.len() - 1, rest.last().push(s.last()))
        }
    }
}

proof fn parts_grow(s: Seq<char>, t: Seq<char>, sep: char)
    requires
        !t.contains(sep),
    ensures
        parts(s, sep).len() > 0,
        parts(s + t, sep) == parts(s, sep).update(
            parts(s, sep).len() - 1,
            parts(s, sep).last() + t,
        ),
    decreases s.len() + t.len(),
{
    if t.len() > 0 {
        let fewer = t.drop_last();
        assert(t.contains(t.last()));
        assert forall|i: int| 0 <= i < fewer.len() implies fewer[i] != sep by {
            assert(t.contains(t[i]));
        }
        parts_grow(s, fewer, sep);
        assert((s + t).drop_last() =~= s + fewer);
        let p = parts(s, sep);
        assert((p.last() + fewer).push(t.last()) =~= p.last() + t);
        assert(parts(s + t, sep) =~= p.update(p.len() - 1, p.last() + t));
    } else {
        assert(s + t =~= s);
        if s.len() > 0 {
            parts_grow(s.drop_last(), t, sep);
        }
        let p = parts(s, sep);
        assert(p.last() + t =~= p.last());
        assert(p =~= p.update(p.len() - 1, p.last() + t));
    }
}

/// Texts that are joined by a character that none of them holds can be told apart again: the parts
/// between the separators are the texts, all of them and in order.
pub proof fn joined_texts_part(list: Seq<Seq<char>>, sep: char)
    requires
        list.len() > 0,
        forall|i: int| 0 <= i < list.len() ==> !(#[trigger] list[i]).contains(sep),
    ensures
        parts(joined(list, seq![sep]), sep) == list,
    decreases list.len(),
{
    let last = list.last();
    assert(!list[list.len() - 1].contains(sep));
    if list.len() == 1 {
        let none = Seq::<char>::empty();
        parts_grow(none, last, sep);
        assert(none + last =~= last);
        assert(parts(last, sep) =~= list);
    } else {
        let fewer = list.drop_last();
        assert forall|i: int| 0 <= i < fewer.len() implies !(#[trigger] fewer[i]).contains(sep) by {
            assert(fewer[i] == list[i]);
        }
        joined_texts_part(fewer, sep);
        let head = joined(fewer, seq![sep]);
        let mid = head + seq![sep];
        assert(mid.drop_last() =~= head);
        assert(mid.last() == sep);
        assert(parts(mid, sep) == fewer.push(Seq::empty()));
        parts_grow(mid, last, sep);
        assert(Seq::<char>::empty() + last =~= last);
        assert(parts(mid + last, sep) =~= list);
    }
}

/// Texts are joined in their order, with the separator between each two, and each of them stands in
/// the whole.
pub proof fn joined_texts_are_contained(list: Seq<Seq<char>>, sep: Seq<char>, i: int)
    requires
        0 <= i < list.len(),
    ensures
        contains(joined(list, sep), list[i]),
    decreases list.len(),
{
    let whole = joined(list, sep);
    let none = Seq::<char>::empty();
    if list.len() == 1 {
        assert(none + list[0] + none =~= whole);
        parts_are_contained(none, list[0], none);
    } else if i == list.len() - 1 {
        let head = joined(list.drop_last(), sep) + sep;
        assert(head + list[i] + none =~= whole);
        parts_are_contained(head, list[i], none);
    } else {
        let fewer = list.drop_last();
        joined_texts_are_contained(fewer, sep, i);
        let head = joined(fewer, sep);
        let k = choose|k: int| occurs_at(head, fewer[i], k);
        assert(whole.subrange(k, k + fewer[i].len()) =~= head.subrange(k, k + fewer[i].len()));
        assert(occurs_at(whole, list[i], k));
    }
}

/// A text that is short enough stays; one that is too long keeps its beginning, and the tail tells
/// that it was cut.
pub proof fn only_long_texts_are_cut(s: Seq<char>, limit: nat, keep: nat, tail: Seq<char>)
    requires
        keep <= limit,
    ensures
        s.len() <= limit ==> clipped(s, limit, keep, tail) == s,
        s.len() > limit ==> {
            let cut = clipped(s, limit, keep, tail);
            &&& cut.len() == keep + tail.len()
            &&& cut.take(keep as int) == s.take(keep as int)
            &&& cut.skip(keep as int) == tail
        },
{
    if s.len() > limit {
        let cut = clipped(s, limit, keep, tail);
        assert(cut.take(keep as int) =~= s.take(keep as int));
        assert(cut.skip(keep as int) =~= tail);
    }
}

/// Names are the same but for case exactly where only ASCII letters differ, and those only in case:
/// the order does not matter, and texts without capitals are the same only if they are equal.
pub proof fn only_case_is_ignored(a: Seq<char>, b: Seq<char>)
    ensures
        same_but_case(a, a),
        same_but_case(a, b) == same_but_case(b, a),
        same_but_case(a, b) ==> a.len() == b.len(),
        same_but_case(a, b) ==> forall|i: int|
            0 <= i < a.len() && #[trigger] a[i] != b[i] ==> {
                ||| 'A' <= a[i] && a[i] <= 'Z' && b[i] as u32 == a[i] as u32 + 32
                ||| 'A' <= b[i] && b[i] <= 'Z' && a[i] as u32 == b[i] as u32 + 32
            },
        (a.len() == b.len() && forall|i: int|
            0 <= i < a.len() ==> #[trigger] a[i] == b[i] || ('A' <= a[i] && a[i] <= 'Z' && b[i] as u32
                == a[i] as u32 + 32)) ==> same_but_case(a, b),
{
    if same_but_case(a, b) {
        assert forall|i: int| 0 <= i < b.len() implies ascii_lower(#[trigger] b[i]) == ascii_lower(
            a[i],
        ) by {
            assert(ascii_lower(a[i]) == ascii_lower(b[i]));
        }
    }
    if same_but_case(b, a) {
        assert forall|i: int| 0 <= i < a.len() implies ascii_lower(#[trigger] a[i]) == ascii_lower(
            b[i],
        ) by {
            assert(ascii_lower(b[i]) == ascii_lower(a[i]));
        }
    }
}

/// Only the first character is put in uppercase; everything behind it stays.
pub proof fn only_the_first_character_changes(s: Seq<char>)
    requires
        s.len() > 0,
    ensures
        capitalized(s).len() == uppercase_of(s[0]).len() + s.len() - 1,
        capitalized(s).take(uppercase_of(s[0]).len() as int) == uppercase_of(s[0]),
        capitalized(s).skip(uppercase_of(s[0]).len() as int) == s.skip(1),
{
    let big = uppercase_of(s[0]);
    assert(capitalized(s).take(big.len() as int) =~= big);
    assert(capitalized(s).skip(big.len() as int) =~= s.skip(1));
}

/// What stands in a text stands in every text that it is a part of.
pub proof fn contained_parts_stay(a: Seq<char>, b: Seq<char>, p: Seq<char>)
    ensures
        contains(a, p) || contains(b, p) ==> contains(a + b, p),
{
    let whole = a + b;
    if contains(a, p) {
        let i = choose|i: int| occurs_at(a, p, i);
        assert(whole.subrange(i, i + p.len()) =~= a.subrange(i, i + p.len()));
        assert(occurs_at(whole, p, i));
    } else if contains(b, p) {
        let i = choose|i: int| occurs_at(b, p, i);
        let k = a.len() + i;
        assert(whole.subrange(k, k + p.len()) =~= b.subrange(i, i + p.len()));
        assert(occurs_at(whole, p, k));
    }
}

/// A text stands in itself.
pub proof fn texts_contain_themselves(s: Seq<char>)
    ensures
        contains(s, s),
{
    assert(s.subrange(0, s.len() as int) =~= s);
    assert(occurs_at(s, s, 0));
}

/// A negative number is written with a minus sign before its digits, any other number without one.
pub proof fn signed_numbers_read_back(n: int)
    ensures
        n >= 0 ==> all_digits(signed_decimal(n)) && digits_value(signed_decimal(n)) == n,
        n < 0 ==> signed_decimal(n)[0] == '-' && all_digits(signed_decimal(n).skip(1))
            && digits_value(signed_decimal(n).skip(1)) == -n,
{
    reveal_strlit("-");
    if n >= 0 {
        decimals_read_back(n as nat);
    } else {
        decimals_read_back((-n) as nat);
        assert(signed_decimal(n).skip(1) =~= decimal((-n) as nat));
    }
}

} // verus!
