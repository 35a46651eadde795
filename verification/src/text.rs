//! Characters, numbers and separators: the text helpers that the rest of the
//! library is written with. Text is modelled as a sequence of characters.

use vstd::prelude::*;

verus! {

broadcast use vstd::string::group_string_axioms;

/// `String::push` appends the character to the end of the string.
pub assume_specification[ String::push ](s: &mut String, c: char)
    ensures
        final(s)@ == old(s)@.push(c),
;

/// The characters of a string, in order.
pub fn chars_of(s: &str) -> (r: Vec<char>)
    ensures
        r@ == s@,
{
    let mut r: Vec<char> = Vec::new();
    for c in it: s.chars()
        invariant
            r@ == s@.take(it.index()),
            it.seq() == s@,
    {
        r.push(c);
    }
    r
}

/// The string made of the given characters.
pub fn string_of(chars: &[char]) -> (r: String)
    ensures
        r@ == chars@,
{
    let mut r: String = String::new();
    let mut i: usize = 0;
    while i < chars.len()
        invariant
            i <= chars@.len(),
            r@ == chars@.take(i as int),
        decreases chars@.len() - i,
    {
        r.push(chars[i]);
        i += 1;
    }
    r
}

/// Texts one after the other.
pub fn cat2(a: &str, b: &str) -> (r: String)
    ensures
        r@ == a@ + b@,
{
    let mut r = a.to_owned();
    r.append(b);
    r
}

pub fn cat3(a: &str, b: &str, c: &str) -> (r: String)
    ensures
        r@ == a@ + b@ + c@,
{
    let mut r = a.to_owned();
    r.append(b);
    r.append(c);
    r
}

pub fn cat4(a: &str, b: &str, c: &str, d: &str) -> (r: String)
    ensures
        r@ == a@ + b@ + c@ + d@,
{
    let mut r = a.to_owned();
    r.append(b);
    r.append(c);
    r.append(d);
    r
}

pub fn cat5(a: &str, b: &str, c: &str, d: &str, e: &str) -> (r: String)
    ensures
        r@ == a@ + b@ + c@ + d@ + e@,
{
    let mut r = a.to_owned();
    r.append(b);
    r.append(c);
    r.append(d);
    r.append(e);
    r
}

pub fn cat6(a: &str, b: &str, c: &str, d: &str, e: &str, f: &str) -> (r: String)
    ensures
        r@ == a@ + b@ + c@ + d@ + e@ + f@,
{
    let mut r = a.to_owned();
    r.append(b);
    r.append(c);
    r.append(d);
    r.append(e);
    r.append(f);
    r
}

pub fn cat7(a: &str, b: &str, c: &str, d: &str, e: &str, f: &str, g: &str) -> (r: String)
    ensures
        r@ == a@ + b@ + c@ + d@ + e@ + f@ + g@,
{
    let mut r = a.to_owned();
    r.append(b);
    r.append(c);
    r.append(d);
    r.append(e);
    r.append(f);
    r.append(g);
    r
}

pub fn cat8(a: &str, b: &str, c: &str, d: &str, e: &str, f: &str, g: &str, h: &str) -> (r: String)
    ensures
        r@ == a@ + b@ + c@ + d@ + e@ + f@ + g@ + h@,
{
    let mut r = a.to_owned();
    r.append(b);
    r.append(c);
    r.append(d);
    r.append(e);
    r.append(f);
    r.append(g);
    r.append(h);
    r
}

/// Whether two texts hold the same characters.
pub fn same_chars(a: &[char], b: &[char]) -> (r: bool)
    ensures
        r == (a@ == b@),
{
    if a.len() != b.len() {
        return false;
    }
    let mut i: usize = 0;
    while i < a.len()
        invariant
            i <= a@.len(),
            a@.len() == b@.len(),
            a@.take(i as int) == b@.take(i as int),
        decreases a@.len() - i,
    {
        if a[i] != b[i] {
            assert(a@[i as int] != b@[i as int]);
            return false;
        }
        i += 1;
        assert(a@.take(i as int) =~= b@.take(i as int));
    }
    assert(a@.take(i as int) =~= a@);
    assert(b@.take(i as int) =~= b@);
    true
}

/// Whether two strings hold the same characters.
pub fn same(a: &str, b: &str) -> (r: bool)
    ensures
        r == (a@ == b@),
{
    let x = chars_of(a);
    let y = chars_of(b);
    same_chars(&x, &y)
}

// ---------------------------------------------------------------------------
// Character classes

/// The characters with the Unicode `White_Space` property.
pub open spec fn whitespace(c: char) -> bool {
    ||| '\u{9}' <= c <= '\u{d}'
    ||| c == ' '
    ||| c == '\u{85}'
    ||| c == '\u{a0}'
    ||| c == '\u{1680}'
    ||| '\u{2000}' <= c <= '\u{200a}'
    ||| c == '\u{2028}'
    ||| c == '\u{2029}'
    ||| c == '\u{202f}'
    ||| c == '\u{205f}'
    ||| c == '\u{3000}'
}

pub fn is_whitespace(c: char) -> (r: bool)
    ensures
        r == whitespace(c),
{
    ('\u{9}' <= c && c <= '\u{d}') || c == ' ' || c == '\u{85}' || c == '\u{a0}' || c == '\u{1680}'
        || ('\u{2000}' <= c && c <= '\u{200a}') || c == '\u{2028}' || c == '\u{2029}' || c
        == '\u{202f}' || c == '\u{205f}' || c == '\u{3000}'
}

/// The characters of the Unicode category `Cc`.
pub open spec fn control(c: char) -> bool {
    c <= '\u{1f}' || '\u{7f}' <= c <= '\u{9f}'
}

pub fn is_control(c: char) -> (r: bool)
    ensures
        r == control(c),
{
    c <= '\u{1f}' || ('\u{7f}' <= c && c <= '\u{9f}')
}

pub open spec fn digit(c: char) -> bool {
    '0' <= c <= '9'
}

pub fn is_digit(c: char) -> (r: bool)
    ensures
        r == digit(c),
{
    '0' <= c && c <= '9'
}

/// The lower-case form of an ASCII letter; any other character is unchanged.
pub open spec fn ascii_lower(c: char) -> char {
    if 'A' <= c <= 'Z' {
        ((c as u32) + 32) as char
    } else {
        c
    }
}

pub fn to_ascii_lower(c: char) -> (r: char)
    ensures
        r == ascii_lower(c),
{
    if 'A' <= c && c <= 'Z' {
        ((c as u8) + 32) as char
    } else {
        c
    }
}

pub open spec fn ascii_lower_all(s: Seq<char>) -> Seq<char> {
    s.map_values(|c: char| ascii_lower(c))
}

pub fn to_ascii_lower_all(s: &[char]) -> (r: Vec<char>)
    ensures
        r@ == ascii_lower_all(s@),
{
    let mut r: Vec<char> = Vec::new();
    let mut i: usize = 0;
    while i < s.len()
        invariant
            i <= s@.len(),
            r@ == ascii_lower_all(s@.take(i as int)),
        decreases s@.len() - i,
    {
        r.push(to_ascii_lower(s[i]));
        i += 1;
        assert(r@ =~= ascii_lower_all(s@.take(i as int)));
    }
    assert(s@.take(i as int) =~= s@);
    r
}

// ---------------------------------------------------------------------------
// Numbers

/// The decimal digit of a number below ten.
pub open spec fn digit_char(n: nat) -> char {
    (n + 48) as char
}

/// A number written in decimal, without leading zeros.
pub open spec fn decimal(n: nat) -> Seq<char>
    decreases n,
{
    if n < 10 {
        seq![digit_char(n)]
    } else {
        decimal(n / 10).push(digit_char(n % 10))
    }
}

/// Writes a number in decimal.
pub fn decimal_of(n: u64) -> (r: String)
    ensures
        r@ == decimal(n as nat),
    decreases n,
{
    let d: u8 = (n % 10) as u8 + 48;
    if n < 10 {
        let mut r: String = String::new();
        r.push(d as char);
        assert(r@ =~= decimal(n as nat));
        r
    } else {
        let mut r: String = decimal_of(n / 10);
        r.push(d as char);
        r
    }
}

/// Writes a count in decimal.
pub fn count_of(n: usize) -> (r: String)
    ensures
        r@ == decimal(n as nat),
{
    decimal_of(n as u64)
}

pub open spec fn all_digits(s: Seq<char>) -> bool {
    forall|i: int| 0 <= i < s.len() ==> digit(#[trigger] s[i])
}

/// The number that a run of decimal digits stands for.
pub open spec fn digits_value(s: Seq<char>) -> nat
    decreases s.len(),
{
    if s.len() == 0 {
        0
    } else {
        digits_value(s.drop_last()) * 10 + (s.last() as nat - 48) as nat
    }
}

/// The digits of a number, after at most one leading `+`.
pub open spec fn unsigned_digits(s: Seq<char>) -> Seq<char> {
    if s.len() > 0 && s[0] == '+' {
        s.skip(1)
    } else {
        s
    }
}

/// The number that a text stands for: decimal digits, at least one of them,
/// with at most one `+` before them, and a value of at most `max`.
pub open spec fn parsed_unsigned(s: Seq<char>, max: nat) -> Option<nat> {
    let d = unsigned_digits(s);
    if d.len() > 0 && all_digits(d) && digits_value(d) <= max {
        Some(digits_value(d))
    } else {
        None
    }
}

proof fn lemma_digits_value_grows(s: Seq<char>, n: int)
    requires
        0 <= n <= s.len(),
    ensures
        digits_value(s.take(n)) <= digits_value(s),
    decreases s.len() - n,
{
    if n == s.len() {
        assert(s.take(n) =~= s);
    } else {
        lemma_digits_value_grows(s, n + 1);
        assert(s.take(n + 1).drop_last() =~= s.take(n));
    }
}

/// Reads a number of at most `max`; see `parsed_unsigned`.
pub fn parse_unsigned(s: &[char], max: u64) -> (r: Option<u64>)
    ensures
        r is Some <==> parsed_unsigned(s@, max as nat) is Some,
        r is Some ==> r->0 as nat == parsed_unsigned(s@, max as nat)->0,
{
    let start: usize = if s.len() > 0 && s[0] == '+' {
        1
    } else {
        0
    };
    let ghost d = unsigned_digits(s@);
    assert(d =~= s@.skip(start as int));
    if start == s.len() {
        return None;
    }
    let mut value: u64 = 0;
    let mut i: usize = start;
    while i < s.len()
        invariant
            start <= i <= s@.len(),
            start <= 1,
            d == s@.skip(start as int),
            d == unsigned_digits(s@),
            value as nat == digits_value(d.take(i - start)),
            forall|k: int| 0 <= k < i - start ==> digit(#[trigger] d[k]),
            value <= max,
        decreases s@.len() - i,
    {
        let c = s[i];
        assert(d[i - start] == c);
        if !is_digit(c) {
            return None;
        }
        let n: u64 = c as u64 - 48;
        assert(d.take(i - start + 1).drop_last() =~= d.take(i - start));
        proof {
            lemma_digits_value_grows(d, i - start + 1);
        }
        if value > (u64::MAX - n) / 10 {
            return None;
        }
        value = value * 10 + n;
        if value > max {
            return None;
        }
        i += 1;
    }
    assert(d.take(i - start) =~= d);
    Some(value)
}

/// Writing a number and reading it back gives the number.
pub proof fn decimal_reads_back(n: nat)
    ensures
        all_digits(decimal(n)),
        decimal(n).len() > 0,
        digits_value(decimal(n)) == n,
        forall|max: nat| n <= max ==> #[trigger] parsed_unsigned(decimal(n), max) == Some(n),
    decreases n,
{
    if n < 10 {
        reveal_with_fuel(digits_value, 2);
        assert(decimal(n).drop_last() =~= Seq::<char>::empty());
    } else {
        decimal_reads_back(n / 10);
        assert(decimal(n).drop_last() =~= decimal(n / 10));
    }
    assert(unsigned_digits(decimal(n)) == decimal(n));
}

// ---------------------------------------------------------------------------
// Parts of a text

/// The parts of a text between the occurrences of a separator.
pub open spec fn split_on(s: Seq<char>, sep: char) -> Seq<Seq<char>>
    decreases s.len(),
{
    if s.len() == 0 {
        seq![Seq::<char>::empty()]
    } else {
        let before = split_on(s.drop_last(), sep);
        if s.last() == sep {
            before.push(Seq::<char>::empty())
        } else {
            before.drop_last().push(before.last().push(s.last()))
        }
    }
}

/// The texts of a list of strings.
pub open spec fn texts(v: Seq<Vec<char>>) -> Seq<Seq<char>> {
    v.map_values(|t: Vec<char>| t@)
}

/// Splits a text at each occurrence of a separator.
pub fn split_chars_on(s: &[char], sep: char) -> (r: Vec<Vec<char>>)
    ensures
        texts(r@) == split_on(s@, sep),
        r@.len() > 0,
{
    let mut parts: Vec<Vec<char>> = Vec::new();
    let mut current: Vec<char> = Vec::new();
    let mut i: usize = 0;
    proof {
        assert(texts(parts@).push(current@) =~= split_on(s@.take(0), sep));
    }
    while i < s.len()
        invariant
            i <= s@.len(),
            texts(parts@).push(current@) == split_on(s@.take(i as int), sep),
        decreases s@.len() - i,
    {
        let ghost before = split_on(s@.take(i as int), sep);
        assert(before.last() == current@);
        assert(before.drop_last() =~= texts(parts@));
        assert(s@.take(i + 1).drop_last() =~= s@.take(i as int));
        if s[i] == sep {
            let ghost old_parts = parts@;
            let ghost old_current = current@;
            parts.push(current);
            current = Vec::new();
            assert(texts(parts@) =~= texts(old_parts).push(old_current));
        } else {
            current.push(s[i]);
        }
        i += 1;
        assert(texts(parts@).push(current@) =~= split_on(s@.take(i as int), sep));
    }
    assert(s@.take(i as int) =~= s@);
    let ghost old_parts = parts@;
    parts.push(current);
    assert(texts(parts@) =~= texts(old_parts).push(current@));
    parts
}

/// The texts joined, with a separator between each two.
pub open spec fn joined(parts: Seq<Seq<char>>, sep: Seq<char>) -> Seq<char>
    decreases parts.len(),
{
    if parts.len() == 0 {
        Seq::empty()
    } else if parts.len() == 1 {
        parts[0]
    } else {
        joined(parts.drop_last(), sep) + sep + parts.last()
    }
}

/// Joining the parts of a split with the separator gives the text back.
pub proof fn split_joins_back(s: Seq<char>, sep: char)
    ensures
        joined(split_on(s, sep), seq![sep]) == s,
        split_on(s, sep).len() > 0,
    decreases s.len(),
{
    if s.len() == 0 {
        assert(joined(split_on(s, sep), seq![sep]) =~= s);
    } else {
        split_joins_back(s.drop_last(), sep);
        let before = split_on(s.drop_last(), sep);
        let now = split_on(s, sep);
        if s.last() == sep {
            assert(now.drop_last() =~= before);
            assert(joined(now, seq![sep]) =~= s);
        } else {
            assert(now.drop_last() =~= before.drop_last());
            assert(now.last() == before.last().push(s.last()));
            if before.len() > 1 {
                assert(joined(before, seq![sep]) == joined(before.drop_last(), seq![sep])
                    + seq![sep] + before.last());
            }
            assert(joined(now, seq![sep]) =~= joined(before, seq![sep]).push(s.last()));
            assert(s.drop_last().push(s.last()) =~= s);
        }
    }
}

/// A text without the separator is its own only part.
pub proof fn split_without_separator(s: Seq<char>, sep: char)
    requires
        !s.contains(sep),
    ensures
        split_on(s, sep) == seq![s],
    decreases s.len(),
{
    if s.len() == 0 {
        assert(s =~= Seq::<char>::empty());
    } else {
        assert(s.last() == s[s.len() - 1]);
        assert forall|i: int| 0 <= i < s.drop_last().len() implies s.drop_last()[i] != sep by {
            assert(s[i] != sep);
        }
        split_without_separator(s.drop_last(), sep);
        assert(s.drop_last().push(s.last()) =~= s);
        assert(split_on(s, sep) =~= seq![s]);
    }
}

/// The parts of two texts with a separator between them are those of the one
/// followed by those of the other.
pub proof fn split_at_separator(a: Seq<char>, b: Seq<char>, sep: char)
    ensures
        split_on(a.push(sep) + b, sep) == split_on(a, sep) + split_on(b, sep),
    decreases b.len(),
{
    split_joins_back(a, sep);
    split_joins_back(b, sep);
    let whole = a.push(sep) + b;
    if b.len() == 0 {
        assert(whole =~= a.push(sep));
        assert(a.push(sep).drop_last() =~= a);
        assert(split_on(whole, sep) =~= split_on(a, sep) + split_on(b, sep));
    } else {
        split_at_separator(a, b.drop_last(), sep);
        split_joins_back(b.drop_last(), sep);
        assert(whole.drop_last() =~= a.push(sep) + b.drop_last());
        assert(split_on(whole, sep) =~= split_on(a, sep) + split_on(b, sep));
    }
}

/// A text without the white space that it begins with.
pub open spec fn trimmed_start(s: Seq<char>) -> Seq<char>
    decreases s.len(),
{
    if s.len() > 0 && whitespace(s[0]) {
        trimmed_start(s.skip(1))
    } else {
        s
    }
}

/// A text without the white space that it ends with.
pub open spec fn trimmed_end(s: Seq<char>) -> Seq<char>
    decreases s.len(),
{
    if s.len() > 0 && whitespace(s.last()) {
        trimmed_end(s.drop_last())
    } else {
        s
    }
}

/// A text without the white space at either end.
pub open spec fn trimmed(s: Seq<char>) -> Seq<char> {
    trimmed_end(trimmed_start(s))
}

/// Copies a range of a text.
pub fn sub_chars(s: &[char], from: usize, to: usize) -> (r: Vec<char>)
    requires
        from <= to <= s@.len(),
    ensures
        r@ == s@.subrange(from as int, to as int),
{
    let mut r: Vec<char> = Vec::new();
    let mut i: usize = from;
    while i < to
        invariant
            from <= i <= to <= s@.len(),
            r@ == s@.subrange(from as int, i as int),
        decreases to - i,
    {
        r.push(s[i]);
        i += 1;
        assert(r@ =~= s@.subrange(from as int, i as int));
    }
    r
}

pub fn trim_start(s: &[char]) -> (r: Vec<char>)
    ensures
        r@ == trimmed_start(s@),
{
    let mut i: usize = 0;
    assert(s@.skip(0) =~= s@);
    while i < s.len() && is_whitespace(s[i])
        invariant
            i <= s@.len(),
            trimmed_start(s@.skip(i as int)) == trimmed_start(s@),
        decreases s@.len() - i,
    {
        assert(s@.skip(i as int).skip(1) =~= s@.skip(i + 1));
        i += 1;
    }
    assert(s@.skip(i as int) =~= s@.subrange(i as int, s@.len() as int));
    sub_chars(s, i, s.len())
}

pub fn trim_end(s: &[char]) -> (r: Vec<char>)
    ensures
        r@ == trimmed_end(s@),
{
    let mut n: usize = s.len();
    assert(s@.take(n as int) =~= s@);
    while n > 0 && is_whitespace(s[n - 1])
        invariant
            n <= s@.len(),
            trimmed_end(s@.take(n as int)) == trimmed_end(s@),
        decreases n,
    {
        assert(s@.take(n as int).drop_last() =~= s@.take(n - 1));
        n -= 1;
    }
    assert(s@.take(n as int) =~= s@.subrange(0, n as int));
    sub_chars(s, 0, n)
}

pub fn trim(s: &[char]) -> (r: Vec<char>)
    ensures
        r@ == trimmed(s@),
{
    let t = trim_start(s);
    trim_end(&t)
}

/// Whether a text begins with another.
pub open spec fn starts(s: Seq<char>, prefix: Seq<char>) -> bool {
    prefix.len() <= s.len() && s.take(prefix.len() as int) == prefix
}

pub fn starts_with(s: &[char], prefix: &[char]) -> (r: bool)
    ensures
        r == starts(s@, prefix@),
{
    if prefix.len() > s.len() {
        return false;
    }
    let head = sub_chars(s, 0, prefix.len());
    assert(s@.take(prefix@.len() as int) =~= head@);
    same_chars(&head, prefix)
}

/// Whether a text is a given string.
pub fn is(s: &[char], word: &str) -> (r: bool)
    ensures
        r == (s@ == word@),
{
    let w = chars_of(word);
    same_chars(s, &w)
}

/// Whether a text begins with a given string.
pub fn begins(s: &[char], prefix: &str) -> (r: bool)
    ensures
        r == starts(s@, prefix@),
{
    let p = chars_of(prefix);
    starts_with(s, &p)
}

/// What follows a prefix, where a text begins with it.
pub open spec fn after_prefix(s: Seq<char>, prefix: Seq<char>) -> Option<Seq<char>> {
    if starts(s, prefix) {
        Some(s.skip(prefix.len() as int))
    } else {
        None
    }
}

/// The text of an optional list of characters.
pub open spec fn some_text(o: Option<Vec<char>>) -> Option<Seq<char>> {
    match o {
        Some(t) => Some(t@),
        None => None,
    }
}

pub fn strip_prefix(s: &[char], prefix: &str) -> (r: Option<Vec<char>>)
    ensures
        some_text(r) == after_prefix(s@, prefix@),
{
    let p = chars_of(prefix);
    if starts_with(s, &p) {
        let rest = sub_chars(s, p.len(), s.len());
        assert(rest@ =~= s@.skip(p@.len() as int));
        Some(rest)
    } else {
        None
    }
}

/// Whether `needle` stands in `s` at position `at`.
pub open spec fn occurs_at(s: Seq<char>, needle: Seq<char>, at: int) -> bool {
    0 <= at && at + needle.len() <= s.len() && s.subrange(at, at + needle.len() as int) == needle
}

/// The first position, from `at` on, at which `needle` stands in `s`.
pub open spec fn index_from(s: Seq<char>, needle: Seq<char>, at: int) -> Option<int>
    decreases s.len() + 1 - at,
{
    if at < 0 || at + needle.len() > s.len() {
        None
    } else if occurs_at(s, needle, at) {
        Some(at)
    } else {
        index_from(s, needle, at + 1)
    }
}

/// The first position at which `needle` stands in `s`.
pub open spec fn index_of(s: Seq<char>, needle: Seq<char>) -> Option<int> {
    index_from(s, needle, 0)
}

/// Whether a text holds another.
pub open spec fn occurs(s: Seq<char>, needle: Seq<char>) -> bool {
    index_of(s, needle) is Some
}

/// The first position is one at which the needle stands, and there is one
/// wherever the needle stands anywhere.
pub proof fn index_from_finds(s: Seq<char>, needle: Seq<char>, at: int)
    requires
        0 <= at,
    ensures
        match index_from(s, needle, at) {
            Some(i) => at <= i && occurs_at(s, needle, i) && forall|k: int|
                at <= k < i ==> !#[trigger] occurs_at(s, needle, k),
            None => forall|k: int| at <= k ==> !#[trigger] occurs_at(s, needle, k),
        },
    decreases s.len() + 1 - at,
{
    if at + needle.len() <= s.len() && !occurs_at(s, needle, at) {
        index_from_finds(s, needle, at + 1);
    }
}

/// The first position at which `needle` stands in `s`, if any.
pub fn find(s: &[char], needle: &[char]) -> (r: Option<usize>)
    ensures
        match r {
            Some(at) => index_of(s@, needle@) == Some(at as int) && at + needle@.len() <= s@.len(),
            None => index_of(s@, needle@) is None,
        },
{
    if needle.len() > s.len() {
        return None;
    }
    let last: usize = s.len() - needle.len();
    let mut at: usize = 0;
    loop
        invariant
            last == s@.len() - needle@.len(),
            s@.len() <= usize::MAX,
            at <= last,
            index_of(s@, needle@) == index_from(s@, needle@, at as int),
        decreases last - at,
    {
        let part = sub_chars(s, at, at + needle.len());
        if same_chars(&part, needle) {
            return Some(at);
        }
        if at == last {
            assert(index_from(s@, needle@, at + 1) is None);
            return None;
        }
        at += 1;
    }
}

/// Whether a text holds a given string.
pub fn contains(s: &[char], needle: &str) -> (r: bool)
    ensures
        r == occurs(s@, needle@),
{
    let n = chars_of(needle);
    find(s, &n).is_some()
}

/// The parts before and after the first occurrence of a separator.
pub open spec fn parted(s: Seq<char>, sep: Seq<char>) -> Option<(Seq<char>, Seq<char>)> {
    match index_of(s, sep) {
        Some(i) => Some((s.take(i), s.skip(i + sep.len()))),
        None => None,
    }
}

pub fn split_once(s: &[char], sep: &str) -> (r: Option<(Vec<char>, Vec<char>)>)
    ensures
        match r {
            Some((a, b)) => parted(s@, sep@) == Some((a@, b@)),
            None => parted(s@, sep@) is None,
        },
{
    let n = chars_of(sep);
    let end: usize = s.len();
    match find(s, &n) {
        Some(at) => {
            let a = sub_chars(s, 0, at);
            let b = sub_chars(s, at + n.len(), end);
            assert(a@ =~= s@.take(at as int));
            assert(b@ =~= s@.skip(at + sep@.len()));
            Some((a, b))
        },
        None => None,
    }
}

/// The parts of a text between the occurrences of a separator that has at
/// least one character.
pub open spec fn split_text(s: Seq<char>, sep: Seq<char>) -> Seq<Seq<char>>
    decreases s.len(),
{
    match index_of(s, sep) {
        Some(i) => if sep.len() > 0 && 0 <= i && i + sep.len() <= s.len() {
            seq![s.take(i)] + split_text(s.skip(i + sep.len()), sep)
        } else {
            seq![s]
        },
        None => seq![s],
    }
}

pub fn split_by(s: &[char], sep: &str) -> (r: Vec<Vec<char>>)
    requires
        sep@.len() > 0,
    ensures
        texts(r@) == split_text(s@, sep@),
{
    let n = chars_of(sep);
    let mut r: Vec<Vec<char>> = Vec::new();
    let mut rest: Vec<char> = sub_chars(s, 0, s.len());
    assert(rest@ =~= s@);
    assert(texts(r@) + split_text(rest@, sep@) =~= split_text(s@, sep@));
    loop
        invariant
            n@ == sep@,
            sep@.len() > 0,
            texts(r@) + split_text(rest@, sep@) == split_text(s@, sep@),
        decreases rest@.len(),
    {
        let end: usize = rest.len();
        match find(&rest, &n) {
            Some(at) => {
                let head = sub_chars(&rest, 0, at);
                let tail = sub_chars(&rest, at + n.len(), end);
                let ghost before = texts(r@);
                assert(head@ =~= rest@.take(at as int));
                assert(tail@ =~= rest@.skip(at + sep@.len()));
                let ghost first = head@;
                r.push(head);
                assert(texts(r@) =~= before.push(first));
                assert(texts(r@) + split_text(tail@, sep@) =~= before + split_text(rest@, sep@));
                rest = tail;
            },
            None => {
                let ghost before = texts(r@);
                let ghost last = rest@;
                r.push(rest);
                assert(texts(r@) =~= before.push(last));
                assert(texts(r@) =~= split_text(s@, sep@));
                return r;
            },
        }
    }
}

/// A text with each occurrence of a part, from left to right, replaced.
pub open spec fn replaced(s: Seq<char>, from: Seq<char>, to: Seq<char>) -> Seq<char> {
    joined(split_text(s, from), to)
}

pub fn replace(s: &str, from: &str, to: &str) -> (r: String)
    requires
        from@.len() > 0,
    ensures
        r@ == replaced(s@, from@, to@),
{
    let parts = split_by(&chars_of(s), from);
    let ghost all = texts(parts@);
    let mut r: String = String::new();
    let mut i: usize = 0;
    assert(all.take(0) =~= Seq::empty());
    while i < parts.len()
        invariant
            i <= parts@.len(),
            all == texts(parts@),
            r@ == joined(all.take(i as int), to@),
        decreases parts@.len() - i,
    {
        assert(all.take(i + 1).drop_last() =~= all.take(i as int));
        assert(all.take(i + 1).last() == parts@[i as int]@);
        if i > 0 {
            r.append(to);
        }
        r.append(string_of(&parts[i]).as_str());
        if i == 0 {
            assert(r@ =~= joined(all.take(1), to@));
        }
        i += 1;
    }
    assert(all.take(i as int) =~= all);
    r
}

/// Joining a list that is put after a first part.
pub proof fn joined_first(first: Seq<char>, rest: Seq<Seq<char>>, sep: Seq<char>)
    requires
        rest.len() > 0,
    ensures
        joined(seq![first] + rest, sep) == first + sep + joined(rest, sep),
    decreases rest.len(),
{
    let all = seq![first] + rest;
    if rest.len() == 1 {
        assert(all.drop_last() =~= seq![first]);
        assert(all.last() == rest.last());
        assert(rest.drop_last() =~= Seq::empty());
        reveal_with_fuel(joined, 3);
        assert(joined(all, sep) =~= first + sep + joined(rest, sep));
    } else {
        joined_first(first, rest.drop_last(), sep);
        assert(all.drop_last() =~= seq![first] + rest.drop_last());
        assert(all.last() == rest.last());
        assert(joined(all, sep) =~= first + sep + joined(rest, sep));
    }
}

/// Two texts are replaced in apart, where nothing that is replaced stands
/// across the place at which they meet.
pub proof fn replaced_apart(a: Seq<char>, b: Seq<char>, from: Seq<char>, to: Seq<char>)
    requires
        from.len() > 0,
        forall|p: int|
            0 <= p < a.len() < p + from.len() ==> !#[trigger] occurs_at(a + b, from, p),
    ensures
        replaced(a + b, from, to) == replaced(a, from, to) + replaced(b, from, to),
    decreases a.len(),
{
    let s = a + b;
    index_from_finds(a, from, 0);
    index_from_finds(b, from, 0);
    index_from_finds(s, from, 0);
    let n = from.len() as int;
    assert forall|p: int| 0 <= p && p + n <= a.len() implies #[trigger] occurs_at(s, from, p)
        == occurs_at(a, from, p) by {
        assert(s.subrange(p, p + n) =~= a.subrange(p, p + n));
    }
    assert forall|p: int| 0 <= p implies #[trigger] occurs_at(s, from, a.len() + p) == occurs_at(
        b,
        from,
        p,
    ) by {
        if p + n <= b.len() {
            assert(s.subrange(a.len() + p, a.len() + p + n) =~= b.subrange(p, p + n));
        }
    }
    match index_of(a, from) {
        Some(i) => {
            let j = index_of(s, from)->0;
            assert(occurs_at(s, from, i));
            assert(occurs_at(a, from, j));
            assert(i == j);
            let rest = a.skip(i + n);
            assert(s.take(i) =~= a.take(i));
            assert(s.skip(i + n) =~= rest + b);
            assert forall|p: int|
                0 <= p < rest.len() < p + n implies !#[trigger] occurs_at(rest + b, from, p) by {
                assert(!occurs_at(s, from, p + i + n));
                if p + n <= (rest + b).len() {
                    assert((rest + b).subrange(p, p + n) =~= s.subrange(p + i + n, p + i + n + n));
                }
            }
            replaced_apart(rest, b, from, to);
            joined_first(a.take(i), split_text(rest + b, from), to);
            joined_first(a.take(i), split_text(rest, from), to);
            assert(replaced(s, from, to) =~= replaced(a, from, to) + replaced(b, from, to));
        },
        None => {
            assert forall|p: int| 0 <= p < a.len() implies !#[trigger] occurs_at(s, from, p) by {
                if p + n <= a.len() {
                    assert(!occurs_at(a, from, p));
                }
            }
            assert(split_text(a, from) =~= seq![a]);
            assert(replaced(a, from, to) =~= a) by {
                reveal_with_fuel(joined, 2);
            }
            match index_of(b, from) {
                Some(i) => {
                    let j = index_of(s, from);
                    assert(occurs_at(s, from, a.len() + i));
                    assert(j is Some);
                    assert(occurs_at(b, from, j->0 - a.len())) by {
                        assert(occurs_at(s, from, a.len() + (j->0 - a.len())));
                    }
                    assert(j->0 == a.len() + i);
                    let rest = b.skip(i + n);
                    assert(s.take(a.len() + i) =~= a + b.take(i));
                    assert(s.skip(a.len() + i + n) =~= rest);
                    joined_first(a + b.take(i), split_text(rest, from), to);
                    joined_first(b.take(i), split_text(rest, from), to);
                    assert(replaced(s, from, to) =~= a + replaced(b, from, to));
                },
                None => {
                    if index_of(s, from) is Some {
                        let j = index_of(s, from)->0;
                        assert(occurs_at(s, from, a.len() + (j - a.len())));
                        assert(!occurs_at(b, from, j - a.len()));
                    }
                    reveal_with_fuel(joined, 2);
                    assert(split_text(s, from) =~= seq![s]);
                    assert(split_text(b, from) =~= seq![b]);
                },
            }
        },
    }
}

/// A text without the repetitions of a character that it begins with.
pub open spec fn without_leading(s: Seq<char>, c: char) -> Seq<char>
    decreases s.len(),
{
    if s.len() > 0 && s[0] == c {
        without_leading(s.skip(1), c)
    } else {
        s
    }
}

pub fn trim_start_matches(s: &[char], c: char) -> (r: Vec<char>)
    ensures
        r@ == without_leading(s@, c),
{
    let mut i: usize = 0;
    assert(s@.skip(0) =~= s@);
    while i < s.len() && s[i] == c
        invariant
            i <= s@.len(),
            without_leading(s@.skip(i as int), c) == without_leading(s@, c),
        decreases s@.len() - i,
    {
        assert(s@.skip(i as int).skip(1) =~= s@.skip(i + 1));
        i += 1;
    }
    assert(s@.skip(i as int) =~= s@.subrange(i as int, s@.len() as int));
    sub_chars(s, i, s.len())
}

/// A text without the repetitions of a character that it ends with.
pub open spec fn without_trailing(s: Seq<char>, c: char) -> Seq<char>
    decreases s.len(),
{
    if s.len() > 0 && s.last() == c {
        without_trailing(s.drop_last(), c)
    } else {
        s
    }
}

pub fn trim_end_matches(s: &[char], c: char) -> (r: Vec<char>)
    ensures
        r@ == without_trailing(s@, c),
{
    let mut n: usize = s.len();
    assert(s@.take(n as int) =~= s@);
    while n > 0 && s[n - 1] == c
        invariant
            n <= s@.len(),
            without_trailing(s@.take(n as int), c) == without_trailing(s@, c),
        decreases n,
    {
        assert(s@.take(n as int).drop_last() =~= s@.take(n - 1));
        n -= 1;
    }
    assert(s@.take(n as int) =~= s@.subrange(0, n as int));
    sub_chars(s, 0, n)
}

/// A line without the carriage return that it ends with.
pub open spec fn without_cr(s: Seq<char>) -> Seq<char> {
    if s.len() > 0 && s.last() == '\r' {
        s.drop_last()
    } else {
        s
    }
}

/// The lines of a text: the parts that LF or CR LF ends, and what follows the
/// last of them, where anything does.
pub open spec fn text_lines(s: Seq<char>) -> Seq<Seq<char>> {
    let parts = split_on(s, '\n');
    let ended = parts.drop_last().map_values(|p: Seq<char>| without_cr(p));
    if parts.last().len() == 0 {
        ended
    } else {
        ended.push(parts.last())
    }
}

/// Cuts a text into lines; see `text_lines`.
pub fn split_lines(s: &[char]) -> (r: Vec<Vec<char>>)
    ensures
        texts(r@) == text_lines(s@),
{
    let parts = split_chars_on(s, '\n');
    let ghost whole = split_on(s@, '\n');
    let n: usize = parts.len() - 1;
    let mut r: Vec<Vec<char>> = Vec::new();
    let mut i: usize = 0;
    while i < n
        invariant
            i <= n,
            n + 1 == parts@.len(),
            whole == texts(parts@),
            r@.len() == i,
            forall|k: int| 0 <= k < i ==> (#[trigger] r@[k])@ == without_cr(whole[k]),
        decreases n - i,
    {
        let part = &parts[i];
        let end: usize = if part.len() > 0 && part[part.len() - 1] == '\r' {
            part.len() - 1
        } else {
            part.len()
        };
        let line = sub_chars(part, 0, end);
        assert(whole[i as int] == part@);
        assert(line@ =~= without_cr(part@));
        r.push(line);
        i += 1;
    }
    let last = &parts[n];
    assert(whole.last() == last@);
    if last.len() > 0 {
        let line = sub_chars(last, 0, last.len());
        assert(line@ =~= last@);
        r.push(line);
    }
    assert(texts(r@) =~= text_lines(s@));
    r
}

/// The words of a text: its longest runs without white space.
pub open spec fn words_of(s: Seq<char>) -> Seq<Seq<char>>
    decreases s.len(),
{
    if s.len() == 0 {
        Seq::empty()
    } else {
        let before = words_of(s.drop_last());
        if whitespace(s.last()) {
            before
        } else if s.len() > 1 && !whitespace(s[s.len() - 2]) && before.len() > 0 {
            before.drop_last().push(before.last().push(s.last()))
        } else {
            before.push(seq![s.last()])
        }
    }
}

/// Cuts a text into words; see `words_of`.
pub fn split_words(s: &[char]) -> (r: Vec<Vec<char>>)
    ensures
        texts(r@) == words_of(s@),
{
    let mut done: Vec<Vec<char>> = Vec::new();
    let mut current: Vec<char> = Vec::new();
    let mut i: usize = 0;
    assert(texts(done@) =~= Seq::empty());
    while i < s.len()
        invariant
            i <= s@.len(),
            current@.len() > 0 <==> (i > 0 && !whitespace(s@[i - 1])),
            current@.len() > 0 ==> words_of(s@.take(i as int)) == texts(done@).push(current@),
            current@.len() == 0 ==> words_of(s@.take(i as int)) == texts(done@),
        decreases s@.len() - i,
    {
        let c = s[i];
        let ghost before = words_of(s@.take(i as int));
        let ghost now = s@.take(i + 1);
        assert(now.drop_last() =~= s@.take(i as int));
        proof {
            if current@.len() > 0 {
                assert(before.last() == current@);
                assert(before.drop_last() =~= texts(done@));
            }
        }
        if is_whitespace(c) {
            if current.len() > 0 {
                let ghost old_done = done@;
                let ghost old_current = current@;
                done.push(current);
                assert(texts(done@) =~= texts(old_done).push(old_current));
                current = Vec::new();
            }
        } else {
            let ghost old_current = current@;
            current.push(c);
            assert(old_current.len() == 0 ==> current@ =~= seq![c]);
            assert(words_of(now) =~= texts(done@).push(current@));
        }
        i += 1;
    }
    assert(s@.take(i as int) =~= s@);
    if current.len() > 0 {
        let ghost old_done = done@;
        let ghost old_current = current@;
        done.push(current);
        assert(texts(done@) =~= texts(old_done).push(old_current));
    }
    done
}

// ---------------------------------------------------------------------------
// Laws

/// A run without white space, after white space or at the start, is one word.
pub proof fn words_are_runs(s: Seq<char>, word: Seq<char>)
    requires
        s.len() == 0 || whitespace(s.last()),
        word.len() > 0,
        forall|i: int| 0 <= i < word.len() ==> !whitespace(#[trigger] word[i]),
    ensures
        words_of(s + word) == words_of(s).push(word),
    decreases word.len(),
{
    let whole = s + word;
    let shorter = word.drop_last();
    assert(!whitespace(word[word.len() - 1]));
    assert(whole.last() == word.last());
    assert(whole.drop_last() =~= s + shorter);
    if shorter.len() == 0 {
        assert(s + shorter =~= s);
        assert(word =~= seq![word.last()]);
        if whole.len() > 1 {
            assert(whole[whole.len() - 2] == s.last());
        }
    } else {
        assert forall|i: int| 0 <= i < shorter.len() implies !whitespace(#[trigger] shorter[i]) by {
            assert(shorter[i] == word[i]);
        }
        words_are_runs(s, shorter);
        assert(whole[whole.len() - 2] == word[word.len() - 2]);
        let before = words_of(s).push(shorter);
        assert(before.drop_last() =~= words_of(s));
        assert(shorter.push(word.last()) =~= word);
    }
}

/// White space adds no word and ends the one before it.
pub proof fn white_space_is_no_word(s: Seq<char>, c: char)
    requires
        whitespace(c),
    ensures
        words_of(s.push(c)) == words_of(s),
{
    assert(s.push(c).drop_last() =~= s);
}

/// The characters that are white space and those that are not, as far as a
/// command or a path can hold them.
pub proof fn white_space_is_blank()
    ensures
        whitespace(' ') && whitespace('\t') && whitespace('\n') && whitespace('\r'),
        forall|c: char| '!' <= c <= '~' ==> !#[trigger] whitespace(c),
{
}

proof fn trimmed_start_cuts(s: Seq<char>)
    ensures
        ({
            let n = s.len() - trimmed_start(s).len();
            &&& 0 <= n <= s.len()
            &&& trimmed_start(s) == s.skip(n)
            &&& forall|i: int| 0 <= i < n ==> whitespace(#[trigger] s[i])
            &&& n < s.len() ==> !whitespace(s[n])
        }),
    decreases s.len(),
{
    if s.len() > 0 && whitespace(s[0]) {
        trimmed_start_cuts(s.skip(1));
        let n = s.len() - trimmed_start(s).len();
        assert(trimmed_start(s) =~= s.skip(n));
        assert forall|i: int| 0 <= i < n implies whitespace(#[trigger] s[i]) by {
            if i > 0 {
                assert(s.skip(1)[i - 1] == s[i]);
            }
        }
        if n < s.len() {
            assert(s.skip(1)[n - 1] == s[n]);
        }
    } else {
        assert(s.skip(0) =~= s);
    }
}

proof fn trimmed_end_cuts(s: Seq<char>)
    ensures
        ({
            let n = trimmed_end(s).len() as int;
            &&& 0 <= n <= s.len()
            &&& trimmed_end(s) == s.take(n)
            &&& forall|i: int| n <= i < s.len() ==> whitespace(#[trigger] s[i])
            &&& n > 0 ==> !whitespace(s[n - 1])
        }),
    decreases s.len(),
{
    if s.len() > 0 && whitespace(s.last()) {
        trimmed_end_cuts(s.drop_last());
        let n = trimmed_end(s).len() as int;
        assert(trimmed_end(s) =~= s.take(n));
        assert forall|i: int| n <= i < s.len() implies whitespace(#[trigger] s[i]) by {
            if i < s.len() - 1 {
                assert(s.drop_last()[i] == s[i]);
            }
        }
    } else {
        assert(s.take(s.len() as int) =~= s);
    }
}

/// Trimming cuts white space at both ends, all of it, and nothing else.
pub proof fn trimming_cuts_white_space(s: Seq<char>) -> (r: (int, int))
    ensures
        0 <= r.0 <= r.1 <= s.len(),
        trimmed(s) == s.subrange(r.0, r.1),
        forall|i: int| 0 <= i < s.len() && !(r.0 <= i < r.1) ==> whitespace(#[trigger] s[i]),
        r.0 < r.1 ==> !whitespace(s[r.0]) && !whitespace(s[r.1 - 1]),
{
    trimmed_start_cuts(s);
    let t = trimmed_start(s);
    let a = s.len() - t.len();
    trimmed_end_cuts(t);
    let n = trimmed_end(t).len() as int;
    let b = a + n;
    assert(trimmed(s) =~= s.subrange(a, b));
    assert forall|i: int| 0 <= i < s.len() && !(a <= i < b) implies whitespace(#[trigger] s[i]) by {
        if i >= b {
            assert(t[i - a] == s[i]);
        }
    }
    if a < b {
        assert(t[n - 1] == s[b - 1]);
    }
    (a, b)
}

/// A text that begins and ends with something other than white space is its
/// own trimmed text.
pub proof fn trimmed_text_stays(s: Seq<char>)
    requires
        s.len() > 0 ==> !whitespace(s[0]) && !whitespace(s.last()),
    ensures
        trimmed(s) == s,
{
}

proof fn lines_end_with_feeds(lines: Seq<Seq<char>>, text: Seq<char>)
    requires
        text == ended_lines(lines),
        forall|i: int| 0 <= i < lines.len() ==> !(#[trigger] lines[i]).contains('\n'),
    ensures
        split_on(text, '\n') == lines.push(Seq::empty()),
    decreases lines.len(),
{
    if lines.len() == 0 {
        assert(split_on(text, '\n') =~= lines.push(Seq::empty()));
    } else {
        let before = lines.drop_last();
        let line = lines.last();
        assert forall|i: int| 0 <= i < before.len() implies !(#[trigger] before[i]).contains(
            '\n',
        ) by {
            assert(before[i] == lines[i]);
        }
        lines_end_with_feeds(before, ended_lines(before));
        assert(!lines[lines.len() - 1].contains('\n'));
        split_without_separator(line, '\n');
        let head = ended_lines(before);
        assert(text =~= (head + line).push('\n') + Seq::<char>::empty());
        split_at_separator(head + line, Seq::empty(), '\n');
        if before.len() == 0 {
            assert(head + line =~= line);
        } else {
            let inner = head.drop_last();
            assert(head =~= inner.push('\n'));
            split_at_separator(inner, line, '\n');
            split_at_separator(inner, Seq::empty(), '\n');
            assert(head + Seq::<char>::empty() =~= head);
            let none = split_on(Seq::<char>::empty(), '\n');
            assert(none.len() == 1);
            let whole = split_on(inner, '\n') + none;
            assert(whole.drop_last() =~= split_on(inner, '\n'));
            assert(before.push(Seq::empty()).drop_last() =~= before);
            assert(split_on(head + line, '\n') =~= before.push(line));
        }
        assert(split_on(head + line, '\n') =~= lines);
        assert(split_on(text, '\n') =~= lines.push(Seq::empty()));
    }
}

/// Lines with a line feed behind each.
pub open spec fn ended_lines(lines: Seq<Seq<char>>) -> Seq<char>
    decreases lines.len(),
{
    if lines.len() == 0 {
        Seq::empty()
    } else {
        ended_lines(lines.drop_last()) + lines.last() + seq!['\n']
    }
}

/// Lines that are written with a line feed behind each are read back.
pub proof fn lines_read_back(lines: Seq<Seq<char>>)
    requires
        forall|i: int| 0 <= i < lines.len() ==> !(#[trigger] lines[i]).contains('\n'),
        forall|i: int|
            0 <= i < lines.len() && (#[trigger] lines[i]).len() > 0 ==> lines[i].last() != '\r',
    ensures
        text_lines(ended_lines(lines)) == lines,
{
    let text = ended_lines(lines);
    lines_end_with_feeds(lines, text);
    let parts = split_on(text, '\n');
    assert(parts.drop_last() =~= lines);
    assert forall|i: int| 0 <= i < lines.len() implies without_cr(#[trigger] lines[i])
        == lines[i] by {}
    assert(text_lines(text) =~= lines);
}

/// A text parts at the first occurrence of a separator.
pub proof fn texts_part_at_the_separator(a: Seq<char>, sep: Seq<char>, b: Seq<char>)
    requires
        forall|p: int| 0 <= p < a.len() ==> !#[trigger] occurs_at(a + sep + b, sep, p),
    ensures
        parted(a + sep + b, sep) == Some((a, b)),
{
    let s = a + sep + b;
    index_from_finds(s, sep, 0);
    assert(s.subrange(a.len() as int, a.len() + sep.len() as int) =~= sep);
    assert(occurs_at(s, sep, a.len() as int));
    let i = index_of(s, sep)->0;
    assert(s.take(a.len() as int) =~= a);
    assert(s.skip(a.len() + sep.len() as int) =~= b);
}

/// A text is found where it stands first, and is not found where it does not
/// stand.
pub proof fn texts_are_found_where_they_stand_first(
    a: Seq<char>,
    needle: Seq<char>,
    b: Seq<char>,
)
    requires
        forall|p: int| 0 <= p < a.len() ==> !#[trigger] occurs_at(a + needle + b, needle, p),
    ensures
        index_of(a + needle + b, needle) == Some(a.len() as int),
        occurs(a + needle + b, needle),
{
    let s = a + needle + b;
    assert(s.subrange(a.len() as int, a.len() as int + needle.len() as int) =~= needle);
    assert(occurs_at(s, needle, a.len() as int));
    index_from_finds(s, needle, 0);
}

/// A character that is repeated at the beginning or at the end of a text is
/// taken away there, and nowhere else.
pub proof fn repeated_characters_are_taken_away(s: Seq<char>, c: char)
    ensures
        without_leading(seq![c] + s, c) == without_leading(s, c),
        without_trailing(s.push(c), c) == without_trailing(s, c),
        s.len() == 0 || s[0] != c ==> without_leading(s, c) == s,
        s.len() == 0 || s.last() != c ==> without_trailing(s, c) == s,
{
    assert((seq![c] + s).skip(1) =~= s);
    assert(s.push(c).drop_last() =~= s);
}

/// Letters are put into lower case, and other characters stay.
pub proof fn letters_are_lowered(c: char)
    ensures
        ascii_lower('A') == 'a' && ascii_lower('Z') == 'z',
        !('A' <= c <= 'Z') ==> ascii_lower(c) == c,
        'A' <= c <= 'Z' ==> ascii_lower(c) as u32 == c as u32 + 32,
{
}

} // verus!
