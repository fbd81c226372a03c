//! Text helpers whose meaning is stated over the characters of a string.
use vstd::prelude::*;

verus! {

/// The characters with the Unicode property `White_Space`.
pub open spec fn is_white_space(c: char) -> bool {
    let n = c as u32;
    ||| 0x9 <= n <= 0xd
    ||| n == 0x20
    ||| n == 0x85
    ||| n == 0xa0
    ||| n == 0x1680
    ||| 0x2000 <= n <= 0x200a
    ||| n == 0x2028
    ||| n == 0x2029
    ||| n == 0x202f
    ||| n == 0x205f
    ||| n == 0x3000
}

/// `s` without its leading white space.
pub open spec fn trimmed_left(s: Seq<char>) -> Seq<char>
    decreases s.len(),
{
    if s.len() > 0 && is_white_space(s[0]) {
        trimmed_left(s.skip(1))
    } else {
        s
    }
}

/// `s` without its trailing white space.
pub open spec fn trimmed_right(s: Seq<char>) -> Seq<char>
    decreases s.len(),
{
    if s.len() > 0 && is_white_space(s.last()) {
        trimmed_right(s.drop_last())
    } else {
        s
    }
}

/// `s` without the white space at both ends.
pub open spec fn trimmed(s: Seq<char>) -> Seq<char> {
    trimmed_right(trimmed_left(s))
}

/// Nothing but white space.
pub open spec fn is_blank(s: Seq<char>) -> bool {
    trimmed(s).len() == 0
}

/// `s` without any leading copies of `prefix`.
pub open spec fn without_prefixes(s: Seq<char>, prefix: Seq<char>) -> Seq<char>
    decreases s.len(),
{
    if prefix.len() > 0 && prefix.is_prefix_of(s) {
        without_prefixes(s.skip(prefix.len() as int), prefix)
    } else {
        s
    }
}

/// `s` without any trailing copies of `suffix`.
pub open spec fn without_suffixes(s: Seq<char>, suffix: Seq<char>) -> Seq<char>
    decreases s.len(),
{
    if suffix.len() > 0 && suffix.is_suffix_of(s) {
        without_suffixes(s.take(s.len() - suffix.len()), suffix)
    } else {
        s
    }
}

/// `part` occurs in `s` as a run of neighbouring characters.
pub open spec fn occurs_in(part: Seq<char>, s: Seq<char>) -> bool {
    exists|i: int| occurs_at(part, s, i)
}

/// `part` occurs in `s` starting at position `i`.
pub open spec fn occurs_at(part: Seq<char>, s: Seq<char>, i: int) -> bool {
    0 <= i && i + part.len() <= s.len() && s.subrange(i, i + part.len()) == part
}

/// The pieces of `s` between the occurrences of `separator`, empty ones included.
pub open spec fn pieces(s: Seq<char>, separator: char) -> Seq<Seq<char>>
    decreases s.len(),
{
    if s.len() == 0 {
        seq![Seq::<char>::empty()]
    } else {
        let before = pieces(s.drop_last(), separator);
        if s.last() == separator {
            before.push(Seq::<char>::empty())
        } else {
            before.drop_last().push(before.last().push(s.last()))
        }
    }
}

/// The ASCII digit that stands for `d`.
pub open spec fn digit(d: nat) -> char {
    (48 + d) as char
}

/// The decimal notation of `n`, without leading zeros.
pub open spec fn decimal(n: nat) -> Seq<char>
    decreases n,
{
    if n < 10 {
        seq![digit(n)]
    } else {
        decimal(n / 10).push(digit(n % 10))
    }
}

/// An ASCII digit.
pub open spec fn is_digit(c: char) -> bool {
    '0' <= c <= '9'
}

/// The number that a run of digits denotes.
pub open spec fn decimal_value(s: Seq<char>) -> nat
    decreases s.len(),
{
    if s.len() == 0 {
        0
    } else {
        decimal_value(s.drop_last()) * 10 + (s.last() as u32 - 48) as nat
    }
}

/// At least one digit and nothing else.
pub open spec fn all_digits(s: Seq<char>) -> bool {
    s.len() > 0 && forall|i: int| 0 <= i < s.len() ==> is_digit(#[trigger] s[i])
}

/// The `u32` that `s` denotes: an optional `+`, then at least one digit.
pub open spec fn parsed_u32(s: Seq<char>) -> Option<u32> {
    let digits = if s.len() > 0 && s[0] == '+' { s.skip(1) } else { s };
    if all_digits(digits) && decimal_value(digits) <= u32::MAX {
        Some(decimal_value(digits) as u32)
    } else {
        None
    }
}

/// The views of a list of strings.
pub open spec fn texts(list: Seq<String>) -> Seq<Seq<char>> {
    list.map_values(|s: String| s@)
}

/// The text of an optional string slice.
pub open spec fn opt_str(s: Option<&str>) -> Option<Seq<char>> {
    match s {
        Some(t) => Some(t@),
        None => None,
    }
}

/// The text of an optional string.
pub open spec fn opt_text(s: Option<String>) -> Option<Seq<char>> {
    match s {
        Some(t) => Some(t@),
        None => None,
    }
}

/// A text of ASCII characters only.
pub open spec fn all_ascii(s: Seq<char>) -> bool {
    forall|i: int| 0 <= i < s.len() ==> (#[trigger] s[i]) as u32 <= 0x7f
}

/// The letters `A` to `Z` as `a` to `z`, anything else as it is.
pub open spec fn ascii_lower(c: char) -> char {
    if 'A' <= c <= 'Z' {
        (c as u32 + 32) as char
    } else {
        c
    }
}

/// What `str::to_lowercase` makes of a text.
pub uninterp spec fn lowercase_of(s: Seq<char>) -> Seq<char>;

/// Calls `str::to_lowercase`. Its result is a function of the text, called
/// `lowercase_of`; in a text of ASCII characters it is the letters `A` to `Z`
/// that change, so that nothing is left to change in the result.
#[verifier::external_body]
pub(crate) fn lowercase(s: &str) -> (r: String)
    ensures
        r@ == lowercase_of(s@),
        all_ascii(s@) ==> r@ == s@.map_values(|c: char| ascii_lower(c)) && lowercase_of(r@) == r@,
{
    s.to_lowercase()
}

/// A text that neither begins nor ends with white space.
pub open spec fn is_trimmed(s: Seq<char>) -> bool {
    s.len() > 0 ==> !is_white_space(s[0]) && !is_white_space(s.last())
}

proof fn lemma_trimmed_left(s: Seq<char>)
    ensures
        trimmed_left(s).len() > 0 ==> !is_white_space(trimmed_left(s)[0]),
    decreases s.len(),
{
    if s.len() > 0 && is_white_space(s[0]) {
        lemma_trimmed_left(s.skip(1));
    }
}

proof fn lemma_trimmed_right(s: Seq<char>)
    ensures
        trimmed_right(s).len() <= s.len(),
        trimmed_right(s) == s.take(trimmed_right(s).len() as int),
        trimmed_right(s).len() > 0 ==> !is_white_space(trimmed_right(s).last()),
    decreases s.len(),
{
    if s.len() > 0 && is_white_space(s.last()) {
        lemma_trimmed_right(s.drop_last());
        assert(trimmed_right(s) =~= s.take(trimmed_right(s).len() as int));
    } else {
        assert(s.take(s.len() as int) =~= s);
    }
}

/// Trimming leaves no white space at either end, and there is nothing to trim
/// where there is none.
pub proof fn lemma_trimmed(s: Seq<char>)
    ensures
        is_trimmed(trimmed(s)),
        is_trimmed(s) ==> trimmed(s) == s,
{
    lemma_trimmed_left(s);
    lemma_trimmed_right(trimmed_left(s));
}

/// The text that may be there, borrowed.
pub fn borrowed(value: &Option<String>) -> (r: Option<&str>)
    ensures
        opt_str(r) == opt_text(*value),
{
    match value {
        Some(s) => Some(s.as_str()),
        None => None,
    }
}

/// The characters of a string, in order.
pub fn chars_of(s: &str) -> (chars: Vec<char>)
    ensures
        chars@ == s@,
{
    let mut chars: Vec<char> = Vec::new();
    for c in it: s.chars()
        invariant
            it.seq() == s@,
            chars@ == it.seq().take(it.index()),
    {
        chars.push(c);
        assert(it.seq().take(it.index() + 1) =~= it.seq().take(it.index()).push(c));
    }
    assert(s@.take(s@.len() as int) =~= s@);
    chars
}

/// Whether two strings hold the same characters.
pub fn str_eq(a: &str, b: &str) -> (same: bool)
    ensures
        same == (a@ == b@),
{
    let x = a.as_bytes();
    let y = b.as_bytes();
    proof {
        vstd::utf8::encode_utf8_decode_utf8(a@);
        vstd::utf8::encode_utf8_decode_utf8(b@);
    }
    if x.len() != y.len() {
        return false;
    }
    let mut i: usize = 0;
    while i < x.len()
        invariant
            0 <= i <= x.len(),
            x@.len() == y@.len(),
            x@ == vstd::utf8::encode_utf8(a@),
            y@ == vstd::utf8::encode_utf8(b@),
            forall|j: int| 0 <= j < i ==> x@[j] == y@[j],
        decreases x.len() - i,
    {
        if x[i] != y[i] {
            return false;
        }
        i = i + 1;
    }
    assert(x@ =~= y@);
    true
}

/// Whether a character is white space.
pub fn white_space(c: char) -> (r: bool)
    ensures
        r == is_white_space(c),
{
    let n: u32 = c as u32;
    (0x9 <= n && n <= 0xd) || n == 0x20 || n == 0x85 || n == 0xa0 || n == 0x1680 || (0x2000 <= n
        && n <= 0x200a) || n == 0x2028 || n == 0x2029 || n == 0x202f || n == 0x205f || n == 0x3000
}

/// The string without the white space at both ends.
pub fn trim(s: &str) -> (r: &str)
    ensures
        r@ == trimmed(s@),
{
    let chars = chars_of(s);
    let len: usize = chars.len();
    let mut lo: usize = 0;
    assert(s@.skip(0) =~= s@);
    while lo < len && white_space(chars[lo])
        invariant
            chars@ == s@,
            len == chars.len(),
            lo <= len,
            trimmed_left(s@) == trimmed_left(s@.skip(lo as int)),
        decreases len - lo,
    {
        assert(s@.skip(lo as int).skip(1) =~= s@.skip(lo + 1));
        lo = lo + 1;
    }
    assert(trimmed_left(s@) == s@.skip(lo as int));
    let mut hi: usize = len;
    assert(s@.subrange(lo as int, hi as int) =~= s@.skip(lo as int));
    while hi > lo && white_space(chars[hi - 1])
        invariant
            chars@ == s@,
            len == chars.len(),
            lo <= hi <= len,
            trimmed(s@) == trimmed_right(s@.subrange(lo as int, hi as int)),
        decreases hi,
    {
        assert(s@.subrange(lo as int, hi as int).drop_last() =~= s@.subrange(lo as int, hi - 1));
        hi = hi - 1;
    }
    s.substring_char(lo, hi)
}

/// Whether a string is empty or all white space.
pub fn blank(s: &str) -> (r: bool)
    ensures
        r == is_blank(s@),
{
    trim(s).is_empty()
}

/// Whether `part` stands in `chars` at position `i`.
fn matches_at(chars: &Vec<char>, part: &Vec<char>, i: usize) -> (r: bool)
    requires
        i + part@.len() <= chars@.len(),
    ensures
        r == (chars@.subrange(i as int, i + part@.len()) == part@),
{
    let len: usize = chars.len();
    let mut j: usize = 0;
    while j < part.len()
        invariant
            len == chars@.len(),
            j <= part@.len(),
            i + part@.len() <= chars@.len(),
            forall|k: int| 0 <= k < j ==> chars@[i + k] == part@[k],
        decreases part@.len() - j,
    {
        if chars[i + j] != part[j] {
            assert(chars@.subrange(i as int, i + part@.len())[j as int] != part@[j as int]);
            return false;
        }
        j = j + 1;
    }
    assert(chars@.subrange(i as int, i + part@.len()) =~= part@);
    true
}

/// Whether `part` occurs in `s`.
pub fn contains_text(s: &str, part: &str) -> (r: bool)
    ensures
        r == occurs_in(part@, s@),
{
    let chars = chars_of(s);
    let wanted = chars_of(part);
    if wanted.len() > chars.len() {
        return false;
    }
    let mut i: usize = 0;
    while i <= chars.len() - wanted.len()
        invariant
            chars@ == s@,
            wanted@ == part@,
            wanted@.len() <= chars@.len(),
            i <= chars@.len() - wanted@.len() + 1,
            forall|k: int| 0 <= k < i ==> !occurs_at(part@, s@, k),
        decreases chars@.len() - i + 1,
    {
        if matches_at(&chars, &wanted, i) {
            assert(occurs_at(part@, s@, i as int));
            return true;
        }
        if i == chars.len() - wanted.len() {
            return false;
        }
        i = i + 1;
    }
    false
}

/// What is left of `s` behind `prefix`, if it starts with it.
pub fn strip_prefix<'a>(s: &'a str, prefix: &str) -> (r: Option<&'a str>)
    ensures
        match r {
            Some(rest) => prefix@.is_prefix_of(s@) && rest@ == s@.skip(prefix@.len() as int),
            None => !prefix@.is_prefix_of(s@),
        },
{
    let chars = chars_of(s);
    let wanted = chars_of(prefix);
    if wanted.len() > chars.len() {
        return None;
    }
    assert(prefix@.is_prefix_of(s@) <==> s@.subrange(0, prefix@.len() as int) == prefix@);
    if matches_at(&chars, &wanted, 0) {
        Some(s.substring_char(wanted.len(), chars.len()))
    } else {
        None
    }
}

/// The string without any leading copies of `prefix`.
pub fn trim_start_matches<'a>(s: &'a str, prefix: &str) -> (r: &'a str)
    ensures
        r@ == without_prefixes(s@, prefix@),
{
    let chars = chars_of(s);
    let wanted = chars_of(prefix);
    let n: usize = wanted.len();
    let mut lo: usize = 0;
    assert(s@.skip(0) =~= s@);
    while n > 0 && n <= chars.len() - lo && matches_at(&chars, &wanted, lo)
        invariant
            chars@ == s@,
            wanted@ == prefix@,
            n == wanted@.len(),
            lo <= chars@.len(),
            without_prefixes(s@, prefix@) == without_prefixes(s@.skip(lo as int), prefix@),
        decreases chars@.len() - lo,
    {
        proof {
            let rest = s@.skip(lo as int);
            assert(rest.subrange(0, n as int) =~= s@.subrange(lo as int, lo + n));
            assert(prefix@.is_prefix_of(rest));
            assert(rest.skip(n as int) =~= s@.skip(lo + n));
        }
        lo = lo + n;
    }
    proof {
        let rest = s@.skip(lo as int);
        if n > 0 && prefix@.is_prefix_of(rest) {
            assert(s@.subrange(lo as int, lo + n) =~= rest.subrange(0, n as int));
            assert(false);
        }
    }
    s.substring_char(lo, chars.len())
}

/// The string without any trailing copies of `suffix`.
pub fn trim_end_matches<'a>(s: &'a str, suffix: &str) -> (r: &'a str)
    ensures
        r@ == without_suffixes(s@, suffix@),
{
    let chars = chars_of(s);
    let wanted = chars_of(suffix);
    let n: usize = wanted.len();
    let mut hi: usize = chars.len();
    assert(s@.take(hi as int) =~= s@);
    while n > 0 && n <= hi && matches_at(&chars, &wanted, hi - n)
        invariant
            chars@ == s@,
            wanted@ == suffix@,
            n == wanted@.len(),
            hi <= chars@.len(),
            without_suffixes(s@, suffix@) == without_suffixes(s@.take(hi as int), suffix@),
        decreases hi,
    {
        proof {
            let rest = s@.take(hi as int);
            assert(rest.subrange(hi - n, hi as int) =~= s@.subrange(hi - n, hi as int));
            assert(suffix@.is_suffix_of(rest));
            assert(rest.take(hi - n) =~= s@.take(hi - n));
        }
        hi = hi - n;
    }
    proof {
        let rest = s@.take(hi as int);
        if n > 0 && suffix@.is_suffix_of(rest) {
            assert(s@.subrange(hi - n, hi as int) =~= rest.subrange(hi - n, hi as int));
            assert(false);
        }
    }
    assert(s@.subrange(0, hi as int) =~= s@.take(hi as int));
    s.substring_char(0, hi)
}

/// The pieces of `s` between the occurrences of `separator`, empty ones included.
pub fn split<'a>(s: &'a str, separator: char) -> (r: Vec<&'a str>)
    ensures
        r@.map_values(|p: &str| p@) == pieces(s@, separator),
{
    let chars = chars_of(s);
    let mut done: Vec<&'a str> = Vec::new();
    let mut start: usize = 0;
    let mut i: usize = 0;
    assert(s@.take(0) =~= Seq::<char>::empty());
    assert(done@.map_values(|p: &str| p@).push(s@.subrange(0, 0)) =~= pieces(s@.take(0), separator));
    while i < chars.len()
        invariant
            chars@ == s@,
            start <= i <= chars@.len(),
            done@.map_values(|p: &str| p@).push(s@.subrange(start as int, i as int)) == pieces(
                s@.take(i as int),
                separator,
            ),
        decreases chars@.len() - i,
    {
        let ghost before = done@.map_values(|p: &str| p@);
        let ghost current = s@.subrange(start as int, i as int);
        assert(s@.take(i + 1).drop_last() =~= s@.take(i as int));
        if chars[i] == separator {
            done.push(s.substring_char(start, i));
            start = i + 1;
            assert(done@.map_values(|p: &str| p@) =~= before.push(current));
            assert(s@.subrange(start as int, i + 1) =~= Seq::<char>::empty());
        } else {
            assert(before.push(current).drop_last() =~= before);
            assert(s@.subrange(start as int, i + 1) =~= current.push(s@[i as int]));
        }
        i = i + 1;
    }
    assert(s@.take(s@.len() as int) =~= s@);
    let ghost before = done@.map_values(|p: &str| p@);
    done.push(s.substring_char(start, chars.len()));
    assert(done@.map_values(|p: &str| p@) =~= before.push(
        s@.subrange(start as int, s@.len() as int),
    ));
    done
}

fn digit_text(d: u64) -> (r: &'static str)
    requires
        d < 10,
    ensures
        r@ == seq![digit(d as nat)],
{
    proof {
        reveal_strlit("0");
        reveal_strlit("1");
        reveal_strlit("2");
        reveal_strlit("3");
        reveal_strlit("4");
        reveal_strlit("5");
        reveal_strlit("6");
        reveal_strlit("7");
        reveal_strlit("8");
        reveal_strlit("9");
    }
    let r = match d {
        0 => "0",
        1 => "1",
        2 => "2",
        3 => "3",
        4 => "4",
        5 => "5",
        6 => "6",
        7 => "7",
        8 => "8",
        _ => "9",
    };
    assert(r@ =~= seq![digit(d as nat)]);
    r
}

/// The decimal notation of a number.
pub fn decimal_text(n: u64) -> (r: String)
    ensures
        r@ == decimal(n as nat),
    decreases n,
{
    if n < 10 {
        digit_text(n).to_owned()
    } else {
        let mut r = decimal_text(n / 10);
        r.append(digit_text(n % 10));
        assert(r@ =~= decimal((n / 10) as nat).push(digit((n % 10) as nat)));
        r
    }
}

proof fn lemma_decimal_value_grows(s: Seq<char>, n: int)
    requires
        0 <= n <= s.len(),
    ensures
        decimal_value(s.take(n)) <= decimal_value(s),
    decreases s.len(),
{
    if n == s.len() {
        assert(s.take(n) =~= s);
    } else {
        lemma_decimal_value_grows(s.drop_last(), n);
        assert(s.drop_last().take(n) =~= s.take(n));
    }
}

/// Reads a `u32` in decimal notation, with an optional `+` in front.
pub fn parse_u32(s: &str) -> (r: Option<u32>)
    ensures
        r == parsed_u32(s@),
{
    let chars = chars_of(s);
    let start: usize = if chars.len() > 0 && chars[0] == '+' { 1 } else { 0 };
    let ghost digits = s@.skip(start as int);
    assert(s@.skip(0) =~= s@);
    if start == chars.len() {
        return None;
    }
    let mut value: u32 = 0;
    let mut i: usize = start;
    assert(digits.take(0) =~= Seq::<char>::empty());
    while i < chars.len()
        invariant
            chars@ == s@,
            start <= i <= chars@.len(),
            start == (if s@.len() > 0 && s@[0] == '+' { 1int } else { 0 }),
            digits == s@.skip(start as int),
            start == 0 ==> digits == s@,
            digits.len() > 0,
            value == decimal_value(digits.take(i - start)),
            forall|k: int| 0 <= k < i - start ==> is_digit(#[trigger] digits[k]),
        decreases chars@.len() - i,
    {
        let c: char = chars[i];
        assert(digits[i - start] == c);
        if c < '0' || c > '9' {
            assert(!all_digits(digits));
            return None;
        }
        let d: u32 = c as u32 - 48;
        proof {
            assert(digits.take(i - start + 1).drop_last() =~= digits.take(i - start));
            lemma_decimal_value_grows(digits, i - start + 1);
        }
        let wide: u64 = value as u64 * 10 + d as u64;
        if wide > 0xffff_ffff {
            return None;
        }
        value = wide as u32;
        i = i + 1;
    }
    assert(digits.take(i - start) =~= digits);
    Some(value)
}

/// The characters that count as white space are these and no others.
pub proof fn law_white_space(c: char)
    ensures
        is_white_space(c) <==> {
            let n = c as u32;
            n == 9 || n == 10 || n == 11 || n == 12 || n == 13 || n == 32 || n == 133 || n == 160
                || n == 5760 || (8192 <= n && n <= 8202) || n == 8232 || n == 8233 || n == 8239 || n
                == 8287 || n == 12288
        },
{
}

/// All characters are white space.
pub open spec fn all_white(s: Seq<char>) -> bool {
    forall|i: int| 0 <= i < s.len() ==> is_white_space(#[trigger] s[i])
}

proof fn lemma_cut_left(s: Seq<char>) -> (cut: Seq<char>)
    ensures
        s == cut + trimmed_left(s),
        all_white(cut),
    decreases s.len(),
{
    if s.len() > 0 && is_white_space(s[0]) {
        let rest = lemma_cut_left(s.skip(1));
        let cut = seq![s[0]] + rest;
        assert(s.skip(1) == rest + trimmed_left(s.skip(1)));
        assert(s =~= seq![s[0]] + s.skip(1));
        assert(s =~= cut + trimmed_left(s));
        cut
    } else {
        let cut = Seq::<char>::empty();
        assert(s =~= cut + s);
        cut
    }
}

proof fn lemma_cut_right(s: Seq<char>) -> (cut: Seq<char>)
    ensures
        s == trimmed_right(s) + cut,
        all_white(cut),
    decreases s.len(),
{
    if s.len() > 0 && is_white_space(s.last()) {
        let rest = lemma_cut_right(s.drop_last());
        let cut = rest.push(s.last());
        assert(s.drop_last() == trimmed_right(s.drop_last()) + rest);
        assert(s =~= s.drop_last().push(s.last()));
        assert(s =~= trimmed_right(s) + cut);
        cut
    } else {
        let cut = Seq::<char>::empty();
        assert(s =~= s + cut);
        cut
    }
}

/// Trimming takes white space off both ends, all of it and nothing else.
pub proof fn law_trimming_takes_white_space(s: Seq<char>)
    ensures
        exists|before: Seq<char>, after: Seq<char>|
            #![trigger before + trimmed(s) + after]
            s == before + trimmed(s) + after && all_white(before) && all_white(after),
        trimmed(s).len() > 0 ==> !is_white_space(trimmed(s)[0]) && !is_white_space(
            trimmed(s).last(),
        ),
        is_blank(s) <==> all_white(s),
{
    let before = lemma_cut_left(s);
    let after = lemma_cut_right(trimmed_left(s));
    lemma_trimmed(s);
    assert(s =~= before + trimmed(s) + after);
    if is_blank(s) {
        assert forall|i: int| 0 <= i < s.len() implies is_white_space(#[trigger] s[i]) by {
            if i < before.len() {
                assert(s[i] == before[i]);
            } else {
                assert(s[i] == after[i - before.len()]);
            }
        }
    } else {
        assert(trimmed(s)[0] == s[before.len() as int]);
    }
}

proof fn lemma_pieces(s: Seq<char>, separator: char)
    ensures
        pieces(s, separator).len() > 0,
        forall|i: int|
            0 <= i < pieces(s, separator).len() ==> !(#[trigger] pieces(s, separator)[i]).contains(
                separator,
            ),
    decreases s.len(),
{
    if s.len() == 0 {
        assert(pieces(s, separator)[0] =~= Seq::<char>::empty());
    } else {
        let before = pieces(s.drop_last(), separator);
        lemma_pieces(s.drop_last(), separator);
        if s.last() != separator {
            let grown = before.last().push(s.last());
            assert forall|k: int| 0 <= k < grown.len() implies grown[k] != separator by {
                if k < before.last().len() {
                    assert(before.last().contains(before.last()[k]));
                    assert(!before[before.len() - 1].contains(separator));
                }
            }
            assert(!grown.contains(separator));
        }
    }
}

/// The pieces, put together again with the separator between them.
pub open spec fn joined(list: Seq<Seq<char>>, separator: char) -> Seq<char>
    decreases list.len(),
{
    if list.len() == 0 {
        Seq::empty()
    } else if list.len() == 1 {
        list[0]
    } else {
        joined(list.drop_last(), separator).push(separator) + list.last()
    }
}

/// Splitting loses nothing: the pieces, joined by the separator, are the text
/// again, and no piece holds a separator.
pub proof fn law_pieces_make_up_the_text(s: Seq<char>, separator: char)
    ensures
        joined(pieces(s, separator), separator) == s,
        pieces(s, separator).len() > 0,
        forall|i: int|
            0 <= i < pieces(s, separator).len() ==> !(#[trigger] pieces(s, separator)[i]).contains(
                separator,
            ),
    decreases s.len(),
{
    lemma_pieces(s, separator);
    if s.len() > 0 {
        let short = s.drop_last();
        let before = pieces(short, separator);
        lemma_pieces(short, separator);
        law_pieces_make_up_the_text(short, separator);
        assert(s =~= short.push(s.last()));
        let all = pieces(s, separator);
        if s.last() == separator {
            assert(all.drop_last() =~= before);
            assert(joined(all, separator) =~= short.push(separator));
        } else {
            assert(all.drop_last() =~= before.drop_last());
            if before.len() == 1 {
                assert(joined(all, separator) =~= before[0].push(s.last()));
            } else {
                assert(joined(all, separator) =~= joined(before, separator).push(s.last()));
            }
        }
    } else {
        assert(pieces(s, separator)[0] =~= s);
    }
}

/// Numbers are written in decimal: one digit below ten, else the digits of a
/// tenth and one more.
pub proof fn law_decimal_notation(n: nat, d: nat)
    requires
        d < 10,
    ensures
        decimal(d) == seq![('0' as u32 + d) as char],
        n > 0 ==> decimal(n * 10 + d) == decimal(n).push(('0' as u32 + d) as char),
{
    assert('0' as u32 == 48);
    if n > 0 {
        assert((n * 10 + d) / 10 == n && (n * 10 + d) % 10 == d);
    }
}

proof fn lemma_decimal(n: nat)
    ensures
        all_digits(decimal(n)),
        decimal_value(decimal(n)) == n,
    decreases n,
{
    reveal_with_fuel(decimal_value, 2);
    if n < 10 {
        let s = decimal(n);
        assert(s.drop_last() =~= Seq::<char>::empty());
        assert(decimal_value(s.drop_last()) == 0);
        assert(s.last() as u32 - 48 == n);
    } else {
        lemma_decimal(n / 10);
        let s = decimal(n);
        assert(s.drop_last() =~= decimal(n / 10));
        assert(s.last() as u32 - 48 == n % 10);
        assert forall|i: int| 0 <= i < s.len() implies is_digit(#[trigger] s[i]) by {
            if i < s.len() - 1 {
                assert(s[i] == decimal(n / 10)[i]);
            }
        }
    }
}

/// What is written of a number is read back as that number, with or without a
/// plus sign, as far as a `u32` goes; nothing is read of a number beyond that.
pub proof fn law_numbers_are_read_back(n: nat)
    ensures
        n <= u32::MAX ==> parsed_u32(decimal(n)) == Some(n as u32) && parsed_u32(
            seq!['+'] + decimal(n),
        ) == Some(n as u32),
        n > u32::MAX ==> parsed_u32(decimal(n)) is None,
{
    lemma_decimal(n);
    let signed = seq!['+'] + decimal(n);
    assert(signed.skip(1) =~= decimal(n));
    assert(is_digit(decimal(n)[0]));
}

/// What holds anything but digits behind at most one plus sign is no number, and
/// neither is nothing.
pub proof fn law_no_number_without_digits(s: Seq<char>, i: int)
    requires
        s.len() == 0 || s == seq!['+'] || (0 <= i < s.len() && !('0' <= s[i] <= '9') && (i > 0 || s[i]
            != '+')),
    ensures
        parsed_u32(s) is None,
{
    if s.len() > 0 && s[0] == '+' {
        let digits = s.skip(1);
        if digits.len() > 0 && i > 0 {
            assert(digits[i - 1] == s[i]);
            assert(!is_digit(digits[i - 1]));
        }
    } else if s.len() > 0 {
        assert(!is_digit(s[i]));
    }
}

/// Copies of `part`, one after another.
pub open spec fn copies(part: Seq<char>, n: nat) -> Seq<char>
    decreases n,
{
    if n == 0 {
        Seq::empty()
    } else {
        part + copies(part, (n - 1) as nat)
    }
}

proof fn lemma_copies_shift(part: Seq<char>, n: nat)
    ensures
        part + copies(part, n) == copies(part, n) + part,
    decreases n,
{
    if n > 0 {
        lemma_copies_shift(part, (n - 1) as nat);
        let less = copies(part, (n - 1) as nat);
        assert(part + copies(part, n) =~= part + (less + part));
        assert(part + (less + part) =~= (part + less) + part);
    } else {
        assert(part + copies(part, n) =~= copies(part, n) + part);
    }
}

/// Taking leading copies of a prefix off takes all of them and nothing else.
pub proof fn law_all_prefixes_come_off(s: Seq<char>, prefix: Seq<char>)
    requires
        prefix.len() > 0,
    ensures
        exists|n: nat| s == #[trigger] copies(prefix, n) + without_prefixes(s, prefix),
        !prefix.is_prefix_of(without_prefixes(s, prefix)),
    decreases s.len(),
{
    if prefix.is_prefix_of(s) {
        let rest = s.skip(prefix.len() as int);
        law_all_prefixes_come_off(rest, prefix);
        let n = choose|n: nat| rest == #[trigger] copies(prefix, n) + without_prefixes(rest, prefix);
        assert(s =~= prefix + rest);
        assert(s =~= copies(prefix, n + 1) + without_prefixes(s, prefix));
    } else {
        assert(s =~= copies(prefix, 0) + s);
    }
}

/// Taking trailing copies of a suffix off takes all of them and nothing else.
pub proof fn law_all_suffixes_come_off(s: Seq<char>, suffix: Seq<char>)
    requires
        suffix.len() > 0,
    ensures
        exists|n: nat| s == without_suffixes(s, suffix) + #[trigger] copies(suffix, n),
        !suffix.is_suffix_of(without_suffixes(s, suffix)),
    decreases s.len(),
{
    if suffix.is_suffix_of(s) {
        let rest = s.take(s.len() - suffix.len());
        law_all_suffixes_come_off(rest, suffix);
        let n = choose|n: nat| rest == without_suffixes(rest, suffix) + #[trigger] copies(suffix, n);
        lemma_copies_shift(suffix, n);
        assert(s =~= rest + suffix);
        assert(s =~= without_suffixes(s, suffix) + (copies(suffix, n) + suffix));
        assert(copies(suffix, n + 1) == suffix + copies(suffix, n));
    } else {
        assert(s =~= s + copies(suffix, 0));
    }
}

/// Lowering ASCII letters changes `A` to `Z` into `a` to `z`, and nothing else.
pub proof fn law_ascii_letters_are_lowered(c: char)
    ensures
        'A' <= c <= 'Z' ==> ascii_lower(c) as u32 == c as u32 + 32,
        !('A' <= c <= 'Z') ==> ascii_lower(c) == c,
{
}

proof fn lemma_padded_left(before: Seq<char>, rest: Seq<char>)
    requires
        all_white(before),
        rest.len() > 0,
        !is_white_space(rest[0]),
    ensures
        trimmed_left(before + rest) == rest,
    decreases before.len(),
{
    if before.len() > 0 {
        assert((before + rest)[0] == before[0]);
        assert((before + rest).skip(1) =~= before.skip(1) + rest);
        lemma_padded_left(before.skip(1), rest);
    } else {
        assert(before + rest =~= rest);
    }
}

proof fn lemma_padded_right(rest: Seq<char>, after: Seq<char>)
    requires
        all_white(after),
        rest.len() > 0,
        !is_white_space(rest.last()),
    ensures
        trimmed_right(rest + after) == rest,
    decreases after.len(),
{
    if after.len() > 0 {
        assert((rest + after).last() == after[after.len() - 1]);
        assert((rest + after).drop_last() =~= rest + after.drop_last());
        lemma_padded_right(rest, after.drop_last());
    } else {
        assert(rest + after =~= rest);
    }
}

/// White space around what begins and ends otherwise is what trimming takes.
pub proof fn lemma_padded(before: Seq<char>, body: Seq<char>, after: Seq<char>)
    requires
        all_white(before),
        all_white(after),
        body.len() > 0,
        !is_white_space(body[0]),
        !is_white_space(body.last()),
    ensures
        trimmed(before + body + after) == body,
        trimmed(body) == body,
{
    assert(before + body + after =~= before + (body + after));
    lemma_padded_left(before, body + after);
    lemma_padded_right(body, after);
}

/// A part occurs in a text where the text is that part with something before and
/// after it, be it nothing.
pub proof fn law_parts_occur(part: Seq<char>, s: Seq<char>, before: Seq<char>, after: Seq<char>)
    ensures
        occurs_in(part, before + part + after),
        occurs_in(part, s) ==> exists|left: Seq<char>, right: Seq<char>|
            #![trigger left + part + right]
            s == left + part + right,
{
    let whole = before + part + after;
    let at = before.len() as int;
    assert(whole.subrange(at, at + part.len()) =~= part);
    assert(occurs_at(part, whole, at));
    if occurs_in(part, s) {
        let i = choose|i: int| occurs_at(part, s, i);
        assert(s =~= s.take(i) + part + s.skip(i + part.len()));
    }
}

} // verus!
