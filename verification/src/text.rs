//! Text over its sequence of characters: trimming, ASCII case, decimal and
//! hexadecimal rendering, and the order in which text is sorted.

use vstd::prelude::*;
use vstd::string::*;

verus! {

/// `String::push` of std: appends one character.
pub assume_specification[ String::push ](s: &mut String, c: char)
    ensures
        final(s)@ == old(s)@.push(c),
;

/// The characters of each text.
pub open spec fn views(v: Seq<String>) -> Seq<Seq<char>> {
    v.map_values(|s: String| s@)
}

/// The characters of both halves of each pair.
pub open spec fn pair_views(v: Seq<(String, String)>) -> Seq<(Seq<char>, Seq<char>)> {
    v.map_values(|p: (String, String)| (p.0@, p.1@))
}

/// The characters of a borrowed text, if there is one.
pub open spec fn opt_str(s: Option<&str>) -> Option<Seq<char>> {
    match s {
        Some(s) => Some(s@),
        None => None,
    }
}

/// The characters of an optional text.
pub open spec fn opt_view(v: Option<String>) -> Option<Seq<char>> {
    match v {
        Some(s) => Some(s@),
        None => None,
    }
}

/// The characters of a text, as a vector.
pub fn to_chars(s: &str) -> (v: Vec<char>)
    ensures
        v@ == s@,
{
    let mut v: Vec<char> = Vec::new();
    for c in it: s.chars()
        invariant
            v@ == s@.take(it.index() as int),
            it.seq() == s@,
    {
        v.push(c);
        assert(s@.take(it.index() as int).push(c) =~= s@.take(it.index() as int + 1));
    }
    assert(s@.take(s@.len() as int) =~= s@);
    v
}

/// The text made of the characters from `from` up to `to`.
pub fn from_chars(v: &Vec<char>, from: usize, to: usize) -> (s: String)
    requires
        from <= to <= v.len(),
    ensures
        s@ == v@.subrange(from as int, to as int),
{
    let mut s = String::new();
    let mut i: usize = from;
    while i < to
        invariant
            from <= i <= to <= v.len(),
            s@ == v@.subrange(from as int, i as int),
        decreases to - i,
    {
        s.push(v[i]);
        i = i + 1;
        assert(v@.subrange(from as int, i as int) =~= v@.subrange(from as int, i - 1).push(
            v@[i - 1],
        ));
    }
    s
}

/// Whether two byte strings are the same.
pub fn bytes_eq(a: &[u8], b: &[u8]) -> (r: bool)
    ensures
        r == (a@ == b@),
{
    if a.len() != b.len() {
        return false;
    }
    let mut i: usize = 0;
    while i < a.len()
        invariant
            i <= a.len(),
            a.len() == b.len(),
            forall|k: int| 0 <= k < i ==> a@[k] == b@[k],
        decreases a.len() - i,
    {
        if a[i] != b[i] {
            return false;
        }
        i = i + 1;
    }
    assert(a@ =~= b@);
    true
}

/// Whether two texts are the same.
pub fn str_eq(a: &str, b: &str) -> (r: bool)
    ensures
        r == (a@ == b@),
{
    let r = bytes_eq(a.as_bytes(), b.as_bytes());
    proof {
        vstd::utf8::encode_utf8_decode_utf8(a@);
        vstd::utf8::encode_utf8_decode_utf8(b@);
    }
    r
}

/// A copy of an optional text.
pub fn clone_opt(s: &Option<String>) -> (r: Option<String>)
    ensures
        r == *s,
{
    match s {
        Some(s) => Some(s.clone()),
        None => None,
    }
}

/// A copy of a list of texts.
pub fn clone_strings(v: &[String]) -> (r: Vec<String>)
    ensures
        r@ == v@,
{
    let mut r: Vec<String> = Vec::new();
    let mut i: usize = 0;
    while i < v.len()
        invariant
            i <= v.len(),
            r@ == v@.take(i as int),
        decreases v.len() - i,
    {
        r.push(v[i].clone());
        i = i + 1;
        assert(v@.take(i as int) =~= v@.take(i - 1).push(v@[i - 1]));
    }
    assert(v@.take(v@.len() as int) =~= v@);
    r
}

/// Whether a text occurs in a list.
pub fn contains_str(v: &[String], s: &str) -> (r: bool)
    ensures
        r == views(v@).contains(s@),
{
    let mut i: usize = 0;
    while i < v.len()
        invariant
            i <= v.len(),
            forall|k: int| 0 <= k < i ==> v@[k]@ != s@,
        decreases v.len() - i,
    {
        if str_eq(v[i].as_str(), s) {
            assert(views(v@)[i as int] == s@);
            return true;
        }
        i = i + 1;
    }
    assert forall|k: int| 0 <= k < views(v@).len() implies views(v@)[k] != s@ by {
        assert(views(v@)[k] == v@[k]@);
    }
    false
}

/// Unicode's White_Space property.
pub open spec fn is_space(c: char) -> bool {
    let u = c as u32;
    ||| 0x9 <= u <= 0xd
    ||| u == 0x20
    ||| u == 0x85
    ||| u == 0xa0
    ||| u == 0x1680
    ||| 0x2000 <= u <= 0x200a
    ||| u == 0x2028
    ||| u == 0x2029
    ||| u == 0x202f
    ||| u == 0x205f
    ||| u == 0x3000
}

fn space(c: char) -> (r: bool)
    ensures
        r == is_space(c),
{
    let u: u32 = c as u32;
    (0x9 <= u && u <= 0xd) || u == 0x20 || u == 0x85 || u == 0xa0 || u == 0x1680 || (0x2000 <= u
        && u <= 0x200a) || u == 0x2028 || u == 0x2029 || u == 0x202f || u == 0x205f || u == 0x3000
}

/// A text without its leading white space.
pub open spec fn without_leading(s: Seq<char>) -> Seq<char>
    decreases s.len(),
{
    if s.len() > 0 && is_space(s[0]) {
        without_leading(s.drop_first())
    } else {
        s
    }
}

/// A text without its trailing white space.
pub open spec fn without_trailing(s: Seq<char>) -> Seq<char>
    decreases s.len(),
{
    if s.len() > 0 && is_space(s.last()) {
        without_trailing(s.drop_last())
    } else {
        s
    }
}

/// A text without white space at either end.
pub open spec fn trimmed(s: Seq<char>) -> Seq<char> {
    without_trailing(without_leading(s))
}

/// The text without white space at either end.
pub fn trim(s: &str) -> (r: String)
    ensures
        r@ == trimmed(s@),
{
    let v = to_chars(s);
    let mut i: usize = 0;
    assert(v@.skip(0) =~= v@);
    while i < v.len() && space(v[i])
        invariant
            i <= v.len(),
            without_leading(v@) == without_leading(v@.skip(i as int)),
        decreases v.len() - i,
    {
        assert(v@.skip(i as int).drop_first() =~= v@.skip(i + 1));
        i = i + 1;
    }
    let mut j: usize = v.len();
    assert(v@.subrange(i as int, j as int) =~= v@.skip(i as int));
    while i < j && space(v[j - 1])
        invariant
            i <= j <= v.len(),
            without_trailing(v@.subrange(i as int, v@.len() as int)) == without_trailing(
                v@.subrange(i as int, j as int),
            ),
        decreases j,
    {
        assert(v@.subrange(i as int, j as int).drop_last() =~= v@.subrange(i as int, j - 1));
        j = j - 1;
    }
    from_chars(&v, i, j)
}

/// A letter A to Z in lower case; any other character as it is.
pub open spec fn lower_char(c: char) -> char {
    if 'A' <= c <= 'Z' {
        ((c as u8) + 32) as char
    } else {
        c
    }
}

/// A text with the letters A to Z in lower case.
pub open spec fn lowered(s: Seq<char>) -> Seq<char> {
    s.map_values(|c: char| lower_char(c))
}

/// The text with the letters A to Z in lower case.
pub fn to_lower(s: &str) -> (r: String)
    ensures
        r@ == lowered(s@),
{
    let v = to_chars(s);
    let mut r = String::new();
    let mut i: usize = 0;
    while i < v.len()
        invariant
            i <= v.len(),
            r@ == lowered(v@.take(i as int)),
        decreases v.len() - i,
    {
        let c = v[i];
        let d = if 'A' <= c && c <= 'Z' {
            ((c as u8) + 32u8) as char
        } else {
            c
        };
        r.push(d);
        i = i + 1;
        assert(lowered(v@.take(i as int)) =~= lowered(v@.take(i - 1)).push(d));
    }
    assert(v@.take(v@.len() as int) =~= v@);
    r
}


/// Whether a text begins with another.
pub open spec fn begins(s: Seq<char>, prefix: Seq<char>) -> bool {
    prefix.len() <= s.len() && s.take(prefix.len() as int) == prefix
}

/// Whether a text ends with another.
pub open spec fn ends(s: Seq<char>, suffix: Seq<char>) -> bool {
    suffix.len() <= s.len() && s.skip(s.len() - suffix.len()) == suffix
}

/// Whether `s` begins with `prefix`.
pub fn starts_with(s: &str, prefix: &str) -> (r: bool)
    ensures
        r == begins(s@, prefix@),
{
    let a = to_chars(s);
    let b = to_chars(prefix);
    if b.len() > a.len() {
        return false;
    }
    let mut i: usize = 0;
    while i < b.len()
        invariant
            i <= b.len() <= a.len(),
            a@ == s@,
            b@ == prefix@,
            forall|k: int| 0 <= k < i ==> a@[k] == b@[k],
        decreases b.len() - i,
    {
        if a[i] != b[i] {
            assert(a@.take(b@.len() as int)[i as int] != b@[i as int]);
            return false;
        }
        i = i + 1;
    }
    assert(a@.take(b@.len() as int) =~= b@);
    true
}

/// Whether `s` ends with `suffix`.
pub fn ends_with(s: &str, suffix: &str) -> (r: bool)
    ensures
        r == ends(s@, suffix@),
{
    let a = to_chars(s);
    let b = to_chars(suffix);
    if b.len() > a.len() {
        return false;
    }
    let d: usize = a.len() - b.len();
    let mut i: usize = 0;
    while i < b.len()
        invariant
            i <= b.len() <= a.len(),
            d == a.len() - b.len(),
            a@ == s@,
            b@ == suffix@,
            forall|k: int| 0 <= k < i ==> a@[d + k] == b@[k],
        decreases b.len() - i,
    {
        if a[d + i] != b[i] {
            assert(a@.skip(d as int)[i as int] != b@[i as int]);
            return false;
        }
        i = i + 1;
    }
    assert(a@.skip(d as int) =~= b@);
    true
}

/// The digit of a value below sixteen.
pub open spec fn digit_char(d: nat) -> char {
    if d < 10 {
        ('0' as u8 + d) as u8 as char
    } else {
        ('a' as u8 + d - 10) as u8 as char
    }
}

fn digit(d: u8) -> (c: char)
    requires
        d < 16,
    ensures
        c == digit_char(d as nat),
{
    if d < 10 {
        (48u8 + d) as char
    } else {
        (97u8 + (d - 10)) as char
    }
}

/// A number in decimal.
pub open spec fn decimal(n: nat) -> Seq<char>
    decreases n,
{
    if n < 10 {
        seq![digit_char(n)]
    } else {
        decimal(n / 10).push(digit_char(n % 10))
    }
}

/// The number in decimal.
pub fn render_decimal(n: u128) -> (r: String)
    ensures
        r@ == decimal(n as nat),
    decreases n,
{
    if n < 10 {
        let mut s = String::new();
        s.push(digit(n as u8));
        assert(s@ =~= seq![digit_char(n as nat)]);
        s
    } else {
        let mut s = render_decimal(n / 10);
        s.push(digit((n % 10) as u8));
        s
    }
}

/// A signed number in decimal.
pub open spec fn signed_decimal(n: int) -> Seq<char> {
    if n < 0 {
        seq!['-'] + decimal((-n) as nat)
    } else {
        decimal(n as nat)
    }
}

/// The signed number in decimal.
pub fn render_signed(n: i64) -> (r: String)
    ensures
        r@ == signed_decimal(n as int),
{
    if n < 0 {
        let mut s = String::new();
        s.push('-');
        let m: i128 = -(n as i128);
        let d = render_decimal(m as u128);
        s.append(d.as_str());
        assert(s@ =~= seq!['-'] + d@);
        s
    } else {
        render_decimal(n as u128)
    }
}

/// A number in hexadecimal with exactly `width` digits, the highest dropped
/// where it has more.
pub open spec fn hex_digits(n: nat, width: nat) -> Seq<char>
    decreases width,
{
    if width == 0 {
        Seq::empty()
    } else {
        hex_digits(n / 16, (width - 1) as nat).push(digit_char(n % 16))
    }
}

/// The number of hexadecimal digits that a number takes.
pub open spec fn hex_width(n: nat) -> nat
    decreases n,
{
    if n < 16 {
        1
    } else {
        1 + hex_width(n / 16)
    }
}

fn push_hex(s: &mut String, n: u64, width: usize)
    ensures
        final(s)@ == old(s)@ + hex_digits(n as nat, width as nat),
    decreases width,
{
    if width == 0 {
        assert(s@ + Seq::<char>::empty() =~= s@);
    } else {
        push_hex(s, n / 16, width - 1);
        s.push(digit((n % 16) as u8));
        assert(s@ =~= old(s)@ + hex_digits(n as nat, width as nat));
    }
}

fn width_of_hex(n: u64) -> (w: usize)
    ensures
        w == hex_width(n as nat),
        w <= 16,
{
    let mut w: usize = 1;
    let mut m: u64 = n;
    while m >= 16
        invariant
            w - 1 + hex_width(m as nat) == hex_width(n as nat),
            w == 1 ==> m < 0x1_0000_0000_0000_0000,
            w == 2 ==> m < 0x1000_0000_0000_0000,
            w == 3 ==> m < 0x100_0000_0000_0000,
            w == 4 ==> m < 0x10_0000_0000_0000,
            w == 5 ==> m < 0x1_0000_0000_0000,
            w == 6 ==> m < 0x1000_0000_0000,
            w == 7 ==> m < 0x100_0000_0000,
            w == 8 ==> m < 0x10_0000_0000,
            w == 9 ==> m < 0x1_0000_0000,
            w == 10 ==> m < 0x1000_0000,
            w == 11 ==> m < 0x100_0000,
            w == 12 ==> m < 0x10_0000,
            w == 13 ==> m < 0x1_0000,
            w == 14 ==> m < 0x1000,
            w == 15 ==> m < 0x100,
            w == 16 ==> m < 0x10,
            1 <= w <= 16,
        decreases m,
    {
        m = m / 16;
        w = w + 1;
    }
    w
}

/// The number in hexadecimal, padded with zeros to `width` digits.
pub open spec fn padded_hex(n: nat, width: nat) -> Seq<char> {
    if hex_width(n) < width {
        hex_digits(n, width)
    } else {
        hex_digits(n, hex_width(n))
    }
}

/// Appends the number in hexadecimal, padded with zeros to `width` digits.
pub fn push_padded_hex(s: &mut String, n: u64, width: usize)
    ensures
        final(s)@ == old(s)@ + padded_hex(n as nat, width as nat),
{
    let w: usize = width_of_hex(n);
    if w < width {
        push_hex(s, n, width);
    } else {
        push_hex(s, n, w);
    }
}

/// The lower-case hexadecimal form of a byte string.
pub open spec fn hex_of(b: Seq<u8>) -> Seq<char>
    decreases b.len(),
{
    if b.len() == 0 {
        Seq::empty()
    } else {
        hex_of(b.drop_last()) + seq![digit_char((b.last() / 16) as nat), digit_char(
            (b.last() % 16) as nat,
        )]
    }
}

/// The lower-case hexadecimal form of the bytes.
pub fn to_hex(b: &[u8]) -> (r: String)
    ensures
        r@ == hex_of(b@),
{
    let mut r = String::new();
    let mut i: usize = 0;
    while i < b.len()
        invariant
            i <= b.len(),
            r@ == hex_of(b@.take(i as int)),
        decreases b.len() - i,
    {
        r.push(digit(b[i] / 16));
        r.push(digit(b[i] % 16));
        i = i + 1;
        assert(b@.take(i as int).drop_last() =~= b@.take(i - 1));
        assert(r@ =~= hex_of(b@.take(i as int)));
    }
    assert(b@.take(b@.len() as int) =~= b@);
    r
}

/// The number that a run of decimal digits stands for; `None` where a
/// character is no digit.
pub open spec fn digits_value(s: Seq<char>) -> Option<nat>
    decreases s.len(),
{
    if s.len() == 0 {
        Some(0)
    } else if '0' <= s.last() <= '9' {
        match digits_value(s.drop_last()) {
            Some(v) => Some(v * 10 + (s.last() as nat - '0' as nat) as nat),
            None => None,
        }
    } else {
        None
    }
}

/// The number that a text stands for: at least one decimal digit, after an
/// optional plus sign.
pub open spec fn unsigned_value(s: Seq<char>) -> Option<nat> {
    let digits = if s.len() > 0 && s[0] == '+' {
        s.drop_first()
    } else {
        s
    };
    if digits.len() == 0 {
        None
    } else {
        digits_value(digits)
    }
}

proof fn digits_value_grows(s: Seq<char>, i: int)
    requires
        0 <= i <= s.len(),
        digits_value(s) is Some,
    ensures
        digits_value(s.take(i)) is Some,
        digits_value(s.take(i))->0 <= digits_value(s)->0,
    decreases s.len() - i,
{
    if i == s.len() {
        assert(s.take(i) =~= s);
    } else {
        digits_value_grows(s, i + 1);
        assert(s.take(i + 1).drop_last() =~= s.take(i));
    }
}

/// The number that the text stands for, if it is one of at most `u64::MAX`.
pub fn parse_unsigned(s: &str) -> (r: Option<u64>)
    ensures
        r == match unsigned_value(s@) {
            Some(v) => if v <= u64::MAX {
                Some(v as u64)
            } else {
                None
            },
            None => None,
        },
{
    let v = to_chars(s);
    let start: usize = if v.len() > 0 && v[0] == '+' {
        1
    } else {
        0
    };
    let ghost digits = v@.skip(start as int);
    assert(start == 1 ==> digits =~= v@.drop_first());
    assert(start == 0 ==> digits =~= v@);
    if start == v.len() {
        return None;
    }
    let mut i: usize = start;
    let mut acc: u64 = 0;
    while i < v.len()
        invariant
            start <= i <= v.len(),
            digits == v@.skip(start as int),
            digits.len() > 0,
            unsigned_value(v@) == digits_value(digits),
            v@ == s@,
            digits_value(digits.take(i - start)) == Some(acc as nat),
        decreases v.len() - i,
    {
        let c = v[i];
        assert(digits[i - start] == c);
        assert(digits.take(i - start + 1).drop_last() =~= digits.take(i - start));
        proof {
            if digits_value(digits) is Some {
                digits_value_grows(digits, i - start + 1);
            }
        }
        if !('0' <= c && c <= '9') {
            return None;
        }
        let d: u64 = (c as u64) - 48;
        if acc > (u64::MAX - d) / 10 {
            return None;
        }
        acc = acc * 10 + d;
        i = i + 1;
    }
    assert(digits.take(digits.len() as int) =~= digits);
    Some(acc)
}

/// The first eight characters of a key.
pub open spec fn short(key: Seq<char>) -> Seq<char> {
    if key.len() <= 8 {
        key
    } else {
        key.subrange(0, 8)
    }
}

/// The first eight characters of a key.
pub fn short_of(key: &str) -> (r: String)
    ensures
        r@ == short(key@),
{
    let v = to_chars(key);
    if v.len() <= 8 {
        key.to_owned()
    } else {
        from_chars(&v, 0, 8)
    }
}

proof fn digits_read_back(n: nat)
    ensures
        digits_value(decimal(n)) == Some(n),
        decimal(n).len() > 0,
        forall|i: int| 0 <= i < decimal(n).len() ==> '0' <= #[trigger] decimal(n)[i] <= '9',
    decreases n,
{
    let d = decimal(n);
    if n < 10 {
        assert(d.drop_last() =~= Seq::empty());
        assert(digits_value(Seq::<char>::empty()) == Some(0nat));
    } else {
        digits_read_back(n / 10);
        assert(d.drop_last() =~= decimal(n / 10));
        assert(d.last() == digit_char(n % 10));
        assert(n == (n / 10) * 10 + n % 10);
    }
}

/// A number that is written is read back as the same number, so that two
/// numbers are never written alike; it is written in digits alone.
pub proof fn numbers_are_read_back(n: nat, m: nat)
    ensures
        unsigned_value(decimal(n)) == Some(n),
        decimal(n) == decimal(m) <==> n == m,
        forall|i: int| 0 <= i < decimal(n).len() ==> '0' <= #[trigger] decimal(n)[i] <= '9',
        n > 0 ==> signed_decimal(-(n as int)) == seq!['-'] + decimal(n),
        signed_decimal(n as int) == decimal(n),
{
    digits_read_back(n);
    digits_read_back(m);
    assert('0' <= decimal(n)[0] <= '9');
}

proof fn leading_spaces_only(s: Seq<char>)
    ensures
        ({
            let r = without_leading(s);
            &&& r.len() <= s.len()
            &&& r == s.skip(s.len() - r.len())
            &&& forall|i: int| 0 <= i < s.len() - r.len() ==> is_space(#[trigger] s[i])
            &&& r.len() > 0 ==> !is_space(r[0])
        }),
    decreases s.len(),
{
    let r = without_leading(s);
    if s.len() > 0 && is_space(s[0]) {
        let t = s.drop_first();
        leading_spaces_only(t);
        assert(s.skip(s.len() - r.len()) =~= t.skip(t.len() - r.len()));
        assert forall|i: int| 0 <= i < s.len() - r.len() implies is_space(#[trigger] s[i]) by {
            if i > 0 {
                assert(t[i - 1] == s[i]);
            }
        }
    } else {
        assert(s.skip(0) =~= s);
    }
}

proof fn trailing_spaces_only(s: Seq<char>)
    ensures
        ({
            let r = without_trailing(s);
            &&& r.len() <= s.len()
            &&& r == s.take(r.len() as int)
            &&& forall|i: int| r.len() <= i < s.len() ==> is_space(#[trigger] s[i])
            &&& r.len() > 0 ==> !is_space(r.last())
        }),
    decreases s.len(),
{
    let r = without_trailing(s);
    if s.len() > 0 && is_space(s.last()) {
        let t = s.drop_last();
        trailing_spaces_only(t);
        assert(s.take(r.len() as int) =~= t.take(r.len() as int));
        assert forall|i: int| r.len() <= i < s.len() implies is_space(#[trigger] s[i]) by {
            if i < t.len() {
                assert(t[i] == s[i]);
            }
        }
    } else {
        assert(s.take(s.len() as int) =~= s);
    }
}

/// Trimming takes spaces from both ends, all of them and nothing else: what is
/// left is a stretch of the text that neither begins nor ends with a space.
pub proof fn trimming_takes_outer_spaces(s: Seq<char>)
    ensures
        trimmed(s).len() > 0 ==> !is_space(trimmed(s)[0]) && !is_space(trimmed(s).last()),
        exists|a: int, b: int|
            #![trigger s.subrange(a, b)]
            0 <= a <= b <= s.len() && trimmed(s) == s.subrange(a, b) && (forall|i: int|
                0 <= i < a ==> is_space(#[trigger] s[i])) && (forall|i: int|
                b <= i < s.len() ==> is_space(#[trigger] s[i])),
        (s.len() > 0 && !is_space(s[0]) && !is_space(s.last())) ==> trimmed(s) == s,
{
    let l = without_leading(s);
    let r = trimmed(s);
    leading_spaces_only(s);
    trailing_spaces_only(l);
    let a = s.len() - l.len();
    let b = a + r.len();
    assert(s.subrange(a, b) =~= r);
    assert forall|i: int| b <= i < s.len() implies is_space(#[trigger] s[i]) by {
        assert(l[i - a] == s[i]);
    }
    if r.len() > 0 {
        assert(r[0] == l[0]);
    }
}

/// Lowering changes the capital letters of ASCII and nothing else, and does so
/// once and for all.
pub proof fn lowering_changes_capitals_only(s: Seq<char>, i: int)
    requires
        0 <= i < s.len(),
    ensures
        lowered(s).len() == s.len(),
        !('A' <= s[i] <= 'Z') ==> lowered(s)[i] == s[i],
        'A' <= s[i] <= 'Z' ==> lowered(s)[i] as u32 == s[i] as u32 + 32,
        lowered(lowered(s)) == lowered(s),
{
    let c = s[i];
    if 'A' <= c <= 'Z' {
        assert(c as u8 as u32 == c as u32);
    }
    let l = lowered(s);
    assert forall|j: int| 0 <= j < s.len() implies #[trigger] lowered(l)[j] == l[j] by {
        let d = s[j];
        if 'A' <= d <= 'Z' {
            assert(l[j] as u32 == d as u32 + 32);
        }
    }
    assert(lowered(l) =~= l);
}

proof fn hex_digits_differ(a: nat, b: nat)
    requires
        a < 16,
        b < 16,
        digit_char(a) == digit_char(b),
    ensures
        a == b,
{
}

/// Bytes that are written in hexadecimal take two characters each, and two
/// sequences of bytes are never written alike.
pub proof fn hexadecimal_tells_bytes_apart(a: Seq<u8>, b: Seq<u8>)
    ensures
        hex_of(a).len() == 2 * a.len(),
        hex_of(a) == hex_of(b) ==> a == b,
    decreases a.len(),
{
    if a.len() > 0 {
        let x = a.drop_last();
        hexadecimal_tells_bytes_apart(x, Seq::empty());
        if hex_of(a) == hex_of(b) {
            if b.len() == 0 {
                assert(hex_of(b).len() == 0);
            } else {
                let y = b.drop_last();
                hexadecimal_tells_bytes_apart(x, y);
                let h = hex_of(a);
                let k = hex_of(b);
                hex_length(y);
                assert(h.take(h.len() - 2) =~= hex_of(x));
                assert(k.take(k.len() - 2) =~= hex_of(y));
                assert(h[h.len() - 2] == k[k.len() - 2]);
                assert(h[h.len() - 1] == k[k.len() - 1]);
                let p = a.last();
                let q = b.last();
                hex_digits_differ((p / 16) as nat, (q / 16) as nat);
                hex_digits_differ((p % 16) as nat, (q % 16) as nat);
                assert(p == (p / 16) * 16 + p % 16);
                assert(q == (q / 16) * 16 + q % 16);
                assert(a =~= x.push(p));
                assert(b =~= y.push(q));
            }
        }
    } else {
        hex_length(b);
        if hex_of(a) == hex_of(b) {
            assert(b.len() == 0);
            assert(a =~= b);
        }
    }
}

proof fn hex_length(b: Seq<u8>)
    ensures
        hex_of(b).len() == 2 * b.len(),
    decreases b.len(),
{
    if b.len() > 0 {
        hex_length(b.drop_last());
    }
}

/// The short form of a key is its beginning, of eight characters at most.
pub proof fn short_keys_are_beginnings(key: Seq<char>)
    ensures
        short(key).len() == if key.len() < 8 { key.len() as int } else { 8 },
        forall|i: int| 0 <= i < short(key).len() ==> #[trigger] short(key)[i] == key[i],
{
}

/// A number that is written has no outer spaces.
pub proof fn numbers_have_no_spaces(n: nat)
    ensures
        trimmed(decimal(n)) == decimal(n),
        unsigned_value(trimmed(decimal(n))) == Some(n),
        unsigned_value(trimmed(Seq::empty())) is None,
{
    let d = decimal(n);
    numbers_are_read_back(n, 0);
    digits_read_back(n);
    let a = d[0];
    let b = d[d.len() - 1];
    assert('0' <= a <= '9' && '0' <= b <= '9');
    assert(!is_space(a) && !is_space(b));
    assert(without_leading(d) == d);
    assert(without_trailing(d) == d);
}

} // verus!
