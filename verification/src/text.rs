//! Text helpers: decimal rendering of integers and bounded excerpts.

use vstd::prelude::*;
use vstd::string::*;

verus! {

/// The character that stands for one decimal digit.
pub open spec fn digit_char(d: int) -> char {
    if d == 0 {
        '0'
    } else if d == 1 {
        '1'
    } else if d == 2 {
        '2'
    } else if d == 3 {
        '3'
    } else if d == 4 {
        '4'
    } else if d == 5 {
        '5'
    } else if d == 6 {
        '6'
    } else if d == 7 {
        '7'
    } else if d == 8 {
        '8'
    } else {
        '9'
    }
}

/// Decimal digits of a natural number, most significant first, without
/// leading zeros (zero itself is the single digit `0`).
pub open spec fn decimal_digits(n: nat) -> Seq<char>
    decreases n,
{
    if n < 10 {
        seq![digit_char(n as int)]
    } else {
        decimal_digits(n / 10).push(digit_char((n % 10) as int))
    }
}

/// Decimal rendering of an integer: a minus sign for negative values, then
/// the digits of its magnitude.
pub open spec fn decimal(i: int) -> Seq<char> {
    if i < 0 {
        seq!['-'] + decimal_digits((-i) as nat)
    } else {
        decimal_digits(i as nat)
    }
}

/// The text of one decimal digit.
fn digit_text(d: u64) -> (r: &'static str)
    requires
        d < 10,
    ensures
        r@ == seq![digit_char(d as int)],
{
    proof {
        reveal_strlit("0");
        reveal_strlit("1");
        reveal_strlit("2");
        reveal_strlit("3");
        reveal_strlit("4");
        reveal_strlit("5");
        reveal_strlit("6");
        reveal_strlit("7");
        reveal_strlit("8");
        reveal_strlit("9");
    }
    let r = if d == 0 {
        "0"
    } else if d == 1 {
        "1"
    } else if d == 2 {
        "2"
    } else if d == 3 {
        "3"
    } else if d == 4 {
        "4"
    } else if d == 5 {
        "5"
    } else if d == 6 {
        "6"
    } else if d == 7 {
        "7"
    } else if d == 8 {
        "8"
    } else {
        "9"
    };
    assert(r@ =~= seq![digit_char(d as int)]);
    r
}

/// Renders an unsigned integer in decimal.
pub fn u64_text(v: u64) -> (r: String)
    ensures
        r@ == decimal_digits(v as nat),
    decreases v,
{
    if v < 10 {
        String::from_str(digit_text(v))
    } else {
        let mut out = u64_text(v / 10);
        out.append(digit_text(v % 10));
        assert(out@ =~= decimal_digits((v / 10) as nat).push(digit_char((v % 10) as int)));
        out
    }
}

/// Renders a signed integer in decimal.
pub fn i64_text(v: i64) -> (r: String)
    ensures
        r@ == decimal(v as int),
{
    if v < 0 {
        let magnitude: u64 = if v == i64::MIN {
            0x8000_0000_0000_0000
        } else {
            (-v) as u64
        };
        proof {
            reveal_strlit("-");
        }
        let mut out = String::from_str("-");
        let digits = u64_text(magnitude);
        out.append(digits.as_str());
        assert(out@ =~= seq!['-'] + decimal_digits((-v) as nat));
        out
    } else {
        u64_text(v as u64)
    }
}

/// Largest number of bytes of an upstream body that a diagnostic message
/// keeps.
pub const EXCERPT_BYTES: usize = 500;

/// Number of bytes that a character takes in UTF-8.
pub open spec fn utf8_width(c: char) -> nat {
    vstd::utf8::encode_scalar(c as u32).len()
}

/// Number of bytes that a text takes in UTF-8.
pub open spec fn utf8_len(s: Seq<char>) -> nat {
    vstd::utf8::encode_utf8(s).len()
}

/// Number of leading characters of `s` that fit into `limit` bytes of
/// UTF-8, each character whole.
pub open spec fn fitting_chars(s: Seq<char>, limit: nat) -> nat
    decreases s.len(),
{
    if s.len() == 0 || utf8_width(s[0]) > limit {
        0
    } else {
        1 + fitting_chars(s.drop_first(), (limit - utf8_width(s[0])) as nat)
    }
}

/// The longest beginning of `s` that takes at most `limit` bytes in UTF-8
/// and ends between two characters; all of `s` when it is short enough.
pub open spec fn excerpt_of(s: Seq<char>, limit: nat) -> Seq<char> {
    s.take(fitting_chars(s, limit) as int)
}

proof fn lemma_fitting_from(s: Seq<char>, limit: nat, k: int, used: nat)
    requires
        0 <= k <= s.len(),
        used <= limit,
        used == utf8_len(s.take(k)),
    ensures
        fitting_chars(s, limit) == k + fitting_chars(
            s.subrange(k, s.len() as int),
            (limit - used) as nat,
        ),
    decreases k,
{
    if k == 0 {
        assert(s.subrange(0, s.len() as int) =~= s);
        assert(s.take(0) =~= Seq::<char>::empty());
    } else {
        let front = s.take(k - 1);
        lemma_utf8_len_push(front, s[k - 1]);
        assert(front.push(s[k - 1]) =~= s.take(k));
        let before = utf8_len(front);
        lemma_fitting_from(s, limit, k - 1, before);
        let tail = s.subrange(k - 1, s.len() as int);
        assert(tail[0] == s[k - 1]);
        assert(tail.drop_first() =~= s.subrange(k, s.len() as int));
    }
}

proof fn lemma_utf8_len_push(s: Seq<char>, c: char)
    ensures
        utf8_len(s.push(c)) == utf8_len(s) + utf8_width(c),
    decreases s.len(),
{
    if s.len() == 0 {
        assert(s.push(c).drop_first() =~= Seq::<char>::empty());
        assert(vstd::utf8::encode_utf8(Seq::<char>::empty()).len() == 0);
        assert(s.push(c)[0] == c);
    } else {
        lemma_utf8_len_push(s.drop_first(), c);
        assert(s.push(c).drop_first() =~= s.drop_first().push(c));
        assert(s.push(c)[0] == s[0]);
    }
}

/// Number of bytes that a character takes in UTF-8.
pub fn char_width(c: char) -> (w: usize)
    ensures
        w as nat == utf8_width(c),
        1 <= w <= 4,
{
    broadcast use vstd::utf8::char_is_scalar;

    let v: u32 = c as u32;
    assert(vstd::utf8::is_scalar(v));
    if v < 0x80 {
        1
    } else if v < 0x800 {
        2
    } else if v < 0x10000 {
        3
    } else {
        4
    }
}

/// Cuts `s` down to its longest beginning of at most `limit` bytes, between
/// two characters.
pub fn excerpt(s: &str, limit: usize) -> (r: String)
    ensures
        r@ == excerpt_of(s@, limit as nat),
        utf8_len(r@) <= limit,
        r@.len() < s@.len() ==> utf8_len(r@) + utf8_width(s@[r@.len() as int]) > limit,
{
    let chars = chars_of(s);
    let n = chars.len();
    let mut k: usize = 0;
    let mut used: usize = 0;
    proof {
        assert(s@.take(0) =~= Seq::<char>::empty());
        assert(vstd::utf8::encode_utf8(Seq::<char>::empty()).len() == 0);
    }
    while k < n && char_width(chars[k]) <= limit - used
        invariant
            0 <= k <= n,
            n == chars.len(),
            chars@ == s@,
            used <= limit,
            used as nat == utf8_len(s@.take(k as int)),
        decreases n - k,
    {
        proof {
            lemma_utf8_len_push(s@.take(k as int), s@[k as int]);
            assert(s@.take(k as int).push(s@[k as int]) =~= s@.take(k as int + 1));
        }
        used = used + char_width(chars[k]);
        k = k + 1;
    }
    proof {
        lemma_fitting_from(s@, limit as nat, k as int, used as nat);
        let tail = s@.subrange(k as int, n as int);
        if k < n {
            assert(tail[0] == s@[k as int]);
        }
        assert(fitting_chars(tail, (limit - used) as nat) == 0);
        assert(s@.subrange(0, k as int) =~= s@.take(k as int));
    }
    String::from_str(s.substring_char(0, k))
}

/// Joins two texts.
pub fn join2(a: &str, b: &str) -> (r: String)
    ensures
        r@ == a@ + b@,
{
    let mut out = String::from_str(a);
    out.append(b);
    out
}

/// Whether two texts have the same characters.
pub fn same_text(a: &str, b: &str) -> (r: bool)
    ensures
        r == (a@ == b@),
{
    let left = String::from_str(a);
    let right = String::from_str(b);
    left == right
}

/// The lowercase form of a text by the Unicode rules that the standard
/// library implements.
pub uninterp spec fn lowercase_of(s: Seq<char>) -> Seq<char>;

/// Lowercases a text.
///
/// Trusted: calls `str::to_lowercase` of the standard library. Its result
/// depends on the text alone; the contract names it and claims nothing else.
#[verifier::external_body]
pub(crate) fn lowercase(s: &str) -> (r: String)
    ensures
        r@ == lowercase_of(s@),
{
    s.to_lowercase()
}

/// The characters of a text.
pub fn chars_of(s: &str) -> (v: Vec<char>)
    ensures
        v@ == s@,
{
    broadcast use vstd::string::group_string_axioms;

    let mut v: Vec<char> = Vec::new();
    for c in it: s.chars()
        invariant
            it.seq() == s@,
            v@ == it.seq().take(it.index()),
    {
        v.push(c);
        assert(v@ =~= it.seq().take(it.index() + 1));
    }
    assert(v@ =~= s@);
    v
}

/// Whether a character is one of the ten decimal digits.
pub open spec fn is_digit(c: char) -> bool {
    '0' <= c && c <= '9'
}

/// Value of a decimal digit.
pub open spec fn digit_value(c: char) -> nat {
    (c as int - '0' as int) as nat
}

/// Whether a text consists of decimal digits only. The empty text does.
pub open spec fn all_digits(s: Seq<char>) -> bool {
    forall|i: int| 0 <= i < s.len() ==> is_digit(#[trigger] s[i])
}

/// The number that a run of decimal digits writes; leading zeros count
/// for nothing.
pub open spec fn digits_value(s: Seq<char>) -> nat
    decreases s.len(),
{
    if s.len() == 0 {
        0
    } else {
        digits_value(s.drop_last()) * 10 + digit_value(s.last())
    }
}

/// Whether a text is the decimal form of a number that fits in 64 bits.
pub open spec fn is_u64_text(s: Seq<char>) -> bool {
    s.len() > 0 && all_digits(s) && digits_value(s) <= u64::MAX
}

proof fn lemma_digits_value_grows(s: Seq<char>, n: int)
    requires
        0 <= n <= s.len(),
    ensures
        digits_value(s.take(n)) <= digits_value(s),
    decreases s.len() - n,
{
    if n == s.len() {
        assert(s.take(n) =~= s);
    } else {
        lemma_digits_value_grows(s, n + 1);
        assert(s.take(n + 1).drop_last() =~= s.take(n));
    }
}

/// Tests whether every character is a decimal digit.
pub fn only_digits(chars: &Vec<char>) -> (r: bool)
    ensures
        r == all_digits(chars@),
{
    let mut i: usize = 0;
    while i < chars.len()
        invariant
            0 <= i <= chars.len(),
            forall|k: int| 0 <= k < i ==> is_digit(#[trigger] chars@[k]),
        decreases chars.len() - i,
    {
        let c = chars[i];
        if !(c >= '0' && c <= '9') {
            return false;
        }
        i = i + 1;
    }
    true
}

/// Reads a text as a decimal number of 64 bits: some number if and only if
/// the text is non-empty, all digits, and within range.
pub fn parse_u64(chars: &Vec<char>) -> (r: Option<u64>)
    ensures
        r is Some <==> is_u64_text(chars@),
        r matches Some(v) ==> v as nat == digits_value(chars@),
{
    if chars.len() == 0 || !only_digits(chars) {
        return None;
    }
    let mut value: u64 = 0;
    let mut i: usize = 0;
    assert(chars@.take(0) =~= Seq::<char>::empty());
    while i < chars.len()
        invariant
            0 <= i <= chars.len(),
            all_digits(chars@),
            value as nat == digits_value(chars@.take(i as int)),
        decreases chars.len() - i,
    {
        let c = chars[i];
        let d: u64 = (c as u32 - '0' as u32) as u64;
        proof {
            assert(chars@.take(i as int + 1).drop_last() =~= chars@.take(i as int));
            assert(chars@.take(i as int + 1).last() == c);
            assert(is_digit(chars@[i as int]));
            lemma_digits_value_grows(chars@, i as int + 1);
        }
        let next = match value.checked_mul(10) {
            Some(tens) => tens.checked_add(d),
            None => None,
        };
        match next {
            Some(n) => {
                value = n;
            },
            None => {
                return None;
            },
        }
        i = i + 1;
    }
    assert(chars@.take(chars.len() as int) =~= chars@);
    Some(value)
}

/// Whether a character is white space: one of the code points that have
/// the Unicode property `White_Space`.
pub open spec fn is_whitespace(c: char) -> bool {
    let v = c as u32;
    ||| 0x09 <= v <= 0x0D
    ||| v == 0x20
    ||| v == 0x85
    ||| v == 0xA0
    ||| v == 0x1680
    ||| 0x2000 <= v <= 0x200A
    ||| v == 0x2028
    ||| v == 0x2029
    ||| v == 0x202F
    ||| v == 0x205F
    ||| v == 0x3000
}

/// Tests a character for white space.
pub fn is_space(c: char) -> (r: bool)
    ensures
        r == is_whitespace(c),
{
    let v: u32 = c as u32;
    (0x09 <= v && v <= 0x0D) || v == 0x20 || v == 0x85 || v == 0xA0 || v == 0x1680 || (0x2000 <= v
        && v <= 0x200A) || v == 0x2028 || v == 0x2029 || v == 0x202F || v == 0x205F || v == 0x3000
}

/// A text without its leading white space.
pub open spec fn trim_start_of(s: Seq<char>) -> Seq<char>
    decreases s.len(),
{
    if s.len() > 0 && is_whitespace(s[0]) {
        trim_start_of(s.drop_first())
    } else {
        s
    }
}

/// A text without its trailing white space.
pub open spec fn trim_end_of(s: Seq<char>) -> Seq<char>
    decreases s.len(),
{
    if s.len() > 0 && is_whitespace(s.last()) {
        trim_end_of(s.drop_last())
    } else {
        s
    }
}

/// A text without leading and trailing white space.
pub open spec fn trimmed(s: Seq<char>) -> Seq<char> {
    trim_end_of(trim_start_of(s))
}

proof fn lemma_trim_start(s: Seq<char>, i: int)
    requires
        0 <= i <= s.len(),
        forall|k: int| 0 <= k < i ==> is_whitespace(#[trigger] s[k]),
        i < s.len() ==> !is_whitespace(s[i]),
    ensures
        trim_start_of(s) == s.subrange(i, s.len() as int),
    decreases i,
{
    if i == 0 {
        assert(s.subrange(0, s.len() as int) =~= s);
    } else {
        let rest = s.drop_first();
        assert forall|k: int| 0 <= k < i - 1 implies is_whitespace(#[trigger] rest[k]) by {
            assert(rest[k] == s[k + 1]);
        }
        lemma_trim_start(rest, i - 1);
        assert(rest.subrange(i - 1, rest.len() as int) =~= s.subrange(i, s.len() as int));
        assert(is_whitespace(s[0]));
    }
}

proof fn lemma_trim_end(s: Seq<char>, j: int)
    requires
        0 <= j <= s.len(),
        forall|k: int| j <= k < s.len() ==> is_whitespace(#[trigger] s[k]),
        j > 0 ==> !is_whitespace(s[j - 1]),
    ensures
        trim_end_of(s) == s.subrange(0, j),
    decreases s.len() - j,
{
    if j == s.len() {
        assert(s.subrange(0, j) =~= s);
    } else {
        let front = s.drop_last();
        assert forall|k: int| j <= k < front.len() implies is_whitespace(#[trigger] front[k]) by {
            assert(front[k] == s[k]);
        }
        if j > 0 {
            assert(front[j - 1] == s[j - 1]);
        }
        lemma_trim_end(front, j);
        assert(front.subrange(0, j) =~= s.subrange(0, j));
        assert(is_whitespace(s.last()));
    }
}

/// Strips leading and trailing white space.
pub fn trim(s: &str) -> (r: &str)
    ensures
        r@ == trimmed(s@),
{
    let chars = chars_of(s);
    let n = chars.len();
    let mut i: usize = 0;
    while i < n && is_space(chars[i])
        invariant
            0 <= i <= n,
            n == chars.len(),
            forall|k: int| 0 <= k < i ==> is_whitespace(#[trigger] chars@[k]),
        decreases n - i,
    {
        i = i + 1;
    }
    let mut j: usize = n;
    while j > i && is_space(chars[j - 1])
        invariant
            i <= j <= n,
            n == chars.len(),
            forall|k: int| j <= k < n ==> is_whitespace(#[trigger] chars@[k]),
        decreases j,
    {
        j = j - 1;
    }
    proof {
        lemma_trim_start(s@, i as int);
        let rest = s@.subrange(i as int, n as int);
        assert forall|k: int| j - i <= k < rest.len() implies is_whitespace(#[trigger] rest[k]) by {
            assert(rest[k] == s@[k + i]);
        }
        if j > i {
            assert(rest[j - i - 1] == s@[j - 1]);
        }
        lemma_trim_end(rest, j - i);
        assert(rest.subrange(0, j - i) =~= s@.subrange(i as int, j as int));
    }
    s.substring_char(i, j)
}

/// Whether a character is a hexadecimal digit, in either case.
pub open spec fn is_hex_digit(c: char) -> bool {
    ('0' <= c && c <= '9') || ('a' <= c && c <= 'f') || ('A' <= c && c <= 'F')
}

/// Whether a text consists of hexadecimal digits only.
pub open spec fn all_hex(s: Seq<char>) -> bool {
    forall|i: int| 0 <= i < s.len() ==> is_hex_digit(#[trigger] s[i])
}

/// Tests whether every character is a hexadecimal digit.
pub fn only_hex(chars: &Vec<char>) -> (r: bool)
    ensures
        r == all_hex(chars@),
{
    let mut i: usize = 0;
    while i < chars.len()
        invariant
            0 <= i <= chars.len(),
            forall|k: int| 0 <= k < i ==> is_hex_digit(#[trigger] chars@[k]),
        decreases chars.len() - i,
    {
        let c = chars[i];
        let hex = (c >= '0' && c <= '9') || (c >= 'a' && c <= 'f') || (c >= 'A' && c <= 'F');
        if !hex {
            return false;
        }
        i = i + 1;
    }
    true
}

/// The texts of a list of strings.
pub open spec fn texts(v: Seq<String>) -> Seq<Seq<char>> {
    Seq::new(v.len(), |i: int| v[i]@)
}

/// The fields of a text that `sep` separates; a text without `sep` is one
/// field, and so is the empty text.
pub open spec fn fields_of(s: Seq<char>, sep: char) -> Seq<Seq<char>>
    decreases s.len(),
{
    if s.len() == 0 {
        seq![Seq::<char>::empty()]
    } else {
        let before = fields_of(s.drop_last(), sep);
        if s.last() == sep {
            before.push(Seq::<char>::empty())
        } else {
            before.drop_last().push(before.last().push(s.last()))
        }
    }
}

proof fn lemma_fields_nonempty(s: Seq<char>, sep: char)
    ensures
        fields_of(s, sep).len() >= 1,
    decreases s.len(),
{
    if s.len() > 0 {
        lemma_fields_nonempty(s.drop_last(), sep);
    }
}

/// Splits a text at every `sep`.
pub fn split_fields(s: &str, sep: char) -> (out: Vec<String>)
    ensures
        texts(out@) == fields_of(s@, sep),
        out@.len() >= 1,
{
    let chars = chars_of(s);
    let n = chars.len();
    let mut out: Vec<String> = Vec::new();
    let mut start: usize = 0;
    let mut i: usize = 0;
    proof {
        assert(s@.take(0) =~= Seq::<char>::empty());
        assert(fields_of(s@.take(0), sep).drop_last() =~= Seq::<Seq<char>>::empty());
        assert(s@.subrange(0, 0) =~= Seq::<char>::empty());
        assert(texts(out@) =~= Seq::<Seq<char>>::empty());
    }
    while i < n
        invariant
            0 <= start <= i <= n,
            n == chars.len(),
            chars@ == s@,
            fields_of(s@.take(i as int), sep).len() >= 1,
            texts(out@) == fields_of(s@.take(i as int), sep).drop_last(),
            fields_of(s@.take(i as int), sep).last() == s@.subrange(start as int, i as int),
        decreases n - i,
    {
        let ghost before = fields_of(s@.take(i as int), sep);
        let ghost upto = s@.take(i as int + 1);
        proof {
            assert(upto.drop_last() =~= s@.take(i as int));
            assert(upto.last() == s@[i as int]);
            lemma_fields_nonempty(upto, sep);
        }
        if chars[i] == sep {
            let piece = s.substring_char(start, i);
            let ghost old_out = out@;
            out.push(String::from_str(piece));
            proof {
                assert(texts(out@) =~= texts(old_out).push(piece@));
                let now = fields_of(upto, sep);
                assert(now == before.push(Seq::<char>::empty()));
                assert(now.drop_last() =~= before);
                assert(before.drop_last().push(before.last()) =~= before);
                assert(s@.subrange(i as int + 1, i as int + 1) =~= Seq::<char>::empty());
            }
            start = i + 1;
        } else {
            proof {
                let now = fields_of(upto, sep);
                assert(now.drop_last() =~= before.drop_last());
                assert(s@.subrange(start as int, i as int).push(s@[i as int]) =~= s@.subrange(
                    start as int,
                    i as int + 1,
                ));
            }
        }
        i = i + 1;
    }
    proof {
        assert(s@.take(n as int) =~= s@);
    }
    let ghost all = fields_of(s@, sep);
    let piece = s.substring_char(start, n);
    let ghost old_out = out@;
    out.push(String::from_str(piece));
    proof {
        assert(texts(out@) =~= texts(old_out).push(piece@));
        assert(all.drop_last().push(all.last()) =~= all);
    }
    out
}

/// The number that a text writes in decimal with an optional sign: a
/// plus or, where `signed`, a minus, then at least one digit.
pub open spec fn signed_value(s: Seq<char>, signed: bool) -> Option<int> {
    if s.len() > 0 && s[0] == '+' {
        if s.len() > 1 && all_digits(s.drop_first()) {
            Some(digits_value(s.drop_first()) as int)
        } else {
            None
        }
    } else if s.len() > 0 && s[0] == '-' {
        if signed && s.len() > 1 && all_digits(s.drop_first()) {
            Some(-(digits_value(s.drop_first()) as int))
        } else {
            None
        }
    } else if s.len() > 0 && all_digits(s) {
        Some(digits_value(s) as int)
    } else {
        None
    }
}

/// What reading a text as a signed number of 32 bits gives.
pub open spec fn i32_of(s: Seq<char>) -> Option<i32> {
    match signed_value(s, true) {
        Some(v) => if i32::MIN <= v <= i32::MAX {
            Some(v as i32)
        } else {
            None
        },
        None => None,
    }
}

/// What reading a text as an unsigned number of 32 bits gives.
pub open spec fn u32_of(s: Seq<char>) -> Option<u32> {
    match signed_value(s, false) {
        Some(v) => if v <= u32::MAX {
            Some(v as u32)
        } else {
            None
        },
        None => None,
    }
}

fn tail_of(chars: &Vec<char>) -> (out: Vec<char>)
    requires
        chars@.len() > 0,
    ensures
        out@ == chars@.drop_first(),
{
    let mut out: Vec<char> = Vec::new();
    let mut i: usize = 1;
    while i < chars.len()
        invariant
            1 <= i <= chars.len(),
            out@ == chars@.subrange(1, i as int),
        decreases chars.len() - i,
    {
        out.push(chars[i]);
        assert(out@ =~= chars@.subrange(1, i as int + 1));
        i = i + 1;
    }
    assert(out@ =~= chars@.drop_first());
    out
}

/// Magnitude and sign of a signed decimal text, where the magnitude fits
/// in 64 bits.
fn read_signed(chars: &Vec<char>, signed: bool) -> (r: Option<(bool, u64)>)
    ensures
        r matches Some((negative, magnitude)) ==> signed_value(chars@, signed) == Some(
            if negative {
                -(magnitude as int)
            } else {
                magnitude as int
            },
        ),
        r is None ==> (signed_value(chars@, signed) matches Some(v) ==> v > u64::MAX || v
            < -(u64::MAX as int)),
{
    if chars.len() == 0 {
        return None;
    }
    let first = chars[0];
    if first == '+' || first == '-' {
        if first == '-' && !signed {
            return None;
        }
        let rest = tail_of(chars);
        match parse_u64(&rest) {
            Some(m) => Some((first == '-', m)),
            None => None,
        }
    } else {
        match parse_u64(chars) {
            Some(m) => Some((false, m)),
            None => None,
        }
    }
}

/// Reads a text as a signed number of 32 bits.
pub fn parse_i32(s: &str) -> (r: Option<i32>)
    ensures
        r == i32_of(s@),
{
    let chars = chars_of(s);
    match read_signed(&chars, true) {
        Some((negative, magnitude)) => {
            if negative {
                if magnitude <= 0x8000_0000 {
                    Some((-(magnitude as i64)) as i32)
                } else {
                    None
                }
            } else if magnitude <= 0x7fff_ffff {
                Some(magnitude as i32)
            } else {
                None
            }
        },
        None => None,
    }
}

/// Reads a text as an unsigned number of 32 bits.
pub fn parse_u32(s: &str) -> (r: Option<u32>)
    ensures
        r == u32_of(s@),
{
    let chars = chars_of(s);
    match read_signed(&chars, false) {
        Some((negative, magnitude)) => {
            if magnitude <= 0xffff_ffff {
                Some(magnitude as u32)
            } else {
                None
            }
        },
        None => None,
    }
}

} // verus!
