//! Character-level text helpers shared by the name sanitizers and the
//! number formatters.

use vstd::prelude::*;
use vstd::utf8::encode_utf8;

verus! {

broadcast use vstd::string::axiom_spec_iter;

/// Appends one character to a string.
///
/// Trusted: `String::push`, which the standard library documents as
/// appending the given `char` to the end of the string.
#[verifier::external_body]
pub fn push_char(s: &mut String, c: char)
    ensures
        final(s)@ == old(s)@.push(c),
{
    s.push(c);
}

/// The characters of `s`, in order.
pub fn chars_of(s: &str) -> (v: Vec<char>)
    ensures
        v@ == s@,
{
    let mut v: Vec<char> = Vec::new();
    for c in it: s.chars()
        invariant
            v@ == it.seq().take(it.index()),
    {
        v.push(c);
    }
    v
}

/// A string holding exactly the characters `chars`.
pub fn string_of(chars: &[char]) -> (s: String)
    ensures
        s@ == chars@,
{
    let mut s = String::new();
    let mut i: usize = 0;
    while i < chars.len()
        invariant
            i <= chars@.len(),
            s@ == chars@.take(i as int),
        decreases chars.len() - i,
    {
        push_char(&mut s, chars[i]);
        i = i + 1;
        assert(chars@.take(i as int) == chars@.take(i - 1).push(chars@[i - 1]));
    }
    assert(chars@.take(chars@.len() as int) == chars@);
    s
}

/// Appends every character of `chars` to `s`.
pub fn push_chars(s: &mut String, chars: &[char])
    ensures
        final(s)@ == old(s)@ + chars@,
{
    let mut i: usize = 0;
    while i < chars.len()
        invariant
            i <= chars@.len(),
            s@ == old(s)@ + chars@.take(i as int),
        decreases chars.len() - i,
    {
        push_char(s, chars[i]);
        i = i + 1;
        assert(chars@.take(i as int) == chars@.take(i - 1).push(chars@[i - 1]));
    }
    assert(chars@.take(chars@.len() as int) == chars@);
}

/// A Unicode control character (general category `Cc`), as
/// `char::is_control` classifies it.
pub open spec fn is_control(c: char) -> bool {
    (c as u32) <= 0x1F || (0x7F <= (c as u32) && (c as u32) <= 0x9F)
}

/// A character with the Unicode `White_Space` property, as
/// `char::is_whitespace` and `str::trim` classify it.
pub open spec fn is_whitespace(c: char) -> bool {
    let u = c as u32;
    ||| 0x09 <= u && u <= 0x0D
    ||| u == 0x20
    ||| u == 0x85
    ||| u == 0xA0
    ||| u == 0x1680
    ||| 0x2000 <= u && u <= 0x200A
    ||| u == 0x2028
    ||| u == 0x2029
    ||| u == 0x202F
    ||| u == 0x205F
    ||| u == 0x3000
}

pub fn char_is_control(c: char) -> (r: bool)
    ensures
        r == is_control(c),
{
    let u = c as u32;
    u <= 0x1F || (0x7F <= u && u <= 0x9F)
}

pub fn char_is_whitespace(c: char) -> (r: bool)
    ensures
        r == is_whitespace(c),
{
    let u = c as u32;
    (0x09 <= u && u <= 0x0D) || u == 0x20 || u == 0x85 || u == 0xA0 || u == 0x1680 || (0x2000
        <= u && u <= 0x200A) || u == 0x2028 || u == 0x2029 || u == 0x202F || u == 0x205F || u
        == 0x3000
}

/// `s` without its leading whitespace.
pub open spec fn trim_start(s: Seq<char>) -> Seq<char>
    decreases s.len(),
{
    if s.len() > 0 && is_whitespace(s[0]) {
        trim_start(s.drop_first())
    } else {
        s
    }
}

/// `s` without its trailing whitespace.
pub open spec fn trim_end(s: Seq<char>) -> Seq<char>
    decreases s.len(),
{
    if s.len() > 0 && is_whitespace(s.last()) {
        trim_end(s.drop_last())
    } else {
        s
    }
}

/// `s` without leading and trailing whitespace, as `str::trim` returns it.
pub open spec fn trim(s: Seq<char>) -> Seq<char> {
    trim_end(trim_start(s))
}

/// `s` without its control characters.
pub open spec fn remove_controls(s: Seq<char>) -> Seq<char>
    decreases s.len(),
{
    if s.len() == 0 {
        s
    } else if is_control(s.last()) {
        remove_controls(s.drop_last())
    } else {
        remove_controls(s.drop_last()).push(s.last())
    }
}

/// The characters of `s[start..]` minus its leading whitespace.
pub fn trim_start_chars(s: &[char]) -> (r: Vec<char>)
    ensures
        r@ == trim_start(s@),
{
    let mut i: usize = 0;
    assert(s@.subrange(0, s@.len() as int) == s@);
    while i < s.len() && char_is_whitespace(s[i])
        invariant
            i <= s@.len(),
            trim_start(s@) == trim_start(s@.subrange(i as int, s@.len() as int)),
        decreases s.len() - i,
    {
        assert(s@.subrange(i as int, s@.len() as int).drop_first() == s@.subrange(
            i + 1,
            s@.len() as int,
        ));
        i = i + 1;
    }
    let mut r: Vec<char> = Vec::new();
    let mut k = i;
    while k < s.len()
        invariant
            i <= k <= s@.len(),
            r@ == s@.subrange(i as int, k as int),
        decreases s.len() - k,
    {
        r.push(s[k]);
        k = k + 1;
        assert(s@.subrange(i as int, k as int) == s@.subrange(i as int, k - 1).push(s@[k - 1]));
    }
    r
}

/// The characters of `s` minus its trailing whitespace.
pub fn trim_end_chars(s: &[char]) -> (r: Vec<char>)
    ensures
        r@ == trim_end(s@),
{
    let mut j: usize = s.len();
    assert(s@.subrange(0, s@.len() as int) == s@);
    while j > 0 && char_is_whitespace(s[j - 1])
        invariant
            j <= s@.len(),
            trim_end(s@) == trim_end(s@.subrange(0, j as int)),
        decreases j,
    {
        assert(s@.subrange(0, j as int).drop_last() == s@.subrange(0, j - 1));
        j = j - 1;
    }
    let mut r: Vec<char> = Vec::new();
    let mut k: usize = 0;
    while k < j
        invariant
            k <= j <= s@.len(),
            r@ == s@.subrange(0, k as int),
        decreases j - k,
    {
        r.push(s[k]);
        k = k + 1;
        assert(s@.subrange(0, k as int) == s@.subrange(0, k - 1).push(s@[k - 1]));
    }
    r
}

/// The characters of `s` minus leading and trailing whitespace.
pub fn trim_chars(s: &[char]) -> (r: Vec<char>)
    ensures
        r@ == trim(s@),
{
    let t = trim_start_chars(s);
    trim_end_chars(t.as_slice())
}

/// The characters of `s` minus its control characters.
pub fn remove_control_chars(s: &[char]) -> (r: Vec<char>)
    ensures
        r@ == remove_controls(s@),
{
    let mut r: Vec<char> = Vec::new();
    let mut i: usize = 0;
    while i < s.len()
        invariant
            i <= s@.len(),
            r@ == remove_controls(s@.take(i as int)),
        decreases s.len() - i,
    {
        assert(s@.take(i + 1).drop_last() == s@.take(i as int));
        if !char_is_control(s[i]) {
            r.push(s[i]);
        }
        i = i + 1;
    }
    assert(s@.take(s@.len() as int) == s@);
    r
}

/// Number of bytes in the UTF-8 encoding of `c`.
pub open spec fn utf8_width(c: char) -> int {
    encode_utf8(seq![c]).len() as int
}

pub proof fn lemma_utf8_width(c: char)
    ensures
        utf8_width(c) == (if (c as u32) <= 0x7F {
            1int
        } else if (c as u32) <= 0x7FF {
            2int
        } else if (c as u32) <= 0xFFFF {
            3int
        } else {
            4int
        }),
{
    broadcast use vstd::utf8::char_is_scalar;

    assert(seq![c].drop_first() == Seq::<char>::empty());
    assert(encode_utf8(seq![c]) == vstd::utf8::encode_scalar(c as u32) + encode_utf8(
        Seq::<char>::empty(),
    ));
}

/// The encoding of a concatenation is the concatenation of the encodings.
pub proof fn lemma_encode_utf8_concat(a: Seq<char>, b: Seq<char>)
    ensures
        encode_utf8(a + b) == encode_utf8(a) + encode_utf8(b),
    decreases a.len(),
{
    if a.len() == 0 {
        assert(a + b == b);
    } else {
        lemma_encode_utf8_concat(a.drop_first(), b);
        assert((a + b).drop_first() == a.drop_first() + b);
        assert((a + b)[0] == a[0]);
    }
}

/// Number of bytes in the UTF-8 encoding of `c`.
pub fn char_utf8_width(c: char) -> (w: usize)
    ensures
        w == utf8_width(c),
        1 <= w <= 4,
{
    proof {
        lemma_utf8_width(c);
    }
    let u = c as u32;
    if u <= 0x7F {
        1
    } else if u <= 0x7FF {
        2
    } else if u <= 0xFFFF {
        3
    } else {
        4
    }
}

/// The longest prefix of `s` whose UTF-8 encoding fits in `budget` bytes.
pub open spec fn fit_prefix(s: Seq<char>, budget: int) -> Seq<char>
    decreases s.len(),
{
    if s.len() == 0 || utf8_width(s[0]) > budget {
        Seq::empty()
    } else {
        seq![s[0]] + fit_prefix(s.drop_first(), budget - utf8_width(s[0]))
    }
}

/// [`fit_prefix`] is a prefix of `s` that fits the budget, and the next
/// character of `s`, if any, would not.
pub proof fn lemma_fit_prefix(s: Seq<char>, budget: int)
    requires
        budget >= 0,
    ensures
        ({
            let p = fit_prefix(s, budget);
            &&& p.len() <= s.len()
            &&& p == s.take(p.len() as int)
            &&& encode_utf8(p).len() <= budget
            &&& p.len() < s.len() ==> encode_utf8(s.take(p.len() as int + 1)).len() > budget
        }),
    decreases s.len(),
{
    let p = fit_prefix(s, budget);
    if s.len() == 0 || utf8_width(s[0]) > budget {
        if s.len() > 0 {
            assert(s.take(1) == seq![s[0]]);
        }
    } else {
        let w = utf8_width(s[0]);
        let rest = s.drop_first();
        lemma_fit_prefix(rest, budget - w);
        let q = fit_prefix(rest, budget - w);
        lemma_encode_utf8_concat(seq![s[0]], q);
        assert(p == s.take(p.len() as int));
        if p.len() < s.len() {
            assert(s.take(p.len() as int + 1) == seq![s[0]] + rest.take(q.len() as int + 1));
            lemma_encode_utf8_concat(seq![s[0]], rest.take(q.len() as int + 1));
        }
    }
}

/// The longest prefix of `s` whose UTF-8 encoding fits in `budget` bytes.
pub fn fit_prefix_chars(s: &[char], budget: usize) -> (r: Vec<char>)
    ensures
        r@ == fit_prefix(s@, budget as int),
{
    let mut r: Vec<char> = Vec::new();
    let mut i: usize = 0;
    let mut left: usize = budget;
    assert(s@.subrange(0, s@.len() as int) == s@);
    while i < s.len()
        invariant
            i <= s@.len(),
            left <= budget,
            fit_prefix(s@, budget as int) == r@ + fit_prefix(
                s@.subrange(i as int, s@.len() as int),
                left as int,
            ),
        decreases s.len() - i,
    {
        let w = char_utf8_width(s[i]);
        if w > left {
            assert(r@ + Seq::<char>::empty() == r@);
            return r;
        }
        let ghost sub = s@.subrange(i as int, s@.len() as int);
        assert(sub.drop_first() == s@.subrange(i + 1, s@.len() as int));
        assert(r@ + (seq![s@[i as int]] + fit_prefix(sub.drop_first(), left - w)) == r@.push(
            s@[i as int],
        ) + fit_prefix(sub.drop_first(), left - w));
        r.push(s[i]);
        left = left - w;
        i = i + 1;
    }
    assert(r@ + Seq::<char>::empty() == r@);
    r
}


/// The decimal digit character for `d`.
pub open spec fn digit(d: nat) -> char {
    if d == 0 {
        '0'
    } else if d == 1 {
        '1'
    } else if d == 2 {
        '2'
    } else if d == 3 {
        '3'
    } else if d == 4 {
        '4'
    } else if d == 5 {
        '5'
    } else if d == 6 {
        '6'
    } else if d == 7 {
        '7'
    } else if d == 8 {
        '8'
    } else {
        '9'
    }
}

/// The decimal representation of `n`, without leading zeros.
pub open spec fn decimal(n: nat) -> Seq<char>
    decreases n,
{
    if n < 10 {
        seq![digit(n)]
    } else {
        decimal(n / 10).push(digit(n % 10))
    }
}

fn digit_char(d: u32) -> (c: char)
    requires
        d < 10,
    ensures
        c == digit(d as nat),
{
    match d {
        0 => '0',
        1 => '1',
        2 => '2',
        3 => '3',
        4 => '4',
        5 => '5',
        6 => '6',
        7 => '7',
        8 => '8',
        _ => '9',
    }
}

/// Appends the decimal representation of `n`.
pub fn push_decimal(s: &mut String, n: u32)
    ensures
        final(s)@ == old(s)@ + decimal(n as nat),
    decreases n,
{
    if n >= 10 {
        push_decimal(s, n / 10);
    }
    push_char(s, digit_char(n % 10));
}


/// No character of `s` is a control character.
pub open spec fn no_controls(s: Seq<char>) -> bool {
    forall|i: int| 0 <= i < s.len() ==> !is_control(#[trigger] s[i])
}

/// `s` neither starts nor ends with whitespace.
pub open spec fn is_trimmed(s: Seq<char>) -> bool {
    s.len() > 0 ==> !is_whitespace(s[0]) && !is_whitespace(s.last())
}

pub proof fn lemma_remove_controls(s: Seq<char>)
    ensures
        no_controls(remove_controls(s)),
        remove_controls(s).len() <= s.len(),
        no_controls(s) ==> remove_controls(s) == s,
    decreases s.len(),
{
    if s.len() > 0 {
        lemma_remove_controls(s.drop_last());
        if no_controls(s) {
            assert(no_controls(s.drop_last()));
            assert(s.drop_last().push(s.last()) == s);
        }
    }
}

pub proof fn lemma_trim_start(s: Seq<char>)
    ensures
        exists|k: int| 0 <= k <= s.len() && trim_start(s) == #[trigger] s.subrange(k, s.len() as int),
        trim_start(s).len() > 0 ==> !is_whitespace(trim_start(s)[0]),
    decreases s.len(),
{
    if s.len() > 0 && is_whitespace(s[0]) {
        lemma_trim_start(s.drop_first());
        let k = choose|k: int|
            0 <= k <= s.drop_first().len() && trim_start(s.drop_first()) == #[trigger] s.drop_first().subrange(
                k,
                s.drop_first().len() as int,
            );
        assert(s.drop_first().subrange(k, s.drop_first().len() as int) == s.subrange(
            k + 1,
            s.len() as int,
        ));
    } else {
        assert(s.subrange(0, s.len() as int) == s);
    }
}

pub proof fn lemma_trim_end(s: Seq<char>)
    ensures
        exists|k: int| 0 <= k <= s.len() && trim_end(s) == #[trigger] s.take(k),
        trim_end(s).len() > 0 ==> !is_whitespace(trim_end(s).last()),
    decreases s.len(),
{
    if s.len() > 0 && is_whitespace(s.last()) {
        lemma_trim_end(s.drop_last());
        let k = choose|k: int|
            0 <= k <= s.drop_last().len() && trim_end(s.drop_last()) == #[trigger] s.drop_last().take(k);
        assert(s.drop_last().take(k) == s.take(k));
    } else {
        assert(s.take(s.len() as int) == s);
    }
}

/// [`trim`] leaves a trimmed subrange of its input.
pub proof fn lemma_trim(s: Seq<char>)
    ensures
        is_trimmed(trim(s)),
        exists|a: int, b: int| 0 <= a <= b <= s.len() && trim(s) == #[trigger] s.subrange(a, b),
{
    lemma_trim_start(s);
    let t = trim_start(s);
    let a = choose|k: int| 0 <= k <= s.len() && t == #[trigger] s.subrange(k, s.len() as int);
    lemma_trim_end(t);
    let b = choose|k: int| 0 <= k <= t.len() && trim_end(t) == #[trigger] t.take(k);
    assert(t.take(b) == s.subrange(a, a + b));
    if trim(s).len() > 0 {
        assert(trim(s)[0] == t[0]);
    }
}

/// A string that is already trimmed is left as it is.
pub proof fn lemma_trim_of_trimmed(s: Seq<char>)
    requires
        is_trimmed(s),
    ensures
        trim_start(s) == s,
        trim_end(s) == s,
        trim(s) == s,
{
}

/// Every character of `s` is whitespace or a control character.
pub open spec fn is_blank(s: Seq<char>) -> bool {
    forall|i: int| 0 <= i < s.len() ==> is_whitespace(#[trigger] s[i]) || is_control(s[i])
}

/// Whether every character is whitespace or a control character.
pub fn all_blank(s: &[char]) -> (r: bool)
    ensures
        r == is_blank(s@),
{
    let mut i: usize = 0;
    while i < s.len()
        invariant
            i <= s@.len(),
            forall|j: int| 0 <= j < i ==> is_whitespace(#[trigger] s@[j]) || is_control(s@[j]),
        decreases s.len() - i,
    {
        if !char_is_whitespace(s[i]) && !char_is_control(s[i]) {
            return false;
        }
        i = i + 1;
    }
    true
}

/// Trimming keeps every character that is not whitespace.
pub proof fn lemma_trim_keeps(s: Seq<char>, c: char)
    requires
        s.contains(c),
        !is_whitespace(c),
    ensures
        trim_start(s).contains(c),
        trim_end(s).contains(c),
        trim(s).contains(c),
    decreases s.len(),
{
    let i = choose|i: int| 0 <= i < s.len() && s[i] == c;
    if s.len() > 0 && is_whitespace(s[0]) {
        assert(s.drop_first()[i - 1] == c);
        lemma_trim_keeps(s.drop_first(), c);
    }
    if s.len() > 0 && is_whitespace(s.last()) {
        assert(s.drop_last()[i] == c);
        lemma_trim_keeps(s.drop_last(), c);
    }
    lemma_trim_end_keeps(trim_start(s), c);
}

proof fn lemma_trim_end_keeps(s: Seq<char>, c: char)
    requires
        s.contains(c),
        !is_whitespace(c),
    ensures
        trim_end(s).contains(c),
    decreases s.len(),
{
    let i = choose|i: int| 0 <= i < s.len() && s[i] == c;
    if s.len() > 0 && is_whitespace(s.last()) {
        assert(s.drop_last()[i] == c);
        lemma_trim_end_keeps(s.drop_last(), c);
    }
}

/// Removing control characters keeps every other character.
pub proof fn lemma_remove_controls_keeps(s: Seq<char>, c: char)
    requires
        s.contains(c),
        !is_control(c),
    ensures
        remove_controls(s).contains(c),
    decreases s.len(),
{
    let i = choose|i: int| 0 <= i < s.len() && s[i] == c;
    if i < s.len() - 1 {
        assert(s.drop_last()[i] == c);
        lemma_remove_controls_keeps(s.drop_last(), c);
        let r = remove_controls(s.drop_last());
        let j = choose|j: int| 0 <= j < r.len() && r[j] == c;
        if !is_control(s.last()) {
            assert(r.push(s.last())[j] == c);
        }
    } else {
        let r = remove_controls(s.drop_last());
        assert(r.push(s.last())[r.len() as int] == c);
    }
}

/// Removing the control characters of a blank string leaves only
/// whitespace.
pub proof fn lemma_remove_controls_of_blank(s: Seq<char>)
    requires
        is_blank(s),
    ensures
        forall|i: int|
            0 <= i < remove_controls(s).len() ==> is_whitespace(#[trigger] remove_controls(s)[i]),
    decreases s.len(),
{
    if s.len() > 0 {
        assert(is_blank(s.drop_last())) by {
            assert forall|i: int| 0 <= i < s.drop_last().len() implies is_whitespace(
                #[trigger] s.drop_last()[i],
            ) || is_control(s.drop_last()[i]) by {
                assert(s.drop_last()[i] == s[i]);
            }
        }
        lemma_remove_controls_of_blank(s.drop_last());
        assert(is_whitespace(s[s.len() - 1]) || is_control(s[s.len() - 1]));
        let r = remove_controls(s.drop_last());
        if !is_control(s.last()) {
            assert forall|i: int| 0 <= i < r.push(s.last()).len() implies is_whitespace(
                #[trigger] r.push(s.last())[i],
            ) by {
                if i < r.len() {
                    assert(r.push(s.last())[i] == r[i]);
                }
            }
        }
    }
}

/// A subrange of a blank string is blank.
pub proof fn lemma_blank_subrange(s: Seq<char>, a: int, b: int)
    requires
        is_blank(s),
        0 <= a <= b <= s.len(),
    ensures
        is_blank(s.subrange(a, b)),
{
    assert forall|i: int| 0 <= i < b - a implies is_whitespace(#[trigger] s.subrange(a, b)[i])
        || is_control(s.subrange(a, b)[i]) by {
        assert(s.subrange(a, b)[i] == s[a + i]);
    }
}

/// A subrange of a string without control characters has none either.
pub proof fn lemma_no_controls_subrange(s: Seq<char>, a: int, b: int)
    requires
        no_controls(s),
        0 <= a <= b <= s.len(),
    ensures
        no_controls(s.subrange(a, b)),
{
    assert forall|i: int| 0 <= i < b - a implies !is_control(#[trigger] s.subrange(a, b)[i]) by {
        assert(s.subrange(a, b)[i] == s[a + i]);
    }
}


/// `true` when `a` and `b` hold the same characters.
pub fn chars_equal(a: &[char], b: &[char]) -> (r: bool)
    ensures
        r == (a@ == b@),
{
    if a.len() != b.len() {
        return false;
    }
    let mut i: usize = 0;
    while i < a.len()
        invariant
            a@.len() == b@.len(),
            i <= a@.len(),
            forall|j: int| 0 <= j < i ==> a@[j] == b@[j],
        decreases a.len() - i,
    {
        if a[i] != b[i] {
            return false;
        }
        i = i + 1;
    }
    assert(a@ == b@);
    true
}

/// `true` when `a` and `b` are the same text.
pub fn str_eq(a: &str, b: &str) -> (r: bool)
    ensures
        r == (a@ == b@),
{
    let ac = chars_of(a);
    let bc = chars_of(b);
    chars_equal(ac.as_slice(), bc.as_slice())
}

/// The ASCII lowercase of `c`; other characters are unchanged.
pub open spec fn ascii_lower(c: char) -> char {
    if 'A' <= c && c <= 'Z' {
        ((c as u32) + 32) as char
    } else {
        c
    }
}

pub fn char_ascii_lower(c: char) -> (r: char)
    ensures
        r == ascii_lower(c),
{
    if 'A' <= c && c <= 'Z' {
        ((c as u8) + 32) as char
    } else {
        c
    }
}

/// An ASCII decimal digit.
pub open spec fn is_digit(c: char) -> bool {
    '0' <= c && c <= '9'
}

/// The value of the decimal digits `s`, most significant first.
pub open spec fn digits_value(s: Seq<char>) -> int
    decreases s.len(),
{
    if s.len() == 0 {
        0
    } else {
        digits_value(s.drop_last()) * 10 + ((s.last() as u32) - ('0' as u32))
    }
}

/// `s` without one leading `+`.
pub open spec fn unsigned_digits(s: Seq<char>) -> Seq<char> {
    if s.len() > 0 && s[0] == '+' {
        s.drop_first()
    } else {
        s
    }
}

/// What `u16::from_str` accepts: an optional `+`, then one or more decimal
/// digits whose value fits a `u16`.
pub open spec fn parse_u16_spec(s: Seq<char>) -> Option<u16> {
    let d = unsigned_digits(s);
    if d.len() > 0 && (forall|i: int| 0 <= i < d.len() ==> is_digit(#[trigger] d[i])) && digits_value(
        d,
    ) <= u16::MAX {
        Some(digits_value(d) as u16)
    } else {
        None
    }
}

pub proof fn lemma_digits_value_nonneg(s: Seq<char>)
    requires
        forall|i: int| 0 <= i < s.len() ==> is_digit(#[trigger] s[i]),
    ensures
        digits_value(s) >= 0,
    decreases s.len(),
{
    if s.len() > 0 {
        lemma_digits_value_nonneg(s.drop_last());
    }
}

/// Parses a decimal `u16` the way `u16::from_str` does.
pub fn parse_u16(s: &[char]) -> (r: Option<u16>)
    ensures
        r == parse_u16_spec(s@),
{
    let start: usize = if s.len() > 0 && s[0] == '+' {
        1
    } else {
        0
    };
    let ghost d = unsigned_digits(s@);
    assert(d == s@.subrange(start as int, s@.len() as int));
    if start >= s.len() {
        return None;
    }
    let mut value: u32 = 0;
    let mut i: usize = start;
    while i < s.len()
        invariant
            start <= i <= s@.len(),
            d == s@.subrange(start as int, s@.len() as int),
            d == unsigned_digits(s@),
            forall|j: int| start <= j < i ==> is_digit(#[trigger] s@[j]),
            value == digits_value(s@.subrange(start as int, i as int)),
            value <= u16::MAX,
        decreases s.len() - i,
    {
        let c = s[i];
        let ghost prefix = s@.subrange(start as int, i + 1);
        assert(prefix.drop_last() == s@.subrange(start as int, i as int));
        if !('0' <= c && c <= '9') {
            assert(d[i - start] == c);
            assert(!is_digit(d[i - start]));
            assert(!(forall|j: int| 0 <= j < d.len() ==> is_digit(#[trigger] d[j])));
            assert(parse_u16_spec(s@) is None);
            return None;
        }
        let digit = (c as u32) - ('0' as u32);
        let next = value * 10 + digit;
        if next > 65535 {
            proof {
                let k = prefix.len() as int;
                assert(d.take(k) == prefix);
                assert(prefix.last() == c);
                assert(digits_value(prefix) == value * 10 + digit);
                assert forall|j: int| 0 <= j < k implies is_digit(#[trigger] d[j]) by {
                    assert(d[j] == s@[start + j]);
                }
                lemma_digits_prefix_monotone(d, k);
                assert(parse_u16_spec(s@) is None);
            }
            return None;
        }
        value = next;
        i = i + 1;
    }
    assert(s@.subrange(start as int, s@.len() as int) == d);
    Some(value as u16)
}

/// Extending a digit string never lowers its value.
pub proof fn lemma_digits_prefix_monotone(d: Seq<char>, k: int)
    requires
        0 <= k <= d.len(),
        forall|j: int| 0 <= j < k ==> is_digit(#[trigger] d[j]),
    ensures
        (forall|j: int| 0 <= j < d.len() ==> is_digit(#[trigger] d[j])) ==> digits_value(d) >= digits_value(d.take(k)),
    decreases d.len() - k,
{
    if k < d.len() && (forall|j: int| 0 <= j < d.len() ==> is_digit(#[trigger] d[j])) {
        lemma_digits_prefix_monotone(d, k + 1);
        assert(d.take(k + 1).drop_last() == d.take(k));
        lemma_digits_value_nonneg(d.take(k));
    } else if k == d.len() {
        assert(d.take(k) == d);
    }
}

} // verus!
