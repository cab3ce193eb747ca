//! Characters and strings: the character classes the editor relies on, and the
//! few string operations the rest of the crate is built from.

use vstd::prelude::*;

verus! {

/// Whether `c`, a character beyond ASCII, is alphabetic or numeric in Unicode's
/// sense, as `char::is_alphanumeric` decides it from the standard library's tables.
pub uninterp spec fn is_unicode_alphanumeric(c: char) -> bool;

/// Whether `c`, a character beyond ASCII, has Unicode's `White_Space` property, as
/// `char::is_whitespace` decides it from the standard library's tables.
pub uninterp spec fn is_unicode_whitespace(c: char) -> bool;

/// The ASCII letters and digits.
pub open spec fn is_ascii_letter_or_digit(c: char) -> bool {
    ||| 'a' <= c <= 'z'
    ||| 'A' <= c <= 'Z'
    ||| '0' <= c <= '9'
}

/// The letters and numbers: of the ASCII characters the letters and the digits,
/// and beyond ASCII what Unicode classifies as alphabetic or numeric.
pub open spec fn is_letter_or_number(c: char) -> bool {
    if c <= '\x7f' {
        is_ascii_letter_or_digit(c)
    } else {
        is_unicode_alphanumeric(c)
    }
}

/// Trusted: `char::is_alphanumeric` accepts the characters that Unicode's character
/// database gives the `Alphabetic` property or a numeric general category. Among
/// the ASCII characters these are exactly the letters and the digits; of any other
/// character the answer is a function of the character alone.
pub assume_specification[ char::is_alphanumeric ](c: char) -> (b: bool)
    ensures
        c <= '\x7f' ==> b == is_ascii_letter_or_digit(c),
        c > '\x7f' ==> b == is_unicode_alphanumeric(c),
;

/// The ASCII whitespace: the space, and the controls from the tab to the carriage
/// return.
pub open spec fn is_ascii_whitespace_char(c: char) -> bool {
    c == ' ' || '\t' <= c <= '\r'
}

/// The whitespace: of the ASCII characters the space and the controls from the tab
/// to the carriage return, and beyond ASCII what Unicode gives the `White_Space`
/// property.
pub open spec fn is_whitespace_char(c: char) -> bool {
    if c <= '\x7f' {
        is_ascii_whitespace_char(c)
    } else {
        is_unicode_whitespace(c)
    }
}

/// Trusted: `char::is_whitespace` accepts the characters that Unicode's character
/// database gives the `White_Space` property. Among the ASCII characters these are
/// the space and the controls from the tab to the carriage return; of any other
/// character the answer is a function of the character alone.
pub assume_specification[ char::is_whitespace ](c: char) -> (b: bool)
    ensures
        c <= '\x7f' ==> b == is_ascii_whitespace_char(c),
        c > '\x7f' ==> b == is_unicode_whitespace(c),
;

/// Trusted: `String::push` appends the character to the string.
#[verifier::external_body]
pub(crate) fn push_char(s: &mut String, c: char)
    ensures
        final(s)@ == old(s)@.push(c),
{
    s.push(c)
}

/// The characters of an optional text.
pub open spec fn opt_text(o: Option<String>) -> Option<Seq<char>> {
    match o {
        Some(s) => Some(s@),
        None => None,
    }
}

/// The characters of an optional string slice.
pub open spec fn opt_str(o: Option<&str>) -> Option<Seq<char>> {
    match o {
        Some(s) => Some(s@),
        None => None,
    }
}

/// A text is blank when it holds nothing but whitespace; the empty text is blank.
/// These are the texts that trimming leaves empty.
pub open spec fn is_blank(s: Seq<char>) -> bool {
    forall|i: int| 0 <= i < s.len() ==> is_whitespace_char(#[trigger] s[i])
}

/// A text that holds an ASCII character other than whitespace is not blank.
pub proof fn lemma_visible_text_is_not_blank(s: Seq<char>, i: int)
    requires
        0 <= i < s.len(),
        s[i] <= '\x7f',
        !is_ascii_whitespace_char(s[i]),
    ensures
        !is_blank(s),
{
    assert(!is_whitespace_char(s[i]));
}

/// Decides whether `s` is blank.
pub fn blank(s: &str) -> (b: bool)
    ensures
        b == is_blank(s@),
{
    let chars = s.chars();
    for c in it: chars
        invariant
            it.seq() == s@,
            forall|i: int| 0 <= i < it.index() ==> is_whitespace_char(#[trigger] s@[i]),
    {
        if !c.is_whitespace() {
            return false;
        }
    }
    true
}

/// The character that writes the digit `d`, for `d` below ten.
pub open spec fn digit_char(d: nat) -> char {
    (d + 48) as char
}

/// The decimal numeral of `n`: no sign, and no leading zero but for zero itself.
pub open spec fn decimal(n: nat) -> Seq<char>
    decreases n,
{
    if n < 10 {
        seq![digit_char(n)]
    } else {
        decimal(n / 10).push(digit_char(n % 10))
    }
}

/// Writes `n` as a decimal numeral.
pub fn to_decimal(n: u128) -> (r: String)
    ensures
        r@ == decimal(n as nat),
    decreases n,
{
    let digit: u8 = (n % 10) as u8;
    let c: char = (48u8 + digit) as char;
    let mut r = if n < 10 {
        String::new()
    } else {
        to_decimal(n / 10)
    };
    push_char(&mut r, c);
    r
}

/// A decimal numeral is made of digits, and of one at least.
pub proof fn lemma_decimal_is_digits(n: nat)
    ensures
        decimal(n).len() >= 1,
        forall|i: int| 0 <= i < decimal(n).len() ==> '0' <= #[trigger] decimal(n)[i] <= '9',
    decreases n,
{
    if n >= 10 {
        lemma_decimal_is_digits(n / 10);
    }
}

} // verus!
