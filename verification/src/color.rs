//! Hex colour notation: `#rgb`, `#rrggbb` and `#rrggbbaa`.
//!
//! Colours are handled here by their 8-bit channels `[r, g, b, a]`, the form in
//! which they are written, parsed and handed to the compositor. `a` is the
//! overlay's opacity: `0` leaves the screen untouched, `255` replaces it.

use vstd::prelude::*;
use crate::ascii::{
    ascii_lowercase, hex_char, hex_digit_char, hex_digit_value, hex_value, is_hex_digit,
    is_hex_digit_char, lemma_hex_char_value, lemma_hex_value_char, lemma_lower_hex, lower_char,
};

verus! {

/// The hex digits of a colour: the text without its optional leading `#`.
pub open spec fn strip_hash(s: Seq<char>) -> Seq<char> {
    if s.len() > 0 && s[0] == '#' {
        s.skip(1)
    } else {
        s
    }
}

/// Every character of `s` is an ASCII hex digit.
pub open spec fn all_hex_digits(s: Seq<char>) -> bool {
    forall|i: int| 0 <= i < s.len() ==> #[trigger] is_hex_digit(s[i])
}

/// A channel written as one digit: `f` stands for `ff`.
pub open spec fn nibble_channel(c: char) -> u8 {
    (hex_value(c) * 17) as u8
}

/// A channel written as two digits, high digit first.
pub open spec fn pair_channel(hi: char, lo: char) -> u8 {
    (hex_value(hi) * 16 + hex_value(lo)) as u8
}

/// The channels that a colour text denotes, or `None` where it is not one.
///
/// After an optional `#`, the text must consist of hex digits only, and of 3
/// (one digit per channel), 6 or 8 of them. Without an alpha digit pair the
/// colour is fully opaque.
pub open spec fn spec_parse_rgba8(s: Seq<char>) -> Option<Seq<u8>> {
    let h = strip_hash(s);
    if !all_hex_digits(h) {
        None
    } else if h.len() == 3 {
        Some(seq![nibble_channel(h[0]), nibble_channel(h[1]), nibble_channel(h[2]), 255u8])
    } else if h.len() == 6 {
        Some(seq![pair_channel(h[0], h[1]), pair_channel(h[2], h[3]), pair_channel(h[4], h[5]), 255u8])
    } else if h.len() == 8 {
        Some(seq![pair_channel(h[0], h[1]), pair_channel(h[2], h[3]), pair_channel(h[4], h[5]), pair_channel(h[6], h[7])])
    } else {
        None
    }
}

/// A channel as two lower-case hex digits, as `{:02x}` writes it.
pub open spec fn hex_pair(b: u8) -> Seq<char> {
    seq![hex_char(b as int / 16), hex_char(b as int % 16)]
}

/// The `#rrggbbaa` text of a colour.
pub open spec fn spec_format_rgba8(c: Seq<u8>) -> Seq<char>
    recommends
        c.len() == 4,
{
    seq!['#'] + hex_pair(c[0]) + hex_pair(c[1]) + hex_pair(c[2]) + hex_pair(c[3])
}

/// What `{:?}` writes for a string: the string quoted, with special characters
/// escaped.
pub uninterp spec fn debug_quoted(s: Seq<char>) -> Seq<char>;

/// Formats `s` with `{:?}` (std's `Debug` for `str`). The contract names the
/// result and says nothing of the quoting and escaping rules themselves.
#[verifier::external_body]
pub(crate) fn debug_str(s: &str) -> (res: String)
    ensures
        res@ == debug_quoted(s@),
{
    format!("{:?}", s)
}

/// Appends `c` to `s` (std's `String::push`).
#[verifier::external_body]
fn push_char(s: &mut String, c: char)
    ensures
        final(s)@ == old(s)@.push(c),
{
    s.push(c)
}

/// A text that is not a hex colour. Holds the whole text as it was given.
#[derive(Debug, Clone)]
pub struct ParseColorError(String);

impl View for ParseColorError {
    type V = Seq<char>;

    /// The text that failed to parse.
    closed spec fn view(&self) -> Seq<char> {
        self.0@
    }
}

impl PartialEq for ParseColorError {
    fn eq(&self, other: &Self) -> (res: bool) {
        self.0 == other.0
    }
}

impl Eq for ParseColorError {}

impl vstd::std_specs::cmp::PartialEqSpecImpl for ParseColorError {
    open spec fn obeys_eq_spec() -> bool {
        true
    }

    open spec fn eq_spec(&self, other: &Self) -> bool {
        self@ == other@
    }
}

/// The message of a parse error around the already quoted text.
pub open spec fn spec_message_from_quoted(quoted: Seq<char>) -> Seq<char> {
    "invalid colour "@ + quoted + ": expected #rgb, #rrggbb or #rrggbbaa"@
}

/// The message of a parse error, for a text `s`.
pub open spec fn spec_parse_error_message(s: Seq<char>) -> Seq<char> {
    spec_message_from_quoted(debug_quoted(s))
}

/// Builds a parse error's message around the offending text as `{:?}` quoted
/// it: what is refused, and the forms that are accepted.
pub fn message_from_quoted(quoted: &str) -> (res: String)
    ensures
        res@ == spec_message_from_quoted(quoted@),
{
    let mut res = String::from_str("invalid colour ");
    res.append(quoted);
    res.append(": expected #rgb, #rrggbb or #rrggbbaa");
    res
}

impl ParseColorError {
    /// The error for the text `text`.
    pub fn new(text: String) -> (e: Self)
        ensures
            e@ == text@,
    {
        ParseColorError(text)
    }

    /// The text that failed to parse.
    pub fn text(&self) -> (res: &str)
        ensures
            res@ == self@,
    {
        self.0.as_str()
    }

    /// Renders the error for a user: the offending text, quoted as `{:?}` does,
    /// and the accepted forms.
    pub fn message(&self) -> (res: String)
        ensures
            res@ == spec_parse_error_message(self@),
    {
        let quoted = debug_str(self.0.as_str());
        message_from_quoted(quoted.as_str())
    }
}

/// Parses `#rgb`, `#rrggbb` or `#rrggbbaa` (the `#` is optional, digits of
/// either case) into `[r, g, b, a]`. Colours without an alpha component are
/// fully opaque. Any other text is refused with an error that holds it.
pub fn parse_rgba8(s: &str) -> (res: Result<[u8; 4], ParseColorError>)
    ensures
        match res {
            Ok(c) => spec_parse_rgba8(s@) == Some(c@),
            Err(e) => spec_parse_rgba8(s@) is None && e@ == s@,
        },
{
    let n = s.unicode_len();
    let start: usize = if n > 0 && s.get_char(0) == '#' {
        1
    } else {
        0
    };
    let ghost h = strip_hash(s@);
    assert(h =~= s@.subrange(start as int, n as int));
    let mut i: usize = start;
    while i < n
        invariant
            start <= i <= n,
            n == s@.len(),
            h == strip_hash(s@),
            h == s@.subrange(start as int, n as int),
            forall|j: int| start <= j < i ==> is_hex_digit(#[trigger] s@[j]),
        decreases n - i,
    {
        if !is_hex_digit_char(s.get_char(i)) {
            assert(!is_hex_digit(h[i - start]));
            return Err(ParseColorError(s.to_owned()));
        }
        i = i + 1;
    }
    assert(all_hex_digits(h)) by {
        assert forall|k: int| 0 <= k < h.len() implies #[trigger] is_hex_digit(h[k]) by {
            assert(h[k] == s@[start + k]);
        }
    }
    let len = n - start;
    if len == 3 {
        let r = hex_digit_value(s.get_char(start)) * 17;
        let g = hex_digit_value(s.get_char(start + 1)) * 17;
        let b = hex_digit_value(s.get_char(start + 2)) * 17;
        let c = [r, g, b, 255u8];
        assert(c@ =~= spec_parse_rgba8(s@).unwrap());
        Ok(c)
    } else if len == 6 || len == 8 {
        let r = hex_digit_value(s.get_char(start)) * 16 + hex_digit_value(s.get_char(start + 1));
        let g = hex_digit_value(s.get_char(start + 2)) * 16 + hex_digit_value(s.get_char(start + 3));
        let b = hex_digit_value(s.get_char(start + 4)) * 16 + hex_digit_value(s.get_char(start + 5));
        let a = if len == 8 {
            hex_digit_value(s.get_char(start + 6)) * 16 + hex_digit_value(s.get_char(start + 7))
        } else {
            255u8
        };
        let c = [r, g, b, a];
        assert(c@ =~= spec_parse_rgba8(s@).unwrap());
        Ok(c)
    } else {
        Err(ParseColorError(s.to_owned()))
    }
}

/// Appends the two lower-case hex digits of `b` to `res`.
fn push_hex_pair(res: &mut String, b: u8)
    ensures
        final(res)@ == old(res)@ + hex_pair(b),
{
    push_char(res, hex_digit_char(b / 16));
    push_char(res, hex_digit_char(b % 16));
    assert(final(res)@ =~= old(res)@ + hex_pair(b));
}

/// Writes a colour as `#rrggbbaa`, lower-case, two digits per channel.
pub fn format_rgba8(c: [u8; 4]) -> (res: String)
    ensures
        res@ == spec_format_rgba8(c@),
{
    let mut res = String::new();
    push_char(&mut res, '#');
    push_hex_pair(&mut res, c[0]);
    push_hex_pair(&mut res, c[1]);
    push_hex_pair(&mut res, c[2]);
    push_hex_pair(&mut res, c[3]);
    assert(res@ =~= spec_format_rgba8(c@));
    res
}

/// A two-digit channel written by `hex_pair` reads back as the channel.
proof fn lemma_hex_pair_channel(b: u8)
    ensures
        is_hex_digit(hex_pair(b)[0]),
        is_hex_digit(hex_pair(b)[1]),
        pair_channel(hex_pair(b)[0], hex_pair(b)[1]) == b,
{
    lemma_hex_char_value(b as int / 16);
    lemma_hex_char_value(b as int % 16);
}

/// Printing a colour and parsing the text gives the colour back.
pub proof fn lemma_format_parse_roundtrip(c: Seq<u8>)
    requires
        c.len() == 4,
    ensures
        spec_parse_rgba8(spec_format_rgba8(c)) == Some(c),
{
    let s = spec_format_rgba8(c);
    let h = strip_hash(s);
    lemma_hex_pair_channel(c[0]);
    lemma_hex_pair_channel(c[1]);
    lemma_hex_pair_channel(c[2]);
    lemma_hex_pair_channel(c[3]);
    assert(h =~= hex_pair(c[0]) + hex_pair(c[1]) + hex_pair(c[2]) + hex_pair(c[3]));
    assert(all_hex_digits(h));
    assert(spec_parse_rgba8(s).unwrap() =~= c);
}

/// A channel printed from two hex digits is those digits in lower case.
proof fn lemma_pair_channel_hex_pair(hi: char, lo: char)
    requires
        is_hex_digit(hi),
        is_hex_digit(lo),
    ensures
        hex_pair(pair_channel(hi, lo)) == seq![lower_char(hi), lower_char(lo)],
{
    lemma_hex_value_char(hi);
    lemma_hex_value_char(lo);
    let v = hex_value(hi) * 16 + hex_value(lo);
    assert(v / 16 == hex_value(hi));
    assert(v % 16 == hex_value(lo));
    assert(hex_pair(pair_channel(hi, lo)) =~= seq![lower_char(hi), lower_char(lo)]);
}

/// Parsing an eight-digit colour and printing it gives the text back with a
/// `#` in front and its digits in lower case.
pub proof fn lemma_parse_format_roundtrip(s: Seq<char>)
    requires
        spec_parse_rgba8(s) is Some,
        strip_hash(s).len() == 8,
    ensures
        spec_format_rgba8(spec_parse_rgba8(s).unwrap()) == seq!['#'] + ascii_lowercase(strip_hash(s)),
{
    let h = strip_hash(s);
    assert(is_hex_digit(h[0]) && is_hex_digit(h[1]) && is_hex_digit(h[2]) && is_hex_digit(h[3]));
    assert(is_hex_digit(h[4]) && is_hex_digit(h[5]) && is_hex_digit(h[6]) && is_hex_digit(h[7]));
    lemma_pair_channel_hex_pair(h[0], h[1]);
    lemma_pair_channel_hex_pair(h[2], h[3]);
    lemma_pair_channel_hex_pair(h[4], h[5]);
    lemma_pair_channel_hex_pair(h[6], h[7]);
    assert(spec_format_rgba8(spec_parse_rgba8(s).unwrap()) =~= seq!['#'] + ascii_lowercase(h));
}

/// A colour written without an alpha component is fully opaque.
pub proof fn lemma_no_alpha_is_opaque(s: Seq<char>)
    requires
        spec_parse_rgba8(s) is Some,
        strip_hash(s).len() != 8,
    ensures
        spec_parse_rgba8(s).unwrap()[3] == 255,
{
}

/// The leading `#` is optional.
pub proof fn lemma_hash_is_optional(h: Seq<char>)
    requires
        h.len() == 0 || h[0] != '#',
    ensures
        spec_parse_rgba8(seq!['#'] + h) == spec_parse_rgba8(h),
{
    assert((seq!['#'] + h).skip(1) =~= h);
}

/// `#rgb` is shorthand for `#rrggbb`: each digit stands for itself twice.
pub proof fn lemma_short_form_doubles_digits(h: Seq<char>)
    requires
        h.len() == 3,
        h[0] != '#',
    ensures
        spec_parse_rgba8(h) == spec_parse_rgba8(seq![h[0], h[0], h[1], h[1], h[2], h[2]]),
{
    let long = seq![h[0], h[0], h[1], h[1], h[2], h[2]];
    assert(strip_hash(long) == long);
    if all_hex_digits(h) {
        assert(all_hex_digits(long)) by {
            assert forall|i: int| 0 <= i < long.len() implies #[trigger] is_hex_digit(long[i]) by {
                assert(long[i] == h[i / 2]);
            }
        }
        assert(spec_parse_rgba8(h).unwrap() =~= spec_parse_rgba8(long).unwrap());
    } else {
        let k = choose|k: int| 0 <= k < h.len() && !is_hex_digit(h[k]);
        assert(long[2 * k] == h[k]);
        assert(!all_hex_digits(long));
    }
}

/// Hex digits are read regardless of case.
pub proof fn lemma_parse_ignores_case(s: Seq<char>)
    ensures
        spec_parse_rgba8(ascii_lowercase(s)) == spec_parse_rgba8(s),
{
    let l = ascii_lowercase(s);
    let h = strip_hash(s);
    let lh = strip_hash(l);
    assert(lh =~= ascii_lowercase(h));
    assert forall|i: int| 0 <= i < h.len() implies lh[i] == lower_char(h[i]) by {}
    assert forall|i: int| 0 <= i < h.len() implies is_hex_digit(#[trigger] lh[i]) == is_hex_digit(h[i]) by {
        lemma_lower_hex(h[i]);
    }
    if all_hex_digits(h) {
        assert(all_hex_digits(lh)) by {
            assert forall|i: int| 0 <= i < lh.len() implies #[trigger] is_hex_digit(lh[i]) by {
                assert(is_hex_digit(h[i]));
            }
        }
        assert forall|i: int| 0 <= i < h.len() implies hex_value(#[trigger] lh[i]) == hex_value(h[i]) by {
            assert(is_hex_digit(h[i]));
            lemma_lower_hex(h[i]);
        }
        if h.len() == 3 || h.len() == 6 || h.len() == 8 {
            assert(spec_parse_rgba8(l).unwrap() =~= spec_parse_rgba8(s).unwrap());
        }
    } else {
        let k = choose|k: int| 0 <= k < h.len() && !is_hex_digit(h[k]);
        assert(!is_hex_digit(lh[k]));
    }
}

/// `d` is a hex digit, by its character code: `0-9`, `a-f` or `A-F`.
pub open spec fn is_digit_char(d: char) -> bool {
    (48 <= d as int <= 57) || (97 <= d as int <= 102) || (65 <= d as int <= 70)
}

/// The digit `d` is written for the number `v`, by its character code.
pub open spec fn digit_for(d: char, v: int) -> bool {
    ||| (48 <= d as int <= 57 && v == d as int - 48)
    ||| (97 <= d as int <= 102 && v == d as int - 87)
    ||| (65 <= d as int <= 70 && v == d as int - 55)
}

/// The lower-case digit `d` is written for the number `v`.
pub open spec fn lower_digit_for(d: char, v: int) -> bool {
    ||| (48 <= d as int <= 57 && v == d as int - 48)
    ||| (97 <= d as int <= 102 && v == d as int - 87)
}

/// The digits `hi` then `lo` read as the number `b`: high digit first.
pub open spec fn pair_reads_as(hi: char, lo: char, b: int) -> bool {
    forall|x: int, y: int|
        #![trigger digit_for(hi, x), digit_for(lo, y)]
        digit_for(hi, x) && digit_for(lo, y) ==> b == 16 * x + y
}

/// The one digit `d` reads as the channel `b`: the digit stands for itself
/// twice.
pub open spec fn single_reads_as(d: char, b: int) -> bool {
    forall|x: int| #[trigger] digit_for(d, x) ==> b == 17 * x
}

/// Characters `i` and `i + 1` of `t` are the lower-case hex digits of `b`,
/// high digit first.
pub open spec fn writes_pair_at(t: Seq<char>, i: int, b: int) -> bool {
    lower_digit_for(t[i], b / 16) && lower_digit_for(t[i + 1], b % 16)
}

proof fn lemma_digit_for_value(d: char)
    requires
        is_digit_char(d),
    ensures
        is_hex_digit(d),
        forall|x: int| #[trigger] digit_for(d, x) ==> x == hex_value(d),
{
}

/// The text of a colour is `#` and then, channel by channel in the order
/// `r, g, b, a`, the channel's two lower-case hex digits, high digit first.
pub proof fn lemma_format_writes_channels_in_order(c: Seq<u8>)
    requires
        c.len() == 4,
    ensures
        spec_format_rgba8(c).len() == 9,
        spec_format_rgba8(c)[0] == '#',
        writes_pair_at(spec_format_rgba8(c), 1, c[0] as int),
        writes_pair_at(spec_format_rgba8(c), 3, c[1] as int),
        writes_pair_at(spec_format_rgba8(c), 5, c[2] as int),
        writes_pair_at(spec_format_rgba8(c), 7, c[3] as int),
{
    let t = spec_format_rgba8(c);
    assert(t =~= seq!['#'] + hex_pair(c[0]) + hex_pair(c[1]) + hex_pair(c[2]) + hex_pair(c[3]));
    assert(t[1] == hex_char(c[0] as int / 16) && t[2] == hex_char(c[0] as int % 16));
    assert(t[3] == hex_char(c[1] as int / 16) && t[4] == hex_char(c[1] as int % 16));
    assert(t[5] == hex_char(c[2] as int / 16) && t[6] == hex_char(c[2] as int % 16));
    assert(t[7] == hex_char(c[3] as int / 16) && t[8] == hex_char(c[3] as int % 16));
}

/// Six hex digits are read as red, green and blue, each from its pair of
/// digits in order, high digit first; the colour is opaque, as if `ff` followed.
pub proof fn lemma_six_digits_read_in_pairs(h: Seq<char>)
    requires
        h.len() == 6,
        forall|i: int| 0 <= i < 6 ==> #[trigger] is_digit_char(h[i]),
    ensures
        spec_parse_rgba8(h) is Some,
        spec_parse_rgba8(h).unwrap().len() == 4,
        pair_reads_as(h[0], h[1], spec_parse_rgba8(h).unwrap()[0] as int),
        pair_reads_as(h[2], h[3], spec_parse_rgba8(h).unwrap()[1] as int),
        pair_reads_as(h[4], h[5], spec_parse_rgba8(h).unwrap()[2] as int),
        spec_parse_rgba8(h).unwrap()[3] == 255,
        spec_parse_rgba8(h) == spec_parse_rgba8(h + seq!['f', 'f']),
{
    assert forall|i: int| 0 <= i < 6 implies is_hex_digit(h[i]) by {
        lemma_digit_for_value(h[i]);
    }
    lemma_digit_for_value(h[0]);
    lemma_digit_for_value(h[1]);
    lemma_digit_for_value(h[2]);
    lemma_digit_for_value(h[3]);
    lemma_digit_for_value(h[4]);
    lemma_digit_for_value(h[5]);
    assert(strip_hash(h) == h);
    assert(all_hex_digits(h));
    let l = h + seq!['f', 'f'];
    assert(strip_hash(l) == l);
    assert(all_hex_digits(l)) by {
        assert forall|i: int| 0 <= i < l.len() implies #[trigger] is_hex_digit(l[i]) by {
            if i < 6 {
                assert(l[i] == h[i]);
            }
        }
    }
    assert(l[0] == h[0] && l[1] == h[1] && l[2] == h[2] && l[3] == h[3] && l[4] == h[4] && l[5] == h[5]);
    assert(spec_parse_rgba8(h).unwrap() =~= spec_parse_rgba8(l).unwrap());
}

/// Eight hex digits are read as red, green, blue and alpha, each from its pair
/// of digits in order, high digit first, whatever the alpha.
pub proof fn lemma_eight_digits_read_in_pairs(h: Seq<char>)
    requires
        h.len() == 8,
        forall|i: int| 0 <= i < 8 ==> #[trigger] is_digit_char(h[i]),
    ensures
        spec_parse_rgba8(h) is Some,
        spec_parse_rgba8(h).unwrap().len() == 4,
        pair_reads_as(h[0], h[1], spec_parse_rgba8(h).unwrap()[0] as int),
        pair_reads_as(h[2], h[3], spec_parse_rgba8(h).unwrap()[1] as int),
        pair_reads_as(h[4], h[5], spec_parse_rgba8(h).unwrap()[2] as int),
        pair_reads_as(h[6], h[7], spec_parse_rgba8(h).unwrap()[3] as int),
{
    assert forall|i: int| 0 <= i < 8 implies is_hex_digit(h[i]) by {
        lemma_digit_for_value(h[i]);
    }
    lemma_digit_for_value(h[0]);
    lemma_digit_for_value(h[1]);
    lemma_digit_for_value(h[2]);
    lemma_digit_for_value(h[3]);
    lemma_digit_for_value(h[4]);
    lemma_digit_for_value(h[5]);
    lemma_digit_for_value(h[6]);
    lemma_digit_for_value(h[7]);
    assert(strip_hash(h) == h);
    assert(all_hex_digits(h));
}

/// Three hex digits are read as red, green and blue, each digit standing for
/// itself twice; the colour is opaque.
pub proof fn lemma_three_digits_read_doubled(h: Seq<char>)
    requires
        h.len() == 3,
        forall|i: int| 0 <= i < 3 ==> #[trigger] is_digit_char(h[i]),
    ensures
        spec_parse_rgba8(h) is Some,
        spec_parse_rgba8(h).unwrap().len() == 4,
        single_reads_as(h[0], spec_parse_rgba8(h).unwrap()[0] as int),
        single_reads_as(h[1], spec_parse_rgba8(h).unwrap()[1] as int),
        single_reads_as(h[2], spec_parse_rgba8(h).unwrap()[2] as int),
        spec_parse_rgba8(h).unwrap()[3] == 255,
{
    assert forall|i: int| 0 <= i < 3 implies is_hex_digit(h[i]) by {
        lemma_digit_for_value(h[i]);
    }
    lemma_digit_for_value(h[0]);
    lemma_digit_for_value(h[1]);
    lemma_digit_for_value(h[2]);
    assert(strip_hash(h) == h);
    assert(all_hex_digits(h));
}

/// A text without a leading `#` is refused when one of its characters is not
/// a hex digit, or when it has other than 3, 6 or 8 characters.
pub proof fn lemma_refuses_non_colours(h: Seq<char>)
    requires
        h.len() == 0 || h[0] != '#',
    ensures
        (exists|i: int| 0 <= i < h.len() && !is_digit_char(#[trigger] h[i])) ==> spec_parse_rgba8(h) is None,
        (h.len() != 3 && h.len() != 6 && h.len() != 8) ==> spec_parse_rgba8(h) is None,
{
    assert(strip_hash(h) == h);
    if exists|i: int| 0 <= i < h.len() && !is_digit_char(#[trigger] h[i]) {
        let i = choose|i: int| 0 <= i < h.len() && !is_digit_char(#[trigger] h[i]);
        assert(!is_hex_digit(h[i]));
        assert(!all_hex_digits(h));
    }
}

/// Only one leading `#` is taken off: a text that starts with two is refused.
pub proof fn lemma_one_hash_only(h: Seq<char>)
    ensures
        spec_parse_rgba8(seq!['#', '#'] + h) is None,
{
    let s = seq!['#', '#'] + h;
    assert(strip_hash(s)[0] == '#');
    assert(!is_hex_digit(strip_hash(s)[0]));
}

} // verus!
