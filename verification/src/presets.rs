//! The built-in overlay colours, looked up by name.

use vstd::prelude::*;
use crate::ascii::{ascii_lowercase, lemma_lowercase_idempotent, lower_char, to_lower_char};
use crate::color::{
    debug_quoted, debug_str, message_from_quoted, parse_rgba8, spec_message_from_quoted,
    spec_parse_rgba8,
};

verus! {

/// A built-in overlay colour.
#[derive(Debug, Clone, Copy, PartialEq, Eq, Structural)]
pub enum Preset {
    /// Warm orange tint that cuts blue light. Lifts blacks a little.
    Night,
    /// Deeper red tint for late at night.
    Red,
    /// Plain dimming: black at 50%. The only overlay that doesn't lift blacks.
    Dim,
}

/// The names of the presets, in the order in which they are listed to users.
pub const NAMES: [&'static str; 3] = ["night", "red", "dim"];

impl Preset {
    /// The preset's name, lower case.
    pub open spec fn spec_name(self) -> Seq<char> {
        match self {
            Preset::Night => "night"@,
            Preset::Red => "red"@,
            Preset::Dim => "dim"@,
        }
    }

    /// The preset's name, lower case.
    pub fn name(self) -> (res: &'static str)
        ensures
            res@ == self.spec_name(),
    {
        match self {
            Preset::Night => "night",
            Preset::Red => "red",
            Preset::Dim => "dim",
        }
    }
}

/// The preset that a name denotes: the name's ASCII letters are read without
/// regard to case, and it must then equal a preset's name exactly.
pub open spec fn spec_by_name(name: Seq<char>) -> Option<Preset> {
    let lower = ascii_lowercase(name);
    if lower == Preset::Night.spec_name() {
        Some(Preset::Night)
    } else if lower == Preset::Red.spec_name() {
        Some(Preset::Red)
    } else if lower == Preset::Dim.spec_name() {
        Some(Preset::Dim)
    } else {
        None
    }
}

/// Whether `s` with its ASCII letters lower-cased equals `lower`.
fn lowercase_equals(s: &str, lower: &str) -> (res: bool)
    ensures
        res == (ascii_lowercase(s@) == lower@),
{
    let n = s.unicode_len();
    if n != lower.unicode_len() {
        assert(ascii_lowercase(s@).len() != lower@.len());
        return false;
    }
    let mut i: usize = 0;
    while i < n
        invariant
            i <= n,
            n == s@.len(),
            n == lower@.len(),
            forall|j: int| 0 <= j < i ==> lower_char(#[trigger] s@[j]) == lower@[j],
        decreases n - i,
    {
        if to_lower_char(s.get_char(i)) != lower.get_char(i) {
            assert(ascii_lowercase(s@)[i as int] != lower@[i as int]);
            return false;
        }
        i = i + 1;
    }
    assert(ascii_lowercase(s@) =~= lower@);
    true
}

/// Looks a preset up by name, ignoring the case of ASCII letters.
pub fn by_name(name: &str) -> (res: Option<Preset>)
    ensures
        res == spec_by_name(name@),
{
    if lowercase_equals(name, Preset::Night.name()) {
        Some(Preset::Night)
    } else if lowercase_equals(name, Preset::Red.name()) {
        Some(Preset::Red)
    } else if lowercase_equals(name, Preset::Dim.name()) {
        Some(Preset::Dim)
    } else {
        None
    }
}

/// A colour as a user names it: a preset, or hex channels.
#[derive(Debug, Clone, Copy, PartialEq, Eq)]
pub enum ColorChoice {
    Preset(Preset),
    Hex([u8; 4]),
}

/// Items joined by `", "`.
pub open spec fn join_items(items: Seq<Seq<char>>) -> Seq<char>
    decreases items.len(),
{
    if items.len() == 0 {
        Seq::empty()
    } else if items.len() == 1 {
        items[0]
    } else {
        join_items(items.drop_last()) + ", "@ + items.last()
    }
}

/// A list as `{:?}` writes it, from its items as already formatted:
/// `[a, b, c]`.
pub open spec fn spec_list_from_quoted(items: Seq<Seq<char>>) -> Seq<char> {
    "["@ + join_items(items) + "]"@
}

/// The characters of each string.
pub open spec fn views(items: Seq<String>) -> Seq<Seq<char>> {
    items.map_values(|s: String| s@)
}

/// Writes a list as `{:?}` does, from its items as already formatted.
pub fn list_from_quoted(items: &Vec<String>) -> (res: String)
    ensures
        res@ == spec_list_from_quoted(views(items@)),
{
    let ghost all = views(items@);
    let mut res = String::from_str("[");
    let mut i: usize = 0;
    assert(all.take(0) =~= Seq::<Seq<char>>::empty());
    assert(res@ =~= "["@ + join_items(all.take(0)));
    while i < items.len()
        invariant
            i <= items.len(),
            all == views(items@),
            all.len() == items@.len(),
            res@ == "["@ + join_items(all.take(i as int)),
        decreases items.len() - i,
    {
        let ghost before = res@;
        if i > 0 {
            res.append(", ");
        }
        res.append(items[i].as_str());
        proof {
            let next = all.take(i + 1);
            assert(next.drop_last() =~= all.take(i as int));
            assert(next.last() == items@[i as int]@);
            if i == 0 {
                assert(join_items(next) == items@[0]@);
                assert(res@ =~= "["@ + join_items(next));
            } else {
                assert(join_items(next) == join_items(all.take(i as int)) + ", "@ + items@[i as int]@);
                assert(res@ =~= "["@ + join_items(next));
            }
        }
        i = i + 1;
    }
    assert(all.take(items.len() as int) =~= all);
    res.append("]");
    res
}

/// The presets' names, each as `{:?}` writes a string.
pub open spec fn spec_quoted_names() -> Seq<Seq<char>> {
    NAMES@.map_values(|n: &str| debug_quoted(n@))
}

/// The command line's message for a colour it cannot read, from the text and
/// the presets' names as `{:?}` quoted them: the parse error, then the names.
pub open spec fn spec_command_line_error_from_quoted(
    quoted_text: Seq<char>,
    quoted_names: Seq<Seq<char>>,
) -> Seq<char> {
    spec_message_from_quoted(quoted_text) + ", or one of "@ + spec_list_from_quoted(quoted_names)
}

/// The command line's message for a colour text `s` that it cannot read.
pub open spec fn spec_command_line_error(s: Seq<char>) -> Seq<char> {
    spec_command_line_error_from_quoted(debug_quoted(s), spec_quoted_names())
}

/// Builds the command line's message for a colour it cannot read, from the
/// text and the presets' names as `{:?}` quoted them.
pub fn command_line_error_from_quoted(quoted_text: &str, quoted_names: &Vec<String>) -> (res: String)
    ensures
        res@ == spec_command_line_error_from_quoted(quoted_text@, views(quoted_names@)),
{
    let mut res = message_from_quoted(quoted_text);
    res.append(", or one of ");
    let list = list_from_quoted(quoted_names);
    res.append(list.as_str());
    res
}

/// The command line's message for a colour text that is neither a preset nor
/// a hex colour: the parse error, then the list of preset names.
pub fn command_line_error(s: &str) -> (res: String)
    ensures
        res@ == spec_command_line_error(s@),
{
    let quoted_text = debug_str(s);
    let mut quoted_names: Vec<String> = Vec::new();
    let mut i: usize = 0;
    while i < 3
        invariant
            i <= 3,
            quoted_names@.len() == i,
            forall|j: int| 0 <= j < i ==> #[trigger] quoted_names@[j]@ == debug_quoted(NAMES@[j]@),
        decreases 3 - i,
    {
        quoted_names.push(debug_str(NAMES[i]));
        i = i + 1;
    }
    assert(views(quoted_names@) =~= spec_quoted_names());
    command_line_error_from_quoted(quoted_text.as_str(), &quoted_names)
}

/// Reads a colour as the command line takes it: a preset's name when the text
/// is one (in any case), else a hex colour. Where it is neither, the error is
/// the parse error's message followed by the list of preset names.
pub fn parse_color(s: &str) -> (res: Result<ColorChoice, String>)
    ensures
        match spec_by_name(s@) {
            Some(p) => res == Ok::<ColorChoice, String>(ColorChoice::Preset(p)),
            None => match res {
                Ok(ColorChoice::Hex(c)) => spec_parse_rgba8(s@) == Some(c@),
                Ok(ColorChoice::Preset(_)) => false,
                Err(msg) => spec_parse_rgba8(s@) is None && msg@ == spec_command_line_error(s@),
            },
        },
{
    match by_name(s) {
        Some(p) => Ok(ColorChoice::Preset(p)),
        None => match parse_rgba8(s) {
            Ok(c) => Ok(ColorChoice::Hex(c)),
            Err(_) => Err(command_line_error(s)),
        },
    }
}

/// Each preset is found by its own name.
pub proof fn lemma_name_finds_preset(p: Preset)
    ensures
        spec_by_name(p.spec_name()) == Some(p),
{
    reveal_strlit("night");
    reveal_strlit("red");
    reveal_strlit("dim");
    assert(ascii_lowercase(p.spec_name()) =~= p.spec_name());
    assert("night"@.len() == 5 && "red"@.len() == 3 && "dim"@.len() == 3);
    assert("red"@[0] != "dim"@[0]);
}

/// The names listed in `NAMES` are exactly the presets' names, in order.
pub proof fn lemma_names_list_presets()
    ensures
        NAMES@.len() == 3,
        NAMES@[0]@ == Preset::Night.spec_name(),
        NAMES@[1]@ == Preset::Red.spec_name(),
        NAMES@[2]@ == Preset::Dim.spec_name(),
{
}

/// Looking a preset up ignores the case of the name's ASCII letters.
pub proof fn lemma_by_name_ignores_case(name: Seq<char>)
    ensures
        spec_by_name(ascii_lowercase(name)) == spec_by_name(name),
{
    lemma_lowercase_idempotent(name);
}

/// `a` is the all-lower-case `lower` written in any ASCII case: character by
/// character, either the same or the upper-case letter 32 code points below.
pub open spec fn equals_up_to_case(a: Seq<char>, lower: Seq<char>) -> bool {
    &&& a.len() == lower.len()
    &&& forall|i: int|
        0 <= i < a.len() ==> #[trigger] a[i] == lower[i] || (65 <= a[i] as int <= 90 && lower[i] as int
            == a[i] as int + 32)
}

/// The case mapping lowers exactly the upper-case ASCII letters, each to the
/// letter 32 code points above, and leaves every other character alone.
pub proof fn lemma_lower_char_lowers_letters(c: char)
    ensures
        65 <= c as int <= 90 ==> lower_char(c) as int == c as int + 32,
        !(65 <= c as int <= 90) ==> lower_char(c) == c,
{
}

/// For a name of lower-case letters, lower-casing a text gives the name exactly
/// when the text is the name in some ASCII case.
proof fn lemma_lowercase_equals_iff(s: Seq<char>, name: Seq<char>)
    requires
        forall|i: int| 0 <= i < name.len() ==> 97 <= #[trigger] name[i] as int <= 122,
    ensures
        (ascii_lowercase(s) == name) <==> equals_up_to_case(s, name),
{
    if ascii_lowercase(s) == name {
        assert forall|i: int| 0 <= i < s.len() implies #[trigger] s[i] == name[i] || (65 <= s[i] as int
            <= 90 && name[i] as int == s[i] as int + 32) by {
            assert(ascii_lowercase(s)[i] == lower_char(s[i]));
        }
    }
    if equals_up_to_case(s, name) {
        assert forall|i: int| 0 <= i < s.len() implies #[trigger] ascii_lowercase(s)[i] == name[i] by {
            assert(s[i] == name[i] || (65 <= s[i] as int <= 90 && name[i] as int == s[i] as int + 32));
        }
        assert(ascii_lowercase(s) =~= name);
    }
}

/// A text finds a preset exactly when it is that preset's name in some ASCII
/// case; every other text finds nothing.
pub proof fn lemma_by_name_finds_exactly_names(s: Seq<char>, p: Preset)
    ensures
        (spec_by_name(s) == Some(p)) <==> equals_up_to_case(s, p.spec_name()),
        (spec_by_name(s) is None) <==> (!equals_up_to_case(s, Preset::Night.spec_name())
            && !equals_up_to_case(s, Preset::Red.spec_name()) && !equals_up_to_case(
            s,
            Preset::Dim.spec_name(),
        )),
{
    reveal_strlit("night");
    reveal_strlit("red");
    reveal_strlit("dim");
    assert("night"@.len() == 5 && "red"@.len() == 3 && "dim"@.len() == 3);
    assert("red"@[0] != "dim"@[0]);
    lemma_lowercase_equals_iff(s, Preset::Night.spec_name());
    lemma_lowercase_equals_iff(s, Preset::Red.spec_name());
    lemma_lowercase_equals_iff(s, Preset::Dim.spec_name());
}

} // verus!
