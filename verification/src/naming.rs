//! The names of the artifacts derived from a type, and the letter cases in
//! which a field's name appears in them.

use vstd::prelude::*;
use vstd::string::*;
use convert_case::Casing;

verus! {

/// The letter cases in which a name is written.
#[derive(Clone, Copy, Debug, PartialEq, Eq, Structural)]
pub enum Case {
    /// Words run together, each with a capital: the name of a message case.
    Pascal,
    /// Words apart, each with a capital: a label.
    Title,
}

/// The text that `convert_case` makes of `text` in the given case.
pub uninterp spec fn cased(text: Seq<char>, case: Case) -> Seq<char>;

/// `Casing::to_case` of `convert_case`, which splits the text into words and
/// joins them again in the given case. The result depends on the text and the
/// case alone; the contract gives it its name and claims nothing more.
#[verifier::external_body]
pub(crate) fn to_case(text: &str, case: Case) -> (converted: String)
    ensures
        converted@ == cased(text@, case),
{
    match case {
        Case::Pascal => text.to_case(convert_case::Case::Pascal),
        Case::Title => text.to_case(convert_case::Case::Title),
    }
}

/// `ident` followed by `suffix`.
pub fn suffixed(ident: &str, suffix: &str) -> (name: String)
    ensures
        name@ == ident@ + suffix@,
{
    ident.to_owned().concat(suffix)
}

/// The name of the message protocol of the form derived from `ident`.
pub open spec fn spec_form_message_name(ident: Seq<char>) -> Seq<char> {
    ident + "FormMessage"@
}

/// The name of the form derived from `ident`.
pub open spec fn spec_form_name(ident: Seq<char>) -> Seq<char> {
    ident + "Form"@
}

/// The name of the buffer in which a value of `ident` is put together.
pub open spec fn spec_builder_name(ident: Seq<char>) -> Seq<char> {
    ident + "Builder"@
}

/// The name of the selector over the variants of the union `ident`.
pub open spec fn spec_kind_name(ident: Seq<char>) -> Seq<char> {
    ident + "Kind"@
}

/// The name of the record that holds the payload of the variant `ident`.
pub open spec fn spec_variant_builder_name(ident: Seq<char>) -> Seq<char> {
    ident + "Var"@
}

/// The name of the form that holds the payload form of the variant in use.
pub open spec fn spec_form_enum_name(ident: Seq<char>) -> Seq<char> {
    spec_form_name(ident + "Enum"@)
}

/// The name of the message protocol of the form named by
/// [`spec_form_enum_name`].
pub open spec fn spec_form_enum_message(ident: Seq<char>) -> Seq<char> {
    spec_form_message_name(ident + "Enum"@)
}

/// The name of the message protocol of the form derived from `ident`.
pub fn form_message_name(ident: &str) -> (name: String)
    ensures
        name@ == spec_form_message_name(ident@),
{
    suffixed(ident, "FormMessage")
}

/// The name of the form derived from `ident`.
pub fn form_name(ident: &str) -> (name: String)
    ensures
        name@ == spec_form_name(ident@),
{
    suffixed(ident, "Form")
}

/// The name of the buffer in which a value of `ident` is put together.
pub fn builder_name(ident: &str) -> (name: String)
    ensures
        name@ == spec_builder_name(ident@),
{
    suffixed(ident, "Builder")
}

/// The name of the selector over the variants of the union `ident`: a union
/// of its own, with the same variants and no payloads.
pub fn kind_name(ident: &str) -> (name: String)
    ensures
        name@ == spec_kind_name(ident@),
{
    suffixed(ident, "Kind")
}

/// The name of the record that holds the payload of the variant `ident`.
pub fn variant_builder_name(ident: &str) -> (name: String)
    ensures
        name@ == spec_variant_builder_name(ident@),
{
    suffixed(ident, "Var")
}

/// The name of the form of the union `ident`: the selector together with the
/// payload form of the variant in use.
pub fn form_wrapper_name(ident: &str) -> (name: String)
    ensures
        name@ == spec_form_name(ident@),
{
    form_name(ident)
}

/// The name of the form that holds the payload form of the variant in use.
pub fn form_enum_name(ident: &str) -> (name: String)
    ensures
        name@ == spec_form_enum_name(ident@),
{
    let inner = suffixed(ident, "Enum");
    form_name(inner.as_str())
}

/// The name of the message protocol of the form named by [`form_enum_name`].
pub fn form_enum_message(ident: &str) -> (name: String)
    ensures
        name@ == spec_form_enum_message(ident@),
{
    let inner = suffixed(ident, "Enum");
    form_message_name(inner.as_str())
}

/// The name of the message protocol of the form of the union `ident`.
pub fn form_wrapper_message(ident: &str) -> (name: String)
    ensures
        name@ == spec_form_message_name(ident@),
{
    form_message_name(ident)
}

/// The decimal digit that stands for `d`.
pub open spec fn digit_char(d: int) -> char
    recommends
        0 <= d < 10,
{
    if d == 0 {
        '0'
    } else if d == 1 {
        '1'
    } else if d == 2 {
        '2'
    } else if d == 3 {
        '3'
    } else if d == 4 {
        '4'
    } else if d == 5 {
        '5'
    } else if d == 6 {
        '6'
    } else if d == 7 {
        '7'
    } else if d == 8 {
        '8'
    } else {
        '9'
    }
}

/// `n` written in decimal digits, without leading zeros.
pub open spec fn spec_decimal_text(n: nat) -> Seq<char>
    decreases n,
{
    if n < 10 {
        seq![digit_char(n as int)]
    } else {
        spec_decimal_text(n / 10).push(digit_char((n % 10) as int))
    }
}

/// The name given to the payload field at position `index` of a variant whose
/// fields have no names.
pub open spec fn spec_positional_name(index: nat) -> Seq<char> {
    "field_"@ + spec_decimal_text(index)
}

fn digit_text(d: usize) -> (text: &'static str)
    requires
        d < 10,
    ensures
        text@ == seq![digit_char(d as int)],
{
    proof {
        reveal_strlit("0");
        reveal_strlit("1");
        reveal_strlit("2");
        reveal_strlit("3");
        reveal_strlit("4");
        reveal_strlit("5");
        reveal_strlit("6");
        reveal_strlit("7");
        reveal_strlit("8");
        reveal_strlit("9");
    }
    let text = if d == 0 {
        "0"
    } else if d == 1 {
        "1"
    } else if d == 2 {
        "2"
    } else if d == 3 {
        "3"
    } else if d == 4 {
        "4"
    } else if d == 5 {
        "5"
    } else if d == 6 {
        "6"
    } else if d == 7 {
        "7"
    } else if d == 8 {
        "8"
    } else {
        "9"
    };
    assert(text@ =~= seq![digit_char(d as int)]);
    text
}

/// `n` written in decimal digits, without leading zeros.
pub fn decimal_text(n: usize) -> (text: String)
    ensures
        text@ == spec_decimal_text(n as nat),
    decreases n,
{
    if n < 10 {
        digit_text(n).to_owned()
    } else {
        let text = decimal_text(n / 10).concat(digit_text(n % 10));
        assert(text@ =~= spec_decimal_text(n as nat));
        text
    }
}

/// The name given to the payload field at position `index` of a variant whose
/// fields have no names.
pub fn positional_name(index: usize) -> (name: String)
    ensures
        name@ == spec_positional_name(index as nat),
{
    let digits = decimal_text(index);
    suffixed("field_", digits.as_str())
}

} // verus!
