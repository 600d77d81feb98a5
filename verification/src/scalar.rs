//! Scalar kinds: the types a single text cell can edit, and the law by which
//! their text is read.

use vstd::prelude::*;
use vstd::string::*;
use vstd::utf8::is_ascii_chars;
use crate::form_field::{FormField, Message};

verus! {

/// The integer widths a text cell can edit.
#[derive(Clone, Copy, Debug, PartialEq, Eq, Structural)]
pub enum IntKind {
    U8,
    U16,
    U32,
    U64,
    U128,
    Usize,
    I8,
    I16,
    I32,
    I64,
    I128,
    Isize,
}

/// The floating-point widths a text cell can edit.
#[derive(Clone, Copy, Debug, PartialEq, Eq, Structural)]
pub enum FloatKind {
    Single,
    Double,
}

/// What a text cell edits: a number of some width, or text.
#[derive(Clone, Copy, Debug, PartialEq, Eq, Structural)]
pub enum ScalarKind {
    Integer(IntKind),
    Float(FloatKind),
    Text,
}

/// A parsed scalar. A floating-point number is held as its IEEE 754 bit
/// pattern, in the width of its kind.
#[derive(Debug, PartialEq, Eq)]
pub enum ScalarValue {
    Unsigned(u128),
    Signed(i128),
    Float(u64),
    Text(String),
}

/// The mathematical content of a [`ScalarValue`].
pub enum ScalarView {
    Unsigned(u128),
    Signed(i128),
    Float(u64),
    Text(Seq<char>),
}

impl View for ScalarValue {
    type V = ScalarView;

    open spec fn view(&self) -> ScalarView {
        match self {
            ScalarValue::Unsigned(v) => ScalarView::Unsigned(*v),
            ScalarValue::Signed(v) => ScalarView::Signed(*v),
            ScalarValue::Float(bits) => ScalarView::Float(*bits),
            ScalarValue::Text(text) => ScalarView::Text(text@),
        }
    }
}

impl ScalarValue {
    /// A copy with the same content.
    pub fn duplicate(&self) -> (copy: ScalarValue)
        ensures
            copy@ == self@,
    {
        match self {
            ScalarValue::Unsigned(v) => ScalarValue::Unsigned(*v),
            ScalarValue::Signed(v) => ScalarValue::Signed(*v),
            ScalarValue::Float(bits) => ScalarValue::Float(*bits),
            ScalarValue::Text(text) => ScalarValue::Text(text.clone()),
        }
    }
}

impl Clone for ScalarValue {
    fn clone(&self) -> (copy: ScalarValue)
        ensures
            copy@ == self@,
    {
        self.duplicate()
    }
}

/// Whether `c` is one of the ten decimal digits.
pub open spec fn is_digit(c: char) -> bool {
    '0' <= c <= '9'
}

/// The number a run of decimal digits denotes, most significant digit first.
pub open spec fn decimal(digits: Seq<char>) -> nat
    decreases digits.len(),
{
    if digits.len() == 0 {
        0
    } else {
        (decimal(digits.drop_last()) * 10 + (digits.last() as int - '0' as int)) as nat
    }
}

/// Whether every character of `s` is a decimal digit.
pub open spec fn all_digits(s: Seq<char>) -> bool {
    forall|i: int| 0 <= i < s.len() ==> is_digit(#[trigger] s[i])
}

/// How many characters of `s` the sign takes: a leading `+` always, a leading
/// `-` where the kind is signed.
pub open spec fn sign_len(s: Seq<char>, signed: bool) -> int {
    if s.len() > 0 && (s[0] == '+' || (signed && s[0] == '-')) {
        1
    } else {
        0
    }
}

/// The integer that `s` denotes: an optional sign, then one or more decimal
/// digits and nothing else.
pub open spec fn spec_parse_decimal(s: Seq<char>, signed: bool) -> Option<int> {
    let digits = s.skip(sign_len(s, signed));
    if digits.len() == 0 || !all_digits(digits) {
        None
    } else if sign_len(s, signed) == 1 && s[0] == '-' {
        Some(-(decimal(digits) as int))
    } else {
        Some(decimal(digits) as int)
    }
}

impl IntKind {
    /// Whether the kind has negative values.
    pub open spec fn spec_is_signed(self) -> bool {
        match self {
            IntKind::I8 | IntKind::I16 | IntKind::I32 | IntKind::I64 | IntKind::I128 | IntKind::Isize => true,
            _ => false,
        }
    }

    /// The largest value of the kind.
    pub open spec fn spec_max(self) -> int {
        match self {
            IntKind::U8 => u8::MAX as int,
            IntKind::U16 => u16::MAX as int,
            IntKind::U32 => u32::MAX as int,
            IntKind::U64 => u64::MAX as int,
            IntKind::U128 => u128::MAX as int,
            IntKind::Usize => usize::MAX as int,
            IntKind::I8 => i8::MAX as int,
            IntKind::I16 => i16::MAX as int,
            IntKind::I32 => i32::MAX as int,
            IntKind::I64 => i64::MAX as int,
            IntKind::I128 => i128::MAX as int,
            IntKind::Isize => isize::MAX as int,
        }
    }

    /// The smallest value of the kind.
    pub open spec fn spec_min(self) -> int {
        if self.spec_is_signed() {
            -self.spec_max() - 1
        } else {
            0
        }
    }

    /// How a number of this kind is held.
    pub open spec fn value_of(self, v: int) -> ScalarView {
        if self.spec_is_signed() {
            ScalarView::Signed(v as i128)
        } else {
            ScalarView::Unsigned(v as u128)
        }
    }

    /// What `text` reads as in this kind, if anything: the integer it
    /// denotes, where that lies in the kind's range.
    pub open spec fn spec_parse(self, text: Seq<char>) -> Option<ScalarView> {
        match spec_parse_decimal(text, self.spec_is_signed()) {
            Some(v) => if self.spec_min() <= v <= self.spec_max() {
                Some(self.value_of(v))
            } else {
                None
            },
            None => None,
        }
    }

    /// Whether the kind has negative values.
    #[verifier::when_used_as_spec(spec_is_signed)]
    pub fn is_signed(self) -> (signed: bool)
        ensures
            signed == self.spec_is_signed(),
    {
        match self {
            IntKind::I8 | IntKind::I16 | IntKind::I32 | IntKind::I64 | IntKind::I128 | IntKind::Isize => true,
            _ => false,
        }
    }

    /// The largest value of the kind.
    pub fn max(self) -> (max: u128)
        ensures
            max == self.spec_max(),
    {
        match self {
            IntKind::U8 => 0xff,
            IntKind::U16 => 0xffff,
            IntKind::U32 => 0xffff_ffff,
            IntKind::U64 => 0xffff_ffff_ffff_ffff,
            IntKind::U128 => u128::MAX,
            IntKind::Usize => usize::MAX as u128,
            IntKind::I8 => 0x7f,
            IntKind::I16 => 0x7fff,
            IntKind::I32 => 0x7fff_ffff,
            IntKind::I64 => 0x7fff_ffff_ffff_ffff,
            IntKind::I128 => 0x7fff_ffff_ffff_ffff_ffff_ffff_ffff_ffff,
            IntKind::Isize => isize::MAX as u128,
        }
    }

    /// Whether `value` is a number of this kind: held as the kind holds its
    /// numbers, and within the kind's range.
    pub open spec fn spec_admits(self, value: ScalarView) -> bool {
        if self.spec_is_signed() {
            value matches ScalarView::Signed(v) && self.spec_min() <= v <= self.spec_max()
        } else {
            value matches ScalarView::Unsigned(v) && v <= self.spec_max()
        }
    }

    /// Whether `value` is a number of this kind.
    pub fn admits(self, value: &ScalarValue) -> (yes: bool)
        ensures
            yes == self.spec_admits(value@),
    {
        match value {
            ScalarValue::Signed(v) => self.is_signed() && *v <= self.max() as i128 && *v >= -(self.max() as i128)
                - 1,
            ScalarValue::Unsigned(v) => !self.is_signed() && *v <= self.max(),
            _ => false,
        }
    }

    /// Reads `text` as a number of this kind.
    #[verifier::loop_isolation(false)]
    pub fn parse(self, text: &str) -> (parsed: Option<ScalarValue>)
        ensures
            match self.spec_parse(text@) {
                Some(v) => parsed matches Some(p) && p@ == v,
                None => parsed is None,
            },
    {
        let signed = self.is_signed();
        if !text.is_ascii() {
            proof {
                lemma_not_ascii_not_decimal(text@, signed);
            }
            return None;
        }
        let n: usize = text.unicode_len();
        if n == 0 {
            return None;
        }
        let first: u8 = text.get_ascii(0);
        let negative: bool = signed && first == 45;
        let start: usize = if first == 43 || negative {
            1
        } else {
            0
        };
        assert(start == sign_len(text@, signed));
        if start == n {
            return None;
        }
        let ghost digits = text@.skip(start as int);
        let limit: u128 = if negative {
            self.max() + 1
        } else {
            self.max()
        };
        let mut acc: u128 = 0;
        let mut i: usize = start;
        while i < n
            invariant
                start <= i <= n,
                n == text@.len(),
                text.is_ascii(),
                digits == text@.skip(start as int),
                all_digits(digits.take(i - start)),
                acc == decimal(digits.take(i - start)),
                acc <= limit,
                limit >= 127,
                start == sign_len(text@, signed),
            decreases n - i,
        {
            let b: u8 = text.get_ascii(i);
            let ghost k = i - start;
            assert(digits[k] == text@[i as int]);
            if b < 48 || b > 57 {
                assert(!is_digit(digits[k]));
                return None;
            }
            let d: u128 = (b - 48) as u128;
            proof {
                assert(digits.take(k + 1).drop_last() == digits.take(k));
                assert(digits.take(k + 1).last() == digits[k]);
                assert(decimal(digits.take(k + 1)) == acc * 10 + d);
                assert forall|j: int| 0 <= j < k + 1 implies is_digit(#[trigger] digits.take(k + 1)[j]) by {
                    if j < k {
                        assert(digits.take(k)[j] == digits.take(k + 1)[j]);
                    }
                }
            }
            if acc > (limit - d) / 10 {
                proof {
                    lemma_decimal_prefix(digits, k + 1);
                    assert(all_digits(digits) ==> decimal(digits) > limit);
                }
                return None;
            }
            acc = acc * 10 + d;
            i = i + 1;
        }
        proof {
            assert(digits.take(n - start) == digits);
        }
        if signed {
            if negative {
                if acc == limit {
                    let lowest: i128 = -(self.max() as i128) - 1;
                    Some(ScalarValue::Signed(lowest))
                } else {
                    Some(ScalarValue::Signed(-(acc as i128)))
                }
            } else {
                Some(ScalarValue::Signed(acc as i128))
            }
        } else {
            Some(ScalarValue::Unsigned(acc))
        }
    }
}

/// A prefix of a run of digits denotes no more than the whole run.
pub proof fn lemma_decimal_prefix(digits: Seq<char>, k: int)
    requires
        0 <= k <= digits.len(),
        all_digits(digits.take(k)),
    ensures
        all_digits(digits) ==> decimal(digits.take(k)) <= decimal(digits),
    decreases digits.len(),
{
    if k == digits.len() {
        assert(digits.take(k) == digits);
    } else if all_digits(digits) {
        let shorter = digits.drop_last();
        assert(shorter.take(k) == digits.take(k));
        assert forall|j: int| 0 <= j < shorter.len() implies is_digit(#[trigger] shorter[j]) by {
            assert(shorter[j] == digits[j]);
        }
        lemma_decimal_prefix(shorter, k);
        assert(is_digit(digits.last()));
    }
}

/// Text that holds a character outside ASCII denotes no integer.
pub proof fn lemma_not_ascii_not_decimal(s: Seq<char>, signed: bool)
    requires
        !is_ascii_chars(s),
    ensures
        spec_parse_decimal(s, signed) is None,
{
    let i = choose|i: int| 0 <= i < s.len() && !('\0' <= #[trigger] s[i] <= '\u{7f}');
    let skipped = sign_len(s, signed);
    let digits = s.skip(skipped);
    if i >= skipped {
        assert(digits[i - skipped] == s[i]);
        assert(!is_digit(digits[i - skipped]));
    }
}

impl ScalarKind {
    /// The name of the kind as a complaint gives it.
    pub open spec fn spec_label(self) -> Seq<char> {
        match self {
            ScalarKind::Integer(_) => "Integer"@,
            ScalarKind::Float(_) => "Float"@,
            ScalarKind::Text => "Text"@,
        }
    }

    /// What `text` reads as in this kind, if anything. Text reads as itself.
    /// A floating-point kind takes `float`: what the host's floating-point
    /// parser made of `text`.
    pub open spec fn spec_parse(self, text: Seq<char>, float: Option<u64>) -> Option<ScalarView> {
        match self {
            ScalarKind::Integer(kind) => kind.spec_parse(text),
            ScalarKind::Float(_) => match float {
                Some(bits) => Some(ScalarView::Float(bits)),
                None => None,
            },
            ScalarKind::Text => Some(ScalarView::Text(text)),
        }
    }

    /// Whether `value` is a value of this kind.
    pub open spec fn spec_admits(self, value: ScalarView) -> bool {
        match self {
            ScalarKind::Integer(kind) => kind.spec_admits(value),
            ScalarKind::Float(_) => value is Float,
            ScalarKind::Text => value is Text,
        }
    }

    /// The complaint about text that does not read as this kind.
    pub open spec fn spec_complaint(self) -> Seq<char> {
        "expected "@ + self.spec_label()
    }

    /// The name of the kind as a complaint gives it.
    pub fn label(self) -> (label: &'static str)
        ensures
            label@ == self.spec_label(),
    {
        match self {
            ScalarKind::Integer(_) => "Integer",
            ScalarKind::Float(_) => "Float",
            ScalarKind::Text => "Text",
        }
    }

    /// Whether `value` is a value of this kind.
    pub fn admits(self, value: &ScalarValue) -> (yes: bool)
        ensures
            yes == self.spec_admits(value@),
    {
        match self {
            ScalarKind::Integer(kind) => kind.admits(value),
            ScalarKind::Float(_) => match value {
                ScalarValue::Float(_) => true,
                _ => false,
            },
            ScalarKind::Text => match value {
                ScalarValue::Text(_) => true,
                _ => false,
            },
        }
    }

    /// Reads `text` as a value of this kind. `float` is what the host's
    /// floating-point parser made of `text`, as a bit pattern; it is consulted
    /// for the floating-point kinds only.
    pub fn parse(self, text: &str, float: Option<u64>) -> (parsed: Option<ScalarValue>)
        ensures
            match self.spec_parse(text@, float) {
                Some(v) => parsed matches Some(p) && p@ == v,
                None => parsed is None,
            },
    {
        match self {
            ScalarKind::Integer(kind) => kind.parse(text),
            ScalarKind::Float(_) => match float {
                Some(bits) => Some(ScalarValue::Float(bits)),
                None => None,
            },
            ScalarKind::Text => Some(ScalarValue::Text(text.to_owned())),
        }
    }

    /// Whether `message` is the edit that typing `input` into a cell of this
    /// kind reports: the parsed value with its text, or the text with a
    /// complaint.
    pub open spec fn reports(self, input: String, float: Option<u64>, message: Message<ScalarValue>) -> bool {
        match self.spec_parse(input@, float) {
            Some(v) => message matches Message::Value((value, text)) && value@ == v && text == input,
            None => message matches Message::Input { input: text, invalid_reason } && text == input
                && invalid_reason@ == self.spec_complaint(),
        }
    }

    /// The edit that typing `input` into a cell of this kind reports: the
    /// parsed value with its text, or the text with a complaint.
    pub fn on_input(self, input: String, float: Option<u64>) -> (message: Message<ScalarValue>)
        ensures
            self.reports(input, float, message),
    {
        match self.parse(input.as_str(), float) {
            Some(value) => Message::Value((value, input)),
            None => {
                let invalid_reason: String = "expected ".to_owned().concat(self.label());
                Message::Input { input, invalid_reason }
            },
        }
    }
}

/// What reads as a kind is a value of the kind.
pub proof fn lemma_parsed_is_admitted(kind: ScalarKind, text: Seq<char>, float: Option<u64>)
    ensures
        kind.spec_parse(text, float) matches Some(value) ==> kind.spec_admits(value),
{
}

impl FormField<ScalarValue> {
    /// Types `input` into a cell of the given kind. Whatever the outcome, the
    /// cell shows `input`. Where `input` reads as the kind, the cell holds the
    /// value read and no complaint; where it does not, the cell complains and
    /// keeps the value it had.
    pub fn input(&mut self, kind: ScalarKind, input: String, float: Option<u64>)
        ensures
            final(self).key == old(self).key,
            final(self).value_str == input,
            match kind.spec_parse(input@, float) {
                Some(v) => {
                    &&& final(self).value matches Some(value)
                    &&& value@ == v
                    &&& final(self).invalid_reason is None
                },
                None => {
                    &&& final(self).value == old(self).value
                    &&& final(self).invalid_reason matches Some(reason)
                    &&& reason@ == kind.spec_complaint()
                },
            },
    {
        let message = kind.on_input(input, float);
        self.update(message);
    }
}

} // verus!
