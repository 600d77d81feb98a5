//! Schemas: what the derivation reads of a type's definition, and the
//! recognition of types by their names.

use vstd::prelude::*;
use vstd::string::*;
use crate::scalar::{FloatKind, IntKind, ScalarKind};

verus! {

/// The texts of a sequence of strings.
pub open spec fn texts(strings: Seq<String>) -> Seq<Seq<char>> {
    strings.map_values(|s: String| s@)
}

/// The path by which a type is written: the segments that lead to it, then
/// its own name. Its view is the sequence of all segments, the name last.
#[derive(Debug, PartialEq, Eq)]
pub struct TypePath {
    pub leading: Vec<String>,
    pub ident: String,
}

impl View for TypePath {
    type V = Seq<Seq<char>>;

    open spec fn view(&self) -> Seq<Seq<char>> {
        texts(self.leading@).push(self.ident@)
    }
}

/// A named field of a record, or of a variant with named fields.
#[derive(Debug, PartialEq, Eq)]
pub struct Field {
    pub ident: String,
    pub ty: TypePath,
}

/// The content of a [`Field`]: its name, and the path of its type.
pub struct FieldView {
    pub ident: Seq<char>,
    pub ty: Seq<Seq<char>>,
}

impl View for Field {
    type V = FieldView;

    open spec fn view(&self) -> FieldView {
        FieldView { ident: self.ident@, ty: self.ty@ }
    }
}

/// The contents of a sequence of fields.
pub open spec fn field_views(fields: Seq<Field>) -> Seq<FieldView> {
    fields.map_values(|f: Field| f@)
}

/// The payload of a variant.
#[derive(Debug, PartialEq, Eq)]
pub enum Fields {
    /// Fields with names.
    Named(Vec<Field>),
    /// Fields known by their position.
    Unnamed(Vec<TypePath>),
    /// No payload.
    Unit,
}

/// A variant of a tagged union.
#[derive(Debug, PartialEq, Eq)]
pub struct Variant {
    pub ident: String,
    pub fields: Fields,
}

/// The body of a record: its fields, in the order of their declaration.
#[derive(Debug, PartialEq, Eq)]
pub struct DataStruct {
    pub fields: Vec<Field>,
}

/// The body of a tagged union: its variants, in the order of their
/// declaration.
#[derive(Debug, PartialEq, Eq)]
pub struct DataEnum {
    pub variants: Vec<Variant>,
}

/// The body of a type definition.
#[derive(Debug, PartialEq, Eq)]
pub enum Data {
    Struct(DataStruct),
    Enum(DataEnum),
}

/// A type definition: the schema from which a form is derived.
#[derive(Debug, PartialEq, Eq)]
pub struct DeriveInput {
    pub ident: String,
    pub data: Data,
}

/// Whether two texts are the same.
pub fn same_text(a: &str, b: &str) -> (same: bool)
    ensures
        same == (a@ == b@),
{
    let left: String = a.to_owned();
    let right: String = b.to_owned();
    left == right
}

/// Copies of the given strings, in the same order.
pub fn clone_strings(strings: &Vec<String>) -> (copy: Vec<String>)
    ensures
        copy@ == strings@,
{
    let mut copy: Vec<String> = Vec::new();
    let n: usize = strings.len();
    let mut i: usize = 0;
    while i < n
        invariant
            i <= n,
            n == strings@.len(),
            copy@ == strings@.take(i as int),
        decreases n - i,
    {
        copy.push(strings[i].clone());
        assert(copy@ =~= strings@.take(i + 1));
        i = i + 1;
    }
    assert(strings@.take(n as int) =~= strings@);
    copy
}

impl TypePath {
    /// The path of a type written by its name alone.
    pub fn plain(ident: &str) -> (path: TypePath)
        ensures
            path@ == seq![ident@],
            path.leading@.len() == 0,
            path.ident@ == ident@,
    {
        let path = TypePath { leading: Vec::new(), ident: ident.to_owned() };
        assert(path@ =~= seq![ident@]);
        path
    }

    /// A copy of the path.
    pub fn duplicate(&self) -> (copy: TypePath)
        ensures
            copy@ == self@,
            copy.leading@ == self.leading@,
            copy.ident@ == self.ident@,
    {
        TypePath { leading: clone_strings(&self.leading), ident: self.ident.clone() }
    }

    /// A path with the same leading segments and `ident` in place of the
    /// type's own name: where an artifact derived from the type is found.
    pub fn sibling(&self, ident: String) -> (path: TypePath)
        ensures
            path@ == texts(self.leading@).push(ident@),
            path.leading@ == self.leading@,
            path.ident == ident,
    {
        TypePath { leading: clone_strings(&self.leading), ident }
    }

    /// Whether two paths are written alike, segment by segment.
    pub fn same(&self, other: &TypePath) -> (same: bool)
        ensures
            same == (self@ == other@),
    {
        let n: usize = self.leading.len();
        if n != other.leading.len() {
            assert(self@.len() != other@.len());
            return false;
        }
        let mut i: usize = 0;
        while i < n
            invariant
                i <= n,
                n == self.leading@.len(),
                n == other.leading@.len(),
                forall|j: int| 0 <= j < i ==> (#[trigger] self.leading@[j])@ == other.leading@[j]@,
            decreases n - i,
        {
            if !same_text(self.leading[i].as_str(), other.leading[i].as_str()) {
                assert(self@[i as int] == self.leading@[i as int]@);
                assert(other@[i as int] == other.leading@[i as int]@);
                return false;
            }
            i = i + 1;
        }
        let same = same_text(self.ident.as_str(), other.ident.as_str());
        proof {
            if same {
                assert(texts(self.leading@) =~= texts(other.leading@));
            } else {
                assert(self@[n as int] == self.ident@);
                assert(other@[n as int] == other.ident@);
            }
        }
        same
    }
}

/// The leading segments of a type's path and the type's own name, apart.
pub fn get_type_ident(ty: &TypePath) -> (parts: (Vec<String>, String))
    ensures
        parts.0@ == ty.leading@,
        parts.1@ == ty.ident@,
{
    (clone_strings(&ty.leading), ty.ident.clone())
}

/// Whether a type of this name is the boolean.
pub open spec fn spec_is_bool(ident: Seq<char>) -> bool {
    ident == "bool"@
}

/// The scalar kind that a type of this name is, if it is one: the integer
/// and floating-point widths and the string are known by their names.
pub open spec fn spec_scalar_kind(ident: Seq<char>) -> Option<ScalarKind> {
    if ident == "u8"@ {
        Some(ScalarKind::Integer(IntKind::U8))
    } else if ident == "u16"@ {
        Some(ScalarKind::Integer(IntKind::U16))
    } else if ident == "u32"@ {
        Some(ScalarKind::Integer(IntKind::U32))
    } else if ident == "u64"@ {
        Some(ScalarKind::Integer(IntKind::U64))
    } else if ident == "u128"@ {
        Some(ScalarKind::Integer(IntKind::U128))
    } else if ident == "usize"@ {
        Some(ScalarKind::Integer(IntKind::Usize))
    } else if ident == "i8"@ {
        Some(ScalarKind::Integer(IntKind::I8))
    } else if ident == "i16"@ {
        Some(ScalarKind::Integer(IntKind::I16))
    } else if ident == "i32"@ {
        Some(ScalarKind::Integer(IntKind::I32))
    } else if ident == "i64"@ {
        Some(ScalarKind::Integer(IntKind::I64))
    } else if ident == "i128"@ {
        Some(ScalarKind::Integer(IntKind::I128))
    } else if ident == "isize"@ {
        Some(ScalarKind::Integer(IntKind::Isize))
    } else if ident == "f32"@ {
        Some(ScalarKind::Float(FloatKind::Single))
    } else if ident == "f64"@ {
        Some(ScalarKind::Float(FloatKind::Double))
    } else if ident == "String"@ {
        Some(ScalarKind::Text)
    } else {
        None
    }
}

/// The scalar kind that a type of this name is, if it is one.
pub fn scalar_kind(ident: &str) -> (kind: Option<ScalarKind>)
    ensures
        kind == spec_scalar_kind(ident@),
{
    if same_text(ident, "u8") {
        Some(ScalarKind::Integer(IntKind::U8))
    } else if same_text(ident, "u16") {
        Some(ScalarKind::Integer(IntKind::U16))
    } else if same_text(ident, "u32") {
        Some(ScalarKind::Integer(IntKind::U32))
    } else if same_text(ident, "u64") {
        Some(ScalarKind::Integer(IntKind::U64))
    } else if same_text(ident, "u128") {
        Some(ScalarKind::Integer(IntKind::U128))
    } else if same_text(ident, "usize") {
        Some(ScalarKind::Integer(IntKind::Usize))
    } else if same_text(ident, "i8") {
        Some(ScalarKind::Integer(IntKind::I8))
    } else if same_text(ident, "i16") {
        Some(ScalarKind::Integer(IntKind::I16))
    } else if same_text(ident, "i32") {
        Some(ScalarKind::Integer(IntKind::I32))
    } else if same_text(ident, "i64") {
        Some(ScalarKind::Integer(IntKind::I64))
    } else if same_text(ident, "i128") {
        Some(ScalarKind::Integer(IntKind::I128))
    } else if same_text(ident, "isize") {
        Some(ScalarKind::Integer(IntKind::Isize))
    } else if same_text(ident, "f32") {
        Some(ScalarKind::Float(FloatKind::Single))
    } else if same_text(ident, "f64") {
        Some(ScalarKind::Float(FloatKind::Double))
    } else if same_text(ident, "String") {
        Some(ScalarKind::Text)
    } else {
        None
    }
}

/// The name of the type that is of the given scalar kind: the name by which
/// [`scalar_kind`] knows the kind.
pub fn scalar_name(kind: ScalarKind) -> (name: &'static str)
    ensures
        spec_scalar_kind(name@) == Some(kind),
{
    proof {
        reveal_strlit("u8");
        reveal_strlit("u16");
        reveal_strlit("u32");
        reveal_strlit("u64");
        reveal_strlit("u128");
        reveal_strlit("usize");
        reveal_strlit("i8");
        reveal_strlit("i16");
        reveal_strlit("i32");
        reveal_strlit("i64");
        reveal_strlit("i128");
        reveal_strlit("isize");
        reveal_strlit("f32");
        reveal_strlit("f64");
        reveal_strlit("String");
        assert("u8"@.len() == 2);
        assert("u8"@[0] == 'u');
        assert("u8"@[1] == '8');
        assert("u16"@.len() == 3);
        assert("u16"@[0] == 'u');
        assert("u16"@[1] == '1');
        assert("u32"@.len() == 3);
        assert("u32"@[0] == 'u');
        assert("u32"@[1] == '3');
        assert("u64"@.len() == 3);
        assert("u64"@[0] == 'u');
        assert("u64"@[1] == '6');
        assert("u128"@.len() == 4);
        assert("u128"@[0] == 'u');
        assert("u128"@[1] == '1');
        assert("usize"@.len() == 5);
        assert("usize"@[0] == 'u');
        assert("usize"@[1] == 's');
        assert("i8"@.len() == 2);
        assert("i8"@[0] == 'i');
        assert("i8"@[1] == '8');
        assert("i16"@.len() == 3);
        assert("i16"@[0] == 'i');
        assert("i16"@[1] == '1');
        assert("i32"@.len() == 3);
        assert("i32"@[0] == 'i');
        assert("i32"@[1] == '3');
        assert("i64"@.len() == 3);
        assert("i64"@[0] == 'i');
        assert("i64"@[1] == '6');
        assert("i128"@.len() == 4);
        assert("i128"@[0] == 'i');
        assert("i128"@[1] == '1');
        assert("isize"@.len() == 5);
        assert("isize"@[0] == 'i');
        assert("isize"@[1] == 's');
        assert("f32"@.len() == 3);
        assert("f32"@[0] == 'f');
        assert("f32"@[1] == '3');
        assert("f64"@.len() == 3);
        assert("f64"@[0] == 'f');
        assert("f64"@[1] == '6');
        assert("String"@.len() == 6);
        assert("String"@[0] == 'S');
        assert("String"@[1] == 't');
    }
    match kind {
        ScalarKind::Integer(IntKind::U8) => "u8",
        ScalarKind::Integer(IntKind::U16) => "u16",
        ScalarKind::Integer(IntKind::U32) => "u32",
        ScalarKind::Integer(IntKind::U64) => "u64",
        ScalarKind::Integer(IntKind::U128) => "u128",
        ScalarKind::Integer(IntKind::Usize) => "usize",
        ScalarKind::Integer(IntKind::I8) => "i8",
        ScalarKind::Integer(IntKind::I16) => "i16",
        ScalarKind::Integer(IntKind::I32) => "i32",
        ScalarKind::Integer(IntKind::I64) => "i64",
        ScalarKind::Integer(IntKind::I128) => "i128",
        ScalarKind::Integer(IntKind::Isize) => "isize",
        ScalarKind::Float(FloatKind::Single) => "f32",
        ScalarKind::Float(FloatKind::Double) => "f64",
        ScalarKind::Text => "String",
    }
}

/// Whether the type is the boolean. Only its own name counts, not the
/// segments that lead to it.
pub fn is_bool(ty: &TypePath) -> (yes: bool)
    ensures
        yes == spec_is_bool(ty.ident@),
{
    same_text(ty.ident.as_str(), "bool")
}

/// Whether the type is edited in a single text cell. Only its own name
/// counts, not the segments that lead to it.
pub fn is_form_field_type(ty: &TypePath) -> (yes: bool)
    ensures
        yes == spec_scalar_kind(ty.ident@).is_some(),
{
    scalar_kind(ty.ident.as_str()).is_some()
}

impl Fields {
    /// Whether the variant carries no payload.
    pub open spec fn spec_is_unit(&self) -> bool {
        self is Unit
    }

    /// Whether the variant carries no payload.
    #[verifier::when_used_as_spec(spec_is_unit)]
    pub fn is_unit(&self) -> (yes: bool)
        ensures
            yes == self.spec_is_unit(),
    {
        match self {
            Fields::Unit => true,
            _ => false,
        }
    }
}

} // verus!
