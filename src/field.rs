use vstd::prelude::*;

verus! {

/// The declared type of a configuration field.
#[derive(Clone, Copy, Debug, PartialEq, Eq, Structural)]
pub enum FieldKind {
    Text,
    U8,
    U16,
    U32,
    U64,
}

/// The mathematical value of a field: text as characters, or a number.
pub enum Scalar {
    Text(Seq<char>),
    Unsigned(nat),
}

/// A raw value of a field.
#[derive(Clone, Debug)]
pub enum Value {
    Text(String),
    Unsigned(u64),
}

impl View for Value {
    type V = Scalar;

    open spec fn view(&self) -> Scalar {
        match self {
            Value::Text(s) => Scalar::Text(s@),
            Value::Unsigned(n) => Scalar::Unsigned(*n as nat),
        }
    }
}

impl FieldKind {
    /// The largest number a field of this kind holds.
    pub open spec fn max(self) -> nat {
        match self {
            FieldKind::Text => 0,
            FieldKind::U8 => 0xff,
            FieldKind::U16 => 0xffff,
            FieldKind::U32 => 0xffff_ffff,
            FieldKind::U64 => 0xffff_ffff_ffff_ffff,
        }
    }

    pub fn max_value(&self) -> (r: u64)
        ensures
            r as nat == self.max(),
    {
        match self {
            FieldKind::Text => 0,
            FieldKind::U8 => 0xff,
            FieldKind::U16 => 0xffff,
            FieldKind::U32 => 0xffff_ffff,
            FieldKind::U64 => 0xffff_ffff_ffff_ffff,
        }
    }

    /// Whether a value is of this kind.
    pub open spec fn admits(self, v: Scalar) -> bool {
        match v {
            Scalar::Text(_) => self == FieldKind::Text,
            Scalar::Unsigned(n) => self != FieldKind::Text && n <= self.max(),
        }
    }

    /// The type-level default: empty text or zero.
    pub open spec fn type_default(self) -> Scalar {
        if self == FieldKind::Text {
            Scalar::Text(Seq::empty())
        } else {
            Scalar::Unsigned(0)
        }
    }

    pub fn default_value(&self) -> (r: Value)
        ensures
            r@ == self.type_default(),
    {
        match self {
            FieldKind::Text => Value::Text(String::new()),
            _ => Value::Unsigned(0),
        }
    }
}

/// The static description of one configuration field.
#[derive(Clone, Debug)]
pub struct FieldDescriptor {
    /// The field's unique name, as written in the configuration struct.
    pub name: String,
    /// The field's declared type.
    pub kind: FieldKind,
    /// The text that the command line falls back on when the flag is not given.
    pub default_arg: Option<String>,
    /// Whether the field is optional in the final configuration, and so is
    /// left without a value rather than given its type-level default.
    pub optional: bool,
}

/// What the final configuration holds for a field that no source gave a value.
pub open spec fn field_default(f: FieldDescriptor) -> Option<Scalar> {
    if f.optional {
        None
    } else {
        Some(f.kind.type_default())
    }
}

impl FieldDescriptor {
    pub fn new(name: &str, kind: FieldKind, default_arg: Option<&str>) -> (r: FieldDescriptor)
        ensures
            r.name@ == name@,
            r.kind == kind,
            r.default_arg is Some <==> default_arg is Some,
            default_arg is Some ==> r.default_arg->0@ == default_arg->0@,
            !r.optional,
    {
        let default_arg = match default_arg {
            Some(d) => Some(d.to_string()),
            None => None,
        };
        FieldDescriptor { name: name.to_string(), kind, default_arg, optional: false }
    }

    /// A field that stays without a value when no source gives it one.
    pub fn new_optional(name: &str, kind: FieldKind, default_arg: Option<&str>) -> (r:
        FieldDescriptor)
        ensures
            r.name@ == name@,
            r.kind == kind,
            r.default_arg is Some <==> default_arg is Some,
            default_arg is Some ==> r.default_arg->0@ == default_arg->0@,
            r.optional,
    {
        let f = FieldDescriptor::new(name, kind, default_arg);
        FieldDescriptor { optional: true, ..f }
    }
}

} // verus!
