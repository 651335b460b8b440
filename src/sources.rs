use vstd::prelude::*;

use crate::field::{FieldDescriptor, FieldKind, Scalar, Value};
use crate::numeric::{parse_spec, parse_value};
use crate::partial::{fits, kinds_of, PartialConfig};

verus! {

/// The uppercased form of a text, as the standard library computes it.
pub uninterp spec fn upper_of(s: Seq<char>) -> Seq<char>;

/// Relies on `str::to_uppercase`: the result depends on the characters alone.
#[verifier::external_body]
fn uppercase(s: &str) -> (r: String)
    ensures
        r@ == upper_of(s@),
{
    s.to_uppercase()
}

/// The name of the environment variable that feeds a field: its name uppercased.
pub fn env_var_name(field: &FieldDescriptor) -> (r: String)
    ensures
        r@ == upper_of(field.name@),
{
    uppercase(field.name.as_str())
}

/// The value each text stands for in its field; a missing or unreadable text gives none.
pub open spec fn texts_spec(kinds: Seq<FieldKind>, raw: Seq<Option<String>>) -> Seq<Option<Scalar>> {
    Seq::new(
        raw.len(),
        |i: int|
            match raw[i] {
                Some(s) => parse_spec(kinds[i], s@),
                None => None,
            },
    )
}

/// Whether field `i` was given a text that its kind cannot read.
pub open spec fn unreadable(kinds: Seq<FieldKind>, raw: Seq<Option<String>>, i: int) -> bool {
    raw[i] is Some && parse_spec(kinds[i], raw[i]->0@) is None
}

/// The first field given an unreadable text.
pub open spec fn first_unreadable(kinds: Seq<FieldKind>, raw: Seq<Option<String>>, i: int) -> bool {
    &&& 0 <= i < raw.len()
    &&& unreadable(kinds, raw, i)
    &&& forall|j: int| 0 <= j < i ==> !unreadable(kinds, raw, j)
}

/// The compiled-in defaults: what the argument parser gives with no arguments.
pub open spec fn defaults_spec(fields: Seq<FieldDescriptor>) -> Seq<Option<Scalar>> {
    texts_spec(kinds_of(fields), fields.map_values(|f: FieldDescriptor| f.default_arg))
}

/// A table whose every declared default can be read as its field's kind.
pub open spec fn table_wf(fields: Seq<FieldDescriptor>) -> bool {
    forall|i: int|
        0 <= i < fields.len() && (#[trigger] fields[i]).default_arg is Some ==> parse_spec(
            fields[i].kind,
            fields[i].default_arg->0@,
        ) is Some
}

proof fn lemma_parse_admitted(kind: FieldKind, s: Seq<char>)
    ensures
        parse_spec(kind, s) is Some ==> kind.admits(parse_spec(kind, s)->0),
{
}

pub(crate) proof fn lemma_texts_fit(kinds: Seq<FieldKind>, raw: Seq<Option<String>>)
    requires
        kinds.len() == raw.len(),
    ensures
        fits(kinds, texts_spec(kinds, raw)),
{
    assert forall|i: int|
        0 <= i < raw.len() && #[trigger] texts_spec(kinds, raw)[i] is Some implies kinds[i].admits(
        texts_spec(kinds, raw)[i]->0,
    ) by {
        lemma_parse_admitted(kinds[i], raw[i]->0@);
    }
}

/// Reads each field's text by its kind, and reports the first unreadable one.
pub(crate) fn read_texts(fields: &Vec<FieldDescriptor>, raw: &Vec<Option<String>>) -> (r: (
    PartialConfig,
    Option<usize>,
))
    requires
        raw@.len() == fields@.len(),
    ensures
        r.0@ == texts_spec(kinds_of(fields@), raw@),
        r.1 is Some ==> first_unreadable(kinds_of(fields@), raw@, r.1->0 as int),
        r.1 is None ==> forall|i: int| 0 <= i < raw@.len() ==> !unreadable(kinds_of(fields@), raw@, i),
{
    let ghost kinds = kinds_of(fields@);
    let n = raw.len();
    let mut values: Vec<Option<Value>> = Vec::new();
    let mut bad: Option<usize> = None;
    let mut i: usize = 0;
    while i < n
        invariant
            i <= n,
            n == raw@.len(),
            raw@.len() == fields@.len(),
            kinds == kinds_of(fields@),
            values@.len() == i,
            forall|j: int|
                0 <= j < i ==> crate::partial::opt_view(#[trigger] values@[j]) == texts_spec(
                    kinds,
                    raw@,
                )[j],
            bad is Some ==> bad->0 < i && first_unreadable(kinds, raw@, bad->0 as int),
            bad is None ==> forall|j: int| 0 <= j < i ==> !unreadable(kinds, raw@, j),
        decreases n - i,
    {
        let v = match &raw[i] {
            Some(s) => {
                let p = parse_value(fields[i].kind, s.as_str());
                if p.is_none() && bad.is_none() {
                    bad = Some(i);
                }
                p
            },
            None => None,
        };
        values.push(v);
        i = i + 1;
    }
    let p = PartialConfig { values };
    assert(p@ =~= texts_spec(kinds, raw@));
    (p, bad)
}

/// Whether every declared default can be read as its field's kind.
pub fn check_table(fields: &Vec<FieldDescriptor>) -> (r: bool)
    ensures
        r == table_wf(fields@),
{
    let mut i: usize = 0;
    while i < fields.len()
        invariant
            i <= fields@.len(),
            forall|j: int|
                0 <= j < i && (#[trigger] fields@[j]).default_arg is Some ==> parse_spec(
                    fields@[j].kind,
                    fields@[j].default_arg->0@,
                ) is Some,
        decreases fields@.len() - i,
    {
        match &fields[i].default_arg {
            Some(d) => {
                if parse_value(fields[i].kind, d.as_str()).is_none() {
                    return false;
                }
            },
            None => {},
        }
        i = i + 1;
    }
    true
}

/// The compiled-in defaults of a table: each declared default read as its field's kind.
pub fn defaults(fields: &Vec<FieldDescriptor>) -> (r: PartialConfig)
    requires
        table_wf(fields@),
    ensures
        r@ == defaults_spec(fields@),
        fits(kinds_of(fields@), r@),
{
    let mut raw: Vec<Option<String>> = Vec::new();
    let mut i: usize = 0;
    while i < fields.len()
        invariant
            i <= fields@.len(),
            raw@.len() == i,
            forall|j: int|
                0 <= j < i ==> (#[trigger] raw@[j] is Some) == fields@[j].default_arg is Some,
            forall|j: int|
                0 <= j < i && #[trigger] raw@[j] is Some ==> raw@[j]->0@ == fields@[j].default_arg->0@,
        decreases fields@.len() - i,
    {
        let d = match &fields[i].default_arg {
            Some(d) => Some(d.clone()),
            None => None,
        };
        raw.push(d);
        i = i + 1;
    }
    let ghost declared = fields@.map_values(|f: FieldDescriptor| f.default_arg);
    let (p, _) = read_texts(fields, &raw);
    assert(texts_spec(kinds_of(fields@), raw@) =~= texts_spec(kinds_of(fields@), declared));
    proof {
        lemma_texts_fit(kinds_of(fields@), raw@);
    }
    p
}

/// Values taken from the environment: the text of each field's variable, read
/// as its kind; a missing or unreadable variable leaves the field without a value.
pub fn from_env(fields: &Vec<FieldDescriptor>, raw: &Vec<Option<String>>) -> (r: PartialConfig)
    requires
        raw@.len() == fields@.len(),
    ensures
        r@ == texts_spec(kinds_of(fields@), raw@),
        fits(kinds_of(fields@), r@),
{
    let (p, _) = read_texts(fields, raw);
    proof {
        lemma_texts_fit(kinds_of(fields@), raw@);
    }
    p
}

} // verus!
