use vstd::prelude::*;

use crate::error::LoadError;
use crate::field::{FieldDescriptor, FieldKind, Scalar, Value};
use crate::partial::{fits, kinds_of, opt_view, PartialConfig};

verus! {

/// A value of the decoded configuration file.
#[derive(Clone, Debug)]
pub enum FileValue {
    Null,
    Text(String),
    Unsigned(u64),
    /// Anything else: a negative or fractional number, a boolean, a list, a map.
    Other,
}

/// One key of the decoded configuration file with its value.
#[derive(Clone, Debug)]
pub struct FileEntry {
    pub key: String,
    pub value: FileValue,
}

/// What the configuration file provides.
#[derive(Clone, Debug)]
pub enum FileContents {
    /// No path was given, or no file stands there.
    Absent,
    /// The file exists but is not a structured key-value document.
    Malformed,
    /// The file's top-level keys, in order.
    Document(Vec<FileEntry>),
}

/// The key under which the file holds a field: its name in kebab case.
pub open spec fn kebab(name: Seq<char>) -> Seq<char> {
    name.map_values(|c: char| if c == '_' { '-' } else { c })
}

/// The value of the first entry with the given key.
pub open spec fn find_key(entries: Seq<FileEntry>, key: Seq<char>) -> Option<FileValue>
    decreases entries.len(),
{
    if entries.len() == 0 {
        None
    } else if entries[0].key@ == key {
        Some(entries[0].value)
    } else {
        find_key(entries.drop_first(), key)
    }
}

/// What a file value gives a field of the given kind; `Err` where it does not fit.
pub open spec fn file_value_spec(kind: FieldKind, v: FileValue) -> Result<Option<Scalar>, ()> {
    match v {
        FileValue::Null => Ok(None),
        FileValue::Text(s) => if kind == FieldKind::Text {
            Ok(Some(Scalar::Text(s@)))
        } else {
            Err(())
        },
        FileValue::Unsigned(n) => if kind != FieldKind::Text && n as nat <= kind.max() {
            Ok(Some(Scalar::Unsigned(n as nat)))
        } else {
            Err(())
        },
        FileValue::Other => Err(()),
    }
}

/// What the file gives one field: nothing where its key is missing.
pub open spec fn file_field_spec(field: FieldDescriptor, entries: Seq<FileEntry>) -> Result<
    Option<Scalar>,
    (),
> {
    match find_key(entries, kebab(field.name@)) {
        Some(v) => file_value_spec(field.kind, v),
        None => Ok(None),
    }
}

/// Whether the file can be decoded into the fields.
pub open spec fn file_ok(fields: Seq<FieldDescriptor>, contents: FileContents) -> bool {
    match contents {
        FileContents::Absent => true,
        FileContents::Malformed => false,
        FileContents::Document(es) => forall|i: int|
            0 <= i < fields.len() ==> (#[trigger] file_field_spec(fields[i], es@)) is Ok,
    }
}

/// The values the file gives, where it can be decoded.
pub open spec fn file_spec(fields: Seq<FieldDescriptor>, contents: FileContents) -> Seq<
    Option<Scalar>,
> {
    Seq::new(
        fields.len(),
        |i: int|
            match contents {
                FileContents::Document(es) => file_field_spec(fields[i], es@)->Ok_0,
                _ => None,
            },
    )
}

/// Whether a file key names a field.
fn key_matches(key: &str, name: &str) -> (r: bool)
    ensures
        r == (key@ == kebab(name@)),
{
    let n = name.unicode_len();
    if key.unicode_len() != n {
        return false;
    }
    let mut i: usize = 0;
    while i < n
        invariant
            i <= n,
            n == name@.len(),
            key@.len() == n,
            forall|j: int| 0 <= j < i ==> key@[j] == #[trigger] kebab(name@)[j],
        decreases n - i,
    {
        let c = name.get_char(i);
        let k = if c == '_' { '-' } else { c };
        if key.get_char(i) != k {
            return false;
        }
        i = i + 1;
    }
    assert(key@ =~= kebab(name@));
    true
}

/// The value of the first entry with a field's key.
fn lookup<'a>(entries: &'a Vec<FileEntry>, name: &str) -> (r: Option<&'a FileValue>)
    ensures
        r is Some <==> find_key(entries@, kebab(name@)) is Some,
        r is Some ==> *r->0 == find_key(entries@, kebab(name@))->0,
{
    let mut i: usize = 0;
    assert(entries@.subrange(0, entries@.len() as int) =~= entries@);
    while i < entries.len()
        invariant
            i <= entries@.len(),
            find_key(entries@, kebab(name@)) == find_key(entries@.subrange(i as int, entries@.len() as int), kebab(name@)),
        decreases entries@.len() - i,
    {
        let ghost rest = entries@.subrange(i as int, entries@.len() as int);
        assert(rest.drop_first() =~= entries@.subrange(i + 1, entries@.len() as int));
        if key_matches(entries[i].key.as_str(), name) {
            return Some(&entries[i].value);
        }
        i = i + 1;
    }
    None
}

fn read_file_value(kind: FieldKind, v: &FileValue) -> (r: Result<Option<Value>, ()>)
    ensures
        r is Ok <==> file_value_spec(kind, *v) is Ok,
        r is Ok ==> opt_view(r->Ok_0) == file_value_spec(kind, *v)->Ok_0,
{
    match v {
        FileValue::Null => Ok(None),
        FileValue::Text(s) => match kind {
            FieldKind::Text => Ok(Some(Value::Text(s.clone()))),
            _ => Err(()),
        },
        FileValue::Unsigned(n) => match kind {
            FieldKind::Text => Err(()),
            _ => if *n <= kind.max_value() {
                Ok(Some(Value::Unsigned(*n)))
            } else {
                Err(())
            },
        },
        FileValue::Other => Err(()),
    }
}

/// Values taken from the configuration file: each field under its kebab-case
/// key; missing keys and null values give none, keys of no field are ignored.
pub fn from_file(fields: &Vec<FieldDescriptor>, contents: &FileContents) -> (r: Result<
    PartialConfig,
    LoadError,
>)
    ensures
        r is Ok <==> file_ok(fields@, *contents),
        r is Err ==> r->Err_0 == LoadError::FileDecode,
        r is Ok ==> r->Ok_0@ == file_spec(fields@, *contents),
        r is Ok ==> fits(kinds_of(fields@), r->Ok_0@),
{
    let entries = match contents {
        FileContents::Absent => {
            let p = PartialConfig::absent(fields.len());
            assert(p@ =~= file_spec(fields@, *contents));
            return Ok(p);
        },
        FileContents::Malformed => {
            return Err(LoadError::FileDecode);
        },
        FileContents::Document(es) => es,
    };
    let mut values: Vec<Option<Value>> = Vec::new();
    let mut i: usize = 0;
    while i < fields.len()
        invariant
            i <= fields@.len(),
            *contents == FileContents::Document(*entries),
            values@.len() == i,
            forall|j: int| 0 <= j < i ==> (#[trigger] file_field_spec(fields@[j], entries@)) is Ok,
            forall|j: int|
                0 <= j < i ==> opt_view(#[trigger] values@[j]) == file_field_spec(
                    fields@[j],
                    entries@,
                )->Ok_0,
        decreases fields@.len() - i,
    {
        let v = match lookup(entries, fields[i].name.as_str()) {
            Some(fv) => match read_file_value(fields[i].kind, fv) {
                Ok(v) => v,
                Err(()) => {
                    assert(!(file_field_spec(fields@[i as int], entries@) is Ok));
                    return Err(LoadError::FileDecode);
                },
            },
            None => None,
        };
        values.push(v);
        i = i + 1;
    }
    let p = PartialConfig { values };
    assert(p@ =~= file_spec(fields@, *contents));
    assert forall|j: int| 0 <= j < p@.len() && #[trigger] p@[j] is Some implies kinds_of(
        fields@,
    )[j].admits(p@[j]->0) by {
        assert(file_field_spec(fields@[j], entries@) is Ok);
    }
    Ok(p)
}

} // verus!
