use vstd::prelude::*;

use crate::error::LoadError;
use crate::field::{FieldDescriptor, FieldKind, Scalar, Value};
use crate::file::{file_ok, file_spec, from_file, FileContents};
use crate::partial::{
    finalize, finalize_spec, fits, kinds_of, merge_spec, resolve_spec, Configuration,
    PartialConfig,
};
use crate::sources::{
    defaults, defaults_spec, first_unreadable, from_env, read_texts, table_wf, texts_spec,
    unreadable,
};

verus! {

/// A type that can be loaded from defaults, a configuration file, the
/// environment and the command line.
pub trait ConfigLoader: Sized {
    /// The configuration made of compiled-in defaults alone.
    fn default_values() -> Result<Self, LoadError>;

    /// The configuration that the file at `config_path` gives over the defaults.
    fn config_values(config_path: &str) -> Result<Self, LoadError>;

    /// Load the configuration for the type implementing this trait.
    ///
    /// Returns the loaded configuration or an error if reading the command
    /// line or decoding the configuration file fails.
    fn load_config() -> Result<Self, LoadError>;
}

/// The values on the command line, after the parser has filled each flag
/// not given with its declared default.
pub fn command_line(fields: &Vec<FieldDescriptor>, raw: &Vec<Option<String>>) -> (r: Result<
    PartialConfig,
    LoadError,
>)
    requires
        raw@.len() == fields@.len(),
    ensures
        r is Ok <==> forall|i: int| 0 <= i < raw@.len() ==> !unreadable(kinds_of(fields@), raw@, i),
        r is Ok ==> r->Ok_0@ == texts_spec(kinds_of(fields@), raw@),
        r is Ok ==> fits(kinds_of(fields@), r->Ok_0@),
        r is Err ==> (r->Err_0 matches LoadError::MalformedArguments { field } && first_unreadable(
            kinds_of(fields@),
            raw@,
            field as int,
        )),
{
    let (p, bad) = read_texts(fields, raw);
    proof {
        crate::sources::lemma_texts_fit(kinds_of(fields@), raw@);
    }
    match bad {
        Some(i) => Err(LoadError::MalformedArguments { field: i }),
        None => Ok(p),
    }
}

/// The field that names the configuration file: a text field called `config`.
pub open spec fn is_config_field(f: FieldDescriptor) -> bool {
    f.name@ == "config"@ && f.kind == FieldKind::Text
}

pub open spec fn first_config_field(fields: Seq<FieldDescriptor>, i: int) -> bool {
    &&& 0 <= i < fields.len()
    &&& is_config_field(fields[i])
    &&& forall|j: int| 0 <= j < i ==> !is_config_field(#[trigger] fields[j])
}

fn same_text(a: &str, b: &str) -> (r: bool)
    ensures
        r == (a@ == b@),
{
    let n = a.unicode_len();
    if b.unicode_len() != n {
        return false;
    }
    let mut i: usize = 0;
    while i < n
        invariant
            i <= n,
            n == a@.len(),
            b@.len() == n,
            forall|j: int| 0 <= j < i ==> a@[j] == b@[j],
        decreases n - i,
    {
        if a.get_char(i) != b.get_char(i) {
            return false;
        }
        i = i + 1;
    }
    assert(a@ =~= b@);
    true
}

/// The path of the configuration file: the command-line value of the
/// `config` field, where the table has one.
pub fn config_path(fields: &Vec<FieldDescriptor>, cli: &PartialConfig) -> (r: Option<String>)
    requires
        fits(kinds_of(fields@), cli@),
    ensures
        r is Some <==> exists|i: int| first_config_field(fields@, i) && cli@[i] is Some,
        r is Some ==> forall|i: int|
            first_config_field(fields@, i) ==> cli@[i] == Some(Scalar::Text(r->0@)),
{
    let mut i: usize = 0;
    while i < fields.len()
        invariant
            i <= fields@.len(),
            fits(kinds_of(fields@), cli@),
            cli@.len() == fields@.len(),
            forall|j: int| 0 <= j < i ==> !is_config_field(#[trigger] fields@[j]),
        decreases fields@.len() - i,
    {
        if same_text(fields[i].name.as_str(), "config") && fields[i].kind == FieldKind::Text {
            proof {
                reveal_strlit("config");
                assert(first_config_field(fields@, i as int));
                assert(cli@[i as int] == crate::partial::opt_view(cli.values@[i as int]));
                assert forall|k: int| first_config_field(fields@, k) implies k == i by {
                    if k < i {
                    } else if k > i {
                        assert(!is_config_field(fields@[i as int]));
                    }
                }
            }
            return match &cli.values[i] {
                Some(Value::Text(s)) => Some(s.clone()),
                _ => None,
            };
        }
        proof {
            reveal_strlit("config");
        }
        i = i + 1;
    }
    None
}

/// File values over the defaults, and environment values over both.
pub open spec fn baseline_spec(
    fields: Seq<FieldDescriptor>,
    contents: FileContents,
    env: Seq<Option<String>>,
) -> Seq<Option<Scalar>> {
    merge_spec(
        merge_spec(defaults_spec(fields), file_spec(fields, contents)),
        texts_spec(kinds_of(fields), env),
    )
}

/// The configuration that the four sources give together.
pub open spec fn load_spec(
    fields: Seq<FieldDescriptor>,
    cli: Seq<Option<Scalar>>,
    contents: FileContents,
    env: Seq<Option<String>>,
) -> Seq<Option<Scalar>> {
    finalize_spec(
        fields,
        resolve_spec(cli, defaults_spec(fields), baseline_spec(fields, contents, env)),
    )
}

proof fn lemma_merge_fits(kinds: Seq<FieldKind>, a: Seq<Option<Scalar>>, b: Seq<Option<Scalar>>)
    requires
        fits(kinds, a),
        fits(kinds, b),
    ensures
        fits(kinds, merge_spec(a, b)),
{
    assert forall|i: int|
        0 <= i < merge_spec(a, b).len() && #[trigger] merge_spec(a, b)[i] is Some implies kinds[i].admits(
        merge_spec(a, b)[i]->0,
    ) by {
        if b[i] is Some {
            assert(kinds[i].admits(b[i]->0));
        } else {
            assert(kinds[i].admits(a[i]->0));
        }
    }
}

proof fn lemma_resolve_fits(
    kinds: Seq<FieldKind>,
    c: Seq<Option<Scalar>>,
    d: Seq<Option<Scalar>>,
    b: Seq<Option<Scalar>>,
)
    requires
        fits(kinds, c),
        d.len() == c.len(),
        fits(kinds, b),
    ensures
        fits(kinds, resolve_spec(c, d, b)),
{
    assert forall|i: int|
        0 <= i < resolve_spec(c, d, b).len() && #[trigger] resolve_spec(c, d, b)[i] is Some implies kinds[i].admits(
        resolve_spec(c, d, b)[i]->0,
    ) by {
        if c[i] != d[i] {
            assert(kinds[i].admits(c[i]->0));
        } else {
            assert(kinds[i].admits(b[i]->0));
        }
    }
}

/// Resolves the configuration: defaults, then the file, then the
/// environment, then each command-line value given explicitly.
pub fn load(
    fields: &Vec<FieldDescriptor>,
    cli: &PartialConfig,
    contents: &FileContents,
    env: &Vec<Option<String>>,
) -> (r: Result<Configuration, LoadError>)
    requires
        table_wf(fields@),
        fits(kinds_of(fields@), cli@),
        env@.len() == fields@.len(),
    ensures
        r is Ok <==> file_ok(fields@, *contents),
        r is Err ==> r->Err_0 == LoadError::FileDecode,
        r is Ok ==> r->Ok_0@ == load_spec(fields@, cli@, *contents, env@),
        r is Ok ==> fits(kinds_of(fields@), r->Ok_0@),
        r is Ok ==> forall|i: int|
            0 <= i < fields@.len() && !(#[trigger] fields@[i]).optional ==> r->Ok_0@[i] is Some,
{
    let default_value_opts = defaults(fields);
    let file_opts = match from_file(fields, contents) {
        Ok(p) => p,
        Err(e) => {
            return Err(e);
        },
    };
    let env_opts = from_env(fields, env);
    let precedence_opts = PartialConfig::merge(&default_value_opts, &file_opts);
    let precedence_opts = PartialConfig::merge(&precedence_opts, &env_opts);
    let final_opts = PartialConfig::resolve(cli, &default_value_opts, &precedence_opts);
    proof {
        let kinds = kinds_of(fields@);
        lemma_merge_fits(kinds, default_value_opts@, file_opts@);
        lemma_merge_fits(kinds, merge_spec(default_value_opts@, file_opts@), env_opts@);
        lemma_resolve_fits(kinds, cli@, default_value_opts@, precedence_opts@);
    }
    Ok(finalize(fields, &final_opts))
}

} // verus!
