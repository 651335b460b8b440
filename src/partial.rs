use vstd::prelude::*;

use crate::field::{field_default, FieldDescriptor, FieldKind, Scalar, Value};

verus! {

pub open spec fn opt_view(o: Option<Value>) -> Option<Scalar> {
    match o {
        Some(v) => Some(v@),
        None => None,
    }
}

/// The declared kinds of a table of fields, in order.
pub open spec fn kinds_of(fields: Seq<FieldDescriptor>) -> Seq<FieldKind> {
    fields.map_values(|f: FieldDescriptor| f.kind)
}

/// Per-field values that are each absent or of the field's kind.
pub open spec fn fits(kinds: Seq<FieldKind>, p: Seq<Option<Scalar>>) -> bool {
    &&& p.len() == kinds.len()
    &&& forall|i: int| 0 <= i < p.len() && #[trigger] p[i] is Some ==> kinds[i].admits(p[i]->0)
}

/// Right-biased override: each field of `rhs` that holds a value wins.
pub open spec fn merge_spec(lhs: Seq<Option<Scalar>>, rhs: Seq<Option<Scalar>>) -> Seq<
    Option<Scalar>,
> {
    Seq::new(rhs.len(), |i: int| if rhs[i] is Some { rhs[i] } else { lhs[i] })
}

/// A command-line value that differs from the parser's own default wins;
/// elsewhere the baseline decides.
pub open spec fn resolve_spec(
    cli: Seq<Option<Scalar>>,
    defaults: Seq<Option<Scalar>>,
    baseline: Seq<Option<Scalar>>,
) -> Seq<Option<Scalar>> {
    Seq::new(cli.len(), |i: int| if cli[i] != defaults[i] { cli[i] } else { baseline[i] })
}

/// Each field's value, or where it has none its type-level default (for an
/// optional field: still none).
pub open spec fn finalize_spec(fields: Seq<FieldDescriptor>, p: Seq<Option<Scalar>>) -> Seq<
    Option<Scalar>,
> {
    Seq::new(
        p.len(),
        |i: int|
            match p[i] {
                Some(v) => Some(v),
                None => field_default(fields[i]),
            },
    )
}

pub(crate) fn copy_value(v: &Value) -> (r: Value)
    ensures
        r@ == v@,
{
    match v {
        Value::Text(s) => Value::Text(s.clone()),
        Value::Unsigned(n) => Value::Unsigned(*n),
    }
}

fn copy_opt(o: &Option<Value>) -> (r: Option<Value>)
    ensures
        opt_view(r) == opt_view(*o),
{
    match o {
        Some(v) => Some(copy_value(v)),
        None => None,
    }
}

/// Whether two optional values are equal, absent being equal only to absent.
pub fn same_value(a: &Option<Value>, b: &Option<Value>) -> (r: bool)
    ensures
        r == (opt_view(*a) == opt_view(*b)),
{
    match (a, b) {
        (None, None) => true,
        (Some(Value::Text(x)), Some(Value::Text(y))) => *x == *y,
        (Some(Value::Unsigned(x)), Some(Value::Unsigned(y))) => *x == *y,
        _ => false,
    }
}

/// A per-field optional value for every declared field, as one source gives it.
#[derive(Debug)]
pub struct PartialConfig {
    pub values: Vec<Option<Value>>,
}

impl View for PartialConfig {
    type V = Seq<Option<Scalar>>;

    open spec fn view(&self) -> Seq<Option<Scalar>> {
        self.values@.map_values(|o: Option<Value>| opt_view(o))
    }
}

impl PartialConfig {
    /// A configuration in which no field holds a value.
    pub fn absent(n: usize) -> (r: PartialConfig)
        ensures
            r@.len() == n,
            forall|i: int| 0 <= i < n ==> #[trigger] r@[i] is None,
    {
        let mut values: Vec<Option<Value>> = Vec::new();
        let mut i: usize = 0;
        while i < n
            invariant
                i <= n,
                values@.len() == i,
                forall|j: int| 0 <= j < i ==> #[trigger] values@[j] is None,
            decreases n - i,
        {
            values.push(None);
            i = i + 1;
        }
        PartialConfig { values }
    }

    pub fn len(&self) -> (r: usize)
        ensures
            r == self@.len(),
    {
        self.values.len()
    }

    /// The value of field `i`, if it has one.
    pub fn get(&self, i: usize) -> (r: &Option<Value>)
        requires
            i < self@.len(),
        ensures
            opt_view(*r) == self@[i as int],
    {
        &self.values[i]
    }

    /// Combines two configurations field by field; `rhs` wins wherever it holds a value.
    pub fn merge(lhs: &PartialConfig, rhs: &PartialConfig) -> (r: PartialConfig)
        requires
            lhs@.len() == rhs@.len(),
        ensures
            r@ == merge_spec(lhs@, rhs@),
            r@.len() == rhs@.len(),
            forall|i: int|
                0 <= i < r@.len() ==> #[trigger] r@[i] == if rhs@[i] is Some {
                    rhs@[i]
                } else {
                    lhs@[i]
                },
    {
        let n = rhs.values.len();
        let mut values: Vec<Option<Value>> = Vec::new();
        let mut i: usize = 0;
        while i < n
            invariant
                i <= n,
                n == rhs@.len(),
                lhs@.len() == rhs@.len(),
                values@.len() == i,
                forall|j: int|
                    0 <= j < i ==> opt_view(#[trigger] values@[j]) == merge_spec(lhs@, rhs@)[j],
            decreases n - i,
        {
            let v = if rhs.values[i].is_some() {
                copy_opt(&rhs.values[i])
            } else {
                copy_opt(&lhs.values[i])
            };
            values.push(v);
            i = i + 1;
        }
        let r = PartialConfig { values };
        assert(r@ =~= merge_spec(lhs@, rhs@));
        r
    }

    /// Takes the command-line value of each field that differs from the
    /// parser's default, and the baseline's value of every other field.
    pub fn resolve(
        cli_opts: &PartialConfig,
        default_value_opts: &PartialConfig,
        precedence_opts: &PartialConfig,
    ) -> (r: PartialConfig)
        requires
            cli_opts@.len() == default_value_opts@.len(),
            cli_opts@.len() == precedence_opts@.len(),
        ensures
            r@ == resolve_spec(cli_opts@, default_value_opts@, precedence_opts@),
            r@.len() == cli_opts@.len(),
            forall|i: int|
                0 <= i < r@.len() && cli_opts@[i] != default_value_opts@[i] ==> #[trigger] r@[i]
                    == cli_opts@[i],
            forall|i: int|
                0 <= i < r@.len() && cli_opts@[i] == default_value_opts@[i] ==> #[trigger] r@[i]
                    == precedence_opts@[i],
    {
        let n = cli_opts.values.len();
        let mut values: Vec<Option<Value>> = Vec::new();
        let mut i: usize = 0;
        while i < n
            invariant
                i <= n,
                n == cli_opts@.len(),
                cli_opts@.len() == default_value_opts@.len(),
                cli_opts@.len() == precedence_opts@.len(),
                values@.len() == i,
                forall|j: int|
                    0 <= j < i ==> opt_view(#[trigger] values@[j]) == resolve_spec(
                        cli_opts@,
                        default_value_opts@,
                        precedence_opts@,
                    )[j],
            decreases n - i,
        {
            let v = if !same_value(&cli_opts.values[i], &default_value_opts.values[i]) {
                copy_opt(&cli_opts.values[i])
            } else {
                copy_opt(&precedence_opts.values[i])
            };
            values.push(v);
            i = i + 1;
        }
        let r = PartialConfig { values };
        assert(r@ =~= resolve_spec(cli_opts@, default_value_opts@, precedence_opts@));
        r
    }
}

/// The final configuration: a value for every declared field, where an
/// optional field's value may be none.
#[derive(Debug)]
pub struct Configuration {
    pub values: Vec<Option<Value>>,
}

impl View for Configuration {
    type V = Seq<Option<Scalar>>;

    open spec fn view(&self) -> Seq<Option<Scalar>> {
        self.values@.map_values(|o: Option<Value>| opt_view(o))
    }
}

impl Configuration {
    pub fn len(&self) -> (r: usize)
        ensures
            r == self@.len(),
    {
        self.values.len()
    }

    /// The value of field `i`.
    pub fn get(&self, i: usize) -> (r: &Option<Value>)
        requires
            i < self@.len(),
        ensures
            opt_view(*r) == self@[i as int],
    {
        &self.values[i]
    }
}

/// Turns resolved per-field values into a configuration, putting each
/// field's type-level default where no value is left; only optional fields
/// can stay without a value.
pub fn finalize(fields: &Vec<FieldDescriptor>, resolved: &PartialConfig) -> (r: Configuration)
    requires
        fields@.len() == resolved@.len(),
    ensures
        r@ == finalize_spec(fields@, resolved@),
        r@.len() == resolved@.len(),
        forall|i: int| 0 <= i < r@.len() && #[trigger] resolved@[i] is Some ==> r@[i] == resolved@[i],
        forall|i: int|
            0 <= i < r@.len() && #[trigger] resolved@[i] is None ==> r@[i] == field_default(fields@[i]),
        forall|i: int| 0 <= i < r@.len() && !(#[trigger] fields@[i]).optional ==> r@[i] is Some,
        fits(kinds_of(fields@), resolved@) ==> fits(kinds_of(fields@), r@),
{
    let n = resolved.values.len();
    let mut values: Vec<Option<Value>> = Vec::new();
    let mut i: usize = 0;
    while i < n
        invariant
            i <= n,
            n == resolved@.len(),
            fields@.len() == resolved@.len(),
            values@.len() == i,
            forall|j: int|
                0 <= j < i ==> opt_view(#[trigger] values@[j]) == finalize_spec(fields@, resolved@)[j],
        decreases n - i,
    {
        let v = match &resolved.values[i] {
            Some(v) => Some(copy_value(v)),
            None => if fields[i].optional {
                None
            } else {
                Some(fields[i].kind.default_value())
            },
        };
        values.push(v);
        i = i + 1;
    }
    let r = Configuration { values };
    assert(r@ =~= finalize_spec(fields@, resolved@));
    r
}

/// Merging is associative: folding three configurations gives the same
/// result whichever pair is merged first.
pub proof fn merge_associative(a: Seq<Option<Scalar>>, b: Seq<Option<Scalar>>, c: Seq<Option<Scalar>>)
    requires
        a.len() == b.len(),
        b.len() == c.len(),
    ensures
        merge_spec(merge_spec(a, b), c) == merge_spec(a, merge_spec(b, c)),
{
    assert(merge_spec(merge_spec(a, b), c) =~= merge_spec(a, merge_spec(b, c)));
}

/// When the command line matches the parser's defaults in every field,
/// resolution hands back the baseline unchanged.
pub proof fn resolve_identity(
    cli: Seq<Option<Scalar>>,
    defaults: Seq<Option<Scalar>>,
    baseline: Seq<Option<Scalar>>,
)
    requires
        cli == defaults,
        baseline.len() == cli.len(),
    ensures
        resolve_spec(cli, defaults, baseline) == baseline,
{
    assert(resolve_spec(cli, defaults, baseline) =~= baseline);
}

} // verus!
