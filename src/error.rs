//! The errors of parsing and validating a schema.
use vstd::prelude::*;

verus! {

/// Why a schema document was rejected.
#[derive(Debug, PartialEq, Eq)]
pub enum SchemaError {
    /// The document root holds no `schema` element in the XSD namespace.
    NoSchemaRootFound,
    /// The document root holds more than one `schema` element.
    MultipleSchemaRoots,
    /// The `version` attribute names neither 1.0 nor 1.1.
    UnsupportedSchemaVersion,
    /// An element lacks an attribute it must have.
    MissingAttribute { element: String, attribute: String },
    /// A simple type holds none, or more than one, of restriction, list, union.
    MalformedSimpleType { name: String },
    /// A complex type holds more than one content model.
    MalformedComplexType { name: String },
    /// A fixed-vocabulary attribute holds a token outside its vocabulary.
    UnknownFacet { element: String, token: String },
    /// A named type reference resolves neither to a built-in nor to a declared type.
    UnresolvedTypeReference { name: String },
    /// An element of the XSD namespace that the meta-schema does not declare.
    StructuralValidationFailure { element: String },
}

/// What a `SchemaError` says, as values.
pub enum SchemaErrorView {
    NoSchemaRootFound,
    MultipleSchemaRoots,
    UnsupportedSchemaVersion,
    MissingAttribute { element: Seq<char>, attribute: Seq<char> },
    MalformedSimpleType { name: Seq<char> },
    MalformedComplexType { name: Seq<char> },
    UnknownFacet { element: Seq<char>, token: Seq<char> },
    UnresolvedTypeReference { name: Seq<char> },
    StructuralValidationFailure { element: Seq<char> },
}

impl View for SchemaError {
    type V = SchemaErrorView;

    open spec fn view(&self) -> SchemaErrorView {
        match self {
            SchemaError::NoSchemaRootFound => SchemaErrorView::NoSchemaRootFound,
            SchemaError::MultipleSchemaRoots => SchemaErrorView::MultipleSchemaRoots,
            SchemaError::UnsupportedSchemaVersion => SchemaErrorView::UnsupportedSchemaVersion,
            SchemaError::MissingAttribute { element, attribute } => SchemaErrorView::MissingAttribute {
                element: element@,
                attribute: attribute@,
            },
            SchemaError::MalformedSimpleType { name } => SchemaErrorView::MalformedSimpleType {
                name: name@,
            },
            SchemaError::MalformedComplexType { name } => SchemaErrorView::MalformedComplexType {
                name: name@,
            },
            SchemaError::UnknownFacet { element, token } => SchemaErrorView::UnknownFacet {
                element: element@,
                token: token@,
            },
            SchemaError::UnresolvedTypeReference { name } => SchemaErrorView::UnresolvedTypeReference {
                name: name@,
            },
            SchemaError::StructuralValidationFailure { element } => SchemaErrorView::StructuralValidationFailure {
                element: element@,
            },
        }
    }
}

/// The error for `element` (a local name) lacking `attribute`.
pub fn missing_attribute(element: &String, attribute: &str) -> (r: SchemaError)
    ensures
        r@ == (SchemaErrorView::MissingAttribute { element: element@, attribute: attribute@ }),
{
    SchemaError::MissingAttribute { element: element.clone(), attribute: attribute.to_owned() }
}

/// A result seen as values.
pub open spec fn res_view<T: View>(r: Result<T, SchemaError>) -> Result<T::V, SchemaErrorView> {
    match r {
        Ok(v) => Ok(v@),
        Err(e) => Err(e@),
    }
}

/// All the values of `s` when each is `Ok`; else the first error.
pub open spec fn all_ok<V>(s: Seq<Result<V, SchemaErrorView>>) -> Result<Seq<V>, SchemaErrorView>
    decreases s.len(),
{
    if s.len() == 0 {
        Ok(Seq::empty())
    } else {
        match all_ok(s.drop_last()) {
            Err(e) => Err(e),
            Ok(vs) => match s.last() {
                Ok(v) => Ok(vs.push(v)),
                Err(e) => Err(e),
            },
        }
    }
}

pub proof fn lemma_all_ok_step<V>(s: Seq<Result<V, SchemaErrorView>>, i: int)
    requires
        0 <= i < s.len(),
    ensures
        all_ok(s.take(i + 1)) == match all_ok(s.take(i)) {
            Err(e) => Err(e),
            Ok(vs) => match s[i] {
                Ok(v) => Ok(vs.push(v)),
                Err(e) => Err(e),
            },
        },
{
    assert(s.take(i + 1).drop_last() =~= s.take(i));
}

pub proof fn lemma_all_ok_err_stays<V>(s: Seq<Result<V, SchemaErrorView>>, n: int, m: int)
    requires
        0 <= n <= m <= s.len(),
        all_ok(s.take(n)) is Err,
    ensures
        all_ok(s.take(m)) == all_ok(s.take(n)),
    decreases m - n,
{
    if m > n {
        lemma_all_ok_err_stays(s, n, m - 1);
        lemma_all_ok_step(s, m - 1);
    }
}

pub proof fn lemma_all_ok_whole<V>(s: Seq<Result<V, SchemaErrorView>>)
    ensures
        all_ok(s.take(s.len() as int)) == all_ok(s),
{
    assert(s.take(s.len() as int) =~= s);
}

} // verus!
