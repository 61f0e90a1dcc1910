//! The specification tree that the validator reads: path items, operations,
//! parameters, request bodies, response codes, and the recursive schema
//! shape, together with the component table that named references point
//! into. The tree is built once by the caller and never mutated here.
use vstd::prelude::*;

verus! {

/// How a validation attempt fails.
///
/// A `Rejection` is an expected, request-dependent outcome: the request or
/// the response does not conform to the specification. A `Defect` means the
/// specification itself is broken (an unresolvable reference, a schema
/// document the evaluator cannot compile): an authoring-time fault, never
/// caused by the request alone.
#[derive(Debug, Clone, Copy, PartialEq, Eq, Structural)]
pub enum Failure {
    Rejection,
    Defect,
}

/// A declared response key: an exact status code or a range wildcard
/// (`Range(2)` stands for `2XX`).
#[derive(Debug, Clone, Copy, PartialEq, Eq, Structural)]
pub enum StatusCode {
    Code(u16),
    Range(u16),
}

/// The response keys an operation declares.
#[derive(Debug)]
pub struct Responses {
    pub codes: Vec<StatusCode>,
}

#[derive(Debug, Clone, Copy, PartialEq, Eq, Structural)]
pub enum StringFormat {
    DateTime,
    Date,
    Password,
    Byte,
    Binary,
}

#[derive(Debug)]
pub struct StringType {
    pub min_length: Option<u64>,
    pub max_length: Option<u64>,
    pub pattern: Option<String>,
    pub enumeration: Vec<String>,
    pub format: Option<StringFormat>,
}

#[derive(Debug)]
pub struct NumberType {
    pub minimum: Option<i64>,
    pub maximum: Option<i64>,
    pub exclusive_minimum: bool,
    pub exclusive_maximum: bool,
    pub multiple_of: Option<i64>,
    pub enumeration: Vec<i64>,
}

#[derive(Debug)]
pub struct IntegerType {
    pub minimum: Option<i64>,
    pub maximum: Option<i64>,
    pub exclusive_minimum: bool,
    pub exclusive_maximum: bool,
    pub multiple_of: Option<i64>,
    pub enumeration: Vec<i64>,
}

#[derive(Debug)]
pub struct ArrayType {
    pub items: Option<Box<SchemaRef>>,
    pub min_items: Option<u64>,
    pub max_items: Option<u64>,
    pub unique_items: bool,
}

#[derive(Debug)]
pub struct ObjectType {
    pub properties: Vec<(String, SchemaRef)>,
    pub required: Vec<String>,
    pub additional_properties: Option<AdditionalProperties>,
    pub min_properties: Option<u64>,
    pub max_properties: Option<u64>,
}

#[derive(Debug)]
pub enum AdditionalProperties {
    Any(bool),
    Schema(Box<SchemaRef>),
}

/// One node of the specification's native schema dialect.
#[derive(Debug)]
pub enum Schema {
    Boolean,
    String(StringType),
    Number(NumberType),
    Integer(IntegerType),
    Array(ArrayType),
    Object(ObjectType),
    OneOf(Vec<SchemaRef>),
    AllOf(Vec<SchemaRef>),
    AnyOf(Vec<SchemaRef>),
    Not(Box<SchemaRef>),
}

/// An inline schema node, or a named reference of the form
/// `#/components/schemas/{name}` into the component table.
#[derive(Debug)]
pub enum SchemaRef {
    Item(Box<Schema>),
    Reference(String),
}

#[derive(Debug, Clone, Copy, PartialEq, Eq, Structural)]
pub enum ParameterLocation {
    Header,
    Query,
    Path,
}

/// A declared operation parameter. Cookie parameters and content-typed
/// parameters are outside this model.
#[derive(Debug)]
pub struct Parameter {
    pub location: ParameterLocation,
    pub name: String,
    pub required: bool,
    pub schema: SchemaRef,
}

#[derive(Debug)]
pub enum ParameterRef {
    Item(Parameter),
    Reference(String),
}

/// One content-type branch of a request body.
#[derive(Debug)]
pub struct MediaType {
    pub schema: Option<SchemaRef>,
}

#[derive(Debug)]
pub struct RequestBody {
    pub required: bool,
    pub content: Vec<(String, MediaType)>,
}

#[derive(Debug)]
pub enum RequestBodyRef {
    Item(RequestBody),
    Reference(String),
}

#[derive(Debug)]
pub struct Operation {
    pub parameters: Vec<ParameterRef>,
    pub request_body: Option<RequestBodyRef>,
    pub responses: Responses,
}

#[derive(Debug)]
pub struct PathItem {
    pub get: Option<Operation>,
    pub put: Option<Operation>,
    pub post: Option<Operation>,
    pub delete: Option<Operation>,
}

/// The shared component table: named schemas, parameters and request
/// bodies.
#[derive(Debug)]
pub struct Components {
    pub schemas: Vec<(String, SchemaRef)>,
    pub parameters: Vec<(String, ParameterRef)>,
    pub request_bodies: Vec<(String, RequestBodyRef)>,
}

/// The root of a parsed specification: path templates in declaration order,
/// each with its path item, and the optional component table.
#[derive(Debug)]
pub struct ApiSpec {
    pub paths: Vec<(String, PathItem)>,
    pub components: Option<Components>,
}

/// The first entry whose key reads as `name`, if any.
pub open spec fn assoc<T>(entries: Seq<(String, T)>, name: Seq<char>) -> Option<T>
    decreases entries,
{
    if entries.len() == 0 {
        None
    } else if entries[0].0@ == name {
        Some(entries[0].1)
    } else {
        assoc(entries.drop_first(), name)
    }
}

pub proof fn lemma_assoc_skip<T>(entries: Seq<(String, T)>, name: Seq<char>, i: int)
    requires
        0 <= i <= entries.len(),
        forall|k: int| 0 <= k < i ==> entries[k].0@ != name,
    ensures
        assoc(entries, name) == assoc(entries.skip(i), name),
    decreases i,
{
    if i > 0 {
        assert(forall|k: int|
            0 <= k < i - 1 ==> entries.drop_first()[k] == entries[k + 1]);
        lemma_assoc_skip(entries.drop_first(), name, i - 1);
        assert(entries.drop_first().skip(i - 1) =~= entries.skip(i));
        assert(assoc(entries, name) == assoc(entries.drop_first(), name));
    } else {
        assert(entries.skip(0) =~= entries);
    }
}

/// Looks `name` up among the entries, returning the first match.
pub fn assoc_get<'a, T>(entries: &'a Vec<(String, T)>, name: &str) -> (r: Option<&'a T>)
    ensures
        match r {
            Some(v) => assoc(entries@, name@) == Some(*v),
            None => assoc(entries@, name@) is None,
        },
{
    let mut i: usize = 0;
    while i < entries.len()
        invariant
            i <= entries@.len(),
            forall|k: int| 0 <= k < i ==> entries@[k].0@ != name@,
        decreases entries@.len() - i,
    {
        if crate::text::str_eq(entries[i].0.as_str(), name) {
            proof {
                lemma_assoc_skip(entries@, name@, i as int);
                assert(entries@.skip(i as int)[0] == entries@[i as int]);
            }
            return Some(&entries[i].1);
        }
        i = i + 1;
    }
    proof {
        lemma_assoc_skip(entries@, name@, i as int);
        assert(entries@.skip(i as int) =~= Seq::<(String, T)>::empty());
    }
    None
}

/// The view of a header lookup: the first value under `name`, if any.
pub open spec fn header_of(headers: Seq<(String, String)>, name: Seq<char>) -> Option<Seq<char>> {
    match assoc(headers, name) {
        Some(s) => Some(s@),
        None => None,
    }
}

} // verus!
