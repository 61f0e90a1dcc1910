//! Translation of a native schema node into a portable JSON Schema
//! document. Every reference met on the way is resolved through the
//! component table first; an indirect array `items` reference is silently
//! omitted, and an `additionalProperties` reference that does not resolve is
//! silently omitted, preserving the engine's deliberately permissive
//! treatment of those two spots.
//!
//! Translation carries a reference budget equal to the number of named
//! schemas: an acyclic specification re-enters the table at most once per
//! name on any one branch, so the budget never runs out on a well-formed
//! document, while a reference cycle exhausts it and fails as a defect.
use crate::item_or_fetch::schema_fuel;
use crate::item_or_fetch::spec_resolve_schema;
use crate::item_or_fetch::resolve_schema;
use crate::json::view_list;
use crate::json::view_members;
use crate::json::lemma_view_list;
use crate::json::lemma_view_members;
use crate::json::Json;
use crate::json::JsonV;
use crate::model::AdditionalProperties;
use crate::model::ArrayType;
use crate::model::Components;
use crate::model::Failure;
use crate::model::IntegerType;
use crate::model::NumberType;
use crate::model::ObjectType;
use crate::model::Schema;
use crate::model::SchemaRef;
use crate::model::StringFormat;
use crate::model::StringType;
use vstd::prelude::*;
use vstd::string::StringExecFns;

verus! {

// ------------------------------------------------------------------
// Spec-level member builders
// ------------------------------------------------------------------
pub open spec fn opt_u64_member(name: Seq<char>, v: Option<u64>) -> Seq<(Seq<char>, JsonV)> {
    match v {
        Some(x) => seq![(name, JsonV::Int(x as int))],
        None => Seq::empty(),
    }
}

pub open spec fn opt_i64_member(name: Seq<char>, v: Option<i64>) -> Seq<(Seq<char>, JsonV)> {
    match v {
        Some(x) => seq![(name, JsonV::Int(x as int))],
        None => Seq::empty(),
    }
}

pub open spec fn opt_str_member(name: Seq<char>, v: Option<String>) -> Seq<(Seq<char>, JsonV)> {
    match v {
        Some(x) => seq![(name, JsonV::Str(x@))],
        None => Seq::empty(),
    }
}

/// Included only when true: the deliberate asymmetry of the exclusive
/// bounds and of `uniqueItems`.
pub open spec fn flag_member(name: Seq<char>, b: bool) -> Seq<(Seq<char>, JsonV)> {
    if b {
        seq![(name, JsonV::Bool(true))]
    } else {
        Seq::empty()
    }
}

pub open spec fn str_list(vs: Seq<String>) -> Seq<JsonV> {
    vs.map_values(|s: String| JsonV::Str(s@))
}

pub open spec fn i64_list(vs: Seq<i64>) -> Seq<JsonV> {
    vs.map_values(|x: i64| JsonV::Int(x as int))
}

/// An array-valued member, omitted when the list is empty.
pub open spec fn str_arr_member(name: Seq<char>, vs: Seq<String>) -> Seq<(Seq<char>, JsonV)> {
    if vs.len() == 0 {
        Seq::empty()
    } else {
        seq![(name, JsonV::Arr(str_list(vs)))]
    }
}

pub open spec fn i64_arr_member(name: Seq<char>, vs: Seq<i64>) -> Seq<(Seq<char>, JsonV)> {
    if vs.len() == 0 {
        Seq::empty()
    } else {
        seq![(name, JsonV::Arr(i64_list(vs)))]
    }
}

pub open spec fn format_name(f: StringFormat) -> Seq<char> {
    match f {
        StringFormat::DateTime => "date-time"@,
        StringFormat::Date => "date"@,
        StringFormat::Password => "password"@,
        StringFormat::Byte => "byte"@,
        StringFormat::Binary => "binary"@,
    }
}

pub open spec fn format_member(f: Option<StringFormat>) -> Seq<(Seq<char>, JsonV)> {
    match f {
        Some(ft) => seq![("format"@, JsonV::Str(format_name(ft)))],
        None => Seq::empty(),
    }
}

// ------------------------------------------------------------------
// Spec-level translation of the leaf shapes
// ------------------------------------------------------------------
pub open spec fn boolean_schema() -> JsonV {
    JsonV::Obj(seq![("type"@, JsonV::Str("boolean"@))])
}

pub open spec fn string_schema(st: StringType) -> JsonV {
    JsonV::Obj(
        seq![("type"@, JsonV::Str("string"@))] + opt_u64_member("minLength"@, st.min_length)
            + opt_u64_member("maxLength"@, st.max_length) + str_arr_member(
            "enum"@,
            st.enumeration@,
        ) + opt_str_member("pattern"@, st.pattern) + format_member(st.format),
    )
}

pub open spec fn numeric_members(
    kind_name: Seq<char>,
    minimum: Option<i64>,
    maximum: Option<i64>,
    exclusive_minimum: bool,
    exclusive_maximum: bool,
    multiple_of: Option<i64>,
    enumeration: Seq<i64>,
) -> Seq<(Seq<char>, JsonV)> {
    seq![("type"@, JsonV::Str(kind_name))] + opt_i64_member("minimum"@, minimum) + opt_i64_member(
        "maximum"@,
        maximum,
    ) + flag_member("exclusiveMinimum"@, exclusive_minimum) + flag_member(
        "exclusiveMaximum"@,
        exclusive_maximum,
    ) + opt_i64_member("multipleOf"@, multiple_of) + i64_arr_member("enum"@, enumeration)
}

pub open spec fn number_schema(nt: NumberType) -> JsonV {
    JsonV::Obj(
        numeric_members(
            "number"@,
            nt.minimum,
            nt.maximum,
            nt.exclusive_minimum,
            nt.exclusive_maximum,
            nt.multiple_of,
            nt.enumeration@,
        ),
    )
}

pub open spec fn integer_schema(it: IntegerType) -> JsonV {
    JsonV::Obj(
        numeric_members(
            "integer"@,
            it.minimum,
            it.maximum,
            it.exclusive_minimum,
            it.exclusive_maximum,
            it.multiple_of,
            it.enumeration@,
        ),
    )
}

// ------------------------------------------------------------------
// Spec-level translation, recursive shapes
// ------------------------------------------------------------------

/// Translates one schema node. `None` is a specification defect: an
/// unresolvable or cyclic reference somewhere beneath the node.
pub open spec fn translate_schema(s: Schema, components: Option<Components>, depth: nat) -> Option<
    JsonV,
>
    decreases depth, s, 2nat,
{
    match s {
        Schema::Boolean => Some(boolean_schema()),
        Schema::String(st) => Some(string_schema(st)),
        Schema::Number(nt) => Some(number_schema(nt)),
        Schema::Integer(it) => Some(integer_schema(it)),
        Schema::Array(at) => translate_array(at, components, depth),
        Schema::Object(ot) => translate_object(ot, components, depth),
        Schema::OneOf(l) => match translate_schema_list(l@, components, depth) {
            Some(items) => Some(JsonV::Obj(seq![("oneOf"@, JsonV::Arr(items))])),
            None => None,
        },
        Schema::AllOf(l) => match translate_schema_list(l@, components, depth) {
            Some(items) => Some(JsonV::Obj(seq![("allOf"@, JsonV::Arr(items))])),
            None => None,
        },
        Schema::AnyOf(l) => match translate_schema_list(l@, components, depth) {
            Some(items) => Some(JsonV::Obj(seq![("anyOf"@, JsonV::Arr(items))])),
            None => None,
        },
        Schema::Not(r) => match translate_schema_ref(*r, components, depth) {
            Some(inner) => Some(JsonV::Obj(seq![("not"@, inner)])),
            None => None,
        },
    }
}

/// Translates a schema-or-reference: an inline node directly, a reference
/// after resolving it, spending one unit of the reference budget.
pub open spec fn translate_schema_ref(
    r: SchemaRef,
    components: Option<Components>,
    depth: nat,
) -> Option<JsonV>
    decreases depth, r, 3nat,
{
    match r {
        SchemaRef::Item(b) => translate_schema(*b, components, depth),
        SchemaRef::Reference(_) => {
            if depth == 0 {
                None
            } else {
                match spec_resolve_schema(r, components, schema_fuel(components)) {
                    Some(s) => translate_schema(s, components, (depth - 1) as nat),
                    None => None,
                }
            }
        },
    }
}

pub open spec fn translate_schema_list(
    l: Seq<SchemaRef>,
    components: Option<Components>,
    depth: nat,
) -> Option<Seq<JsonV>>
    decreases depth, l, 4nat,
{
    if l.len() == 0 {
        Some(Seq::empty())
    } else {
        match translate_schema_ref(l[0], components, depth) {
            None => None,
            Some(j) => match translate_schema_list(l.drop_first(), components, depth) {
                None => None,
                Some(rest) => Some(seq![j] + rest),
            },
        }
    }
}

pub open spec fn translate_properties(
    ps: Seq<(String, SchemaRef)>,
    components: Option<Components>,
    depth: nat,
) -> Option<Seq<(Seq<char>, JsonV)>>
    decreases depth, ps, 4nat,
{
    if ps.len() == 0 {
        Some(Seq::empty())
    } else {
        match translate_schema_ref(ps[0].1, components, depth) {
            None => None,
            Some(j) => match translate_properties(ps.drop_first(), components, depth) {
                None => None,
                Some(rest) => Some(seq![(ps[0].0@, j)] + rest),
            },
        }
    }
}

pub open spec fn translate_array(
    at: ArrayType,
    components: Option<Components>,
    depth: nat,
) -> Option<JsonV>
    decreases depth, at, 3nat,
{
    let base = seq![("type"@, JsonV::Str("array"@))] + opt_u64_member("minItems"@, at.min_items)
        + opt_u64_member("maxItems"@, at.max_items) + flag_member(
        "uniqueItems"@,
        at.unique_items,
    );
    match at.items {
        None => Some(JsonV::Obj(base)),
        Some(b) => match *b {
            SchemaRef::Item(bs) => match translate_schema(*bs, components, depth) {
                None => None,
                Some(j) => Some(JsonV::Obj(base + seq![("items"@, j)])),
            },
            SchemaRef::Reference(_) => Some(JsonV::Obj(base)),
        },
    }
}

/// The `additionalProperties` member: a boolean verbatim; a schema
/// translated; a reference resolved first and silently omitted when it
/// cannot be resolved.
pub open spec fn translate_additional(
    ap: Option<AdditionalProperties>,
    components: Option<Components>,
    depth: nat,
) -> Option<Seq<(Seq<char>, JsonV)>>
    decreases depth, ap, 3nat,
{
    match ap {
        None => Some(Seq::empty()),
        Some(AdditionalProperties::Any(b)) => Some(
            seq![("additionalProperties"@, JsonV::Bool(b))],
        ),
        Some(AdditionalProperties::Schema(bx)) => match *bx {
            SchemaRef::Item(bs) => match translate_schema(*bs, components, depth) {
                None => None,
                Some(j) => Some(seq![("additionalProperties"@, j)]),
            },
            SchemaRef::Reference(_) => {
                if depth == 0 {
                    None
                } else {
                    match spec_resolve_schema(*bx, components, schema_fuel(components)) {
                        None => Some(Seq::empty()),
                        Some(s) => match translate_schema(s, components, (depth - 1) as nat) {
                            None => None,
                            Some(j) => Some(seq![("additionalProperties"@, j)]),
                        },
                    }
                }
            },
        },
    }
}

pub open spec fn properties_member(props: Seq<(Seq<char>, JsonV)>) -> Seq<(Seq<char>, JsonV)> {
    if props.len() == 0 {
        Seq::empty()
    } else {
        seq![("properties"@, JsonV::Obj(props))]
    }
}

pub open spec fn translate_object(
    ot: ObjectType,
    components: Option<Components>,
    depth: nat,
) -> Option<JsonV>
    decreases depth, ot, 3nat,
{
    match translate_properties(ot.properties@, components, depth) {
        None => None,
        Some(props) => match translate_additional(ot.additional_properties, components, depth) {
            None => None,
            Some(ap) => Some(
                JsonV::Obj(
                    seq![("type"@, JsonV::Str("object"@))] + opt_u64_member(
                        "minProperties"@,
                        ot.min_properties,
                    ) + opt_u64_member("maxProperties"@, ot.max_properties) + ap
                        + properties_member(props) + str_arr_member("required"@, ot.required@),
                ),
            ),
        },
    }
}

/// The document for one schema node, with the full reference budget.
pub open spec fn spec_to_json_schema(s: Schema, components: Option<Components>) -> Option<JsonV> {
    translate_schema(s, components, schema_fuel(components))
}

/// The document for a schema-or-reference, with the full reference budget.
pub open spec fn spec_ref_to_json_schema(r: SchemaRef, components: Option<Components>) -> Option<
    JsonV,
> {
    translate_schema_ref(r, components, schema_fuel(components))
}

// ------------------------------------------------------------------
// Executable member builders
// ------------------------------------------------------------------
pub proof fn lemma_view_members_push(s: Seq<(String, Json)>, x: (String, Json))
    ensures
        view_members(s.push(x)) == view_members(s) + seq![(x.0@, x.1@)],
    decreases s,
{
    let p = s.push(x);
    if s.len() == 0 {
        assert(p.drop_first() =~= Seq::<(String, Json)>::empty());
        assert(view_members(p) == seq![(p[0].0@, p[0].1@)] + view_members(p.drop_first()));
        assert(view_members(p) =~= view_members(s) + seq![(x.0@, x.1@)]);
    } else {
        lemma_view_members_push(s.drop_first(), x);
        assert(p.drop_first() =~= s.drop_first().push(x));
        assert(view_members(p) == seq![(p[0].0@, p[0].1@)] + view_members(p.drop_first()));
        assert(view_members(s) == seq![(s[0].0@, s[0].1@)] + view_members(s.drop_first()));
        assert(p[0] == s[0]);
        assert(view_members(p) =~= view_members(s) + seq![(x.0@, x.1@)]);
    }
}

pub proof fn lemma_view_list_push(s: Seq<Json>, x: Json)
    ensures
        view_list(s.push(x)) == view_list(s) + seq![x@],
    decreases s,
{
    let p = s.push(x);
    if s.len() == 0 {
        assert(p.drop_first() =~= Seq::<Json>::empty());
        assert(view_list(p) == seq![p[0]@] + view_list(p.drop_first()));
        assert(view_list(p) =~= view_list(s) + seq![x@]);
    } else {
        lemma_view_list_push(s.drop_first(), x);
        assert(p.drop_first() =~= s.drop_first().push(x));
        assert(view_list(p) == seq![p[0]@] + view_list(p.drop_first()));
        assert(view_list(s) == seq![s[0]@] + view_list(s.drop_first()));
        assert(p[0] == s[0]);
        assert(view_list(p) =~= view_list(s) + seq![x@]);
    }
}

fn push_member(members: &mut Vec<(String, Json)>, key: &str, value: Json)
    ensures
        view_members(final(members)@) == view_members(old(members)@) + seq![(key@, value@)],
{
    let k = String::from_str(key);
    members.push((k, value));
    proof {
        lemma_view_members_push(old(members)@, (k, value));
    }
}

fn push_if_some_u64(members: &mut Vec<(String, Json)>, key: &str, v: &Option<u64>)
    ensures
        view_members(final(members)@) == view_members(old(members)@) + opt_u64_member(key@, *v),
{
    match v {
        Some(x) => {
            push_member(members, key, Json::UInt(*x));
        },
        None => {
            proof {
                assert(view_members(members@) =~= view_members(members@) + opt_u64_member(
                    key@,
                    *v,
                ));
            }
        },
    }
}

fn push_if_some_i64(members: &mut Vec<(String, Json)>, key: &str, v: &Option<i64>)
    ensures
        view_members(final(members)@) == view_members(old(members)@) + opt_i64_member(key@, *v),
{
    match v {
        Some(x) => {
            push_member(members, key, Json::Int(*x));
        },
        None => {
            proof {
                assert(view_members(members@) =~= view_members(members@) + opt_i64_member(
                    key@,
                    *v,
                ));
            }
        },
    }
}

fn push_if_some_str(members: &mut Vec<(String, Json)>, key: &str, v: &Option<String>)
    ensures
        view_members(final(members)@) == view_members(old(members)@) + opt_str_member(
            key@,
            *v,
        ),
{
    match v {
        Some(x) => {
            push_member(members, key, Json::Str(x.clone()));
        },
        None => {
            proof {
                assert(view_members(members@) =~= view_members(members@) + opt_str_member(
                    key@,
                    *v,
                ));
            }
        },
    }
}

fn push_if_true(members: &mut Vec<(String, Json)>, key: &str, b: bool)
    ensures
        view_members(final(members)@) == view_members(old(members)@) + flag_member(key@, b),
{
    if b {
        push_member(members, key, Json::Bool(true));
    } else {
        proof {
            assert(view_members(members@) =~= view_members(members@) + flag_member(key@, b));
        }
    }
}

fn string_values(vs: &Vec<String>) -> (r: Vec<Json>)
    ensures
        view_list(r@) == str_list(vs@),
{
    let mut out: Vec<Json> = Vec::new();
    let mut i: usize = 0;
    while i < vs.len()
        invariant
            i <= vs@.len(),
            view_list(out@) == str_list(vs@.take(i as int)),
        decreases vs@.len() - i,
    {
        let x = Json::Str(vs[i].clone());
        proof {
            lemma_view_list_push(out@, x);
        }
        out.push(x);
        proof {
            assert(str_list(vs@.take(i as int + 1)) =~= str_list(vs@.take(i as int)) + seq![
                JsonV::Str(vs@[i as int]@),
            ]);
        }
        i = i + 1;
    }
    proof {
        assert(vs@.take(i as int) =~= vs@);
    }
    out
}

fn i64_values(vs: &Vec<i64>) -> (r: Vec<Json>)
    ensures
        view_list(r@) == i64_list(vs@),
{
    let mut out: Vec<Json> = Vec::new();
    let mut i: usize = 0;
    while i < vs.len()
        invariant
            i <= vs@.len(),
            view_list(out@) == i64_list(vs@.take(i as int)),
        decreases vs@.len() - i,
    {
        let x = Json::Int(vs[i]);
        proof {
            lemma_view_list_push(out@, x);
        }
        out.push(x);
        proof {
            assert(i64_list(vs@.take(i as int + 1)) =~= i64_list(vs@.take(i as int)) + seq![
                JsonV::Int(vs@[i as int] as int),
            ]);
        }
        i = i + 1;
    }
    proof {
        assert(vs@.take(i as int) =~= vs@);
    }
    out
}

fn push_str_arr(members: &mut Vec<(String, Json)>, key: &str, vs: &Vec<String>)
    ensures
        view_members(final(members)@) == view_members(old(members)@) + str_arr_member(key@, vs@),
{
    if vs.len() > 0 {
        let items = string_values(vs);
        push_member(members, key, Json::Arr(items));
    } else {
        proof {
            assert(view_members(members@) =~= view_members(members@) + str_arr_member(key@, vs@));
        }
    }
}

fn push_i64_arr(members: &mut Vec<(String, Json)>, key: &str, vs: &Vec<i64>)
    ensures
        view_members(final(members)@) == view_members(old(members)@) + i64_arr_member(key@, vs@),
{
    if vs.len() > 0 {
        let items = i64_values(vs);
        push_member(members, key, Json::Arr(items));
    } else {
        proof {
            assert(view_members(members@) =~= view_members(members@) + i64_arr_member(key@, vs@));
        }
    }
}

fn push_format(members: &mut Vec<(String, Json)>, f: &Option<StringFormat>)
    ensures
        view_members(final(members)@) == view_members(old(members)@) + format_member(*f),
{
    match f {
        Some(ft) => {
            let name = match ft {
                StringFormat::DateTime => "date-time",
                StringFormat::Date => "date",
                StringFormat::Password => "password",
                StringFormat::Byte => "byte",
                StringFormat::Binary => "binary",
            };
            push_member(members, "format", Json::Str(String::from_str(name)));
        },
        None => {
            proof {
                assert(view_members(members@) =~= view_members(members@) + format_member(*f));
            }
        },
    }
}

// ------------------------------------------------------------------
// Executable translation
// ------------------------------------------------------------------
impl Schema {
    /// Builds the JSON Schema document for this node, resolving every
    /// reference through the component table. A reference that cannot be
    /// followed is a defect.
    pub fn to_json_schema(&self, components: &Option<Components>) -> (r: Result<Json, Failure>)
        ensures
            match r {
                Ok(j) => spec_to_json_schema(*self, *components) == Some(j@),
                Err(f) => spec_to_json_schema(*self, *components) is None && f == Failure::Defect,
            },
    {
        let depth: usize = match components {
            None => 0,
            Some(c) => c.schemas.len(),
        };
        translate_schema_exec(self, components, depth)
    }
}

impl SchemaRef {
    /// Builds the JSON Schema document for an inline or referenced node.
    pub fn to_json_schema(&self, components: &Option<Components>) -> (r: Result<Json, Failure>)
        ensures
            match r {
                Ok(j) => spec_ref_to_json_schema(*self, *components) == Some(j@),
                Err(f) => spec_ref_to_json_schema(*self, *components) is None && f
                    == Failure::Defect,
            },
    {
        let depth: usize = match components {
            None => 0,
            Some(c) => c.schemas.len(),
        };
        translate_schema_ref_exec(self, components, depth)
    }
}

fn translate_schema_exec(s: &Schema, components: &Option<Components>, depth: usize) -> (r: Result<
    Json,
    Failure,
>)
    ensures
        match r {
            Ok(j) => translate_schema(*s, *components, depth as nat) == Some(j@),
            Err(f) => translate_schema(*s, *components, depth as nat) is None && f
                == Failure::Defect,
        },
    decreases depth, *s, 2nat,
{
    match s {
        Schema::Boolean => {
            let mut members: Vec<(String, Json)> = Vec::new();
            push_member(&mut members, "type", Json::Str(String::from_str("boolean")));
            let j = Json::Obj(members);
            proof {
                assert(j@->Obj_0 =~= boolean_schema()->Obj_0);
            }
            Ok(j)
        },
        Schema::String(st) => {
            let mut members: Vec<(String, Json)> = Vec::new();
            push_member(&mut members, "type", Json::Str(String::from_str("string")));
            push_if_some_u64(&mut members, "minLength", &st.min_length);
            push_if_some_u64(&mut members, "maxLength", &st.max_length);
            push_str_arr(&mut members, "enum", &st.enumeration);
            push_if_some_str(&mut members, "pattern", &st.pattern);
            push_format(&mut members, &st.format);
            let j = Json::Obj(members);
            proof {
                assert(j@->Obj_0 =~= string_schema(*st)->Obj_0);
            }
            Ok(j)
        },
        Schema::Number(nt) => {
            let mut members: Vec<(String, Json)> = Vec::new();
            push_member(&mut members, "type", Json::Str(String::from_str("number")));
            push_if_some_i64(&mut members, "minimum", &nt.minimum);
            push_if_some_i64(&mut members, "maximum", &nt.maximum);
            push_if_true(&mut members, "exclusiveMinimum", nt.exclusive_minimum);
            push_if_true(&mut members, "exclusiveMaximum", nt.exclusive_maximum);
            push_if_some_i64(&mut members, "multipleOf", &nt.multiple_of);
            push_i64_arr(&mut members, "enum", &nt.enumeration);
            let j = Json::Obj(members);
            proof {
                assert(j@->Obj_0 =~= number_schema(*nt)->Obj_0);
            }
            Ok(j)
        },
        Schema::Integer(it) => {
            let mut members: Vec<(String, Json)> = Vec::new();
            push_member(&mut members, "type", Json::Str(String::from_str("integer")));
            push_if_some_i64(&mut members, "minimum", &it.minimum);
            push_if_some_i64(&mut members, "maximum", &it.maximum);
            push_if_true(&mut members, "exclusiveMinimum", it.exclusive_minimum);
            push_if_true(&mut members, "exclusiveMaximum", it.exclusive_maximum);
            push_if_some_i64(&mut members, "multipleOf", &it.multiple_of);
            push_i64_arr(&mut members, "enum", &it.enumeration);
            let j = Json::Obj(members);
            proof {
                assert(j@->Obj_0 =~= integer_schema(*it)->Obj_0);
            }
            Ok(j)
        },
        Schema::Array(at) => translate_array_exec(at, components, depth),
        Schema::Object(ot) => translate_object_exec(ot, components, depth),
        Schema::OneOf(l) => {
            proof {
                assert(decreases_to!(*s => s->OneOf_0));
                assert(decreases_to!(s->OneOf_0 => s->OneOf_0@));
                assert(l@.skip(0) =~= l@);
            }
            let items = translate_list_exec(l, 0, components, depth)?;
            let mut members: Vec<(String, Json)> = Vec::new();
            push_member(&mut members, "oneOf", Json::Arr(items));
            let j = Json::Obj(members);
            proof {
                assert(l@.skip(0) =~= l@);
                let spec_r = translate_schema(*s, *components, depth as nat);
                assert(j@->Obj_0 =~= spec_r->Some_0->Obj_0);
            }
            Ok(j)
        },
        Schema::AllOf(l) => {
            proof {
                assert(decreases_to!(*s => s->AllOf_0));
                assert(decreases_to!(s->AllOf_0 => s->AllOf_0@));
                assert(l@.skip(0) =~= l@);
            }
            let items = translate_list_exec(l, 0, components, depth)?;
            let mut members: Vec<(String, Json)> = Vec::new();
            push_member(&mut members, "allOf", Json::Arr(items));
            let j = Json::Obj(members);
            proof {
                assert(l@.skip(0) =~= l@);
                let spec_r = translate_schema(*s, *components, depth as nat);
                assert(j@->Obj_0 =~= spec_r->Some_0->Obj_0);
            }
            Ok(j)
        },
        Schema::AnyOf(l) => {
            proof {
                assert(decreases_to!(*s => s->AnyOf_0));
                assert(decreases_to!(s->AnyOf_0 => s->AnyOf_0@));
                assert(l@.skip(0) =~= l@);
            }
            let items = translate_list_exec(l, 0, components, depth)?;
            let mut members: Vec<(String, Json)> = Vec::new();
            push_member(&mut members, "anyOf", Json::Arr(items));
            let j = Json::Obj(members);
            proof {
                assert(l@.skip(0) =~= l@);
                let spec_r = translate_schema(*s, *components, depth as nat);
                assert(j@->Obj_0 =~= spec_r->Some_0->Obj_0);
            }
            Ok(j)
        },
        Schema::Not(r) => {
            let inner = translate_schema_ref_exec(r, components, depth)?;
            let mut members: Vec<(String, Json)> = Vec::new();
            push_member(&mut members, "not", inner);
            let j = Json::Obj(members);
            proof {
                let spec_r = translate_schema(*s, *components, depth as nat);
                assert(j@->Obj_0 =~= spec_r->Some_0->Obj_0);
            }
            Ok(j)
        },
    }
}

fn translate_schema_ref_exec(r: &SchemaRef, components: &Option<Components>, depth: usize) -> (res:
    Result<Json, Failure>)
    ensures
        match res {
            Ok(j) => translate_schema_ref(*r, *components, depth as nat) == Some(j@),
            Err(f) => translate_schema_ref(*r, *components, depth as nat) is None && f
                == Failure::Defect,
        },
    decreases depth, *r, 3nat,
{
    match r {
        SchemaRef::Item(b) => translate_schema_exec(b, components, depth),
        SchemaRef::Reference(_) => {
            if depth == 0 {
                return Err(Failure::Defect);
            }
            match resolve_schema(r, components) {
                Err(f) => Err(f),
                Ok(s) => translate_schema_exec(s, components, depth - 1),
            }
        },
    }
}

fn translate_list_exec(
    l: &Vec<SchemaRef>,
    i: usize,
    components: &Option<Components>,
    depth: usize,
) -> (res: Result<Vec<Json>, Failure>)
    requires
        i <= l@.len(),
    ensures
        match res {
            Ok(out) => translate_schema_list(l@.skip(i as int), *components, depth as nat) == Some(
                view_list(out@),
            ),
            Err(f) => translate_schema_list(l@.skip(i as int), *components, depth as nat) is None
                && f == Failure::Defect,
        },
    decreases depth, l@, 4nat, l@.len() - i,
{
    if i == l.len() {
        proof {
            assert(l@.skip(i as int) =~= Seq::<SchemaRef>::empty());
        }
        Ok(Vec::new())
    } else {
        proof {
            assert(decreases_to!(l@ => l@[i as int]));
            assert(l@.skip(i as int)[0] == l@[i as int]);
            assert(l@.skip(i as int).drop_first() =~= l@.skip(i as int + 1));
        }
        let first = translate_schema_ref_exec(&l[i], components, depth)?;
        let rest = translate_list_exec(l, i + 1, components, depth)?;
        let ghost rest_view = rest@;
        let mut out = rest;
        out.insert(0, first);
        proof {
            assert(out@[0] == first);
            assert(out@.drop_first() =~= rest_view);
            assert(view_list(out@) == seq![out@[0]@] + view_list(out@.drop_first()));
            assert(view_list(out@) =~= seq![first@] + view_list(rest_view));
        }
        Ok(out)
    }
}

fn translate_properties_exec(
    ps: &Vec<(String, SchemaRef)>,
    i: usize,
    components: &Option<Components>,
    depth: usize,
) -> (res: Result<Vec<(String, Json)>, Failure>)
    requires
        i <= ps@.len(),
    ensures
        match res {
            Ok(out) => translate_properties(ps@.skip(i as int), *components, depth as nat) == Some(
                view_members(out@),
            ),
            Err(f) => translate_properties(ps@.skip(i as int), *components, depth as nat) is None
                && f == Failure::Defect,
        },
    decreases depth, ps@, 4nat, ps@.len() - i,
{
    if i == ps.len() {
        proof {
            assert(ps@.skip(i as int) =~= Seq::<(String, SchemaRef)>::empty());
        }
        Ok(Vec::new())
    } else {
        proof {
            assert(decreases_to!(ps@ => ps@[i as int]));
            assert(decreases_to!(ps@[i as int] => ps@[i as int].1));
            assert(ps@.skip(i as int)[0] == ps@[i as int]);
            assert(ps@.skip(i as int).drop_first() =~= ps@.skip(i as int + 1));
        }
        let first = translate_schema_ref_exec(&ps[i].1, components, depth)?;
        let name = ps[i].0.clone();
        let rest = translate_properties_exec(ps, i + 1, components, depth)?;
        let ghost rest_view = rest@;
        let mut out = rest;
        out.insert(0, (name, first));
        proof {
            assert(out@[0] == (name, first));
            assert(out@.drop_first() =~= rest_view);
            assert(view_members(out@) == seq![(out@[0].0@, out@[0].1@)] + view_members(
                out@.drop_first(),
            ));
            assert(view_members(out@) =~= seq![(name@, first@)] + view_members(rest_view));
        }
        Ok(out)
    }
}

fn translate_array_exec(at: &ArrayType, components: &Option<Components>, depth: usize) -> (res:
    Result<Json, Failure>)
    ensures
        match res {
            Ok(j) => translate_array(*at, *components, depth as nat) == Some(j@),
            Err(f) => translate_array(*at, *components, depth as nat) is None && f
                == Failure::Defect,
        },
    decreases depth, *at, 3nat,
{
    let mut members: Vec<(String, Json)> = Vec::new();
    push_member(&mut members, "type", Json::Str(String::from_str("array")));
    push_if_some_u64(&mut members, "minItems", &at.min_items);
    push_if_some_u64(&mut members, "maxItems", &at.max_items);
    push_if_true(&mut members, "uniqueItems", at.unique_items);
    match &at.items {
        None => {
            let j = Json::Obj(members);
            proof {
                let spec_r = translate_array(*at, *components, depth as nat);
                assert(j@->Obj_0 =~= spec_r->Some_0->Obj_0);
            }
            Ok(j)
        },
        Some(b) => {
            match &**b {
                SchemaRef::Item(bs) => {
                    proof {
                        assert(decreases_to!(*at => at.items));
                    }
                    let inner = translate_schema_exec(bs, components, depth)?;
                    push_member(&mut members, "items", inner);
                    let j = Json::Obj(members);
                    proof {
                        let spec_r = translate_array(*at, *components, depth as nat);
                        assert(j@->Obj_0 =~= spec_r->Some_0->Obj_0);
                    }
                    Ok(j)
                },
                SchemaRef::Reference(_) => {
                    let j = Json::Obj(members);
                    proof {
                        let spec_r = translate_array(*at, *components, depth as nat);
                        assert(j@->Obj_0 =~= spec_r->Some_0->Obj_0);
                    }
                    Ok(j)
                },
            }
        },
    }
}

fn additional_member_exec(
    ap: &Option<AdditionalProperties>,
    components: &Option<Components>,
    depth: usize,
) -> (res: Result<Option<Json>, Failure>)
    ensures
        match res {
            Ok(Some(j)) => translate_additional(*ap, *components, depth as nat) == Some(
                seq![("additionalProperties"@, j@)],
            ),
            Ok(None) => translate_additional(*ap, *components, depth as nat) == Some(
                Seq::<(Seq<char>, JsonV)>::empty(),
            ),
            Err(f) => translate_additional(*ap, *components, depth as nat) is None && f
                == Failure::Defect,
        },
    decreases depth, *ap, 3nat,
{
    match ap {
        None => Ok(None),
        Some(AdditionalProperties::Any(b)) => Ok(Some(Json::Bool(*b))),
        Some(AdditionalProperties::Schema(bx)) => {
            match &**bx {
                SchemaRef::Item(bs) => {
                    let inner = translate_schema_exec(bs, components, depth)?;
                    Ok(Some(inner))
                },
                SchemaRef::Reference(_) => {
                    if depth == 0 {
                        return Err(Failure::Defect);
                    }
                    match resolve_schema(bx, components) {
                        Err(_) => Ok(None),
                        Ok(resolved) => {
                            let inner = translate_schema_exec(resolved, components, depth - 1)?;
                            Ok(Some(inner))
                        },
                    }
                },
            }
        },
    }
}

fn translate_object_exec(ot: &ObjectType, components: &Option<Components>, depth: usize) -> (res:
    Result<Json, Failure>)
    ensures
        match res {
            Ok(j) => translate_object(*ot, *components, depth as nat) == Some(j@),
            Err(f) => translate_object(*ot, *components, depth as nat) is None && f
                == Failure::Defect,
        },
    decreases depth, *ot, 3nat,
{
    proof {
        assert(decreases_to!(*ot => ot.properties));
        assert(decreases_to!(ot.properties => ot.properties@));
        assert(ot.properties@.skip(0) =~= ot.properties@);
        assert(decreases_to!(*ot => ot.additional_properties));
    }
    let props = translate_properties_exec(&ot.properties, 0, components, depth)?;
    proof {
        lemma_view_members(props@);
    }
    let ap = additional_member_exec(&ot.additional_properties, components, depth)?;
    let mut members: Vec<(String, Json)> = Vec::new();
    push_member(&mut members, "type", Json::Str(String::from_str("object")));
    push_if_some_u64(&mut members, "minProperties", &ot.min_properties);
    push_if_some_u64(&mut members, "maxProperties", &ot.max_properties);
    match ap {
        Some(jv) => {
            push_member(&mut members, "additionalProperties", jv);
        },
        None => {},
    }
    if props.len() > 0 {
        push_member(&mut members, "properties", Json::Obj(props));
    }
    push_str_arr(&mut members, "required", &ot.required);
    let j = Json::Obj(members);
    proof {
        let spec_r = translate_object(*ot, *components, depth as nat);
        assert(spec_r is Some);
        assert(j@->Obj_0 =~= spec_r->Some_0->Obj_0);
    }
    Ok(j)
}

// ------------------------------------------------------------------
// The reference budget only decides whether a document is produced,
// never which one: a translation that succeeds within some budget gives
// the same document under any larger budget.
// ------------------------------------------------------------------
pub proof fn lemma_translate_schema_monotone(
    s: Schema,
    components: Option<Components>,
    d1: nat,
    d2: nat,
)
    requires
        d1 <= d2,
        translate_schema(s, components, d1) is Some,
    ensures
        translate_schema(s, components, d2) == translate_schema(s, components, d1),
    decreases d1, s, 2nat,
{
    match s {
        Schema::Array(at) => lemma_translate_array_monotone(at, components, d1, d2),
        Schema::Object(ot) => lemma_translate_object_monotone(ot, components, d1, d2),
        Schema::OneOf(l) => lemma_translate_list_monotone(l@, components, d1, d2),
        Schema::AllOf(l) => lemma_translate_list_monotone(l@, components, d1, d2),
        Schema::AnyOf(l) => lemma_translate_list_monotone(l@, components, d1, d2),
        Schema::Not(r) => lemma_translate_ref_monotone(*r, components, d1, d2),
        _ => {},
    }
}

proof fn lemma_translate_ref_monotone(
    r: SchemaRef,
    components: Option<Components>,
    d1: nat,
    d2: nat,
)
    requires
        d1 <= d2,
        translate_schema_ref(r, components, d1) is Some,
    ensures
        translate_schema_ref(r, components, d2) == translate_schema_ref(r, components, d1),
    decreases d1, r, 3nat,
{
    match r {
        SchemaRef::Item(b) => lemma_translate_schema_monotone(*b, components, d1, d2),
        SchemaRef::Reference(_) => {
            match spec_resolve_schema(r, components, schema_fuel(components)) {
                Some(s) => lemma_translate_schema_monotone(
                    s,
                    components,
                    (d1 - 1) as nat,
                    (d2 - 1) as nat,
                ),
                None => {},
            }
        },
    }
}

proof fn lemma_translate_list_monotone(
    l: Seq<SchemaRef>,
    components: Option<Components>,
    d1: nat,
    d2: nat,
)
    requires
        d1 <= d2,
        translate_schema_list(l, components, d1) is Some,
    ensures
        translate_schema_list(l, components, d2) == translate_schema_list(l, components, d1),
    decreases d1, l, 4nat,
{
    if l.len() != 0 {
        lemma_translate_ref_monotone(l[0], components, d1, d2);
        lemma_translate_list_monotone(l.drop_first(), components, d1, d2);
    }
}

proof fn lemma_translate_properties_monotone(
    ps: Seq<(String, SchemaRef)>,
    components: Option<Components>,
    d1: nat,
    d2: nat,
)
    requires
        d1 <= d2,
        translate_properties(ps, components, d1) is Some,
    ensures
        translate_properties(ps, components, d2) == translate_properties(ps, components, d1),
    decreases d1, ps, 4nat,
{
    if ps.len() != 0 {
        lemma_translate_ref_monotone(ps[0].1, components, d1, d2);
        lemma_translate_properties_monotone(ps.drop_first(), components, d1, d2);
    }
}

proof fn lemma_translate_array_monotone(
    at: ArrayType,
    components: Option<Components>,
    d1: nat,
    d2: nat,
)
    requires
        d1 <= d2,
        translate_array(at, components, d1) is Some,
    ensures
        translate_array(at, components, d2) == translate_array(at, components, d1),
    decreases d1, at, 3nat,
{
    match at.items {
        Some(b) => match *b {
            SchemaRef::Item(bs) => lemma_translate_schema_monotone(*bs, components, d1, d2),
            SchemaRef::Reference(_) => {},
        },
        None => {},
    }
}

proof fn lemma_translate_additional_monotone(
    ap: Option<AdditionalProperties>,
    components: Option<Components>,
    d1: nat,
    d2: nat,
)
    requires
        d1 <= d2,
        translate_additional(ap, components, d1) is Some,
    ensures
        translate_additional(ap, components, d2) == translate_additional(ap, components, d1),
    decreases d1, ap, 3nat,
{
    match ap {
        Some(AdditionalProperties::Schema(bx)) => {
            match *bx {
                SchemaRef::Item(bs) => lemma_translate_schema_monotone(*bs, components, d1, d2),
                SchemaRef::Reference(_) => {
                    match spec_resolve_schema(*bx, components, schema_fuel(components)) {
                        Some(s) => lemma_translate_schema_monotone(
                            s,
                            components,
                            (d1 - 1) as nat,
                            (d2 - 1) as nat,
                        ),
                        None => {},
                    }
                },
            }
        },
        _ => {},
    }
}

proof fn lemma_translate_object_monotone(
    ot: ObjectType,
    components: Option<Components>,
    d1: nat,
    d2: nat,
)
    requires
        d1 <= d2,
        translate_object(ot, components, d1) is Some,
    ensures
        translate_object(ot, components, d2) == translate_object(ot, components, d1),
    decreases d1, ot, 3nat,
{
    lemma_translate_properties_monotone(ot.properties@, components, d1, d2);
    lemma_translate_additional_monotone(ot.additional_properties, components, d1, d2);
}

} // verus!
