//! Body validation. Content negotiation hands over one of four modes; the
//! body bytes are then checked as that mode says: not at all, for emptiness,
//! as UTF-8 text, or as JSON, optionally against the declared schema. In
//! every mode that a declared body specification reaches, an empty body with
//! `required: true` is rejected before any content-specific parsing.
use crate::item_or_fetch::spec_resolve_schema;
use crate::item_or_fetch::schema_fuel;
use crate::json::text_of;
use crate::jsonschema::evaluate_schema;
use crate::jsonschema::json_parses;
use crate::jsonschema::json_syntax_ok;
use crate::jsonschema::schema_accepts;
use crate::jsonschema::schema_compiles;
use crate::model::assoc;
use crate::model::assoc_get;
use crate::model::Components;
use crate::model::Failure;
use crate::model::RequestBody;
use crate::model::Schema;
use crate::model::SchemaRef;
use crate::to_jsonschema::spec_ref_to_json_schema;
use crate::to_jsonschema::spec_to_json_schema;
use crate::json::JsonV;
use vstd::prelude::*;

verus! {

/// The outcome of checking a JSON instance against an optionally translated
/// schema document: no document is a defect, a document the evaluator cannot
/// compile is a defect, and otherwise the instance must parse and conform.
pub open spec fn spec_schema_check(doc: Option<JsonV>, instance: Seq<u8>) -> Result<(), Failure> {
    match doc {
        None => Err(Failure::Defect),
        Some(d) => {
            if !schema_compiles(text_of(d)) {
                Err(Failure::Defect)
            } else if json_parses(instance) && schema_accepts(text_of(d), instance) {
                Ok(())
            } else {
                Err(Failure::Rejection)
            }
        },
    }
}

/// The mathematical value of a negotiated body mode.
pub enum BodyMode {
    NoSpec,
    EmptyContentType(RequestBody),
    Json(RequestBody, Option<Components>),
    PlainUtf8(RequestBody),
}

/// The body specification a mode carries, if any.
pub open spec fn body_spec_of(m: BodyMode) -> Option<RequestBody> {
    match m {
        BodyMode::NoSpec => None,
        BodyMode::EmptyContentType(bs) => Some(bs),
        BodyMode::Json(bs, _) => Some(bs),
        BodyMode::PlainUtf8(bs) => Some(bs),
    }
}

/// What validating JSON body bytes returns: when a schema is declared for
/// `application/json`, the bytes must conform to it; otherwise any
/// syntactically valid JSON is accepted.
pub open spec fn spec_validate_json(
    bs: RequestBody,
    components: Option<Components>,
    body: Seq<u8>,
) -> Result<(), Failure> {
    match assoc(bs.content@, "application/json"@) {
        Some(mt) => match mt.schema {
            Some(r) => spec_schema_check(spec_ref_to_json_schema(r, components), body),
            None => if json_parses(body) {
                Ok(())
            } else {
                Err(Failure::Rejection)
            },
        },
        None => if json_parses(body) {
            Ok(())
        } else {
            Err(Failure::Rejection)
        },
    }
}

/// What validating the body bytes returns in each mode.
pub open spec fn spec_validate_body(m: BodyMode, body: Seq<u8>) -> Result<(), Failure> {
    match m {
        BodyMode::NoSpec => Ok(()),
        BodyMode::EmptyContentType(bs) => {
            if !bs.required && body.len() == 0 {
                Ok(())
            } else {
                Err(Failure::Rejection)
            }
        },
        BodyMode::PlainUtf8(bs) => {
            if bs.required && body.len() == 0 {
                Err(Failure::Rejection)
            } else if vstd::utf8::valid_utf8(body) {
                Ok(())
            } else {
                Err(Failure::Rejection)
            }
        },
        BodyMode::Json(bs, components) => {
            if bs.required && body.len() == 0 {
                Err(Failure::Rejection)
            } else {
                spec_validate_json(bs, components, body)
            }
        },
    }
}

/// Relies on std::str::from_utf8: returns Ok exactly when the bytes are a
/// valid UTF-8 encoding; the result depends on the bytes alone.
#[verifier::external_body]
fn utf8_ok(bytes: &[u8]) -> (r: bool)
    ensures
        r == vstd::utf8::valid_utf8(bytes@),
{
    std::str::from_utf8(bytes).is_ok()
}

/// The negotiated way to validate the request body.
pub enum BodyValidator<'api> {
    NoSpecification,
    EmptyContentType { body_spec: &'api RequestBody },
    JSONBody { body_spec: &'api RequestBody, components: &'api Option<Components> },
    PlainUTF8Body { body_spec: &'api RequestBody },
}

/// The mode a validator value stands for.
pub open spec fn mode_view(v: BodyValidator) -> BodyMode {
    match v {
        BodyValidator::NoSpecification => BodyMode::NoSpec,
        BodyValidator::EmptyContentType { body_spec } => BodyMode::EmptyContentType(*body_spec),
        BodyValidator::JSONBody { body_spec, components } => BodyMode::Json(
            *body_spec,
            *components,
        ),
        BodyValidator::PlainUTF8Body { body_spec } => BodyMode::PlainUtf8(*body_spec),
    }
}

impl<'api> BodyValidator<'api> {
    /// Validates the raw body bytes as the negotiated mode says.
    pub fn validate_body(self, body: &[u8]) -> (r: Result<(), Failure>)
        ensures
            r == spec_validate_body(mode_view(self), body@),
    {
        match self {
            BodyValidator::NoSpecification => Ok(()),
            BodyValidator::EmptyContentType { body_spec } => {
                if !body_spec.required && body.len() == 0 {
                    Ok(())
                } else {
                    Err(Failure::Rejection)
                }
            },
            BodyValidator::PlainUTF8Body { body_spec } => {
                if body_spec.required && body.len() == 0 {
                    Err(Failure::Rejection)
                } else if utf8_ok(body) {
                    Ok(())
                } else {
                    Err(Failure::Rejection)
                }
            },
            BodyValidator::JSONBody { body_spec, components } => {
                if body_spec.required && body.len() == 0 {
                    Err(Failure::Rejection)
                } else {
                    Self::validate_json(body_spec, body, components)
                }
            },
        }
    }

    fn validate_json(
        body_spec: &RequestBody,
        body: &[u8],
        components: &Option<Components>,
    ) -> (r: Result<(), Failure>)
        ensures
            r == spec_validate_json(*body_spec, *components, body@),
    {
        match assoc_get(&body_spec.content, "application/json") {
            Some(mt) => match &mt.schema {
                Some(schema_ref) => {
                    let doc = match schema_ref.to_json_schema(components) {
                        Ok(doc) => doc,
                        Err(f) => {
                            return Err(f);
                        },
                    };
                    let text = doc.to_text();
                    match evaluate_schema(text.as_str(), body) {
                        Err(f) => Err(f),
                        Ok(true) => Ok(()),
                        Ok(false) => Err(Failure::Rejection),
                    }
                },
                None => {
                    if json_syntax_ok(body) {
                        Ok(())
                    } else {
                        Err(Failure::Rejection)
                    }
                },
            },
            None => {
                if json_syntax_ok(body) {
                    Ok(())
                } else {
                    Err(Failure::Rejection)
                }
            },
        }
    }
}

/// Required-body law: in every mode that carries a body specification with
/// `required: true`, an empty body is rejected.
pub proof fn lemma_required_body_rejects_empty(m: BodyMode, body: Seq<u8>)
    requires
        body.len() == 0,
        match body_spec_of(m) {
            Some(bs) => bs.required,
            None => false,
        },
    ensures
        spec_validate_body(m, body) == Err::<(), Failure>(Failure::Rejection),
{
}

/// Reference transparency: translating a schema through a reference that
/// resolves to `s` yields the same document as translating `s` inline, and
/// a body is therefore accepted against the one exactly when it is accepted
/// against the other. The premise asks only that the referenced translation
/// succeeds, which holds of every well-formed specification.
pub proof fn lemma_reference_transparency(
    name: String,
    components: Option<Components>,
    s: Schema,
    body: Seq<u8>,
)
    requires
        spec_resolve_schema(SchemaRef::Reference(name), components, schema_fuel(components))
            == Some(s),
        spec_ref_to_json_schema(SchemaRef::Reference(name), components) is Some,
    ensures
        spec_ref_to_json_schema(SchemaRef::Reference(name), components) == spec_to_json_schema(
            s,
            components,
        ),
        spec_schema_check(
            spec_ref_to_json_schema(SchemaRef::Reference(name), components),
            body,
        ) == spec_schema_check(spec_to_json_schema(s, components), body),
{
    crate::to_jsonschema::lemma_translate_schema_monotone(
        s,
        components,
        (schema_fuel(components) - 1) as nat,
        schema_fuel(components),
    );
}

} // verus!
