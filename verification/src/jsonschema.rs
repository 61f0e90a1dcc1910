//! The outside schema-evaluation collaborator: a translated schema document
//! is rendered to text, compiled by the `jsonschema` crate, and evaluated
//! against a JSON instance. What the collaborator answers is named by
//! uninterpreted functions of the texts alone, and everything the engine
//! proves about body and parameter validation is stated over those names.
use crate::json::text_of;
use crate::json::Json;
use crate::model::Failure;
use vstd::prelude::*;
use vstd::string::StringSliceAdditionalSpecFns;

verus! {

/// Whether the bytes form a syntactically valid JSON document, as
/// serde_json parses it.
pub uninterp spec fn json_parses(bytes: Seq<u8>) -> bool;

/// Whether the text parses as JSON and compiles as a JSON Schema document,
/// as serde_json parses it and the jsonschema crate compiles it.
pub uninterp spec fn schema_compiles(schema_text: Seq<char>) -> bool;

/// Whether the JSON instance conforms to the compiled schema, as the
/// jsonschema crate evaluates it.
pub uninterp spec fn schema_accepts(schema_text: Seq<char>, instance: Seq<u8>) -> bool;

/// Relies on serde_json::from_slice::<serde_json::Value>: returns Ok exactly
/// when the bytes are a syntactically valid JSON document; the result
/// depends on the bytes alone.
#[verifier::external_body]
pub fn json_syntax_ok(bytes: &[u8]) -> (r: bool)
    ensures
        r == json_parses(bytes@),
{
    serde_json::from_slice::<serde_json::Value>(bytes).is_ok()
}

/// Relies on serde_json::from_slice (parsing the schema text and the
/// instance bytes; Ok exactly when the input is valid JSON), on
/// jsonschema::validator_for (compiling the parsed schema document; Err
/// exactly when the document is not a valid JSON Schema, which together
/// with the parse step is what `schema_compiles` names) and on
/// jsonschema::Validator::is_valid (true exactly when the instance conforms
/// to the schema). All three are functions of their text arguments alone.
#[verifier::external_body]
pub fn evaluate_schema(schema_text: &str, instance: &[u8]) -> (r: Result<bool, Failure>)
    ensures
        r is Ok <==> schema_compiles(schema_text@),
        r matches Ok(b) ==> b == (json_parses(instance@) && schema_accepts(
            schema_text@,
            instance@,
        )),
        r matches Err(f) ==> f == Failure::Defect,
{
    let schema_value = match serde_json::from_slice::<serde_json::Value>(schema_text.as_bytes()) {
        Ok(v) => v,
        Err(_) => return Err(Failure::Defect),
    };
    let compiled = match jsonschema::validator_for(&schema_value) {
        Ok(c) => c,
        Err(_) => return Err(Failure::Defect),
    };
    let parsed = match serde_json::from_slice::<serde_json::Value>(instance) {
        Ok(v) => v,
        Err(_) => return Ok(false),
    };
    Ok(compiled.is_valid(&parsed))
}

/// A compiled-and-evaluated check of a JSON text against a schema document.
pub trait JSONSchemaValidator {
    /// What validating `input` against this document returns.
    spec fn validates_spec(&self, input: Seq<u8>) -> Result<(), Failure>;

    /// Checks the JSON text `input` against this schema document.
    fn validates(&self, input: &str) -> (r: Result<(), Failure>)
        ensures
            r == self.validates_spec(input.spec_bytes()),
    ;
}

impl JSONSchemaValidator for Json {
    open spec fn validates_spec(&self, input: Seq<u8>) -> Result<(), Failure> {
        if !schema_compiles(text_of(self@)) {
            Err(Failure::Defect)
        } else if json_parses(input) && schema_accepts(text_of(self@), input) {
            Ok(())
        } else {
            Err(Failure::Rejection)
        }
    }

    fn validates(&self, input: &str) -> (r: Result<(), Failure>) {
        let text = self.to_text();
        match evaluate_schema(text.as_str(), input.as_bytes()) {
            Err(f) => Err(f),
            Ok(true) => Ok(()),
            Ok(false) => Err(Failure::Rejection),
        }
    }
}

} // verus!
