//! Parameter validation: every parameter the operation declares is checked
//! against the request. A header parameter reads the header of its name, a
//! query parameter the first query pair of its name, a path parameter the
//! binding its template variable produced. A missing value passes only when
//! the parameter is optional; a present value must parse as a JSON literal
//! and conform to the parameter's schema.
use crate::body::spec_schema_check;
use crate::item_or_fetch::parameter_fuel;
use crate::item_or_fetch::resolve_parameter;
use crate::item_or_fetch::spec_resolve_parameter;
use crate::jsonschema::evaluate_schema;
use crate::model::assoc;
use crate::model::assoc_get;
use crate::model::Components;
use crate::model::Failure;
use crate::model::Operation;
use crate::model::Parameter;
use crate::model::ParameterLocation;
use crate::model::ParameterRef;
use crate::paths::assoc_views;
use crate::paths::lemma_assoc_pair_views;
use crate::paths::pair_views;
use crate::request::Request;
use crate::to_jsonschema::spec_ref_to_json_schema;
use vstd::prelude::*;
use vstd::string::StringSliceAdditionalSpecFns;

verus! {

/// The candidate raw value for one parameter: a header value, the first
/// query pair under its name, or the path binding of its name.
pub open spec fn spec_param_value(
    p: Parameter,
    headers: Seq<(String, String)>,
    query: Seq<(Seq<char>, Seq<char>)>,
    bindings: Seq<(Seq<char>, Seq<char>)>,
) -> Option<Seq<char>> {
    match p.location {
        ParameterLocation::Header => crate::model::header_of(headers, p.name@),
        ParameterLocation::Query => assoc_views(query, p.name@),
        ParameterLocation::Path => assoc_views(bindings, p.name@),
    }
}

/// What validating one parameter against its candidate value returns: a
/// missing value passes exactly when the parameter is optional; a present
/// value must conform, as a JSON literal, to the parameter's schema.
pub open spec fn spec_validate_parameter(
    p: Parameter,
    components: Option<Components>,
    value: Option<Seq<char>>,
) -> Result<(), Failure> {
    match value {
        None => if p.required {
            Err(Failure::Rejection)
        } else {
            Ok(())
        },
        Some(v) => spec_schema_check(
            spec_ref_to_json_schema(p.schema, components),
            vstd::utf8::encode_utf8(v),
        ),
    }
}

/// What validating all declared parameters returns: the first failure, or
/// acceptance when every parameter passes.
pub open spec fn spec_validate_parameters(
    params: Seq<ParameterRef>,
    components: Option<Components>,
    headers: Seq<(String, String)>,
    query: Seq<(Seq<char>, Seq<char>)>,
    bindings: Seq<(Seq<char>, Seq<char>)>,
) -> Result<(), Failure>
    decreases params,
{
    if params.len() == 0 {
        Ok(())
    } else {
        match spec_resolve_parameter(params[0], components, parameter_fuel(components)) {
            None => Err(Failure::Defect),
            Some(p) => match spec_validate_parameter(
                p,
                components,
                spec_param_value(p, headers, query, bindings),
            ) {
                Err(f) => Err(f),
                Ok(_) => spec_validate_parameters(
                    params.drop_first(),
                    components,
                    headers,
                    query,
                    bindings,
                ),
            },
        }
    }
}

impl Parameter {
    /// Checks this parameter against the request.
    fn validate(
        &self,
        components: &Option<Components>,
        request: &Request,
        query: &Vec<(String, String)>,
        bindings: &Vec<(String, String)>,
    ) -> (r: Result<(), Failure>)
        ensures
            r == spec_validate_parameter(
                *self,
                *components,
                spec_param_value(
                    *self,
                    request.headers@,
                    pair_views(query@),
                    pair_views(bindings@),
                ),
            ),
    {
        let value: Option<String> = match self.location {
            ParameterLocation::Header => request.get_header(self.name.as_str()),
            ParameterLocation::Query => {
                proof {
                    lemma_assoc_pair_views(query@, self.name@);
                }
                match assoc_get(query, self.name.as_str()) {
                    Some(v) => Some(v.clone()),
                    None => None,
                }
            },
            ParameterLocation::Path => {
                proof {
                    lemma_assoc_pair_views(bindings@, self.name@);
                }
                match assoc_get(bindings, self.name.as_str()) {
                    Some(v) => Some(v.clone()),
                    None => None,
                }
            },
        };
        match value {
            None => {
                if self.required {
                    Err(Failure::Rejection)
                } else {
                    Ok(())
                }
            },
            Some(v) => {
                let doc = match self.schema.to_json_schema(components) {
                    Ok(doc) => doc,
                    Err(f) => {
                        return Err(f);
                    },
                };
                let text = doc.to_text();
                match evaluate_schema(text.as_str(), v.as_str().as_bytes()) {
                    Err(f) => Err(f),
                    Ok(true) => Ok(()),
                    Ok(false) => Err(Failure::Rejection),
                }
            },
        }
    }
}

fn validate_params_from(
    params: &Vec<ParameterRef>,
    i: usize,
    components: &Option<Components>,
    request: &Request,
    query: &Vec<(String, String)>,
    bindings: &Vec<(String, String)>,
) -> (r: Result<(), Failure>)
    requires
        i <= params@.len(),
    ensures
        r == spec_validate_parameters(
            params@.skip(i as int),
            *components,
            request.headers@,
            pair_views(query@),
            pair_views(bindings@),
        ),
    decreases params@.len() - i,
{
    if i == params.len() {
        proof {
            assert(params@.skip(i as int) =~= Seq::<ParameterRef>::empty());
        }
        Ok(())
    } else {
        proof {
            assert(params@.skip(i as int)[0] == params@[i as int]);
            assert(params@.skip(i as int).drop_first() =~= params@.skip(i as int + 1));
        }
        let p = match resolve_parameter(&params[i], components) {
            Ok(p) => p,
            Err(f) => {
                return Err(f);
            },
        };
        match p.validate(components, request, query, bindings) {
            Ok(_) => validate_params_from(params, i + 1, components, request, query, bindings),
            Err(f) => Err(f),
        }
    }
}

/// Validates every parameter one operation declares.
pub struct ParametersValidator<'api> {
    pub operation_spec: &'api Operation,
    pub components: &'api Option<Components>,
    pub path_parameters: Vec<(String, String)>,
}

impl<'api> ParametersValidator<'api> {
    /// Checks all declared parameters against the request, its query pairs,
    /// and the path-variable bindings; fails on the first parameter that
    /// does not pass.
    pub fn validate_parameters(&self, request: &Request, query: &Vec<(String, String)>) -> (r:
        Result<(), Failure>)
        ensures
            r == spec_validate_parameters(
                self.operation_spec.parameters@,
                *self.components,
                request.headers@,
                pair_views(query@),
                pair_views(self.path_parameters@),
            ),
    {
        proof {
            assert(self.operation_spec.parameters@.skip(0) =~= self.operation_spec.parameters@);
        }
        validate_params_from(
            &self.operation_spec.parameters,
            0,
            self.components,
            request,
            query,
            &self.path_parameters,
        )
    }
}

} // verus!
