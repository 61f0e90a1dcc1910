//! Operation selection and the per-operation stages: the request's method
//! token, lower-cased, picks one of the four recognized operations of the
//! matched path item; its parameters, content type and body are then
//! validated in order, and a handle for validating the eventual response
//! comes back.
use crate::body::spec_validate_body;
use crate::content_type::opt_view;
use crate::content_type::spec_negotiate;
use crate::content_type::ContentTypeValidator;
use crate::model::header_of;
use crate::model::Components;
use crate::model::Failure;
use crate::model::Operation;
use crate::model::PathItem;
use crate::parameters::spec_validate_parameters;
use crate::parameters::ParametersValidator;
use crate::paths::pair_views;
use crate::request::Request;
use crate::response::ResponseValidator;
use crate::text::ascii_lower;
use crate::text::str_eq;
use crate::text::to_ascii_lower;
use vstd::prelude::*;

verus! {

/// The operation the method token selects: the token is lower-cased and
/// must be one of get, put, post, delete, and the path item must declare
/// that operation.
pub open spec fn spec_select_operation(item: PathItem, method: Seq<char>) -> Option<Operation> {
    let m = ascii_lower(method);
    if m == "get"@ {
        item.get
    } else if m == "put"@ {
        item.put
    } else if m == "delete"@ {
        item.delete
    } else if m == "post"@ {
        item.post
    } else {
        None
    }
}

/// What validating the matched path item against the request returns:
/// operation selection, parameter validation, content negotiation and body
/// validation in order, stopping at the first failure.
pub open spec fn spec_validate_operation(
    item: PathItem,
    components: Option<Components>,
    method: Seq<char>,
    headers: Seq<(String, String)>,
    query: Seq<(Seq<char>, Seq<char>)>,
    bindings: Seq<(Seq<char>, Seq<char>)>,
    body: Seq<u8>,
) -> Result<Operation, Failure> {
    match spec_select_operation(item, method) {
        None => Err(Failure::Rejection),
        Some(op) => match spec_validate_parameters(
            op.parameters@,
            components,
            headers,
            query,
            bindings,
        ) {
            Err(f) => Err(f),
            Ok(_) => match spec_negotiate(op, components, header_of(headers, "Content-Type"@)) {
                Err(f) => Err(f),
                Ok(m) => match spec_validate_body(m, body) {
                    Err(f) => Err(f),
                    Ok(_) => Ok(op),
                },
            },
        },
    }
}

fn select_operation<'a>(item: &'a PathItem, method: &str) -> (r: Option<&'a Operation>)
    ensures
        match r {
            Some(op) => spec_select_operation(*item, method@) == Some(*op),
            None => spec_select_operation(*item, method@) is None,
        },
{
    let m = to_ascii_lower(method);
    if str_eq(m.as_str(), "get") {
        item.get.as_ref()
    } else if str_eq(m.as_str(), "put") {
        item.put.as_ref()
    } else if str_eq(m.as_str(), "delete") {
        item.delete.as_ref()
    } else if str_eq(m.as_str(), "post") {
        item.post.as_ref()
    } else {
        None
    }
}

/// Validates the request against the matched path item.
pub struct OperationValidator<'api> {
    pub path_spec: &'api PathItem,
    pub components: &'api Option<Components>,
    pub path_parameters: Vec<(String, String)>,
}

impl<'api> OperationValidator<'api> {
    /// Selects the operation for the request's method and validates the
    /// request's parameters, content type and body against it.
    pub fn validate_operation(self, request: &Request, query: &Vec<(String, String)>) -> (r:
        Result<ResponseValidator<'api>, Failure>)
        ensures
            match r {
                Ok(rv) => spec_validate_operation(
                    *self.path_spec,
                    *self.components,
                    request.operation@,
                    request.headers@,
                    pair_views(query@),
                    pair_views(self.path_parameters@),
                    request.body@,
                ) matches Ok(op) && rv.response_spec.codes@ == op.responses.codes@
                    && rv.components == self.components,
                Err(f) => spec_validate_operation(
                    *self.path_spec,
                    *self.components,
                    request.operation@,
                    request.headers@,
                    pair_views(query@),
                    pair_views(self.path_parameters@),
                    request.body@,
                ) == Err::<Operation, Failure>(f),
            },
    {
        let operation_spec = match select_operation(self.path_spec, request.operation()) {
            Some(op) => op,
            None => {
                return Err(Failure::Rejection);
            },
        };
        let params_validator = ParametersValidator {
            operation_spec,
            components: self.components,
            path_parameters: self.path_parameters,
        };
        params_validator.validate_parameters(request, query)?;
        let mode = ContentTypeValidator { operation_spec, components: self.components }
            .validate_content_type(request.get_header("Content-Type"))?;
        mode.validate_body(request.body())?;
        Ok(ResponseValidator { response_spec: &operation_spec.responses, components: self.components })
    }
}

} // verus!
