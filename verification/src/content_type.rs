//! Content negotiation: decides from the operation's request-body
//! specification and the request's Content-Type header which body mode
//! applies. No body specification accepts anything; a missing header allows
//! only an optional, empty body; a declared `application/json` or
//! `text/plain; charset=utf-8` selects the matching mode; any other header
//! value, declared or not, is rejected.
use crate::body::spec_validate_body;
use crate::body::body_spec_of;
use crate::body::BodyMode;
use crate::body::BodyValidator;
use crate::body::mode_view;
use crate::item_or_fetch::resolve_request_body;
use crate::item_or_fetch::request_body_fuel;
use crate::item_or_fetch::spec_resolve_request_body;
use crate::model::assoc;
use crate::model::assoc_get;
use crate::model::Components;
use crate::model::Failure;
use crate::model::Operation;
use crate::model::RequestBody;
use crate::text::str_eq;
use vstd::prelude::*;

verus! {

/// The request-body specification an operation declares, resolved through
/// the component table: none, a concrete one, or a defect when a reference
/// cannot be followed.
pub open spec fn spec_body_spec(op: Operation, components: Option<Components>) -> Result<
    Option<RequestBody>,
    Failure,
> {
    match op.request_body {
        None => Ok(None),
        Some(r) => match spec_resolve_request_body(r, components, request_body_fuel(components)) {
            None => Err(Failure::Defect),
            Some(bs) => Ok(Some(bs)),
        },
    }
}

/// The mode that content negotiation selects for an operation, given the
/// request's Content-Type header.
pub open spec fn spec_negotiate(
    op: Operation,
    components: Option<Components>,
    content_type: Option<Seq<char>>,
) -> Result<BodyMode, Failure> {
    match spec_body_spec(op, components) {
        Err(f) => Err(f),
        Ok(None) => Ok(BodyMode::NoSpec),
        Ok(Some(bs)) => match content_type {
            None => Ok(BodyMode::EmptyContentType(bs)),
            Some(ct) => {
                if assoc(bs.content@, ct) is None {
                    Err(Failure::Rejection)
                } else if ct == "application/json"@ {
                    Ok(BodyMode::Json(bs, components))
                } else if ct == "text/plain; charset=utf-8"@ {
                    Ok(BodyMode::PlainUtf8(bs))
                } else {
                    Err(Failure::Rejection)
                }
            },
        },
    }
}

/// The view of an optional header value.
pub open spec fn opt_view(v: Option<String>) -> Option<Seq<char>> {
    match v {
        Some(s) => Some(s@),
        None => None,
    }
}

/// The mode a negotiation result stands for.
pub open spec fn mode_result_view(r: Result<BodyValidator, Failure>) -> Result<BodyMode, Failure> {
    match r {
        Ok(v) => Ok(mode_view(v)),
        Err(f) => Err(f),
    }
}

/// Negotiates the body mode for one operation.
pub struct ContentTypeValidator<'api> {
    pub operation_spec: &'api Operation,
    pub components: &'api Option<Components>,
}

impl<'api> ContentTypeValidator<'api> {
    /// Selects the body mode that the request's Content-Type header calls
    /// for under this operation's request-body specification.
    pub fn validate_content_type(self, content_type: Option<String>) -> (r: Result<
        BodyValidator<'api>,
        Failure,
    >)
        ensures
            mode_result_view(r) == spec_negotiate(
                *self.operation_spec,
                *self.components,
                opt_view(content_type),
            ),
    {
        let body_spec: &RequestBody = match &self.operation_spec.request_body {
            None => {
                return Ok(BodyValidator::NoSpecification);
            },
            Some(body_ref) => {
                match resolve_request_body(body_ref, self.components) {
                    Err(f) => {
                        return Err(f);
                    },
                    Ok(bs) => bs,
                }
            },
        };
        match content_type {
            None => Ok(BodyValidator::EmptyContentType { body_spec }),
            Some(ct) => {
                if assoc_get(&body_spec.content, ct.as_str()).is_none() {
                    return Err(Failure::Rejection);
                }
                if str_eq(ct.as_str(), "application/json") {
                    Ok(BodyValidator::JSONBody { body_spec, components: self.components })
                } else if str_eq(ct.as_str(), "text/plain; charset=utf-8") {
                    Ok(BodyValidator::PlainUTF8Body { body_spec })
                } else {
                    Err(Failure::Rejection)
                }
            },
        }
    }
}

/// Optional-empty law: with a body specification that is not required and an
/// empty body, validation accepts when no Content-Type header is present,
/// rejects when one is present but undeclared, and accepts a declared
/// `text/plain; charset=utf-8` header. (A declared `application/json`
/// header is aside: an empty body is not a JSON document and is rejected
/// during parsing, so those inputs stand outside this law.)
pub proof fn lemma_optional_empty(
    op: Operation,
    components: Option<Components>,
    bs: RequestBody,
    content_type: Option<Seq<char>>,
    body: Seq<u8>,
)
    requires
        body.len() == 0,
        spec_body_spec(op, components) == Ok::<Option<RequestBody>, Failure>(Some(bs)),
        !bs.required,
        match content_type {
            None => true,
            Some(ct) => ct == "text/plain; charset=utf-8"@ || assoc(bs.content@, ct) is None,
        },
    ensures
        match spec_negotiate(op, components, content_type) {
            Ok(m) => spec_validate_body(m, body) == Ok::<(), Failure>(()),
            Err(f) => f == Failure::Rejection && (content_type matches Some(ct) && assoc(
                bs.content@,
                ct,
            ) is None),
        },
{
    reveal_strlit("application/json");
    reveal_strlit("text/plain; charset=utf-8");
    match spec_negotiate(op, components, content_type) {
        Ok(m) => {
            assert("application/json"@.len() != "text/plain; charset=utf-8"@.len());
            assert(body =~= Seq::<u8>::empty());
            assert(vstd::utf8::valid_utf8(body));
            assert(spec_validate_body(m, body) == Ok::<(), Failure>(()));
        },
        Err(_) => {},
    }
}

} // verus!
