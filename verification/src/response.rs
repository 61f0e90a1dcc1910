//! Response status validation: a status code is accepted when it is
//! declared exactly, or when the range wildcard for its leading digit
//! (`1XX` to `5XX`) is declared. A status code outside 100..=599 that is not
//! declared exactly is unsupported: a defect, not an ordinary rejection.
use crate::model::Components;
use crate::model::Failure;
use crate::model::Responses;
use crate::model::StatusCode;
use vstd::prelude::*;

verus! {

/// What validating a status code against the declared response keys
/// returns.
pub open spec fn spec_validate_status(codes: Seq<StatusCode>, status: u16) -> Result<(), Failure> {
    if codes.contains(StatusCode::Code(status)) {
        Ok(())
    } else if 100 <= status && status <= 599 {
        if codes.contains(StatusCode::Range((status / 100) as u16)) {
            Ok(())
        } else {
            Err(Failure::Rejection)
        }
    } else {
        Err(Failure::Defect)
    }
}

/// The response to be validated, as the caller's transport library exposes
/// it.
pub trait Response {
    fn status_code(&self) -> u16;
}

fn has_status(codes: &Vec<StatusCode>, c: StatusCode) -> (r: bool)
    ensures
        r == codes@.contains(c),
{
    let mut i: usize = 0;
    while i < codes.len()
        invariant
            i <= codes@.len(),
            forall|k: int| 0 <= k < i ==> codes@[k] != c,
        decreases codes@.len() - i,
    {
        if codes[i] == c {
            return true;
        }
        i = i + 1;
    }
    false
}

/// Validates a response against the response keys one operation declares.
pub struct ResponseValidator<'api> {
    pub response_spec: &'api Responses,
    pub components: &'api Option<Components>,
}

impl<'api> ResponseValidator<'api> {
    /// Checks the response's status code against the declared keys.
    pub fn validate_response<R: Response>(self, response: &R) -> (r: Result<(), Failure>)
        ensures
            exists|status: u16| r == spec_validate_status(self.response_spec.codes@, status),
    {
        let status = response.status_code();
        let r = self.validate_status_code(status);
        proof {
            assert(r == spec_validate_status(self.response_spec.codes@, status));
        }
        r
    }

    /// Checks one status code against the declared keys: accepted exactly
    /// when the code itself is declared, or the code lies in 100..=599 and
    /// its range wildcard is declared.
    pub fn validate_status_code(&self, status_code: u16) -> (r: Result<(), Failure>)
        ensures
            r == spec_validate_status(self.response_spec.codes@, status_code),
    {
        if has_status(&self.response_spec.codes, StatusCode::Code(status_code)) {
            return Ok(());
        }
        if 100 <= status_code && status_code <= 599 {
            if has_status(&self.response_spec.codes, StatusCode::Range(status_code / 100)) {
                Ok(())
            } else {
                Err(Failure::Rejection)
            }
        } else {
            Err(Failure::Defect)
        }
    }
}

/// Range wildcard law: a status code in 100..=599 that is not declared
/// exactly is accepted whenever the range wildcard of its leading digit is
/// declared.
pub proof fn lemma_range_wildcard(codes: Seq<StatusCode>, status: u16)
    requires
        100 <= status <= 599,
        !codes.contains(StatusCode::Code(status)),
        codes.contains(StatusCode::Range((status / 100) as u16)),
    ensures
        spec_validate_status(codes, status) == Ok::<(), Failure>(()),
{
}

} // verus!
