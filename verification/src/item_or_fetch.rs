//! Reference resolution: follows `#/components/...` references through the
//! component table until a concrete item is reached. A chain that cannot be
//! followed — no component table, an unknown name, or a cycle — is a
//! specification defect, never an ordinary rejection.
//!
//! Resolution carries a hop budget equal to the size of the section it reads:
//! an acyclic chain looks every name up at most once, so the budget never
//! runs out on a well-formed specification, while a reference cycle exhausts
//! it and fails fast as a defect.
use crate::model::assoc;
use crate::model::assoc_get;
use crate::model::Components;
use crate::model::Failure;
use crate::model::Parameter;
use crate::model::ParameterRef;
use crate::model::RequestBody;
use crate::model::RequestBodyRef;
use crate::model::Schema;
use crate::model::SchemaRef;
use vstd::prelude::*;
use vstd::string::StrSliceExecFns;

verus! {

/// `s` without the prefix `p`; `s` unchanged when `p` is not its prefix.
pub open spec fn strip_prefix(s: Seq<char>, p: Seq<char>) -> Seq<char> {
    if p.len() <= s.len() && s.take(p.len() as int) == p {
        s.skip(p.len() as int)
    } else {
        s
    }
}

pub fn strip_prefix_str<'a>(s: &'a str, p: &str) -> (r: &'a str)
    ensures
        r@ == strip_prefix(s@, p@),
{
    let sl = s.unicode_len();
    let pl = p.unicode_len();
    if pl > sl {
        return s;
    }
    let mut i: usize = 0;
    while i < pl
        invariant
            sl == s@.len(),
            pl == p@.len(),
            pl <= sl,
            i <= pl,
            forall|k: int| 0 <= k < i ==> s@[k] == p@[k],
        decreases pl - i,
    {
        if s.get_char(i) != p.get_char(i) {
            proof {
                assert(s@.take(pl as int)[i as int] != p@[i as int]);
            }
            return s;
        }
        i = i + 1;
    }
    proof {
        assert(s@.take(pl as int) =~= p@);
    }
    let rest = s.substring_char(pl, sl);
    proof {
        assert(s@.subrange(pl as int, sl as int) =~= s@.skip(pl as int));
    }
    rest
}

/// The hop budget for one resolution chain in a section of `n` names.
pub open spec fn section_fuel(n: nat) -> nat {
    n
}

pub open spec fn spec_resolve_schema(
    r: SchemaRef,
    components: Option<Components>,
    fuel: nat,
) -> Option<Schema>
    decreases fuel,
{
    match r {
        SchemaRef::Item(s) => Some(*s),
        SchemaRef::Reference(name) => {
            if fuel == 0 {
                None
            } else {
                match components {
                    None => None,
                    Some(c) => match assoc(
                        c.schemas@,
                        strip_prefix(name@, "#/components/schemas/"@),
                    ) {
                        None => None,
                        Some(r2) => spec_resolve_schema(r2, components, (fuel - 1) as nat),
                    },
                }
            }
        },
    }
}

pub open spec fn schema_fuel(components: Option<Components>) -> nat {
    match components {
        None => 0,
        Some(c) => c.schemas@.len(),
    }
}

fn resolve_schema_fuel<'a>(
    r: &'a SchemaRef,
    components: &'a Option<Components>,
    fuel: usize,
) -> (res: Result<&'a Schema, Failure>)
    ensures
        match res {
            Ok(s) => spec_resolve_schema(*r, *components, fuel as nat) == Some(*s),
            Err(f) => spec_resolve_schema(*r, *components, fuel as nat) is None && f
                == Failure::Defect,
        },
    decreases fuel,
{
    match r {
        SchemaRef::Item(s) => Ok(s),
        SchemaRef::Reference(name) => {
            if fuel == 0 {
                return Err(Failure::Defect);
            }
            match components {
                None => Err(Failure::Defect),
                Some(c) => {
                    let key = strip_prefix_str(name.as_str(), "#/components/schemas/");
                    match assoc_get(&c.schemas, key) {
                        None => Err(Failure::Defect),
                        Some(r2) => resolve_schema_fuel(r2, components, fuel - 1),
                    }
                },
            }
        },
    }
}

/// Follows `r` through the component table to a concrete schema.
pub fn resolve_schema<'a>(r: &'a SchemaRef, components: &'a Option<Components>) -> (res: Result<
    &'a Schema,
    Failure,
>)
    ensures
        match res {
            Ok(s) => spec_resolve_schema(*r, *components, schema_fuel(*components)) == Some(*s),
            Err(f) => spec_resolve_schema(*r, *components, schema_fuel(*components)) is None && f
                == Failure::Defect,
        },
{
    let fuel: usize = match components {
        None => 0,
        Some(c) => c.schemas.len(),
    };
    resolve_schema_fuel(r, components, fuel)
}

pub open spec fn spec_resolve_parameter(
    r: ParameterRef,
    components: Option<Components>,
    fuel: nat,
) -> Option<Parameter>
    decreases fuel,
{
    match r {
        ParameterRef::Item(p) => Some(p),
        ParameterRef::Reference(name) => {
            if fuel == 0 {
                None
            } else {
                match components {
                    None => None,
                    Some(c) => match assoc(
                        c.parameters@,
                        strip_prefix(name@, "#/components/parameters/"@),
                    ) {
                        None => None,
                        Some(r2) => spec_resolve_parameter(r2, components, (fuel - 1) as nat),
                    },
                }
            }
        },
    }
}

pub open spec fn parameter_fuel(components: Option<Components>) -> nat {
    match components {
        None => 0,
        Some(c) => c.parameters@.len(),
    }
}

fn resolve_parameter_fuel<'a>(
    r: &'a ParameterRef,
    components: &'a Option<Components>,
    fuel: usize,
) -> (res: Result<&'a Parameter, Failure>)
    ensures
        match res {
            Ok(p) => spec_resolve_parameter(*r, *components, fuel as nat) == Some(*p),
            Err(f) => spec_resolve_parameter(*r, *components, fuel as nat) is None && f
                == Failure::Defect,
        },
    decreases fuel,
{
    match r {
        ParameterRef::Item(p) => Ok(p),
        ParameterRef::Reference(name) => {
            if fuel == 0 {
                return Err(Failure::Defect);
            }
            match components {
                None => Err(Failure::Defect),
                Some(c) => {
                    let key = strip_prefix_str(name.as_str(), "#/components/parameters/");
                    match assoc_get(&c.parameters, key) {
                        None => Err(Failure::Defect),
                        Some(r2) => resolve_parameter_fuel(r2, components, fuel - 1),
                    }
                },
            }
        },
    }
}

/// Follows `r` through the component table to a concrete parameter.
pub fn resolve_parameter<'a>(r: &'a ParameterRef, components: &'a Option<Components>) -> (res:
    Result<&'a Parameter, Failure>)
    ensures
        match res {
            Ok(p) => spec_resolve_parameter(*r, *components, parameter_fuel(*components)) == Some(
                *p,
            ),
            Err(f) => spec_resolve_parameter(*r, *components, parameter_fuel(*components)) is None
                && f == Failure::Defect,
        },
{
    let fuel: usize = match components {
        None => 0,
        Some(c) => c.parameters.len(),
    };
    resolve_parameter_fuel(r, components, fuel)
}

pub open spec fn spec_resolve_request_body(
    r: RequestBodyRef,
    components: Option<Components>,
    fuel: nat,
) -> Option<RequestBody>
    decreases fuel,
{
    match r {
        RequestBodyRef::Item(b) => Some(b),
        RequestBodyRef::Reference(name) => {
            if fuel == 0 {
                None
            } else {
                match components {
                    None => None,
                    Some(c) => match assoc(
                        c.request_bodies@,
                        strip_prefix(name@, "#/components/requestBodies/"@),
                    ) {
                        None => None,
                        Some(r2) => spec_resolve_request_body(r2, components, (fuel - 1) as nat),
                    },
                }
            }
        },
    }
}

pub open spec fn request_body_fuel(components: Option<Components>) -> nat {
    match components {
        None => 0,
        Some(c) => c.request_bodies@.len(),
    }
}

fn resolve_request_body_fuel<'a>(
    r: &'a RequestBodyRef,
    components: &'a Option<Components>,
    fuel: usize,
) -> (res: Result<&'a RequestBody, Failure>)
    ensures
        match res {
            Ok(b) => spec_resolve_request_body(*r, *components, fuel as nat) == Some(*b),
            Err(f) => spec_resolve_request_body(*r, *components, fuel as nat) is None && f
                == Failure::Defect,
        },
    decreases fuel,
{
    match r {
        RequestBodyRef::Item(b) => Ok(b),
        RequestBodyRef::Reference(name) => {
            if fuel == 0 {
                return Err(Failure::Defect);
            }
            match components {
                None => Err(Failure::Defect),
                Some(c) => {
                    let key = strip_prefix_str(name.as_str(), "#/components/requestBodies/");
                    match assoc_get(&c.request_bodies, key) {
                        None => Err(Failure::Defect),
                        Some(r2) => resolve_request_body_fuel(r2, components, fuel - 1),
                    }
                },
            }
        },
    }
}

/// Follows `r` through the component table to a concrete request body.
pub fn resolve_request_body<'a>(r: &'a RequestBodyRef, components: &'a Option<Components>) -> (res:
    Result<&'a RequestBody, Failure>)
    ensures
        match res {
            Ok(b) => spec_resolve_request_body(*r, *components, request_body_fuel(*components))
                == Some(*b),
            Err(f) => spec_resolve_request_body(*r, *components, request_body_fuel(*components))
                is None && f == Failure::Defect,
        },
{
    let fuel: usize = match components {
        None => 0,
        Some(c) => c.request_bodies.len(),
    };
    resolve_request_body_fuel(r, components, fuel)
}

} // verus!
