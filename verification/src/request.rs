//! The request under validation, the URL split that feeds path matching and
//! query lookup, and the validator that drives the pipeline: URL, path,
//! operation, parameters, content type, body, in that order, stopping at
//! the first failure.
use crate::model::header_of;
use crate::model::assoc;
use crate::model::assoc_get;
use crate::model::ApiSpec;
use crate::model::Failure;
use crate::model::Operation;
use crate::operation::spec_validate_operation;
use crate::operation::OperationValidator;
use crate::paths::lemma_match_index_unroll;
use crate::paths::lemma_represents_bindings;
use crate::paths::lemma_represents_match;
use crate::paths::pair_views;
use crate::paths::path_segments;
use crate::paths::raw_bindings;
use crate::paths::raw_segs_match;
use crate::paths::seg_views;
use crate::paths::spec_match_path;
use crate::paths::split_path;
use crate::paths::Segment;
use crate::response::ResponseValidator;
use vstd::prelude::*;

verus! {

/// Whether the text parses as an absolute URL, as the url crate parses it.
pub uninterp spec fn url_parses(url: Seq<char>) -> bool;

/// The path component of a parsed URL, as the url crate reports it.
pub uninterp spec fn url_path_of(url: Seq<char>) -> Seq<char>;

/// The decoded query key/value pairs of a parsed URL, in order, as the url
/// crate reports them.
pub uninterp spec fn url_query_of(url: Seq<char>) -> Seq<(Seq<char>, Seq<char>)>;

/// The pieces of a request URL that validation reads.
pub struct UrlParts {
    pub path: String,
    pub query: Vec<(String, String)>,
}

/// Relies on url::Url::parse (Ok exactly when the text is a well-formed
/// absolute URL), url::Url::path (the URL's path component) and
/// url::Url::query_pairs (the decoded key/value pairs of the query string,
/// in order); all three depend on the URL text alone.
#[verifier::external_body]
pub fn split_url(url: &str) -> (r: Option<UrlParts>)
    ensures
        r is Some <==> url_parses(url@),
        r matches Some(p) ==> {
            &&& p.path@ == url_path_of(url@)
            &&& p.query@.len() == url_query_of(url@).len()
            &&& forall|i: int|
                0 <= i < p.query@.len() ==> p.query@[i].0@ == url_query_of(url@)[i].0
                    && p.query@[i].1@ == url_query_of(url@)[i].1
        },
{
    let parsed = match url::Url::parse(url) {
        Ok(u) => u,
        Err(_) => return None,
    };
    let path = parsed.path().to_string();
    let query = parsed.query_pairs().map(|(k, v)| (k.to_string(), v.to_string())).collect();
    Some(UrlParts { path, query })
}

/// The request under validation: its URL, its HTTP method token, its raw
/// body bytes, and its headers, read and never changed.
#[derive(Debug)]
pub struct Request {
    pub url: String,
    pub operation: String,
    pub body: Vec<u8>,
    pub headers: Vec<(String, String)>,
}

impl Request {
    pub fn url(&self) -> (r: &str)
        ensures
            r@ == self.url@,
    {
        self.url.as_str()
    }

    pub fn operation(&self) -> (r: &str)
        ensures
            r@ == self.operation@,
    {
        self.operation.as_str()
    }

    pub fn body(&self) -> (r: &[u8])
        ensures
            r@ == self.body@,
    {
        self.body.as_slice()
    }

    /// The first header under the given name, if any; names are compared
    /// case-sensitively.
    pub fn get_header(&self, key: &str) -> (r: Option<String>)
        ensures
            crate::content_type::opt_view(r) == header_of(self.headers@, key@),
    {
        match assoc_get(&self.headers, key) {
            Some(v) => Some(v.clone()),
            None => None,
        }
    }
}

/// What validating a request against the whole specification returns: the
/// fully validated operation, or the first failure on the way to it.
pub open spec fn spec_validate_request(api: ApiSpec, request: Request) -> Result<
    Operation,
    Failure,
> {
    if !url_parses(request.url@) {
        Err(Failure::Rejection)
    } else {
        let path = url_path_of(request.url@);
        match spec_match_path(api.paths@, path) {
            None => Err(Failure::Rejection),
            Some(i) => spec_validate_operation(
                api.paths@[i].1,
                api.components,
                request.operation@,
                request.headers@,
                url_query_of(request.url@),
                raw_bindings(path_segments(api.paths@[i].0@), path_segments(path)),
                request.body@,
            ),
        }
    }
}

/// Validates requests, and later their responses, against one
/// specification.
pub struct Validator {
    pub api: ApiSpec,
}

impl Validator {
    pub fn new(api: ApiSpec) -> (r: Validator)
        ensures
            r.api == api,
    {
        Validator { api }
    }

    /// Runs the whole pipeline over one request. On success the returned
    /// handle checks the eventual response against the operation that
    /// accepted the request.
    pub fn validate_request<'api>(&'api self, request: &Request) -> (r: Result<
        ResponseValidator<'api>,
        Failure,
    >)
        ensures
            match r {
                Ok(rv) => spec_validate_request(self.api, *request) matches Ok(op)
                    && rv.response_spec.codes@ == op.responses.codes@,
                Err(f) => spec_validate_request(self.api, *request) == Err::<Operation, Failure>(
                    f,
                ),
            },
    {
        let parts = match split_url(request.url()) {
            Some(parts) => parts,
            None => {
                return Err(Failure::Rejection);
            },
        };
        let op_validator = self.validate_path(parts.path.as_str())?;
        proof {
            assert(pair_views(parts.query@) =~= url_query_of(request.url@));
        }
        op_validator.validate_operation(request, &parts.query)
    }

    /// Finds the first declared path template matching the request path and
    /// collects its path-variable bindings.
    fn validate_path<'api>(&'api self, request_path: &str) -> (r: Result<
        OperationValidator<'api>,
        Failure,
    >)
        ensures
            match r {
                Ok(ov) => {
                    &&& spec_match_path(self.api.paths@, request_path@) matches Some(i)
                    &&& ov.path_spec == &self.api.paths@[
                        spec_match_path(self.api.paths@, request_path@)->Some_0].1
                    &&& pair_views(ov.path_parameters@) == raw_bindings(
                        path_segments(
                            self.api.paths@[
                                spec_match_path(self.api.paths@, request_path@)->Some_0].0@,
                        ),
                        path_segments(request_path@),
                    )
                    &&& ov.components == &self.api.components
                },
                Err(f) => spec_match_path(self.api.paths@, request_path@) is None && f
                    == Failure::Rejection,
            },
    {
        let request_segments = split_path(request_path);
        let mut i: usize = 0;
        while i < self.api.paths.len()
            invariant
                i <= self.api.paths@.len(),
                seg_views(request_segments@) == path_segments(request_path@),
                forall|k: int|
                    0 <= k < i ==> !raw_segs_match(
                        path_segments(#[trigger] self.api.paths@[k].0@),
                        path_segments(request_path@),
                    ),
            decreases self.api.paths@.len() - i,
        {
            let template = &self.api.paths[i].0;
            let segments = Segment::list_from_str(template.as_str());
            proof {
                lemma_represents_match(
                    segments@,
                    path_segments(template@),
                    seg_views(request_segments@),
                );
            }
            if Segment::list_matches(&segments, &request_segments) {
                let bindings = crate::paths::extract_path_parameters(
                    &segments,
                    &request_segments,
                );
                proof {
                    lemma_match_index_unroll(
                        self.api.paths@,
                        path_segments(request_path@),
                        i as int,
                    );
                    lemma_represents_bindings(
                        segments@,
                        path_segments(template@),
                        seg_views(request_segments@),
                    );
                }
                return Ok(
                    OperationValidator {
                        path_spec: &self.api.paths[i].1,
                        components: &self.api.components,
                        path_parameters: bindings,
                    },
                );
            }
            i = i + 1;
        }
        proof {
            lemma_match_index_unroll(self.api.paths@, path_segments(request_path@), i as int);
        }
        Err(Failure::Rejection)
    }
}

} // verus!
