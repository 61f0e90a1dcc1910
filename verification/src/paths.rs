//! Path template matching: a request path is split on `/` with empty
//! components discarded, template segments are classified as fixed literals
//! or `{name}` variables, and the first template whose segments match wins.
//! Variable segments bind their name to the request segment they matched.
use crate::model::PathItem;
use vstd::prelude::*;
use vstd::string::StrSliceExecFns;
use vstd::string::StringExecFns;

verus! {

/// The views of a list of strings.
pub open spec fn seg_views(v: Seq<String>) -> Seq<Seq<char>> {
    v.map_values(|s: String| s@)
}

/// The views of a list of string pairs.
pub open spec fn pair_views(v: Seq<(String, String)>) -> Seq<(Seq<char>, Seq<char>)> {
    v.map_values(|p: (String, String)| (p.0@, p.1@))
}

pub open spec fn split_acc(p: Seq<char>, cur: Seq<char>) -> Seq<Seq<char>>
    decreases p.len(),
{
    if p.len() == 0 {
        if cur.len() == 0 {
            Seq::empty()
        } else {
            seq![cur]
        }
    } else if p[0] == '/' {
        (if cur.len() == 0 {
            Seq::<Seq<char>>::empty()
        } else {
            seq![cur]
        }) + split_acc(p.drop_first(), Seq::empty())
    } else {
        split_acc(p.drop_first(), cur.push(p[0]))
    }
}

/// The non-empty components of a path, split on `/`: leading, trailing and
/// doubled slashes all disappear.
pub open spec fn path_segments(p: Seq<char>) -> Seq<Seq<char>> {
    split_acc(p, Seq::empty())
}

/// A template segment equal to `{name}` with a non-braced inside.
pub open spec fn is_variable_seg(s: Seq<char>) -> bool {
    &&& s.len() >= 2
    &&& s[0] == '{'
    &&& s[s.len() - 1] == '}'
    &&& forall|k: int| 1 <= k < s.len() - 1 ==> s[k] != '}'
}

/// The variable name inside `{name}`.
pub open spec fn variable_name(s: Seq<char>) -> Seq<char> {
    s.subrange(1, s.len() - 1)
}

/// Whether one template segment admits one request segment.
pub open spec fn raw_seg_matches(template_seg: Seq<char>, request_seg: Seq<char>) -> bool {
    if is_variable_seg(template_seg) {
        true
    } else {
        template_seg == request_seg
    }
}

/// Whether a template's segments admit a request's segments.
pub open spec fn raw_segs_match(template: Seq<Seq<char>>, request: Seq<Seq<char>>) -> bool {
    template.len() == request.len() && (forall|k: int|
        0 <= k < template.len() ==> raw_seg_matches(template[k], request[k]))
}

/// The name-to-value bindings a successful match produces.
pub open spec fn raw_bindings(template: Seq<Seq<char>>, request: Seq<Seq<char>>) -> Seq<
    (Seq<char>, Seq<char>),
>
    decreases template.len(),
{
    if template.len() == 0 || request.len() == 0 {
        Seq::empty()
    } else {
        (if is_variable_seg(template[0]) {
            seq![(variable_name(template[0]), request[0])]
        } else {
            Seq::<(Seq<char>, Seq<char>)>::empty()
        }) + raw_bindings(template.drop_first(), request.drop_first())
    }
}

/// The position of the first path template whose segments admit the request
/// segments, searching from `i` on.
pub open spec fn match_index_from(
    paths: Seq<(String, PathItem)>,
    request: Seq<Seq<char>>,
    i: int,
) -> Option<int>
    decreases paths.len() - i,
{
    if i < 0 || i >= paths.len() {
        None
    } else if raw_segs_match(path_segments(paths[i].0@), request) {
        Some(i)
    } else {
        match_index_from(paths, request, i + 1)
    }
}

/// The first declared path template matching the request path, if any.
pub open spec fn spec_match_path(paths: Seq<(String, PathItem)>, path: Seq<char>) -> Option<int> {
    match_index_from(paths, path_segments(path), 0)
}

// ------------------------------------------------------------------
// Normalization of request paths (the invariance law)
// ------------------------------------------------------------------
pub proof fn lemma_segments_leading_slash(p: Seq<char>)
    ensures
        path_segments(seq!['/'] + p) == path_segments(p),
{
    let q = seq!['/'] + p;
    assert(q[0] == '/');
    assert(q.drop_first() =~= p);
    assert(path_segments(q) =~= path_segments(p));
}

proof fn lemma_split_acc_trailing_slash(p: Seq<char>, cur: Seq<char>)
    ensures
        split_acc(p.push('/'), cur) == split_acc(p, cur),
    decreases p.len(),
{
    reveal_with_fuel(split_acc, 3);
    let q = p.push('/');
    if p.len() == 0 {
        assert(q[0] == '/');
        assert(q.drop_first() =~= Seq::<char>::empty());
        if cur.len() == 0 {
            assert(split_acc(q, cur) =~~= split_acc(p, cur));
        } else {
            assert(split_acc(q, cur) =~~= split_acc(p, cur));
        }
    } else {
        assert(q[0] == p[0]);
        assert(q.drop_first() =~= p.drop_first().push('/'));
        if p[0] == '/' {
            lemma_split_acc_trailing_slash(p.drop_first(), Seq::empty());
            assert(split_acc(q, cur) =~~= split_acc(p, cur));
        } else {
            lemma_split_acc_trailing_slash(p.drop_first(), cur.push(p[0]));
            assert(split_acc(q, cur) =~~= split_acc(p, cur));
        }
    }
}

pub proof fn lemma_segments_trailing_slash(p: Seq<char>)
    ensures
        path_segments(p.push('/')) == path_segments(p),
{
    lemma_split_acc_trailing_slash(p, Seq::empty());
}

/// Path matching is normalization-invariant: a request path with an extra
/// leading slash, an extra trailing slash, or both, matches exactly the
/// templates the bare path matches, and a doubled leading slash changes
/// nothing either.
pub proof fn lemma_match_path_normalization(
    paths: Seq<(String, PathItem)>,
    p: Seq<char>,
)
    ensures
        spec_match_path(paths, seq!['/'] + p) == spec_match_path(paths, p),
        spec_match_path(paths, p.push('/')) == spec_match_path(paths, p),
        spec_match_path(paths, seq!['/', '/'] + p) == spec_match_path(paths, p),
{
    lemma_segments_leading_slash(p);
    lemma_segments_trailing_slash(p);
    lemma_segments_leading_slash(seq!['/'] + p);
    assert(seq!['/', '/'] + p =~= seq!['/'] + (seq!['/'] + p));
}

// ------------------------------------------------------------------
// Executable splitting
// ------------------------------------------------------------------
proof fn lemma_seg_views_push(s: Seq<String>, x: String)
    ensures
        seg_views(s.push(x)) =~= seg_views(s).push(x@),
{
}

/// Splits a path on `/`, discarding empty components.
pub fn split_path(path: &str) -> (r: Vec<String>)
    ensures
        seg_views(r@) == path_segments(path@),
{
    let len = path.unicode_len();
    let mut out: Vec<String> = Vec::new();
    let mut cur = String::new();
    let mut i: usize = 0;
    proof {
        assert(path@.skip(0) =~= path@);
        assert(seg_views(out@) + split_acc(path@, cur@) =~~= path_segments(path@));
    }
    while i < len
        invariant
            len == path@.len(),
            i <= len,
            path_segments(path@) == seg_views(out@) + split_acc(path@.skip(i as int), cur@),
        decreases len - i,
    {
        let c = path.get_char(i);
        proof {
            assert(path@.skip(i as int)[0] == path@[i as int]);
            assert(path@.skip(i as int).drop_first() =~= path@.skip(i as int + 1));
        }
        if c == '/' {
            if cur.unicode_len() > 0 {
                proof {
                    lemma_seg_views_push(out@, cur);
                    assert(seg_views(out@.push(cur)) =~= seg_views(out@) + seq![cur@]);
                }
                out.push(cur);
                cur = String::new();
            } else {
                proof {
                    assert(split_acc(path@.skip(i as int), cur@) == split_acc(
                        path@.skip(i as int + 1),
                        Seq::empty(),
                    ));
                }
                cur = String::new();
            }
        } else {
            cur.push(c);
        }
        i = i + 1;
        proof {
            assert(path_segments(path@) == seg_views(out@) + split_acc(
                path@.skip(i as int),
                cur@,
            ));
        }
    }
    proof {
        assert(path@.skip(i as int) =~= Seq::<char>::empty());
    }
    if cur.unicode_len() > 0 {
        proof {
            lemma_seg_views_push(out@, cur);
            assert(seg_views(out@.push(cur)) =~= seg_views(out@) + seq![cur@]);
        }
        out.push(cur);
    }
    proof {
        assert(seg_views(out@) =~= path_segments(path@));
    }
    out
}

// ------------------------------------------------------------------
// Segments
// ------------------------------------------------------------------

/// One classified template segment.
#[derive(Debug)]
pub enum Segment {
    Fixed { literal: String },
    Parameter { name: String },
}

/// Whether a classified segment stands for the raw template segment `src`.
pub open spec fn seg_represents(seg: Segment, src: Seq<char>) -> bool {
    if is_variable_seg(src) {
        seg matches Segment::Parameter { name } && name@ == variable_name(src)
    } else {
        seg matches Segment::Fixed { literal } && literal@ == src
    }
}

/// Whether a classified segment admits a request segment.
pub open spec fn seg_match(seg: Segment, request_seg: Seq<char>) -> bool {
    match seg {
        Segment::Parameter { .. } => true,
        Segment::Fixed { literal } => literal@ == request_seg,
    }
}

pub open spec fn seg_list_match(segs: Seq<Segment>, request: Seq<Seq<char>>) -> bool {
    segs.len() == request.len() && (forall|k: int|
        0 <= k < segs.len() ==> seg_match(segs[k], request[k]))
}

/// The bindings the classified segments produce against request segments.
pub open spec fn seg_bindings(segs: Seq<Segment>, request: Seq<Seq<char>>) -> Seq<
    (Seq<char>, Seq<char>),
>
    decreases segs.len(),
{
    if segs.len() == 0 || request.len() == 0 {
        Seq::empty()
    } else {
        (match segs[0] {
            Segment::Parameter { name } => seq![(name@, request[0])],
            Segment::Fixed { .. } => Seq::<(Seq<char>, Seq<char>)>::empty(),
        }) + seg_bindings(segs.drop_first(), request.drop_first())
    }
}

/// Classified segments match exactly as their raw template segments do.
pub proof fn lemma_represents_match(
    segs: Seq<Segment>,
    template: Seq<Seq<char>>,
    request: Seq<Seq<char>>,
)
    requires
        segs.len() == template.len(),
        forall|k: int| 0 <= k < segs.len() ==> seg_represents(#[trigger] segs[k], template[k]),
    ensures
        seg_list_match(segs, request) == raw_segs_match(template, request),
{
    if segs.len() == request.len() {
        assert forall|k: int| 0 <= k < segs.len() implies seg_match(segs[k], request[k])
            == raw_seg_matches(template[k], request[k]) by {
            assert(seg_represents(segs[k], template[k]));
        }
    }
}

/// Classified segments bind exactly as their raw template segments do.
pub proof fn lemma_represents_bindings(
    segs: Seq<Segment>,
    template: Seq<Seq<char>>,
    request: Seq<Seq<char>>,
)
    requires
        segs.len() == template.len(),
        forall|k: int| 0 <= k < segs.len() ==> seg_represents(#[trigger] segs[k], template[k]),
    ensures
        seg_bindings(segs, request) == raw_bindings(template, request),
    decreases segs.len(),
{
    if segs.len() != 0 && request.len() != 0 {
        assert(seg_represents(segs[0], template[0]));
        assert(forall|k: int|
            0 <= k < segs.drop_first().len() ==> seg_represents(
                #[trigger] segs.drop_first()[k],
                template.drop_first()[k],
            ));
        lemma_represents_bindings(segs.drop_first(), template.drop_first(), request.drop_first());
        assert(seg_bindings(segs, request) =~= raw_bindings(template, request));
    }
}

impl Segment {
    /// Classifies one raw template segment.
    pub fn from_str(src: &str) -> (seg: Segment)
        ensures
            seg_represents(seg, src@),
    {
        let n = src.unicode_len();
        if n >= 2 && src.get_char(0) == '{' && src.get_char(n - 1) == '}' {
            let mut k: usize = 1;
            while k < n - 1
                invariant
                    n == src@.len(),
                    n >= 2,
                    1 <= k <= n - 1,
                    forall|j: int| 1 <= j < k ==> src@[j] != '}',
                decreases n - 1 - k,
            {
                if src.get_char(k) == '}' {
                    return Segment::Fixed { literal: String::from_str(src) };
                }
                k = k + 1;
            }
            let name = src.substring_char(1, n - 1);
            Segment::Parameter { name: String::from_str(name) }
        } else {
            Segment::Fixed { literal: String::from_str(src) }
        }
    }

    /// Classifies every segment of a path template.
    pub fn list_from_str(path: &str) -> (segs: Vec<Segment>)
        ensures
            segs@.len() == path_segments(path@).len(),
            forall|k: int|
                0 <= k < segs@.len() ==> seg_represents(
                    #[trigger] segs@[k],
                    path_segments(path@)[k],
                ),
    {
        let raw = split_path(path);
        let mut out: Vec<Segment> = Vec::new();
        let mut i: usize = 0;
        while i < raw.len()
            invariant
                seg_views(raw@) == path_segments(path@),
                i <= raw@.len(),
                out@.len() == i,
                forall|k: int|
                    0 <= k < i ==> seg_represents(#[trigger] out@[k], path_segments(path@)[k]),
            decreases raw@.len() - i,
        {
            let seg = Segment::from_str(raw[i].as_str());
            out.push(seg);
            i = i + 1;
        }
        out
    }

    /// Whether this segment admits the request segment.
    pub fn matches(&self, request_segment: &str) -> (r: bool)
        ensures
            r == seg_match(*self, request_segment@),
    {
        match self {
            Segment::Fixed { literal } => crate::text::str_eq(
                literal.as_str(),
                request_segment,
            ),
            Segment::Parameter { .. } => true,
        }
    }

    /// Whether the template's segments admit the request's segments.
    pub fn list_matches(spec_segments: &Vec<Segment>, request_segments: &Vec<String>) -> (r: bool)
        ensures
            r == seg_list_match(spec_segments@, seg_views(request_segments@)),
    {
        if spec_segments.len() != request_segments.len() {
            return false;
        }
        let mut i: usize = 0;
        while i < spec_segments.len()
            invariant
                spec_segments@.len() == request_segments@.len(),
                i <= spec_segments@.len(),
                forall|k: int|
                    0 <= k < i ==> seg_match(
                        #[trigger] spec_segments@[k],
                        seg_views(request_segments@)[k],
                    ),
            decreases spec_segments@.len() - i,
        {
            if !spec_segments[i].matches(request_segments[i].as_str()) {
                return false;
            }
            i = i + 1;
        }
        true
    }
}

fn extract_from(
    spec_segments: &Vec<Segment>,
    request_segments: &Vec<String>,
    i: usize,
) -> (r: Vec<(String, String)>)
    requires
        i <= spec_segments@.len(),
        i <= request_segments@.len(),
    ensures
        pair_views(r@) == seg_bindings(
            spec_segments@.skip(i as int),
            seg_views(request_segments@).skip(i as int),
        ),
    decreases spec_segments@.len() - i,
{
    let ghost t = spec_segments@.skip(i as int);
    let ghost q = seg_views(request_segments@).skip(i as int);
    if i == spec_segments.len() || i == request_segments.len() {
        proof {
            assert(t.len() == 0 || q.len() == 0);
            assert(pair_views(Seq::<(String, String)>::empty()) =~= Seq::<
                (Seq<char>, Seq<char>),
            >::empty());
        }
        Vec::new()
    } else {
        let rest = extract_from(spec_segments, request_segments, i + 1);
        proof {
            assert(t[0] == spec_segments@[i as int]);
            assert(q[0] == request_segments@[i as int]@);
            assert(t.drop_first() =~= spec_segments@.skip(i as int + 1));
            assert(q.drop_first() =~= seg_views(request_segments@).skip(i as int + 1));
        }
        match &spec_segments[i] {
            Segment::Parameter { name } => {
                let ghost rest_view = rest@;
                let mut out = rest;
                let pair = (name.clone(), request_segments[i].clone());
                out.insert(0, pair);
                proof {
                    assert(out@.drop_first() =~= rest_view);
                    assert(pair_views(out@) =~= seq![(pair.0@, pair.1@)] + pair_views(rest_view));
                }
                out
            },
            Segment::Fixed { .. } => {
                proof {
                    assert(seg_bindings(t, q) =~= seg_bindings(t.drop_first(), q.drop_first()));
                }
                rest
            },
        }
    }
}

/// The name-to-value bindings of the variable segments.
pub fn extract_path_parameters(
    spec_segments: &Vec<Segment>,
    request_segments: &Vec<String>,
) -> (r: Vec<(String, String)>)
    ensures
        pair_views(r@) == seg_bindings(spec_segments@, seg_views(request_segments@)),
{
    proof {
        assert(spec_segments@.skip(0) =~= spec_segments@);
        assert(seg_views(request_segments@).skip(0) =~= seg_views(request_segments@));
    }
    extract_from(spec_segments, request_segments, 0)
}

/// The first pair whose key is `name`, among view-level pairs.
pub open spec fn assoc_views(entries: Seq<(Seq<char>, Seq<char>)>, name: Seq<char>) -> Option<
    Seq<char>,
>
    decreases entries,
{
    if entries.len() == 0 {
        None
    } else if entries[0].0 == name {
        Some(entries[0].1)
    } else {
        assoc_views(entries.drop_first(), name)
    }
}

/// Looking a name up among string pairs is looking it up among their views.
pub proof fn lemma_assoc_pair_views(entries: Seq<(String, String)>, name: Seq<char>)
    ensures
        match crate::model::assoc(entries, name) {
            Some(s) => assoc_views(pair_views(entries), name) == Some(s@),
            None => assoc_views(pair_views(entries), name) is None,
        },
    decreases entries,
{
    if entries.len() > 0 {
        lemma_assoc_pair_views(entries.drop_first(), name);
        assert(pair_views(entries)[0] == (entries[0].0@, entries[0].1@));
        assert(pair_views(entries).drop_first() =~= pair_views(entries.drop_first()));
    }
}

/// Searching from the start is searching from `i` when nothing before `i`
/// matches.
pub proof fn lemma_match_index_unroll(
    paths: Seq<(String, PathItem)>,
    request: Seq<Seq<char>>,
    i: int,
)
    requires
        0 <= i <= paths.len(),
        forall|k: int|
            0 <= k < i ==> !raw_segs_match(path_segments(#[trigger] paths[k].0@), request),
    ensures
        match_index_from(paths, request, 0) == match_index_from(paths, request, i),
    decreases i,
{
    if i > 0 {
        lemma_match_index_unroll(paths, request, i - 1);
        assert(!raw_segs_match(path_segments(paths[i - 1].0@), request));
        assert(match_index_from(paths, request, i - 1) == match_index_from(paths, request, i));
    }
}

} // verus!
