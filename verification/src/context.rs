//! The request context: the correlation data of a request, captured once and
//! handed to whatever logs or reports on the request.

use vstd::prelude::*;

verus! {

/// The method and path of a request, and the identifiers that the platform
/// gave it. An identifier that the platform did not give is the empty string.
/// A context is made once per request and does not change afterwards.
#[derive(Debug, PartialEq, Eq)]
pub struct RequestContext {
    method: String,
    path: String,
    request_id: String,
    trace_id: String,
}

/// The mathematical content of a [`RequestContext`].
pub struct RequestContextView {
    pub method: Seq<char>,
    pub path: Seq<char>,
    pub request_id: Seq<char>,
    pub trace_id: Seq<char>,
}

impl View for RequestContext {
    type V = RequestContextView;

    closed spec fn view(&self) -> RequestContextView {
        RequestContextView {
            method: self.method@,
            path: self.path@,
            request_id: self.request_id@,
            trace_id: self.trace_id@,
        }
    }
}

/// Whether `path` is the path of the request target `target`: the target up to
/// its first `?`, and all of it where it has no query string.
pub open spec fn is_path_of(path: Seq<char>, target: Seq<char>) -> bool {
    &&& path.is_prefix_of(target)
    &&& forall|i: int| 0 <= i < path.len() ==> path[i] != '?'
    &&& path.len() == target.len() || target[path.len() as int] == '?'
}

/// The identifier, or the empty string where there is none.
pub open spec fn or_empty(identifier: Option<&str>) -> Seq<char> {
    match identifier {
        Some(text) => text@,
        None => Seq::empty(),
    }
}

/// The path of a request target.
pub fn path_of(target: &str) -> (path: String)
    ensures
        is_path_of(path@, target@),
{
    let total = target.unicode_len();
    let mut end: usize = 0;
    for c in it: target.chars()
        invariant
            end == it.index(),
            it.seq() == target@,
            total == target@.len(),
            forall|i: int| 0 <= i < end ==> target@[i] != '?',
    {
        if c == '?' {
            return target.substring_char(0, end).to_owned();
        }
        end = end + 1;
    }
    assert(target@.subrange(0, total as int) =~= target@);
    target.substring_char(0, total).to_owned()
}

/// The identifier as it is kept: the given one, or the empty string.
fn identifier(given: Option<&str>) -> (r: String)
    ensures
        r@ == or_empty(given),
{
    match given {
        Some(text) => text.to_owned(),
        None => String::new(),
    }
}

impl RequestContext {
    /// Captures the context of a request from its method, its request target
    /// and the two identifiers as far as the platform gave them. It never
    /// fails: a missing identifier is the empty string.
    pub fn from_request(
        method: &str,
        target: &str,
        request_id: Option<&str>,
        trace_id: Option<&str>,
    ) -> (context: RequestContext)
        ensures
            context@.method == method@,
            is_path_of(context@.path, target@),
            context@.request_id == or_empty(request_id),
            context@.trace_id == or_empty(trace_id),
    {
        RequestContext {
            method: method.to_owned(),
            path: path_of(target),
            request_id: identifier(request_id),
            trace_id: identifier(trace_id),
        }
    }

    /// The request method.
    pub fn method(&self) -> (r: &str)
        ensures
            r@ == self@.method,
    {
        self.method.as_str()
    }

    /// The path of the request, without the query string.
    pub fn path(&self) -> (r: &str)
        ensures
            r@ == self@.path,
    {
        self.path.as_str()
    }

    /// The identifier that the runtime gave the request, or the empty string.
    pub fn request_id(&self) -> (r: &str)
        ensures
            r@ == self@.request_id,
    {
        self.request_id.as_str()
    }

    /// The identifier of the distributed trace, or the empty string.
    pub fn trace_id(&self) -> (r: &str)
        ensures
            r@ == self@.trace_id,
    {
        self.trace_id.as_str()
    }
}

/// A request target has exactly one path.
pub proof fn lemma_path_is_unique(target: Seq<char>, a: Seq<char>, b: Seq<char>)
    requires
        is_path_of(a, target),
        is_path_of(b, target),
    ensures
        a == b,
{
    if a.len() < b.len() {
        assert(b[a.len() as int] == target[a.len() as int]);
    } else if b.len() < a.len() {
        assert(a[b.len() as int] == target[b.len() as int]);
    }
    assert(a =~= b);
}

} // verus!
