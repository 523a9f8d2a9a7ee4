//! The boundary to the pattern-recognition engine. The router consumes the
//! engine and does not implement it: the routes a recognizer holds and the
//! outcome of resolving a path against them are given names here, and the
//! three calls the router makes are wrapped with the contracts the engine's
//! source shows.

use route_recognizer::Router as Recognizer;
use vstd::prelude::*;

verus! {

#[verifier::external_type_specification]
#[verifier::external_body]
#[verifier::reject_recursive_types(T)]
pub struct ExRecognizer<T>(Recognizer<T>);

/// The routes a recognizer holds: one (pattern, destination) pair per call of
/// `add`, in the order the calls were made.
pub uninterp spec fn routes_of(r: Recognizer<usize>) -> Seq<(Seq<char>, usize)>;

/// What resolving `path` against `routes` returns: the destination of the
/// best-matching route together with the (name, value) parameters captured
/// from the path, or `None` when no route matches. The engine resolves a path
/// from the routes and the path alone, so the outcome is a function of the
/// two.
pub uninterp spec fn match_of(routes: Seq<(Seq<char>, usize)>, path: Seq<char>) -> Option<
    (usize, Seq<(Seq<char>, Seq<char>)>),
>;

/// Relies on route_recognizer::Router::new: a recognizer with no routes.
#[verifier::external_body]
pub(crate) fn recognizer_new() -> (r: Recognizer<usize>)
    ensures
        routes_of(r) == Seq::<(Seq<char>, usize)>::empty(),
{
    Recognizer::new()
}

/// Relies on route_recognizer::Router::add: appends one route mapping
/// `pattern` to the destination `dest`. The pattern must be ASCII — `add`
/// slices the route text at byte offsets, which are char boundaries only in
/// ASCII text — and must carry no NUL: the engine turns a character into a
/// class whose lower bound is one less than its code, which underflows on NUL
/// under overflow checks.
#[verifier::external_body]
pub(crate) fn recognizer_add(r: &mut Recognizer<usize>, pattern: &str, dest: usize)
    requires
        vstd::string::is_ascii(pattern),
        !pattern@.contains('\0'),
    ensures
        routes_of(*final(r)) == routes_of(*old(r)).push((pattern@, dest)),
{
    r.add(pattern, dest);
}

/// Relies on route_recognizer::Router::recognize: resolves `path` against the
/// added routes; on a match it returns the destination of the best-matching
/// route — so a destination that some call of `add` supplied — and the
/// parameters captured from the path. The path must carry no NUL: matching a
/// NUL against a character class computes one less than its code, which
/// underflows on NUL under overflow checks.
#[verifier::external_body]
pub(crate) fn recognizer_recognize(
    r: &Recognizer<usize>,
    path: &str,
) -> (m: Option<(usize, Vec<(String, String)>)>)
    requires
        !path@.contains('\0'),
    ensures
        match m {
            Some(p) => {
                &&& match_of(routes_of(*r), path@) == Some(
                    (p.0, p.1@.map_values(|q: (String, String)| (q.0@, q.1@))),
                )
                &&& exists|k: int|
                    0 <= k < routes_of(*r).len() && (#[trigger] routes_of(*r)[k]).1 == p.0
            },
            None => match_of(routes_of(*r), path@) is None,
        },
{
    match r.recognize(path) {
        Ok(found) => {
            let dest: usize = **found.handler();
            let mut params: Vec<(String, String)> = Vec::new();
            for (k, v) in found.params().iter() {
                params.push((k.to_string(), v.to_string()));
            }
            Some((dest, params))
        }
        Err(_) => None,
    }
}

} // verus!
