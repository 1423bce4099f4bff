//! What holds of the service's table, whatever the request.

use vstd::prelude::*;
use crate::extract::{fixed_decision, fixed_identity, outcome_model};
use crate::identity::ClientId;
use crate::handlers::ReplyModel;
use crate::router::{
    app_routes, first_index, fits, has_pattern, is_first, is_segment_path, is_served,
    lemma_first_exists, lemma_first_index, lookup, plan_model, respond_model, Method,
    PatternModel, RouteModel, StepModel,
};
use crate::status::Status;

verus! {

/// Whether a text can stand as one segment of a path: it has a character,
/// and none of its characters is `/`.
pub open spec fn is_segment(text: Seq<char>) -> bool {
    &&& text.len() >= 1
    &&& forall|i: int| 0 <= i < text.len() ==> text[i] != '/'
}

/// The path `/` followed by a segment.
pub open spec fn path_of(segment: Seq<char>) -> Seq<char> {
    seq!['/'] + segment
}

/// The route that serves a path is the best match of the table: its pattern
/// matches the path, no route before it has the same pattern, and a segment
/// route serves only where no exact route has the path's text. Where no
/// route serves the path, no route of the table matches it.
pub proof fn lemma_lookup_is_best_match(routes: Seq<RouteModel>, path: Seq<char>)
    ensures
        match lookup(routes, path) {
            Some(route) => {
                &&& fits(route.pattern, path)
                &&& is_first(routes, route.pattern, first_index(routes, route.pattern))
                &&& routes[first_index(routes, route.pattern)] == route
                &&& route.pattern is Segment ==> !has_pattern(routes, PatternModel::Exact(path))
            },
            None => forall|i: int| 0 <= i < routes.len() ==> !fits((#[trigger] routes[i]).pattern, path),
        },
{
    if has_pattern(routes, PatternModel::Exact(path)) {
        lemma_first_exists(routes, PatternModel::Exact(path));
    } else if is_segment_path(path) && has_pattern(routes, PatternModel::Segment) {
        lemma_first_exists(routes, PatternModel::Segment);
    } else {
        assert forall|i: int| 0 <= i < routes.len() implies !fits(
            (#[trigger] routes[i]).pattern,
            path,
        ) by {
            match routes[i].pattern {
                PatternModel::Exact(text) => {
                    if text == path {
                        assert(routes[i].pattern == PatternModel::Exact(path));
                    }
                },
                PatternModel::Segment => {},
            }
        }
    }
}

/// The service's table serves `/2` by its exact route, every other
/// single-segment path by its segment route, and no other path.
pub proof fn lemma_app_lookup(path: Seq<char>)
    ensures
        lookup(app_routes(), path) == if path == seq!['/', '2'] {
            Some(app_routes()[1])
        } else if is_segment_path(path) {
            Some(app_routes()[0])
        } else {
            None
        },
{
    let routes = app_routes();
    if path == seq!['/', '2'] {
        assert(is_first(routes, PatternModel::Exact(path), 1));
        lemma_first_index(routes, PatternModel::Exact(path), 1);
    } else {
        assert(routes[1].pattern != PatternModel::Exact(path));
        if is_segment_path(path) {
            assert(is_first(routes, PatternModel::Segment, 0));
            lemma_first_index(routes, PatternModel::Segment, 0);
        }
    }
}

/// A GET for `/` and any segment succeeds under the stand-in extraction.
/// Unless the segment is `2`, the extraction step runs on the segment, and
/// the request is served under the fixed identity, whatever the segment says.
pub proof fn lemma_every_segment_is_served(segment: Seq<char>)
    requires
        is_segment(segment),
    ensures
        respond_model(
            app_routes(),
            Method::Get,
            path_of(segment),
            fixed_decision(segment),
        ).status == Status::Success,
        segment != seq!['2'] ==> plan_model(app_routes(), Method::Get, path_of(segment))
            == StepModel::Extract(segment),
        segment != seq!['2'] ==> respond_model(
            app_routes(),
            Method::Get,
            path_of(segment),
            fixed_decision(segment),
        ) == ReplyModel::greeting(fixed_identity()),
{
    let path = path_of(segment);
    lemma_app_lookup(path);
    assert(is_segment_path(path)) by {
        assert forall|i: int| 1 <= i < path.len() implies path[i] != '/' by {
            assert(path[i] == segment[i - 1]);
        }
    }
    assert(segment =~= path.subrange(1, path.len() as int));
    if path == seq!['/', '2'] {
        assert(segment =~= seq!['2']);
    }
}

/// A GET for `/2` succeeds, and no extraction step has a say in it: the plan
/// settles the reply without one, the reply carries no identity, and it is
/// the same whatever an extraction would decide.
pub proof fn lemma_plain_route_skips_extraction(outcome: Result<Seq<char>, Status>)
    ensures
        plan_model(app_routes(), Method::Get, seq!['/', '2']) == StepModel::Answer(
            ReplyModel::bare(Status::Success),
        ),
        respond_model(app_routes(), Method::Get, seq!['/', '2'], outcome) == ReplyModel::bare(
            Status::Success,
        ),
{
    lemma_app_lookup(seq!['/', '2']);
}

/// A path that is neither `/2` nor a single segment is not found, whatever
/// the method and whatever an extraction would decide.
pub proof fn lemma_unregistered_path_is_not_found(
    method: Method,
    path: Seq<char>,
    outcome: Result<Seq<char>, Status>,
)
    requires
        path != seq!['/', '2'],
        !is_segment_path(path),
    ensures
        respond_model(app_routes(), method, path, outcome) == ReplyModel::bare(Status::NotFound),
{
    lemma_app_lookup(path);
}

/// A path that no route of a table serves is not found, whatever the table,
/// the method and the extraction.
pub proof fn lemma_unmatched_path_is_not_found(
    routes: Seq<RouteModel>,
    method: Method,
    path: Seq<char>,
    outcome: Result<Seq<char>, Status>,
)
    requires
        lookup(routes, path) is None,
    ensures
        respond_model(routes, method, path, outcome) == ReplyModel::bare(Status::NotFound),
{
}

/// A HEAD is planned and answered as a GET for the same path is, whatever
/// the table.
pub proof fn lemma_head_is_answered_as_get(
    routes: Seq<RouteModel>,
    path: Seq<char>,
    outcome: Result<Seq<char>, Status>,
)
    ensures
        plan_model(routes, Method::Head, path) == plan_model(routes, Method::Get, path),
        respond_model(routes, Method::Head, path, outcome) == respond_model(
            routes,
            Method::Get,
            path,
            outcome,
        ),
{
}

/// A registered path asked for with another method than GET or HEAD is
/// answered with "method not allowed": no extraction step and no handler
/// runs.
pub proof fn lemma_other_method_is_not_allowed(
    method: Method,
    path: Seq<char>,
    outcome: Result<Seq<char>, Status>,
)
    requires
        !is_served(method),
        path == seq!['/', '2'] || is_segment_path(path),
    ensures
        respond_model(app_routes(), method, path, outcome) == ReplyModel::bare(
            Status::MethodNotAllowed,
        ),
{
    lemma_app_lookup(path);
}

/// The stand-in extraction decides the same on any two raw inputs: whatever
/// two calls of it were given, both yielded the fixed identity.
pub proof fn lemma_fixed_identity_ignores_input(
    first: &str,
    second: &str,
    first_outcome: Result<ClientId, Status>,
    second_outcome: Result<ClientId, Status>,
)
    requires
        call_ensures(ClientId::from_request, (first,), first_outcome),
        call_ensures(ClientId::from_request, (second,), second_outcome),
    ensures
        fixed_decision(first@) == fixed_decision(second@),
        outcome_model(first_outcome) == outcome_model(second_outcome),
        outcome_model(first_outcome) == Ok::<Seq<char>, Status>(fixed_identity()),
{
}

} // verus!
