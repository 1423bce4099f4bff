//! The route table and the dispatch of a request.
//!
//! A route answers GET, and HEAD as it answers GET: the server leaves out the
//! body, the status is the same. A path that a route matches, asked for with
//! any other method, is answered with "method not allowed"; a path that no
//! route matches is answered with "not found", whatever the method. A path
//! with a slash after its segment is such a path: it is not redirected.

use vstd::prelude::*;
use crate::extract::outcome_model;
use crate::handlers::{conclude, conclude_model, hello_world2, Reply, ReplyModel};
use crate::identity::ClientId;
use crate::status::Status;

verus! {

/// The method of a request.
#[derive(Clone, Copy, Debug, PartialEq, Eq, Structural)]
pub enum Method {
    Get,
    Head,
    Post,
    Put,
    Delete,
    Connect,
    Options,
    Trace,
    Patch,
    /// Any method beyond these nine.
    Other,
}

/// Which handler a route leads to.
#[derive(Clone, Copy, Debug, PartialEq, Eq, Structural)]
pub enum Handler {
    /// `hello_world`: runs after the extraction step, on the identity it
    /// produced.
    WithIdentity,
    /// `hello_world2`: runs without an extraction step.
    Plain,
}

/// What a route's path must look like.
#[derive(Debug)]
pub enum Pattern {
    /// The path is this text, character for character.
    Exact(String),
    /// The path is `/` and one segment after it: one or more characters,
    /// none of them `/`. The segment is the route's parameter.
    Segment,
}

/// A pattern with its text as a sequence of characters.
pub enum PatternModel {
    Exact(Seq<char>),
    Segment,
}

impl View for Pattern {
    type V = PatternModel;

    open spec fn view(&self) -> PatternModel {
        match self {
            Pattern::Exact(text) => PatternModel::Exact(text@),
            Pattern::Segment => PatternModel::Segment,
        }
    }
}

/// A pattern and the handler it leads to.
#[derive(Debug)]
pub struct Route {
    pub pattern: Pattern,
    pub handler: Handler,
}

/// A route with its pattern as a model.
pub struct RouteModel {
    pub pattern: PatternModel,
    pub handler: Handler,
}

impl View for Route {
    type V = RouteModel;

    open spec fn view(&self) -> RouteModel {
        RouteModel { pattern: self.pattern@, handler: self.handler }
    }
}

/// Whether a path is `/` and a single segment after it.
pub open spec fn is_segment_path(path: Seq<char>) -> bool {
    &&& path.len() >= 2
    &&& path[0] == '/'
    &&& forall|i: int| 1 <= i < path.len() ==> path[i] != '/'
}

/// Whether a pattern matches a path.
pub open spec fn fits(pattern: PatternModel, path: Seq<char>) -> bool {
    match pattern {
        PatternModel::Exact(text) => text == path,
        PatternModel::Segment => is_segment_path(path),
    }
}

/// The parameter that a matched route hands on: the segment for a segment
/// route, nothing for an exact one.
pub open spec fn parameter(pattern: PatternModel, path: Seq<char>) -> Seq<char> {
    match pattern {
        PatternModel::Exact(_) => Seq::empty(),
        PatternModel::Segment => path.subrange(1, path.len() as int),
    }
}

/// Whether some route of the table has this pattern.
pub open spec fn has_pattern(routes: Seq<RouteModel>, pattern: PatternModel) -> bool {
    exists|i: int| 0 <= i < routes.len() && (#[trigger] routes[i]).pattern == pattern
}

/// Whether the route at `i` is the first of the table with this pattern.
pub open spec fn is_first(routes: Seq<RouteModel>, pattern: PatternModel, i: int) -> bool {
    &&& 0 <= i < routes.len()
    &&& routes[i].pattern == pattern
    &&& forall|j: int| 0 <= j < i ==> (#[trigger] routes[j]).pattern != pattern
}

/// The index of the first route with this pattern, where there is one.
pub open spec fn first_index(routes: Seq<RouteModel>, pattern: PatternModel) -> int {
    choose|i: int| is_first(routes, pattern, i)
}

/// The route that serves a path: the first exact route with that very
/// text; where there is none and the path is a single segment, the first
/// segment route; else none.
pub open spec fn lookup(routes: Seq<RouteModel>, path: Seq<char>) -> Option<RouteModel> {
    if has_pattern(routes, PatternModel::Exact(path)) {
        Some(routes[first_index(routes, PatternModel::Exact(path))])
    } else if is_segment_path(path) && has_pattern(routes, PatternModel::Segment) {
        Some(routes[first_index(routes, PatternModel::Segment)])
    } else {
        None
    }
}

/// Whether the routes answer a method: GET, and HEAD in the same way.
pub open spec fn is_served(method: Method) -> bool {
    method == Method::Get || method == Method::Head
}

/// What is to be done with a request once its route and method are known.
#[derive(Debug)]
pub enum Step<'a> {
    /// The reply is settled, and no extraction step runs.
    Answer(Reply),
    /// The extraction step runs on this parameter, and its outcome settles
    /// the reply.
    Extract(&'a str),
}

/// A step as a model.
pub enum StepModel {
    Answer(ReplyModel),
    Extract(Seq<char>),
}

impl<'a> View for Step<'a> {
    type V = StepModel;

    open spec fn view(&self) -> StepModel {
        match self {
            Step::Answer(reply) => StepModel::Answer(reply@),
            Step::Extract(raw) => StepModel::Extract(raw@),
        }
    }
}

/// The step that a request calls for: "not found" where no route serves the
/// path; "method not allowed" where one does and the method is not served; the
/// plain handler's reply where the route leads to it; else an extraction on
/// the route's parameter.
pub open spec fn plan_model(routes: Seq<RouteModel>, method: Method, path: Seq<char>) -> StepModel {
    match lookup(routes, path) {
        None => StepModel::Answer(ReplyModel::bare(Status::NotFound)),
        Some(route) => if !is_served(method) {
            StepModel::Answer(ReplyModel::bare(Status::MethodNotAllowed))
        } else {
            match route.handler {
                Handler::Plain => StepModel::Answer(ReplyModel::bare(Status::Success)),
                Handler::WithIdentity => StepModel::Extract(parameter(route.pattern, path)),
            }
        },
    }
}

/// The reply to a request, given what the extraction step decides if it is
/// run.
pub open spec fn respond_model(
    routes: Seq<RouteModel>,
    method: Method,
    path: Seq<char>,
    outcome: Result<Seq<char>, Status>,
) -> ReplyModel {
    match plan_model(routes, method, path) {
        StepModel::Answer(reply) => reply,
        StepModel::Extract(_) => conclude_model(outcome),
    }
}

/// A found route as a model.
pub open spec fn found_model(found: Option<&Route>) -> Option<RouteModel> {
    match found {
        Some(route) => Some(route@),
        None => None,
    }
}

/// The routes of the service: every single-segment path leads to the handler
/// with an identity, but `/2`, which leads to the plain one.
pub open spec fn app_routes() -> Seq<RouteModel> {
    seq![
        RouteModel { pattern: PatternModel::Segment, handler: Handler::WithIdentity },
        RouteModel { pattern: PatternModel::Exact(seq!['/', '2']), handler: Handler::Plain },
    ]
}

/// The first route with a pattern is the one that `first_index` names.
pub proof fn lemma_first_index(routes: Seq<RouteModel>, pattern: PatternModel, i: int)
    requires
        is_first(routes, pattern, i),
    ensures
        has_pattern(routes, pattern),
        first_index(routes, pattern) == i,
{
    let k = first_index(routes, pattern);
    assert(is_first(routes, pattern, k));
    if k < i {
        assert(routes[k].pattern != pattern);
    }
    if i < k {
        assert(routes[i].pattern != pattern);
    }
}

/// Among the routes up to `i` that have a pattern, one is the first.
proof fn lemma_first_before(routes: Seq<RouteModel>, pattern: PatternModel, i: int)
    requires
        0 <= i < routes.len(),
        routes[i].pattern == pattern,
    ensures
        exists|k: int| is_first(routes, pattern, k),
    decreases i,
{
    if exists|j: int| 0 <= j < i && (#[trigger] routes[j]).pattern == pattern {
        let j = choose|j: int| 0 <= j < i && (#[trigger] routes[j]).pattern == pattern;
        lemma_first_before(routes, pattern, j);
    } else {
        assert(is_first(routes, pattern, i));
    }
}

/// Where some route has a pattern, `first_index` names the first of them.
pub proof fn lemma_first_exists(routes: Seq<RouteModel>, pattern: PatternModel)
    requires
        has_pattern(routes, pattern),
    ensures
        is_first(routes, pattern, first_index(routes, pattern)),
{
    let i = choose|i: int| 0 <= i < routes.len() && (#[trigger] routes[i]).pattern == pattern;
    lemma_first_before(routes, pattern, i);
}

/// Whether a path is `/` and a single segment after it.
pub fn names_one_segment(path: &str) -> (yes: bool)
    ensures
        yes == is_segment_path(path@),
{
    let n: usize = path.unicode_len();
    if n < 2 || path.get_char(0) != '/' {
        return false;
    }
    let mut i: usize = 1;
    while i < n
        invariant
            1 <= i <= n,
            n == path@.len(),
            forall|j: int| 1 <= j < i ==> path@[j] != '/',
        decreases n - i,
    {
        if path.get_char(i) == '/' {
            return false;
        }
        i += 1;
    }
    true
}

/// A table of routes, in the order in which they were registered.
#[derive(Debug)]
pub struct Router {
    routes: Vec<Route>,
}

impl View for Router {
    type V = Seq<RouteModel>;

    closed spec fn view(&self) -> Seq<RouteModel> {
        self.routes@.map_values(|route: Route| route@)
    }
}

impl Router {
    /// The table without routes.
    pub fn new() -> (table: Router)
        ensures
            table@ == Seq::<RouteModel>::empty(),
    {
        let table = Router { routes: Vec::new() };
        assert(table@ =~= Seq::<RouteModel>::empty());
        table
    }

    /// The table with one more route, after those it has.
    pub fn route(self, pattern: Pattern, handler: Handler) -> (table: Router)
        ensures
            table@ == self@.push(RouteModel { pattern: pattern@, handler }),
    {
        let mut routes = self.routes;
        routes.push(Route { pattern, handler });
        let table = Router { routes };
        assert(table@ =~= self@.push(RouteModel { pattern: pattern@, handler }));
        table
    }

    /// The routes, in the order in which they were registered.
    pub fn routes(&self) -> (routes: &Vec<Route>)
        ensures
            routes@.len() == self@.len(),
            forall|i: int| 0 <= i < routes@.len() ==> (#[trigger] routes@[i])@ == self@[i],
    {
        &self.routes
    }

    /// The route that serves a path, if any does.
    pub fn find(&self, path: &str) -> (found: Option<&Route>)
        ensures
            found_model(found) == lookup(self@, path@),
            found matches Some(route) ==> fits(route@.pattern, path@),
    {
        let wanted = path.to_owned();
        let mut fallback: Option<usize> = None;
        let mut i: usize = 0;
        while i < self.routes.len()
            invariant
                i <= self.routes.len(),
                self@.len() == self.routes.len(),
                wanted@ == path@,
                forall|j: int| 0 <= j < i ==> (#[trigger] self@[j]).pattern != PatternModel::Exact(path@),
                match fallback {
                    Some(k) => k < i && is_first(self@, PatternModel::Segment, k as int),
                    None => forall|j: int| 0 <= j < i ==> (#[trigger] self@[j]).pattern != PatternModel::Segment,
                },
            decreases self.routes.len() - i,
        {
            let route = &self.routes[i];
            assert(route@ == self@[i as int]);
            match &route.pattern {
                Pattern::Exact(text) => {
                    if *text == wanted {
                        proof {
                            lemma_first_index(self@, PatternModel::Exact(path@), i as int);
                        }
                        return Some(route);
                    }
                },
                Pattern::Segment => {
                    if fallback.is_none() {
                        fallback = Some(i);
                    }
                },
            }
            i += 1;
        }
        assert(!has_pattern(self@, PatternModel::Exact(path@)));
        if !names_one_segment(path) {
            return None;
        }
        match fallback {
            Some(k) => {
                proof {
                    lemma_first_index(self@, PatternModel::Segment, k as int);
                }
                Some(&self.routes[k])
            },
            None => {
                assert(!has_pattern(self@, PatternModel::Segment));
                None
            },
        }
    }

    /// Plans the answer to a request: finds its route and checks the
    /// method. The reply is then settled, or it hangs on the extraction step,
    /// which is to run on the parameter that the plan names.
    pub fn plan<'a>(&self, method: Method, path: &'a str) -> (step: Step<'a>)
        ensures
            step@ == plan_model(self@, method, path@),
    {
        let route = match self.find(path) {
            Some(route) => route,
            None => {
                return Step::Answer(Reply::bare(Status::NotFound));
            },
        };
        match method {
            Method::Get | Method::Head => {},
            _ => {
                return Step::Answer(Reply::bare(Status::MethodNotAllowed));
            },
        }
        match route.handler {
            Handler::Plain => Step::Answer(hello_world2()),
            Handler::WithIdentity => match &route.pattern {
                Pattern::Exact(_) => {
                    proof {
                        reveal_strlit("");
                    }
                    assert(""@ =~= Seq::<char>::empty());
                    Step::Extract("")
                },
                Pattern::Segment => Step::Extract(path.substring_char(1, path.unicode_len())),
            },
        }
    }

    /// Answers a request: plans it, runs the extraction step where the plan
    /// asks for it, and runs the handler. A rejection by the extraction step
    /// is the reply, and the handler does not run.
    pub fn respond<F: Fn(&str) -> Result<ClientId, Status>>(
        &self,
        extractor: F,
        method: Method,
        path: &str,
    ) -> (reply: Reply)
        requires
            forall|raw: &str|
                plan_model(self@, method, path@) == StepModel::Extract(raw@)
                    ==> #[trigger] call_requires(extractor, (raw,)),
        ensures
            match plan_model(self@, method, path@) {
                StepModel::Answer(settled) => reply@ == settled,
                StepModel::Extract(parameter) => exists|raw: &str, outcome: Result<ClientId, Status>|
                    {
                        &&& raw@ == parameter
                        &&& #[trigger] call_ensures(extractor, (raw,), outcome)
                        &&& reply@ == respond_model(self@, method, path@, outcome_model(outcome))
                    },
            },
    {
        match self.plan(method, path) {
            Step::Answer(reply) => reply,
            Step::Extract(raw) => conclude(extractor(raw)),
        }
    }
}

/// The table of the service: `/:client_id` leads to `hello_world`, `/2` to
/// `hello_world2`.
pub fn app() -> (table: Router)
    ensures
        table@ == app_routes(),
{
    let plain = "/2".to_owned();
    proof {
        reveal_strlit("/2");
        assert(plain@ =~= seq!['/', '2']);
    }
    let table = Router::new().route(Pattern::Segment, Handler::WithIdentity).route(
        Pattern::Exact(plain),
        Handler::Plain,
    );
    assert(table@ =~= app_routes());
    table
}

} // verus!
