use vstd::prelude::*;

verus! {

/// The HTTP methods the server answers.
#[derive(Debug, Clone, Copy, PartialEq, Eq, Structural)]
pub enum Method {
    Get,
    Post,
    Delete,
}

/// The request handlers of the server.
#[derive(Debug, Clone, Copy, PartialEq, Eq, Structural)]
pub enum Handler {
    /// All measures.
    ListMeasures,
    /// Create a measure.
    AddMeasure,
    /// Convert a weight into a random measure.
    Convert,
    /// One measure by id.
    GetMeasure,
    /// Delete a measure by id.
    RemoveMeasure,
    /// Update a measure by id.
    UpdateMeasure,
    /// The profile of the logged-in user.
    CurrentUser,
}

/// A route: a method and a path (relative to the group's prefix) served by a handler.
pub struct Route {
    pub method: Method,
    pub path: &'static str,
    pub handler: Handler,
}

/// A group of routes under a common prefix.
pub struct Routes {
    pub prefix: &'static str,
    pub routes: Vec<Route>,
}

/// A route as plain values: method, path characters, handler.
pub open spec fn route_view(r: Route) -> (Method, Seq<char>, Handler) {
    (r.method, r.path@, r.handler)
}

/// The routes of the measures group, in the order they are registered.
pub open spec fn spec_measure_routes() -> Seq<(Method, Seq<char>, Handler)> {
    seq![
        (Method::Get, seq!['/'], Handler::ListMeasures),
        (Method::Post, seq!['/'], Handler::AddMeasure),
        (Method::Post, seq!['/', 'c', 'o', 'n', 'v', 'e', 'r', 't'], Handler::Convert),
        (Method::Get, seq!['/', ':', 'i', 'd'], Handler::GetMeasure),
        (Method::Delete, seq!['/', ':', 'i', 'd'], Handler::RemoveMeasure),
        (Method::Post, seq!['/', ':', 'i', 'd'], Handler::UpdateMeasure),
    ]
}

/// The measures group: under `measures`, listing and creation at the root, the
/// conversion at `/convert`, and reading, deleting and updating one measure at `/:id`.
pub fn measure_routes() -> (r: Routes)
    ensures
        r.prefix@ == seq!['m', 'e', 'a', 's', 'u', 'r', 'e', 's'],
        r.routes@.map_values(|x: Route| route_view(x)) == spec_measure_routes(),
{
    proof {
        reveal_strlit("measures");
        reveal_strlit("/");
        reveal_strlit("/convert");
        reveal_strlit("/:id");
        assert("measures"@ =~= seq!['m', 'e', 'a', 's', 'u', 'r', 'e', 's']);
        assert("/"@ =~= seq!['/']);
        assert("/convert"@ =~= seq!['/', 'c', 'o', 'n', 'v', 'e', 'r', 't']);
        assert("/:id"@ =~= seq!['/', ':', 'i', 'd']);
    }
    let mut routes: Vec<Route> = Vec::new();
    routes.push(Route { method: Method::Get, path: "/", handler: Handler::ListMeasures });
    routes.push(Route { method: Method::Post, path: "/", handler: Handler::AddMeasure });
    routes.push(Route { method: Method::Post, path: "/convert", handler: Handler::Convert });
    routes.push(Route { method: Method::Get, path: "/:id", handler: Handler::GetMeasure });
    routes.push(Route { method: Method::Delete, path: "/:id", handler: Handler::RemoveMeasure });
    routes.push(Route { method: Method::Post, path: "/:id", handler: Handler::UpdateMeasure });
    assert(routes@.map_values(|x: Route| route_view(x)) =~= spec_measure_routes());
    Routes { prefix: "measures", routes }
}

/// The user group: under `user`, the profile at `/current`.
pub fn user_routes() -> (r: Routes)
    ensures
        r.prefix@ == seq!['u', 's', 'e', 'r'],
        r.routes@.map_values(|x: Route| route_view(x)) == seq![
            (Method::Get, seq!['/', 'c', 'u', 'r', 'r', 'e', 'n', 't'], Handler::CurrentUser),
        ],
{
    proof {
        reveal_strlit("user");
        reveal_strlit("/current");
        assert("user"@ =~= seq!['u', 's', 'e', 'r']);
        assert("/current"@ =~= seq!['/', 'c', 'u', 'r', 'r', 'e', 'n', 't']);
    }
    let mut routes: Vec<Route> = Vec::new();
    routes.push(Route { method: Method::Get, path: "/current", handler: Handler::CurrentUser });
    assert(routes@.map_values(|x: Route| route_view(x)) =~= seq![
        (Method::Get, seq!['/', 'c', 'u', 'r', 'r', 'e', 'n', 't'], Handler::CurrentUser),
    ]);
    Routes { prefix: "user", routes }
}

/// No two routes of the measures group share a method and a path, so each request
/// reaches one handler; and each handler is reached by one route.
pub proof fn lemma_measure_routes_unambiguous(i: int, j: int)
    requires
        0 <= i < spec_measure_routes().len(),
        0 <= j < spec_measure_routes().len(),
        i != j,
    ensures
        (spec_measure_routes()[i].0, spec_measure_routes()[i].1) != (
            spec_measure_routes()[j].0,
            spec_measure_routes()[j].1,
        ),
        spec_measure_routes()[i].2 != spec_measure_routes()[j].2,
{
    let r = spec_measure_routes();
    assert(r[0].1 != r[2].1) by { assert(r[0].1.len() != r[2].1.len()); }
    assert(r[1].1 != r[2].1) by { assert(r[1].1.len() != r[2].1.len()); }
    assert(r[0].1 != r[3].1) by { assert(r[0].1.len() != r[3].1.len()); }
    assert(r[1].1 != r[5].1) by { assert(r[1].1.len() != r[5].1.len()); }
    assert(r[2].1 != r[5].1) by { assert(r[2].1.len() != r[5].1.len()); }
}

} // verus!
