//! Route descriptors discovered in generated server code, and the rule that
//! picks out the endpoints which are safe to probe automatically.

use vstd::prelude::*;

verus! {

/// One HTTP endpoint discovered in the generated source. The `method` and
/// `is_route_dynamic` fields are exact lower-case string tokens produced by
/// the schema extractor (`"get"`, `"false"`, ...).
#[derive(Debug)]
pub struct RouteObject {
    pub route: String,
    pub method: String,
    pub is_route_dynamic: String,
}

impl Clone for RouteObject {
    fn clone(&self) -> (r: Self)
        ensures
            r == *self,
    {
        RouteObject {
            route: self.route.clone(),
            method: self.method.clone(),
            is_route_dynamic: self.is_route_dynamic.clone(),
        }
    }
}

/// A route is safe to probe without path parameters exactly when it is a
/// static GET endpoint.
pub open spec fn is_static_get(r: RouteObject) -> bool {
    r.method@ == "get"@ && r.is_route_dynamic@ == "false"@
}

/// The descriptors with method `"get"` and `is_route_dynamic` `"false"`, in
/// their input order.
pub open spec fn static_get_routes(s: Seq<RouteObject>) -> Seq<RouteObject> {
    s.filter(|r: RouteObject| is_static_get(r))
}

/// Keep exactly the static GET descriptors, preserving their order.
pub fn filter_probable_routes(routes: &Vec<RouteObject>) -> (r: Vec<RouteObject>)
    ensures
        r@ == static_get_routes(routes@),
{
    let get_token = String::from_str("get");
    let false_token = String::from_str("false");
    let mut out: Vec<RouteObject> = Vec::new();
    let mut i: usize = 0;
    while i < routes.len()
        invariant
            i <= routes.len(),
            get_token@ == "get"@,
            false_token@ == "false"@,
            out@ == static_get_routes(routes@.subrange(0, i as int)),
        decreases routes.len() - i,
    {
        let ro = &routes[i];
        if ro.method == get_token && ro.is_route_dynamic == false_token {
            out.push(ro.clone());
        }
        proof {
            reveal(Seq::filter);
            let prefix = routes@.subrange(0, i as int);
            let extended = routes@.subrange(0, i + 1 as int);
            assert(extended.drop_last() =~= prefix);
            assert(extended.last() == routes@[i as int]);
        }
        i = i + 1;
    }
    proof {
        assert(routes@.subrange(0, routes@.len() as int) =~= routes@);
    }
    out
}

/// Filtering a sequence in which every entry already satisfies the static GET
/// rule leaves it unchanged.
proof fn lemma_filter_all_static_get(s: Seq<RouteObject>)
    requires
        forall|i: int| 0 <= i < s.len() ==> is_static_get(#[trigger] s[i]),
    ensures
        static_get_routes(s) == s,
    decreases s.len(),
{
    reveal(Seq::filter);
    if s.len() == 0 {
        assert(static_get_routes(s) =~= s);
    } else {
        lemma_filter_all_static_get(s.drop_last());
        assert(static_get_routes(s) =~= s);
    }
}

/// The filter is a pure predicate on each entry: applying it to its own
/// output returns that output unchanged.
pub proof fn lemma_filter_idempotent(s: Seq<RouteObject>)
    ensures
        static_get_routes(static_get_routes(s)) == static_get_routes(s),
{
    let once = static_get_routes(s);
    assert forall|i: int| 0 <= i < once.len() implies is_static_get(#[trigger] once[i]) by {
        s.lemma_filter_pred(|r: RouteObject| is_static_get(r), i);
    }
    lemma_filter_all_static_get(once);
}

} // verus!
