use crate::util::bytes_eq;
use vstd::prelude::*;

verus! {

/// The request methods the gateway dispatches on.
#[derive(Clone, Copy, Debug, PartialEq, Eq, Structural)]
pub enum Method {
    Get,
    Post,
    Delete,
}

/// The handler a request is dispatched to, with the captured key segment
/// where the route takes one.
pub enum Route {
    GetValue(Vec<u8>),
    SetValue(Vec<u8>),
    ListKeys,
    DeleteAll,
    DeleteOne(Vec<u8>),
}

/// The mathematical content of a `Route`.
pub enum RouteModel {
    GetValue(Seq<u8>),
    SetValue(Seq<u8>),
    ListKeys,
    DeleteAll,
    DeleteOne(Seq<u8>),
}

impl View for Route {
    type V = RouteModel;

    open spec fn view(&self) -> RouteModel {
        match self {
            Route::GetValue(k) => RouteModel::GetValue(k@),
            Route::SetValue(k) => RouteModel::SetValue(k@),
            Route::ListKeys => RouteModel::ListKeys,
            Route::DeleteAll => RouteModel::DeleteAll,
            Route::DeleteOne(k) => RouteModel::DeleteOne(k@),
        }
    }
}

/// The dispatch result as mathematical content.
pub open spec fn spec_route_opt(r: Option<Route>) -> Option<RouteModel> {
    match r {
        Some(rt) => Some(rt@),
        None => None,
    }
}

/// An inbound request, reduced to what routing and the pipeline read: the
/// method, the path split at `/` into its segments, the raw body, and the
/// value of the authorization header if one was sent.
pub struct Request {
    pub method: Method,
    pub segments: Vec<Vec<u8>>,
    pub body: Vec<u8>,
    pub authorization: Option<Vec<u8>>,
}

/// The mathematical content of a `Request`.
pub struct RequestModel {
    pub method: Method,
    pub segments: Seq<Seq<u8>>,
    pub body: Seq<u8>,
    pub authorization: Option<Seq<u8>>,
}

impl View for Request {
    type V = RequestModel;

    open spec fn view(&self) -> RequestModel {
        RequestModel {
            method: self.method,
            segments: Seq::new(self.segments@.len(), |i: int| self.segments@[i]@),
            body: self.body@,
            authorization: match self.authorization {
                Some(v) => Some(v@),
                None => None,
            },
        }
    }
}

pub open spec fn seg_keys() -> Seq<u8> {
    seq!['k' as u8, 'e' as u8, 'y' as u8, 's' as u8]
}

pub open spec fn seg_admin() -> Seq<u8> {
    seq!['a' as u8, 'd' as u8, 'm' as u8, 'i' as u8, 'n' as u8]
}

pub open spec fn seg_key() -> Seq<u8> {
    seq!['k' as u8, 'e' as u8, 'y' as u8]
}

/// Exact method-and-path dispatch. A single-segment path is the key routes,
/// with the static `/keys` path winning over the key capture; the `admin`
/// segment opens the privileged sub-tree, which holds only the two delete
/// routes; everything else is unrouted and answered with the transport-level
/// not-found default.
pub open spec fn spec_route(method: Method, segments: Seq<Seq<u8>>) -> Option<RouteModel> {
    if segments.len() == 1 && segments[0] == seg_keys() {
        if method is Get {
            Some(RouteModel::ListKeys)
        } else {
            None
        }
    } else if segments.len() >= 1 && segments[0] == seg_admin() {
        if segments.len() == 2 && segments[1] == seg_keys() && method is Delete {
            Some(RouteModel::DeleteAll)
        } else if segments.len() == 3 && segments[1] == seg_key() && segments[2].len() > 0
            && method is Delete {
            Some(RouteModel::DeleteOne(segments[2]))
        } else {
            None
        }
    } else if segments.len() == 1 && segments[0].len() > 0 {
        if method is Get {
            Some(RouteModel::GetValue(segments[0]))
        } else if method is Post {
            Some(RouteModel::SetValue(segments[0]))
        } else {
            None
        }
    } else {
        None
    }
}

/// The privileged sub-tree: the routes that the authorization stage gates.
pub open spec fn spec_is_admin(r: RouteModel) -> bool {
    match r {
        RouteModel::DeleteAll => true,
        RouteModel::DeleteOne(_) => true,
        _ => false,
    }
}

fn keys_segment() -> (r: Vec<u8>)
    ensures
        r@ == seg_keys(),
{
    let v: Vec<u8> = vec!['k' as u8, 'e' as u8, 'y' as u8, 's' as u8];
    v
}

fn admin_segment() -> (r: Vec<u8>)
    ensures
        r@ == seg_admin(),
{
    let v: Vec<u8> = vec!['a' as u8, 'd' as u8, 'm' as u8, 'i' as u8, 'n' as u8];
    v
}

fn key_segment() -> (r: Vec<u8>)
    ensures
        r@ == seg_key(),
{
    let v: Vec<u8> = vec!['k' as u8, 'e' as u8, 'y' as u8];
    v
}

/// Dispatches a method and path to a handler, or to nothing.
pub fn route(method: &Method, segments: &Vec<Vec<u8>>) -> (r: Option<Route>)
    ensures
        spec_route_opt(r) == spec_route(*method, Seq::new(segments@.len(), |i: int| segments@[i]@)),
{
    let ghost segs = Seq::new(segments@.len(), |i: int| segments@[i]@);
    if segments.len() == 1 && bytes_eq(&segments[0], &keys_segment()) {
        proof {
            assert(segs[0] == seg_keys());
        }
        match method {
            Method::Get => Some(Route::ListKeys),
            _ => None,
        }
    } else if segments.len() >= 1 && bytes_eq(&segments[0], &admin_segment()) {
        proof {
            assert(segs[0] == seg_admin());
        }
        if segments.len() == 2 && bytes_eq(&segments[1], &keys_segment()) && matches!(
            method,
            Method::Delete,
        ) {
            proof {
                assert(segs[1] == seg_keys());
            }
            Some(Route::DeleteAll)
        } else if segments.len() == 3 && bytes_eq(&segments[1], &key_segment())
            && segments[2].len() > 0 && matches!(method, Method::Delete) {
            proof {
                assert(segs[1] == seg_key());
                assert(segs[2] == segments@[2]@);
            }
            Some(Route::DeleteOne(segments[2].clone()))
        } else {
            None
        }
    } else if segments.len() == 1 && segments[0].len() > 0 {
        proof {
            assert(segs[0] == segments@[0]@);
        }
        match method {
            Method::Get => Some(Route::GetValue(segments[0].clone())),
            Method::Post => Some(Route::SetValue(segments[0].clone())),
            Method::Delete => None,
        }
    } else {
        None
    }
}

/// Tells whether a route lies in the privileged sub-tree.
pub fn is_admin(route: &Route) -> (r: bool)
    ensures
        r == spec_is_admin(route@),
{
    match route {
        Route::DeleteAll => true,
        Route::DeleteOne(_) => true,
        _ => false,
    }
}

} // verus!
