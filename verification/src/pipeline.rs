use crate::config::{Config, ConfigModel};
use crate::errors::{spec_error_response, ErrorModel, KeyValueError, Response, ResponseModel};
use crate::handlers::{
    delete_all, delete_one, kv_get, kv_set, list_keys, spec_delete_one, spec_get_value,
    spec_join_keys,
};
use crate::router::{
    is_admin, route, spec_is_admin, spec_route, Request, RequestModel, Route, RouteModel,
};
use crate::store::Store;
use crate::util::{bytes_eq, push_bytes};
use vstd::prelude::*;

verus! {

/// The admitted-count of the concurrency limiter: the only mutable shared
/// state of the pipeline. A request is in flight from admission until its
/// response completes; the count never exceeds the limit.
pub struct Admission {
    pub limit: usize,
    pub in_flight: usize,
}

impl Admission {
    /// The count stays within the limit.
    pub open spec fn wf(self) -> bool {
        self.in_flight <= self.limit
    }

    /// Whether the limiter has room for one more request.
    pub open spec fn spec_has_room(self) -> bool {
        self.in_flight < self.limit
    }

    /// A limiter with the given bound and nothing in flight.
    pub fn new(limit: usize) -> (a: Admission)
        ensures
            a.limit == limit,
            a.in_flight == 0,
            a.wf(),
    {
        Admission { limit, in_flight: 0 }
    }

    /// Admits the request when the limiter has room, counting it in flight;
    /// turns it back to the load-shedding stage otherwise, leaving the count
    /// untouched. Never queues.
    pub fn try_admit(&mut self) -> (admitted: bool)
        requires
            old(self).wf(),
        ensures
            final(self).wf(),
            final(self).limit == old(self).limit,
            admitted == old(self).spec_has_room(),
            admitted ==> final(self).in_flight == old(self).in_flight + 1,
            !admitted ==> final(self).in_flight == old(self).in_flight,
    {
        if self.in_flight < self.limit {
            self.in_flight = self.in_flight + 1;
            true
        } else {
            false
        }
    }

    /// Counts an admitted request out again once its response has completed,
    /// on the success, error and cancellation paths alike.
    pub fn release(&mut self)
        requires
            old(self).in_flight > 0,
        ensures
            final(self).limit == old(self).limit,
            final(self).in_flight == old(self).in_flight - 1,
    {
        self.in_flight = self.in_flight - 1;
    }
}

/// A saturated limiter sheds: when as many requests are in flight as the
/// limit allows, the next one is turned away rather than queued, and the
/// count does not move.
pub proof fn lemma_admission_control(a: Admission)
    requires
        a.wf(),
        a.in_flight == a.limit,
    ensures
        !a.spec_has_room(),
{
}

/// The value the authorization header must carry: the bearer scheme prefix
/// followed by the configured credential.
pub open spec fn spec_bearer_prefix() -> Seq<u8> {
    seq!['B' as u8, 'e' as u8, 'a' as u8, 'r' as u8, 'e' as u8, 'r' as u8, ' ' as u8]
}

/// Whether a presented authorization header is the valid bearer form of the
/// configured credential. An absent header never is.
pub open spec fn spec_is_bearer(auth: Option<Seq<u8>>, credential: Seq<u8>) -> bool {
    match auth {
        Some(h) => h == spec_bearer_prefix() + credential,
        None => false,
    }
}

/// Checks a presented authorization header against the configured credential.
pub fn bearer_authorized(authorization: &Option<Vec<u8>>, credential: &Vec<u8>) -> (r: bool)
    ensures
        r == spec_is_bearer(
            match *authorization {
                Some(h) => Some(h@),
                None => None,
            },
            credential@,
        ),
{
    match authorization {
        None => false,
        Some(h) => {
            let mut expected: Vec<u8> = vec![
                'B' as u8, 'e' as u8, 'a' as u8, 'r' as u8, 'e' as u8, 'r' as u8, ' ' as u8,
            ];
            proof {
                assert(expected@ =~= spec_bearer_prefix());
            }
            push_bytes(&mut expected, credential);
            bytes_eq(h, &expected)
        },
    }
}

/// Only the read path of a single key is compressed; write and administrative
/// responses never are.
pub open spec fn spec_should_compress(r: RouteModel) -> bool {
    r is GetValue
}

/// Tells whether the selective-compression stage applies to a route's
/// successful response.
pub fn should_compress(route: &Route) -> (r: bool)
    ensures
        r == spec_should_compress(route@),
{
    match route {
        Route::GetValue(_) => true,
        _ => false,
    }
}

/// Whether a request that has been processing for `elapsed_millis` has
/// outlived the configured ceiling and must be cut off.
pub fn deadline_exceeded(elapsed_millis: u64, timeout_millis: u64) -> (r: bool)
    ensures
        r == (elapsed_millis > timeout_millis),
{
    elapsed_millis > timeout_millis
}

/// What the store holds after a request has been routed, gated and handled:
/// unrouted, rejected and read-only requests leave it as it was; an admitted
/// write, flush or delete changes exactly what its handler says.
pub open spec fn spec_store_after(
    cfg: ConfigModel,
    m: Map<Seq<u8>, Seq<u8>>,
    req: RequestModel,
) -> Map<Seq<u8>, Seq<u8>> {
    match spec_route(req.method, req.segments) {
        None => m,
        Some(rt) => {
            if spec_is_admin(rt) && !spec_is_bearer(req.authorization, cfg.credential) {
                m
            } else {
                match rt {
                    RouteModel::SetValue(k) => {
                        if req.body.len() <= cfg.max_payload {
                            m.insert(k, req.body)
                        } else {
                            m
                        }
                    },
                    RouteModel::DeleteAll => Map::empty(),
                    RouteModel::DeleteOne(k) => m.remove(k),
                    _ => m,
                }
            }
        },
    }
}

/// The transport response a routed request is answered with, given the store
/// it found: the routing-level not-found default, the authorization and
/// payload-size rejections, the handlers' successes, and the mapper's
/// rendering of every handler failure.
pub open spec fn spec_response_after(cfg: ConfigModel, s: Store, req: RequestModel) -> ResponseModel {
    match spec_route(req.method, req.segments) {
        None => ResponseModel { status: 404, body: Seq::empty() },
        Some(rt) => {
            if spec_is_admin(rt) && !spec_is_bearer(req.authorization, cfg.credential) {
                spec_error_response(ErrorModel::Unauthorized)
            } else {
                match rt {
                    RouteModel::GetValue(k) => match spec_get_value(s@, k) {
                        Ok(v) => ResponseModel { status: 200, body: v },
                        Err(e) => spec_error_response(e),
                    },
                    RouteModel::SetValue(_) => {
                        if req.body.len() <= cfg.max_payload {
                            ResponseModel { status: 200, body: Seq::empty() }
                        } else {
                            ResponseModel { status: 413, body: Seq::empty() }
                        }
                    },
                    RouteModel::ListKeys => ResponseModel {
                        status: 200,
                        body: spec_join_keys(s.key_seq()),
                    },
                    RouteModel::DeleteAll => ResponseModel { status: 200, body: Seq::empty() },
                    RouteModel::DeleteOne(k) => match spec_delete_one(s@, k) {
                        Ok(_) => ResponseModel { status: 200, body: Seq::empty() },
                        Err(e) => spec_error_response(e),
                    },
                }
            }
        },
    }
}

/// Routes one request, gates the privileged sub-tree behind the bearer
/// credential, enforces the payload-size bound before any store operation,
/// runs the handler, and renders any failure through the mapper. The
/// admission and timeout stages surround this in `process`.
pub fn handle(config: &Config, store: &mut Store, req: &Request) -> (r: Response)
    requires
        old(store).wf(),
    ensures
        final(store).wf(),
        final(store)@ == spec_store_after(config@, old(store)@, req@),
        r@ == spec_response_after(config@, *old(store), req@),
{
    let routed = route(&req.method, &req.segments);
    match routed {
        None => Response { status: 404, body: Vec::new() },
        Some(rt) => {
            if is_admin(&rt) && !bearer_authorized(&req.authorization, &config.credential) {
                return KeyValueError::Unauthorized.into_response();
            }
            match rt {
                Route::GetValue(k) => match kv_get(store, &k) {
                    Ok(v) => Response { status: 200, body: v },
                    Err(e) => e.into_response(),
                },
                Route::SetValue(k) => {
                    if req.body.len() > config.max_payload {
                        Response { status: 413, body: Vec::new() }
                    } else {
                        match kv_set(store, &k, &req.body) {
                            Ok(_) => Response { status: 200, body: Vec::new() },
                            Err(e) => e.into_response(),
                        }
                    }
                },
                Route::ListKeys => match list_keys(store) {
                    Ok(s) => Response { status: 200, body: s },
                    Err(e) => e.into_response(),
                },
                Route::DeleteAll => match delete_all(store) {
                    Ok(_) => Response { status: 200, body: Vec::new() },
                    Err(e) => e.into_response(),
                },
                Route::DeleteOne(k) => match delete_one(store, &k) {
                    Ok(_) => Response { status: 200, body: Vec::new() },
                    Err(e) => e.into_response(),
                },
            }
        },
    }
}

/// How the interaction with the backing store ended, as the surrounding
/// stages see it: it completed within the deadline, the timeout stage cut it
/// off before any write was issued, or the store failed with the described
/// cause.
pub enum BackendOutcome {
    Completed,
    TimedOut,
    Failed(Vec<u8>),
}

/// The assembled pipeline around the router: the process-wide configuration
/// and the limiter's admitted count.
pub struct Gateway {
    pub config: Config,
    pub admission: Admission,
}

impl Gateway {
    /// The limiter is bound by the configured concurrency limit.
    pub open spec fn wf(self) -> bool {
        self.admission.wf() && self.admission.limit == self.config.concurrency_limit
    }
}

/// Composes the pipeline around the router in its fixed order, with nothing
/// yet in flight.
pub fn build_server(config: Config) -> (g: Gateway)
    ensures
        g.config == config,
        g.admission.in_flight == 0,
        g.wf(),
{
    let limit = config.concurrency_limit;
    Gateway { config, admission: Admission::new(limit) }
}

impl Gateway {
    /// Carries one request through every stage in order: load shedding and
    /// admission first, then — for admitted requests only — the timeout
    /// verdict, backend failure mapping, and the routed handler; the
    /// admitted count is restored on every path, so in-flight accounting
    /// never leaks. A request that was shed or cut off leaves the store
    /// untouched: a cancelled write never half-applies.
    pub fn process(&mut self, store: &mut Store, req: &Request, outcome: BackendOutcome) -> (r:
        Response)
        requires
            old(self).wf(),
            old(store).wf(),
        ensures
            final(self).wf(),
            final(store).wf(),
            final(self).config == old(self).config,
            final(self).admission == old(self).admission,
            !old(self).admission.spec_has_room() ==> r@ == spec_error_response(
                ErrorModel::Overloaded,
            ) && final(store)@ == old(store)@,
            old(self).admission.spec_has_room() ==> match outcome {
                BackendOutcome::Completed => r@ == spec_response_after(
                    old(self).config@,
                    *old(store),
                    req@,
                ) && final(store)@ == spec_store_after(old(self).config@, old(store)@, req@),
                BackendOutcome::TimedOut => r@ == spec_error_response(ErrorModel::TimedOut)
                    && final(store)@ == old(store)@,
                BackendOutcome::Failed(cause) => r@ == spec_error_response(
                    ErrorModel::BackendError(cause@),
                ) && final(store)@ == old(store)@,
            },
    {
        if !self.admission.try_admit() {
            return KeyValueError::Overloaded.into_response();
        }
        let r = match outcome {
            BackendOutcome::Completed => handle(&self.config, store, req),
            BackendOutcome::TimedOut => KeyValueError::TimedOut.into_response(),
            BackendOutcome::Failed(cause) => KeyValueError::BackendError(cause).into_response(),
        };
        self.admission.release();
        r
    }
}

/// The payload-size boundary: a write whose body is within the bound
/// succeeds and stores exactly the body; one over the bound is answered with
/// the oversize rejection before any store operation, leaving the store as
/// it was.
pub proof fn lemma_size_boundary(cfg: ConfigModel, s: Store, req: RequestModel, k: Seq<u8>)
    requires
        spec_route(req.method, req.segments) == Some(RouteModel::SetValue(k)),
    ensures
        req.body.len() <= cfg.max_payload ==> spec_response_after(cfg, s, req).status == 200
            && spec_store_after(cfg, s@, req) == s@.insert(k, req.body),
        req.body.len() > cfg.max_payload ==> spec_response_after(cfg, s, req).status == 413
            && spec_store_after(cfg, s@, req) == s@,
{
}

/// The round trip through the gateway: a routed write whose payload is
/// within the bound answers with success, and a read of the same key against
/// any store the write left behind answers with success and exactly the
/// payload written.
pub proof fn lemma_gateway_round_trip(
    cfg: ConfigModel,
    s: Store,
    s2: Store,
    post: RequestModel,
    get: RequestModel,
    k: Seq<u8>,
    v: Seq<u8>,
)
    requires
        spec_route(post.method, post.segments) == Some(RouteModel::SetValue(k)),
        post.body == v,
        v.len() <= cfg.max_payload,
        spec_route(get.method, get.segments) == Some(RouteModel::GetValue(k)),
        s2@ == spec_store_after(cfg, s@, post),
    ensures
        spec_response_after(cfg, s, post).status == 200,
        spec_response_after(cfg, s2, get) == (ResponseModel { status: 200, body: v }),
{
}

/// Authorization gates the privileged flush: without the valid bearer
/// credential the request is rejected with the unauthorized status and no
/// store mutation is performed; with it, the flush runs and succeeds.
pub proof fn lemma_admin_authorization(cfg: ConfigModel, s: Store, req: RequestModel)
    requires
        spec_route(req.method, req.segments) == Some(RouteModel::DeleteAll),
    ensures
        !spec_is_bearer(req.authorization, cfg.credential) ==> spec_response_after(
            cfg,
            s,
            req,
        ).status == 401 && spec_store_after(cfg, s@, req) == s@,
        spec_is_bearer(req.authorization, cfg.credential) ==> spec_response_after(
            cfg,
            s,
            req,
        ).status == 200 && spec_store_after(cfg, s@, req) == Map::<Seq<u8>, Seq<u8>>::empty(),
{
}

} // verus!
