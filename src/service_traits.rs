use crate::error::Error;
use crate::model::{CancelledNotification, RequestId};
use vstd::prelude::*;

verus! {

/// What every payload shape in a role position must offer: it can be cloned,
/// printed for debugging and shared across concurrent handling.
pub trait TransferObject: Clone + core::fmt::Debug + Send + Sync + 'static {

}

/// A notification vocabulary that can recognise and produce the canonical
/// cancellation notification.
pub trait CancellationConvertible: Sized {
    /// The cancellation this notification stands for, if it is one.
    spec fn cancellation(&self) -> Option<CancelledNotification>;

    /// The notification that `from_cancelled(c)` produces.
    spec fn spec_from_cancelled(c: CancelledNotification) -> Self;

    /// Converting from the canonical form loses nothing.
    proof fn lemma_from_cancelled(c: CancelledNotification)
        ensures
            Self::spec_from_cancelled(c).cancellation() == Some(c),
    ;

    /// Converts to the canonical form; a notification of any other kind
    /// comes back unchanged.
    fn try_into_cancelled(self) -> (r: Result<CancelledNotification, Self>)
        ensures
            match r {
                Ok(c) => self.cancellation() == Some(c) && self == Self::spec_from_cancelled(c),
                Err(n) => self.cancellation() is None && n == self,
            },
    ;

    /// Builds the notification that stands for `c`.
    fn from_cancelled(c: CancelledNotification) -> (r: Self)
        ensures
            r == Self::spec_from_cancelled(c),
    ;
}

/// A compile-time bundle of the payload shapes one endpoint sends and receives.
pub trait ServiceRole: Copy + Clone + core::fmt::Debug + Send + Sync + 'static {
    type Req: TransferObject;
    type Resp: TransferObject;
    type Not: TransferObject + CancellationConvertible;
    type PeerReq: TransferObject;
    type PeerResp: TransferObject;
    type PeerNot: TransferObject + CancellationConvertible;
    type Info: TransferObject;
    type PeerInfo: TransferObject;

    const IS_CLIENT: bool;
}

} // verus!

verus! {

/// What one call of `handle_request` is told about the request it serves.
pub struct RequestContext<R: ServiceRole> {
    pub _marker: core::marker::PhantomData<R>,
    pub request_id: RequestId,
}

/// The context under which a request with identifier `id` is served.
pub open spec fn spec_context<R: ServiceRole>(id: RequestId) -> RequestContext<R> {
    RequestContext { _marker: core::marker::PhantomData, request_id: id }
}

impl<R: ServiceRole> RequestContext<R> {
    /// The context of the request with identifier `request_id`.
    pub fn new(request_id: RequestId) -> (r: Self)
        ensures
            r == spec_context::<R>(request_id),
            r.request_id == request_id,
    {
        RequestContext { _marker: core::marker::PhantomData, request_id }
    }
}

/// The message handling contract of an endpoint bound to role `R`.
///
/// Each operation yields exactly the outcome that its spec function names,
/// so that a caller can reason about a handler without running it.
pub trait Service<R: ServiceRole>: Send + Sync + 'static {
    /// The outcome of serving `request` in `context`.
    spec fn request_outcome(&self, request: R::PeerReq, context: RequestContext<R>) -> Result<
        R::Resp,
        Error,
    >;

    /// The outcome of receiving `notification`.
    spec fn notification_outcome(&self, notification: R::PeerNot) -> Result<(), Error>;

    /// The capability information of this endpoint.
    spec fn info(&self) -> R::Info;

    /// Handles an incoming request from the peer: one response or one error.
    fn handle_request(&self, request: R::PeerReq, context: RequestContext<R>) -> (r: Result<
        R::Resp,
        Error,
    >)
        ensures
            r == self.request_outcome(request, context),
    ;

    /// Handles an incoming notification from the peer; nothing goes back.
    fn handle_notification(&self, notification: R::PeerNot) -> (r: Result<(), Error>)
        ensures
            r == self.notification_outcome(notification),
    ;

    /// The capability information of this endpoint; the same on every call.
    fn get_info(&self) -> (r: R::Info)
        ensures
            r == self.info(),
    ;
}

/// The handling contract behind one uniform interface, for collections of
/// handlers that differ only in their concrete type.
pub trait DynService<R: ServiceRole>: Send + Sync {
    spec fn dyn_request_outcome(&self, request: R::PeerReq, context: RequestContext<R>) -> Result<
        R::Resp,
        Error,
    >;

    spec fn dyn_notification_outcome(&self, notification: R::PeerNot) -> Result<(), Error>;

    spec fn dyn_info(&self) -> R::Info;

    fn handle_request(&self, request: R::PeerReq, context: RequestContext<R>) -> (r: Result<
        R::Resp,
        Error,
    >)
        ensures
            r == self.dyn_request_outcome(request, context),
    ;

    fn handle_notification(&self, notification: R::PeerNot) -> (r: Result<(), Error>)
        ensures
            r == self.dyn_notification_outcome(notification),
    ;

    fn get_info(&self) -> (r: R::Info)
        ensures
            r == self.dyn_info(),
    ;
}

impl<R: ServiceRole, S: Service<R>> DynService<R> for S {
    open spec fn dyn_request_outcome(&self, request: R::PeerReq, context: RequestContext<R>) -> Result<
        R::Resp,
        Error,
    > {
        Service::<R>::request_outcome(self, request, context)
    }

    open spec fn dyn_notification_outcome(&self, notification: R::PeerNot) -> Result<(), Error> {
        Service::<R>::notification_outcome(self, notification)
    }

    open spec fn dyn_info(&self) -> R::Info {
        Service::<R>::info(self)
    }

    fn handle_request(&self, request: R::PeerReq, context: RequestContext<R>) -> (r: Result<
        R::Resp,
        Error,
    >) {
        Service::<R>::handle_request(self, request, context)
    }

    fn handle_notification(&self, notification: R::PeerNot) -> (r: Result<(), Error>) {
        Service::<R>::handle_notification(self, notification)
    }

    fn get_info(&self) -> (r: R::Info) {
        Service::<R>::get_info(self)
    }
}

/// The erased adapter behaves exactly as the handler it wraps: the same
/// response or error for every request, the same result for every
/// notification, and the same capability information.
pub proof fn lemma_dyn_service_transparent<R: ServiceRole, S: Service<R>>(
    service: &S,
    request: R::PeerReq,
    context: RequestContext<R>,
    notification: R::PeerNot,
)
    ensures
        DynService::<R>::dyn_request_outcome(service, request, context) == Service::<
            R,
        >::request_outcome(service, request, context),
        DynService::<R>::dyn_notification_outcome(service, notification) == Service::<
            R,
        >::notification_outcome(service, notification),
        DynService::<R>::dyn_info(service) == Service::<R>::info(service),
{
}

} // verus!

verus! {

/// A notification built from a canonical cancellation converts back to it,
/// with the same request identifier and the same reason.
pub proof fn lemma_cancellation_round_trip<N: CancellationConvertible>(c: CancelledNotification)
    ensures
        N::spec_from_cancelled(c).cancellation() == Some(c),
        N::spec_from_cancelled(c).cancellation()->Some_0.request_id == c.request_id,
        N::spec_from_cancelled(c).cancellation()->Some_0.reason == c.reason,
{
    N::lemma_from_cancelled(c);
}

/// What goes back to the peer for one request: its result or its error,
/// under the request's identifier.
#[derive(Debug, Clone, PartialEq, Eq)]
pub enum Reply<T> {
    Result { id: RequestId, result: T },
    Error { id: RequestId, error: Error },
}

/// The reply that serving a request with outcome `outcome` owes the peer.
pub open spec fn spec_reply<T>(id: RequestId, outcome: Result<T, Error>) -> Reply<T> {
    match outcome {
        Ok(result) => Reply::Result { id, result },
        Err(error) => Reply::Error { id, error },
    }
}

/// Serves one request: the handler is called once, and exactly one reply
/// comes back, a result when the handler succeeded and an error, carrying
/// no result at all, when it failed.
pub fn serve_request<R: ServiceRole, S: Service<R>>(
    service: &S,
    request: R::PeerReq,
    id: RequestId,
) -> (r: Reply<R::Resp>)
    ensures
        r == spec_reply(id, service.request_outcome(request, spec_context::<R>(id))),
        r is Error <==> service.request_outcome(request, spec_context::<R>(id)) is Err,
{
    let context = RequestContext::<R>::new(id.clone());
    match service.handle_request(request, context) {
        Ok(result) => Reply::Result { id, result },
        Err(error) => Reply::Error { id, error },
    }
}

} // verus!
