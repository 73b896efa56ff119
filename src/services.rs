use crate::error::{Error, METHOD_NOT_FOUND};
use crate::roles::{
    ClientInfo, ClientNotification, ClientRequest, ClientResult, RoleClient, RoleServer,
    ServerInfo, ServerNotification, ServerRequest, ServerResult,
};
use crate::service_traits::{RequestContext, Service};
use vstd::prelude::*;

verus! {

/// A client endpoint that answers the server's pings and refuses every
/// other request as an unknown method.
pub struct BasicClient {
    pub info: ClientInfo,
}

/// A server endpoint that answers pings, answers initialization with its own
/// information, and refuses every other request as an unknown method.
///
/// Cancellations are advisory: its handlers finish without suspending, so a
/// cancellation finds nothing in flight and is acknowledged.
pub struct BasicServer {
    pub info: ServerInfo,
}

impl Service<RoleClient> for BasicClient {
    open spec fn request_outcome(
        &self,
        request: ServerRequest,
        context: RequestContext<RoleClient>,
    ) -> Result<ClientResult, Error> {
        match request {
            ServerRequest::Ping => Ok(ClientResult::Pong),
            ServerRequest::Custom { method } => Err(
                Error { code: METHOD_NOT_FOUND, message: method },
            ),
        }
    }

    open spec fn notification_outcome(&self, notification: ServerNotification) -> Result<(), Error> {
        Ok(())
    }

    open spec fn info(&self) -> ClientInfo {
        self.info
    }

    fn handle_request(&self, request: ServerRequest, context: RequestContext<RoleClient>) -> (r:
        Result<ClientResult, Error>) {
        match request {
            ServerRequest::Ping => Ok(ClientResult::Pong),
            ServerRequest::Custom { method } => Err(Error::method_not_found(method)),
        }
    }

    fn handle_notification(&self, notification: ServerNotification) -> (r: Result<(), Error>) {
        Ok(())
    }

    fn get_info(&self) -> (r: ClientInfo) {
        self.info.clone()
    }
}

impl Service<RoleServer> for BasicServer {
    open spec fn request_outcome(
        &self,
        request: ClientRequest,
        context: RequestContext<RoleServer>,
    ) -> Result<ServerResult, Error> {
        match request {
            ClientRequest::Ping => Ok(ServerResult::Pong),
            ClientRequest::Initialize(_) => Ok(ServerResult::Initialize(self.info)),
            ClientRequest::Custom { method } => Err(
                Error { code: METHOD_NOT_FOUND, message: method },
            ),
        }
    }

    open spec fn notification_outcome(&self, notification: ClientNotification) -> Result<(), Error> {
        Ok(())
    }

    open spec fn info(&self) -> ServerInfo {
        self.info
    }

    fn handle_request(&self, request: ClientRequest, context: RequestContext<RoleServer>) -> (r:
        Result<ServerResult, Error>) {
        match request {
            ClientRequest::Ping => Ok(ServerResult::Pong),
            ClientRequest::Initialize(_) => Ok(ServerResult::Initialize(self.info.clone())),
            ClientRequest::Custom { method } => Err(Error::method_not_found(method)),
        }
    }

    fn handle_notification(&self, notification: ClientNotification) -> (r: Result<(), Error>) {
        Ok(())
    }

    fn get_info(&self) -> (r: ServerInfo) {
        self.info.clone()
    }
}

} // verus!
