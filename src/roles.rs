use crate::model::{CancelledNotification, ProgressToken};
use crate::service_traits::{CancellationConvertible, ServiceRole, TransferObject};
use vstd::prelude::*;

verus! {

/// What a client tells the server about itself when a session is set up.
#[derive(Debug, PartialEq, Eq)]
pub struct ClientInfo {
    pub name: String,
    pub version: String,
}

/// What a server tells the client about itself when a session is set up.
#[derive(Debug, PartialEq, Eq)]
pub struct ServerInfo {
    pub name: String,
    pub version: String,
}

impl Clone for ClientInfo {
    fn clone(&self) -> (r: Self)
        ensures
            r == *self,
    {
        ClientInfo { name: self.name.clone(), version: self.version.clone() }
    }
}

impl Clone for ServerInfo {
    fn clone(&self) -> (r: Self)
        ensures
            r == *self,
    {
        ServerInfo { name: self.name.clone(), version: self.version.clone() }
    }
}

/// Requests a client sends to a server.
#[derive(Debug, Clone, PartialEq, Eq)]
pub enum ClientRequest {
    Ping,
    Initialize(ClientInfo),
    Custom { method: String },
}

/// Requests a server sends to a client.
#[derive(Debug, Clone, PartialEq, Eq)]
pub enum ServerRequest {
    Ping,
    Custom { method: String },
}

/// Responses a client sends to a server's requests.
#[derive(Debug, Clone, PartialEq, Eq)]
pub enum ClientResult {
    Pong,
    Empty,
}

/// Responses a server sends to a client's requests.
#[derive(Debug, Clone, PartialEq, Eq)]
pub enum ServerResult {
    Pong,
    Initialize(ServerInfo),
    Empty,
}

/// Notifications a client sends to a server.
#[derive(Debug, Clone, PartialEq, Eq)]
pub enum ClientNotification {
    Cancelled(CancelledNotification),
    Initialized,
    Progress { token: ProgressToken, progress: u32 },
}

/// Notifications a server sends to a client.
#[derive(Debug, Clone, PartialEq, Eq)]
pub enum ServerNotification {
    Cancelled(CancelledNotification),
    Progress { token: ProgressToken, progress: u32 },
    Log { message: String },
}

impl CancellationConvertible for ClientNotification {
    open spec fn cancellation(&self) -> Option<CancelledNotification> {
        match self {
            ClientNotification::Cancelled(c) => Some(*c),
            _ => None,
        }
    }

    open spec fn spec_from_cancelled(c: CancelledNotification) -> Self {
        ClientNotification::Cancelled(c)
    }

    proof fn lemma_from_cancelled(c: CancelledNotification) {
    }

    fn try_into_cancelled(self) -> (r: Result<CancelledNotification, Self>) {
        match self {
            ClientNotification::Cancelled(c) => Ok(c),
            other => Err(other),
        }
    }

    fn from_cancelled(c: CancelledNotification) -> (r: Self) {
        ClientNotification::Cancelled(c)
    }
}

impl CancellationConvertible for ServerNotification {
    open spec fn cancellation(&self) -> Option<CancelledNotification> {
        match self {
            ServerNotification::Cancelled(c) => Some(*c),
            _ => None,
        }
    }

    open spec fn spec_from_cancelled(c: CancelledNotification) -> Self {
        ServerNotification::Cancelled(c)
    }

    proof fn lemma_from_cancelled(c: CancelledNotification) {
    }

    fn try_into_cancelled(self) -> (r: Result<CancelledNotification, Self>) {
        match self {
            ServerNotification::Cancelled(c) => Ok(c),
            other => Err(other),
        }
    }

    fn from_cancelled(c: CancelledNotification) -> (r: Self) {
        ServerNotification::Cancelled(c)
    }
}

impl TransferObject for ClientInfo {

}

impl TransferObject for ServerInfo {

}

impl TransferObject for ClientRequest {

}

impl TransferObject for ServerRequest {

}

impl TransferObject for ClientResult {

}

impl TransferObject for ServerResult {

}

impl TransferObject for ClientNotification {

}

impl TransferObject for ServerNotification {

}

/// The client role: sends client requests and notifications, receives the
/// server's.
#[derive(Debug, Clone, Copy, PartialEq, Eq)]
pub struct RoleClient;

/// The server role: sends server requests and notifications, receives the
/// client's.
#[derive(Debug, Clone, Copy, PartialEq, Eq)]
pub struct RoleServer;

impl ServiceRole for RoleClient {
    type Req = ClientRequest;
    type Resp = ClientResult;
    type Not = ClientNotification;
    type PeerReq = ServerRequest;
    type PeerResp = ServerResult;
    type PeerNot = ServerNotification;
    type Info = ClientInfo;
    type PeerInfo = ServerInfo;

    const IS_CLIENT: bool = true;
}

impl ServiceRole for RoleServer {
    type Req = ServerRequest;
    type Resp = ServerResult;
    type Not = ServerNotification;
    type PeerReq = ClientRequest;
    type PeerResp = ClientResult;
    type PeerNot = ClientNotification;
    type Info = ServerInfo;
    type PeerInfo = ClientInfo;

    const IS_CLIENT: bool = false;
}

} // verus!
