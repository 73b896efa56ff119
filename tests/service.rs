use rmcp_core::error::{INTERNAL_ERROR, INVALID_PARAMS, METHOD_NOT_FOUND};
use rmcp_core::id_provider::{progress_token_from_count, request_id_from_count};
use rmcp_core::roles::{
    ClientInfo, ClientNotification, ClientRequest, ClientResult, RoleClient, RoleServer,
    ServerInfo, ServerNotification, ServerRequest, ServerResult,
};
use rmcp_core::service_traits::serve_request;
use rmcp_core::services::{BasicClient, BasicServer};
use rmcp_core::{
    AtomicU32Provider, CancellationConvertible, CancelledNotification, DynService, Error,
    NumberOrString, ProgressToken, ProgressTokenProvider, Reply, RequestContext,
    RequestIdProvider, Service, ServiceRole,
};
use std::collections::HashSet;

fn client() -> BasicClient {
    BasicClient { info: ClientInfo { name: "probe".to_string(), version: "1.0".to_string() } }
}

fn server() -> BasicServer {
    BasicServer { info: ServerInfo { name: "hub".to_string(), version: "2.3".to_string() } }
}

#[test]
fn provider_starts_at_zero_and_counts_up() {
    let p = AtomicU32Provider::new();
    assert_eq!(p.next_request_id(), NumberOrString::Number(0));
    assert_eq!(p.next_request_id(), NumberOrString::Number(1));
    assert_eq!(p.next_progress_token(), ProgressToken(NumberOrString::Number(2)));
    let d = AtomicU32Provider::default();
    assert_eq!(d.next_progress_token(), ProgressToken(NumberOrString::Number(0)));
}

#[test]
fn provider_ids_are_unique() {
    let p = AtomicU32Provider::new();
    let mut ids = HashSet::new();
    let mut tokens = HashSet::new();
    for i in 0..1000 {
        if i % 3 == 0 {
            assert!(tokens.insert(p.next_progress_token()));
        } else {
            assert!(ids.insert(p.next_request_id()));
        }
    }
    assert_eq!(ids.len() + tokens.len(), 1000);
}

#[test]
fn minting_tags_the_count() {
    assert_eq!(request_id_from_count(u32::MAX), NumberOrString::Number(u32::MAX));
    assert_eq!(progress_token_from_count(5), ProgressToken(NumberOrString::Number(5)));
}

#[test]
fn cancellation_round_trip_both_roles() {
    let c = CancelledNotification::new(NumberOrString::Number(7), Some("timeout".to_string()));
    let n = ClientNotification::from_cancelled(c.clone());
    assert_eq!(n.try_into_cancelled(), Ok(c.clone()));
    let s = CancelledNotification::new(NumberOrString::String("req-a".to_string()), None);
    let m = ServerNotification::from_cancelled(s.clone());
    let back = m.try_into_cancelled().unwrap();
    assert_eq!(back.request_id, NumberOrString::String("req-a".to_string()));
    assert_eq!(back.reason, None);
}

#[test]
fn other_notifications_come_back_unchanged() {
    let n = ClientNotification::Progress {
        token: ProgressToken(NumberOrString::Number(3)),
        progress: 40,
    };
    assert_eq!(n.clone().try_into_cancelled(), Err(n));
    assert_eq!(ClientNotification::Initialized.try_into_cancelled(), Err(ClientNotification::Initialized));
    let m = ServerNotification::Log { message: "hello".to_string() };
    assert_eq!(m.clone().try_into_cancelled(), Err(m));
}

#[test]
fn get_info_is_stable() {
    let c = client();
    let a = Service::<RoleClient>::get_info(&c);
    let b = Service::<RoleClient>::get_info(&c);
    assert_eq!(a, b);
    assert_eq!(a.name, "probe");
    let s = server();
    assert_eq!(Service::<RoleServer>::get_info(&s), Service::<RoleServer>::get_info(&s));
}

#[test]
fn failed_request_replies_with_error_only() {
    let c = client();
    let r = serve_request::<RoleClient, _>(
        &c,
        ServerRequest::Custom { method: "sampling".to_string() },
        NumberOrString::Number(9),
    );
    assert_eq!(
        r,
        Reply::Error {
            id: NumberOrString::Number(9),
            error: Error::new(METHOD_NOT_FOUND, "sampling".to_string()),
        }
    );
}

#[test]
fn erased_dispatch_matches_direct_calls() {
    let s = server();
    let reqs = vec![
        ClientRequest::Ping,
        ClientRequest::Initialize(ClientInfo { name: "x".to_string(), version: "0".to_string() }),
        ClientRequest::Custom { method: "tools/list".to_string() },
    ];
    for req in reqs {
        let direct = Service::<RoleServer>::handle_request(
            &s,
            req.clone(),
            RequestContext::new(NumberOrString::Number(1)),
        );
        let erased = {
            let d: &dyn DynService<RoleServer> = &s;
            d.handle_request(req, RequestContext::new(NumberOrString::Number(1)))
        };
        assert_eq!(direct, erased);
    }
    let d: &dyn DynService<RoleServer> = &s;
    assert_eq!(d.get_info(), Service::<RoleServer>::get_info(&s));
    assert_eq!(
        d.handle_notification(ClientNotification::Initialized),
        Service::<RoleServer>::handle_notification(&s, ClientNotification::Initialized)
    );
}

#[test]
fn client_answers_ping_with_pong() {
    let c = client();
    let out = Service::<RoleClient>::handle_request(
        &c,
        ServerRequest::Ping,
        RequestContext::new(NumberOrString::Number(7)),
    );
    assert_eq!(out, Ok(ClientResult::Pong));
    let r = serve_request::<RoleClient, _>(&c, ServerRequest::Ping, NumberOrString::Number(7));
    assert_eq!(r, Reply::Result { id: NumberOrString::Number(7), result: ClientResult::Pong });
}

#[test]
fn server_acknowledges_cancellation() {
    let s = server();
    let n = ClientNotification::from_cancelled(CancelledNotification::new(
        NumberOrString::Number(7),
        None,
    ));
    let c = n.clone().try_into_cancelled().unwrap();
    assert_eq!(c.request_id, NumberOrString::Number(7));
    assert_eq!(Service::<RoleServer>::handle_notification(&s, n), Ok(()));
}

#[test]
fn server_initialize_returns_its_info() {
    let s = server();
    let out = Service::<RoleServer>::handle_request(
        &s,
        ClientRequest::Initialize(ClientInfo { name: "c".to_string(), version: "1".to_string() }),
        RequestContext::new(NumberOrString::String("init".to_string())),
    );
    assert_eq!(
        out,
        Ok(ServerResult::Initialize(ServerInfo { name: "hub".to_string(), version: "2.3".to_string() }))
    );
}

#[test]
fn role_flags() {
    assert!(<RoleClient as ServiceRole>::IS_CLIENT);
    assert!(!<RoleServer as ServiceRole>::IS_CLIENT);
}

#[test]
fn error_constructors_set_codes() {
    assert_eq!(Error::internal_error("boom".to_string()).code, INTERNAL_ERROR);
    assert_eq!(Error::invalid_params("p".to_string()).code, INVALID_PARAMS);
    let e = Error::method_not_found("m".to_string());
    assert_eq!(e.code, -32601);
    assert_eq!(e.message, "m");
}

#[test]
fn context_carries_request_id() {
    let ctx: RequestContext<RoleClient> = RequestContext::new(NumberOrString::String("abc".to_string()));
    assert_eq!(ctx.request_id, NumberOrString::String("abc".to_string()));
}
