use beevulyk_grpc_extensions::channel_holder::{
    ChannelConnector, ConnectOutcome, ConnectStep, GrpcChannelHolder, CONNECT_RETRIES,
};
use beevulyk_grpc_extensions::error::GrpcReadError;

fn runtime() -> tokio::runtime::Runtime {
    tokio::runtime::Builder::new_current_thread().enable_all().build().unwrap()
}

fn lazy_channel() -> tonic::transport::Channel {
    tonic::transport::Endpoint::from_static("http://127.0.0.1:50051").connect_lazy()
}

fn transport_error() -> tonic::transport::Error {
    tonic::transport::Endpoint::from_shared("not a uri").err().unwrap()
}

#[test]
fn new_holder_is_empty() {
    let holder = GrpcChannelHolder::new();
    assert!(holder.channel.is_none());
    assert!(holder.reuse_existing_channel().is_none());
    let holder = GrpcChannelHolder::default();
    assert!(holder.channel.is_none());
}

#[test]
fn set_channel_is_reused_and_dropped() {
    let rt = runtime();
    let _guard = rt.enter();
    let mut holder = GrpcChannelHolder::new();
    holder.set("users", "http://127.0.0.1:50051".to_string(), lazy_channel());
    assert!(holder.reuse_existing_channel().is_some());
    assert!(holder.reuse_existing_channel().is_some());
    let dropped = holder.drop_channel().unwrap();
    assert_eq!(dropped.host, "http://127.0.0.1:50051");
    assert_eq!(dropped.service_name, "users");
    assert!(holder.reuse_existing_channel().is_none());
    assert!(holder.drop_channel().is_none());
}

#[test]
fn set_replaces_held_channel() {
    let rt = runtime();
    let _guard = rt.enter();
    let mut holder = GrpcChannelHolder::new();
    holder.set("a", "http://a:1".to_string(), lazy_channel());
    holder.set("b", "http://b:2".to_string(), lazy_channel());
    let data = holder.drop_channel().unwrap();
    assert_eq!(data.service_name, "b");
    assert_eq!(data.host, "http://b:2");
}

#[test]
fn connector_parses_endpoint() {
    let connector = ChannelConnector::new("http://127.0.0.1:50051".to_string(), "users");
    assert!(connector.endpoint().is_ok());
    assert_eq!(connector.connect_url(), "http://127.0.0.1:50051");
    assert_eq!(connector.attempt_no(), 0);
    let bad = ChannelConnector::new("not a uri".to_string(), "users");
    assert!(bad.endpoint().is_err());
}

#[test]
fn connection_establishes_and_is_held() {
    let rt = runtime();
    let _guard = rt.enter();
    let mut holder = GrpcChannelHolder::new();
    let mut connector = ChannelConnector::new("http://127.0.0.1:50051".to_string(), "users");
    let step = connector.on_outcome(&mut holder, ConnectOutcome::Connected(lazy_channel()));
    assert!(matches!(step, ConnectStep::Established(_)));
    let data = holder.drop_channel().unwrap();
    assert_eq!(data.host, "http://127.0.0.1:50051");
    assert_eq!(data.service_name, "users");
}

#[test]
fn connection_gives_up_after_five_timeouts() {
    assert_eq!(CONNECT_RETRIES, 4);
    let mut holder = GrpcChannelHolder::new();
    let mut connector = ChannelConnector::new("http://127.0.0.1:50051".to_string(), "users");
    let mut attempts = 0;
    loop {
        attempts += 1;
        match connector.on_outcome(&mut holder, ConnectOutcome::TimedOut) {
            ConnectStep::TryAgain => continue,
            ConnectStep::GiveUp(err) => {
                assert!(matches!(err, GrpcReadError::Timeout));
                break;
            }
            ConnectStep::Established(_) => panic!("no channel was opened"),
        }
    }
    assert_eq!(attempts, 5);
    assert!(holder.channel.is_none());
}

#[test]
fn connection_gives_up_with_transport_error() {
    let mut holder = GrpcChannelHolder::new();
    let mut connector = ChannelConnector::new("http://127.0.0.1:50051".to_string(), "users");
    for _ in 0..4 {
        let step = connector.on_outcome(&mut holder, ConnectOutcome::Failed(transport_error()));
        assert!(matches!(step, ConnectStep::TryAgain));
    }
    assert_eq!(connector.attempt_no(), 4);
    let step = connector.on_outcome(&mut holder, ConnectOutcome::Failed(transport_error()));
    assert!(matches!(step, ConnectStep::GiveUp(GrpcReadError::TransportError(_))));
}

#[test]
fn errors_convert_into_read_errors() {
    let status = tonic::Status::not_found("no such user");
    match GrpcReadError::from(status) {
        GrpcReadError::TonicStatus(status) => {
            assert_eq!(status.code(), tonic::Code::NotFound);
            assert_eq!(status.message(), "no such user");
        }
        other => panic!("unexpected {other:?}"),
    }
    assert!(matches!(
        GrpcReadError::from(transport_error()),
        GrpcReadError::TransportError(_)
    ));
    let rt = runtime();
    let elapsed = rt
        .block_on(async {
            tokio::time::timeout(std::time::Duration::from_millis(1), std::future::pending::<()>())
                .await
        })
        .unwrap_err();
    assert!(matches!(GrpcReadError::from(elapsed), GrpcReadError::Timeout));
}

#[test]
fn connector_endpoint_keeps_its_own_url() {
    let connector = ChannelConnector::new("http://10.1.2.3:7000/".to_string(), "users");
    let endpoint = connector.endpoint().unwrap();
    assert_eq!(endpoint.uri().to_string(), "http://10.1.2.3:7000/");
    let other = ChannelConnector::new("https://example.org:443/".to_string(), "orders");
    assert_eq!(other.endpoint().unwrap().uri().to_string(), "https://example.org:443/");
}
