use base64::Engine;
use game_server_manager::backend::auth::{
    hash_password, issue_access_token, issue_access_token_at, verify_password, TokenError,
    MAX_TIMESTAMP, MAX_TTL_MINUTES,
};
use game_server_manager::backend::auth_service::{AuthService, StoredUser};
use game_server_manager::backend::config::{AppConfig, ConfigError, ConfigSource};
use game_server_manager::backend::error::ServiceError;
use game_server_manager::backend::models::{
    is_supported_game_kind, CreateContainerResponse, CreateServerRequest, NodeFileContentResponse,
    NodeFileEntry, NodeFileListResponse, NodeFileMutationResponse, ServerFileContentResponse,
    ServerFileListResponse, ServerFileMutationResponse,
};
use game_server_manager::backend::node_client::{HttpMethod, NodeCall};
use game_server_manager::backend::servers::{
    require_container_id, status_response, CreationCommand, CreationEvent, CreationPhase,
    DeletionCommand, DeletionEvent, DeletionPhase, NodeAction, ServerCreation, ServerDeletion,
    ServerRow, ServerTransition, TransitionCommand,
    TransitionEvent, TransitionPhase,
};
use game_server_manager::daemon::models::{ServerSettings, SettingValue};

fn source() -> ConfigSource {
    ConfigSource {
        host: None,
        port: None,
        database_url: Some("postgres://db".to_string()),
        jwt_secret: Some("jwt-secret".to_string()),
        access_token_ttl_minutes: None,
    }
}

fn app_config() -> AppConfig {
    AppConfig::from_env(&source()).ok().unwrap()
}

fn create_request() -> CreateServerRequest {
    CreateServerRequest {
        name: "Survival".to_string(),
        node_id: 1,
        game_kind: "minecraft".to_string(),
        server_settings: ServerSettings { is_object: true, entries: vec![("motd".to_string(), SettingValue::Other)] },
        allocated_port: 25565,
        memory_limit_mb: 2048,
        cpu_limit_percent: 100,
    }
}

fn validation_message(r: &CreateServerRequest) -> String {
    match r.validate() {
        Err(ServiceError::Validation(m)) => m,
        other => panic!("expected a validation error, got {:?}", other),
    }
}

#[test]
fn app_config_defaults() {
    let c = app_config();
    assert_eq!(c.host, "127.0.0.1");
    assert_eq!(c.port, 5000);
    assert_eq!(c.database_url, "postgres://db");
    assert_eq!(c.jwt_secret, "jwt-secret");
    assert_eq!(c.access_token_ttl_minutes, 60);
}

#[test]
fn app_config_overrides_and_errors() {
    let mut s = source();
    s.host = Some("0.0.0.0".to_string());
    s.port = Some(70000);
    s.access_token_ttl_minutes = Some(5);
    let c = AppConfig::from_env(&s).ok().unwrap();
    assert_eq!((c.host.as_str(), c.port, c.access_token_ttl_minutes), ("0.0.0.0", 70000i64 as u16, 5));
    let mut s = source();
    s.database_url = None;
    s.jwt_secret = None;
    let e = AppConfig::from_env(&s).err().unwrap();
    assert_eq!(e, ConfigError::MissingDatabaseUrl);
    assert_eq!(e.message(), "DATABASE_URL is required");
    let mut s = source();
    s.jwt_secret = None;
    let e = AppConfig::from_env(&s).err().unwrap();
    assert_eq!(e.message(), "JWT_SECRET is required");
}

#[test]
fn supported_game_kinds() {
    assert!(is_supported_game_kind("minecraft"));
    assert!(is_supported_game_kind("rust"));
    assert!(is_supported_game_kind("hytale"));
    assert!(!is_supported_game_kind("Minecraft"));
    assert!(!is_supported_game_kind(""));
}

#[test]
fn create_server_validation() {
    assert!(create_request().validate().is_ok());
    let mut r = create_request();
    r.name = "ab".to_string();
    assert_eq!(validation_message(&r), "name: length must be between 3 and 64");
    r.name = "äöü".to_string();
    assert!(r.validate().is_ok());
    let mut r = create_request();
    r.allocated_port = 65536;
    assert_eq!(validation_message(&r), "allocated_port: must be between 1 and 65535");
    let mut r = create_request();
    r.memory_limit_mb = 127;
    assert_eq!(validation_message(&r), "memory_limit_mb: must be between 128 and 262144");
    let mut r = create_request();
    r.cpu_limit_percent = 1001;
    assert_eq!(validation_message(&r), "cpu_limit_percent: must be between 1 and 1000");
    let mut r = create_request();
    r.game_kind = "terraria".to_string();
    assert_eq!(validation_message(&r), "game_kind must be one of: minecraft, rust, hytale");
    let mut r = create_request();
    r.server_settings = ServerSettings { is_object: false, entries: vec![] };
    assert_eq!(validation_message(&r), "server_settings must be a JSON object");
}

#[test]
fn passwords_round_trip() {
    let hash = hash_password("correct horse").ok().unwrap();
    assert_ne!(hash, "correct horse");
    assert!(verify_password("correct horse", &hash));
    assert!(!verify_password("wrong horse", &hash));
    assert!(!verify_password("correct horse", "not a hash"));
}

#[test]
fn access_tokens() {
    let c = app_config();
    let a = issue_access_token(&c, "6f1c2f1e-0a3b-4c5d-8e9f-001122334455", "a@b.c".to_string()).ok().unwrap();
    assert_eq!(a.token_type, "Bearer");
    assert_eq!(a.expires_in_seconds, 3600);
    assert_eq!(a.user.id, "6f1c2f1e-0a3b-4c5d-8e9f-001122334455");
    assert_eq!(a.user.email, "a@b.c");
    assert_eq!(a.access_token.split('.').count(), 3);
    assert!(a.access_token.starts_with("eyJ"));
}

#[test]
fn login_decisions() {
    let service = AuthService::new(app_config());
    assert!(matches!(service.login(None, "pw"), Err(ServiceError::Unauthorized)));
    let hash = service.prepare_registration("pw").ok().unwrap();
    let user = || StoredUser { id: "u1".to_string(), email: "a@b.c".to_string(), password_hash: hash.clone() };
    assert!(matches!(service.login(Some(user()), "other"), Err(ServiceError::Unauthorized)));
    let a = service.login(Some(user()), "pw").ok().unwrap();
    assert_eq!(a.user.id, "u1");
    assert!(matches!(AuthService::ensure_email_available(true), Err(ServiceError::Conflict(m)) if m == "email already exists"));
    assert!(AuthService::ensure_email_available(false).is_ok());
    let a = service.finish_registration("u2", "x@y.z".to_string()).ok().unwrap();
    assert_eq!(a.user.email, "x@y.z");
}

#[test]
fn node_call_urls() {
    let p = NodeCall::StartContainer.plan("http://node:8080");
    assert_eq!((p.method, p.url.as_str(), p.query_path), (HttpMethod::Post, "http://node:8080/containers/start", None));
    let p = NodeCall::ContainerStatus { container_id: "abc".to_string() }.plan("http://n");
    assert_eq!((p.method, p.url.as_str()), (HttpMethod::Get, "http://n/containers/abc/status"));
    let p = NodeCall::ListFiles { container_id: "s1".to_string(), path: Some("logs".to_string()) }.plan("http://n");
    assert_eq!((p.url.as_str(), p.query_path.as_deref()), ("http://n/containers/s1/files", Some("logs")));
    let p = NodeCall::ReadFile { container_id: "s1".to_string(), file_path: "a.txt".to_string() }.plan("http://n");
    assert_eq!(p.query_path.as_deref(), Some("a.txt"));
    let p = NodeCall::WriteFile { container_id: "s1".to_string() }.plan("http://n");
    assert_eq!((p.method, p.url.as_str()), (HttpMethod::Put, "http://n/containers/s1/file"));
    let p = NodeCall::CreateDirectory { container_id: "s1".to_string() }.plan("http://n");
    assert_eq!(p.url, "http://n/containers/s1/directories");
    assert_eq!(NodeCall::CreateContainer.plan("http://n").url, "http://n/containers/create");
    assert_eq!(NodeCall::DeleteContainer.plan("http://n").url, "http://n/containers/delete");
    assert_eq!(NodeCall::ContainerLogs { container_id: "c".to_string() }.plan("http://n").url, "http://n/containers/c/logs");
}

#[test]
fn node_answers_pass_through() {
    let list = ServerFileListResponse::from_node(NodeFileListResponse {
        server_id: "s".to_string(),
        path: "p".to_string(),
        entries: vec![NodeFileEntry { name: "n".to_string(), path: "p/n".to_string(), is_directory: false, size_bytes: 7 }],
    });
    assert_eq!((list.server_id.as_str(), list.path.as_str(), list.entries.len()), ("s", "p", 1));
    assert_eq!((list.entries[0].path.as_str(), list.entries[0].size_bytes), ("p/n", 7));
    let c = ServerFileContentResponse::from_node(NodeFileContentResponse { server_id: "s".to_string(), path: "p".to_string(), content: "c".to_string() });
    assert_eq!(c.content, "c");
    let m = ServerFileMutationResponse::from_node(NodeFileMutationResponse { server_id: "s".to_string(), path: "p".to_string() });
    assert_eq!(m.path, "p");
}

#[test]
fn status_and_delete_decisions() {
    assert_eq!(require_container_id(Some("c".to_string())).ok().unwrap(), "c");
    assert!(matches!(require_container_id(None), Err(ServiceError::Conflict(m)) if m == "server has no assigned container id"));
    let s = status_response("s".to_string(), "starting".to_string(), "running".to_string());
    assert_eq!((s.desired_status.as_str(), s.actual_status.as_str()), ("starting", "running"));
}

#[test]
fn deletion_flow() {
    let (mut d, cmd) = ServerDeletion::begin("s".to_string(), Some("c".to_string()));
    assert!(matches!(cmd, DeletionCommand::DeleteContainer { container_id } if container_id == "c"));
    let cmd = d.step(DeletionEvent::ContainerDeleted(Ok(())));
    assert!(matches!(cmd, DeletionCommand::DeleteRow { server_id } if server_id == "s"));
    let cmd = d.step(DeletionEvent::RowDeleted(Ok(())));
    assert!(matches!(cmd, DeletionCommand::Finish { result: Ok(()) }));
    assert!(matches!(d.phase, DeletionPhase::Done));
    let (mut d, _) = ServerDeletion::begin("s".to_string(), Some("c".to_string()));
    let cmd = d.step(DeletionEvent::ContainerDeleted(Err(ServiceError::NodeRequest("down".to_string()))));
    assert!(matches!(cmd, DeletionCommand::Finish { result: Err(ServiceError::NodeRequest(m)) } if m == "down"));
    let (_, cmd) = ServerDeletion::begin("s".to_string(), None);
    assert!(matches!(cmd, DeletionCommand::DeleteRow { server_id } if server_id == "s"));
}

fn stored_server(container: Option<&str>) -> ServerRow {
    ServerRow {
        server_id: "s".to_string(),
        user_id: "u".to_string(),
        node_id: 1,
        name: "Survival".to_string(),
        game_kind: "minecraft".to_string(),
        status: "stopped".to_string(),
        docker_container_id: container.map(|c| c.to_string()),
        allocated_port: 25565,
        memory_limit_mb: 2048,
        cpu_limit_percent: 100,
    }
}

#[test]
fn stop_without_container_is_refused() {
    let (t, cmd) = ServerTransition::begin(&stored_server(None), NodeAction::Stop);
    assert!(matches!(t.phase, TransitionPhase::Done));
    assert!(matches!(cmd, TransitionCommand::Finish { result: Err(ServiceError::Conflict(m)) } if m == "server has no assigned container id"));
}

#[test]
fn start_without_container_provisions_then_runs() {
    let (mut t, cmd) = ServerTransition::begin(&stored_server(None), NodeAction::Start);
    match cmd {
        TransitionCommand::ProvisionContainer { order } => {
            assert_eq!((order.server_id.as_str(), order.name.as_str(), order.game_kind.as_str()), ("s", "Survival", "minecraft"));
            assert_eq!((order.allocated_port, order.memory_limit_mb, order.cpu_limit_percent), (25565, 2048, 100));
        }
        _ => panic!("expected provisioning"),
    }
    let cmd = t.step(TransitionEvent::Provisioned(Ok(CreateContainerResponse { container_id: "c1".to_string(), status: "stopped".to_string() })));
    assert!(matches!(cmd, TransitionCommand::StoreContainer { container_id, status } if container_id == "c1" && status == "stopped"));
    let cmd = t.step(TransitionEvent::StatusStored(Ok(())));
    assert!(matches!(cmd, TransitionCommand::StoreStatus { status } if status == "starting"));
    let cmd = t.step(TransitionEvent::StatusStored(Ok(())));
    assert!(matches!(cmd, TransitionCommand::CallNode { action: NodeAction::Start, container_id } if container_id == "c1"));
    let cmd = t.step(TransitionEvent::NodeReplied(Ok("running".to_string())));
    assert!(matches!(cmd, TransitionCommand::StoreStatus { status } if status == "running"));
    match t.step(TransitionEvent::StatusStored(Ok(()))) {
        TransitionCommand::Finish { result: Ok(r) } => {
            assert_eq!((r.server_id.as_str(), r.desired_status.as_str(), r.actual_status.as_str()), ("s", "starting", "running"));
        }
        _ => panic!("expected an answer"),
    }
}

#[test]
fn failed_node_call_marks_server_error() {
    let (mut t, cmd) = ServerTransition::begin(&stored_server(Some("c")), NodeAction::Restart);
    assert!(matches!(cmd, TransitionCommand::StoreStatus { status } if status == "starting"));
    t.step(TransitionEvent::StatusStored(Ok(())));
    let cmd = t.step(TransitionEvent::NodeReplied(Err(ServiceError::NodeDaemon { status: 500, message: "boom".to_string() })));
    assert!(matches!(cmd, TransitionCommand::StoreStatus { status } if status == "error"));
    let cmd = t.step(TransitionEvent::StatusStored(Ok(())));
    assert!(matches!(cmd, TransitionCommand::Finish { result: Err(ServiceError::NodeDaemon { status: 500, .. }) }));
    assert!(matches!(t.phase, TransitionPhase::Done));
    let cmd = t.step(TransitionEvent::StatusStored(Ok(())));
    assert!(matches!(cmd, TransitionCommand::Finish { result: Err(ServiceError::Internal(_)) }));
}

fn begin_creation(r: &CreateServerRequest) -> (ServerCreation, CreationCommand) {
    ServerCreation::begin(r, "s1".to_string(), "u1".to_string())
}

#[test]
fn creation_flow() {
    let (mut c, cmd) = begin_creation(&create_request());
    assert!(matches!(cmd, CreationCommand::LoadNode { node_id: 1 }));
    let cmd = c.step(CreationEvent::NodeLoaded(Ok(())));
    assert!(matches!(cmd, CreationCommand::CheckPort { port: 25565 }));
    let cmd = c.step(CreationEvent::PortChecked(Ok(false)));
    match cmd {
        CreationCommand::InsertServer { row } => {
            assert_eq!((row.server_id.as_str(), row.user_id.as_str(), row.node_id, row.name.as_str()), ("s1", "u1", 1, "Survival"));
            assert_eq!((row.status.as_str(), row.docker_container_id.clone(), row.allocated_port), ("stopped", None, 25565));
        }
        _ => panic!("expected the insert"),
    }
    let cmd = c.step(CreationEvent::Inserted(Ok(())));
    match cmd {
        CreationCommand::CreateContainer { order } => {
            assert_eq!((order.server_id.as_str(), order.game_kind.as_str(), order.memory_limit_mb), ("s1", "minecraft", 2048));
        }
        _ => panic!("expected the daemon call"),
    }
    let cmd = c.step(CreationEvent::ContainerCreated(Ok(CreateContainerResponse { container_id: "c1".to_string(), status: "stopped".to_string() })));
    assert!(matches!(cmd, CreationCommand::StoreContainer { server_id, container_id, status } if server_id == "s1" && container_id == "c1" && status == "stopped"));
    match c.step(CreationEvent::Stored(Ok(()))) {
        CreationCommand::Finish { result: Ok(row) } => {
            assert_eq!((row.server_id.as_str(), row.status.as_str(), row.docker_container_id.as_deref()), ("s1", "stopped", Some("c1")));
        }
        _ => panic!("expected the server"),
    }
}

#[test]
fn creation_refusals() {
    let mut r = create_request();
    r.name = "x".to_string();
    let (_, cmd) = begin_creation(&r);
    assert!(matches!(cmd, CreationCommand::Finish { result: Err(ServiceError::Validation(_)) }));
    let (mut c, _) = begin_creation(&create_request());
    c.step(CreationEvent::NodeLoaded(Ok(())));
    let cmd = c.step(CreationEvent::PortChecked(Ok(true)));
    assert!(matches!(cmd, CreationCommand::Finish { result: Err(ServiceError::Conflict(m)) } if m == "allocated port is already in use"));
    let (mut c, _) = begin_creation(&create_request());
    let cmd = c.step(CreationEvent::NodeLoaded(Err(ServiceError::NotFound)));
    assert!(matches!(cmd, CreationCommand::Finish { result: Err(ServiceError::NotFound) }));
}

#[test]
fn failed_container_creation_marks_error() {
    let (mut c, _) = begin_creation(&create_request());
    c.step(CreationEvent::NodeLoaded(Ok(())));
    c.step(CreationEvent::PortChecked(Ok(false)));
    c.step(CreationEvent::Inserted(Ok(())));
    let cmd = c.step(CreationEvent::ContainerCreated(Err(ServiceError::NodeRequest("down".to_string()))));
    assert!(matches!(cmd, CreationCommand::StoreFailure { server_id } if server_id == "s1"));
    assert!(matches!(c.phase, CreationPhase::AwaitFailureStored { .. }));
    let cmd = c.step(CreationEvent::Stored(Ok(())));
    assert!(matches!(cmd, CreationCommand::Finish { result: Err(ServiceError::NodeRequest(m)) } if m == "down"));
}

#[test]
fn access_token_at_a_given_second() {
    let c = app_config();
    let id = "6f1c2f1e-0a3b-4c5d-8e9f-001122334455";
    let a = issue_access_token_at(&c, id, "a@b.c".to_string(), 1_700_000_000).ok().unwrap();
    let b = issue_access_token_at(&c, id, "a@b.c".to_string(), 1_700_000_000).ok().unwrap();
    assert_eq!(a.access_token, b.access_token);
    let later = issue_access_token_at(&c, id, "a@b.c".to_string(), 1_700_000_001).ok().unwrap();
    assert_ne!(a.access_token, later.access_token);
    let payload = a.access_token.split('.').nth(1).unwrap();
    let bytes = base64::engine::general_purpose::URL_SAFE_NO_PAD.decode(payload).unwrap();
    let claims: serde_json::Value = serde_json::from_slice(&bytes).unwrap();
    assert_eq!(claims["exp"], serde_json::Value::from(1_700_003_600u64));
    assert_eq!(claims["user_id"], serde_json::Value::from(id));
    assert_eq!(claims["email"], serde_json::Value::from("a@b.c"));
}

#[test]
fn access_token_expiry_out_of_range() {
    let mut c = app_config();
    c.access_token_ttl_minutes = MAX_TTL_MINUTES;
    let r = issue_access_token_at(&c, "u1", "a@b.c".to_string(), MAX_TIMESTAMP);
    assert!(matches!(r, Err(TokenError::ExpiryOutOfRange)));
    c.access_token_ttl_minutes = -MAX_TTL_MINUTES;
    let r = issue_access_token_at(&c, "u1", "a@b.c".to_string(), 0);
    assert!(matches!(r, Err(TokenError::ExpiryOutOfRange)));
}

#[test]
fn rejected_login_needs_no_token_lifetime() {
    let mut c = app_config();
    c.access_token_ttl_minutes = i64::MAX;
    let service = AuthService::new(c);
    assert!(matches!(service.login(None, "pw"), Err(ServiceError::Unauthorized)));
    let hash = hash_password("pw").ok().unwrap();
    let user = StoredUser { id: "u1".to_string(), email: "a@b.c".to_string(), password_hash: hash };
    assert!(matches!(service.login(Some(user), "other"), Err(ServiceError::Unauthorized)));
}

#[test]
fn registration_hash_answers() {
    assert_eq!(AuthService::registration_hash_answer(Ok("h".to_string())).ok().unwrap(), "h");
    let e = AuthService::registration_hash_answer(Err("salt failure".to_string())).err().unwrap();
    assert!(matches!(e, ServiceError::Internal(m) if m == "failed to hash password: salt failure"));
}
