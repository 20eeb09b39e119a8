use game_server_manager::daemon::auth::require_bearer_auth;
use game_server_manager::daemon::config::{parse_u16, Config};
use game_server_manager::daemon::docker::{
    build_exposed_ports, build_port_bindings, container_state_label, cpu_usage_deltas,
    map_docker_error, parse_log_lines, parse_log_lines_at, partition_managed_containers, plan_container_creation,
    sanitize_name, CpuSample, DockerFailure, created_container, inspected_state, status_report,
};
use game_server_manager::daemon::game_presets::{build_container_spec, memory_gib_string};
use game_server_manager::daemon::listing::sort_file_entries;
use game_server_manager::daemon::manager::{
    container_target, delete_server_id_source, ensure_labels_show_ownership, file_bytes,
    file_entry, file_text, listing_path, owned_container_candidate, resolve_server_id_locally,
    server_id_from_labels, server_volume_directories, stale_server_ids, file_target_path, directory_target_path, regular_file_check,
    file_content_response, directory_check,
    volume_permission_mode, ContainerTarget, ServerIdSource,
};
use game_server_manager::daemon::models::{
    BackendCreateContainerRequest, ContainerActionRequest, ContainerPortMapping, ContainerSpec,
    FileEntry, LogTimestamp, ServerSettings, SettingValue, WriteFileRequest,
};
use game_server_manager::daemon::routes::{action_status_label, effective_log_tail, ContainerAction};
use game_server_manager::daemon::state::StateStore;
use game_server_manager::string_map::StringMap;

fn env_of(pairs: &[(&str, &str)]) -> StringMap {
    let mut m = StringMap::new();
    for (k, v) in pairs {
        m.insert(k.to_string(), v.to_string());
    }
    m
}

fn config() -> Config {
    match Config::from_env(&env_of(&[
        ("DAEMON_API_TOKEN", "secret"),
        ("DAEMON_BASE_VOLUME_DIR", "/data"),
        ("DAEMON_HYTALE_START_COMMAND", "java  -jar server.jar"),
    ])) {
        Ok(c) => c,
        Err(e) => panic!("{}", e.message),
    }
}

fn settings(entries: Vec<(&str, SettingValue)>) -> ServerSettings {
    ServerSettings {
        is_object: true,
        entries: entries.into_iter().map(|(k, v)| (k.to_string(), v)).collect(),
    }
}

fn request(kind: &str, s: ServerSettings) -> BackendCreateContainerRequest {
    BackendCreateContainerRequest {
        server_id: "6f1c2f1e-0a3b-4c5d-8e9f-001122334455".to_string(),
        name: "My Server".to_string(),
        game_kind: kind.to_string(),
        server_settings: s,
        allocated_port: 25570,
        memory_limit_mb: 2049,
        cpu_limit_percent: 150,
    }
}

fn env_var(spec: &ContainerSpec, key: &str) -> Option<String> {
    spec.environment.get(key)
}

#[test]
fn bearer_token_guard() {
    assert!(require_bearer_auth(Some("Bearer secret"), "secret").is_ok());
    let e = require_bearer_auth(None, "secret").unwrap_err();
    assert_eq!((e.status, e.message.as_str()), (401, "missing authorization header"));
    let e = require_bearer_auth(Some("Basic secret"), "secret").unwrap_err();
    assert_eq!(e.message, "invalid authorization scheme");
    let e = require_bearer_auth(Some("bearer secret"), "secret").unwrap_err();
    assert_eq!(e.message, "invalid authorization scheme");
    let e = require_bearer_auth(Some("Bearer wrong"), "secret").unwrap_err();
    assert_eq!(e.message, "invalid api token");
    let e = require_bearer_auth(Some("Bearer  secret"), "secret").unwrap_err();
    assert_eq!(e.message, "invalid api token");
}

#[test]
fn config_requires_api_token() {
    let e = Config::from_env(&env_of(&[])).err().unwrap();
    assert_eq!((e.status, e.message.as_str()), (500, "DAEMON_API_TOKEN must be set"));
}

#[test]
fn config_defaults() {
    let c = Config::from_env(&env_of(&[("DAEMON_API_TOKEN", "t")])).ok().unwrap();
    assert_eq!(c.bind_addr, "0.0.0.0:8080");
    assert_eq!(c.api_token, "t");
    assert_eq!(c.state_file, "/var/lib/game-host-daemon/state.json");
    assert_eq!(c.managed_label, "game-host-daemon.managed");
    assert_eq!(c.minecraft_image, "didstopia/minecraft-server:latest");
    assert_eq!(c.rust_image, "ipajudd/rustgs:latest");
    assert_eq!(c.hytale_image, "ubuntu:22.04");
    assert_eq!(c.base_volume_dir, "/var/lib/game-host-daemon/servers");
    assert_eq!(c.default_working_dir, "/home/container");
    assert_eq!(c.hytale_internal_port, 25565);
    assert_eq!(c.hytale_start_command, vec!["sleep".to_string(), "infinity".to_string()]);
}

#[test]
fn config_reads_overrides() {
    let c = Config::from_env(&env_of(&[
        ("DAEMON_API_TOKEN", "t"),
        ("DAEMON_DEFAULT_IMAGE", "debian:12"),
        ("DAEMON_DEFAULT_INTERNAL_PORT", "+7777"),
        ("DAEMON_DEFAULT_START_COMMAND", " ./run.sh   --fast "),
    ]))
    .ok()
    .unwrap();
    assert_eq!(c.hytale_image, "debian:12");
    assert_eq!(c.hytale_internal_port, 7777);
    assert_eq!(c.hytale_start_command, vec!["./run.sh".to_string(), "--fast".to_string()]);
    let c = Config::from_env(&env_of(&[
        ("DAEMON_API_TOKEN", "t"),
        ("DAEMON_DEFAULT_INTERNAL_PORT", "7000"),
        ("DAEMON_HYTALE_INTERNAL_PORT", "70000"),
    ]))
    .ok()
    .unwrap();
    assert_eq!(c.hytale_internal_port, 7000);
}

#[test]
fn parses_ports_like_std() {
    for text in ["0", "65535", "65536", "+1", "-1", "+", "", " 1", "12a", "007"] {
        assert_eq!(parse_u16(text), text.parse::<u16>().ok(), "{text}");
    }
}

#[test]
fn action_request_validation() {
    let both_blank = ContainerActionRequest { server_id: Some("  ".to_string()), container_id: None };
    let e = both_blank.validate().unwrap_err();
    assert_eq!((e.status, e.message.as_str()), (400, "server_id or container_id is required"));
    let by_container = ContainerActionRequest { server_id: Some("".to_string()), container_id: Some("abc".to_string()) };
    assert!(by_container.validate().is_ok());
}

#[test]
fn create_request_validation() {
    let mut r = request("minecraft", settings(vec![]));
    assert!(r.validate().is_ok());
    r.name = " ".to_string();
    assert_eq!(r.validate().unwrap_err().message, "name is required");
    let mut r = request("terraria", settings(vec![]));
    assert_eq!(r.validate().unwrap_err().message, "game_kind must be one of: minecraft, rust, hytale");
    r.game_kind = "rust".to_string();
    r.allocated_port = 0;
    assert_eq!(r.validate().unwrap_err().message, "allocated_port must be between 1 and 65535");
    r.allocated_port = 1;
    r.cpu_limit_percent = 0;
    let e = r.validate().unwrap_err();
    assert_eq!((e.status, e.message.as_str()), (400, "memory_limit_mb and cpu_limit_percent must be greater than zero"));
}

#[test]
fn port_keys_and_bindings() {
    let ports = vec![
        ContainerPortMapping { container_port: 25565, host_port: 30000, protocol: "tcp".to_string(), host_ip: "0.0.0.0".to_string() },
        ContainerPortMapping { container_port: 28015, host_port: 28015, protocol: "udp".to_string(), host_ip: "127.0.0.1".to_string() },
    ];
    assert_eq!(ports[0].key(), "25565/tcp");
    let b = build_port_bindings(&ports);
    assert_eq!((b[0].key.as_str(), b[0].host_ip.as_str(), b[0].host_port.as_str()), ("25565/tcp", "0.0.0.0", "30000"));
    assert_eq!(b[1].key, "28015/udp");
    assert_eq!(build_exposed_ports(&ports), vec!["25565/tcp".to_string(), "28015/udp".to_string()]);
}

#[test]
fn port_keys_are_kept_once() {
    let port = |host_port: u16, protocol: &str| ContainerPortMapping { container_port: 25565, host_port, protocol: protocol.to_string(), host_ip: "0.0.0.0".to_string() };
    let ports = vec![port(1, "tcp"), port(2, "tcp"), port(3, "udp")];
    let b = build_port_bindings(&ports);
    assert_eq!(b.len(), 2);
    assert_eq!((b[0].key.as_str(), b[0].host_port.as_str()), ("25565/tcp", "2"));
    assert_eq!((b[1].key.as_str(), b[1].host_port.as_str()), ("25565/udp", "3"));
    assert_eq!(build_exposed_ports(&ports), vec!["25565/tcp".to_string(), "25565/udp".to_string()]);
}

#[test]
fn minecraft_memory_in_gib() {
    assert_eq!(memory_gib_string(0), "1G");
    assert_eq!(memory_gib_string(512), "1G");
    assert_eq!(memory_gib_string(2048), "2G");
    assert_eq!(memory_gib_string(2049), "3G");
}

#[test]
fn minecraft_spec() {
    let c = config();
    let r = request("minecraft", settings(vec![
        ("rcon_enabled", SettingValue::Flag(true)),
        ("rcon_password", SettingValue::Text("  ".to_string())),
        ("custom_jar", SettingValue::Text("paper.jar".to_string())),
    ]));
    let spec = build_container_spec(&c, &r).ok().unwrap();
    assert_eq!(spec.image, "didstopia/minecraft-server:latest");
    assert_eq!(spec.working_dir, "/app");
    assert_eq!(env_var(&spec, "MINECRAFT_SERVER_MEMORY_MIN").as_deref(), Some("3G"));
    assert_eq!(env_var(&spec, "MINECRAFT_SERVER_ARGUMENTS").as_deref(), Some("nogui"));
    assert_eq!(env_var(&spec, "MINECRAFT_SERVER_RCON_PORT").as_deref(), Some("25575"));
    assert_eq!(env_var(&spec, "MINECRAFT_SERVER_RCON_PASSWORD"), None);
    assert_eq!(env_var(&spec, "MINECRAFT_SERVER_CUSTOM_JAR").as_deref(), Some("paper.jar"));
    assert_eq!(spec.environment.len(), 7);
    assert_eq!(spec.ports.len(), 1);
    assert_eq!((spec.ports[0].container_port, spec.ports[0].host_port), (25565, 25570));
    assert_eq!(spec.volume_host_path, "/data/6f1c2f1e-0a3b-4c5d-8e9f-001122334455");
    assert_eq!(spec.container_name.as_deref(), Some("gsm-minecraft-6f1c2f1e-0a3b-4c5d-8e9f-001122334455"));
    assert_eq!(spec.memory_limit_mb, Some(2049));
    assert_eq!(spec.cpu_limit_percent, Some(150));
    assert!(spec.cmd.is_empty());
}

#[test]
fn rust_spec() {
    let c = config();
    let r = request("rust", settings(vec![
        ("mod_framework", SettingValue::Text("Carbon".to_string())),
        ("query_port", SettingValue::Integer(28017)),
        ("description", SettingValue::Text("fun".to_string())),
    ]));
    let spec = build_container_spec(&c, &r).ok().unwrap();
    assert_eq!(spec.image, "ipajudd/rustgs:latest");
    assert_eq!(spec.working_dir, "/serverdata");
    assert_eq!(env_var(&spec, "CARBON_MOD").as_deref(), Some("true"));
    assert_eq!(env_var(&spec, "OXIDE_MOD").as_deref(), Some("false"));
    assert_eq!(env_var(&spec, "RCON_PASSWORD").as_deref(), Some("change-me-now"));
    assert_eq!(env_var(&spec, "SERVER_QUERYPORT").as_deref(), Some("28017"));
    assert_eq!(env_var(&spec, "SERVER_PORT").as_deref(), Some("25570"));
    assert_eq!(env_var(&spec, "SERVER_HOSTNAME").as_deref(), Some("My Server"));
    assert_eq!(env_var(&spec, "SERVER_DESCRIPTION").as_deref(), Some("fun"));
    assert_eq!(env_var(&spec, "SERVER_URL"), None);
    assert_eq!(spec.environment.len(), 20);
    let ports: Vec<(u16, u16, String)> = spec.ports.iter().map(|p| (p.container_port, p.host_port, p.protocol.clone())).collect();
    assert_eq!(ports, vec![
        (28015, 25570, "udp".to_string()),
        (28015, 25570, "tcp".to_string()),
        (28017, 28017, "udp".to_string()),
        (28017, 28017, "tcp".to_string()),
        (28082, 28082, "tcp".to_string()),
    ]);
}

#[test]
fn rust_oxide_flag() {
    let c = config();
    let r = request("rust", settings(vec![("oxide_enabled", SettingValue::Flag(true))]));
    let spec = build_container_spec(&c, &r).ok().unwrap();
    assert_eq!(env_var(&spec, "USE_OXIDE").as_deref(), Some("true"));
    assert_eq!(env_var(&spec, "USE_CARBON").as_deref(), Some("false"));
}

#[test]
fn hytale_spec() {
    let c = config();
    let spec = build_container_spec(&c, &request("hytale", settings(vec![]))).ok().unwrap();
    assert_eq!(spec.cmd, vec!["java".to_string(), "-jar".to_string(), "server.jar".to_string()]);
    assert_eq!(env_var(&spec, "MAX_PLAYERS").as_deref(), Some("32"));
    assert_eq!(env_var(&spec, "GAME_KIND").as_deref(), Some("hytale"));
    assert_eq!(spec.working_dir, "/home/container");
    let spec = build_container_spec(&c, &request("hytale", settings(vec![
        ("startup_command", SettingValue::Text("./start.sh  now".to_string())),
    ]))).ok().unwrap();
    assert_eq!(spec.cmd, vec!["./start.sh".to_string(), "now".to_string()]);
}

#[test]
fn unsupported_game_kind() {
    let e = build_container_spec(&config(), &request("terraria", settings(vec![]))).err().unwrap();
    assert_eq!((e.status, e.message.as_str()), (500, "unsupported game_kind: terraria"));
}

#[test]
fn settings_that_are_not_an_object_are_ignored() {
    let s = ServerSettings { is_object: false, entries: vec![("custom_jar".to_string(), SettingValue::Text("x.jar".to_string()))] };
    assert_eq!(s.text("custom_jar"), None);
    let spec = build_container_spec(&config(), &request("minecraft", s)).ok().unwrap();
    assert_eq!(env_var(&spec, "MINECRAFT_SERVER_CUSTOM_JAR"), None);
}

#[test]
fn container_creation_plan() {
    let mut spec = build_container_spec(&config(), &request("minecraft", settings(vec![]))).ok().unwrap();
    spec.container_name = None;
    let plan = plan_container_creation(&spec, "game-host-daemon.managed");
    assert_eq!(plan.name, "srv-6f1c2f1e-0a3b-4c5d-8e9f-001122334455");
    assert_eq!(plan.memory_bytes, Some(2049 * 1024 * 1024));
    assert_eq!(plan.binds, vec!["/data/6f1c2f1e-0a3b-4c5d-8e9f-001122334455:/app".to_string()]);
    assert!(plan.env.contains(&"MINECRAFT_SERVER_AGREE_EULA=true".to_string()));
    assert_eq!(plan.env.len(), 4);
    assert_eq!(plan.labels.get("game-host-daemon.managed").as_deref(), Some("true"));
    assert_eq!(plan.labels.get("game-host-daemon.server_id").as_deref(), Some("6f1c2f1e-0a3b-4c5d-8e9f-001122334455"));
    assert!(plan.cmd.is_none());
}

#[test]
fn sanitizes_container_names() {
    assert_eq!(sanitize_name("a b/c_d-E9"), "a-b-c_d-E9");
    assert_eq!(sanitize_name("ünï"), "-n-");
    assert_eq!(sanitize_name(&sanitize_name("x y")), sanitize_name("x y"));
}

#[test]
fn cpu_deltas() {
    let cur = CpuSample { total_usage: 300, system_cpu_usage: Some(2000), online_cpus: None };
    let pre = CpuSample { total_usage: 100, system_cpu_usage: Some(1000), online_cpus: Some(8) };
    assert_eq!(cpu_usage_deltas(&cur, &pre), Some((200, 1000, 1)));
    let same = CpuSample { total_usage: 300, system_cpu_usage: Some(1000), online_cpus: Some(4) };
    assert_eq!(cpu_usage_deltas(&same, &pre), None);
    let back = CpuSample { total_usage: 50, system_cpu_usage: Some(5000), online_cpus: Some(4) };
    assert_eq!(cpu_usage_deltas(&back, &pre), None);
    let missing = CpuSample { total_usage: 300, system_cpu_usage: None, online_cpus: Some(4) };
    assert_eq!(cpu_usage_deltas(&missing, &pre), None);
}

#[test]
fn container_state_labels() {
    assert_eq!(container_state_label(Some(true)), "running");
    assert_eq!(container_state_label(Some(false)), "stopped");
    assert_eq!(container_state_label(None), "stopped");
}

#[test]
fn docker_errors() {
    let e = map_docker_error(DockerFailure::Response { status_code: 404, message: "no such container".to_string() });
    assert_eq!((e.status, e.message.as_str()), (404, "no such container"));
    let e = map_docker_error(DockerFailure::Response { status_code: 42, message: "odd".to_string() });
    assert_eq!(e.status, 502);
    let e = map_docker_error(DockerFailure::Other { description: "socket closed".to_string() });
    assert_eq!((e.status, e.message.as_str()), (500, "docker error: socket closed"));
}

#[test]
fn log_lines() {
    let raw = b"2024-01-01T00:00:00Z hello world\n   \n plain line \r\n2024-01-01T01:00:00+01:00 shifted\nnot-a-date rest\n";
    let lines = parse_log_lines(raw);
    assert_eq!(lines.len(), 4);
    assert_eq!((lines[0].timestamp.seconds, lines[0].timestamp.nanos), (1704067200, 0));
    assert_eq!(lines[0].line, "hello world");
    assert_eq!(lines[1].line, "plain line");
    assert!(lines[1].timestamp.seconds > 1704067200);
    assert_eq!(lines[2].timestamp.seconds, 1704067200);
    assert_eq!(lines[2].line, "shifted");
    assert_eq!(lines[3].line, "not-a-date rest");
    let lossy = parse_log_lines(b"\xff\xfe ok");
    assert_eq!(lossy.len(), 1);
    assert_eq!(lossy[0].line, "\u{fffd}\u{fffd} ok");
}

#[test]
fn log_lines_read_at_a_given_instant() {
    let now = LogTimestamp { seconds: 1_700_000_000, nanos: 5 };
    let lines = parse_log_lines_at(b"2024-01-01T00:00:00Z hello\nplain\n", now);
    assert_eq!(lines.len(), 2);
    assert_eq!((lines[0].timestamp.seconds, lines[0].line.as_str()), (1704067200, "hello"));
    assert_eq!((lines[1].timestamp, lines[1].line.as_str()), (now, "plain"));
}

#[test]
fn managed_container_partition() {
    let listed = vec![Some("a".to_string()), None, Some("b".to_string()), Some("c".to_string())];
    let expected = vec!["c".to_string(), "a".to_string(), "z".to_string()];
    let p = partition_managed_containers(&listed, &expected);
    assert_eq!(p.discovered, vec!["a".to_string(), "c".to_string()]);
    assert_eq!(p.orphaned, vec!["b".to_string()]);
}

#[test]
fn stale_record_entries() {
    let snapshot = env_of(&[("s1", "c1"), ("s2", "c2"), ("s3", "c3")]);
    let stale = stale_server_ids(&snapshot, &vec!["c2".to_string()]);
    assert_eq!(stale, vec!["s1".to_string(), "s3".to_string()]);
}

#[test]
fn state_store_records_containers() {
    let mut store = StateStore::empty("/tmp/state.json".to_string());
    assert!(store.ensure_unmapped("s1").is_ok());
    store.insert("s1".to_string(), "c1".to_string());
    assert_eq!(store.get("s1"), Some("c1".to_string()));
    let e = store.ensure_unmapped("s1").unwrap_err();
    assert_eq!((e.status, e.message.as_str()), (409, "server already has a managed container"));
    assert_eq!(store.snapshot().get("s1"), Some("c1".to_string()));
    store.remove("s1");
    assert_eq!(store.get("s1"), None);
    assert!(store.ensure_unmapped("s1").is_ok());
    assert_eq!(store.path(), "/tmp/state.json");
}

#[test]
fn volume_directories() {
    let dirs = server_volume_directories("/data", "id", "rust");
    assert_eq!(dirs, vec!["/data/id", "/data/id/logs", "/data/id/steamcmd", "/data/id/serverfiles", "/data/id/carbon", "/data/id/oxide"]);
    assert_eq!(server_volume_directories("/data", "id", "minecraft"), vec!["/data/id".to_string()]);
    assert_eq!(volume_permission_mode(true), 0o777);
    assert_eq!(volume_permission_mode(false), 0o666);
}

#[test]
fn container_targets() {
    let r = ContainerActionRequest { server_id: Some("s".to_string()), container_id: Some("c".to_string()) };
    assert!(matches!(container_target(&r), Ok(ContainerTarget::Server(s)) if s == "s"));
    let r = ContainerActionRequest { server_id: None, container_id: Some("c".to_string()) };
    assert!(matches!(container_target(&r), Ok(ContainerTarget::Container(c)) if c == "c"));
    assert!(matches!(delete_server_id_source(&r), Ok(ServerIdSource::FromContainer(c)) if c == "c"));
    let r = ContainerActionRequest { server_id: None, container_id: None };
    assert_eq!(container_target(&r).err().unwrap().status, 400);
    let mut store = StateStore::empty("s.json".to_string());
    store.insert("srv".to_string(), "ctr".to_string());
    assert_eq!(owned_container_candidate(&store, "srv"), "ctr");
    assert_eq!(owned_container_candidate(&store, "other"), "other");
}

#[test]
fn ownership_labels() {
    let owned = env_of(&[("game-host-daemon.server_id", "s1")]);
    assert!(ensure_labels_show_ownership(&owned).is_ok());
    assert_eq!(server_id_from_labels(&owned).ok().unwrap(), "s1");
    let blank = env_of(&[("game-host-daemon.server_id", " ")]);
    let e = ensure_labels_show_ownership(&blank).unwrap_err();
    assert_eq!((e.status, e.message.as_str()), (403, "container ownership validation failed"));
    assert_eq!(server_id_from_labels(&blank).ok().unwrap(), " ");
    let e = server_id_from_labels(&StringMap::new()).err().unwrap();
    assert_eq!(e.status, 403);
}

#[test]
fn server_ids_resolved_without_docker() {
    let mut store = StateStore::empty("s.json".to_string());
    store.insert("known".to_string(), "c".to_string());
    assert_eq!(resolve_server_id_locally(&store, "known").as_deref(), Some("known"));
    let uuid = "6f1c2f1e-0a3b-4c5d-8e9f-001122334455";
    assert_eq!(resolve_server_id_locally(&store, uuid).as_deref(), Some(uuid));
    assert_eq!(resolve_server_id_locally(&store, "abc123"), None);
}

#[test]
fn file_explorer_paths() {
    assert_eq!(listing_path(&None).ok().unwrap(), "");
    assert_eq!(listing_path(&Some("a/".to_string())).ok().unwrap(), "a");
    let e = file_target_path(".").unwrap_err();
    assert_eq!((e.status, e.message.as_str()), (400, "path must point to a file"));
    assert_eq!(file_target_path("x/y.txt").ok().unwrap(), "x/y.txt");
    let e = file_entry("", "world".to_string(), true, false, 4096);
    assert_eq!((e.path.as_str(), e.size_bytes), ("world", 0));
    let e = file_entry("logs", "latest.log".to_string(), false, true, 12);
    assert_eq!((e.path.as_str(), e.size_bytes), ("logs/latest.log", 12));
}

#[test]
fn file_contents() {
    assert_eq!(file_text(b"h\xc3\xa9".to_vec()).ok().unwrap(), "hé");
    let e = file_text(vec![0xff, 0x00]).unwrap_err();
    assert_eq!((e.status, e.message.as_str()), (400, "only UTF-8 text files can be viewed in the file explorer"));
    let w = WriteFileRequest { path: "a".to_string(), content: "ignored".to_string(), content_base64: Some("aGVsbG8=".to_string()) };
    assert_eq!(file_bytes(&w).ok().unwrap(), b"hello".to_vec());
    let w = WriteFileRequest { path: "a".to_string(), content: "é".to_string(), content_base64: None };
    assert_eq!(file_bytes(&w).ok().unwrap(), "é".as_bytes().to_vec());
    let w = WriteFileRequest { path: "a".to_string(), content: String::new(), content_base64: Some("%%%".to_string()) };
    let e = file_bytes(&w).unwrap_err();
    assert_eq!((e.status, e.message.as_str()), (400, "invalid base64 file content"));
}

#[test]
fn listing_order() {
    let entry = |name: &str, dir: bool| FileEntry { name: name.to_string(), path: name.to_string(), is_directory: dir, size_bytes: 0 };
    let sorted = sort_file_entries(vec![entry("b.txt", false), entry("Zeta", true), entry("A.txt", false), entry("alpha", true), entry("Ä", false)]);
    let names: Vec<&str> = sorted.iter().map(|e| e.name.as_str()).collect();
    assert_eq!(names, vec!["alpha", "Zeta", "A.txt", "b.txt", "Ä"]);
}

#[test]
fn listing_sort_is_stable() {
    let entry = |name: &str, dir: bool| FileEntry { name: name.to_string(), path: name.to_string(), is_directory: dir, size_bytes: 0 };
    let sorted = sort_file_entries(vec![entry("README", false), entry("x", true), entry("Readme", false), entry("readme", false)]);
    let names: Vec<&str> = sorted.iter().map(|e| e.name.as_str()).collect();
    assert_eq!(names, vec!["x", "README", "Readme", "readme"]);
    let sorted = sort_file_entries(vec![entry("readme", false), entry("Readme", false), entry("README", false)]);
    let names: Vec<&str> = sorted.iter().map(|e| e.name.as_str()).collect();
    assert_eq!(names, vec!["readme", "Readme", "README"]);
}

#[test]
fn route_decisions() {
    assert_eq!(effective_log_tail(None), 200);
    assert_eq!(effective_log_tail(Some(5)), 5);
    assert_eq!(effective_log_tail(Some(1_000_000)), 10_000);
    assert_eq!(action_status_label(ContainerAction::Start), "running");
    assert_eq!(action_status_label(ContainerAction::Stop), "stopped");
    assert_eq!(action_status_label(ContainerAction::Restart), "running");
    assert_eq!(action_status_label(ContainerAction::Delete), "deleted");
}

#[test]
fn file_read_answers() {
    assert!(regular_file_check(true).is_ok());
    let e = regular_file_check(false).unwrap_err();
    assert_eq!((e.status, e.message.as_str()), (400, "requested path is not a file"));
    assert!(directory_check(true).is_ok());
    let e = directory_check(false).unwrap_err();
    assert_eq!((e.status, e.message.as_str()), (400, "requested path is not a directory"));
    let e = directory_target_path("./").unwrap_err();
    assert_eq!((e.status, e.message.as_str()), (400, "path must point to a directory"));
    let e = file_target_path("../x").unwrap_err();
    assert_eq!((e.status, e.message.as_str()), (400, "path traversal is not allowed"));
    let f = file_content_response("s1".to_string(), "a.txt".to_string(), "héllo".as_bytes().to_vec()).ok().unwrap();
    assert_eq!((f.server_id.as_str(), f.path.as_str(), f.content.as_str()), ("s1", "a.txt", "héllo"));
    let e = file_content_response("s1".to_string(), "a.bin".to_string(), vec![0xff, 0xfe]).err().unwrap();
    assert_eq!((e.status, e.message.as_str()), (400, "only UTF-8 text files can be viewed in the file explorer"));
}

#[test]
fn docker_answers() {
    let spec = build_container_spec(&config(), &request("minecraft", settings(vec![]))).ok().unwrap();
    let r = created_container(&spec, "abc".to_string());
    assert_eq!((r.server_id.as_str(), r.container_id.as_str(), r.status.as_str()), (spec.server_id.as_str(), "abc", "stopped"));
    let e = inspected_state(None).unwrap_err();
    assert_eq!((e.status, e.message.as_str()), (500, "docker inspect response missing state"));
    assert_eq!(inspected_state(Some(Some(true))).ok().unwrap(), "running");
    assert_eq!(inspected_state(Some(None)).ok().unwrap(), "stopped");
    let rep = status_report("s", "c", "running".to_string(), Some(Some(42)));
    assert_eq!((rep.server_id.as_str(), rep.container_id.as_str(), rep.state.as_str(), rep.memory_usage_bytes), ("s", "c", "running", Some(42)));
    assert_eq!(status_report("s", "c", "stopped".to_string(), Some(None)).memory_usage_bytes, None);
    assert_eq!(status_report("s", "c", "stopped".to_string(), None).memory_usage_bytes, None);
}
