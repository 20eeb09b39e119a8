//! How each supported game is run: its image, working directory, published
//! ports, environment and command, and the container description built
//! from a backend request.
use vstd::prelude::*;

use crate::daemon::config::{strings_of, Config};
use crate::daemon::error::{AppError, INTERNAL_SERVER_ERROR};
use crate::daemon::models::{
    lemma_game_kinds_distinct,
    port_view, strs, BackendCreateContainerRequest, ContainerPortMapping, ContainerSpec,
    ServerSettings,
};
use crate::daemon::paths::{join_path, path_join};
use crate::string_map::StringMap;
use crate::text::{
    ascii_lowercase, ascii_lowercase_chars, blank, chars_of, decimal, eq_str, fields,
    i64_decimal, i64_to_string, is_blank, join, join_chars, push_str, split_fields, string_of,
    Separator,
};

verus! {

/// The memory handed to the Minecraft server: the limit in MiB rounded up
/// to whole GiB, at least 1 GiB.
pub open spec fn memory_gib(memory_limit_mb: int) -> int {
    let at_least = if memory_limit_mb > 1024 { memory_limit_mb } else { 1024 };
    let gib = (at_least + 1023) / 1024;
    if gib > 1 { gib } else { 1 }
}

/// The memory handed to a Minecraft server is at least 1 GiB and never
/// less than its limit.
pub proof fn law_memory_gib_covers_limit(memory_limit_mb: int)
    ensures
        memory_gib(memory_limit_mb) >= 1,
        memory_gib(memory_limit_mb) * 1024 >= memory_limit_mb,
{
    let at_least = if memory_limit_mb > 1024 { memory_limit_mb } else { 1024 };
    let g = (at_least + 1023) / 1024;
    assert(g * 1024 >= at_least) by (nonlinear_arith)
        requires
            g == (at_least + 1023) / 1024,
            at_least >= 1024,
    ;
}

/// `memory_gib_string`: the memory in GiB followed by `G`, such as `2G`.
pub fn memory_gib_string(memory_limit_mb: i32) -> (s: String)
    requires
        memory_limit_mb <= i32::MAX - 1023,
    ensures
        s@ == decimal(memory_gib(memory_limit_mb as int)) + "G"@,
{
    let at_least = if memory_limit_mb > 1024 { memory_limit_mb } else { 1024 };
    let g = (at_least + 1023) / 1024;
    let gib = if g > 1 { g } else { 1 };
    let mut s = i64_to_string(gib as i64);
    push_str(&mut s, "G");
    s
}

/// A string setting, or a default.
pub open spec fn text_or(o: Option<Seq<char>>, default: Seq<char>) -> Seq<char> {
    match o {
        Some(t) => t,
        None => default,
    }
}

/// An integer setting, or a default.
pub open spec fn int_or(o: Option<i64>, default: i64) -> i64 {
    match o {
        Some(n) => n,
        None => default,
    }
}

/// A string setting that is given and not blank.
pub open spec fn filled(o: Option<Seq<char>>) -> bool {
    o is Some && !is_blank(o->0)
}

/// `"true"` or `"false"`.
pub open spec fn bool_text(b: bool) -> Seq<char> {
    if b {
        "true"@
    } else {
        "false"@
    }
}

/// A port published on every host address.
pub open spec fn published(container_port: int, host_port: int, protocol: Seq<char>) -> (
    int,
    int,
    Seq<char>,
    Seq<char>,
) {
    (container_port, host_port, protocol, "0.0.0.0"@)
}

/// The environment of a Minecraft server.
pub open spec fn minecraft_environment(r: BackendCreateContainerRequest) -> Map<
    Seq<char>,
    Seq<char>,
> {
    let s = r.server_settings;
    let memory = decimal(memory_gib(r.memory_limit_mb as int)) + "G"@;
    let base = Map::<Seq<char>, Seq<char>>::empty().insert(
        "MINECRAFT_SERVER_MEMORY_MIN"@,
        memory,
    ).insert("MINECRAFT_SERVER_MEMORY_MAX"@, memory).insert(
        "MINECRAFT_SERVER_AGREE_EULA"@,
        "true"@,
    ).insert(
        "MINECRAFT_SERVER_ARGUMENTS"@,
        text_or(s.text_spec("startup_arguments"@), "nogui"@),
    );
    let with_rcon = if s.flag_spec("rcon_enabled"@) == Some(true) {
        let m = base.insert("MINECRAFT_SERVER_RCON_ENABLE"@, "true"@).insert(
            "MINECRAFT_SERVER_RCON_PORT"@,
            decimal(int_or(s.integer_spec("rcon_port"@), 25575) as int),
        );
        if filled(s.text_spec("rcon_password"@)) {
            m.insert("MINECRAFT_SERVER_RCON_PASSWORD"@, s.text_spec("rcon_password"@)->0)
        } else {
            m
        }
    } else {
        base
    };
    if filled(s.text_spec("custom_jar"@)) {
        with_rcon.insert("MINECRAFT_SERVER_CUSTOM_JAR"@, s.text_spec("custom_jar"@)->0)
    } else {
        with_rcon
    }
}

/// The mod framework of a Rust server: the `mod_framework` setting in
/// ASCII lower case, else `oxide` when `oxide_enabled` is true, else
/// `vanilla`.
pub open spec fn rust_mod_framework(s: ServerSettings) -> Seq<char> {
    match s.text_spec("mod_framework"@) {
        Some(t) => ascii_lowercase(t),
        None => if s.flag_spec("oxide_enabled"@) == Some(true) {
            "oxide"@
        } else {
            "vanilla"@
        },
    }
}

/// The RCON password of a Rust server: the setting unless blank, else a
/// placeholder.
pub open spec fn rust_rcon_password(s: ServerSettings) -> Seq<char> {
    if filled(s.text_spec("rcon_password"@)) {
        s.text_spec("rcon_password"@)->0
    } else {
        "change-me-now"@
    }
}

/// The environment of a Rust server.
pub open spec fn rust_environment(r: BackendCreateContainerRequest) -> Map<Seq<char>, Seq<char>> {
    let s = r.server_settings;
    let framework = rust_mod_framework(s);
    let oxide = bool_text(framework == "oxide"@);
    let carbon = bool_text(framework == "carbon"@);
    let base = Map::<Seq<char>, Seq<char>>::empty().insert("SERVER_IDENTITY"@, r.server_id@).insert(
        "SERVER_PORT"@,
        decimal(r.allocated_port as int),
    ).insert("SERVER_QUERYPORT"@, decimal(int_or(s.integer_spec("query_port"@), 28016) as int)).insert(
        "RCON_PORT"@,
        decimal(int_or(s.integer_spec("rcon_port"@), 28016) as int),
    ).insert("RCON_PASSWORD"@, rust_rcon_password(s)).insert("RCON_WEB"@, "1"@).insert(
        "SERVER_HOSTNAME"@,
        r.name@,
    ).insert("SERVER_MAXPLAYERS"@, decimal(int_or(s.integer_spec("max_players"@), 50) as int)).insert(
        "SERVER_SEED"@,
        decimal(int_or(s.integer_spec("seed"@), 12345) as int),
    ).insert("SERVER_WORLDSIZE"@, decimal(int_or(s.integer_spec("world_size"@), 3500) as int)).insert(
        "APP_PORT"@,
        decimal(int_or(s.integer_spec("app_port"@), 28082) as int),
    ).insert("SERVER_SECURE"@, "true"@).insert("SERVER_ENCRYPTION"@, "1"@).insert(
        "OXIDE_MOD"@,
        oxide,
    ).insert("CARBON_MOD"@, carbon).insert("USE_OXIDE"@, oxide).insert("USE_CARBON"@, carbon).insert(
        "FORCE_OXIDE_INSTALLATION"@,
        oxide,
    ).insert("FORCE_CARBON_INSTALLATION"@, carbon);
    let with_description = if filled(s.text_spec("description"@)) {
        base.insert("SERVER_DESCRIPTION"@, s.text_spec("description"@)->0)
    } else {
        base
    };
    if filled(s.text_spec("website_url"@)) {
        with_description.insert("SERVER_URL"@, s.text_spec("website_url"@)->0)
    } else {
        with_description
    }
}

/// The ports of a Rust server: the game port over UDP and TCP on the
/// allocated port, the query port over UDP and TCP, and the app port.
pub open spec fn rust_ports(r: BackendCreateContainerRequest) -> Seq<(int, int, Seq<char>, Seq<char>)> {
    let s = r.server_settings;
    let game = (r.allocated_port as u16) as int;
    let query = (int_or(s.integer_spec("query_port"@), 28016) as u16) as int;
    let app = (int_or(s.integer_spec("app_port"@), 28082) as u16) as int;
    seq![
        published(28015, game, "udp"@),
        published(28015, game, "tcp"@),
        published(query, query, "udp"@),
        published(query, query, "tcp"@),
        published(app, app, "tcp"@),
    ]
}

/// The environment of a Hytale server.
pub open spec fn hytale_environment(r: BackendCreateContainerRequest) -> Map<Seq<char>, Seq<char>> {
    Map::<Seq<char>, Seq<char>>::empty().insert("SERVER_ID"@, r.server_id@).insert(
        "SERVER_NAME"@,
        r.name@,
    ).insert("GAME_KIND"@, "hytale"@).insert("ALLOCATED_PORT"@, decimal(r.allocated_port as int)).insert(
        "MAX_PLAYERS"@,
        decimal(int_or(r.server_settings.integer_spec("max_players"@), 32) as int),
    )
}

/// The command line of a Hytale server: the `startup_command` setting, or
/// the configured command, split into words.
pub open spec fn hytale_command(c: Config, r: BackendCreateContainerRequest) -> Seq<Seq<char>> {
    fields(
        Separator::WhiteSpace,
        text_or(
            r.server_settings.text_spec("startup_command"@),
            join(strs(c.hytale_start_command@), " "@),
        ),
    )
}

/// How a game is run.
pub struct GamePreset {
    pub image: String,
    pub working_dir: String,
    pub ports: Vec<ContainerPortMapping>,
    pub environment: StringMap,
    pub cmd: Vec<String>,
    pub entrypoint: Vec<String>,
}

/// The published ports, as plain values.
pub open spec fn ports_view(ports: Seq<ContainerPortMapping>) -> Seq<(int, int, Seq<char>, Seq<char>)> {
    ports.map_values(|p: ContainerPortMapping| port_view(p))
}

/// The image of the preset for the request's game kind.
pub open spec fn preset_image(c: Config, r: BackendCreateContainerRequest) -> Seq<char> {
    if r.game_kind@ == "minecraft"@ {
        c.minecraft_image@
    } else if r.game_kind@ == "rust"@ {
        c.rust_image@
    } else {
        c.hytale_image@
    }
}

/// The working directory of the preset for the request's game kind.
pub open spec fn preset_working_dir(c: Config, r: BackendCreateContainerRequest) -> Seq<char> {
    if r.game_kind@ == "minecraft"@ {
        "/app"@
    } else if r.game_kind@ == "rust"@ {
        "/serverdata"@
    } else {
        c.default_working_dir@
    }
}

/// The ports of the preset for the request's game kind.
pub open spec fn preset_ports(c: Config, r: BackendCreateContainerRequest) -> Seq<
    (int, int, Seq<char>, Seq<char>),
> {
    if r.game_kind@ == "minecraft"@ {
        seq![published(25565, (r.allocated_port as u16) as int, "tcp"@)]
    } else if r.game_kind@ == "rust"@ {
        rust_ports(r)
    } else {
        seq![published(c.hytale_internal_port as int, (r.allocated_port as u16) as int, "tcp"@)]
    }
}

/// The environment of the preset for the request's game kind.
pub open spec fn preset_environment(c: Config, r: BackendCreateContainerRequest) -> Map<
    Seq<char>,
    Seq<char>,
> {
    if r.game_kind@ == "minecraft"@ {
        minecraft_environment(r)
    } else if r.game_kind@ == "rust"@ {
        rust_environment(r)
    } else {
        hytale_environment(r)
    }
}

/// The command of the preset for the request's game kind.
pub open spec fn preset_cmd(c: Config, r: BackendCreateContainerRequest) -> Seq<Seq<char>> {
    if r.game_kind@ == "minecraft"@ || r.game_kind@ == "rust"@ {
        Seq::empty()
    } else {
        hytale_command(c, r)
    }
}

impl GamePreset {
    /// This is the preset of the request's game kind.
    pub open spec fn is_preset_for(self, c: Config, r: BackendCreateContainerRequest) -> bool {
        &&& self.image@ == preset_image(c, r)
        &&& self.working_dir@ == preset_working_dir(c, r)
        &&& ports_view(self.ports@) == preset_ports(c, r)
        &&& self.environment@ == preset_environment(c, r)
        &&& strs(self.cmd@) == preset_cmd(c, r)
        &&& self.entrypoint@.len() == 0
    }
}

fn port(container_port: u16, host_port: u16, protocol: &str) -> (p: ContainerPortMapping)
    ensures
        port_view(p) == published(container_port as int, host_port as int, protocol@),
{
    ContainerPortMapping {
        container_port,
        host_port,
        protocol: protocol.to_owned(),
        host_ip: "0.0.0.0".to_owned(),
    }
}

fn set(env: &mut StringMap, key: &str, value: String)
    ensures
        final(env)@ == old(env)@.insert(key@, value@),
{
    env.insert(key.to_owned(), value);
}

fn text_or_default(settings: &ServerSettings, key: &str, default: &str) -> (r: String)
    ensures
        r@ == text_or(settings.text_spec(key@), default@),
{
    match settings.text(key) {
        Some(t) => t,
        None => default.to_owned(),
    }
}

fn int_or_default(settings: &ServerSettings, key: &str, default: i64) -> (r: i64)
    ensures
        r == int_or(settings.integer_spec(key@), default),
{
    match settings.integer(key) {
        Some(n) => n,
        None => default,
    }
}

fn filled_text(settings: &ServerSettings, key: &str) -> (r: Option<String>)
    ensures
        filled(settings.text_spec(key@)) ==> (r matches Some(t) && t@ == settings.text_spec(
            key@,
        )->0),
        !filled(settings.text_spec(key@)) ==> r is None,
{
    match settings.text(key) {
        Some(t) => if blank(t.as_str()) {
            None
        } else {
            Some(t)
        },
        None => None,
    }
}

fn bool_string(b: bool) -> (s: String)
    ensures
        s@ == bool_text(b),
{
    if b {
        "true".to_owned()
    } else {
        "false".to_owned()
    }
}

/// `minecraft_preset`.
pub fn minecraft_preset(config: &Config, request: &BackendCreateContainerRequest) -> (p: GamePreset)
    requires
        request.game_kind@ == "minecraft"@,
        request.memory_limit_mb <= i32::MAX - 1023,
    ensures
        p.is_preset_for(*config, *request),
{
    let s = &request.server_settings;
    let memory = memory_gib_string(request.memory_limit_mb);
    let mut environment = StringMap::new();
    set(&mut environment, "MINECRAFT_SERVER_MEMORY_MIN", memory.clone());
    set(&mut environment, "MINECRAFT_SERVER_MEMORY_MAX", memory);
    set(&mut environment, "MINECRAFT_SERVER_AGREE_EULA", "true".to_owned());
    set(
        &mut environment,
        "MINECRAFT_SERVER_ARGUMENTS",
        text_or_default(s, "startup_arguments", "nogui"),
    );
    if s.flag("rcon_enabled") == Some(true) {
        set(&mut environment, "MINECRAFT_SERVER_RCON_ENABLE", "true".to_owned());
        set(
            &mut environment,
            "MINECRAFT_SERVER_RCON_PORT",
            i64_to_string(int_or_default(s, "rcon_port", 25575)),
        );
        if let Some(password) = filled_text(s, "rcon_password") {
            set(&mut environment, "MINECRAFT_SERVER_RCON_PASSWORD", password);
        }
    }
    if let Some(custom_jar) = filled_text(s, "custom_jar") {
        set(&mut environment, "MINECRAFT_SERVER_CUSTOM_JAR", custom_jar);
    }
    let mut ports: Vec<ContainerPortMapping> = Vec::new();
    ports.push(port(25565, request.allocated_port as u16, "tcp"));
    let p = GamePreset {
        image: config.minecraft_image.clone(),
        working_dir: "/app".to_owned(),
        ports,
        environment,
        cmd: Vec::new(),
        entrypoint: Vec::new(),
    };
    assert(ports_view(p.ports@) =~= preset_ports(*config, *request));
    assert(strs(p.cmd@) =~= preset_cmd(*config, *request));
    p
}

/// `rust_preset`.
pub fn rust_preset(config: &Config, request: &BackendCreateContainerRequest) -> (p: GamePreset)
    requires
        request.game_kind@ == "rust"@,
    ensures
        p.is_preset_for(*config, *request),
{
    proof {
        lemma_game_kinds_distinct();
    }
    let s = &request.server_settings;
    let max_players = int_or_default(s, "max_players", 50);
    let world_size = int_or_default(s, "world_size", 3500);
    let seed = int_or_default(s, "seed", 12345);
    let rcon_port = int_or_default(s, "rcon_port", 28016);
    let query_port = int_or_default(s, "query_port", 28016);
    let app_port = int_or_default(s, "app_port", 28082);
    let rcon_password = match filled_text(s, "rcon_password") {
        Some(p) => p,
        None => "change-me-now".to_owned(),
    };
    let mod_framework = match s.text("mod_framework") {
        Some(t) => string_of(&ascii_lowercase_chars(&chars_of(t.as_str()))),
        None => if s.flag("oxide_enabled") == Some(true) {
            "oxide".to_owned()
        } else {
            "vanilla".to_owned()
        },
    };
    assert(mod_framework@ == rust_mod_framework(*s));
    let oxide = eq_str(mod_framework.as_str(), "oxide");
    let carbon = eq_str(mod_framework.as_str(), "carbon");
    let mut environment = StringMap::new();
    set(&mut environment, "SERVER_IDENTITY", request.server_id.clone());
    set(&mut environment, "SERVER_PORT", i64_to_string(request.allocated_port as i64));
    set(&mut environment, "SERVER_QUERYPORT", i64_to_string(query_port));
    set(&mut environment, "RCON_PORT", i64_to_string(rcon_port));
    set(&mut environment, "RCON_PASSWORD", rcon_password);
    set(&mut environment, "RCON_WEB", "1".to_owned());
    set(&mut environment, "SERVER_HOSTNAME", request.name.clone());
    set(&mut environment, "SERVER_MAXPLAYERS", i64_to_string(max_players));
    set(&mut environment, "SERVER_SEED", i64_to_string(seed));
    set(&mut environment, "SERVER_WORLDSIZE", i64_to_string(world_size));
    set(&mut environment, "APP_PORT", i64_to_string(app_port));
    set(&mut environment, "SERVER_SECURE", "true".to_owned());
    set(&mut environment, "SERVER_ENCRYPTION", "1".to_owned());
    set(&mut environment, "OXIDE_MOD", bool_string(oxide));
    set(&mut environment, "CARBON_MOD", bool_string(carbon));
    set(&mut environment, "USE_OXIDE", bool_string(oxide));
    set(&mut environment, "USE_CARBON", bool_string(carbon));
    set(&mut environment, "FORCE_OXIDE_INSTALLATION", bool_string(oxide));
    set(&mut environment, "FORCE_CARBON_INSTALLATION", bool_string(carbon));
    if let Some(description) = filled_text(s, "description") {
        set(&mut environment, "SERVER_DESCRIPTION", description);
    }
    if let Some(website_url) = filled_text(s, "website_url") {
        set(&mut environment, "SERVER_URL", website_url);
    }
    let game_port = request.allocated_port as u16;
    let mut ports: Vec<ContainerPortMapping> = Vec::new();
    ports.push(port(28015, game_port, "udp"));
    ports.push(port(28015, game_port, "tcp"));
    ports.push(port(query_port as u16, query_port as u16, "udp"));
    ports.push(port(query_port as u16, query_port as u16, "tcp"));
    ports.push(port(app_port as u16, app_port as u16, "tcp"));
    let p = GamePreset {
        image: config.rust_image.clone(),
        working_dir: "/serverdata".to_owned(),
        ports,
        environment,
        cmd: Vec::new(),
        entrypoint: Vec::new(),
    };
    assert(ports_view(p.ports@) =~= preset_ports(*config, *request));
    assert(strs(p.cmd@) =~= preset_cmd(*config, *request));
    p
}

/// `hytale_preset`.
pub fn hytale_preset(config: &Config, request: &BackendCreateContainerRequest) -> (p: GamePreset)
    requires
        request.game_kind@ == "hytale"@,
    ensures
        p.is_preset_for(*config, *request),
{
    proof {
        lemma_game_kinds_distinct();
    }
    let s = &request.server_settings;
    let startup_command = match s.text("startup_command") {
        Some(t) => t,
        None => {
            let mut words: Vec<Vec<char>> = Vec::new();
            let mut i: usize = 0;
            while i < config.hytale_start_command.len()
                invariant
                    i <= config.hytale_start_command@.len(),
                    words@.len() == i,
                    crate::text::views(words@) == strs(config.hytale_start_command@).take(i as int),
                decreases config.hytale_start_command@.len() - i,
            {
                let w = chars_of(config.hytale_start_command[i].as_str());
                let ghost before = words@;
                words.push(w);
                assert(words@ == before.push(w));
                proof {
                    assert(crate::text::views(words@)[i as int] == w@);
                    assert(strs(config.hytale_start_command@)[i as int] == config.hytale_start_command@[i as int]@);
                    assert(crate::text::views(words@) =~= strs(config.hytale_start_command@).take(i + 1));
                }
                i = i + 1;
            }
            assert(strs(config.hytale_start_command@).take(config.hytale_start_command@.len() as int)
                =~= strs(config.hytale_start_command@));
            let mut space: Vec<char> = Vec::new();
            space.push(' ');
            proof {
                reveal_strlit(" ");
                assert(space@ =~= " "@);
            }
            string_of(&join_chars(&words, &space))
        },
    };
    let cmd = strings_of(&split_fields(Separator::WhiteSpace, &chars_of(startup_command.as_str())));
    let mut environment = StringMap::new();
    set(&mut environment, "SERVER_ID", request.server_id.clone());
    set(&mut environment, "SERVER_NAME", request.name.clone());
    set(&mut environment, "GAME_KIND", "hytale".to_owned());
    set(&mut environment, "ALLOCATED_PORT", i64_to_string(request.allocated_port as i64));
    set(&mut environment, "MAX_PLAYERS", i64_to_string(int_or_default(s, "max_players", 32)));
    let mut ports: Vec<ContainerPortMapping> = Vec::new();
    ports.push(port(config.hytale_internal_port, request.allocated_port as u16, "tcp"));
    let p = GamePreset {
        image: config.hytale_image.clone(),
        working_dir: config.default_working_dir.clone(),
        ports,
        environment,
        cmd,
        entrypoint: Vec::new(),
    };
    assert(ports_view(p.ports@) =~= preset_ports(*config, *request));
    p
}

/// `build_container_spec` succeeded with the description of the request's
/// container.
pub open spec fn is_container_spec_for(
    spec: ContainerSpec,
    c: Config,
    r: BackendCreateContainerRequest,
) -> bool {
    &&& spec.server_id@ == r.server_id@
    &&& spec.image@ == preset_image(c, r)
    &&& spec.environment@ == preset_environment(c, r)
    &&& ports_view(spec.ports@) == preset_ports(c, r)
    &&& spec.memory_limit_mb == Some(r.memory_limit_mb as i64)
    &&& spec.cpu_limit_percent == Some(r.cpu_limit_percent)
    &&& spec.working_dir@ == preset_working_dir(c, r)
    &&& spec.volume_host_path@ == path_join(c.base_volume_dir@, r.server_id@)
    &&& strs(spec.cmd@) == preset_cmd(c, r)
    &&& spec.entrypoint@.len() == 0
    &&& spec.container_name matches Some(n) && n@ == "gsm-"@ + r.game_kind@ + "-"@ + r.server_id@
}

/// `build_container_spec`: the container description of a server of a
/// known game kind; an internal error for any other kind.
pub fn build_container_spec(config: &Config, request: &BackendCreateContainerRequest) -> (r:
    Result<ContainerSpec, AppError>)
    requires
        request.game_kind@ == "minecraft"@ ==> request.memory_limit_mb <= i32::MAX - 1023,
    ensures
        match r {
            Ok(spec) => crate::daemon::models::is_known_game_kind(request.game_kind@)
                && is_container_spec_for(spec, *config, *request),
            Err(e) => !crate::daemon::models::is_known_game_kind(request.game_kind@) && e.is(
                INTERNAL_SERVER_ERROR,
                "unsupported game_kind: "@ + request.game_kind@,
            ),
        },
{
    proof {
        lemma_game_kinds_distinct();
    }
    let kind = request.game_kind.as_str();
    let preset = if eq_str(kind, "minecraft") {
        minecraft_preset(config, request)
    } else if eq_str(kind, "rust") {
        rust_preset(config, request)
    } else if eq_str(kind, "hytale") {
        hytale_preset(config, request)
    } else {
        let mut message = "unsupported game_kind: ".to_owned();
        push_str(&mut message, kind);
        return Err(AppError::internal(message));
    };
    let volume_host_path = join_path(config.base_volume_dir.as_str(), request.server_id.as_str());
    let mut container_name = "gsm-".to_owned();
    push_str(&mut container_name, kind);
    push_str(&mut container_name, "-");
    push_str(&mut container_name, request.server_id.as_str());
    Ok(ContainerSpec {
        server_id: request.server_id.clone(),
        image: preset.image,
        environment: preset.environment,
        ports: preset.ports,
        memory_limit_mb: Some(request.memory_limit_mb as i64),
        cpu_limit_percent: Some(request.cpu_limit_percent),
        working_dir: preset.working_dir,
        volume_host_path,
        cmd: preset.cmd,
        entrypoint: preset.entrypoint,
        container_name: Some(container_name),
    })
}

/// The RCON settings of a Minecraft server reach the server: when RCON is
/// enabled, the environment turns it on, and a password that is given and
/// not blank is passed as `MINECRAFT_SERVER_RCON_PASSWORD`; when RCON is
/// not enabled, no RCON variable is set at all.
pub proof fn law_minecraft_rcon_settings_reach_the_server(
    environment: Map<Seq<char>, Seq<char>>,
    c: Config,
    r: BackendCreateContainerRequest,
)
    requires
        environment == preset_environment(c, r),
        r.game_kind@ == "minecraft"@,
    ensures
        r.server_settings.flag_spec("rcon_enabled"@) == Some(true) ==> {
            &&& environment.contains_key("MINECRAFT_SERVER_RCON_ENABLE"@)
            &&& environment["MINECRAFT_SERVER_RCON_ENABLE"@] == "true"@
            &&& environment.contains_key("MINECRAFT_SERVER_RCON_PORT"@)
        },
        forall|password: Seq<char>|
            r.server_settings.flag_spec("rcon_enabled"@) == Some(true)
                && #[trigger] r.server_settings.text_spec("rcon_password"@) == Some(password)
                && !is_blank(password) ==> environment.contains_key(
                "MINECRAFT_SERVER_RCON_PASSWORD"@,
            ) && environment["MINECRAFT_SERVER_RCON_PASSWORD"@] == password,
        environment.contains_key("MINECRAFT_SERVER_RCON_PASSWORD"@) ==> r.server_settings.flag_spec(
            "rcon_enabled"@,
        ) == Some(true),
        r.server_settings.flag_spec("rcon_enabled"@) != Some(true) ==> !environment.contains_key(
            "MINECRAFT_SERVER_RCON_ENABLE"@,
        ),
{
    reveal_strlit("MINECRAFT_SERVER_RCON_ENABLE");
    reveal_strlit("MINECRAFT_SERVER_RCON_PORT");
    reveal_strlit("MINECRAFT_SERVER_RCON_PASSWORD");
    reveal_strlit("MINECRAFT_SERVER_CUSTOM_JAR");
    reveal_strlit("MINECRAFT_SERVER_MEMORY_MIN");
    reveal_strlit("MINECRAFT_SERVER_MEMORY_MAX");
    reveal_strlit("MINECRAFT_SERVER_AGREE_EULA");
    reveal_strlit("MINECRAFT_SERVER_ARGUMENTS");
    reveal_strlit("minecraft");
    assert("MINECRAFT_SERVER_RCON_ENABLE"@.len() == 28);
    assert("MINECRAFT_SERVER_RCON_PORT"@.len() == 26);
    assert("MINECRAFT_SERVER_RCON_PASSWORD"@.len() == 30);
    assert("MINECRAFT_SERVER_CUSTOM_JAR"@.len() == 27);
    assert("MINECRAFT_SERVER_MEMORY_MIN"@.len() == 27);
    assert("MINECRAFT_SERVER_MEMORY_MAX"@.len() == 27);
    assert("MINECRAFT_SERVER_AGREE_EULA"@.len() == 27);
    assert("MINECRAFT_SERVER_ARGUMENTS"@.len() == 26);
    assert("MINECRAFT_SERVER_RCON_PORT"@ != "MINECRAFT_SERVER_ARGUMENTS"@) by {
        assert("MINECRAFT_SERVER_RCON_PORT"@[17] != "MINECRAFT_SERVER_ARGUMENTS"@[17]);
    }
    assert(environment == minecraft_environment(r));
}

/// The preset of a Minecraft server passes its RCON settings on (see
/// `law_minecraft_rcon_settings_reach_the_server`): the RCON password that
/// is given and not blank is the server's `MINECRAFT_SERVER_RCON_PASSWORD`,
/// in the preset and in the container that `build_container_spec` describes.
pub proof fn law_minecraft_rcon_password_is_passed(
    preset: GamePreset,
    spec: ContainerSpec,
    c: Config,
    r: BackendCreateContainerRequest,
    password: Seq<char>,
)
    requires
        preset.is_preset_for(c, r),
        is_container_spec_for(spec, c, r),
        r.game_kind@ == "minecraft"@,
        r.server_settings.flag_spec("rcon_enabled"@) == Some(true),
        r.server_settings.text_spec("rcon_password"@) == Some(password),
        !is_blank(password),
    ensures
        preset.environment@.contains_key("MINECRAFT_SERVER_RCON_PASSWORD"@),
        preset.environment@["MINECRAFT_SERVER_RCON_PASSWORD"@] == password,
        spec.environment@.contains_key("MINECRAFT_SERVER_RCON_PASSWORD"@),
        spec.environment@["MINECRAFT_SERVER_RCON_PASSWORD"@] == password,
        spec.environment@["MINECRAFT_SERVER_RCON_ENABLE"@] == "true"@,
{
    law_minecraft_rcon_settings_reach_the_server(preset.environment@, c, r);
    assert(r.server_settings.text_spec("rcon_password"@) == Some(password));
}

/// A Minecraft server always accepts the EULA and gets the same minimum
/// and maximum heap, of at least 1 GiB and no less than its memory limit;
/// a custom jar that is given and not blank is passed on.
pub proof fn law_minecraft_environment_basics(
    environment: Map<Seq<char>, Seq<char>>,
    c: Config,
    r: BackendCreateContainerRequest,
)
    requires
        environment == preset_environment(c, r),
        r.game_kind@ == "minecraft"@,
    ensures
        environment.contains_key("MINECRAFT_SERVER_AGREE_EULA"@),
        environment["MINECRAFT_SERVER_AGREE_EULA"@] == "true"@,
        environment.contains_key("MINECRAFT_SERVER_MEMORY_MIN"@),
        environment.contains_key("MINECRAFT_SERVER_MEMORY_MAX"@),
        environment["MINECRAFT_SERVER_MEMORY_MIN"@] == environment["MINECRAFT_SERVER_MEMORY_MAX"@],
        environment["MINECRAFT_SERVER_MEMORY_MAX"@] == decimal(memory_gib(r.memory_limit_mb as int))
            + "G"@,
        memory_gib(r.memory_limit_mb as int) * 1024 >= r.memory_limit_mb,
        forall|jar: Seq<char>|
            #[trigger] r.server_settings.text_spec("custom_jar"@) == Some(jar) && !is_blank(jar)
                ==> environment.contains_key("MINECRAFT_SERVER_CUSTOM_JAR"@)
                && environment["MINECRAFT_SERVER_CUSTOM_JAR"@] == jar,
{
    reveal_strlit("MINECRAFT_SERVER_RCON_ENABLE");
    reveal_strlit("MINECRAFT_SERVER_RCON_PORT");
    reveal_strlit("MINECRAFT_SERVER_RCON_PASSWORD");
    reveal_strlit("MINECRAFT_SERVER_CUSTOM_JAR");
    reveal_strlit("MINECRAFT_SERVER_MEMORY_MIN");
    reveal_strlit("MINECRAFT_SERVER_MEMORY_MAX");
    reveal_strlit("MINECRAFT_SERVER_AGREE_EULA");
    reveal_strlit("MINECRAFT_SERVER_ARGUMENTS");
    let min = "MINECRAFT_SERVER_MEMORY_MIN"@;
    let max = "MINECRAFT_SERVER_MEMORY_MAX"@;
    let eula = "MINECRAFT_SERVER_AGREE_EULA"@;
    let jar_key = "MINECRAFT_SERVER_CUSTOM_JAR"@;
    let args = "MINECRAFT_SERVER_ARGUMENTS"@;
    let en = "MINECRAFT_SERVER_RCON_ENABLE"@;
    let port = "MINECRAFT_SERVER_RCON_PORT"@;
    let pw = "MINECRAFT_SERVER_RCON_PASSWORD"@;
    assert(min[25] != max[25]);
    assert(min[17] != eula[17] && max[17] != eula[17]);
    assert(min[17] != jar_key[17] && max[17] != jar_key[17] && eula[17] != jar_key[17]);
    assert(min.len() != args.len() && max.len() != args.len() && eula.len() != args.len());
    assert(min.len() != en.len() && min.len() != port.len() && min.len() != pw.len());
    assert(eula.len() != en.len() && eula.len() != port.len() && eula.len() != pw.len());
    assert(jar_key.len() != en.len() && jar_key.len() != port.len() && jar_key.len() != pw.len());
    assert(jar_key.len() != args.len());
    law_memory_gib_covers_limit(r.memory_limit_mb as int);
    reveal_strlit("minecraft");
    assert(environment == minecraft_environment(r));
}

} // verus!
