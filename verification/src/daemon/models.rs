//! The daemon's requests, answers and container descriptions.
use vstd::prelude::*;

use crate::daemon::error::{AppError, BAD_REQUEST};
use crate::string_map::StringMap;
use crate::text::{blank, chars_of, decimal, eq_str, is_blank, push_str, u64_to_string};

verus! {

/// The contents of a sequence of strings.
pub open spec fn strs(v: Seq<String>) -> Seq<Seq<char>> {
    v.map_values(|s: String| s@)
}

/// An absent or blank identifier.
pub open spec fn absent_or_blank(o: Option<String>) -> bool {
    match o {
        None => true,
        Some(s) => is_blank(s@),
    }
}

fn absent_or_blank_exec(o: &Option<String>) -> (r: bool)
    ensures
        r == absent_or_blank(*o),
{
    match o {
        None => true,
        Some(s) => blank(s.as_str()),
    }
}

/// A start, stop, restart or delete of a container, named by its server or
/// by the container itself.
pub struct ContainerActionRequest {
    pub server_id: Option<String>,
    pub container_id: Option<String>,
}

impl ContainerActionRequest {
    /// Refuses a request that names neither a server nor a container.
    pub fn validate(&self) -> (r: Result<(), AppError>)
        ensures
            r is Err <==> absent_or_blank(self.server_id) && absent_or_blank(self.container_id),
            r matches Err(e) ==> e.is(BAD_REQUEST, "server_id or container_id is required"@),
    {
        if absent_or_blank_exec(&self.server_id) && absent_or_blank_exec(&self.container_id) {
            return Err(AppError::new(BAD_REQUEST, "server_id or container_id is required"));
        }
        Ok(())
    }
}

/// One value of a server's settings, as the logic reads it: a string, an
/// integer that fits in `i64`, a boolean, or anything else.
#[derive(Debug)]
pub enum SettingValue {
    Text(String),
    Integer(i64),
    Flag(bool),
    Other,
}

/// The first value given for `key` among `entries`.
pub open spec fn lookup_setting(entries: Seq<(String, SettingValue)>, key: Seq<char>) -> Option<
    SettingValue,
>
    decreases entries.len(),
{
    if entries.len() == 0 {
        None
    } else if entries[0].0@ == key {
        Some(entries[0].1)
    } else {
        lookup_setting(entries.drop_first(), key)
    }
}

/// A server's free-form settings: whether they were given as an object, and
/// the object's members (empty when they were not an object).
pub struct ServerSettings {
    pub is_object: bool,
    pub entries: Vec<(String, SettingValue)>,
}

impl ServerSettings {
    /// The setting given for `key`; none when the settings are not an object.
    pub open spec fn get_spec(&self, key: Seq<char>) -> Option<SettingValue> {
        if self.is_object {
            lookup_setting(self.entries@, key)
        } else {
            None
        }
    }

    /// The setting given for `key`, if any.
    pub fn get(&self, key: &str) -> (r: Option<&SettingValue>)
        ensures
            match r {
                Some(v) => self.get_spec(key@) == Some(*v),
                None => self.get_spec(key@) is None,
            },
    {
        if !self.is_object {
            return None;
        }
        let mut i: usize = 0;
        assert(self.entries@.skip(0) =~= self.entries@);
        while i < self.entries.len()
            invariant
                i <= self.entries@.len(),
                self.is_object,
                lookup_setting(self.entries@.skip(i as int), key@) == lookup_setting(
                    self.entries@,
                    key@,
                ),
            decreases self.entries@.len() - i,
        {
            let ghost rest = self.entries@.skip(i as int);
            if eq_str(self.entries[i].0.as_str(), key) {
                return Some(&self.entries[i].1);
            }
            assert(rest.drop_first() =~= self.entries@.skip(i + 1));
            i = i + 1;
        }
        None
    }

    /// The string given for `key`.
    pub open spec fn text_spec(&self, key: Seq<char>) -> Option<Seq<char>> {
        match self.get_spec(key) {
            Some(SettingValue::Text(s)) => Some(s@),
            _ => None,
        }
    }

    /// The integer given for `key`.
    pub open spec fn integer_spec(&self, key: Seq<char>) -> Option<i64> {
        match self.get_spec(key) {
            Some(SettingValue::Integer(n)) => Some(n),
            _ => None,
        }
    }

    /// The boolean given for `key`.
    pub open spec fn flag_spec(&self, key: Seq<char>) -> Option<bool> {
        match self.get_spec(key) {
            Some(SettingValue::Flag(b)) => Some(b),
            _ => None,
        }
    }

    /// `setting_string`: the string given for `key`.
    pub fn text(&self, key: &str) -> (r: Option<String>)
        ensures
            match r {
                Some(s) => self.text_spec(key@) == Some(s@),
                None => self.text_spec(key@) is None,
            },
    {
        match self.get(key) {
            Some(SettingValue::Text(s)) => Some(s.clone()),
            _ => None,
        }
    }

    /// `setting_i64`: the integer given for `key`.
    pub fn integer(&self, key: &str) -> (r: Option<i64>)
        ensures
            r == self.integer_spec(key@),
    {
        match self.get(key) {
            Some(SettingValue::Integer(n)) => Some(*n),
            _ => None,
        }
    }

    /// `setting_bool`: the boolean given for `key`.
    pub fn flag(&self, key: &str) -> (r: Option<bool>)
        ensures
            r == self.flag_spec(key@),
    {
        match self.get(key) {
            Some(SettingValue::Flag(b)) => Some(*b),
            _ => None,
        }
    }
}

/// The game kinds the daemon can host.
pub open spec fn is_known_game_kind(kind: Seq<char>) -> bool {
    kind == "minecraft"@ || kind == "rust"@ || kind == "hytale"@
}

/// The three game kinds are different words.
pub proof fn lemma_game_kinds_distinct()
    ensures
        "minecraft"@ != "rust"@,
        "minecraft"@ != "hytale"@,
        "rust"@ != "hytale"@,
{
    reveal_strlit("rust");
    reveal_strlit("minecraft");
    reveal_strlit("hytale");
    assert("minecraft"@.len() == 9);
    assert("rust"@.len() == 4);
    assert("hytale"@.len() == 6);
}

/// Whether `kind` is one of the game kinds the daemon can host.
pub fn known_game_kind(kind: &str) -> (r: bool)
    ensures
        r == is_known_game_kind(kind@),
{
    eq_str(kind, "minecraft") || eq_str(kind, "rust") || eq_str(kind, "hytale")
}

/// The backend's request to create the container of a server.
pub struct BackendCreateContainerRequest {
    pub server_id: String,
    pub name: String,
    pub game_kind: String,
    pub server_settings: ServerSettings,
    pub allocated_port: i32,
    pub memory_limit_mb: i32,
    pub cpu_limit_percent: i32,
}

impl BackendCreateContainerRequest {
    /// The first rule the request breaks, as the daemon answers it.
    pub open spec fn violation(&self) -> Option<Seq<char>> {
        if is_blank(self.name@) {
            Some("name is required"@)
        } else if !is_known_game_kind(self.game_kind@) {
            Some("game_kind must be one of: minecraft, rust, hytale"@)
        } else if !(1 <= self.allocated_port <= 65535) {
            Some("allocated_port must be between 1 and 65535"@)
        } else if self.memory_limit_mb <= 0 || self.cpu_limit_percent <= 0 {
            Some("memory_limit_mb and cpu_limit_percent must be greater than zero"@)
        } else {
            None
        }
    }

    /// Refuses a request with a blank name, an unknown game kind, a port
    /// outside 1..=65535 or a limit that is not positive.
    pub fn validate(&self) -> (r: Result<(), AppError>)
        ensures
            match self.violation() {
                None => r is Ok,
                Some(m) => r matches Err(e) && e.is(BAD_REQUEST, m),
            },
    {
        if blank(self.name.as_str()) {
            return Err(AppError::new(BAD_REQUEST, "name is required"));
        }
        if !known_game_kind(self.game_kind.as_str()) {
            return Err(
                AppError::new(BAD_REQUEST, "game_kind must be one of: minecraft, rust, hytale"),
            );
        }
        if !(1 <= self.allocated_port && self.allocated_port <= 65535) {
            return Err(AppError::new(BAD_REQUEST, "allocated_port must be between 1 and 65535"));
        }
        if self.memory_limit_mb <= 0 || self.cpu_limit_percent <= 0 {
            return Err(
                AppError::new(
                    BAD_REQUEST,
                    "memory_limit_mb and cpu_limit_percent must be greater than zero",
                ),
            );
        }
        Ok(())
    }
}

/// A port of a container published on the host.
pub struct ContainerPortMapping {
    pub container_port: u16,
    pub host_port: u16,
    pub protocol: String,
    pub host_ip: String,
}

impl ContainerPortMapping {
    /// The key Docker uses for the port: the container port, `/`, the
    /// protocol.
    pub open spec fn key_spec(&self) -> Seq<char> {
        decimal(self.container_port as int) + "/"@ + self.protocol@
    }

    /// The key Docker uses for the port, such as `25565/tcp`.
    pub fn key(&self) -> (k: String)
        ensures
            k@ == self.key_spec(),
    {
        let mut k = u64_to_string(self.container_port as u64);
        push_str(&mut k, "/");
        push_str(&mut k, self.protocol.as_str());
        k
    }
}

/// The same port mapping.
pub open spec fn port_view(p: ContainerPortMapping) -> (int, int, Seq<char>, Seq<char>) {
    (p.container_port as int, p.host_port as int, p.protocol@, p.host_ip@)
}

/// What the daemon creates a container from.  The CPU limit is kept in
/// percent of one CPU, as the request gave it.
pub struct ContainerSpec {
    pub server_id: String,
    pub image: String,
    pub environment: StringMap,
    pub ports: Vec<ContainerPortMapping>,
    pub memory_limit_mb: Option<i64>,
    pub cpu_limit_percent: Option<i32>,
    pub working_dir: String,
    pub volume_host_path: String,
    pub cmd: Vec<String>,
    pub entrypoint: Vec<String>,
    pub container_name: Option<String>,
}

/// The answer to a container creation.
pub struct CreateContainerResult {
    pub server_id: String,
    pub container_id: String,
    pub status: String,
}

/// A bare status answer.
pub struct ApiMessageResponse {
    pub status: String,
}

/// An instant in UTC: seconds since the Unix epoch and nanoseconds.
#[derive(Clone, Copy, PartialEq, Eq, Structural, Debug)]
pub struct LogTimestamp {
    pub seconds: i64,
    pub nanos: u32,
}

/// One line of a container's log.
pub struct ContainerLogLine {
    pub timestamp: LogTimestamp,
    pub line: String,
}

/// The log lines of a container.
pub struct ContainerLogsResponse {
    pub server_id: String,
    pub container_id: String,
    pub lines: Vec<ContainerLogLine>,
}

/// The query of a log request.
pub struct LogsQuery {
    pub tail: Option<usize>,
}

/// The query of a file request.
pub struct FilePathQuery {
    pub path: Option<String>,
}

/// One entry of a directory listing.
pub struct FileEntry {
    pub name: String,
    pub path: String,
    pub is_directory: bool,
    pub size_bytes: u64,
}

/// A directory listing.
pub struct FileListResponse {
    pub server_id: String,
    pub path: String,
    pub entries: Vec<FileEntry>,
}

/// The text of a file.
pub struct FileContentResponse {
    pub server_id: String,
    pub path: String,
    pub content: String,
}

/// A request to write a file, as text or as base64.
pub struct WriteFileRequest {
    pub path: String,
    pub content: String,
    pub content_base64: Option<String>,
}

/// A request to create a directory.
pub struct CreateDirectoryRequest {
    pub path: String,
}

/// The answer to a file or directory change.
pub struct FileMutationResponse {
    pub server_id: String,
    pub path: String,
}

} // verus!
