//! The backend's requests and answers about servers, the node daemon's
//! answers, and the rules a new server must follow.
use vstd::prelude::*;

use crate::backend::error::ServiceError;
use crate::daemon::models::ServerSettings;
use crate::text::{chars_of, eq_str};

verus! {

/// The game kinds a server can be.
pub open spec fn is_supported_game_kind_spec(value: Seq<char>) -> bool {
    value == "minecraft"@ || value == "rust"@ || value == "hytale"@
}

/// `is_supported_game_kind`: `minecraft`, `rust` or `hytale`.
pub fn is_supported_game_kind(value: &str) -> (r: bool)
    ensures
        r == is_supported_game_kind_spec(value@),
{
    eq_str(value, "minecraft") || eq_str(value, "rust") || eq_str(value, "hytale")
}

/// A request to create a server.
pub struct CreateServerRequest {
    pub name: String,
    pub node_id: i32,
    pub game_kind: String,
    pub server_settings: ServerSettings,
    pub allocated_port: i32,
    pub memory_limit_mb: i32,
    pub cpu_limit_percent: i32,
}

/// The first rule a creation request breaks, with what the backend says.
pub open spec fn create_server_violation(r: CreateServerRequest) -> Option<Seq<char>> {
    if !(3 <= r.name@.len() <= 64) {
        Some("name: length must be between 3 and 64"@)
    } else if !(1 <= r.allocated_port <= 65535) {
        Some("allocated_port: must be between 1 and 65535"@)
    } else if !(128 <= r.memory_limit_mb <= 262144) {
        Some("memory_limit_mb: must be between 128 and 262144"@)
    } else if !(1 <= r.cpu_limit_percent <= 1000) {
        Some("cpu_limit_percent: must be between 1 and 1000"@)
    } else if !is_supported_game_kind_spec(r.game_kind@) {
        Some("game_kind must be one of: minecraft, rust, hytale"@)
    } else if !r.server_settings.is_object {
        Some("server_settings must be a JSON object"@)
    } else {
        None
    }
}

impl CreateServerRequest {
    /// `create_server`, its checks: a name of 3 to 64 characters, a port
    /// from 1 to 65535, 128 to 262144 MiB of memory, 1 to 1000 percent of a
    /// CPU, a supported game kind and settings that are a JSON object.
    pub fn validate(&self) -> (r: Result<(), ServiceError>)
        ensures
            match create_server_violation(*self) {
                None => r is Ok,
                Some(m) => r matches Err(ServiceError::Validation(s)) && s@ == m,
            },
    {
        let name_len = chars_of(self.name.as_str()).len();
        if !(3 <= name_len && name_len <= 64) {
            return Err(ServiceError::Validation("name: length must be between 3 and 64".to_owned()));
        }
        if !(1 <= self.allocated_port && self.allocated_port <= 65535) {
            return Err(
                ServiceError::Validation("allocated_port: must be between 1 and 65535".to_owned()),
            );
        }
        if !(128 <= self.memory_limit_mb && self.memory_limit_mb <= 262144) {
            return Err(
                ServiceError::Validation(
                    "memory_limit_mb: must be between 128 and 262144".to_owned(),
                ),
            );
        }
        if !(1 <= self.cpu_limit_percent && self.cpu_limit_percent <= 1000) {
            return Err(
                ServiceError::Validation("cpu_limit_percent: must be between 1 and 1000".to_owned()),
            );
        }
        if !is_supported_game_kind(self.game_kind.as_str()) {
            return Err(
                ServiceError::Validation(
                    "game_kind must be one of: minecraft, rust, hytale".to_owned(),
                ),
            );
        }
        if !self.server_settings.is_object {
            return Err(
                ServiceError::Validation("server_settings must be a JSON object".to_owned()),
            );
        }
        Ok(())
    }
}

/// The backend and the daemon support the same game kinds.
pub proof fn law_game_kinds_agree(kind: Seq<char>)
    ensures
        is_supported_game_kind_spec(kind) == crate::daemon::models::is_known_game_kind(kind),
{
}

/// A server that the backend accepts, with a name that is not all white
/// space, passes the daemon's checks of the container request made from
/// it, and its memory limit is one the daemon can size.
pub proof fn law_accepted_server_passes_daemon_checks(
    request: CreateServerRequest,
    container_request: crate::daemon::models::BackendCreateContainerRequest,
)
    requires
        create_server_violation(request) is None,
        !crate::text::is_blank(request.name@),
        container_request.name@ == request.name@,
        container_request.game_kind@ == request.game_kind@,
        container_request.allocated_port == request.allocated_port,
        container_request.memory_limit_mb == request.memory_limit_mb,
        container_request.cpu_limit_percent == request.cpu_limit_percent,
    ensures
        container_request.violation() is None,
        container_request.memory_limit_mb <= i32::MAX - 1023,
{
}

/// The desired and actual status of a server.
pub struct ServerStatusResponse {
    pub server_id: String,
    pub desired_status: String,
    pub actual_status: String,
}

/// The query of a file request.
pub struct ServerFilePathQuery {
    pub path: Option<String>,
}

/// A request to write a file of a server.
pub struct WriteServerFileRequest {
    pub path: String,
    pub content: String,
    pub content_base64: Option<String>,
}

/// A request to create a directory in a server's volume.
pub struct CreateServerDirectoryRequest {
    pub path: String,
}

/// One entry of a server's directory listing.
pub struct ServerFileEntry {
    pub name: String,
    pub path: String,
    pub is_directory: bool,
    pub size_bytes: u64,
}

/// A server's directory listing.
pub struct ServerFileListResponse {
    pub server_id: String,
    pub path: String,
    pub entries: Vec<ServerFileEntry>,
}

/// The text of a server's file.
pub struct ServerFileContentResponse {
    pub server_id: String,
    pub path: String,
    pub content: String,
}

/// The answer to a change of a server's files.
pub struct ServerFileMutationResponse {
    pub server_id: String,
    pub path: String,
}

/// A node that runs the daemon.
pub struct NodeRecord {
    pub id: i32,
    pub name: String,
    pub api_url: String,
    pub api_token: String,
}

/// The daemon's answer to a container creation.
pub struct CreateContainerResponse {
    pub container_id: String,
    pub status: String,
}

/// The daemon's answer about a container's state.
pub struct NodeStatusResponse {
    pub status: String,
}

/// One entry of the daemon's directory listing.
pub struct NodeFileEntry {
    pub name: String,
    pub path: String,
    pub is_directory: bool,
    pub size_bytes: u64,
}

/// The daemon's directory listing.
pub struct NodeFileListResponse {
    pub server_id: String,
    pub path: String,
    pub entries: Vec<NodeFileEntry>,
}

/// The daemon's answer with a file's text.
pub struct NodeFileContentResponse {
    pub server_id: String,
    pub path: String,
    pub content: String,
}

/// The daemon's answer to a change of files.
pub struct NodeFileMutationResponse {
    pub server_id: String,
    pub path: String,
}

/// The same entry, as plain values.
pub open spec fn node_entry_view(e: NodeFileEntry) -> (Seq<char>, Seq<char>, bool, u64) {
    (e.name@, e.path@, e.is_directory, e.size_bytes)
}

/// The same entry, as plain values.
pub open spec fn server_entry_view(e: ServerFileEntry) -> (Seq<char>, Seq<char>, bool, u64) {
    (e.name@, e.path@, e.is_directory, e.size_bytes)
}

impl ServerFileListResponse {
    /// `list_server_files`, its answer: the daemon's listing, entry by entry.
    pub fn from_node(response: NodeFileListResponse) -> (r: ServerFileListResponse)
        ensures
            r.server_id@ == response.server_id@,
            r.path@ == response.path@,
            r.entries@.map_values(|e: ServerFileEntry| server_entry_view(e))
                == response.entries@.map_values(|e: NodeFileEntry| node_entry_view(e)),
    {
        let mut entries: Vec<ServerFileEntry> = Vec::new();
        let mut i: usize = 0;
        while i < response.entries.len()
            invariant
                i <= response.entries@.len(),
                entries@.len() == i,
                forall|k: int| 0 <= k < i ==> server_entry_view(#[trigger] entries@[k])
                    == node_entry_view(response.entries@[k]),
            decreases response.entries@.len() - i,
        {
            let e = &response.entries[i];
            entries.push(
                ServerFileEntry {
                    name: e.name.clone(),
                    path: e.path.clone(),
                    is_directory: e.is_directory,
                    size_bytes: e.size_bytes,
                },
            );
            i = i + 1;
        }
        assert(entries@.map_values(|e: ServerFileEntry| server_entry_view(e))
            =~= response.entries@.map_values(|e: NodeFileEntry| node_entry_view(e)));
        ServerFileListResponse { server_id: response.server_id, path: response.path, entries }
    }
}

impl ServerFileContentResponse {
    /// `read_server_file`, its answer: the daemon's, field by field.
    pub fn from_node(response: NodeFileContentResponse) -> (r: ServerFileContentResponse)
        ensures
            r.server_id@ == response.server_id@,
            r.path@ == response.path@,
            r.content@ == response.content@,
    {
        ServerFileContentResponse {
            server_id: response.server_id,
            path: response.path,
            content: response.content,
        }
    }
}

impl ServerFileMutationResponse {
    /// `write_server_file` and `create_server_directory`, their answer: the
    /// daemon's, field by field.
    pub fn from_node(response: NodeFileMutationResponse) -> (r: ServerFileMutationResponse)
        ensures
            r.server_id@ == response.server_id@,
            r.path@ == response.path@,
    {
        ServerFileMutationResponse { server_id: response.server_id, path: response.path }
    }
}

} // verus!
