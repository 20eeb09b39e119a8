//! The decisions of the container lifecycle manager: which container a
//! request means, whether a container is the daemon's own, which record
//! entries are stale, what a server volume holds, and what the file
//! explorer answers.
use base64::Engine;
use vstd::prelude::*;
use vstd::utf8::{decode_utf8, encode_utf8, valid_utf8};

use crate::daemon::docker::server_id_label;
use crate::daemon::error::{AppError, BAD_REQUEST, FORBIDDEN};
use crate::daemon::models::{
    strs, ContainerActionRequest, CreateDirectoryRequest, FileContentResponse, FileEntry,
    WriteFileRequest,
};
use crate::daemon::paths::{
    join_path, normalize_relative_path, normalized, path_join, rejection_error,
};
use crate::daemon::state::StateStore;
use crate::string_map::StringMap;
use crate::text::{blank, is_blank, push_str};

verus! {

/// `reconcile_on_startup`, its decision: the servers whose recorded
/// container is not among those Docker still has, in record order, each
/// once.
pub fn stale_server_ids(snapshot: &StringMap, discovered: &Vec<String>) -> (r: Vec<String>)
    ensures
        forall|i: int, j: int| 0 <= i < j < r@.len() ==> #[trigger] r@[i]@ != #[trigger] r@[j]@,
        forall|i: int| 0 <= i < r@.len() ==> #[trigger] snapshot@.contains_key(r@[i]@)
            && !strs(discovered@).contains(snapshot@[r@[i]@]),
        forall|s: Seq<char>|
            #[trigger] snapshot@.contains_key(s) && !strs(discovered@).contains(snapshot@[s])
                ==> strs(r@).contains(s),
{
    let n = snapshot.len();
    let mut r: Vec<String> = Vec::new();
    let ghost mut idx: Seq<int> = Seq::empty();
    let mut i: usize = 0;
    while i < n
        invariant
            idx.len() == r@.len(),
            forall|k: int| 0 <= k < r@.len() ==> 0 <= #[trigger] idx[k] < i && r@[k]@
                == snapshot.pairs()[idx[k]].0@,
            forall|a: int, b: int| 0 <= a < b < r@.len() ==> #[trigger] idx[a] < #[trigger] idx[b],
            forall|a: int, b: int| 0 <= a < b < r@.len() ==> #[trigger] r@[a]@ != #[trigger] r@[b]@,
            n == snapshot.pairs().len(),
            crate::string_map::pairs_view(snapshot.pairs()) == snapshot@,
            crate::string_map::distinct_keys(snapshot.pairs()),
            i <= n,
            forall|k: int| 0 <= k < r@.len() ==> #[trigger] snapshot@.contains_key(r@[k]@)
                && !strs(discovered@).contains(snapshot@[r@[k]@]),
            forall|k: int|
                0 <= k < i && !strs(discovered@).contains(#[trigger] snapshot.pairs()[k].1@)
                    ==> strs(r@).contains(snapshot.pairs()[k].0@),
        decreases n - i,
    {
        let (server_id, container_id) = snapshot.pair_at(i);
        if !contains_id(discovered, container_id.as_str()) {
            let ghost before = r@;
            let ghost before_idx = idx;
            r.push(server_id);
            proof {
                idx = idx.push(i as int);
                assert forall|k: int| 0 <= k < r@.len() implies 0 <= #[trigger] idx[k] < i + 1
                    && r@[k]@ == snapshot.pairs()[idx[k]].0@ by {
                    if k < before.len() {
                        assert(r@[k] == before[k]);
                        assert(idx[k] == before_idx[k]);
                    }
                }
                assert forall|a: int, b: int| 0 <= a < b < r@.len() implies #[trigger] idx[a]
                    < #[trigger] idx[b] by {
                    if b < before.len() {
                        assert(idx[a] == before_idx[a] && idx[b] == before_idx[b]);
                    } else {
                        assert(idx[a] == before_idx[a]);
                        assert(before_idx[a] < i);
                    }
                }
                assert forall|a: int, b: int| 0 <= a < b < r@.len() implies #[trigger] r@[a]@
                    != #[trigger] r@[b]@ by {
                    let ia = idx[a];
                    let ib = idx[b];
                    assert(r@[a]@ == snapshot.pairs()[ia].0@);
                    assert(r@[b]@ == snapshot.pairs()[ib].0@);
                    assert(ia < ib);
                    assert(snapshot.pairs()[ia].0@ != snapshot.pairs()[ib].0@);
                }
                assert forall|k: int| 0 <= k < r@.len() implies #[trigger] snapshot@.contains_key(r@[k]@)
                    && !strs(discovered@).contains(snapshot@[r@[k]@]) by {
                    if k < before.len() {
                        assert(r@[k] == before[k]);
                    }
                }
                assert forall|k: int|
                    0 <= k < i + 1 && !strs(discovered@).contains(
                        #[trigger] snapshot.pairs()[k].1@,
                    ) implies strs(r@).contains(snapshot.pairs()[k].0@) by {
                    if k < i {
                        let j = choose|j: int|
                            0 <= j < strs(before).len() && strs(before)[j] == snapshot.pairs()[k].0@;
                        assert(strs(r@)[j] == strs(before)[j]);
                    } else {
                        assert(strs(r@)[r@.len() - 1] == snapshot.pairs()[k].0@);
                    }
                }
            }
        }
        i = i + 1;
    }
    proof {
        assert forall|s: Seq<char>|
            #[trigger] snapshot@.contains_key(s) && !strs(discovered@).contains(
                snapshot@[s],
            ) implies strs(r@).contains(s) by {
            crate::string_map::lemma_pairs_view_dom(snapshot.pairs(), s);
            let k = choose|k: int|
                0 <= k < snapshot.pairs().len() && #[trigger] snapshot.pairs()[k].0@ == s;
            crate::string_map::lemma_pairs_view_value(snapshot.pairs(), k);
        }
    }
    r
}

fn contains_id(ids: &Vec<String>, id: &str) -> (r: bool)
    ensures
        r == strs(ids@).contains(id@),
{
    let mut i: usize = 0;
    while i < ids.len()
        invariant
            i <= ids@.len(),
            forall|k: int| 0 <= k < i ==> ids@[k]@ != id@,
        decreases ids@.len() - i,
    {
        if crate::text::eq_str(ids[i].as_str(), id) {
            assert(strs(ids@)[i as int] == id@);
            return true;
        }
        i = i + 1;
    }
    proof {
        if strs(ids@).contains(id@) {
            let k = choose|k: int| 0 <= k < strs(ids@).len() && strs(ids@)[k] == id@;
            assert(ids@[k]@ == id@);
        }
    }
    false
}

/// After the stale entries are dropped, every server the record still
/// holds has a container that Docker still has.
pub proof fn law_reconciled_record_is_live(
    record: Map<Seq<char>, Seq<char>>,
    discovered: Seq<Seq<char>>,
    stale: Seq<Seq<char>>,
)
    requires
        forall|s: Seq<char>|
            #[trigger] record.contains_key(s) && !discovered.contains(record[s]) ==> stale.contains(
                s,
            ),
    ensures
        forall|s: Seq<char>|
            #[trigger] record.remove_keys(stale.to_set()).contains_key(s) ==> discovered.contains(
                record[s],
            ),
{
    assert forall|s: Seq<char>| #[trigger]
        record.remove_keys(stale.to_set()).contains_key(s) implies discovered.contains(
        record[s],
    ) by {
        assert(!stale.to_set().contains(s));
        if !discovered.contains(record[s]) {
            assert(stale.contains(s));
        }
    }
}

/// The directories of a server's volume: the volume itself, and for a
/// Rust server its `logs`, `steamcmd`, `serverfiles`, `carbon` and `oxide`
/// directories.
pub open spec fn volume_directories(base: Seq<char>, server_id: Seq<char>, game_kind: Seq<char>) -> Seq<
    Seq<char>,
> {
    let root = path_join(base, server_id);
    if game_kind == "rust"@ {
        seq![
            root,
            path_join(root, "logs"@),
            path_join(root, "steamcmd"@),
            path_join(root, "serverfiles"@),
            path_join(root, "carbon"@),
            path_join(root, "oxide"@),
        ]
    } else {
        seq![root]
    }
}

/// `ensure_server_volume`, its decision: the directories to create, in
/// order.
pub fn server_volume_directories(base_volume_dir: &str, server_id: &str, game_kind: &str) -> (r:
    Vec<String>)
    ensures
        strs(r@) == volume_directories(base_volume_dir@, server_id@, game_kind@),
{
    let root = join_path(base_volume_dir, server_id);
    let mut r: Vec<String> = Vec::new();
    r.push(root.clone());
    if crate::text::eq_str(game_kind, "rust") {
        r.push(join_path(root.as_str(), "logs"));
        r.push(join_path(root.as_str(), "steamcmd"));
        r.push(join_path(root.as_str(), "serverfiles"));
        r.push(join_path(root.as_str(), "carbon"));
        r.push(join_path(root.as_str(), "oxide"));
    }
    assert(strs(r@) =~= volume_directories(base_volume_dir@, server_id@, game_kind@));
    r
}

/// `apply_world_writable_permissions`, its decision: directories become
/// `rwxrwxrwx` and files `rw-rw-rw-`.
pub fn volume_permission_mode(is_directory: bool) -> (mode: u32)
    ensures
        mode == (if is_directory {
            0o777u32
        } else {
            0o666u32
        }),
{
    if is_directory {
        0o777
    } else {
        0o666
    }
}

/// Which container a start, stop, restart or delete request means.
pub enum ContainerTarget {
    /// The container recorded for a server (or the identifier itself).
    Server(String),
    /// A container named directly.
    Container(String),
}

/// `resolve_owned_container_id`, its decision: a given server id wins over
/// a given container id; with neither the request is refused.
pub fn container_target(request: &ContainerActionRequest) -> (r: Result<ContainerTarget, AppError>)
    ensures
        match request.server_id {
            Some(s) => r matches Ok(ContainerTarget::Server(t)) && t@ == s@,
            None => match request.container_id {
                Some(c) => r matches Ok(ContainerTarget::Container(t)) && t@ == c@,
                None => r matches Err(e) && e.is(
                    BAD_REQUEST,
                    "server_id or container_id is required"@,
                ),
            },
        },
{
    match &request.server_id {
        Some(s) => Ok(ContainerTarget::Server(s.clone())),
        None => match &request.container_id {
            Some(c) => Ok(ContainerTarget::Container(c.clone())),
            None => Err(AppError::new(BAD_REQUEST, "server_id or container_id is required")),
        },
    }
}

/// `lookup_owned_container`, its decision: the container recorded for the
/// identifier when it is a server id, else the identifier itself.
pub fn owned_container_candidate(store: &StateStore, identifier: &str) -> (r: String)
    ensures
        r@ == (if store@.contains_key(identifier@) {
            store@[identifier@]
        } else {
            identifier@
        }),
{
    match store.get(identifier) {
        Some(c) => c,
        None => identifier.to_owned(),
    }
}

/// `ensure_container_is_owned`, its decision: a container is the daemon's
/// when its labels carry a non-blank server id.
pub fn ensure_labels_show_ownership(labels: &StringMap) -> (r: Result<(), AppError>)
    ensures
        r is Ok <==> labels@.contains_key(server_id_label()) && !is_blank(
            labels@[server_id_label()],
        ),
        r matches Err(e) ==> e.is(FORBIDDEN, "container ownership validation failed"@),
{
    match labels.get("game-host-daemon.server_id") {
        Some(v) => if blank(v.as_str()) {
            Err(AppError::new(FORBIDDEN, "container ownership validation failed"))
        } else {
            Ok(())
        },
        None => Err(AppError::new(FORBIDDEN, "container ownership validation failed")),
    }
}

/// `server_id_for_container`, its decision: the server id that the
/// container's labels carry.
pub fn server_id_from_labels(labels: &StringMap) -> (r: Result<String, AppError>)
    ensures
        match r {
            Ok(s) => labels@.contains_key(server_id_label()) && s@ == labels@[server_id_label()],
            Err(e) => !labels@.contains_key(server_id_label()) && e.is(
                FORBIDDEN,
                "container ownership validation failed"@,
            ),
        },
{
    match labels.get("game-host-daemon.server_id") {
        Some(v) => Ok(v),
        None => Err(AppError::new(FORBIDDEN, "container ownership validation failed")),
    }
}

/// Whether `uuid::Uuid::parse_str` accepts a string.
pub uninterp spec fn parses_as_uuid(s: Seq<char>) -> bool;

/// Calls `uuid::Uuid::parse_str` and tells whether it succeeded.  The
/// contract claims that the answer is `parses_as_uuid` of the text.
#[verifier::external_body]
fn is_uuid(s: &str) -> (r: bool)
    ensures
        r == parses_as_uuid(s@),
{
    uuid::Uuid::parse_str(s).is_ok()
}

/// `resolve_server_id`, its decision: an identifier that the record knows
/// or that is a UUID is a server id itself; for any other the server id
/// comes from the labels of the container it names (none here).
pub fn resolve_server_id_locally(store: &StateStore, identifier: &str) -> (r: Option<String>)
    ensures
        match r {
            Some(s) => s@ == identifier@ && (store@.contains_key(identifier@) || parses_as_uuid(
                identifier@,
            )),
            None => !store@.contains_key(identifier@) && !parses_as_uuid(identifier@),
        },
{
    if store.get(identifier).is_some() {
        return Some(identifier.to_owned());
    }
    if is_uuid(identifier) {
        return Some(identifier.to_owned());
    }
    None
}

/// Where the server id of a deleted container comes from.
pub enum ServerIdSource {
    /// The request gave it.
    Given(String),
    /// It is read from the labels of the named container.
    FromContainer(String),
}

/// `delete_container`, its first decision: the server whose record entry
/// goes is the one the request names, else the one the container's labels
/// name.
pub fn delete_server_id_source(request: &ContainerActionRequest) -> (r: Result<
    ServerIdSource,
    AppError,
>)
    ensures
        match request.server_id {
            Some(s) => r matches Ok(ServerIdSource::Given(t)) && t@ == s@,
            None => match request.container_id {
                Some(c) => r matches Ok(ServerIdSource::FromContainer(t)) && t@ == c@,
                None => r matches Err(e) && e.is(
                    BAD_REQUEST,
                    "server_id or container_id is required"@,
                ),
            },
        },
{
    match &request.server_id {
        Some(s) => Ok(ServerIdSource::Given(s.clone())),
        None => match &request.container_id {
            Some(c) => Ok(ServerIdSource::FromContainer(c.clone())),
            None => Err(AppError::new(BAD_REQUEST, "server_id or container_id is required")),
        },
    }
}

/// The path of a directory listing: the requested path normalised (none
/// asks for the volume's root).
pub fn listing_path(path: &Option<String>) -> (r: Result<String, AppError>)
    ensures
        match normalized(
            match path {
                Some(p) => p@,
                None => Seq::empty(),
            },
        ) {
            Ok(p) => r matches Ok(s) && s@ == p,
            Err(rej) => r matches Err(e) && e.is(rejection_error(rej).0 as u16, rejection_error(rej).1),
        },
{
    match path {
        Some(p) => normalize_relative_path(p.as_str()),
        None => {
            proof {
                reveal_strlit("");
                assert(""@ =~= Seq::<char>::empty());
            }
            normalize_relative_path("")
        },
    }
}

/// What a file or directory request must name: the requested path
/// normalised, refused with `message` when it names the volume's root.
pub open spec fn target_path_answer(path: Seq<char>, message: Seq<char>, r: Result<String, AppError>) -> bool {
    match normalized(path) {
        Ok(p) => if p.len() == 0 {
            r matches Err(e) && e.is(BAD_REQUEST, message)
        } else {
            r matches Ok(s) && s@ == p
        },
        Err(rej) => r matches Err(e) && e.is(rejection_error(rej).0 as u16, rejection_error(rej).1),
    }
}

fn target_path(path: &str, message: &str) -> (r: Result<String, AppError>)
    ensures
        target_path_answer(path@, message@, r),
{
    let p = normalize_relative_path(path)?;
    if p.as_str().is_empty() {
        return Err(AppError::new(BAD_REQUEST, message));
    }
    Ok(p)
}

/// The file that a read or a write names: refused with "path must point to
/// a file" when the path names the volume's root.
pub fn file_target_path(path: &str) -> (r: Result<String, AppError>)
    ensures
        target_path_answer(path@, "path must point to a file"@, r),
{
    target_path(path, "path must point to a file")
}

/// The directory that `create_directory` names: refused with "path must
/// point to a directory" when the path names the volume's root.
pub fn directory_target_path(path: &str) -> (r: Result<String, AppError>)
    ensures
        target_path_answer(path@, "path must point to a directory"@, r),
{
    target_path(path, "path must point to a directory")
}

/// `list_files`, its check of what the path names: only a directory is
/// listed.
pub fn directory_check(is_dir: bool) -> (r: Result<(), AppError>)
    ensures
        is_dir ==> r is Ok,
        !is_dir ==> (r matches Err(e) && e.is(BAD_REQUEST, "requested path is not a directory"@)),
{
    if is_dir {
        Ok(())
    } else {
        Err(AppError::new(BAD_REQUEST, "requested path is not a directory"))
    }
}

/// `read_file`, its check of what the path names: only a regular file is
/// read.
pub fn regular_file_check(is_file: bool) -> (r: Result<(), AppError>)
    ensures
        is_file ==> r is Ok,
        !is_file ==> (r matches Err(e) && e.is(BAD_REQUEST, "requested path is not a file"@)),
{
    if is_file {
        Ok(())
    } else {
        Err(AppError::new(BAD_REQUEST, "requested path is not a file"))
    }
}

/// `read_file`, its answer: the file's bytes as text for the server and
/// path, refused unless they are UTF-8.
pub fn file_content_response(server_id: String, path: String, bytes: Vec<u8>) -> (r: Result<
    FileContentResponse,
    AppError,
>)
    ensures
        match r {
            Ok(f) => valid_utf8(bytes@) && f.server_id@ == server_id@ && f.path@ == path@
                && f.content@ == decode_utf8(bytes@),
            Err(e) => !valid_utf8(bytes@) && e.is(
                BAD_REQUEST,
                "only UTF-8 text files can be viewed in the file explorer"@,
            ),
        },
{
    let content = file_text(bytes)?;
    Ok(FileContentResponse { server_id, path, content })
}

/// The path of a listed entry: its name under the listed directory.
pub open spec fn entry_path_spec(requested: Seq<char>, name: Seq<char>) -> Seq<char> {
    if requested.len() == 0 {
        name
    } else {
        requested + "/"@ + name
    }
}

/// A listed entry, with its path relative to the volume; only files have
/// a size.
pub fn file_entry(requested: &str, name: String, is_directory: bool, is_file: bool, len: u64) -> (e:
    FileEntry)
    ensures
        e.name@ == name@,
        e.path@ == entry_path_spec(requested@, name@),
        e.is_directory == is_directory,
        e.size_bytes == (if is_file {
            len
        } else {
            0
        }),
{
    let path = if requested.is_empty() {
        name.clone()
    } else {
        let mut p = requested.to_owned();
        push_str(&mut p, "/");
        push_str(&mut p, name.as_str());
        p
    };
    FileEntry { name, path, is_directory, size_bytes: if is_file { len } else { 0 } }
}

/// `String::from_utf8`.  The contract claims what std documents: it
/// succeeds exactly on valid UTF-8, with the text it encodes.
#[verifier::external_body]
fn utf8_text(bytes: Vec<u8>) -> (r: Option<String>)
    ensures
        r is Some <==> valid_utf8(bytes@),
        r matches Some(s) ==> s@ == decode_utf8(bytes@),
{
    String::from_utf8(bytes).ok()
}

/// `read_file`, its last decision: the file's bytes as text, refused unless
/// they are UTF-8.
pub fn file_text(bytes: Vec<u8>) -> (r: Result<String, AppError>)
    ensures
        match r {
            Ok(s) => valid_utf8(bytes@) && s@ == decode_utf8(bytes@),
            Err(e) => !valid_utf8(bytes@) && e.is(
                BAD_REQUEST,
                "only UTF-8 text files can be viewed in the file explorer"@,
            ),
        },
{
    let ghost b = bytes@;
    match utf8_text(bytes) {
        Some(s) => Ok(s),
        None => Err(
            AppError::new(BAD_REQUEST, "only UTF-8 text files can be viewed in the file explorer"),
        ),
    }
}

/// What `STANDARD.decode` of the `base64` crate gives for a text: the bytes
/// it encodes, or none when it is not valid padded standard base64.
pub uninterp spec fn base64_decoding(s: Seq<char>) -> Option<Seq<u8>>;

/// Calls `base64::engine::general_purpose::STANDARD.decode`.  The contract
/// claims that the outcome is `base64_decoding` of the text.
#[verifier::external_body]
fn decode_base64(s: &str) -> (r: Option<Vec<u8>>)
    ensures
        match r {
            Some(b) => base64_decoding(s@) == Some(b@),
            None => base64_decoding(s@) is None,
        },
{
    base64::engine::general_purpose::STANDARD.decode(s).ok()
}

/// `write_file`, its decision on the content: the decoded base64 content
/// when it is given, else the text as UTF-8.
pub fn file_bytes(request: &WriteFileRequest) -> (r: Result<Vec<u8>, AppError>)
    ensures
        match request.content_base64 {
            Some(b) => match base64_decoding(b@) {
                Some(bytes) => r matches Ok(v) && v@ == bytes,
                None => r matches Err(e) && e.is(BAD_REQUEST, "invalid base64 file content"@),
            },
            None => r matches Ok(v) && v@ == encode_utf8(request.content@),
        },
{
    match &request.content_base64 {
        Some(b) => match decode_base64(b.as_str()) {
            Some(bytes) => Ok(bytes),
            None => Err(AppError::new(BAD_REQUEST, "invalid base64 file content")),
        },
        None => Ok(request.content.as_str().as_bytes_vec()),
    }
}

} // verus!
