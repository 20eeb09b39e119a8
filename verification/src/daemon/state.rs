//! The daemon's record of which container serves which server.
use vstd::prelude::*;

use crate::daemon::error::{AppError, CONFLICT};
use crate::string_map::StringMap;

verus! {

/// The containers the daemon manages, by server id, and the file they are
/// kept in.
pub struct StateStore {
    path: String,
    containers: StringMap,
}

impl View for StateStore {
    type V = Map<Seq<char>, Seq<char>>;

    closed spec fn view(&self) -> Map<Seq<char>, Seq<char>> {
        self.containers@
    }
}

impl StateStore {
    /// The file the record is kept in.
    pub closed spec fn path_spec(&self) -> Seq<char> {
        self.path@
    }

    /// The record read from `path`, holding `containers`.
    pub fn new(path: String, containers: StringMap) -> (s: StateStore)
        ensures
            s@ == containers@,
            s.path_spec() == path@,
    {
        StateStore { path, containers }
    }

    /// An empty record kept in `path`, as when the file does not exist yet.
    pub fn empty(path: String) -> (s: StateStore)
        ensures
            s@ == Map::<Seq<char>, Seq<char>>::empty(),
            s.path_spec() == path@,
    {
        StateStore { path, containers: StringMap::new() }
    }

    /// The file the record is kept in.
    pub fn path(&self) -> (p: &String)
        ensures
            p@ == self.path_spec(),
    {
        &self.path
    }

    /// A copy of the whole record.
    pub fn snapshot(&self) -> (m: StringMap)
        ensures
            m@ == self@,
    {
        self.containers.copy()
    }

    /// The container of `server_id`, if it has one.
    pub fn get(&self, server_id: &str) -> (r: Option<String>)
        ensures
            match r {
                Some(c) => self@.contains_key(server_id@) && self@[server_id@] == c@,
                None => !self@.contains_key(server_id@),
            },
    {
        self.containers.get(server_id)
    }

    /// Refuses a server that already has a managed container.
    pub fn ensure_unmapped(&self, server_id: &str) -> (r: Result<(), AppError>)
        ensures
            r is Ok <==> !self@.contains_key(server_id@),
            r matches Err(e) ==> e.is(CONFLICT, "server already has a managed container"@),
    {
        if self.containers.contains_key(server_id) {
            return Err(AppError::new(CONFLICT, "server already has a managed container"));
        }
        Ok(())
    }

    /// Records `container_id` as the container of `server_id`.
    pub fn insert(&mut self, server_id: String, container_id: String)
        ensures
            final(self)@ == old(self)@.insert(server_id@, container_id@),
            final(self).path_spec() == old(self).path_spec(),
    {
        self.containers.insert(server_id, container_id);
    }

    /// Forgets the container of `server_id`.
    pub fn remove(&mut self, server_id: &str)
        ensures
            final(self)@ == old(self)@.remove(server_id@),
            final(self).path_spec() == old(self).path_spec(),
    {
        self.containers.remove(server_id);
    }
}

/// A server's container, once recorded, is what a lookup of the server
/// gives back, and recording it leaves every other server as it was.
pub proof fn law_lookup_after_insert(
    record: Map<Seq<char>, Seq<char>>,
    server_id: Seq<char>,
    container_id: Seq<char>,
    other: Seq<char>,
)
    requires
        other != server_id,
    ensures
        record.insert(server_id, container_id).contains_key(server_id),
        record.insert(server_id, container_id)[server_id] == container_id,
        record.insert(server_id, container_id).contains_key(other) == record.contains_key(other),
        record.contains_key(other) ==> record.insert(server_id, container_id)[other] == record[other],
{
}

/// Once a server's container is forgotten, a lookup finds none, and
/// creating a container for the server is no longer refused.
pub proof fn law_remove_then_unmapped(record: Map<Seq<char>, Seq<char>>, server_id: Seq<char>)
    ensures
        !record.remove(server_id).contains_key(server_id),
{
}

} // verus!
