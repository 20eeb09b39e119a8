//! The decisions of the server service.  Creating a server and changing
//! its state each take several database writes and calls to the node's
//! daemon; the order of those steps and what happens when one fails is
//! kept here as two state machines: the caller performs each command and
//! hands back what came of it.
use vstd::prelude::*;

use crate::backend::error::ServiceError;
use crate::backend::models::{CreateContainerResponse, CreateServerRequest, ServerStatusResponse};

verus! {

/// A change of a server's container.
#[derive(Clone, Copy, PartialEq, Eq, Structural, Debug)]
pub enum NodeAction {
    Start,
    Stop,
    Restart,
}

/// The status a server is set to while an action is under way.
pub open spec fn desired_status(action: NodeAction) -> Seq<char> {
    match action {
        NodeAction::Start => "starting"@,
        NodeAction::Stop => "stopping"@,
        NodeAction::Restart => "starting"@,
    }
}

fn desired_status_text(action: NodeAction) -> (s: String)
    ensures
        s@ == desired_status(action),
{
    match action {
        NodeAction::Start => "starting".to_owned(),
        NodeAction::Stop => "stopping".to_owned(),
        NodeAction::Restart => "starting".to_owned(),
    }
}

/// While a stop is under way a server is `stopping`; while a start or a
/// restart is, it is `starting`.  So a stop is never recorded or answered
/// as a start.
pub proof fn law_desired_status_names_the_action(action: NodeAction)
    ensures
        action == NodeAction::Stop ==> desired_status(action) == "stopping"@,
        action != NodeAction::Stop ==> desired_status(action) == "starting"@,
        desired_status(NodeAction::Stop) != desired_status(NodeAction::Start),
{
    reveal_strlit("stopping");
    reveal_strlit("starting");
    assert("stopping"@[2] != "starting"@[2]);
}

/// The status a transition stores for its action (as `begin` does for a
/// server with a container, and `step` once a container is provisioned) is
/// `stopping` for a stop and `starting` for a start or restart.
pub proof fn law_transition_stores_the_action_status(action: NodeAction, cmd: TransitionCommand)
    requires
        stores(cmd, desired_status(action)),
    ensures
        action == NodeAction::Stop ==> (cmd matches TransitionCommand::StoreStatus { status }
            && status@ == "stopping"@),
        action != NodeAction::Stop ==> (cmd matches TransitionCommand::StoreStatus { status }
            && status@ == "starting"@),
{
    law_desired_status_names_the_action(action);
}

/// The message of the conflict a server without a container meets.
pub open spec fn no_container_message() -> Seq<char> {
    "server has no assigned container id"@
}

fn no_container() -> (e: ServiceError)
    ensures
        e matches ServiceError::Conflict(m) && m@ == no_container_message(),
{
    ServiceError::Conflict("server has no assigned container id".to_owned())
}

/// `get_server_status`, `get_server_logs`: the server's container, or the
/// conflict of a server that has none.
pub fn require_container_id(container_id: Option<String>) -> (r: Result<String, ServiceError>)
    ensures
        match container_id {
            Some(c) => r matches Ok(s) && s@ == c@,
            None => r matches Err(ServiceError::Conflict(m)) && m@ == no_container_message(),
        },
{
    match container_id {
        Some(c) => Ok(c),
        None => Err(no_container()),
    }
}

/// `get_server_status`, its answer: the stored status is the desired one,
/// the daemon's is the actual one.
pub fn status_response(server_id: String, stored_status: String, node_status: String) -> (r:
    ServerStatusResponse)
    ensures
        r.server_id@ == server_id@,
        r.desired_status@ == stored_status@,
        r.actual_status@ == node_status@,
{
    ServerStatusResponse {
        server_id,
        desired_status: stored_status,
        actual_status: node_status,
    }
}

/// `get_server_logs`: how many stored log lines are answered.
pub const LOG_HISTORY_LIMIT: i64 = 200;

/// A server as the backend stores it.  Its settings, a JSON value, are
/// stored and sent as they came and are not part of this record.
pub struct ServerRow {
    pub server_id: String,
    pub user_id: String,
    pub node_id: i32,
    pub name: String,
    pub game_kind: String,
    pub status: String,
    pub docker_container_id: Option<String>,
    pub allocated_port: i32,
    pub memory_limit_mb: i32,
    pub cpu_limit_percent: i32,
}

/// A server record as text and numbers.
pub struct ServerRowView {
    pub server_id: Seq<char>,
    pub user_id: Seq<char>,
    pub node_id: i32,
    pub name: Seq<char>,
    pub game_kind: Seq<char>,
    pub status: Seq<char>,
    pub docker_container_id: Option<Seq<char>>,
    pub allocated_port: i32,
    pub memory_limit_mb: i32,
    pub cpu_limit_percent: i32,
}

impl View for ServerRow {
    type V = ServerRowView;

    open spec fn view(&self) -> ServerRowView {
        ServerRowView {
            server_id: self.server_id@,
            user_id: self.user_id@,
            node_id: self.node_id,
            name: self.name@,
            game_kind: self.game_kind@,
            status: self.status@,
            docker_container_id: match self.docker_container_id {
                Some(c) => Some(c@),
                None => None,
            },
            allocated_port: self.allocated_port,
            memory_limit_mb: self.memory_limit_mb,
            cpu_limit_percent: self.cpu_limit_percent,
        }
    }
}

fn copy_string(s: &String) -> (r: String)
    ensures
        r@ == s@,
{
    s.as_str().to_owned()
}

fn copy_row(row: &ServerRow) -> (r: ServerRow)
    ensures
        r@ == row@,
{
    ServerRow {
        server_id: copy_string(&row.server_id),
        user_id: copy_string(&row.user_id),
        node_id: row.node_id,
        name: copy_string(&row.name),
        game_kind: copy_string(&row.game_kind),
        status: copy_string(&row.status),
        docker_container_id: match &row.docker_container_id {
            Some(c) => Some(copy_string(c)),
            None => None,
        },
        allocated_port: row.allocated_port,
        memory_limit_mb: row.memory_limit_mb,
        cpu_limit_percent: row.cpu_limit_percent,
    }
}

/// What a node's daemon is asked to create a container from; the settings
/// sent beside it are the server's stored ones.
pub struct ContainerOrder {
    pub server_id: String,
    pub name: String,
    pub game_kind: String,
    pub allocated_port: i32,
    pub memory_limit_mb: i32,
    pub cpu_limit_percent: i32,
}

/// The order asks for a container for the stored server `row`.
pub open spec fn orders(o: ContainerOrder, row: ServerRowView) -> bool {
    &&& o.server_id@ == row.server_id
    &&& o.name@ == row.name
    &&& o.game_kind@ == row.game_kind
    &&& o.allocated_port == row.allocated_port
    &&& o.memory_limit_mb == row.memory_limit_mb
    &&& o.cpu_limit_percent == row.cpu_limit_percent
}

fn container_order(row: &ServerRow) -> (o: ContainerOrder)
    ensures
        orders(o, row@),
{
    ContainerOrder {
        server_id: copy_string(&row.server_id),
        name: copy_string(&row.name),
        game_kind: copy_string(&row.game_kind),
        allocated_port: row.allocated_port,
        memory_limit_mb: row.memory_limit_mb,
        cpu_limit_percent: row.cpu_limit_percent,
    }
}

/// Where the deletion of a server stands.
pub enum DeletionPhase {
    /// Waiting for the daemon to delete the server's container.
    AwaitContainerDeleted,
    /// Waiting for the server's row to be deleted.
    AwaitRowDeleted,
    /// Finished.
    Done,
}

/// What the caller does next while deleting a server.
pub enum DeletionCommand {
    /// Ask the daemon to delete the container.
    DeleteContainer { container_id: String },
    /// Delete the server's row.
    DeleteRow { server_id: String },
    /// Answer the request.
    Finish { result: Result<(), ServiceError> },
}

/// What came of the last command.
pub enum DeletionEvent {
    ContainerDeleted(Result<(), ServiceError>),
    RowDeleted(Result<(), ServiceError>),
}

/// `delete_server` under way.
pub struct ServerDeletion {
    pub server_id: String,
    pub phase: DeletionPhase,
}

impl ServerDeletion {
    /// A server with a container has the container deleted first; one
    /// without has its row deleted at once.
    pub fn begin(server_id: String, container_id: Option<String>) -> (r: (ServerDeletion, DeletionCommand))
        ensures
            r.0.server_id@ == server_id@,
            match container_id {
                Some(c) => r.0.phase is AwaitContainerDeleted && (r.1 matches DeletionCommand::DeleteContainer {
                    container_id: d,
                } && d@ == c@),
                None => r.0.phase is AwaitRowDeleted && (r.1 matches DeletionCommand::DeleteRow {
                    server_id: d,
                } && d@ == server_id@),
            },
    {
        let sid = copy_string(&server_id);
        match container_id {
            Some(c) => (
                ServerDeletion { server_id, phase: DeletionPhase::AwaitContainerDeleted },
                DeletionCommand::DeleteContainer { container_id: c },
            ),
            None => (
                ServerDeletion { server_id, phase: DeletionPhase::AwaitRowDeleted },
                DeletionCommand::DeleteRow { server_id: sid },
            ),
        }
    }

    /// When the daemon fails to delete the container, the row is kept and
    /// the daemon's error answered; otherwise the row is deleted and the
    /// outcome of that answered.
    pub fn step(&mut self, event: DeletionEvent) -> (cmd: DeletionCommand)
        ensures
            final(self).server_id@ == old(self).server_id@,
            match (old(self).phase, event) {
                (DeletionPhase::AwaitContainerDeleted, DeletionEvent::ContainerDeleted(Ok(()))) => final(self).phase is AwaitRowDeleted && (cmd matches DeletionCommand::DeleteRow {
                    server_id: d,
                } && d@ == old(self).server_id@),
                (DeletionPhase::AwaitContainerDeleted, DeletionEvent::ContainerDeleted(Err(e))) => final(self).phase is Done && (cmd matches DeletionCommand::Finish {
                    result: Err(f),
                } && f == e),
                (DeletionPhase::AwaitRowDeleted, DeletionEvent::RowDeleted(r)) => final(self).phase is Done && (cmd matches DeletionCommand::Finish {
                    result: q,
                } && q == r),
                _ => final(self).phase is Done && (cmd matches DeletionCommand::Finish {
                    result: Err(ServiceError::Internal(_)),
                }),
            },
    {
        let mut phase = DeletionPhase::Done;
        std::mem::swap(&mut phase, &mut self.phase);
        match (phase, event) {
            (DeletionPhase::AwaitContainerDeleted, DeletionEvent::ContainerDeleted(Ok(()))) => {
                self.phase = DeletionPhase::AwaitRowDeleted;
                DeletionCommand::DeleteRow { server_id: copy_string(&self.server_id) }
            },
            (DeletionPhase::AwaitContainerDeleted, DeletionEvent::ContainerDeleted(Err(e))) => {
                DeletionCommand::Finish { result: Err(e) }
            },
            (DeletionPhase::AwaitRowDeleted, DeletionEvent::RowDeleted(r)) => {
                DeletionCommand::Finish { result: r }
            },
            _ => DeletionCommand::Finish {
                result: Err(ServiceError::Internal("unexpected step of a server deletion".to_owned())),
            },
        }
    }
}

/// Where a change of a server's state stands.
pub enum TransitionPhase {
    /// Waiting for a container to be created for the server.
    AwaitProvision,
    /// Waiting for the new container and its status to be stored.
    AwaitProvisionStored { container_id: String },
    /// Waiting for the desired status to be stored.
    AwaitDesiredStored { container_id: String },
    /// Waiting for the daemon to carry out the action.
    AwaitNode,
    /// Waiting for the `error` status to be stored after the daemon failed.
    AwaitErrorStored { error: ServiceError },
    /// Waiting for the daemon's status to be stored.
    AwaitActualStored { status: String },
    /// Finished.
    Done,
}

/// What the caller does next.
pub enum TransitionCommand {
    /// Ask the daemon to create a container for the server
    /// (`provision_container`).
    ProvisionContainer { order: ContainerOrder },
    /// Store the server's new container and the status the daemon gave.
    StoreContainer { container_id: String, status: String },
    /// Store this status for the server.
    StoreStatus { status: String },
    /// Ask the daemon to carry out the action on the container.
    CallNode { action: NodeAction, container_id: String },
    /// Answer the request.
    Finish { result: Result<ServerStatusResponse, ServiceError> },
}

/// What came of the last command.
pub enum TransitionEvent {
    Provisioned(Result<CreateContainerResponse, ServiceError>),
    StatusStored(Result<(), ServiceError>),
    NodeReplied(Result<String, ServiceError>),
}

/// `transition_server`: a start, stop or restart of a server under way.
pub struct ServerTransition {
    pub server_id: String,
    pub action: NodeAction,
    pub phase: TransitionPhase,
}

/// The command stores `status`.
pub open spec fn stores(cmd: TransitionCommand, status: Seq<char>) -> bool {
    cmd matches TransitionCommand::StoreStatus { status: s } && s@ == status
}

/// The command finishes with the error `e`.
pub open spec fn fails_with(cmd: TransitionCommand, e: ServiceError) -> bool {
    cmd matches TransitionCommand::Finish { result: Err(f) } && f == e
}

fn unexpected() -> (e: ServiceError)
    ensures
        e is Internal,
{
    ServiceError::Internal("unexpected step of a server transition".to_owned())
}

impl ServerTransition {
    /// Starts the action on the server: a server with a container has the
    /// desired status stored first; one without a container gets one
    /// created first, except on a stop, which is refused as a conflict.
    pub fn begin(server: &ServerRow, action: NodeAction) -> (r: (ServerTransition, TransitionCommand))
        ensures
            r.0.server_id@ == server.server_id@,
            r.0.action == action,
            match server.docker_container_id {
                Some(c) => r.0.phase matches TransitionPhase::AwaitDesiredStored { container_id: d }
                    && d@ == c@ && stores(r.1, desired_status(action)),
                None => if action == NodeAction::Stop {
                    r.0.phase is Done && (r.1 matches TransitionCommand::Finish {
                        result: Err(ServiceError::Conflict(m)),
                    } && m@ == no_container_message())} else {
                    r.0.phase is AwaitProvision && (r.1 matches TransitionCommand::ProvisionContainer {
                        order,
                    } && orders(order, server@))
                },
            },
    {
        let server_id = copy_string(&server.server_id);
        match &server.docker_container_id {
            Some(c) => (
                ServerTransition {
                    server_id,
                    action,
                    phase: TransitionPhase::AwaitDesiredStored { container_id: copy_string(c) },
                },
                TransitionCommand::StoreStatus { status: desired_status_text(action) },
            ),
            None => if action == NodeAction::Stop {
                (
                    ServerTransition { server_id, action, phase: TransitionPhase::Done },
                    TransitionCommand::Finish { result: Err(no_container()) },
                )
            } else {
                (
                    ServerTransition { server_id, action, phase: TransitionPhase::AwaitProvision },
                    TransitionCommand::ProvisionContainer { order: container_order(server) },
                )
            },
        }
    }

    /// Takes what came of the last command and gives the next one.  A
    /// failed write or provisioning ends with that error; a failed daemon
    /// call stores the status `error` and then ends with the daemon's error;
    /// a successful call stores the daemon's status and answers it as the
    /// actual status beside the desired one.
    pub fn step(&mut self, event: TransitionEvent) -> (cmd: TransitionCommand)
        ensures
            final(self).server_id@ == old(self).server_id@,
            final(self).action == old(self).action,
            match (old(self).phase, event) {
                (TransitionPhase::AwaitProvision, TransitionEvent::Provisioned(Ok(c))) => final(self).phase matches TransitionPhase::AwaitProvisionStored { container_id: d } && d@
                    == c.container_id@ && (cmd matches TransitionCommand::StoreContainer {
                    container_id: e,
                    status: st,
                } && e@ == c.container_id@ && st@ == c.status@),
                (TransitionPhase::AwaitProvision, TransitionEvent::Provisioned(Err(e))) => final(self).phase is Done && fails_with(cmd, e),
                (
                    TransitionPhase::AwaitProvisionStored { container_id: c },
                    TransitionEvent::StatusStored(Ok(())),
                ) => final(self).phase matches TransitionPhase::AwaitDesiredStored { container_id: d } && d@
                    == c@ && stores(cmd, desired_status(old(self).action)),
                (
                    TransitionPhase::AwaitProvisionStored { .. },
                    TransitionEvent::StatusStored(Err(e)),
                ) => final(self).phase is Done && fails_with(cmd, e),
                (
                    TransitionPhase::AwaitDesiredStored { container_id: c },
                    TransitionEvent::StatusStored(Ok(())),
                ) => final(self).phase is AwaitNode && (cmd matches TransitionCommand::CallNode {
                    action: a,
                    container_id: d,
                } && a == old(self).action && d@ == c@),
                (
                    TransitionPhase::AwaitDesiredStored { .. },
                    TransitionEvent::StatusStored(Err(e)),
                ) => final(self).phase is Done && fails_with(cmd, e),
                (TransitionPhase::AwaitNode, TransitionEvent::NodeReplied(Ok(s))) => final(self).phase matches TransitionPhase::AwaitActualStored { status: t } && t@ == s@
                    && stores(cmd, s@),
                (TransitionPhase::AwaitNode, TransitionEvent::NodeReplied(Err(e))) => final(self).phase matches TransitionPhase::AwaitErrorStored { error: f } && f == e && stores(
                    cmd,
                    "error"@,
                ),
                (
                    TransitionPhase::AwaitErrorStored { error: e },
                    TransitionEvent::StatusStored(Ok(())),
                ) => final(self).phase is Done && fails_with(cmd, e),
                (
                    TransitionPhase::AwaitErrorStored { .. },
                    TransitionEvent::StatusStored(Err(d)),
                ) => final(self).phase is Done && fails_with(cmd, d),
                (
                    TransitionPhase::AwaitActualStored { status: s },
                    TransitionEvent::StatusStored(Ok(())),
                ) => final(self).phase is Done && (cmd matches TransitionCommand::Finish {
                    result: Ok(resp),
                } && resp.server_id@ == old(self).server_id@ && resp.desired_status@
                    == desired_status(old(self).action) && resp.actual_status@ == s@),
                (
                    TransitionPhase::AwaitActualStored { .. },
                    TransitionEvent::StatusStored(Err(d)),
                ) => final(self).phase is Done && fails_with(cmd, d),
                _ => final(self).phase is Done && (cmd matches TransitionCommand::Finish {
                    result: Err(ServiceError::Internal(_)),
                }),
            },
    {
        let mut phase = TransitionPhase::Done;
        std::mem::swap(&mut phase, &mut self.phase);
        match (phase, event) {
            (TransitionPhase::AwaitProvision, TransitionEvent::Provisioned(Ok(c))) => {
                self.phase = TransitionPhase::AwaitProvisionStored {
                    container_id: copy_string(&c.container_id),
                };
                TransitionCommand::StoreContainer { container_id: c.container_id, status: c.status }
            },
            (
                TransitionPhase::AwaitProvisionStored { container_id },
                TransitionEvent::StatusStored(Ok(())),
            ) => {
                self.phase = TransitionPhase::AwaitDesiredStored { container_id };
                TransitionCommand::StoreStatus { status: desired_status_text(self.action) }
            },
            (TransitionPhase::AwaitProvisionStored { .. }, TransitionEvent::StatusStored(Err(e))) => {
                TransitionCommand::Finish { result: Err(e) }
            },
            (TransitionPhase::AwaitProvision, TransitionEvent::Provisioned(Err(e))) => {
                TransitionCommand::Finish { result: Err(e) }
            },
            (
                TransitionPhase::AwaitDesiredStored { container_id },
                TransitionEvent::StatusStored(Ok(())),
            ) => {
                self.phase = TransitionPhase::AwaitNode;
                TransitionCommand::CallNode { action: self.action, container_id }
            },
            (TransitionPhase::AwaitDesiredStored { .. }, TransitionEvent::StatusStored(Err(e))) => {
                TransitionCommand::Finish { result: Err(e) }
            },
            (TransitionPhase::AwaitNode, TransitionEvent::NodeReplied(Ok(s))) => {
                let stored = s.clone();
                self.phase = TransitionPhase::AwaitActualStored { status: s };
                TransitionCommand::StoreStatus { status: stored }
            },
            (TransitionPhase::AwaitNode, TransitionEvent::NodeReplied(Err(e))) => {
                self.phase = TransitionPhase::AwaitErrorStored { error: e };
                TransitionCommand::StoreStatus { status: "error".to_owned() }
            },
            (TransitionPhase::AwaitErrorStored { error }, TransitionEvent::StatusStored(Ok(()))) => {
                TransitionCommand::Finish { result: Err(error) }
            },
            (TransitionPhase::AwaitErrorStored { .. }, TransitionEvent::StatusStored(Err(d))) => {
                TransitionCommand::Finish { result: Err(d) }
            },
            (TransitionPhase::AwaitActualStored { status }, TransitionEvent::StatusStored(Ok(()))) => {
                TransitionCommand::Finish {
                    result: Ok(
                        ServerStatusResponse {
                            server_id: self.server_id.clone(),
                            desired_status: desired_status_text(self.action),
                            actual_status: status,
                        },
                    ),
                }
            },
            (TransitionPhase::AwaitActualStored { .. }, TransitionEvent::StatusStored(Err(d))) => {
                TransitionCommand::Finish { result: Err(d) }
            },
            _ => TransitionCommand::Finish { result: Err(unexpected()) },
        }
    }
}

/// Where the creation of a server stands.
pub enum CreationPhase {
    AwaitNode,
    AwaitPortCheck,
    AwaitInsert,
    AwaitContainer,
    AwaitFailureStored { error: ServiceError },
    AwaitContainerStored { container_id: String, status: String },
    Done,
}

/// What the caller does next while creating a server.
pub enum CreationCommand {
    /// Load the node the server is to run on.
    LoadNode { node_id: i32 },
    /// Look for a server that already uses the port.
    CheckPort { port: i32 },
    /// Store the new server, with the request's settings.
    InsertServer { row: ServerRow },
    /// Ask the node's daemon to create the server's container, with the
    /// stored settings.
    CreateContainer { order: ContainerOrder },
    /// Store the status `error` for the server.
    StoreFailure { server_id: String },
    /// Store the container and the status the daemon gave.
    StoreContainer { server_id: String, container_id: String, status: String },
    /// Answer the request: the server as stored, or the error.
    Finish { result: Result<ServerRow, ServiceError> },
}

/// What came of the last command.
pub enum CreationEvent {
    NodeLoaded(Result<(), ServiceError>),
    PortChecked(Result<bool, ServiceError>),
    Inserted(Result<(), ServiceError>),
    ContainerCreated(Result<CreateContainerResponse, ServiceError>),
    Stored(Result<(), ServiceError>),
}

/// `create_server` under way, for the server `row` that it stores.
pub struct ServerCreation {
    pub row: ServerRow,
    pub phase: CreationPhase,
}

/// The command finishes with the error `e`.
pub open spec fn creation_fails_with(cmd: CreationCommand, e: ServiceError) -> bool {
    cmd matches CreationCommand::Finish { result: Err(f) } && f == e
}

/// The server a valid request creates: its id, the user's, the request's
/// node, name, kind, port and limits, the status `stopped` and no
/// container.
pub open spec fn new_server(
    request: CreateServerRequest,
    server_id: Seq<char>,
    user_id: Seq<char>,
) -> ServerRowView {
    ServerRowView {
        server_id,
        user_id,
        node_id: request.node_id,
        name: request.name@,
        game_kind: request.game_kind@,
        status: "stopped"@,
        docker_container_id: None,
        allocated_port: request.allocated_port,
        memory_limit_mb: request.memory_limit_mb,
        cpu_limit_percent: request.cpu_limit_percent,
    }
}

/// The stored server once the daemon created its container.
pub open spec fn with_container(row: ServerRowView, container_id: Seq<char>, status: Seq<char>) -> ServerRowView {
    ServerRowView { status, docker_container_id: Some(container_id), ..row }
}

impl ServerCreation {
    /// Checks the request; a valid one starts by loading its node.
    pub fn begin(request: &CreateServerRequest, server_id: String, user_id: String) -> (r: (
        ServerCreation,
        CreationCommand,
    ))
        ensures
            r.0.row@ == new_server(*request, server_id@, user_id@),
            match crate::backend::models::create_server_violation(*request) {
                None => r.0.phase is AwaitNode && (r.1 matches CreationCommand::LoadNode {
                    node_id,
                } && node_id == request.node_id),
                Some(m) => r.0.phase is Done && (r.1 matches CreationCommand::Finish {
                    result: Err(ServiceError::Validation(s)),
                } && s@ == m),
            },
    {
        let row = ServerRow {
            server_id,
            user_id,
            node_id: request.node_id,
            name: copy_string(&request.name),
            game_kind: copy_string(&request.game_kind),
            status: "stopped".to_owned(),
            docker_container_id: None,
            allocated_port: request.allocated_port,
            memory_limit_mb: request.memory_limit_mb,
            cpu_limit_percent: request.cpu_limit_percent,
        };
        match request.validate() {
            Ok(()) => (
                ServerCreation { row, phase: CreationPhase::AwaitNode },
                CreationCommand::LoadNode { node_id: request.node_id },
            ),
            Err(e) => (
                ServerCreation { row, phase: CreationPhase::Done },
                CreationCommand::Finish { result: Err(e) },
            ),
        }
    }

    /// Takes what came of the last command and gives the next one: the node
    /// must exist, the request's port must be free, then the server is
    /// stored and its container created; when the daemon fails the server
    /// is stored with the status `error` and the daemon's error is
    /// answered; otherwise the container and the daemon's status are stored
    /// and the server answered.
    pub fn step(&mut self, event: CreationEvent) -> (cmd: CreationCommand)
        ensures
            final(self).row@ == old(self).row@,
            match (old(self).phase, event) {
                (CreationPhase::AwaitNode, CreationEvent::NodeLoaded(Ok(()))) => final(self).phase is AwaitPortCheck && (cmd matches CreationCommand::CheckPort { port: p }
                    && p == old(self).row.allocated_port),
                (CreationPhase::AwaitNode, CreationEvent::NodeLoaded(Err(e))) => final(self).phase is Done && creation_fails_with(cmd, e),
                (CreationPhase::AwaitPortCheck, CreationEvent::PortChecked(Ok(taken))) => if taken {
                    final(self).phase is Done && (cmd matches CreationCommand::Finish {
                        result: Err(ServiceError::Conflict(m)),
                    } && m@ == "allocated port is already in use"@)} else {
                    final(self).phase is AwaitInsert && (cmd matches CreationCommand::InsertServer {
                        row,
                    } && row@ == old(self).row@)
                },
                (CreationPhase::AwaitPortCheck, CreationEvent::PortChecked(Err(e))) => final(self).phase is Done && creation_fails_with(cmd, e),
                (CreationPhase::AwaitInsert, CreationEvent::Inserted(Ok(()))) => final(self).phase is AwaitContainer && (cmd matches CreationCommand::CreateContainer {
                    order,
                } && orders(order, old(self).row@)),
                (CreationPhase::AwaitInsert, CreationEvent::Inserted(Err(e))) => final(self).phase is Done && creation_fails_with(cmd, e),
                (CreationPhase::AwaitContainer, CreationEvent::ContainerCreated(Ok(c))) => (final(self).phase matches CreationPhase::AwaitContainerStored {
                    container_id: d,
                    status: t,
                } && d@ == c.container_id@ && t@ == c.status@) && (cmd matches CreationCommand::StoreContainer {
                    server_id,
                    container_id,
                    status,
                } && server_id@ == old(self).row.server_id@ && container_id@ == c.container_id@
                    && status@ == c.status@),
                (CreationPhase::AwaitContainer, CreationEvent::ContainerCreated(Err(e))) => (final(self).phase matches CreationPhase::AwaitFailureStored { error: f } && f == e)
                    && (cmd matches CreationCommand::StoreFailure { server_id } && server_id@
                    == old(self).row.server_id@),
                (CreationPhase::AwaitFailureStored { error: e }, CreationEvent::Stored(Ok(()))) => final(self).phase is Done && creation_fails_with(cmd, e),
                (CreationPhase::AwaitFailureStored { .. }, CreationEvent::Stored(Err(d))) => final(self).phase is Done && creation_fails_with(cmd, d),
                (
                    CreationPhase::AwaitContainerStored { container_id: c, status: t },
                    CreationEvent::Stored(Ok(())),
                ) => final(self).phase is Done && (cmd matches CreationCommand::Finish {
                    result: Ok(row),
                } && row@ == with_container(old(self).row@, c@, t@)),
                (CreationPhase::AwaitContainerStored { .. }, CreationEvent::Stored(Err(d))) => final(self).phase is Done && creation_fails_with(cmd, d),
                _ => final(self).phase is Done && (cmd matches CreationCommand::Finish {
                    result: Err(ServiceError::Internal(_)),
                }),
            },
    {
        let mut phase = CreationPhase::Done;
        std::mem::swap(&mut phase, &mut self.phase);
        match (phase, event) {
            (CreationPhase::AwaitNode, CreationEvent::NodeLoaded(Ok(()))) => {
                self.phase = CreationPhase::AwaitPortCheck;
                CreationCommand::CheckPort { port: self.row.allocated_port }
            },
            (CreationPhase::AwaitNode, CreationEvent::NodeLoaded(Err(e))) => {
                CreationCommand::Finish { result: Err(e) }
            },
            (CreationPhase::AwaitPortCheck, CreationEvent::PortChecked(Ok(taken))) => {
                if taken {
                    CreationCommand::Finish {
                        result: Err(
                            ServiceError::Conflict("allocated port is already in use".to_owned()),
                        ),
                    }
                } else {
                    self.phase = CreationPhase::AwaitInsert;
                    CreationCommand::InsertServer { row: copy_row(&self.row) }
                }
            },
            (CreationPhase::AwaitPortCheck, CreationEvent::PortChecked(Err(e))) => {
                CreationCommand::Finish { result: Err(e) }
            },
            (CreationPhase::AwaitInsert, CreationEvent::Inserted(Ok(()))) => {
                self.phase = CreationPhase::AwaitContainer;
                CreationCommand::CreateContainer { order: container_order(&self.row) }
            },
            (CreationPhase::AwaitInsert, CreationEvent::Inserted(Err(e))) => {
                CreationCommand::Finish { result: Err(e) }
            },
            (CreationPhase::AwaitContainer, CreationEvent::ContainerCreated(Ok(c))) => {
                self.phase = CreationPhase::AwaitContainerStored {
                    container_id: copy_string(&c.container_id),
                    status: copy_string(&c.status),
                };
                CreationCommand::StoreContainer {
                    server_id: copy_string(&self.row.server_id),
                    container_id: c.container_id,
                    status: c.status,
                }
            },
            (CreationPhase::AwaitContainer, CreationEvent::ContainerCreated(Err(e))) => {
                self.phase = CreationPhase::AwaitFailureStored { error: e };
                CreationCommand::StoreFailure { server_id: copy_string(&self.row.server_id) }
            },
            (CreationPhase::AwaitFailureStored { error }, CreationEvent::Stored(Ok(()))) => {
                CreationCommand::Finish { result: Err(error) }
            },
            (CreationPhase::AwaitFailureStored { .. }, CreationEvent::Stored(Err(d))) => {
                CreationCommand::Finish { result: Err(d) }
            },
            (
                CreationPhase::AwaitContainerStored { container_id, status },
                CreationEvent::Stored(Ok(())),
            ) => {
                let mut row = copy_row(&self.row);
                row.status = status;
                row.docker_container_id = Some(container_id);
                CreationCommand::Finish { result: Ok(row) }
            },
            (CreationPhase::AwaitContainerStored { .. }, CreationEvent::Stored(Err(d))) => {
                CreationCommand::Finish { result: Err(d) }
            },
            _ => CreationCommand::Finish {
                result: Err(ServiceError::Internal("unexpected step of a server creation".to_owned())),
            },
        }
    }
}

} // verus!
