//! The calls the backend makes to a node's daemon: method, URL and query.
use vstd::prelude::*;

use crate::text::push_str;

verus! {

/// The HTTP methods the backend uses.
#[derive(Clone, Copy, PartialEq, Eq, Structural, Debug)]
pub enum HttpMethod {
    Get,
    Post,
    Put,
}

/// A call to a node's daemon.
pub enum NodeCall {
    CreateContainer,
    StartContainer,
    StopContainer,
    RestartContainer,
    DeleteContainer,
    ContainerStatus { container_id: String },
    ContainerLogs { container_id: String },
    ListFiles { container_id: String, path: Option<String> },
    ReadFile { container_id: String, file_path: String },
    WriteFile { container_id: String },
    CreateDirectory { container_id: String },
}

/// Where a call goes: its method, its URL and its `path` query parameter.
pub struct NodeRequestPlan {
    pub method: HttpMethod,
    pub url: String,
    pub query_path: Option<String>,
}

/// The method, the URL below the node's address, and the `path` query of
/// each call.
pub open spec fn call_target(call: NodeCall) -> (HttpMethod, Seq<char>, Option<Seq<char>>) {
    match call {
        NodeCall::CreateContainer => (HttpMethod::Post, "/containers/create"@, None),
        NodeCall::StartContainer => (HttpMethod::Post, "/containers/start"@, None),
        NodeCall::StopContainer => (HttpMethod::Post, "/containers/stop"@, None),
        NodeCall::RestartContainer => (HttpMethod::Post, "/containers/restart"@, None),
        NodeCall::DeleteContainer => (HttpMethod::Post, "/containers/delete"@, None),
        NodeCall::ContainerStatus { container_id } => (
            HttpMethod::Get,
            "/containers/"@ + container_id@ + "/status"@,
            None,
        ),
        NodeCall::ContainerLogs { container_id } => (
            HttpMethod::Get,
            "/containers/"@ + container_id@ + "/logs"@,
            None,
        ),
        NodeCall::ListFiles { container_id, path } => (
            HttpMethod::Get,
            "/containers/"@ + container_id@ + "/files"@,
            match path {
                Some(p) => Some(p@),
                None => None,
            },
        ),
        NodeCall::ReadFile { container_id, file_path } => (
            HttpMethod::Get,
            "/containers/"@ + container_id@ + "/file"@,
            Some(file_path@),
        ),
        NodeCall::WriteFile { container_id } => (
            HttpMethod::Put,
            "/containers/"@ + container_id@ + "/file"@,
            None,
        ),
        NodeCall::CreateDirectory { container_id } => (
            HttpMethod::Post,
            "/containers/"@ + container_id@ + "/directories"@,
            None,
        ),
    }
}

fn container_url(node_url: &str, container_id: &str, resource: &str) -> (u: String)
    ensures
        u@ == node_url@ + "/containers/"@ + container_id@ + resource@,
{
    let mut u = node_url.to_owned();
    push_str(&mut u, "/containers/");
    push_str(&mut u, container_id);
    push_str(&mut u, resource);
    u
}

fn plain_url(node_url: &str, rest: &str) -> (u: String)
    ensures
        u@ == node_url@ + rest@,
{
    let mut u = node_url.to_owned();
    push_str(&mut u, rest);
    u
}

impl NodeCall {
    /// The method, URL and query of the call to the daemon at `node_url`.
    pub fn plan(&self, node_url: &str) -> (p: NodeRequestPlan)
        ensures
            p.method == call_target(*self).0,
            p.url@ == node_url@ + call_target(*self).1,
            match call_target(*self).2 {
                Some(q) => p.query_path matches Some(s) && s@ == q,
                None => p.query_path is None,
            },
    {
        match self {
            NodeCall::CreateContainer => NodeRequestPlan {
                method: HttpMethod::Post,
                url: plain_url(node_url, "/containers/create"),
                query_path: None,
            },
            NodeCall::StartContainer => NodeRequestPlan {
                method: HttpMethod::Post,
                url: plain_url(node_url, "/containers/start"),
                query_path: None,
            },
            NodeCall::StopContainer => NodeRequestPlan {
                method: HttpMethod::Post,
                url: plain_url(node_url, "/containers/stop"),
                query_path: None,
            },
            NodeCall::RestartContainer => NodeRequestPlan {
                method: HttpMethod::Post,
                url: plain_url(node_url, "/containers/restart"),
                query_path: None,
            },
            NodeCall::DeleteContainer => NodeRequestPlan {
                method: HttpMethod::Post,
                url: plain_url(node_url, "/containers/delete"),
                query_path: None,
            },
            NodeCall::ContainerStatus { container_id } => NodeRequestPlan {
                method: HttpMethod::Get,
                url: container_url(node_url, container_id.as_str(), "/status"),
                query_path: None,
            },
            NodeCall::ContainerLogs { container_id } => NodeRequestPlan {
                method: HttpMethod::Get,
                url: container_url(node_url, container_id.as_str(), "/logs"),
                query_path: None,
            },
            NodeCall::ListFiles { container_id, path } => NodeRequestPlan {
                method: HttpMethod::Get,
                url: container_url(node_url, container_id.as_str(), "/files"),
                query_path: match path {
                    Some(p) => Some(p.clone()),
                    None => None,
                },
            },
            NodeCall::ReadFile { container_id, file_path } => NodeRequestPlan {
                method: HttpMethod::Get,
                url: container_url(node_url, container_id.as_str(), "/file"),
                query_path: Some(file_path.clone()),
            },
            NodeCall::WriteFile { container_id } => NodeRequestPlan {
                method: HttpMethod::Put,
                url: container_url(node_url, container_id.as_str(), "/file"),
                query_path: None,
            },
            NodeCall::CreateDirectory { container_id } => NodeRequestPlan {
                method: HttpMethod::Post,
                url: container_url(node_url, container_id.as_str(), "/directories"),
                query_path: None,
            },
        }
    }
}

/// The calls that act on a container, which carry no container id in
/// their path.
pub open spec fn is_container_action(call: NodeCall) -> bool {
    ||| call is CreateContainer
    ||| call is StartContainer
    ||| call is StopContainer
    ||| call is RestartContainer
    ||| call is DeleteContainer
}

/// Each container action goes, by POST, to the daemon route named after
/// it: create, start, stop, restart and delete each under `/containers/`;
/// so two different actions never reach the same route.
pub proof fn law_container_actions_have_their_own_routes(a: NodeCall, b: NodeCall)
    requires
        is_container_action(a),
        is_container_action(b),
    ensures
        call_target(a).0 == HttpMethod::Post,
        call_target(a).2 is None,
        a is CreateContainer ==> call_target(a).1 == "/containers/create"@,
        a is StartContainer ==> call_target(a).1 == "/containers/start"@,
        a is StopContainer ==> call_target(a).1 == "/containers/stop"@,
        a is RestartContainer ==> call_target(a).1 == "/containers/restart"@,
        a is DeleteContainer ==> call_target(a).1 == "/containers/delete"@,
        call_target(a).1 == call_target(b).1 <==> (
            (a is CreateContainer && b is CreateContainer)
            || (a is StartContainer && b is StartContainer)
            || (a is StopContainer && b is StopContainer)
            || (a is RestartContainer && b is RestartContainer)
            || (a is DeleteContainer && b is DeleteContainer)),
{
    reveal_strlit("/containers/create");
    reveal_strlit("/containers/start");
    reveal_strlit("/containers/stop");
    reveal_strlit("/containers/restart");
    reveal_strlit("/containers/delete");
    let c = "/containers/create"@;
    let st = "/containers/start"@;
    let sp = "/containers/stop"@;
    let rs = "/containers/restart"@;
    let d = "/containers/delete"@;
    assert(c.len() == 18 && st.len() == 17 && sp.len() == 16 && rs.len() == 19 && d.len() == 18);
    assert(c[12] != d[12]);
}

/// The URL of each container action is the node's address followed by the
/// action's own route, so a restart is sent to `/containers/restart` and a
/// start to `/containers/start`.
pub proof fn law_planned_action_urls_differ(
    node_url: Seq<char>,
    a: NodeCall,
    b: NodeCall,
    pa: NodeRequestPlan,
    pb: NodeRequestPlan,
)
    requires
        is_container_action(a),
        is_container_action(b),
        pa.url@ == node_url + call_target(a).1,
        pb.url@ == node_url + call_target(b).1,
        !((a is CreateContainer && b is CreateContainer)
            || (a is StartContainer && b is StartContainer)
            || (a is StopContainer && b is StopContainer)
            || (a is RestartContainer && b is RestartContainer)
            || (a is DeleteContainer && b is DeleteContainer)),
    ensures
        pa.url@ != pb.url@,
{
    law_container_actions_have_their_own_routes(a, b);
    if pa.url@ == pb.url@ {
        assert(call_target(a).1 =~= pa.url@.skip(node_url.len() as int));
        assert(call_target(b).1 =~= pb.url@.skip(node_url.len() as int));
    }
}

/// The calls about one container name it in their path: status and logs
/// are read with GET, the file list and a file with GET (with the path as
/// the `path` query), a file is written with PUT and a directory created
/// with POST, each under `/containers/` and the container's id.
pub proof fn law_container_calls_name_their_container(call: NodeCall)
    ensures
        call matches NodeCall::ContainerStatus { container_id } ==> call_target(call) == (
            HttpMethod::Get,
            "/containers/"@ + container_id@ + "/status"@,
            None::<Seq<char>>,
        ),
        call matches NodeCall::ContainerLogs { container_id } ==> call_target(call) == (
            HttpMethod::Get,
            "/containers/"@ + container_id@ + "/logs"@,
            None::<Seq<char>>,
        ),
        call matches NodeCall::ListFiles { container_id, path } ==> call_target(call).0
            == HttpMethod::Get && call_target(call).1 == "/containers/"@ + container_id@ + "/files"@
            && (path is None <==> call_target(call).2 is None) && (path is Some ==> call_target(
            call,
        ).2 == Some(path->0@)),
        call matches NodeCall::ReadFile { container_id, file_path } ==> call_target(call) == (
            HttpMethod::Get,
            "/containers/"@ + container_id@ + "/file"@,
            Some(file_path@),
        ),
        call matches NodeCall::WriteFile { container_id } ==> call_target(call) == (
            HttpMethod::Put,
            "/containers/"@ + container_id@ + "/file"@,
            None::<Seq<char>>,
        ),
        call matches NodeCall::CreateDirectory { container_id } ==> call_target(call) == (
            HttpMethod::Post,
            "/containers/"@ + container_id@ + "/directories"@,
            None::<Seq<char>>,
        ),
{
}

} // verus!
