//! What the daemon asks of Docker and how it reads Docker's answers: the
//! creation request of a container, its port bindings, the CPU figures of
//! its statistics, its log lines, and the errors Docker reports.
use vstd::prelude::*;
use vstd::utf8::{decode_utf8, valid_utf8};

use crate::daemon::error::{AppError, BAD_GATEWAY, INTERNAL_SERVER_ERROR};
use crate::daemon::models::{
    strs, ContainerLogLine, ContainerPortMapping, ContainerSpec, CreateContainerResult,
    LogTimestamp,
};
use crate::daemon::paths::join_path;
use crate::string_map::{pairs_view, StringMap};
use crate::text::{
    chars_of, decimal, eq_str, fields, push_str, split_fields, string_of, trim, trim_chars,
    u64_to_string, views, Separator,
};

verus! {

/// A character kept in a container name: ASCII letters, digits, `_`, `-`.
pub open spec fn is_name_char(c: char) -> bool {
    ('a' <= c && c <= 'z') || ('A' <= c && c <= 'Z') || ('0' <= c && c <= '9') || c == '_' || c
        == '-'
}

/// `value` with every other character replaced by `-`.
pub open spec fn sanitized(value: Seq<char>) -> Seq<char> {
    Seq::new(value.len(), |i: int| if is_name_char(value[i]) { value[i] } else { '-' })
}

/// `sanitize_name`: the value made fit for a container name.
pub fn sanitize_name(value: &str) -> (r: String)
    ensures
        r@ == sanitized(value@),
{
    let v = chars_of(value);
    let mut out: Vec<char> = Vec::new();
    let mut i: usize = 0;
    while i < v.len()
        invariant
            i <= v.len(),
            v@ == value@,
            out@ == sanitized(value@).take(i as int),
        decreases v.len() - i,
    {
        let c = v[i];
        let keep = ('a' <= c && c <= 'z') || ('A' <= c && c <= 'Z') || ('0' <= c && c <= '9')
            || c == '_' || c == '-';
        out.push(if keep { c } else { '-' });
        i = i + 1;
        assert(out@ =~= sanitized(value@).take(i as int));
    }
    assert(sanitized(value@).take(v.len() as int) =~= sanitized(value@));
    string_of(&out)
}

/// A sanitised name has the length of the value, holds only name
/// characters, and sanitising it again changes nothing.
pub proof fn law_sanitized_name_is_clean(value: Seq<char>)
    ensures
        sanitized(value).len() == value.len(),
        forall|i: int| 0 <= i < value.len() ==> is_name_char(#[trigger] sanitized(value)[i]),
        sanitized(sanitized(value)) == sanitized(value),
{
    assert(sanitized(sanitized(value)) =~= sanitized(value));
}

/// A port binding of Docker's host configuration: the port key, the host
/// address and the host port written in decimal.
pub struct PortBindingPlan {
    pub key: String,
    pub host_ip: String,
    pub host_port: String,
}

/// The binding of one port.
pub open spec fn binding_of(p: ContainerPortMapping) -> (Seq<char>, Seq<char>, Seq<char>) {
    (p.key_spec(), p.host_ip@, decimal(p.host_port as int))
}

/// The same binding, as plain values.
pub open spec fn binding_view(b: PortBindingPlan) -> (Seq<char>, Seq<char>, Seq<char>) {
    (b.key@, b.host_ip@, b.host_port@)
}

/// No later port has the key of the `i`-th.
pub open spec fn last_of_key(ports: Seq<ContainerPortMapping>, i: int) -> bool {
    forall|j: int| i < j < ports.len() ==> #[trigger] ports[j].key_spec() != ports[i].key_spec()
}

/// The ports among the first `n` that are the last with their key, in
/// order: the ports a map keyed by port key keeps when they are inserted
/// one after another.
pub open spec fn kept_ports(ports: Seq<ContainerPortMapping>, n: int) -> Seq<ContainerPortMapping>
    decreases n,
{
    if n <= 0 {
        Seq::empty()
    } else if last_of_key(ports, n - 1) {
        kept_ports(ports, n - 1).push(ports[n - 1])
    } else {
        kept_ports(ports, n - 1)
    }
}

fn is_last_of_key(ports: &Vec<ContainerPortMapping>, i: usize) -> (r: bool)
    requires
        i < ports@.len(),
    ensures
        r == last_of_key(ports@, i as int),
{
    let key = ports[i].key();
    let n = ports.len();
    assert(i < n);
    let mut j: usize = i + 1;
    while j < ports.len()
        invariant
            i < j <= ports@.len(),
            key@ == ports@[i as int].key_spec(),
            forall|k: int| i < k < j ==> #[trigger] ports@[k].key_spec() != ports@[i as int].key_spec(),
        decreases ports@.len() - j,
    {
        let other = ports[j].key();
        if eq_str(other.as_str(), key.as_str()) {
            return false;
        }
        j = j + 1;
    }
    true
}

/// `build_port_bindings`: the map from port key to binding, one entry per
/// key, which holds the binding of the last port with that key (as a map
/// built by inserting the ports in order does).
pub fn build_port_bindings(ports: &Vec<ContainerPortMapping>) -> (r: Vec<PortBindingPlan>)
    ensures
        r@.map_values(|b: PortBindingPlan| binding_view(b)) == kept_ports(
            ports@,
            ports@.len() as int,
        ).map_values(|p: ContainerPortMapping| binding_of(p)),
        forall|a: int, b: int| 0 <= a < b < r@.len() ==> #[trigger] r@[a].key@ != #[trigger] r@[b].key@,
        forall|k: int|
            0 <= k < ports@.len() ==> exists|a: int|
                0 <= a < r@.len() && #[trigger] r@[a].key@ == (#[trigger] ports@[k]).key_spec(),
{
    let n = ports.len();
    let mut r: Vec<PortBindingPlan> = Vec::new();
    let ghost mut idx: Seq<int> = Seq::empty();
    let mut i: usize = 0;
    while i < n
        invariant
            n == ports@.len(),
            i <= n,
            idx.len() == r@.len(),
            r@.map_values(|b: PortBindingPlan| binding_view(b)) == kept_ports(
                ports@,
                i as int,
            ).map_values(|p: ContainerPortMapping| binding_of(p)),
            forall|a: int| 0 <= a < r@.len() ==> 0 <= #[trigger] idx[a] < i && last_of_key(ports@, idx[a])
                && r@[a].key@ == ports@[idx[a]].key_spec(),
            forall|a: int, b: int| 0 <= a < b < r@.len() ==> #[trigger] idx[a] < #[trigger] idx[b],
            forall|k: int|
                0 <= k < i ==> (exists|a: int|
                    0 <= a < r@.len() && #[trigger] r@[a].key@ == (#[trigger] ports@[k]).key_spec())
                    || (exists|j: int| i <= j < n && #[trigger] ports@[j].key_spec() == ports@[k].key_spec()),
        decreases n - i,
    {
        let last = is_last_of_key(ports, i);
        let ghost before = r@;
        let ghost before_idx = idx;
        if last {
            let p = &ports[i];
            r.push(
                PortBindingPlan {
                    key: p.key(),
                    host_ip: p.host_ip.clone(),
                    host_port: u64_to_string(p.host_port as u64),
                },
            );
            proof {
                idx = idx.push(i as int);
                assert(r@.map_values(|b: PortBindingPlan| binding_view(b)) =~= before.map_values(
                    |b: PortBindingPlan| binding_view(b),
                ).push(binding_of(ports@[i as int])));
                assert(kept_ports(ports@, i + 1) == kept_ports(ports@, i as int).push(ports@[i as int]));
                assert(kept_ports(ports@, i + 1).map_values(|p: ContainerPortMapping| binding_of(p))
                    =~= kept_ports(ports@, i as int).map_values(|p: ContainerPortMapping| binding_of(p)).push(
                    binding_of(ports@[i as int]),
                ));
                assert forall|a: int| 0 <= a < r@.len() implies 0 <= #[trigger] idx[a] < i + 1
                    && last_of_key(ports@, idx[a]) && r@[a].key@ == ports@[idx[a]].key_spec() by {
                    if a < before.len() {
                        assert(r@[a] == before[a]);
                        assert(idx[a] == before_idx[a]);
                    }
                }
                assert forall|a: int, b: int| 0 <= a < b < r@.len() implies #[trigger] idx[a]
                    < #[trigger] idx[b] by {
                    assert(idx[a] == before_idx[a]);
                    if b < before.len() {
                        assert(idx[b] == before_idx[b]);
                    }
                }
            }
        } else {
            proof {
                assert(kept_ports(ports@, i + 1) == kept_ports(ports@, i as int));
            }
        }
        proof {
            let new_key = ports@[i as int].key_spec();
            assert forall|k: int| 0 <= k < i + 1 implies (exists|a: int|
                0 <= a < r@.len() && #[trigger] r@[a].key@ == (#[trigger] ports@[k]).key_spec())
                || (exists|j: int| i + 1 <= j < n && #[trigger] ports@[j].key_spec()
                == ports@[k].key_spec()) by {
                let kk = ports@[k].key_spec();
                if last {
                    if kk == new_key {
                        let a = (r@.len() - 1) as int;
                        assert(r@[a].key@ == kk);
                    } else if k < i {
                        if exists|a: int| 0 <= a < before.len() && #[trigger] before[a].key@ == kk {
                            let a = choose|a: int| 0 <= a < before.len() && #[trigger] before[a].key@ == kk;
                            assert(r@[a] == before[a]);
                            assert(r@[a].key@ == kk);
                        } else {
                            let j = choose|j: int| i <= j < n && #[trigger] ports@[j].key_spec() == kk;
                            assert(j != i);
                        }
                    }
                } else {
                    if k == i {
                        let j = choose|j: int| i < j < n && #[trigger] ports@[j].key_spec()
                            != ports@[i as int].key_spec() == false;
                        assert(ports@[j].key_spec() == kk);
                    } else if exists|a: int| 0 <= a < before.len() && #[trigger] before[a].key@ == kk {
                        let a = choose|a: int| 0 <= a < before.len() && #[trigger] before[a].key@ == kk;
                        assert(r@[a].key@ == kk);
                    } else {
                        let j = choose|j: int| i <= j < n && #[trigger] ports@[j].key_spec() == kk;
                        if j == i {
                            let j2 = choose|j2: int| i < j2 < n && #[trigger] ports@[j2].key_spec()
                                != ports@[i as int].key_spec() == false;
                            assert(ports@[j2].key_spec() == kk);
                        }
                    }
                }
            }
        }
        i = i + 1;
    }
    proof {
        assert forall|a: int, b: int| 0 <= a < b < r@.len() implies #[trigger] r@[a].key@
            != #[trigger] r@[b].key@ by {
            assert(idx[a] < idx[b]);
            assert(last_of_key(ports@, idx[a]));
            assert(ports@[idx[b]].key_spec() != ports@[idx[a]].key_spec());
        }
    }
    r
}

/// `build_exposed_ports`: the port keys, each once (in the order of the
/// bindings).
pub fn build_exposed_ports(ports: &Vec<ContainerPortMapping>) -> (r: Vec<String>)
    ensures
        strs(r@) == kept_ports(ports@, ports@.len() as int).map_values(
            |p: ContainerPortMapping| p.key_spec(),
        ),
        forall|a: int, b: int| 0 <= a < b < r@.len() ==> #[trigger] r@[a]@ != #[trigger] r@[b]@,
        forall|k: int|
            0 <= k < ports@.len() ==> strs(r@).contains((#[trigger] ports@[k]).key_spec()),
{
    let bindings = build_port_bindings(ports);
    let ghost kept = kept_ports(ports@, ports@.len() as int);
    let mut r: Vec<String> = Vec::new();
    let mut i: usize = 0;
    proof {
        assert(bindings@.len() == kept.len()) by {
            assert(bindings@.map_values(|b: PortBindingPlan| binding_view(b)).len() == kept.map_values(
                |p: ContainerPortMapping| binding_of(p),
            ).len());
        }
    }
    while i < bindings.len()
        invariant
            i <= bindings@.len(),
            bindings@.len() == kept.len(),
            r@.len() == i,
            forall|k: int| 0 <= k < i ==> (#[trigger] r@[k])@ == bindings@[k].key@,
        decreases bindings@.len() - i,
    {
        r.push(bindings[i].key.clone());
        i = i + 1;
    }
    proof {
        assert forall|k: int| 0 <= k < kept.len() implies #[trigger] strs(r@)[k] == kept[k].key_spec() by {
            assert(bindings@.map_values(|b: PortBindingPlan| binding_view(b))[k] == kept.map_values(
                |p: ContainerPortMapping| binding_of(p),
            )[k]);
        }
        assert(strs(r@) =~= kept.map_values(|p: ContainerPortMapping| p.key_spec()));
        assert forall|k: int| 0 <= k < ports@.len() implies strs(r@).contains(
            (#[trigger] ports@[k]).key_spec(),
        ) by {
            let a = choose|a: int| 0 <= a < bindings@.len() && #[trigger] bindings@[a].key@ == (
            #[trigger] ports@[k]).key_spec();
            assert(strs(r@)[a] == ports@[k].key_spec());
        }
    }
    r
}

/// The label that records which server a container belongs to.
pub open spec fn server_id_label() -> Seq<char> {
    "game-host-daemon.server_id"@
}

/// What the daemon hands Docker to create a container.
pub struct ContainerCreatePlan {
    pub name: String,
    pub image: String,
    pub env: Vec<String>,
    pub port_bindings: Vec<PortBindingPlan>,
    pub exposed_ports: Vec<String>,
    pub binds: Vec<String>,
    pub labels: StringMap,
    pub memory_bytes: Option<i64>,
    pub cpu_limit_percent: Option<i32>,
    pub working_dir: String,
    pub cmd: Option<Vec<String>>,
    pub entrypoint: Option<Vec<String>>,
}

/// The name of the container: the one asked for, or `srv-` and the
/// sanitised server id.
pub open spec fn container_name(spec: ContainerSpec) -> Seq<char> {
    match spec.container_name {
        Some(n) => n@,
        None => "srv-"@ + sanitized(spec.server_id@),
    }
}

/// The labels of a managed container.
pub open spec fn managed_labels(managed_label: Seq<char>, server_id: Seq<char>) -> Map<
    Seq<char>,
    Seq<char>,
> {
    Map::<Seq<char>, Seq<char>>::empty().insert(managed_label, "true"@).insert(
        server_id_label(),
        server_id,
    )
}

/// One environment variable as Docker takes it: `NAME=value`.
pub open spec fn env_line(pair: (String, String)) -> Seq<char> {
    pair.0@ + "="@ + pair.1@
}

impl ContainerCreatePlan {
    /// This plan creates the container that `spec` describes.
    pub open spec fn plans(self, spec: ContainerSpec, managed_label: Seq<char>) -> bool {
        &&& self.name@ == container_name(spec)
        &&& self.image@ == spec.image@
        &&& (exists|pairs: Seq<(String, String)>|
            #![trigger pairs_view(pairs)]
            pairs_view(pairs) == spec.environment@ && crate::string_map::distinct_keys(pairs)
                && strs(self.env@) == pairs.map_values(|p: (String, String)| env_line(p)))
        &&& self.port_bindings@.map_values(|b: PortBindingPlan| binding_view(b)) == kept_ports(
            spec.ports@,
            spec.ports@.len() as int,
        ).map_values(|p: ContainerPortMapping| binding_of(p))
        &&& strs(self.exposed_ports@) == kept_ports(spec.ports@, spec.ports@.len() as int).map_values(
            |p: ContainerPortMapping| p.key_spec(),
        )
        &&& strs(self.binds@) == seq![spec.volume_host_path@ + ":"@ + spec.working_dir@]
        &&& self.labels@ == managed_labels(managed_label, spec.server_id@)
        &&& self.memory_bytes == (match spec.memory_limit_mb {
            Some(m) => Some((m * 1024 * 1024) as i64),
            None => None,
        })
        &&& self.cpu_limit_percent == spec.cpu_limit_percent
        &&& self.working_dir@ == spec.working_dir@
        &&& (match self.cmd {
            Some(c) => spec.cmd@.len() > 0 && strs(c@) == strs(spec.cmd@),
            None => spec.cmd@.len() == 0,
        })
        &&& (match self.entrypoint {
            Some(e) => spec.entrypoint@.len() > 0 && strs(e@) == strs(spec.entrypoint@),
            None => spec.entrypoint@.len() == 0,
        })
    }
}

/// A creation plan keeps the resource limits of its container: the CPU
/// limit asked for is the one Docker is given, and the memory limit is
/// given in bytes, a MiB being 1024 * 1024 bytes.  For the container
/// `build_container_spec` describes, that is the CPU percentage and the
/// memory of the request.
pub proof fn law_plan_keeps_resource_limits(
    plan: ContainerCreatePlan,
    spec: ContainerSpec,
    managed_label: Seq<char>,
    c: crate::daemon::config::Config,
    r: crate::daemon::models::BackendCreateContainerRequest,
)
    requires
        plan.plans(spec, managed_label),
    ensures
        plan.cpu_limit_percent == spec.cpu_limit_percent,
        spec.memory_limit_mb is None <==> plan.memory_bytes is None,
        spec.memory_limit_mb is Some && -8796093022208 <= spec.memory_limit_mb->0 <= 8796093022207
            ==> plan.memory_bytes->0 == spec.memory_limit_mb->0 * 1048576,
        crate::daemon::game_presets::is_container_spec_for(spec, c, r) ==> plan.cpu_limit_percent
            == Some(r.cpu_limit_percent) && plan.memory_bytes->0 == r.memory_limit_mb * 1048576,
{
    if let Some(m) = spec.memory_limit_mb {
        if -8796093022208 <= m <= 8796093022207 {
            assert(-9223372036854775808 <= m * 1048576 <= 9223372036854775807) by (nonlinear_arith)
                requires
                    -8796093022208 <= m <= 8796093022207,
            ;
            assert(m * 1024 * 1024 == m * 1048576) by (nonlinear_arith);
        }
    }
}

/// A creation plan runs the spec's image in its working directory with
/// the server's volume mounted there, names the container as asked (or
/// `srv-` and the sanitised server id), and labels it as managed by the
/// daemon and as belonging to the spec's server.
pub proof fn law_plan_describes_the_container(
    plan: ContainerCreatePlan,
    spec: ContainerSpec,
    managed_label: Seq<char>,
)
    requires
        plan.plans(spec, managed_label),
        managed_label != server_id_label(),
    ensures
        plan.image@ == spec.image@,
        plan.working_dir@ == spec.working_dir@,
        strs(plan.binds@).len() == 1,
        strs(plan.binds@)[0] == spec.volume_host_path@ + ":"@ + spec.working_dir@,
        spec.container_name is Some ==> plan.name@ == spec.container_name->0@,
        spec.container_name is None ==> plan.name@ == "srv-"@ + sanitized(spec.server_id@),
        plan.labels@.contains_key(managed_label),
        plan.labels@[managed_label] == "true"@,
        plan.labels@.contains_key(server_id_label()),
        plan.labels@[server_id_label()] == spec.server_id@,
        plan.labels@.len() == 2,
{
    assert(plan.labels@.dom() =~= set![managed_label, server_id_label()]);
    assert(set![managed_label, server_id_label()].len() == 2) by {
        assert(set![managed_label].len() == 1);
    }
}

fn clone_strings(v: &Vec<String>) -> (r: Vec<String>)
    ensures
        strs(r@) == strs(v@),
{
    let mut r: Vec<String> = Vec::new();
    let mut i: usize = 0;
    while i < v.len()
        invariant
            i <= v.len(),
            r@.len() == i,
            forall|k: int| 0 <= k < i ==> (#[trigger] r@[k])@ == v@[k]@,
        decreases v.len() - i,
    {
        r.push(v[i].clone());
        i = i + 1;
    }
    assert(strs(r@) =~= strs(v@));
    r
}

/// The creation request that `DockerClient::create_container` sends for
/// `spec`, labelled as managed with `managed_label`.
pub fn plan_container_creation(spec: &ContainerSpec, managed_label: &str) -> (r:
    ContainerCreatePlan)
    requires
        spec.memory_limit_mb matches Some(m) ==> -8796093022208 <= m <= 8796093022207,
    ensures
        r.plans(*spec, managed_label@),
{
    let name = match &spec.container_name {
        Some(n) => n.clone(),
        None => {
            let mut n = "srv-".to_owned();
            let s = sanitize_name(spec.server_id.as_str());
            push_str(&mut n, s.as_str());
            n
        },
    };
    let count = spec.environment.len();
    let mut env: Vec<String> = Vec::new();
    let mut i: usize = 0;
    while i < count
        invariant
            count == spec.environment.pairs().len(),
            i <= count,
            env@.len() == i,
            forall|k: int|
                0 <= k < i ==> (#[trigger] env@[k])@ == env_line(spec.environment.pairs()[k]),
        decreases count - i,
    {
        let (key, value) = spec.environment.pair_at(i);
        let mut line = key;
        push_str(&mut line, "=");
        push_str(&mut line, value.as_str());
        env.push(line);
        i = i + 1;
    }
    proof {
        let pairs = spec.environment.pairs();
        assert(strs(env@) =~= pairs.map_values(|p: (String, String)| env_line(p)));
    }
    let mut bind = spec.volume_host_path.clone();
    push_str(&mut bind, ":");
    push_str(&mut bind, spec.working_dir.as_str());
    let mut binds: Vec<String> = Vec::new();
    binds.push(bind);
    assert(strs(binds@) =~= seq![spec.volume_host_path@ + ":"@ + spec.working_dir@]);
    let mut labels = StringMap::new();
    labels.insert(managed_label.to_owned(), "true".to_owned());
    labels.insert("game-host-daemon.server_id".to_owned(), spec.server_id.clone());
    let memory_bytes = match spec.memory_limit_mb {
        Some(m) => Some(m * 1024 * 1024),
        None => None,
    };
    let cmd = if spec.cmd.len() == 0 {
        None
    } else {
        Some(clone_strings(&spec.cmd))
    };
    let entrypoint = if spec.entrypoint.len() == 0 {
        None
    } else {
        Some(clone_strings(&spec.entrypoint))
    };
    ContainerCreatePlan {
        name,
        image: spec.image.clone(),
        env,
        port_bindings: build_port_bindings(&spec.ports),
        exposed_ports: build_exposed_ports(&spec.ports),
        binds,
        labels,
        memory_bytes,
        cpu_limit_percent: spec.cpu_limit_percent,
        working_dir: spec.working_dir.clone(),
        cmd,
        entrypoint,
    }
}

/// The CPU figures of one statistics sample of a container.
pub struct CpuSample {
    pub total_usage: u64,
    pub system_cpu_usage: Option<u64>,
    pub online_cpus: Option<u64>,
}

/// The CPU time used between two samples, the system time between them and
/// the number of CPUs; none when a counter went backwards, the system time
/// is missing or did not advance.
pub open spec fn cpu_deltas(current: CpuSample, previous: CpuSample) -> Option<(u64, u64, u64)> {
    if current.total_usage < previous.total_usage {
        None
    } else if current.system_cpu_usage is None || previous.system_cpu_usage is None {
        None
    } else if current.system_cpu_usage->0 < previous.system_cpu_usage->0 {
        None
    } else if current.system_cpu_usage->0 == previous.system_cpu_usage->0 {
        None
    } else {
        Some(
            (
                (current.total_usage - previous.total_usage) as u64,
                (current.system_cpu_usage->0 - previous.system_cpu_usage->0) as u64,
                match current.online_cpus {
                    Some(n) => n,
                    None => 1,
                },
            ),
        )
    }
}

/// The exact part of `calculate_cpu_percentage`: the deltas that the
/// percentage `cpu / system * cpus * 100` is computed from.
pub fn cpu_usage_deltas(current: &CpuSample, previous: &CpuSample) -> (r: Option<(u64, u64, u64)>)
    ensures
        r == cpu_deltas(*current, *previous),
{
    let cpu_delta = match current.total_usage.checked_sub(previous.total_usage) {
        Some(d) => d,
        None => return None,
    };
    let system = match current.system_cpu_usage {
        Some(s) => s,
        None => return None,
    };
    let previous_system = match previous.system_cpu_usage {
        Some(s) => s,
        None => return None,
    };
    let system_delta = match system.checked_sub(previous_system) {
        Some(d) => d,
        None => return None,
    };
    let online_cpus = match current.online_cpus {
        Some(n) => n,
        None => 1,
    };
    if system_delta == 0 {
        return None;
    }
    Some((cpu_delta, system_delta, online_cpus))
}

/// `create_container`, its answer once Docker has created the container:
/// the server, Docker's id for the container, and the status `stopped`.
pub fn created_container(spec: &ContainerSpec, container_id: String) -> (r: CreateContainerResult)
    ensures
        r.server_id@ == spec.server_id@,
        r.container_id@ == container_id@,
        r.status@ == "stopped"@,
{
    CreateContainerResult {
        server_id: spec.server_id.clone(),
        container_id,
        status: "stopped".to_owned(),
    }
}

/// What `fetch_status` reports of a container, but for its CPU figure.
pub struct ContainerStatusReport {
    pub server_id: String,
    pub container_id: String,
    pub state: String,
    pub memory_usage_bytes: Option<u64>,
}

/// `fetch_status`, its reading of Docker's inspect answer: the state text
/// of the container's `running` flag, or an internal error when the answer
/// has no state.
pub fn inspected_state(state: Option<Option<bool>>) -> (r: Result<String, AppError>)
    ensures
        match state {
            None => r matches Err(e) && e.is(
                INTERNAL_SERVER_ERROR,
                "docker inspect response missing state"@,
            ),
            Some(running) => r matches Ok(s) && s@ == (if running == Some(true) {
                "running"@
            } else {
                "stopped"@
            }),
        },
{
    match state {
        None => Err(AppError::internal("docker inspect response missing state".to_owned())),
        Some(running) => Ok(container_state_label(running)),
    }
}

/// `fetch_status`, its report: the server, the container, its state, and
/// the memory figure of the one-shot statistics when Docker gave them and
/// they hold one.
pub fn status_report(server_id: &str, container_id: &str, state: String, stats_memory: Option<
    Option<u64>,
>) -> (r: ContainerStatusReport)
    ensures
        r.server_id@ == server_id@,
        r.container_id@ == container_id@,
        r.state@ == state@,
        r.memory_usage_bytes == (match stats_memory {
            Some(m) => m,
            None => None,
        }),
{
    ContainerStatusReport {
        server_id: server_id.to_owned(),
        container_id: container_id.to_owned(),
        state,
        memory_usage_bytes: match stats_memory {
            Some(m) => m,
            None => None,
        },
    }
}

/// The state the daemon reports for a container: `running` when Docker
/// says it runs, `stopped` otherwise.
pub fn container_state_label(running: Option<bool>) -> (s: String)
    ensures
        s@ == (if running == Some(true) {
            "running"@
        } else {
            "stopped"@
        }),
{
    match running {
        Some(true) => "running".to_owned(),
        _ => "stopped".to_owned(),
    }
}

/// What Docker reports when a call fails.
pub enum DockerFailure {
    /// Docker answered with an error status and message.
    Response { status_code: u16, message: String },
    /// Anything else, with its description.
    Other { description: String },
}

/// `map_docker_error`: Docker's own status is passed on when it is a valid
/// HTTP status (100 to 999), else 502; any other failure is a 500 that
/// says it came from Docker.
pub fn map_docker_error(failure: DockerFailure) -> (e: AppError)
    ensures
        match failure {
            DockerFailure::Response { status_code, message } => e.message@ == message@ && e.status
                == (if 100 <= status_code <= 999 {
                status_code
            } else {
                BAD_GATEWAY
            }),
            DockerFailure::Other { description } => e.is(
                INTERNAL_SERVER_ERROR,
                "docker error: "@ + description@,
            ),
        },
{
    match failure {
        DockerFailure::Response { status_code, message } => {
            let status = if 100 <= status_code && status_code <= 999 {
                status_code
            } else {
                BAD_GATEWAY
            };
            AppError { status, message }
        },
        DockerFailure::Other { description } => {
            let mut m = "docker error: ".to_owned();
            push_str(&mut m, description.as_str());
            AppError::internal(m)
        },
    }
}

/// The instant that `DateTime::parse_from_rfc3339` reads from a string, in
/// UTC seconds and nanoseconds; none when the string is not RFC 3339.
pub uninterp spec fn rfc3339_instant(s: Seq<char>) -> Option<(i64, u32)>;

/// Calls `chrono::DateTime::parse_from_rfc3339` and converts the instant to
/// UTC seconds and nanoseconds.  The contract claims that the result is
/// `rfc3339_instant` of the text: it depends on the text alone.
#[verifier::external_body]
fn parse_rfc3339(s: &str) -> (r: Option<LogTimestamp>)
    ensures
        match r {
            Some(t) => rfc3339_instant(s@) == Some((t.seconds, t.nanos)),
            None => rfc3339_instant(s@) is None,
        },
{
    match chrono::DateTime::parse_from_rfc3339(s) {
        Ok(t) => Some(LogTimestamp { seconds: t.timestamp(), nanos: t.timestamp_subsec_nanos() }),
        Err(_) => None,
    }
}

/// Calls `chrono::Utc::now`.  The contract claims only that the time is at
/// or after the Unix epoch, with fewer than a billion nanoseconds: the
/// value itself is the machine's clock.
#[verifier::external_body]
fn current_time() -> (t: LogTimestamp)
    ensures
        t.seconds >= 0,
        t.nanos < 1_000_000_000,
{
    let now = chrono::Utc::now();
    LogTimestamp { seconds: now.timestamp(), nanos: now.timestamp_subsec_nanos() }
}

/// The text that `String::from_utf8_lossy` makes of some bytes, with each
/// invalid sequence replaced by U+FFFD.
pub uninterp spec fn utf8_lossy(bytes: Seq<u8>) -> Seq<char>;

/// Calls `String::from_utf8_lossy`.  The contract claims that the text is
/// `utf8_lossy` of the bytes, and, as std documents, that valid UTF-8 is
/// decoded as it is.
#[verifier::external_body]
fn decode_lossy(bytes: &[u8]) -> (s: String)
    ensures
        s@ == utf8_lossy(bytes@),
        valid_utf8(bytes@) ==> s@ == decode_utf8(bytes@),
{
    String::from_utf8_lossy(bytes).into_owned()
}

/// The text before and after the first space, if there is one.
pub open spec fn split_at_first_space(t: Seq<char>) -> Option<(Seq<char>, Seq<char>)> {
    if exists|i: int| 0 <= i < t.len() && t[i] == ' ' {
        let i = choose|i: int|
            0 <= i < t.len() && t[i] == ' ' && forall|j: int| 0 <= j < i ==> t[j] != ' ';
        Some((t.take(i), t.skip(i + 1)))
    } else {
        None
    }
}

/// The non-blank lines of a log text, trimmed.
pub open spec fn log_texts(text: Seq<char>) -> Seq<Seq<char>> {
    fields(Separator::Newline, text).map_values(|l: Seq<char>| trim(l)).filter(
        |t: Seq<char>| t.len() > 0,
    )
}

/// A trimmed log line read as an RFC 3339 timestamp, a space and the
/// message; none when it does not start so.
pub open spec fn stamped_line(t: Seq<char>) -> Option<((i64, u32), Seq<char>)> {
    match split_at_first_space(t) {
        Some((stamp, rest)) => match rfc3339_instant(stamp) {
            Some(instant) => Some((instant, rest)),
            None => None,
        },
        None => None,
    }
}

/// One log entry read at instant `now` from a trimmed line: its timestamp
/// when it carries one, and its message; otherwise the whole line, stamped
/// `now`.
pub open spec fn log_entry_matches(entry: ContainerLogLine, t: Seq<char>, now: LogTimestamp) -> bool {
    match stamped_line(t) {
        Some((instant, rest)) => (entry.timestamp.seconds, entry.timestamp.nanos) == instant
            && entry.line@ == rest,
        None => entry.line@ == t && entry.timestamp == now,
    }
}

fn first_space(t: &Vec<char>) -> (r: Option<usize>)
    ensures
        match r {
            Some(i) => i < t@.len() && t@[i as int] == ' ' && forall|j: int|
                0 <= j < i ==> t@[j] != ' ',
            None => forall|j: int| 0 <= j < t@.len() ==> t@[j] != ' ',
        },
{
    let mut i: usize = 0;
    while i < t.len()
        invariant
            i <= t@.len(),
            forall|j: int| 0 <= j < i ==> t@[j] != ' ',
        decreases t@.len() - i,
    {
        if t[i] == ' ' {
            return Some(i);
        }
        i = i + 1;
    }
    None
}

fn slice_chars(t: &Vec<char>, from: usize, to: usize) -> (r: Vec<char>)
    requires
        from <= to <= t@.len(),
    ensures
        r@ == t@.subrange(from as int, to as int),
{
    let mut r: Vec<char> = Vec::new();
    let mut i: usize = from;
    while i < to
        invariant
            from <= i <= to <= t@.len(),
            r@ == t@.subrange(from as int, i as int),
        decreases to - i,
    {
        r.push(t[i]);
        i = i + 1;
        assert(r@ =~= t@.subrange(from as int, i as int));
    }
    r
}

/// One log entry from a trimmed, non-blank line.
fn parse_log_line(t: &Vec<char>, now: LogTimestamp) -> (entry: ContainerLogLine)
    ensures
        log_entry_matches(entry, t@, now),
{
    if let Some(i) = first_space(t) {
        let stamp = string_of(&slice_chars(t, 0, i));
        proof {
            assert(exists|k: int| 0 <= k < t@.len() && t@[k] == ' ') by {
                assert(t@[i as int] == ' ');
            }
            let c = choose|k: int|
                0 <= k < t@.len() && t@[k] == ' ' && forall|j: int| 0 <= j < k ==> t@[j] != ' ';
            assert(c == i) by {
                if c < i {
                    assert(t@[c] != ' ');
                } else if c > i {
                    assert(t@[i as int] != ' ');
                }
            }
            assert(t@.subrange(0, i as int) =~= t@.take(i as int));
            assert(t@.subrange(i + 1, t@.len() as int) =~= t@.skip(i + 1));
        }
        let n = t.len();
        assert(i < n);
        if let Some(ts) = parse_rfc3339(stamp.as_str()) {
            let rest = string_of(&slice_chars(t, i + 1, n));
            return ContainerLogLine { timestamp: ts, line: rest };
        }
    }
    ContainerLogLine { timestamp: now, line: string_of(t) }
}

/// `parse_log_lines`: the log output read once the clock shows `now`.
pub fn parse_log_lines(bytes: &[u8]) -> (r: Vec<ContainerLogLine>)
    ensures
        exists|now: LogTimestamp|
            now.seconds >= 0 && now.nanos < 1_000_000_000 && #[trigger] log_lines_read_at(
                bytes@,
                now,
                r@,
            ),
{
    let now = current_time();
    let r = parse_log_lines_at(bytes, now);
    assert(log_lines_read_at(bytes@, now, r@));
    r
}

/// The entries read at instant `now` from some log output: one per
/// non-blank line, trimmed; a line that starts with an RFC 3339 timestamp
/// and a space carries that timestamp and the rest of the line, any other
/// line carries the whole line and `now`.
pub open spec fn log_lines_read_at(bytes: Seq<u8>, now: LogTimestamp, r: Seq<ContainerLogLine>) -> bool {
    &&& r.len() == log_texts(utf8_lossy(bytes)).len()
    &&& forall|i: int|
        0 <= i < r.len() ==> log_entry_matches(#[trigger] r[i], log_texts(utf8_lossy(bytes))[i], now)
}

/// The log output read at instant `now` (see `log_lines_read_at`).
pub fn parse_log_lines_at(bytes: &[u8], now: LogTimestamp) -> (r: Vec<ContainerLogLine>)
    ensures
        log_lines_read_at(bytes@, now, r@),
{
    let text = decode_lossy(bytes);
    let lines = split_fields(Separator::Newline, &chars_of(text.as_str()));
    let ghost all = fields(Separator::Newline, text@);
    let ghost trimmed = all.map_values(|l: Seq<char>| trim(l));
    let mut r: Vec<ContainerLogLine> = Vec::new();
    let mut kept: Ghost<Seq<Seq<char>>> = Ghost(Seq::empty());
    let mut i: usize = 0;
    proof {
        reveal(Seq::filter);
        assert(trimmed.take(0) =~= Seq::<Seq<char>>::empty());
        assert(trimmed.take(0).filter(|t: Seq<char>| t.len() > 0) =~= Seq::<Seq<char>>::empty());
    }
    while i < lines.len()
        invariant
            i <= lines@.len(),
            views(lines@) == all,
            trimmed == all.map_values(|l: Seq<char>| trim(l)),
            kept@ == trimmed.take(i as int).filter(|t: Seq<char>| t.len() > 0),
            r@.len() == kept@.len(),
            forall|k: int| 0 <= k < r@.len() ==> log_entry_matches(#[trigger] r@[k], kept@[k], now),
        decreases lines@.len() - i,
    {
        let t = trim_chars(&lines[i]);
        proof {
            assert(views(lines@)[i as int] == lines@[i as int]@);
            assert(t@ == trimmed[i as int]);
            assert(trimmed.take(i + 1).drop_last() =~= trimmed.take(i as int));
            reveal(Seq::filter);
        }
        if t.len() > 0 {
            let entry = parse_log_line(&t, now);
            r.push(entry);
            proof {
                kept@ = kept@.push(t@);
            }
        }
        i = i + 1;
    }
    proof {
        assert(trimmed.take(lines@.len() as int) =~= trimmed);
    }
    r
}

/// The containers that Docker lists as managed, split into those the
/// daemon still tracks and the orphans it removes.
pub struct ManagedContainers {
    pub discovered: Vec<String>,
    pub orphaned: Vec<String>,
}

fn contains_string(v: &Vec<String>, s: &str) -> (r: bool)
    ensures
        r == strs(v@).contains(s@),
{
    let mut i: usize = 0;
    while i < v.len()
        invariant
            i <= v@.len(),
            forall|k: int| 0 <= k < i ==> v@[k]@ != s@,
        decreases v@.len() - i,
    {
        if eq_str(v[i].as_str(), s) {
            assert(strs(v@)[i as int] == s@);
            return true;
        }
        i = i + 1;
    }
    proof {
        if strs(v@).contains(s@) {
            let k = choose|k: int| 0 <= k < strs(v@).len() && strs(v@)[k] == s@;
            assert(v@[k]@ == s@);
        }
    }
    false
}

/// The ids of the listed containers that have one.
pub open spec fn listed_ids(listed: Seq<Option<String>>) -> Seq<Seq<char>> {
    listed.filter(|c: Option<String>| c is Some).map_values(|c: Option<String>| c->0@)
}

/// `reconcile_managed_containers`, its decision: of the managed containers
/// that Docker lists, in order, those whose id the daemon expects are kept
/// and the others are removed.
pub fn partition_managed_containers(listed: &Vec<Option<String>>, expected: &Vec<String>) -> (r:
    ManagedContainers)
    ensures
        strs(r.discovered@) == listed_ids(listed@).filter(|id: Seq<char>| strs(expected@).contains(id)),
        strs(r.orphaned@) == listed_ids(listed@).filter(|id: Seq<char>| !strs(expected@).contains(id)),
{
    let mut discovered: Vec<String> = Vec::new();
    let mut orphaned: Vec<String> = Vec::new();
    let ghost ex = strs(expected@);
    let mut i: usize = 0;
    while i < listed.len()
        invariant
            i <= listed@.len(),
            ex == strs(expected@),
            strs(discovered@) == listed_ids(listed@.take(i as int)).filter(|id: Seq<char>| ex.contains(id)),
            strs(orphaned@) == listed_ids(listed@.take(i as int)).filter(|id: Seq<char>| !ex.contains(id)),
        decreases listed@.len() - i,
    {
        let ghost pre = listed@.take(i as int);
        let ghost d0 = strs(discovered@);
        let ghost o0 = strs(orphaned@);
        proof {
            reveal(Seq::filter);
            assert(listed@.take(i + 1).drop_last() =~= pre);
        }
        match &listed[i] {
            Some(id) => {
                proof {
                    assert(listed@.take(i + 1).filter(|c: Option<String>| c is Some) =~= pre.filter(
                        |c: Option<String>| c is Some,
                    ).push(listed@[i as int]));
                    assert(listed_ids(listed@.take(i + 1)) =~= listed_ids(pre).push(id@));
                    assert(listed_ids(pre).push(id@).drop_last() =~= listed_ids(pre));
                    assert(listed_ids(pre).push(id@).last() == id@);
                }
                if contains_string(expected, id.as_str()) {
                    discovered.push(id.clone());
                    proof {
                        assert(strs(discovered@) =~= d0.push(id@));
                    }
                } else {
                    orphaned.push(id.clone());
                    proof {
                        assert(strs(orphaned@) =~= o0.push(id@));
                    }
                }
            },
            None => {
                proof {
                    assert(listed@.take(i + 1).filter(|c: Option<String>| c is Some) =~= pre.filter(
                        |c: Option<String>| c is Some,
                    ));
                    assert(listed_ids(listed@.take(i + 1)) =~= listed_ids(pre));
                }
            },
        }
        i = i + 1;
    }
    assert(listed@.take(listed@.len() as int) =~= listed@);
    ManagedContainers { discovered, orphaned }
}

} // verus!
