use vstd::prelude::*;

verus! {

/// The image to run and the environment to give it.
pub struct ContainerConfig {
    pub image: String,
    pub env_vars: Vec<(String, String)>,
}

/// Why the container engine could not do its part.
#[derive(Debug)]
pub enum RuntimeError {
    /// The engine could not be reached or refused a request; the text says why.
    Engine(String),
    /// The bridge network reports no IPAM information.
    MissingIpam,
    /// The bridge network's IPAM information has no configuration list.
    MissingIpamConfig,
    /// The bridge network's IPAM configuration list is empty.
    EmptyIpamConfig,
    /// The first IPAM configuration names no gateway.
    MissingGateway,
    /// The container ended with a nonzero exit code.
    ContainerFailed { code: i64 },
}

/// The platform family of the host, as far as network reachability goes.
#[derive(Clone, Copy, Debug, PartialEq, Eq, Structural)]
pub enum HostPlatform {
    Windows,
    Macos,
    Other,
}

/// Where host services bind to be reachable from containers.
pub enum HostAddress {
    /// A fixed address.
    Fixed(String),
    /// The gateway of the engine's bridge network, which must be looked up.
    BridgeGateway,
}

/// Relies on os_info::get and Info::os_type for the host's operating system;
/// every system but Windows and macOS is `Other`.
#[verifier::external_body]
fn host_platform() -> (r: HostPlatform) {
    match os_info::get().os_type() {
        os_info::Type::Windows => HostPlatform::Windows,
        os_info::Type::Macos => HostPlatform::Macos,
        _ => HostPlatform::Other,
    }
}

/// Where host services bind on `p`: on Windows and macOS containers reach the
/// host's loopback address through the engine's host alias, elsewhere only the
/// bridge network's gateway is reachable from both sides.
pub fn host_address_for(p: HostPlatform) -> (r: HostAddress)
    ensures
        p != HostPlatform::Other ==> r is Fixed && r->Fixed_0@ == "127.0.0.1"@,
        p == HostPlatform::Other ==> r is BridgeGateway,
{
    match p {
        HostPlatform::Windows | HostPlatform::Macos => HostAddress::Fixed(
            String::from_str("127.0.0.1"),
        ),
        HostPlatform::Other => HostAddress::BridgeGateway,
    }
}

/// Where host services bind on this machine.
pub fn resolve_host_address() -> (r: HostAddress)
    ensures
        r is Fixed ==> r->Fixed_0@ == "127.0.0.1"@,
{
    host_address_for(host_platform())
}

/// One IPAM configuration of a network.
pub struct IpamConfigEntry {
    pub gateway: Option<String>,
}

/// The IPAM information of a network.
pub struct NetworkIpam {
    pub config: Option<Vec<IpamConfigEntry>>,
}

/// The gateway of the bridge network, from its IPAM information: that of the
/// first configuration, with an error for each part that is missing.
pub fn bridge_gateway(ipam: Option<NetworkIpam>) -> (r: Result<String, RuntimeError>)
    ensures
        ipam is None ==> r is Err && r->Err_0 is MissingIpam,
        ipam is Some && ipam->Some_0.config is None ==> r is Err && r->Err_0 is MissingIpamConfig,
        ipam is Some && ipam->Some_0.config is Some && ipam->Some_0.config->Some_0@.len() == 0
            ==> r is Err && r->Err_0 is EmptyIpamConfig,
        ipam is Some && ipam->Some_0.config is Some && ipam->Some_0.config->Some_0@.len() > 0
            ==> match ipam->Some_0.config->Some_0@[0].gateway {
            Some(g) => r is Ok && r->Ok_0 == g,
            None => r is Err && r->Err_0 is MissingGateway,
        },
{
    let ipam = match ipam {
        Some(ipam) => ipam,
        None => return Err(RuntimeError::MissingIpam),
    };
    let mut configs = match ipam.config {
        Some(configs) => configs,
        None => return Err(RuntimeError::MissingIpamConfig),
    };
    if configs.len() == 0 {
        return Err(RuntimeError::EmptyIpamConfig);
    }
    let first = configs.swap_remove(0);
    match first.gateway {
        Some(g) => Ok(g),
        None => Err(RuntimeError::MissingGateway),
    }
}

/// The `KEY=VALUE` form of an environment variable.
pub open spec fn env_assignment(key: Seq<char>, value: Seq<char>) -> Seq<char> {
    key + "="@ + value
}

/// The host alias that containers use to reach the host, mapped to the
/// engine's host gateway.
pub open spec fn host_alias_mapping() -> Seq<char> {
    "host.docker.internal:host-gateway"@
}

/// The isolating container runtime that every agent container runs under,
/// so that the agent's code gets no ordinary host-equivalent privileges.
pub open spec fn isolating_runtime() -> Seq<char> {
    "sysbox-runc"@
}

/// What the engine is asked to create for a container.
pub struct LaunchSpec {
    pub image: String,
    pub env: Vec<String>,
    pub extra_hosts: Vec<String>,
    pub runtime: Option<String>,
}

/// The engine request for `config`: its image, its variables as `KEY=VALUE`
/// in order, the host alias mapping, and the isolating runtime.
pub fn launch_spec(config: ContainerConfig) -> (r: LaunchSpec)
    ensures
        r.image == config.image,
        r.env@.len() == config.env_vars@.len(),
        forall|i: int|
            0 <= i < r.env@.len() ==> #[trigger] r.env@[i]@ == env_assignment(
                config.env_vars@[i].0@,
                config.env_vars@[i].1@,
            ),
        r.extra_hosts@.len() == 1,
        r.extra_hosts@[0]@ == host_alias_mapping(),
        r.runtime is Some && r.runtime->Some_0@ == isolating_runtime(),
{
    let mut env: Vec<String> = Vec::new();
    let mut i: usize = 0;
    while i < config.env_vars.len()
        invariant
            i <= config.env_vars@.len(),
            env@.len() == i,
            forall|j: int|
                0 <= j < i ==> #[trigger] env@[j]@ == env_assignment(
                    config.env_vars@[j].0@,
                    config.env_vars@[j].1@,
                ),
        decreases config.env_vars@.len() - i,
    {
        let mut s = config.env_vars[i].0.clone();
        s.append("=");
        s.append(config.env_vars[i].1.as_str());
        env.push(s);
        i += 1;
    }
    let extra_hosts = vec![String::from_str("host.docker.internal:host-gateway")];
    let runtime = Some(String::from_str("sysbox-runc"));
    LaunchSpec { image: config.image, env, extra_hosts, runtime }
}

/// The result of a container run from its exit code: any nonzero code fails.
pub fn exit_status(code: i64) -> (r: Result<(), RuntimeError>)
    ensures
        code == 0 <==> r is Ok,
        code != 0 ==> r is Err && r->Err_0 == (RuntimeError::ContainerFailed { code }),
{
    if code == 0 {
        Ok(())
    } else {
        Err(RuntimeError::ContainerFailed { code })
    }
}

} // verus!
