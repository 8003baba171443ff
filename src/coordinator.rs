use vstd::prelude::*;

use crate::config::LLMRouterTable;
use crate::keys::{base64_url_of, random_key};
use crate::outcome::TaskOutcome;
use crate::runtime::ContainerConfig;
use crate::text::{decimal_spec, decimal_text};

verus! {

/// The stages of a run, in the order they are passed.
#[derive(Clone, Copy, Debug, PartialEq, Eq, Structural)]
pub enum Phase {
    Init,
    BranchForked,
    ServicesStarted,
    AwaitingOutcome,
    Merging,
    Aborting,
    Done,
}

/// The first decisive thing seen while the server and the container run side
/// by side.
pub enum JoinEvent {
    /// The agent reported how the task ended.
    Outcome(TaskOutcome),
    /// The container exited, with this code, before any outcome was reported.
    ContainerExited(i64),
}

/// What the coordinator does after the decisive event.
#[derive(Clone, Copy, Debug, PartialEq, Eq, Structural)]
pub enum RunPath {
    /// Apply the fork branch's changes to the base branch.
    Merge,
    /// Leave the base branch alone.
    Abort,
    /// Leave the base branch alone; the run fails with the container's code.
    ContainerFailed(i64),
}

/// What happened that moves a run on.
pub enum RunEvent {
    /// The fork branch was created.
    BranchForked,
    /// The control-plane server and the inquiry loop answer.
    ServicesReady,
    /// The container was started.
    ContainerStarted,
    /// The first decisive event of the run.
    Decided(JoinEvent),
    /// The merge step, if any, is over and the inquiry loop has stopped.
    WrappedUp,
}

/// The path that the first decisive event selects: only a reported completion
/// leads to a merge; a container that exits first, with whatever code, means
/// no outcome exists.
pub open spec fn decide_spec(e: JoinEvent) -> RunPath {
    match e {
        JoinEvent::Outcome(TaskOutcome::Completed(_)) => RunPath::Merge,
        JoinEvent::Outcome(TaskOutcome::Failed(_)) => RunPath::Abort,
        JoinEvent::ContainerExited(code) => if code == 0 {
            RunPath::Abort
        } else {
            RunPath::ContainerFailed(code)
        },
    }
}

/// The phase after `e` in phase `p`, or `None` where `e` cannot happen in `p`.
pub open spec fn step_spec(p: Phase, e: RunEvent) -> Option<Phase> {
    match (p, e) {
        (Phase::Init, RunEvent::BranchForked) => Some(Phase::BranchForked),
        (Phase::BranchForked, RunEvent::ServicesReady) => Some(Phase::ServicesStarted),
        (Phase::ServicesStarted, RunEvent::ContainerStarted) => Some(Phase::AwaitingOutcome),
        (Phase::AwaitingOutcome, RunEvent::Decided(j)) => if decide_spec(j) == RunPath::Merge {
            Some(Phase::Merging)
        } else {
            Some(Phase::Aborting)
        },
        (Phase::Merging, RunEvent::WrappedUp) => Some(Phase::Done),
        (Phase::Aborting, RunEvent::WrappedUp) => Some(Phase::Done),
        _ => None,
    }
}

/// The path that the first decisive event of a run selects.
pub fn decide(e: &JoinEvent) -> (r: RunPath)
    ensures
        r == decide_spec(*e),
{
    match e {
        JoinEvent::Outcome(TaskOutcome::Completed(_)) => RunPath::Merge,
        JoinEvent::Outcome(TaskOutcome::Failed(_)) => RunPath::Abort,
        JoinEvent::ContainerExited(code) => if *code == 0 {
            RunPath::Abort
        } else {
            RunPath::ContainerFailed(*code)
        },
    }
}

impl Phase {
    /// The phase after `e`, or `None` where `e` cannot happen now.
    pub fn step(self, e: &RunEvent) -> (r: Option<Phase>)
        ensures
            r == step_spec(self, *e),
    {
        match (self, e) {
            (Phase::Init, RunEvent::BranchForked) => Some(Phase::BranchForked),
            (Phase::BranchForked, RunEvent::ServicesReady) => Some(Phase::ServicesStarted),
            (Phase::ServicesStarted, RunEvent::ContainerStarted) => Some(Phase::AwaitingOutcome),
            (Phase::AwaitingOutcome, RunEvent::Decided(j)) => if decide(j) == RunPath::Merge {
                Some(Phase::Merging)
            } else {
                Some(Phase::Aborting)
            },
            (Phase::Merging, RunEvent::WrappedUp) => Some(Phase::Done),
            (Phase::Aborting, RunEvent::WrappedUp) => Some(Phase::Done),
            _ => None,
        }
    }
}

/// A run reaches the merge step only from the wait for an outcome, and only
/// through a reported completion.
pub proof fn lemma_merge_needs_completion(p: Phase, e: RunEvent)
    ensures
        step_spec(p, e) == Some(Phase::Merging) ==> p == Phase::AwaitingOutcome && (e matches RunEvent::Decided(JoinEvent::Outcome(TaskOutcome::Completed(_)))),
{
}

/// A container that exits cleanly before any outcome is reported aborts the
/// run without a merge, as any other exit before an outcome does.
pub proof fn lemma_exit_without_outcome_aborts(code: i64)
    ensures
        decide_spec(JoinEvent::ContainerExited(code)) != RunPath::Merge,
        step_spec(Phase::AwaitingOutcome, RunEvent::Decided(JoinEvent::ContainerExited(code)))
            == Some(Phase::Aborting),
{
}

/// The alias under which containers reach the host.
pub open spec fn container_host() -> Seq<char> {
    "host.docker.internal"@
}

/// The addresses of the control-plane server.
pub struct AgentEndpoints {
    /// The repository URL as seen from the container.
    pub git_repo_url: String,
    /// The API base URL as seen from the container.
    pub api_base_url: String,
    /// The server's base URL as seen from the host.
    pub host_base_url: String,
}

/// `http://<host>:<port>` followed by `path`.
pub open spec fn http_url(host: Seq<char>, port: u16, path: Seq<char>) -> Seq<char> {
    "http://"@ + host + ":"@ + decimal_spec(port as nat) + path
}

fn http_url_of(host: &str, port: u16, path: &str) -> (r: String)
    ensures
        r@ == http_url(host@, port, path@),
{
    let mut s = String::from_str("http://");
    s.append(host);
    s.append(":");
    let digits = decimal_text(port);
    s.append(digits.as_str());
    s.append(path);
    s
}

/// The server's addresses when it listens on `host`, port `port`.
pub fn agent_endpoints(host: &str, port: u16) -> (r: AgentEndpoints)
    ensures
        r.git_repo_url@ == http_url(container_host(), port, "/api/agent/git"@),
        r.api_base_url@ == http_url(container_host(), port, "/api/"@),
        r.host_base_url@ == http_url(host@, port, Seq::empty()),
{
    let git_repo_url = http_url_of("host.docker.internal", port, "/api/agent/git");
    let api_base_url = http_url_of("host.docker.internal", port, "/api/");
    proof {
        reveal_strlit("");
    }
    let host_base_url = http_url_of(host, port, "");
    assert(host_base_url@ =~= http_url(host@, port, Seq::empty()));
    AgentEndpoints { git_repo_url, api_base_url, host_base_url }
}

/// A position of the hyphenated form of a UUID that holds a hyphen.
pub open spec fn is_uuid_hyphen_position(i: int) -> bool {
    i == 8 || i == 13 || i == 18 || i == 23
}

/// A lowercase hexadecimal digit.
pub open spec fn is_lower_hex(c: char) -> bool {
    ('0' <= c && c <= '9') || ('a' <= c && c <= 'f')
}

/// Relies on uuid's Uuid::now_v7, a time-ordered identifier, whose `Display`
/// form is the lowercase hyphenated one: 36 characters, hyphens at 8, 13, 18
/// and 23, lowercase hex digits elsewhere.
#[verifier::external_body]
fn time_ordered_id() -> (r: String)
    ensures
        r@.len() == 36,
        forall|i: int|
            0 <= i < 36 ==> if is_uuid_hyphen_position(i) {
                r@[i] == '-'
            } else {
                is_lower_hex(r@[i])
            },
{
    uuid::Uuid::now_v7().to_string()
}

/// The identifiers that a run draws afresh.
pub struct RunIdentifiers {
    /// The name of the fork branch: a time-ordered unique identifier.
    pub fork_branch: String,
    /// The bearer credential of the agent.
    pub agent_api_key: String,
}

/// Fresh identifiers for a run.
pub fn fresh_identifiers() -> (r: RunIdentifiers)
    ensures
        r.fork_branch@.len() == 36,
        forall|i: int|
            0 <= i < 36 ==> if is_uuid_hyphen_position(i) {
                r.fork_branch@[i] == '-'
            } else {
                is_lower_hex(r.fork_branch@[i])
            },
        r.agent_api_key@.len() == 43,
        exists|b: Seq<u8>| b.len() == 32 && r.agent_api_key@ == base64_url_of(b),
{
    RunIdentifiers { fork_branch: time_ordered_id(), agent_api_key: random_key() }
}

/// The image the agent runs in when no container file is given.
pub open spec fn default_agent_image() -> Seq<char> {
    "ghcr.io/autominion/default-minion:x86-64-latest"@
}

/// The default agent image.
pub fn default_image() -> (r: String)
    ensures
        r@ == default_agent_image(),
{
    String::from_str("ghcr.io/autominion/default-minion:x86-64-latest")
}

/// The name of the variable that carries the API base URL into the container.
pub open spec fn api_base_url_var() -> Seq<char> {
    "MINION_API_BASE_URL"@
}

/// The name of the variable that carries the bearer credential into the container.
pub open spec fn api_token_var() -> Seq<char> {
    "MINION_API_TOKEN"@
}

/// The agent's container: `image`, with the server's base URL and the bearer
/// credential in its environment, in that order.
pub fn agent_container(image: String, api_base_url: String, agent_api_key: String) -> (r:
    ContainerConfig)
    ensures
        r.image == image,
        r.env_vars@.len() == 2,
        r.env_vars@[0].0@ == api_base_url_var(),
        r.env_vars@[0].1 == api_base_url,
        r.env_vars@[1].0@ == api_token_var(),
        r.env_vars@[1].1 == agent_api_key,
{
    let env_vars = vec![
        (String::from_str("MINION_API_BASE_URL"), api_base_url),
        (String::from_str("MINION_API_TOKEN"), agent_api_key),
    ];
    ContainerConfig { image, env_vars }
}

/// What the control-plane server knows of a run. It does not change once built.
pub struct RunContext {
    pub llm_router_table: LLMRouterTable,
    pub agent_api_key: String,
    pub task_description: String,
    pub git_user_name: String,
    pub git_user_email: String,
    pub git_repo_url: String,
    pub git_branch: String,
    pub git_repo_path: String,
}

/// The git identity the agent commits under.
pub open spec fn bot_user_name() -> Seq<char> {
    "minion[bot]"@
}

/// The git e-mail the agent commits under.
pub open spec fn bot_user_email() -> Seq<char> {
    "minion@localhost"@
}

impl RunContext {
    /// The context of a run on the repository at `git_repo_path`, working on
    /// branch `git_branch`, with the bot's git identity.
    pub fn new(
        llm_router_table: LLMRouterTable,
        agent_api_key: String,
        task_description: String,
        git_repo_url: String,
        git_branch: String,
        git_repo_path: String,
    ) -> (r: RunContext)
        ensures
            r.llm_router_table == llm_router_table,
            r.agent_api_key == agent_api_key,
            r.task_description == task_description,
            r.git_user_name@ == bot_user_name(),
            r.git_user_email@ == bot_user_email(),
            r.git_repo_url == git_repo_url,
            r.git_branch == git_branch,
            r.git_repo_path == git_repo_path,
    {
        RunContext {
            llm_router_table,
            agent_api_key,
            task_description,
            git_user_name: String::from_str("minion[bot]"),
            git_user_email: String::from_str("minion@localhost"),
            git_repo_url,
            git_branch,
            git_repo_path,
        }
    }
}

/// The state of the task as the agent sees it.
#[derive(Clone, Copy, Debug, PartialEq, Eq, Structural)]
pub enum TaskStatus {
    Running,
}

/// The answer to the agent's question for its task.
pub struct TaskInfo {
    pub status: TaskStatus,
    pub description: String,
    pub git_user_name: String,
    pub git_user_email: String,
    pub git_repo_url: String,
    pub git_branch: String,
}

/// The task as the agent sees it while it works on it.
pub fn task_info(ctx: &RunContext) -> (r: TaskInfo)
    ensures
        r.status == TaskStatus::Running,
        r.description@ == ctx.task_description@,
        r.git_user_name@ == ctx.git_user_name@,
        r.git_user_email@ == ctx.git_user_email@,
        r.git_repo_url@ == ctx.git_repo_url@,
        r.git_branch@ == ctx.git_branch@,
{
    TaskInfo {
        status: TaskStatus::Running,
        description: ctx.task_description.clone(),
        git_user_name: ctx.git_user_name.clone(),
        git_user_email: ctx.git_user_email.clone(),
        git_repo_url: ctx.git_repo_url.clone(),
        git_branch: ctx.git_branch.clone(),
    }
}

/// The `Authorization` header value that carries `key`.
pub open spec fn bearer_header(key: Seq<char>) -> Seq<char> {
    "Bearer "@ + key
}

/// Whether a request's `Authorization` header carries the agent's credential.
pub fn is_authorized(header: Option<&str>, agent_api_key: &String) -> (r: bool)
    ensures
        r == (header is Some && header->Some_0@ == bearer_header(agent_api_key@)),
{
    match header {
        Some(h) => {
            let mut expected = String::from_str("Bearer ");
            expected.append(agent_api_key.as_str());
            String::from_str(h) == expected
        },
        None => false,
    }
}

/// How many times the server's readiness is probed before the run gives up.
pub const READINESS_ATTEMPTS: u32 = 50;

/// The pause between two readiness probes, in milliseconds.
pub const READINESS_BACKOFF_MS: u64 = 100;

/// Whether the server is probed again after `failed_probes` unanswered ones.
pub fn probe_again(failed_probes: u32) -> (r: bool)
    ensures
        r == (failed_probes < READINESS_ATTEMPTS),
{
    failed_probes < READINESS_ATTEMPTS
}

} // verus!
