//! Delegation of a task to an agent on another instance: what the operation
//! is called and takes, how a target is resolved into a call, and what the
//! caller is told when the call has ended.

use crate::discovery::texts;
use crate::json::{string_member, string_members};
use crate::peer::{agent_views, AgentInfo, AgentInfoView, PeerStateView};
use crate::registry::{all_agents, find_agent_in, PeerRegistry};
use crate::relay::{
    error_text, fresh_token, is_token_text, lemma_distinct_tokens_distinct_namespaces,
    namespace_text, relay_namespace, PeerClientError,
    PeerClientErrorView, RelayRequest, RelayRequestView, RelayResponse, RelayResponseView,
};
use crate::text::{find_char, first_index_of};
use vstd::prelude::*;

verus! {

/// Name under which the operation is offered.
pub const TOOL_NAME: &'static str = "delegate_to_remote_agent";

/// What the operation is for.
pub const TOOL_DESCRIPTION: &'static str =
    "Delegate a task to an agent on a remote federated herald instance. Use this when a remote agent is better suited for a task. The target can be specified as just the agent name (searched across all peers) or as 'peer:agent' for a specific instance.";

/// What the parameter `target` is for.
pub const TARGET_DESCRIPTION: &'static str =
    "Target agent. Can be 'agent_name' (search all peers) or 'peer:agent_name' (specific peer)";

/// What the parameter `task` is for.
pub const TASK_DESCRIPTION: &'static str = "The task or question to delegate to the remote agent";

/// Why the operation failed.
#[derive(Debug, PartialEq, Eq)]
pub enum ToolError {
    /// The input lacks a field; nothing was looked up or sent.
    InvalidInput(String),
    /// The target was not found, or the relay failed.
    ExecutionFailed(String),
}

/// The mathematical value of a `ToolError`.
pub enum ToolErrorView {
    InvalidInput(Seq<char>),
    ExecutionFailed(Seq<char>),
}

impl View for ToolError {
    type V = ToolErrorView;

    open spec fn view(&self) -> ToolErrorView {
        match self {
            ToolError::InvalidInput(text) => ToolErrorView::InvalidInput(text@),
            ToolError::ExecutionFailed(text) => ToolErrorView::ExecutionFailed(text@),
        }
    }
}

/// The sentence that reports `error`.
pub open spec fn tool_error_text(error: ToolErrorView) -> Seq<char> {
    match error {
        ToolErrorView::InvalidInput(text) => "invalid input: "@ + text,
        ToolErrorView::ExecutionFailed(text) => "execution failed: "@ + text,
    }
}

impl ToolError {
    /// The sentence that reports this error.
    pub fn describe(&self) -> (text: String)
        ensures
            text@ == tool_error_text(self@),
    {
        match self {
            ToolError::InvalidInput(detail) => {
                let mut text = "invalid input: ".to_owned();
                text.append(detail.as_str());
                text
            },
            ToolError::ExecutionFailed(detail) => {
                let mut text = "execution failed: ".to_owned();
                text.append(detail.as_str());
                text
            },
        }
    }
}

/// One field of the operation's input.
#[derive(Debug, PartialEq, Eq)]
pub struct ToolParameter {
    pub name: String,
    /// The JSON type of the field.
    pub kind: String,
    pub description: String,
}

/// How the operation presents itself: its name, its purpose, and the fields
/// of the object it takes.
#[derive(Debug, PartialEq, Eq)]
pub struct ToolDefinition {
    pub name: String,
    pub description: String,
    pub parameters: Vec<ToolParameter>,
    /// Names of the fields that must be present.
    pub required: Vec<String>,
}

/// The peer named in a target, where it names one: what stands before the
/// first colon.
pub open spec fn target_peer(target: Seq<char>) -> Option<Seq<char>> {
    let i = first_index_of(target, ':');
    if i < target.len() {
        Some(target.take(i))
    } else {
        None
    }
}

/// The agent named in a target: what stands after the first colon, or the
/// whole target where it has no colon.
pub open spec fn target_agent(target: Seq<char>) -> Seq<char> {
    let i = first_index_of(target, ':');
    if i < target.len() {
        target.skip(i + 1)
    } else {
        target
    }
}

/// The characters of an optional string.
pub open spec fn opt_string_text(s: Option<String>) -> Option<Seq<char>> {
    match s {
        Some(t) => Some(t@),
        None => None,
    }
}

/// Splits a target at its first colon into peer and agent; a target without
/// a colon names an agent only.
pub fn parse_target(target: &str) -> (parts: (Option<String>, String))
    ensures
        opt_string_text(parts.0) == target_peer(target@),
        parts.1@ == target_agent(target@),
{
    match find_char(target, ':') {
        Some(i) => {
            let n = target.unicode_len();
            let peer = target.substring_char(0, i).to_owned();
            let agent = target.substring_char(i + 1, n).to_owned();
            (Some(peer), agent)
        },
        None => (None, target.to_owned()),
    }
}

/// How an agent is listed to the caller: instance, colon, agent.
pub open spec fn agent_label(agent: AgentInfoView) -> Seq<char> {
    agent.instance + ":"@ + agent.name
}

/// The labels of `agents`, separated by a comma and a space.
pub open spec fn joined_labels(agents: Seq<AgentInfoView>) -> Seq<char>
    decreases agents.len(),
{
    if agents.len() == 0 {
        Seq::empty()
    } else if agents.len() == 1 {
        agent_label(agents[0])
    } else {
        joined_labels(agents.drop_last()) + ", "@ + agent_label(agents.last())
    }
}

/// What the caller is told when `target` resolves to no agent: the agents
/// that could have been named, or "none".
pub open spec fn not_found_text(target: Seq<char>, agents: Seq<AgentInfoView>) -> Seq<char> {
    "remote agent '"@ + target + "' not found. Available remote agents: "@ + if joined_labels(
        agents,
    ).len() == 0 {
        "none"@
    } else {
        joined_labels(agents)
    }
}

/// What the caller is told when the relay to `target` failed for `cause`.
pub open spec fn relay_failure_text(target: AgentInfoView, cause: Seq<char>) -> Seq<char> {
    "relay to remote agent '"@ + target.name + "' on '"@ + target.instance + "' failed: "@ + cause
}

/// What the caller is told when the remote agent answered: who answered,
/// an empty line, and the answer as it came.
pub open spec fn reply_text(response: RelayResponseView) -> Seq<char> {
    "[Remote agent '"@ + response.agent + "' on '"@ + response.instance + "' responded]\n\n"@
        + response.message
}

/// The labels of `agents`, separated by a comma and a space.
pub fn agent_labels(agents: &Vec<AgentInfo>) -> (text: String)
    ensures
        text@ == joined_labels(agent_views(agents@)),
{
    let mut text = String::new();
    let mut i: usize = 0;
    assert(agent_views(agents@).take(0) =~= Seq::<AgentInfoView>::empty());
    while i < agents.len()
        invariant
            i <= agents.len(),
            text@ == joined_labels(agent_views(agents@).take(i as int)),
        decreases agents.len() - i,
    {
        let ghost before = text@;
        if i > 0 {
            text.append(", ");
        }
        text.append(agents[i].instance.as_str());
        text.append(":");
        text.append(agents[i].name.as_str());
        proof {
            let upto = agent_views(agents@).take(i + 1);
            assert(upto.drop_last() =~= agent_views(agents@).take(i as int));
            assert(upto.last() == agents@[i as int]@);
            if i == 0 {
                assert(before =~= Seq::<char>::empty());
                assert(text@ =~= agent_label(upto[0]));
            } else {
                assert(text@ =~= before + ", "@ + agent_label(upto.last()));
            }
        }
        i = i + 1;
    }
    assert(agent_views(agents@).take(i as int) =~= agent_views(agents@));
    text
}

/// What the caller is told when `target` resolves to no agent.
pub fn not_found_message(target: &str, agents: &Vec<AgentInfo>) -> (text: String)
    ensures
        text@ == not_found_text(target@, agent_views(agents@)),
{
    let available = agent_labels(agents);
    let mut text = "remote agent '".to_owned();
    text.append(target);
    text.append("' not found. Available remote agents: ");
    if available.as_str().is_empty() {
        text.append("none");
    } else {
        text.append(available.as_str());
    }
    text
}

/// A relay that is ready to be sent: where to, with which credential, to
/// which agent, and the request itself.
#[derive(Debug, PartialEq, Eq)]
pub struct RelayCall {
    pub url: String,
    pub shared_secret: String,
    pub target: AgentInfo,
    pub request: RelayRequest,
}

/// The mathematical value of a `RelayCall`.
pub struct RelayCallView {
    pub url: Seq<char>,
    pub shared_secret: Seq<char>,
    pub target: AgentInfoView,
    pub request: RelayRequestView,
}

impl View for RelayCall {
    type V = RelayCallView;

    open spec fn view(&self) -> RelayCallView {
        RelayCallView {
            url: self.url@,
            shared_secret: self.shared_secret@,
            target: self.target@,
            request: self.request@,
        }
    }
}

/// The fields of the operation's input: `target` and `task`, both of which
/// must be present as strings. A missing `target` comes first.
pub open spec fn input_fields(members: Map<Seq<char>, Seq<char>>) -> Result<
    (Seq<char>, Seq<char>),
    ToolErrorView,
> {
    if !members.contains_key("target"@) {
        Err(ToolErrorView::InvalidInput("missing 'target'"@))
    } else if !members.contains_key("task"@) {
        Err(ToolErrorView::InvalidInput("missing 'task'"@))
    } else {
        Ok((members["target"@], members["task"@]))
    }
}

/// Reads `target` and `task` from the operation's input.
pub fn read_input(input: &serde_json::Value) -> (fields: Result<(String, String), ToolError>)
    ensures
        match fields {
            Ok(f) => input_fields(string_members(*input)) == Ok::<_, ToolErrorView>((f.0@, f.1@)),
            Err(e) => input_fields(string_members(*input)) == Err::<(Seq<char>, Seq<char>), _>(e@),
        },
{
    let target = match string_member(input, "target") {
        Some(t) => t,
        None => {
            return Err(ToolError::InvalidInput("missing 'target'".to_owned()));
        },
    };
    let task = match string_member(input, "task") {
        Some(t) => t,
        None => {
            return Err(ToolError::InvalidInput("missing 'task'".to_owned()));
        },
    };
    Ok((target, task))
}

/// The operation "delegate to remote agent", as held by one agent of one
/// instance.
pub struct DelegateToRemoteAgentTool {
    /// The peers among which targets are resolved.
    registry: PeerRegistry,
    /// Name of this instance; the source peer of every relay.
    instance_name: String,
    /// Name of the agent that owns the operation; the source agent of every
    /// relay.
    self_agent: String,
}

/// The mathematical value of a `DelegateToRemoteAgentTool`.
pub struct DelegationView {
    pub peers: Seq<PeerStateView>,
    pub instance_name: Seq<char>,
    pub self_agent: Seq<char>,
}

impl View for DelegateToRemoteAgentTool {
    type V = DelegationView;

    closed spec fn view(&self) -> DelegationView {
        DelegationView {
            peers: self.registry@,
            instance_name: self.instance_name@,
            self_agent: self.self_agent@,
        }
    }
}

/// The request that asks `agent` to do `task` on behalf of `tool`, told
/// from other relays by `token`.
pub open spec fn request_for(
    tool: DelegationView,
    agent: AgentInfoView,
    task: Seq<char>,
    token: Seq<char>,
) -> RelayRequestView {
    RelayRequestView {
        agent: agent.name,
        message: task,
        source_peer: tool.instance_name,
        source_agent: Some(tool.self_agent),
        namespace: namespace_text(tool.instance_name, token),
    }
}

/// What a delegation to `target` comes to: the call to make where the
/// target resolves to an agent, else the failure that lists the agents
/// known.
pub open spec fn planned_call(
    tool: DelegationView,
    target: Seq<char>,
    task: Seq<char>,
    token: Seq<char>,
) -> Result<RelayCallView, ToolErrorView> {
    match find_agent_in(tool.peers, target_peer(target), target_agent(target)) {
        Some(hit) => Ok(
            RelayCallView {
                url: hit.0,
                shared_secret: hit.1,
                target: hit.2,
                request: request_for(tool, hit.2, task, token),
            },
        ),
        None => Err(ToolErrorView::ExecutionFailed(not_found_text(target, all_agents(tool.peers)))),
    }
}

/// The value of a planned call or of the failure to plan one.
pub open spec fn call_view(call: Result<RelayCall, ToolError>) -> Result<
    RelayCallView,
    ToolErrorView,
> {
    match call {
        Ok(c) => Ok(c@),
        Err(e) => Err(e@),
    }
}

/// What the caller gets once the relay to `target` has ended: the reply with
/// its origin, or the failure with the target and the cause.
pub open spec fn completed(
    target: AgentInfoView,
    outcome: Result<RelayResponseView, PeerClientErrorView>,
) -> Result<Seq<char>, ToolErrorView> {
    match outcome {
        Ok(response) => Ok(reply_text(response)),
        Err(error) => Err(
            ToolErrorView::ExecutionFailed(relay_failure_text(target, error_text(error))),
        ),
    }
}

/// The value of how a relay ended.
pub open spec fn outcome_view(outcome: Result<RelayResponse, PeerClientError>) -> Result<
    RelayResponseView,
    PeerClientErrorView,
> {
    match outcome {
        Ok(r) => Ok(r@),
        Err(e) => Err(e@),
    }
}

/// The value of what the caller gets.
pub open spec fn answer_view(answer: Result<String, ToolError>) -> Result<Seq<char>, ToolErrorView> {
    match answer {
        Ok(text) => Ok(text@),
        Err(e) => Err(e@),
    }
}

impl DelegateToRemoteAgentTool {
    /// The operation for the agent `self_agent` of the instance
    /// `instance_name`, resolving targets among the peers of `registry`.
    pub fn new(registry: PeerRegistry, instance_name: String, self_agent: String) -> (tool: Self)
        ensures
            tool@ == (DelegationView {
                peers: registry@,
                instance_name: instance_name@,
                self_agent: self_agent@,
            }),
    {
        DelegateToRemoteAgentTool { registry, instance_name, self_agent }
    }

    /// The peers among which targets are resolved.
    pub fn registry(&self) -> (registry: &PeerRegistry)
        ensures
            registry@ == self@.peers,
    {
        &self.registry
    }

    /// Name of this instance.
    pub fn instance_name(&self) -> (name: &str)
        ensures
            name@ == self@.instance_name,
    {
        self.instance_name.as_str()
    }

    /// Name of the agent that owns the operation.
    pub fn self_agent(&self) -> (name: &str)
        ensures
            name@ == self@.self_agent,
    {
        self.self_agent.as_str()
    }

    /// How the operation presents itself: an object of two string fields,
    /// `target` and `task`, both required.
    pub fn definition(&self) -> (definition: ToolDefinition)
        ensures
            definition.name@ == TOOL_NAME@,
            definition.description@ == TOOL_DESCRIPTION@,
            definition.parameters@.len() == 2,
            definition.parameters@[0].name@ == "target"@,
            definition.parameters@[0].kind@ == "string"@,
            definition.parameters@[0].description@ == TARGET_DESCRIPTION@,
            definition.parameters@[1].name@ == "task"@,
            definition.parameters@[1].kind@ == "string"@,
            definition.parameters@[1].description@ == TASK_DESCRIPTION@,
            texts(definition.required@) == seq!["target"@, "task"@],
    {
        let mut parameters: Vec<ToolParameter> = Vec::new();
        parameters.push(
            ToolParameter {
                name: "target".to_owned(),
                kind: "string".to_owned(),
                description: TARGET_DESCRIPTION.to_owned(),
            },
        );
        parameters.push(
            ToolParameter {
                name: "task".to_owned(),
                kind: "string".to_owned(),
                description: TASK_DESCRIPTION.to_owned(),
            },
        );
        let mut required: Vec<String> = Vec::new();
        required.push("target".to_owned());
        required.push("task".to_owned());
        assert(texts(required@) =~= seq!["target"@, "task"@]);
        ToolDefinition {
            name: TOOL_NAME.to_owned(),
            description: TOOL_DESCRIPTION.to_owned(),
            parameters,
            required,
        }
    }

    /// Resolves `target` and builds the relay that asks the agent found to
    /// do `task`, with `token` as the random part of its namespace.
    pub fn plan(&self, target: &str, task: &str, token: &str) -> (call: Result<
        RelayCall,
        ToolError,
    >)
        ensures
            call_view(call) == planned_call(self@, target@, task@, token@),
    {
        let (peer, agent_name) = parse_target(target);
        let peer_name: Option<&str> = match &peer {
            Some(p) => Some(p.as_str()),
            None => None,
        };
        match self.registry.find_agent(peer_name, agent_name.as_str()) {
            Some((url, shared_secret, info)) => {
                let request = RelayRequest {
                    agent: info.name.clone(),
                    message: task.to_owned(),
                    source_peer: self.instance_name.clone(),
                    source_agent: Some(self.self_agent.clone()),
                    namespace: relay_namespace(self.instance_name.as_str(), token),
                };
                Ok(RelayCall { url, shared_secret, target: info, request })
            },
            None => {
                let agents = self.registry.remote_agents();
                Err(ToolError::ExecutionFailed(not_found_message(target, &agents)))
            },
        }
    }

    /// Takes the operation's input up to the point where the relay is to be
    /// sent: reads `target` and `task`, resolves the target and builds the
    /// request under a fresh random token. Input that lacks a field is
    /// refused before anything is looked up.
    pub fn prepare(&self, input: &serde_json::Value) -> (call: Result<RelayCall, ToolError>)
        ensures
            match input_fields(string_members(*input)) {
                Ok(fields) => exists|token: Seq<char>|
                    is_token_text(token) && call_view(call) == #[trigger] planned_call(
                        self@,
                        fields.0,
                        fields.1,
                        token,
                    ),
                Err(error) => call_view(call) == Err::<RelayCallView, _>(error),
            },
    {
        match read_input(input) {
            Ok((target, task)) => {
                let token = fresh_token();
                let call = self.plan(target.as_str(), task.as_str(), token.as_str());
                proof {
                    let fields = input_fields(string_members(*input))->Ok_0;
                    assert(call_view(call) == planned_call(self@, fields.0, fields.1, token@));
                }
                call
            },
            Err(error) => Err(error),
        }
    }

    /// Turns the end of the relay to `target` into what the caller gets.
    pub fn complete(&self, target: &AgentInfo, outcome: Result<RelayResponse, PeerClientError>) -> (answer:
        Result<String, ToolError>)
        ensures
            answer_view(answer) == completed(target@, outcome_view(outcome)),
    {
        match outcome {
            Ok(response) => {
                let mut text = "[Remote agent '".to_owned();
                text.append(response.agent.as_str());
                text.append("' on '");
                text.append(response.instance.as_str());
                text.append("' responded]\n\n");
                text.append(response.message.as_str());
                Ok(text)
            },
            Err(error) => {
                let cause = error.describe();
                let mut text = "relay to remote agent '".to_owned();
                text.append(target.name.as_str());
                text.append("' on '");
                text.append(target.instance.as_str());
                text.append("' failed: ");
                text.append(cause.as_str());
                Err(ToolError::ExecutionFailed(text))
            },
        }
    }
}

/// Two relays that one holder of the operation plans with different random
/// parts bear different namespaces, even for the same target and task.
pub proof fn lemma_relays_differ_by_token(
    tool: DelegationView,
    target: Seq<char>,
    task: Seq<char>,
    token1: Seq<char>,
    token2: Seq<char>,
)
    requires
        token1 != token2,
        planned_call(tool, target, task, token1) is Ok,
    ensures
        planned_call(tool, target, task, token2) is Ok,
        planned_call(tool, target, task, token1)->Ok_0.request.namespace != planned_call(
            tool,
            target,
            task,
            token2,
        )->Ok_0.request.namespace,
{
    lemma_distinct_tokens_distinct_namespaces(tool.instance_name, token1, token2);
}

} // verus!
