//! A task relayed to an agent on another instance: the request, the reply,
//! the ways the call can fail, and the namespace that tells one relay from
//! another.

use vstd::prelude::*;

verus! {

/// A task delegated to a remote agent.
#[derive(Debug, PartialEq, Eq)]
pub struct RelayRequest {
    /// Name of the agent that is to answer.
    pub agent: String,
    /// The task, as the caller wrote it.
    pub message: String,
    /// The instance that sends the request.
    pub source_peer: String,
    /// The agent on whose behalf it is sent.
    pub source_agent: Option<String>,
    /// Fresh for every relay; see `namespace_text`.
    pub namespace: String,
}

/// The mathematical value of a `RelayRequest`.
pub struct RelayRequestView {
    pub agent: Seq<char>,
    pub message: Seq<char>,
    pub source_peer: Seq<char>,
    pub source_agent: Option<Seq<char>>,
    pub namespace: Seq<char>,
}

impl View for RelayRequest {
    type V = RelayRequestView;

    open spec fn view(&self) -> RelayRequestView {
        RelayRequestView {
            agent: self.agent@,
            message: self.message@,
            source_peer: self.source_peer@,
            source_agent: match self.source_agent {
                Some(a) => Some(a@),
                None => None,
            },
            namespace: self.namespace@,
        }
    }
}

impl Clone for RelayRequest {
    fn clone(&self) -> (res: Self)
        ensures
            res@ == self@,
    {
        RelayRequest {
            agent: self.agent.clone(),
            message: self.message.clone(),
            source_peer: self.source_peer.clone(),
            source_agent: match &self.source_agent {
                Some(a) => Some(a.clone()),
                None => None,
            },
            namespace: self.namespace.clone(),
        }
    }
}

/// The remote agent's reply, with the agent and instance that produced it.
#[derive(Debug, PartialEq, Eq)]
pub struct RelayResponse {
    pub agent: String,
    pub instance: String,
    pub message: String,
}

/// The mathematical value of a `RelayResponse`.
pub struct RelayResponseView {
    pub agent: Seq<char>,
    pub instance: Seq<char>,
    pub message: Seq<char>,
}

impl View for RelayResponse {
    type V = RelayResponseView;

    open spec fn view(&self) -> RelayResponseView {
        RelayResponseView {
            agent: self.agent@,
            instance: self.instance@,
            message: self.message@,
        }
    }
}

impl Clone for RelayResponse {
    fn clone(&self) -> (res: Self)
        ensures
            res@ == self@,
    {
        RelayResponse {
            agent: self.agent.clone(),
            instance: self.instance.clone(),
            message: self.message.clone(),
        }
    }
}

/// Why a call to a peer failed.
#[derive(Debug, PartialEq, Eq)]
pub enum PeerClientError {
    /// The peer could not be reached; the text says how the attempt ended.
    PeerUnreachable(String),
    /// The peer rejected the shared secret.
    AuthRejected,
    /// The peer answered with something that is no valid reply.
    MalformedResponse(String),
    /// The peer knows no agent of the name asked for.
    AgentNotFound(String),
}

/// The mathematical value of a `PeerClientError`.
pub enum PeerClientErrorView {
    PeerUnreachable(Seq<char>),
    AuthRejected,
    MalformedResponse(Seq<char>),
    AgentNotFound(Seq<char>),
}

impl View for PeerClientError {
    type V = PeerClientErrorView;

    open spec fn view(&self) -> PeerClientErrorView {
        match self {
            PeerClientError::PeerUnreachable(detail) => PeerClientErrorView::PeerUnreachable(
                detail@,
            ),
            PeerClientError::AuthRejected => PeerClientErrorView::AuthRejected,
            PeerClientError::MalformedResponse(detail) => PeerClientErrorView::MalformedResponse(
                detail@,
            ),
            PeerClientError::AgentNotFound(agent) => PeerClientErrorView::AgentNotFound(agent@),
        }
    }
}

/// The sentence that reports `error`.
pub open spec fn error_text(error: PeerClientErrorView) -> Seq<char> {
    match error {
        PeerClientErrorView::PeerUnreachable(detail) => "peer unreachable: "@ + detail,
        PeerClientErrorView::AuthRejected => "shared secret rejected by peer"@,
        PeerClientErrorView::MalformedResponse(detail) => "malformed response: "@ + detail,
        PeerClientErrorView::AgentNotFound(agent) => "agent '"@ + agent + "' not found on peer"@,
    }
}

impl PeerClientError {
    /// The sentence that reports this error.
    pub fn describe(&self) -> (text: String)
        ensures
            text@ == error_text(self@),
    {
        match self {
            PeerClientError::PeerUnreachable(detail) => {
                let mut text = "peer unreachable: ".to_owned();
                text.append(detail.as_str());
                text
            },
            PeerClientError::AuthRejected => "shared secret rejected by peer".to_owned(),
            PeerClientError::MalformedResponse(detail) => {
                let mut text = "malformed response: ".to_owned();
                text.append(detail.as_str());
                text
            },
            PeerClientError::AgentNotFound(agent) => {
                let mut text = "agent '".to_owned();
                text.append(agent.as_str());
                text.append("' not found on peer");
                text
            },
        }
    }
}

/// A lower-case hexadecimal digit.
pub open spec fn is_lower_hex(c: char) -> bool {
    ('0' <= c && c <= '9') || ('a' <= c && c <= 'f')
}

/// The text of a random identifier: thirty-two lower-case hexadecimal digits
/// in groups of 8, 4, 4, 4 and 12, with a hyphen between groups, and the
/// digit 4 opening the third group.
pub open spec fn is_token_text(t: Seq<char>) -> bool {
    &&& t.len() == 36
    &&& t[14] == '4'
    &&& forall|i: int|
        0 <= i < 36 ==> if i == 8 || i == 13 || i == 18 || i == 23 {
            #[trigger] t[i] == '-'
        } else {
            is_lower_hex(t[i])
        }
}

/// A fresh random token. Calls `uuid::Uuid::new_v4` and renders the result
/// with its `Display`, which writes the hyphenated lower-case form. Nothing
/// is claimed about which identifier comes back, only about its shape. The
/// call panics if the system's random source fails.
#[verifier::external_body]
pub(crate) fn fresh_token() -> (token: String)
    ensures
        is_token_text(token@),
{
    uuid::Uuid::new_v4().to_string()
}

/// The namespace of a relay sent by `instance` with the random part `token`.
pub open spec fn namespace_text(instance: Seq<char>, token: Seq<char>) -> Seq<char> {
    "federation:"@ + instance + ":"@ + token
}

/// The namespace of a relay sent by `instance` with the random part `token`.
pub fn relay_namespace(instance: &str, token: &str) -> (namespace: String)
    ensures
        namespace@ == namespace_text(instance@, token@),
{
    let mut namespace = "federation:".to_owned();
    namespace.append(instance);
    namespace.append(":");
    namespace.append(token);
    namespace
}

/// Two namespaces whose random parts have the same length, as any two tokens
/// of `is_token_text` have, are equal only if instance and random part are.
pub proof fn lemma_namespace_injective(
    instance1: Seq<char>,
    token1: Seq<char>,
    instance2: Seq<char>,
    token2: Seq<char>,
)
    requires
        token1.len() == token2.len(),
        namespace_text(instance1, token1) == namespace_text(instance2, token2),
    ensures
        instance1 == instance2,
        token1 == token2,
{
    let head = "federation:"@;
    let colon = ":"@;
    let a = namespace_text(instance1, token1);
    let b = namespace_text(instance2, token2);
    assert(a.len() == head.len() + instance1.len() + colon.len() + token1.len());
    assert(b.len() == head.len() + instance2.len() + colon.len() + token2.len());
    let n = instance1.len() as int;
    let from = head.len() as int;
    assert(a.subrange(from, from + n) =~= instance1);
    assert(b.subrange(from, from + n) =~= instance2);
    let rest = from + n + colon.len();
    assert(a.subrange(rest, a.len() as int) =~= token1);
    assert(b.subrange(rest, b.len() as int) =~= token2);
}

/// Relays sent by one instance with different random parts bear different
/// namespaces, whatever else the two requests share.
pub proof fn lemma_distinct_tokens_distinct_namespaces(
    instance: Seq<char>,
    token1: Seq<char>,
    token2: Seq<char>,
)
    requires
        token1 != token2,
    ensures
        namespace_text(instance, token1) != namespace_text(instance, token2),
{
    let head = "federation:"@ + instance + ":"@;
    let a = namespace_text(instance, token1);
    let b = namespace_text(instance, token2);
    if a == b {
        assert(a.len() == head.len() + token1.len());
        assert(b.len() == head.len() + token2.len());
        assert(a.subrange(head.len() as int, a.len() as int) =~= token1);
        assert(b.subrange(head.len() as int, b.len() as int) =~= token2);
    }
}

} // verus!
