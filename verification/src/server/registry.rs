//! The agents that are connected to a control server.

use vstd::prelude::*;

use crate::config::bootstrap::{copy_optional, optional_text};
use crate::config::control_file::{
    config_token_matches, enrolled, ControlConfigFile, ControlConfigFileView,
};
use crate::config::runtime::{copy_strings, strings};
use crate::control::{
    AgentControlMessage, AgentControlMessageView, ServerControlMessage, ServerControlMessageView,
};
use crate::secret::secret_matches;
use crate::text::same_text;
use crate::text_map::{
    law_listing_counts_keys, lemma_entry, lemma_key, lists, text_less, TextMap,
};

verus! {

// ---------------------------------------------------------------------------
// Data
// ---------------------------------------------------------------------------

/// An agent with an open control session.
#[derive(Debug)]
pub struct ConnectedAgent {
    /// Agent identifier.
    pub agent_id: String,
    /// Hostname reported by the agent.
    pub hostname: String,
    /// Agent binary version.
    pub agent_version: String,
    /// Host boot identifier, when available.
    pub boot_id: Option<String>,
    /// Runtime config version that the agent last said it applies.
    pub config_version: Option<String>,
    /// Collectors that the agent last said it runs.
    pub enabled_collectors: Vec<String>,
    /// When the session was opened, in Unix seconds.
    pub connected_at_unix_seconds: u64,
    /// When the agent was last heard of, in Unix seconds.
    pub last_seen_unix_seconds: u64,
    /// Identifier of the connection, which is also its config session.
    pub connection_id: String,
}

/// What a [`ConnectedAgent`] says.
#[verifier::ext_equal]
pub struct ConnectedAgentView {
    pub agent_id: Seq<char>,
    pub hostname: Seq<char>,
    pub agent_version: Seq<char>,
    pub boot_id: Option<Seq<char>>,
    pub config_version: Option<Seq<char>>,
    pub enabled_collectors: Seq<Seq<char>>,
    pub connected_at_unix_seconds: u64,
    pub last_seen_unix_seconds: u64,
    pub connection_id: Seq<char>,
}

impl View for ConnectedAgent {
    type V = ConnectedAgentView;

    open spec fn view(&self) -> ConnectedAgentView {
        ConnectedAgentView {
            agent_id: self.agent_id@,
            hostname: self.hostname@,
            agent_version: self.agent_version@,
            boot_id: optional_text(self.boot_id),
            config_version: optional_text(self.config_version),
            enabled_collectors: strings(self.enabled_collectors@),
            connected_at_unix_seconds: self.connected_at_unix_seconds,
            last_seen_unix_seconds: self.last_seen_unix_seconds,
            connection_id: self.connection_id@,
        }
    }
}

impl Clone for ConnectedAgent {
    fn clone(&self) -> (r: Self)
        ensures
            r@ == self@,
    {
        ConnectedAgent {
            agent_id: self.agent_id.clone(),
            hostname: self.hostname.clone(),
            agent_version: self.agent_version.clone(),
            boot_id: copy_optional(&self.boot_id),
            config_version: copy_optional(&self.config_version),
            enabled_collectors: copy_strings(&self.enabled_collectors),
            connected_at_unix_seconds: self.connected_at_unix_seconds,
            last_seen_unix_seconds: self.last_seen_unix_seconds,
            connection_id: self.connection_id.clone(),
        }
    }
}

/// How an agent introduces itself.
#[derive(Debug)]
pub struct AgentHello {
    /// Agent identifier.
    pub agent_id: String,
    /// Hostname reported by the agent.
    pub hostname: String,
    /// Agent binary version.
    pub agent_version: String,
    /// Host boot identifier, when available.
    pub boot_id: Option<String>,
}

/// What an [`AgentHello`] says.
pub struct AgentHelloView {
    pub agent_id: Seq<char>,
    pub hostname: Seq<char>,
    pub agent_version: Seq<char>,
    pub boot_id: Option<Seq<char>>,
}

impl View for AgentHello {
    type V = AgentHelloView;

    open spec fn view(&self) -> AgentHelloView {
        AgentHelloView {
            agent_id: self.agent_id@,
            hostname: self.hostname@,
            agent_version: self.agent_version@,
            boot_id: optional_text(self.boot_id),
        }
    }
}

/// The connected agents, by agent id.
#[derive(Debug)]
pub struct AgentRegistry {
    /// The connected agents, by agent id.
    pub agents: TextMap<ConnectedAgent>,
}

/// The agents that a map holds.
pub open spec fn agents_of(m: Map<Seq<char>, ConnectedAgent>) -> Map<
    Seq<char>,
    ConnectedAgentView,
> {
    m.map_values(|v: ConnectedAgent| v@)
}

impl View for AgentRegistry {
    type V = Map<Seq<char>, ConnectedAgentView>;

    open spec fn view(&self) -> Map<Seq<char>, ConnectedAgentView> {
        agents_of(self.agents@)
    }
}

/// The records of a list of agents, in its order.
pub open spec fn records_of(list: Seq<(Seq<char>, ConnectedAgent)>) -> Seq<ConnectedAgentView> {
    list.map_values(|e: (Seq<char>, ConnectedAgent)| e.1@)
}

/// What a list of agents says.
pub open spec fn agent_views(list: Seq<ConnectedAgent>) -> Seq<ConnectedAgentView> {
    list.map_values(|a: ConnectedAgent| a@)
}

/// A control session: one connection of one agent.
#[derive(Debug)]
pub struct Session {
    /// Identifier of the connection.
    pub connection_id: String,
    /// The agent that the session is bound to, once it has said hello.
    pub current_agent_id: Option<String>,
    /// Config credential that the connection was opened with.
    pub agent_config_token: Option<String>,
}

/// What a [`Session`] says.
pub struct SessionView {
    pub connection_id: Seq<char>,
    pub current_agent_id: Option<Seq<char>>,
    pub agent_config_token: Option<Seq<char>>,
}

impl View for Session {
    type V = SessionView;

    open spec fn view(&self) -> SessionView {
        SessionView {
            connection_id: self.connection_id@,
            current_agent_id: optional_text(self.current_agent_id),
            agent_config_token: optional_text(self.agent_config_token),
        }
    }
}

// ---------------------------------------------------------------------------
// Rules
// ---------------------------------------------------------------------------

/// Whether an agent presents the credential that it is enrolled with, for the
/// host that it is enrolled for.
pub open spec fn has_config_credential(
    config: ControlConfigFileView,
    agent_id: Seq<char>,
    hostname: Seq<char>,
    token: Option<Seq<char>>,
) -> bool {
    &&& enrolled(config, agent_id, hostname)
    &&& token matches Some(t)
    &&& config_token_matches(config, agent_id, t)
}

/// Whether an agent is connected through a given connection.
pub open spec fn connected_through(
    agents: Map<Seq<char>, ConnectedAgentView>,
    agent_id: Seq<char>,
    connection_id: Seq<char>,
) -> bool {
    agents.contains_key(agent_id) && agents[agent_id].connection_id == connection_id
}

/// Whether a hello is accepted: its agent has the credential, and is not
/// connected through another connection.
pub open spec fn hello_accepted(
    config: ControlConfigFileView,
    agents: Map<Seq<char>, ConnectedAgentView>,
    session: SessionView,
    hello: AgentHelloView,
) -> bool {
    &&& has_config_credential(config, hello.agent_id, hello.hostname, session.agent_config_token)
    &&& agents.contains_key(hello.agent_id) ==> connected_through(
        agents,
        hello.agent_id,
        session.connection_id,
    )
}

/// The record of an agent that has just said hello.
pub open spec fn fresh_agent(hello: AgentHelloView, connection_id: Seq<char>, now: u64)
    -> ConnectedAgentView {
    ConnectedAgentView {
        agent_id: hello.agent_id,
        hostname: hello.hostname,
        agent_version: hello.agent_version,
        boot_id: hello.boot_id,
        config_version: None,
        enabled_collectors: Seq::empty(),
        connected_at_unix_seconds: now,
        last_seen_unix_seconds: now,
        connection_id,
    }
}

/// The registry without the agent of a session, where the session still holds
/// it.
pub open spec fn without_session(
    agents: Map<Seq<char>, ConnectedAgentView>,
    session: SessionView,
) -> Map<Seq<char>, ConnectedAgentView> {
    match session.current_agent_id {
        Some(id) => if connected_through(agents, id, session.connection_id) {
            agents.remove(id)
        } else {
            agents
        },
        None => agents,
    }
}

/// The registry after an accepted hello: the agent that the session was bound to
/// gives way to the one that says hello.
pub open spec fn with_hello(
    agents: Map<Seq<char>, ConnectedAgentView>,
    session: SessionView,
    hello: AgentHelloView,
    now: u64,
) -> Map<Seq<char>, ConnectedAgentView> {
    without_session(agents, session).insert(
        hello.agent_id,
        fresh_agent(hello, session.connection_id, now),
    )
}

/// Whether a heartbeat counts: it names the agent that the session is bound to,
/// and that agent is connected through this session.
pub open spec fn heartbeat_counts(
    agents: Map<Seq<char>, ConnectedAgentView>,
    session: SessionView,
    agent_id: Seq<char>,
) -> bool {
    &&& session.current_agent_id == Some(agent_id)
    &&& connected_through(agents, agent_id, session.connection_id)
}

/// The registry and the session's agent after a message, and what to answer.
pub open spec fn after_message(
    config: ControlConfigFileView,
    agents: Map<Seq<char>, ConnectedAgentView>,
    session: SessionView,
    message: AgentControlMessageView,
    now: u64,
) -> (Map<Seq<char>, ConnectedAgentView>, SessionView, ReplyView) {
    match message {
        AgentControlMessageView::Hello { agent_id, hostname, agent_version, boot_id } => {
            let hello = AgentHelloView { agent_id, hostname, agent_version, boot_id };
            if hello_accepted(config, agents, session, hello) {
                (
                    with_hello(agents, session, hello, now),
                    SessionView { current_agent_id: Some(agent_id), ..session },
                    ReplyView::Send(
                        ServerControlMessageView::HelloAck {
                            server_time_unix_seconds: now,
                            config_session_id: session.connection_id,
                        },
                    ),
                )
            } else {
                (agents, session, ReplyView::Close)
            }
        },
        AgentControlMessageView::Heartbeat {
            agent_id,
            hostname,
            agent_version,
            config_version,
            enabled_collectors,
        } => if heartbeat_counts(agents, session, agent_id) {
            (
                agents.insert(
                    agent_id,
                    ConnectedAgentView {
                        hostname,
                        agent_version,
                        config_version: Some(config_version),
                        enabled_collectors,
                        last_seen_unix_seconds: now,
                        ..agents[agent_id]
                    },
                ),
                session,
                ReplyView::Nothing,
            )
        } else {
            (agents, session, ReplyView::Nothing)
        },
    }
}

/// What a control server answers to a message of an agent.
#[derive(Debug)]
pub enum Reply {
    /// Send a message.
    Send(ServerControlMessage),
    /// Close the sending side of the connection.
    Close,
    /// Answer nothing.
    Nothing,
}

/// What a [`Reply`] says.
pub enum ReplyView {
    Send(ServerControlMessageView),
    Close,
    Nothing,
}

impl View for Reply {
    type V = ReplyView;

    open spec fn view(&self) -> ReplyView {
        match self {
            Reply::Send(message) => ReplyView::Send(message@),
            Reply::Close => ReplyView::Close,
            Reply::Nothing => ReplyView::Nothing,
        }
    }
}

// ---------------------------------------------------------------------------
// Operations
// ---------------------------------------------------------------------------

/// The text of an optional slice.
pub open spec fn optional_slice(s: Option<&str>) -> Option<Seq<char>> {
    match s {
        Some(t) => Some(t@),
        None => None,
    }
}

/// Reports whether an agent presents the credential that it is enrolled with,
/// for the host that it is enrolled for.
pub fn agent_has_config_credential(
    config: &ControlConfigFile,
    agent_id: &str,
    hostname: &str,
    agent_config_token: Option<&str>,
) -> (r: bool)
    ensures
        r == has_config_credential(
            config@,
            agent_id@,
            hostname@,
            optional_slice(agent_config_token),
        ),
{
    if !config.agent_is_enrolled_for_hostname(agent_id, hostname) {
        return false;
    }
    match agent_config_token {
        Some(token) => config.agent_config_token_matches(agent_id, token),
        None => false,
    }
}

/// Borrows the text of an optional string.
pub fn borrow_optional(s: &Option<String>) -> (r: Option<&str>)
    ensures
        optional_slice(r) == optional_text(*s),
{
    match s {
        Some(t) => Some(t.as_str()),
        None => None,
    }
}

impl AgentRegistry {
    /// A registry without agents.
    pub fn new() -> (r: Self)
        ensures
            r@ == Map::<Seq<char>, ConnectedAgentView>::empty(),
    {
        let r = AgentRegistry { agents: TextMap::new() };
        assert(r@ =~= Map::<Seq<char>, ConnectedAgentView>::empty());
        r
    }

    /// Puts an agent into the registry under an agent id.
    pub fn insert(&mut self, agent_id: String, agent: ConnectedAgent)
        ensures
            final(self)@ == old(self)@.insert(agent_id@, agent@),
    {
        let ghost before = self.agents@;
        let ghost key = agent_id@;
        self.agents.insert(agent_id, agent);
        assert(agents_of(before.insert(key, agent)) =~= agents_of(before).insert(key, agent@));
    }

    /// Takes an agent out of the registry.
    pub fn remove(&mut self, agent_id: &str) -> (r: Option<ConnectedAgent>)
        ensures
            final(self)@ == old(self)@.remove(agent_id@),
            match r {
                Some(agent) => {
                    &&& old(self)@.contains_key(agent_id@)
                    &&& agent@ == old(self)@[agent_id@]
                },
                None => !old(self)@.contains_key(agent_id@),
            },
    {
        let ghost before = self.agents@;
        let r = self.agents.remove(agent_id);
        assert(agents_of(before.remove(agent_id@)) =~= agents_of(before).remove(agent_id@));
        r
    }

    /// Reports whether an agent is connected through a given connection.
    pub fn is_connected_through(&self, agent_id: &str, connection_id: &str) -> (r: bool)
        ensures
            r == connected_through(self@, agent_id@, connection_id@),
    {
        match self.agents.get(agent_id) {
            Some(agent) => same_text(agent.connection_id.as_str(), connection_id),
            None => false,
        }
    }

    /// The agent that asks for its config, where it is connected through the
    /// session that it names.
    pub fn connected_agent_for_config(&self, agent_id: &str, config_session_id: &str) -> (r: Option<
        ConnectedAgent,
    >)
        ensures
            match r {
                Some(agent) => {
                    &&& connected_through(self@, agent_id@, config_session_id@)
                    &&& agent@ == self@[agent_id@]
                },
                None => !connected_through(self@, agent_id@, config_session_id@),
            },
    {
        match self.agents.get(agent_id) {
            Some(agent) => if same_text(agent.connection_id.as_str(), config_session_id) {
                Some(agent.clone())
            } else {
                None
            },
            None => None,
        }
    }

    /// Binds a session to the agent that says hello, where that is accepted,
    /// and then gives the server's time back. A refused hello changes nothing.
    pub fn register_agent_connection(
        &mut self,
        config: &ControlConfigFile,
        session: &mut Session,
        hello: AgentHello,
        now: u64,
    ) -> (r: Option<u64>)
        ensures
            hello_accepted(config@, old(self)@, old(session)@, hello@) ==> {
                &&& r == Some(now)
                &&& final(self)@ == with_hello(old(self)@, old(session)@, hello@, now)
                &&& final(session)@ == (SessionView {
                    current_agent_id: Some(hello@.agent_id),
                    ..old(session)@
                })
            },
            !hello_accepted(config@, old(self)@, old(session)@, hello@) ==> {
                &&& r is None
                &&& final(self)@ == old(self)@
                &&& final(session)@ == old(session)@
            },
    {
        if !agent_has_config_credential(
            config,
            hello.agent_id.as_str(),
            hello.hostname.as_str(),
            borrow_optional(&session.agent_config_token),
        ) {
            return None;
        }
        if self.agents.contains_key(hello.agent_id.as_str()) && !self.is_connected_through(
            hello.agent_id.as_str(),
            session.connection_id.as_str(),
        ) {
            return None;
        }
        let ghost before = self@;
        match &session.current_agent_id {
            Some(previous) => {
                if !same_text(previous.as_str(), hello.agent_id.as_str())
                    && self.is_connected_through(
                    previous.as_str(),
                    session.connection_id.as_str(),
                ) {
                    self.remove(previous.as_str());
                }
            },
            None => {},
        }
        let ghost said = hello@;
        let key = hello.agent_id.clone();
        let agent = ConnectedAgent {
            agent_id: hello.agent_id,
            hostname: hello.hostname,
            agent_version: hello.agent_version,
            boot_id: hello.boot_id,
            config_version: None,
            enabled_collectors: Vec::new(),
            connected_at_unix_seconds: now,
            last_seen_unix_seconds: now,
            connection_id: session.connection_id.clone(),
        };
        assert(agent@.enabled_collectors =~= Seq::<Seq<char>>::empty());
        assert(agent@ == fresh_agent(said, session@.connection_id, now));
        let bound = key.clone();
        self.insert(key, agent);
        assert(self@ =~= with_hello(before, session@, said, now));
        session.current_agent_id = Some(bound);
        Some(now)
    }

    /// Takes the agent of a session out of the registry when the session ends,
    /// unless the agent has meanwhile connected through another.
    pub fn remove_agent(&mut self, session: &Session)
        ensures
            final(self)@ == without_session(old(self)@, session@),
    {
        match &session.current_agent_id {
            Some(agent_id) => {
                if self.is_connected_through(agent_id.as_str(), session.connection_id.as_str()) {
                    self.remove(agent_id.as_str());
                }
            },
            None => {},
        }
    }

    /// Takes a message of an agent in: a hello binds the session, a heartbeat
    /// refreshes the agent's record.
    pub fn handle_agent_message(
        &mut self,
        config: &ControlConfigFile,
        session: &mut Session,
        message: AgentControlMessage,
        now: u64,
    ) -> (r: Reply)
        ensures
            (final(self)@, final(session)@, r@) == after_message(
                config@,
                old(self)@,
                old(session)@,
                message@,
                now,
            ),
    {
        match message {
            AgentControlMessage::Hello { agent_id, hostname, agent_version, boot_id } => {
                let hello = AgentHello { agent_id, hostname, agent_version, boot_id };
                match self.register_agent_connection(config, session, hello, now) {
                    Some(server_time) => Reply::Send(
                        ServerControlMessage::HelloAck {
                            server_time_unix_seconds: server_time,
                            config_session_id: session.connection_id.clone(),
                        },
                    ),
                    None => Reply::Close,
                }
            },
            AgentControlMessage::Heartbeat {
                agent_id,
                hostname,
                agent_version,
                config_version,
                enabled_collectors,
            } => {
                let bound = match &session.current_agent_id {
                    Some(current) => same_text(current.as_str(), agent_id.as_str()),
                    None => false,
                };
                if !bound || !self.is_connected_through(
                    agent_id.as_str(),
                    session.connection_id.as_str(),
                ) {
                    return Reply::Nothing;
                }
                let ghost before = self@;
                if let Some(agent) = self.remove(agent_id.as_str()) {
                    let agent = ConnectedAgent {
                        agent_id: agent.agent_id,
                        hostname,
                        agent_version,
                        boot_id: agent.boot_id,
                        config_version: Some(config_version),
                        enabled_collectors,
                        connected_at_unix_seconds: agent.connected_at_unix_seconds,
                        last_seen_unix_seconds: now,
                        connection_id: agent.connection_id,
                    };
                    let ghost key = agent_id@;
                    self.insert(agent_id, agent);
                    assert(self@ =~= before.insert(key, agent@));
                }
                Reply::Nothing
            },
        }
    }

    /// The connected agents, in the order of their ids.
    pub fn connected_agents(&self) -> (r: Vec<ConnectedAgent>)
        ensures
            lists(self.agents.listing(), self.agents@),
            agent_views(r@) == records_of(self.agents.listing()),
            r@.len() == self.agents.listing().len(),
            forall|i: int|
                0 <= i < r@.len() ==> (#[trigger] r@[i])@ == self.agents.listing()[i].1@,
    {
        let n: usize = self.agents.len();
        let mut r: Vec<ConnectedAgent> = Vec::new();
        for i in 0..n
            invariant
                n == self.agents.listing().len(),
                r@.len() == i,
                forall|k: int|
                    0 <= k < i ==> (#[trigger] r@[k])@ == self.agents.listing()[k].1@,
        {
            r.push(self.agents.value_at(i).clone());
        }
        assert(agent_views(r@) =~= records_of(self.agents.listing()));
        r
    }
}

// ---------------------------------------------------------------------------
// Laws
// ---------------------------------------------------------------------------

/// The registry holds no agent for a connection but the one that its session is
/// bound to.
pub open spec fn holds_only_its_agent(
    agents: Map<Seq<char>, ConnectedAgentView>,
    session: SessionView,
) -> bool {
    forall|id: Seq<char>|
        #[trigger] agents.contains_key(id) && agents[id].connection_id == session.connection_id
            ==> session.current_agent_id == Some(id)
}

/// Every agent stands under its own id.
pub open spec fn stand_under_own_id(agents: Map<Seq<char>, ConnectedAgentView>) -> bool {
    forall|id: Seq<char>| #[trigger] agents.contains_key(id) ==> agents[id].agent_id == id
}

/// Whatever a session receives, every agent stands under its own id, one
/// connection stands for at most one agent, and what another session holds is
/// left as it is.
pub proof fn law_messages_keep_sessions_apart(
    config: ControlConfigFileView,
    agents: Map<Seq<char>, ConnectedAgentView>,
    session: SessionView,
    other: SessionView,
    message: AgentControlMessageView,
    now: u64,
)
    requires
        stand_under_own_id(agents),
        holds_only_its_agent(agents, session),
        holds_only_its_agent(agents, other),
        session.connection_id != other.connection_id,
    ensures
        ({
            let (next, bound, _) = after_message(config, agents, session, message, now);
            &&& stand_under_own_id(next)
            &&& holds_only_its_agent(next, bound)
            &&& holds_only_its_agent(next, other)
            &&& bound.connection_id == session.connection_id
            &&& forall|id: Seq<char>| #[trigger]
                connected_through(agents, id, other.connection_id) ==> next.contains_key(id)
                    && next[id] == agents[id]
        }),
{
}

/// A refused hello leaves the registry and the session as they are, and closes
/// the connection; an agent id that is connected through another connection is
/// refused.
pub proof fn law_duplicate_hello_changes_nothing(
    config: ControlConfigFileView,
    agents: Map<Seq<char>, ConnectedAgentView>,
    session: SessionView,
    hello: AgentHelloView,
    now: u64,
)
    requires
        agents.contains_key(hello.agent_id),
        agents[hello.agent_id].connection_id != session.connection_id,
    ensures
        after_message(
            config,
            agents,
            session,
            AgentControlMessageView::Hello {
                agent_id: hello.agent_id,
                hostname: hello.hostname,
                agent_version: hello.agent_version,
                boot_id: hello.boot_id,
            },
            now,
        ) == (agents, session, ReplyView::Close),
{
}

/// When a session ends, no agent stands in the registry for its connection, and
/// every other agent stands as before.
pub proof fn law_session_end_removes_its_agent(
    agents: Map<Seq<char>, ConnectedAgentView>,
    session: SessionView,
)
    requires
        holds_only_its_agent(agents, session),
    ensures
        forall|id: Seq<char>|
            !#[trigger] connected_through(
                without_session(agents, session),
                id,
                session.connection_id,
            ),
        forall|id: Seq<char>| #[trigger]
            agents.contains_key(id) && agents[id].connection_id != session.connection_id
                ==> without_session(agents, session).contains_key(id) && without_session(
                agents,
                session,
            )[id] == agents[id],
{
}

/// A first hello and the end of its session leave the registry as it was.
pub proof fn law_hello_then_end_restores(
    config: ControlConfigFileView,
    agents: Map<Seq<char>, ConnectedAgentView>,
    session: SessionView,
    hello: AgentHelloView,
    now: u64,
)
    requires
        session.current_agent_id is None,
        !agents.contains_key(hello.agent_id),
        hello_accepted(config, agents, session, hello),
    ensures
        without_session(
            with_hello(agents, session, hello, now),
            SessionView { current_agent_id: Some(hello.agent_id), ..session },
        ) == agents,
{
    assert(without_session(
        with_hello(agents, session, hello, now),
        SessionView { current_agent_id: Some(hello.agent_id), ..session },
    ) =~= agents);
}

/// A heartbeat of an agent that the session is not bound to changes nothing.
pub proof fn law_unbound_heartbeat_changes_nothing(
    config: ControlConfigFileView,
    agents: Map<Seq<char>, ConnectedAgentView>,
    session: SessionView,
    message: AgentControlMessageView,
    now: u64,
)
    requires
        message is Heartbeat,
        session.current_agent_id != Some(message->Heartbeat_agent_id),
    ensures
        after_message(config, agents, session, message, now) == (
            agents,
            session,
            ReplyView::Nothing,
        ),
{
}

/// Only an agent that is enrolled for the host it names, and presents the token
/// it is enrolled with, enters the registry.
pub proof fn law_only_enrolled_agents_enter(
    config: ControlConfigFileView,
    agents: Map<Seq<char>, ConnectedAgentView>,
    session: SessionView,
    message: AgentControlMessageView,
    now: u64,
    id: Seq<char>,
)
    requires
        !agents.contains_key(id),
        after_message(config, agents, session, message, now).0.contains_key(id),
    ensures
        message matches AgentControlMessageView::Hello { agent_id, hostname, .. } && agent_id == id
            && has_config_credential(config, id, hostname, session.agent_config_token),
{
}

/// After a heartbeat of the agent that a session is bound to and holds, the
/// agent's record says what this heartbeat says, whatever it said before; the
/// rest of the record, the other records, and the session stay as they are, and
/// nothing is answered.
pub proof fn law_each_heartbeat_is_recorded(
    config: ControlConfigFileView,
    agents: Map<Seq<char>, ConnectedAgentView>,
    session: SessionView,
    message: AgentControlMessageView,
    now: u64,
)
    requires
        message is Heartbeat,
        session.current_agent_id == Some(message->Heartbeat_agent_id),
        agents.contains_key(message->Heartbeat_agent_id),
        agents[message->Heartbeat_agent_id].connection_id == session.connection_id,
    ensures
        ({
            let id = message->Heartbeat_agent_id;
            let (next, bound, reply) = after_message(config, agents, session, message, now);
            &&& next.dom() == agents.dom()
            &&& next[id].hostname == message->Heartbeat_hostname
            &&& next[id].agent_version == message->Heartbeat_agent_version
            &&& next[id].config_version == Some(message->config_version)
            &&& next[id].enabled_collectors == message->enabled_collectors
            &&& next[id].last_seen_unix_seconds == now
            &&& next[id].agent_id == agents[id].agent_id
            &&& next[id].boot_id == agents[id].boot_id
            &&& next[id].connected_at_unix_seconds == agents[id].connected_at_unix_seconds
            &&& next[id].connection_id == agents[id].connection_id
            &&& forall|other: Seq<char>|
                other != id && agents.contains_key(other) ==> #[trigger] next[other]
                    == agents[other]
            &&& bound == session
            &&& reply is Nothing
        }),
{
    let next = after_message(config, agents, session, message, now).0;
    assert(next.dom() =~= agents.dom());
}

/// A heartbeat from an agent that the session does not hold changes nothing.
pub proof fn law_foreign_heartbeat_changes_nothing(
    config: ControlConfigFileView,
    agents: Map<Seq<char>, ConnectedAgentView>,
    session: SessionView,
    message: AgentControlMessageView,
    now: u64,
)
    requires
        message is Heartbeat,
        !connected_through(agents, message->Heartbeat_agent_id, session.connection_id),
    ensures
        after_message(config, agents, session, message, now) == (
            agents,
            session,
            ReplyView::Nothing,
        ),
{
}

/// An agent that is enrolled for the host it names, whose session was opened with
/// the token it is enrolled with, and that is not connected through another
/// connection, is accepted: its record says what the hello says, its session is
/// bound to it, and it is told the server's time and its session. The agent that
/// the session held before gives way, and no other record changes.
pub proof fn law_accepted_hello_is_recorded(
    config: ControlConfigFileView,
    agents: Map<Seq<char>, ConnectedAgentView>,
    session: SessionView,
    message: AgentControlMessageView,
    now: u64,
)
    requires
        message is Hello,
        config.agents.contains_key(message->Hello_agent_id),
        config.agents[message->Hello_agent_id].hostname == message->Hello_hostname,
        config.agents[message->Hello_agent_id].config_token is Some,
        session.agent_config_token is Some,
        secret_matches(
            config.agents[message->Hello_agent_id].config_token->0,
            session.agent_config_token->0,
        ),
        !agents.contains_key(message->Hello_agent_id) || connected_through(
            agents,
            message->Hello_agent_id,
            session.connection_id,
        ),
    ensures
        ({
            let id = message->Hello_agent_id;
            let (next, bound, reply) = after_message(config, agents, session, message, now);
            &&& next.contains_key(id)
            &&& next[id].agent_id == id
            &&& next[id].hostname == message->Hello_hostname
            &&& next[id].agent_version == message->Hello_agent_version
            &&& next[id].boot_id == message->boot_id
            &&& next[id].config_version is None
            &&& next[id].enabled_collectors.len() == 0
            &&& next[id].connected_at_unix_seconds == now
            &&& next[id].last_seen_unix_seconds == now
            &&& next[id].connection_id == session.connection_id
            &&& bound.current_agent_id == Some(id)
            &&& bound.connection_id == session.connection_id
            &&& bound.agent_config_token == session.agent_config_token
            &&& reply == ReplyView::Send(
                ServerControlMessageView::HelloAck {
                    server_time_unix_seconds: now,
                    config_session_id: session.connection_id,
                },
            )
            &&& forall|other: Seq<char>|
                other != id ==> {
                    &&& #[trigger] next.contains_key(other) <==> agents.contains_key(other) && !(
                    session.current_agent_id == Some(other) && agents[other].connection_id
                        == session.connection_id)
                    &&& next.contains_key(other) ==> next[other] == agents[other]
                }
        }),
{
}

/// A hello is refused, and changes nothing but to close the connection, where its
/// agent is not enrolled, is enrolled for another host or without a token, brings
/// no token, or brings one that does not match.
pub proof fn law_hello_without_credential_is_refused(
    config: ControlConfigFileView,
    agents: Map<Seq<char>, ConnectedAgentView>,
    session: SessionView,
    message: AgentControlMessageView,
    now: u64,
)
    requires
        message is Hello,
        !config.agents.contains_key(message->Hello_agent_id)
            || config.agents[message->Hello_agent_id].hostname != message->Hello_hostname
            || config.agents[message->Hello_agent_id].config_token is None
            || session.agent_config_token is None || !secret_matches(
            config.agents[message->Hello_agent_id].config_token->0,
            session.agent_config_token->0,
        ),
    ensures
        after_message(config, agents, session, message, now) == (agents, session, ReplyView::Close),
{
}

/// When a session ends, its agent leaves the registry if the session still holds
/// it, and nothing else changes.
pub proof fn law_session_end_leaves_the_rest(
    agents: Map<Seq<char>, ConnectedAgentView>,
    session: SessionView,
    id: Seq<char>,
)
    ensures
        ({
            let next = without_session(agents, session);
            &&& next.contains_key(id) <==> agents.contains_key(id) && !(session.current_agent_id
                == Some(id) && agents[id].connection_id == session.connection_id)
            &&& next.contains_key(id) ==> next[id] == agents[id]
        }),
{
}

/// Every connected agent is listed once, with what its record says, in the order
/// of the ids; and no other is.
pub proof fn law_every_agent_is_listed(registry: AgentRegistry)
    requires
        lists(registry.agents.listing(), registry.agents@),
    ensures
        ({
            let list = records_of(registry.agents.listing());
            &&& list.len() == registry@.dom().len()
            &&& forall|id: Seq<char>| #[trigger]
                registry@.contains_key(id) ==> list.contains(registry@[id])
            &&& forall|i: int|
                0 <= i < list.len() ==> {
                    let id = (#[trigger] registry.agents.listing()[i]).0;
                    registry@.contains_key(id) && list[i] == registry@[id]
                }
            &&& forall|i: int, j: int|
                0 <= i < j < list.len() ==> text_less(
                    #[trigger] registry.agents.listing()[i].0,
                    #[trigger] registry.agents.listing()[j].0,
                )
        }),
{
    let listing = registry.agents.listing();
    let list = records_of(listing);
    law_listing_counts_keys(listing, registry.agents@);
    assert(registry@.dom() =~= registry.agents@.dom());
    assert forall|id: Seq<char>| #[trigger] registry@.contains_key(id) implies list.contains(
        registry@[id],
    ) by {
        let i = lemma_key(listing, id);
        lemma_entry(listing, i);
        assert(list[i] == registry@[id]);
    }
    assert forall|i: int| 0 <= i < list.len() implies registry@.contains_key(
        (#[trigger] listing[i]).0,
    ) && list[i] == registry@[listing[i].0] by {
        lemma_entry(listing, i);
        assert(list[i] == listing[i].1@);
    }
}

} // verus!
