//! What a control server answers to requests and on control sessions.

use vstd::prelude::*;

use crate::config::bootstrap::optional_text;
use crate::config::control_file::{
    empty_control, law_resolved_config_is_valid, resolved, ControlConfigFile,
    ControlConfigFileView,
};
use crate::config::error::{ConfigError, ConfigErrorView};
use crate::config::runtime::{valid_runtime, AgentRuntimeConfig, AgentRuntimeConfigView};
use crate::config::version::source_version;
use crate::control::{
    AgentControlMessage, AgentControlMessageView, ServerControlMessage, ServerControlMessageView,
    AGENT_CONFIG_TOKEN_HEADER, AGENT_ID_HEADER, CONFIG_SESSION_ID_HEADER,
};
use crate::headers::{
    authorized, bears, fields_of, header_value, lemma_field_names, trimmed_field,
};
use crate::identity::{is_random_uuid, random_uuid};
use crate::server::registry::{
    after_message, agent_has_config_credential, agent_views, borrow_optional, connected_through,
    has_config_credential, holds_only_its_agent, law_session_end_removes_its_agent, records_of,
    without_session, AgentRegistry, ConnectedAgent, ConnectedAgentView, Reply, ReplyView, Session,
    SessionView,
};
use crate::server::reload::{
    first_invalid, host_names, loaded_contents, reload_control_config, InvalidRuntime,
    LoadedControlConfig, ReloadResponse,
};
use crate::secret::secret_matches;
use crate::text_map::lists;

verus! {

// ---------------------------------------------------------------------------
// Config requests
// ---------------------------------------------------------------------------

/// What an agent is answered that asks for its config.
#[derive(Debug)]
pub enum ConfigAnswer {
    /// The request does not carry the agent token.
    Unauthorized,
    /// The request names no agent or no session.
    BadRequest,
    /// The agent is not connected through the session it names, or lacks the
    /// credential it is enrolled with.
    Forbidden,
    /// The config of the agent's host is not valid.
    Invalid(ConfigError),
    /// The config of the agent's host.
    Served(AgentRuntimeConfig),
}

/// What a [`ConfigAnswer`] says.
pub enum ConfigAnswerView {
    Unauthorized,
    BadRequest,
    Forbidden,
    Invalid(ConfigErrorView),
    Served(AgentRuntimeConfigView),
}

impl View for ConfigAnswer {
    type V = ConfigAnswerView;

    open spec fn view(&self) -> ConfigAnswerView {
        match self {
            ConfigAnswer::Unauthorized => ConfigAnswerView::Unauthorized,
            ConfigAnswer::BadRequest => ConfigAnswerView::BadRequest,
            ConfigAnswer::Forbidden => ConfigAnswerView::Forbidden,
            ConfigAnswer::Invalid(error) => ConfigAnswerView::Invalid(error@),
            ConfigAnswer::Served(config) => ConfigAnswerView::Served(config@),
        }
    }
}

/// The HTTP status of an answer.
pub open spec fn answer_status(answer: ConfigAnswerView) -> u16 {
    match answer {
        ConfigAnswerView::Unauthorized => 401,
        ConfigAnswerView::BadRequest => 400,
        ConfigAnswerView::Forbidden => 403,
        ConfigAnswerView::Invalid(_) => 500,
        ConfigAnswerView::Served(_) => 200,
    }
}

impl ConfigAnswer {
    /// The HTTP status of the answer.
    pub fn status(&self) -> (r: u16)
        ensures
            r == answer_status(self@),
    {
        match self {
            ConfigAnswer::Unauthorized => 401,
            ConfigAnswer::BadRequest => 400,
            ConfigAnswer::Forbidden => 403,
            ConfigAnswer::Invalid(_) => 500,
            ConfigAnswer::Served(_) => 200,
        }
    }
}

/// What a connected agent is answered that presents a config token, or none.
pub open spec fn agent_answer(
    config: ControlConfigFileView,
    agent: ConnectedAgentView,
    token: Option<Seq<char>>,
) -> ConfigAnswerView {
    if !has_config_credential(config, agent.agent_id, agent.hostname, token) {
        ConfigAnswerView::Forbidden
    } else {
        match resolved(config, agent.hostname) {
            Ok(runtime) => ConfigAnswerView::Served(runtime),
            Err(error) => ConfigAnswerView::Invalid(error),
        }
    }
}

/// What a request for a config is answered that is authorized or not, and names
/// an agent, a session and a config token, or some of these.
pub open spec fn request_answer(
    authorized: bool,
    agent_id: Option<Seq<char>>,
    session_id: Option<Seq<char>>,
    token: Option<Seq<char>>,
    agents: Map<Seq<char>, ConnectedAgentView>,
    config: ControlConfigFileView,
) -> ConfigAnswerView {
    if !authorized {
        ConfigAnswerView::Unauthorized
    } else {
        match (agent_id, session_id) {
            (Some(id), Some(session)) => if connected_through(agents, id, session) {
                agent_answer(config, agents[id], token)
            } else {
                ConfigAnswerView::Forbidden
            },
            _ => ConfigAnswerView::BadRequest,
        }
    }
}

/// What a request for a config is answered, from its header fields.
pub open spec fn config_answer(
    fields: Map<Seq<char>, Seq<u8>>,
    agent_token: Seq<char>,
    agents: Map<Seq<char>, ConnectedAgentView>,
    config: ControlConfigFileView,
) -> ConfigAnswerView {
    request_answer(
        bears(fields, agent_token),
        trimmed_field(fields, AGENT_ID_HEADER@),
        trimmed_field(fields, CONFIG_SESSION_ID_HEADER@),
        trimmed_field(fields, AGENT_CONFIG_TOKEN_HEADER@),
        agents,
        config,
    )
}

/// Answers a request for a config, from what was read of it.
pub fn answer_request(
    authorized: bool,
    agent_id: Option<String>,
    config_session_id: Option<String>,
    agent_config_token: Option<String>,
    registry: &AgentRegistry,
    config: &ControlConfigFile,
) -> (r: ConfigAnswer)
    ensures
        r@ == request_answer(
            authorized,
            optional_text(agent_id),
            optional_text(config_session_id),
            optional_text(agent_config_token),
            registry@,
            config@,
        ),
{
    if !authorized {
        return ConfigAnswer::Unauthorized;
    }
    let (agent_id, config_session_id) = match (agent_id, config_session_id) {
        (Some(agent_id), Some(config_session_id)) => (agent_id, config_session_id),
        _ => {
            return ConfigAnswer::BadRequest;
        },
    };
    let agent = match registry.connected_agent_for_config(
        agent_id.as_str(),
        config_session_id.as_str(),
    ) {
        Some(agent) => agent,
        None => {
            return ConfigAnswer::Forbidden;
        },
    };
    if !agent_has_config_credential(
        config,
        agent.agent_id.as_str(),
        agent.hostname.as_str(),
        borrow_optional(&agent_config_token),
    ) {
        return ConfigAnswer::Forbidden;
    }
    match config.runtime_config_for(agent.hostname.as_str()) {
        Ok(runtime) => ConfigAnswer::Served(runtime),
        Err(error) => ConfigAnswer::Invalid(error),
    }
}

/// Answers a request for a config.
pub fn agent_config(
    headers: &axum::http::HeaderMap,
    agent_token: &str,
    registry: &AgentRegistry,
    config: &ControlConfigFile,
) -> (r: ConfigAnswer)
    ensures
        r@ == config_answer(fields_of(*headers), agent_token@, registry@, config@),
{
    proof {
        lemma_field_names();
    }
    answer_request(
        authorized(headers, agent_token),
        header_value(headers, AGENT_ID_HEADER),
        header_value(headers, CONFIG_SESSION_ID_HEADER),
        header_value(headers, AGENT_CONFIG_TOKEN_HEADER),
        registry,
        config,
    )
}

/// Lists the connected agents, in the order of their ids, for a request that
/// carries the admin token; other requests get nothing.
pub fn admin_agents(headers: &axum::http::HeaderMap, admin_token: &str, registry: &AgentRegistry)
    -> (r: Option<Vec<ConnectedAgent>>)
    ensures
        r is Some <==> bears(fields_of(*headers), admin_token@),
        r matches Some(list) ==> {
            &&& lists(registry.agents.listing(), registry.agents@)
            &&& agent_views(list@) == records_of(registry.agents.listing())
            &&& list@.len() == registry.agents.listing().len()
            &&& forall|i: int|
                0 <= i < list@.len() ==> (#[trigger] list@[i])@ == registry.agents.listing()[i].1@
        },
{
    if !authorized(headers, admin_token) {
        return None;
    }
    Some(registry.connected_agents())
}

/// What an administrator is answered who has the config reloaded.
#[derive(Debug)]
pub enum ReloadAnswer {
    /// The request does not carry the admin token.
    Unauthorized,
    /// The config could not be read, and the active one stays.
    Unreadable(String),
    /// The config is not valid, and the active one stays.
    Invalid(InvalidRuntime),
    /// The config is active.
    Reloaded {
        /// What to answer.
        response: ReloadResponse,
        /// What to tell the connected agents.
        notification: ServerControlMessage,
    },
}

impl ReloadAnswer {
    /// The HTTP status of the answer.
    pub open spec fn http_status(&self) -> u16 {
        match self {
            ReloadAnswer::Unauthorized => 401,
            ReloadAnswer::Unreadable(_) => 500,
            ReloadAnswer::Invalid(_) => 500,
            ReloadAnswer::Reloaded { .. } => 200,
        }
    }

    /// The HTTP status of the answer.
    pub fn status(&self) -> (r: u16)
        ensures
            r == self.http_status(),
    {
        match self {
            ReloadAnswer::Unauthorized => 401,
            ReloadAnswer::Unreadable(_) => 500,
            ReloadAnswer::Invalid(_) => 500,
            ReloadAnswer::Reloaded { .. } => 200,
        }
    }
}

/// Answers a request to reload the control config, from what was read of its
/// file. The active config changes only where the request carries the admin
/// token, the file could be read, and every runtime config in it is valid.
pub fn admin_config_reload(
    headers: &axum::http::HeaderMap,
    admin_token: &str,
    active: &mut LoadedControlConfig,
    source: Result<Option<(String, ControlConfigFile)>, String>,
    registry: &AgentRegistry,
) -> (r: ReloadAnswer)
    ensures
        r is Unauthorized <==> !bears(fields_of(*headers), admin_token@),
        match r {
            ReloadAnswer::Unauthorized => *final(active) == *old(active),
            ReloadAnswer::Unreadable(reason) => {
                &&& *final(active) == *old(active)
                &&& source matches Err(e) && e@ == reason@
            },
            ReloadAnswer::Invalid(fault) => {
                &&& *final(active) == *old(active)
                &&& source matches Ok(Some((_, config))) && first_invalid(
                    config@,
                    host_names(config),
                ) == Some(fault@) && lists(config.hosts.listing(), config.hosts@)
            },
            ReloadAnswer::Reloaded { response, notification } => {
                &&& source is Ok
                &&& response.version@ == source_version(loaded_contents(source->Ok_0))
                &&& response.notified_agents == registry@.dom().len()
                &&& response.notified_agents == registry.agents.listing().len()
                &&& lists(registry.agents.listing(), registry.agents@)
                &&& notification@ == (ServerControlMessageView::ConfigChanged {
                    version: response.version@,
                })
                &&& final(active).source_version@ == response.version@
                &&& source matches Ok(Some((_, config))) ==> {
                    &&& final(active).config == config
                    &&& first_invalid(config@, host_names(config)) is None
                    &&& lists(config.hosts.listing(), config.hosts@)
                }
                &&& source matches Ok(None) ==> final(active).config@ == empty_control()
            },
        },
{
    if !authorized(headers, admin_token) {
        return ReloadAnswer::Unauthorized;
    }
    match source {
        Ok(source) => match reload_control_config(active, source, registry) {
            Ok((response, notification)) => ReloadAnswer::Reloaded { response, notification },
            Err(fault) => ReloadAnswer::Invalid(fault),
        },
        Err(reason) => ReloadAnswer::Unreadable(reason),
    }
}

// ---------------------------------------------------------------------------
// Control sessions
// ---------------------------------------------------------------------------

/// Opens a control session for a request that carries the agent token; other
/// requests get none.
pub fn open_session(headers: &axum::http::HeaderMap, agent_token: &str) -> (r: Option<Session>)
    ensures
        r is Some <==> bears(fields_of(*headers), agent_token@),
        r matches Some(session) ==> {
            &&& is_random_uuid(session.connection_id@)
            &&& session.current_agent_id is None
            &&& session@.agent_config_token == trimmed_field(
                fields_of(*headers),
                AGENT_CONFIG_TOKEN_HEADER@,
            )
        },
{
    if !authorized(headers, agent_token) {
        return None;
    }
    proof {
        lemma_field_names();
    }
    let agent_config_token = header_value(headers, AGENT_CONFIG_TOKEN_HEADER);
    Some(
        Session { connection_id: random_uuid(), current_agent_id: None, agent_config_token },
    )
}

/// What happens on a control session.
#[derive(Debug)]
pub enum SessionEvent {
    /// The server has something to tell its agents.
    Notification(ServerControlMessage),
    /// The session was too slow and missed notifications.
    NotificationsMissed,
    /// There will be no more notifications.
    NotificationsEnded,
    /// The agent sent a control message.
    Message(AgentControlMessage),
    /// The agent sent a text that is no control message.
    UnknownText,
    /// The agent sent a frame that carries no text.
    OtherFrame,
    /// The agent closed the connection.
    Closed,
    /// The connection could not be read.
    ReadFailed,
}

/// What a [`SessionEvent`] says.
pub enum SessionEventView {
    Notification(ServerControlMessageView),
    NotificationsMissed,
    NotificationsEnded,
    Message(AgentControlMessageView),
    UnknownText,
    OtherFrame,
    Closed,
    ReadFailed,
}

impl View for SessionEvent {
    type V = SessionEventView;

    open spec fn view(&self) -> SessionEventView {
        match self {
            SessionEvent::Notification(message) => SessionEventView::Notification(message@),
            SessionEvent::NotificationsMissed => SessionEventView::NotificationsMissed,
            SessionEvent::NotificationsEnded => SessionEventView::NotificationsEnded,
            SessionEvent::Message(message) => SessionEventView::Message(message@),
            SessionEvent::UnknownText => SessionEventView::UnknownText,
            SessionEvent::OtherFrame => SessionEventView::OtherFrame,
            SessionEvent::Closed => SessionEventView::Closed,
            SessionEvent::ReadFailed => SessionEventView::ReadFailed,
        }
    }
}

/// What the server does on a control session.
#[derive(Debug)]
pub enum SessionStep {
    /// Send a message, and go on.
    Send(ServerControlMessage),
    /// Close the sending side, and go on reading.
    CloseSender,
    /// Go on.
    Continue,
    /// End the session.
    Finish,
    /// End the session: the agent sent what is no control message.
    FailUnknownText,
    /// End the session: the connection could not be read.
    FailRead,
}

/// What a [`SessionStep`] says.
pub enum SessionStepView {
    Send(ServerControlMessageView),
    CloseSender,
    Continue,
    Finish,
    FailUnknownText,
    FailRead,
}

impl View for SessionStep {
    type V = SessionStepView;

    open spec fn view(&self) -> SessionStepView {
        match self {
            SessionStep::Send(message) => SessionStepView::Send(message@),
            SessionStep::CloseSender => SessionStepView::CloseSender,
            SessionStep::Continue => SessionStepView::Continue,
            SessionStep::Finish => SessionStepView::Finish,
            SessionStep::FailUnknownText => SessionStepView::FailUnknownText,
            SessionStep::FailRead => SessionStepView::FailRead,
        }
    }
}

/// The step that carries a reply out.
pub open spec fn reply_step(reply: ReplyView) -> SessionStepView {
    match reply {
        ReplyView::Send(message) => SessionStepView::Send(message),
        ReplyView::Close => SessionStepView::CloseSender,
        ReplyView::Nothing => SessionStepView::Continue,
    }
}

/// The registry and the session after an event, and what to do.
pub open spec fn after_event(
    config: ControlConfigFileView,
    agents: Map<Seq<char>, ConnectedAgentView>,
    session: SessionView,
    event: SessionEventView,
    now: u64,
) -> (Map<Seq<char>, ConnectedAgentView>, SessionView, SessionStepView) {
    match event {
        SessionEventView::Message(message) => {
            let (next, bound, reply) = after_message(config, agents, session, message, now);
            (next, bound, reply_step(reply))
        },
        SessionEventView::Notification(message) => (
            agents,
            session,
            SessionStepView::Send(message),
        ),
        SessionEventView::NotificationsMissed => (agents, session, SessionStepView::Continue),
        SessionEventView::OtherFrame => (agents, session, SessionStepView::Continue),
        SessionEventView::NotificationsEnded => (agents, session, SessionStepView::Finish),
        SessionEventView::Closed => (agents, session, SessionStepView::Finish),
        SessionEventView::UnknownText => (agents, session, SessionStepView::FailUnknownText),
        SessionEventView::ReadFailed => (agents, session, SessionStepView::FailRead),
    }
}

/// Decides what to do on a control session when something happens on it.
pub fn session_step(
    registry: &mut AgentRegistry,
    config: &ControlConfigFile,
    session: &mut Session,
    event: SessionEvent,
    now: u64,
) -> (r: SessionStep)
    ensures
        (final(registry)@, final(session)@, r@) == after_event(
            config@,
            old(registry)@,
            old(session)@,
            event@,
            now,
        ),
{
    match event {
        SessionEvent::Message(message) => match registry.handle_agent_message(
            config,
            session,
            message,
            now,
        ) {
            Reply::Send(answer) => SessionStep::Send(answer),
            Reply::Close => SessionStep::CloseSender,
            Reply::Nothing => SessionStep::Continue,
        },
        SessionEvent::Notification(message) => SessionStep::Send(message),
        SessionEvent::NotificationsMissed => SessionStep::Continue,
        SessionEvent::OtherFrame => SessionStep::Continue,
        SessionEvent::NotificationsEnded => SessionStep::Finish,
        SessionEvent::Closed => SessionStep::Finish,
        SessionEvent::UnknownText => SessionStep::FailUnknownText,
        SessionEvent::ReadFailed => SessionStep::FailRead,
    }
}

// ---------------------------------------------------------------------------
// Laws
// ---------------------------------------------------------------------------

/// A config is served only to a request that carries the agent token and names
/// an agent that is connected through the session it names, enrolled for its
/// host, and presents the token it is enrolled with; and what is served is the
/// valid config of that host.
pub proof fn law_config_is_served_only_to_its_agent(
    fields: Map<Seq<char>, Seq<u8>>,
    agent_token: Seq<char>,
    agents: Map<Seq<char>, ConnectedAgentView>,
    config: ControlConfigFileView,
)
    requires
        config_answer(fields, agent_token, agents, config) is Served,
    ensures
        bears(fields, agent_token),
        trimmed_field(fields, AGENT_ID_HEADER@) is Some,
        trimmed_field(fields, CONFIG_SESSION_ID_HEADER@) is Some,
        ({
            let agent_id = trimmed_field(fields, AGENT_ID_HEADER@)->0;
            let session_id = trimmed_field(fields, CONFIG_SESSION_ID_HEADER@)->0;
            let agent = agents[agent_id];
            let served = config_answer(fields, agent_token, agents, config)->Served_0;
            &&& connected_through(agents, agent_id, session_id)
            &&& has_config_credential(
                config,
                agent.agent_id,
                agent.hostname,
                trimmed_field(fields, AGENT_CONFIG_TOKEN_HEADER@),
            )
            &&& resolved(config, agent.hostname) == Ok::<AgentRuntimeConfigView, ConfigErrorView>(
                served,
            )
            &&& valid_runtime(served)
        }),
{
    let agent_id = trimmed_field(fields, AGENT_ID_HEADER@)->0;
    law_resolved_config_is_valid(config, agents[agent_id].hostname);
}

/// A connected agent with its credential is served the config of its host
/// whenever that is valid.
pub proof fn law_enrolled_agent_is_served(
    fields: Map<Seq<char>, Seq<u8>>,
    agent_token: Seq<char>,
    agents: Map<Seq<char>, ConnectedAgentView>,
    config: ControlConfigFileView,
    agent_id: Seq<char>,
    session_id: Seq<char>,
)
    requires
        bears(fields, agent_token),
        trimmed_field(fields, AGENT_ID_HEADER@) == Some(agent_id),
        trimmed_field(fields, CONFIG_SESSION_ID_HEADER@) == Some(session_id),
        connected_through(agents, agent_id, session_id),
        has_config_credential(
            config,
            agents[agent_id].agent_id,
            agents[agent_id].hostname,
            trimmed_field(fields, AGENT_CONFIG_TOKEN_HEADER@),
        ),
        resolved(config, agents[agent_id].hostname) is Ok,
    ensures
        config_answer(fields, agent_token, agents, config) == ConfigAnswerView::Served(
            resolved(config, agents[agent_id].hostname)->Ok_0,
        ),
{
}

/// Once a session has ended, no agent is served through it, whichever it names
/// and whatever it presents.
pub proof fn law_ended_session_is_refused(
    agents: Map<Seq<char>, ConnectedAgentView>,
    session: SessionView,
    config: ControlConfigFileView,
    agent_id: Seq<char>,
    token: Option<Seq<char>>,
)
    requires
        holds_only_its_agent(agents, session),
    ensures
        request_answer(
            true,
            Some(agent_id),
            Some(session.connection_id),
            token,
            without_session(agents, session),
            config,
        ) == ConfigAnswerView::Forbidden,
{
    law_session_end_removes_its_agent(agents, session);
    assert(!connected_through(
        without_session(agents, session),
        agent_id,
        session.connection_id,
    ));
}

/// A session sends an acknowledgement only after it has bound itself to the
/// agent that said hello.
pub proof fn law_acknowledged_agent_is_connected(
    config: ControlConfigFileView,
    agents: Map<Seq<char>, ConnectedAgentView>,
    session: SessionView,
    message: AgentControlMessageView,
    now: u64,
)
    requires
        message is Hello,
        after_event(config, agents, session, SessionEventView::Message(message), now).2 is Send,
    ensures
        ({
            let (next, bound, step) = after_event(
                config,
                agents,
                session,
                SessionEventView::Message(message),
                now,
            );
            &&& bound.current_agent_id == Some(message->Hello_agent_id)
            &&& connected_through(next, message->Hello_agent_id, session.connection_id)
            &&& step == SessionStepView::Send(
                ServerControlMessageView::HelloAck {
                    server_time_unix_seconds: now,
                    config_session_id: session.connection_id,
                },
            )
        }),
{
}

/// A request is refused for the first of these that holds: it lacks the agent
/// token, it names no agent or no session, the agent is not connected through that
/// session, or it lacks the credential. A config that is not valid is not served.
pub proof fn law_requests_are_refused_for_these_reasons(
    authorized: bool,
    agent_id: Option<Seq<char>>,
    session_id: Option<Seq<char>>,
    token: Option<Seq<char>>,
    agents: Map<Seq<char>, ConnectedAgentView>,
    config: ControlConfigFileView,
)
    ensures
        ({
            let answer = request_answer(
                authorized,
                agent_id,
                session_id,
                token,
                agents,
                config,
            );
            let named = agent_id is Some && session_id is Some;
            let held = agents.contains_key(agent_id->0) && agents[agent_id->0].connection_id
                == session_id->0;
            let agent = agents[agent_id->0];
            let trusted = config.agents.contains_key(agent.agent_id)
                && config.agents[agent.agent_id].hostname == agent.hostname
                && config.agents[agent.agent_id].config_token is Some && token is Some
                && secret_matches(config.agents[agent.agent_id].config_token->0, token->0);
            let good = resolved(config, agent.hostname);
            &&& answer is Unauthorized <==> !authorized
            &&& answer is BadRequest <==> authorized && !named
            &&& answer is Forbidden <==> authorized && named && !(held && trusted)
            &&& answer is Invalid <==> authorized && named && held && trusted && good is Err
            &&& answer is Served <==> authorized && named && held && trusted && good is Ok
            &&& answer is Served ==> answer->Served_0 == good->Ok_0
            &&& answer is Invalid ==> answer->Invalid_0 == good->Err_0
        }),
{
}

/// A request is authorized by its bearer token, and names its agent, its session
/// and its credential in header fields of these names.
pub proof fn law_requests_are_read_from_these_fields(
    fields: Map<Seq<char>, Seq<u8>>,
    agent_token: Seq<char>,
    agents: Map<Seq<char>, ConnectedAgentView>,
    config: ControlConfigFileView,
)
    ensures
        config_answer(fields, agent_token, agents, config) == request_answer(
            bears(fields, agent_token),
            trimmed_field(fields, "x-talia-agent-id"@),
            trimmed_field(fields, "x-talia-config-session-id"@),
            trimmed_field(fields, "x-talia-agent-config-token"@),
            agents,
            config,
        ),
{
}

/// Answers have these HTTP statuses.
pub proof fn law_answers_have_their_statuses(answer: ConfigAnswerView, reload: ReloadAnswer)
    ensures
        answer_status(answer) == 200 <==> answer is Served,
        answer_status(answer) == 401 <==> answer is Unauthorized,
        answer_status(answer) == 400 <==> answer is BadRequest,
        answer_status(answer) == 403 <==> answer is Forbidden,
        answer_status(answer) == 500 <==> answer is Invalid,
        reload.http_status() == 200 <==> reload is Reloaded,
        reload.http_status() == 401 <==> reload is Unauthorized,
        reload.http_status() == 500 <==> reload is Unreadable || reload is Invalid,
{
}

/// What does not come from the agent changes neither the registry nor the session;
/// notifications are passed on as they are, missed ones and frames without text
/// are passed over, the end of either side ends the session, and what cannot be
/// read or understood fails it.
pub proof fn law_other_events_change_nothing(
    config: ControlConfigFileView,
    agents: Map<Seq<char>, ConnectedAgentView>,
    session: SessionView,
    event: SessionEventView,
    now: u64,
)
    ensures
        ({
            let (next, bound, step) = after_event(config, agents, session, event, now);
            &&& !(event is Message) ==> next == agents && bound == session
            &&& event matches SessionEventView::Notification(message) ==> step
                == SessionStepView::Send(message)
            &&& event is NotificationsMissed || event is OtherFrame ==> step is Continue
            &&& event is NotificationsEnded || event is Closed ==> step is Finish
            &&& event is UnknownText ==> step is FailUnknownText
            &&& event is ReadFailed ==> step is FailRead
            &&& event matches SessionEventView::Message(message) ==> {
                let (after, held, reply) = after_message(config, agents, session, message, now);
                &&& next == after
                &&& bound == held
                &&& reply matches ReplyView::Send(answer) ==> step == SessionStepView::Send(answer)
                &&& reply is Close ==> step is CloseSender
                &&& reply is Nothing ==> step is Continue
            }
        }),
{
}

} // verus!
