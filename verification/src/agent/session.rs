//! How an agent talks to its control server.

use vstd::prelude::*;
use vstd::slice::slice_subrange;
use vstd::utf8::{encode_utf8, is_ascii_chars, is_ascii_chars_encode_utf8};

use crate::agent::startup::{optional_runtime, ControlClientConfig, ControlClientConfigView};
use crate::agent::timing::{backed_off, Backoff};
use crate::config::bootstrap::{copy_optional, optional_text};
use crate::config::error::ConfigError;
use crate::config::runtime::{
    law_validation_accepts_exactly_the_valid, runtime_fault, valid_runtime, AgentRuntimeConfig,
    AgentRuntimeConfigView,
};
use crate::control::{
    AgentControlMessage, AgentControlMessageView, ServerControlMessage, ServerControlMessageView,
    AGENT_CONFIG_TOKEN_HEADER, AGENT_ID_HEADER, AUTHORIZATION_HEADER, BEARER_PREFIX,
    CONFIG_SESSION_ID_HEADER,
};
use crate::headers::{bears, is_visible, law_exact_token_authorizes, trimmed_field, visible_text};
use crate::identity::AgentIdentity;
use crate::runner::{enabled_collectors, enabled_names, registry};
use crate::text::{
    blank_text, chars_of, is_blank, is_white_space, law_trimmed_is_projection, lemma_trimmed_empty,
    lemma_trimmed_end_shape, lemma_trimmed_start_shape, text_of, trim_text, trimmed, trimmed_end,
    trimmed_start,
};
use crate::time::{seconds, Duration};

verus! {

// ---------------------------------------------------------------------------
// Messages
// ---------------------------------------------------------------------------

/// The message with which an agent introduces itself.
pub open spec fn hello_said(
    agent_id: Seq<char>,
    hostname: Seq<char>,
    agent_version: Seq<char>,
    boot_id: Option<Seq<char>>,
) -> AgentControlMessageView {
    AgentControlMessageView::Hello { agent_id, hostname, agent_version, boot_id }
}

/// The message with which an agent reports that it is alive, which config it
/// applies, and what it collects.
pub open spec fn heartbeat_said(
    agent_id: Seq<char>,
    hostname: Seq<char>,
    agent_version: Seq<char>,
    config: AgentRuntimeConfigView,
) -> AgentControlMessageView {
    AgentControlMessageView::Heartbeat {
        agent_id,
        hostname,
        agent_version,
        config_version: config.version,
        enabled_collectors: enabled_names(registry(), config, registry().len() as int),
    }
}

/// Builds the message with which an agent introduces itself.
pub fn hello_message(identity: &AgentIdentity, agent_version: &str) -> (r: AgentControlMessage)
    ensures
        r@ == (AgentControlMessageView::Hello {
            agent_id: identity.agent_id@,
            hostname: identity.hostname@,
            agent_version: agent_version@,
            boot_id: optional_text(identity.boot_id),
        }),
        r@ == hello_said(
            identity.agent_id@,
            identity.hostname@,
            agent_version@,
            optional_text(identity.boot_id),
        ),
{
    AgentControlMessage::Hello {
        agent_id: identity.agent_id.clone(),
        hostname: identity.hostname.clone(),
        agent_version: agent_version.to_string(),
        boot_id: copy_optional(&identity.boot_id),
    }
}

/// Builds the message with which an agent reports that it is alive, which config
/// it applies, and what it collects.
pub fn heartbeat_message(
    identity: &AgentIdentity,
    agent_version: &str,
    config: &AgentRuntimeConfig,
) -> (r: AgentControlMessage)
    ensures
        r@ == (AgentControlMessageView::Heartbeat {
            agent_id: identity.agent_id@,
            hostname: identity.hostname@,
            agent_version: agent_version@,
            config_version: config@.version,
            enabled_collectors: enabled_names(registry(), config@, registry().len() as int),
        }),
        r@ == heartbeat_said(
            identity.agent_id@,
            identity.hostname@,
            agent_version@,
            config@,
        ),
{
    AgentControlMessage::Heartbeat {
        agent_id: identity.agent_id.clone(),
        hostname: identity.hostname.clone(),
        agent_version: agent_version.to_string(),
        config_version: config.version.clone(),
        enabled_collectors: enabled_collectors(config),
    }
}

/// What an agent does on a message of its control server.
#[derive(Debug)]
pub enum ServerMessageStep {
    /// Fetch the runtime config under a config session.
    Refresh {
        /// The config session.
        config_session_id: String,
    },
    /// Nothing: there is no config session yet.
    NoSession,
}

/// The config session after a message of the control server, which is also the
/// one to fetch the runtime config under.
pub open spec fn session_after(
    current: Option<Seq<char>>,
    message: ServerControlMessageView,
) -> Option<Seq<char>> {
    match message {
        ServerControlMessageView::HelloAck { config_session_id, .. } => Some(config_session_id),
        ServerControlMessageView::ConfigChanged { .. } => current,
    }
}

/// Takes a message of the control server in: an acknowledgement gives the agent
/// a new config session, and either message has it fetch its config.
pub fn handle_server_message(
    config_session_id: &mut Option<String>,
    message: ServerControlMessage,
) -> (r: ServerMessageStep)
    ensures
        optional_text(*final(config_session_id)) == session_after(
            optional_text(*old(config_session_id)),
            message@,
        ),
        match r {
            ServerMessageStep::Refresh { config_session_id: id } => session_after(
                optional_text(*old(config_session_id)),
                message@,
            ) == Some(id@),
            ServerMessageStep::NoSession => session_after(
                optional_text(*old(config_session_id)),
                message@,
            ) is None,
        },
{
    match message {
        ServerControlMessage::HelloAck {
            server_time_unix_seconds: _,
            config_session_id: session,
        } => {
            *config_session_id = Some(session.clone());
            ServerMessageStep::Refresh { config_session_id: session }
        },
        ServerControlMessage::ConfigChanged { version: _ } => refresh_with_current_session(
            config_session_id,
        ),
    }
}

/// Decides whether the runtime config can be fetched under the current config
/// session.
pub fn refresh_with_current_session(config_session_id: &Option<String>) -> (r: ServerMessageStep)
    ensures
        match r {
            ServerMessageStep::Refresh { config_session_id: id } => optional_text(
                *config_session_id,
            ) == Some(id@),
            ServerMessageStep::NoSession => config_session_id is None,
        },
{
    match config_session_id {
        Some(session) => ServerMessageStep::Refresh { config_session_id: session.clone() },
        None => ServerMessageStep::NoSession,
    }
}

// ---------------------------------------------------------------------------
// Control sessions
// ---------------------------------------------------------------------------

/// Builds the messages with which an agent opens a control session: it says
/// hello, and reports at once.
pub fn opening_messages(
    identity: &AgentIdentity,
    agent_version: &str,
    config: &AgentRuntimeConfig,
) -> (r: (AgentControlMessage, AgentControlMessage))
    ensures
        r.0@ == (AgentControlMessageView::Hello {
            agent_id: identity.agent_id@,
            hostname: identity.hostname@,
            agent_version: agent_version@,
            boot_id: optional_text(identity.boot_id),
        }),
        r.0@ == hello_said(
            identity.agent_id@,
            identity.hostname@,
            agent_version@,
            optional_text(identity.boot_id),
        ),
        r.1@ == (AgentControlMessageView::Heartbeat {
            agent_id: identity.agent_id@,
            hostname: identity.hostname@,
            agent_version: agent_version@,
            config_version: config@.version,
            enabled_collectors: enabled_names(registry(), config@, registry().len() as int),
        }),
        r.1@ == heartbeat_said(
            identity.agent_id@,
            identity.hostname@,
            agent_version@,
            config@,
        ),
{
    (hello_message(identity, agent_version), heartbeat_message(identity, agent_version, config))
}

/// What happens on a control session of an agent.
#[derive(Debug)]
pub enum ControlEvent {
    /// It is time for a heartbeat.
    HeartbeatDue,
    /// The server sent a control message.
    Message(ServerControlMessage),
    /// The server sent a text that is no control message.
    UnknownText,
    /// The server sent a frame that carries no text.
    OtherFrame,
    /// There is nothing more to read.
    Ended,
    /// The connection could not be read.
    ReadFailed,
}

/// What an agent does on a control session.
#[derive(Debug)]
pub enum ControlStep {
    /// Send a heartbeat, and go on.
    SendHeartbeat,
    /// Fetch the runtime config under a config session, and go on.
    Refresh {
        /// The config session.
        config_session_id: String,
    },
    /// Go on.
    Continue,
    /// The session has ended in good order.
    Finish,
    /// The session has failed: the server sent what is no control message.
    FailUnknownText,
    /// The session has failed: the connection could not be read.
    FailRead,
}

/// What a [`ControlStep`] says.
pub enum ControlStepView {
    SendHeartbeat,
    Refresh { config_session_id: Seq<char> },
    Continue,
    Finish,
    FailUnknownText,
    FailRead,
}

impl View for ControlStep {
    type V = ControlStepView;

    open spec fn view(&self) -> ControlStepView {
        match self {
            ControlStep::SendHeartbeat => ControlStepView::SendHeartbeat,
            ControlStep::Refresh { config_session_id } => ControlStepView::Refresh {
                config_session_id: config_session_id@,
            },
            ControlStep::Continue => ControlStepView::Continue,
            ControlStep::Finish => ControlStepView::Finish,
            ControlStep::FailUnknownText => ControlStepView::FailUnknownText,
            ControlStep::FailRead => ControlStepView::FailRead,
        }
    }
}

/// The config session after an event, and what to do.
pub open spec fn after_control_event(
    current: Option<Seq<char>>,
    event: ControlEvent,
) -> (Option<Seq<char>>, ControlStepView) {
    match event {
        ControlEvent::HeartbeatDue => (current, ControlStepView::SendHeartbeat),
        ControlEvent::Message(message) => {
            let next = session_after(current, message@);
            (
                next,
                match next {
                    Some(config_session_id) => ControlStepView::Refresh { config_session_id },
                    None => ControlStepView::Continue,
                },
            )
        },
        ControlEvent::OtherFrame => (current, ControlStepView::Continue),
        ControlEvent::Ended => (current, ControlStepView::Finish),
        ControlEvent::UnknownText => (current, ControlStepView::FailUnknownText),
        ControlEvent::ReadFailed => (current, ControlStepView::FailRead),
    }
}

/// Decides what to do on a control session when something happens on it.
pub fn control_step(config_session_id: &mut Option<String>, event: ControlEvent) -> (r: ControlStep)
    ensures
        (optional_text(*final(config_session_id)), r@) == after_control_event(
            optional_text(*old(config_session_id)),
            event,
        ),
{
    match event {
        ControlEvent::HeartbeatDue => ControlStep::SendHeartbeat,
        ControlEvent::Message(message) => match handle_server_message(config_session_id, message) {
            ServerMessageStep::Refresh { config_session_id: session } => ControlStep::Refresh {
                config_session_id: session,
            },
            ServerMessageStep::NoSession => ControlStep::Continue,
        },
        ControlEvent::OtherFrame => ControlStep::Continue,
        ControlEvent::Ended => ControlStep::Finish,
        ControlEvent::UnknownText => ControlStep::FailUnknownText,
        ControlEvent::ReadFailed => ControlStep::FailRead,
    }
}

/// Ends a control session: the agent has no config session any more, and waits
/// before it connects again.
pub fn control_ended(config_session_id: &mut Option<String>, backoff: &mut Backoff, closed: bool)
    -> (r: Duration)
    ensures
        *final(config_session_id) is None,
        r == seconds(backed_off(old(backoff).next(), closed).0 as int),
        final(backoff).next() == backed_off(old(backoff).next(), closed).1,
{
    *config_session_id = None;
    backoff.after_connection(closed)
}

// ---------------------------------------------------------------------------
// Config requests
// ---------------------------------------------------------------------------

/// A header of a request.
#[derive(Debug, PartialEq, Eq)]
pub struct RequestHeader {
    /// Name, in lower case.
    pub name: &'static str,
    /// Value.
    pub value: String,
}

/// What a list of headers says.
pub open spec fn header_views(list: Seq<RequestHeader>) -> Seq<(Seq<char>, Seq<char>)> {
    list.map_values(|h: RequestHeader| (h.name@, h.value@))
}

/// The header that carries the config credential, where the agent has one that
/// is not blank.
pub open spec fn credential_header(token: Option<Seq<char>>) -> Seq<(Seq<char>, Seq<char>)> {
    match token {
        Some(t) => if is_blank(t) {
            Seq::empty()
        } else {
            seq![(AGENT_CONFIG_TOKEN_HEADER@, trimmed(t))]
        },
        None => Seq::empty(),
    }
}

/// The headers with which an agent opens a control session.
pub open spec fn session_headers(control: ControlClientConfigView) -> Seq<(Seq<char>, Seq<char>)> {
    seq![(AUTHORIZATION_HEADER@, BEARER_PREFIX@ + control.token)] + credential_header(
        control.agent_config_token,
    )
}

/// The headers with which an agent asks for its config.
pub open spec fn config_headers(
    control: ControlClientConfigView,
    agent_id: Seq<char>,
    session_id: Seq<char>,
) -> Seq<(Seq<char>, Seq<char>)> {
    seq![
        (AUTHORIZATION_HEADER@, BEARER_PREFIX@ + control.token),
        (AGENT_ID_HEADER@, agent_id),
        (CONFIG_SESSION_ID_HEADER@, session_id),
    ] + credential_header(control.agent_config_token)
}

/// A text without the slashes at its end.
pub open spec fn without_slashes(s: Seq<char>) -> Seq<char>
    decreases s.len(),
{
    if s.len() > 0 && s.last() == '/' {
        without_slashes(s.drop_last())
    } else {
        s
    }
}

/// Where an agent asks for its config.
pub open spec fn config_url(http_url: Seq<char>) -> Seq<char> {
    without_slashes(http_url) + "/agent/config"@
}

fn push_credential(headers: &mut Vec<RequestHeader>, token: &Option<String>)
    ensures
        header_views(final(headers)@) == header_views(old(headers)@) + credential_header(
            optional_text(*token),
        ),
{
    let ghost before = headers@;
    if let Some(t) = token {
        if !blank_text(t.as_str()) {
            let header = RequestHeader {
                name: AGENT_CONFIG_TOKEN_HEADER,
                value: trim_text(t.as_str()),
            };
            headers.push(header);
            assert(header_views(before.push(header)) =~= header_views(before) + seq![
                (header.name@, header.value@),
            ]);
        }
    }
    assert(header_views(headers@) =~= header_views(before) + credential_header(
        optional_text(*token),
    ));
}

/// Builds the headers with which an agent opens a control session.
pub fn control_session_headers(control: &ControlClientConfig) -> (r: Vec<RequestHeader>)
    ensures
        header_views(r@) == session_headers(control@),
{
    let mut headers: Vec<RequestHeader> = Vec::new();
    headers.push(
        RequestHeader {
            name: AUTHORIZATION_HEADER,
            value: BEARER_PREFIX.to_string().concat(control.token.as_str()),
        },
    );
    assert(header_views(headers@) =~= seq![
        (AUTHORIZATION_HEADER@, BEARER_PREFIX@ + control.token@),
    ]);
    push_credential(&mut headers, &control.agent_config_token);
    headers
}

/// A request for a config.
#[derive(Debug)]
pub struct ConfigRequest {
    /// Where to ask.
    pub url: String,
    /// The headers to ask with.
    pub headers: Vec<RequestHeader>,
}

fn trim_slashes(s: &str) -> (r: String)
    ensures
        r@ == without_slashes(s@),
{
    let chars = chars_of(s);
    let mut n: usize = chars.len();
    assert(chars@.take(n as int) =~= chars@);
    while n > 0 && chars[n - 1] == '/'
        invariant
            chars@ == s@,
            n <= chars@.len(),
            without_slashes(chars@.take(n as int)) == without_slashes(s@),
        decreases n,
    {
        assert(chars@.take(n as int).drop_last() =~= chars@.take(n - 1));
        n = n - 1;
    }
    let kept = slice_subrange(chars.as_slice(), 0, n);
    assert(kept@ =~= chars@.take(n as int));
    text_of(kept)
}

/// Builds the request with which an agent asks for its config.
pub fn config_request(
    control: &ControlClientConfig,
    identity: &AgentIdentity,
    config_session_id: &str,
) -> (r: ConfigRequest)
    ensures
        r.url@ == config_url(control@.http_url),
        header_views(r.headers@) == config_headers(
            control@,
            identity.agent_id@,
            config_session_id@,
        ),
{
    let mut headers: Vec<RequestHeader> = Vec::new();
    headers.push(
        RequestHeader {
            name: AUTHORIZATION_HEADER,
            value: BEARER_PREFIX.to_string().concat(control.token.as_str()),
        },
    );
    headers.push(RequestHeader { name: AGENT_ID_HEADER, value: identity.agent_id.clone() });
    headers.push(
        RequestHeader { name: CONFIG_SESSION_ID_HEADER, value: config_session_id.to_string() },
    );
    assert(header_views(headers@) =~= seq![
        (AUTHORIZATION_HEADER@, BEARER_PREFIX@ + control.token@),
        (AGENT_ID_HEADER@, identity.agent_id@),
        (CONFIG_SESSION_ID_HEADER@, config_session_id@),
    ]);
    push_credential(&mut headers, &control.agent_config_token);
    let url = trim_slashes(control.http_url.as_str()).concat("/agent/config");
    ConfigRequest { url, headers }
}

/// What the status of an answer to a config request means.
#[derive(Clone, Copy, Debug, PartialEq, Eq, Structural)]
pub enum ConfigResponse {
    /// The server does not accept the agent's token.
    TokenRejected,
    /// The server reports another error.
    ServerError,
    /// The answer holds the config.
    Config,
}

/// What a status means: 401 is a rejected token, and every other status from 400
/// to 599 an error.
pub open spec fn response_meaning(status: u16) -> ConfigResponse {
    if status == 401 {
        ConfigResponse::TokenRejected
    } else if 400 <= status < 600 {
        ConfigResponse::ServerError
    } else {
        ConfigResponse::Config
    }
}

/// Decides what the status of an answer to a config request means.
pub fn config_response(status: u16) -> (r: ConfigResponse)
    ensures
        r == response_meaning(status),
{
    if status == 401 {
        return ConfigResponse::TokenRejected;
    }
    if 400 <= status && status < 600 {
        return ConfigResponse::ServerError;
    }
    ConfigResponse::Config
}

// ---------------------------------------------------------------------------
// Applying a config
// ---------------------------------------------------------------------------

/// What became of a fetched config.
#[derive(Debug)]
pub enum RefreshOutcome {
    /// It is applied.
    Applied,
    /// It is not valid, and the current one stays.
    Invalid(ConfigError),
    /// There was none, and the current one stays.
    FetchFailed,
}

/// The config that an agent applies after a fetch: the fetched one, where there
/// is one and it is valid, and otherwise the current one.
pub open spec fn refreshed(
    current: AgentRuntimeConfigView,
    fetched: Option<AgentRuntimeConfigView>,
) -> AgentRuntimeConfigView {
    match fetched {
        Some(config) => if runtime_fault(config) is None {
            config
        } else {
            current
        },
        None => current,
    }
}

/// Applies a fetched config, where there is one and it is valid.
pub fn apply_fetched(current: &mut AgentRuntimeConfig, fetched: Option<AgentRuntimeConfig>) -> (r:
    RefreshOutcome)
    ensures
        final(current)@ == refreshed(
            old(current)@,
            optional_runtime(fetched),
        ),
        match r {
            RefreshOutcome::Applied => fetched is Some && runtime_fault(fetched->0@) is None,
            RefreshOutcome::Invalid(e) => fetched is Some && runtime_fault(fetched->0@) == Some(e@),
            RefreshOutcome::FetchFailed => fetched is None,
        },
{
    match fetched {
        Some(config) => match config.validate() {
            Ok(_) => {
                *current = config;
                RefreshOutcome::Applied
            },
            Err(error) => RefreshOutcome::Invalid(error),
        },
        None => RefreshOutcome::FetchFailed,
    }
}

// ---------------------------------------------------------------------------
// Laws
// ---------------------------------------------------------------------------

/// An agent with a valid config keeps a valid config, whatever it fetches; and a
/// fetch that fails, or gives what is not valid, leaves the config as it was.
pub proof fn law_config_stays_valid(
    current: AgentRuntimeConfigView,
    fetched: Option<AgentRuntimeConfigView>,
)
    requires
        valid_runtime(current),
    ensures
        valid_runtime(refreshed(current, fetched)),
        fetched is None ==> refreshed(current, fetched) == current,
        fetched is Some && !valid_runtime(fetched->0) ==> refreshed(current, fetched) == current,
        fetched is Some && valid_runtime(fetched->0) ==> refreshed(current, fetched) == fetched->0,
{
    if fetched is Some {
        law_validation_accepts_exactly_the_valid(fetched->0);
    }
}

/// A text that a header can carry: visible ASCII, spaces and tabs.
pub open spec fn fits_header(s: Seq<char>) -> bool {
    forall|i: int| 0 <= i < s.len() ==> ' ' <= #[trigger] s[i] <= '~' || s[i] == '\t'
}

/// What a server reads of a text that a header carries: the text without the
/// white space around it, where some is left.
pub open spec fn carried(s: Seq<char>) -> Option<Seq<char>> {
    if is_blank(s) {
        None
    } else {
        Some(trimmed(s))
    }
}

/// What a server reads of a config credential, where the agent has one.
pub open spec fn carried_credential(token: Option<Seq<char>>) -> Option<Seq<char>> {
    match token {
        Some(t) => carried(t),
        None => None,
    }
}

/// An agent's token that is not blank, and its config credential, can be carried
/// by headers.
pub open spec fn can_be_sent(control: ControlClientConfigView) -> bool {
    &&& fits_header(control.token)
    &&& !is_blank(control.token)
    &&& control.agent_config_token is Some ==> fits_header(control.agent_config_token->0)
}

/// The fields that a server sees of a list of headers: under each name the first
/// value.
pub open spec fn fields_sent(list: Seq<(Seq<char>, Seq<char>)>) -> Map<Seq<char>, Seq<u8>>
    decreases list.len(),
{
    if list.len() == 0 {
        Map::empty()
    } else {
        let before = fields_sent(list.drop_last());
        if before.contains_key(list.last().0) {
            before
        } else {
            before.insert(list.last().0, encode_utf8(list.last().1))
        }
    }
}

proof fn lemma_carried(s: Seq<char>)
    requires
        fits_header(s),
    ensures
        visible_text(encode_utf8(s)) == Some(s),
{
    assert(is_ascii_chars(s));
    is_ascii_chars_encode_utf8(s);
    let bytes = encode_utf8(s);
    assert(bytes.len() == s.len());
    assert forall|i: int| 0 <= i < bytes.len() implies is_visible(#[trigger] bytes[i]) by {
        assert(bytes[i] == s[i] as u8);
    }
    assert(bytes.map_values(|b: u8| b as char) =~= s) by {
        assert forall|i: int| 0 <= i < s.len() implies bytes.map_values(|b: u8| b as char)[i]
            == #[trigger] s[i] by {
            assert(bytes[i] == s[i] as u8);
        }
    }
}

proof fn lemma_carried_trimmed(s: Seq<char>)
    requires
        fits_header(s),
        !is_blank(s),
    ensures
        fits_header(trimmed(s)),
        carried(trimmed(s)) == Some(trimmed(s)),
{
    lemma_trimmed_start_shape(s);
    let t = trimmed_start(s);
    lemma_trimmed_end_shape(t);
    let u = trimmed_end(t);
    let k = s.len() - t.len();
    assert forall|i: int| 0 <= i < u.len() implies ' ' <= #[trigger] u[i] <= '~' || u[i]
        == '\t' by {
        assert(u[i] == s[i + k]);
    }
    law_trimmed_is_projection(s);
    lemma_trimmed_empty(s);
    assert(!is_white_space(u[0]));
}

proof fn lemma_header_names_differ()
    ensures
        AUTHORIZATION_HEADER@ != AGENT_ID_HEADER@,
        AUTHORIZATION_HEADER@ != CONFIG_SESSION_ID_HEADER@,
        AUTHORIZATION_HEADER@ != AGENT_CONFIG_TOKEN_HEADER@,
        AGENT_ID_HEADER@ != CONFIG_SESSION_ID_HEADER@,
        AGENT_ID_HEADER@ != AGENT_CONFIG_TOKEN_HEADER@,
        CONFIG_SESSION_ID_HEADER@ != AGENT_CONFIG_TOKEN_HEADER@,
{
    reveal_strlit("authorization");
    reveal_strlit("x-talia-agent-id");
    reveal_strlit("x-talia-agent-config-token");
    reveal_strlit("x-talia-config-session-id");
    assert(AUTHORIZATION_HEADER@.len() == 13);
    assert(AGENT_ID_HEADER@.len() == 16);
    assert(AGENT_CONFIG_TOKEN_HEADER@.len() == 26);
    assert(CONFIG_SESSION_ID_HEADER@.len() == 25);
}

proof fn lemma_authorization_is_read(fields: Map<Seq<char>, Seq<u8>>, token: Seq<char>)
    requires
        fits_header(token),
        !is_blank(token),
        fields.contains_key(AUTHORIZATION_HEADER@),
        fields[AUTHORIZATION_HEADER@] == encode_utf8(BEARER_PREFIX@ + token),
    ensures
        bears(fields, token),
{
    reveal_strlit("Bearer ");
    lemma_carried(BEARER_PREFIX@ + token);
    law_exact_token_authorizes(fields, token);
}

proof fn lemma_credential_is_read(
    list: Seq<(Seq<char>, Seq<char>)>,
    token: Option<Seq<char>>,
    name: Seq<char>,
)
    requires
        !fields_sent(list).contains_key(AGENT_CONFIG_TOKEN_HEADER@),
        token is Some ==> fits_header(token->0),
        name != AGENT_CONFIG_TOKEN_HEADER@,
    ensures
        trimmed_field(fields_sent(list + credential_header(token)), AGENT_CONFIG_TOKEN_HEADER@)
            == carried_credential(token),
        fields_sent(list + credential_header(token)).contains_key(name) == fields_sent(
            list,
        ).contains_key(name),
        fields_sent(list + credential_header(token))[name] == fields_sent(list)[name],
{
    let all = list + credential_header(token);
    if token is Some && !is_blank(token->0) {
        lemma_carried_trimmed(token->0);
        lemma_carried(trimmed(token->0));
        assert(all.drop_last() =~= list);
    } else {
        assert(all =~= list);
    }
}

/// What an agent asks with is what the server reads: the request bears the
/// agent's token, and names the agent, the session and the credential.
pub proof fn law_config_request_is_understood(
    control: ControlClientConfigView,
    agent_id: Seq<char>,
    session_id: Seq<char>,
)
    requires
        can_be_sent(control),
        fits_header(agent_id),
        fits_header(session_id),
    ensures
        ({
            let fields = fields_sent(config_headers(control, agent_id, session_id));
            &&& bears(fields, control.token)
            &&& trimmed_field(fields, AGENT_ID_HEADER@) == carried(agent_id)
            &&& trimmed_field(fields, CONFIG_SESSION_ID_HEADER@) == carried(session_id)
            &&& trimmed_field(fields, AGENT_CONFIG_TOKEN_HEADER@) == carried_credential(
                control.agent_config_token,
            )
        }),
{
    lemma_header_names_differ();
    let a = (AUTHORIZATION_HEADER@, BEARER_PREFIX@ + control.token);
    let b = (AGENT_ID_HEADER@, agent_id);
    let c = (CONFIG_SESSION_ID_HEADER@, session_id);
    let none = Seq::<(Seq<char>, Seq<char>)>::empty();
    let one = none.push(a);
    let two = one.push(b);
    let three = two.push(c);
    assert(one.drop_last() =~= none);
    assert(two.drop_last() =~= one);
    assert(three.drop_last() =~= two);
    assert(three =~= seq![a, b, c]);
    reveal_with_fuel(fields_sent, 4);
    assert(fields_sent(three) =~= Map::<Seq<char>, Seq<u8>>::empty().insert(
        a.0,
        encode_utf8(a.1),
    ).insert(b.0, encode_utf8(b.1)).insert(c.0, encode_utf8(c.1)));
    let fields = fields_sent(config_headers(control, agent_id, session_id));
    lemma_credential_is_read(three, control.agent_config_token, a.0);
    lemma_credential_is_read(three, control.agent_config_token, b.0);
    lemma_credential_is_read(three, control.agent_config_token, c.0);
    lemma_carried(agent_id);
    lemma_carried(session_id);
    lemma_authorization_is_read(fields, control.token);
}

/// A control session that an agent opens bears the agent's token, and carries its
/// credential.
pub proof fn law_session_request_is_understood(control: ControlClientConfigView)
    requires
        can_be_sent(control),
    ensures
        ({
            let fields = fields_sent(session_headers(control));
            &&& bears(fields, control.token)
            &&& trimmed_field(fields, AGENT_CONFIG_TOKEN_HEADER@) == carried_credential(
                control.agent_config_token,
            )
        }),
{
    lemma_header_names_differ();
    let a = (AUTHORIZATION_HEADER@, BEARER_PREFIX@ + control.token);
    let none = Seq::<(Seq<char>, Seq<char>)>::empty();
    let one = none.push(a);
    assert(one.drop_last() =~= none);
    assert(one =~= seq![a]);
    reveal_with_fuel(fields_sent, 2);
    assert(fields_sent(one) =~= Map::<Seq<char>, Seq<u8>>::empty().insert(a.0, encode_utf8(a.1)));
    lemma_credential_is_read(one, control.agent_config_token, a.0);
    lemma_authorization_is_read(fields_sent(session_headers(control)), control.token);
}

/// After an acknowledgement the agent fetches under the session that was
/// acknowledged, and keeps doing so.
pub proof fn law_acknowledged_session_is_used(
    current: Option<Seq<char>>,
    server_time: u64,
    session_id: Seq<char>,
    version: Seq<char>,
)
    ensures
        ({
            let next = session_after(
                current,
                ServerControlMessageView::HelloAck {
                    server_time_unix_seconds: server_time,
                    config_session_id: session_id,
                },
            );
            &&& next == Some(session_id)
            &&& session_after(next, ServerControlMessageView::ConfigChanged { version }) == next
        }),
{
}

/// An answer holds the config unless its status is an error; of the errors, only
/// that of a missing authorization rejects the token.
pub proof fn law_status_tells_what_was_answered(status: u16)
    ensures
        response_meaning(status) is TokenRejected <==> status == 401,
        response_meaning(status) is ServerError <==> 400 <= status <= 599 && status != 401,
        response_meaning(status) is Config <==> status < 400 || status > 599,
{
}

/// A config is asked for at one path below the base URL, however many slashes that
/// ends in.
pub proof fn law_config_url_is_below_the_base(base: Seq<char>, slashes: Seq<char>)
    requires
        base.len() > 0 ==> base.last() != '/',
        forall|i: int| 0 <= i < slashes.len() ==> #[trigger] slashes[i] == '/',
    ensures
        config_url(base + slashes) == base + "/agent/config"@,
    decreases slashes.len(),
{
    if slashes.len() == 0 {
        assert(base + slashes =~= base);
    } else {
        let fewer = slashes.drop_last();
        assert forall|i: int| 0 <= i < fewer.len() implies #[trigger] fewer[i] == '/' by {
            assert(fewer[i] == slashes[i]);
        }
        law_config_url_is_below_the_base(base, fewer);
        assert((base + slashes).last() == slashes.last());
        assert((base + slashes).drop_last() =~= base + fewer);
    }
}

/// Only an acknowledgement changes the config session of an agent. A message has
/// the config fetched under the session there is; a heartbeat is sent when due;
/// frames without text are passed over; and the end, what cannot be understood and
/// what cannot be read each end the session in their own way.
pub proof fn law_events_lead_to_their_steps(current: Option<Seq<char>>, event: ControlEvent)
    ensures
        ({
            let (next, step) = after_control_event(current, event);
            &&& !(event is Message) ==> next == current
            &&& event is HeartbeatDue <==> step is SendHeartbeat
            &&& event is Ended <==> step is Finish
            &&& event is UnknownText <==> step is FailUnknownText
            &&& event is ReadFailed <==> step is FailRead
            &&& event is OtherFrame ==> step is Continue
            &&& event matches ControlEvent::Message(message) ==> {
                &&& message@ matches ServerControlMessageView::HelloAck {
                    config_session_id,
                    ..
                } ==> next == Some(config_session_id)
                &&& message@ is ConfigChanged ==> next == current
                &&& next matches Some(id) ==> step == (ControlStepView::Refresh {
                    config_session_id: id,
                })
                &&& next is None ==> step is Continue
            }
        }),
{
}

/// A credential is sent just where there is one that is not blank, without the
/// white space around it.
pub proof fn law_credential_is_sent_where_there_is_one(token: Option<Seq<char>>)
    ensures
        token is None || is_blank(token->0) ==> credential_header(token).len() == 0,
        token is Some && !is_blank(token->0) ==> credential_header(token) == seq![
            ("x-talia-agent-config-token"@, trimmed(token->0)),
        ],
{
}

} // verus!
