//! What agents and control servers can rely on in each other.

use vstd::prelude::*;

use crate::agent::session::{
    can_be_sent, carried, config_headers, fields_sent, fits_header, heartbeat_said, hello_said,
    law_config_request_is_understood, law_session_request_is_understood, session_headers,
};
use crate::agent::startup::ControlClientConfigView;
use crate::config::control_file::{resolved, ControlConfigFileView};
use crate::config::runtime::AgentRuntimeConfigView;
use crate::control::{AgentControlMessageView, AGENT_CONFIG_TOKEN_HEADER};
use crate::digits::{is_hex_char, lemma_hex_char};
use crate::headers::trimmed_field;
use crate::identity::is_random_uuid;
use crate::runner::law_enabled_collectors_are_those_switched_on;
use crate::server::registry::{
    after_message, connected_through, hello_accepted, with_hello, AgentHelloView,
    ConnectedAgentView, SessionView,
};
use crate::server::service::{config_answer, law_enrolled_agent_is_served, ConfigAnswerView};
use crate::text::law_trimmed_is_projection;

verus! {

proof fn lemma_connection_id_is_carried(id: Seq<char>)
    requires
        is_random_uuid(id),
    ensures
        fits_header(id),
        carried(id) == Some(id),
{
    assert forall|i: int| 0 <= i < id.len() implies ' ' <= #[trigger] id[i] <= '~' by {
        if i == 8 || i == 13 || i == 18 || i == 23 {
            assert(id[i] == '-');
        } else {
            assert(is_hex_char(id[i]));
            lemma_hex_char(id[i]);
        }
    }
    assert(is_hex_char(id[0]));
    assert(is_hex_char(id[35]));
    law_trimmed_is_projection(id);
}

/// An agent that opens a control session with its token and its credential, and
/// whose hello on it is accepted, is served the valid config of its host when it
/// asks under the session that was acknowledged.
pub proof fn law_accepted_agent_gets_its_config(
    config: ControlConfigFileView,
    agents: Map<Seq<char>, ConnectedAgentView>,
    session: SessionView,
    hello: AgentHelloView,
    control: ControlClientConfigView,
    now: u64,
)
    requires
        can_be_sent(control),
        is_random_uuid(session.connection_id),
        session.agent_config_token == trimmed_field(
            fields_sent(session_headers(control)),
            AGENT_CONFIG_TOKEN_HEADER@,
        ),
        fits_header(hello.agent_id),
        carried(hello.agent_id) == Some(hello.agent_id),
        hello_accepted(config, agents, session, hello),
        resolved(config, hello.hostname) is Ok,
    ensures
        ({
            let next = with_hello(agents, session, hello, now);
            let fields = fields_sent(
                config_headers(control, hello.agent_id, session.connection_id),
            );
            config_answer(fields, control.token, next, config) == ConfigAnswerView::Served(
                resolved(config, hello.hostname)->Ok_0,
            )
        }),
{
    let next = with_hello(agents, session, hello, now);
    let fields = fields_sent(config_headers(control, hello.agent_id, session.connection_id));
    lemma_connection_id_is_carried(session.connection_id);
    law_session_request_is_understood(control);
    law_config_request_is_understood(control, hello.agent_id, session.connection_id);
    law_enrolled_agent_is_served(
        fields,
        control.token,
        next,
        config,
        hello.agent_id,
        session.connection_id,
    );
}

/// Once its hello was accepted, what an agent reports in a heartbeat on the same
/// session is what the server knows of it.
pub proof fn law_heartbeat_reaches_the_registry(
    config: ControlConfigFileView,
    agents: Map<Seq<char>, ConnectedAgentView>,
    session: SessionView,
    hello: AgentHelloView,
    config_version: Seq<char>,
    enabled_collectors: Seq<Seq<char>>,
    connected_at: u64,
    now: u64,
)
    requires
        hello_accepted(config, agents, session, hello),
    ensures
        ({
            let known = with_hello(agents, session, hello, connected_at);
            let bound = SessionView { current_agent_id: Some(hello.agent_id), ..session };
            let (next, after, reply) = after_message(
                config,
                known,
                bound,
                AgentControlMessageView::Heartbeat {
                    agent_id: hello.agent_id,
                    hostname: hello.hostname,
                    agent_version: hello.agent_version,
                    config_version,
                    enabled_collectors,
                },
                now,
            );
            &&& after == bound
            &&& reply is Nothing
            &&& connected_through(next, hello.agent_id, session.connection_id)
            &&& next[hello.agent_id] == (ConnectedAgentView {
                config_version: Some(config_version),
                enabled_collectors,
                last_seen_unix_seconds: now,
                ..known[hello.agent_id]
            })
        }),
{
}

/// What an agent reports of itself is what the server records of it: the host and
/// the version it names, the version of the config it applies, and as collectors
/// just those that this config has switched on.
pub proof fn law_record_tells_what_the_agent_applies(
    config: ControlConfigFileView,
    agents: Map<Seq<char>, ConnectedAgentView>,
    session: SessionView,
    agent_id: Seq<char>,
    hostname: Seq<char>,
    agent_version: Seq<char>,
    applied: AgentRuntimeConfigView,
    now: u64,
)
    requires
        session.current_agent_id == Some(agent_id),
        connected_through(agents, agent_id, session.connection_id),
    ensures
        ({
            let message = heartbeat_said(agent_id, hostname, agent_version, applied);
            let record = after_message(config, agents, session, message, now).0[agent_id];
            &&& record.hostname == hostname
            &&& record.agent_version == agent_version
            &&& record.config_version == Some(applied.version)
            &&& record.last_seen_unix_seconds == now
            &&& record.enabled_collectors.contains("storage"@) <==> applied.storage.enabled
            &&& record.enabled_collectors.contains("memory"@) <==> applied.memory.enabled
            &&& record.enabled_collectors.contains("cpu"@) <==> applied.cpu.enabled
            &&& record.enabled_collectors.contains("network"@) <==> applied.network.enabled
            &&& record.enabled_collectors.contains("disk_io"@) <==> applied.disk_io.enabled
        }),
{
    law_enabled_collectors_are_those_switched_on(applied);
}

/// An agent that introduces itself, and whose hello is acknowledged, is recorded
/// under its own id with the host, the version and the boot it names.
pub proof fn law_record_tells_who_the_agent_is(
    config: ControlConfigFileView,
    agents: Map<Seq<char>, ConnectedAgentView>,
    session: SessionView,
    agent_id: Seq<char>,
    hostname: Seq<char>,
    agent_version: Seq<char>,
    boot_id: Option<Seq<char>>,
    now: u64,
)
    requires
        after_message(
            config,
            agents,
            session,
            hello_said(agent_id, hostname, agent_version, boot_id),
            now,
        ).2 is Send,
    ensures
        ({
            let message = hello_said(agent_id, hostname, agent_version, boot_id);
            let record = after_message(config, agents, session, message, now).0[agent_id];
            &&& record.agent_id == agent_id
            &&& record.hostname == hostname
            &&& record.agent_version == agent_version
            &&& record.boot_id == boot_id
            &&& record.connection_id == session.connection_id
        }),
{
}

} // verus!
