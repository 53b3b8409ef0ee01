//! Identifiers of agents, connections and hosts.

use vstd::prelude::*;

use crate::config::bootstrap::optional_text;
use crate::digits::is_hex_char;
use crate::text::{
    blank_text, is_blank, is_trimmed, is_white_space, law_white_space_around_is_dropped, trim_text,
    trimmed, trimmed_end, trimmed_start,
};

verus! {

/// The name of the file in the state directory that holds the agent id.
pub const AGENT_ID_FILE: &'static str = "agent-id";

/// Where Linux shows the identifier of the current boot.
pub const BOOT_ID_PATH: &'static str = "/proc/sys/kernel/random/boot_id";

/// Errors returned while a persistent agent identity is loaded or created.
#[derive(Debug, PartialEq, Eq)]
pub enum IdentityError {
    /// The agent state directory could not be created.
    CreateStateDir {
        /// Directory path that failed to be created.
        path: String,
        /// What the operating system said.
        source: String,
    },
    /// The existing agent id file could not be read.
    ReadAgentId {
        /// Agent id file path that failed to be read.
        path: String,
        /// What the operating system said.
        source: String,
    },
    /// A new agent id file could not be written.
    WriteAgentId {
        /// Agent id file path that failed to be written.
        path: String,
        /// What the operating system said.
        source: String,
    },
    /// The existing agent id file did not contain an id.
    EmptyAgentId {
        /// Agent id file path that was empty.
        path: String,
    },
}

impl IdentityError {
    /// The message of the error, for people.
    pub open spec fn text(&self) -> Seq<char> {
        match self {
            IdentityError::CreateStateDir { path, source } => "failed to create state directory "@
                + path@ + ": "@ + source@,
            IdentityError::ReadAgentId { path, source } => "failed to read agent id from "@ + path@
                + ": "@ + source@,
            IdentityError::WriteAgentId { path, source } => "failed to write agent id to "@ + path@
                + ": "@ + source@,
            IdentityError::EmptyAgentId { path } => "agent id file "@ + path@ + " is empty"@,
        }
    }

    /// The message of the error, for people.
    pub fn message(&self) -> (r: String)
        ensures
            r@ == self.text(),
    {
        match self {
            IdentityError::CreateStateDir {
                path,
                source,
            } => "failed to create state directory ".to_string().concat(path.as_str()).concat(
                ": ",
            ).concat(source.as_str()),
            IdentityError::ReadAgentId {
                path,
                source,
            } => "failed to read agent id from ".to_string().concat(path.as_str()).concat(
                ": ",
            ).concat(source.as_str()),
            IdentityError::WriteAgentId {
                path,
                source,
            } => "failed to write agent id to ".to_string().concat(path.as_str()).concat(
                ": ",
            ).concat(source.as_str()),
            IdentityError::EmptyAgentId { path } => "agent id file ".to_string().concat(
                path.as_str(),
            ).concat(" is empty"),
        }
    }
}

/// The form of a random UUID: groups of 8, 4, 4, 4 and 12 lower-case
/// hexadecimal digits, with hyphens between them, the version and the variant
/// each in their place.
pub open spec fn is_random_uuid(s: Seq<char>) -> bool {
    &&& s.len() == 36
    &&& forall|i: int|
        0 <= i < 36 ==> if i == 8 || i == 13 || i == 18 || i == 23 {
            #[trigger] s[i] == '-'
        } else {
            is_hex_char(s[i])
        }
    &&& s[14] == '4'
    &&& s[19] == '8' || s[19] == '9' || s[19] == 'a' || s[19] == 'b'
}

/// Draws a random identifier with `uuid::Uuid::new_v4`, and writes it with the
/// `Display` of `Uuid`.
///
/// Taken on trust: the text has the form of a random UUID. That two identifiers
/// differ is not stated: they do but with a negligible chance. The call panics
/// where the operating system gives no random bytes.
#[verifier::external_body]
pub(crate) fn random_uuid() -> (r: String)
    ensures
        is_random_uuid(r@),
{
    uuid::Uuid::new_v4().to_string()
}

/// An identifier as it is stored in a file: on a line of its own.
pub open spec fn stored_form(id: Seq<char>) -> Seq<char> {
    id + "\n"@
}

/// The text of a file without the white space around it, where some is left.
pub open spec fn stored_text(contents: Seq<char>) -> Option<Seq<char>> {
    if is_blank(contents) {
        None
    } else {
        Some(trimmed(contents))
    }
}

/// Who an agent is: its persistent id, its host, and the host's current boot.
#[derive(Debug)]
pub struct AgentIdentity {
    /// Persistent agent identifier.
    pub agent_id: String,
    /// Host name.
    pub hostname: String,
    /// Host boot identifier, when available.
    pub boot_id: Option<String>,
}

/// An agent id, and what to store where the id is new.
#[derive(Debug)]
pub struct LoadedAgentId {
    /// The agent id.
    pub agent_id: String,
    /// What to write to the agent id file, where there is none yet.
    pub to_store: Option<String>,
}

/// Takes the text of a file, without the white space around it, where some is
/// left.
pub fn read_trimmed(contents: Option<&str>) -> (r: Option<String>)
    ensures
        match (contents, r) {
            (Some(c), Some(t)) => stored_text(c@) == Some(t@),
            (Some(c), None) => stored_text(c@) is None,
            (None, _) => r is None,
        },
{
    match contents {
        Some(c) => if blank_text(c) {
            None
        } else {
            Some(trim_text(c))
        },
        None => None,
    }
}

/// Takes the boot id from the contents of the boot id file, where that could be
/// read.
pub fn read_boot_id(contents: Option<&str>) -> (r: Option<String>)
    ensures
        match (contents, r) {
            (Some(c), Some(t)) => stored_text(c@) == Some(t@),
            (Some(c), None) => stored_text(c@) is None,
            (None, _) => r is None,
        },
{
    read_trimmed(contents)
}

/// The id of an agent and what to store of it, from what is stored already, or
/// else from an id that was drawn; nothing where what is stored is blank.
pub open spec fn id_and_storage(stored: Option<Seq<char>>, drawn: Seq<char>) -> Option<
    (Seq<char>, Option<Seq<char>>),
> {
    match stored {
        Some(contents) => match stored_text(contents) {
            Some(id) => Some((id, None)),
            None => None,
        },
        None => Some((drawn, Some(stored_form(drawn)))),
    }
}

/// The text of an optional slice.
pub open spec fn optional_contents(s: Option<&str>) -> Option<Seq<char>> {
    match s {
        Some(t) => Some(t@),
        None => None,
    }
}

/// Takes the persistent agent id from the contents of the agent id file, or
/// makes a new one where there is no such file.
pub fn load_or_create_agent_id(path: &str, stored: Option<&str>) -> (r: Result<
    LoadedAgentId,
    IdentityError,
>)
    ensures
        match r {
            Ok(loaded) => id_and_storage(optional_contents(stored), loaded.agent_id@) == Some(
                (loaded.agent_id@, optional_text(loaded.to_store)),
            ),
            Err(_) => forall|drawn: Seq<char>|
                #[trigger] id_and_storage(optional_contents(stored), drawn) is None,
        },
        match stored {
            Some(contents) => match stored_text(contents@) {
                Some(id) => {
                    &&& r is Ok
                    &&& r->Ok_0.agent_id@ == id
                    &&& r->Ok_0.to_store is None
                },
                None => {
                    &&& r matches Err(IdentityError::EmptyAgentId { path: p })
                    &&& p@ == path@
                },
            },
            None => {
                &&& r is Ok
                &&& is_random_uuid(r->Ok_0.agent_id@)
                &&& r->Ok_0.to_store matches Some(contents)
                &&& contents@ == stored_form(r->Ok_0.agent_id@)
            },
        },
{
    match stored {
        Some(contents) => match read_trimmed(Some(contents)) {
            Some(agent_id) => Ok(LoadedAgentId { agent_id, to_store: None }),
            None => Err(IdentityError::EmptyAgentId { path: path.to_string() }),
        },
        None => {
            let agent_id = random_uuid();
            let contents = agent_id.clone().concat("\n");
            Ok(LoadedAgentId { agent_id, to_store: Some(contents) })
        },
    }
}

/// An identifier that is stored is read back as it was.
pub proof fn law_stored_id_is_read_back(id: Seq<char>)
    requires
        id.len() > 0,
        is_trimmed(id),
    ensures
        stored_text(stored_form(id)) == Some(id),
{
    reveal_strlit("\n");
    let contents = stored_form(id);
    assert(contents[0] == id[0]);
    assert(!is_blank(contents));
    assert(trimmed_start(contents) == contents);
    assert(contents.last() == '\n');
    assert(is_white_space('\n'));
    assert(contents.drop_last() == id);
    assert(trimmed_end(contents) == trimmed_end(id));
}

/// A new agent id is found again at the next start.
pub proof fn law_new_agent_id_is_found_again(id: Seq<char>)
    requires
        is_random_uuid(id),
    ensures
        stored_text(stored_form(id)) == Some(id),
{
    assert(is_hex_char(id[0]));
    assert(is_hex_char(id[35]));
    law_stored_id_is_read_back(id);
}

/// What is stored is read without the white space around it, and what is blank is
/// nothing.
pub proof fn law_stored_text_is_read_between_white_space(
    before: Seq<char>,
    text: Seq<char>,
    after: Seq<char>,
)
    requires
        is_blank(before),
        is_blank(after),
        text.len() > 0,
        is_trimmed(text),
    ensures
        stored_text(before + text + after) == Some(text),
        stored_text(before) is None,
{
    law_white_space_around_is_dropped(before, text, after);
}

/// An agent keeps its id: what is stored when an id is drawn gives that id back
/// ever after, whatever else could be drawn, and nothing more is stored; what is
/// stored but blank gives none.
pub proof fn law_agent_keeps_its_id(drawn: Seq<char>, other: Seq<char>, blank: Seq<char>)
    requires
        is_random_uuid(drawn),
        is_blank(blank),
    ensures
        id_and_storage(None, drawn) is Some,
        ({
            let (id, to_store) = id_and_storage(None, drawn)->0;
            &&& id == drawn
            &&& to_store is Some
            &&& id_and_storage(to_store, other) == Some((drawn, None::<Seq<char>>))
        }),
        id_and_storage(Some(blank), other) is None,
{
    law_new_agent_id_is_found_again(drawn);
}

} // verus!
