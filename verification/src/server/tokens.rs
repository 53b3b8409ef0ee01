//! The secrets that a control server is started with.

use vstd::prelude::*;

use crate::text::{
    blank_text, is_blank, is_trimmed, law_trimmed_is_projection,
    law_white_space_around_is_dropped, lemma_trimmed_empty, same_text, trim_text, trimmed,
};

verus! {

/// Why a pair of control tokens was refused.
#[derive(Clone, Copy, Debug, PartialEq, Eq, Structural)]
pub enum TokenError {
    /// The token of agents was blank.
    EmptyAgentToken,
    /// The token of administrators was blank.
    EmptyAdminToken,
    /// Agents and administrators had one token.
    SameToken,
}

impl TokenError {
    /// The message of the error, for people.
    pub open spec fn text(self) -> Seq<char> {
        match self {
            TokenError::EmptyAgentToken => "TALIA_CONTROL_TOKEN must not be empty"@,
            TokenError::EmptyAdminToken => "TALIA_ADMIN_TOKEN must not be empty"@,
            TokenError::SameToken => "TALIA_ADMIN_TOKEN must be distinct from TALIA_CONTROL_TOKEN"@,
        }
    }

    /// The message of the error, for people.
    pub fn message(&self) -> (r: &'static str)
        ensures
            r@ == self.text(),
    {
        match self {
            TokenError::EmptyAgentToken => "TALIA_CONTROL_TOKEN must not be empty",
            TokenError::EmptyAdminToken => "TALIA_ADMIN_TOKEN must not be empty",
            TokenError::SameToken => "TALIA_ADMIN_TOKEN must be distinct from TALIA_CONTROL_TOKEN",
        }
    }
}

/// What is wrong with the tokens of agents and of administrators.
pub open spec fn token_fault(agent_token: Seq<char>, admin_token: Seq<char>) -> Option<TokenError> {
    if is_blank(agent_token) {
        Some(TokenError::EmptyAgentToken)
    } else if is_blank(admin_token) {
        Some(TokenError::EmptyAdminToken)
    } else if trimmed(agent_token) == trimmed(admin_token) {
        Some(TokenError::SameToken)
    } else {
        None
    }
}

/// The tokens that a server goes by, or what is wrong with those it was given.
pub open spec fn accepted_tokens(agent_token: Seq<char>, admin_token: Seq<char>) -> Result<
    (Seq<char>, Seq<char>),
    TokenError,
> {
    match token_fault(agent_token, admin_token) {
        None => Ok((trimmed(agent_token), trimmed(admin_token))),
        Some(fault) => Err(fault),
    }
}

/// Checks the tokens of agents and of administrators, and takes the white space
/// around them away.
pub fn validate_control_tokens(agent_token: String, admin_token: String) -> (r: Result<
    (String, String),
    TokenError,
>)
    ensures
        match r {
            Ok(tokens) => accepted_tokens(agent_token@, admin_token@) == Ok::<
                (Seq<char>, Seq<char>),
                TokenError,
            >((tokens.0@, tokens.1@)),
            Err(error) => accepted_tokens(agent_token@, admin_token@) == Err::<
                (Seq<char>, Seq<char>),
                TokenError,
            >(error),
        },
        match r {
            Ok(tokens) => {
                &&& token_fault(agent_token@, admin_token@) is None
                &&& tokens.0@ == trimmed(agent_token@)
                &&& tokens.1@ == trimmed(admin_token@)
            },
            Err(error) => token_fault(agent_token@, admin_token@) == Some(error),
        },
{
    if blank_text(agent_token.as_str()) {
        return Err(TokenError::EmptyAgentToken);
    }
    if blank_text(admin_token.as_str()) {
        return Err(TokenError::EmptyAdminToken);
    }
    let agent_token = trim_text(agent_token.as_str());
    let admin_token = trim_text(admin_token.as_str());
    if same_text(agent_token.as_str(), admin_token.as_str()) {
        return Err(TokenError::SameToken);
    }
    Ok((agent_token, admin_token))
}

/// Accepted tokens are distinct, not blank, and without white space around
/// them.
pub proof fn law_accepted_tokens_are_distinct(agent_token: Seq<char>, admin_token: Seq<char>)
    requires
        token_fault(agent_token, admin_token) is None,
    ensures
        trimmed(agent_token) != trimmed(admin_token),
        !is_blank(trimmed(agent_token)),
        !is_blank(trimmed(admin_token)),
        is_trimmed(trimmed(agent_token)),
        is_trimmed(trimmed(admin_token)),
{
    law_trimmed_is_projection(agent_token);
    law_trimmed_is_projection(admin_token);
    lemma_trimmed_empty(agent_token);
    lemma_trimmed_empty(admin_token);
    lemma_trimmed_empty(trimmed(agent_token));
    lemma_trimmed_empty(trimmed(admin_token));
}

/// Two tokens are refused just where one is blank or both are the same but for the
/// white space around them, and the error says which.
pub proof fn law_tokens_are_refused_just_for_these_faults(
    agent_token: Seq<char>,
    admin_token: Seq<char>,
)
    ensures
        token_fault(agent_token, admin_token) == Some(TokenError::EmptyAgentToken) <==> is_blank(
            agent_token,
        ),
        token_fault(agent_token, admin_token) == Some(TokenError::EmptyAdminToken) <==> !is_blank(
            agent_token,
        ) && is_blank(admin_token),
        token_fault(agent_token, admin_token) == Some(TokenError::SameToken) <==> !is_blank(
            agent_token,
        ) && !is_blank(admin_token) && trimmed(agent_token) == trimmed(admin_token),
        token_fault(agent_token, admin_token) is None <==> !is_blank(agent_token) && !is_blank(
            admin_token,
        ) && trimmed(agent_token) != trimmed(admin_token),
{
}

/// A server goes by the tokens it was given, without the white space around them,
/// and each keeps its place.
pub proof fn law_tokens_keep_their_places(
    before: Seq<char>,
    agent_token: Seq<char>,
    admin_token: Seq<char>,
    after: Seq<char>,
)
    requires
        is_blank(before),
        is_blank(after),
        agent_token.len() > 0,
        admin_token.len() > 0,
        is_trimmed(agent_token),
        is_trimmed(admin_token),
        agent_token != admin_token,
    ensures
        accepted_tokens(before + agent_token + after, before + admin_token + after) == Ok::<
            (Seq<char>, Seq<char>),
            TokenError,
        >((agent_token, admin_token)),
        accepted_tokens(before + agent_token + after, agent_token) == Err::<
            (Seq<char>, Seq<char>),
            TokenError,
        >(TokenError::SameToken),
{
    let none = Seq::<char>::empty();
    law_white_space_around_is_dropped(before, agent_token, after);
    law_white_space_around_is_dropped(before, admin_token, after);
    law_white_space_around_is_dropped(none, agent_token, none);
    assert(none + agent_token + none =~= agent_token);
}

} // verus!
