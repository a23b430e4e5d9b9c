//! Punishment ledger entities: creation and the target and state codecs.

use vstd::prelude::*;

use crate::gen;
use crate::text::{
    format_target, parse_target, parse_target_spec, str_eq, target_seq, lemma_target_round_trip,
    TargetText,
};
use crate::value::JsonValue;
use crate::ParseError;

verus! {

/// A punishment: a record of an enforcement action against a target.
#[derive(Debug)]
pub struct Punishment {
    /// The ID of the applied punishment, a 128-bit UUID value.
    pub id: u128,
    /// Source tag of the punishment, useful to record where it came from.
    pub src: Option<String>,
    /// The guild of the applied punishment.
    pub guild_id: u64,
    /// The punishment kind, an open vocabulary such as `"ban"` or
    /// `"timeout"`.
    pub punishment: String,
    /// Creator of the punishment.
    pub creator: PunishmentTarget,
    /// The target of the punishment.
    pub target: PunishmentTarget,
    /// The handle log encountered while handling the punishment.
    pub handle_log: JsonValue,
    /// When the punishment was created, in UTC microseconds since the
    /// epoch.
    pub created_at: i64,
    /// Duration of the punishment, as a count of seconds.
    pub duration: Option<u64>,
    /// The reason for the punishment.
    pub reason: String,
    /// The state of the punishment.
    pub state: PunishmentState,
    /// Extra misc data.
    pub data: Option<JsonValue>,
}

/// Data required to create a punishment: a [`Punishment`] without the
/// server-assigned id and creation time.
#[derive(Debug)]
pub struct PunishmentCreate {
    /// Source tag of the punishment.
    pub src: Option<String>,
    /// The guild of the applied punishment.
    pub guild_id: u64,
    /// The punishment kind.
    pub punishment: String,
    /// Creator of the punishment.
    pub creator: PunishmentTarget,
    /// The target of the punishment.
    pub target: PunishmentTarget,
    /// The handle log encountered while handling the punishment.
    pub handle_log: JsonValue,
    /// Duration of the punishment, as a count of seconds.
    pub duration: Option<u64>,
    /// The reason for the punishment.
    pub reason: String,
    /// The state of the punishment.
    pub state: PunishmentState,
    /// Extra misc data.
    pub data: Option<JsonValue>,
}

impl PunishmentCreate {
    /// Combines the request with a server-assigned id and creation time.
    pub fn to_punishment(self, id: u128, created_at: i64) -> (p: Punishment)
        ensures
            p.id == id,
            p.created_at == created_at,
            p.src == self.src,
            p.guild_id == self.guild_id,
            p.punishment == self.punishment,
            p.creator == self.creator,
            p.target == self.target,
            p.handle_log == self.handle_log,
            p.duration == self.duration,
            p.reason == self.reason,
            p.state == self.state,
            p.data == self.data,
    {
        Punishment {
            id,
            created_at,
            src: self.src,
            guild_id: self.guild_id,
            punishment: self.punishment,
            creator: self.creator,
            target: self.target,
            handle_log: self.handle_log,
            duration: self.duration,
            reason: self.reason,
            data: self.data,
            state: self.state,
        }
    }

    /// Builds the punishment with a freshly generated id and the current
    /// time, read from the id-generator and clock collaborators. Every
    /// field of the request carries over; nothing is promised of the
    /// generated id or the clock reading.
    pub fn create(self) -> (p: Punishment)
        ensures
            p.src == self.src,
            p.guild_id == self.guild_id,
            p.punishment == self.punishment,
            p.creator == self.creator,
            p.target == self.target,
            p.handle_log == self.handle_log,
            p.duration == self.duration,
            p.reason == self.reason,
            p.state == self.state,
            p.data == self.data,
    {
        let id = gen::fresh_uuid_u128();
        let created_at = gen::now_utc_micros();
        self.to_punishment(id, created_at)
    }
}

/// A punishment target: either a user or the system itself.
#[derive(Debug, Clone, Copy, PartialEq, Eq, Structural)]
pub enum PunishmentTarget {
    /// The punishment was created by or applies to a user.
    User(u64),
    /// The punishment was created by or applies to the system.
    System,
}

impl PunishmentTarget {
    /// The target as a plain optional user id: `None` is the system.
    pub open spec fn user_opt(self) -> Option<u64> {
        match self {
            PunishmentTarget::User(id) => Some(id),
            PunishmentTarget::System => None,
        }
    }

    /// The textual rendering of the target: `"system"` or `"user:<id>"`.
    pub open spec fn format_spec(self) -> Seq<char> {
        target_seq(self.user_opt())
    }

    /// Renders the target as text.
    pub fn to_display_string(&self) -> (r: String)
        ensures
            r@ == self.format_spec(),
    {
        match self {
            PunishmentTarget::User(id) => format_target(Some(*id)),
            PunishmentTarget::System => format_target(None),
        }
    }

    /// Parses a target from text. Returns `InvalidFormat` when the text is
    /// neither `"system"` nor prefixed by `"user:"`, and `InvalidUserId`
    /// when the suffix after `"user:"` is not a decimal `u64`.
    pub fn parse_str(s: &str) -> (r: Result<PunishmentTarget, ParseError>)
        ensures
            (match parse_target_spec(s@) {
                TargetText::Sys => r == Ok::<PunishmentTarget, ParseError>(
                    PunishmentTarget::System,
                ),
                TargetText::Usr(id) => r == Ok::<PunishmentTarget, ParseError>(
                    PunishmentTarget::User(id),
                ),
                TargetText::BadFormat => (match r {
                    Err(ParseError::InvalidFormat(t)) => t@ == s@,
                    _ => false,
                }),
                TargetText::BadUserId => (match r {
                    Err(ParseError::InvalidUserId(t)) => t@ == s@,
                    _ => false,
                }),
            }),
    {
        match parse_target(s) {
            TargetText::Sys => Ok(PunishmentTarget::System),
            TargetText::Usr(id) => Ok(PunishmentTarget::User(id)),
            TargetText::BadFormat => Err(ParseError::InvalidFormat(s.to_owned())),
            TargetText::BadUserId => Err(ParseError::InvalidUserId(s.to_owned())),
        }
    }
}

/// Parsing the rendering of any punishment target yields that target back.
pub proof fn lemma_punishment_target_round_trip(t: PunishmentTarget)
    ensures
        parse_target_spec(t.format_spec()) == (match t {
            PunishmentTarget::User(id) => TargetText::Usr(id),
            PunishmentTarget::System => TargetText::Sys,
        }),
{
    lemma_target_round_trip(t.user_opt());
}

/// The lifecycle state of a punishment.
#[derive(Debug, Clone, Copy, PartialEq, Eq, Hash, Structural)]
pub enum PunishmentState {
    /// The punishment counts.
    Active,
    /// The punishment was nullified.
    Voided,
    /// The punishment was processed and resolved.
    Handled,
}

impl Default for PunishmentState {
    /// A freshly created punishment is active.
    fn default() -> (r: Self)
        ensures
            r == PunishmentState::Active,
    {
        PunishmentState::Active
    }
}

/// What parsing a punishment state string yields: the exact lowercase
/// names, with no trimming and no case folding.
pub open spec fn parse_punishment_state_spec(s: Seq<char>) -> Option<PunishmentState> {
    if s == "active"@ {
        Some(PunishmentState::Active)
    } else if s == "voided"@ {
        Some(PunishmentState::Voided)
    } else if s == "handled"@ {
        Some(PunishmentState::Handled)
    } else {
        None
    }
}

impl PunishmentState {
    /// The lowercase textual rendering of the state.
    pub open spec fn format_spec(self) -> Seq<char> {
        match self {
            PunishmentState::Active => "active"@,
            PunishmentState::Voided => "voided"@,
            PunishmentState::Handled => "handled"@,
        }
    }

    /// Renders the state as its lowercase name.
    pub fn to_display_string(&self) -> (r: String)
        ensures
            r@ == self.format_spec(),
    {
        match self {
            PunishmentState::Active => "active".to_owned(),
            PunishmentState::Voided => "voided".to_owned(),
            PunishmentState::Handled => "handled".to_owned(),
        }
    }

    /// Parses a state from text; any text but the three lowercase names is
    /// rejected with `InvalidState`.
    pub fn parse_str(s: &str) -> (r: Result<PunishmentState, ParseError>)
        ensures
            (match parse_punishment_state_spec(s@) {
                Some(st) => r == Ok::<PunishmentState, ParseError>(st),
                None => (match r {
                    Err(ParseError::InvalidState(t)) => t@ == s@,
                    _ => false,
                }),
            }),
    {
        if str_eq(s, "active") {
            Ok(PunishmentState::Active)
        } else if str_eq(s, "voided") {
            Ok(PunishmentState::Voided)
        } else if str_eq(s, "handled") {
            Ok(PunishmentState::Handled)
        } else {
            Err(ParseError::InvalidState(s.to_owned()))
        }
    }
}

/// Parsing the rendering of any punishment state yields that state back.
pub proof fn lemma_punishment_state_round_trip(st: PunishmentState)
    ensures
        parse_punishment_state_spec(st.format_spec()) == Some(st),
{
    reveal_strlit("active");
    reveal_strlit("voided");
    reveal_strlit("handled");
    assert("voided"@ != "active"@) by {
        assert("voided"@[0] == 'v' && "active"@[0] == 'a');
    }
    assert("handled"@ != "active"@) by {
        assert("handled"@.len() == 7 && "active"@.len() == 6);
    }
    assert("handled"@ != "voided"@) by {
        assert("handled"@.len() == 7 && "voided"@.len() == 6);
    }
}

} // verus!
