//! Sting ledger entities: creation, target and state codecs, and the
//! per-user aggregation engine.

use std::collections::HashMap;
use vstd::prelude::*;

use crate::gen;
use crate::text::{
    format_target, parse_target, parse_target_spec, str_eq, target_seq, lemma_target_round_trip,
    TargetText,
};
use crate::value::JsonValue;
use crate::ParseError;

verus! {

broadcast use vstd::std_specs::hash::group_hash_axioms;

/// A sting: a record of accumulated infraction weight against a target.
#[derive(Debug)]
pub struct Sting {
    /// The sting ID, a 128-bit UUID value.
    pub id: u128,
    /// Source tag of the sting, useful to record where it came from.
    pub src: Option<String>,
    /// The number of stings.
    pub stings: i32,
    /// The reason for the stings.
    pub reason: Option<String>,
    /// The reason the stings were voided.
    pub void_reason: Option<String>,
    /// The guild the sting targets.
    pub guild_id: u64,
    /// The creator of the sting.
    pub creator: StingTarget,
    /// The target of the sting.
    pub target: StingTarget,
    /// The state of the sting.
    pub state: StingState,
    /// When the sting was created, in UTC microseconds since the epoch.
    pub created_at: i64,
    /// When the sting expires, as a count of seconds.
    pub duration: Option<u64>,
    /// Metadata present within the sting, if any.
    pub sting_data: Option<JsonValue>,
    /// The handle log encountered while handling the sting.
    pub handle_log: JsonValue,
}

/// Data required to create a sting: a [`Sting`] without the
/// server-assigned id, creation time and handle log.
#[derive(Debug)]
pub struct StingCreate {
    /// Source tag of the sting.
    pub src: Option<String>,
    /// The number of stings.
    pub stings: i32,
    /// The reason for the stings.
    pub reason: Option<String>,
    /// The reason the stings were voided.
    pub void_reason: Option<String>,
    /// The guild the sting targets.
    pub guild_id: u64,
    /// The creator of the sting.
    pub creator: StingTarget,
    /// The target of the sting.
    pub target: StingTarget,
    /// The state of the sting.
    pub state: StingState,
    /// When the sting expires, as a count of seconds.
    pub duration: Option<u64>,
    /// Metadata present within the sting, if any.
    pub sting_data: Option<JsonValue>,
}

impl StingCreate {
    /// Combines the request with a server-assigned id and creation time.
    /// The handle log starts out as the empty structured value.
    pub fn to_sting(self, id: u128, created_at: i64) -> (s: Sting)
        ensures
            s.id == id,
            s.created_at == created_at,
            s.handle_log == JsonValue::Null,
            s.src == self.src,
            s.stings == self.stings,
            s.reason == self.reason,
            s.void_reason == self.void_reason,
            s.guild_id == self.guild_id,
            s.creator == self.creator,
            s.target == self.target,
            s.state == self.state,
            s.duration == self.duration,
            s.sting_data == self.sting_data,
    {
        Sting {
            id,
            src: self.src,
            stings: self.stings,
            reason: self.reason,
            void_reason: self.void_reason,
            guild_id: self.guild_id,
            creator: self.creator,
            target: self.target,
            state: self.state,
            created_at,
            duration: self.duration,
            sting_data: self.sting_data,
            handle_log: JsonValue::Null,
        }
    }

    /// Builds the sting with a freshly generated id and the current time,
    /// read from the id-generator and clock collaborators. Every field of
    /// the request carries over; nothing is promised of the generated id
    /// or the clock reading.
    pub fn create(self) -> (s: Sting)
        ensures
            s.handle_log == JsonValue::Null,
            s.src == self.src,
            s.stings == self.stings,
            s.reason == self.reason,
            s.void_reason == self.void_reason,
            s.guild_id == self.guild_id,
            s.creator == self.creator,
            s.target == self.target,
            s.state == self.state,
            s.duration == self.duration,
            s.sting_data == self.sting_data,
    {
        let id = gen::fresh_uuid_u128();
        let created_at = gen::now_utc_micros();
        self.to_sting(id, created_at)
    }
}

/// A sting target: either a user or the system itself.
#[derive(Debug, Clone, Copy, PartialEq, Eq, Structural)]
pub enum StingTarget {
    /// The sting was created by or applies to a user.
    User(u64),
    /// The sting was created by or applies to the system.
    System,
}

impl StingTarget {
    /// The target as a plain optional user id: `None` is the system.
    pub open spec fn user_opt(self) -> Option<u64> {
        match self {
            StingTarget::User(id) => Some(id),
            StingTarget::System => None,
        }
    }

    /// The textual rendering of the target: `"system"` or `"user:<id>"`.
    pub open spec fn format_spec(self) -> Seq<char> {
        target_seq(self.user_opt())
    }

    /// Renders the target as text.
    pub fn to_display_string(&self) -> (r: String)
        ensures
            r@ == self.format_spec(),
    {
        match self {
            StingTarget::User(id) => format_target(Some(*id)),
            StingTarget::System => format_target(None),
        }
    }

    /// Parses a target from text. Returns `InvalidFormat` when the text is
    /// neither `"system"` nor prefixed by `"user:"`, and `InvalidUserId`
    /// when the suffix after `"user:"` is not a decimal `u64`.
    pub fn parse_str(s: &str) -> (r: Result<StingTarget, ParseError>)
        ensures
            (match parse_target_spec(s@) {
                TargetText::Sys => r == Ok::<StingTarget, ParseError>(StingTarget::System),
                TargetText::Usr(id) => r == Ok::<StingTarget, ParseError>(StingTarget::User(id)),
                TargetText::BadFormat => (match r {
                    Err(ParseError::InvalidFormat(t)) => t@ == s@,
                    _ => false,
                }),
                TargetText::BadUserId => (match r {
                    Err(ParseError::InvalidUserId(t)) => t@ == s@,
                    _ => false,
                }),
            }),
    {
        match parse_target(s) {
            TargetText::Sys => Ok(StingTarget::System),
            TargetText::Usr(id) => Ok(StingTarget::User(id)),
            TargetText::BadFormat => Err(ParseError::InvalidFormat(s.to_owned())),
            TargetText::BadUserId => Err(ParseError::InvalidUserId(s.to_owned())),
        }
    }
}

/// Parsing the rendering of any sting target yields that target back.
pub proof fn lemma_sting_target_round_trip(t: StingTarget)
    ensures
        parse_target_spec(t.format_spec()) == (match t {
            StingTarget::User(id) => TargetText::Usr(id),
            StingTarget::System => TargetText::Sys,
        }),
{
    lemma_target_round_trip(t.user_opt());
}

/// The lifecycle state of a sting.
#[derive(Debug, Clone, Copy, PartialEq, Eq, Hash, Structural)]
pub enum StingState {
    /// The sting counts.
    Active,
    /// The sting was nullified.
    Voided,
    /// The sting was processed and resolved.
    Handled,
}

impl Default for StingState {
    /// A freshly created sting is active.
    fn default() -> (r: Self)
        ensures
            r == StingState::Active,
    {
        StingState::Active
    }
}

/// What parsing a sting state string yields: the exact lowercase names,
/// with no trimming and no case folding.
pub open spec fn parse_sting_state_spec(s: Seq<char>) -> Option<StingState> {
    if s == "active"@ {
        Some(StingState::Active)
    } else if s == "voided"@ {
        Some(StingState::Voided)
    } else if s == "handled"@ {
        Some(StingState::Handled)
    } else {
        None
    }
}

impl StingState {
    /// The lowercase textual rendering of the state.
    pub open spec fn format_spec(self) -> Seq<char> {
        match self {
            StingState::Active => "active"@,
            StingState::Voided => "voided"@,
            StingState::Handled => "handled"@,
        }
    }

    /// Renders the state as its lowercase name.
    pub fn to_display_string(&self) -> (r: String)
        ensures
            r@ == self.format_spec(),
    {
        match self {
            StingState::Active => "active".to_owned(),
            StingState::Voided => "voided".to_owned(),
            StingState::Handled => "handled".to_owned(),
        }
    }

    /// Parses a state from text; any text but the three lowercase names is
    /// rejected with `InvalidState`.
    pub fn parse_str(s: &str) -> (r: Result<StingState, ParseError>)
        ensures
            (match parse_sting_state_spec(s@) {
                Some(st) => r == Ok::<StingState, ParseError>(st),
                None => (match r {
                    Err(ParseError::InvalidState(t)) => t@ == s@,
                    _ => false,
                }),
            }),
    {
        if str_eq(s, "active") {
            Ok(StingState::Active)
        } else if str_eq(s, "voided") {
            Ok(StingState::Voided)
        } else if str_eq(s, "handled") {
            Ok(StingState::Handled)
        } else {
            Err(ParseError::InvalidState(s.to_owned()))
        }
    }
}

/// Parsing the rendering of any sting state yields that state back.
pub proof fn lemma_sting_state_round_trip(st: StingState)
    ensures
        parse_sting_state_spec(st.format_spec()) == Some(st),
{
    reveal_strlit("active");
    reveal_strlit("voided");
    reveal_strlit("handled");
    assert("voided"@ != "active"@) by {
        assert("voided"@[0] == 'v' && "active"@[0] == 'a');
    }
    assert("handled"@ != "active"@) by {
        assert("handled"@.len() == 7 && "active"@.len() == 6);
    }
    assert("handled"@ != "voided"@) by {
        assert("handled"@.len() == 7 && "voided"@.len() == 6);
    }
}

/// An aggregate of stings: the summed magnitude for one (source, target)
/// grouping.
#[derive(Debug)]
pub struct StingAggregate {
    /// Source tag of the grouping.
    pub src: Option<String>,
    /// The target of the grouping.
    pub target: StingTarget,
    /// The total number of stings matching this aggregate.
    pub total_stings: i64,
}

/// The sum of every row's total, whatever its target.
pub open spec fn sum_totals(rows: Seq<StingAggregate>) -> int
    decreases rows.len(),
{
    if rows.len() == 0 {
        0
    } else {
        sum_totals(rows.drop_last()) + rows.last().total_stings
    }
}

/// The sum of the totals of the system-targeted rows.
pub open spec fn system_total(rows: Seq<StingAggregate>) -> int
    decreases rows.len(),
{
    if rows.len() == 0 {
        0
    } else {
        system_total(rows.drop_last()) + (if rows.last().target == StingTarget::System {
            rows.last().total_stings as int
        } else {
            0
        })
    }
}

/// The sum of the totals of the rows targeting exactly user `uid`.
pub open spec fn user_direct_total(rows: Seq<StingAggregate>, uid: u64) -> int
    decreases rows.len(),
{
    if rows.len() == 0 {
        0
    } else {
        user_direct_total(rows.drop_last(), uid) + (if rows.last().target == StingTarget::User(
            uid,
        ) {
            rows.last().total_stings as int
        } else {
            0
        })
    }
}

/// Whether some row targets exactly user `uid`.
pub open spec fn has_user_row(rows: Seq<StingAggregate>, uid: u64) -> bool {
    exists|i: int| 0 <= i < rows.len() && rows[i].target == StingTarget::User(uid)
}

impl StingAggregate {
    /// Returns the sum of all totals in the aggregate rows, whatever each
    /// row's target.
    pub fn total_stings(vec: Vec<StingAggregate>) -> (r: i64)
        requires
            i64::MIN <= sum_totals(vec@) <= i64::MAX,
        ensures
            r == sum_totals(vec@),
    {
        let mut acc: i128 = 0;
        let mut i: usize = 0;
        while i < vec.len()
            invariant
                0 <= i <= vec@.len(),
                acc == sum_totals(vec@.subrange(0, i as int)),
                -(i as int) * 0x8000_0000_0000_0000 <= acc <= (i as int) * 0x8000_0000_0000_0000,
            decreases vec@.len() - i,
        {
            let ghost pre = vec@.subrange(0, i as int);
            let ghost ext = vec@.subrange(0, i as int + 1);
            proof {
                assert(ext.drop_last() =~= pre);
            }
            acc = acc + vec[i].total_stings as i128;
            i = i + 1;
        }
        proof {
            assert(vec@.subrange(0, vec@.len() as int) =~= vec@);
        }
        acc as i64
    }

    /// Returns the per-user sting totals and the system-wide total.
    ///
    /// Every user with at least one direct row is mapped to the sum of its
    /// direct rows plus the system total, added exactly once; users with
    /// no direct row never appear, and the system total is returned
    /// alongside.
    pub fn total_stings_per_user(vec: Vec<StingAggregate>) -> (r: (HashMap<u64, i64>, i64))
        requires
            i64::MIN <= system_total(vec@) <= i64::MAX,
            forall|uid: u64|
                i64::MIN <= #[trigger] user_direct_total(vec@, uid) + system_total(vec@)
                    <= i64::MAX,
        ensures
            r.1 == system_total(vec@),
            forall|uid: u64| #[trigger] r.0@.contains_key(uid) <==> has_user_row(vec@, uid),
            forall|uid: u64|
                has_user_row(vec@, uid) ==> #[trigger] r.0@[uid] == user_direct_total(vec@, uid)
                    + system_total(vec@),
    {
        let n = vec.len();
        // First pass: the system-wide total.
        let mut sys: i128 = 0;
        let mut i: usize = 0;
        while i < n
            invariant
                0 <= i <= n,
                n == vec@.len(),
                sys == system_total(vec@.subrange(0, i as int)),
                -(i as int) * 0x8000_0000_0000_0000 <= sys <= (i as int) * 0x8000_0000_0000_0000,
            decreases n - i,
        {
            let ghost pre = vec@.subrange(0, i as int);
            let ghost ext = vec@.subrange(0, i as int + 1);
            proof {
                assert(ext.drop_last() =~= pre);
            }
            match vec[i].target {
                StingTarget::System => {
                    sys = sys + vec[i].total_stings as i128;
                },
                StingTarget::User(_) => {},
            }
            i = i + 1;
        }
        proof {
            assert(vec@.subrange(0, n as int) =~= vec@);
        }
        // Second pass: the distinct user ids that have a direct row.
        let mut users: Vec<u64> = Vec::new();
        let mut i: usize = 0;
        while i < n
            invariant
                0 <= i <= n,
                n == vec@.len(),
                forall|j1: int, j2: int|
                    0 <= j1 < j2 < users@.len() ==> users@[j1] != users@[j2],
                forall|uid: u64| has_user_row(vec@.subrange(0, i as int), uid) <==> users@.contains(uid),
            decreases n - i,
        {
            let ghost pre = vec@.subrange(0, i as int);
            let ghost ext = vec@.subrange(0, i as int + 1);
            proof {
                assert(ext.drop_last() =~= pre);
            }
            match vec[i].target {
                StingTarget::System => {
                    proof {
                        assert(ext.last().target == StingTarget::System);
                        assert forall|u: u64|
                            has_user_row(ext, u) <==> users@.contains(u) by {
                            assert(has_user_row(ext, u) <==> has_user_row(pre, u));
                        }
                    }
                },
                StingTarget::User(uid) => {
                    proof {
                        assert(ext.last().target == StingTarget::User(uid));
                    }
                    if !vec_contains_u64(&users, uid) {
                        let ghost old_users = users@;
                        users.push(uid);
                        proof {
                            assert forall|u: u64|
                                has_user_row(ext, u) <==> users@.contains(u) by {
                                assert(has_user_row(ext, u) <==> (has_user_row(pre, u) || u
                                    == uid));
                                assert(users@ =~= old_users.push(uid));
                                if old_users.contains(u) || u == uid {
                                    if u == uid {
                                        assert(users@[old_users.len() as int] == u);
                                    } else {
                                        let j = choose|j: int|
                                            0 <= j < old_users.len() && old_users[j] == u;
                                        assert(users@[j] == u);
                                    }
                                    assert(users@.contains(u));
                                } else {
                                    assert(!users@.contains(u)) by {
                                        if users@.contains(u) {
                                            let j = choose|j: int|
                                                0 <= j < users@.len() && users@[j] == u;
                                            if j < old_users.len() {
                                                assert(old_users[j] == u);
                                            }
                                        }
                                    }
                                }
                            }
                            assert forall|j1: int, j2: int|
                                0 <= j1 < j2 < users@.len() implies users@[j1] != users@[j2] by {
                                if j2 == old_users.len() {
                                    assert(!old_users.contains(users@[j2]));
                                    assert(old_users[j1] == users@[j1]);
                                    assert(old_users.contains(old_users[j1]));
                                }
                            }
                        }
                    } else {
                        proof {
                            assert(users@.contains(uid));
                            assert forall|u: u64|
                                has_user_row(ext, u) <==> users@.contains(u) by {
                                assert(has_user_row(ext, u) <==> (has_user_row(pre, u) || u
                                    == uid));
                            }
                        }
                    }
                },
            }
            i = i + 1;
        }
        proof {
            assert(vec@.subrange(0, n as int) =~= vec@);
        }
        // Third pass: fold the system total into every mapped user.
        let sys64 = sys as i64;
        let mut map: HashMap<u64, i64> = HashMap::new();
        let mut k: usize = 0;
        while k < users.len()
            invariant
                0 <= k <= users@.len(),
                sys == system_total(vec@),
                sys64 == sys,
                i64::MIN <= system_total(vec@) <= i64::MAX,
                forall|uid: u64|
                    i64::MIN <= #[trigger] user_direct_total(vec@, uid) + system_total(vec@)
                        <= i64::MAX,
                forall|j1: int, j2: int|
                    0 <= j1 < j2 < users@.len() ==> users@[j1] != users@[j2],
                forall|uid: u64| has_user_row(vec@, uid) <==> users@.contains(uid),
                forall|uid: u64| #[trigger]
                    map@.contains_key(uid) <==> exists|j: int|
                        0 <= j < k && users@[j] == uid,
                forall|uid: u64|
                    map@.contains_key(uid) ==> #[trigger] map@[uid] == user_direct_total(
                        vec@,
                        uid,
                    ) + system_total(vec@),
            decreases users@.len() - k,
        {
            let uid = users[k];
            let t = direct_total_of(&vec, uid);
            proof {
                assert(users@.contains(uid));
                assert(has_user_row(vec@, uid));
                assert(i64::MIN <= user_direct_total(vec@, uid) + system_total(vec@)
                    <= i64::MAX);
            }
            let total = (t + sys) as i64;
            map.insert(uid, total);
            k = k + 1;
        }
        (map, sys64)
    }
}

/// Whether `v` holds `x`.
fn vec_contains_u64(v: &Vec<u64>, x: u64) -> (r: bool)
    ensures
        r == v@.contains(x),
{
    let mut j: usize = 0;
    while j < v.len()
        invariant
            0 <= j <= v@.len(),
            forall|k: int| 0 <= k < j ==> v@[k] != x,
        decreases v@.len() - j,
    {
        if v[j] == x {
            return true;
        }
        j = j + 1;
    }
    false
}

/// The direct (non-system) total of user `uid` over all rows.
fn direct_total_of(vec: &Vec<StingAggregate>, uid: u64) -> (t: i128)
    ensures
        t == user_direct_total(vec@, uid),
{
    let n = vec.len();
    let mut t: i128 = 0;
    let mut i: usize = 0;
    while i < n
        invariant
            0 <= i <= n,
            n == vec@.len(),
            t == user_direct_total(vec@.subrange(0, i as int), uid),
            -(i as int) * 0x8000_0000_0000_0000 <= t <= (i as int) * 0x8000_0000_0000_0000,
        decreases n - i,
    {
        let ghost pre = vec@.subrange(0, i as int);
        let ghost ext = vec@.subrange(0, i as int + 1);
        proof {
            assert(ext.drop_last() =~= pre);
        }
        match vec[i].target {
            StingTarget::User(u) => {
                if u == uid {
                    t = t + vec[i].total_stings as i128;
                }
            },
            StingTarget::System => {},
        }
        i = i + 1;
    }
    proof {
        assert(vec@.subrange(0, n as int) =~= vec@);
    }
    t
}


} // verus!
