//! The resolved user-info snapshot handed in by the permission-resolution
//! collaborator, modeled as plain values, with its structured-value
//! rendering.

use vstd::prelude::*;

use crate::value::{
    field_uint, is_obj, make_field_uint, obj_fields, JsonField, JsonValue,
};

verus! {

/// One resolved permission: a namespace/permission pair, possibly negated.
#[derive(Debug, Clone, PartialEq, Eq)]
pub struct Permission {
    /// The permission's namespace.
    pub namespace: String,
    /// The permission within the namespace.
    pub perm: String,
    /// Whether the permission is a negation.
    pub negator: bool,
}

/// One staff position a user holds, with the permissions it grants.
#[derive(Debug, Clone, PartialEq, Eq)]
pub struct PartialStaffPosition {
    /// The position's identifier.
    pub id: String,
    /// The position's index in the hierarchy; lower is higher.
    pub index: i32,
    /// The permissions the position grants.
    pub perms: Vec<Permission>,
}

/// The staff permissions of a user: positions plus per-user overrides.
#[derive(Debug, Clone, PartialEq, Eq)]
pub struct StaffPermissions {
    /// The positions the user holds.
    pub user_positions: Vec<PartialStaffPosition>,
    /// Per-user permission overrides.
    pub perm_overrides: Vec<Permission>,
}

/// One guild role, reduced to what permission resolution reads.
#[derive(Debug, Clone, Copy, PartialEq, Eq, Structural)]
pub struct GuildRole {
    /// The role's identifier.
    pub id: u64,
    /// The role's position in the role list.
    pub position: u16,
    /// The role's permission bits.
    pub permissions: u64,
}

/// A resolved user-info snapshot: what the permission resolver produced
/// for one member. Opaque input to the rest of the crate.
#[derive(Debug, Clone, PartialEq, Eq)]
pub struct UserInfo {
    /// The member's resolved discord permission bits.
    pub discord_permissions: u64,
    /// The member's staff permissions.
    pub kittycat_staff_permissions: StaffPermissions,
    /// The member's resolved permission list.
    pub kittycat_resolved_permissions: Vec<Permission>,
    /// The guild owner.
    pub guild_owner_id: u64,
    /// The guild's roles, keyed by role id.
    pub guild_roles: Vec<GuildRole>,
    /// The member's role ids.
    pub member_roles: Vec<u64>,
}

/// A well-formed snapshot lists each guild role at most once.
pub open spec fn user_info_wf(u: UserInfo) -> bool {
    forall|i: int, j: int|
        0 <= i < j < u.guild_roles@.len() ==> (#[trigger] u.guild_roles@[i]).id != (
        #[trigger] u.guild_roles@[j]).id
}

/// Whether `v` renders the permission `p`.
pub open spec fn perm_value(v: JsonValue, p: Permission) -> bool {
    &&& is_obj(v)
    &&& obj_fields(v).len() == 3
    &&& crate::value::field_str(obj_fields(v)[0], "namespace"@, p.namespace@)
    &&& crate::value::field_str(obj_fields(v)[1], "perm"@, p.perm@)
    &&& crate::value::field_bool(obj_fields(v)[2], "negator"@, p.negator)
}

/// Whether `v` renders the staff position `p`.
pub open spec fn position_value(v: JsonValue, p: PartialStaffPosition) -> bool {
    &&& is_obj(v)
    &&& obj_fields(v).len() == 3
    &&& crate::value::field_str(obj_fields(v)[0], "id"@, p.id@)
    &&& crate::value::field_int(obj_fields(v)[1], "index"@, p.index as i64)
    &&& obj_fields(v)[2].key@ == "perms"@
    &&& perm_array_value(obj_fields(v)[2].value, p.perms@)
}

/// Whether `v` is an array rendering the permissions `ps`, in order.
pub open spec fn perm_array_value(v: JsonValue, ps: Seq<Permission>) -> bool {
    &&& crate::value::is_arr(v)
    &&& crate::value::arr_elems(v).len() == ps.len()
    &&& forall|i: int|
        0 <= i < ps.len() ==> perm_value(#[trigger] crate::value::arr_elems(v)[i], ps[i])
}

/// Whether `v` renders the staff permissions `sp`.
pub open spec fn staff_permissions_value(v: JsonValue, sp: StaffPermissions) -> bool {
    &&& is_obj(v)
    &&& obj_fields(v).len() == 2
    &&& obj_fields(v)[0].key@ == "user_positions"@
    &&& crate::value::is_arr(obj_fields(v)[0].value)
    &&& crate::value::arr_elems(obj_fields(v)[0].value).len() == sp.user_positions@.len()
    &&& forall|i: int|
        0 <= i < sp.user_positions@.len() ==> position_value(
            #[trigger] crate::value::arr_elems(obj_fields(v)[0].value)[i],
            sp.user_positions@[i],
        )
    &&& obj_fields(v)[1].key@ == "perm_overrides"@
    &&& perm_array_value(obj_fields(v)[1].value, sp.perm_overrides@)
}

/// Whether `v` renders the guild role `r`.
pub open spec fn role_value(v: JsonValue, r: GuildRole) -> bool {
    &&& is_obj(v)
    &&& obj_fields(v).len() == 3
    &&& field_uint(obj_fields(v)[0], "id"@, r.id)
    &&& field_uint(obj_fields(v)[1], "position"@, r.position as u64)
    &&& field_uint(obj_fields(v)[2], "permissions"@, r.permissions)
}

/// Whether `v` renders the user-info snapshot `u`.
pub open spec fn user_info_value(v: JsonValue, u: UserInfo) -> bool {
    &&& is_obj(v)
    &&& obj_fields(v).len() == 6
    &&& field_uint(obj_fields(v)[0], "discord_permissions"@, u.discord_permissions)
    &&& obj_fields(v)[1].key@ == "kittycat_staff_permissions"@
    &&& staff_permissions_value(obj_fields(v)[1].value, u.kittycat_staff_permissions)
    &&& obj_fields(v)[2].key@ == "kittycat_resolved_permissions"@
    &&& perm_array_value(obj_fields(v)[2].value, u.kittycat_resolved_permissions@)
    &&& field_uint(obj_fields(v)[3], "guild_owner_id"@, u.guild_owner_id)
    &&& obj_fields(v)[4].key@ == "guild_roles"@
    &&& crate::value::is_arr(obj_fields(v)[4].value)
    &&& crate::value::arr_elems(obj_fields(v)[4].value).len() == u.guild_roles@.len()
    &&& forall|i: int|
        0 <= i < u.guild_roles@.len() ==> role_value(
            #[trigger] crate::value::arr_elems(obj_fields(v)[4].value)[i],
            u.guild_roles@[i],
        )
    &&& obj_fields(v)[5].key@ == "member_roles"@
    &&& crate::value::is_arr(obj_fields(v)[5].value)
    &&& crate::value::arr_elems(obj_fields(v)[5].value).len() == u.member_roles@.len()
    &&& forall|i: int|
        0 <= i < u.member_roles@.len() ==> #[trigger] crate::value::arr_elems(
            obj_fields(v)[5].value,
        )[i] == JsonValue::UInt(u.member_roles@[i])
}

impl Permission {
    /// Renders the permission as a structured value.
    pub fn to_value(&self) -> (v: JsonValue)
        ensures
            perm_value(v, *self),
    {
        let mut fields: Vec<JsonField> = Vec::new();
        fields.push(crate::value::make_field_str("namespace", self.namespace.as_str()));
        fields.push(crate::value::make_field_str("perm", self.perm.as_str()));
        fields.push(crate::value::make_field_bool("negator", self.negator));
        JsonValue::Object(fields)
    }
}

/// Renders a permission list as an array value.
fn perms_to_value(ps: &Vec<Permission>) -> (v: JsonValue)
    ensures
        perm_array_value(v, ps@),
{
    let mut elems: Vec<JsonValue> = Vec::new();
    let mut i: usize = 0;
    while i < ps.len()
        invariant
            0 <= i <= ps@.len(),
            elems@.len() == i,
            forall|k: int| 0 <= k < i ==> perm_value(#[trigger] elems@[k], ps@[k]),
        decreases ps@.len() - i,
    {
        elems.push(ps[i].to_value());
        i = i + 1;
    }
    JsonValue::Array(elems)
}

impl PartialStaffPosition {
    /// Renders the staff position as a structured value.
    pub fn to_value(&self) -> (v: JsonValue)
        ensures
            position_value(v, *self),
    {
        let mut fields: Vec<JsonField> = Vec::new();
        fields.push(crate::value::make_field_str("id", self.id.as_str()));
        fields.push(crate::value::make_field_int("index", self.index as i64));
        fields.push(JsonField { key: "perms".to_owned(), value: perms_to_value(&self.perms) });
        JsonValue::Object(fields)
    }
}

impl StaffPermissions {
    /// Renders the staff permissions as a structured value.
    pub fn to_value(&self) -> (v: JsonValue)
        ensures
            staff_permissions_value(v, *self),
    {
        let mut positions: Vec<JsonValue> = Vec::new();
        let mut i: usize = 0;
        while i < self.user_positions.len()
            invariant
                0 <= i <= self.user_positions@.len(),
                positions@.len() == i,
                forall|k: int|
                    0 <= k < i ==> position_value(
                        #[trigger] positions@[k],
                        self.user_positions@[k],
                    ),
            decreases self.user_positions@.len() - i,
        {
            positions.push(self.user_positions[i].to_value());
            i = i + 1;
        }
        let mut fields: Vec<JsonField> = Vec::new();
        fields.push(
            JsonField { key: "user_positions".to_owned(), value: JsonValue::Array(positions) },
        );
        fields.push(
            JsonField {
                key: "perm_overrides".to_owned(),
                value: perms_to_value(&self.perm_overrides),
            },
        );
        JsonValue::Object(fields)
    }
}

impl GuildRole {
    /// Renders the role as a structured value.
    pub fn to_value(&self) -> (v: JsonValue)
        ensures
            role_value(v, *self),
    {
        let mut fields: Vec<JsonField> = Vec::new();
        fields.push(make_field_uint("id", self.id));
        fields.push(make_field_uint("position", self.position as u64));
        fields.push(make_field_uint("permissions", self.permissions));
        JsonValue::Object(fields)
    }
}

impl UserInfo {
    /// Renders the snapshot as a structured value.
    pub fn to_value(&self) -> (v: JsonValue)
        ensures
            user_info_value(v, *self),
    {
        let mut roles: Vec<JsonValue> = Vec::new();
        let mut i: usize = 0;
        while i < self.guild_roles.len()
            invariant
                0 <= i <= self.guild_roles@.len(),
                roles@.len() == i,
                forall|k: int|
                    0 <= k < i ==> role_value(#[trigger] roles@[k], self.guild_roles@[k]),
            decreases self.guild_roles@.len() - i,
        {
            roles.push(self.guild_roles[i].to_value());
            i = i + 1;
        }
        let mut members: Vec<JsonValue> = Vec::new();
        let mut j: usize = 0;
        while j < self.member_roles.len()
            invariant
                0 <= j <= self.member_roles@.len(),
                members@.len() == j,
                forall|k: int|
                    0 <= k < j ==> #[trigger] members@[k] == JsonValue::UInt(
                        self.member_roles@[k],
                    ),
            decreases self.member_roles@.len() - j,
        {
            members.push(JsonValue::UInt(self.member_roles[j]));
            j = j + 1;
        }
        let mut fields: Vec<JsonField> = Vec::new();
        fields.push(make_field_uint("discord_permissions", self.discord_permissions));
        fields.push(
            JsonField {
                key: "kittycat_staff_permissions".to_owned(),
                value: self.kittycat_staff_permissions.to_value(),
            },
        );
        fields.push(
            JsonField {
                key: "kittycat_resolved_permissions".to_owned(),
                value: perms_to_value(&self.kittycat_resolved_permissions),
            },
        );
        fields.push(make_field_uint("guild_owner_id", self.guild_owner_id));
        fields.push(JsonField { key: "guild_roles".to_owned(), value: JsonValue::Array(roles) });
        fields.push(
            JsonField { key: "member_roles".to_owned(), value: JsonValue::Array(members) },
        );
        JsonValue::Object(fields)
    }
}

} // verus!
