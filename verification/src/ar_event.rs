//! The typed event envelope: the closed set of event kinds, their
//! payloads, and the correlation-id fields that link a moderation start
//! event to its eventual end event.

use vstd::prelude::*;

use crate::text::{dec_seq, u128_to_dec_string, u64_to_dec_string};
use crate::userinfo::{user_info_value, UserInfo};
use crate::value::{
    field_int, field_opt_str, field_str, field_str_array, field_uint, is_obj, make_field_int,
    make_field_opt_str, make_field_str, make_field_str_array, make_field_uint, make_str_array, obj_fields,
    str_array_value, JsonField, JsonValue,
};
use crate::SerializationError;

verus! {

/// What was done to an externally modified key.
#[derive(Debug, Clone, Copy, PartialEq, Eq, Structural)]
pub enum ExternalKeyUpdateEventDataAction {
    /// The key was created.
    Create,
    /// The key was updated.
    Update,
    /// The key was deleted.
    Delete,
}

impl ExternalKeyUpdateEventDataAction {
    /// The stable name of the action.
    pub open spec fn name_spec(self) -> Seq<char> {
        match self {
            ExternalKeyUpdateEventDataAction::Create => "Create"@,
            ExternalKeyUpdateEventDataAction::Update => "Update"@,
            ExternalKeyUpdateEventDataAction::Delete => "Delete"@,
        }
    }

    /// Returns the stable name of the action.
    pub fn name(&self) -> (r: &'static str)
        ensures
            r@ == self.name_spec(),
    {
        match self {
            ExternalKeyUpdateEventDataAction::Create => "Create",
            ExternalKeyUpdateEventDataAction::Update => "Update",
            ExternalKeyUpdateEventDataAction::Delete => "Delete",
        }
    }
}

/// A key was modified outside the usual flow.
#[derive(Debug, Clone, PartialEq, Eq)]
pub struct ExternalKeyUpdateEventData {
    /// The key that was modified.
    pub key_modified: String,
    /// The acting user.
    pub author: u64,
    /// What was done to the key.
    pub action: ExternalKeyUpdateEventDataAction,
}

/// Settings were requested by a user, e.g. on opening the dashboard.
#[derive(Debug, Clone, Copy, PartialEq, Eq, Structural)]
pub struct GetSettingsEvent {
    /// The acting user.
    pub author: u64,
}

/// A setting was executed by a user.
#[derive(Debug)]
pub struct SettingExecuteEvent {
    /// The ID of the setting being executed.
    pub id: String,
    /// The acting user.
    pub author: u64,
    /// The operation being performed on the setting.
    pub op: String,
    /// The fields of the operation. May be a map or list of fields.
    pub fields: JsonValue,
}

/// A key expired within the key-value store.
#[derive(Debug, Clone, PartialEq, Eq)]
pub struct KeyExpiryEvent {
    /// The ID of the key-value-store entry.
    pub id: String,
    /// The key that expired.
    pub key: String,
    /// The scopes of the expired entry.
    pub scopes: Vec<String>,
}

/// A permission check was executed for a user.
#[derive(Debug)]
pub struct PermissionCheckData {
    /// The permission that was checked.
    pub perm: String,
    /// The user the check ran for.
    pub user_id: u64,
    /// The resolved user-info snapshot the check used.
    pub user_info: UserInfo,
}

/// The moderation action a start event announces.
#[derive(Debug, Clone, Copy, PartialEq, Eq, Structural)]
pub enum ModerationAction {
    /// A member is kicked.
    Kick {
        /// The kicked user.
        user: u64,
    },
    /// A member is banned for a limited time.
    TempBan {
        /// The banned user.
        user: u64,
        /// How long the ban lasts, in seconds.
        duration_secs: u64,
    },
    /// A member is banned.
    Ban {
        /// The banned user.
        user: u64,
    },
    /// A ban is lifted.
    Unban {
        /// The unbanned user.
        user: u64,
    },
    /// A member is timed out.
    Timeout {
        /// The timed-out user.
        user: u64,
        /// How long the timeout lasts, in seconds.
        duration_secs: u64,
    },
    /// Messages are pruned, optionally for one user only.
    Prune {
        /// The user whose messages are pruned, if any.
        user: Option<u64>,
        /// How many messages are pruned at most.
        prune_count: u64,
    },
}

/// A moderation action is starting. The producer generates the
/// correlation id before emitting, and attaches the same id verbatim to
/// the end event if and only if the action reaches completion.
#[derive(Debug, Clone, PartialEq, Eq)]
pub struct ModerationStartEventData {
    /// The id linking this start event to its eventual end event.
    pub correlation_id: u128,
    /// The action being taken.
    pub action: ModerationAction,
    /// The acting member.
    pub author: u64,
    /// The number of stings the action carries.
    pub num_stings: i32,
    /// The stated reason, if any.
    pub reason: Option<String>,
}

/// A moderation action reached its defined completion point. Carries the
/// correlation id only: it is a pure correlation echo with no new actor
/// information.
#[derive(Debug, Clone, Copy, PartialEq, Eq, Structural)]
pub struct ModerationEndEventData {
    /// The id of the start event this event completes.
    pub correlation_id: u128,
}

/// One operation of a template-driven setting execution, carrying the
/// named fields it was invoked with.
#[derive(Debug)]
pub enum TemplateOp {
    /// The setting is viewed.
    View {
        /// The named fields of the operation.
        fields: Vec<JsonField>,
    },
    /// An entry is created.
    Create {
        /// The named fields of the operation.
        fields: Vec<JsonField>,
    },
    /// An entry is updated.
    Update {
        /// The named fields of the operation.
        fields: Vec<JsonField>,
    },
    /// An entry is deleted.
    Delete {
        /// The named fields of the operation.
        fields: Vec<JsonField>,
    },
}

impl TemplateOp {
    /// The stable name of the operation.
    pub open spec fn name_spec(&self) -> Seq<char> {
        match self {
            TemplateOp::View { .. } => "View"@,
            TemplateOp::Create { .. } => "Create"@,
            TemplateOp::Update { .. } => "Update"@,
            TemplateOp::Delete { .. } => "Delete"@,
        }
    }

    /// The named fields of the operation.
    pub open spec fn fields_spec(&self) -> Seq<JsonField> {
        match self {
            TemplateOp::View { fields } => fields@,
            TemplateOp::Create { fields } => fields@,
            TemplateOp::Update { fields } => fields@,
            TemplateOp::Delete { fields } => fields@,
        }
    }

    /// Returns the stable name of the operation.
    pub fn name(&self) -> (r: &'static str)
        ensures
            r@ == self.name_spec(),
    {
        match self {
            TemplateOp::View { .. } => "View",
            TemplateOp::Create { .. } => "Create",
            TemplateOp::Update { .. } => "Update",
            TemplateOp::Delete { .. } => "Delete",
        }
    }
}

/// A template-driven setting execution.
#[derive(Debug)]
pub struct TemplateSettingExecuteEventData {
    /// The template the setting belongs to.
    pub template_id: String,
    /// The setting being executed.
    pub setting_id: String,
    /// The id correlating this execution across events.
    pub correlation_id: u128,
    /// The operation performed, with its fields.
    pub op: TemplateOp,
    /// The acting user.
    pub author: u64,
}

/// A scheduled execution fired.
#[derive(Debug)]
pub struct ScheduledExecutionEventData {
    /// The schedule's identifier.
    pub id: String,
    /// The opaque payload of the schedule.
    pub data: JsonValue,
    /// When the execution was scheduled to run, in UTC microseconds since
    /// the epoch.
    pub run_at: i64,
}

/// An event on the bus: a closed set of kinds, each carrying its payload.
#[derive(Debug)]
#[must_use]
pub enum AntiraidEvent {
    /// A set of templates was modified/reloaded; carries their names.
    OnStartup(Vec<String>),
    /// A permission check was executed.
    PermissionCheckExecute(PermissionCheckData),
    /// A moderation action is starting.
    ModerationStart(ModerationStartEventData),
    /// A moderation action completed.
    ModerationEnd(ModerationEndEventData),
    /// A key was modified externally.
    ExternalKeyUpdate(ExternalKeyUpdateEventData),
    /// A template-driven setting execution ran.
    TemplateSettingExecute(TemplateSettingExecuteEventData),
    /// A scheduled execution fired.
    ScheduledExecution(ScheduledExecutionEventData),
    /// A key expired within the key-value store.
    KeyExpiry(KeyExpiryEvent),
    /// Settings were requested by the user.
    GetSettings(GetSettingsEvent),
    /// A setting was executed by the user.
    ExecuteSetting(SettingExecuteEvent),
}

/// Whether `v` renders the moderation action `a`.
pub open spec fn moderation_action_value(v: JsonValue, a: ModerationAction) -> bool {
    match a {
        ModerationAction::Kick { user } => {
            &&& is_obj(v)
            &&& obj_fields(v).len() == 2
            &&& field_str(obj_fields(v)[0], "action"@, "kick"@)
            &&& field_uint(obj_fields(v)[1], "user"@, user)
        },
        ModerationAction::TempBan { user, duration_secs } => {
            &&& is_obj(v)
            &&& obj_fields(v).len() == 3
            &&& field_str(obj_fields(v)[0], "action"@, "temp_ban"@)
            &&& field_uint(obj_fields(v)[1], "user"@, user)
            &&& field_uint(obj_fields(v)[2], "duration_secs"@, duration_secs)
        },
        ModerationAction::Ban { user } => {
            &&& is_obj(v)
            &&& obj_fields(v).len() == 2
            &&& field_str(obj_fields(v)[0], "action"@, "ban"@)
            &&& field_uint(obj_fields(v)[1], "user"@, user)
        },
        ModerationAction::Unban { user } => {
            &&& is_obj(v)
            &&& obj_fields(v).len() == 2
            &&& field_str(obj_fields(v)[0], "action"@, "unban"@)
            &&& field_uint(obj_fields(v)[1], "user"@, user)
        },
        ModerationAction::Timeout { user, duration_secs } => {
            &&& is_obj(v)
            &&& obj_fields(v).len() == 3
            &&& field_str(obj_fields(v)[0], "action"@, "timeout"@)
            &&& field_uint(obj_fields(v)[1], "user"@, user)
            &&& field_uint(obj_fields(v)[2], "duration_secs"@, duration_secs)
        },
        ModerationAction::Prune { user, prune_count } => {
            &&& is_obj(v)
            &&& obj_fields(v).len() == 3
            &&& field_str(obj_fields(v)[0], "action"@, "prune"@)
            &&& crate::value::field_opt_uint(obj_fields(v)[1], "user"@, user)
            &&& field_uint(obj_fields(v)[2], "prune_count"@, prune_count)
        },
    }
}

impl ModerationAction {
    /// Renders the action as a structured value.
    pub fn to_value(&self) -> (v: JsonValue)
        ensures
            moderation_action_value(v, *self),
    {
        let mut fields: Vec<JsonField> = Vec::new();
        match self {
            ModerationAction::Kick { user } => {
                fields.push(make_field_str("action", "kick"));
                fields.push(make_field_uint("user", *user));
            },
            ModerationAction::TempBan { user, duration_secs } => {
                fields.push(make_field_str("action", "temp_ban"));
                fields.push(make_field_uint("user", *user));
                fields.push(make_field_uint("duration_secs", *duration_secs));
            },
            ModerationAction::Ban { user } => {
                fields.push(make_field_str("action", "ban"));
                fields.push(make_field_uint("user", *user));
            },
            ModerationAction::Unban { user } => {
                fields.push(make_field_str("action", "unban"));
                fields.push(make_field_uint("user", *user));
            },
            ModerationAction::Timeout { user, duration_secs } => {
                fields.push(make_field_str("action", "timeout"));
                fields.push(make_field_uint("user", *user));
                fields.push(make_field_uint("duration_secs", *duration_secs));
            },
            ModerationAction::Prune { user, prune_count } => {
                fields.push(make_field_str("action", "prune"));
                fields.push(crate::value::make_field_opt_uint("user", user));
                fields.push(make_field_uint("prune_count", *prune_count));
            },
        }
        JsonValue::Object(fields)
    }
}

/// Whether `v` renders the payload of event `e` (the payload only, not
/// the variant tag).
pub open spec fn event_value(v: JsonValue, e: AntiraidEvent) -> bool {
    match e {
        AntiraidEvent::OnStartup(templates) => str_array_value(
            v,
            templates@.map_values(|s: String| s@),
        ),
        AntiraidEvent::PermissionCheckExecute(d) => {
            &&& is_obj(v)
            &&& obj_fields(v).len() == 3
            &&& field_str(obj_fields(v)[0], "perm"@, d.perm@)
            &&& field_uint(obj_fields(v)[1], "user_id"@, d.user_id)
            &&& obj_fields(v)[2].key@ == "user_info"@
            &&& user_info_value(obj_fields(v)[2].value, d.user_info)
        },
        AntiraidEvent::ModerationStart(d) => {
            &&& is_obj(v)
            &&& obj_fields(v).len() == 5
            &&& field_str(obj_fields(v)[0], "correlation_id"@, dec_seq(d.correlation_id as nat))
            &&& obj_fields(v)[1].key@ == "action"@
            &&& moderation_action_value(obj_fields(v)[1].value, d.action)
            &&& field_uint(obj_fields(v)[2], "author"@, d.author)
            &&& field_int(obj_fields(v)[3], "num_stings"@, d.num_stings as i64)
            &&& field_opt_str(
                obj_fields(v)[4],
                "reason"@,
                (match d.reason {
                    Some(s) => Some(s@),
                    None => None,
                }),
            )
        },
        AntiraidEvent::ModerationEnd(d) => {
            &&& is_obj(v)
            &&& obj_fields(v).len() == 1
            &&& field_str(obj_fields(v)[0], "correlation_id"@, dec_seq(d.correlation_id as nat))
        },
        AntiraidEvent::ExternalKeyUpdate(d) => {
            &&& is_obj(v)
            &&& obj_fields(v).len() == 3
            &&& field_str(obj_fields(v)[0], "key_modified"@, d.key_modified@)
            &&& field_uint(obj_fields(v)[1], "author"@, d.author)
            &&& field_str(obj_fields(v)[2], "action"@, d.action.name_spec())
        },
        AntiraidEvent::TemplateSettingExecute(d) => {
            &&& is_obj(v)
            &&& obj_fields(v).len() == 5
            &&& field_str(obj_fields(v)[0], "template_id"@, d.template_id@)
            &&& field_str(obj_fields(v)[1], "setting_id"@, d.setting_id@)
            &&& field_str(obj_fields(v)[2], "correlation_id"@, dec_seq(d.correlation_id as nat))
            &&& obj_fields(v)[3].key@ == "op"@
            &&& is_obj(obj_fields(v)[3].value)
            &&& obj_fields(obj_fields(v)[3].value).len() == 2
            &&& field_str(obj_fields(obj_fields(v)[3].value)[0], "op"@, d.op.name_spec())
            &&& obj_fields(obj_fields(v)[3].value)[1].key@ == "fields"@
            &&& is_obj(obj_fields(obj_fields(v)[3].value)[1].value)
            &&& obj_fields(obj_fields(obj_fields(v)[3].value)[1].value) == d.op.fields_spec()
            &&& field_uint(obj_fields(v)[4], "author"@, d.author)
        },
        AntiraidEvent::ScheduledExecution(d) => {
            &&& is_obj(v)
            &&& obj_fields(v).len() == 3
            &&& field_str(obj_fields(v)[0], "id"@, d.id@)
            &&& obj_fields(v)[1].key@ == "data"@
            &&& obj_fields(v)[1].value == d.data
            &&& field_int(obj_fields(v)[2], "run_at"@, d.run_at)
        },
        AntiraidEvent::KeyExpiry(d) => {
            &&& is_obj(v)
            &&& obj_fields(v).len() == 3
            &&& field_str(obj_fields(v)[0], "id"@, d.id@)
            &&& field_str(obj_fields(v)[1], "key"@, d.key@)
            &&& field_str_array(obj_fields(v)[2], "scopes"@, d.scopes@.map_values(|s: String| s@))
        },
        AntiraidEvent::GetSettings(d) => {
            &&& is_obj(v)
            &&& obj_fields(v).len() == 1
            &&& field_uint(obj_fields(v)[0], "author"@, d.author)
        },
        AntiraidEvent::ExecuteSetting(d) => {
            &&& is_obj(v)
            &&& obj_fields(v).len() == 4
            &&& field_str(obj_fields(v)[0], "id"@, d.id@)
            &&& field_uint(obj_fields(v)[1], "author"@, d.author)
            &&& field_str(obj_fields(v)[2], "op"@, d.op@)
            &&& obj_fields(v)[3].key@ == "fields"@
            &&& obj_fields(v)[3].value == d.fields
        },
    }
}

impl AntiraidEvent {
    /// The stable, language-independent tag of the event's kind.
    pub open spec fn variant_name_spec(&self) -> Seq<char> {
        match self {
            AntiraidEvent::OnStartup(_) => "OnStartup"@,
            AntiraidEvent::PermissionCheckExecute(_) => "PermissionCheckExecute"@,
            AntiraidEvent::ModerationStart(_) => "ModerationStart"@,
            AntiraidEvent::ModerationEnd(_) => "ModerationEnd"@,
            AntiraidEvent::ExternalKeyUpdate(_) => "ExternalKeyUpdate"@,
            AntiraidEvent::TemplateSettingExecute(_) => "TemplateSettingExecute"@,
            AntiraidEvent::ScheduledExecution(_) => "ScheduledExecution"@,
            AntiraidEvent::KeyExpiry(_) => "KeyExpiry"@,
            AntiraidEvent::GetSettings(_) => "GetSettings"@,
            AntiraidEvent::ExecuteSetting(_) => "ExecuteSetting"@,
        }
    }

    /// Returns the stable tag of the event's kind, used for routing and
    /// dispatch; stable across releases.
    pub fn variant_name(&self) -> (r: &'static str)
        ensures
            r@ == self.variant_name_spec(),
    {
        match self {
            AntiraidEvent::OnStartup(_) => "OnStartup",
            AntiraidEvent::PermissionCheckExecute(_) => "PermissionCheckExecute",
            AntiraidEvent::ModerationStart(_) => "ModerationStart",
            AntiraidEvent::ModerationEnd(_) => "ModerationEnd",
            AntiraidEvent::ExternalKeyUpdate(_) => "ExternalKeyUpdate",
            AntiraidEvent::TemplateSettingExecute(_) => "TemplateSettingExecute",
            AntiraidEvent::ScheduledExecution(_) => "ScheduledExecution",
            AntiraidEvent::KeyExpiry(_) => "KeyExpiry",
            AntiraidEvent::GetSettings(_) => "GetSettings",
            AntiraidEvent::ExecuteSetting(_) => "ExecuteSetting",
        }
    }

    /// Returns the tags of all event kinds, in declaration order.
    pub fn variant_names() -> (r: Vec<&'static str>)
        ensures
            r@.len() == 10,
            r@[0]@ == "OnStartup"@,
            r@[1]@ == "PermissionCheckExecute"@,
            r@[2]@ == "ModerationStart"@,
            r@[3]@ == "ModerationEnd"@,
            r@[4]@ == "ExternalKeyUpdate"@,
            r@[5]@ == "TemplateSettingExecute"@,
            r@[6]@ == "ScheduledExecution"@,
            r@[7]@ == "KeyExpiry"@,
            r@[8]@ == "GetSettings"@,
            r@[9]@ == "ExecuteSetting"@,
    {
        let mut names: Vec<&'static str> = Vec::new();
        names.push("OnStartup");
        names.push("PermissionCheckExecute");
        names.push("ModerationStart");
        names.push("ModerationEnd");
        names.push("ExternalKeyUpdate");
        names.push("TemplateSettingExecute");
        names.push("ScheduledExecution");
        names.push("KeyExpiry");
        names.push("GetSettings");
        names.push("ExecuteSetting");
        names
    }

    /// The acting user behind the event, for kinds with a clear human
    /// actor; nothing for system-originated kinds and pure correlation
    /// echoes.
    pub open spec fn author_id_spec(&self) -> Option<u64> {
        match self {
            AntiraidEvent::OnStartup(_) => None,
            AntiraidEvent::PermissionCheckExecute(d) => Some(d.user_id),
            AntiraidEvent::ModerationStart(d) => Some(d.author),
            AntiraidEvent::ModerationEnd(_) => None,
            AntiraidEvent::ExternalKeyUpdate(d) => Some(d.author),
            AntiraidEvent::TemplateSettingExecute(d) => Some(d.author),
            AntiraidEvent::ScheduledExecution(_) => None,
            AntiraidEvent::KeyExpiry(_) => None,
            AntiraidEvent::GetSettings(d) => Some(d.author),
            AntiraidEvent::ExecuteSetting(d) => Some(d.author),
        }
    }

    /// Returns the author of the event, as the acting user's id in
    /// decimal, or nothing for kinds with no natural author.
    pub fn author(&self) -> (r: Option<String>)
        ensures
            (match self.author_id_spec() {
                Some(id) => (match r {
                    Some(s) => s@ == dec_seq(id as nat),
                    None => false,
                }),
                None => r is None,
            }),
    {
        match self {
            AntiraidEvent::OnStartup(_) => None,
            AntiraidEvent::PermissionCheckExecute(d) => Some(u64_to_dec_string(d.user_id)),
            AntiraidEvent::ModerationStart(d) => Some(u64_to_dec_string(d.author)),
            AntiraidEvent::ModerationEnd(_) => None,
            AntiraidEvent::ExternalKeyUpdate(d) => Some(u64_to_dec_string(d.author)),
            AntiraidEvent::TemplateSettingExecute(d) => Some(u64_to_dec_string(d.author)),
            AntiraidEvent::ScheduledExecution(_) => None,
            AntiraidEvent::KeyExpiry(_) => None,
            AntiraidEvent::GetSettings(d) => Some(u64_to_dec_string(d.author)),
            AntiraidEvent::ExecuteSetting(d) => Some(u64_to_dec_string(d.author)),
        }
    }

    /// Converts the event's payload (not the variant tag) to a structured
    /// value. Every payload this crate can construct converts; the error
    /// is surfaced rather than panicked on.
    pub fn to_value(self) -> (r: Result<JsonValue, SerializationError>)
        ensures
            (match r {
                Ok(v) => event_value(v, self),
                Err(_) => false,
            }),
    {
        match self {
            AntiraidEvent::OnStartup(templates) => Ok(make_str_array(&templates)),
            AntiraidEvent::PermissionCheckExecute(d) => {
                let mut fields: Vec<JsonField> = Vec::new();
                fields.push(make_field_str("perm", d.perm.as_str()));
                fields.push(make_field_uint("user_id", d.user_id));
                fields.push(
                    JsonField { key: "user_info".to_owned(), value: d.user_info.to_value() },
                );
                Ok(JsonValue::Object(fields))
            },
            AntiraidEvent::ModerationStart(d) => {
                let mut fields: Vec<JsonField> = Vec::new();
                let cid = u128_to_dec_string(d.correlation_id);
                fields.push(make_field_str("correlation_id", cid.as_str()));
                fields.push(JsonField { key: "action".to_owned(), value: d.action.to_value() });
                fields.push(make_field_uint("author", d.author));
                fields.push(make_field_int("num_stings", d.num_stings as i64));
                fields.push(make_field_opt_str("reason", &d.reason));
                Ok(JsonValue::Object(fields))
            },
            AntiraidEvent::ModerationEnd(d) => {
                let mut fields: Vec<JsonField> = Vec::new();
                let cid = u128_to_dec_string(d.correlation_id);
                fields.push(make_field_str("correlation_id", cid.as_str()));
                Ok(JsonValue::Object(fields))
            },
            AntiraidEvent::ExternalKeyUpdate(d) => {
                let mut fields: Vec<JsonField> = Vec::new();
                fields.push(make_field_str("key_modified", d.key_modified.as_str()));
                fields.push(make_field_uint("author", d.author));
                fields.push(make_field_str("action", d.action.name()));
                Ok(JsonValue::Object(fields))
            },
            AntiraidEvent::TemplateSettingExecute(d) => {
                let mut fields: Vec<JsonField> = Vec::new();
                fields.push(make_field_str("template_id", d.template_id.as_str()));
                fields.push(make_field_str("setting_id", d.setting_id.as_str()));
                let cid = u128_to_dec_string(d.correlation_id);
                fields.push(make_field_str("correlation_id", cid.as_str()));
                let op_name = d.op.name();
                let op_fields = match d.op {
                    TemplateOp::View { fields } => fields,
                    TemplateOp::Create { fields } => fields,
                    TemplateOp::Update { fields } => fields,
                    TemplateOp::Delete { fields } => fields,
                };
                let mut op_obj: Vec<JsonField> = Vec::new();
                op_obj.push(make_field_str("op", op_name));
                op_obj.push(
                    JsonField { key: "fields".to_owned(), value: JsonValue::Object(op_fields) },
                );
                fields.push(JsonField { key: "op".to_owned(), value: JsonValue::Object(op_obj) });
                fields.push(make_field_uint("author", d.author));
                Ok(JsonValue::Object(fields))
            },
            AntiraidEvent::ScheduledExecution(d) => {
                let mut fields: Vec<JsonField> = Vec::new();
                fields.push(make_field_str("id", d.id.as_str()));
                fields.push(JsonField { key: "data".to_owned(), value: d.data });
                fields.push(make_field_int("run_at", d.run_at));
                Ok(JsonValue::Object(fields))
            },
            AntiraidEvent::KeyExpiry(d) => {
                let mut fields: Vec<JsonField> = Vec::new();
                fields.push(make_field_str("id", d.id.as_str()));
                fields.push(make_field_str("key", d.key.as_str()));
                fields.push(make_field_str_array("scopes", &d.scopes));
                Ok(JsonValue::Object(fields))
            },
            AntiraidEvent::GetSettings(d) => {
                let mut fields: Vec<JsonField> = Vec::new();
                fields.push(make_field_uint("author", d.author));
                Ok(JsonValue::Object(fields))
            },
            AntiraidEvent::ExecuteSetting(d) => {
                let mut fields: Vec<JsonField> = Vec::new();
                fields.push(make_field_str("id", d.id.as_str()));
                fields.push(make_field_uint("author", d.author));
                fields.push(make_field_str("op", d.op.as_str()));
                fields.push(JsonField { key: "fields".to_owned(), value: d.fields });
                Ok(JsonValue::Object(fields))
            },
        }
    }
}

} // verus!
