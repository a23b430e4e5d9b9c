use antiraid_types::ar_event::{
    AntiraidEvent, ExternalKeyUpdateEventData, ExternalKeyUpdateEventDataAction, GetSettingsEvent,
    KeyExpiryEvent, ModerationAction, ModerationEndEventData, ModerationStartEventData,
    SettingExecuteEvent,
};
use antiraid_types::correlation::{linked, CorrelationTracker};
use antiraid_types::value::{JsonField, JsonValue};

fn start_event(correlation_id: u128) -> ModerationStartEventData {
    ModerationStartEventData {
        correlation_id,
        action: ModerationAction::Kick { user: 5 },
        author: 77,
        num_stings: 1,
        reason: None,
    }
}

#[test]
fn variant_name_is_stable() {
    let e = AntiraidEvent::OnStartup(vec!["a".to_string()]);
    assert_eq!(e.variant_name(), "OnStartup");
    let e = AntiraidEvent::ModerationEnd(ModerationEndEventData { correlation_id: 1 });
    assert_eq!(e.variant_name(), "ModerationEnd");
    let e = AntiraidEvent::GetSettings(GetSettingsEvent { author: 1 });
    assert_eq!(e.variant_name(), "GetSettings");
}

#[test]
fn variant_names_lists_every_kind_in_order() {
    let names = AntiraidEvent::variant_names();
    assert_eq!(
        names,
        vec![
            "OnStartup",
            "PermissionCheckExecute",
            "ModerationStart",
            "ModerationEnd",
            "ExternalKeyUpdate",
            "TemplateSettingExecute",
            "ScheduledExecution",
            "KeyExpiry",
            "GetSettings",
            "ExecuteSetting",
        ]
    );
}

#[test]
fn author_present_for_acting_user_kinds() {
    let e = AntiraidEvent::ExternalKeyUpdate(ExternalKeyUpdateEventData {
        key_modified: "k".to_string(),
        author: 123,
        action: ExternalKeyUpdateEventDataAction::Update,
    });
    assert_eq!(e.author().as_deref(), Some("123"));
    let e = AntiraidEvent::GetSettings(GetSettingsEvent { author: 9007199254740993 });
    assert_eq!(e.author().as_deref(), Some("9007199254740993"));
    let e = AntiraidEvent::ModerationStart(start_event(1));
    assert_eq!(e.author().as_deref(), Some("77"));
}

#[test]
fn author_absent_for_system_kinds() {
    assert_eq!(AntiraidEvent::OnStartup(Vec::new()).author(), None);
    let end = AntiraidEvent::ModerationEnd(ModerationEndEventData { correlation_id: 3 });
    assert_eq!(end.author(), None);
    let expiry = AntiraidEvent::KeyExpiry(KeyExpiryEvent {
        id: "i".to_string(),
        key: "k".to_string(),
        scopes: Vec::new(),
    });
    assert_eq!(expiry.author(), None);
}

#[test]
fn on_startup_to_value_is_the_template_list() {
    let e = AntiraidEvent::OnStartup(vec!["a".to_string(), "b".to_string()]);
    let v = e.to_value().unwrap();
    assert_eq!(
        v,
        JsonValue::Array(vec![
            JsonValue::Str("a".to_string()),
            JsonValue::Str("b".to_string()),
        ])
    );
}

#[test]
fn external_key_update_to_value_fields() {
    let e = AntiraidEvent::ExternalKeyUpdate(ExternalKeyUpdateEventData {
        key_modified: "limits".to_string(),
        author: 42,
        action: ExternalKeyUpdateEventDataAction::Delete,
    });
    let v = e.to_value().unwrap();
    assert_eq!(
        v,
        JsonValue::Object(vec![
            JsonField {
                key: "key_modified".to_string(),
                value: JsonValue::Str("limits".to_string()),
            },
            JsonField { key: "author".to_string(), value: JsonValue::UInt(42) },
            JsonField { key: "action".to_string(), value: JsonValue::Str("Delete".to_string()) },
        ])
    );
}

#[test]
fn execute_setting_to_value_passes_fields_through() {
    let fields = JsonValue::Object(vec![JsonField {
        key: "limit".to_string(),
        value: JsonValue::UInt(10),
    }]);
    let e = AntiraidEvent::ExecuteSetting(SettingExecuteEvent {
        id: "s1".to_string(),
        author: 8,
        op: "Update".to_string(),
        fields,
    });
    let v = e.to_value().unwrap();
    match v {
        JsonValue::Object(fs) => {
            assert_eq!(fs.len(), 4);
            assert_eq!(fs[0].key, "id");
            assert_eq!(fs[1].key, "author");
            assert_eq!(fs[2].key, "op");
            assert_eq!(fs[3].key, "fields");
            assert_eq!(
                fs[3].value,
                JsonValue::Object(vec![JsonField {
                    key: "limit".to_string(),
                    value: JsonValue::UInt(10),
                }])
            );
        }
        other => panic!("expected an object, got {:?}", other),
    }
}

#[test]
fn moderation_start_to_value_renders_correlation_id_in_decimal() {
    let e = AntiraidEvent::ModerationStart(start_event(340282366920938463463374607431768211455));
    let v = e.to_value().unwrap();
    match v {
        JsonValue::Object(fs) => {
            assert_eq!(fs[0].key, "correlation_id");
            assert_eq!(
                fs[0].value,
                JsonValue::Str("340282366920938463463374607431768211455".to_string())
            );
            assert_eq!(fs[1].key, "action");
            assert_eq!(
                fs[1].value,
                JsonValue::Object(vec![
                    JsonField {
                        key: "action".to_string(),
                        value: JsonValue::Str("kick".to_string()),
                    },
                    JsonField { key: "user".to_string(), value: JsonValue::UInt(5) },
                ])
            );
        }
        other => panic!("expected an object, got {:?}", other),
    }
}

#[test]
fn same_correlation_id_links_start_and_end() {
    let start = start_event(99);
    let end = ModerationEndEventData { correlation_id: 99 };
    assert!(linked(&start, &end));
}

#[test]
fn different_correlation_ids_are_not_linked() {
    let start = start_event(99);
    let end = ModerationEndEventData { correlation_id: 100 };
    assert!(!linked(&start, &end));
}

#[test]
fn tracker_matches_end_to_pending_start() {
    let mut tracker = CorrelationTracker::new();
    let start = start_event(7);
    assert!(tracker.record_start(&start));
    assert!(tracker.is_pending(7));
    let end = ModerationEndEventData { correlation_id: 7 };
    assert!(tracker.observe_end(&end));
    assert!(!tracker.is_pending(7));
}

#[test]
fn tracker_ignores_end_with_no_matching_start() {
    let mut tracker = CorrelationTracker::new();
    let start = start_event(7);
    assert!(tracker.record_start(&start));
    // An end event for an unknown id is not an error: it simply matches
    // nothing and the original start stays pending.
    let stray = ModerationEndEventData { correlation_id: 8 };
    assert!(!tracker.observe_end(&stray));
    assert!(tracker.is_pending(7));
}

#[test]
fn tracker_missing_end_is_not_a_fault() {
    let mut tracker = CorrelationTracker::new();
    assert!(tracker.record_start(&start_event(1)));
    assert!(tracker.record_start(&start_event(2)));
    // No end ever arrives for either start; the consumer can keep going
    // and the pending entries simply remain.
    assert!(tracker.is_pending(1));
    assert!(tracker.is_pending(2));
    assert!(!tracker.record_start(&start_event(1)));
}

#[test]
fn key_expiry_to_value_fields() {
    let e = AntiraidEvent::KeyExpiry(KeyExpiryEvent {
        id: "kv1".to_string(),
        key: "session".to_string(),
        scopes: vec!["guild".to_string(), "user".to_string()],
    });
    let v = e.to_value().unwrap();
    assert_eq!(
        v,
        JsonValue::Object(vec![
            JsonField { key: "id".to_string(), value: JsonValue::Str("kv1".to_string()) },
            JsonField { key: "key".to_string(), value: JsonValue::Str("session".to_string()) },
            JsonField {
                key: "scopes".to_string(),
                value: JsonValue::Array(vec![
                    JsonValue::Str("guild".to_string()),
                    JsonValue::Str("user".to_string()),
                ]),
            },
        ])
    );
}

#[test]
fn get_settings_to_value_fields() {
    let e = AntiraidEvent::GetSettings(GetSettingsEvent { author: 31 });
    assert_eq!(
        e.to_value().unwrap(),
        JsonValue::Object(vec![JsonField {
            key: "author".to_string(),
            value: JsonValue::UInt(31),
        }])
    );
}

#[test]
fn moderation_end_to_value_carries_only_the_correlation_id() {
    let e = AntiraidEvent::ModerationEnd(ModerationEndEventData { correlation_id: 12 });
    assert_eq!(
        e.to_value().unwrap(),
        JsonValue::Object(vec![JsonField {
            key: "correlation_id".to_string(),
            value: JsonValue::Str("12".to_string()),
        }])
    );
}

#[test]
fn moderation_action_variants_to_value() {
    let timeout = ModerationAction::Timeout { user: 4, duration_secs: 600 };
    assert_eq!(
        timeout.to_value(),
        JsonValue::Object(vec![
            JsonField { key: "action".to_string(), value: JsonValue::Str("timeout".to_string()) },
            JsonField { key: "user".to_string(), value: JsonValue::UInt(4) },
            JsonField { key: "duration_secs".to_string(), value: JsonValue::UInt(600) },
        ])
    );
    let prune = ModerationAction::Prune { user: None, prune_count: 50 };
    assert_eq!(
        prune.to_value(),
        JsonValue::Object(vec![
            JsonField { key: "action".to_string(), value: JsonValue::Str("prune".to_string()) },
            JsonField { key: "user".to_string(), value: JsonValue::Null },
            JsonField { key: "prune_count".to_string(), value: JsonValue::UInt(50) },
        ])
    );
}
