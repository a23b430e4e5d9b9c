use antiraid_types::punishments::{
    Punishment, PunishmentCreate, PunishmentState, PunishmentTarget,
};
use antiraid_types::stings::{
    Sting, StingAggregate, StingCreate, StingState, StingTarget,
};
use antiraid_types::value::JsonValue;
use antiraid_types::ParseError;

fn sample_sting_create(target: StingTarget, state: StingState) -> StingCreate {
    StingCreate {
        src: Some("test".to_string()),
        stings: 3,
        reason: Some("spam".to_string()),
        void_reason: None,
        guild_id: 42,
        creator: StingTarget::System,
        target,
        state,
        duration: Some(60),
        sting_data: None,
    }
}

#[test]
fn sting_target_round_trip_user() {
    let t = StingTarget::User(123);
    let s = t.to_display_string();
    assert_eq!(s, "user:123");
    assert_eq!(StingTarget::parse_str(&s).unwrap(), t);
}

#[test]
fn sting_target_round_trip_system() {
    let t = StingTarget::System;
    let s = t.to_display_string();
    assert_eq!(s, "system");
    assert_eq!(StingTarget::parse_str(&s).unwrap(), t);
}

#[test]
fn punishment_target_round_trip() {
    for t in [PunishmentTarget::User(u64::MAX), PunishmentTarget::User(0), PunishmentTarget::System]
    {
        let s = t.to_display_string();
        assert_eq!(PunishmentTarget::parse_str(&s).unwrap(), t);
    }
}

#[test]
fn sting_target_rejects_bad_user_id() {
    match StingTarget::parse_str("user:abc") {
        Err(ParseError::InvalidUserId(input)) => assert_eq!(input, "user:abc"),
        other => panic!("expected InvalidUserId, got {:?}", other),
    }
}

#[test]
fn sting_target_rejects_bad_format() {
    match StingTarget::parse_str("admin") {
        Err(ParseError::InvalidFormat(input)) => assert_eq!(input, "admin"),
        other => panic!("expected InvalidFormat, got {:?}", other),
    }
}

#[test]
fn punishment_target_rejects() {
    assert!(matches!(
        PunishmentTarget::parse_str("user:abc"),
        Err(ParseError::InvalidUserId(_))
    ));
    assert!(matches!(
        PunishmentTarget::parse_str("admin"),
        Err(ParseError::InvalidFormat(_))
    ));
    assert!(matches!(
        PunishmentTarget::parse_str(""),
        Err(ParseError::InvalidFormat(_))
    ));
}

#[test]
fn target_accepts_leading_zeros_and_rejects_overflow() {
    assert_eq!(
        StingTarget::parse_str("user:007").unwrap(),
        StingTarget::User(7)
    );
    // One past u64::MAX.
    assert!(matches!(
        StingTarget::parse_str("user:18446744073709551616"),
        Err(ParseError::InvalidUserId(_))
    ));
    assert_eq!(
        StingTarget::parse_str("user:18446744073709551615").unwrap(),
        StingTarget::User(u64::MAX)
    );
}

#[test]
fn state_round_trip() {
    for st in [StingState::Active, StingState::Voided, StingState::Handled] {
        let s = st.to_display_string();
        assert_eq!(StingState::parse_str(&s).unwrap(), st);
    }
    for st in [
        PunishmentState::Active,
        PunishmentState::Voided,
        PunishmentState::Handled,
    ] {
        let s = st.to_display_string();
        assert_eq!(PunishmentState::parse_str(&s).unwrap(), st);
    }
}

#[test]
fn state_strings_are_lowercase() {
    assert_eq!(StingState::Active.to_display_string(), "active");
    assert_eq!(StingState::Voided.to_display_string(), "voided");
    assert_eq!(StingState::Handled.to_display_string(), "handled");
}

#[test]
fn state_rejects_wrong_case() {
    assert!(matches!(
        StingState::parse_str("ACTIVE"),
        Err(ParseError::InvalidState(_))
    ));
    assert!(matches!(
        PunishmentState::parse_str("ACTIVE"),
        Err(ParseError::InvalidState(_))
    ));
    assert!(matches!(
        StingState::parse_str(" active"),
        Err(ParseError::InvalidState(_))
    ));
    match StingState::parse_str("gone") {
        Err(ParseError::InvalidState(input)) => assert_eq!(input, "gone"),
        other => panic!("expected InvalidState, got {:?}", other),
    }
}

#[test]
fn default_state_is_active() {
    assert_eq!(StingState::default(), StingState::Active);
    assert_eq!(PunishmentState::default(), PunishmentState::Active);
}

#[test]
fn freshly_created_sting_is_active() {
    let sting: Sting = sample_sting_create(StingTarget::User(9), StingState::default()).create();
    assert_eq!(sting.state, StingState::Active);
    assert_eq!(sting.handle_log, JsonValue::Null);
}

#[test]
fn to_sting_assigns_id_and_time_and_empty_handle_log() {
    let create = sample_sting_create(StingTarget::User(9), StingState::Active);
    let sting = create.to_sting(7, 1000);
    assert_eq!(sting.id, 7);
    assert_eq!(sting.created_at, 1000);
    assert_eq!(sting.handle_log, JsonValue::Null);
    assert_eq!(sting.src.as_deref(), Some("test"));
    assert_eq!(sting.stings, 3);
    assert_eq!(sting.reason.as_deref(), Some("spam"));
    assert_eq!(sting.void_reason, None);
    assert_eq!(sting.guild_id, 42);
    assert_eq!(sting.creator, StingTarget::System);
    assert_eq!(sting.target, StingTarget::User(9));
    assert_eq!(sting.state, StingState::Active);
    assert_eq!(sting.duration, Some(60));
    assert_eq!(sting.sting_data, None);
}

#[test]
fn created_sting_id_is_a_version_4_uuid() {
    let sting = sample_sting_create(StingTarget::System, StingState::Active).create();
    assert_eq!((sting.id >> 76) & 0xf, 4);
    assert_eq!((sting.id >> 62) & 0x3, 2);
    let again = sample_sting_create(StingTarget::System, StingState::Active).create();
    assert_ne!(sting.id, again.id);
}

fn sample_punishment_create() -> PunishmentCreate {
    PunishmentCreate {
        src: None,
        guild_id: 5,
        punishment: "ban".to_string(),
        creator: PunishmentTarget::User(1),
        target: PunishmentTarget::User(2),
        handle_log: JsonValue::Null,
        duration: None,
        reason: "raiding".to_string(),
        state: PunishmentState::default(),
        data: None,
    }
}

#[test]
fn to_punishment_assigns_id_and_time() {
    let p: Punishment = sample_punishment_create().to_punishment(11, 2000);
    assert_eq!(p.id, 11);
    assert_eq!(p.created_at, 2000);
    assert_eq!(p.punishment, "ban");
    assert_eq!(p.reason, "raiding");
    assert_eq!(p.creator, PunishmentTarget::User(1));
    assert_eq!(p.target, PunishmentTarget::User(2));
    assert_eq!(p.state, PunishmentState::Active);
}

#[test]
fn freshly_created_punishment_is_active() {
    let p = sample_punishment_create().create();
    assert_eq!(p.state, PunishmentState::Active);
    assert_eq!((p.id >> 76) & 0xf, 4);
}

fn row(target: StingTarget, total: i64) -> StingAggregate {
    StingAggregate {
        src: None,
        target,
        total_stings: total,
    }
}

#[test]
fn aggregate_sum_per_user() {
    let rows = vec![
        row(StingTarget::User(1), 5),
        row(StingTarget::User(2), 3),
        row(StingTarget::System, 2),
    ];
    let (map, system_total) = StingAggregate::total_stings_per_user(rows);
    assert_eq!(system_total, 2);
    assert_eq!(map.len(), 2);
    assert_eq!(map.get(&1), Some(&7));
    assert_eq!(map.get(&2), Some(&5));
    assert_eq!(map.get(&3), None);
}

#[test]
fn aggregate_totality() {
    let rows = vec![
        row(StingTarget::User(1), 5),
        row(StingTarget::User(2), 3),
        row(StingTarget::System, 2),
    ];
    assert_eq!(StingAggregate::total_stings(rows), 10);
}

#[test]
fn aggregate_system_added_once_per_user() {
    // Two system rows and a split user: the system total folds into each
    // mapped user exactly once.
    let rows = vec![
        row(StingTarget::System, 4),
        row(StingTarget::User(8), 1),
        row(StingTarget::System, 6),
        row(StingTarget::User(8), 2),
    ];
    let (map, system_total) = StingAggregate::total_stings_per_user(rows);
    assert_eq!(system_total, 10);
    assert_eq!(map.len(), 1);
    assert_eq!(map.get(&8), Some(&13));
}

#[test]
fn aggregate_empty_rows() {
    let (map, system_total) = StingAggregate::total_stings_per_user(Vec::new());
    assert!(map.is_empty());
    assert_eq!(system_total, 0);
    assert_eq!(StingAggregate::total_stings(Vec::new()), 0);
}

#[test]
fn aggregate_negative_totals() {
    let rows = vec![
        row(StingTarget::User(1), -5),
        row(StingTarget::System, 3),
    ];
    let (map, system_total) = StingAggregate::total_stings_per_user(rows);
    assert_eq!(system_total, 3);
    assert_eq!(map.get(&1), Some(&-2));
    let rows2 = vec![
        row(StingTarget::User(1), -5),
        row(StingTarget::System, 3),
    ];
    assert_eq!(StingAggregate::total_stings(rows2), -2);
}
