use antiraid_types::text::{
    format_target, parse_target, parse_u64_str, str_eq, u128_to_dec_string, u64_to_dec_string,
    TargetText,
};
use antiraid_types::userinfo::{
    GuildRole, PartialStaffPosition, Permission, StaffPermissions, UserInfo,
};
use antiraid_types::value::JsonValue;

#[test]
fn decimal_rendering() {
    assert_eq!(u64_to_dec_string(0), "0");
    assert_eq!(u64_to_dec_string(7), "7");
    assert_eq!(u64_to_dec_string(1203), "1203");
    assert_eq!(u64_to_dec_string(u64::MAX), "18446744073709551615");
    assert_eq!(u128_to_dec_string(0), "0");
    assert_eq!(u128_to_dec_string(u128::MAX), "340282366920938463463374607431768211455");
}

#[test]
fn decimal_parsing() {
    assert_eq!(parse_u64_str("0"), Some(0));
    assert_eq!(parse_u64_str("00"), Some(0));
    assert_eq!(parse_u64_str("1203"), Some(1203));
    assert_eq!(parse_u64_str("18446744073709551615"), Some(u64::MAX));
    assert_eq!(parse_u64_str("18446744073709551616"), None);
    assert_eq!(parse_u64_str(""), None);
    assert_eq!(parse_u64_str("12a"), None);
    assert_eq!(parse_u64_str("-1"), None);
    assert_eq!(parse_u64_str("+1"), None);
    assert_eq!(parse_u64_str(" 1"), None);
}

#[test]
fn decimal_round_trip_samples() {
    for n in [0u64, 1, 9, 10, 101, 999_999_999_999, u64::MAX] {
        assert_eq!(parse_u64_str(&u64_to_dec_string(n)), Some(n));
    }
}

#[test]
fn str_eq_compares_contents() {
    assert!(str_eq("", ""));
    assert!(str_eq("abc", "abc"));
    assert!(!str_eq("abc", "abd"));
    assert!(!str_eq("abc", "ab"));
}

#[test]
fn target_grammar() {
    assert_eq!(parse_target("system"), TargetText::Sys);
    assert_eq!(parse_target("user:42"), TargetText::Usr(42));
    assert_eq!(parse_target("user:"), TargetText::BadUserId);
    assert_eq!(parse_target("user:4 2"), TargetText::BadUserId);
    assert_eq!(parse_target("member:42"), TargetText::BadFormat);
    assert_eq!(parse_target("System"), TargetText::BadFormat);
    assert_eq!(format_target(None), "system");
    assert_eq!(format_target(Some(42)), "user:42");
}

fn permission(namespace: &str, perm: &str, negator: bool) -> Permission {
    Permission {
        namespace: namespace.to_string(),
        perm: perm.to_string(),
        negator,
    }
}

#[test]
fn user_info_to_value_shape() {
    let info = UserInfo {
        discord_permissions: 8,
        kittycat_staff_permissions: StaffPermissions {
            user_positions: vec![PartialStaffPosition {
                id: "mod".to_string(),
                index: 1,
                perms: vec![permission("moderation", "kick", false)],
            }],
            perm_overrides: vec![permission("global", "*", true)],
        },
        kittycat_resolved_permissions: vec![permission("moderation", "kick", false)],
        guild_owner_id: 1000,
        guild_roles: vec![GuildRole { id: 5, position: 2, permissions: 8 }],
        member_roles: vec![5, 6],
    };
    match info.to_value() {
        JsonValue::Object(fields) => {
            assert_eq!(fields.len(), 6);
            assert_eq!(fields[0].key, "discord_permissions");
            assert_eq!(fields[0].value, JsonValue::UInt(8));
            assert_eq!(fields[3].key, "guild_owner_id");
            assert_eq!(fields[3].value, JsonValue::UInt(1000));
            assert_eq!(
                fields[5].value,
                JsonValue::Array(vec![JsonValue::UInt(5), JsonValue::UInt(6)])
            );
            match &fields[2].value {
                JsonValue::Array(perms) => {
                    assert_eq!(perms.len(), 1);
                    match &perms[0] {
                        JsonValue::Object(pf) => {
                            assert_eq!(pf[0].key, "namespace");
                            assert_eq!(pf[0].value, JsonValue::Str("moderation".to_string()));
                            assert_eq!(pf[2].value, JsonValue::Bool(false));
                        }
                        other => panic!("expected a permission object, got {:?}", other),
                    }
                }
                other => panic!("expected a permission array, got {:?}", other),
            }
        }
        other => panic!("expected an object, got {:?}", other),
    }
}
