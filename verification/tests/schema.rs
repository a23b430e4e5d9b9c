use antiraid_types::setting::{
    inner_column_type_from_value, setting_from_value, BitFlagEntry, Column, ColumnSuggestion,
    ColumnType, InnerColumnType, Setting,
};
use antiraid_types::template_page;
use antiraid_types::value::JsonValue;

fn column(id: &str) -> Column {
    Column {
        id: id.to_string(),
        name: format!("{} name", id),
        description: format!("{} description", id),
        column_type: ColumnType::Scalar {
            inner: InnerColumnType::String {
                min_length: None,
                max_length: Some(64),
                allowed_values: vec!["x".to_string(), "y".to_string()],
                kind: "textarea".to_string(),
            },
        },
        primary_key: id == "a",
        nullable: false,
        suggestions: ColumnSuggestion::NoSuggestions {},
        secret: false,
        hidden: vec!["Create".to_string()],
        readonly: vec!["Update".to_string()],
    }
}

fn sample_setting() -> Setting {
    Setting {
        id: "limits".to_string(),
        name: "Limits".to_string(),
        description: "Rate limits".to_string(),
        title_template: "{name}".to_string(),
        index_by: Some("position".to_string()),
        columns: vec![column("a"), column("b"), column("c")],
        operations: vec!["View".to_string(), "Update".to_string()],
    }
}

#[test]
fn setting_round_trip_preserves_column_order() {
    let setting = sample_setting();
    let v = setting.to_value();
    let parsed = setting_from_value(&v).expect("a rendered setting parses back");
    let ids: Vec<&str> = parsed.columns.iter().map(|c| c.id.as_str()).collect();
    assert_eq!(ids, vec!["a", "b", "c"]);
    assert_eq!(parsed, setting);
}

#[test]
fn setting_round_trip_keeps_every_field() {
    let mut setting = sample_setting();
    setting.index_by = None;
    setting.columns = vec![column("only")];
    let v = setting.to_value();
    let parsed = setting_from_value(&v).unwrap();
    assert_eq!(parsed, setting);
}

#[test]
fn setting_serialization_column_order_is_declaration_order() {
    let setting = sample_setting();
    match setting.to_value() {
        JsonValue::Object(fields) => {
            assert_eq!(fields[5].key, "columns");
            match &fields[5].value {
                JsonValue::Array(cols) => {
                    assert_eq!(cols.len(), 3);
                    for (col, expected) in cols.iter().zip(["a", "b", "c"]) {
                        match col {
                            JsonValue::Object(cf) => {
                                assert_eq!(cf[0].key, "id");
                                assert_eq!(cf[0].value, JsonValue::Str(expected.to_string()));
                            }
                            other => panic!("expected a column object, got {:?}", other),
                        }
                    }
                }
                other => panic!("expected a column array, got {:?}", other),
            }
        }
        other => panic!("expected an object, got {:?}", other),
    }
}

#[test]
fn inner_column_types_round_trip() {
    let samples = vec![
        InnerColumnType::String {
            min_length: Some(1),
            max_length: None,
            allowed_values: Vec::new(),
            kind: "uuid".to_string(),
        },
        InnerColumnType::Integer {},
        InnerColumnType::Float {},
        InnerColumnType::BitFlag {
            values: vec![
                BitFlagEntry { name: "MODERATE".to_string(), value: 1 },
                BitFlagEntry { name: "ADMIN".to_string(), value: 2 },
            ],
        },
        InnerColumnType::Boolean {},
        InnerColumnType::Json { style: "templateref".to_string() },
    ];
    for t in samples {
        let v = t.to_value();
        assert_eq!(inner_column_type_from_value(&v), Some(t));
    }
}

#[test]
fn setting_from_value_rejects_other_shapes() {
    assert_eq!(setting_from_value(&JsonValue::Null), None);
    assert_eq!(setting_from_value(&JsonValue::Array(Vec::new())), None);
    assert_eq!(setting_from_value(&JsonValue::Object(Vec::new())), None);
}

#[test]
fn inner_column_type_rejects_unknown_tag() {
    let t = InnerColumnType::Integer {};
    let v = t.to_value();
    match v {
        JsonValue::Object(mut fields) => {
            fields[0].value = JsonValue::Str("Decimal".to_string());
            assert_eq!(inner_column_type_from_value(&JsonValue::Object(fields)), None);
        }
        other => panic!("expected an object, got {:?}", other),
    }
}

#[test]
fn template_page_columns_compare_by_id() {
    let a = template_page::Column {
        id: "same".to_string(),
        name: "first".to_string(),
        description: "one".to_string(),
        column_type: template_page::ColumnType::Scalar {
            inner: template_page::InnerColumnType::Boolean {},
        },
        nullable: false,
        suggestions: template_page::ColumnSuggestion::NoSuggestions {},
        secret: false,
        ignored_for: vec![template_page::OperationType::Create],
    };
    let mut b = a.clone();
    b.name = "second".to_string();
    b.ignored_for = Vec::new();
    assert_eq!(a, b);
    let mut c = a.clone();
    c.id = "other".to_string();
    assert_ne!(a, c);
}

#[test]
fn template_page_operations_default_to_unsupported() {
    let ops = template_page::SettingOperations::default();
    assert!(!ops.view && !ops.create && !ops.update && !ops.delete);
}
