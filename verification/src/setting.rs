//! Declarative setting-schema descriptors and their structured-value
//! codec. Column declaration order is user-facing display order: the
//! codec keeps it, and the proofs pin that down.

use vstd::prelude::*;

use crate::value::{
    field_bool, field_opt_str, field_opt_uint, field_str, field_str_array, is_obj, is_str,
    make_field_bool, make_field_opt_str, make_field_str, make_field_str_array, obj_fields,
    JsonField, JsonValue,
};

verus! {

/// The shape of a column: a single value or an array of values.
#[derive(Debug, Clone, PartialEq)]
pub enum ColumnType {
    /// A single valued column (scalar).
    Scalar {
        /// The value type.
        inner: InnerColumnType,
    },
    /// An array column.
    Array {
        /// The inner type of the array.
        inner: InnerColumnType,
    },
}

/// One named bit of a bitflag column.
#[derive(Debug, Clone, PartialEq)]
pub struct BitFlagEntry {
    /// The flag's name.
    pub name: String,
    /// The flag's bit value.
    pub value: i64,
}

/// The value type of a column; a hint used for styling the website.
#[derive(Debug, Clone, PartialEq)]
pub enum InnerColumnType {
    /// A text column.
    String {
        /// The least accepted length, if any.
        min_length: Option<usize>,
        /// The greatest accepted length, if any.
        max_length: Option<usize>,
        /// The accepted values; empty means all values are allowed.
        allowed_values: Vec<String>,
        /// The column's kind, e.g. uuid, textarea, channel, user, role,
        /// interval, timestamp.
        kind: String,
    },
    /// An integer column.
    Integer {},
    /// A floating-point column; the descriptor carries no float value.
    Float {},
    /// A bitflag column.
    BitFlag {
        /// The named bit values, in declaration order.
        values: Vec<BitFlagEntry>,
    },
    /// A boolean column.
    Boolean {},
    /// A structured column.
    Json {
        /// The column's style, e.g. templateref.
        style: String,
    },
}

/// Suggestions to display for a column.
#[derive(Debug, Clone, PartialEq)]
pub enum ColumnSuggestion {
    /// A fixed list of suggestions.
    Static {
        /// The suggestions, in order.
        suggestions: Vec<String>,
    },
    /// No suggestions.
    NoSuggestions {},
}

/// One column of a setting.
#[derive(Debug, Clone, PartialEq)]
pub struct Column {
    /// The ID of the column on the database.
    pub id: String,
    /// The friendly name of the column.
    pub name: String,
    /// The description of the column.
    pub description: String,
    /// The type of the column.
    pub column_type: ColumnType,
    /// Whether or not the column is a primary key.
    pub primary_key: bool,
    /// Whether or not the column is nullable.
    pub nullable: bool,
    /// Suggestions to display.
    pub suggestions: ColumnSuggestion,
    /// A secret field that is not shown to the user.
    pub secret: bool,
    /// The operations for which the field is hidden.
    pub hidden: Vec<String>,
    /// The operations for which the field is readonly. Readonly fields
    /// may or may not be sent to the server.
    pub readonly: Vec<String>,
}

/// A setting: declarative metadata other components must honor when
/// rendering or validating configuration.
#[derive(Debug, Clone, PartialEq)]
pub struct Setting {
    /// The ID of the option.
    pub id: String,
    /// The name of the option.
    pub name: String,
    /// The description of the option.
    pub description: String,
    /// Title template, used for the title of the embed.
    pub title_template: String,
    /// If set, all options within the setting will be draggable with the
    /// provided index field.
    pub index_by: Option<String>,
    /// The columns for this option, in display order.
    pub columns: Vec<Column>,
    /// The supported operations for this option.
    pub operations: Vec<String>,
}

/// The view of an optional string.
pub open spec fn opt_str_view(s: Option<String>) -> Option<Seq<char>> {
    match s {
        Some(t) => Some(t@),
        None => None,
    }
}

/// Whether `v` renders the inner column type `t`.
pub open spec fn inner_column_type_value(v: JsonValue, t: InnerColumnType) -> bool {
    match t {
        InnerColumnType::String { min_length, max_length, allowed_values, kind } => {
            &&& is_obj(v)
            &&& obj_fields(v).len() == 5
            &&& field_str(obj_fields(v)[0], "type"@, "String"@)
            &&& field_opt_uint(
                obj_fields(v)[1],
                "min_length"@,
                (match min_length {
                    Some(n) => Some(n as u64),
                    None => None,
                }),
            )
            &&& field_opt_uint(
                obj_fields(v)[2],
                "max_length"@,
                (match max_length {
                    Some(n) => Some(n as u64),
                    None => None,
                }),
            )
            &&& field_str_array(
                obj_fields(v)[3],
                "allowed_values"@,
                allowed_values@.map_values(|s: String| s@),
            )
            &&& field_str(obj_fields(v)[4], "kind"@, kind@)
        },
        InnerColumnType::Integer {  } => {
            &&& is_obj(v)
            &&& obj_fields(v).len() == 1
            &&& field_str(obj_fields(v)[0], "type"@, "Integer"@)
        },
        InnerColumnType::Float {  } => {
            &&& is_obj(v)
            &&& obj_fields(v).len() == 1
            &&& field_str(obj_fields(v)[0], "type"@, "Float"@)
        },
        InnerColumnType::BitFlag { values } => {
            &&& is_obj(v)
            &&& obj_fields(v).len() == 2
            &&& field_str(obj_fields(v)[0], "type"@, "BitFlag"@)
            &&& obj_fields(v)[1].key@ == "values"@
            &&& is_obj(obj_fields(v)[1].value)
            &&& obj_fields(obj_fields(v)[1].value).len() == values@.len()
            &&& forall|i: int|
                0 <= i < values@.len() ==> {
                    &&& (#[trigger] obj_fields(obj_fields(v)[1].value)[i]).key@
                        == values@[i].name@
                    &&& obj_fields(obj_fields(v)[1].value)[i].value == JsonValue::Int(
                        values@[i].value,
                    )
                }
        },
        InnerColumnType::Boolean {  } => {
            &&& is_obj(v)
            &&& obj_fields(v).len() == 1
            &&& field_str(obj_fields(v)[0], "type"@, "Boolean"@)
        },
        InnerColumnType::Json { style } => {
            &&& is_obj(v)
            &&& obj_fields(v).len() == 2
            &&& field_str(obj_fields(v)[0], "type"@, "Json"@)
            &&& field_str(obj_fields(v)[1], "style"@, style@)
        },
    }
}

/// Whether `v` renders the column type `t`.
pub open spec fn column_type_value(v: JsonValue, t: ColumnType) -> bool {
    match t {
        ColumnType::Scalar { inner } => {
            &&& is_obj(v)
            &&& obj_fields(v).len() == 2
            &&& field_str(obj_fields(v)[0], "type"@, "Scalar"@)
            &&& obj_fields(v)[1].key@ == "inner"@
            &&& inner_column_type_value(obj_fields(v)[1].value, inner)
        },
        ColumnType::Array { inner } => {
            &&& is_obj(v)
            &&& obj_fields(v).len() == 2
            &&& field_str(obj_fields(v)[0], "type"@, "Array"@)
            &&& obj_fields(v)[1].key@ == "inner"@
            &&& inner_column_type_value(obj_fields(v)[1].value, inner)
        },
    }
}

/// Whether `v` renders the suggestion hint `t`.
pub open spec fn suggestion_value(v: JsonValue, t: ColumnSuggestion) -> bool {
    match t {
        ColumnSuggestion::Static { suggestions } => {
            &&& is_obj(v)
            &&& obj_fields(v).len() == 2
            &&& field_str(obj_fields(v)[0], "type"@, "Static"@)
            &&& field_str_array(
                obj_fields(v)[1],
                "suggestions"@,
                suggestions@.map_values(|s: String| s@),
            )
        },
        ColumnSuggestion::NoSuggestions {  } => {
            &&& is_obj(v)
            &&& obj_fields(v).len() == 1
            &&& field_str(obj_fields(v)[0], "type"@, "None"@)
        },
    }
}

/// Whether `v` renders the column `c`.
pub open spec fn column_value(v: JsonValue, c: Column) -> bool {
    &&& is_obj(v)
    &&& obj_fields(v).len() == 10
    &&& field_str(obj_fields(v)[0], "id"@, c.id@)
    &&& field_str(obj_fields(v)[1], "name"@, c.name@)
    &&& field_str(obj_fields(v)[2], "description"@, c.description@)
    &&& obj_fields(v)[3].key@ == "column_type"@
    &&& column_type_value(obj_fields(v)[3].value, c.column_type)
    &&& field_bool(obj_fields(v)[4], "primary_key"@, c.primary_key)
    &&& field_bool(obj_fields(v)[5], "nullable"@, c.nullable)
    &&& obj_fields(v)[6].key@ == "suggestions"@
    &&& suggestion_value(obj_fields(v)[6].value, c.suggestions)
    &&& field_bool(obj_fields(v)[7], "secret"@, c.secret)
    &&& field_str_array(obj_fields(v)[8], "hidden"@, c.hidden@.map_values(|s: String| s@))
    &&& field_str_array(obj_fields(v)[9], "readonly"@, c.readonly@.map_values(|s: String| s@))
}

/// Whether `v` renders the setting `s`, column order included.
pub open spec fn setting_value(v: JsonValue, s: Setting) -> bool {
    &&& is_obj(v)
    &&& obj_fields(v).len() == 7
    &&& field_str(obj_fields(v)[0], "id"@, s.id@)
    &&& field_str(obj_fields(v)[1], "name"@, s.name@)
    &&& field_str(obj_fields(v)[2], "description"@, s.description@)
    &&& field_str(obj_fields(v)[3], "title_template"@, s.title_template@)
    &&& field_opt_str(obj_fields(v)[4], "index_by"@, opt_str_view(s.index_by))
    &&& obj_fields(v)[5].key@ == "columns"@
    &&& crate::value::is_arr(obj_fields(v)[5].value)
    &&& crate::value::arr_elems(obj_fields(v)[5].value).len() == s.columns@.len()
    &&& forall|i: int|
        0 <= i < s.columns@.len() ==> column_value(
            #[trigger] crate::value::arr_elems(obj_fields(v)[5].value)[i],
            s.columns@[i],
        )
    &&& field_str_array(
        obj_fields(v)[6],
        "operations"@,
        s.operations@.map_values(|s2: String| s2@),
    )
}

impl InnerColumnType {
    /// Renders the inner column type as a structured value.
    pub fn to_value(&self) -> (v: JsonValue)
        ensures
            inner_column_type_value(v, *self),
    {
        let mut fields: Vec<JsonField> = Vec::new();
        match self {
            InnerColumnType::String { min_length, max_length, allowed_values, kind } => {
                fields.push(make_field_str("type", "String"));
                let min64: Option<u64> = match min_length {
                    Some(n) => Some(*n as u64),
                    None => None,
                };
                let max64: Option<u64> = match max_length {
                    Some(n) => Some(*n as u64),
                    None => None,
                };
                fields.push(crate::value::make_field_opt_uint("min_length", &min64));
                fields.push(crate::value::make_field_opt_uint("max_length", &max64));
                fields.push(make_field_str_array("allowed_values", allowed_values));
                fields.push(make_field_str("kind", kind.as_str()));
            },
            InnerColumnType::Integer {  } => {
                fields.push(make_field_str("type", "Integer"));
            },
            InnerColumnType::Float {  } => {
                fields.push(make_field_str("type", "Float"));
            },
            InnerColumnType::BitFlag { values } => {
                fields.push(make_field_str("type", "BitFlag"));
                let mut entries: Vec<JsonField> = Vec::new();
                let mut i: usize = 0;
                while i < values.len()
                    invariant
                        0 <= i <= values@.len(),
                        entries@.len() == i,
                        forall|k: int|
                            0 <= k < i ==> (#[trigger] entries@[k]).key@ == values@[k].name@
                                && entries@[k].value == JsonValue::Int(values@[k].value),
                    decreases values@.len() - i,
                {
                    entries.push(
                        JsonField {
                            key: values[i].name.as_str().to_owned(),
                            value: JsonValue::Int(values[i].value),
                        },
                    );
                    i = i + 1;
                }
                fields.push(
                    JsonField { key: "values".to_owned(), value: JsonValue::Object(entries) },
                );
            },
            InnerColumnType::Boolean {  } => {
                fields.push(make_field_str("type", "Boolean"));
            },
            InnerColumnType::Json { style } => {
                fields.push(make_field_str("type", "Json"));
                fields.push(make_field_str("style", style.as_str()));
            },
        }
        JsonValue::Object(fields)
    }
}

impl ColumnType {
    /// Renders the column type as a structured value.
    pub fn to_value(&self) -> (v: JsonValue)
        ensures
            column_type_value(v, *self),
    {
        let mut fields: Vec<JsonField> = Vec::new();
        match self {
            ColumnType::Scalar { inner } => {
                fields.push(make_field_str("type", "Scalar"));
                fields.push(JsonField { key: "inner".to_owned(), value: inner.to_value() });
            },
            ColumnType::Array { inner } => {
                fields.push(make_field_str("type", "Array"));
                fields.push(JsonField { key: "inner".to_owned(), value: inner.to_value() });
            },
        }
        JsonValue::Object(fields)
    }
}

impl ColumnSuggestion {
    /// Renders the suggestion hint as a structured value.
    pub fn to_value(&self) -> (v: JsonValue)
        ensures
            suggestion_value(v, *self),
    {
        let mut fields: Vec<JsonField> = Vec::new();
        match self {
            ColumnSuggestion::Static { suggestions } => {
                fields.push(make_field_str("type", "Static"));
                fields.push(make_field_str_array("suggestions", suggestions));
            },
            ColumnSuggestion::NoSuggestions {  } => {
                fields.push(make_field_str("type", "None"));
            },
        }
        JsonValue::Object(fields)
    }
}

impl Column {
    /// Renders the column as a structured value.
    pub fn to_value(&self) -> (v: JsonValue)
        ensures
            column_value(v, *self),
    {
        let mut fields: Vec<JsonField> = Vec::new();
        fields.push(make_field_str("id", self.id.as_str()));
        fields.push(make_field_str("name", self.name.as_str()));
        fields.push(make_field_str("description", self.description.as_str()));
        fields.push(JsonField { key: "column_type".to_owned(), value: self.column_type.to_value() });
        fields.push(make_field_bool("primary_key", self.primary_key));
        fields.push(make_field_bool("nullable", self.nullable));
        fields.push(JsonField { key: "suggestions".to_owned(), value: self.suggestions.to_value() });
        fields.push(make_field_bool("secret", self.secret));
        fields.push(make_field_str_array("hidden", &self.hidden));
        fields.push(make_field_str_array("readonly", &self.readonly));
        JsonValue::Object(fields)
    }
}

impl Setting {
    /// Renders the setting as a structured value, columns in declaration
    /// order.
    pub fn to_value(&self) -> (v: JsonValue)
        ensures
            setting_value(v, *self),
    {
        let mut cols: Vec<JsonValue> = Vec::new();
        let mut i: usize = 0;
        while i < self.columns.len()
            invariant
                0 <= i <= self.columns@.len(),
                cols@.len() == i,
                forall|k: int| 0 <= k < i ==> column_value(#[trigger] cols@[k], self.columns@[k]),
            decreases self.columns@.len() - i,
        {
            cols.push(self.columns[i].to_value());
            i = i + 1;
        }
        let mut fields: Vec<JsonField> = Vec::new();
        fields.push(make_field_str("id", self.id.as_str()));
        fields.push(make_field_str("name", self.name.as_str()));
        fields.push(make_field_str("description", self.description.as_str()));
        fields.push(make_field_str("title_template", self.title_template.as_str()));
        fields.push(make_field_opt_str("index_by", &self.index_by));
        fields.push(JsonField { key: "columns".to_owned(), value: JsonValue::Array(cols) });
        fields.push(make_field_str_array("operations", &self.operations));
        JsonValue::Object(fields)
    }
}

/// Parses the string under field `f` when `f` is named `key` and holds
/// a string.
fn parse_str_field(f: &JsonField, key: &str) -> (r: Option<String>)
    ensures
        (match r {
            Some(s) => field_str(*f, key@, s@),
            None => forall|t: Seq<char>| !field_str(*f, key@, t),
        }),
{
    if !crate::text::str_eq(f.key.as_str(), key) {
        return None;
    }
    match &f.value {
        JsonValue::Str(s) => Some(s.clone()),
        _ => None,
    }
}

/// Parses the boolean under field `f` when `f` is named `key` and holds
/// a boolean.
fn parse_bool_field(f: &JsonField, key: &str) -> (r: Option<bool>)
    ensures
        (match r {
            Some(b) => field_bool(*f, key@, b),
            None => forall|b: bool| !field_bool(*f, key@, b),
        }),
{
    if !crate::text::str_eq(f.key.as_str(), key) {
        return None;
    }
    match &f.value {
        JsonValue::Bool(b) => Some(*b),
        _ => None,
    }
}

/// Parses the string-or-null under field `f` when `f` is named `key` and
/// holds one.
fn parse_opt_str_field(f: &JsonField, key: &str) -> (r: Option<Option<String>>)
    ensures
        (match r {
            Some(s) => field_opt_str(*f, key@, opt_str_view(s)),
            None => forall|t: Option<Seq<char>>| !field_opt_str(*f, key@, t),
        }),
{
    if !crate::text::str_eq(f.key.as_str(), key) {
        return None;
    }
    match &f.value {
        JsonValue::Str(s) => Some(Some(s.clone())),
        JsonValue::Null => Some(None),
        _ => None,
    }
}

/// Parses the length bound under field `f` when `f` is named `key` and
/// holds an in-range unsigned integer or null.
fn parse_opt_len_field(f: &JsonField, key: &str) -> (r: Option<Option<usize>>)
    ensures
        (match r {
            Some(m) => field_opt_uint(
                *f,
                key@,
                (match m {
                    Some(n) => Some(n as u64),
                    None => None,
                }),
            ),
            None => forall|m: Option<u64>|
                (match m {
                    Some(x) => x <= usize::MAX as u64,
                    None => true,
                }) ==> !(#[trigger] field_opt_uint(*f, key@, m)),
        }),
{
    if !crate::text::str_eq(f.key.as_str(), key) {
        return None;
    }
    match &f.value {
        JsonValue::UInt(x) => {
            if *x <= usize::MAX as u64 {
                Some(Some(*x as usize))
            } else {
                None
            }
        },
        JsonValue::Null => Some(None),
        _ => None,
    }
}

/// Parses the string list under field `f` when `f` is named `key` and
/// holds an array of strings.
fn parse_str_array_field(f: &JsonField, key: &str) -> (r: Option<Vec<String>>)
    ensures
        (match r {
            Some(vs) => field_str_array(*f, key@, vs@.map_values(|s: String| s@)),
            None => forall|ss: Seq<Seq<char>>| !field_str_array(*f, key@, ss),
        }),
{
    if !crate::text::str_eq(f.key.as_str(), key) {
        return None;
    }
    match &f.value {
        JsonValue::Array(elems) => {
            proof {
                assert(crate::value::arr_elems(f.value) == elems@);
            }
            let mut out: Vec<String> = Vec::new();
            let mut i: usize = 0;
            while i < elems.len()
                invariant
                    0 <= i <= elems@.len(),
                    out@.len() == i,
                    crate::value::arr_elems(f.value) == elems@,
                    forall|k: int| 0 <= k < i ==> is_str(#[trigger] elems@[k], out@[k]@),
                decreases elems@.len() - i,
            {
                match &elems[i] {
                    JsonValue::Str(s) => {
                        out.push(s.clone());
                    },
                    _ => {
                        proof {
                            assert(crate::value::arr_elems(f.value) == elems@);
                            assert forall|ss: Seq<Seq<char>>|
                                !field_str_array(*f, key@, ss) by {
                                if field_str_array(*f, key@, ss) {
                                    assert(ss.len() == elems@.len());
                                    assert(is_str(crate::value::arr_elems(f.value)[i as int], ss[i as int]));
                                }
                            }
                        }
                        return None;
                    },
                }
                i = i + 1;
            }
            proof {
                assert(out@.map_values(|s: String| s@) =~= elems@.map_values(
                    |e: JsonValue| (match e {
                        JsonValue::Str(s) => s@,
                        _ => Seq::<char>::empty(),
                    }),
                ));
            }
            Some(out)
        },
        _ => None,
    }
}

/// The six inner-column-type tags are pairwise distinct strings.
proof fn lemma_inner_tags_distinct()
    ensures
        "String"@ != "Integer"@,
        "String"@ != "Float"@,
        "String"@ != "BitFlag"@,
        "String"@ != "Boolean"@,
        "String"@ != "Json"@,
        "Integer"@ != "Float"@,
        "Integer"@ != "BitFlag"@,
        "Integer"@ != "Boolean"@,
        "Integer"@ != "Json"@,
        "Float"@ != "BitFlag"@,
        "Float"@ != "Boolean"@,
        "Float"@ != "Json"@,
        "BitFlag"@ != "Boolean"@,
        "BitFlag"@ != "Json"@,
        "Boolean"@ != "Json"@,
{
    reveal_strlit("String");
    reveal_strlit("Integer");
    reveal_strlit("Float");
    reveal_strlit("BitFlag");
    reveal_strlit("Boolean");
    reveal_strlit("Json");
    assert("String"@.len() == 6);
    assert("Integer"@.len() == 7);
    assert("Float"@.len() == 5);
    assert("BitFlag"@.len() == 7);
    assert("Boolean"@.len() == 7);
    assert("Json"@.len() == 4);
    assert("Integer"@[0] == 'I' && "BitFlag"@[0] == 'B' && "Boolean"@[0] == 'B');
    assert("BitFlag"@[1] == 'i' && "Boolean"@[1] == 'o');
}

/// Any inner column type rendering to `v` carries the tag of its own
/// variant in the leading `type` field.
proof fn lemma_inner_tag_of(v: JsonValue, t: InnerColumnType, tag: Seq<char>)
    requires
        inner_column_type_value(v, t),
        obj_fields(v).len() >= 1,
        field_str(obj_fields(v)[0], "type"@, tag),
    ensures
        (match t {
            InnerColumnType::String { .. } => tag == "String"@,
            InnerColumnType::Integer {  } => tag == "Integer"@,
            InnerColumnType::Float {  } => tag == "Float"@,
            InnerColumnType::BitFlag { .. } => tag == "BitFlag"@,
            InnerColumnType::Boolean {  } => tag == "Boolean"@,
            InnerColumnType::Json { .. } => tag == "Json"@,
        }),
{
}

/// Parses an inner column type back from a structured value. Returns
/// the type exactly when some inner column type renders to `v`.
pub fn inner_column_type_from_value(v: &JsonValue) -> (r: Option<InnerColumnType>)
    ensures
        (match r {
            Some(t) => inner_column_type_value(*v, t),
            None => forall|t: InnerColumnType| !inner_column_type_value(*v, t),
        }),
{
    let fields = match v {
        JsonValue::Object(fs) => fs,
        _ => {
            return None;
        },
    };
    proof {
        assert(obj_fields(*v) == fields@);
    }
    if fields.len() == 0 {
        return None;
    }
    let tag = match parse_str_field(&fields[0], "type") {
        Some(t) => t,
        None => {
            return None;
        },
    };
    let is_string = crate::text::str_eq(tag.as_str(), "String");
    let is_integer = crate::text::str_eq(tag.as_str(), "Integer");
    let is_float = crate::text::str_eq(tag.as_str(), "Float");
    let is_bitflag = crate::text::str_eq(tag.as_str(), "BitFlag");
    let is_boolean = crate::text::str_eq(tag.as_str(), "Boolean");
    let is_json = crate::text::str_eq(tag.as_str(), "Json");
    proof {
        lemma_inner_tags_distinct();
    }
    if is_string {
        if fields.len() != 5 {
            proof {
                assert forall|t: InnerColumnType| !inner_column_type_value(*v, t) by {
                    if inner_column_type_value(*v, t) {
                        lemma_inner_tag_of(*v, t, tag@);
                    }
                }
            }
            return None;
        }
        let min_length = match parse_opt_len_field(&fields[1], "min_length") {
            Some(m) => m,
            None => {
                proof {
                    assert forall|t: InnerColumnType| !inner_column_type_value(*v, t) by {
                        if inner_column_type_value(*v, t) {
                            lemma_inner_tag_of(*v, t, tag@);
                        }
                    }
                }
                return None;
            },
        };
        let max_length = match parse_opt_len_field(&fields[2], "max_length") {
            Some(m) => m,
            None => {
                proof {
                    assert forall|t: InnerColumnType| !inner_column_type_value(*v, t) by {
                        if inner_column_type_value(*v, t) {
                            lemma_inner_tag_of(*v, t, tag@);
                        }
                    }
                }
                return None;
            },
        };
        let allowed_values = match parse_str_array_field(&fields[3], "allowed_values") {
            Some(vs) => vs,
            None => {
                proof {
                    assert forall|t: InnerColumnType| !inner_column_type_value(*v, t) by {
                        if inner_column_type_value(*v, t) {
                            lemma_inner_tag_of(*v, t, tag@);
                        }
                    }
                }
                return None;
            },
        };
        let kind = match parse_str_field(&fields[4], "kind") {
            Some(k) => k,
            None => {
                proof {
                    assert forall|t: InnerColumnType| !inner_column_type_value(*v, t) by {
                        if inner_column_type_value(*v, t) {
                            lemma_inner_tag_of(*v, t, tag@);
                        }
                    }
                }
                return None;
            },
        };
        Some(InnerColumnType::String { min_length, max_length, allowed_values, kind })
    } else if is_integer {
        if fields.len() != 1 {
            proof {
                assert forall|t: InnerColumnType| !inner_column_type_value(*v, t) by {
                    if inner_column_type_value(*v, t) {
                        lemma_inner_tag_of(*v, t, tag@);
                    }
                }
            }
            return None;
        }
        Some(InnerColumnType::Integer {  })
    } else if is_float {
        if fields.len() != 1 {
            proof {
                assert forall|t: InnerColumnType| !inner_column_type_value(*v, t) by {
                    if inner_column_type_value(*v, t) {
                        lemma_inner_tag_of(*v, t, tag@);
                    }
                }
            }
            return None;
        }
        Some(InnerColumnType::Float {  })
    } else if is_bitflag {
        let shape_ok: bool = if fields.len() != 2 {
            false
        } else {
            crate::text::str_eq(fields[1].key.as_str(), "values")
        };
        if !shape_ok {
            proof {
                assert forall|t: InnerColumnType| !inner_column_type_value(*v, t) by {
                    if inner_column_type_value(*v, t) {
                        lemma_inner_tag_of(*v, t, tag@);
                    }
                }
            }
            return None;
        }
        let entries = match &fields[1].value {
            JsonValue::Object(es) => es,
            _ => {
                proof {
                    assert forall|t: InnerColumnType| !inner_column_type_value(*v, t) by {
                        if inner_column_type_value(*v, t) {
                            lemma_inner_tag_of(*v, t, tag@);
                        }
                    }
                }
                return None;
            },
        };
        proof {
            assert(obj_fields(fields@[1].value) == entries@);
        }
        let mut values: Vec<BitFlagEntry> = Vec::new();
        let mut i: usize = 0;
        while i < entries.len()
            invariant
                0 <= i <= entries@.len(),
                values@.len() == i,
                obj_fields(*v) == fields@,
                fields@.len() == 2,
                fields@[1].key@ == "values"@,
                field_str(fields@[0], "type"@, tag@),
                tag@ == "BitFlag"@,
                obj_fields(fields@[1].value) == entries@,
                is_obj(fields@[1].value),
                forall|k: int|
                    0 <= k < i ==> (#[trigger] entries@[k]).key@ == values@[k].name@
                        && entries@[k].value == JsonValue::Int(values@[k].value),
            decreases entries@.len() - i,
        {
            let val = match &entries[i].value {
                JsonValue::Int(x) => *x,
                _ => {
                    proof {
                        lemma_inner_tags_distinct();
                        assert forall|t: InnerColumnType| !inner_column_type_value(*v, t) by {
                            if inner_column_type_value(*v, t) {
                                lemma_inner_tag_of(*v, t, tag@);
                                match t {
                                    InnerColumnType::BitFlag { values: vs } => {
                                        assert(vs@.len() == entries@.len());
                                        assert(entries@[i as int].value == JsonValue::Int(
                                            vs@[i as int].value,
                                        ));
                                    },
                                    _ => {},
                                }
                            }
                        }
                    }
                    return None;
                },
            };
            values.push(BitFlagEntry { name: entries[i].key.clone(), value: val });
            i = i + 1;
        }
        Some(InnerColumnType::BitFlag { values })
    } else if is_boolean {
        if fields.len() != 1 {
            proof {
                assert forall|t: InnerColumnType| !inner_column_type_value(*v, t) by {
                    if inner_column_type_value(*v, t) {
                        lemma_inner_tag_of(*v, t, tag@);
                    }
                }
            }
            return None;
        }
        Some(InnerColumnType::Boolean {  })
    } else if is_json {
        if fields.len() != 2 {
            proof {
                assert forall|t: InnerColumnType| !inner_column_type_value(*v, t) by {
                    if inner_column_type_value(*v, t) {
                        lemma_inner_tag_of(*v, t, tag@);
                    }
                }
            }
            return None;
        }
        let style = match parse_str_field(&fields[1], "style") {
            Some(st) => st,
            None => {
                proof {
                    assert forall|t: InnerColumnType| !inner_column_type_value(*v, t) by {
                        if inner_column_type_value(*v, t) {
                            lemma_inner_tag_of(*v, t, tag@);
                        }
                    }
                }
                return None;
            },
        };
        Some(InnerColumnType::Json { style })
    } else {
        proof {
            assert forall|t: InnerColumnType| !inner_column_type_value(*v, t) by {
                if inner_column_type_value(*v, t) {
                    lemma_inner_tag_of(*v, t, tag@);
                }
            }
        }
        None
    }
}

/// Parses a column type back from a structured value. Returns the type
/// exactly when some column type renders to `v`.
pub fn column_type_from_value(v: &JsonValue) -> (r: Option<ColumnType>)
    ensures
        (match r {
            Some(t) => column_type_value(*v, t),
            None => forall|t: ColumnType| !column_type_value(*v, t),
        }),
{
    let fields = match v {
        JsonValue::Object(fs) => fs,
        _ => {
            return None;
        },
    };
    proof {
        assert(obj_fields(*v) == fields@);
        reveal_strlit("Scalar");
        reveal_strlit("Array");
    }
    if fields.len() != 2 {
        return None;
    }
    let tag = match parse_str_field(&fields[0], "type") {
        Some(t) => t,
        None => {
            return None;
        },
    };
    if !crate::text::str_eq(fields[1].key.as_str(), "inner") {
        return None;
    }
    let inner = match inner_column_type_from_value(&fields[1].value) {
        Some(t) => t,
        None => {
            return None;
        },
    };
    if crate::text::str_eq(tag.as_str(), "Scalar") {
        Some(ColumnType::Scalar { inner })
    } else if crate::text::str_eq(tag.as_str(), "Array") {
        Some(ColumnType::Array { inner })
    } else {
        None
    }
}

/// The two suggestion tags are distinct strings.
proof fn lemma_suggestion_tags_distinct()
    ensures
        "Static"@ != "None"@,
{
    reveal_strlit("Static");
    reveal_strlit("None");
    assert("Static"@.len() == 6);
    assert("None"@.len() == 4);
}

/// Any suggestion hint rendering to `v` carries the tag of its own
/// variant in the leading `type` field.
proof fn lemma_suggestion_tag_of(v: JsonValue, t: ColumnSuggestion, tag: Seq<char>)
    requires
        suggestion_value(v, t),
        obj_fields(v).len() >= 1,
        field_str(obj_fields(v)[0], "type"@, tag),
    ensures
        (match t {
            ColumnSuggestion::Static { .. } => tag == "Static"@ && obj_fields(v).len() == 2,
            ColumnSuggestion::NoSuggestions {  } => tag == "None"@ && obj_fields(v).len() == 1,
        }),
{
}

/// Parses a suggestion hint back from a structured value. Returns the
/// hint exactly when some hint renders to `v`.
pub fn suggestion_from_value(v: &JsonValue) -> (r: Option<ColumnSuggestion>)
    ensures
        (match r {
            Some(t) => suggestion_value(*v, t),
            None => forall|t: ColumnSuggestion| !suggestion_value(*v, t),
        }),
{
    let fields = match v {
        JsonValue::Object(fs) => fs,
        _ => {
            return None;
        },
    };
    proof {
        assert(obj_fields(*v) == fields@);
        lemma_suggestion_tags_distinct();
    }
    if fields.len() == 0 {
        return None;
    }
    let tag = match parse_str_field(&fields[0], "type") {
        Some(t) => t,
        None => {
            return None;
        },
    };
    if crate::text::str_eq(tag.as_str(), "Static") {
        if fields.len() != 2 {
            proof {
                assert forall|t: ColumnSuggestion| !suggestion_value(*v, t) by {
                    if suggestion_value(*v, t) {
                        lemma_suggestion_tag_of(*v, t, tag@);
                    }
                }
            }
            return None;
        }
        let suggestions = match parse_str_array_field(&fields[1], "suggestions") {
            Some(vs) => vs,
            None => {
                proof {
                    assert forall|t: ColumnSuggestion| !suggestion_value(*v, t) by {
                        if suggestion_value(*v, t) {
                            lemma_suggestion_tag_of(*v, t, tag@);
                        }
                    }
                }
                return None;
            },
        };
        Some(ColumnSuggestion::Static { suggestions })
    } else if crate::text::str_eq(tag.as_str(), "None") {
        if fields.len() != 1 {
            proof {
                assert forall|t: ColumnSuggestion| !suggestion_value(*v, t) by {
                    if suggestion_value(*v, t) {
                        lemma_suggestion_tag_of(*v, t, tag@);
                    }
                }
            }
            return None;
        }
        Some(ColumnSuggestion::NoSuggestions {  })
    } else {
        proof {
            assert forall|t: ColumnSuggestion| !suggestion_value(*v, t) by {
                if suggestion_value(*v, t) {
                    lemma_suggestion_tag_of(*v, t, tag@);
                }
            }
        }
        None
    }
}

/// Parses a column back from a structured value. Returns the column
/// exactly when some column renders to `v`.
pub fn column_from_value(v: &JsonValue) -> (r: Option<Column>)
    ensures
        (match r {
            Some(c) => column_value(*v, c),
            None => forall|c: Column| !column_value(*v, c),
        }),
{
    let fields = match v {
        JsonValue::Object(fs) => fs,
        _ => {
            return None;
        },
    };
    proof {
        assert(obj_fields(*v) == fields@);
    }
    if fields.len() != 10 {
        return None;
    }
    let id = match parse_str_field(&fields[0], "id") {
        Some(x) => x,
        None => {
            return None;
        },
    };
    let name = match parse_str_field(&fields[1], "name") {
        Some(x) => x,
        None => {
            return None;
        },
    };
    let description = match parse_str_field(&fields[2], "description") {
        Some(x) => x,
        None => {
            return None;
        },
    };
    if !crate::text::str_eq(fields[3].key.as_str(), "column_type") {
        return None;
    }
    let column_type = match column_type_from_value(&fields[3].value) {
        Some(x) => x,
        None => {
            return None;
        },
    };
    let primary_key = match parse_bool_field(&fields[4], "primary_key") {
        Some(x) => x,
        None => {
            return None;
        },
    };
    let nullable = match parse_bool_field(&fields[5], "nullable") {
        Some(x) => x,
        None => {
            return None;
        },
    };
    if !crate::text::str_eq(fields[6].key.as_str(), "suggestions") {
        return None;
    }
    let suggestions = match suggestion_from_value(&fields[6].value) {
        Some(x) => x,
        None => {
            return None;
        },
    };
    let secret = match parse_bool_field(&fields[7], "secret") {
        Some(x) => x,
        None => {
            return None;
        },
    };
    let hidden = match parse_str_array_field(&fields[8], "hidden") {
        Some(x) => x,
        None => {
            return None;
        },
    };
    let readonly = match parse_str_array_field(&fields[9], "readonly") {
        Some(x) => x,
        None => {
            return None;
        },
    };
    Some(
        Column {
            id,
            name,
            description,
            column_type,
            primary_key,
            nullable,
            suggestions,
            secret,
            hidden,
            readonly,
        },
    )
}

/// Parses a setting back from a structured value. Returns the setting
/// exactly when some setting renders to `v`; the parsed setting's
/// columns come back in the rendered order.
pub fn setting_from_value(v: &JsonValue) -> (r: Option<Setting>)
    ensures
        (match r {
            Some(s) => setting_value(*v, s),
            None => forall|s: Setting| !setting_value(*v, s),
        }),
{
    let fields = match v {
        JsonValue::Object(fs) => fs,
        _ => {
            return None;
        },
    };
    proof {
        assert(obj_fields(*v) == fields@);
    }
    if fields.len() != 7 {
        return None;
    }
    let id = match parse_str_field(&fields[0], "id") {
        Some(x) => x,
        None => {
            return None;
        },
    };
    let name = match parse_str_field(&fields[1], "name") {
        Some(x) => x,
        None => {
            return None;
        },
    };
    let description = match parse_str_field(&fields[2], "description") {
        Some(x) => x,
        None => {
            return None;
        },
    };
    let title_template = match parse_str_field(&fields[3], "title_template") {
        Some(x) => x,
        None => {
            return None;
        },
    };
    let index_by = match parse_opt_str_field(&fields[4], "index_by") {
        Some(x) => x,
        None => {
            return None;
        },
    };
    if !crate::text::str_eq(fields[5].key.as_str(), "columns") {
        return None;
    }
    let col_values = match &fields[5].value {
        JsonValue::Array(cs) => cs,
        _ => {
            return None;
        },
    };
    proof {
        assert(crate::value::arr_elems(fields@[5].value) == col_values@);
    }
    let mut columns: Vec<Column> = Vec::new();
    let mut i: usize = 0;
    while i < col_values.len()
        invariant
            0 <= i <= col_values@.len(),
            columns@.len() == i,
            obj_fields(*v) == fields@,
            fields@.len() == 7,
            crate::value::arr_elems(fields@[5].value) == col_values@,
            forall|k: int|
                0 <= k < i ==> column_value(#[trigger] col_values@[k], columns@[k]),
        decreases col_values@.len() - i,
    {
        match column_from_value(&col_values[i]) {
            Some(c) => {
                columns.push(c);
            },
            None => {
                proof {
                    assert forall|s: Setting| !setting_value(*v, s) by {
                        if setting_value(*v, s) {
                            assert(column_value(
                                crate::value::arr_elems(obj_fields(*v)[5].value)[i as int],
                                s.columns@[i as int],
                            ));
                        }
                    }
                }
                return None;
            },
        }
        i = i + 1;
    }
    let operations = match parse_str_array_field(&fields[6], "operations") {
        Some(x) => x,
        None => {
            return None;
        },
    };
    Some(Setting { id, name, description, title_template, index_by, columns, operations })
}

/// A structured value determines the setting it renders: two settings
/// rendering to the same value agree on every top-level text field and
/// carry the same columns in the same order. Serializing and then
/// deserializing a setting therefore preserves its column order exactly.
pub proof fn lemma_setting_value_determines(v: JsonValue, s1: Setting, s2: Setting)
    requires
        setting_value(v, s1),
        setting_value(v, s2),
    ensures
        s1.id@ == s2.id@,
        s1.name@ == s2.name@,
        s1.description@ == s2.description@,
        s1.title_template@ == s2.title_template@,
        opt_str_view(s1.index_by) == opt_str_view(s2.index_by),
        s1.columns@.len() == s2.columns@.len(),
        forall|i: int|
            0 <= i < s1.columns@.len() ==> (#[trigger] s1.columns@[i]).id@ == s2.columns@[i].id@,
        s1.operations@.map_values(|t: String| t@) == s2.operations@.map_values(|t: String| t@),
{
    assert forall|i: int|
        0 <= i < s1.columns@.len() implies (#[trigger] s1.columns@[i]).id@
        == s2.columns@[i].id@ by {
        let e = crate::value::arr_elems(obj_fields(v)[5].value)[i];
        assert(column_value(e, s1.columns@[i]));
        assert(column_value(e, s2.columns@[i]));
    }
    let ss1 = s1.operations@.map_values(|t: String| t@);
    let ss2 = s2.operations@.map_values(|t: String| t@);
    assert forall|i: int| 0 <= i < ss1.len() implies ss1[i] == ss2[i] by {
        let e = crate::value::arr_elems(obj_fields(v)[6].value)[i];
        assert(is_str(e, ss1[i]));
        assert(is_str(e, ss2[i]));
    }
    assert(ss1 =~= ss2);
}

} // verus!
