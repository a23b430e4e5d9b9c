//! The template-page revision of the setting-schema descriptors:
//! operation-typed visibility, a primary-key field on the setting, and
//! boolean operation support flags.

use vstd::prelude::*;

verus! {

/// The shape of a column: a single value or an array of values.
#[derive(Debug, Clone)]
pub enum ColumnType {
    /// A single valued column (scalar).
    Scalar {
        /// The value type.
        inner: InnerColumnType,
    },
    /// An array column.
    Array {
        /// The inner type of the array.
        inner: InnerColumnType,
    },
}

/// One named bit of a bitflag column.
#[derive(Debug, Clone)]
pub struct BitFlagEntry {
    /// The flag's name.
    pub name: String,
    /// The flag's bit value.
    pub value: i64,
}

/// The value type of a column.
#[derive(Debug, Clone)]
pub enum InnerColumnType {
    /// A text column.
    String {
        /// The least accepted length, if any.
        min_length: Option<usize>,
        /// The greatest accepted length, if any.
        max_length: Option<usize>,
        /// The accepted values; empty means all values are allowed.
        allowed_values: Vec<String>,
        /// The column's kind, e.g. uuid, textarea, channel, user, role,
        /// interval, timestamp.
        kind: String,
    },
    /// An integer column.
    Integer {},
    /// A floating-point column; the descriptor carries no float value.
    Float {},
    /// A bitflag column.
    BitFlag {
        /// The named bit values, in declaration order.
        values: Vec<BitFlagEntry>,
    },
    /// A boolean column.
    Boolean {},
    /// A structured column.
    Json {
        /// The greatest accepted size in bytes, if any.
        max_bytes: Option<usize>,
    },
}

/// Suggestions to display for a column.
#[derive(Debug, Clone)]
pub enum ColumnSuggestion {
    /// A fixed list of suggestions.
    Static {
        /// The suggestions, in order.
        suggestions: Vec<String>,
    },
    /// No suggestions.
    NoSuggestions {},
}

/// The operations a setting can be driven through.
#[derive(Debug, Clone, Copy, PartialEq, Eq, Hash, Structural)]
pub enum OperationType {
    /// The setting is viewed.
    View,
    /// An entry is created.
    Create,
    /// An entry is updated.
    Update,
    /// An entry is deleted.
    Delete,
}

/// One column of a setting. Columns compare equal by their `id` alone.
#[derive(Debug, Clone)]
pub struct Column {
    /// The ID of the column on the database.
    pub id: String,
    /// The friendly name of the column.
    pub name: String,
    /// The description of the column.
    pub description: String,
    /// The type of the column.
    pub column_type: ColumnType,
    /// Whether or not the column is nullable. Nullability is checked
    /// after pre-checks have executed.
    pub nullable: bool,
    /// Suggestions to display.
    pub suggestions: ColumnSuggestion,
    /// A secret field that is not shown to the user.
    pub secret: bool,
    /// The operations for which the field is ignored (essentially, read
    /// only). Semantics are defined by the executor.
    pub ignored_for: Vec<OperationType>,
}

impl PartialEq for Column {
    /// Two columns are the same column exactly when their ids match.
    fn eq(&self, other: &Self) -> (r: bool) {
        crate::text::str_eq(self.id.as_str(), other.id.as_str())
    }
}

impl vstd::std_specs::cmp::PartialEqSpecImpl for Column {
    open spec fn obeys_eq_spec() -> bool {
        true
    }

    open spec fn eq_spec(&self, other: &Self) -> bool {
        self.id@ == other.id@
    }
}

/// A setting: declarative metadata other components must honor when
/// rendering or validating configuration.
#[derive(Debug, Clone)]
pub struct Setting {
    /// The ID of the option.
    pub id: String,
    /// The name of the option.
    pub name: String,
    /// The description of the option.
    pub description: String,
    /// The primary key of the table. Should be present in ID.
    pub primary_key: String,
    /// Title template, used for the title of the embed.
    pub title_template: String,
    /// The columns for this option, in display order.
    pub columns: Vec<Column>,
    /// The supported operations for this option.
    pub supported_operations: SettingOperations,
}

/// Which operations a setting supports.
#[derive(Debug, Clone, Copy, PartialEq, Eq, Structural)]
pub struct SettingOperations {
    /// Whether the setting can be viewed.
    pub view: bool,
    /// Whether entries can be created.
    pub create: bool,
    /// Whether entries can be updated.
    pub update: bool,
    /// Whether entries can be deleted.
    pub delete: bool,
}

impl Default for SettingOperations {
    /// By default no operation is supported.
    fn default() -> (r: Self)
        ensures
            r == (SettingOperations { view: false, create: false, update: false, delete: false }),
    {
        SettingOperations { view: false, create: false, update: false, delete: false }
    }
}

} // verus!
