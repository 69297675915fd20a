//! Bringing an older database up to date: the columns added after the first
//! release, whether a table still lacks one, and the statements that look and
//! add.

use vstd::prelude::*;
use crate::grouping::texts;
use crate::text::str_equals;

verus! {

/// A column added after the first release: its table, its name and its SQL definition.
pub struct AddedColumn {
    pub table: &'static str,
    pub column: &'static str,
    pub definition: &'static str,
}

/// The columns added after the first release, in the order they are checked.
pub open spec fn added_columns() -> Seq<(Seq<char>, Seq<char>, Seq<char>)> {
    seq![
        ("plants"@, "cloud_status"@, "TEXT NOT NULL DEFAULT 'unknown'"@),
        ("plants"@, "cloud_alarm_count"@, "INTEGER NOT NULL DEFAULT 0"@),
        ("inverters"@, "cloud_status"@, "TEXT NOT NULL DEFAULT 'unknown'"@),
        ("inverters"@, "cloud_alarm_count"@, "INTEGER NOT NULL DEFAULT 0"@),
        ("inverters"@, "discovered_string_count"@, "INTEGER"@),
    ]
}

/// The columns a migration makes sure of.
pub fn required_columns() -> (r: Vec<AddedColumn>)
    ensures
        r@.map_values(|c: AddedColumn| (c.table@, c.column@, c.definition@)) == added_columns(),
{
    let r = vec![
        AddedColumn { table: "plants", column: "cloud_status", definition: "TEXT NOT NULL DEFAULT 'unknown'" },
        AddedColumn { table: "plants", column: "cloud_alarm_count", definition: "INTEGER NOT NULL DEFAULT 0" },
        AddedColumn { table: "inverters", column: "cloud_status", definition: "TEXT NOT NULL DEFAULT 'unknown'" },
        AddedColumn { table: "inverters", column: "cloud_alarm_count", definition: "INTEGER NOT NULL DEFAULT 0" },
        AddedColumn { table: "inverters", column: "discovered_string_count", definition: "INTEGER" },
    ];
    proof {
        assert(r@.map_values(|c: AddedColumn| (c.table@, c.column@, c.definition@)) =~= added_columns());
    }
    r
}

/// The statement that lists the columns of a table.
pub fn table_info_statement(table: &str) -> (r: String)
    ensures
        r@ == "PRAGMA table_info("@ + table@ + ")"@,
{
    let mut statement = String::from_str("PRAGMA table_info(");
    statement.append(table);
    statement.append(")");
    statement
}

/// Whether a table whose columns are `existing` lacks `column`.
pub fn column_is_missing(existing: &[String], column: &str) -> (r: bool)
    ensures
        r == !texts(existing@).contains(column@),
{
    let mut i: usize = 0;
    while i < existing.len()
        invariant
            i <= existing@.len(),
            forall|k: int| 0 <= k < i ==> existing@[k]@ != column@,
        decreases existing@.len() - i,
    {
        if str_equals(existing[i].as_str(), column) {
            proof {
                assert(texts(existing@)[i as int] == column@);
            }
            return false;
        }
        i = i + 1;
    }
    proof {
        if texts(existing@).contains(column@) {
            let k = choose|k: int| 0 <= k < texts(existing@).len() && texts(existing@)[k] == column@;
            assert(existing@[k]@ == column@);
        }
    }
    true
}

/// The statement that adds a column to a table.
pub fn add_column_statement(table: &str, column: &str, definition: &str) -> (r: String)
    ensures
        r@ == "ALTER TABLE "@ + table@ + " ADD COLUMN "@ + column@ + " "@ + definition@,
{
    let mut statement = String::from_str("ALTER TABLE ");
    statement.append(table);
    statement.append(" ADD COLUMN ");
    statement.append(column);
    statement.append(" ");
    statement.append(definition);
    statement
}

} // verus!
