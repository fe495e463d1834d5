use vstd::prelude::*;
use crate::text::same_text;

verus! {

/// One column of a table as the backend reports it: its name, the type it
/// was declared with, whether it refuses nulls, its default if it has one,
/// and its place in the primary key (0 if it has none).
#[derive(Debug)]
pub struct ColumnInfo {
    pub name: String,
    pub declared_type: String,
    pub not_null: bool,
    pub default_value: Option<String>,
    pub primary_key: i32,
}

/// Some column of the list has the name.
pub open spec fn lists_name(schema: Seq<ColumnInfo>, name: Seq<char>) -> bool {
    exists|i: int| 0 <= i < schema.len() && (#[trigger] schema[i]).name@ == name
}

impl ColumnInfo {
    /// Whether the column holds numbers: it was declared `REAL`. Every
    /// other column holds text.
    pub fn holds_real(&self) -> (numeric: bool)
        ensures
            numeric == (self.declared_type@ == "REAL"@),
    {
        same_text(&self.declared_type, "REAL")
    }
}

/// Whether the live columns of a table include one with the given name.
pub fn has_column(schema: &Vec<ColumnInfo>, name: &str) -> (found: bool)
    ensures
        found == lists_name(schema@, name@),
{
    let mut i: usize = 0;
    while i < schema.len()
        invariant
            i <= schema.len(),
            forall|j: int| 0 <= j < i ==> (#[trigger] schema[j]).name@ != name@,
        decreases schema.len() - i,
    {
        if same_text(&schema[i].name, name) {
            return true;
        }
        i = i + 1;
    }
    false
}

} // verus!
