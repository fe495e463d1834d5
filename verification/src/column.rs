use vstd::prelude::*;

verus! {

/// The logical kind of value a column holds.
#[derive(Clone, Copy, Debug, PartialEq, Eq, Structural)]
pub enum ColType {
    Text,
    Real,
    Time,
    Uuid,
    Category,
}

/// The storage type the backend uses for a kind: only `Real` is numeric,
/// every other kind is kept as text.
pub open spec fn backend_type_text(kind: ColType) -> Seq<char> {
    match kind {
        ColType::Real => "REAL"@,
        _ => "TEXT"@,
    }
}

/// A column declaration as it appears in DDL: the name, one space, the
/// storage type.
pub open spec fn column_decl_text(name: Seq<char>, kind: ColType) -> Seq<char> {
    name + " "@ + backend_type_text(kind)
}

impl ColType {
    /// The backend storage type of this kind.
    pub fn sqlite_type(&self) -> (s: &'static str)
        ensures
            s@ == backend_type_text(*self),
    {
        match self {
            ColType::Real => "REAL",
            _ => "TEXT",
        }
    }
}

/// A named, typed column of a table.
#[derive(Debug)]
pub struct Column {
    pub name: String,
    pub dtype: ColType,
}

/// The mathematical content of a `Column`.
pub struct ColumnView {
    pub name: Seq<char>,
    pub dtype: ColType,
}

impl View for Column {
    type V = ColumnView;

    open spec fn view(&self) -> ColumnView {
        ColumnView { name: self.name@, dtype: self.dtype }
    }
}

/// Renders a column for DDL.
pub fn to_sqlite(c: &Column) -> (s: String)
    ensures
        s@ == column_decl_text(c.name@, c.dtype),
{
    let mut s = c.name.clone();
    s.append(" ");
    s.append(c.dtype.sqlite_type());
    s
}

impl Clone for Column {
    fn clone(&self) -> (copy: Self)
        ensures
            copy@ == self@,
    {
        Column { name: self.name.clone(), dtype: self.dtype }
    }
}

} // verus!
