use vstd::prelude::*;

use super::database_field::{DatabaseField, FieldType, FieldValue};

verus! {

/// A type whose values are rows of a table.
pub trait DatabaseInsertable: Send + Default {
    /// The name of the table.
    fn database_name() -> String where Self: Sized;

    /// The columns of the row that this value is.
    fn fields_value(&self) -> Vec<DatabaseField>;

    /// The value that a row with these columns is, or why there is none.
    fn from_fields(fields: Vec<DatabaseField>) -> Result<Self, String> where Self: Sized;
}

/// The index of the first column named `name`, if some column has that name.
pub open spec fn first_named(fields: Seq<DatabaseField>, name: Seq<char>) -> Option<int> {
    if exists|i: int| 0 <= i < fields.len() && #[trigger] fields[i]@.name == name {
        Some(
            choose|i: int|
                0 <= i < fields.len() && #[trigger] fields[i]@.name == name && forall|j: int|
                    0 <= j < i ==> #[trigger] fields[j]@.name != name,
        )
    } else {
        None
    }
}

/// The message for a value whose column has another kind of value.
pub open spec fn mismatch_message() -> Seq<char> {
    "Mismatched field type for 'id'"@
}

/// The message for a column that is missing.
pub open spec fn missing_message(name: Seq<char>) -> Seq<char> {
    "Field '"@ + name + "' not found in fields vector"@
}

/// The value of the first column named `name` among `fields`, or the
/// message that no column has that name; this is how a row is read into a
/// value, one member at a time.
pub fn field_value(fields: &Vec<DatabaseField>, name: &str) -> (res: Result<FieldType, String>)
    ensures
        match first_named(fields@, name@) {
            Some(i) => res matches Ok(v) && 0 <= i < fields@.len() && v@ == fields@[i]@.value,
            None => res matches Err(m) && m@ == missing_message(name@),
        },
{
    let wanted = name.to_owned();
    let mut i: usize = 0;
    while i < fields.len()
        invariant
            i <= fields@.len(),
            wanted@ == name@,
            forall|j: int| 0 <= j < i ==> #[trigger] fields@[j]@.name != name@,
        decreases fields.len() - i,
    {
        if fields[i].field_name() == wanted {
            proof {
                let k = i as int;
                assert(0 <= k < fields@.len() && fields@[k]@.name == name@ && forall|j: int|
                    0 <= j < k ==> #[trigger] fields@[j]@.name != name@);
                let c = choose|c: int|
                    0 <= c < fields@.len() && #[trigger] fields@[c]@.name == name@ && forall|j: int|
                        0 <= j < c ==> #[trigger] fields@[j]@.name != name@;
                if c < k {
                    assert(fields@[c]@.name != name@);
                } else if k < c {
                    assert(fields@[k]@.name != name@);
                }
            }
            return Ok(fields[i].field_type());
        }
        i = i + 1;
    }
    let mut m = String::new();
    m.append("Field '");
    m.append(name);
    m.append("' not found in fields vector");
    assert(m@ =~= missing_message(name@));
    Err(m)
}

/// The message for a value of the wrong kind.
fn mismatch() -> (res: String)
    ensures
        res@ == mismatch_message(),
{
    "Mismatched field type for 'id'".to_owned()
}

/// The number that a number column holds, or the mismatch message; the
/// message names the column `id`, whatever column it is about.
pub fn number_value(value: FieldType) -> (res: Result<i64, String>)
    ensures
        match value@ {
            FieldValue::Number(n) => res == Ok::<i64, String>(n),
            _ => res matches Err(m) && m@ == mismatch_message(),
        },
{
    match value {
        FieldType::Number(n) => Ok(n),
        _ => Err(mismatch()),
    }
}

/// The text that a text column holds, or the mismatch message; the message
/// names the column `id`, whatever column it is about.
pub fn text_value(value: FieldType) -> (res: Result<String, String>)
    ensures
        match value@ {
            FieldValue::Text(t) => res matches Ok(s) && s@ == t,
            _ => res matches Err(m) && m@ == mismatch_message(),
        },
{
    match value {
        FieldType::String(s) => Ok(s),
        _ => Err(mismatch()),
    }
}

/// The flag that a boolean column holds, or the mismatch message; the
/// message names the column `id`, whatever column it is about.
pub fn bool_value(value: FieldType) -> (res: Result<bool, String>)
    ensures
        match value@ {
            FieldValue::Bool(b) => res == Ok::<bool, String>(b),
            _ => res matches Err(m) && m@ == mismatch_message(),
        },
{
    match value {
        FieldType::Bool(b) => Ok(b),
        _ => Err(mismatch()),
    }
}

} // verus!
