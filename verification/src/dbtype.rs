//! The SQLite column type that stands for each Rust type.
use vstd::prelude::*;
use crate::text::str_eq;

verus! {

/// The SQLite type name for the Rust type named `t`, when there is one.
pub open spec fn db_type_spec(t: Seq<char>) -> Option<Seq<char>> {
    if t == "bool"@ {
        Some("boolean"@)
    } else if t == "i8"@ || t == "i16"@ || t == "i32"@ || t == "u32"@ || t == "i64"@ {
        Some("integer"@)
    } else if t == "f32"@ || t == "f64"@ {
        Some("real"@)
    } else if t == "String"@ {
        Some("text"@)
    } else if t == "Vec<u8>"@ {
        Some("blob"@)
    } else if t == "Json"@ || t == "Uuid"@ {
        Some("text"@)
    } else if t == "NaiveDateTime"@ || t == "DateTime<UTC>"@ || t == "NaiveDate"@ || t
        == "NaiveTime"@ {
        Some("numeric"@)
    } else if t == "HashMap<String, Option<String>>"@ {
        Some("text"@)
    } else {
        None
    }
}

/// Whether the Rust type named `t` has a SQLite type.
pub open spec fn is_known_rust_type(t: Seq<char>) -> bool {
    db_type_spec(t) is Some
}

/// The SQLite storage type names that Rust types map to.
pub open spec fn is_storage_type(d: Seq<char>) -> bool {
    d == "boolean"@ || d == "integer"@ || d == "real"@ || d == "text"@ || d == "blob"@ || d
        == "numeric"@
}

/// Every Rust type that has a SQLite type maps to one of the six storage
/// type names.
pub proof fn law_db_type_is_storage_type(t: Seq<char>)
    requires
        is_known_rust_type(t),
    ensures
        is_storage_type(db_type_spec(t)->0),
{
}

/// Each SQLite type name is given to exactly the Rust types of its kind: the
/// boolean type, the integer types, the floating-point types, the text-like
/// types, the byte vector and the date and time types.
pub proof fn law_db_type_classes(t: Seq<char>)
    ensures
        db_type_spec(t) == Some("boolean"@) <==> t == "bool"@,
        db_type_spec(t) == Some("integer"@) <==> (t == "i8"@ || t == "i16"@ || t == "i32"@ || t
            == "u32"@ || t == "i64"@),
        db_type_spec(t) == Some("real"@) <==> (t == "f32"@ || t == "f64"@),
        db_type_spec(t) == Some("text"@) <==> (t == "String"@ || t == "Json"@ || t == "Uuid"@ || t
            == "HashMap<String, Option<String>>"@),
        db_type_spec(t) == Some("blob"@) <==> t == "Vec<u8>"@,
        db_type_spec(t) == Some("numeric"@) <==> (t == "NaiveDateTime"@ || t == "DateTime<UTC>"@
            || t == "NaiveDate"@ || t == "NaiveTime"@),
{
    reveal_strlit("bool");
    reveal_strlit("i8");
    reveal_strlit("i16");
    reveal_strlit("i32");
    reveal_strlit("u32");
    reveal_strlit("i64");
    reveal_strlit("f32");
    reveal_strlit("f64");
    reveal_strlit("String");
    reveal_strlit("Vec<u8>");
    reveal_strlit("Json");
    reveal_strlit("Uuid");
    reveal_strlit("NaiveDateTime");
    reveal_strlit("DateTime<UTC>");
    reveal_strlit("NaiveDate");
    reveal_strlit("NaiveTime");
    reveal_strlit("HashMap<String, Option<String>>");
    reveal_strlit("boolean");
    reveal_strlit("integer");
    reveal_strlit("real");
    reveal_strlit("text");
    reveal_strlit("blob");
    reveal_strlit("numeric");
    assert("bool"@.len() == 4 && "bool"@[0] == 'b' && "bool"@[2] == 'o' && "bool"@[1] == 'o');
    assert("i8"@.len() == 2 && "i8"@[0] == 'i' && "i8"@[1] == '8');
    assert("i16"@.len() == 3 && "i16"@[0] == 'i' && "i16"@[2] == '6' && "i16"@[1] == '1');
    assert("i32"@.len() == 3 && "i32"@[0] == 'i' && "i32"@[2] == '2' && "i32"@[1] == '3');
    assert("u32"@.len() == 3 && "u32"@[0] == 'u' && "u32"@[2] == '2' && "u32"@[1] == '3');
    assert("i64"@.len() == 3 && "i64"@[0] == 'i' && "i64"@[2] == '4' && "i64"@[1] == '6');
    assert("f32"@.len() == 3 && "f32"@[0] == 'f' && "f32"@[2] == '2' && "f32"@[1] == '3');
    assert("f64"@.len() == 3 && "f64"@[0] == 'f' && "f64"@[2] == '4' && "f64"@[1] == '6');
    assert("String"@.len() == 6 && "String"@[0] == 'S' && "String"@[2] == 'r' && "String"@[1] == 't');
    assert("Vec<u8>"@.len() == 7 && "Vec<u8>"@[0] == 'V' && "Vec<u8>"@[2] == 'c' && "Vec<u8>"@[1] == 'e');
    assert("Json"@.len() == 4 && "Json"@[0] == 'J' && "Json"@[2] == 'o' && "Json"@[1] == 's');
    assert("Uuid"@.len() == 4 && "Uuid"@[0] == 'U' && "Uuid"@[2] == 'i' && "Uuid"@[1] == 'u');
    assert("NaiveDateTime"@.len() == 13 && "NaiveDateTime"@[0] == 'N' && "NaiveDateTime"@[2] == 'i' && "NaiveDateTime"@[1] == 'a');
    assert("DateTime<UTC>"@.len() == 13 && "DateTime<UTC>"@[0] == 'D' && "DateTime<UTC>"@[2] == 't' && "DateTime<UTC>"@[1] == 'a');
    assert("NaiveDate"@.len() == 9 && "NaiveDate"@[0] == 'N' && "NaiveDate"@[2] == 'i' && "NaiveDate"@[1] == 'a');
    assert("NaiveTime"@.len() == 9 && "NaiveTime"@[0] == 'N' && "NaiveTime"@[2] == 'i' && "NaiveTime"@[1] == 'a');
    assert("HashMap<String, Option<String>>"@.len() == 31 && "HashMap<String, Option<String>>"@[0] == 'H' && "HashMap<String, Option<String>>"@[2] == 's' && "HashMap<String, Option<String>>"@[1] == 'a');
    assert("boolean"@.len() == 7 && "boolean"@[0] == 'b' && "boolean"@[2] == 'o' && "boolean"@[1] == 'o');
    assert("integer"@.len() == 7 && "integer"@[0] == 'i' && "integer"@[2] == 't' && "integer"@[1] == 'n');
    assert("real"@.len() == 4 && "real"@[0] == 'r' && "real"@[2] == 'a' && "real"@[1] == 'e');
    assert("text"@.len() == 4 && "text"@[0] == 't' && "text"@[2] == 'x' && "text"@[1] == 'e');
    assert("blob"@.len() == 4 && "blob"@[0] == 'b' && "blob"@[2] == 'o' && "blob"@[1] == 'l');
    assert("numeric"@.len() == 7 && "numeric"@[0] == 'n' && "numeric"@[2] == 'm' && "numeric"@[1] == 'u');
}

/// The SQLite type name for the Rust type named `rust_type`, or `None` when
/// it has none.
pub fn lookup_db_type(rust_type: &str) -> (res: Option<String>)
    ensures
        res.deep_view() == db_type_spec(rust_type@),
{
    let t = rust_type;
    if str_eq(t, "bool") {
        Some("boolean".to_owned())
    } else if str_eq(t, "i8") || str_eq(t, "i16") || str_eq(t, "i32") || str_eq(t, "u32")
        || str_eq(t, "i64") {
        Some("integer".to_owned())
    } else if str_eq(t, "f32") || str_eq(t, "f64") {
        Some("real".to_owned())
    } else if str_eq(t, "String") {
        Some("text".to_owned())
    } else if str_eq(t, "Vec<u8>") {
        Some("blob".to_owned())
    } else if str_eq(t, "Json") || str_eq(t, "Uuid") {
        Some("text".to_owned())
    } else if str_eq(t, "NaiveDateTime") || str_eq(t, "DateTime<UTC>") || str_eq(t, "NaiveDate")
        || str_eq(t, "NaiveTime") {
        Some("numeric".to_owned())
    } else if str_eq(t, "HashMap<String, Option<String>>") {
        Some("text".to_owned())
    } else {
        None
    }
}

} // verus!
