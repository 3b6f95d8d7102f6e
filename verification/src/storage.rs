//! Naming and SQL text of the SQLite tables behind IndexedDB object stores.

use vstd::prelude::*;
use crate::text::{chars_of, string_from_chars, push_str};

verus! {

broadcast use vstd::string::group_string_axioms;

/// Whether std classifies a character as alphanumeric (Unicode Alphabetic or Numeric).
pub uninterp spec fn char_is_alphanumeric(c: char) -> bool;

/// Whether a character is alphanumeric: in ASCII the letters and digits,
/// elsewhere as std classifies it.
pub open spec fn alphanumeric(c: char) -> bool {
    if (c as u32) < 128 {
        ('a' <= c && c <= 'z') || ('A' <= c && c <= 'Z') || ('0' <= c && c <= '9')
    } else {
        char_is_alphanumeric(c)
    }
}

/// `char::is_alphanumeric`: the result is that classification of the
/// character; for ASCII it is exactly the letters and digits (std's
/// documentation: Alphabetic or Numeric, which in ASCII are `a`-`z`,
/// `A`-`Z` and `0`-`9`).
#[verifier::external_body]
pub(crate) fn is_alphanumeric(c: char) -> (r: bool)
    ensures
        r == char_is_alphanumeric(c),
        r == alphanumeric(c),
{
    c.is_alphanumeric()
}

/// A character kept in a table name; every other one becomes `_`.
pub open spec fn table_char(c: char) -> char {
    if alphanumeric(c) || c == '_' { c } else { '_' }
}

/// The table of an object store: `store_` and the store name with every
/// character that is neither alphanumeric nor `_` replaced by `_`.
pub open spec fn table_name_spec(name: Seq<char>) -> Seq<char> {
    "store_"@ + name.map_values(|c: char| table_char(c))
}

/// The table name of an object store, safe to splice into SQL text.
pub fn sanitize_table_name(name: &str) -> (r: String)
    ensures
        r@ == table_name_spec(name@),
{
    let cs = chars_of(name);
    let mut out: Vec<char> = Vec::new();
    push_str(&mut out, "store_");
    let ghost head = out@;
    let mut i: usize = 0;
    while i < cs.len()
        invariant
            i <= cs.len(),
            out@ == head + cs@.take(i as int).map_values(|c: char| table_char(c)),
        decreases cs.len() - i,
    {
        let c = cs[i];
        let keep = is_alphanumeric(c) || c == '_';
        out.push(if keep { c } else { '_' });
        i = i + 1;
        assert(out@ =~= head + cs@.take(i as int).map_values(|c: char| table_char(c)));
    }
    assert(cs@.take(i as int) =~= cs@);
    string_from_chars(&out)
}

/// A table name is `store_` followed, position by position, by characters
/// that are alphanumeric or `_`, whatever the store is called, so it cannot
/// end the identifier it is spliced into; it is six characters longer than
/// the store name.
pub proof fn lemma_table_name_safe(name: Seq<char>)
    ensures
        table_name_spec(name).len() == name.len() + 6,
        table_name_spec(name).subrange(0, 6) == "store_"@,
        forall|i: int| 6 <= i < table_name_spec(name).len() ==>
            alphanumeric(#[trigger] table_name_spec(name)[i]) || table_name_spec(name)[i] == '_',
{
    reveal_strlit("store_");
    assert(table_name_spec(name).subrange(0, 6) =~= "store_"@);
    assert forall|i: int| 6 <= i < table_name_spec(name).len() implies
        alphanumeric(#[trigger] table_name_spec(name)[i]) || table_name_spec(name)[i] == '_' by {
        assert(table_name_spec(name)[i] == table_char(name[i - 6]));
    }
}

fn sql_with_table(prefix: &str, table: &str, suffix: &str) -> (r: String)
    ensures
        r@ == prefix@ + table@ + suffix@,
{
    let mut out: Vec<char> = Vec::new();
    push_str(&mut out, prefix);
    push_str(&mut out, table);
    push_str(&mut out, suffix);
    string_from_chars(&out)
}

/// Statement creating an object store's table if it is missing.
pub fn create_store_sql(store: &str) -> (r: String)
    ensures
        r@ == "CREATE TABLE IF NOT EXISTS "@ + table_name_spec(store@)
            + " (\n                    key TEXT PRIMARY KEY,\n                    value BLOB NOT NULL\n                )"@,
{
    let t = sanitize_table_name(store);
    sql_with_table("CREATE TABLE IF NOT EXISTS ", t.as_str(),
        " (\n                    key TEXT PRIMARY KEY,\n                    value BLOB NOT NULL\n                )")
}

/// Query reading one value by key (bound as the first parameter).
pub fn select_value_sql(store: &str) -> (r: String)
    ensures
        r@ == "SELECT value FROM "@ + table_name_spec(store@) + " WHERE key = ?1"@,
{
    let t = sanitize_table_name(store);
    sql_with_table("SELECT value FROM ", t.as_str(), " WHERE key = ?1")
}

/// Statement inserting or replacing a value by key (key and value bound as parameters).
pub fn put_value_sql(store: &str) -> (r: String)
    ensures
        r@ == "INSERT OR REPLACE INTO "@ + table_name_spec(store@) + " (key, value) VALUES (?1, ?2)"@,
{
    let t = sanitize_table_name(store);
    sql_with_table("INSERT OR REPLACE INTO ", t.as_str(), " (key, value) VALUES (?1, ?2)")
}

/// Statement deleting one value by key.
pub fn delete_value_sql(store: &str) -> (r: String)
    ensures
        r@ == "DELETE FROM "@ + table_name_spec(store@) + " WHERE key = ?1"@,
{
    let t = sanitize_table_name(store);
    sql_with_table("DELETE FROM ", t.as_str(), " WHERE key = ?1")
}

/// Query listing every key of a store.
pub fn all_keys_sql(store: &str) -> (r: String)
    ensures
        r@ == "SELECT key FROM "@ + table_name_spec(store@),
{
    let t = sanitize_table_name(store);
    let r = sql_with_table("SELECT key FROM ", t.as_str(), "");
    proof {
        reveal_strlit("");
    }
    assert(r@ =~= "SELECT key FROM "@ + table_name_spec(store@));
    r
}

/// Statement emptying a store.
pub fn clear_store_sql(store: &str) -> (r: String)
    ensures
        r@ == "DELETE FROM "@ + table_name_spec(store@),
{
    let t = sanitize_table_name(store);
    let r = sql_with_table("DELETE FROM ", t.as_str(), "");
    proof {
        reveal_strlit("");
    }
    assert(r@ =~= "DELETE FROM "@ + table_name_spec(store@));
    r
}

/// The file a database lives in: its name with `.sqlite` appended.
pub fn db_file_name(db_name: &str) -> (r: String)
    ensures
        r@ == db_name@ + ".sqlite"@,
{
    let r = sql_with_table("", db_name, ".sqlite");
    proof {
        reveal_strlit("");
    }
    assert(r@ =~= db_name@ + ".sqlite"@);
    r
}

} // verus!
