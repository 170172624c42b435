//! The configuration resolver: a nested table of string keys, resolved by
//! dot-delimited paths into typed values. The table is built once at
//! start-up and read-only thereafter.

use vstd::prelude::*;

use crate::error::{Error, INVALID_INDEX, INVALID_TYPE};
use crate::text::{find_char, spec_find};
use crate::value::{
    spec_bool_of, spec_i32_of, spec_i64_of, spec_invalid_msg, spec_string_of, Value, ValueView,
};

verus! {

/// One node of a configuration table: a leaf value or a nested table.
pub enum ConfigNode {
    Value(Value),
    Table(ConfigTable),
}

/// A nested mapping from string keys to leaf values or nested tables; the
/// first entry with a key answers for it.
pub struct ConfigTable {
    pub entries: Vec<(String, ConfigNode)>,
}

/// The node of the first entry carrying `key`, if any.
pub open spec fn spec_lookup(entries: Seq<(String, ConfigNode)>, key: Seq<char>) -> Option<
    ConfigNode,
>
    decreases entries.len(),
{
    if entries.len() == 0 {
        None
    } else if entries[0].0@ == key {
        Some(entries[0].1)
    } else {
        spec_lookup(entries.drop_first(), key)
    }
}

/// The immediate lookup of a whole key in one table: a leaf gives its value's
/// shape, a nested table coerces to the empty shape, a missing key gives
/// nothing.
pub open spec fn spec_leaf(t: ConfigTable, key: Seq<char>) -> Option<ValueView> {
    match spec_lookup(t.entries@, key) {
        Some(ConfigNode::Value(v)) => Some(v@),
        Some(ConfigNode::Table(_)) => Some(ValueView::Nil),
        None => None,
    }
}

/// What resolving a dotted path against a table gives: the empty key gives
/// nothing; a key with a dot descends into the named nested table when its
/// left segment names one, and otherwise — as when the key has no dot — the
/// whole remaining key is looked up as a leaf in the current table.
pub open spec fn spec_resolve(t: ConfigTable, key: Seq<char>) -> Option<ValueView>
    decreases key.len(),
        via spec_resolve_decreases
{
    if key.len() == 0 {
        None
    } else {
        match spec_find(key, '.') {
            Some(i) => {
                let left = key.take(i);
                let rest = key.skip(i + 1);
                match spec_lookup(t.entries@, left) {
                    Some(ConfigNode::Table(sub)) => spec_resolve(sub, rest),
                    _ => spec_leaf(t, key),
                }
            },
            None => spec_leaf(t, key),
        }
    }
}

#[via_fn]
proof fn spec_resolve_decreases(t: ConfigTable, key: Seq<char>) {
    crate::text::lemma_find_char(key, '.');
}


/// Appending an entry leaves every answered key as it was and makes the new
/// entry answer for its key only where no earlier entry did.
proof fn lemma_lookup_push(
    entries: Seq<(String, ConfigNode)>,
    e: (String, ConfigNode),
    key: Seq<char>,
)
    ensures
        spec_lookup(entries.push(e), key) == match spec_lookup(entries, key) {
            Some(n) => Some(n),
            None => if e.0@ == key {
                Some(e.1)
            } else {
                None
            },
        },
    decreases entries.len(),
{
    if entries.len() == 0 {
        reveal_with_fuel(spec_lookup, 3);
        assert(entries.push(e)[0] == e);
        assert(entries.push(e).drop_first() =~= Seq::<(String, ConfigNode)>::empty());
    } else {
        assert(entries.push(e)[0] == entries[0]);
        assert(entries.push(e).drop_first() =~= entries.drop_first().push(e));
        lemma_lookup_push(entries.drop_first(), e, key);
    }
}

fn lookup<'a>(entries: &'a Vec<(String, ConfigNode)>, key: &str) -> (r: Option<&'a ConfigNode>)
    ensures
        match spec_lookup(entries@, key@) {
            Some(n) => r matches Some(m) && *m == n,
            None => r is None,
        },
{
    let n = entries.len();
    proof {
        assert(entries@.skip(0) =~= entries@);
    }
    for i in 0..n
        invariant
            n == entries@.len(),
            spec_lookup(entries@, key@) == spec_lookup(entries@.skip(i as int), key@),
    {
        proof {
            assert(entries@.skip(i as int)[0] == entries@[i as int]);
            assert(entries@.skip(i as int).drop_first() =~= entries@.skip(i + 1));
        }
        if crate::text::str_eq(entries[i].0.as_str(), key) {
            return Some(&entries[i].1);
        }
    }
    None
}

/// Resolves a dotted path against a table: splits the key at its first dot;
/// when the left segment names a nested table, descends into it with the
/// rest of the key; otherwise looks the whole remaining key up as a leaf,
/// where a nested table coerces to the empty value.
pub fn get_value(table: &ConfigTable, key: &str) -> (r: Option<Value>)
    ensures
        match spec_resolve(*table, key@) {
            Some(vv) => r matches Some(v) && v@ == vv,
            None => r is None,
        },
    decreases key@.len(),
{
    let n = key.unicode_len();
    if n == 0 {
        return None;
    }
    match find_char(key, '.') {
        Some(i) => {
            proof {
                crate::text::lemma_find_char(key@, '.');
            }
            let left = key.substring_char(0, i);
            let rest = key.substring_char(i + 1, n);
            proof {
                assert(left@ =~= key@.take(i as int));
                assert(rest@ =~= key@.skip(i + 1));
            }
            match lookup(&table.entries, left) {
                Some(node) => match node {
                    ConfigNode::Table(sub) => get_value(sub, rest),
                    _ => leaf_lookup(table, key),
                },
                None => leaf_lookup(table, key),
            }
        },
        None => leaf_lookup(table, key),
    }
}

fn leaf_lookup(table: &ConfigTable, key: &str) -> (r: Option<Value>)
    ensures
        match spec_leaf(*table, key@) {
            Some(vv) => r matches Some(v) && v@ == vv,
            None => r is None,
        },
{
    match lookup(&table.entries, key) {
        Some(node) => match node {
            ConfigNode::Value(v) => Some(v.clone()),
            ConfigNode::Table(_) => Some(Value::Nil),
        },
        None => None,
    }
}

/// The message of a failed lookup: it names the full original key.
pub open spec fn spec_missing_msg(key: Seq<char>) -> Seq<char> {
    "can't get config["@ + key + "]"@
}

fn missing_err(key: &str) -> (e: Error)
    ensures
        e.spec_code() == INVALID_INDEX,
        e.spec_msg() == spec_missing_msg(key@),
{
    let mut msg = String::new();
    msg.append("can't get config[");
    msg.append(key);
    msg.append("]");
    proof {
        assert(msg@ =~= spec_missing_msg(key@));
    }
    Error::new(INVALID_INDEX, msg.as_str())
}

impl ConfigTable {
    /// An empty table.
    pub fn new() -> (t: ConfigTable)
        ensures
            t.entries@.len() == 0,
    {
        ConfigTable { entries: Vec::new() }
    }

    /// Appends a leaf entry; an earlier entry with the same key keeps
    /// answering for it.
    pub fn insert_value(&mut self, key: &str, v: Value)
        ensures
            final (self).entries@.len() == old(self).entries@.len() + 1,
            forall|i: int|
                0 <= i < old(self).entries@.len() ==> final (self).entries@[i] == old(
                    self,
                ).entries@[i],
            final (self).entries@.last().0@ == key@,
            final (self).entries@.last().1 == ConfigNode::Value(v),
            forall|k: Seq<char>|
                #[trigger] spec_lookup(final (self).entries@, k) == match spec_lookup(
                    old(self).entries@,
                    k,
                ) {
                    Some(n) => Some(n),
                    None => if k == key@ {
                        Some(ConfigNode::Value(v))
                    } else {
                        None
                    },
                },
    {
        let entry = (key.to_owned(), ConfigNode::Value(v));
        proof {
            assert forall|k: Seq<char>| true implies #[trigger] spec_lookup(
                old(self).entries@.push((entry.0, ConfigNode::Value(v))),
                k,
            ) == match spec_lookup(old(self).entries@, k) {
                Some(n) => Some(n),
                None => if k == key@ {
                    Some(ConfigNode::Value(v))
                } else {
                    None
                },
            } by {
                lemma_lookup_push(old(self).entries@, (entry.0, ConfigNode::Value(v)), k);
            }
        }
        self.entries.push(entry);
    }

    /// Appends a nested-table entry.
    pub fn insert_table(&mut self, key: &str, t: ConfigTable)
        ensures
            final (self).entries@.len() == old(self).entries@.len() + 1,
            forall|i: int|
                0 <= i < old(self).entries@.len() ==> final (self).entries@[i] == old(
                    self,
                ).entries@[i],
            final (self).entries@.last().0@ == key@,
            final (self).entries@.last().1 == ConfigNode::Table(t),
            forall|k: Seq<char>|
                #[trigger] spec_lookup(final (self).entries@, k) == match spec_lookup(
                    old(self).entries@,
                    k,
                ) {
                    Some(n) => Some(n),
                    None => if k == key@ {
                        Some(ConfigNode::Table(t))
                    } else {
                        None
                    },
                },
    {
        let entry = (key.to_owned(), ConfigNode::Table(t));
        proof {
            assert forall|k: Seq<char>| true implies #[trigger] spec_lookup(
                old(self).entries@.push(entry),
                k,
            ) == match spec_lookup(old(self).entries@, k) {
                Some(n) => Some(n),
                None => if k == key@ {
                    Some(ConfigNode::Table(t))
                } else {
                    None
                },
            } by {
                lemma_lookup_push(old(self).entries@, entry, k);
            }
        }
        self.entries.push(entry);
    }

    /// Resolves a dotted key and coerces the leaf into a 64-bit integer.
    /// A missing leaf is an invalid-index error naming the full key; a leaf
    /// of another shape — a nested table among them — is an invalid-type
    /// error.
    pub fn get_i64(&self, key: &str) -> (r: Result<i64, Error>)
        ensures
            match spec_resolve(*self, key@) {
                Some(vv) => match spec_i64_of(vv) {
                    Some(x) => r == Ok::<i64, Error>(x),
                    None => r matches Err(e) && e.spec_code() == INVALID_TYPE && e.spec_msg()
                        == spec_invalid_msg("i64"@, vv),
                },
                None => r matches Err(e) && e.spec_code() == INVALID_INDEX && e.spec_msg()
                    == spec_missing_msg(key@),
            },
    {
        match get_value(self, key) {
            Some(v) => v.try_into_i64(),
            None => Err(missing_err(key)),
        }
    }

    /// Resolves a dotted key and coerces the leaf into a 32-bit integer;
    /// an integer out of range is an invalid-type error, never a wrap.
    pub fn get_i32(&self, key: &str) -> (r: Result<i32, Error>)
        ensures
            match spec_resolve(*self, key@) {
                Some(vv) => match spec_i32_of(vv) {
                    Some(x) => r == Ok::<i32, Error>(x),
                    None => r matches Err(e) && e.spec_code() == INVALID_TYPE && e.spec_msg()
                        == spec_invalid_msg("i32"@, vv),
                },
                None => r matches Err(e) && e.spec_code() == INVALID_INDEX && e.spec_msg()
                    == spec_missing_msg(key@),
            },
    {
        match get_value(self, key) {
            Some(v) => v.try_into_i32(),
            None => Err(missing_err(key)),
        }
    }

    /// Resolves a dotted key and coerces the leaf into a boolean.
    pub fn get_bool(&self, key: &str) -> (r: Result<bool, Error>)
        ensures
            match spec_resolve(*self, key@) {
                Some(vv) => match spec_bool_of(vv) {
                    Some(x) => r == Ok::<bool, Error>(x),
                    None => r matches Err(e) && e.spec_code() == INVALID_TYPE && e.spec_msg()
                        == spec_invalid_msg("bool"@, vv),
                },
                None => r matches Err(e) && e.spec_code() == INVALID_INDEX && e.spec_msg()
                    == spec_missing_msg(key@),
            },
    {
        match get_value(self, key) {
            Some(v) => v.try_into_bool(),
            None => Err(missing_err(key)),
        }
    }

    /// Resolves a dotted key into text; the string sink is total, so only a
    /// missing leaf fails.
    pub fn get_string(&self, key: &str) -> (r: Result<String, Error>)
        ensures
            match spec_resolve(*self, key@) {
                Some(vv) => r matches Ok(t) && t@ == spec_string_of(vv),
                None => r matches Err(e) && e.spec_code() == INVALID_INDEX && e.spec_msg()
                    == spec_missing_msg(key@),
            },
    {
        match get_value(self, key) {
            Some(v) => v.try_into_string(),
            None => Err(missing_err(key)),
        }
    }
}

} // verus!
