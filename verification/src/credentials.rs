//! The credential store: which secret keys may upload, and under which
//! identifier each of them is known.

use vstd::prelude::*;
use vstd::hash_map::StringHashMap;
use std::collections::BTreeMap;
use crate::text::opt_string_view;

verus! {

/// Why a credential table could not be loaded.
#[derive(Debug, Clone, Copy, PartialEq, Eq, Structural)]
pub enum ConfigError {
    /// There is no table to load.
    Missing,
    /// The text is not a JSON object whose values are all strings.
    Unparsable,
}

/// serde_json's error. Nothing is known of what it holds.
#[verifier::external_type_specification]
#[verifier::external_body]
pub struct ExJsonError(serde_json::Error);

/// What `serde_json::from_str` makes of `text` when asked for a map from
/// strings to strings: the entries of the JSON object, ordered by key, or
/// `None` where it reports an error.
pub uninterp spec fn json_string_table(text: Seq<char>) -> Option<Seq<(Seq<char>, Seq<char>)>>;

/// The views of a list of entries.
pub open spec fn entries_view(entries: Seq<(String, String)>) -> Seq<(Seq<char>, Seq<char>)> {
    entries.map_values(|e: (String, String)| (e.0@, e.1@))
}

/// `serde_json::from_str` for a `BTreeMap<String, String>`, with the map's
/// entries handed out in the order in which the map walks them. The result
/// depends on the text alone; the contract gives it a name and says nothing
/// else of it.
#[verifier::external_body]
pub(crate) fn parse_string_table(text: &str) -> (r: Result<
    Vec<(String, String)>,
    serde_json::Error,
>)
    ensures
        match r {
            Ok(entries) => json_string_table(text@) == Some(entries_view(entries@)),
            Err(_) => json_string_table(text@) is None,
        },
{
    let table: BTreeMap<String, String> = serde_json::from_str(text)?;
    Ok(table.into_iter().collect())
}

/// The mapping that a list of entries stands for. Where a key occurs more
/// than once, its last entry counts.
pub open spec fn table_of(entries: Seq<(Seq<char>, Seq<char>)>) -> Map<Seq<char>, Seq<char>>
    decreases entries.len(),
{
    if entries.len() == 0 {
        Map::empty()
    } else {
        table_of(entries.drop_last()).insert(entries.last().0, entries.last().1)
    }
}

/// A key maps to the identifier of its last entry.
pub proof fn table_holds_last_entry(entries: Seq<(Seq<char>, Seq<char>)>, i: int)
    requires
        0 <= i < entries.len(),
        forall|j: int| i < j < entries.len() ==> (#[trigger] entries[j]).0 != entries[i].0,
    ensures
        table_of(entries).contains_key(entries[i].0),
        table_of(entries)[entries[i].0] == entries[i].1,
    decreases entries.len(),
{
    if i < entries.len() - 1 {
        table_holds_last_entry(entries.drop_last(), i);
    }
}

/// A key that no entry holds maps to nothing.
pub proof fn table_holds_only_entries(entries: Seq<(Seq<char>, Seq<char>)>, key: Seq<char>)
    requires
        forall|i: int| 0 <= i < entries.len() ==> (#[trigger] entries[i]).0 != key,
    ensures
        !table_of(entries).contains_key(key),
    decreases entries.len(),
{
    if entries.len() > 0 {
        table_holds_only_entries(entries.drop_last(), key);
    }
}

/// A mapping from secret key to identifier. It is filled when it is made and
/// only read afterwards.
pub struct CredentialStore {
    table: StringHashMap<String>,
}

impl View for CredentialStore {
    type V = Map<Seq<char>, Seq<char>>;

    closed spec fn view(&self) -> Map<Seq<char>, Seq<char>> {
        self.table@.map_values(|identifier: String| identifier@)
    }
}

impl CredentialStore {
    /// The store that holds `entries`. Of two entries with the same key the
    /// later one counts.
    pub fn from_entries(entries: &Vec<(String, String)>) -> (store: Self)
        ensures
            store@ == table_of(entries_view(entries@)),
    {
        let mut table: StringHashMap<String> = StringHashMap::new();
        let ghost all = entries_view(entries@);
        let mut i: usize = 0;
        while i < entries.len()
            invariant
                i <= entries.len(),
                all == entries_view(entries@),
                table@.map_values(|identifier: String| identifier@) == table_of(all.take(i as int)),
            decreases entries.len() - i,
        {
            let key = entries[i].0.clone();
            let identifier = entries[i].1.clone();
            let ghost before = table@;
            table.insert(key, identifier);
            proof {
                let upto = all.take(i + 1);
                assert(upto.drop_last() == all.take(i as int));
                assert(table@.map_values(|identifier: String| identifier@) =~= before.map_values(
                    |identifier: String| identifier@,
                ).insert(key@, identifier@));
            }
            i = i + 1;
        }
        assert(all.take(entries.len() as int) == all);
        CredentialStore { table }
    }

    /// Loads the store from a JSON object that maps each secret key to its
    /// identifier.
    pub fn from_json(text: &str) -> (r: Result<Self, ConfigError>)
        ensures
            match r {
                Ok(store) => json_string_table(text@) matches Some(entries) && store@ == table_of(
                    entries,
                ),
                Err(e) => e == ConfigError::Unparsable && json_string_table(text@) is None,
            },
    {
        match parse_string_table(text) {
            Ok(entries) => Ok(Self::from_entries(&entries)),
            Err(_) => Err(ConfigError::Unparsable),
        }
    }

    /// Loads the store from the text of the credential table, where `source`
    /// is `None` if the table could not be read. A table that is missing or
    /// that cannot be parsed gives no store: the service must not start
    /// without one.
    pub fn load(source: Option<&str>) -> (r: Result<Self, ConfigError>)
        ensures
            match r {
                Ok(store) => source matches Some(text) && json_string_table(text@) matches Some(
                    entries,
                ) && store@ == table_of(entries),
                Err(ConfigError::Missing) => source is None,
                Err(ConfigError::Unparsable) => source matches Some(text) && json_string_table(
                    text@,
                ) is None,
            },
    {
        match source {
            Some(text) => Self::from_json(text),
            None => Err(ConfigError::Missing),
        }
    }

    /// The identifier that `key` maps to, or `None` for a key that the store
    /// does not hold.
    pub fn authorize(&self, key: &str) -> (r: Option<String>)
        ensures
            match r {
                Some(identifier) => self@.contains_key(key@) && identifier@ == self@[key@],
                None => !self@.contains_key(key@),
            },
    {
        match self.table.get(key) {
            Some(identifier) => Some(identifier.clone()),
            None => None,
        }
    }
}

/// What a lookup of `key` gives: the identifier that the store maps it to.
/// `store` is `None` where the store cannot be had, and no key is known then.
pub open spec fn lookup(store: Option<&CredentialStore>, key: Seq<char>) -> Option<Seq<char>> {
    match store {
        Some(s) => if s@.contains_key(key) {
            Some(s@[key])
        } else {
            None
        },
        None => None,
    }
}

/// Looks `key` up in a store that is shared behind a lock. `store` is `None`
/// where the lock could not be taken, and the key then counts as unknown.
pub fn check_key(store: Option<&CredentialStore>, key: &str) -> (r: Option<String>)
    ensures
        opt_string_view(r) == lookup(store, key@),
{
    match store {
        Some(s) => s.authorize(key),
        None => None,
    }
}

} // verus!
