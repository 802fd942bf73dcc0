//! The configuration store: a key-value mapping from variable names to
//! variable values, populated by the host environment before the handler
//! runs and read-only at handling time.

use vstd::prelude::*;

verus! {

/// A failed configuration lookup. It identifies the key whose lookup
/// produced no value.
#[derive(Debug)]
pub struct ConfigError {
    pub key: String,
}

/// A key-value store of configuration variables.
///
/// Its view is the mapping it represents: entries are kept in the order they
/// were set, and a later entry for a key overrides an earlier one.
pub struct ConfigStore {
    entries: Vec<(String, String)>,
}

/// The mapping described by a sequence of key-value entries, where a later
/// entry for a key overrides an earlier one.
spec fn entries_map(entries: Seq<(Seq<char>, Seq<char>)>) -> Map<Seq<char>, Seq<char>>
    decreases entries.len(),
{
    if entries.len() == 0 {
        Map::empty()
    } else {
        entries_map(entries.drop_last()).insert(entries.last().0, entries.last().1)
    }
}

impl ConfigStore {
    /// The entries as a sequence of key-value pairs of character sequences.
    spec fn entries_view(&self) -> Seq<(Seq<char>, Seq<char>)> {
        self.entries@.map_values(|p: (String, String)| (p.0@, p.1@))
    }
}

impl View for ConfigStore {
    type V = Map<Seq<char>, Seq<char>>;

    closed spec fn view(&self) -> Map<Seq<char>, Seq<char>> {
        entries_map(self.entries_view())
    }
}

impl ConfigStore {
    /// An empty store: no key has a value.
    pub fn new() -> (s: Self)
        ensures
            s@ == Map::<Seq<char>, Seq<char>>::empty(),
    {
        let s = ConfigStore { entries: Vec::new() };
        proof {
            assert(s.entries_view() =~= Seq::<(Seq<char>, Seq<char>)>::empty());
        }
        s
    }

    /// Gives `key` the value `value`, replacing any value it had before.
    pub fn set(&mut self, key: String, value: String)
        ensures
            final(self)@ == old(self)@.insert(key@, value@),
    {
        let ghost prior = self.entries_view();
        self.entries.push((key, value));
        proof {
            assert(self.entries_view().drop_last() =~= prior);
            assert(self@ =~= old(self)@.insert(key@, value@));
        }
    }

    /// Looks up `key`: its value when the store has one, otherwise an error
    /// naming the key.
    pub fn get(&self, key: &str) -> (r: Result<String, ConfigError>)
        ensures
            match r {
                Ok(v) => self@.contains_key(key@) && v@ == self@[key@],
                Err(e) => !self@.contains_key(key@) && e.key@ == key@,
            },
    {
        let key_owned: String = key.to_owned();
        let ghost all = self.entries_view();
        let mut i: usize = self.entries.len();
        proof {
            assert(all.take(i as int) =~= all);
        }
        while i > 0
            invariant
                i <= self.entries.len(),
                all == self.entries_view(),
                key_owned@ == key@,
                entries_map(all).contains_key(key@) == entries_map(
                    all.take(i as int),
                ).contains_key(key@),
                entries_map(all).contains_key(key@) ==> entries_map(all)[key@] == entries_map(
                    all.take(i as int),
                )[key@],
            decreases i,
        {
            i = i - 1;
            proof {
                assert(all.take(i + 1).drop_last() =~= all.take(i as int));
                assert(all.take(i + 1).last() == all[i as int]);
            }
            let entry = &self.entries[i];
            if entry.0 == key_owned {
                proof {
                    assert(all[i as int] == (entry.0@, entry.1@));
                }
                return Ok(entry.1.clone());
            }
        }
        proof {
            assert(all.take(0) =~= Seq::<(Seq<char>, Seq<char>)>::empty());
        }
        Err(ConfigError { key: key_owned })
    }
}

} // verus!
