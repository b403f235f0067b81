//! The resource index: which locator serves which composite key.

use std::collections::HashMap;
use vstd::prelude::*;
use crate::key::{key_of_prefix, lemma_key_injective, CompositeKey};

verus! {

/// Why an index could not be built.
#[derive(Debug, PartialEq, Eq, Structural, Clone, Copy)]
pub enum IndexError {
    /// No name in the listing starts with a composite key.
    Empty,
}

/// The character sequences of a list of names.
pub open spec fn texts(names: Seq<String>) -> Seq<Seq<char>> {
    names.map_values(|s: String| s@)
}

/// The index that a listing describes.
///
/// Each name that starts with a composite key is recorded under that key;
/// every other name is left out. Where two names start with the same key, the
/// later one in the listing is the one recorded.
pub open spec fn index_of(names: Seq<Seq<char>>) -> Map<CompositeKey, Seq<char>>
    decreases names.len(),
{
    if names.len() == 0 {
        Map::empty()
    } else {
        let earlier = index_of(names.drop_last());
        match key_of_prefix(names.last()) {
            Some(key) => earlier.insert(key, names.last()),
            None => earlier,
        }
    }
}

/// Maps composite keys to resource locators. Built once, then only read.
pub struct ResourceIndex {
    by_ordinal: HashMap<u64, String>,
}

impl View for ResourceIndex {
    type V = Map<CompositeKey, Seq<char>>;

    closed spec fn view(&self) -> Map<CompositeKey, Seq<char>> {
        Map::new(
            |key: CompositeKey| key.wf() && self.by_ordinal@.contains_key(key.ordinal_spec() as u64),
            |key: CompositeKey| self.by_ordinal@[key.ordinal_spec() as u64]@,
        )
    }
}

impl ResourceIndex {
    /// Builds the index from the names found in the resource directory.
    ///
    /// A name is indexed under the key its first three characters spell. Names
    /// that do not start with a key, such as those of unrelated files kept in
    /// the same directory, are skipped. A listing with nothing to index is an
    /// error: there would be nothing to play.
    pub fn build(names: &Vec<String>) -> (built: Result<ResourceIndex, IndexError>)
        ensures
            match built {
                Ok(index) => index@ == index_of(texts(names@)) && index@ != Map::<
                    CompositeKey,
                    Seq<char>,
                >::empty(),
                Err(e) => e == IndexError::Empty && index_of(texts(names@)) == Map::<
                    CompositeKey,
                    Seq<char>,
                >::empty(),
            },
    {
        let mut index = ResourceIndex { by_ordinal: HashMap::new() };
        let mut any = false;
        let ghost mut witness = CompositeKey { code: 0, hour: 0 };
        let mut i: usize = 0;
        assert(index@ =~= index_of(texts(names@).take(0)));
        while i < names.len()
            invariant
                0 <= i <= names.len(),
                index@ == index_of(texts(names@).take(i as int)),
                any ==> index@.contains_key(witness),
                !any ==> index@ == Map::<CompositeKey, Seq<char>>::empty(),
            decreases names.len() - i,
        {
            let name = &names[i];
            let ghost before = index;
            proof {
                let upto = texts(names@).take(i as int + 1);
                assert(upto.drop_last() =~= texts(names@).take(i as int));
                assert(upto.last() == name@);
            }
            match CompositeKey::from_prefix(name.as_str()) {
                Some(key) => {
                    index.by_ordinal.insert(key.ordinal(), name.clone());
                    proof {
                        assert forall|k: CompositeKey| k.wf() implies (k.ordinal_spec()
                            == key.ordinal_spec() <==> k == key) by {
                            lemma_key_injective(k, key);
                        }
                        assert(index@ =~= before@.insert(key, name@));
                        witness = key;
                    }
                    any = true;
                },
                None => {},
            }
            i += 1;
        }
        assert(texts(names@).take(names.len() as int) =~= texts(names@));
        if any {
            assert(index@ != Map::<CompositeKey, Seq<char>>::empty());
            Ok(index)
        } else {
            Err(IndexError::Empty)
        }
    }

    /// The locator recorded for `key`, if there is one.
    pub fn lookup(&self, key: CompositeKey) -> (found: Option<&String>)
        ensures
            match found {
                Some(locator) => self@.contains_key(key) && locator@ == self@[key],
                None => !self@.contains_key(key),
            },
    {
        if !key.is_valid() {
            return None;
        }
        let ordinal = key.ordinal();
        self.by_ordinal.get(&ordinal)
    }

    /// Whether a locator is recorded for `key`.
    pub fn contains(&self, key: CompositeKey) -> (found: bool)
        ensures
            found == self@.contains_key(key),
    {
        self.lookup(key).is_some()
    }
}

/// Every key of an index is a valid composite key, and the locator recorded
/// under it is a name of the listing that starts with the key.
pub proof fn lemma_index_entries(names: Seq<Seq<char>>, key: CompositeKey)
    requires
        index_of(names).contains_key(key),
    ensures
        key.wf(),
        exists|i: int|
            0 <= i < names.len() && key_of_prefix(names[i]) == Some(key) && index_of(names)[key]
                == names[i],
    decreases names.len(),
{
    if names.len() > 0 {
        let earlier = names.drop_last();
        if key_of_prefix(names.last()) == Some(key) {
            let i = names.len() - 1;
            assert(key_of_prefix(names[i]) == Some(key) && index_of(names)[key] == names[i]);
        } else {
            assert(index_of(earlier).contains_key(key));
            lemma_index_entries(earlier, key);
            let i = choose|i: int|
                0 <= i < earlier.len() && key_of_prefix(earlier[i]) == Some(key) && index_of(
                    earlier,
                )[key] == earlier[i];
            assert(key_of_prefix(names[i]) == Some(key) && index_of(names)[key] == names[i]);
        }
    }
}

/// A name that starts with a key puts that key into the index.
pub proof fn lemma_index_covers(names: Seq<Seq<char>>, i: int)
    requires
        0 <= i < names.len(),
        key_of_prefix(names[i]) is Some,
    ensures
        index_of(names).contains_key(key_of_prefix(names[i])->0),
    decreases names.len(),
{
    if i < names.len() - 1 {
        lemma_index_covers(names.drop_last(), i);
    }
}

} // verus!
