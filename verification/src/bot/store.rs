//! A bounded key-value store: keys of at most 128 bytes, values of at most
//! 4096 bytes, and at most 1000 keys (updating an existing key is always
//! allowed). Writing the store to disk is left to the caller.

use crate::bot::keyed::{
    has_key, keys_distinct, lemma_to_map_dom, lemma_to_map_len, lemma_to_map_push,
    lemma_to_map_update, lemma_to_map_value, to_map,
};
use crate::text::chars_eq;
use crate::text::chars_of;
use vstd::prelude::*;

verus! {

/// The most keys a store takes through `set`.
pub const MAX_ENTRIES: usize = 1000;

/// The longest key, in UTF-8 bytes.
pub const MAX_KEY_LEN: usize = 128;

/// The longest value, in UTF-8 bytes.
pub const MAX_VALUE_LEN: usize = 4096;

/// Why a write to the store was refused.
#[derive(Debug, Clone, PartialEq, Eq)]
pub enum StoreError {
    KeyTooLong,
    ValueTooLong,
    CapacityExceeded,
    /// Writing to disk failed; holds the description of the failure.
    Io(String),
}

impl StoreError {
    /// The message that describes the error to a user.
    pub fn message(&self) -> (res: String)
        ensures
            res@ == match self {
                StoreError::KeyTooLong => "key 长度超过 128 字节限制"@,
                StoreError::ValueTooLong => "value 长度超过 4096 字节限制"@,
                StoreError::CapacityExceeded => "存储条目数已达上限 1000"@,
                StoreError::Io(m) => m@,
            },
    {
        match self {
            StoreError::KeyTooLong => "key 长度超过 128 字节限制".to_string(),
            StoreError::ValueTooLong => "value 长度超过 4096 字节限制".to_string(),
            StoreError::CapacityExceeded => "存储条目数已达上限 1000".to_string(),
            StoreError::Io(m) => m.clone(),
        }
    }
}

/// The views of the entries of a store.
pub open spec fn pair_views(v: Seq<(String, String)>) -> Seq<(Seq<char>, Seq<char>)> {
    v.map_values(|e: (String, String)| (e.0@, e.1@))
}

/// The length of a text in UTF-8 bytes.
pub open spec fn byte_len(s: Seq<char>) -> nat {
    vstd::utf8::encode_utf8(s).len()
}

/// The outcome of writing `value` under `key` into a store holding `m`: the
/// new contents, or the reason for refusing, checked in this order: key
/// length, value length, and capacity for a key that is not there yet.
pub open spec fn spec_set(m: Map<Seq<char>, Seq<char>>, key: Seq<char>, value: Seq<char>) -> Result<
    Map<Seq<char>, Seq<char>>,
    StoreError,
> {
    if byte_len(key) > MAX_KEY_LEN {
        Err(StoreError::KeyTooLong)
    } else if byte_len(value) > MAX_VALUE_LEN {
        Err(StoreError::ValueTooLong)
    } else if !m.dom().contains(key) && m.dom().len() >= MAX_ENTRIES {
        Err(StoreError::CapacityExceeded)
    } else {
        Ok(m.insert(key, value))
    }
}

/// The in-memory contents of a key-value store.
pub struct KvStore {
    entries: Vec<(String, String)>,
}

impl View for KvStore {
    type V = Map<Seq<char>, Seq<char>>;

    closed spec fn view(&self) -> Map<Seq<char>, Seq<char>> {
        to_map(pair_views(self.entries@))
    }
}

impl KvStore {
    /// No key is stored twice.
    pub closed spec fn wf(&self) -> bool {
        keys_distinct(pair_views(self.entries@))
    }

    /// An empty store.
    pub fn new() -> (res: Self)
        ensures
            res.wf(),
            res@ == Map::<Seq<char>, Seq<char>>::empty(),
    {
        let res = KvStore { entries: Vec::new() };
        assert(pair_views(res.entries@) =~= Seq::<(Seq<char>, Seq<char>)>::empty());
        res
    }

    /// The index of the entry for `key`, if there is one.
    fn find(&self, key: &[char]) -> (res: Option<usize>)
        requires
            self.wf(),
        ensures
            match res {
                Some(i) => i < self.entries@.len() && pair_views(self.entries@)[i as int].0
                    == key@,
                None => !has_key(pair_views(self.entries@), key@),
            },
    {
        let ghost pv = pair_views(self.entries@);
        let mut i: usize = 0;
        while i < self.entries.len()
            invariant
                pv == pair_views(self.entries@),
                i <= self.entries@.len(),
                forall|j: int| 0 <= j < i ==> #[trigger] pv[j].0 != key@,
            decreases self.entries@.len() - i,
        {
            let k = chars_of(self.entries[i].0.as_str());
            if chars_eq(k.as_slice(), key) {
                return Some(i);
            }
            i = i + 1;
        }
        assert(!has_key(pv, key@)) by {
            if has_key(pv, key@) {
                let j = choose|j: int| 0 <= j < pv.len() && #[trigger] pv[j].0 == key@;
                assert(pv[j].0 != key@);
            }
        }
        None
    }

    /// The number of keys in the store.
    pub fn len(&self) -> (res: usize)
        requires
            self.wf(),
        ensures
            res == self@.dom().len(),
    {
        proof {
            lemma_to_map_len(pair_views(self.entries@));
        }
        self.entries.len()
    }

    /// The value stored under `key`.
    pub fn get(&self, key: &str) -> (res: Option<String>)
        requires
            self.wf(),
        ensures
            match res {
                Some(v) => self@.dom().contains(key@) && v@ == self@[key@],
                None => !self@.dom().contains(key@),
            },
    {
        let k = chars_of(key);
        proof {
            lemma_to_map_dom(pair_views(self.entries@));
        }
        match self.find(k.as_slice()) {
            Some(i) => {
                proof {
                    lemma_to_map_value(pair_views(self.entries@), i as int);
                }
                Some(self.entries[i].1.clone())
            },
            None => None,
        }
    }

    /// Stores `value` under `key`, replacing an earlier value, without the
    /// size and capacity checks of `set`.
    fn put(&mut self, key: String, value: String)
        requires
            old(self).wf(),
        ensures
            final(self).wf(),
            final(self)@ == old(self)@.insert(key@, value@),
    {
        let k = chars_of(key.as_str());
        let ghost pv = pair_views(self.entries@);
        match self.find(k.as_slice()) {
            Some(i) => {
                proof {
                    lemma_to_map_update(pv, i as int, value@);
                }
                let old_key = self.entries[i].0.clone();
                self.entries.set(i, (old_key, value));
                assert(pair_views(self.entries@) =~= pv.update(i as int, (pv[i as int].0, value@)));
            },
            None => {
                proof {
                    lemma_to_map_push(pv, key@, value@);
                }
                self.entries.push((key, value));
                assert(pair_views(self.entries@) =~= pv.push((key@, value@)));
            },
        }
    }

    /// Writes `value` under `key` when the limits allow it; otherwise leaves
    /// the store as it was and says which limit was hit.
    pub fn set(&mut self, key: &str, value: &str) -> (res: Result<(), StoreError>)
        requires
            old(self).wf(),
        ensures
            final(self).wf(),
            match spec_set(old(self)@, key@, value@) {
                Ok(m) => res is Ok && final(self)@ == m,
                Err(e) => res == Err::<(), StoreError>(e) && final(self)@ == old(self)@,
            },
    {
        if key.as_bytes().len() > MAX_KEY_LEN {
            return Err(StoreError::KeyTooLong);
        }
        if value.as_bytes().len() > MAX_VALUE_LEN {
            return Err(StoreError::ValueTooLong);
        }
        let k = chars_of(key);
        proof {
            lemma_to_map_dom(pair_views(self.entries@));
            lemma_to_map_len(pair_views(self.entries@));
        }
        if self.find(k.as_slice()).is_none() && self.entries.len() >= MAX_ENTRIES {
            return Err(StoreError::CapacityExceeded);
        }
        self.put(key.to_string(), value.to_string());
        Ok(())
    }

    /// A store holding the given pairs; a later pair wins over an earlier
    /// one with the same key, and no limit applies.
    pub fn from_pairs(pairs: Vec<(String, String)>) -> (res: Self)
        ensures
            res.wf(),
            res@ == to_map(pair_views(pairs@)),
    {
        let mut store = KvStore::new();
        let ghost all = pair_views(pairs@);
        let mut i: usize = 0;
        assert(all.take(0) =~= Seq::<(Seq<char>, Seq<char>)>::empty());
        while i < pairs.len()
            invariant
                all == pair_views(pairs@),
                i <= pairs@.len(),
                store.wf(),
                store@ == to_map(all.take(i as int)),
            decreases pairs@.len() - i,
        {
            let k = pairs[i].0.clone();
            let v = pairs[i].1.clone();
            assert(all.take(i + 1).drop_last() =~= all.take(i as int));
            store.put(k, v);
            i = i + 1;
        }
        assert(all.take(pairs@.len() as int) =~= all);
        store
    }

    /// The entries of the store, each key once, in the order they were first
    /// written.
    pub fn entries(&self) -> (res: &[(String, String)])
        requires
            self.wf(),
        ensures
            keys_distinct(pair_views(res@)),
            to_map(pair_views(res@)) == self@,
    {
        self.entries.as_slice()
    }
}

/// The map of strings to strings that a JSON text holds, as
/// `serde_json::from_str` into a `HashMap<String, String>` reads it; `None`
/// when the text is not a JSON object of string values.
pub uninterp spec fn json_string_map(content: Seq<char>) -> Option<Map<Seq<char>, Seq<char>>>;

/// Reads a JSON object of string values with `serde_json::from_str` into a
/// `HashMap<String, String>`, and hands its entries out as pairs.
///
/// Trusted: the map read is named `json_string_map(content)`; the pairs hold
/// each key once, since they come from a map. Their order is not stated: it
/// follows the map's iteration, which changes from one process to the next.
#[verifier::external_body]
fn parse_string_map(content: &str) -> (res: Option<Vec<(String, String)>>)
    ensures
        match res {
            Some(v) => keys_distinct(pair_views(v@)) && json_string_map(content@) == Some(
                to_map(pair_views(v@)),
            ),
            None => json_string_map(content@) is None,
        },
{
    match serde_json::from_str::<std::collections::HashMap<String, String>>(content) {
        Ok(m) => Some(m.into_iter().collect()),
        Err(_) => None,
    }
}

/// The store saved as `content`: the JSON object of string values it holds,
/// or an empty store when it holds none. No limit applies to what is read.
pub fn store_from_json(content: &str) -> (res: KvStore)
    ensures
        res.wf(),
        res@ == (match json_string_map(content@) {
            Some(m) => m,
            None => Map::<Seq<char>, Seq<char>>::empty(),
        }),
{
    match parse_string_map(content) {
        Some(v) => KvStore { entries: v },
        None => KvStore::new(),
    }
}

/// After an accepted write, a read of the key gives the value written.
pub proof fn law_read_after_write(m: Map<Seq<char>, Seq<char>>, key: Seq<char>, value: Seq<char>)
    requires
        spec_set(m, key, value) is Ok,
    ensures
        spec_set(m, key, value)->Ok_0.dom().contains(key),
        spec_set(m, key, value)->Ok_0[key] == value,
{
}

/// A write of one key leaves every other key as it was.
pub proof fn law_write_keeps_other_keys(
    m: Map<Seq<char>, Seq<char>>,
    key: Seq<char>,
    value: Seq<char>,
    other: Seq<char>,
)
    requires
        spec_set(m, key, value) is Ok,
        other != key,
    ensures
        spec_set(m, key, value)->Ok_0.dom().contains(other) == m.dom().contains(other),
        m.dom().contains(other) ==> spec_set(m, key, value)->Ok_0[other] == m[other],
{
}

/// Replacing the value of a key that is stored is refused only for the
/// length of the key or value, never for capacity.
pub proof fn law_update_ignores_capacity(m: Map<Seq<char>, Seq<char>>, key: Seq<char>, value: Seq<char>)
    requires
        m.dom().contains(key),
        byte_len(key) <= MAX_KEY_LEN,
        byte_len(value) <= MAX_VALUE_LEN,
    ensures
        spec_set(m, key, value) is Ok,
{
}

/// A store that holds no more than the maximum number of keys still holds
/// no more after any write.
pub proof fn law_capacity_bound(m: Map<Seq<char>, Seq<char>>, key: Seq<char>, value: Seq<char>)
    requires
        m.dom().finite(),
        m.dom().len() <= MAX_ENTRIES,
    ensures
        match spec_set(m, key, value) {
            Ok(m2) => m2.dom().len() <= MAX_ENTRIES,
            Err(_) => true,
        },
{
    if spec_set(m, key, value) is Ok {
        if m.dom().contains(key) {
            assert(m.insert(key, value).dom() =~= m.dom());
        } else {
            assert(m.insert(key, value).dom() == m.dom().insert(key));
        }
    }
}


/// A store holding no more than the maximum number of keys still holds no
/// more after any write.
pub proof fn law_store_capacity(store: &KvStore, key: Seq<char>, value: Seq<char>)
    requires
        store@.dom().len() <= MAX_ENTRIES,
    ensures
        match spec_set(store@, key, value) {
            Ok(m2) => m2.dom().len() <= MAX_ENTRIES,
            Err(_) => true,
        },
{
    lemma_to_map_dom(pair_views(store.entries@));
    law_capacity_bound(store@, key, value);
}

} // verus!
