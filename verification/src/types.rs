//! Versioned keys and the entries of a transaction.
use cheap_clone::CheapClone;
use core::borrow::Borrow;
use core::cmp::Ordering;
use vstd::prelude::*;
use vstd::std_specs::cmp::{OrdSpec, PartialEqSpec, PartialEqSpecImpl, PartialOrdSpecImpl};

verus! {

/// The order of two versions of keys that compare as `by_key`: among equal keys the newer
/// version comes first.
pub open spec fn newest_first(by_key: Ordering, version: u64, version2: u64) -> Ordering {
    match by_key {
        Ordering::Equal => if version > version2 {
            Ordering::Less
        } else if version == version2 {
            Ordering::Equal
        } else {
            Ordering::Greater
        },
        unequal => unequal,
    }
}

/// The order of two versioned keys: by key, and among equal keys the newer version first.
pub open spec fn versioned_order<K: Ord>(key: K, version: u64, key2: K, version2: u64) -> Ordering {
    newest_first(key.cmp_spec(&key2), version, version2)
}

/// Whether comparing `key` with `key2` can have led to `order`, whatever the key type's own
/// comparison does.
pub open spec fn compared<K: Ord>(
    key: K,
    version: u64,
    key2: K,
    version2: u64,
    order: Ordering,
) -> bool {
    exists|by_key: Ordering|
        {
            &&& #[trigger] call_ensures(K::cmp, (&key, &key2), by_key)
            &&& order == newest_first(by_key, version, version2)
        }
}

/// Compares two versioned keys: by key, and among equal keys the newer version first.
fn compare_versioned<K: Ord>(key: &K, version: u64, key2: &K, version2: u64) -> (order: Ordering)
    ensures
        compared(*key, version, *key2, version2, order),
        K::obeys_cmp_spec() ==> order == versioned_order(*key, version, *key2, version2),
{
    match key.cmp(key2) {
        Ordering::Less => Ordering::Less,
        Ordering::Greater => Ordering::Greater,
        Ordering::Equal => if version > version2 {
            Ordering::Less
        } else if version == version2 {
            Ordering::Equal
        } else {
            Ordering::Greater
        },
    }
}

/// A copy of a value, made by `cheap_clone::CheapClone::cheap_clone`.
///
/// Not proved: that the call returns a copy of the value, in the sense of the type's own
/// `Clone`. The crate documents the method so, and its provided body is `self.clone()`.
#[verifier::external_body]
fn cheap_copy<T: CheapClone + Clone>(value: &T) -> (copy: T)
    ensures
        cloned::<T>(*value, copy),
{
    value.cheap_clone()
}

/// Key is a versioned key. Its view is the pair of the key and the version.
#[derive(Debug, Eq, Hash)]
pub struct Key<K> {
    key: K,
    version: u64,
}

impl<K> View for Key<K> {
    type V = (K, u64);

    closed spec fn view(&self) -> (K, u64) {
        (self.key, self.version)
    }
}

impl<K> Key<K> {
    /// Create a new key with default version.
    pub fn new(key: K) -> (made: Key<K>)
        ensures
            made@ == (key, 0u64),
    {
        Key { key, version: 0 }
    }

    /// Returns the key.
    #[inline]
    pub fn key(&self) -> (key: &K)
        ensures
            *key == self@.0,
    {
        &self.key
    }

    /// Returns the version of the key.
    #[inline]
    pub fn version(&self) -> (version: u64)
        ensures
            version == self@.1,
    {
        self.version
    }

    /// Set the version of the key.
    #[inline]
    pub fn set_version(&mut self, version: u64)
        ensures
            final(self)@ == (old(self)@.0, version),
    {
        self.version = version;
    }

    /// Set the version of the key.
    #[inline]
    pub fn with_version(self, version: u64) -> (made: Self)
        ensures
            made@ == (self@.0, version),
    {
        Key { key: self.key, version }
    }

    /// Consumes the key and returns the key and the version.
    #[inline]
    pub fn into_components(self) -> (parts: (K, u64))
        ensures
            parts == self@,
    {
        (self.key, self.version)
    }
}

impl<K: Ord> Key<K> {
    /// Orders by key, and among equal keys the newer version first.
    #[inline]
    pub fn cmp(&self, other: &Self) -> (order: Ordering)
        ensures
            compared(self@.0, self@.1, other@.0, other@.1, order),
            K::obeys_cmp_spec() ==> order == versioned_order(
                self@.0,
                self@.1,
                other@.0,
                other@.1,
            ),
    {
        compare_versioned(&self.key, self.version, &other.key, other.version)
    }
}

impl<K: Clone> Clone for Key<K> {
    fn clone(&self) -> (copy: Self)
        ensures
            cloned::<K>(self@.0, copy@.0),
            copy@.1 == self@.1,
    {
        Key { key: self.key.clone(), version: self.version }
    }
}

impl<K: PartialEq> PartialEq for Key<K> {
    fn eq(&self, other: &Self) -> (same: bool) {
        self.key == other.key && self.version == other.version
    }
}

impl<K: PartialEq> PartialEqSpecImpl for Key<K> {
    open spec fn obeys_eq_spec() -> bool {
        K::obeys_eq_spec()
    }

    open spec fn eq_spec(&self, other: &Self) -> bool {
        self@.0.eq_spec(&other@.0) && self@.1 == other@.1
    }
}

impl<K: Ord> PartialOrd for Key<K> {
    #[inline]
    fn partial_cmp(&self, other: &Self) -> (order: Option<Ordering>)
        ensures
            order matches Some(o) && compared(self@.0, self@.1, other@.0, other@.1, o),
    {
        Some(self.cmp(other))
    }
}

impl<K: Ord> PartialOrdSpecImpl for Key<K> {
    open spec fn obeys_partial_cmp_spec() -> bool {
        K::obeys_cmp_spec()
    }

    open spec fn partial_cmp_spec(&self, other: &Self) -> Option<Ordering> {
        Some(versioned_order(self@.0, self@.1, other@.0, other@.1))
    }
}

impl<K> Borrow<K> for Key<K> {
    #[inline]
    fn borrow(&self) -> &K
        returns
            &self@.0,
    {
        &self.key
    }
}

/// A reference to a key.
#[derive(Debug, Eq, Hash)]
pub struct KeyRef<'a, K> {
    /// The key.
    pub key: &'a K,
    /// The version of the key.
    pub version: u64,
}

impl<'a, K> Clone for KeyRef<'a, K> {
    fn clone(&self) -> (copy: Self)
        ensures
            copy == *self,
    {
        *self
    }
}

impl<'a, K> Copy for KeyRef<'a, K> {

}

impl<'a, K> KeyRef<'a, K> {
    /// Returns the key.
    pub fn key(&self) -> (key: &K)
        ensures
            *key == *self.key,
    {
        self.key
    }

    /// Returns the version of the key.
    ///
    /// This version is useful when you want to implement MVCC.
    pub fn version(&self) -> (version: u64)
        ensures
            version == self.version,
    {
        self.version
    }
}

impl<'a, K: Ord> KeyRef<'a, K> {
    /// Orders by key, and among equal keys the newer version first.
    #[inline]
    pub fn cmp(&self, other: &Self) -> (order: Ordering)
        ensures
            compared(*self.key, self.version, *other.key, other.version, order),
            K::obeys_cmp_spec() ==> order == versioned_order(
                *self.key,
                self.version,
                *other.key,
                other.version,
            ),
    {
        compare_versioned(self.key, self.version, other.key, other.version)
    }
}

impl<'a, K: PartialEq> PartialEq for KeyRef<'a, K> {
    fn eq(&self, other: &Self) -> (same: bool) {
        *self.key == *other.key && self.version == other.version
    }
}

impl<'a, K: PartialEq> PartialEqSpecImpl for KeyRef<'a, K> {
    open spec fn obeys_eq_spec() -> bool {
        K::obeys_eq_spec()
    }

    open spec fn eq_spec(&self, other: &Self) -> bool {
        self.key.eq_spec(&other.key) && self.version == other.version
    }
}

impl<'a, K: Ord> PartialOrd for KeyRef<'a, K> {
    #[inline]
    fn partial_cmp(&self, other: &Self) -> (order: Option<Ordering>)
        ensures
            order matches Some(o) && compared(*self.key, self.version, *other.key, other.version, o),
    {
        Some(self.cmp(other))
    }
}

impl<'a, K: Ord> PartialOrdSpecImpl for KeyRef<'a, K> {
    open spec fn obeys_partial_cmp_spec() -> bool {
        K::obeys_cmp_spec()
    }

    open spec fn partial_cmp_spec(&self, other: &Self) -> Option<Ordering> {
        Some(versioned_order(*self.key, self.version, *other.key, other.version))
    }
}

impl<'a, K> Borrow<K> for KeyRef<'a, K> {
    #[inline]
    fn borrow(&self) -> &K
        returns
            self.key,
    {
        self.key
    }
}

/// The reference of the [`EntryData`].
#[derive(Debug, PartialEq, Eq, Hash)]
pub enum EntryDataRef<'a, K, V> {
    /// Insert the key and the value.
    Insert {
        /// key of the entry.
        key: &'a K,
        /// value of the entry.
        value: &'a V,
    },
    /// Remove the key.
    Remove(&'a K),
}

impl<'a, K, V> EntryDataRef<'a, K, V> {
    /// The key that the data speaks of.
    pub open spec fn spec_key(self) -> K {
        match self {
            EntryDataRef::Insert { key, .. } => *key,
            EntryDataRef::Remove(key) => *key,
        }
    }

    /// The value that the data gives the key, if any.
    pub open spec fn spec_value(self) -> Option<V> {
        match self {
            EntryDataRef::Insert { value, .. } => Some(*value),
            EntryDataRef::Remove(_) => None,
        }
    }
}

impl<'a, K, V> Clone for EntryDataRef<'a, K, V> {
    fn clone(&self) -> (copy: Self)
        ensures
            copy == *self,
    {
        *self
    }
}

impl<'a, K, V> Copy for EntryDataRef<'a, K, V> {

}

/// The reference of the [`Entry`].
#[derive(Debug, PartialEq, Eq, Hash)]
pub struct EntryRef<'a, K, V> {
    pub data: EntryDataRef<'a, K, V>,
    pub version: u64,
}

impl<'a, K, V> Clone for EntryRef<'a, K, V> {
    fn clone(&self) -> (copy: Self)
        ensures
            copy == *self,
    {
        *self
    }
}

impl<'a, K, V> Copy for EntryRef<'a, K, V> {

}

impl<'a, K, V> EntryRef<'a, K, V> {
    /// Get the key of the entry.
    #[inline]
    pub fn key(&self) -> (key: &K)
        ensures
            *key == self.data.spec_key(),
    {
        match self.data {
            EntryDataRef::Insert { key, .. } => key,
            EntryDataRef::Remove(key) => key,
        }
    }

    /// Get the value of the entry, if None, it means the entry is removed.
    #[inline]
    pub fn value(&self) -> (value: Option<&V>)
        ensures
            value is Some <==> self.data.spec_value() is Some,
            value matches Some(v) ==> self.data.spec_value() == Some(*v),
    {
        match self.data {
            EntryDataRef::Insert { value, .. } => Some(value),
            EntryDataRef::Remove(_) => None,
        }
    }

    /// Returns the version of the entry.
    ///
    /// This version is useful when you want to implement MVCC.
    #[inline]
    pub fn version(&self) -> (version: u64)
        ensures
            version == self.version,
    {
        self.version
    }
}

/// The data of the [`Entry`].
#[derive(Debug, PartialEq, Eq, Hash)]
pub enum EntryData<K, V> {
    /// Insert the key and the value.
    Insert {
        /// key of the entry.
        key: K,
        /// value of the entry.
        value: V,
    },
    /// Remove the key.
    Remove(K),
}

impl<K, V> EntryData<K, V> {
    /// The key that the data speaks of.
    pub open spec fn spec_key(self) -> K {
        match self {
            EntryData::Insert { key, .. } => key,
            EntryData::Remove(key) => key,
        }
    }

    /// The value that the data gives the key, if any.
    pub open spec fn spec_value(self) -> Option<V> {
        match self {
            EntryData::Insert { value, .. } => Some(value),
            EntryData::Remove(_) => None,
        }
    }

    /// Returns the key of the entry.
    #[inline]
    pub fn key(&self) -> (key: &K)
        ensures
            *key == self.spec_key(),
    {
        match self {
            Self::Insert { key, .. } => key,
            Self::Remove(key) => key,
        }
    }

    /// Returns the value of the entry, if None, it means the entry is marked as remove.
    #[inline]
    pub fn value(&self) -> (value: Option<&V>)
        ensures
            value is Some <==> self.spec_value() is Some,
            value matches Some(v) ==> self.spec_value() == Some(*v),
    {
        match self {
            Self::Insert { value, .. } => Some(value),
            Self::Remove(_) => None,
        }
    }
}

impl<K: Clone, V: Clone> EntryData<K, V> {
    /// Whether `copy` is this data with its key and value copied.
    pub open spec fn copied_to(self, copy: Self) -> bool {
        match (self, copy) {
            (
                EntryData::Insert { key, value },
                EntryData::Insert { key: key2, value: value2 },
            ) => cloned::<K>(key, key2) && cloned::<V>(value, value2),
            (EntryData::Remove(key), EntryData::Remove(key2)) => cloned::<K>(key, key2),
            _ => false,
        }
    }
}

impl<K: Clone, V: Clone> Clone for EntryData<K, V> {
    fn clone(&self) -> (copy: Self)
        ensures
            self.copied_to(copy),
    {
        match self {
            Self::Insert { key, value } => Self::Insert { key: key.clone(), value: value.clone() },
            Self::Remove(key) => Self::Remove(key.clone()),
        }
    }
}

impl<K: CheapClone + Clone, V: CheapClone + Clone> CheapClone for EntryData<K, V> {
    fn cheap_clone(&self) -> (copy: Self)
        ensures
            self.copied_to(copy),
    {
        match self {
            Self::Insert { key, value } => Self::Insert {
                key: cheap_copy(key),
                value: cheap_copy(value),
            },
            Self::Remove(key) => Self::Remove(cheap_copy(key)),
        }
    }
}

impl<K: Ord, V: Eq> EntryData<K, V> {
    /// Orders by key alone.
    #[inline]
    pub fn cmp(&self, other: &Self) -> (order: Ordering)
        ensures
            call_ensures(K::cmp, (&self.spec_key(), &other.spec_key()), order),
            K::obeys_cmp_spec() ==> order == self.spec_key().cmp_spec(&other.spec_key()),
    {
        self.key().cmp(other.key())
    }
}

impl<K: Ord, V: Eq> PartialOrd for EntryData<K, V> {
    #[inline]
    fn partial_cmp(&self, other: &Self) -> (order: Option<Ordering>)
        ensures
            order matches Some(o) && call_ensures(K::cmp, (&self.spec_key(), &other.spec_key()), o),
    {
        Some(self.cmp(other))
    }
}

impl<K: Ord, V: Eq> PartialOrdSpecImpl for EntryData<K, V> {
    open spec fn obeys_partial_cmp_spec() -> bool {
        K::obeys_cmp_spec()
    }

    open spec fn partial_cmp_spec(&self, other: &Self) -> Option<Ordering> {
        Some(self.spec_key().cmp_spec(&other.spec_key()))
    }
}

/// A entry value
#[derive(Debug, PartialEq, Eq, Hash)]
pub struct EntryValue<V> {
    /// The version of the entry.
    pub version: u64,
    /// The value of the entry.
    pub value: Option<V>,
}

impl<V: Clone> EntryValue<V> {
    /// Whether `copy` is this entry value with its value copied.
    pub open spec fn copied_to(self, copy: Self) -> bool {
        &&& copy.version == self.version
        &&& match (self.value, copy.value) {
            (Some(value), Some(value2)) => cloned::<V>(value, value2),
            (None, None) => true,
            _ => false,
        }
    }
}

impl<V: Clone> Clone for EntryValue<V> {
    fn clone(&self) -> (copy: Self)
        ensures
            self.copied_to(copy),
    {
        Self { version: self.version, value: self.value.clone() }
    }
}

impl<V: CheapClone + Clone> CheapClone for EntryValue<V> {
    fn cheap_clone(&self) -> (copy: Self)
        ensures
            self.copied_to(copy),
    {
        Self {
            version: self.version,
            value: match &self.value {
                Some(value) => Some(cheap_copy(value)),
                None => None,
            },
        }
    }
}

/// An entry can be persisted to the database.
#[derive(Debug, PartialEq, Eq, Hash)]
pub struct Entry<K, V> {
    pub version: u64,
    pub data: EntryData<K, V>,
}

impl<K, V> Entry<K, V> {
    /// The key of the entry, and what the entry says of it.
    pub open spec fn spec_split(self) -> (K, EntryValue<V>) {
        (
            self.data.spec_key(),
            EntryValue { version: self.version, value: self.data.spec_value() },
        )
    }

    /// The entry that says `value` of `key`.
    pub open spec fn spec_unsplit(key: K, value: EntryValue<V>) -> Self {
        Entry {
            version: value.version,
            data: match value.value {
                Some(value) => EntryData::Insert { key, value },
                None => EntryData::Remove(key),
            },
        }
    }

    /// Returns the data contained by the entry.
    #[inline]
    pub fn data(&self) -> (data: &EntryData<K, V>)
        ensures
            *data == self.data,
    {
        &self.data
    }

    /// Returns the version (can also be tought as transaction timestamp) of the entry.
    #[inline]
    pub fn version(&self) -> (version: u64)
        ensures
            version == self.version,
    {
        self.version
    }

    /// Consumes the entry and returns the version and the entry data.
    #[inline]
    pub fn into_components(self) -> (parts: (u64, EntryData<K, V>))
        ensures
            parts == (self.version, self.data),
    {
        (self.version, self.data)
    }

    /// Returns the key of the entry.
    #[inline]
    pub fn key(&self) -> (key: &K)
        ensures
            *key == self.data.spec_key(),
    {
        match &self.data {
            EntryData::Insert { key, .. } => key,
            EntryData::Remove(key) => key,
        }
    }

    /// Split the entry into its key and [`EntryValue`].
    pub fn split(self) -> (parts: (K, EntryValue<V>))
        ensures
            parts == self.spec_split(),
    {
        let Entry { data, version } = self;
        let (key, value) = match data {
            EntryData::Insert { key, value } => (key, Some(value)),
            EntryData::Remove(key) => (key, None),
        };
        (key, EntryValue { value, version })
    }

    /// Unsplit the key and [`EntryValue`] into an entry.
    pub fn unsplit(key: K, value: EntryValue<V>) -> (entry: Self)
        ensures
            entry == Self::spec_unsplit(key, value),
    {
        let EntryValue { value, version } = value;
        Entry {
            data: match value {
                Some(value) => EntryData::Insert { key, value },
                None => EntryData::Remove(key),
            },
            version,
        }
    }
}

impl<K: Clone, V: Clone> Clone for Entry<K, V> {
    fn clone(&self) -> (copy: Self)
        ensures
            copy.version == self.version,
            self.data.copied_to(copy.data),
    {
        Self { version: self.version, data: self.data.clone() }
    }
}

impl<K: CheapClone + Clone, V: CheapClone + Clone> CheapClone for Entry<K, V> {
    fn cheap_clone(&self) -> (copy: Self)
        ensures
            copy.version == self.version,
            self.data.copied_to(copy.data),
    {
        Self { version: self.version, data: self.data.cheap_clone() }
    }
}

impl<K: Ord, V: Eq> Entry<K, V> {
    /// Orders by key, and among equal keys the newer version first.
    #[inline]
    pub fn cmp(&self, other: &Self) -> (order: Ordering)
        ensures
            compared(
                self.data.spec_key(),
                self.version,
                other.data.spec_key(),
                other.version,
                order,
            ),
            K::obeys_cmp_spec() ==> order == versioned_order(
                self.data.spec_key(),
                self.version,
                other.data.spec_key(),
                other.version,
            ),
    {
        compare_versioned(self.data.key(), self.version, other.data.key(), other.version)
    }
}

impl<K: Ord, V: Eq> PartialOrd for Entry<K, V> {
    #[inline]
    fn partial_cmp(&self, other: &Self) -> (order: Option<Ordering>)
        ensures
            order matches Some(o) && compared(
                self.data.spec_key(),
                self.version,
                other.data.spec_key(),
                other.version,
                o,
            ),
    {
        Some(self.cmp(other))
    }
}

impl<K: Ord, V: Eq> PartialOrdSpecImpl for Entry<K, V> {
    open spec fn obeys_partial_cmp_spec() -> bool {
        K::obeys_cmp_spec()
    }

    open spec fn partial_cmp_spec(&self, other: &Self) -> Option<Ordering> {
        Some(
            versioned_order(
                self.data.spec_key(),
                self.version,
                other.data.spec_key(),
                other.version,
            ),
        )
    }
}

} // verus!
