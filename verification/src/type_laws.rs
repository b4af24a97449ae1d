//! What holds of versioned keys and of entries, stated of the calls themselves.
use crate::types::{Entry, EntryData, EntryDataRef, EntryRef, EntryValue, Key, KeyRef};
use core::cmp::Ordering;
use vstd::prelude::*;
use vstd::std_specs::cmp::{OrdSpec, PartialEqSpec, PartialOrdSpec};

verus! {

/// A key is made at version zero.
pub proof fn law_new_key<K>(key: K, made: Key<K>)
    requires
        call_ensures(Key::<K>::new, (key,), made),
    ensures
        made@.0 == key,
        made@.1 == 0,
{
}

/// A versioned key tells the key and the version that it holds, apart and together.
pub proof fn law_key_keeps_its_parts<K>(
    key: Key<K>,
    held: &K,
    version: u64,
    parts: (K, u64),
)
    requires
        call_ensures(Key::<K>::key, (&key,), held),
        call_ensures(Key::<K>::version, (&key,), version),
        call_ensures(Key::<K>::into_components, (key,), parts),
    ensures
        *held == key@.0,
        version == key@.1,
        parts.0 == key@.0,
        parts.1 == key@.1,
{
}

/// A key that is given a version has it, whatever version it had, and stays the key.
pub proof fn law_with_version<K>(key: Key<K>, version: u64, made: Key<K>)
    requires
        call_ensures(Key::<K>::with_version, (key, version), made),
    ensures
        made@.0 == key@.0,
        made@.1 == version,
{
}

/// Setting the version of a key sets it, and leaves the key.
pub proof fn law_set_version<K>(key: &mut Key<K>, version: u64)
    requires
        call_ensures(Key::<K>::set_version, (key, version), ()),
    ensures
        final(key)@.0 == old(key)@.0,
        final(key)@.1 == version,
{
}

/// A key reference tells the key and the version that it holds, and a copy of it holds the same.
pub proof fn law_key_ref_keeps_its_parts<'a, K>(
    key: KeyRef<'a, K>,
    held: &K,
    version: u64,
    copy: KeyRef<'a, K>,
)
    requires
        call_ensures(KeyRef::<'a, K>::key, (&key,), held),
        call_ensures(KeyRef::<'a, K>::version, (&key,), version),
        call_ensures(KeyRef::<'a, K>::clone, (&key,), copy),
    ensures
        *held == *key.key,
        version == key.version,
        *copy.key == *key.key,
        copy.version == key.version,
{
}

/// An entry tells the version and the data that it holds, and the key that its data speaks of.
pub proof fn law_entry_keeps_its_parts<K, V>(
    entry: Entry<K, V>,
    data: &EntryData<K, V>,
    version: u64,
    parts: (u64, EntryData<K, V>),
    key: &K,
)
    requires
        call_ensures(Entry::<K, V>::data, (&entry,), data),
        call_ensures(Entry::<K, V>::version, (&entry,), version),
        call_ensures(Entry::<K, V>::into_components, (entry,), parts),
        call_ensures(Entry::<K, V>::key, (&entry,), key),
    ensures
        *data == entry.data,
        version == entry.version,
        parts.0 == entry.version,
        parts.1 == entry.data,
        entry.data matches EntryData::Insert { key: k, .. } ==> *key == k,
        entry.data matches EntryData::Remove(k) ==> *key == k,
{
}

/// The data of an entry tells its key, and its value if and only if it inserts one.
pub proof fn law_data_keeps_its_parts<K, V>(data: EntryData<K, V>, key: &K, value: Option<&V>)
    requires
        call_ensures(EntryData::<K, V>::key, (&data,), key),
        call_ensures(EntryData::<K, V>::value, (&data,), value),
    ensures
        data matches EntryData::Insert { key: k, value: v } ==> *key == k && value is Some
            && *value->0 == v,
        data matches EntryData::Remove(k) ==> *key == k && value is None,
{
}

/// An entry reference tells its key and its version, and its value if and only if it inserts one.
pub proof fn law_entry_ref_keeps_its_parts<'a, K, V>(
    entry: EntryRef<'a, K, V>,
    key: &K,
    value: Option<&V>,
    version: u64,
)
    requires
        call_ensures(EntryRef::<'a, K, V>::key, (&entry,), key),
        call_ensures(EntryRef::<'a, K, V>::value, (&entry,), value),
        call_ensures(EntryRef::<'a, K, V>::version, (&entry,), version),
    ensures
        version == entry.version,
        entry.data matches EntryDataRef::Insert { key: k, value: v } ==> *key == *k && value is Some
            && *value->0 == *v,
        entry.data matches EntryDataRef::Remove(k) ==> *key == *k && value is None,
{
}

/// Splitting an entry gives its key, its version, and its value if and only if it inserts one.
pub proof fn law_split<K, V>(entry: Entry<K, V>, parts: (K, EntryValue<V>))
    requires
        call_ensures(Entry::<K, V>::split, (entry,), parts),
    ensures
        parts.1.version == entry.version,
        entry.data matches EntryData::Insert { key, value } ==> parts.0 == key && parts.1.value
            == Some(value),
        entry.data matches EntryData::Remove(key) ==> parts.0 == key && parts.1.value is None,
{
}

/// Putting a key and a value together gives an entry of that version, which inserts the value if
/// there is one, and removes the key otherwise.
pub proof fn law_unsplit<K, V>(key: K, value: EntryValue<V>, entry: Entry<K, V>)
    requires
        call_ensures(Entry::<K, V>::unsplit, (key, value), entry),
    ensures
        entry.version == value.version,
        value.value matches Some(v) ==> entry.data == (EntryData::Insert { key, value: v }),
        value.value is None ==> entry.data == EntryData::<K, V>::Remove(key),
{
}

/// Versioned keys are ordered by key, and the newer version of one key comes before the older.
pub proof fn law_key_order<K: Ord>(a: Key<K>, b: Key<K>, order: Ordering)
    requires
        K::obeys_cmp_spec(),
        call_ensures(Key::<K>::cmp, (&a, &b), order),
    ensures
        a@.0.cmp_spec(&b@.0) != Ordering::Equal ==> order == a@.0.cmp_spec(&b@.0),
        a@.0.cmp_spec(&b@.0) == Ordering::Equal ==> {
            &&& order == Ordering::Less <==> a@.1 > b@.1
            &&& order == Ordering::Equal <==> a@.1 == b@.1
            &&& order == Ordering::Greater <==> a@.1 < b@.1
        },
        a.partial_cmp_spec(&b) == Some(order),
{
}

/// References to versioned keys are ordered by key, and the newer version of one key comes before
/// the older.
pub proof fn law_key_ref_order<'a, K: Ord>(a: KeyRef<'a, K>, b: KeyRef<'a, K>, order: Ordering)
    requires
        K::obeys_cmp_spec(),
        call_ensures(KeyRef::<'a, K>::cmp, (&a, &b), order),
    ensures
        a.key.cmp_spec(b.key) != Ordering::Equal ==> order == a.key.cmp_spec(b.key),
        a.key.cmp_spec(b.key) == Ordering::Equal ==> {
            &&& order == Ordering::Less <==> a.version > b.version
            &&& order == Ordering::Equal <==> a.version == b.version
            &&& order == Ordering::Greater <==> a.version < b.version
        },
        a.partial_cmp_spec(&b) == Some(order),
{
}

/// Entries are ordered by key, and of one key the newer entry comes before the older, whether they
/// insert or remove.
pub proof fn law_entry_order<K: Ord, V: Eq>(
    a: Entry<K, V>,
    a_key: &K,
    b: Entry<K, V>,
    b_key: &K,
    order: Ordering,
)
    requires
        K::obeys_cmp_spec(),
        call_ensures(Entry::<K, V>::key, (&a,), a_key),
        call_ensures(Entry::<K, V>::key, (&b,), b_key),
        call_ensures(Entry::<K, V>::cmp, (&a, &b), order),
    ensures
        a_key.cmp_spec(b_key) != Ordering::Equal ==> order == a_key.cmp_spec(b_key),
        a_key.cmp_spec(b_key) == Ordering::Equal ==> {
            &&& order == Ordering::Less <==> a.version > b.version
            &&& order == Ordering::Equal <==> a.version == b.version
            &&& order == Ordering::Greater <==> a.version < b.version
        },
        a.partial_cmp_spec(&b) == Some(order),
{
}

/// The data of entries is ordered by key alone, whether it inserts or removes.
pub proof fn law_data_order<K: Ord, V: Eq>(
    a: EntryData<K, V>,
    a_key: &K,
    b: EntryData<K, V>,
    b_key: &K,
    order: Ordering,
)
    requires
        K::obeys_cmp_spec(),
        call_ensures(EntryData::<K, V>::key, (&a,), a_key),
        call_ensures(EntryData::<K, V>::key, (&b,), b_key),
        call_ensures(EntryData::<K, V>::cmp, (&a, &b), order),
    ensures
        order == a_key.cmp_spec(b_key),
        a.partial_cmp_spec(&b) == Some(order),
{
}

/// Whatever the comparison of the keys answers is how versioned keys compare, unless it answers
/// that they are equal: then the newer version comes first.
pub proof fn law_key_order_follows_the_keys<K: Ord>(
    a: Key<K>,
    b: Key<K>,
    order: Ordering,
    ordered: Option<Ordering>,
)
    requires
        call_ensures(Key::<K>::cmp, (&a, &b), order),
        call_ensures(Key::<K>::partial_cmp, (&a, &b), ordered),
    ensures
        exists|by_key: Ordering|
            {
                &&& #[trigger] call_ensures(K::cmp, (&a@.0, &b@.0), by_key)
                &&& by_key != Ordering::Equal ==> order == by_key
                &&& by_key == Ordering::Equal ==> {
                    &&& order == Ordering::Less <==> a@.1 > b@.1
                    &&& order == Ordering::Equal <==> a@.1 == b@.1
                    &&& order == Ordering::Greater <==> a@.1 < b@.1
                }
            },
        exists|by_key: Ordering|
            {
                &&& #[trigger] call_ensures(K::cmp, (&a@.0, &b@.0), by_key)
                &&& by_key != Ordering::Equal ==> ordered == Some(by_key)
                &&& by_key == Ordering::Equal ==> {
                    &&& ordered is Some
                    &&& ordered == Some(Ordering::Less) <==> a@.1 > b@.1
                    &&& ordered == Some(Ordering::Equal) <==> a@.1 == b@.1
                    &&& ordered == Some(Ordering::Greater) <==> a@.1 < b@.1
                }
            },
{
}

/// Whatever the comparison of the keys answers is how key references compare, unless it answers
/// that they are equal: then the newer version comes first.
pub proof fn law_key_ref_order_follows_the_keys<'a, K: Ord>(
    a: KeyRef<'a, K>,
    b: KeyRef<'a, K>,
    order: Ordering,
    ordered: Option<Ordering>,
)
    requires
        call_ensures(KeyRef::<'a, K>::cmp, (&a, &b), order),
        call_ensures(KeyRef::<'a, K>::partial_cmp, (&a, &b), ordered),
    ensures
        exists|by_key: Ordering|
            {
                &&& #[trigger] call_ensures(K::cmp, (a.key, b.key), by_key)
                &&& by_key != Ordering::Equal ==> order == by_key
                &&& by_key == Ordering::Equal ==> {
                    &&& order == Ordering::Less <==> a.version > b.version
                    &&& order == Ordering::Equal <==> a.version == b.version
                    &&& order == Ordering::Greater <==> a.version < b.version
                }
            },
        exists|by_key: Ordering|
            {
                &&& #[trigger] call_ensures(K::cmp, (a.key, b.key), by_key)
                &&& by_key != Ordering::Equal ==> ordered == Some(by_key)
                &&& by_key == Ordering::Equal ==> {
                    &&& ordered is Some
                    &&& ordered == Some(Ordering::Less) <==> a.version > b.version
                    &&& ordered == Some(Ordering::Equal) <==> a.version == b.version
                    &&& ordered == Some(Ordering::Greater) <==> a.version < b.version
                }
            },
{
}

/// Whatever the comparison of the keys answers is how entries compare, unless it answers that they
/// are equal: then the newer version comes first.
pub proof fn law_entry_order_follows_the_keys<K: Ord, V: Eq>(
    a: Entry<K, V>,
    a_key: &K,
    b: Entry<K, V>,
    b_key: &K,
    order: Ordering,
    ordered: Option<Ordering>,
)
    requires
        call_ensures(Entry::<K, V>::key, (&a,), a_key),
        call_ensures(Entry::<K, V>::key, (&b,), b_key),
        call_ensures(Entry::<K, V>::cmp, (&a, &b), order),
        call_ensures(Entry::<K, V>::partial_cmp, (&a, &b), ordered),
    ensures
        exists|by_key: Ordering|
            {
                &&& #[trigger] call_ensures(K::cmp, (a_key, b_key), by_key)
                &&& by_key != Ordering::Equal ==> order == by_key
                &&& by_key == Ordering::Equal ==> {
                    &&& order == Ordering::Less <==> a.version > b.version
                    &&& order == Ordering::Equal <==> a.version == b.version
                    &&& order == Ordering::Greater <==> a.version < b.version
                }
            },
        exists|by_key: Ordering|
            {
                &&& #[trigger] call_ensures(K::cmp, (a_key, b_key), by_key)
                &&& by_key != Ordering::Equal ==> ordered == Some(by_key)
                &&& by_key == Ordering::Equal ==> {
                    &&& ordered is Some
                    &&& ordered == Some(Ordering::Less) <==> a.version > b.version
                    &&& ordered == Some(Ordering::Equal) <==> a.version == b.version
                    &&& ordered == Some(Ordering::Greater) <==> a.version < b.version
                }
            },
{
}

/// Whatever the comparison of the keys answers is how the data of entries compares.
pub proof fn law_data_order_follows_the_keys<K: Ord, V: Eq>(
    a: EntryData<K, V>,
    a_key: &K,
    b: EntryData<K, V>,
    b_key: &K,
    order: Ordering,
    ordered: Option<Ordering>,
)
    requires
        call_ensures(EntryData::<K, V>::key, (&a,), a_key),
        call_ensures(EntryData::<K, V>::key, (&b,), b_key),
        call_ensures(EntryData::<K, V>::cmp, (&a, &b), order),
        call_ensures(EntryData::<K, V>::partial_cmp, (&a, &b), ordered),
    ensures
        call_ensures(K::cmp, (a_key, b_key), order),
        ordered is Some,
        call_ensures(K::cmp, (a_key, b_key), ordered->0),
{
}

/// Two versioned keys are equal if and only if their keys are and their versions are the same.
pub proof fn law_key_equality<'a, K: PartialEq>(
    a: Key<K>,
    b: Key<K>,
    a_ref: KeyRef<'a, K>,
    b_ref: KeyRef<'a, K>,
    same: bool,
    same_ref: bool,
)
    requires
        K::obeys_eq_spec(),
        call_ensures(Key::<K>::eq, (&a, &b), same),
        call_ensures(KeyRef::<'a, K>::eq, (&a_ref, &b_ref), same_ref),
    ensures
        same == a.eq_spec(&b),
        same_ref == a_ref.eq_spec(&b_ref),
        a.eq_spec(&b) <==> a@.0.eq_spec(&b@.0) && a@.1 == b@.1,
        a_ref.eq_spec(&b_ref) <==> (*a_ref.key).eq_spec(&*b_ref.key) && a_ref.version
            == b_ref.version,
{
}

/// A copy of a versioned key has a copy of the key, and the version.
pub proof fn law_key_clone<K: Clone>(key: Key<K>, copy: Key<K>)
    requires
        call_ensures(Key::<K>::clone, (&key,), copy),
    ensures
        cloned::<K>(key@.0, copy@.0),
        copy@.1 == key@.1,
{
}

/// A copy of an entry has its version, inserts where it inserts and removes where it removes, and
/// has copies of its key and value.
pub proof fn law_entry_clone<K: Clone, V: Clone>(entry: Entry<K, V>, copy: Entry<K, V>)
    requires
        call_ensures(Entry::<K, V>::clone, (&entry,), copy),
    ensures
        copy.version == entry.version,
        match entry.data {
            EntryData::Insert { key, value } => {
                copy.data matches EntryData::Insert { key: key2, value: value2 } && cloned::<K>(
                    key,
                    key2,
                ) && cloned::<V>(value, value2)
            },
            EntryData::Remove(key) => copy.data matches EntryData::Remove(key2) && cloned::<K>(
                key,
                key2,
            ),
        },
{
}

/// A copy of a reference to an entry, or to its data, is the same reference.
pub proof fn law_entry_ref_clone<'a, K, V>(
    entry: EntryRef<'a, K, V>,
    copy: EntryRef<'a, K, V>,
    data: EntryDataRef<'a, K, V>,
    data_copy: EntryDataRef<'a, K, V>,
)
    requires
        call_ensures(EntryRef::<'a, K, V>::clone, (&entry,), copy),
        call_ensures(EntryDataRef::<'a, K, V>::clone, (&data,), data_copy),
    ensures
        copy == entry,
        data_copy == data,
{
}

/// A copy of the data of an entry inserts where it inserts and removes where it removes, with
/// copies of the key and the value.
pub proof fn law_data_clone<K: Clone, V: Clone>(data: EntryData<K, V>, copy: EntryData<K, V>)
    requires
        call_ensures(EntryData::<K, V>::clone, (&data,), copy),
    ensures
        data is Insert <==> copy is Insert,
        data matches EntryData::Insert { key, value } ==> cloned::<K>(key, copy->Insert_key)
            && cloned::<V>(value, copy->Insert_value),
        data matches EntryData::Remove(key) ==> cloned::<K>(key, copy->Remove_0),
{
}

/// A copy of an entry value has its version, and a copy of its value if and only if it has one.
pub proof fn law_entry_value_clone<V: Clone>(value: EntryValue<V>, copy: EntryValue<V>)
    requires
        call_ensures(EntryValue::<V>::clone, (&value,), copy),
    ensures
        copy.version == value.version,
        copy.value is Some <==> value.value is Some,
        value.value matches Some(v) ==> cloned::<V>(v, copy.value->0),
{
}

/// What holds of a copy of the data of an entry, cheap or not: it inserts where the data inserts
/// and removes where the data removes, with copies of the key and the value.
pub proof fn law_copied_data<K: Clone, V: Clone>(data: EntryData<K, V>, copy: EntryData<K, V>)
    requires
        data.copied_to(copy),
    ensures
        data is Insert <==> copy is Insert,
        data matches EntryData::Insert { key, value } ==> cloned::<K>(key, copy->Insert_key)
            && cloned::<V>(value, copy->Insert_value),
        data matches EntryData::Remove(key) ==> cloned::<K>(key, copy->Remove_0),
{
}

/// What holds of a copy of an entry value, cheap or not: it has the version, and a copy of the
/// value if and only if there is one.
pub proof fn law_copied_value<V: Clone>(value: EntryValue<V>, copy: EntryValue<V>)
    requires
        value.copied_to(copy),
    ensures
        copy.version == value.version,
        copy.value is Some <==> value.value is Some,
        value.value matches Some(v) ==> cloned::<V>(v, copy.value->0),
{
}

} // verus!
