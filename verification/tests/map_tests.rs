use map_trait::map::GenericMap;
use map_trait::map::LastInsertMap;
use map_trait::map::btree_map_get_boxed;
use map_trait::map::hash_map_get_boxed;
use std::collections::BTreeMap;
use std::collections::HashMap;
use std::fmt::Debug;

fn assert_map_get<K, V, M>(map: &M, k: K, v: V)
where
    M: GenericMap<K, V>,
    V: Clone + Eq + Debug,
{
    assert_eq!(map.get(&k).unwrap().clone(), v);
}

fn assert_map_insert<K, V, M>(map: &mut M, k: K, v: V, o: Option<V>)
where
    M: GenericMap<K, V>,
    V: Eq + Debug,
{
    assert_eq!(map.insert(k, v), o);
}

#[test]
fn map_test_hash_map() {
    let mut map: HashMap<i32, i32> = HashMap::new();

    assert_map_insert(&mut map, 1, 2, None);
    assert_map_get(&map, 1, 2);
}

#[test]
fn map_test_btree_map() {
    let mut map: BTreeMap<i32, i32> = BTreeMap::new();

    assert_map_insert(&mut map, 1, 2, None);
    assert_map_get(&map, 1, 2);
}

#[test]
fn hash_map_replacing_insert_returns_prior_value() {
    let mut map: HashMap<u64, u64> = HashMap::new();

    assert_map_insert(&mut map, 1, 2, None);
    assert_map_get(&map, 1, 2);
    assert_map_insert(&mut map, 1, 3, Some(2));
    assert_map_get(&map, 1, 3);
}

#[test]
fn btree_map_replacing_insert_returns_prior_value() {
    let mut map: BTreeMap<u64, u64> = BTreeMap::new();

    assert_map_insert(&mut map, 1, 2, None);
    assert_map_get(&map, 1, 2);
    assert_map_insert(&mut map, 1, 3, Some(2));
    assert_map_get(&map, 1, 3);
}

#[test]
fn map_get_missing_key_returns_none() {
    let mut map: HashMap<u64, u64> = HashMap::new();
    assert_eq!(map.get(&9), None);
    assert_map_insert(&mut map, 1, 2, None);
    assert_eq!(map.get(&9), None);
}

#[test]
fn last_insert_map_tracks_latest_entry() {
    let inner: HashMap<u64, u64> = HashMap::new();
    let mut map = LastInsertMap::new(inner, 0, 1);
    assert_eq!(map.get_last_insert(), (&0, &1));
    assert_eq!(map.get(&0), Some(&1));
    assert_eq!(map.insert(1, 2), None);
    assert_eq!(map.get(&1), Some(&2));
    assert_eq!(map.get_last_insert(), (&1, &2));
}

#[test]
fn last_insert_map_nests_over_btree() {
    let inner: BTreeMap<u64, u64> = BTreeMap::new();
    let seeded = LastInsertMap::new(inner, 3, 30);
    let mut map = LastInsertMap::new(seeded, 4, 40);
    assert_eq!(map.get_last_insert(), (&4, &40));
    assert_eq!(map.get(&3), Some(&30));
    assert_eq!(map.insert(3, 33), Some(30));
    assert_eq!(map.get_last_insert(), (&3, &33));
    assert_eq!(map.get(&3), Some(&33));
}

#[test]
fn hash_map_boxed_query_agrees_with_owned_key() {
    let mut map: HashMap<Box<u32>, u64> = HashMap::new();
    assert_eq!(map.insert(Box::new(5), 7), None);
    assert_eq!(hash_map_get_boxed(&map, &5), Some(&7));
    assert_eq!(map.get(&Box::new(5)), Some(&7));
    assert_eq!(hash_map_get_boxed(&map, &6), None);
    assert_eq!(map.get(&Box::new(6)), None);
}

#[test]
fn btree_map_boxed_query_agrees_with_owned_key() {
    let mut map: BTreeMap<Box<u32>, u64> = BTreeMap::new();
    assert_eq!(map.insert(Box::new(5), 7), None);
    assert_eq!(btree_map_get_boxed(&map, &5), Some(&7));
    assert_eq!(map.get(&Box::new(5)), Some(&7));
    assert_eq!(btree_map_get_boxed(&map, &6), None);
    assert_eq!(map.get(&Box::new(6)), None);
}
