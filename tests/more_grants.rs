use light_clone::{LcList, LcMap, LcOrdMap, LcSet, LightClone};
use std::sync::Arc;

#[test]
fn uuid_light_clone_is_a_copy() {
    let id = uuid::Uuid::from_u128(0x1234_5678_9abc_def0_0fed_cba9_8765_4321);
    assert_eq!(id.light_clone(), id);
    assert_eq!(uuid::Uuid::nil().lc(), uuid::Uuid::nil());
}

#[test]
fn legacy_collection_aliases_share_structure() {
    let list: LcList<Arc<str>> = LcList::from(vec![Arc::from("a"), Arc::from("b")]);
    let copy = list.lc();
    assert_eq!(list, copy);
    assert!(Arc::ptr_eq(&list[0], &copy[0]));

    let mut map: LcMap<u8, u8> = LcMap::new();
    map.insert(1, 2);
    assert_eq!(map.lc().get(&1), Some(&2));

    let mut set: LcSet<u8> = LcSet::new();
    set.insert(9);
    assert!(set.lc().contains(&9));

    let mut ord: LcOrdMap<u8, &str> = LcOrdMap::new();
    ord.insert(2, "two");
    ord.insert(1, "one");
    let keys: Vec<u8> = ord.lc().keys().copied().collect();
    assert_eq!(keys, vec![1, 2]);
}

#[test]
fn system_time_type_id_and_phantom_pinned() {
    let t = std::time::SystemTime::UNIX_EPOCH;
    assert_eq!(t.light_clone(), t);
    let id = std::any::TypeId::of::<u8>();
    assert_eq!(id.light_clone(), id);
    let _pinned: std::marker::PhantomPinned = std::marker::PhantomPinned.light_clone();
}

#[test]
fn rc_light_clone_shares_the_allocation() {
    let rc = std::rc::Rc::new(vec![1u8; 1000]);
    let copy = rc.lc();
    assert!(std::rc::Rc::ptr_eq(&rc, &copy));
    assert_eq!(std::rc::Rc::strong_count(&rc), 2);
}
