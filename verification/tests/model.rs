use einkaufsliste::model::acl::AccessControlList;
use einkaufsliste::model::item::{Item, Unit};
use einkaufsliste::model::list::{FlatItemsList, List};
use einkaufsliste::model::session::{seconds_as_time, Session};
use einkaufsliste::model::user::{ObjectList, UsersObjectLists};
use einkaufsliste::model::HasTypeDenominator;
use std::collections::HashMap;

fn item(id: u64, name: &str, checked: bool) -> Item {
    Item {
        id,
        checked,
        name: name.to_string(),
        amount: None,
        unit: None,
        article_id: None,
        alternative_article_ids: None,
    }
}

fn list(id: u64, items: Vec<u64>) -> List {
    List { id, name: format!("list {id}"), shop: Some(3), image_id: None, items }
}

#[test]
fn unit_equality_compares_free_form_text() {
    assert!(Unit::Gram == Unit::Gram);
    assert!(Unit::Gram != Unit::KiloGram);
    assert!(Unit::FreeForm("cup".into()) == Unit::FreeForm("cup".into()));
    assert!(Unit::FreeForm("cup".into()) != Unit::FreeForm("can".into()));
    assert!(Unit::Pieces != Unit::FreeForm("Pieces".into()));
}

#[test]
fn item_equality_ignores_the_name() {
    let a = item(1, "milk", false);
    let b = item(1, "oat milk", false);
    assert!(a == b);
    let mut c = item(1, "milk", false);
    c.checked = true;
    assert!(a != c);
    let mut d = item(1, "milk", false);
    d.unit = Some(Unit::Gram);
    assert!(a != d);
    let mut e = item(1, "milk", false);
    e.alternative_article_ids = Some(vec![1, 2]);
    let mut f = item(1, "milk", false);
    f.alternative_article_ids = Some(vec![1, 3]);
    assert!(e != f);
    f.alternative_article_ids = Some(vec![1, 2]);
    assert!(e == f);
}

#[test]
fn named_item_is_fresh() {
    let i = Item::named("bread".to_string());
    assert_eq!(i.id, 0);
    assert!(!i.checked);
    assert_eq!(i.name, "bread");
    assert!(i.amount.is_none() && i.unit.is_none() && i.article_id.is_none());
}

#[test]
fn flat_list_roundtrip_keeps_metadata_and_item_ids() {
    let flat = FlatItemsList::from_list_and_items(list(7, vec![99]), vec![item(4, "a", false), item(5, "b", true)]);
    assert_eq!(flat.id, 7);
    assert_eq!(flat.shop, Some(3));
    assert_eq!(flat.items.len(), 2);
    let meta = List::from_flat(&flat);
    assert_eq!(meta.items, vec![4, 5]);
    assert_eq!(meta.name, "list 7");
    let (l, items) = flat.into_list_and_items();
    assert_eq!(l.items, vec![4, 5]);
    assert_eq!(items.len(), 2);
    assert_eq!(items[1].name, "b");
}

#[test]
fn flat_list_from_lookups_skips_missing_items() {
    let found = vec![Some(item(1, "a", false)), None, Some(item(3, "c", false)), None];
    let flat = FlatItemsList::from_lookups(list(2, vec![1, 2, 3, 4]), found);
    let ids: Vec<u64> = flat.items.iter().map(|i| i.id).collect();
    assert_eq!(ids, vec![1, 3]);
    assert_eq!(flat.id, 2);
    let empty = FlatItemsList::from_lookups(list(2, vec![]), vec![]);
    assert!(empty.items.is_empty());
}

#[test]
fn attach_item_appends() {
    let mut l = list(1, vec![5]);
    l.attach_item(9);
    assert_eq!(l.items, vec![5, 9]);
    let e = List::empty();
    assert_eq!(e.id, 0);
    assert!(e.name.is_empty() && e.items.is_empty());
}

#[test]
fn list_denominator_is_zero() {
    assert_eq!(List::denominator(), 0);
}

#[test]
fn object_lists_record_and_find() {
    let mut uol = UsersObjectLists::default();
    assert!(uol.find_list(0).list.is_empty());
    assert_eq!(uol.find_list(4).typ, 4);
    uol.add_object(0, 10);
    uol.add_object(1, 20);
    uol.add_object(0, 11);
    assert_eq!(uol.lists.len(), 2);
    assert_eq!(uol.find_list(0).list, vec![10, 11]);
    assert_eq!(uol.find_list(1).list, vec![20]);
    assert!(uol.find_list(2).list.is_empty());
    let fresh = ObjectList::new(3);
    assert_eq!(fresh.typ, 3);
    assert!(fresh.list.is_empty());
}

#[test]
fn object_lists_use_the_first_list_of_a_type() {
    let mut uol = UsersObjectLists {
        lists: vec![ObjectList { typ: 0, list: vec![1] }, ObjectList { typ: 0, list: vec![2] }],
    };
    assert_eq!(uol.find_list(0).list, vec![1]);
    uol.add_object(0, 3);
    assert_eq!(uol.lists[0].list, vec![1, 3]);
    assert_eq!(uol.lists[1].list, vec![2]);
}

#[test]
fn acl_grants_owner_and_allowed_users() {
    let acl = AccessControlList::new(5, 1);
    assert_eq!(acl.object_id, 5);
    assert!(acl.grants(1));
    assert!(!acl.grants(2));
    let shared = AccessControlList { object_id: 5, owner: 1, allowed_user_ids: vec![3, 4] };
    assert!(shared.grants(4));
    assert!(!shared.grants(2));
}

#[test]
fn session_validity_and_refresh() {
    let mut s = Session { time_to_logout: 100, state: HashMap::new() };
    assert!(s.is_valid_at(99));
    assert!(!s.is_valid_at(100));
    s.refresh_at(1000, 60);
    assert_eq!(s.time_to_logout, 1060);
    s.refresh_at(i64::MAX, 1);
    assert_eq!(s.time_to_logout, i64::MIN);
    let e = Session::expiring(HashMap::new(), 10, 5);
    assert_eq!(e.time_to_logout, 15);
}

#[test]
fn session_clock_reads_the_current_time() {
    let now = Session::get_current_time().unwrap();
    assert!(now > 1_600_000_000);
    let mut s = Session { time_to_logout: 0, state: HashMap::new() };
    assert_eq!(s.is_valid(), Some(false));
    assert!(s.refresh(3600));
    assert_eq!(s.is_valid(), Some(true));
    assert!(s.time_to_logout >= now + 3600);
}

#[test]
fn duplicate_copies_every_field() {
    let mut original = item(4, "flour", true);
    original.amount = Some(2);
    original.unit = Some(Unit::FreeForm("bags".into()));
    original.alternative_article_ids = Some(vec![8, 9]);
    let copy = original.duplicate();
    assert_eq!(copy.id, 4);
    assert_eq!(copy.name, "flour");
    assert!(copy.checked);
    assert_eq!(copy.amount, Some(2));
    assert!(copy.unit == Some(Unit::FreeForm("bags".into())));
    assert_eq!(copy.alternative_article_ids, Some(vec![8, 9]));
    assert!(Unit::Gram.duplicate() == Unit::Gram);
}

#[test]
fn clock_readings_become_times() {
    assert_eq!(seconds_as_time(Some(1_700_000_000)), Some(1_700_000_000));
    assert_eq!(seconds_as_time(Some(0)), Some(0));
    assert_eq!(seconds_as_time(Some(u64::MAX)), Some(-1));
    assert_eq!(seconds_as_time(None), None);
}
