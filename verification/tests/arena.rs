use blades_factions::app_data::DataIndex;
use blades_factions::district::District;
use blades_factions::dots::Dots;
use blades_factions::managed_list::{ManagedList, Named};
use blades_factions::person::Person;

#[test]
fn empty_arena() {
    let list = ManagedList::<District>::default();
    assert_eq!(list.len(), 0);
    assert!(list.is_empty());
    assert!(list.find("Docks").is_none());
    assert!(list.names_sorted().is_empty());
    assert!(list.item_ref_list().is_empty());
}

#[test]
fn docks_scenario() {
    let mut list = ManagedList::<District>::default();
    let Some(mut h1) = list.add(&District::new("Docks")) else {
        panic!("first add failed");
    };
    assert_eq!(list.len(), 1);
    assert!(list.add(&District::new("Docks")).is_none());
    assert_eq!(list.len(), 1);
    let removed = list.remove(&mut h1);
    assert_eq!(removed.unwrap().name(), "Docks");
    assert!(list.fetch(&h1).is_none());
    assert_eq!(list.len(), 1);
    assert!(!list.is_empty());
}

#[test]
fn second_add_fails() {
    let mut list = ManagedList::<District>::default();
    let first = list.add(&District::new("Six Towers")).unwrap();
    let mut other = District::new("Six Towers");
    other.set_description("another text".to_string());
    assert!(list.add(&other).is_none());
    assert_eq!(list.len(), 1);
    let found = list.find("Six Towers").unwrap();
    assert!(found == first);
    assert_eq!(list.fetch(&found).unwrap().description(), "");
}

#[test]
fn remove_twice() {
    let mut list = ManagedList::<Person>::default();
    let mut h = list.add(&Person::new("Bazso Baz")).unwrap();
    assert!(h.has_index(&list));
    assert!(list.remove(&mut h).is_some());
    assert!(list.fetch(&h).is_none());
    assert!(!h.has_index(&list));
    assert!(list.remove(&mut h).is_none());
    assert_eq!(list.len(), 1);
}

#[test]
fn copies_die_together() {
    let mut list = ManagedList::<District>::default();
    let mut h = list.add(&District::new("Crow's Foot")).unwrap();
    let h2 = h.clone();
    let h3 = h;
    assert!(h2.has_index(&list));
    assert_eq!(h2.name(&list).as_deref(), Some("Crow's Foot"));
    list.remove(&mut h);
    assert!(!h2.has_index(&list));
    assert!(!h3.has_index(&list));
    assert!(list.fetch(&h2).is_none());
    assert!(h2.name(&list).is_none());
    assert!(h2.display_name(&list).is_none());
    assert_eq!(h2.data_index(&list), DataIndex::Nothing);
}

#[test]
fn removal_spares_other_handles() {
    let mut list = ManagedList::<District>::default();
    let a = list.add(&District::new("A")).unwrap();
    let mut b = list.add(&District::new("B")).unwrap();
    let c = list.add(&District::new("C")).unwrap();
    list.remove(&mut b);
    assert_eq!(a.data_index(&list), DataIndex::DistrictIndex(0));
    assert_eq!(c.data_index(&list), DataIndex::DistrictIndex(2));
    assert_eq!(list.fetch(&c).unwrap().name(), "C");
    assert_eq!(list.fetch_with_index(0).unwrap().name(), "A");
    assert!(list.fetch_with_index(1).is_none());
}

#[test]
fn replace_same_name_keeps_identity() {
    let mut list = ManagedList::<District>::default();
    let h = list.add(&District::new("Docks")).unwrap();
    let other = list.add(&District::new("Silkshore")).unwrap();
    let mut changed = District::new("Docks");
    changed.set_wealth(Dots::Three);
    changed.set_notes("busy".to_string());
    let old = list.replace(&h, changed).unwrap();
    assert!(old.wealth() == Dots::Zero);
    assert!(h.has_index(&list));
    assert_eq!(h.data_index(&list), DataIndex::DistrictIndex(0));
    let now = list.fetch(&h).unwrap();
    assert!(now.wealth() == Dots::Three);
    assert_eq!(now.notes(), "busy");
    assert_eq!(list.fetch(&other).unwrap().name(), "Silkshore");
    assert_eq!(list.len(), 2);
}

#[test]
fn replace_renames() {
    let mut list = ManagedList::<District>::default();
    let h = list.add(&District::new("Old")).unwrap();
    let old = list.replace(&h, District::new("New")).unwrap();
    assert_eq!(old.name(), "Old");
    assert!(list.find("Old").is_none());
    assert!(list.find("New").unwrap() == h);
    assert_eq!(h.name(&list).as_deref(), Some("New"));
    assert_eq!(h.display_name(&list).as_deref(), Some("New"));
    // the old name is free again
    let again = list.add(&District::new("Old")).unwrap();
    assert_eq!(again.data_index(&list), DataIndex::DistrictIndex(1));
}

#[test]
fn replace_collision_changes_nothing() {
    let mut list = ManagedList::<Person>::default();
    let mut first = Person::new("Lyssa");
    first.set_summary("leader".to_string());
    let h = list.add(&first).unwrap();
    let other = list.add(&Person::new("Roric")).unwrap();
    let mut colliding = Person::new("Roric");
    colliding.set_summary("ghost".to_string());
    assert!(list.replace(&h, colliding).is_none());
    assert_eq!(list.fetch(&h).unwrap().name(), "Lyssa");
    assert_eq!(list.fetch(&h).unwrap().summary(), "leader");
    assert_eq!(h.display_name(&list).as_deref(), Some("Lyssa (leader)"));
    assert_eq!(list.fetch(&other).unwrap().summary(), "");
    assert!(list.find("Roric").unwrap() == other);
    assert!(list.find("Lyssa").unwrap() == h);
}

#[test]
fn replace_dead_handle() {
    let mut list = ManagedList::<District>::default();
    let mut h = list.add(&District::new("Docks")).unwrap();
    list.remove(&mut h);
    assert!(list.replace(&h, District::new("Docks")).is_none());
    assert!(list.find("Docks").is_none());
}

#[test]
fn removed_name_is_free_again() {
    let mut list = ManagedList::<District>::default();
    let mut h = list.add(&District::new("Docks")).unwrap();
    list.remove(&mut h);
    assert!(list.find("Docks").is_none());
    let h2 = list.add(&District::new("Docks")).unwrap();
    assert!(h2 != h);
    assert_eq!(list.len(), 2);
    assert!(!h.has_index(&list));
    assert!(h2.has_index(&list));
}

#[test]
fn unknown_handle_is_dead() {
    let mut big = ManagedList::<District>::default();
    big.add(&District::new("A")).unwrap();
    let mut far = big.add(&District::new("B")).unwrap();
    let mut small = ManagedList::<District>::default();
    small.add(&District::new("C")).unwrap();
    assert!(!far.has_index(&small));
    assert!(small.fetch(&far).is_none());
    assert!(small.remove(&mut far).is_none());
    assert!(small.replace(&far, District::new("D")).is_none());
    assert_eq!(small.len(), 1);
}

#[test]
fn names_come_sorted() {
    let mut list = ManagedList::<District>::default();
    for name in ["Silkshore", "Docks", "Barrowcleft", "docks", "Dock", "Ébano", "Zz"] {
        list.add(&District::new(name)).unwrap();
    }
    let mut gone = list.find("Zz").unwrap();
    list.remove(&mut gone);
    assert_eq!(
        list.names_sorted(),
        vec!["Barrowcleft", "Dock", "Docks", "Silkshore", "docks", "Ébano"]
    );
    let items = list.item_ref_list();
    let names: Vec<&str> = items.iter().map(|(_, d)| d.name()).collect();
    assert_eq!(names, vec!["Barrowcleft", "Dock", "Docks", "Silkshore", "docks", "Ébano"]);
    for (h, d) in items.iter() {
        assert_eq!(h.name(&list).as_deref(), Some(d.name()));
    }
}

#[test]
fn find_is_exact() {
    let mut list = ManagedList::<District>::default();
    list.add(&District::new("Docks")).unwrap();
    list.add(&District::new("Dock")).unwrap();
    assert!(list.find("Docks").is_some());
    assert!(list.find("Dock").is_some());
    assert!(list.find("Doc").is_none());
    assert!(list.find("docks").is_none());
    assert!(list.find("Docks ").is_none());
    assert!(list.find("").is_none());
}

#[test]
fn sorting_toggles() {
    let mut list = ManagedList::<District>::default();
    assert_eq!(list.get_sorting().sort_field(), 0);
    assert!(!list.get_sorting().sort_reversed());
    list.set_sorting(0);
    assert_eq!(list.get_sorting().sort_field(), 0);
    assert!(list.get_sorting().sort_reversed());
    list.set_sorting(0);
    assert!(!list.get_sorting().sort_reversed());
    list.set_sorting(2);
    assert_eq!(list.get_sorting().sort_field(), 2);
    assert!(!list.get_sorting().sort_reversed());
    list.set_sorting(2);
    assert!(list.get_sorting().sort_reversed());
    list.set_sorting(1);
    assert_eq!(list.get_sorting().sort_field(), 1);
    assert!(!list.get_sorting().sort_reversed());
}

#[test]
fn person_display_name() {
    let mut list = ManagedList::<Person>::default();
    let mut p = Person::new("Nyryx");
    assert_eq!(p.display_name(), "Nyryx");
    p.set_summary("informant".to_string());
    assert_eq!(p.display_name(), "Nyryx (informant)");
    let h = list.add(&p).unwrap();
    assert_eq!(h.name(&list).as_deref(), Some("Nyryx"));
    assert_eq!(h.display_name(&list).as_deref(), Some("Nyryx (informant)"));
    assert_eq!(h.data_index(&list), DataIndex::PersonIndex(0));
}
