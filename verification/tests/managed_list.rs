use blades_factions::district::District;
use blades_factions::managed_list::{ManagedList, Named};

#[test]
fn basic_managed_list() {
    let mut m_list = ManagedList::<District>::default();

    let item1 = District::new("Test1");
    let Some(item1_ref) = m_list.add(&item1) else {
        panic!("error on add item1");
    };
    assert_eq!(m_list.len(), 1);

    let item2 = District::new("Test2");
    let Some(_item2_ref) = m_list.add(&item2) else {
        panic!("error on add item2");
    };
    assert_eq!(m_list.len(), 2);

    let found1 = m_list.fetch(&item1_ref);
    assert!(found1.is_some(), "found item 1 is empty");
    assert_eq!(found1.unwrap().name(), "Test1");

    let Some(found2_ref) = m_list.find("Test2") else {
        panic!("unable to find item2 in list");
    };
    let found2 = m_list.fetch(&found2_ref);
    assert!(found2.is_some(), "found item 2 is empty");
    assert_eq!(found2.unwrap().name(), "Test2");

    let new_item1 = District::new("New1");
    let Some(old1) = m_list.replace(&item1_ref, new_item1) else {
        panic!("unable to replace item 1");
    };
    assert_eq!(old1.name(), "Test1");
    assert!(m_list.fetch(&item1_ref).is_some());
    assert_eq!(m_list.fetch(&item1_ref).unwrap().name(), "New1");
}

#[test]
fn remove_managed_list() {
    let mut m_list = ManagedList::<District>::default();

    let item1 = District::new("Test1");
    let Some(item1_ref) = m_list.add(&item1) else {
        panic!("error on add item1");
    };
    assert_eq!(m_list.len(), 1);

    let item2 = District::new("Test2");
    let Some(mut item2_ref) = m_list.add(&item2) else {
        panic!("error on add item2");
    };
    assert_eq!(m_list.len(), 2);

    let item3 = District::new("Test3");
    let Some(item3_ref) = m_list.add(&item3) else {
        panic!("error on add item3");
    };
    assert_eq!(m_list.len(), 3);

    let remove1 = m_list.remove(&mut item2_ref);
    assert!(remove1.is_some());
    assert_eq!(remove1.unwrap().name(), "Test2");
    assert_eq!(m_list.len(), 3);

    let remove2 = m_list.remove(&mut item2_ref);
    assert!(remove2.is_none());
    assert_eq!(m_list.len(), 3);

    let found1 = m_list.fetch(&item1_ref);
    assert!(found1.is_some(), "found item 1 is empty");
    assert_eq!(found1.unwrap().name(), "Test1");

    let found2 = m_list.fetch(&item2_ref);
    assert!(found2.is_none(), "found item 2 is not empty");

    let found3 = m_list.fetch(&item3_ref);
    assert!(found3.is_some(), "found item 3 is empty");
    assert_eq!(found3.unwrap().name(), "Test3");
}
