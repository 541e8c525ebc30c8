use blades_factions::action::{Action, ActionNode};
use blades_factions::app::MainView;
use blades_factions::app_data::{AppData, DataIndex};
use blades_factions::district::District;
use blades_factions::faction::Faction;
use blades_factions::managed_list::Named;
use blades_factions::person::Person;
use blades_factions::tier::Tier;
use blades_factions::todo::TodoUndo;
use std::path::PathBuf;

fn district_names(data: &AppData) -> Vec<String> {
    data.districts_names()
}

fn district_records(data: &AppData) -> Vec<(String, String)> {
    data.district_list()
        .item_ref_list()
        .iter()
        .map(|(_, d)| (d.name().to_string(), d.description().to_string()))
        .collect()
}

#[test]
fn duplicate_adds_leave_one_inverse() {
    let mut data = AppData::default();
    let mut node = ActionNode::new();
    node.push_back(Action::DistrictAdd(District::new("A")));
    node.push_back(Action::DistrictAdd(District::new("A")));
    let undo = data.do_action(&node);
    assert_eq!(undo.len(), 1);
    assert!(matches!(undo[0], Action::DistrictRemove(_)));
    assert_eq!(data.district_list().len(), 1);
    assert_eq!(district_names(&data), vec!["A"]);
}

#[test]
fn empty_node_does_nothing() {
    let mut data = AppData::default();
    let undo = data.do_action(&ActionNode::new());
    assert!(undo.is_empty());
    assert!(data.is_empty());
}

#[test]
fn inverses_come_in_order() {
    let mut data = AppData::default();
    let mut first = ActionNode::new();
    first.push_back(Action::DistrictAdd(District::new("Docks")));
    first.push_back(Action::PersonAdd(Person::new("Lyssa")));
    data.do_action(&first);
    let docks = data.find_district("Docks").unwrap();
    let lyssa = data.find_person("Lyssa").unwrap();

    let mut renamed = District::new("Harbour");
    renamed.set_description("was Docks".to_string());
    let mut node = ActionNode::new();
    node.push_back(Action::FactionAdd(Faction::new("Crows")));
    node.push_back(Action::DistrictReplace(docks, renamed));
    node.push_back(Action::PersonAdd(Person::new("Lyssa")));
    node.push_back(Action::PersonRemove(lyssa));
    node.push_back(Action::PersonRemove(lyssa));
    let undo = data.do_action(&node);
    assert_eq!(undo.len(), 3);
    match &undo[0] {
        Action::FactionRemove(h) => assert!(*h == data.find_faction("Crows").unwrap()),
        _ => panic!("first inverse is not the removal of the faction"),
    }
    match &undo[1] {
        Action::DistrictReplace(h, old) => {
            assert!(*h == docks);
            assert_eq!(old.name(), "Docks");
            assert_eq!(old.description(), "");
        }
        _ => panic!("second inverse is not the replacement of the district"),
    }
    match &undo[2] {
        Action::PersonAdd(p) => assert_eq!(p.name(), "Lyssa"),
        _ => panic!("third inverse is not the addition of the person"),
    }
    assert_eq!(district_names(&data), vec!["Harbour"]);
    assert!(data.find_person("Lyssa").is_none());
    assert_eq!(data.view_size(MainView::Persons), 1);
    assert_eq!(data.view_size(MainView::Districts), 1);
    assert_eq!(data.view_size(MainView::Factions), 1);
}

#[test]
fn undo_of_an_add() {
    let mut data = AppData::default();
    data.do_action(&ActionNode::from(Action::DistrictAdd(District::new("Keep"))));
    let before = district_records(&data);
    let undo = data.do_action(&ActionNode::from(Action::DistrictAdd(District::new("Docks"))));
    assert_eq!(district_names(&data), vec!["Docks", "Keep"]);
    let redo = data.do_action(&undo);
    assert_eq!(district_records(&data), before);
    assert_eq!(data.district_list().len(), 2);
    assert_eq!(redo.len(), 1);
    assert!(matches!(redo[0], Action::DistrictAdd(_)));
}

#[test]
fn undo_of_a_remove() {
    let mut data = AppData::default();
    let mut docks = District::new("Docks");
    docks.set_description("wet".to_string());
    data.do_action(&ActionNode::from(Action::DistrictAdd(docks)));
    let h = data.find_district("Docks").unwrap();
    let before = district_records(&data);
    let undo = data.do_action(&ActionNode::from(Action::DistrictRemove(h)));
    assert!(district_records(&data).is_empty());
    data.do_action(&undo);
    assert_eq!(district_records(&data), before);
    // the record came back in a new slot; the old handle stays dead
    assert!(!h.has_index(data.district_list()));
    assert_eq!(data.find_district("Docks").unwrap().data_index(data.district_list()), DataIndex::DistrictIndex(1));
}

#[test]
fn undo_of_a_replace() {
    let mut data = AppData::default();
    let mut docks = District::new("Docks");
    docks.set_description("wet".to_string());
    data.do_action(&ActionNode::from(Action::DistrictAdd(docks)));
    let h = data.find_district("Docks").unwrap();
    let before = district_records(&data);
    let mut other = District::new("Harbour");
    other.set_description("dry".to_string());
    let undo = data.do_action(&ActionNode::from(Action::DistrictReplace(h, other)));
    assert_eq!(district_records(&data), vec![("Harbour".to_string(), "dry".to_string())]);
    data.do_action(&undo);
    assert_eq!(district_records(&data), before);
    assert!(data.find_district("Docks").unwrap() == h);
}

#[test]
fn undo_of_a_batch_of_adds() {
    let mut data = AppData::default();
    data.do_action(&ActionNode::from(Action::DistrictAdd(District::new("B"))));
    let before = district_records(&data);
    let mut node = ActionNode::new();
    for name in ["A", "B", "C", "A", "D"] {
        node.push_back(Action::DistrictAdd(District::new(name)));
    }
    node.push_back(Action::PersonAdd(Person::new("P")));
    let undo = data.do_action(&node);
    assert_eq!(undo.len(), 4);
    assert_eq!(district_names(&data), vec!["A", "B", "C", "D"]);
    data.do_action(&undo);
    assert_eq!(district_records(&data), before);
    assert!(data.persons_names().is_empty());
    assert_eq!(data.district_list().len(), 4);
}

#[test]
fn undo_in_the_same_order_can_miss() {
    // A removal followed by an addition under the same name: the inverse adds
    // first, which is refused, and then removes the new record.
    let mut data = AppData::default();
    data.do_action(&ActionNode::from(Action::DistrictAdd(District::new("X"))));
    let h = data.find_district("X").unwrap();
    let mut node = ActionNode::new();
    node.push_back(Action::DistrictRemove(h));
    node.push_back(Action::DistrictAdd(District::new("X")));
    let undo = data.do_action(&node);
    assert_eq!(undo.len(), 2);
    let rest = data.do_action(&undo);
    assert_eq!(rest.len(), 1);
    assert!(district_names(&data).is_empty());
}

#[test]
fn removed_district_breaks_the_link() {
    let mut data = AppData::default();
    data.do_action(&ActionNode::from(Action::DistrictAdd(District::new("Crow's Foot"))));
    let d = data.find_district("Crow's Foot").unwrap();
    let mut crows = Faction::new("Crows");
    crows.set_hq(Some(d));
    crows.set_turf(vec![d]);
    crows.set_tier(Tier::Tier2);
    data.do_action(&ActionNode::from(Action::FactionAdd(crows)));
    let f = data.find_faction("Crows").unwrap();

    let hq = data.clone_faction(&f).unwrap().hq().unwrap();
    assert_eq!(data.district_list().fetch(&hq).unwrap().name(), "Crow's Foot");
    assert_eq!(hq.name(data.district_list()).as_deref(), Some("Crow's Foot"));

    data.do_action(&ActionNode::from(Action::DistrictRemove(d)));

    let faction = data.clone_faction(&f).unwrap();
    let hq = faction.hq().unwrap();
    assert!(data.district_list().fetch(&hq).is_none());
    assert!(hq.name(data.district_list()).is_none());
    assert!(!hq.has_index(data.district_list()));
    assert_eq!(faction.name(), "Crows");
    assert!(faction.tier() == Tier::Tier2);
    assert_eq!(faction.turf().len(), 1);
    assert!(f.has_index(data.faction_list()));
}

#[test]
fn find_and_clone() {
    let mut data = AppData::default();
    let mut node = ActionNode::new();
    node.push_back(Action::DistrictAdd(District::new("Docks")));
    node.push_back(Action::PersonAdd(Person::new("Lyssa")));
    node.push_back(Action::FactionAdd(Faction::new("Crows")));
    data.do_action(&node);
    assert!(!data.is_empty());
    let d = data.find_district("Docks").unwrap();
    let p = data.find_person("Lyssa").unwrap();
    let f = data.find_faction("Crows").unwrap();
    assert_eq!(data.clone_district(&d).unwrap().name(), "Docks");
    assert_eq!(data.clone_person(&p).unwrap().name(), "Lyssa");
    assert_eq!(data.clone_faction(&f).unwrap().name(), "Crows");
    assert!(data.find_district("Lyssa").is_none());
    assert!(data.find_person("Crows").is_none());
    assert!(data.find_faction("Docks").is_none());
    assert_eq!(data.persons_names(), vec!["Lyssa"]);
    assert_eq!(data.factions_names(), vec!["Crows"]);

    assert!(data.data_index_valid(DataIndex::DistrictIndex(0)));
    assert!(data.data_index_valid(DataIndex::PersonIndex(0)));
    assert!(data.data_index_valid(DataIndex::FactionIndex(0)));
    assert!(!data.data_index_valid(DataIndex::Nothing));
    data.do_action(&ActionNode::from(Action::PersonRemove(p)));
    assert!(!data.data_index_valid(DataIndex::PersonIndex(0)));
    assert!(data.clone_person(&p).is_none());
}

#[test]
fn sort_columns_are_kept_apart() {
    let mut data = AppData::default();
    data.set_factions_sort(2);
    data.set_factions_sort(2);
    data.set_persons_sort(0);
    assert_eq!(data.faction_list().get_sorting().sort_field(), 2);
    assert!(data.faction_list().get_sorting().sort_reversed());
    assert_eq!(data.person_list().get_sorting().sort_field(), 0);
    assert!(data.person_list().get_sorting().sort_reversed());
    assert_eq!(data.district_list().get_sorting().sort_field(), 0);
    assert!(!data.district_list().get_sorting().sort_reversed());
    data.set_districts_sort(3);
    assert_eq!(data.district_list().get_sorting().sort_field(), 3);
}

#[test]
fn loaded_from_is_kept() {
    let mut data = AppData::default();
    assert!(data.get_loaded_from().is_none());
    data.set_loaded_from(Some(PathBuf::from("/tmp/some dir/campaign.bfsav")));
    assert_eq!(data.get_loaded_from(), Some(PathBuf::from("/tmp/some dir/campaign.bfsav")));
    data.do_action(&ActionNode::from(Action::DistrictAdd(District::new("Docks"))));
    assert_eq!(data.get_loaded_from(), Some(PathBuf::from("/tmp/some dir/campaign.bfsav")));
    data.set_loaded_from(None);
    assert!(data.get_loaded_from().is_none());
}

#[test]
fn node_from_one_action() {
    let node = ActionNode::from(Action::PersonAdd(Person::new("Solo")));
    assert_eq!(node.len(), 1);
    match &node[0] {
        Action::PersonAdd(p) => assert_eq!(p.name(), "Solo"),
        _ => panic!("not the action given"),
    }
    let copy = node[0].clone();
    assert!(matches!(copy, Action::PersonAdd(_)));
}

#[test]
fn todo_queue() {
    let mut queue = TodoUndo::default();
    assert!(queue.todo().is_none());
    queue.add_todo(ActionNode::from(Action::DistrictAdd(District::new("First"))));
    queue.add_todo(ActionNode::from(Action::DistrictAdd(District::new("Second"))));
    let taken = queue.todo().unwrap();
    match &taken[0] {
        Action::DistrictAdd(d) => assert_eq!(d.name(), "Second"),
        _ => panic!("not the pending action"),
    }
    assert!(queue.todo().is_none());
    queue.add_todo(taken);
    queue.clear_todo();
    assert!(queue.todo().is_none());
    queue.add_undo(ActionNode::new());
    queue.add_done(ActionNode::new());
    queue.clear_done();
    queue.clear_undo();
}

#[test]
fn running_the_todo() {
    let mut data = AppData::default();
    let mut queue = TodoUndo::default();
    queue.run_todo(&mut data);
    assert!(data.is_empty());
    queue.add_todo(ActionNode::from(Action::DistrictAdd(District::new("Docks"))));
    queue.run_todo(&mut data);
    assert_eq!(district_names(&data), vec!["Docks"]);
    assert!(queue.todo().is_none());
    queue.run_todo(&mut data);
    assert_eq!(data.district_list().len(), 1);
}

#[test]
fn undo_of_commands_that_keep_apart() {
    let mut data = AppData::default();
    let mut first = ActionNode::new();
    for name in ["A", "B", "C"] {
        let mut d = District::new(name);
        d.set_description(format!("about {name}"));
        first.push_back(Action::DistrictAdd(d));
    }
    first.push_back(Action::PersonAdd(Person::new("P")));
    data.do_action(&first);
    let before = district_records(&data);
    let a = data.find_district("A").unwrap();
    let b = data.find_district("B").unwrap();

    let mut renamed = District::new("B2");
    renamed.set_description("renamed".to_string());
    let mut node = ActionNode::new();
    node.push_back(Action::DistrictRemove(a));
    node.push_back(Action::DistrictReplace(b, renamed));
    node.push_back(Action::DistrictAdd(District::new("D")));
    node.push_back(Action::PersonAdd(Person::new("Q")));
    node.push_back(Action::DistrictAdd(District::new("C")));
    let undo = data.do_action(&node);
    assert_eq!(undo.len(), 4);
    assert_eq!(district_names(&data), vec!["B2", "C", "D"]);

    let rest = data.do_action(&undo);
    assert_eq!(rest.len(), 4);
    assert_eq!(district_records(&data), before);
    assert_eq!(data.persons_names(), vec!["P"]);
    assert!(data.find_district("B").unwrap() == b);
    assert!(!a.has_index(data.district_list()));
}
