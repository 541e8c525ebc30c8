use blades_factions::action::{Action, ActionNode};
use blades_factions::app_data::AppData;
use blades_factions::clock::Clock;
use blades_factions::district::{District, DistrictStore};
use blades_factions::dots::Dots;
use blades_factions::faction::{Faction, FactionStore};
use blades_factions::managed_list::Named;
use blades_factions::person::{Person, PersonStore1, PersonStore2};
use blades_factions::save_data::{SaveData1, SaveData2, SAVE_SCHEMA};
use blades_factions::save_file::{
    frame_save, frame_settings, read_save_header, save_layout, unframe_settings, SaveError,
    SaveLayout,
};
use blades_factions::string_list::StringList;
use blades_factions::tier::Tier;

fn strings(items: &[&str]) -> Vec<String> {
    items.iter().map(|s| s.to_string()).collect()
}

fn district_store(name: &str, notable: &[&str]) -> DistrictStore {
    DistrictStore::from_parts(
        name.to_string(),
        format!("about {name}"),
        Dots::Two,
        Dots::One,
        Dots::Three,
        Dots::Zero,
        strings(notable),
        String::new(),
    )
}

fn person_store(name: &str, found_in: Option<&str>) -> PersonStore2 {
    PersonStore2::from_parts(
        name.to_string(),
        "sum".to_string(),
        found_in.map(|s| s.to_string()),
        String::new(),
        strings(&["bold"]),
        "notes".to_string(),
    )
}

fn faction_store(
    name: &str,
    hq: Option<&str>,
    turf: &[&str],
    leader: Option<&str>,
    notable: &[&str],
    allies: &[&str],
    enemies: &[&str],
) -> FactionStore {
    FactionStore::from_parts(
        name.to_string(),
        String::new(),
        Tier::Tier3,
        hq.map(|s| s.to_string()),
        strings(turf),
        leader.map(|s| s.to_string()),
        strings(notable),
        "assets".to_string(),
        String::new(),
        strings(allies),
        strings(enemies),
        "general".to_string(),
        vec![Clock::new_clock_6("war", "with the crows")],
    )
}

fn sample() -> SaveData2 {
    SaveData2::from_parts(
        SAVE_SCHEMA.to_string(),
        2,
        vec![person_store("Lyssa", Some("Crow's Foot")), person_store("Roric", Some("Nowhere"))],
        vec![
            district_store("Crow's Foot", &["Lyssa", "Nobody"]),
            district_store("Docks", &[]),
            district_store("Silkshore", &["Nobody"]),
        ],
        vec![
            faction_store(
                "Crows",
                Some("Crow's Foot"),
                &["Crow's Foot", "Lost", "Docks"],
                Some("Lyssa"),
                &["Roric", "Ghost"],
                &["Lampblacks"],
                &["Red Sashes", "Crows"],
            ),
            faction_store("Lampblacks", None, &[], None, &[], &[], &[]),
            faction_store("Red Sashes", Some("Lost"), &[], Some("Ghost"), &[], &["Unknown"], &[]),
        ],
    )
}

#[test]
fn frame_of_a_save_file() {
    assert_eq!(frame_save(2, vec![9, 8, 7]), vec![0x2b, 0x4a, 2, 0, 9, 8, 7]);
    assert_eq!(frame_save(0x0102, vec![]), vec![0x2b, 0x4a, 0x02, 0x01]);
    assert_eq!(frame_save(0xfffe, vec![1]), vec![0x2b, 0x4a, 0xfe, 0xff, 1]);
    assert_eq!(frame_settings(vec![5, 6]), vec![0x2b, 0x4a, 5, 6]);
    assert_eq!(frame_settings(vec![]), vec![0x2b, 0x4a]);
}

#[test]
fn header_of_a_save_file() {
    assert!(read_save_header(&vec![0x2b, 0x4a, 2, 0, 9, 8, 7]) == Ok((2, 4)));
    assert!(read_save_header(&vec![0x2b, 0x4a, 0x34, 0x12]) == Ok((0x1234, 4)));
    assert!(read_save_header(&frame_save(0xfffe, vec![1, 2])) == Ok((0xfffe, 4)));
    assert!(read_save_header(&vec![]) == Err(SaveError::TooShort));
    assert!(read_save_header(&vec![0x2b, 0x4a, 2]) == Err(SaveError::TooShort));
    assert!(read_save_header(&vec![0x2b, 0x4b, 2, 0]) == Err(SaveError::WrongFileId));
    assert!(read_save_header(&vec![0x4a, 0x2b, 2, 0, 1]) == Err(SaveError::WrongFileId));
    assert!(unframe_settings(&vec![0x2b, 0x4a, 1, 2]) == Ok(2));
    assert!(unframe_settings(&vec![0x2b, 0x4a]) == Ok(2));
    assert!(unframe_settings(&vec![0x2b]) == Err(SaveError::TooShort));
    assert!(unframe_settings(&vec![0x2a, 0x4a, 0]) == Err(SaveError::WrongFileId));
}

#[test]
fn layouts_by_version() {
    assert!(save_layout(2) == Ok(SaveLayout::Version2));
    assert!(save_layout(1) == Ok(SaveLayout::Version1));
    assert!(save_layout(0) == Err(SaveError::UnknownVersion(0)));
    assert!(save_layout(3) == Err(SaveError::UnknownVersion(3)));
}

#[test]
fn validation() {
    assert!(sample().validate());
    let wrong_version =
        SaveData2::from_parts(SAVE_SCHEMA.to_string(), 1, Vec::new(), Vec::new(), Vec::new());
    assert!(!wrong_version.validate());
    let wrong_schema =
        SaveData2::from_parts("Other".to_string(), 2, Vec::new(), Vec::new(), Vec::new());
    assert!(!wrong_schema.validate());
    let first = SaveData1::from_parts(SAVE_SCHEMA.to_string(), 1, Vec::new(), Vec::new(), Vec::new());
    assert!(first.validate());
    let not_first =
        SaveData1::from_parts(SAVE_SCHEMA.to_string(), 2, Vec::new(), Vec::new(), Vec::new());
    assert!(!not_first.validate());
}

#[test]
fn loading_links_by_name() {
    let data = AppData::from(sample());
    assert!(data.get_loaded_from().is_none());
    assert_eq!(data.districts_names(), vec!["Crow's Foot", "Docks", "Silkshore"]);
    assert_eq!(data.persons_names(), vec!["Lyssa", "Roric"]);
    assert_eq!(data.factions_names(), vec!["Crows", "Lampblacks", "Red Sashes"]);

    let districts = data.district_list();
    let persons = data.person_list();
    let factions = data.faction_list();

    let lyssa = data.clone_person(&data.find_person("Lyssa").unwrap()).unwrap();
    assert_eq!(lyssa.summary(), "sum");
    assert_eq!(lyssa.notes(), "notes");
    assert_eq!(lyssa.personality().list(), &strings(&["bold"]));
    assert_eq!(lyssa.found_in().unwrap().name(districts).as_deref(), Some("Crow's Foot"));
    let roric = data.clone_person(&data.find_person("Roric").unwrap()).unwrap();
    assert!(roric.found_in().is_none());

    let foot = data.clone_district(&data.find_district("Crow's Foot").unwrap()).unwrap();
    assert_eq!(foot.description(), "about Crow's Foot");
    assert!(foot.wealth() == Dots::Zero);
    assert!(foot.crime() == Dots::Zero);
    assert_eq!(foot.notable().len(), 1);
    assert_eq!(foot.notable()[0].name(persons).as_deref(), Some("Lyssa"));
    let silk = data.clone_district(&data.find_district("Silkshore").unwrap()).unwrap();
    assert!(silk.notable().is_empty());

    let crows = data.clone_faction(&data.find_faction("Crows").unwrap()).unwrap();
    assert!(crows.tier() == Tier::Tier3);
    assert_eq!(crows.assets(), "assets");
    assert_eq!(crows.general(), "general");
    assert_eq!(crows.clocks().len(), 1);
    assert_eq!(crows.clocks()[0].status(), (0, 6));
    assert_eq!(crows.hq().unwrap().name(districts).as_deref(), Some("Crow's Foot"));
    let turf: Vec<_> = crows.turf().iter().map(|d| d.name(districts).unwrap()).collect();
    assert_eq!(turf, vec!["Crow's Foot", "Docks"]);
    assert_eq!(crows.leader().unwrap().name(persons).as_deref(), Some("Lyssa"));
    let notable: Vec<_> = crows.notable().iter().map(|p| p.name(persons).unwrap()).collect();
    assert_eq!(notable, vec!["Roric"]);
    let allies: Vec<_> = crows.allies().iter().map(|f| f.name(factions).unwrap()).collect();
    assert_eq!(allies, vec!["Lampblacks"]);
    let enemies: Vec<_> = crows.enemies().iter().map(|f| f.name(factions).unwrap()).collect();
    assert_eq!(enemies, vec!["Red Sashes", "Crows"]);

    let sashes = data.clone_faction(&data.find_faction("Red Sashes").unwrap()).unwrap();
    assert!(sashes.hq().is_none());
    assert!(sashes.leader().is_none());
    assert!(sashes.allies().is_empty());
    assert!(sashes.enemies().is_empty());
}

#[test]
fn loading_beside_what_is_there() {
    let mut data = AppData::default();
    let mut docks = District::new("Docks");
    docks.set_notes("mine".to_string());
    data.do_action(&ActionNode::from(Action::DistrictAdd(docks)));
    data.do_action(&ActionNode::from(Action::PersonAdd(Person::new("Lyssa"))));
    data.set_districts_sort(0);
    data.load_data(SaveData2::from_parts(
        SAVE_SCHEMA.to_string(),
        2,
        vec![person_store("Roric", Some("Docks"))],
        vec![district_store("Docks", &["Roric", "Lyssa"]), district_store("Docks", &[])],
        Vec::new(),
    ));
    assert_eq!(data.districts_names(), vec!["Docks"]);
    assert_eq!(data.district_list().len(), 1);
    assert!(data.district_list().get_sorting().sort_reversed());
    let docks = data.clone_district(&data.find_district("Docks").unwrap()).unwrap();
    // the district that was there stays, and is linked to the persons named
    assert_eq!(docks.notes(), "mine");
    assert_eq!(docks.description(), "");
    let notable: Vec<_> =
        docks.notable().iter().map(|p| p.name(data.person_list()).unwrap()).collect();
    assert_eq!(notable, vec!["Roric", "Lyssa"]);
    let roric = data.clone_person(&data.find_person("Roric").unwrap()).unwrap();
    assert_eq!(roric.found_in().unwrap().name(data.district_list()).as_deref(), Some("Docks"));
}

#[test]
fn saving_writes_names() {
    let mut data = AppData::from(sample());
    let lampblacks = data.find_faction("Lampblacks").unwrap();
    let docks = data.find_district("Docks").unwrap();
    let mut node = ActionNode::new();
    node.push_back(Action::FactionRemove(lampblacks));
    node.push_back(Action::DistrictRemove(docks));
    data.do_action(&node);

    let saved = SaveData2::from_app_data(&data);
    assert!(saved.validate());
    assert_eq!(saved.save_schema(), "BladesFactionsData");
    assert_eq!(saved.save_version(), 2);
    let names: Vec<_> = saved.districts().iter().map(|d| d.name().to_string()).collect();
    assert_eq!(names, vec!["Crow's Foot", "Silkshore"]);
    assert_eq!(saved.districts()[0].notable(), &strings(&["Lyssa"]));
    assert_eq!(saved.districts()[0].notable, strings(&["Lyssa"]));
    assert!(saved.districts()[0].wealth() == Dots::Zero);
    let persons: Vec<_> = saved.persons().iter().map(|p| p.name().to_string()).collect();
    assert_eq!(persons, vec!["Lyssa", "Roric"]);
    assert_eq!(saved.persons()[0].found_in().as_deref(), Some("Crow's Foot"));
    assert_eq!(saved.persons()[1].found_in, None);
    assert_eq!(saved.persons()[0].personality(), &strings(&["bold"]));
    let factions: Vec<_> = saved.factions().iter().map(|f| f.name().to_string()).collect();
    assert_eq!(factions, vec!["Crows", "Red Sashes"]);
    let crows = &saved.factions()[0];
    assert_eq!(crows.hq.as_deref(), Some("Crow's Foot"));
    assert_eq!(crows.turf, strings(&["Crow's Foot"]));
    assert_eq!(crows.leader.as_deref(), Some("Lyssa"));
    assert_eq!(crows.notable, strings(&["Roric"]));
    assert!(crows.allies.is_empty());
    assert_eq!(crows.enemies, strings(&["Red Sashes", "Crows"]));
    assert!(crows.tier() == Tier::Tier3);
    assert_eq!(crows.clocks().len(), 1);

    let first = SaveData1::from_app_data(&data);
    assert!(first.validate());
    assert_eq!(first.save_version(), 1);
    assert_eq!(first.persons().len(), 2);
    assert_eq!(first.persons()[0].summary(), "sum");
    assert_eq!(first.districts().len(), 2);
    assert_eq!(first.factions().len(), 2);
}

#[test]
fn save_and_load_again() {
    let data = AppData::from(sample());
    let again = AppData::from(SaveData2::from_app_data(&data));
    assert_eq!(again.districts_names(), data.districts_names());
    assert_eq!(again.persons_names(), data.persons_names());
    assert_eq!(again.factions_names(), data.factions_names());
    let crows = again.clone_faction(&again.find_faction("Crows").unwrap()).unwrap();
    let turf: Vec<_> =
        crows.turf().iter().map(|d| d.name(again.district_list()).unwrap()).collect();
    assert_eq!(turf, vec!["Crow's Foot", "Docks"]);
}

fn first_layout() -> SaveData1 {
    SaveData1::from_parts(
        SAVE_SCHEMA.to_string(),
        1,
        vec![PersonStore1::from_parts(
            "Lyssa".to_string(),
            "sum".to_string(),
            "desc".to_string(),
            strings(&["bold", "sly"]),
            String::new(),
        )],
        vec![district_store("Docks", &["Lyssa"])],
        Vec::new(),
    )
}

#[test]
fn first_layout_keeps_its_version() {
    let upgraded = SaveData2::from_save_data1(first_layout());
    assert_eq!(upgraded.save_version(), 1);
    assert!(!upgraded.validate());
    assert_eq!(upgraded.persons().len(), 1);
    assert_eq!(upgraded.persons()[0].name(), "Lyssa");
    assert_eq!(upgraded.persons()[0].description(), "desc");
    assert!(upgraded.persons()[0].found_in().is_none());
    assert_eq!(upgraded.persons()[0].personality(), &strings(&["bold", "sly"]));
    assert_eq!(upgraded.districts().len(), 1);

    let data = AppData::from_save_data1(first_layout());
    assert_eq!(data.persons_names(), vec!["Lyssa"]);
    let docks = data.clone_district(&data.find_district("Docks").unwrap()).unwrap();
    assert_eq!(docks.notable().len(), 1);
}

#[test]
fn stores_of_records() {
    let mut districts = blades_factions::managed_list::ManagedList::<District>::default();
    let d = districts.add(&District::new("Docks")).unwrap();
    let mut person = Person::new("Lyssa");
    person.set_found_in(Some(d));
    person.set_personality(StringList::from_list(strings(&["bold"])));
    let store = PersonStore2::from_person(&person, &districts);
    assert_eq!(store.found_in().as_deref(), Some("Docks"));
    let old = PersonStore1::from(&person);
    assert_eq!(old.name(), "Lyssa");
    assert_eq!(old.personality(), &strings(&["bold"]));
    let again = Person::from(&old);
    assert!(again.found_in().is_none());
    assert_eq!(again.personality().list(), &strings(&["bold"]));
    let newer = PersonStore2::from(old);
    assert!(newer.found_in().is_none());
    let back = Person::from(&store);
    assert!(back.found_in().is_none());
    assert_eq!(back.name(), "Lyssa");

    let mut gone = d;
    districts.remove(&mut gone);
    let store = PersonStore2::from_person(&person, &districts);
    assert!(store.found_in().is_none());

    let plain = District::from(&district_store("Keep", &["a"]));
    assert_eq!(plain.name(), "Keep");
    assert_eq!(plain.description(), "about Keep");
    assert!(plain.notable().is_empty());
    assert!(plain.safety() == Dots::Zero);
    let f = Faction::from(&faction_store("F", Some("Keep"), &["Keep"], None, &[], &["G"], &[]));
    assert_eq!(f.name(), "F");
    assert!(f.hq().is_none());
    assert!(f.turf().is_empty());
    assert!(f.allies().is_empty());
    assert_eq!(f.clocks().len(), 1);
    assert!(PersonStore2::default().name().is_empty());
    assert!(PersonStore1::default().personality().is_empty());
    assert!(DistrictStore::default().notable().is_empty());
}
