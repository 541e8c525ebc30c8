use blades_factions::action::{Action, ActionNode};
use blades_factions::app_data::{AppData, DataIndex};
use blades_factions::app_display::{
    ColumnWidth, DisplayLine, DisplayTable, ShowEditInfo, MIN_COL_WIDTH, NAME_COL_WIDTH,
};
use blades_factions::district::District;
use blades_factions::faction::Faction;
use blades_factions::managed_list::{ManagedList, Named};
use blades_factions::person::Person;
use blades_factions::ref_list::GenericRefList;
use blades_factions::sorting::Sorting;
use blades_factions::tier::Tier;

fn line(fields: &[&str], slot: usize) -> DisplayLine {
    DisplayLine::new(fields.iter().map(|s| s.to_string()).collect(), DataIndex::FactionIndex(slot))
}

fn ids(table: &DisplayTable) -> Vec<usize> {
    table.lines_iter().iter().map(|l| l.data_index().index().unwrap()).collect()
}

fn sorting(field: usize, reversed: bool) -> Sorting {
    let mut s = Sorting::default();
    s.set_field(field);
    if field == 0 {
        s.set_field(field);
    }
    if reversed {
        s.set_field(field);
    }
    s
}

#[test]
fn display_line_fields() {
    let l = line(&["Crows", "II", "Crow's Foot"], 4);
    assert_eq!(l.id(), "Crows");
    assert_eq!(l.num_fields(), 3);
    assert_eq!(l.field(0), "Crows");
    assert_eq!(l.field(2), "Crow's Foot");
    assert_eq!(l.data_index(), DataIndex::FactionIndex(4));
    let all: Vec<&str> = l.field_iter().iter().map(|s| s.as_str()).collect();
    assert_eq!(all, vec!["Crows", "II", "Crow's Foot"]);
}

#[test]
fn sort_is_stable() {
    let lines = vec![
        line(&["d", "II"], 0),
        line(&["a", "I"], 1),
        line(&["c", "II"], 2),
        line(&["b", "I"], 3),
        line(&["e", "0"], 4),
        line(&["f", "II"], 5),
    ];
    let headings = vec!["name_heading".to_string(), "tier_heading".to_string()];
    let table = DisplayTable::from_lines(lines, headings, sorting(1, false));
    assert_eq!(ids(&table), vec![4, 1, 3, 0, 2, 5]);
    assert_eq!(table.lines_len(), 6);
    assert_eq!(table.line(0).id(), "e");
    assert_eq!(table.sorting().sort_field(), 1);
}

#[test]
fn reversed_sort_turns_the_whole_round() {
    let lines = vec![
        line(&["d", "II"], 0),
        line(&["a", "I"], 1),
        line(&["c", "II"], 2),
        line(&["b", "I"], 3),
    ];
    let headings = vec!["name_heading".to_string(), "tier_heading".to_string()];
    let table = DisplayTable::from_lines(lines, headings, sorting(1, true));
    assert_eq!(ids(&table), vec![2, 0, 3, 1]);
    assert!(table.sorting().sort_reversed());
}

#[test]
fn sort_by_name() {
    let lines = vec![line(&["b"], 0), line(&["a"], 1), line(&["B"], 2), line(&["ab"], 3)];
    let table = DisplayTable::from_lines(lines, vec!["name_heading".to_string()], Sorting::default());
    assert_eq!(ids(&table), vec![2, 1, 3, 0]);
}

#[test]
fn short_tables_are_not_sorted() {
    let table =
        DisplayTable::from_lines(vec![line(&["only"], 0)], vec!["h".to_string()], sorting(5, true));
    assert_eq!(ids(&table), vec![0]);
    assert_eq!(table.sorting().sort_field(), 5);
    let none = DisplayTable::from_lines(Vec::new(), vec!["h".to_string()], sorting(2, false));
    assert_eq!(none.lines_len(), 0);
}

#[test]
fn columns_of_a_table() {
    let headings: Vec<String> = ["a", "b", "c", "d"].iter().map(|s| s.to_string()).collect();
    let table = DisplayTable::from_lines(Vec::new(), headings, sorting(2, false));
    assert_eq!(table.number_columns(), 4);
    assert_eq!(
        table.column_definitions_iter(),
        vec![
            ColumnWidth::Standard(NAME_COL_WIDTH),
            ColumnWidth::Standard(MIN_COL_WIDTH),
            ColumnWidth::Standard(MIN_COL_WIDTH),
            ColumnWidth::Extended,
        ]
    );
    assert_eq!(NAME_COL_WIDTH, 120);
    assert_eq!(MIN_COL_WIDTH, 40);
    assert_eq!(
        table.headings_iter(),
        vec![
            ("a".to_string(), false),
            ("b".to_string(), false),
            ("c".to_string(), true),
            ("d".to_string(), false),
        ]
    );
    let single = DisplayTable::from_lines(Vec::new(), vec!["x".to_string()], Sorting::default());
    assert_eq!(single.column_definitions_iter(), vec![ColumnWidth::Extended]);
    assert_eq!(single.headings_iter(), vec![("x".to_string(), true)]);
}

fn sample() -> AppData {
    let mut data = AppData::default();
    let mut node = ActionNode::new();
    for name in ["Silkshore", "Docks", "Crow's Foot"] {
        node.push_back(Action::DistrictAdd(District::new(name)));
    }
    node.push_back(Action::PersonAdd(Person::new("Roric")));
    node.push_back(Action::PersonAdd(Person::new("Lyssa")));
    data.do_action(&node);
    let docks = data.find_district("Docks").unwrap();
    let silk = data.find_district("Silkshore").unwrap();
    let foot = data.find_district("Crow's Foot").unwrap();
    let mut crows = Faction::new("Crows");
    crows.set_tier(Tier::Tier2);
    crows.set_hq(Some(foot));
    crows.set_turf(vec![foot, docks, silk]);
    let mut hive = Faction::new("Hive");
    hive.set_tier(Tier::Tier4);
    hive.set_hq(Some(silk));
    let mut bees = Faction::new("Bees");
    bees.set_tier(Tier::Tier2);
    let mut node = ActionNode::new();
    node.push_back(Action::FactionAdd(hive));
    node.push_back(Action::FactionAdd(crows));
    node.push_back(Action::FactionAdd(bees));
    data.do_action(&node);
    data
}

#[test]
fn table_of_districts() {
    let mut data = sample();
    let table = data.districts_display_table();
    let names: Vec<&str> = table.lines_iter().iter().map(|l| l.field(0)).collect();
    assert_eq!(names, vec!["Crow's Foot", "Docks", "Silkshore"]);
    assert_eq!(table.line(0).data_index(), DataIndex::DistrictIndex(2));
    assert_eq!(table.line(2).data_index(), DataIndex::DistrictIndex(0));
    assert_eq!(table.headings_iter(), vec![("name_heading".to_string(), true)]);
    data.set_districts_sort(0);
    let table = data.districts_display_table();
    let names: Vec<&str> = table.lines_iter().iter().map(|l| l.field(0)).collect();
    assert_eq!(names, vec!["Silkshore", "Docks", "Crow's Foot"]);
    let persons = data.persons_display_table();
    let names: Vec<&str> = persons.lines_iter().iter().map(|l| l.field(0)).collect();
    assert_eq!(names, vec!["Lyssa", "Roric"]);
    assert_eq!(persons.line(0).data_index(), DataIndex::PersonIndex(1));
}

#[test]
fn table_of_factions() {
    let mut data = sample();
    let table = data.factions_display_table();
    assert_eq!(table.number_columns(), 4);
    let rows: Vec<Vec<String>> = table.lines_iter().iter().map(|l| l.field_iter().clone()).collect();
    assert_eq!(
        rows,
        vec![
            vec!["Bees", "II", "", ""],
            vec!["Crows", "II", "Crow's Foot", "Crow's Foot, Docks, Silkshore"],
            vec!["Hive", "IV", "Silkshore", ""],
        ]
    );
    data.do_action(&ActionNode::from(Action::DistrictRemove(data.find_district("Docks").unwrap())));
    data.set_factions_sort(2);
    let table = data.factions_display_table();
    let rows: Vec<Vec<String>> = table.lines_iter().iter().map(|l| l.field_iter().clone()).collect();
    assert_eq!(
        rows,
        vec![
            vec!["Bees", "II", "", ""],
            vec!["Crows", "II", "Crow's Foot", "Crow's Foot, , Silkshore"],
            vec!["Hive", "IV", "Silkshore", ""],
        ]
    );
    data.set_factions_sort(1);
    data.set_factions_sort(1);
    let table = data.factions_display_table();
    let names: Vec<&str> = table.lines_iter().iter().map(|l| l.field(0)).collect();
    assert_eq!(names, vec!["Hive", "Crows", "Bees"]);
    assert_eq!(table.line(0).data_index(), DataIndex::FactionIndex(0));
}

#[test]
fn display_fields_of_records() {
    let data = sample();
    let crows = data.clone_faction(&data.find_faction("Crows").unwrap()).unwrap();
    assert_eq!(
        crows.display_fields(data.district_list()),
        vec!["Crows", "II", "Crow's Foot", "Crow's Foot, Docks, Silkshore"]
    );
    assert_eq!(District::new("Docks").display_fields(), vec!["Docks"]);
    assert_eq!(Person::new("Lyssa").display_fields(), vec!["Lyssa"]);
    assert_eq!(District::display_headings(), vec!["name_heading"]);
    assert_eq!(Person::display_headings(), vec!["name_heading"]);
    assert_eq!(
        Faction::display_headings(),
        vec!["name_heading", "tier_heading", "hq_heading", "turf_heading"]
    );
    assert_eq!(District::make_data_index(3), DataIndex::DistrictIndex(3));
    assert_eq!(Person::make_data_index(3), DataIndex::PersonIndex(3));
    assert_eq!(Faction::make_data_index(3), DataIndex::FactionIndex(3));
    assert_eq!(District::fetch_data_index(DataIndex::DistrictIndex(5)), Some(5));
    assert_eq!(District::fetch_data_index(DataIndex::PersonIndex(5)), None);
    assert_eq!(Person::fetch_data_index(DataIndex::PersonIndex(5)), Some(5));
    assert_eq!(Person::fetch_data_index(DataIndex::Nothing), None);
    assert_eq!(Faction::fetch_data_index(DataIndex::FactionIndex(5)), Some(5));
    assert_eq!(Faction::fetch_data_index(DataIndex::DistrictIndex(5)), None);
}

#[test]
fn edit_info() {
    let data = AppData::default();
    let info = ShowEditInfo::new(false, true, true, &data);
    assert!(info.show_save());
    assert!(!info.name_collision());
    assert!(info.differs_from());
    assert!(info.create_new());
    assert!(info.app_data().is_empty());
    assert!(!ShowEditInfo::new(true, true, false, &data).show_save());
    assert!(!ShowEditInfo::new(false, false, false, &data).show_save());
    assert!(!ShowEditInfo::new(true, false, false, &data).show_save());
}

#[test]
fn edit_flags_of_a_new_record() {
    let data = sample();
    assert_eq!(data.district_edit_flags(None, &District::default()), (false, false));
    assert_eq!(data.district_edit_flags(None, &District::new("Docks")), (true, true));
    assert_eq!(data.district_edit_flags(None, &District::new("Keep")), (false, true));
    assert_eq!(data.person_edit_flags(None, &Person::default()), (false, false));
    assert_eq!(data.person_edit_flags(None, &Person::new("Lyssa")), (true, true));
    assert_eq!(data.faction_edit_flags(None, &Faction::new("Crows")), (true, true));
    assert_eq!(data.faction_edit_flags(None, &Faction::new("Owls")), (false, true));
}

#[test]
fn edit_flags_of_a_record_taken_from_the_data() {
    let mut data = sample();
    let docks = data.find_district("Docks").unwrap();
    let same = data.clone_district(&docks).unwrap();
    assert_eq!(data.district_edit_flags(Some(&docks), &same), (false, false));
    let mut changed = data.clone_district(&docks).unwrap();
    changed.set_notes("n".to_string());
    assert_eq!(data.district_edit_flags(Some(&docks), &changed), (false, true));
    changed.set_name("Silkshore".to_string());
    assert_eq!(data.district_edit_flags(Some(&docks), &changed), (true, true));
    changed.set_name("Harbour".to_string());
    assert_eq!(data.district_edit_flags(Some(&docks), &changed), (false, true));
    data.do_action(&ActionNode::from(Action::DistrictRemove(docks)));
    assert_eq!(data.district_edit_flags(Some(&docks), &same), (false, true));
}

#[test]
fn submitted_forms() {
    let mut data = sample();
    let docks = data.find_district("Docks").unwrap();
    let same = data.clone_district(&docks).unwrap();
    assert!(data.district_submit(Some(&docks), &same).is_none());
    let mut changed = data.clone_district(&docks).unwrap();
    changed.set_notes("n".to_string());
    match data.district_submit(Some(&docks), &changed) {
        Some(Action::DistrictReplace(h, d)) => {
            assert!(h == docks);
            assert_eq!(d.notes(), "n");
        }
        _ => panic!("no replacement"),
    }
    match data.district_submit(None, &District::new("Keep")) {
        Some(Action::DistrictAdd(d)) => assert_eq!(d.name(), "Keep"),
        _ => panic!("no addition"),
    }
    assert!(matches!(data.person_submit(None, &Person::new("P")), Some(Action::PersonAdd(_))));
    assert!(matches!(data.faction_submit(None, &Faction::new("F")), Some(Action::FactionAdd(_))));
    let lyssa = data.find_person("Lyssa").unwrap();
    let mut person = data.clone_person(&lyssa).unwrap();
    assert!(data.person_submit(Some(&lyssa), &person).is_none());
    person.set_summary("s".to_string());
    assert!(matches!(data.person_submit(Some(&lyssa), &person), Some(Action::PersonReplace(_, _))));
    data.do_action(&ActionNode::from(Action::DistrictRemove(docks)));
    assert!(data.district_submit(Some(&docks), &changed).is_none());
}

#[test]
fn handle_lists() {
    let mut persons = ManagedList::<Person>::default();
    let a = persons.add(&Person::new("A")).unwrap();
    let mut b = persons.add(&Person::new("B")).unwrap();
    let c = persons.add(&Person::new("C")).unwrap();
    let mut list = GenericRefList::<Person>::default();
    list.push(a, &persons);
    list.push(b, &persons);
    list.push(a, &persons);
    list.push(c, &persons);
    assert!(list.list() == &vec![a, b, c]);
    persons.remove(&mut b);
    list.push(b, &persons);
    assert_eq!(list.list().len(), 3);
    list.swap_remove("A", &persons);
    assert!(list.list() == &vec![c, b]);
    list.swap_remove("B", &persons);
    assert!(list.list() == &vec![c, b]);
    list.swap_remove("<Removed>", &persons);
    assert!(list.list() == &vec![c]);
    assert!(list.new_name().is_none());
    list.set_new(Some("D"));
    assert_eq!(list.new_name(), Some("D"));
    list.set_new(None);
    assert!(list.new_name().is_none());
    list.set_hovered(Some("C".to_string()));
    assert_eq!(list.hovered_name(), Some("C"));
    let other = GenericRefList::from_list(vec![c]);
    assert!(list == other);
    assert!(list.clone() == other);
    assert!(GenericRefList::from_list(vec![a]) != other);
}

#[test]
fn records_compare_by_content() {
    let mut a = District::new("Docks");
    let mut b = District::new("Docks");
    assert!(a == b);
    b.set_occult(blades_factions::dots::Dots::One);
    assert!(a != b);
    a.set_occult(blades_factions::dots::Dots::One);
    assert!(a == b);
    assert!(a.clone() == a);
    let mut p = Person::new("P");
    let mut q = Person::new("P");
    let mut traits = blades_factions::string_list::StringList::default();
    traits.set_hovered(Some("x".to_string()));
    q.set_personality(traits);
    assert!(p == q);
    p.set_description("d".to_string());
    assert!(p != q);
    let mut f = Faction::new("F");
    let g = Faction::new("F");
    assert!(f == g);
    f.set_clocks(vec![blades_factions::clock::Clock::new_clock_4("c", "d")]);
    assert!(f != g);
    assert!(f.clone() == f);
    assert!(Faction::default() == Faction::new(""));
    assert!(Person::default() == Person::new(""));
    assert_eq!(District::default().name(), "");
}
