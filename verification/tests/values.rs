use blades_factions::app::{EditResult, MainView};
use blades_factions::app_data::DataIndex;
use blades_factions::app_display::NewStringStatus;
use blades_factions::app_settings::{AppSettings, SaveSettings1, Theme};
use blades_factions::child_windows::{extension_to_add, FileDialogType, FileTarget};
use blades_factions::clock::Clock;
use blades_factions::dots::{Dots, DOT_STRINGS};
use blades_factions::save_file::SaveError;
use blades_factions::sorting::Sorting;
use blades_factions::string_list::StringList;
use blades_factions::tier::{Tier, TIER_STRINGS};

#[test]
fn data_index_slots() {
    assert_eq!(DataIndex::Nothing.index(), None);
    assert_eq!(DataIndex::DistrictIndex(3).index(), Some(3));
    assert_eq!(DataIndex::PersonIndex(0).index(), Some(0));
    assert_eq!(DataIndex::FactionIndex(usize::MAX).index(), Some(usize::MAX));
}

#[test]
fn data_index_order() {
    let ordered = [
        DataIndex::Nothing,
        DataIndex::DistrictIndex(0),
        DataIndex::DistrictIndex(7),
        DataIndex::PersonIndex(0),
        DataIndex::PersonIndex(2),
        DataIndex::FactionIndex(1),
        DataIndex::FactionIndex(9),
    ];
    for i in 0..ordered.len() {
        for j in 0..ordered.len() {
            assert_eq!(ordered[i] < ordered[j], i < j);
            assert_eq!(ordered[i] == ordered[j], i == j);
            assert_eq!(ordered[i].partial_cmp(&ordered[j]), Some(i.cmp(&j)));
            assert_eq!(ordered[i].cmp(&ordered[j]), i.cmp(&j));
        }
    }
}

#[test]
fn sorting_set_field() {
    let mut sorting = Sorting::default();
    assert_eq!((sorting.sort_field(), sorting.sort_reversed()), (0, false));
    sorting.set_field(3);
    assert_eq!((sorting.sort_field(), sorting.sort_reversed()), (3, false));
    sorting.set_field(3);
    assert_eq!((sorting.sort_field(), sorting.sort_reversed()), (3, true));
    sorting.set_field(3);
    assert_eq!((sorting.sort_field(), sorting.sort_reversed()), (3, false));
    sorting.set_field(3);
    sorting.set_field(1);
    assert_eq!((sorting.sort_field(), sorting.sort_reversed()), (1, false));
}

#[test]
fn dots_and_numbers() {
    let all = [Dots::Zero, Dots::One, Dots::Two, Dots::Three, Dots::Four, Dots::Five];
    for (n, d) in all.iter().enumerate() {
        assert_eq!(usize::from(*d), n);
        assert_eq!(d.number(), n);
        assert!(Dots::from(n) == *d);
        assert_eq!(d.label(), DOT_STRINGS[n]);
        assert_eq!(d.to_string(), DOT_STRINGS[n]);
    }
    assert!(Dots::from(6) == Dots::Zero);
    assert!(Dots::from(usize::MAX) == Dots::Zero);
    assert!(Dots::default() == Dots::Zero);
    assert_eq!(Dots::combo_list().len(), 6);
    assert_eq!(Dots::combo_list()[0], "○");
    assert_eq!(Dots::combo_list()[3], "●●●");
    assert!(Dots::Two < Dots::Three);
}

#[test]
fn tiers_and_numbers() {
    let all = [Tier::Tier0, Tier::Tier1, Tier::Tier2, Tier::Tier3, Tier::Tier4, Tier::Tier5];
    for (n, t) in all.iter().enumerate() {
        assert_eq!(usize::from(*t), n);
        assert!(Tier::from(n) == *t);
        assert_eq!(t.to_string(), TIER_STRINGS[n]);
    }
    assert_eq!(Tier::Tier4.to_string(), "IV");
    assert_eq!(Tier::Tier0.label(), "0");
    assert!(Tier::from(17) == Tier::Tier0);
    assert!(Tier::default() == Tier::Tier0);
}

#[test]
fn clock_ticks() {
    let mut clock = Clock::new_clock_4("Raid", "the watch closes in");
    assert_eq!(clock.name(), "Raid");
    assert_eq!(clock.description(), "the watch closes in");
    assert_eq!(clock.status(), (0, 4));
    assert!(!clock.tick());
    assert_eq!(clock.status(), (1, 4));
    assert!(!clock.tick());
    assert!(!clock.tick());
    assert!(clock.tick());
    assert_eq!(clock.status(), (4, 4));
    assert!(clock.tick());
    assert_eq!(clock.status(), (4, 4));
    assert_eq!(Clock::new_clock_6("a", "b").status(), (0, 6));
    assert_eq!(Clock::new_clock_8("a", "b").status(), (0, 8));
    assert_eq!(Clock::new_clock_12("a", "b").status(), (0, 12));
}

#[test]
fn clock_edges() {
    let mut empty = Clock::default();
    assert_eq!(empty.status(), (0, 0));
    assert!(empty.tick());
    assert_eq!(empty.status(), (0, 0));
    let mut full = Clock::from_parts("x".to_string(), "y".to_string(), 255, 254);
    assert!(full.tick());
    assert_eq!(full.status(), (255, 255));
    assert!(full.tick());
    assert_eq!(full.status(), (255, 255));
    let mut over = Clock::from_parts("x".to_string(), "y".to_string(), 4, 9);
    assert!(over.tick());
    assert_eq!(over.status(), (4, 4));
    let copy = over.clone();
    assert!(copy.same_as(&over));
    assert!(!copy.same_as(&full));
}

#[test]
fn string_list_push_ignores_duplicates() {
    let mut list = StringList::from_list(vec!["bold".to_string(), "sly".to_string()]);
    list.push("bold".to_string());
    list.push("cold".to_string());
    list.push("cold".to_string());
    assert_eq!(list.list(), &vec!["bold".to_string(), "sly".to_string(), "cold".to_string()]);
}

#[test]
fn string_list_swap_remove() {
    let mut list = StringList::from_list(
        ["a", "b", "c", "d"].iter().map(|s| s.to_string()).collect(),
    );
    list.swap_remove("b");
    assert_eq!(list.list(), &vec!["a".to_string(), "d".to_string(), "c".to_string()]);
    list.swap_remove("zz");
    assert_eq!(list.list().len(), 3);
    list.swap_remove("c");
    assert_eq!(list.list(), &vec!["a".to_string(), "d".to_string()]);
    list.swap_remove("a");
    list.swap_remove("d");
    assert!(list.list().is_empty());
    list.swap_remove("d");
    assert!(list.list().is_empty());
}

#[test]
fn string_list_first_of_equal_strings_goes() {
    let mut list = StringList::from_list(
        ["x", "y", "x", "z"].iter().map(|s| s.to_string()).collect(),
    );
    list.swap_remove("x");
    assert_eq!(list.list(), &vec!["z".to_string(), "y".to_string(), "x".to_string()]);
}

#[test]
fn string_list_form_state() {
    let mut list = StringList::default();
    assert!(list.list().is_empty());
    assert!(list.hovered_name().is_none());
    assert!(matches!(list.new_name(), NewStringStatus::NoItem));
    list.set_new(NewStringStatus::Requested);
    assert!(matches!(list.new_name(), NewStringStatus::Requested));
    *list.new_name() = NewStringStatus::Showing("dar".to_string());
    match list.new_name() {
        NewStringStatus::Showing(s) => s.push_str("ing"),
        _ => panic!("not showing"),
    }
    match list.new_name() {
        NewStringStatus::Showing(s) => assert_eq!(s, "daring"),
        _ => panic!("not showing"),
    }
    list.set_hovered(Some("daring".to_string()));
    assert_eq!(list.hovered_name(), Some("daring"));
    let mut other = StringList::from_list(Vec::new());
    assert!(list == other);
    other.push("x".to_string());
    assert!(list != other);
    let copy = other.clone();
    assert!(copy == other);
}

#[test]
fn settings_round_trip() {
    let settings = AppSettings::default();
    assert!(settings.theme() == Theme::Light);
    assert!(Theme::default() == Theme::Light);
    let dark = AppSettings::new(Theme::Dark);
    let saved = SaveSettings1::from(&dark);
    assert!(saved.validate());
    assert_eq!(saved.save_version(), 1);
    assert!(saved.theme() == Theme::Dark);
    assert!(AppSettings::from(saved) == dark);
    assert!(AppSettings::load_settings(saved) == Ok(dark));
}

#[test]
fn settings_of_another_version_are_refused() {
    let stale = SaveSettings1::from_parts(2, Theme::Dark);
    assert!(!stale.validate());
    assert!(AppSettings::load_settings(stale) == Err(SaveError::InvalidData));
    let zero = SaveSettings1::from_parts(0, Theme::Light);
    assert!(AppSettings::load_settings(zero) == Err(SaveError::InvalidData));
}

#[test]
fn picked_paths_get_an_extension() {
    assert_eq!(extension_to_add(Some(FileDialogType::Save), FileTarget::Internal, false), Some("bfsav"));
    assert_eq!(extension_to_add(Some(FileDialogType::Save), FileTarget::Export, false), Some("json"));
    assert_eq!(extension_to_add(Some(FileDialogType::Save), FileTarget::Export, true), None);
    assert_eq!(extension_to_add(Some(FileDialogType::Load), FileTarget::Internal, false), None);
    assert_eq!(extension_to_add(None, FileTarget::Internal, false), None);
    assert_eq!(FileTarget::Internal.extension(), "bfsav");
    assert_eq!(FileTarget::Export.extension(), "json");
}

#[test]
fn main_views() {
    assert!(MainView::default() == MainView::Factions);
    assert_eq!(MainView::Factions.item_name(), "main_item_faction");
    assert_eq!(MainView::Persons.item_name(), "main_item_person");
    assert_eq!(MainView::Districts.item_name(), "main_item_district");
    assert_eq!(MainView::Districts.to_string(), "main_districts");
    assert!(EditResult::Submit != EditResult::Ignore);
}
