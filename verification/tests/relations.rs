use blades_factions::action::{Action, ActionNode};
use blades_factions::app_data::{AppData, DataIndex};
use blades_factions::district::District;
use blades_factions::person::Person;
use blades_factions::relationship::{ActorPair, Attitude, Relationship, Relationships};

#[test]
fn pairs_are_kept_in_order() {
    let d = DataIndex::DistrictIndex(4);
    let p = DataIndex::PersonIndex(1);
    let f = DataIndex::FactionIndex(0);
    assert!(ActorPair::new(d, p) == ActorPair::new(p, d));
    assert!(ActorPair::new(f, d) == ActorPair::new(d, f));
    assert!(ActorPair::new(f, d) != ActorPair::new(d, p));
    let pair = ActorPair::new(p, d);
    assert_eq!(pair.pair_with(d), Some(p));
    assert_eq!(pair.pair_with(p), Some(d));
    assert_eq!(pair.pair_with(f), None);
    assert_eq!(pair.pair_with(DataIndex::Nothing), None);
    assert_eq!(pair.pair_with(DataIndex::DistrictIndex(1)), None);
}

#[test]
fn pairs_of_live_records() {
    let mut data = AppData::default();
    let mut node = ActionNode::new();
    node.push_back(Action::DistrictAdd(District::new("Docks")));
    node.push_back(Action::PersonAdd(Person::new("Lyssa")));
    node.push_back(Action::PersonAdd(Person::new("Roric")));
    data.do_action(&node);
    let pair = ActorPair::new(DataIndex::PersonIndex(1), DataIndex::DistrictIndex(0));
    assert!(pair.is_valid(&data));
    let roric = data.find_person("Roric").unwrap();
    data.do_action(&ActionNode::from(Action::PersonRemove(roric)));
    assert!(!pair.is_valid(&data));
    assert!(ActorPair::new(DataIndex::PersonIndex(0), DataIndex::DistrictIndex(0)).is_valid(&data));
}

#[test]
fn attitudes() {
    let all = [
        Attitude::Minus3,
        Attitude::Minus2,
        Attitude::Minus1,
        Attitude::Zero,
        Attitude::Plus1,
        Attitude::Plus2,
        Attitude::Plus3,
    ];
    for (i, a) in all.iter().enumerate() {
        assert_eq!(a.value() as i32, i as i32 - 3);
    }
    assert!(Attitude::default() == Attitude::Zero);
    assert!(Attitude::Minus1 < Attitude::Zero);
    assert!(Relationship::new(Attitude::Plus2).attitude() == Attitude::Plus2);
}

#[test]
fn relationships_of_one_actor() {
    let a = DataIndex::DistrictIndex(0);
    let b = DataIndex::PersonIndex(3);
    let c = DataIndex::FactionIndex(1);
    let d = DataIndex::FactionIndex(2);
    let mut all = Relationships::default();
    all.set(ActorPair::new(c, d), Relationship::new(Attitude::Minus3));
    all.set(ActorPair::new(b, a), Relationship::new(Attitude::Plus1));
    all.set(ActorPair::new(b, d), Relationship::new(Attitude::Plus3));
    all.set(ActorPair::new(c, b), Relationship::new(Attitude::Minus1));
    all.set(ActorPair::new(a, c), Relationship::new(Attitude::Zero));
    assert_eq!(all.len(), 5);
    all.set(ActorPair::new(d, b), Relationship::new(Attitude::Plus2));
    assert_eq!(all.len(), 5);

    let mine = all.my_relationships(b);
    assert_eq!(mine.my_data_index(), b);
    let got: Vec<(DataIndex, Attitude)> =
        mine.table().iter().map(|(other, r)| (*other, r.attitude())).collect();
    assert_eq!(
        got,
        vec![(a, Attitude::Plus1), (c, Attitude::Minus1), (d, Attitude::Plus2)]
    );
    let of_d: Vec<(DataIndex, Attitude)> =
        all.my_relationships(d).table().iter().map(|(o, r)| (*o, r.attitude())).collect();
    assert_eq!(of_d, vec![(b, Attitude::Plus2), (c, Attitude::Minus3)]);
    assert!(all.my_relationships(DataIndex::PersonIndex(9)).table().is_empty());
    assert!(Relationships::default().my_relationships(a).table().is_empty());
}
