use resource_loader::census::{Activity, CensusPerson, PersonType};

#[test]
fn activities_compare_by_variant() {
    assert_eq!(Activity::Home, Activity::Home);
    assert_ne!(Activity::Home, Activity::Work);
    let copy = Activity::Lunch;
    assert_eq!(copy, Activity::Lunch);
    assert_eq!(format!("{:?}", Activity::Errands), "Errands");
}

#[test]
fn person_types_are_two() {
    assert!(matches!(PersonType::Student, PersonType::Student));
    assert!(!matches!(PersonType::Worker, PersonType::Student));
}

#[test]
fn person_keeps_what_it_was_given() {
    let person = CensusPerson { home: 12, age: 30, employed: true, owns_car: false };
    assert_eq!((person.home, person.age), (12, 30));
    assert!(person.employed && !person.owns_car);
}
