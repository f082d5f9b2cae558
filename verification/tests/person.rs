use macro_lab::person::{
    create_person, create_person_with_empty_panic, create_person_with_result, create_person_with_result_and_empty_panic,
};

#[test]
fn happy_path() {
    let actual = create_person("Sam".to_string(), 22).unwrap();

    assert_eq!(actual.name, "Sam".to_string());
    assert_eq!(actual.age, 22);
}

#[test]
fn should_panic_on_invalid_age() {
    let actual = create_person("S".to_string(), 33);

    assert_eq!(actual.expect_err("this should be an err"), "I hope I die before I get old".to_string(),)
}

#[test]
fn thirty_is_still_young_enough() {
    let p = create_person("Ann".to_string(), 30).unwrap();
    assert_eq!(p.name, "Ann");
    assert_eq!(p.age, 30);
    assert!(create_person("Ann".to_string(), 31).is_err());
}

#[test]
fn result_version_agrees_with_the_rewritten_one() {
    for age in [0u32, 22, 30, 31, 33, 100] {
        let a = create_person("X".to_string(), age);
        let b = create_person_with_result("X".to_string(), age);
        assert_eq!(a.is_ok(), b.is_ok());
        assert_eq!(a.is_ok(), age <= 30);
        if let (Err(x), Err(y)) = (a, b) {
            assert_eq!(x, y);
        }
    }
}

#[test]
fn empty_panic_versions_build_young_people() {
    let p = create_person_with_empty_panic("Bo".to_string(), 5).unwrap();
    assert_eq!(p.name, "Bo");
    assert_eq!(p.age, 5);
    let q = create_person_with_result_and_empty_panic("Cy".to_string(), 30).unwrap();
    assert_eq!(q.name, "Cy");
    assert_eq!(q.age, 30);
}
