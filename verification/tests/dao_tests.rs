use cvmaker::base::BasicInfo;
use cvmaker::base::CVBuilder;
use cvmaker::base::Contact;
use cvmaker::base::Date;
use cvmaker::base::EmailAddress;
use cvmaker::base::CV;
use cvmaker::dao::assign_drawn_path;
use cvmaker::dao::assign_fresh_path;
use cvmaker::dao::assign_path;
use cvmaker::dao::record_path;
use cvmaker::dao::removal_outcome;
use cvmaker::dao::removal_target;
use cvmaker::dao::save_outcome;
use cvmaker::dao::save_target;
use cvmaker::dao::update_target;
use cvmaker::dao::write_outcome;
use cvmaker::dao::StorageError;
use std::collections::HashSet;

fn basic_cv_factory() -> CV {
    let email = Contact::Email(EmailAddress::from("peter@raskolnikov.ru").unwrap());
    let basic = BasicInfo::new(
        "Peter",
        "Raskolnikov",
        Date::from_ymd(2000, 1, 1).unwrap(),
        vec![email],
    )
    .unwrap();
    CVBuilder::default(basic).build().unwrap()
}

#[test]
fn test_id_gen_uniqueness() {
    let iterations: usize = 1000;
    let mut ids: HashSet<String> = HashSet::new();
    for _ in 0..iterations {
        let mut cv = basic_cv_factory();
        assign_fresh_path(&mut cv, "").unwrap();
        ids.insert(cv.path.unwrap());
    }
    assert!(ids.len() >= (iterations - 1));
}

#[test]
fn fail_when_add_cv_with_id() {
    let mut cv = basic_cv_factory();
    cv.set_path("");
    let outcome = assign_fresh_path(&mut cv, "");
    assert_eq!(Err(StorageError::AlreadyHasId), outcome);
    assert_eq!(
        "Cannot add a CV which already has an ID.".to_string(),
        outcome.unwrap_err().message()
    );
    assert_eq!(cv.path, Some("".to_string()));
}

#[test]
fn add_cv_then_id_nonempty() {
    let mut cv = basic_cv_factory();
    assert!(cv.path.is_none());
    assign_fresh_path(&mut cv, "").unwrap();
    assert!(cv.path.is_some());
}

#[test]
fn remove_cv_no_id() {
    let cv = basic_cv_factory();
    let target = removal_target(&cv);
    assert_eq!(Err(StorageError::RemoveWithoutId), target);
    assert_eq!(
        "Cannot remove a CV which has no ID.".to_string(),
        target.unwrap_err().message()
    );
}

#[test]
fn remove_cv_nonexistent_path() {
    let mut cv = basic_cv_factory();
    cv.set_path("/foobar");
    let target = removal_target(&cv).unwrap();
    assert_eq!(target, "/foobar");
    let outcome = removal_outcome(&target, false, false);
    assert_eq!(
        "The path '/foobar' does not exist.".to_string(),
        outcome.unwrap_err().message()
    );
}

#[test]
fn update_cv_no_id() {
    let cv = basic_cv_factory();
    let target = update_target(&cv);
    assert_eq!(Err(StorageError::UpdateWithoutId), target);
    assert_eq!(
        "Cannot update a CV which has no ID.".to_string(),
        target.unwrap_err().message()
    );
}

#[test]
fn update_cv_happy_scenario() {}

#[test]
fn fresh_path_has_the_record_form() {
    let mut cv = basic_cv_factory();
    assign_fresh_path(&mut cv, "/tmp").unwrap();
    let path = cv.path.clone().unwrap();
    assert!(path.starts_with("/tmp/"));
    assert!(path.ends_with(".json"));
    let id = &path[5..path.len() - 5];
    assert_eq!(id.len(), 32);
    assert!(id.chars().all(|c| c.is_ascii_digit() || ('a'..='f').contains(&c)));
    assert_eq!(cv.basic, basic_cv_factory().basic);
}

#[test]
fn record_path_joins_directory_and_id() {
    assert_eq!(record_path("/tmp", "abc"), "/tmp/abc.json");
    assert_eq!(record_path("", "0123"), "/0123.json");
}

#[test]
fn assign_path_sets_the_path_once() {
    let mut cv = basic_cv_factory();
    assert_eq!(assign_path(&mut cv, "/tmp", "abc"), Ok(()));
    assert_eq!(cv.path, Some("/tmp/abc.json".to_string()));
    assert_eq!(assign_path(&mut cv, "/tmp", "def"), Err(StorageError::AlreadyHasId));
    assert_eq!(cv.path, Some("/tmp/abc.json".to_string()));
}

#[test]
fn removal_outcomes() {
    assert_eq!(removal_outcome("/a", true, true), Ok(()));
    assert_eq!(
        removal_outcome("/a", true, false),
        Err(StorageError::CouldNotRemove("/a".to_string()))
    );
    assert_eq!(
        removal_outcome("/a", false, true),
        Err(StorageError::PathDoesNotExist("/a".to_string()))
    );
    assert_eq!(
        StorageError::CouldNotRemove("/a".to_string()).message(),
        "Could not remove the file: '/a'"
    );
}

#[test]
fn update_target_is_the_stored_path() {
    let mut cv = basic_cv_factory();
    cv.set_path("/tmp/x.json");
    assert_eq!(update_target(&cv), Ok("/tmp/x.json".to_string()));
    assert_eq!(removal_target(&cv), Ok("/tmp/x.json".to_string()));
}

#[test]
fn storage_error_messages() {
    assert_eq!(StorageError::WrongPath.message(), "Wrong path given.");
    assert_eq!(StorageError::CouldNotOpen("/a".to_string()).message(), "Couldn't open file /a");
    assert_eq!(StorageError::CouldNotRead("/a".to_string()).message(), "Coudn't read file /a");
    assert_eq!(StorageError::Backend("disk full".to_string()).message(), "disk full");
}

#[test]
fn save_outcomes() {
    assert_eq!(save_outcome(true, None), Ok(()));
    assert_eq!(save_outcome(false, None), Err(StorageError::WrongPath));
    assert_eq!(save_outcome(false, Some("denied".to_string())), Err(StorageError::WrongPath));
    assert_eq!(
        save_outcome(true, Some("denied".to_string())),
        Err(StorageError::Backend("denied".to_string()))
    );
}

#[test]
fn drawn_value_is_written_in_hex() {
    let mut cv = basic_cv_factory();
    assert_eq!(assign_drawn_path(&mut cv, "/tmp", 0), Ok(()));
    assert_eq!(cv.path, Some("/tmp/00000000000000000000000000000000.json".to_string()));
    let mut cv = basic_cv_factory();
    assign_drawn_path(&mut cv, "", 0xa1a2a3a4b1b2c1c2d1d2d3d4d5d6d7d8).unwrap();
    assert_eq!(cv.path, Some("/a1a2a3a4b1b2c1c2d1d2d3d4d5d6d7d8.json".to_string()));
    let mut cv = basic_cv_factory();
    assign_drawn_path(&mut cv, "", u128::MAX).unwrap();
    assert_eq!(cv.path, Some("/ffffffffffffffffffffffffffffffff.json".to_string()));
    let mut cv = basic_cv_factory();
    assign_drawn_path(&mut cv, "", 255).unwrap();
    assert_eq!(cv.path, Some("/000000000000000000000000000000ff.json".to_string()));
    assert_eq!(assign_drawn_path(&mut cv, "", 256), Err(StorageError::AlreadyHasId));
    assert_eq!(cv.path, Some("/000000000000000000000000000000ff.json".to_string()));
}

#[test]
fn different_drawn_values_give_different_paths() {
    let mut paths: HashSet<String> = HashSet::new();
    for drawn in [0u128, 1, 16, 255, 256, 1 << 64, 1 << 127, u128::MAX] {
        let mut cv = basic_cv_factory();
        assign_drawn_path(&mut cv, "/tmp", drawn).unwrap();
        paths.insert(cv.path.unwrap());
    }
    assert_eq!(paths.len(), 8);
}

#[test]
fn save_needs_a_path() {
    let mut cv = basic_cv_factory();
    let target = save_target(&cv);
    assert_eq!(target, Err(StorageError::SaveWithoutId));
    assert_eq!(target.unwrap_err().message(), "CV must have a valid ID to be saved.");
    cv.set_path("/tmp/x.json");
    assert_eq!(save_target(&cv), Ok("/tmp/x.json".to_string()));
}

#[test]
fn write_outcomes() {
    assert_eq!(write_outcome(None, None), Ok(()));
    assert_eq!(
        write_outcome(Some("no space".to_string()), None),
        Err(StorageError::Backend("no space".to_string()))
    );
    assert_eq!(
        write_outcome(None, Some("broken pipe".to_string())),
        Err(StorageError::Backend("broken pipe".to_string()))
    );
    assert_eq!(
        write_outcome(Some("no space".to_string()), Some("broken pipe".to_string())),
        Err(StorageError::Backend("no space".to_string()))
    );
}
