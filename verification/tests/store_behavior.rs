use use_storage::store::CallerIdentity;
use use_storage::store::Error;
use use_storage::store::Event;
use use_storage::store::StateStore;

#[test]
fn fresh_store_is_empty() {
    let s = StateStore::new();
    assert_eq!(s.my_class(), None);
    assert_eq!(s.student_info(0), None);
    assert_eq!(s.dorm_info(0, 0), None);
    assert_eq!(s.events().len(), 0);
}

#[test]
fn class_info_stores_value_and_emits_event() {
    let mut s = StateStore::new();
    let r = s.set_class_info(CallerIdentity::Signed(11), 5);
    assert_eq!(r, Ok(()));
    assert_eq!(s.my_class(), Some(5));
    assert_eq!(s.events().len(), 1);
    assert_eq!(s.events()[0], Event::ValueStored { class_value: 5, caller: 11 });
}

#[test]
fn class_info_unauthorized_changes_nothing() {
    let mut s = StateStore::new();
    assert_eq!(s.set_class_info(CallerIdentity::Unsigned, 5), Err(Error::Unauthorized));
    assert_eq!(s.set_class_info(CallerIdentity::System, 5), Err(Error::Unauthorized));
    assert_eq!(s.my_class(), None);
    assert_eq!(s.events().len(), 0);
}

#[test]
fn class_info_overwrites_prior_value() {
    let mut s = StateStore::new();
    assert_eq!(s.set_class_info(CallerIdentity::Signed(2), 5), Ok(()));
    assert_eq!(s.set_class_info(CallerIdentity::Signed(2), 6), Ok(()));
    assert_eq!(s.my_class(), Some(6));
    assert_eq!(s.events().len(), 2);
    assert_eq!(s.events()[0], Event::ValueStored { class_value: 5, caller: 2 });
    assert_eq!(s.events()[1], Event::ValueStored { class_value: 6, caller: 2 });
}

#[test]
fn student_info_registers_fresh_number_without_event() {
    let mut s = StateStore::new();
    assert_eq!(s.set_student_info(CallerIdentity::Signed(1), 7, 42), Ok(()));
    assert_eq!(s.student_info(7), Some(42));
    assert_eq!(s.events().len(), 0);
}

#[test]
fn student_info_refuses_duplicate_and_keeps_first_name() {
    let mut s = StateStore::new();
    assert_eq!(s.set_student_info(CallerIdentity::Signed(1), 7, 42), Ok(()));
    assert_eq!(s.set_student_info(CallerIdentity::Signed(1), 7, 99), Err(Error::DuplicateKey));
    assert_eq!(s.student_info(7), Some(42));
}

#[test]
fn student_info_unauthorized_leaves_key_absent() {
    let mut s = StateStore::new();
    assert_eq!(s.set_student_info(CallerIdentity::Unsigned, 7, 42), Err(Error::Unauthorized));
    assert_eq!(s.student_info(7), None);
}

#[test]
fn student_info_distinct_numbers_coexist() {
    let mut s = StateStore::new();
    assert_eq!(s.set_student_info(CallerIdentity::Signed(1), 7, 42), Ok(()));
    assert_eq!(s.set_student_info(CallerIdentity::Signed(1), 8, 43), Ok(()));
    assert_eq!(s.student_info(7), Some(42));
    assert_eq!(s.student_info(8), Some(43));
}

#[test]
fn dorm_info_overwrites_same_bed() {
    let mut s = StateStore::new();
    assert_eq!(s.set_dorm_info(CallerIdentity::Signed(1), 3, 1, 7), Ok(()));
    assert_eq!(s.set_dorm_info(CallerIdentity::Signed(1), 3, 1, 9), Ok(()));
    assert_eq!(s.dorm_info(3, 1), Some(9));
    assert_eq!(s.events().len(), 0);
}

#[test]
fn dorm_info_is_idempotent() {
    let mut once = StateStore::new();
    assert_eq!(once.set_dorm_info(CallerIdentity::Signed(4), 2, 4, 8), Ok(()));
    let mut twice = StateStore::new();
    assert_eq!(twice.set_dorm_info(CallerIdentity::Signed(4), 2, 4, 8), Ok(()));
    assert_eq!(twice.set_dorm_info(CallerIdentity::Signed(4), 2, 4, 8), Ok(()));
    assert_eq!(twice.dorm_info(2, 4), once.dorm_info(2, 4));
    assert_eq!(twice.my_class(), once.my_class());
    assert_eq!(twice.events().len(), once.events().len());
}

#[test]
fn dorm_info_distinct_beds_coexist() {
    let mut s = StateStore::new();
    assert_eq!(s.set_dorm_info(CallerIdentity::Signed(1), 3, 1, 7), Ok(()));
    assert_eq!(s.set_dorm_info(CallerIdentity::Signed(1), 3, 2, 8), Ok(()));
    assert_eq!(s.set_dorm_info(CallerIdentity::Signed(1), 4, 1, 9), Ok(()));
    assert_eq!(s.dorm_info(3, 1), Some(7));
    assert_eq!(s.dorm_info(3, 2), Some(8));
    assert_eq!(s.dorm_info(4, 1), Some(9));
}

#[test]
fn dorm_info_unauthorized_leaves_bed_absent() {
    let mut s = StateStore::new();
    assert_eq!(s.set_dorm_info(CallerIdentity::System, 3, 1, 7), Err(Error::Unauthorized));
    assert_eq!(s.dorm_info(3, 1), None);
}

#[test]
fn dorm_info_needs_no_registered_student() {
    let mut s = StateStore::new();
    assert_eq!(s.set_dorm_info(CallerIdentity::Signed(1), 3, 1, 7), Ok(()));
    assert_eq!(s.student_info(7), None);
    assert_eq!(s.dorm_info(3, 1), Some(7));
}

#[test]
fn extreme_numeric_values_are_stored() {
    let mut s = StateStore::new();
    assert_eq!(s.set_class_info(CallerIdentity::Signed(u64::MAX), u32::MAX), Ok(()));
    assert_eq!(s.my_class(), Some(u32::MAX));
    assert_eq!(
        s.events()[0],
        Event::ValueStored { class_value: u32::MAX, caller: u64::MAX }
    );
    assert_eq!(s.set_student_info(CallerIdentity::Signed(1), u32::MAX, u128::MAX), Ok(()));
    assert_eq!(s.student_info(u32::MAX), Some(u128::MAX));
    assert_eq!(s.set_dorm_info(CallerIdentity::Signed(1), u32::MAX, u32::MAX, u32::MAX), Ok(()));
    assert_eq!(s.dorm_info(u32::MAX, u32::MAX), Some(u32::MAX));
}

#[test]
fn failed_calls_leave_all_collections_unchanged() {
    let mut s = StateStore::new();
    assert_eq!(s.set_class_info(CallerIdentity::Signed(1), 10), Ok(()));
    assert_eq!(s.set_student_info(CallerIdentity::Signed(1), 20, 30), Ok(()));
    assert_eq!(s.set_dorm_info(CallerIdentity::Signed(1), 40, 50, 60), Ok(()));
    assert_eq!(s.set_class_info(CallerIdentity::Unsigned, 99), Err(Error::Unauthorized));
    assert_eq!(s.set_student_info(CallerIdentity::Signed(1), 20, 99), Err(Error::DuplicateKey));
    assert_eq!(s.set_dorm_info(CallerIdentity::Unsigned, 40, 50, 99), Err(Error::Unauthorized));
    assert_eq!(s.my_class(), Some(10));
    assert_eq!(s.student_info(20), Some(30));
    assert_eq!(s.dorm_info(40, 50), Some(60));
    assert_eq!(s.events().len(), 1);
}
