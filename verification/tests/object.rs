use squash::object::SquashObject;

#[test]
fn a_new_object_has_one_reference() {
    let object = SquashObject::init(false);
    assert_eq!(object.get_ref_count(), 1);
    assert!(!object.is_floating);
    assert_eq!(object.unref(), None);
}

#[test]
fn references_are_counted() {
    let mut object = SquashObject::init(false);
    assert!(object.reference());
    assert!(object.reference());
    assert_eq!(object.get_ref_count(), 3);
    let object = object.unref().unwrap();
    assert_eq!(object.get_ref_count(), 2);
    let object = object.unref().unwrap();
    assert_eq!(object.get_ref_count(), 1);
    assert_eq!(object.unref(), None);
}

#[test]
fn a_floating_reference_is_taken_over() {
    let mut object = SquashObject::init(true);
    assert!(object.is_floating);
    assert!(object.reference());
    assert_eq!(object.get_ref_count(), 1);
    assert!(!object.is_floating);
    assert!(object.reference());
    assert_eq!(object.get_ref_count(), 2);

    let mut other = SquashObject::init(true);
    assert!(other.ref_sink());
    assert!(!other.ref_sink());
    assert_eq!(other.get_ref_count(), 1);
    assert_eq!(other.unref(), None);
}

#[test]
fn the_count_does_not_wrap() {
    let mut object = SquashObject { ref_count: u32::MAX, is_floating: false };
    assert!(!object.reference());
    assert_eq!(object.get_ref_count(), u32::MAX);
}
