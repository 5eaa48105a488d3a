use cogni_icp_backend::ids::{EntityKind, IdAllocator};

#[test]
fn ids_count_up_per_kind() {
    let mut ids = IdAllocator::new();
    assert_eq!(ids.last(EntityKind::User), 0);
    assert_eq!(ids.next_id(EntityKind::User), Some(1));
    assert_eq!(ids.next_id(EntityKind::User), Some(2));
    assert_eq!(ids.next_id(EntityKind::Tutor), Some(1));
    assert_eq!(ids.next_id(EntityKind::User), Some(3));
    assert_eq!(ids.last(EntityKind::User), 3);
    assert_eq!(ids.last(EntityKind::Tutor), 1);
    assert_eq!(ids.last(EntityKind::Message), 0);
}
