use dorp::{Id, IdManager, IdType};

#[test]
fn ids_count_up_from_zero_within_a_partition() {
    let mut manager = IdManager::new();
    let a = Id::new(&mut manager, IdType::Entity);
    let b = Id::new(&mut manager, IdType::Entity);
    let c = Id::new(&mut manager, IdType::Entity);
    assert_eq!(a.value(), 0);
    assert_eq!(b.value(), 1);
    assert_eq!(c.value(), 2);
    assert_ne!(a, b);
    assert_ne!(b, c);
    assert_ne!(a, c);
}

#[test]
fn partitions_count_independently() {
    let mut manager = IdManager::new();
    let e = Id::new(&mut manager, IdType::Entity);
    let v = Id::new(&mut manager, IdType::Vertex);
    let e2 = Id::new(&mut manager, IdType::Entity);
    let m = Id::new(&mut manager, IdType::Matrix);
    assert_eq!(e.value(), 0);
    assert_eq!(v.value(), 0);
    assert_eq!(e2.value(), 1);
    assert_eq!(m.value(), 0);
}

#[test]
fn custom_partitions_are_distinct() {
    let mut manager = IdManager::new();
    let plain = Id::new(&mut manager, IdType::Entity);
    let custom = Id::new(&mut manager, IdType::Custom(Box::new(IdType::Entity)));
    let nested = Id::new(&mut manager, IdType::Custom(Box::new(IdType::Custom(Box::new(
        IdType::Entity,
    )))));
    assert_eq!(plain.value(), 0);
    assert_eq!(custom.value(), 0);
    assert_eq!(nested.value(), 0);
    let custom2 = Id::new(&mut manager, IdType::Custom(Box::new(IdType::Entity)));
    assert_eq!(custom2.value(), 1);
}

#[test]
fn get_id_returns_then_increments() {
    let mut manager = IdManager::new();
    assert_eq!(manager.get_id(IdType::Color), 0);
    assert_eq!(manager.get_id(IdType::Color), 1);
    assert_eq!(manager.get_id(IdType::Color), 2);
}

#[test]
fn many_allocations_never_repeat() {
    let mut manager = IdManager::new();
    let mut seen = Vec::new();
    for _ in 0..100 {
        let id = Id::new(&mut manager, IdType::Component);
        assert!(!seen.contains(&id));
        if let Some(last) = seen.last() {
            assert!(*last < id);
        }
        seen.push(id);
    }
}
