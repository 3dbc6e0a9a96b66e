use dorp::{Id, IdManager, IdType, Map2d, Map2dCoords, Map3d, Map3dCoords};

fn fresh_id(manager: &mut IdManager) -> Id {
    Id::new(manager, IdType::Entity)
}

#[test]
fn map_2d_insert_and_get() {
    let mut manager = IdManager::new();
    let a = fresh_id(&mut manager);
    let b = fresh_id(&mut manager);
    let mut map: Map2d<i64> = Map2d::new();
    assert_eq!(map.get(1, 2), None);
    map.insert(1, 2, a);
    map.insert(-4, 2, b);
    assert_eq!(map.get(1, 2), Some(a));
    assert_eq!(map.get(-4, 2), Some(b));
    assert_eq!(map.get(2, 1), None);
    map.insert(1, 2, b);
    assert_eq!(map.get(1, 2), Some(b));
}

#[test]
fn map_2d_dirty_debounce() {
    let mut manager = IdManager::new();
    let a = fresh_id(&mut manager);
    let mut map: Map2d<i64> = Map2d::new();
    assert!(!map.is_dirty());
    map.tick_mut();
    assert!(!map.is_dirty());
    map.insert(0, 0, a);
    assert!(map.is_dirty());
    map.tick_mut();
    assert!(map.is_dirty());
    map.tick_mut();
    assert!(!map.is_dirty());
}

#[test]
fn map_2d_fresh_insert_restarts_countdown() {
    let mut manager = IdManager::new();
    let a = fresh_id(&mut manager);
    let mut map: Map2d<i64> = Map2d::new();
    map.insert(0, 0, a);
    map.tick_mut();
    assert!(map.is_dirty());
    map.insert(1, 0, a);
    map.tick_mut();
    assert!(map.is_dirty());
    map.tick_mut();
    assert!(!map.is_dirty());
}

#[test]
fn map_2d_coords_register() {
    let mut manager = IdManager::new();
    let a = fresh_id(&mut manager);
    let coords: Map2dCoords<i64> = Map2dCoords::new(5, -7);
    assert_eq!(coords.get_x(), 5);
    assert_eq!(coords.get_y(), -7);
    let mut map: Map2d<i64> = Map2d::new();
    coords.register(a, &mut map);
    assert_eq!(map.get(5, -7), Some(a));
    assert!(map.is_dirty());
}

#[test]
fn map_3d_insert_and_get() {
    let mut manager = IdManager::new();
    let a = fresh_id(&mut manager);
    let b = fresh_id(&mut manager);
    let mut map: Map3d<i64> = Map3d::new();
    assert_eq!(map.get(1, 2, 3), None);
    assert!(map.insert(1, 2, 3, a).is_ok());
    assert!(map.insert(1, 2, 4, b).is_ok());
    assert_eq!(map.get(1, 2, 3), Some(a));
    assert_eq!(map.get(1, 2, 4), Some(b));
    assert_eq!(map.get(3, 2, 1), None);
}

#[test]
fn map_3d_dirty_debounce() {
    let mut manager = IdManager::new();
    let a = fresh_id(&mut manager);
    let mut map: Map3d<i64> = Map3d::new();
    assert!(!map.is_dirty());
    map.insert(0, 0, 0, a).unwrap();
    assert!(map.is_dirty());
    map.tick_mut();
    assert!(map.is_dirty());
    map.tick_mut();
    assert!(!map.is_dirty());
}

#[test]
fn map_3d_coords_register() {
    let mut manager = IdManager::new();
    let a = fresh_id(&mut manager);
    let coords: Map3dCoords<i64> = Map3dCoords::new(1, 2, 3);
    assert_eq!(coords.get_x(), 1);
    assert_eq!(coords.get_y(), 2);
    assert_eq!(coords.get_z(), 3);
    let mut map: Map3d<i64> = Map3d::new();
    assert!(coords.register(a, &mut map).is_ok());
    assert_eq!(map.get(1, 2, 3), Some(a));
}
