use dorp::{
    Id, IdManager, IdType, Mat4, OptErr, SyncData, Vec2, Vec3, Vec4, WindowBuilder, Windowed,
};

#[test]
fn window_builder_defaults_and_chaining() {
    let builder = WindowBuilder::new();
    assert_eq!(builder.get_windowed(), Windowed::Windowed);
    assert_eq!(builder.get_dimensions(), (640, 480));
    assert_eq!(builder.get_title(), "Untitled");

    let builder = WindowBuilder::new()
        .with_borderless()
        .with_dimensions((1280, 720))
        .with_title("demo".to_string());
    assert_eq!(builder.get_windowed(), Windowed::Borderless);
    assert_eq!(builder.get_dimensions(), (1280, 720));
    assert_eq!(builder.get_title(), "demo");
    let builder = builder.with_windowed();
    assert_eq!(builder.get_windowed(), Windowed::Windowed);
    assert_eq!(builder.get_dimensions(), (1280, 720));
}

#[test]
fn sync_data_stores_matrices_with_inverses_and_colors() {
    let mut manager = IdManager::new();
    let a = Id::new(&mut manager, IdType::Matrix);
    let b = Id::new(&mut manager, IdType::Matrix);
    let mut sync = SyncData::new();
    assert!(sync.get_matrix(a).is_none());
    let m = Mat4::identity();
    let inv = Mat4::identity();
    sync.set_matrix(a, m, inv);
    assert_eq!(sync.get_matrix(a), Some(&m));
    assert_eq!(sync.get_inverse(a), Some(&inv));
    sync.set_vec4(b, Vec4::new(1, 2, 3, 4));
    assert_eq!(sync.get_vec4(b), Some(&Vec4::new(1, 2, 3, 4)));
    assert!(sync.get_vec4(a).is_none());
    assert!(sync.get_matrix(b).is_none());
}

#[test]
fn vector_carriers_are_plain_bit_patterns() {
    let zero = Vec3::zero();
    assert_eq!(zero, Vec3::new(0, 0, 0));
    let one = Vec3::one();
    assert_eq!(one.x, 1.0f32.to_bits());
    assert_eq!(Vec2::new(5, 6).y, 6);
    let from_float = Vec3::new(2.5f32.to_bits(), 0, 0);
    assert_eq!(f32::from_bits(from_float.x), 2.5);
}

#[test]
fn opt_err_distinguishes_its_three_cases() {
    let full: OptErr<u32, &'static str> = OptErr::Full(7);
    let empty: OptErr<u32, &'static str> = OptErr::Empty;
    let error: OptErr<u32, &'static str> = OptErr::Error("broken");
    assert!(matches!(full, OptErr::Full(7)));
    assert!(matches!(empty, OptErr::Empty));
    assert!(matches!(error, OptErr::Error("broken")));
}
