use dorp::graphics::solid_color::Vertex as SolidVertex;
use dorp::{
    CullingMethod, DepthTestMethod, DorpErr, DrawMethod, IdManager, Mat4, Renderable,
    RenderableSolidColor, RenderableTex2, Renderers, SyncData, Vec3, Vec4,
};

fn mat(tag: u32) -> Mat4 {
    Mat4::new(
        Vec4::new(tag, 0, 0, 0),
        Vec4::new(0, tag, 0, 0),
        Vec4::new(0, 0, tag, 0),
        Vec4::new(0, 0, 0, tag),
    )
}

#[test]
fn solid_color_flush_pushes_each_latest_value_exactly_once() {
    let mut manager = IdManager::new();
    let mut component = RenderableSolidColor::new(&mut manager);
    let mut sync = SyncData::new();
    let mut renderers = Renderers::new();

    let v1 = vec![SolidVertex::new(Vec3::new(1, 1, 1))];
    let v2 = vec![SolidVertex::new(Vec3::new(2, 2, 2)), SolidVertex::new(Vec3::new(3, 3, 3))];
    component.set_vertices(v1);
    component.set_color(Vec4::new(9, 9, 9, 9));
    component.set_indices(vec![0, 1, 2]);
    component.set_vertices(v2.clone());
    component.set_draw_method(DrawMethod::Both(DepthTestMethod::IfLess, CullingMethod::Clockwise));
    component.set_perspective(mat(1), mat(11));
    component.set_view(mat(2), mat(22));
    component.set_model(mat(3), mat(33));
    component.set_color(Vec4::new(5, 6, 7, 8));

    assert!(component.render(&mut sync, &mut renderers).is_ok());

    let solid = renderers.get_solid_color();
    assert_eq!(
        solid.get_vertices(component.get_vertex_id()).expect("vertices pushed").as_slice(),
        v2.as_slice(),
    );
    assert_eq!(
        solid.get_indices(component.get_index_id()).expect("indices pushed").as_slice(),
        &[0, 1, 2],
    );
    assert_eq!(
        solid.get_draw_method(component.get_draw_method_id()),
        Some(&DrawMethod::Both(DepthTestMethod::IfLess, CullingMethod::Clockwise)),
    );
    assert_eq!(sync.get_matrix(component.get_perspective_id()), Some(&mat(1)));
    assert_eq!(sync.get_inverse(component.get_perspective_id()), Some(&mat(11)));
    assert_eq!(sync.get_matrix(component.get_view_id()), Some(&mat(2)));
    assert_eq!(sync.get_matrix(component.get_model_id()), Some(&mat(3)));
    assert_eq!(sync.get_inverse(component.get_model_id()), Some(&mat(33)));
    assert_eq!(sync.get_vec4(component.get_color_id()), Some(&Vec4::new(5, 6, 7, 8)));
}

#[test]
fn second_flush_with_no_new_staging_is_a_no_op() {
    let mut manager = IdManager::new();
    let mut component = RenderableSolidColor::new(&mut manager);
    let mut sync = SyncData::new();
    let mut renderers = Renderers::new();
    component.set_vertices(vec![SolidVertex::new(Vec3::new(1, 2, 3))]);
    component.render(&mut sync, &mut renderers).unwrap();

    // Overwrite the committed buffer behind the component's back: an
    // idempotent second flush must not push the stale value again.
    let probe = vec![SolidVertex::new(Vec3::new(7, 7, 7))];
    renderers.get_mut_solid_color().set_vertices(component.get_vertex_id(), probe.clone());
    component.render(&mut sync, &mut renderers).unwrap();
    assert_eq!(
        renderers.get_solid_color().get_vertices(component.get_vertex_id()).unwrap().as_slice(),
        probe.as_slice(),
    );
}

#[test]
fn ids_are_distinct_and_stable_across_flushes() {
    let mut manager = IdManager::new();
    let component = RenderableSolidColor::new(&mut manager);
    let p = component.get_perspective_id();
    let v = component.get_view_id();
    let m = component.get_model_id();
    assert_ne!(p, v);
    assert_ne!(v, m);
    assert_ne!(p, m);
    let copy = RenderableSolidColor::new_from(&component);
    assert_eq!(copy.get_perspective_id(), p);
    assert_eq!(copy.get_view_id(), v);
    assert_eq!(copy.get_model_id(), m);
    assert_eq!(copy.get_vertex_id(), component.get_vertex_id());
    assert_eq!(copy.get_index_id(), component.get_index_id());
    assert_eq!(copy.get_draw_method_id(), component.get_draw_method_id());
    assert_eq!(copy.get_color_id(), component.get_color_id());
}

#[test]
fn undecodable_texture_bytes_abort_the_flush_and_keep_it_dirty() {
    let mut manager = IdManager::new();
    let mut component = RenderableTex2::new(&mut manager);
    let mut sync = SyncData::new();
    let mut renderers = Renderers::new();
    component.set_vertices(vec![dorp::graphics::texture2d::Vertex::new(
        Vec3::new(1, 1, 1),
        dorp::Vec2::new(0, 0),
    )]);
    component.set_texture(vec![0, 1, 2, 3]);
    component.set_model(mat(4), mat(44));

    assert_eq!(component.render(&mut sync, &mut renderers), Err(DorpErr::TextureDecode));
    // The buffers staged before the texture were pushed; the rest was not.
    assert!(renderers.get_texture2d().get_vertices(component.get_vertex_id()).is_some());
    assert!(renderers.get_texture2d().get_texture(component.get_texture_id()).is_none());
    assert_eq!(sync.get_matrix(component.get_model_id()), None);
    // The pending buffer survived: retrying fails the same way rather
    // than silently doing nothing.
    assert_eq!(component.render(&mut sync, &mut renderers), Err(DorpErr::TextureDecode));
}

#[test]
fn decodable_texture_bytes_are_decoded_into_the_texture_table() {
    let mut manager = IdManager::new();
    let mut component = RenderableTex2::new(&mut manager);
    let mut sync = SyncData::new();
    let mut renderers = Renderers::new();

    let mut image = image::RgbaImage::new(2, 1);
    image.put_pixel(0, 0, image::Rgba([10, 20, 30, 255]));
    image.put_pixel(1, 0, image::Rgba([40, 50, 60, 255]));
    let mut encoded: Vec<u8> = Vec::new();
    image
        .write_to(&mut std::io::Cursor::new(&mut encoded), image::ImageFormat::Png)
        .expect("encoding succeeds");

    component.set_texture(encoded.clone());
    assert!(component.render(&mut sync, &mut renderers).is_ok());
    let texture = renderers
        .get_texture2d()
        .get_texture(component.get_texture_id())
        .expect("texture decoded");
    assert_eq!(texture.width, 2);
    assert_eq!(texture.height, 1);
    assert_eq!(texture.pixels, vec![10, 20, 30, 255, 40, 50, 60, 255]);
    assert_ne!(texture.pixels, encoded);
}

#[test]
fn empty_renderable_refuses_render_and_set_model() {
    let mut renderable = Renderable::new();
    let mut sync = SyncData::new();
    let mut renderers = Renderers::new();
    assert_eq!(renderable.render(&mut sync, &mut renderers), Err(DorpErr::RendererType));
    assert_eq!(renderable.set_model(mat(1), mat(1)), Err(DorpErr::RendererType));
    // No table writes happened.
    let mut manager = IdManager::new();
    let probe = RenderableSolidColor::new(&mut manager);
    assert!(renderers.get_solid_color().get_vertices(probe.get_vertex_id()).is_none());
    assert!(sync.get_matrix(probe.get_model_id()).is_none());
}

#[test]
fn wrapper_dispatches_to_the_active_payload() {
    let mut manager = IdManager::new();
    let mut renderable = Renderable::new();
    let component = RenderableSolidColor::new(&mut manager);
    let model_id = component.get_model_id();
    renderable.set_solid_color(component);
    assert_eq!(renderable.get_renderer_type(), dorp::RendererType::SolidColor);
    assert!(renderable.get_solid_color().is_some());
    assert!(renderable.get_texture2d().is_none());
    let mut sync = SyncData::new();
    let mut renderers = Renderers::new();
    assert!(renderable.set_model(mat(6), mat(66)).is_ok());
    assert!(renderable.render(&mut sync, &mut renderers).is_ok());
    assert_eq!(sync.get_matrix(model_id), Some(&mat(6)));
    assert_eq!(sync.get_inverse(model_id), Some(&mat(66)));
}

#[test]
fn setting_a_new_kind_discards_the_previous_payload() {
    let mut manager = IdManager::new();
    let mut renderable = Renderable::new();
    renderable.set_solid_color(RenderableSolidColor::new(&mut manager));
    renderable.set_texture2d(RenderableTex2::new(&mut manager));
    assert_eq!(renderable.get_renderer_type(), dorp::RendererType::Texture2d);
    assert!(renderable.get_solid_color().is_none());
    assert!(renderable.get_texture2d().is_some());
}

#[test]
fn transform_stages_the_model_only_while_dirty() {
    let mut manager = IdManager::new();
    let mut renderable = Renderable::new();
    let component = RenderableSolidColor::new(&mut manager);
    let model_id = component.get_model_id();
    renderable.set_solid_color(component);

    let mut transform = dorp::Transform::new();
    assert_eq!(transform.get_position(), Vec3::zero());
    assert_eq!(transform.get_scalation(), Vec3::one());
    let mut sync = SyncData::new();
    let mut renderers = Renderers::new();
    assert!(transform.render(&mut renderable, mat(9), mat(99)).is_ok());
    assert!(renderable.render(&mut sync, &mut renderers).is_ok());
    assert_eq!(sync.get_matrix(model_id), Some(&mat(9)));

    // Clean transform: nothing staged, so nothing re-pushed.
    assert!(transform.render(&mut renderable, mat(1), mat(1)).is_ok());
    assert!(renderable.render(&mut sync, &mut renderers).is_ok());
    assert_eq!(sync.get_matrix(model_id), Some(&mat(9)));

    // A moved transform is dirty again.
    transform.set_position(Vec3::new(1, 2, 3));
    assert_eq!(transform.get_position(), Vec3::new(1, 2, 3));
    assert!(transform.render(&mut renderable, mat(2), mat(22)).is_ok());
    assert!(renderable.render(&mut sync, &mut renderers).is_ok());
    assert_eq!(sync.get_matrix(model_id), Some(&mat(2)));
}

#[test]
fn transform_on_an_empty_renderable_stays_dirty() {
    let mut transform = dorp::Transform::new();
    let mut renderable = Renderable::new();
    assert_eq!(transform.render(&mut renderable, mat(1), mat(1)), Err(DorpErr::RendererType));
    // Still dirty: once a payload exists, the model gets staged.
    let mut manager = IdManager::new();
    let component = RenderableSolidColor::new(&mut manager);
    let model_id = component.get_model_id();
    renderable.set_solid_color(component);
    assert!(transform.render(&mut renderable, mat(5), mat(55)).is_ok());
    let mut sync = SyncData::new();
    let mut renderers = Renderers::new();
    assert!(renderable.render(&mut sync, &mut renderers).is_ok());
    assert_eq!(sync.get_matrix(model_id), Some(&mat(5)));
}
