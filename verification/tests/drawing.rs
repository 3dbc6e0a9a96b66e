use dorp::graphics::solid_color::Vertex as SolidVertex;
use dorp::graphics::texture2d::Vertex as TexVertex;
use dorp::graphics::vertex_color::Vertex as ColorVertex;
use dorp::{
    DorpErr, DrawMethod, Frame, IdManager, Mat4, Renderable, RenderableSolidColor,
    RenderableTex2, RenderableVertexColor, RendererType, Renderers, SyncData, Vec2, Vec3, Vec4,
};

fn mat(tag: u32) -> Mat4 {
    Mat4::new(
        Vec4::new(tag, 0, 0, 0),
        Vec4::new(0, tag, 0, 0),
        Vec4::new(0, 0, tag, 0),
        Vec4::new(0, 0, 0, tag),
    )
}

fn staged_solid(manager: &mut IdManager) -> RenderableSolidColor {
    let mut component = RenderableSolidColor::new(manager);
    component.set_vertices(vec![SolidVertex::new(Vec3::new(1, 0, 0))]);
    component.set_indices(vec![0]);
    component.set_draw_method(DrawMethod::Neither);
    component.set_perspective(mat(1), mat(1));
    component.set_view(mat(2), mat(2));
    component.set_model(mat(3), mat(3));
    component.set_color(Vec4::new(1, 2, 3, 4));
    component
}

#[test]
fn a_fully_flushed_solid_renderable_resolves_to_one_draw_call() {
    let mut manager = IdManager::new();
    let mut component = staged_solid(&mut manager);
    let mut sync = SyncData::new();
    let mut renderers = Renderers::new();
    component.render(&mut sync, &mut renderers).unwrap();

    let mut renderable = Renderable::new();
    renderable.set_solid_color(component);

    let mut frame = Frame::new(renderers);
    assert_eq!(frame.draw_count(), 0);
    frame.draw_renderable(&renderable, &sync).expect("all resources present");
    assert_eq!(frame.draw_count(), 1);
    let (_, draws) = frame.end();
    assert_eq!(draws.len(), 1);
    let call = draws[0];
    assert_eq!(call.kind, RendererType::SolidColor);
    assert_eq!(call.draw_method, DrawMethod::Neither);
    assert_eq!(call.perspective, mat(1));
    assert_eq!(call.view, mat(2));
    assert_eq!(call.model, mat(3));
    assert_eq!(call.color, Some(Vec4::new(1, 2, 3, 4)));
    assert_eq!(call.texture_id, None);
}

#[test]
fn each_missing_resource_is_named_in_the_error() {
    let mut manager = IdManager::new();
    let mut sync = SyncData::new();
    let mut renderers = Renderers::new();

    // Nothing flushed at all: the vertex buffer is the first thing missed.
    let bare = RenderableSolidColor::new(&mut manager);
    let mut renderable = Renderable::new();
    renderable.set_solid_color(bare);
    let mut frame = Frame::new(renderers);
    assert_eq!(frame.draw_renderable(&renderable, &sync), Err(DorpErr::MissingVertices));
    assert_eq!(frame.draw_count(), 0);
    let (r, _) = frame.end();
    renderers = r;

    // Vertices flushed but nothing else: the index buffer is next.
    let mut partial = RenderableSolidColor::new(&mut manager);
    partial.set_vertices(vec![SolidVertex::new(Vec3::new(1, 0, 0))]);
    partial.render(&mut sync, &mut renderers).unwrap();
    let mut renderable = Renderable::new();
    renderable.set_solid_color(partial);
    let mut frame = Frame::new(renderers);
    assert_eq!(frame.draw_renderable(&renderable, &sync), Err(DorpErr::MissingIndices));
    let (r, _) = frame.end();
    renderers = r;

    // Buffers flushed but no color uniform yet.
    let mut no_color = RenderableSolidColor::new(&mut manager);
    no_color.set_vertices(vec![SolidVertex::new(Vec3::new(1, 0, 0))]);
    no_color.set_indices(vec![0]);
    no_color.render(&mut sync, &mut renderers).unwrap();
    let mut renderable = Renderable::new();
    renderable.set_solid_color(no_color);
    let mut frame = Frame::new(renderers);
    assert_eq!(frame.draw_renderable(&renderable, &sync), Err(DorpErr::MissingColor));
}

#[test]
fn vertex_color_renderable_draws_without_a_color_uniform() {
    let mut manager = IdManager::new();
    let mut component = RenderableVertexColor::new(&mut manager);
    component.set_vertices(vec![ColorVertex::new(Vec3::new(1, 0, 0), Vec4::new(9, 9, 9, 9))]);
    component.set_indices(vec![0]);
    component.set_draw_method(DrawMethod::Neither);
    component.set_perspective(mat(1), mat(1));
    component.set_view(mat(2), mat(2));
    component.set_model(mat(3), mat(3));
    let mut sync = SyncData::new();
    let mut renderers = Renderers::new();
    component.render(&mut sync, &mut renderers).unwrap();
    let mut renderable = Renderable::new();
    renderable.set_vertex_color(component);
    let mut frame = Frame::new(renderers);
    frame.draw_renderable(&renderable, &sync).expect("all resources present");
    let (_, draws) = frame.end();
    assert_eq!(draws[0].kind, RendererType::VertexColor);
    assert_eq!(draws[0].color, None);
}

#[test]
fn an_empty_renderable_contributes_no_draw_call() {
    let renderable = Renderable::new();
    let sync = SyncData::new();
    let mut frame = Frame::new(Renderers::new());
    assert_eq!(frame.draw_renderable(&renderable, &sync), Err(DorpErr::RendererType));
    assert_eq!(frame.draw_count(), 0);
}

#[test]
fn a_textured_renderable_without_a_texture_is_refused() {
    let mut manager = IdManager::new();
    let mut component = RenderableTex2::new(&mut manager);
    component.set_vertices(vec![TexVertex::new(Vec3::new(1, 0, 0), Vec2::new(0, 0))]);
    component.set_indices(vec![0]);
    let mut sync = SyncData::new();
    let mut renderers = Renderers::new();
    component.render(&mut sync, &mut renderers).unwrap();
    let mut renderable = Renderable::new();
    renderable.set_texture2d(component);
    let mut frame = Frame::new(renderers);
    assert_eq!(frame.draw_renderable(&renderable, &sync), Err(DorpErr::MissingTexture));
}

#[test]
fn missing_matrices_and_draw_method_are_each_named() {
    let mut manager = IdManager::new();
    let mut sync = SyncData::new();
    let mut renderers = Renderers::new();

    // Buffers and color present, matrices absent.
    let mut no_matrices = RenderableSolidColor::new(&mut manager);
    no_matrices.set_vertices(vec![SolidVertex::new(Vec3::new(1, 0, 0))]);
    no_matrices.set_indices(vec![0]);
    no_matrices.set_color(Vec4::new(1, 1, 1, 1));
    no_matrices.render(&mut sync, &mut renderers).unwrap();
    let mut renderable = Renderable::new();
    renderable.set_solid_color(no_matrices);
    let mut frame = Frame::new(renderers);
    assert_eq!(frame.draw_renderable(&renderable, &sync), Err(DorpErr::MissingMatrix));
    let (r, _) = frame.end();

    // Everything but the draw parameters present.
    let mut renderers = r;
    let mut no_method = RenderableSolidColor::new(&mut manager);
    no_method.set_vertices(vec![SolidVertex::new(Vec3::new(1, 0, 0))]);
    no_method.set_indices(vec![0]);
    no_method.set_color(Vec4::new(1, 1, 1, 1));
    no_method.set_perspective(mat(1), mat(1));
    no_method.set_view(mat(2), mat(2));
    no_method.set_model(mat(3), mat(3));
    no_method.render(&mut sync, &mut renderers).unwrap();
    let mut renderable = Renderable::new();
    renderable.set_solid_color(no_method);
    let mut frame = Frame::new(renderers);
    assert_eq!(frame.draw_renderable(&renderable, &sync), Err(DorpErr::MissingDrawMethod));
}
