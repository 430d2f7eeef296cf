use triangle::host::{handle_event, window_action, exits, Action, Event, Key, WindowEvent};
use triangle::pipeline::{Blend, CullMode, FrontFace, PipelineDesc, Topology};
use triangle::renderer::{Renderer, RenderCommand, Rgba8};
use triangle::surface::{PixelFormat, PresentMode, SurfaceConfig, SurfaceUsage};

fn draws(plan: &[RenderCommand]) -> Vec<RenderCommand> {
    plan.iter().copied().filter(|c| matches!(c, RenderCommand::Draw { .. })).collect()
}

#[test]
fn new_surface_is_standard() {
    let c = SurfaceConfig::new(800, 600);
    assert_eq!(c.width, 800);
    assert_eq!(c.height, 600);
    assert_eq!(c.format, PixelFormat::Bgra8UnormSrgb);
    assert_eq!(c.present_mode, PresentMode::Fifo);
    assert_eq!(c.usage, SurfaceUsage::OutputAttachment);
}

#[test]
fn resize_stores_new_size() {
    for (w, h) in [(1u32, 1u32), (400, 300), (1920, 1080), (u32::MAX, 7)] {
        let mut r = Renderer::new(800, 600);
        r.resize(w, h);
        assert_eq!(r.surface.width, w);
        assert_eq!(r.surface.height, h);
        assert_eq!(r.surface.format, PixelFormat::Bgra8UnormSrgb);
    }
}

#[test]
fn resize_to_same_size_changes_nothing() {
    let mut r = Renderer::new(640, 480);
    let before = r.surface;
    r.resize(640, 480);
    assert_eq!(r.surface, before);
}

#[test]
fn input_is_never_handled() {
    let events = [
        WindowEvent::CloseRequested,
        WindowEvent::KeyboardInput { pressed: true, key: Some(Key::Escape) },
        WindowEvent::KeyboardInput { pressed: false, key: None },
        WindowEvent::Resized { width: 10, height: 20 },
        WindowEvent::ScaleFactorChanged { width: 30, height: 40 },
        WindowEvent::Other,
    ];
    let mut r = Renderer::new(800, 600);
    let before = format!("{:?}", r);
    for e in events.iter() {
        assert!(!r.input(e));
        assert_eq!(format!("{:?}", r), before);
    }
    r.update();
    assert_eq!(format!("{:?}", r), before);
}

#[test]
fn init_has_three_vertices_and_one_pipeline() {
    let r = Renderer::new(800, 600);
    assert_eq!(r.vertices.len(), 3);
    assert_eq!(r.num_vertices(), 3);
    assert_eq!(r.pipeline.color_targets.len(), 1);
    assert_eq!(r.pipeline.color_targets[0].format, PixelFormat::Bgra8UnormSrgb);
}

#[test]
fn render_issues_one_draw_of_three_vertices() {
    let r = Renderer::new(800, 600);
    let plan = r.render();
    let d = draws(&plan);
    assert_eq!(d.len(), 1);
    assert_eq!(
        d[0],
        RenderCommand::Draw { first_vertex: 0, vertex_end: 3, first_instance: 0, instance_end: 1 }
    );
}

#[test]
fn render_clears_to_opaque_white_in_one_pass() {
    let r = Renderer::new(800, 600);
    let plan = r.render();
    assert_eq!(plan.len(), 8);
    assert_eq!(plan[0], RenderCommand::AcquireFrame);
    assert_eq!(plan[1], RenderCommand::BeginCommands);
    assert_eq!(plan[2], RenderCommand::BeginPass { clear: Rgba8 { r: 255, g: 255, b: 255, a: 255 } });
    assert_eq!(plan[3], RenderCommand::SetVertexBuffer { slot: 0 });
    assert_eq!(plan[4], RenderCommand::SetPipeline);
    assert_eq!(plan[6], RenderCommand::EndPass);
    assert_eq!(plan[7], RenderCommand::Submit);
    let passes = plan.iter().filter(|c| matches!(c, RenderCommand::BeginPass { .. })).count();
    assert_eq!(passes, 1);
}

#[test]
fn resize_then_render_keeps_pipeline() {
    let mut r = Renderer::new(800, 600);
    let pipeline_before = format!("{:?}", r.pipeline);
    let plan_before = r.render();
    r.resize(400, 300);
    assert_eq!(r.surface.width, 400);
    assert_eq!(r.surface.height, 300);
    assert_eq!(format!("{:?}", r.pipeline), pipeline_before);
    assert_eq!(r.render(), plan_before);
}

#[test]
fn pipeline_is_fixed() {
    let p = PipelineDesc::new(PixelFormat::Bgra8UnormSrgb);
    assert_eq!(p.bind_group_layouts, 0);
    assert!(p.has_fragment_stage);
    assert_eq!(p.front_face, FrontFace::Ccw);
    assert_eq!(p.cull_mode, CullMode::Back);
    assert_eq!(p.topology, Topology::TriangleList);
    assert!(!p.depth_stencil);
    assert_eq!(p.sample_count, 1);
    assert_eq!(p.sample_mask, u32::MAX);
    assert!(!p.alpha_to_coverage);
    assert_eq!(p.color_targets[0].color_blend, Blend::Replace);
    assert_eq!(p.color_targets[0].alpha_blend, Blend::Replace);
    assert!(p.color_targets[0].write_all);
    assert_eq!(p.vertex_buffers.len(), 1);
    assert_eq!(p.vertex_buffers[0].stride, 24);
}

fn own(e: WindowEvent) -> Event {
    Event::Window { own_window: true, event: e }
}

#[test]
fn escape_press_exits() {
    let mut r = Renderer::new(800, 600);
    let a = handle_event(&mut r, &own(WindowEvent::KeyboardInput { pressed: true, key: Some(Key::Escape) }));
    assert_eq!(a, Action::Exit);
    assert!(exits(&a));
}

#[test]
fn escape_release_and_other_keys_wait() {
    let mut r = Renderer::new(800, 600);
    let released = own(WindowEvent::KeyboardInput { pressed: false, key: Some(Key::Escape) });
    let other = own(WindowEvent::KeyboardInput { pressed: true, key: Some(Key::Other) });
    let unknown = own(WindowEvent::KeyboardInput { pressed: true, key: None });
    assert_eq!(handle_event(&mut r, &released), Action::Wait);
    assert_eq!(handle_event(&mut r, &other), Action::Wait);
    assert_eq!(handle_event(&mut r, &unknown), Action::Wait);
    assert!(!exits(&Action::Wait));
}

#[test]
fn close_request_exits() {
    let mut r = Renderer::new(800, 600);
    assert_eq!(handle_event(&mut r, &own(WindowEvent::CloseRequested)), Action::Exit);
}

#[test]
fn resize_events_resize() {
    let mut r = Renderer::new(800, 600);
    assert_eq!(
        handle_event(&mut r, &own(WindowEvent::Resized { width: 400, height: 300 })),
        Action::Resize { width: 400, height: 300 }
    );
    assert_eq!(
        window_action(&WindowEvent::ScaleFactorChanged { width: 1600, height: 1200 }),
        Action::Resize { width: 1600, height: 1200 }
    );
}

#[test]
fn redraw_and_foreign_events() {
    let mut r = Renderer::new(800, 600);
    assert_eq!(handle_event(&mut r, &Event::RedrawRequested), Action::Redraw);
    assert_eq!(handle_event(&mut r, &Event::Other), Action::Wait);
    let foreign = Event::Window { own_window: false, event: WindowEvent::CloseRequested };
    assert_eq!(handle_event(&mut r, &foreign), Action::Wait);
    assert_eq!(handle_event(&mut r, &own(WindowEvent::Other)), Action::Wait);
}
