use path_mesh::layout::{interleaved, AttributeFormat, MAX_VERTEX_ATTRIBUTES};
use path_mesh::render::{FrameAction, LoopAction, Size, State, SurfaceError, WindowEvent};

fn size(width: u32, height: u32) -> Size {
    Size { width, height }
}

#[test]
fn zero_sized_resize_is_ignored() {
    let mut s = State::new(size(800, 600), 12);
    assert_eq!(s.resize(size(0, 300)), None);
    assert_eq!(s.size(), size(800, 600));
    assert_eq!(s.resize(size(300, 0)), None);
    assert_eq!(s.size(), size(800, 600));
    assert_eq!(s.resize(size(0, 0)), None);
    assert_eq!(s.size(), size(800, 600));
}

#[test]
fn resize_stores_drawable_size() {
    let mut s = State::new(size(800, 600), 12);
    assert_eq!(s.resize(size(1024, 768)), Some(size(1024, 768)));
    assert_eq!(s.size(), size(1024, 768));
    assert_eq!(s.index_count(), 12);
}

#[test]
fn lost_surface_skips_one_frame_then_draws() {
    let mut s = State::new(size(640, 480), 21);
    assert_eq!(s.on_event(WindowEvent::RedrawRequested), LoopAction::Render);
    assert_eq!(s.after_render(Err(SurfaceError::Lost)), FrameAction::Reconfigure(size(640, 480)));
    assert_eq!(s.on_event(WindowEvent::RedrawRequested), LoopAction::Render);
    assert_eq!(s.after_render(Ok(())), FrameAction::Presented);
    assert!(s.is_running());
}

#[test]
fn outdated_surface_is_reconfigured() {
    let mut s = State::new(size(640, 480), 21);
    s.resize(size(320, 200));
    assert_eq!(s.after_render(Err(SurfaceError::Outdated)), FrameAction::Reconfigure(size(320, 200)));
    let mut z = State::new(size(0, 0), 21);
    assert_eq!(z.after_render(Err(SurfaceError::Lost)), FrameAction::Skip);
}

#[test]
fn out_of_memory_stops_rendering() {
    let mut s = State::new(size(640, 480), 21);
    assert_eq!(s.after_render(Err(SurfaceError::OutOfMemory)), FrameAction::Exit);
    assert!(!s.is_running());
    assert_eq!(s.on_event(WindowEvent::RedrawRequested), LoopAction::Exit);
}

#[test]
fn timeout_skips_the_tick() {
    let mut s = State::new(size(640, 480), 21);
    assert_eq!(s.after_render(Err(SurfaceError::Timeout)), FrameAction::Skip);
    assert!(s.is_running());
    assert_eq!(s.after_render(Ok(())), FrameAction::Presented);
}

#[test]
fn window_events_map_to_actions() {
    let mut s = State::new(size(640, 480), 3);
    assert_eq!(s.on_event(WindowEvent::Resized(size(100, 50))), LoopAction::Configure(size(100, 50)));
    assert_eq!(s.on_event(WindowEvent::ScaleFactorChanged(size(0, 50))), LoopAction::Wait);
    assert_eq!(s.size(), size(100, 50));
    assert_eq!(s.on_event(WindowEvent::EventsCleared), LoopAction::RequestRedraw);
    assert_eq!(s.on_event(WindowEvent::Other), LoopAction::Wait);
    assert_eq!(s.on_event(WindowEvent::EscapePressed), LoopAction::Exit);
    assert!(!s.is_running());
    let mut t = State::new(size(640, 480), 3);
    assert_eq!(t.on_event(WindowEvent::CloseRequested), LoopAction::Exit);
}

#[test]
fn position_color_layout() {
    let layout = interleaved(&vec![AttributeFormat::Float32x3, AttributeFormat::Float32x3]).unwrap();
    assert_eq!(layout.stride, 24);
    assert_eq!(layout.attributes.len(), 2);
    assert_eq!(layout.attributes[0].offset, 0);
    assert_eq!(layout.attributes[0].shader_location, 0);
    assert_eq!(layout.attributes[1].offset, 12);
    assert_eq!(layout.attributes[1].shader_location, 1);
    assert_eq!(layout.attributes[1].format, AttributeFormat::Float32x3);
}

#[test]
fn mixed_layout_and_limit() {
    let layout = interleaved(&vec![
        AttributeFormat::Float32x2,
        AttributeFormat::Float32,
        AttributeFormat::Float32x4,
    ])
    .unwrap();
    assert_eq!(layout.stride, 28);
    assert_eq!(layout.attributes[2].offset, 12);
    assert_eq!(interleaved(&Vec::new()).unwrap().stride, 0);
    assert!(interleaved(&vec![AttributeFormat::Float32; MAX_VERTEX_ATTRIBUTES]).is_some());
    assert!(interleaved(&vec![AttributeFormat::Float32; MAX_VERTEX_ATTRIBUTES + 1]).is_none());
}
