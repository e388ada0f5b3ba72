use wgpu::CompositeAlphaMode::{Opaque, PreMultiplied};
use wgpu::TextureFormat::{Bgra8Unorm, Bgra8UnormSrgb, Rgba16Float, Rgba8UnormSrgb};
use webgpu_demo::bindings::{
    compute_group, compute_layout, params_buffer_usage, render_group, render_layout, sampler,
    storage_texture, storage_texture_usage, BindingKind, BufferUsage, FilterMode, GroupEntry,
    LayoutEntry, Resource, SamplerDesc, ShaderStage, StorageTextureDesc, TexelFormat, TextureUsage,
    STORAGE_FORMAT,
};
use webgpu_demo::dispatch::{dispatch_size, workgroup_count, WORKGROUP_SIZE};
use webgpu_demo::frame::{frame_action, FrameAction, SurfaceStatus, QUAD_INSTANCE_COUNT, QUAD_VERTEX_COUNT};
use webgpu_demo::lifecycle::{AppEvent, EventResponse, Lifecycle};
use webgpu_demo::limits::{required_limits, using_resolution};
use webgpu_demo::pipelines::{
    compute_pipeline, render_pipeline, BlendMode, PrimitiveTopology, COMPUTE_ENTRY_POINT,
    FRAGMENT_ENTRY_POINT, VERTEX_ENTRY_POINT,
};
use webgpu_demo::surface::{choose_surface_format, should_resize, surface_settings, MAX_FRAME_LATENCY};

#[test]
fn workgroup_count_rounds_up() {
    assert_eq!(WORKGROUP_SIZE, 16);
    assert_eq!(workgroup_count(0), 0);
    assert_eq!(workgroup_count(1), 1);
    assert_eq!(workgroup_count(16), 1);
    assert_eq!(workgroup_count(17), 2);
    assert_eq!(workgroup_count(800), 50);
    assert_eq!(workgroup_count(600), 38);
    assert_eq!(workgroup_count(u32::MAX - 15), 268435455);
}

#[test]
fn dispatch_covers_every_pixel_of_a_window() {
    let (x, y) = dispatch_size(800, 600);
    assert_eq!((x, y), (50, 38));
    assert!(x * 16 >= 800 && (x - 1) * 16 < 800);
    assert!(y * 16 >= 600 && (y - 1) * 16 < 600);
    assert_eq!(dispatch_size(1, 1), (1, 1));
    assert_eq!(dispatch_size(0, 5), (0, 1));
}

#[test]
fn frame_actions_follow_the_surface() {
    assert_eq!(frame_action(SurfaceStatus::Success), FrameAction::Present);
    assert_eq!(frame_action(SurfaceStatus::Suboptimal), FrameAction::Present);
    assert_eq!(frame_action(SurfaceStatus::Timeout), FrameAction::Skip);
    assert_eq!(frame_action(SurfaceStatus::Occluded), FrameAction::Skip);
    assert_eq!(frame_action(SurfaceStatus::Outdated), FrameAction::SkipWithWarning);
    assert_eq!(frame_action(SurfaceStatus::Lost), FrameAction::SkipWithWarning);
    assert_eq!(frame_action(SurfaceStatus::Validation), FrameAction::SkipWithWarning);
    assert_eq!((QUAD_VERTEX_COUNT, QUAD_INSTANCE_COUNT), (4, 1));
}

#[test]
fn lifecycle_initializes_once_and_ignores_early_events() {
    let mut app = Lifecycle::new();
    assert!(!app.initialized());
    assert_eq!(app.window_event(AppEvent::RedrawRequested), EventResponse::Ignore);
    assert_eq!(app.window_event(AppEvent::CloseRequested), EventResponse::Ignore);
    assert!(app.resumed());
    assert!(app.initialized());
    assert!(!app.resumed());
    assert!(!app.resumed());
    assert_eq!(app.window_event(AppEvent::CloseRequested), EventResponse::Exit);
    assert_eq!(app.window_event(AppEvent::RedrawRequested), EventResponse::RenderAndRedraw);
    assert_eq!(
        app.window_event(AppEvent::Resized { width: 1024, height: 768 }),
        EventResponse::Resize { width: 1024, height: 768 }
    );
    assert_eq!(app.window_event(AppEvent::Other), EventResponse::Ignore);
}

#[test]
fn bind_groups_match_their_layouts() {
    assert_eq!(
        compute_layout(),
        vec![
            LayoutEntry { binding: 0, visibility: ShaderStage::Compute, kind: BindingKind::UniformBuffer },
            LayoutEntry { binding: 1, visibility: ShaderStage::Compute, kind: BindingKind::WriteOnlyStorageTexture { format: TexelFormat::Rgba8Unorm } },
        ]
    );
    assert_eq!(
        render_layout(),
        vec![
            LayoutEntry { binding: 0, visibility: ShaderStage::Fragment, kind: BindingKind::FilterableTexture },
            LayoutEntry { binding: 1, visibility: ShaderStage::Fragment, kind: BindingKind::FilteringSampler },
        ]
    );
    assert_eq!(
        compute_group(),
        vec![
            GroupEntry { binding: 0, resource: Resource::ParamsBuffer },
            GroupEntry { binding: 1, resource: Resource::StorageTextureView },
        ]
    );
    assert_eq!(
        render_group(),
        vec![
            GroupEntry { binding: 0, resource: Resource::StorageTextureView },
            GroupEntry { binding: 1, resource: Resource::Sampler },
        ]
    );
    for (layout, group) in [(compute_layout(), compute_group()), (render_layout(), render_group())] {
        assert_eq!(layout.len(), group.len());
        for (l, g) in layout.iter().zip(group.iter()) {
            assert_eq!(l.binding, g.binding);
        }
    }
    assert_eq!(storage_texture_usage(), TextureUsage { storage_binding: true, texture_binding: true });
}

#[test]
fn surface_prefers_the_first_srgb_format() {
    assert_eq!(choose_surface_format(&vec![]), None);
    assert_eq!(choose_surface_format(&vec![Bgra8Unorm, Bgra8UnormSrgb, Rgba8UnormSrgb]), Some(Bgra8UnormSrgb));
    assert_eq!(choose_surface_format(&vec![Rgba16Float, Bgra8Unorm]), Some(Rgba16Float));
    assert_eq!(choose_surface_format(&vec![Rgba8UnormSrgb]), Some(Rgba8UnormSrgb));
}

#[test]
fn surface_settings_need_a_format_and_an_alpha_mode() {
    assert_eq!(surface_settings(&vec![], &vec![Opaque], 800, 600), None);
    assert_eq!(surface_settings(&vec![Bgra8UnormSrgb], &vec![], 800, 600), None);
    let s = surface_settings(&vec![Bgra8Unorm, Bgra8UnormSrgb], &vec![PreMultiplied, Opaque], 800, 600).unwrap();
    assert_eq!(s.format, Bgra8UnormSrgb);
    assert_eq!(s.alpha_mode, PreMultiplied);
    assert_eq!((s.width, s.height), (800, 600));
    assert_eq!(s.max_frame_latency, MAX_FRAME_LATENCY);
    assert_eq!(MAX_FRAME_LATENCY, 2);
}

#[test]
fn resize_ignores_empty_sizes() {
    let mut s = surface_settings(&vec![Bgra8UnormSrgb], &vec![Opaque], 800, 600).unwrap();
    let before = s;
    assert!(!should_resize(0, 600));
    assert!(!should_resize(800, 0));
    assert!(should_resize(1, 1));
    assert!(!s.resize(0, 300));
    assert_eq!(s, before);
    assert!(!s.resize(300, 0));
    assert_eq!(s, before);
    assert!(s.resize(1024, 768));
    assert_eq!((s.width, s.height), (1024, 768));
    assert_eq!((s.format, s.alpha_mode, s.max_frame_latency), (before.format, before.alpha_mode, before.max_frame_latency));
    let once = s;
    assert!(s.resize(1024, 768));
    assert_eq!(s, once);
    s.resize(10, 10);
    s.resize(0, 0);
    s.resize(640, 480);
    assert_eq!((s.width, s.height), (640, 480));
}

#[test]
fn required_limits_take_resolution_from_the_adapter() {
    let mut adapter = wgpu::Limits::downlevel_webgl2_defaults();
    adapter.max_texture_dimension_1d = 16384;
    adapter.max_texture_dimension_2d = 16384;
    adapter.max_texture_dimension_3d = 4096;
    let limits = required_limits(adapter);
    assert_eq!(limits.max_texture_dimension_1d, 16384);
    assert_eq!(limits.max_texture_dimension_2d, 16384);
    assert_eq!(limits.max_texture_dimension_3d, 4096);
    let defaults = wgpu::Limits::default();
    assert_eq!(limits.max_storage_textures_per_shader_stage, 4);
    assert!(limits.max_storage_textures_per_shader_stage >= 1);
    assert!(limits.max_compute_workgroup_size_x >= 16 && limits.max_compute_workgroup_size_y >= 16);
    assert!(limits.max_compute_invocations_per_workgroup >= 256);
    let mut expected = defaults.clone();
    expected.max_texture_dimension_1d = 16384;
    expected.max_texture_dimension_2d = 16384;
    expected.max_texture_dimension_3d = 4096;
    assert_eq!(limits, expected);
}

#[test]
fn storage_texture_has_the_declared_format() {
    let t = storage_texture(800, 600);
    assert_eq!(
        t,
        StorageTextureDesc {
            width: 800,
            height: 600,
            depth_or_array_layers: 1,
            mip_level_count: 1,
            sample_count: 1,
            format: TexelFormat::Rgba8Unorm,
            usage: TextureUsage { storage_binding: true, texture_binding: true },
        }
    );
    assert_eq!(STORAGE_FORMAT, TexelFormat::Rgba8Unorm);
    match compute_layout()[1].kind {
        BindingKind::WriteOnlyStorageTexture { format } => assert_eq!(format, t.format),
        other => panic!("unexpected binding kind {:?}", other),
    }
    assert_eq!(sampler(), SamplerDesc { mag_filter: FilterMode::Linear, min_filter: FilterMode::Linear });
    assert_eq!(params_buffer_usage(), BufferUsage { uniform: true, copy_dst: true });
}

#[test]
fn using_resolution_copies_only_texture_dimensions() {
    let base = wgpu::Limits::default();
    let other = wgpu::Limits::downlevel_webgl2_defaults();
    let l = using_resolution(base.clone(), other.clone());
    assert_eq!(l, base.clone().using_resolution(other.clone()));
    assert_eq!(l.max_texture_dimension_2d, other.max_texture_dimension_2d);
    assert_eq!(l.max_storage_textures_per_shader_stage, base.max_storage_textures_per_shader_stage);
}

#[test]
fn frames_follow_the_latest_drawable_size() {
    let mut s = surface_settings(&vec![Bgra8UnormSrgb], &vec![Opaque], 800, 600).unwrap();
    assert_eq!(s.storage_texture(), storage_texture(800, 600));
    assert_eq!(s.dispatch_size(), (50, 38));
    for (w, h) in [(1024, 0), (1280, 720), (0, 0), (0, 900), (333, 17), (5, 0)] {
        s.resize(w, h);
    }
    assert_eq!((s.width, s.height), (333, 17));
    assert_eq!(s.storage_texture(), storage_texture(333, 17));
    assert_eq!(s.dispatch_size(), (21, 2));
    assert_eq!(s.format, Bgra8UnormSrgb);
    let t = s.with_dimensions(0, 4);
    assert_eq!((t.width, t.height, t.format), (0, 4, Bgra8UnormSrgb));
}

#[test]
fn pipelines_draw_a_strip_in_the_surface_format() {
    let c = compute_pipeline();
    assert_eq!((c.entry_point, c.workgroup_size), ("main", 16));
    assert_eq!(COMPUTE_ENTRY_POINT, "main");
    let mut s = surface_settings(&vec![Rgba16Float, Rgba8UnormSrgb], &vec![Opaque], 640, 480).unwrap();
    let r = render_pipeline(&s);
    assert_eq!((r.vertex_entry_point, r.fragment_entry_point), ("vs_main", "fs_main"));
    assert_eq!((VERTEX_ENTRY_POINT, FRAGMENT_ENTRY_POINT), ("vs_main", "fs_main"));
    assert_eq!(r.topology, PrimitiveTopology::TriangleStrip);
    assert_eq!(r.blend, BlendMode::Replace);
    assert!(!r.cull_back_faces);
    assert_eq!(r.target_format, Rgba8UnormSrgb);
    assert_eq!((r.vertex_count, r.instance_count), (4, 1));
    s.resize(1920, 1080);
    assert_eq!(render_pipeline(&s), r);
}
