use richter_render::extent::{Extent2d, RenderResolution};
use richter_render::frame::{encode_lights, frame_steps, plan_frame, FrameScratch, FrameStep, MAX_LIGHTS};
use richter_render::graphics::{
    check_archive, AddressMode, BindGroupEntry, BindGroupLayoutId, BindingResource, FilterMode,
    GraphicsState, Palette, RenderError, UpdateReport, PALETTE_BYTES,
};
use richter_render::node::ClientRenderer;
use richter_render::target::{AttachmentUsage, PassTarget, PassTargetKind};
use richter_render::texture::{
    bytes_per_texel, create_texture, texture_descriptor, DiffuseData, FullbrightData, LightmapData,
    TextureData, TextureFormat,
};
use richter_render::ui::{
    screen_space_vertex_scale, screen_space_vertex_transform, screen_space_vertex_translate,
    select_overlay, ui_state, GlyphCommand, InputFocus, QuadCommand, UiCommand, UiOverlay,
    UiRenderer, UiState, UiSurface,
};
use richter_render::uniform::DynamicUniformBuffer;

fn palette_bytes() -> Vec<u8> {
    (0..PALETTE_BYTES).map(|i| (i % 256) as u8).collect()
}

fn archive_bytes() -> Vec<u8> {
    // WAD2, one directory entry at offset 12
    let mut b = b"WAD2".to_vec();
    b.extend_from_slice(&1u32.to_le_bytes());
    b.extend_from_slice(&12u32.to_le_bytes());
    b.extend_from_slice(&[0u8; 32]);
    b
}

fn state(w: u32, h: u32, samples: u32) -> GraphicsState {
    GraphicsState::new(Extent2d { width: w, height: h }, samples, &palette_bytes(), &archive_bytes(), 80).unwrap()
}

#[test]
fn target_reports_requested_size() {
    for &(w, h) in &[(1u32, 1u32), (640, 480), (1920, 1080)] {
        for kind in [PassTargetKind::Initial, PassTargetKind::Deferred, PassTargetKind::Final] {
            let t = PassTarget::new(kind, Extent2d { width: w, height: h }, 2);
            assert_eq!(t.size(), Extent2d { width: w, height: h });
            for a in t.attachments() {
                assert_eq!((a.width, a.height), (w, h));
                assert_eq!(a.sample_count, t.sample_count());
            }
        }
    }
}

#[test]
fn zero_dimension_target_clamps_allocation_only() {
    let t = PassTarget::new(PassTargetKind::Initial, Extent2d { width: 0, height: 7 }, 4);
    assert_eq!(t.size(), Extent2d { width: 0, height: 7 });
    assert_eq!(t.attachments().len(), 4);
    for a in t.attachments() {
        assert_eq!((a.width, a.height, a.sample_count), (1, 7, 4));
    }
    let t = PassTarget::new(PassTargetKind::Deferred, Extent2d { width: 5, height: 0 }, 1);
    assert_eq!(t.size(), Extent2d { width: 5, height: 0 });
    assert_eq!((t.attachments()[0].width, t.attachments()[0].height), (5, 1));
}

#[test]
fn initial_target_layout_and_final_single_sample() {
    let t = PassTarget::new(PassTargetKind::Initial, Extent2d { width: 8, height: 8 }, 4);
    let usages: Vec<AttachmentUsage> = t.attachments().iter().map(|a| a.usage).collect();
    assert_eq!(
        usages,
        vec![AttachmentUsage::Diffuse, AttachmentUsage::Normal, AttachmentUsage::Light, AttachmentUsage::Depth]
    );
    assert_eq!(t.attachments()[3].format, TextureFormat::Depth32Float);
    let f = PassTarget::new(PassTargetKind::Final, Extent2d { width: 8, height: 8 }, 4);
    assert_eq!(f.sample_count(), 1);
    assert_eq!(f.format(), TextureFormat::Rgba8UnormSrgb);
}

#[test]
fn pipelines_take_new_sample_count() {
    for s in [1u32, 2, 4] {
        let start = if s == 1 { 2 } else { 1 };
        let mut g = state(320, 200, start);
        let r = g.update(Extent2d { width: 320, height: 200 }, s);
        assert!(r.pipelines_rebuilt);
        assert_eq!(g.sample_count(), s);
        for p in [
            g.alias_pipeline(),
            g.brush_pipeline(),
            g.sprite_pipeline(),
            g.deferred_pipeline(),
            g.particle_pipeline(),
            g.postprocess_pipeline(),
            g.glyph_pipeline(),
            g.quad_pipeline(),
        ] {
            assert_eq!(p.sample_count, s);
        }
        assert_eq!(g.initial_pass_target().sample_count(), s);
        assert_eq!(g.final_pass_target().sample_count(), 1);
    }
}

#[test]
fn update_twice_is_idempotent() {
    let mut g = state(320, 200, 1);
    let first = g.update(Extent2d { width: 800, height: 600 }, 4);
    assert_eq!(
        first,
        UpdateReport {
            pipelines_rebuilt: true,
            initial_target_replaced: true,
            deferred_target_replaced: true,
            final_target_replaced: true,
        }
    );
    let second = g.update(Extent2d { width: 800, height: 600 }, 4);
    assert_eq!(
        second,
        UpdateReport {
            pipelines_rebuilt: false,
            initial_target_replaced: false,
            deferred_target_replaced: false,
            final_target_replaced: false,
        }
    );
    assert_eq!(g.initial_pass_target().size(), Extent2d { width: 800, height: 600 });
}

#[test]
fn update_checks_resolution_and_samples_independently() {
    let mut g = state(320, 200, 2);
    let r = g.update(Extent2d { width: 320, height: 200 }, 4);
    assert!(r.pipelines_rebuilt && r.initial_target_replaced && r.deferred_target_replaced);
    assert!(!r.final_target_replaced);
    let r = g.update(Extent2d { width: 640, height: 400 }, 4);
    assert!(!r.pipelines_rebuilt);
    assert!(r.initial_target_replaced && r.deferred_target_replaced && r.final_target_replaced);
}

#[test]
fn format_change_rebuilds_pipelines() {
    let mut g = state(64, 64, 2);
    assert_eq!(g.format(), TextureFormat::Rgba8UnormSrgb);
    assert!(!g.sync_format(TextureFormat::Rgba8UnormSrgb));
    assert!(g.sync_format(TextureFormat::Bgra8UnormSrgb));
    assert_eq!(g.format(), TextureFormat::Bgra8UnormSrgb);
    assert_eq!(g.blit_pipeline().format(), TextureFormat::Bgra8UnormSrgb);
    assert_eq!(g.quad_pipeline().sample_count, 2);
}

#[test]
fn bad_palette_is_a_construction_error() {
    let r = GraphicsState::new(Extent2d { width: 4, height: 4 }, 1, &[0u8; 10], &archive_bytes(), 80);
    assert_eq!(r.err(), Some(RenderError::InvalidPalette { len: 10 }));
    let r = GraphicsState::new(Extent2d { width: 4, height: 4 }, 1, &palette_bytes(), b"WAD3\0\0\0\0\0\0\0\0", 80);
    assert_eq!(r.err(), Some(RenderError::InvalidArchive));
    assert_eq!(Palette::from_lmp(&[]).err(), Some(RenderError::InvalidPalette { len: 0 }));
}

#[test]
fn palette_lookup() {
    let g = state(4, 4, 1);
    assert_eq!(g.palette().color(0), (0, 1, 2));
    assert_eq!(g.palette().color(255), ((765 % 256) as u8, (766 % 256) as u8, (767 % 256) as u8));
}

#[test]
fn samplers_and_default_lightmap() {
    let g = state(4, 4, 1);
    assert_eq!(g.diffuse_sampler().address_mode, AddressMode::Repeat);
    assert_eq!(g.diffuse_sampler().filter, FilterMode::Linear);
    assert_eq!(g.nearest_sampler().filter, FilterMode::Nearest);
    assert_eq!(g.lightmap_sampler().address_mode, AddressMode::ClampToEdge);
    let l = g.default_lightmap();
    assert_eq!((l.descriptor.width, l.descriptor.height, l.bytes_per_row), (1, 1, 1));
    assert_eq!(l.descriptor.format, TextureFormat::R8Unorm);
}

#[test]
fn light_list_is_capped() {
    let lights: Vec<u32> = (1..=40).collect();
    let r = encode_lights(&lights, 0);
    assert_eq!(r.light_count as usize, MAX_LIGHTS);
    assert_eq!(r.lights.len(), MAX_LIGHTS);
    assert_eq!(r.lights, (1..=32).collect::<Vec<u32>>());
}

#[test]
fn light_list_pads_with_empty() {
    let r = encode_lights(&vec![7u32, 8, 9], 0);
    assert_eq!(r.light_count, 3);
    assert_eq!(&r.lights[..4], &[7, 8, 9, 0]);
    assert!(r.lights[3..].iter().all(|&l| l == 0));
    let r = encode_lights(&Vec::<u32>::new(), 5);
    assert_eq!(r.light_count, 0);
    assert!(r.lights.iter().all(|&l| l == 5));
}

#[test]
fn screen_space_transform_exact() {
    let t = screen_space_vertex_translate(1920, 1080, 0, 0);
    assert_eq!((t.x_num, t.x_den, t.y_num, t.y_den), (-1920, 1920, -1080, 1080));
    let s = screen_space_vertex_scale(1920, 1080, 100, 50);
    assert_eq!((s.x_num, s.x_den, s.y_num, s.y_den), (200, 1920, 100, 1080));
    let m = screen_space_vertex_transform(1920, 1080, 100, 50, 0, 0);
    assert_eq!(m.translate, t);
    assert_eq!(m.scale, s);
    let c = screen_space_vertex_translate(1920, 1080, 960, 540);
    assert_eq!((c.x_num, c.y_num), (0, 0));
}

#[test]
fn overlay_precedence() {
    assert_eq!(select_overlay(InputFocus::Console, Some('c'), Some('m')), Some(UiOverlay::Console('c')));
    assert_eq!(select_overlay(InputFocus::Menu, Some('c'), Some('m')), Some(UiOverlay::Menu('m')));
    assert_eq!(select_overlay::<char, char>(InputFocus::Game, Some('c'), Some('m')), None);
    assert_eq!(select_overlay::<char, char>(InputFocus::Console, None, Some('m')), None);
    assert_eq!(
        ui_state(Some(1u8), InputFocus::Console, Some('c'), Some('m')),
        Some(UiState::InGame { hud: 1u8, overlay: Some(UiOverlay::Console('c')) })
    );
    assert_eq!(
        ui_state(Some(1u8), InputFocus::Game, Some('c'), Some('m')),
        Some(UiState::InGame { hud: 1u8, overlay: None })
    );
    assert_eq!(
        ui_state(None::<u8>, InputFocus::Menu, Some('c'), Some('m')),
        Some(UiState::Title { overlay: UiOverlay::Menu('m') })
    );
    assert_eq!(ui_state::<u8, char, char>(None, InputFocus::Game, Some('c'), Some('m')), None);
}

#[test]
fn console_proportion_depends_on_hud() {
    let ui = UiRenderer::new();
    let in_game: UiState<u8, char, char> = UiState::InGame { hud: 0, overlay: Some(UiOverlay::Console('c')) };
    assert_eq!(ui.surfaces(&in_game), vec![UiSurface::Hud, UiSurface::Console { proportion_percent: 33 }]);
    let title: UiState<u8, char, char> = UiState::Title { overlay: UiOverlay::Console('c') };
    assert_eq!(ui.surfaces(&title), vec![UiSurface::Console { proportion_percent: 100 }]);
    let menu: UiState<u8, char, char> = UiState::InGame { hud: 0, overlay: Some(UiOverlay::Menu('m')) };
    assert_eq!(ui.surfaces(&menu), vec![UiSurface::Hud, UiSurface::Menu]);
}

#[test]
fn glyphs_draw_above_quads() {
    let q = QuadCommand { texture: 3, pos_x: 10, pos_y: 10, width: 16, height: 16 };
    let g = GlyphCommand { glyph: b'A', pos_x: 10, pos_y: 10, size: 16 };
    let ui = UiRenderer::new();
    let size = Extent2d { width: 320, height: 200 };
    for cmds in [vec![UiCommand::Quad(q), UiCommand::Glyph(g)], vec![UiCommand::Glyph(g), UiCommand::Quad(q)]] {
        let d = ui.batch_commands(size, &cmds);
        assert_eq!(d.quads, vec![q]);
        assert_eq!(d.glyphs, vec![g]);
        assert_eq!(d.quad_transforms, vec![screen_space_vertex_transform(320, 200, 16, 16, 10, 10)]);
    }
}

#[test]
fn batching_keeps_generation_order_within_kind() {
    let q1 = QuadCommand { texture: 1, pos_x: 0, pos_y: 0, width: 1, height: 1 };
    let q2 = QuadCommand { texture: 2, pos_x: 5, pos_y: 5, width: 2, height: 2 };
    let g1 = GlyphCommand { glyph: 1, pos_x: 0, pos_y: 0, size: 8 };
    let cmds = vec![UiCommand::Quad(q1), UiCommand::Glyph(g1), UiCommand::Quad(q2)];
    let d = UiRenderer::new().batch_commands(Extent2d { width: 10, height: 10 }, &cmds);
    assert_eq!(d.quads, vec![q1, q2]);
    assert_eq!(d.quad_transforms[1].translate.x_num, 0);
    assert_eq!(d.quad_transforms[1].scale.x_num, 4);
    let empty = UiRenderer::new().batch_commands(Extent2d { width: 10, height: 10 }, &vec![]);
    assert!(empty.quads.is_empty() && empty.glyphs.is_empty() && empty.quad_transforms.is_empty());
}

#[test]
fn frame_steps_order() {
    let (sync, reset, deferred, fin, post, ui, blit) = (
        FrameStep::SyncFormat,
        FrameStep::ResetScratch,
        FrameStep::DeferredPass,
        FrameStep::FinalPass,
        FrameStep::PostProcess,
        FrameStep::Ui,
        FrameStep::Blit,
    );
    assert_eq!(frame_steps(true, true, true), vec![sync, reset, deferred, fin, post, ui, blit]);
    assert_eq!(frame_steps(false, true, true), vec![sync, reset, fin, ui, blit]);
    assert_eq!(frame_steps(true, false, false), vec![sync, reset, fin, blit]);
}

#[test]
fn scratch_is_empty_each_frame() {
    let mut s = FrameScratch::new();
    s.commands.push(UiCommand::Glyph(GlyphCommand { glyph: 0, pos_x: 0, pos_y: 0, size: 1 }));
    let n = s.arena.alloc(5u32);
    assert_eq!(*n, 5);
    s.begin_frame();
    assert!(s.commands.is_empty());
}

#[test]
fn texture_strides_and_upload() {
    assert_eq!(bytes_per_texel(TextureFormat::R8Unorm), Some(1));
    assert_eq!(bytes_per_texel(TextureFormat::Rgba8UnormSrgb), Some(4));
    assert_eq!(bytes_per_texel(TextureFormat::Rgba16Float), Some(8));
    assert_eq!(bytes_per_texel(TextureFormat::Depth32Float), None);
    let d = TextureData::Diffuse(DiffuseData { rgba: vec![0; 16] });
    assert_eq!((d.stride(), d.size(), d.format()), (4, 16, TextureFormat::Rgba8UnormSrgb));
    let f = TextureData::Fullbright(FullbrightData { fullbright: vec![1, 2] });
    assert_eq!((f.stride(), f.data()), (1, &[1u8, 2][..]));
    let up = create_texture(Some("t".to_string()), 2, 2, &d);
    assert_eq!(up.bytes_per_row, 8);
    assert_eq!(up.descriptor, texture_descriptor(Some("t".to_string()), 2, 2, TextureFormat::Rgba8UnormSrgb));
}

#[test]
fn zero_sized_texture_keeps_copy_extent() {
    let l = TextureData::Lightmap(LightmapData { lightmap: vec![] });
    let up = create_texture(None, 0, 3, &l);
    assert_eq!((up.descriptor.width, up.descriptor.height), (1, 3));
    assert_eq!((up.copy_width, up.copy_height, up.bytes_per_row), (0, 3, 0));
    assert_eq!(up.descriptor.sample_count, 1);
    assert_eq!(up.descriptor.mip_level_count, 1);
}

#[test]
fn uniform_buffer_slots() {
    let mut b = DynamicUniformBuffer::new(80, 256);
    assert_eq!((b.stride(), b.capacity()), (256, 1));
    let w = b.write(0);
    assert_eq!((w.offset, w.reallocated), (0, false));
    assert!(b.is_valid(0));
    let w = b.write(3);
    assert_eq!((w.offset, w.reallocated), (768, true));
    assert_eq!(b.capacity(), 4);
    assert!(!b.is_valid(0) && b.is_valid(3));
    b.clear();
    assert_eq!(b.capacity(), 4);
    assert!(!b.is_valid(3));
    assert_eq!(DynamicUniformBuffer::new(256, 256).stride(), 256);
}

#[test]
fn client_time_wins_over_wall_clock() {
    let r = ClientRenderer::new();
    let t = chrono::TimeDelta::milliseconds(1234);
    assert_eq!(r.elapsed(Some(t)), t);
    assert!(r.elapsed(None) >= chrono::TimeDelta::zero());
    assert_eq!(
        r.input(),
        vec![AttachmentUsage::Diffuse, AttachmentUsage::Normal, AttachmentUsage::Light, AttachmentUsage::Depth]
    );
}

#[test]
fn resolution_extent() {
    assert_eq!(RenderResolution(640, 480).extent(), Extent2d { width: 640, height: 480 });
    assert_eq!(Extent2d { width: 0, height: 0 }.allocation_extent(), Extent2d { width: 1, height: 1 });
}

#[test]
fn frame_plan_title_and_in_game() {
    let title = plan_frame::<u8, char, char>(None, false, InputFocus::Game, Some('c'), None);
    assert!(title.ui.is_none());
    assert_eq!(title.steps, vec![FrameStep::SyncFormat, FrameStep::ResetScratch, FrameStep::FinalPass, FrameStep::Blit]);
    let menu = plan_frame::<u8, char, char>(None, true, InputFocus::Menu, None, Some('m'));
    assert_eq!(menu.ui, Some(UiState::Title { overlay: UiOverlay::Menu('m') }));
    assert!(!menu.steps.contains(&FrameStep::DeferredPass));
    let game = plan_frame::<u8, char, char>(Some(9), true, InputFocus::Console, Some('c'), Some('m'));
    assert_eq!(game.ui, Some(UiState::InGame { hud: 9, overlay: Some(UiOverlay::Console('c')) }));
    assert_eq!(game.steps.len(), 7);
}

#[test]
fn archive_header_checks() {
    assert_eq!(check_archive(&archive_bytes()), Ok(()));
    let mut short_dir = archive_bytes();
    short_dir.truncate(40);
    assert_eq!(check_archive(&short_dir), Err(RenderError::InvalidArchive));
    assert_eq!(check_archive(b"WAD2"), Err(RenderError::InvalidArchive));
    let g = state(4, 4, 1);
    assert_eq!(g.gfx_wad(), &archive_bytes()[..]);
}

#[test]
fn default_lightmap_is_one_lit_texel() {
    let g = state(4, 4, 1);
    let d = g.default_lightmap_data();
    assert_eq!(d.data(), &[0xFFu8][..]);
    assert_eq!(d.format(), TextureFormat::R8Unorm);
}

#[test]
fn world_bind_groups_layout() {
    let g = state(4, 4, 1);
    let b = g.world_bind_groups();
    assert_eq!(b.len(), 2);
    assert_eq!(b[0].layout, BindGroupLayoutId::PerFrame);
    assert_eq!(b[0].entries, vec![BindGroupEntry { binding: 0, resource: BindingResource::FrameUniformBuffer }]);
    assert_eq!(b[1].layout, BindGroupLayoutId::PerEntity);
    assert_eq!(
        b[1].entries,
        vec![
            BindGroupEntry { binding: 0, resource: BindingResource::EntityUniformBuffer { block_size: 80 } },
            BindGroupEntry { binding: 1, resource: BindingResource::DiffuseSampler },
            BindGroupEntry { binding: 2, resource: BindingResource::LightmapSampler },
        ]
    );
}

#[test]
fn graphics_state_owns_entity_uniforms() {
    let mut g = state(4, 4, 1);
    assert_eq!(g.entity_uniform_buffer().stride(), 256);
    let w = g.write_entity_uniforms(2);
    assert_eq!((w.offset, w.reallocated), (512, true));
    assert!(g.entity_uniform_buffer().is_valid(2));
    g.clear_entity_uniforms();
    assert!(!g.entity_uniform_buffer().is_valid(2));
    assert_eq!(g.entity_uniform_buffer().capacity(), 3);
}

#[test]
fn resize_replaces_every_target() {
    let mut g = state(320, 200, 2);
    let r = g.update(Extent2d { width: 100, height: 0 }, 2);
    assert!(!r.pipelines_rebuilt);
    assert!(r.initial_target_replaced && r.deferred_target_replaced && r.final_target_replaced);
    for t in [g.initial_pass_target(), g.deferred_pass_target(), g.final_pass_target()] {
        assert_eq!(t.size(), Extent2d { width: 100, height: 0 });
        assert!(t.attachments().iter().all(|a| a.width == 100 && a.height == 1));
    }
}

#[test]
fn render_pass_dispatches_on_ui_state() {
    let ui = UiRenderer::new();
    let size = Extent2d { width: 320, height: 200 };
    let hud = vec![UiCommand::Quad(QuadCommand { texture: 1, pos_x: 0, pos_y: 0, width: 4, height: 4 })];
    let over = vec![UiCommand::Glyph(GlyphCommand { glyph: b'>', pos_x: 0, pos_y: 0, size: 8 })];
    let title: UiState<u8, char, char> = UiState::Title { overlay: UiOverlay::Console('c') };
    let p = ui.render_pass(size, &title, &hud, &over);
    assert_eq!(p.surfaces, vec![UiSurface::Console { proportion_percent: 100 }]);
    assert!(p.draws.quads.is_empty());
    assert_eq!(p.draws.glyphs.len(), 1);
    let bare: UiState<u8, char, char> = UiState::InGame { hud: 0, overlay: None };
    let p = ui.render_pass(size, &bare, &hud, &over);
    assert_eq!(p.surfaces, vec![UiSurface::Hud]);
    assert_eq!(p.draws.quads.len(), 1);
    assert!(p.draws.glyphs.is_empty());
    let console: UiState<u8, char, char> = UiState::InGame { hud: 0, overlay: Some(UiOverlay::Console('c')) };
    let p = ui.render_pass(size, &console, &hud, &over);
    assert_eq!(p.surfaces, vec![UiSurface::Hud, UiSurface::Console { proportion_percent: 33 }]);
    assert_eq!((p.draws.quads.len(), p.draws.glyphs.len()), (1, 1));
}

#[test]
fn elapsed_falls_back_to_wall_clock() {
    let start = chrono::NaiveDate::from_ymd_opt(2020, 1, 1).unwrap().and_hms_opt(0, 0, 0).unwrap();
    let r = ClientRenderer::with_start(start);
    let now = start + chrono::TimeDelta::seconds(90);
    assert_eq!(r.elapsed_at(now, None), chrono::TimeDelta::seconds(90));
    assert_eq!(r.elapsed_at(now, Some(chrono::TimeDelta::seconds(3))), chrono::TimeDelta::seconds(3));
    assert!(r.elapsed(None) > chrono::TimeDelta::seconds(90));
}
