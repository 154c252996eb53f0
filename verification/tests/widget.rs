use smearor_wrot::input::{
    plan_input_event, InputCall, InputEventKind, InputFacts, Propagation,
};
use smearor_wrot::keyboard::{detect_step, KeyboardLayout, LayoutSource};
use smearor_wrot::surface_render::{
    advance_commit_count, cpu_copy_entry, current_assignment, direct_read_action, dma_buf_import_possible,
    dma_buf_path_accepts, dma_buf_plan, import_from_holding_area, shm_path_accepts,
    mask_action, mask_applied, mask_due, new_buffer_of, next_render_step, plane_layouts,
    refresh_cache, reuse_cached_texture, subsurface_mask_action, window_buffer,
    BufferAssignment, CacheState, DmaBufPlan, MaskAction, PlaneLayout, RenderEvent, RenderStep,
    SurfaceKind,
};
use smearor_wrot::widget_state::{
    application_error_for, changed_host_text, color_mask_detection_due, header_bar_title, error_caption, render_requested,
    title_needs_update, ApplicationError, ClipboardSyncState,
};

fn facts(kind: InputEventKind) -> InputFacts<(i32, i32)> {
    InputFacts {
        widget_alive: true,
        input_blocked: false,
        kind,
        typed: true,
        sequence: 7,
        position: Some((10, 20)),
        native: true,
        translated: None,
        button: 1,
        pointer_emulated: false,
    }
}

#[test]
fn buffer_assignment_current_and_pending() {
    assert_eq!(current_assignment::<u8>(None), BufferAssignment::Removed);
    assert_eq!(current_assignment(Some(BufferAssignment::NewBuffer(3u8))), BufferAssignment::NewBuffer(3));
    assert_eq!(new_buffer_of(Some(BufferAssignment::<u8>::Removed)), None);
    assert_eq!(new_buffer_of(Some(BufferAssignment::NewBuffer(4u8))), Some(4));
    assert_eq!(window_buffer(Some(BufferAssignment::NewBuffer(1u8)), Some(BufferAssignment::NewBuffer(2u8))), Some(1));
    assert_eq!(window_buffer(Some(BufferAssignment::Removed), Some(BufferAssignment::NewBuffer(2u8))), Some(2));
    assert_eq!(window_buffer::<u8>(None, Some(BufferAssignment::Removed)), None);
}

#[test]
fn mask_action_cases() {
    assert_eq!(mask_action::<u8, u8>(None, Some(9), false), MaskAction::Keep);
    assert_eq!(mask_action::<u8, u8>(Some(1), Some(9), true), MaskAction::Keep);
    assert_eq!(mask_action::<u8, u8>(Some(1), Some(9), false), MaskAction::Replace(1, 9));
    assert_eq!(mask_action::<u8, u8>(Some(1), None, false), MaskAction::MakeTransparent(1));
}

#[test]
fn subsurface_mask_takes_precedence() {
    assert_eq!(subsurface_mask_action::<u8, u8>(Some(2), Some(1), None, Some(9), false), MaskAction::Replace(2, 9));
    assert_eq!(subsurface_mask_action::<u8, u8>(None, Some(1), Some(8), Some(9), false), MaskAction::Replace(1, 8));
    assert_eq!(subsurface_mask_action::<u8, u8>(None, None, Some(8), Some(9), false), MaskAction::Keep);
    assert_eq!(subsurface_mask_action::<u8, u8>(Some(2), None, None, None, false), MaskAction::MakeTransparent(2));
}

#[test]
fn holding_area_import_needs_dmabuf_and_support() {
    assert!(import_from_holding_area(true, true));
    assert!(!import_from_holding_area(true, false));
    assert!(!import_from_holding_area(false, true));
}

#[test]
fn window_without_buffer_gets_no_texture() {
    let w = SurfaceKind::Window;
    assert_eq!(next_render_step(w, RenderStep::Start, RenderEvent::Missing, true), RenderStep::Nothing);
    assert_eq!(next_render_step(w, RenderStep::Start, RenderEvent::NoTexture, true), RenderStep::HoldingArea);
    assert_eq!(next_render_step(w, RenderStep::HoldingArea, RenderEvent::NoTexture, true), RenderStep::Cache);
    assert_eq!(next_render_step(w, RenderStep::Cache, RenderEvent::NoTexture, true), RenderStep::SurfaceBuffer);
    assert_eq!(next_render_step(w, RenderStep::SurfaceBuffer, RenderEvent::DmaBufBuffer, true), RenderStep::DmaBuf);
    assert_eq!(next_render_step(w, RenderStep::SurfaceBuffer, RenderEvent::DmaBufBuffer, false), RenderStep::SharedMemory);
    assert_eq!(next_render_step(w, RenderStep::DmaBuf, RenderEvent::NoTexture, true), RenderStep::SharedMemory);
    assert_eq!(next_render_step(w, RenderStep::SharedMemory, RenderEvent::NoTexture, true), RenderStep::Nothing);
    assert_eq!(next_render_step(w, RenderStep::SurfaceBuffer, RenderEvent::NoTexture, true), RenderStep::Nothing);
    assert_eq!(next_render_step(w, RenderStep::SurfaceBuffer, RenderEvent::Missing, true), RenderStep::Nothing);
    assert_eq!(next_render_step(w, RenderStep::SharedMemory, RenderEvent::Texture, true), RenderStep::Done);
    assert_eq!(next_render_step(w, RenderStep::Cache, RenderEvent::Texture, true), RenderStep::Done);
}

#[test]
fn popup_render_gives_nothing_without_texture() {
    let p = SurfaceKind::Popup;
    assert_eq!(next_render_step(p, RenderStep::Start, RenderEvent::Missing, true), RenderStep::Nothing);
    assert_eq!(next_render_step(p, RenderStep::SurfaceBuffer, RenderEvent::DmaBufBuffer, true), RenderStep::SharedMemory);
    assert_eq!(next_render_step(p, RenderStep::SharedMemory, RenderEvent::NoTexture, true), RenderStep::Nothing);
    assert_eq!(next_render_step(p, RenderStep::Nothing, RenderEvent::Texture, true), RenderStep::Nothing);
}

#[test]
fn render_steps_end_within_six_steps() {
    for kind in [SurfaceKind::Window, SurfaceKind::Popup, SurfaceKind::Dialog, SurfaceKind::Subsurface] {
        for event in [RenderEvent::Missing, RenderEvent::Texture, RenderEvent::NoTexture, RenderEvent::ShmBuffer, RenderEvent::DmaBufBuffer] {
            let mut step = RenderStep::Start;
            let mut n = 0;
            while step != RenderStep::Done && step != RenderStep::Nothing {
                step = next_render_step(kind, step, event, true);
                n += 1;
                assert!(n <= 6);
            }
        }
    }
}

#[test]
fn cache_refresh_and_mask_once_per_commit() {
    let (entry, stored) = refresh_cache(None, 5);
    assert!(stored);
    assert_eq!(entry, CacheState { commit_count: 5, color_mask_applied: false });
    assert!(mask_due(true, entry, 5));
    assert!(!mask_due(false, entry, 5));
    let masked = mask_applied(entry, 5);
    assert_eq!(masked, CacheState { commit_count: 5, color_mask_applied: true });
    let (again, stored_again) = refresh_cache(Some(masked), 5);
    assert!(!stored_again);
    assert_eq!(again, masked);
    assert!(!mask_due(true, again, 5));
    let (newer, stored_newer) = refresh_cache(Some(masked), 6);
    assert!(stored_newer);
    assert_eq!(newer, CacheState { commit_count: 6, color_mask_applied: false });
}

#[test]
fn dma_buf_plans() {
    assert_eq!(dma_buf_plan(false, true, true), DmaBufPlan::CpuCopy);
    assert_eq!(dma_buf_plan(true, false, true), DmaBufPlan::Shader);
    assert_eq!(dma_buf_plan(true, true, true), DmaBufPlan::AsImported);
    assert_eq!(dma_buf_plan(true, false, false), DmaBufPlan::AsImported);
    assert!(reuse_cached_texture(DmaBufPlan::Shader, 0));
    assert!(!reuse_cached_texture(DmaBufPlan::CpuCopy, 0));
    assert!(reuse_cached_texture(DmaBufPlan::CpuCopy, 3));
    assert!(!reuse_cached_texture(DmaBufPlan::AsImported, 3));
    assert!(advance_commit_count(0));
    assert!(advance_commit_count(1));
    assert!(!advance_commit_count(2));
}

#[test]
fn plane_layouts_pair_up_and_fail_on_missing() {
    let fds = vec![3, 4];
    let strides = vec![256, 128];
    let offsets = vec![0, 4096];
    let v = plane_layouts(2, &fds, &strides, &offsets).unwrap();
    assert_eq!(v, vec![PlaneLayout { fd: 3, stride: 256, offset: 0 }, PlaneLayout { fd: 4, stride: 128, offset: 4096 }]);
    assert_eq!(plane_layouts(1, &fds, &strides, &offsets).unwrap().len(), 1);
    assert!(plane_layouts(3, &fds, &strides, &offsets).is_none());
    assert!(plane_layouts(2, &fds, &vec![256], &offsets).is_none());
    assert_eq!(plane_layouts(0, &vec![], &vec![], &vec![]).unwrap().len(), 0);
}

#[test]
fn touch_begin_uses_translated_position() {
    let mut f = facts(InputEventKind::TouchBegin);
    f.translated = Some((1, 2));
    let plan = plan_input_event(f);
    assert!(matches!(plan.call, Some(InputCall::TouchDown(7, (1, 2)))));
    assert_eq!(plan.on_success, Propagation::Stop);
    assert_eq!(plan.on_failure, Propagation::Proceed);
    let raw = plan_input_event(facts(InputEventKind::TouchBegin));
    assert!(matches!(raw.call, Some(InputCall::TouchDown(7, (10, 20)))));
}

#[test]
fn touch_update_end_and_button() {
    let upd = plan_input_event(facts(InputEventKind::TouchUpdate));
    assert!(matches!(upd.call, Some(InputCall::TouchMotion(7, (10, 20)))));
    assert_eq!(upd.on_success, Propagation::Proceed);
    let end = plan_input_event(facts(InputEventKind::TouchCancel));
    assert!(matches!(end.call, Some(InputCall::TouchUp(7))));
    let mut b = facts(InputEventKind::ButtonPress);
    let plain = plan_input_event(b);
    assert!(plain.call.is_none());
    assert_eq!(plain.on_success, Propagation::Proceed);
    b.pointer_emulated = true;
    let emulated = plan_input_event(b);
    assert!(matches!(emulated.call, Some(InputCall::MousePress(1))));
    assert_eq!(emulated.on_success, Propagation::Stop);
    assert_eq!(emulated.on_failure, Propagation::Stop);
    b.native = false;
    let no_surface = plan_input_event(b);
    assert!(no_surface.call.is_none());
    assert_eq!(no_surface.on_success, Propagation::Stop);
}

#[test]
fn blocked_input_is_swallowed() {
    let mut f = facts(InputEventKind::TouchBegin);
    f.input_blocked = true;
    let plan = plan_input_event(f);
    assert!(plan.call.is_none());
    assert_eq!(plan.on_success, Propagation::Stop);
    assert_eq!(plan.on_failure, Propagation::Stop);
    let mut gone = facts(InputEventKind::TouchBegin);
    gone.widget_alive = false;
    gone.input_blocked = true;
    let plan = plan_input_event(gone);
    assert!(plan.call.is_none());
    assert_eq!(plan.on_success, Propagation::Proceed);
}

#[test]
fn touch_without_position_or_native_surface_proceeds() {
    let mut f = facts(InputEventKind::TouchBegin);
    f.position = None;
    assert!(plan_input_event(f).call.is_none());
    let mut g = facts(InputEventKind::TouchUpdate);
    g.native = false;
    assert!(plan_input_event(g).call.is_none());
    let mut h = facts(InputEventKind::TouchEnd);
    h.typed = false;
    assert!(plan_input_event(h).call.is_none());
}

#[test]
fn application_errors_and_captions() {
    assert!(application_error_for(None).is_none());
    match application_error_for(Some("foot".to_string())) {
        Some(ApplicationError::NotFound(name)) => assert_eq!(name, "foot"),
        _ => panic!("expected NotFound"),
    }
    let (name, message) = error_caption(&ApplicationError::NotFound("foot".to_string()));
    assert_eq!(name, "foot");
    assert_eq!(message, "not found");
    let (name, message) = error_caption(&ApplicationError::NotSpecified);
    assert_eq!(name, "No program");
    assert_eq!(message, "not specified");
}

#[test]
fn render_request_decisions() {
    assert!(render_requested(true, true, false, 2));
    assert!(!render_requested(true, true, false, 0));
    assert!(render_requested(true, true, true, 0));
    assert!(!render_requested(false, true, true, 5));
    assert!(!render_requested(true, false, true, 5));
    assert!(title_needs_update("old", "new"));
    assert!(!title_needs_update("same", "same"));
    assert!(color_mask_detection_due(true, false));
    assert!(!color_mask_detection_due(true, true));
    assert!(!color_mask_detection_due(false, false));
}

#[test]
fn clipboard_sync_texts() {
    let mut s = ClipboardSyncState::new();
    assert!(s.is_sync_enabled());
    assert_eq!(s.host_to_wayland_text(Some("a\r\nb"), false), Some("a\nb".to_string()));
    assert_eq!(s.host_to_wayland_text(Some("a\r\nb"), true), None);
    assert_eq!(s.host_to_wayland_text(None, false), None);
    assert_eq!(s.wayland_to_host_text(Some("x\ny")), Some("x\ny".to_string()));
    s.set_sync_enabled(false);
    assert!(!s.is_sync_enabled());
    assert_eq!(s.host_to_wayland_text(Some("a"), false), None);
    assert_eq!(s.wayland_to_host_text(Some("a")), None);
    assert_eq!(ClipboardSyncState::selection_mime_types(), vec!["text/plain;charset=utf-8".to_string()]);
}

#[test]
fn layout_sources_in_order() {
    assert_eq!(LayoutSource::first(), LayoutSource::Localectl);
    assert_eq!(LayoutSource::Localectl.next(), Some(LayoutSource::Gsettings));
    assert_eq!(LayoutSource::Gsettings.next(), Some(LayoutSource::KeyboardFile));
    assert_eq!(LayoutSource::KeyboardFile.next(), None);
}

#[test]
fn layout_from_each_report() {
    let l = KeyboardLayout::from_report(LayoutSource::Localectl, "   System Locale: LANG=de_DE.UTF-8\n       X11 Layout: de\n        X11 Model: pc105\n").unwrap();
    assert_eq!(l.layout, "de");
    assert!(l.variant.is_none());
    let g = KeyboardLayout::from_report(LayoutSource::Gsettings, "[('xkb', 'de+nodeadkeys'), ('xkb', 'us')]\n").unwrap();
    assert_eq!(g.layout, "de+nodeadkeys");
    let gv = KeyboardLayout::from_report(LayoutSource::Gsettings, "[('xkb', 'de(nodeadkeys)')]").unwrap();
    assert_eq!(gv.layout, "de");
    assert_eq!(gv.variant.as_deref(), Some("nodeadkeys"));
    let f = KeyboardLayout::from_report(LayoutSource::KeyboardFile, "XKBMODEL=\"pc105\"\nXKBLAYOUT=\"fr\"\nXKBVARIANT=\"azerty\"\n").unwrap();
    assert_eq!(f.layout, "fr");
    assert_eq!(f.variant.as_deref(), Some("azerty"));
    assert!(KeyboardLayout::from_report(LayoutSource::KeyboardFile, "XKBMODEL=pc105\n").is_none());
    assert!(KeyboardLayout::from_report(LayoutSource::Gsettings, "@a(ss) []").is_none());
    assert!(KeyboardLayout::from_report(LayoutSource::Localectl, "System Locale: C\n").is_none());
}

#[test]
fn changed_host_text_ignores_the_enabled_flag() {
    assert_eq!(changed_host_text(Some("x\r\ny\r\n"), false), Some("x\ny\n".to_string()));
    assert_eq!(changed_host_text(Some("x"), true), None);
    assert_eq!(changed_host_text(None, false), None);
}

#[test]
fn header_bar_title_defaults() {
    assert_eq!(header_bar_title(None), "Smearor Compositor");
    assert_eq!(header_bar_title(Some("Terminal".to_string())), "Terminal");
}

#[test]
fn detection_stops_at_the_first_layout() {
    let found = KeyboardLayout::from_report(LayoutSource::Localectl, "   X11 Layout: de\n");
    match detect_step(LayoutSource::Localectl, found) {
        Ok(l) => {
            assert_eq!(l.layout, "de");
            assert!(l.variant.is_none());
        }
        Err(_) => panic!("expected a layout"),
    }
    assert!(matches!(detect_step(LayoutSource::Localectl, None), Err(Some(LayoutSource::Gsettings))));
    assert!(matches!(detect_step(LayoutSource::Gsettings, None), Err(Some(LayoutSource::KeyboardFile))));
    assert!(matches!(detect_step(LayoutSource::KeyboardFile, None), Err(None)));
    let late = KeyboardLayout::new("fr".to_string(), Some("azerty".to_string()));
    match detect_step(LayoutSource::KeyboardFile, Some(late)) {
        Ok(l) => assert_eq!(l.full_name(), "fr(azerty)"),
        Err(_) => panic!("expected a layout"),
    }
}

#[test]
fn render_path_refusals() {
    assert!(shm_path_accepts(false, 16));
    assert!(!shm_path_accepts(true, 16));
    assert!(!shm_path_accepts(false, 0));
    assert!(dma_buf_path_accepts(true, true));
    assert!(!dma_buf_path_accepts(false, true));
    assert!(!dma_buf_path_accepts(true, false));
    assert!(dma_buf_import_possible(true, true));
    assert!(!dma_buf_import_possible(true, false));
    assert!(!dma_buf_import_possible(false, true));
}

#[test]
fn only_windows_mask_direct_reads() {
    assert_eq!(direct_read_action::<u8, u8>(SurfaceKind::Window, 16, Some(1), Some(9)), Some(MaskAction::Replace(1, 9)));
    assert_eq!(direct_read_action::<u8, u8>(SurfaceKind::Window, 16, Some(1), None), Some(MaskAction::MakeTransparent(1)));
    assert_eq!(direct_read_action::<u8, u8>(SurfaceKind::Window, 16, None, Some(9)), Some(MaskAction::Keep));
    assert_eq!(direct_read_action::<u8, u8>(SurfaceKind::Popup, 16, Some(1), Some(9)), Some(MaskAction::Keep));
    assert_eq!(direct_read_action::<u8, u8>(SurfaceKind::Dialog, 16, Some(1), None), Some(MaskAction::Keep));
    assert_eq!(direct_read_action::<u8, u8>(SurfaceKind::Subsurface, 16, Some(1), None), Some(MaskAction::Keep));
    assert_eq!(direct_read_action::<u8, u8>(SurfaceKind::Window, 0, Some(1), None), None);
}

#[test]
fn cpu_copy_of_dma_buf_is_masked_once() {
    assert_eq!(cpu_copy_entry(Some(3u8), 4), (Some(3), CacheState { commit_count: 4, color_mask_applied: true }));
    assert_eq!(cpu_copy_entry::<u8>(None, 4), (None, CacheState { commit_count: 4, color_mask_applied: false }));
}
