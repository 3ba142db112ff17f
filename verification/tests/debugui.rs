use debugui::add;
use debugui::param::AsDebuggableParam;
use debugui::storage::{ParamInner, ParamStorage};
use debugui::ui::{EventResponse, UiEvent, UiState, WindowEventKind};
use debugui::viewer::{
    choose_viewer, last_registered, panel_content, set_override_enabled, AViewerFn, PanelContent,
};

#[test]
fn it_works() {
    let result = add(2, 2);
    assert_eq!(result, 4);
}

#[test]
fn add_large_values() {
    assert_eq!(add(usize::MAX - 1, 1), usize::MAX);
    assert_eq!(add(0, 0), 0);
}

#[test]
fn primitive_params_read_back_what_was_set() {
    let mut a: u32 = 7;
    assert_eq!(*a.get_value(), 7);
    a.set_value(&62);
    assert_eq!(a, 62);
    assert_eq!(*a.get_value(), 62);

    let mut b = false;
    b.set_value(&true);
    assert!(*b.get_value());

    let mut c = 'x';
    c.set_value(&'y');
    assert_eq!(c, 'y');

    let mut d: i64 = -5;
    d.set_value(&i64::MIN);
    assert_eq!(*d.get_value(), i64::MIN);

    let mut e: u8 = 1;
    e.set_value(&255);
    assert_eq!(e, 255);
}

#[test]
fn string_param_reads_back_what_was_set() {
    let mut s = String::from("before");
    assert_eq!(s.get_value(), "before");
    s.set_value(&String::from("after"));
    assert_eq!(s, "after");
}

#[test]
fn borrowed_param_forwards_to_the_value() {
    let mut v: i32 = 3;
    {
        let mut r = &mut v;
        assert_eq!(*r.get_value(), 3);
        r.set_value(&-9);
    }
    assert_eq!(v, -9);
}

#[test]
fn fresh_record_has_no_override() {
    let p: u16 = 35;
    let inner = ParamInner::from_param(&p);
    assert_eq!(inner.program_val, 35);
    assert_eq!(inner.ui_val, None);
}

#[test]
fn exchange_without_override_keeps_program_value() {
    let mut inner = ParamInner { program_val: 1u32, ui_val: None };
    let mut p: u32 = 35;
    inner.exchange(&mut p);
    assert_eq!(p, 35);
    assert_eq!(inner.program_val, 35);
    assert_eq!(inner.ui_val, None);
}

#[test]
fn exchange_with_override_hands_back_override() {
    let mut inner = ParamInner { program_val: 1u32, ui_val: Some(100) };
    let mut p: u32 = 35;
    inner.exchange(&mut p);
    assert_eq!(p, 100);
    assert_eq!(inner.program_val, 35);
    assert_eq!(inner.ui_val, Some(100));
    // Handing the result in again settles on the same value.
    inner.exchange(&mut p);
    assert_eq!(p, 100);
    assert_eq!(inner.program_val, 100);
}

#[test]
fn split_values_edits_only_the_override() {
    let mut inner = ParamInner { program_val: String::from("prog"), ui_val: None };
    {
        let (prog, ui) = inner.split_values();
        assert_eq!(prog, "prog");
        *ui = Some(String::from("ui"));
    }
    assert_eq!(inner.program_val, "prog");
    assert_eq!(inner.ui_val, Some(String::from("ui")));
}

#[test]
fn storage_passes_value_through_until_overridden() {
    let mut p: i32 = 35;
    let storage = ParamStorage::new(&p);
    assert_eq!(storage.values(), (35, None));
    storage.set(&mut p);
    assert_eq!(p, 35);
    storage.set_override(Some(-7));
    assert_eq!(storage.values(), (35, Some(-7)));
    let mut q: i32 = 40;
    storage.set(&mut q);
    assert_eq!(q, -7);
    assert_eq!(storage.values(), (40, Some(-7)));
    storage.set_override(None);
    let mut r: i32 = 41;
    storage.set(&mut r);
    assert_eq!(r, 41);
    assert_eq!(storage.values(), (41, None));
}

#[test]
fn borrowed_param_write_reaches_the_variable() {
    let mut x: u32 = 1;
    {
        let mut r: &mut u32 = &mut x;
        AsDebuggableParam::set_value(&mut r, &7u32);
        assert_eq!(*r.get_value(), 7);
    }
    assert_eq!(x, 7);
}

#[test]
fn viewer_fn_keeps_its_function() {
    fn draw(_: &u32, _: &mut Option<u32>, _: &mut egui::Ui) {}
    let v = AViewerFn::new(draw);
    assert!(v.0 as usize == draw as usize);
}

#[test]
fn custom_viewer_comes_first() {
    assert_eq!(choose_viewer(Some(1), Some(2), 3), 1);
    assert_eq!(choose_viewer(Some(1), None, 3), 1);
    assert_eq!(choose_viewer(None, Some(2), 3), 2);
    assert_eq!(choose_viewer(None::<u8>, None, 3), 3);
}

#[test]
fn last_registered_viewer_wins() {
    assert_eq!(last_registered(&vec![]), None);
    assert_eq!(last_registered(&vec![false, false]), None);
    assert_eq!(last_registered(&vec![true, false, true, false]), Some(2));
    assert_eq!(last_registered(&vec![true]), Some(0));
}

#[test]
fn panel_shows_what_the_parameter_allows() {
    assert_eq!(panel_content(false, true), PanelContent::NotInitialized);
    assert_eq!(panel_content(false, false), PanelContent::NotInitialized);
    assert_eq!(panel_content(true, true), PanelContent::Viewer);
    assert_eq!(panel_content(true, false), PanelContent::ViewerMismatch);
}

#[test]
fn override_switch() {
    let mut ui: Option<u64> = None;
    set_override_enabled(&mut ui, true, &62);
    assert_eq!(ui, Some(62));
    ui = Some(80);
    set_override_enabled(&mut ui, true, &62);
    assert_eq!(ui, Some(80));
    set_override_enabled(&mut ui, false, &62);
    assert_eq!(ui, None);
    set_override_enabled(&mut ui, false, &62);
    assert_eq!(ui, None);
}

fn resp(resized: bool, draw: bool, exit: bool, consumed: bool) -> EventResponse {
    EventResponse { resized, draw, exit, consumed }
}

#[test]
fn resize_of_debug_window_updates_surface() {
    let mut s = UiState::new(800, 600);
    let ev = UiEvent::Window { kind: WindowEventKind::Resized { width: 1024, height: 768 }, this_window: true };
    assert!(ev.feeds_egui());
    assert_eq!(s.handle_event(&ev, false), resp(true, false, false, true));
    assert_eq!(s, UiState { width: 1024, height: 768 });
}

#[test]
fn resize_of_other_window_is_ignored() {
    let mut s = UiState::new(800, 600);
    let ev = UiEvent::Window { kind: WindowEventKind::Resized { width: 10, height: 10 }, this_window: false };
    assert!(!ev.feeds_egui());
    assert_eq!(s.handle_event(&ev, true), resp(false, false, false, false));
    assert_eq!(s, UiState { width: 800, height: 600 });
}

#[test]
fn close_request_of_any_window_exits() {
    let mut s = UiState::new(1, 1);
    let own = UiEvent::Window { kind: WindowEventKind::CloseRequested, this_window: true };
    assert_eq!(s.handle_event(&own, true), resp(false, false, true, true));
    let other = UiEvent::Window { kind: WindowEventKind::CloseRequested, this_window: false };
    assert_eq!(s.handle_event(&other, true), resp(false, false, true, false));
}

#[test]
fn frames_are_drawn_on_own_redraw_and_when_events_are_cleared() {
    let mut s = UiState::new(1, 1);
    assert_eq!(s.handle_event(&UiEvent::MainEventsCleared, true), resp(false, true, false, false));
    assert_eq!(
        s.handle_event(&UiEvent::RedrawRequested { this_window: true }, true),
        resp(false, true, false, false)
    );
    assert_eq!(
        s.handle_event(&UiEvent::RedrawRequested { this_window: false }, true),
        resp(false, false, false, false)
    );
    assert_eq!(s.handle_event(&UiEvent::Other, true), resp(false, false, false, false));
}

#[test]
fn egui_decides_other_window_events() {
    let mut s = UiState::new(1, 1);
    let ev = UiEvent::Window { kind: WindowEventKind::Other, this_window: true };
    assert_eq!(s.handle_event(&ev, true), resp(false, false, false, true));
    assert_eq!(s.handle_event(&ev, false), resp(false, false, false, false));
}

#[test]
fn surface_follows_last_resize() {
    let mut s = UiState::new(100, 100);
    let events = vec![
        UiEvent::Window { kind: WindowEventKind::Resized { width: 5, height: 6 }, this_window: true },
        UiEvent::MainEventsCleared,
        UiEvent::Window { kind: WindowEventKind::Resized { width: 7, height: 8 }, this_window: true },
        UiEvent::Window { kind: WindowEventKind::Resized { width: 9, height: 9 }, this_window: false },
        UiEvent::Other,
    ];
    for ev in &events {
        s.handle_event(ev, false);
    }
    assert_eq!(s, UiState::new(7, 8));
}
