use aichat_nvim::ui::{
    prompt_response, OpenAction, SelectAction, SelectEvent, SelectOpts, UiSelect,
};

fn items(names: &[&str]) -> Vec<String> {
    names.iter().map(|s| s.to_string()).collect()
}

#[test]
fn confirm_in_range_delivers_item_once() {
    let mut sel = UiSelect::new(items(&["alpha", "beta", "gamma"]));
    assert!(matches!(sel.on_open(), OpenAction::OpenSurface));
    assert!(!sel.is_consumed());
    let a = sel.on_event(SelectEvent::Confirm(2));
    assert!(matches!(a, SelectAction::Deliver(Some(ref s)) if s == "beta"));
    assert!(sel.is_consumed());
    // a rapid second trigger is a no-op
    let b = sel.on_event(SelectEvent::Confirm(2));
    assert!(matches!(b, SelectAction::Ignore));
    let c = sel.on_event(SelectEvent::Cancel);
    assert!(matches!(c, SelectAction::Ignore));
}

#[test]
fn confirm_first_and_last_lines() {
    let mut sel = UiSelect::new(items(&["one", "two"]));
    let a = sel.on_event(SelectEvent::Confirm(1));
    assert!(matches!(a, SelectAction::Deliver(Some(ref s)) if s == "one"));

    let mut sel = UiSelect::new(items(&["one", "two"]));
    let a = sel.on_event(SelectEvent::Confirm(2));
    assert!(matches!(a, SelectAction::Deliver(Some(ref s)) if s == "two"));
}

#[test]
fn confirm_out_of_range_keeps_surface_open() {
    let mut sel = UiSelect::new(items(&["only"]));
    let a = sel.on_event(SelectEvent::Confirm(0));
    assert!(matches!(a, SelectAction::NotifyMappingFailure));
    assert!(!sel.is_consumed());
    let b = sel.on_event(SelectEvent::Confirm(2));
    assert!(matches!(b, SelectAction::NotifyMappingFailure));
    assert!(!sel.is_consumed());
    // a later valid trigger still delivers
    let c = sel.on_event(SelectEvent::Confirm(1));
    assert!(matches!(c, SelectAction::Deliver(Some(ref s)) if s == "only"));
    assert!(sel.is_consumed());
}

#[test]
fn cancel_delivers_none_and_closes() {
    let mut sel = UiSelect::new(items(&["a", "b"]));
    assert!(matches!(sel.on_open(), OpenAction::OpenSurface));
    let a = sel.on_event(SelectEvent::Cancel);
    assert!(matches!(a, SelectAction::Deliver(None)));
    assert!(sel.is_consumed());
}

#[test]
fn empty_items_deliver_none_without_surface() {
    let mut sel = UiSelect::new(Vec::new());
    let a = sel.on_open();
    assert!(matches!(a, OpenAction::DeliverNone));
    assert!(sel.is_consumed());
    // nothing more can fire
    let b = sel.on_event(SelectEvent::Cancel);
    assert!(matches!(b, SelectAction::Ignore));
}

#[test]
fn double_cancel_invokes_callback_at_most_once() {
    let mut sel = UiSelect::new(items(&["x"]));
    let mut invocations = 0;
    for _ in 0..2 {
        if let SelectAction::Deliver(payload) = sel.on_event(SelectEvent::Cancel) {
            assert!(payload.is_none());
            invocations += 1;
        }
    }
    assert_eq!(invocations, 1);
}

#[test]
fn geometry_centers_surface() {
    let sel = UiSelect::new(items(&["ab", "abcd"]));
    let g = sel.window_geometry(80, 24);
    assert_eq!(g.width, 6); // longest item + 2
    assert_eq!(g.height, 2); // item count
    assert_eq!(g.row, (24 - 2) / 2);
    assert_eq!(g.col, (80 - 6) / 2);
}

#[test]
fn geometry_degrades_to_origin_in_tiny_viewport() {
    let sel = UiSelect::new(items(&["a very long item indeed"]));
    let g = sel.window_geometry(4, 1);
    assert_eq!(g.row, 0);
    assert_eq!(g.col, 0);
}

#[test]
fn geometry_fallback_width_without_items() {
    let sel = UiSelect::new(Vec::new());
    let g = sel.window_geometry(100, 40);
    assert_eq!(g.width, 22); // fallback width + 2
    assert_eq!(g.height, 0);
}

#[test]
fn items_accessor_preserves_order() {
    let sel = UiSelect::new(items(&["first", "second", "first"]));
    assert_eq!(sel.items(), &vec![
        "first".to_string(),
        "second".to_string(),
        "first".to_string(),
    ]);
}

#[test]
fn prompt_response_empty_means_cancelled() {
    assert_eq!(prompt_response(String::new()), None);
    assert_eq!(prompt_response("run it".to_string()), Some("run it".to_string()));
}

#[test]
fn select_opts_default_prompt() {
    let opts = SelectOpts::default();
    assert_eq!(opts.prompt.as_deref(), Some("Select one of:"));
    assert!(opts.kind.is_none());
}
