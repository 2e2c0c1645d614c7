use data_binding::list_selection::{AppController, AppState, Event, Library};

fn lib(name: &str, downloads: u32) -> Library {
    Library::new(name.to_string(), downloads)
}

fn demo_state() -> AppState {
    AppState {
        libraries: vec![lib("rand", 51_977_492), lib("syn", 46_944_674)],
        selected: None,
        revision: 0,
    }
}

#[test]
fn projection_produces_one_row_per_record() {
    let state = AppState {
        libraries: vec![lib("rand", 51_977_492), lib("syn", 46_944_674), lib("libc", 43_103_104)],
        selected: Some(1),
        revision: 0,
    };
    let rows = state.for_each();
    assert_eq!(rows.len(), 3);
    assert_eq!(state.data_len(), 3);
    for (i, row) in rows.iter().enumerate() {
        assert_eq!(row.index, i);
        assert_eq!(row.selected, Some(1));
        assert!(row.library.same(&state.libraries[i]));
    }
    assert!(!rows[0].is_selected());
    assert!(rows[1].is_selected());
    assert!(!rows[2].is_selected());
}

#[test]
fn write_back_without_change_keeps_backing_reference() {
    let mut state = demo_state();
    let rows = state.for_each();
    state.for_each_mut(rows);
    assert_eq!(state.revision, 0);
    assert_eq!(state.libraries.len(), 2);
    assert_eq!(state.libraries[0].name, "rand");
    assert_eq!(state.libraries[0].downloads, 51_977_492);
    assert_eq!(state.libraries[1].name, "syn");
    assert_eq!(state.libraries[1].downloads, 46_944_674);
}

#[test]
fn write_back_with_one_change_rebuilds_whole_list() {
    let mut state = AppState {
        libraries: vec![lib("rand", 1), lib("syn", 2), lib("libc", 3)],
        selected: Some(2),
        revision: 7,
    };
    let mut rows = state.for_each();
    rows[1].library = lib("syn", 200);
    state.for_each_mut(rows);
    assert_eq!(state.revision, 8);
    assert_eq!(state.libraries.len(), 3);
    assert_eq!(state.libraries[0].name, "rand");
    assert_eq!(state.libraries[0].downloads, 1);
    assert_eq!(state.libraries[1].name, "syn");
    assert_eq!(state.libraries[1].downloads, 200);
    assert_eq!(state.libraries[2].name, "libc");
    assert_eq!(state.libraries[2].downloads, 3);
    assert_eq!(state.selected, Some(2));
}

#[test]
fn row_click_selects_clicked_position() {
    let mut state = demo_state();
    let rows = state.for_each();
    let event = rows[1].on_click();
    let mut controller = AppController;
    controller.event(&mut state, &event);
    assert_eq!(state.selected, Some(1));
}

#[test]
fn selection_follows_position_not_record() {
    let mut state = AppState {
        libraries: vec![lib("rand", 1), lib("syn", 2)],
        selected: None,
        revision: 0,
    };
    let mut controller = AppController;

    let rows = state.for_each();
    let first_click = rows[0].on_click();
    controller.event(&mut state, &first_click);
    assert_eq!(state.selected, Some(0));

    // Reorder the records, then click displayed position 0 again: the
    // selection is the position, not the record clicked earlier.
    state.libraries.reverse();
    let rows = state.for_each();
    assert_eq!(rows[0].library.name, "syn");
    let second_click = rows[0].on_click();
    controller.event(&mut state, &second_click);
    assert_eq!(state.selected, Some(0));
    assert_eq!(state.libraries[0].name, "syn");
}

#[test]
fn other_events_leave_state_untouched() {
    let mut state = demo_state();
    let mut controller = AppController;
    controller.event(&mut state, &Event::Other);
    assert_eq!(state.selected, None);
    assert_eq!(state.revision, 0);
    assert_eq!(state.libraries.len(), 2);
    assert_eq!(state.libraries[0].name, "rand");
}

#[test]
fn click_then_edit_scenario() {
    let mut state = demo_state();
    let mut controller = AppController;

    let rows = state.for_each();
    let click = rows[1].on_click();
    controller.event(&mut state, &click);
    assert_eq!(state.selected, Some(1));

    let revision_before_edit = state.revision;
    let mut rows = state.for_each();
    rows[0].library = lib("rand", 52_000_000);
    state.for_each_mut(rows);

    assert_eq!(state.libraries.len(), 2);
    assert_eq!(state.libraries[0].name, "rand");
    assert_eq!(state.libraries[0].downloads, 52_000_000);
    assert_eq!(state.libraries[1].name, "syn");
    assert_eq!(state.libraries[1].downloads, 46_944_674);
    assert_eq!(state.selected, Some(1));
    assert_ne!(state.revision, revision_before_edit);
}
