use data_binding::scoped_edit::{AppState, EditState, EditTransfer};

fn root() -> AppState {
    AppState {
        name: "Your Name".to_string(),
        email: "yourname@yourname.com".to_string(),
    }
}

#[test]
fn fresh_working_copy_mirrors_root_and_is_uncommitted() {
    let state = EditState::new(root());
    assert_eq!(state.name, "Your Name");
    assert_eq!(state.email, "yourname@yourname.com");
    assert!(!state.saved);
}

#[test]
fn edits_are_not_observable_before_commit() {
    let transfer = EditTransfer;
    let mut inner = root();
    let mut state = EditState::new(root());

    state.name = "Edited Name".to_string();
    state.email = "edited@example.com".to_string();
    transfer.write_back_input(&state, &mut inner);

    assert_eq!(inner.name, "Your Name");
    assert_eq!(inner.email, "yourname@yourname.com");
}

#[test]
fn commit_applies_edits_and_clears_flag() {
    let transfer = EditTransfer;
    let mut inner = root();
    let mut state = EditState::new(root());

    state.name = "Edited Name".to_string();
    state.save();
    transfer.write_back_input(&state, &mut inner);
    transfer.read_input(&mut state, &inner);

    assert_eq!(inner.name, "Edited Name");
    assert_eq!(inner.email, "yourname@yourname.com");
    assert!(!state.saved);
    assert_eq!(state.name, "Edited Name");
    assert_eq!(state.email, "yourname@yourname.com");
}

#[test]
fn root_changes_do_not_clobber_edits_in_progress() {
    let transfer = EditTransfer;
    let mut inner = root();
    let mut state = EditState::new(root());

    state.name = "Half-typed".to_string();
    inner.name = "Changed Elsewhere".to_string();
    transfer.read_input(&mut state, &inner);

    assert_eq!(state.name, "Half-typed");
    assert_eq!(state.email, "yourname@yourname.com");
    assert!(!state.saved);
}
