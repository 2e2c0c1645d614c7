//! Scoped editing with explicit commit.
//!
//! A sub-tree of widgets edits a working copy (`EditState`) of the root
//! state (`AppState`). Edits stay local until the user asks to save;
//! only then does the working copy flow back into the root state, and
//! the working copy is refreshed from the root state only at that same
//! moment. Both directions are gated on the working copy's `saved`
//! flag, which produces save-on-commit rather than save-on-keystroke
//! behaviour.

use vstd::prelude::*;

verus! {

/// The root state that the editing sub-tree is scoped over.
pub struct AppState {
    pub name: String,
    pub email: String,
}

/// The working copy: the fields being edited plus the commit flag.
pub struct EditState {
    pub name: String,
    pub email: String,
    pub saved: bool,
}

impl EditState {
    /// A fresh working copy mirrors the root state and starts out
    /// uncommitted.
    pub fn new(data: AppState) -> (state: EditState)
        ensures
            state.name == data.name,
            state.email == data.email,
            !state.saved,
    {
        EditState { name: data.name, email: data.email, saved: false }
    }

    /// The save button's click handler: request that the working copy
    /// be committed on the next synchronization.
    pub fn save(&mut self)
        ensures
            final(self).name == old(self).name,
            final(self).email == old(self).email,
            final(self).saved,
    {
        self.saved = true;
    }
}

/// What synchronizing the working copy from the root state yields:
/// while uncommitted the working copy is authoritative and reads are
/// suppressed; on commit it is refreshed from the root state and the
/// flag is cleared.
pub open spec fn read_input_spec(state: EditState, inner: AppState) -> EditState {
    if state.saved {
        EditState { name: inner.name, email: inner.email, saved: false }
    } else {
        state
    }
}

/// What writing the working copy back into the root state yields: the
/// edited fields, but only once the commit flag is set.
pub open spec fn write_back_spec(state: EditState, inner: AppState) -> AppState {
    if state.saved {
        AppState { name: state.name, email: state.email }
    } else {
        inner
    }
}

/// The pair of synchronization callbacks handed to the scoping
/// mechanism.
pub struct EditTransfer;

impl EditTransfer {
    /// Refresh the working copy from the root state. Takes effect only
    /// when the commit flag is set, completing the commit round trip
    /// and clearing the flag.
    pub fn read_input(&self, state: &mut EditState, inner: &AppState)
        ensures
            *final(state) == read_input_spec(*old(state), *inner),
    {
        if state.saved {
            state.name = inner.name.clone();
            state.email = inner.email.clone();
            state.saved = false;
        }
    }

    /// Write the working copy back into the root state. Also gated on
    /// the commit flag, so edits are unobservable until saved.
    pub fn write_back_input(&self, state: &EditState, inner: &mut AppState)
        ensures
            *final(inner) == write_back_spec(*state, *old(inner)),
    {
        if state.saved {
            inner.name = state.name.clone();
            inner.email = state.email.clone();
        }
    }
}

/// One full synchronization round as the framework performs it after an
/// edit or a save: write the working copy back, then read the (possibly
/// updated) root state into the working copy.
pub open spec fn sync_cycle(state: EditState, inner: AppState) -> (EditState, AppState) {
    let committed = write_back_spec(state, inner);
    (read_input_spec(state, committed), committed)
}

/// Commit gating: while the commit flag is off, arbitrary edits held in
/// the working copy are not observable in the root state, and a full
/// synchronization round leaves both sides unchanged.
pub proof fn lemma_commit_gating(state: EditState, inner: AppState)
    requires
        !state.saved,
    ensures
        write_back_spec(state, inner) == inner,
        sync_cycle(state, inner) == (state, inner),
{
}

/// Commit round trip: once the commit flag is set, one synchronization
/// round copies the edited fields into the root state, clears the flag,
/// and leaves the working copy mirroring what was committed.
pub proof fn lemma_commit_round_trip(state: EditState, inner: AppState)
    requires
        state.saved,
    ensures
        sync_cycle(state, inner).1.name == state.name,
        sync_cycle(state, inner).1.email == state.email,
        !sync_cycle(state, inner).0.saved,
        sync_cycle(state, inner).0.name == state.name,
        sync_cycle(state, inner).0.email == state.email,
{
}

/// Re-entrant read suppression: while the commit flag is off, the root
/// state changing out from under the editor does not overwrite the
/// in-progress edits in the working copy.
pub proof fn lemma_read_suppressed_while_editing(state: EditState, inner: AppState)
    requires
        !state.saved,
    ensures
        read_input_spec(state, inner) == state,
{
}

} // verus!
