//! A list widget's data source: a backing sequence of records plus an
//! optional selected index, projected row by row into ephemeral
//! view-models, with copy-on-write write-back and an out-of-band
//! selection channel.
//!
//! The backing sequence is shared and immutable-until-replaced; whether
//! the write-back pass allocated a replacement is tracked by the
//! `revision` counter, so "same revision" stands for "same backing
//! allocation" and downstream consumers can skip re-rendering unchanged
//! lists.

use vstd::prelude::*;

verus! {

/// A record in the backing list: a crate name and its download count.
/// Immutable once constructed; edits replace the record wholesale.
pub struct Library {
    pub name: String,
    pub downloads: u32,
}

impl Library {
    pub fn new(name: String, downloads: u32) -> (library: Library)
        ensures
            library.name == name,
            library.downloads == downloads,
    {
        Library { name, downloads }
    }

    /// Value equality, the framework's notion of "did this change".
    pub open spec fn same_spec(&self, other: &Library) -> bool {
        self.name@ == other.name@ && self.downloads == other.downloads
    }

    /// Compare two records by value.
    pub fn same(&self, other: &Library) -> (r: bool)
        ensures
            r == self.same_spec(other),
    {
        self.name == other.name && self.downloads == other.downloads
    }
}

impl Clone for Library {
    fn clone(&self) -> (res: Library)
        ensures
            res == *self,
    {
        Library { name: self.name.clone(), downloads: self.downloads }
    }
}

/// The per-row view-model: one record together with the current
/// selection and this row's position. Synthesized fresh on every
/// iteration pass and never persisted.
pub struct ListItem {
    pub library: Library,
    pub selected: Option<usize>,
    pub index: usize,
}

impl ListItem {
    /// Whether this row is the selected one. Selection follows the
    /// position, not the record.
    pub fn is_selected(&self) -> (r: bool)
        ensures
            r == (self.selected == Some(self.index)),
    {
        match self.selected {
            Some(index) => index == self.index,
            None => false,
        }
    }
}

/// The root state backing the list: the shared record sequence and the
/// optional selected position. `revision` counts replacements of the
/// backing sequence: a write-back pass that changes nothing leaves it
/// untouched, so equal revisions mean the same backing allocation.
pub struct AppState {
    pub libraries: Vec<Library>,
    pub selected: Option<usize>,
    pub revision: u64,
}

/// The forward projection: for the record at each position `i`, the
/// triple (record, current selection, `i`), in ascending position
/// order.
pub open spec fn project(s: AppState) -> Seq<ListItem> {
    Seq::new(
        s.libraries@.len(),
        |i: int| ListItem { library: s.libraries@[i], selected: s.selected, index: i as usize },
    )
}

/// Whether a write-back pass changed any record: some row's record no
/// longer compares equal by value to the record it was projected from.
pub open spec fn any_changed(rows: Seq<ListItem>, libs: Seq<Library>) -> bool {
    exists|i: int| 0 <= i < rows.len() && !(#[trigger] rows[i].library).same_spec(&libs[i])
}

/// What one write-back pass does to the root state. Selection is never
/// a write-back target. If no record changed, the backing sequence is
/// left untouched (same allocation, same revision); if any record
/// changed, the whole sequence is rebuilt in one allocation from the
/// per-row records and the revision moves on.
pub open spec fn write_back_spec(pre: AppState, rows: Seq<ListItem>, post: AppState) -> bool {
    &&& post.selected == pre.selected
    &&& if any_changed(rows, pre.libraries@) {
        &&& post.libraries@ == rows.map_values(|r: ListItem| r.library)
        &&& post.revision == pre.revision + 1
    } else {
        &&& post.libraries == pre.libraries
        &&& post.revision == pre.revision
    }
}

impl AppState {
    pub fn data_len(&self) -> (n: usize)
        ensures
            n == self.libraries@.len(),
    {
        self.libraries.len()
    }

    /// The forward (read) pass: synthesize the per-row view-models.
    pub fn for_each(&self) -> (rows: Vec<ListItem>)
        ensures
            rows@ == project(*self),
    {
        let mut rows: Vec<ListItem> = Vec::new();
        let n = self.libraries.len();
        let mut i: usize = 0;
        while i < n
            invariant
                n == self.libraries@.len(),
                i <= n,
                rows@.len() == i,
                forall|j: int| 0 <= j < i ==> rows@[j] == project(*self)[j],
            decreases n - i,
        {
            let item = ListItem {
                library: self.libraries[i].clone(),
                selected: self.selected,
                index: i,
            };
            rows.push(item);
            i = i + 1;
        }
        proof {
            assert(rows@ =~= project(*self));
        }
        rows
    }

    /// The write-back pass: fold the (possibly mutated) per-row
    /// view-models back into the root state. `rows` must be one row per
    /// record, as the forward pass produced them; the mutations the
    /// rows went through in between are arbitrary.
    pub fn for_each_mut(&mut self, rows: Vec<ListItem>)
        requires
            rows@.len() == old(self).libraries@.len(),
            old(self).revision < u64::MAX,
        ensures
            write_back_spec(*old(self), rows@, *final(self)),
    {
        let n = self.libraries.len();
        let mut changed = false;
        let mut libraries: Vec<Library> = Vec::new();
        let mut i: usize = 0;
        while i < n
            invariant
                *self == *old(self),
                n == self.libraries@.len(),
                n == rows@.len(),
                i <= n,
                libraries@.len() == i,
                forall|j: int| 0 <= j < i ==> libraries@[j] == rows@[j].library,
                changed == exists|j: int|
                    0 <= j < i && !(#[trigger] rows@[j].library).same_spec(&self.libraries@[j]),
            decreases n - i,
        {
            let item = &rows[i];
            if !item.library.same(&self.libraries[i]) {
                changed = true;
            }
            libraries.push(item.library.clone());
            i = i + 1;
        }
        if changed {
            proof {
                assert(libraries@ =~= rows@.map_values(|r: ListItem| r.library));
            }
            self.libraries = libraries;
            self.revision = self.revision + 1;
        }
    }
}

/// An event as the list's controller sees it: either the typed
/// selection notification a row click emits, carrying the clicked
/// row's position, or anything else passing through.
pub enum Event {
    ChangeSelected(usize),
    Other,
}

/// The notification a click on the given row emits: it carries the
/// row's position, never the record.
pub open spec fn click_spec(row: ListItem) -> Event {
    Event::ChangeSelected(row.index)
}

impl ListItem {
    /// The row's click handler: ask the nearest capable ancestor to
    /// select this row's position, without write access to the
    /// selection field itself.
    pub fn on_click(&self) -> (e: Event)
        ensures
            e == click_spec(*self),
    {
        Event::ChangeSelected(self.index)
    }
}

/// What the intercepting controller does to the root state for each
/// event: the selection notification sets the selection to the carried
/// position and touches nothing else; every other event leaves the
/// state unchanged.
pub open spec fn handle_event_spec(s: AppState, e: Event) -> AppState {
    match e {
        Event::ChangeSelected(index) => AppState { selected: Some(index), ..s },
        Event::Other => s,
    }
}

/// The intercepting handler wrapped around the list widget. It observes
/// selection notifications, applies them to the root state, and (in the
/// widget tree) forwards every event to the wrapped widget unchanged.
pub struct AppController;

impl AppController {
    pub fn event(&mut self, data: &mut AppState, event: &Event)
        ensures
            *final(data) == handle_event_spec(*old(data), *event),
    {
        match event {
            Event::ChangeSelected(index) => {
                data.selected = Some(*index);
            },
            Event::Other => {},
        }
    }
}

/// Identity stability: a write-back pass whose rows all still compare
/// equal by value to the records they were projected from leaves the
/// backing sequence untouched — same value and, by the unchanged
/// revision, the same allocation.
pub proof fn lemma_write_back_identity_stable(pre: AppState, rows: Seq<ListItem>, post: AppState)
    requires
        rows.len() == pre.libraries@.len(),
        forall|i: int| 0 <= i < rows.len() ==> (#[trigger] rows[i].library).same_spec(
            &pre.libraries@[i],
        ),
        write_back_spec(pre, rows, post),
    ensures
        post.libraries == pre.libraries,
        post.revision == pre.revision,
{
}

/// Rebuild on change: when exactly one row's record changed in value,
/// the rebuilt sequence has the same length, holds the new record at
/// that position, and holds records equal by value to the originals
/// everywhere else — and the bumped revision records that the backing
/// sequence was replaced.
pub proof fn lemma_write_back_rebuild_on_change(
    pre: AppState,
    rows: Seq<ListItem>,
    post: AppState,
    i: int,
)
    requires
        rows.len() == pre.libraries@.len(),
        0 <= i < rows.len(),
        !rows[i].library.same_spec(&pre.libraries@[i]),
        forall|j: int| 0 <= j < rows.len() && j != i ==> (#[trigger] rows[j].library).same_spec(
            &pre.libraries@[j],
        ),
        write_back_spec(pre, rows, post),
    ensures
        post.libraries@.len() == pre.libraries@.len(),
        post.libraries@[i] == rows[i].library,
        forall|j: int| 0 <= j < rows.len() && j != i ==> (#[trigger] post.libraries@[j]).same_spec(
            &pre.libraries@[j],
        ),
        post.selected == pre.selected,
        post.revision != pre.revision,
{
}

/// Selection addressing: clicking the row displayed at position `i`
/// and letting the controller handle the emitted notification sets the
/// root selection to exactly `Some(i)`, and touches neither the
/// records nor the revision. Only the position enters: the records may
/// have been reordered or replaced since any earlier click, and the
/// result is still the displayed position.
pub proof fn lemma_selection_addressing(s: AppState, i: usize)
    requires
        i < project(s).len(),
    ensures
        handle_event_spec(s, click_spec(project(s)[i as int])) == (AppState {
            selected: Some(i),
            ..s
        }),
{
}

} // verus!
