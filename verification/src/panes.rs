//! The row of panes: how it grows and shrinks, and how what happens to a folder reaches its pane.

use crate::columns::{capped_sum, Column, ColumnSnapshot, ColumnState};
use crate::input::{following_number, next_number};
use crate::location::{is_trash_root, Location};
use vstd::prelude::*;

verus! {

/// The row of panes, from the outermost folder inwards.
#[derive(Debug)]
pub struct Panes {
    pub columns: Vec<Column>,
    /// The pane that the pointer is over.
    pub hovered: Option<usize>,
    /// The pane whose menu is open.
    pub menu_owner: Option<usize>,
    /// How often the rows of any pane changed.
    pub source_number: u64,
    /// The number of the scrolling that is under way.
    pub scroll_number: u64,
    /// Whether the pointer tells that entries are being put in order.
    pub waiting: bool,
}

/// What the row of panes is like.
#[verifier::ext_equal]
pub struct PanesModel {
    pub columns: Seq<Column>,
    pub hovered: Option<usize>,
    pub menu_owner: Option<usize>,
    pub source_number: u64,
    pub scroll_number: u64,
    pub waiting: bool,
}

impl View for Panes {
    type V = PanesModel;

    open spec fn view(&self) -> PanesModel {
        PanesModel {
            columns: self.columns@,
            hovered: self.hovered,
            menu_owner: self.menu_owner,
            source_number: self.source_number,
            scroll_number: self.scroll_number,
            waiting: self.waiting,
        }
    }
}

/// A pane, while it is one of the first `len`.
pub open spec fn kept_depth(depth: Option<usize>, len: usize) -> Option<usize> {
    match depth {
        Some(depth) => if depth < len {
            Some(depth)
        } else {
            None
        },
        None => None,
    }
}

/// A number that has moved on a few times.
pub open spec fn moved_on(number: u64, times: nat) -> u64
    decreases times,
{
    if times == 0 {
        number
    } else {
        next_number(moved_on(number, (times - 1) as nat))
    }
}

/// How many entries insertions add, each given by its place and how many it adds.
pub open spec fn inserted_count(insertions: Seq<(usize, usize)>) -> usize
    decreases insertions.len(),
{
    if insertions.len() == 0 {
        0
    } else {
        capped_sum(inserted_count(insertions.drop_last()), insertions.last().1)
    }
}

/// A change of the rows of a pane: from `position` on, `removed` rows give way to `added` others.
#[derive(Clone, Copy, Debug, PartialEq, Eq, Structural)]
pub struct RowSplice {
    pub position: usize,
    pub removed: usize,
    pub added: usize,
}

/// How many rows each change takes out and puts in.
pub open spec fn splice_sizes(splices: Seq<RowSplice>) -> Seq<(usize, usize)> {
    splices.map_values(|splice: RowSplice| (splice.removed, splice.added))
}

impl PanesModel {
    /// Whether there is a pane at the depth.
    pub open spec fn has(self, depth: usize) -> bool {
        depth < self.columns.len()
    }

    /// The panes with one of them in another state, and its rows changed a few times.
    pub open spec fn with_state(self, depth: usize, state: ColumnState, changes: nat) -> PanesModel {
        if self.has(depth) {
            PanesModel {
                columns: self.columns.update(
                    depth as int,
                    Column { state, ..self.columns[depth as int] },
                ),
                source_number: moved_on(self.source_number, changes),
                ..self
            }
        } else {
            self
        }
    }

    /// The state of a pane.
    pub open spec fn state(self, depth: usize) -> ColumnState {
        self.columns[depth as int].state
    }

    /// The first panes alone. What pointed to another points nowhere, scrolling ends, and the last
    /// pane that stays scrolls into view.
    pub open spec fn truncated(self, len: usize) -> PanesModel {
        let kept = if len < self.columns.len() {
            self.columns.take(len as int)
        } else {
            self.columns
        };
        PanesModel {
            columns: kept,
            hovered: kept_depth(self.hovered, len),
            menu_owner: kept_depth(self.menu_owner, len),
            scroll_number: if kept.len() > 0 {
                next_number(next_number(self.scroll_number))
            } else {
                next_number(self.scroll_number)
            },
            ..self
        }
    }

    /// The panes and one more, which scrolls into view.
    pub open spec fn appended(self, column: Column) -> PanesModel {
        PanesModel {
            columns: self.columns.push(column),
            scroll_number: next_number(self.scroll_number),
            ..self
        }
    }

    /// The panes while the entries of one are put in order, or no longer.
    pub open spec fn sorted(self, depth: usize, is_sorting: bool) -> PanesModel {
        let state = if is_sorting {
            self.state(depth).sorting()
        } else {
            self.state(depth).sorted()
        };
        PanesModel { waiting: is_sorting, ..self.with_state(depth, state, 0) }
    }

    /// The panes with hidden entries shown or not.
    pub open spec fn hiding(self, show_hidden: bool) -> PanesModel {
        PanesModel {
            columns: self.columns.map_values(
                |column: Column|
                    Column { state: ColumnState { show_hidden, ..column.state }, ..column },
            ),
            source_number: moved_on(self.source_number, self.columns.len()),
            ..self
        }
    }

    /// The panes once the folder of one could not be read.
    pub open spec fn failed(self, depth: usize, message: String) -> PanesModel {
        if self.has(depth) {
            PanesModel {
                columns: self.columns.update(
                    depth as int,
                    Column {
                        location: self.columns[depth as int].location,
                        state: self.state(depth).failed(),
                        failure: Some(message),
                    },
                ),
                ..self
            }
        } else {
            self
        }
    }

    /// The panes with what is known already of the folder of one that was made anew.
    pub open spec fn rebuilt(self, depth: usize, snapshot: ColumnSnapshot, failure: Option<String>)
        -> PanesModel {
        let column = self.columns[depth as int];
        PanesModel {
            columns: self.columns.update(
                depth as int,
                Column {
                    location: column.location,
                    state: column.state.rebuilt(snapshot, failure is Some),
                    failure: if !snapshot.loading && failure is Some {
                        failure
                    } else {
                        column.failure
                    },
                },
            ),
            source_number: next_number(self.source_number),
            ..self
        }
    }

    /// The panes with the pointer over one of them, or no longer.
    pub open spec fn hovering(self, depth: usize, is_over: bool) -> PanesModel {
        PanesModel {
            hovered: if is_over {
                Some(depth)
            } else if self.hovered == Some(depth) {
                None
            } else {
                self.hovered
            },
            ..self
        }
    }

    /// The panes with the filter of one open; only one is.
    pub open spec fn filtering(self, depth: usize, is_open: bool) -> PanesModel {
        PanesModel {
            columns: Seq::new(
                self.columns.len(),
                |i: int| self.columns[i].with_filter(depth, is_open, i),
            ),
            ..self
        }
    }

    /// How many entries the first pane of the trash shows, where there is one.
    pub open spec fn trash_count(self) -> Option<usize> {
        first_trash_count(self.columns)
    }
}

/// How many entries the first of the panes shows that is one of the trash.
pub open spec fn first_trash_count(columns: Seq<Column>) -> Option<usize>
    decreases columns.len(),
{
    if columns.len() == 0 {
        None
    } else if columns.first().location@.is_trash_root() {
        Some(columns.first().state.entry_count)
    } else {
        first_trash_count(columns.drop_first())
    }
}

impl Column {
    /// The pane at place `at` once the filter of the one at `depth` is open or not.
    pub open spec fn with_filter(self, depth: usize, is_open: bool, at: int) -> Column {
        let filter_open = if at == depth {
            is_open
        } else {
            self.state.filter_open && !is_open
        };
        Column { state: ColumnState { filter_open, ..self.state }, ..self }
    }
}

/// The pane at place `at` once the filter of the one at `depth` is open or not.
fn toggled(column: Column, depth: usize, is_open: bool, at: usize) -> (result: Column)
    ensures
        result == column.with_filter(depth, is_open, at as int),
{
    let mut column: Column = column;
    if at == depth {
        column.state.filter_open = is_open;
    } else if is_open {
        column.state.filter_open = false;
    }
    column
}

impl Panes {
    /// No panes.
    pub fn new() -> (result: Self)
        ensures
            result@.columns.len() == 0,
            result@.hovered is None,
            result@.menu_owner is None,
            result@.source_number == 0,
            result@.scroll_number == 0,
            !result@.waiting,
    {
        Panes {
            columns: Vec::new(),
            hovered: None,
            menu_owner: None,
            source_number: 0,
            scroll_number: 0,
            waiting: false,
        }
    }

    /// Takes that only the first panes stay. The last of them is to scroll into view.
    pub fn truncate(&mut self, len: usize)
        ensures
            final(self)@ == old(self)@.truncated(len),
    {
        match self.hovered {
            Some(depth) => {
                if depth >= len {
                    self.hovered = None;
                }
            },
            None => {},
        }
        match self.menu_owner {
            Some(depth) => {
                if depth >= len {
                    self.menu_owner = None;
                }
            },
            None => {},
        }
        self.scroll_number = following_number(self.scroll_number);
        if len < self.columns.len() {
            self.columns.truncate(len);
        }
        if self.columns.len() > 0 {
            self.scroll_number = following_number(self.scroll_number);
        }
        assert(self@ =~= old(self)@.truncated(len));
    }

    /// Takes that a folder is shown in a pane of its own, behind the others. It is to scroll into
    /// view.
    pub fn append_column(&mut self, location: Location, show_hidden: bool)
        ensures
            final(self)@ == old(self)@.appended(
                (Column {
                    location,
                    state: ColumnState::opened(location@, show_hidden),
                    failure: None,
                }),
            ),
    {
        self.columns.push(Column::open(location, show_hidden));
        self.scroll_number = following_number(self.scroll_number);
        assert(self@ =~= old(self)@.appended(self.columns@.last()));
    }

    fn touch(&mut self, times: usize)
        ensures
            final(self)@ == (PanesModel {
                source_number: moved_on(old(self)@.source_number, times as nat),
                ..old(self)@
            }),
            final(self).columns == old(self).columns,
    {
        let mut i: usize = 0;
        while i < times
            invariant
                i <= times,
                self.columns == old(self).columns,
                self@ == (PanesModel {
                    source_number: moved_on(old(self)@.source_number, i as nat),
                    ..old(self)@
                }),
            decreases times - i,
        {
            self.source_number = following_number(self.source_number);
            i = i + 1;
        }
    }

    fn take_column(&mut self, depth: usize) -> (result: Column)
        requires
            old(self)@.has(depth),
        ensures
            result == old(self)@.columns[depth as int],
            final(self)@.columns == old(self)@.columns.remove(depth as int),
            final(self).hovered == old(self).hovered,
            final(self).menu_owner == old(self).menu_owner,
            final(self).source_number == old(self).source_number,
            final(self).scroll_number == old(self).scroll_number,
            final(self).waiting == old(self).waiting,
    {
        self.columns.remove(depth)
    }

    fn put_column(&mut self, depth: usize, column: Column)
        requires
            depth <= old(self)@.columns.len(),
        ensures
            final(self)@ == (PanesModel {
                columns: old(self)@.columns.insert(depth as int, column),
                ..old(self)@
            }),
    {
        self.columns.insert(depth, column);
    }

    /// Takes that entries were inserted; of each insertion, its place and how many it adds.
    pub fn entries_inserted(&mut self, depth: usize, insertions: &Vec<(usize, usize)>)
        ensures
            final(self)@ == old(self)@.with_state(
                depth,
                old(self)@.state(depth).added(inserted_count(insertions@)),
                insertions@.len(),
            ),
    {
        if depth >= self.columns.len() {
            return;
        }
        let mut count: usize = 0;
        let mut i: usize = 0;
        while i < insertions.len()
            invariant
                i <= insertions@.len(),
                count == inserted_count(insertions@.take(i as int)),
            decreases insertions@.len() - i,
        {
            let more: usize = insertions[i].1;
            count = if more > usize::MAX - count {
                usize::MAX
            } else {
                count + more
            };
            assert(insertions@.take(i + 1).drop_last() == insertions@.take(i as int));
            i = i + 1;
        }
        assert(insertions@.take(i as int) == insertions@);
        let mut column: Column = self.take_column(depth);
        column.entries_added(count);
        self.put_column(depth, column);
        self.touch(insertions.len());
        assert(self@.columns =~= old(self)@.columns.update(depth as int, column));
    }

    /// Takes that entries were published, all in one place.
    pub fn entries_published(&mut self, depth: usize, count: usize)
        ensures
            final(self)@ == old(self)@.with_state(depth, old(self)@.state(depth).added(count), 1),
    {
        if depth >= self.columns.len() {
            return;
        }
        let mut column: Column = self.take_column(depth);
        column.entries_added(count);
        self.put_column(depth, column);
        self.touch(1);
        assert(self@.columns =~= old(self)@.columns.update(depth as int, column));
    }

    /// Takes that the entries of a folder were replaced.
    pub fn entries_replaced(&mut self, depth: usize, count: usize)
        ensures
            final(self)@ == old(self)@.with_state(
                depth,
                old(self)@.state(depth).replaced(count),
                1,
            ),
    {
        if depth >= self.columns.len() {
            return;
        }
        let mut column: Column = self.take_column(depth);
        column.entries_replaced(count);
        self.put_column(depth, column);
        self.touch(1);
        assert(self@.columns =~= old(self)@.columns.update(depth as int, column));
    }

    /// Takes that entries of a folder came and went.
    pub fn entries_spliced(&mut self, depth: usize, splices: &Vec<RowSplice>)
        ensures
            final(self)@ == old(self)@.with_state(
                depth,
                old(self)@.state(depth).spliced(splice_sizes(splices@)),
                splices@.len(),
            ),
    {
        if depth >= self.columns.len() {
            return;
        }
        let mut sizes: Vec<(usize, usize)> = Vec::new();
        let mut i: usize = 0;
        while i < splices.len()
            invariant
                i <= splices@.len(),
                sizes@ == splice_sizes(splices@).take(i as int),
            decreases splices@.len() - i,
        {
            sizes.push((splices[i].removed, splices[i].added));
            assert(splice_sizes(splices@).take(i + 1) == splice_sizes(splices@).take(i as int).push(
                splice_sizes(splices@)[i as int],
            ));
            i = i + 1;
        }
        assert(splice_sizes(splices@).take(i as int) == splice_sizes(splices@));
        let mut column: Column = self.take_column(depth);
        column.entries_spliced(&sizes);
        self.put_column(depth, column);
        self.touch(splices.len());
        assert(self@.columns =~= old(self)@.columns.update(depth as int, column));
    }

    /// Takes that the entries of a folder are being put in order.
    pub fn sorting_started(&mut self, depth: usize)
        ensures
            final(self)@ == old(self)@.sorted(depth, true),
    {
        self.waiting = true;
        if depth >= self.columns.len() {
            return;
        }
        let mut column: Column = self.take_column(depth);
        column.sorting_started();
        self.put_column(depth, column);
        assert(self@.columns =~= old(self)@.columns.update(depth as int, column));
    }

    /// Takes that the entries of a folder are in order.
    pub fn sorting_finished(&mut self, depth: usize)
        ensures
            final(self)@ == old(self)@.sorted(depth, false),
    {
        self.waiting = false;
        if depth >= self.columns.len() {
            return;
        }
        let mut column: Column = self.take_column(depth);
        column.sorting_finished();
        self.put_column(depth, column);
        assert(self@.columns =~= old(self)@.columns.update(depth as int, column));
    }

    /// Takes that a folder is read again.
    pub fn column_reloaded(&mut self, depth: usize)
        ensures
            final(self)@ == old(self)@.with_state(depth, old(self)@.state(depth).reloaded(), 1),
    {
        if depth >= self.columns.len() {
            return;
        }
        let mut column: Column = self.take_column(depth);
        column.reloaded();
        self.put_column(depth, column);
        self.touch(1);
        assert(self@.columns =~= old(self)@.columns.update(depth as int, column));
    }

    /// Takes that hidden entries are shown or no longer.
    pub fn hidden_toggled(&mut self, show_hidden: bool)
        ensures
            final(self)@ == old(self)@.hiding(show_hidden),
    {
        let ghost shown = |column: Column|
            Column { state: ColumnState { show_hidden, ..column.state }, ..column };
        let mut i: usize = 0;
        let count: usize = self.columns.len();
        while i < count
            invariant
                i <= count,
                count == old(self)@.columns.len(),
                self.columns@.len() == count,
                shown == (|column: Column|
                    Column { state: ColumnState { show_hidden, ..column.state }, ..column }),
                forall|k: int|
                    0 <= k < i ==> #[trigger] self.columns@[k] == shown(old(self)@.columns[k]),
                forall|k: int|
                    i <= k < count ==> #[trigger] self.columns@[k] == old(self)@.columns[k],
                self.hovered == old(self).hovered,
                self.menu_owner == old(self).menu_owner,
                self.source_number == old(self).source_number,
                self.scroll_number == old(self).scroll_number,
                self.waiting == old(self).waiting,
            decreases count - i,
        {
            let ghost before = self.columns@;
            let mut column: Column = self.take_column(i);
            column.state.show_hidden = show_hidden;
            self.put_column(i, column);
            assert(self.columns@ =~= before.update(i as int, column));
            i = i + 1;
        }
        self.touch(count);
        assert(self@ =~= old(self)@.hiding(show_hidden));
    }

    /// Takes that a folder was read, wholly or in part.
    pub fn load_finished(&mut self, depth: usize, truncated: bool)
        ensures
            final(self)@ == old(self)@.with_state(
                depth,
                old(self)@.state(depth).loaded(truncated),
                0,
            ),
    {
        if depth >= self.columns.len() {
            return;
        }
        let mut column: Column = self.take_column(depth);
        column.load_finished(truncated);
        self.put_column(depth, column);
        assert(self@.columns =~= old(self)@.columns.update(depth as int, column));
    }

    /// Takes that a folder could not be read, and why.
    pub fn load_failed(&mut self, depth: usize, message: String)
        ensures
            final(self)@ == old(self)@.failed(depth, message),
    {
        if depth >= self.columns.len() {
            return;
        }
        let mut column: Column = self.take_column(depth);
        column.load_failed(message);
        self.put_column(depth, column);
        assert(self@.columns =~= old(self)@.columns.update(depth as int, column));
    }

    /// Takes that the pointer entered a pane.
    pub fn pointer_entered(&mut self, depth: usize)
        ensures
            final(self)@ == old(self)@.hovering(depth, true),
    {
        self.hovered = Some(depth);
    }

    /// Takes that the pointer left a pane.
    pub fn pointer_left(&mut self, depth: usize)
        ensures
            final(self)@ == old(self)@.hovering(depth, false),
    {
        match self.hovered {
            Some(hovered) => {
                if hovered == depth {
                    self.hovered = None;
                }
            },
            None => {},
        }
    }

    /// Takes that the filter of a pane is opened or closed. Opening one closes the others.
    #[verifier::spinoff_prover]
    pub fn filter_toggled(&mut self, depth: usize, is_open: bool)
        requires
            old(self)@.has(depth),
        ensures
            final(self)@ == old(self)@.filtering(depth, is_open),
    {
        let mut i: usize = 0;
        let count: usize = self.columns.len();
        let ghost wanted = old(self)@.filtering(depth, is_open).columns;
        assert forall|k: int| 0 <= k < count implies #[trigger] wanted[k]
            == old(self)@.columns[k].with_filter(depth, is_open, k) by {}
        while i < count
            invariant
                i <= count,
                count == old(self)@.columns.len(),
                self.columns@.len() == count,
                wanted.len() == count,
                forall|k: int|
                    0 <= k < count ==> #[trigger] wanted[k] == old(self)@.columns[k].with_filter(
                        depth,
                        is_open,
                        k,
                    ),
                forall|k: int| 0 <= k < i ==> #[trigger] self.columns@[k] == wanted[k],
                forall|k: int|
                    i <= k < count ==> #[trigger] self.columns@[k] == old(self)@.columns[k],
                self.hovered == old(self).hovered,
                self.menu_owner == old(self).menu_owner,
                self.source_number == old(self).source_number,
                self.scroll_number == old(self).scroll_number,
                self.waiting == old(self).waiting,
            decreases count - i,
        {
            let column: Column = self.take_column(i);
            self.put_column(i, toggled(column, depth, is_open, i));
            i = i + 1;
        }
        assert(self.columns@ =~= wanted);
    }

    /// How many entries the first pane of the trash shows.
    pub fn trash_entry_count(&self) -> (result: Option<usize>)
        ensures
            result == self@.trash_count(),
    {
        let mut i: usize = 0;
        assert(self.columns@.skip(0) == self.columns@);
        while i < self.columns.len()
            invariant
                i <= self.columns@.len(),
                first_trash_count(self.columns@) == first_trash_count(self.columns@.skip(i as int)),
            decreases self.columns@.len() - i,
        {
            assert(self.columns@.skip(i as int).drop_first() == self.columns@.skip(i + 1));
            if is_trash_root(&self.columns[i].location) {
                return Some(self.columns[i].state.entry_count);
            }
            i = i + 1;
        }
        None
    }

    /// Takes what is known already of the folder of a pane that was made anew.
    pub fn rebuild_column(&mut self, depth: usize, snapshot: ColumnSnapshot, failure: Option<String>)
        requires
            old(self)@.has(depth),
        ensures
            final(self)@ == old(self)@.rebuilt(depth, snapshot, failure),
    {
        let mut column: Column = self.take_column(depth);
        column.rebuild(snapshot, failure);
        self.put_column(depth, column);
        self.source_number = following_number(self.source_number);
        assert(self.columns@ =~= old(self)@.columns.update(depth as int, column));
        assert(self@ =~= old(self)@.rebuilt(depth, snapshot, failure));
    }
}

/// Whether the focus that enters a pane makes it the active one: not while the menu of another pane
/// is open, nor while files are dropped.
pub fn focus_activates(depth: usize, menu_owner: Option<usize>, drop_active: bool) -> (result: bool)
    ensures
        result == ((menu_owner is None || menu_owner == Some(depth)) && !drop_active),
{
    let is_owner: bool = match menu_owner {
        Some(owner) => owner == depth,
        None => true,
    };
    is_owner && !drop_active
}

/// Whether the filter of a pane closes when the focus went elsewhere: it stays while a dialog lies
/// over the window, and in a file chooser.
pub fn filter_closes(has_modal_layer: bool, left_column: bool, is_chooser: bool) -> (result: bool)
    ensures
        result == (!has_modal_layer && left_column && !is_chooser),
{
    !has_modal_layer && left_column && !is_chooser
}

/// The pane in which a new folder is made: the one that has the focus, or the active one, or the
/// last. The pointer has no say.
pub open spec fn new_folder_depth(
    focused: Option<usize>,
    active: Option<usize>,
    pane_count: usize,
) -> Option<usize> {
    match kept_depth(focused, pane_count) {
        Some(depth) => Some(depth),
        None => match kept_depth(active, pane_count) {
            Some(depth) => Some(depth),
            None => if pane_count > 0 {
                Some((pane_count - 1) as usize)
            } else {
                None
            },
        },
    }
}

/// The pane in which a new folder is made.
pub fn new_folder_destination_depth(
    focused: Option<usize>,
    active: Option<usize>,
    pane_count: usize,
) -> (result: Option<usize>)
    ensures
        result == new_folder_depth(focused, active, pane_count),
{
    match focused {
        Some(depth) => {
            if depth < pane_count {
                return Some(depth);
            }
        },
        None => {},
    }
    match active {
        Some(depth) => {
            if depth < pane_count {
                return Some(depth);
            }
        },
        None => {},
    }
    if pane_count > 0 {
        Some(pane_count - 1)
    } else {
        None
    }
}

/// What a frame leads to while a pane scrolls into view.
#[derive(Clone, Copy, Debug, PartialEq, Eq, Structural)]
pub enum RevealStep {
    /// Give up.
    Stop,
    /// Wait for the next frame.
    Wait,
    /// Scroll now.
    Scroll,
}

impl Panes {
    /// What a frame leads to while a pane scrolls into view: nothing once another scrolling began or
    /// the pane is gone, and a wait until it has its place.
    pub fn reveal_column(&self, number: u64, is_there: bool, width: i32, has_place: bool) -> (result:
        RevealStep)
        ensures
            result == if number != self.scroll_number || !is_there {
                RevealStep::Stop
            } else if width <= 0 || !has_place {
                RevealStep::Wait
            } else {
                RevealStep::Scroll
            },
    {
        if number != self.scroll_number || !is_there {
            RevealStep::Stop
        } else if width <= 0 || !has_place {
            RevealStep::Wait
        } else {
            RevealStep::Scroll
        }
    }

    /// The pane that takes the focus once the panes were made anew, and the row to scroll to: the
    /// active pane, and the row of the focused entry if that is in it.
    pub fn focus_rebuilt_active_column(
        &self,
        active_depth: Option<usize>,
        focused_depth: Option<usize>,
        focused_row: Option<u32>,
    ) -> (result: Option<(usize, Option<u32>)>)
        ensures
            result == match active_depth {
                Some(depth) => if self@.has(depth) {
                    Some(
                        (
                            depth,
                            if focused_depth == Some(depth) {
                                focused_row
                            } else {
                                None
                            },
                        ),
                    )
                } else {
                    None
                },
                None => None,
            },
    {
        match active_depth {
            Some(depth) => {
                if depth >= self.columns.len() {
                    return None;
                }
                let is_in_it: bool = match focused_depth {
                    Some(focused) => focused == depth,
                    None => false,
                };
                Some(
                    (
                        depth,
                        if is_in_it {
                            focused_row
                        } else {
                            None
                        },
                    ),
                )
            },
            None => None,
        }
    }
}

/// The edge between two panes that is pressed: when it was pressed last, and which.
#[derive(Clone, Copy, Debug)]
pub struct ResizePress {
    pub last: Option<(usize, u64)>,
}

/// What a press on an edge leads to.
#[derive(Clone, Copy, Debug, PartialEq, Eq, Structural)]
pub enum ResizeStep {
    /// The pane becomes as wide as this, which all its contents need.
    Fit(i32),
    /// The pane is resized with the pointer, beginning with this width.
    Drag(i32),
}

/// How soon a second press fits the pane to its contents, in microseconds.
pub const AUTOFIT_INTERVAL: u64 = 400_000;

/// A width that a pane may have.
pub open spec fn at_least_a_column(width: i32) -> i32 {
    if width > crate::columns::COLUMN_WIDTH {
        width
    } else {
        crate::columns::COLUMN_WIDTH
    }
}

impl ResizePress {
    /// No edge was pressed.
    pub fn new() -> (result: Self)
        ensures
            result.last is None,
    {
        ResizePress { last: None }
    }

    /// Whether a press is the second on the same edge, soon after the first.
    pub open spec fn is_second(self, pane: usize, now: u64) -> bool {
        self.last matches Some((last_pane, time)) && last_pane == pane && (if now >= time {
            now - time
        } else {
            now + 0x1_0000_0000_0000_0000 - time
        }) <= AUTOFIT_INTERVAL
    }

    /// Takes a press on the edge of a pane. `natural_width` is what its contents need.
    pub fn pressed(&mut self, pane: usize, now: u64, width: i32, natural_width: i32) -> (result:
        ResizeStep)
        ensures
            final(self).last == Some((pane, now)),
            result == if old(self).is_second(pane, now) {
                ResizeStep::Fit(at_least_a_column(natural_width))
            } else {
                ResizeStep::Drag(at_least_a_column(width))
            },
    {
        let is_second: bool = match self.last {
            Some((last_pane, time)) => last_pane == pane && now.wrapping_sub(time)
                <= AUTOFIT_INTERVAL,
            None => false,
        };
        self.last = Some((pane, now));
        if is_second {
            ResizeStep::Fit(
                if natural_width > crate::columns::COLUMN_WIDTH {
                    natural_width
                } else {
                    crate::columns::COLUMN_WIDTH
                },
            )
        } else {
            ResizeStep::Drag(
                if width > crate::columns::COLUMN_WIDTH {
                    width
                } else {
                    crate::columns::COLUMN_WIDTH
                },
            )
        }
    }
}

/// Cutting the row of panes twice is cutting it at the shorter length, and nothing points to a pane
/// that is gone.
pub proof fn law_truncation_leaves_no_trace(panes: PanesModel, len: usize, shorter: usize)
    requires
        shorter <= len,
    ensures
        panes.truncated(len).truncated(shorter).columns == panes.truncated(shorter).columns,
        panes.truncated(len).columns.len() <= len,
        panes.truncated(len).hovered matches Some(depth) ==> depth < len,
        panes.truncated(len).menu_owner matches Some(depth) ==> depth < len,
        panes.truncated(len).columns.is_prefix_of(panes.columns),
{
    assert(panes.truncated(len).truncated(shorter).columns =~= panes.truncated(shorter).columns);
}

/// What happens to the folder of one pane leaves the other panes as they are.
pub proof fn law_panes_are_independent(
    panes: PanesModel,
    depth: usize,
    state: ColumnState,
    changes: nat,
    other: int,
)
    requires
        other != depth,
        0 <= other < panes.columns.len(),
    ensures
        panes.with_state(depth, state, changes).columns[other] == panes.columns[other],
        panes.with_state(depth, state, changes).columns.len() == panes.columns.len(),
{
}

/// At most one filter is open after one was opened.
pub proof fn law_one_filter_is_open(panes: PanesModel, depth: usize, other: int)
    requires
        0 <= other < panes.columns.len(),
        panes.filtering(depth, true).columns[other].state.filter_open,
    ensures
        other == depth,
{
}

/// A new folder is made in a pane that is there.
pub proof fn law_new_folders_have_a_pane(
    focused: Option<usize>,
    active: Option<usize>,
    pane_count: usize,
)
    ensures
        new_folder_depth(focused, active, pane_count) is Some <==> pane_count > 0,
        new_folder_depth(focused, active, pane_count) matches Some(depth) ==> depth < pane_count,
{
}

/// A pane is kept where it is one of the first so many.
pub proof fn law_kept_panes_are_the_first(depth: Option<usize>, len: usize)
    ensures
        kept_depth(depth, len) is Some <==> depth is Some && depth->0 < len,
        kept_depth(depth, len) is Some ==> kept_depth(depth, len) == depth,
{
}

/// A counter moves on once for every change, up to the last number.
pub proof fn law_changes_are_counted(number: u64, times: nat)
    ensures
        number + times <= u64::MAX ==> moved_on(number, times) == number + times,
        number + times > u64::MAX ==> moved_on(number, times) == u64::MAX,
    decreases times,
{
    if times > 0 {
        law_changes_are_counted(number, (times - 1) as nat);
    }
}

/// Insertions count together, and splices by what they remove and add, each in its order.
pub proof fn law_insertions_add_up(
    insertions: Seq<(usize, usize)>,
    place: usize,
    count: usize,
    splices: Seq<RowSplice>,
    i: int,
)
    ensures
        inserted_count(Seq::empty()) == 0,
        inserted_count(insertions) + count <= usize::MAX ==> inserted_count(
            insertions.push((place, count)),
        ) == inserted_count(insertions) + count,
        inserted_count(insertions) + count > usize::MAX ==> inserted_count(
            insertions.push((place, count)),
        ) == usize::MAX,
        splice_sizes(splices).len() == splices.len(),
        0 <= i < splices.len() ==> splice_sizes(splices)[i].0 == splices[i].removed,
        0 <= i < splices.len() ==> splice_sizes(splices)[i].1 == splices[i].added,
{
    assert(insertions.push((place, count)).drop_last() =~= insertions);
}

/// A change of a pane that is there changes that pane's state to the given one and counts; a pane that
/// is not there changes nothing. Where the panes stand for stays.
pub proof fn law_pane_takes_its_new_state(
    panes: PanesModel,
    depth: usize,
    state: ColumnState,
    changes: nat,
)
    ensures
        panes.has(depth) <==> depth < panes.columns.len(),
        panes.has(depth) ==> panes.state(depth) == panes.columns[depth as int].state,
        depth < panes.columns.len() ==> {
            let after = panes.with_state(depth, state, changes);
            &&& after.columns[depth as int].state == state
            &&& after.columns[depth as int].location == panes.columns[depth as int].location
            &&& after.columns[depth as int].failure == panes.columns[depth as int].failure
            &&& after.source_number == moved_on(panes.source_number, changes)
            &&& after == (PanesModel {
                columns: after.columns,
                source_number: after.source_number,
                ..panes
            })
        },
        depth >= panes.columns.len() ==> panes.with_state(depth, state, changes) == panes,
{
}

/// Closing panes leaves the first so many as they are, ends what pointed at one that is gone, and
/// keeps what pointed at one that stays; scrolling begins anew.
pub proof fn law_closing_panes_leaves_the_first(panes: PanesModel, len: usize, i: int)
    ensures
        panes.truncated(len).columns.len() == if len < panes.columns.len() {
            len as nat
        } else {
            panes.columns.len()
        },
        0 <= i < panes.truncated(len).columns.len() ==> panes.truncated(len).columns[i]
            == panes.columns[i],
        panes.hovered is Some && panes.hovered->0 < len ==> panes.truncated(len).hovered
            == panes.hovered,
        panes.menu_owner is Some && panes.menu_owner->0 < len ==> panes.truncated(len).menu_owner
            == panes.menu_owner,
        panes.hovered is None ==> panes.truncated(len).hovered is None,
        panes.menu_owner is None ==> panes.truncated(len).menu_owner is None,
        panes.truncated(len).source_number == panes.source_number,
        panes.truncated(len).waiting == panes.waiting,
        panes.scroll_number < u64::MAX - 1 && panes.truncated(len).columns.len() > 0
            ==> panes.truncated(len).scroll_number == panes.scroll_number + 2,
        panes.scroll_number < u64::MAX && panes.truncated(len).columns.len() == 0
            ==> panes.truncated(len).scroll_number == panes.scroll_number + 1,
{
}

/// A pane that is opened comes behind all the others, which stay as they are, and is scrolled to.
pub proof fn law_new_panes_come_last(panes: PanesModel, column: Column, i: int)
    ensures
        panes.appended(column).columns.len() == panes.columns.len() + 1,
        panes.appended(column).columns.last() == column,
        0 <= i < panes.columns.len() ==> panes.appended(column).columns[i] == panes.columns[i],
        panes.scroll_number < u64::MAX ==> panes.appended(column).scroll_number
            == panes.scroll_number + 1,
        panes.appended(column) == (PanesModel {
            columns: panes.appended(column).columns,
            scroll_number: panes.appended(column).scroll_number,
            ..panes
        }),
{
}

/// While a pane is put in order the pointer tells so, and once it is, no more; the pane itself takes
/// part where it is there.
pub proof fn law_sorting_is_told_by_the_pointer(panes: PanesModel, depth: usize, i: int)
    ensures
        panes.sorted(depth, true).waiting,
        !panes.sorted(depth, false).waiting,
        panes.has(depth) ==> panes.sorted(depth, true).columns[depth as int].state == panes.state(
            depth,
        ).sorting(),
        panes.has(depth) ==> panes.sorted(depth, false).columns[depth as int].state == panes.state(
            depth,
        ).sorted(),
        0 <= i < panes.columns.len() && i != depth ==> panes.sorted(depth, true).columns[i]
            == panes.columns[i] && panes.sorted(depth, false).columns[i] == panes.columns[i],
        panes.sorted(depth, true).source_number == panes.source_number,
        panes.sorted(depth, false).source_number == panes.source_number,
        panes.sorted(depth, true).columns.len() == panes.columns.len(),
        panes.sorted(depth, false).columns.len() == panes.columns.len(),
{
}

/// Hidden entries are shown or not in all panes alike, and every pane counts as changed.
pub proof fn law_hidden_entries_are_shown_in_all_panes(
    panes: PanesModel,
    show_hidden: bool,
    i: int,
)
    requires
        0 <= i < panes.columns.len(),
    ensures
        panes.hiding(show_hidden).columns.len() == panes.columns.len(),
        panes.hiding(show_hidden).columns[i].state.show_hidden == show_hidden,
        panes.hiding(show_hidden).columns[i] == (Column {
            state: ColumnState { show_hidden, ..panes.columns[i].state },
            ..panes.columns[i]
        }),
        panes.hiding(show_hidden).source_number == moved_on(
            panes.source_number,
            panes.columns.len(),
        ),
        panes.hiding(show_hidden).hovered == panes.hovered,
        panes.hiding(show_hidden).menu_owner == panes.menu_owner,
        panes.hiding(show_hidden).scroll_number == panes.scroll_number,
        panes.hiding(show_hidden).waiting == panes.waiting,
{
}

/// A folder that could not be read is told in its pane with the reason, and in no other.
pub proof fn law_failures_are_told_in_their_pane(
    panes: PanesModel,
    depth: usize,
    message: String,
    i: int,
)
    ensures
        panes.has(depth) ==> {
            let column = panes.failed(depth, message).columns[depth as int];
            &&& column.failure == Some(message)
            &&& column.state == panes.state(depth).failed()
            &&& column.location == panes.columns[depth as int].location
        },
        !panes.has(depth) ==> panes.failed(depth, message) == panes,
        0 <= i < panes.columns.len() && i != depth ==> panes.failed(depth, message).columns[i]
            == panes.columns[i],
        panes.failed(depth, message) == (PanesModel {
            columns: panes.failed(depth, message).columns,
            ..panes
        }),
        panes.failed(depth, message).columns.len() == panes.columns.len(),
{
}

/// A pane that is built anew shows what is known of its folder, a failure only once it is no longer
/// read, and the others stay.
pub proof fn law_rebuilt_pane_stands_alone(
    panes: PanesModel,
    depth: usize,
    snapshot: ColumnSnapshot,
    failure: Option<String>,
    i: int,
)
    requires
        panes.has(depth),
    ensures
        ({
            let after = panes.rebuilt(depth, snapshot, failure);
            let column = after.columns[depth as int];
            &&& column.location == panes.columns[depth as int].location
            &&& column.state == panes.state(depth).rebuilt(snapshot, failure is Some)
            &&& !snapshot.loading && failure is Some ==> column.failure == failure
            &&& snapshot.loading || failure is None ==> column.failure
                == panes.columns[depth as int].failure
            &&& after.columns.len() == panes.columns.len()
            &&& 0 <= i < panes.columns.len() && i != depth ==> after.columns[i] == panes.columns[i]
            &&& panes.source_number < u64::MAX ==> after.source_number == panes.source_number + 1
            &&& after == (PanesModel {
                columns: after.columns,
                source_number: after.source_number,
                ..panes
            })
        }),
{
}

/// The pane under the pointer is the last that it came over, until it leaves that one; leaving another
/// changes nothing.
pub proof fn law_pointer_is_over_one_pane(panes: PanesModel, depth: usize, other: usize)
    ensures
        panes.hovering(depth, true).hovered == Some(depth),
        panes.hovering(depth, true).hovering(depth, false).hovered is None,
        other != depth ==> panes.hovering(depth, true).hovering(other, false).hovered == Some(depth),
        panes.hovered is None ==> panes.hovering(depth, false).hovered is None,
        panes.hovering(depth, true) == (PanesModel { hovered: Some(depth), ..panes }),
        panes.hovering(depth, false) == (PanesModel {
            hovered: panes.hovering(depth, false).hovered,
            ..panes
        }),
{
}

/// Opening the filter of a pane opens it there and closes every other; closing it leaves the others as
/// they are. Nothing else changes.
pub proof fn law_filter_opens_in_its_pane(panes: PanesModel, depth: usize, i: int)
    requires
        0 <= i < panes.columns.len(),
    ensures
        panes.filtering(depth, true).columns[i].state.filter_open <==> i == depth,
        panes.filtering(depth, false).columns[i].state.filter_open <==> i != depth
            && panes.columns[i].state.filter_open,
        forall|is_open: bool|
            #![trigger panes.filtering(depth, is_open)]
            panes.filtering(depth, is_open).columns.len() == panes.columns.len()
                && panes.filtering(depth, is_open).columns[i] == (Column {
                state: ColumnState {
                    filter_open: panes.filtering(depth, is_open).columns[i].state.filter_open,
                    ..panes.columns[i].state
                },
                ..panes.columns[i]
            }) && panes.filtering(depth, is_open) == (PanesModel {
                columns: panes.filtering(depth, is_open).columns,
                ..panes
            }),
{
}

/// What the trash counts is what its first pane counts, and nothing is known without one.
pub proof fn law_trash_is_counted_in_its_first_pane(columns: Seq<Column>, at: int)
    requires
        0 <= at <= columns.len(),
        forall|k: int| 0 <= k < at ==> !(#[trigger] columns[k]).location@.is_trash_root(),
    ensures
        at < columns.len() && columns[at].location@.is_trash_root() ==> first_trash_count(columns)
            == Some(columns[at].state.entry_count),
        at == columns.len() ==> first_trash_count(columns) is None,
    decreases columns.len(),
{
    if at > 0 {
        let rest = columns.drop_first();
        assert forall|k: int| 0 <= k < at - 1 implies !(#[trigger] rest[k]).location@.is_trash_root() by {
            assert(!columns[k + 1].location@.is_trash_root());
        }
        law_trash_is_counted_in_its_first_pane(rest, at - 1);
        assert(!columns[0].location@.is_trash_root());
        if at < columns.len() {
            assert(rest[at - 1] == columns[at]);
        }
    }
}

/// The trash of the panes is that of their columns.
pub proof fn law_panes_count_their_trash(panes: PanesModel)
    ensures
        panes.trash_count() == first_trash_count(panes.columns),
{
}

/// A new folder is made in the pane that has the focus, or else in the active one, and in the last
/// where neither is there.
pub proof fn law_new_folders_go_where_the_focus_is(
    focused: Option<usize>,
    active: Option<usize>,
    pane_count: usize,
)
    requires
        pane_count > 0,
    ensures
        focused is Some && focused->0 < pane_count ==> new_folder_depth(focused, active, pane_count)
            == focused,
        !(focused is Some && focused->0 < pane_count) && active is Some && active->0 < pane_count
            ==> new_folder_depth(focused, active, pane_count) == active,
        !(focused is Some && focused->0 < pane_count) && !(active is Some && active->0 < pane_count)
            ==> new_folder_depth(focused, active, pane_count) == Some((pane_count - 1) as usize),
{
}

/// No pane is narrower than a column, and none is widened beyond what is asked.
pub proof fn law_panes_are_at_least_a_column(width: i32)
    ensures
        at_least_a_column(width) >= 300,
        at_least_a_column(width) >= width,
        at_least_a_column(width) == 300 || at_least_a_column(width) == width,
        AUTOFIT_INTERVAL == 400_000,
{
}

/// A press is the second one where the last was on the same edge and not too long ago, also where the
/// clock began anew in between.
pub proof fn law_second_press_follows_soon(press: ResizePress, pane: usize, time: u64, now: u64)
    requires
        press.last == Some((pane, time)),
    ensures
        time <= now ==> (press.is_second(pane, now) <==> now - time <= 400_000),
        time > now ==> (press.is_second(pane, now) <==> (u64::MAX - time) + 1 + now <= 400_000),
        forall|other: usize| other != pane ==> !#[trigger] press.is_second(other, now),
        forall|fresh: ResizePress| fresh.last is None ==> !#[trigger] fresh.is_second(pane, now),
{
}

/// The panes are known by their columns, what the pointer and a menu belong to, and their counters.
pub proof fn law_panes_are_known_by_their_state(panes: Panes)
    ensures
        panes@.columns == panes.columns@,
        panes@.hovered == panes.hovered,
        panes@.menu_owner == panes.menu_owner,
        panes@.source_number == panes.source_number,
        panes@.scroll_number == panes.scroll_number,
        panes@.waiting == panes.waiting,
{
}

} // verus!
