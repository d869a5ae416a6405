//! Rows and the entries they stand for: which rows an event of the listing is about, and which
//! entries a selection in a pane.

use crate::collection::{located, rows_found, RowCounts, ViewMap};
use crate::columns::{Column, ColumnState};
use crate::events::{answers, changes_path, BrowserEvent, EventFacts, Handled};
use crate::rows::{
    last_within, range_end, selection_of, source_of, sources_of, SelectionStep,
};
use crate::view::BrowserView;
use vstd::prelude::*;

verus! {

/// What the view asks for before it answers an event, the rows left out.
#[derive(Clone, Copy, Debug, PartialEq, Eq, Structural)]
pub struct EventContext {
    /// Whether a pane that is opened shows hidden entries.
    pub show_hidden: bool,
    pub active_depth: Option<usize>,
    /// The pane that has the focus.
    pub focused_column: Option<usize>,
    /// Whether there is a place for a peek beside what it opens from.
    pub peek_has_room: bool,
}

/// The entries that are selected according to an event. Where it moves the focus, these are those
/// that the listing holds selected.
pub open spec fn selected_in(event: BrowserEvent, selected: Seq<usize>) -> Seq<usize> {
    match event {
        BrowserEvent::SelectionSetChanged { positions, .. } => positions@,
        BrowserEvent::FocusChanged { .. } => selected,
        _ => Seq::empty(),
    }
}

/// The entry that an event puts the focus on or selects.
pub open spec fn focused_in(event: BrowserEvent) -> Option<usize> {
    match event {
        BrowserEvent::SelectionSetChanged { focused, .. } => Some(focused),
        BrowserEvent::FocusChanged { focus, .. } => focus,
        BrowserEvent::EntriesSpliced { selected, .. } => selected,
        _ => None,
    }
}

/// Whether the facts are those for an event in a pane with the given rows: the rows are exactly
/// those of the entries that the event is about, and the rest is as it was found.
pub open spec fn are_facts_of(
    facts: EventFacts,
    event: BrowserEvent,
    context: EventContext,
    map: ViewMap,
    source: Seq<Option<String>>,
    rows: RowCounts,
    selected: Seq<usize>,
) -> bool {
    &&& facts.show_hidden == context.show_hidden
    &&& facts.active_depth == context.active_depth
    &&& facts.focused_column == context.focused_column
    &&& facts.peek_has_room == context.peek_has_room
    &&& facts.selected_rows@ == rows_found(
        selected_in(event, selected),
        |position: usize| map.row_of(source, rows, position),
    )
    &&& facts.focused_row == match focused_in(event) {
        Some(position) => map.row_of(source, rows, position),
        None => None,
    }
}

/// The row of an entry, where it is known which entry and it has one.
pub fn row_of_position(
    position: Option<usize>,
    map: &mut ViewMap,
    source: &Vec<Option<String>>,
    rows: RowCounts,
) -> (result: Option<u32>)
    requires
        old(map).fits(source@, rows),
    ensures
        result == match position {
            Some(position) => old(map).row_of(source@, rows, position),
            None => None,
        },
        final(map).answers_like(old(map), source@),
        final(map).fits(source@, rows),
        old(map).is_consistent() ==> final(map).is_consistent(),
{
    match position {
        Some(position) => map.view_position(source, rows, position),
        None => None,
    }
}

/// What a change of the selection in a pane leads to.
#[derive(Debug)]
pub enum SelectionOutcome {
    /// Nothing: the view made the change itself.
    Ignored,
    /// Results of a search are selected; only the one given stays so, where one is.
    Results { keep_only: Option<u32> },
    /// The listing is told which entries are selected and which one has the focus. Only the row
    /// given stays selected, where one is.
    Told { positions: Vec<usize>, focused: Option<usize>, narrow_to: Option<u32> },
}

/// Takes that the selection of a pane changed among the `count` rows from `position` on, after which
/// the given rows are selected. The listing is told the entries of the rows that stay selected.
pub fn selection_changed_in_pane(
    column: &mut Column,
    map: &mut ViewMap,
    source: &Vec<Option<String>>,
    rows: RowCounts,
    selected: Vec<u32>,
    position: u32,
    count: u32,
    multiple: bool,
) -> (result: SelectionOutcome)
    requires
        source@.len() <= u32::MAX,
    ensures
        final(map).answers_like(old(map), source@),
        old(map).is_consistent() ==> final(map).is_consistent(),
        old(column).state.syncing ==> result is Ignored && *final(column) == *old(column),
        !old(column).state.syncing && old(column).state.searching ==> *final(column) == *old(column)
            && result == (SelectionOutcome::Results {
            keep_only: if !multiple && selected@.len() > 1 {
                last_within(selected@, position, range_end(position, count))
            } else {
                None
            },
        }),
        !old(column).state.syncing && !old(column).state.searching ==> ({
            let focus = old(column).refocused(selected@, position, count);
            let is_narrowed = !multiple && selected@.len() > 1;
            let stays = if is_narrowed {
                seq![focus->0]
            } else {
                selected@
            };
            let found = located(
                stays,
                |visible: u32| old(map).entry_of(source@, rows, visible),
            );
            &&& *final(column) == (Column {
                state: ColumnState { focused_row: focus, ..old(column).state },
                ..*old(column)
            })
            &&& result matches SelectionOutcome::Told { positions, focused, narrow_to }
            &&& positions@ == sources_of(found)
            &&& focused == match focus {
                Some(row) => source_of(found, row),
                None => None,
            }
            &&& narrow_to == if is_narrowed {
                focus
            } else {
                None
            }
        }),
{
    match column.selection_changed(selected, position, count, multiple) {
        SelectionStep::Ignored => SelectionOutcome::Ignored,
        SelectionStep::Results { keep_only } => SelectionOutcome::Results { keep_only },
        SelectionStep::Rows { rows: stays, focused, narrowed } => {
            let found: Vec<(u32, usize)> = map.source_positions(source, rows, &stays);
            let (positions, focused_position) = selection_of(&found, focused);
            SelectionOutcome::Told {
                positions,
                focused: focused_position,
                narrow_to: if narrowed {
                    focused
                } else {
                    None
                },
            }
        },
    }
}

/// What the view has to know to answer an event in a pane. `map` translates between the rows of the
/// pane and the entries of its listing, `source`, as they are once the event took place; `selected`
/// are the entries that the listing holds selected.
pub fn event_facts(
    event: &BrowserEvent,
    context: EventContext,
    map: &mut ViewMap,
    source: &Vec<Option<String>>,
    rows: RowCounts,
    selected: &Vec<usize>,
) -> (result: EventFacts)
    requires
        old(map).fits(source@, rows),
    ensures
        are_facts_of(result, *event, context, *old(map), source@, rows, selected@),
        final(map).answers_like(old(map), source@),
        final(map).fits(source@, rows),
        old(map).is_consistent() ==> final(map).is_consistent(),
{
    let ghost find = |position: usize| old(map).row_of(source@, rows, position);
    let selected_rows: Vec<u32> = match event {
        BrowserEvent::SelectionSetChanged { positions, .. } => map.view_rows(
            source,
            rows,
            positions,
        ),
        BrowserEvent::FocusChanged { .. } => map.view_rows(source, rows, selected),
        _ => Vec::new(),
    };
    assert(selected_rows@ =~= rows_found(selected_in(*event, selected@), find));
    let focused: Option<usize> = match event {
        BrowserEvent::SelectionSetChanged { focused, .. } => Some(*focused),
        BrowserEvent::FocusChanged { focus, .. } => *focus,
        BrowserEvent::EntriesSpliced { selected, .. } => *selected,
        _ => None,
    };
    let focused_row: Option<u32> = row_of_position(focused, map, source, rows);
    EventFacts {
        show_hidden: context.show_hidden,
        active_depth: context.active_depth,
        focused_column: context.focused_column,
        selected_rows,
        focused_row,
        peek_has_room: context.peek_has_room,
    }
}

impl BrowserView {
    /// Takes an event of the listing behind the view, for the pane with the given rows.
    pub fn handle_in_pane(
        &mut self,
        event: BrowserEvent,
        context: EventContext,
        map: &mut ViewMap,
        source: &Vec<Option<String>>,
        rows: RowCounts,
        selected: &Vec<usize>,
    ) -> (result: Handled)
        requires
            old(self).well_formed(),
            old(map).fits(source@, rows),
        ensures
            final(self).well_formed(),
            exists|facts: EventFacts| #[trigger]
                are_facts_of(facts, event, context, *old(map), source@, rows, selected@) && answers(
                    old(self),
                    event,
                    facts,
                    final(self),
                    result.reaction,
                ),
            result.refreshes_path == changes_path(event),
            result.forwarded == (result.reaction !is AskPassword),
            final(map).answers_like(old(map), source@),
            final(map).fits(source@, rows),
            old(map).is_consistent() ==> final(map).is_consistent(),
    {
        let facts: EventFacts = event_facts(&event, context, map, source, rows, selected);
        self.handle(event, facts)
    }
}

/// The facts of an event tell the rows of exactly the entries that it selects, in its order, and the
/// row of the entry that it puts the focus on; all else is as the view tells it.
pub proof fn law_facts_tell_the_rows_of_an_event(
    facts: EventFacts,
    event: BrowserEvent,
    context: EventContext,
    map: ViewMap,
    source: Seq<Option<String>>,
    rows: RowCounts,
    selected: Seq<usize>,
)
    requires
        are_facts_of(facts, event, context, map, source, rows, selected),
    ensures
        facts.show_hidden == context.show_hidden,
        facts.active_depth == context.active_depth,
        facts.focused_column == context.focused_column,
        facts.peek_has_room == context.peek_has_room,
        event matches BrowserEvent::SelectionSetChanged { depth, positions, focused, take_focus }
            ==> facts.selected_rows@ == rows_found(
            positions@,
            |position: usize| map.row_of(source, rows, position),
        ) && facts.focused_row == map.row_of(source, rows, focused),
        event matches BrowserEvent::FocusChanged { depth, focus } ==> facts.selected_rows@
            == rows_found(selected, |position: usize| map.row_of(source, rows, position))
            && facts.focused_row == (match focus {
            Some(position) => map.row_of(source, rows, position),
            None => None,
        }),
        event matches BrowserEvent::EntriesSpliced { depth, splices, selected: chosen }
            ==> facts.selected_rows@.len() == 0 && facts.focused_row == (match chosen {
            Some(position) => map.row_of(source, rows, position),
            None => None,
        }),
        event !is SelectionSetChanged && event !is FocusChanged && event !is EntriesSpliced
            ==> facts.selected_rows@.len() == 0 && facts.focused_row is None,
{
}

} // verus!
