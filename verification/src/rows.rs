//! The rows of a pane: how they are selected, pressed, dragged and searched, and how they look.

use crate::collection::{
    opens_result, recursive_search_activation_key, search_result_navigation_position,
};
use crate::columns::Column;
use crate::cut::flagged;
use crate::entry::{
    column_size, duplicate_entries, entry_icon, entry_responds_to_preview_click,
    metadata_needs_fill, EntryKind, FileEntry, Icon, MetadataValue,
};
use crate::input::{Key, Modifiers};
use crate::location::{Location, LocationView, Place};
use crate::paths::{file_name_of, path_file_name, SearchItem};
use vstd::prelude::*;

verus! {

/// The last of the rows that lies in a range.
pub open spec fn last_within(rows: Seq<u32>, start: u32, end: u32) -> Option<u32>
    decreases rows.len(),
{
    if rows.len() == 0 {
        None
    } else if start <= rows.last() < end {
        Some(rows.last())
    } else {
        last_within(rows.drop_last(), start, end)
    }
}

/// The end of a range of rows.
pub open spec fn range_end(start: u32, count: u32) -> u32 {
    if start + count > u32::MAX {
        u32::MAX
    } else {
        (start + count) as u32
    }
}

/// The row that has the focus once the selection changed in a range: the last that was selected
/// there, or the one that had it while it is still selected, or else the last selected.
pub open spec fn focus_after(selected: Seq<u32>, start: u32, end: u32, previous: Option<u32>)
    -> Option<u32> {
    match last_within(selected, start, end) {
        Some(row) => Some(row),
        None => match previous {
            Some(row) => if selected.contains(row) {
                Some(row)
            } else {
                Some(selected.last())
            },
            None => if selected.len() > 0 {
                Some(selected.last())
            } else {
                None
            },
        },
    }
}

fn find_last_within(rows: &Vec<u32>, start: u32, end: u32) -> (result: Option<u32>)
    ensures
        result == last_within(rows@, start, end),
{
    let mut i: usize = rows.len();
    assert(rows@.take(i as int) == rows@);
    while i > 0
        invariant
            i <= rows@.len(),
            last_within(rows@, start, end) == last_within(rows@.take(i as int), start, end),
        decreases i,
    {
        let row: u32 = rows[i - 1];
        assert(rows@.take(i as int).last() == row);
        assert(rows@.take(i as int).drop_last() == rows@.take(i - 1));
        if start <= row && row < end {
            return Some(row);
        }
        i = i - 1;
    }
    None
}

fn has_row(rows: &Vec<u32>, row: u32) -> (result: bool)
    ensures
        result == rows@.contains(row),
{
    let mut i: usize = 0;
    while i < rows.len()
        invariant
            i <= rows@.len(),
            forall|k: int| 0 <= k < i ==> rows@[k] != row,
        decreases rows@.len() - i,
    {
        if rows[i] == row {
            return true;
        }
        i = i + 1;
    }
    false
}

fn end_of_range(start: u32, count: u32) -> (result: u32)
    ensures
        result == range_end(start, count),
{
    if count > u32::MAX - start {
        u32::MAX
    } else {
        start + count
    }
}

/// What a change of the selection of a pane leads to.
#[derive(Debug)]
pub enum SelectionStep {
    /// The view itself made the change.
    Ignored,
    /// The selection is one among search results. Where only one may be selected, it is kept.
    Results { keep_only: Option<u32> },
    /// The rows are selected and one of them has the focus. Where only one may be selected, the
    /// selection is narrowed to it.
    Rows { rows: Vec<u32>, focused: Option<u32>, narrowed: bool },
}

impl Column {
    /// The row that has the focus after a change of the selection.
    pub open spec fn refocused(&self, selected: Seq<u32>, position: u32, count: u32) -> Option<
        u32,
    > {
        if selected.len() == 0 {
            None
        } else {
            focus_after(selected, position, range_end(position, count), self.state.focused_row)
        }
    }

    /// Takes that the selection changed among the `count` rows from `position` on, after which the
    /// given rows are selected.
    pub fn selection_changed(
        &mut self,
        selected: Vec<u32>,
        position: u32,
        count: u32,
        multiple: bool,
    ) -> (result: SelectionStep)
        ensures
            old(self).state.syncing ==> result is Ignored && *final(self) == *old(self),
            !old(self).state.syncing && old(self).state.searching ==> *final(self) == *old(self)
                && result == (SelectionStep::Results {
                keep_only: if !multiple && selected@.len() > 1 {
                    last_within(selected@, position, range_end(position, count))
                } else {
                    None
                },
            }),
            !old(self).state.syncing && !old(self).state.searching ==> ({
                let focus = old(self).refocused(selected@, position, count);
                let is_narrowed = !multiple && selected@.len() > 1;
                &&& *final(self) == (Column {
                    state: crate::columns::ColumnState { focused_row: focus, ..old(self).state },
                    ..*old(self)
                })
                &&& result matches SelectionStep::Rows { rows, focused, narrowed }
                &&& focused == focus
                &&& narrowed == is_narrowed
                &&& rows@ == if is_narrowed {
                    seq![focus->0]
                } else {
                    selected@
                }
            }),
    {
        if self.state.syncing {
            return SelectionStep::Ignored;
        }
        let end: u32 = end_of_range(position, count);
        let within: Option<u32> = find_last_within(&selected, position, end);
        if self.state.searching {
            return SelectionStep::Results {
                keep_only: if !multiple && selected.len() > 1 {
                    within
                } else {
                    None
                },
            };
        }
        let focused: Option<u32> = if selected.len() == 0 {
            None
        } else {
            match within {
                Some(row) => Some(row),
                None => match self.state.focused_row {
                    Some(row) => if has_row(&selected, row) {
                        Some(row)
                    } else {
                        Some(selected[selected.len() - 1])
                    },
                    None => Some(selected[selected.len() - 1]),
                },
            }
        };
        self.state.focused_row = focused;
        if !multiple && selected.len() > 1 {
            let mut rows: Vec<u32> = Vec::new();
            match focused {
                Some(row) => {
                    rows.push(row);
                },
                None => {},
            }
            assert(rows@ == seq![focused->0]);
            SelectionStep::Rows { rows, focused, narrowed: true }
        } else {
            SelectionStep::Rows { rows: selected, focused, narrowed: false }
        }
    }
}

/// The entries of rows that were looked up.
pub open spec fn sources_of(mapped: Seq<(u32, usize)>) -> Seq<usize> {
    mapped.map_values(|pair: (u32, usize)| pair.1)
}

/// The entry of the first pair with the given row.
pub open spec fn source_of(mapped: Seq<(u32, usize)>, row: u32) -> Option<usize>
    decreases mapped.len(),
{
    if mapped.len() == 0 {
        None
    } else if mapped[0].0 == row {
        Some(mapped[0].1)
    } else {
        source_of(mapped.skip(1), row)
    }
}

/// The entries that are selected and the one that has the focus, from the rows that were looked up.
pub fn selection_of(mapped: &Vec<(u32, usize)>, focused: Option<u32>) -> (result: (
    Vec<usize>,
    Option<usize>,
))
    ensures
        result.0@ == sources_of(mapped@),
        result.1 == match focused {
            Some(row) => source_of(mapped@, row),
            None => None,
        },
{
    let mut sources: Vec<usize> = Vec::new();
    let mut i: usize = 0;
    while i < mapped.len()
        invariant
            i <= mapped@.len(),
            sources@ == sources_of(mapped@.take(i as int)),
        decreases mapped@.len() - i,
    {
        sources.push(mapped[i].1);
        assert(mapped@.take(i + 1) == mapped@.take(i as int).push(mapped@[i as int]));
        i = i + 1;
    }
    assert(mapped@.take(i as int) == mapped@);
    let mut found: Option<usize> = None;
    match focused {
        Some(row) => {
            let mut k: usize = 0;
            assert(mapped@.skip(0) == mapped@);
            while k < mapped.len() && found.is_none()
                invariant
                    k <= mapped@.len(),
                    found is None ==> source_of(mapped@, row) == source_of(
                        mapped@.skip(k as int),
                        row,
                    ),
                    found is Some ==> found == source_of(mapped@, row),
                decreases mapped@.len() - k,
            {
                assert(mapped@.skip(k as int)[0] == mapped@[k as int]);
                assert(mapped@.skip(k as int).skip(1) == mapped@.skip(k + 1));
                if mapped[k].0 == row {
                    found = Some(mapped[k].1);
                }
                k = k + 1;
            }
        },
        None => {},
    }
    (sources, found)
}

/// How often a click opens an entry.
#[derive(Clone, Copy, Debug, PartialEq, Eq, Structural)]
pub enum ClickCount {
    One,
    Two,
}

/// How often a click opens folders and files.
#[derive(Clone, Copy, Debug, PartialEq, Eq, Structural)]
pub struct ClickActivation {
    pub folders: ClickCount,
    pub files: ClickCount,
}

impl ClickActivation {
    /// How often a click opens an entry.
    pub open spec fn configured(self, is_directory: bool) -> ClickCount {
        if is_directory {
            self.folders
        } else {
            self.files
        }
    }
}

/// Whether a press is the first, of the button alone, and not of a group that may be dragged.
pub open spec fn is_plain_press(
    press_count: i32,
    control: bool,
    shift: bool,
    preserve_group: bool,
) -> bool {
    press_count == 1 && !control && !shift && !preserve_group
}

/// Whether a single click opens the entry.
pub fn should_activate_single_click(
    press_count: i32,
    is_directory: bool,
    activation: ClickActivation,
    control: bool,
    shift: bool,
    preserve_group: bool,
) -> (result: bool)
    ensures
        result == (is_plain_press(press_count, control, shift, preserve_group)
            && activation.configured(is_directory) is One),
{
    let configured: ClickCount = if is_directory {
        activation.folders
    } else {
        activation.files
    };
    press_count == 1 && configured == ClickCount::One && !control && !shift && !preserve_group
}

/// Whether a press shows a preview.
pub fn should_preview_pointer_press(
    press_count: i32,
    control: bool,
    shift: bool,
    preserve_group: bool,
) -> (result: bool)
    ensures
        result == is_plain_press(press_count, control, shift, preserve_group),
{
    press_count == 1 && !control && !shift && !preserve_group
}

/// Whether a press leaves the selection alone, because the group may be dragged.
pub fn should_preserve_drag_selection(clicked_selected: bool, selected_count: u64) -> (result: bool)
    ensures
        result == (clicked_selected && selected_count > 1),
{
    clicked_selected && selected_count > 1
}

/// What a press does to the selection.
#[derive(Clone, Copy, Debug, PartialEq, Eq, Structural)]
pub enum RowPress {
    /// Select a range of rows and no others.
    Range { start: u32, count: u32 },
    /// Add the row.
    Add,
    /// Take the row out.
    Remove,
    /// Select the row and no others.
    Only,
    /// Leave the selection as it is.
    Keep,
}

/// What follows from a press on a row.
#[derive(Clone, Copy, Debug, PartialEq, Eq, Structural)]
pub struct PressOutcome {
    pub selection: RowPress,
    /// The row from which a later range begins.
    pub anchor: Option<u32>,
    /// Whether nobody else is to see the press.
    pub claimed: bool,
    pub preserves_group: bool,
}

/// Whether the press leaves a group alone.
pub open spec fn keeps_group(modifiers: Modifiers, is_selected: bool, selected_count: u64) -> bool {
    !modifiers.control && !modifiers.shift && is_selected && selected_count > 1
}

/// The range between two rows.
pub open spec fn range_between(left: u32, right: u32) -> RowPress {
    if left <= right {
        RowPress::Range { start: left, count: (right - left + 1) as u32 }
    } else {
        RowPress::Range { start: right, count: (left - right + 1) as u32 }
    }
}

/// What follows from a press on a row. With Shift the range from the anchor is selected, with
/// Control the row changes sides, and otherwise it is selected alone.
pub fn row_pressed(
    anchor: Option<u32>,
    position: u32,
    is_selected: bool,
    selected_count: u64,
    modifiers: Modifiers,
) -> (result: PressOutcome)
    requires
        modifiers.shift ==> (anchor matches Some(row) ==> row - position < u32::MAX && position
            - row < u32::MAX),
    ensures
        result.selection == if modifiers.shift {
            range_between(
                match anchor {
                    Some(row) => row,
                    None => position,
                },
                position,
            )
        } else if modifiers.control {
            if is_selected {
                RowPress::Remove
            } else {
                RowPress::Add
            }
        } else if keeps_group(modifiers, is_selected, selected_count) {
            RowPress::Keep
        } else {
            RowPress::Only
        },
        result.anchor == if modifiers.shift {
            anchor
        } else {
            Some(position)
        },
        result.claimed == (modifiers.control || modifiers.shift),
        result.preserves_group == keeps_group(modifiers, is_selected, selected_count),
{
    let preserves_group: bool = !modifiers.control && !modifiers.shift
        && should_preserve_drag_selection(is_selected, selected_count);
    let selection: RowPress = if modifiers.shift {
        let from: u32 = match anchor {
            Some(row) => row,
            None => position,
        };
        if from <= position {
            RowPress::Range { start: from, count: position - from + 1 }
        } else {
            RowPress::Range { start: position, count: from - position + 1 }
        }
    } else if modifiers.control {
        if is_selected {
            RowPress::Remove
        } else {
            RowPress::Add
        }
    } else if preserves_group {
        RowPress::Keep
    } else {
        RowPress::Only
    };
    PressOutcome {
        selection,
        anchor: if modifiers.shift {
            anchor
        } else {
            Some(position)
        },
        claimed: modifiers.control || modifiers.shift,
        preserves_group,
    }
}

/// A press that opens an entry unless it turns into a drag.
#[derive(Debug)]
pub struct PendingPointerActivation {
    pub position: usize,
    pub location: Location,
    pub moved: bool,
}

impl PendingPointerActivation {
    /// Takes a motion of the pointer, which went far enough for a drag or not.
    pub fn update(&mut self, exceeds_threshold: bool)
        ensures
            *final(self) == (PendingPointerActivation {
                moved: old(self).moved || exceeds_threshold,
                ..*old(self)
            }),
    {
        self.moved = self.moved || exceeds_threshold;
    }

    /// Whether the release opens the entry at the location.
    pub fn can_activate(&self, location: &Location) -> (result: bool)
        ensures
            result == (!self.moved && self.location@.place() == location@.place()),
    {
        !self.moved && self.location.same_as(location)
    }
}

/// What a press leads to beside the selection.
#[derive(Debug)]
pub enum PressAction {
    Nothing,
    /// Open the entry once the button is released.
    AwaitRelease(PendingPointerActivation),
    /// Preview the entry.
    Preview(usize),
}

/// What the view is set to do on a press.
#[derive(Clone, Copy, Debug)]
pub struct PressSettings {
    pub activation: ClickActivation,
    pub previews_enabled: bool,
}

/// What a press on the row of an entry leads to beside the selection.
pub fn press_action(
    entry: Option<&FileEntry>,
    position: usize,
    press_count: i32,
    modifiers: Modifiers,
    preserves_group: bool,
    settings: PressSettings,
    supports_quick_preview: bool,
) -> (result: PressAction)
    ensures
        ({
            let is_plain = is_plain_press(
                press_count,
                modifiers.control,
                modifiers.shift,
                preserves_group,
            );
            match entry {
                None => result is Nothing,
                Some(entry) => if is_plain && settings.activation.configured(
                    entry.kind.is_directory(),
                ) is One {
                    result == PressAction::AwaitRelease(
                        (PendingPointerActivation {
                            position,
                            location: entry.location,
                            moved: false,
                        }),
                    )
                } else if is_plain && settings.previews_enabled && !entry.kind.is_directory()
                    && supports_quick_preview {
                    result == PressAction::Preview(position)
                } else {
                    result is Nothing
                },
            }
        }),
{
    match entry {
        None => PressAction::Nothing,
        Some(entry) => {
            if should_activate_single_click(
                press_count,
                entry.is_directory(),
                settings.activation,
                modifiers.control,
                modifiers.shift,
                preserves_group,
            ) {
                PressAction::AwaitRelease(
                    PendingPointerActivation {
                        position,
                        location: entry.location.duplicate(),
                        moved: false,
                    },
                )
            } else if should_preview_pointer_press(
                press_count,
                modifiers.control,
                modifiers.shift,
                preserves_group,
            ) && entry_responds_to_preview_click(
                entry,
                settings.previews_enabled,
                supports_quick_preview,
            ) {
                PressAction::Preview(position)
            } else {
                PressAction::Nothing
            }
        },
    }
}

/// The entry to open when the button is released: the one that was pressed, if the pointer stayed
/// and the entry is still there. `entry` is the one that now stands where it was.
pub fn released(pending: Option<PendingPointerActivation>, entry: Option<&FileEntry>) -> (result:
    Option<usize>)
    ensures
        result == match (pending, entry) {
            (Some(pending), Some(entry)) => if !pending.moved && pending.location@.place()
                == entry.location@.place() {
                Some(pending.position)
            } else {
                None
            },
            _ => None,
        },
{
    match (pending, entry) {
        (Some(pending), Some(entry)) => {
            if pending.can_activate(&entry.location) {
                Some(pending.position)
            } else {
                None
            }
        },
        _ => None,
    }
}

/// What a filter field or the list below it knows when a key is pressed.
#[derive(Clone, Copy, Debug)]
pub struct FilterKeyFacts {
    pub searching: bool,
    /// Whether the filter holds no text but white space.
    pub query_is_blank: bool,
    /// The last selected row.
    pub current: Option<u32>,
    /// The entry of that row.
    pub current_source: Option<usize>,
    pub row_count: u32,
}

impl FilterKeyFacts {
    /// Whether the rows are filtered or found.
    pub open spec fn is_filtered(self) -> bool {
        self.searching || !self.query_is_blank
    }
}

/// What a key in a filter field leads to.
#[derive(Clone, Copy, Debug, PartialEq, Eq, Structural)]
pub enum FilterKeyStep {
    Proceed,
    Stop,
    /// Open the search result, and stop if there is somewhere to go.
    OpenResult(u32),
    /// Open the entry and stop.
    Activate(usize),
    /// Give the list the focus, at the row, and stop.
    SelectRow(u32),
}

/// What a key in a filter field leads to.
pub open spec fn filter_key_step(facts: FilterKeyFacts, key: Key, modifiers: Modifiers)
    -> FilterKeyStep {
    if !facts.is_filtered() || modifiers.is_any() {
        FilterKeyStep::Proceed
    } else if opens_result(key) {
        if facts.searching {
            match facts.current {
                Some(row) => FilterKeyStep::OpenResult(row),
                None => FilterKeyStep::Proceed,
            }
        } else {
            match (facts.current, facts.current_source) {
                (Some(_), Some(source)) => FilterKeyStep::Activate(source),
                _ => FilterKeyStep::Proceed,
            }
        }
    } else {
        match key {
            Key::Up => FilterKeyStep::Stop,
            Key::Down => match facts.current {
                Some(row) => FilterKeyStep::SelectRow(row),
                None => if facts.row_count > 0 {
                    FilterKeyStep::SelectRow(0)
                } else {
                    FilterKeyStep::Stop
                },
            },
            _ => FilterKeyStep::Proceed,
        }
    }
}

/// What a key in a filter field leads to.
pub fn filter_key_pressed(facts: FilterKeyFacts, key: Key, modifiers: Modifiers) -> (result:
    FilterKeyStep)
    ensures
        result == filter_key_step(facts, key, modifiers),
{
    if !(facts.searching || !facts.query_is_blank) || modifiers.any() {
        return FilterKeyStep::Proceed;
    }
    if recursive_search_activation_key(key) {
        if facts.searching {
            return match facts.current {
                Some(row) => FilterKeyStep::OpenResult(row),
                None => FilterKeyStep::Proceed,
            };
        }
        return match (facts.current, facts.current_source) {
            (Some(_), Some(source)) => FilterKeyStep::Activate(source),
            _ => FilterKeyStep::Proceed,
        };
    }
    match key {
        Key::Up => FilterKeyStep::Stop,
        Key::Down => {
            let next: Option<u32> = match facts.current {
                Some(row) => Some(row),
                None => search_result_navigation_position(None, facts.row_count, 1),
            };
            match next {
                Some(row) => FilterKeyStep::SelectRow(row),
                None => FilterKeyStep::Stop,
            }
        },
        _ => FilterKeyStep::Proceed,
    }
}

/// What a key in a list leads to, as far as its filter is concerned.
#[derive(Clone, Copy, Debug, PartialEq, Eq, Structural)]
pub enum ListKeyStep {
    Proceed,
    /// The keyboard navigates now; the key goes on.
    Navigate,
    /// The keyboard navigates now; the focus goes to the filter, and the key stops there if the
    /// filter takes it.
    ReturnToFilter,
}

/// What a key in a list leads to: up from the first row it returns to the filter.
pub fn list_key_pressed(
    is_filtered: bool,
    key: Key,
    modifiers: Modifiers,
    in_popover: bool,
    selected: &Vec<u32>,
) -> (result: ListKeyStep)
    ensures
        result == if !is_filtered || !(key is Up || key is Down) || modifiers.is_any()
            || in_popover {
            ListKeyStep::Proceed
        } else if key is Up && selected@ == seq![0u32] {
            ListKeyStep::ReturnToFilter
        } else {
            ListKeyStep::Navigate
        },
{
    let is_vertical: bool = match key {
        Key::Up | Key::Down => true,
        _ => false,
    };
    if !is_filtered || !is_vertical || modifiers.any() || in_popover {
        return ListKeyStep::Proceed;
    }
    if key == Key::Up && selected.len() == 1 && selected[0] == 0 {
        assert(selected@ == seq![0u32]);
        ListKeyStep::ReturnToFilter
    } else {
        ListKeyStep::Navigate
    }
}

/// Something that a search found, as an entry of a listing.
pub fn search_result_entry(item: &SearchItem) -> (result: FileEntry)
    ensures
        result.location@ == LocationView::Native(item.path@),
        result.native_name@ == match path_file_name(item.path@) {
            Some(name) => name,
            None => Seq::empty(),
        },
        result.display_name@ == item.name@,
        result.kind == if item.is_directory {
            EntryKind::Directory
        } else {
            EntryKind::File
        },
        result.size is Unknown,
        result.modified_unix_seconds is Unknown,
        result.mode is Unknown,
        !result.is_hidden,
{
    let native_name: String = match file_name_of(item.path.as_str()) {
        Some(name) => name,
        None => String::new(),
    };
    FileEntry {
        location: Location::local(item.path.as_str()),
        native_name,
        display_name: item.name.clone(),
        kind: if item.is_directory {
            EntryKind::Directory
        } else {
            EntryKind::File
        },
        size: MetadataValue::Unknown,
        modified_unix_seconds: MetadataValue::Unknown,
        mode: MetadataValue::Unknown,
        is_hidden: false,
    }
}

/// How a row looks.
#[derive(Clone, Copy, Debug, PartialEq, Eq, Structural)]
pub struct RowLook {
    pub icon: Icon,
    /// Whether a thumbnail may take the place of the icon.
    pub thumbnail: bool,
    pub dimmed: bool,
    pub chevron: bool,
    pub size: Option<u64>,
    /// Whether the row tells where its entry is.
    pub origin: bool,
    /// Whether what is not known of the entry is to be asked for.
    pub requests_metadata: bool,
}

/// How the row of an entry looks. `has_source` is whether the entry is one of the listing rather
/// than of a search.
pub fn row_look(entry: Option<&FileEntry>, searching: bool, in_columns: bool, has_source: bool) -> (result:
    RowLook)
    ensures
        match entry {
            Some(entry) => {
                &&& result.icon == if entry.kind is SymbolicLink {
                    Icon::BrokenLink
                } else if entry.kind.is_directory() {
                    Icon::Folder
                } else {
                    crate::entry::name_icon(entry.display_name@)
                }
                &&& result.thumbnail == (entry.kind.is_directory() || in_columns)
                &&& result.dimmed == !entry.kind.is_directory()
                &&& result.chevron == entry.kind.is_directory()
                &&& result.size == match entry.size {
                    MetadataValue::Known(bytes) => if entry.kind.is_directory() {
                        None
                    } else {
                        Some(bytes)
                    },
                    _ => None,
                }
                &&& result.origin == searching
                &&& result.requests_metadata == (in_columns && has_source && (
                entry.modified_unix_seconds is Unknown || (!entry.kind.is_directory()
                    && entry.size is Unknown)))
            },
            None => result == (RowLook {
                icon: Icon::Documents,
                thumbnail: false,
                dimmed: true,
                chevron: false,
                size: None,
                origin: false,
                requests_metadata: false,
            }),
        },
{
    match entry {
        Some(entry) => {
            let is_directory: bool = entry.is_directory();
            RowLook {
                icon: entry_icon(entry),
                thumbnail: is_directory || in_columns,
                dimmed: !is_directory,
                chevron: is_directory,
                size: column_size(Some(entry)),
                origin: searching,
                requests_metadata: in_columns && has_source && metadata_needs_fill(entry),
            }
        },
        None => RowLook {
            icon: Icon::Documents,
            thumbnail: false,
            dimmed: true,
            chevron: false,
            size: None,
            origin: false,
            requests_metadata: false,
        },
    }
}

/// The last update for a position.
pub open spec fn last_update(updates: Seq<(usize, FileEntry)>, position: usize) -> Option<FileEntry>
    decreases updates.len(),
{
    if updates.len() == 0 {
        None
    } else if updates.last().0 == position {
        Some(updates.last().1)
    } else {
        last_update(updates.drop_last(), position)
    }
}

/// What updates of entries tell of the size of the entry at a position: nothing where none is about
/// it, and otherwise the number of bytes that its row is to show.
pub fn updated_size(updates: &Vec<(usize, FileEntry)>, position: usize) -> (result: Option<
    Option<u64>,
>)
    ensures
        result == match last_update(updates@, position) {
            Some(entry) => Some(
                match entry.size {
                    MetadataValue::Known(bytes) => if entry.kind.is_directory() {
                        None
                    } else {
                        Some(bytes)
                    },
                    _ => None,
                },
            ),
            None => None,
        },
{
    let mut i: usize = updates.len();
    assert(updates@.take(i as int) == updates@);
    while i > 0
        invariant
            i <= updates@.len(),
            last_update(updates@, position) == last_update(updates@.take(i as int), position),
        decreases i,
    {
        assert(updates@.take(i as int).last() == updates@[i - 1]);
        assert(updates@.take(i as int).drop_last() == updates@.take(i - 1));
        if updates[i - 1].0 == position {
            return Some(column_size(Some(&updates[i - 1].1)));
        }
        i = i - 1;
    }
    None
}

/// Whether an entry at the location is in the list.
pub open spec fn has_entry_at(entries: Seq<FileEntry>, location: Place) -> bool {
    exists|k: int| 0 <= k < entries.len() && (#[trigger] entries[k]).location@.place() == location
}

/// The entries that a drag from a row takes along: the selection, if the row is part of it.
pub fn dragged_entries(entry: &FileEntry, selected: &Vec<FileEntry>) -> (result: Vec<FileEntry>)
    ensures
        result@ == if has_entry_at(selected@, entry.location@.place()) {
            selected@
        } else {
            seq![*entry]
        },
{
    let mut i: usize = 0;
    while i < selected.len()
        invariant
            i <= selected@.len(),
            forall|k: int|
                0 <= k < i ==> (#[trigger] selected@[k]).location@.place()
                    != entry.location@.place(),
        decreases selected@.len() - i,
    {
        if selected[i].location.same_as(&entry.location) {
            assert(has_entry_at(selected@, entry.location@.place()));
            return duplicate_entries(selected);
        }
        i = i + 1;
    }
    let mut result: Vec<FileEntry> = Vec::new();
    result.push(entry.duplicate());
    assert(result@ == seq![*entry]);
    result
}

/// Whether files can be dropped on the row of an entry.
pub fn row_accepts_drop(entry: Option<&FileEntry>, offers_files: bool) -> (result: bool)
    ensures
        result == (entry is Some && entry->0.kind.is_directory() && offers_files),
{
    match entry {
        Some(entry) => entry.is_directory() && offers_files,
        None => false,
    }
}

/// Where files go that are dropped on the row of an entry.
pub fn row_drop_destination(entry: Option<&FileEntry>) -> (result: Option<Location>)
    ensures
        result == match entry {
            Some(entry) => if entry.kind.is_directory() {
                Some(entry.location)
            } else {
                None
            },
            None => None,
        },
{
    match entry {
        Some(entry) => if entry.is_directory() {
            Some(entry.location.duplicate())
        } else {
            None
        },
        None => None,
    }
}

/// How a row stands to the folder that is open in the next pane.
#[derive(Clone, Copy, Debug, PartialEq, Eq, Structural)]
pub enum PathMark {
    Unmarked,
    /// The row is on the way to the active pane.
    ActivePath,
    /// The row is that of the folder in the active pane.
    ActiveParent,
}

/// How a row stands to the folder that is open in the next pane. `open_row` is the row of that
/// folder.
pub fn path_mark(row: u32, open_row: Option<u32>, depth: usize, active_depth: Option<usize>) -> (result:
    PathMark)
    ensures
        result == if open_row != Some(row) {
            PathMark::Unmarked
        } else if active_depth is Some && active_depth->0 == depth + 1 {
            PathMark::ActiveParent
        } else {
            PathMark::ActivePath
        },
{
    let is_open: bool = match open_row {
        Some(open) => open == row,
        None => false,
    };
    if !is_open {
        return PathMark::Unmarked;
    }
    let is_parent: bool = match active_depth {
        Some(active) => active > 0 && active - 1 == depth,
        None => false,
    };
    if is_parent {
        PathMark::ActiveParent
    } else {
        PathMark::ActivePath
    }
}

/// The row of a pane that the keyboard is on: that of the focused entry, in the pane that has the
/// focus.
pub fn cursor_row(
    depth: usize,
    focused_column: Option<usize>,
    focused_depth: Option<usize>,
    focused_row: Option<u32>,
) -> (result: Option<u32>)
    ensures
        result == if focused_column == Some(depth) && focused_depth == Some(depth) {
            focused_row
        } else {
            None
        },
{
    match (focused_column, focused_depth) {
        (Some(column), Some(item)) => if column == depth && item == depth {
            focused_row
        } else {
            None
        },
        _ => None,
    }
}

/// What a pane says below its rows.
pub fn destination_hint(is_destination: bool, by_pointer: bool) -> (result: &'static str)
    ensures
        result@ == if !is_destination {
            ""@
        } else if by_pointer {
            "Pointer · Paste here"@
        } else {
            "Keyboard · Paste here"@
        },
{
    if !is_destination {
        ""
    } else if by_pointer {
        "Pointer · Paste here"
    } else {
        "Keyboard · Paste here"
    }
}

/// The results of a search that may still be shown, where `allowed` tells of each whether it may.
pub fn eligible_results(results: &Vec<SearchItem>, allowed: &Vec<bool>) -> (result: Vec<SearchItem>)
    requires
        results@.len() == allowed@.len(),
    ensures
        result@ == flagged(results@, allowed@),
{
    let mut kept: Vec<SearchItem> = Vec::new();
    let mut i: usize = 0;
    assert(flagged(results@.take(0), allowed@) == Seq::<SearchItem>::empty());
    while i < results.len()
        invariant
            i <= results@.len(),
            results@.len() == allowed@.len(),
            kept@ == flagged(results@.take(i as int), allowed@),
        decreases results@.len() - i,
    {
        assert(results@.take(i + 1).drop_last() == results@.take(i as int));
        assert(results@.take(i + 1).last() == results@[i as int]);
        if allowed[i] {
            kept.push(results[i].duplicate());
        }
        i = i + 1;
    }
    assert(results@.take(i as int) == results@);
    kept
}

/// The results of a search without those whose files are gone, where any are.
pub fn prune_missing_search_results(results: &Vec<SearchItem>, present: &Vec<bool>) -> (result:
    Option<Vec<SearchItem>>)
    requires
        results@.len() == present@.len(),
    ensures
        match result {
            Some(kept) => kept@ == flagged(results@, present@) && kept@.len() != results@.len(),
            None => flagged(results@, present@).len() == results@.len(),
        },
{
    let kept: Vec<SearchItem> = eligible_results(results, present);
    if kept.len() == results.len() {
        None
    } else {
        Some(kept)
    }
}

/// The row that a menu opened by the keyboard is about: the last selected result of a search, or the
/// row of the focused entry. Without one the menu is that of the folder.
pub fn context_menu_row(searching: bool, selected: &Vec<u32>, focused_row: Option<u32>) -> (result:
    Option<u32>)
    ensures
        result == if searching {
            if selected@.len() > 0 {
                Some(selected@.last())
            } else {
                None
            }
        } else {
            focused_row
        },
{
    if searching {
        if selected.len() > 0 {
            Some(selected[selected.len() - 1])
        } else {
            None
        }
    } else {
        focused_row
    }
}

/// A press on a pane beside its rows.
#[derive(Clone, Copy, Debug, PartialEq, Eq, Structural)]
pub struct BackgroundPress {
    /// Whether the press was beside the rows and the controls.
    pub pressed: bool,
    /// Whether the pane was not the active one.
    pub returning: bool,
}

impl BackgroundPress {
    /// No press.
    pub fn new() -> (result: Self)
        ensures
            result == (BackgroundPress { pressed: false, returning: false }),
    {
        BackgroundPress { pressed: false, returning: false }
    }

    /// Takes a press on the pane.
    pub fn pressed(&mut self, depth: usize, active_depth: Option<usize>, is_background: bool)
        ensures
            *final(self) == (BackgroundPress {
                pressed: is_background,
                returning: active_depth != Some(depth),
            }),
    {
        self.returning = match active_depth {
            Some(active) => active != depth,
            None => true,
        };
        self.pressed = is_background;
    }

    /// Takes that the press turned into something else.
    pub fn stopped(&mut self)
        ensures
            *final(self) == (BackgroundPress { pressed: false, ..*old(self) }),
    {
        self.pressed = false;
    }

    /// Takes the release. Gives whether the pane becomes the active one: not after a drag, nor while
    /// files are dropped.
    pub fn released(&mut self, dragged: bool, drop_active: bool) -> (result: bool)
        ensures
            result == (old(self).pressed && !dragged && !drop_active),
            *final(self) == (BackgroundPress { pressed: false, ..*old(self) }),
    {
        let was_pressed: bool = self.pressed;
        self.pressed = false;
        was_pressed && !dragged && !drop_active
    }

    /// Takes that the press cleared the selection. Gives the entry to select in its place: the first
    /// of the pane, where the focus returned to it and it shows its listing.
    pub fn selection_cleared(&mut self, searching: bool, first: Option<usize>) -> (result: Option<
        usize,
    >)
        ensures
            result == if old(self).returning && !searching {
                first
            } else {
                None
            },
            *final(self) == (BackgroundPress { returning: false, ..*old(self) }),
    {
        let returned: bool = self.returning;
        self.returning = false;
        if returned && !searching {
            first
        } else {
            None
        }
    }
}

/// The pane and the row that flash when the focus returns to a pane: those of its folder.
pub fn flash_column_parent(child_depth: usize, pane_count: usize, open_row: Option<u32>) -> (result:
    Option<(usize, u32)>)
    ensures
        result == if child_depth > 0 && child_depth - 1 < pane_count && open_row is Some {
            Some(((child_depth - 1) as usize, open_row->0))
        } else {
            None
        },
{
    if child_depth == 0 || child_depth - 1 >= pane_count {
        return None;
    }
    match open_row {
        Some(row) => Some((child_depth - 1, row)),
        None => None,
    }
}

/// What a widget is, on the way from the one under the pointer outwards.
#[derive(Clone, Copy, Debug, PartialEq, Eq, Structural)]
pub enum WidgetKind {
    /// The surface that was pressed.
    Surface,
    /// A button, a field, a scale or a scrollbar.
    Control,
    /// The row of a file.
    FileRow,
    /// A list of rows.
    List,
    Other,
}

/// Whether the first widget on the way outwards that is the surface or a control is the surface.
pub open spec fn reaches_surface(way: Seq<WidgetKind>) -> bool
    decreases way.len(),
{
    way.len() > 0 && (way[0] is Surface || (way[0] !is Control && reaches_surface(way.skip(1))))
}

/// Whether what was pressed is the background of a surface rather than one of its controls.
pub fn is_column_background(way: &Vec<WidgetKind>) -> (result: bool)
    ensures
        result == reaches_surface(way@),
{
    let mut i: usize = 0;
    assert(way@.skip(0) == way@);
    while i < way.len()
        invariant
            i <= way@.len(),
            reaches_surface(way@) == reaches_surface(way@.skip(i as int)),
        decreases way@.len() - i,
    {
        assert(way@.skip(i as int)[0] == way@[i as int]);
        assert(way@.skip(i as int).skip(1) == way@.skip(i + 1));
        match way[i] {
            WidgetKind::Surface => {
                return true;
            },
            WidgetKind::Control => {
                return false;
            },
            _ => {},
        }
        i = i + 1;
    }
    false
}

/// The place of the first row on the way outwards, before any list.
pub open spec fn first_row(way: Seq<WidgetKind>) -> Option<int>
    decreases way.len(),
{
    if way.len() == 0 || way[0] is List {
        None
    } else if way[0] is FileRow {
        Some(0)
    } else {
        match first_row(way.skip(1)) {
            Some(at) => Some(at + 1),
            None => None,
        }
    }
}

/// The place of the row that was pressed, on the way outwards.
pub fn file_row_target(way: &Vec<WidgetKind>) -> (result: Option<usize>)
    ensures
        match result {
            Some(at) => first_row(way@) == Some(at as int),
            None => first_row(way@) is None,
        },
{
    let mut i: usize = 0;
    assert(way@.skip(0) == way@);
    while i < way.len()
        invariant
            i <= way@.len(),
            first_row(way@) == match first_row(way@.skip(i as int)) {
                Some(at) => Some(at + i),
                None => None,
            },
        decreases way@.len() - i,
    {
        assert(way@.skip(i as int)[0] == way@[i as int]);
        assert(way@.skip(i as int).skip(1) == way@.skip(i + 1));
        match way[i] {
            WidgetKind::List => {
                return None;
            },
            WidgetKind::FileRow => {
                return Some(i);
            },
            _ => {},
        }
        i = i + 1;
    }
    None
}

proof fn lemma_last_within(rows: Seq<u32>, start: u32, end: u32)
    ensures
        last_within(rows, start, end) matches Some(row) ==> rows.contains(row) && start <= row
            < end,
        last_within(rows, start, end) is None ==> forall|k: int|
            0 <= k < rows.len() ==> !(start <= #[trigger] rows[k] < end),
    decreases rows.len(),
{
    if rows.len() > 0 {
        let front = rows.drop_last();
        lemma_last_within(front, start, end);
        if !(start <= rows.last() < end) {
            match last_within(front, start, end) {
                Some(row) => {
                    let k = front.index_of(row);
                    assert(rows[k] == row);
                },
                None => {
                    assert forall|k: int| 0 <= k < rows.len() implies !(start
                        <= #[trigger] rows[k] < end) by {
                        if k < front.len() {
                            assert(front[k] == rows[k]);
                        }
                    }
                },
            }
        }
    }
}

/// The focus stays among the selected rows, and goes to what just changed where any of that is
/// selected.
pub proof fn law_focus_is_selected(
    selected: Seq<u32>,
    start: u32,
    end: u32,
    previous: Option<u32>,
)
    requires
        selected.len() > 0,
    ensures
        focus_after(selected, start, end, previous) matches Some(row) && selected.contains(row),
        (exists|k: int| 0 <= k < selected.len() && start <= #[trigger] selected[k] < end) ==> start
            <= focus_after(selected, start, end, previous)->0 < end,
{
    lemma_last_within(selected, start, end);
    assert(selected.contains(selected[selected.len() - 1]));
}

/// A click that opens and a press that previews are both plain: with a modifier, of a group that may
/// be dragged, or the second time, a press does neither.
pub proof fn law_modified_presses_only_select(
    press_count: i32,
    modifiers: Modifiers,
    is_selected: bool,
    selected_count: u64,
)
    requires
        modifiers.control || modifiers.shift || (is_selected && selected_count > 1),
    ensures
        !is_plain_press(
            press_count,
            modifiers.control,
            modifiers.shift,
            keeps_group(modifiers, is_selected, selected_count),
        ),
{
}

/// The last selected row in a range is the one found, whatever was selected before it.
pub proof fn law_last_row_in_range_is_found(
    before: Seq<u32>,
    row: u32,
    after: Seq<u32>,
    start: u32,
    end: u32,
)
    requires
        forall|k: int| 0 <= k < after.len() ==> !(start <= #[trigger] after[k] < end),
    ensures
        start <= row < end ==> last_within(before + seq![row] + after, start, end) == Some(row),
        last_within(after, start, end) is None,
    decreases after.len(),
{
    let rows = before + seq![row] + after;
    if after.len() == 0 {
        assert(rows.last() == row);
    } else {
        law_last_row_in_range_is_found(before, row, after.drop_last(), start, end);
        assert(rows.drop_last() =~= before + seq![row] + after.drop_last());
        assert(rows.last() == after[after.len() - 1]);
    }
}

/// A range ends as many rows on as it counts, at most at the last number.
pub proof fn law_ranges_end_in_bounds(start: u32, count: u32)
    ensures
        start + count <= u32::MAX ==> range_end(start, count) == start + count,
        start + count > u32::MAX ==> range_end(start, count) == u32::MAX,
{
}

/// Where no row of the changed range is selected, the row with the focus keeps it as long as it is
/// selected, and otherwise the last selected row gets it. Without a selection, nothing has the focus.
pub proof fn law_focus_stays_while_selected(
    column: Column,
    selected: Seq<u32>,
    start: u32,
    end: u32,
    previous: u32,
    position: u32,
    count: u32,
)
    requires
        selected.len() > 0,
        forall|k: int| 0 <= k < selected.len() ==> !(start <= #[trigger] selected[k] < end),
    ensures
        selected.contains(previous) ==> focus_after(selected, start, end, Some(previous)) == Some(
            previous,
        ),
        !selected.contains(previous) ==> focus_after(selected, start, end, Some(previous)) == Some(
            selected.last(),
        ),
        focus_after(selected, start, end, None) == Some(selected.last()),
        column.refocused(Seq::empty(), position, count) is None,
        column.refocused(selected, position, count) == focus_after(
            selected,
            position,
            range_end(position, count),
            column.state.focused_row,
        ),
{
    law_last_row_in_range_is_found(Seq::empty(), previous, selected, start, end);
}

/// The entries of rows are those paired with them, in order, and a row has the entry of its first
/// pair.
pub proof fn law_rows_have_their_entries(mapped: Seq<(u32, usize)>, row: u32, at: int)
    requires
        0 <= at <= mapped.len(),
        forall|k: int| 0 <= k < at ==> (#[trigger] mapped[k]).0 != row,
    ensures
        sources_of(mapped).len() == mapped.len(),
        0 <= at < mapped.len() ==> sources_of(mapped)[at] == mapped[at].1,
        at < mapped.len() && mapped[at].0 == row ==> source_of(mapped, row) == Some(mapped[at].1),
        at == mapped.len() ==> source_of(mapped, row) is None,
    decreases mapped.len(),
{
    if at > 0 {
        let rest = mapped.skip(1);
        assert forall|k: int| 0 <= k < at - 1 implies (#[trigger] rest[k]).0 != row by {
            assert(mapped[k + 1].0 != row);
        }
        law_rows_have_their_entries(rest, row, at - 1);
        assert(mapped[0].0 != row);
        if at < mapped.len() {
            assert(rest[at - 1] == mapped[at]);
        }
    }
}

/// Folders and files are opened by as many clicks as set for each.
pub proof fn law_clicks_are_set_for_folders_and_files(activation: ClickActivation)
    ensures
        activation.configured(true) == activation.folders,
        activation.configured(false) == activation.files,
{
}

/// A press is plain where it is the first one, without a modifier, and not on a selected group; a group
/// is kept where a row of several selected ones is pressed without a modifier.
pub proof fn law_plain_presses_are_single(
    press_count: i32,
    modifiers: Modifiers,
    is_selected: bool,
    selected_count: u64,
)
    ensures
        !modifiers.control && !modifiers.shift ==> (keeps_group(
            modifiers,
            is_selected,
            selected_count,
        ) <==> is_selected && selected_count >= 2),
        modifiers.control || modifiers.shift ==> !keeps_group(
            modifiers,
            is_selected,
            selected_count,
        ),
        is_plain_press(press_count, false, false, false) <==> press_count == 1,
        !is_plain_press(press_count, true, modifiers.shift, is_selected),
        !is_plain_press(press_count, modifiers.control, true, is_selected),
        !is_plain_press(press_count, modifiers.control, modifiers.shift, true),
{
}

/// A range holds both rows it is between and all that lie between them, whichever comes first.
pub proof fn law_ranges_hold_both_ends(left: u32, right: u32)
    requires
        left < u32::MAX,
        right < u32::MAX,
    ensures
        range_between(left, right) == range_between(right, left),
        left <= right ==> (range_between(left, right) matches RowPress::Range { start, count }
            && start == left && start + count == right + 1),
{
}

/// Keys in a filter that holds a text work on its rows: entering opens the current one, down leads into
/// the list, and up goes nowhere. With a modifier, or without a text, they stay with the field.
pub proof fn law_filter_keys_lead_into_the_list(facts: FilterKeyFacts, key: Key, modifiers: Modifiers)
    ensures
        facts.is_filtered() <==> facts.searching || !facts.query_is_blank,
        modifiers.is_any() || !(facts.searching || !facts.query_is_blank) ==> filter_key_step(
            facts,
            key,
            modifiers,
        ) is Proceed,
        (facts.searching || !facts.query_is_blank) && !modifiers.is_any() ==> {
            let step = filter_key_step(facts, key, modifiers);
            let enters = key is Return || key is KeypadEnter || key is Right;
            &&& step is Stop <==> key is Up || (key is Down && facts.current is None
                && facts.row_count == 0)
            &&& step is SelectRow <==> key is Down && (facts.current is Some || facts.row_count > 0)
            &&& step matches FilterKeyStep::SelectRow(row) ==> row == (match facts.current {
                Some(current) => current,
                None => 0,
            })
            &&& step is OpenResult <==> enters && facts.searching && facts.current is Some
            &&& step matches FilterKeyStep::OpenResult(row) ==> facts.current == Some(row)
            &&& step is Activate <==> enters && !facts.searching && facts.current is Some
                && facts.current_source is Some
            &&& step matches FilterKeyStep::Activate(source) ==> facts.current_source == Some(source)
        },
{
}

/// What was last told of a row counts, and nothing where nothing was.
pub proof fn law_last_update_counts(
    before: Seq<(usize, FileEntry)>,
    position: usize,
    entry: FileEntry,
    after: Seq<(usize, FileEntry)>,
)
    requires
        forall|k: int| 0 <= k < after.len() ==> (#[trigger] after[k]).0 != position,
    ensures
        last_update(before + seq![(position, entry)] + after, position) == Some(entry),
        last_update(after, position) is None,
    decreases after.len(),
{
    let updates = before + seq![(position, entry)] + after;
    if after.len() == 0 {
        assert(updates.last() == (position, entry));
    } else {
        law_last_update_counts(before, position, entry, after.drop_last());
        assert(updates.drop_last() =~= before + seq![(position, entry)] + after.drop_last());
        assert(updates.last() == after[after.len() - 1]);
    }
}

/// An entry is at a place where one of the list is.
pub proof fn law_entries_are_found_at_their_place(
    entries: Seq<FileEntry>,
    entry: FileEntry,
    location: Place,
)
    ensures
        !has_entry_at(Seq::empty(), location),
        has_entry_at(entries.push(entry), location) <==> has_entry_at(entries, location)
            || entry.location@.place() == location,
{
    let longer = entries.push(entry);
    if has_entry_at(longer, location) {
        let k = choose|k: int|
            0 <= k < longer.len() && (#[trigger] longer[k]).location@.place() == location;
        if k < entries.len() {
            assert(entries[k] == longer[k]);
        }
    }
    if has_entry_at(entries, location) {
        let k = choose|k: int|
            0 <= k < entries.len() && (#[trigger] entries[k]).location@.place() == location;
        assert(longer[k] == entries[k]);
    }
    if entry.location@.place() == location {
        assert(longer[entries.len() as int] == entry);
    }
}

/// A press reaches the surface where no control is met on the way to it, and falls on a row where one
/// is met before the list ends.
pub proof fn law_way_out_decides_what_was_pressed(way: Seq<WidgetKind>, at: int)
    requires
        0 <= at < way.len(),
    ensures
        (forall|k: int| 0 <= k < at ==> #[trigger] way[k] !is Surface && way[k] !is Control) ==> (
        way[at] is Surface ==> reaches_surface(way)) && (way[at] is Control ==> !reaches_surface(
            way,
        )) && (at + 1 == way.len() && way[at] !is Surface ==> !reaches_surface(way)),
        (forall|k: int| 0 <= k < at ==> #[trigger] way[k] !is FileRow && way[k] !is List) ==> (
        way[at] is FileRow ==> first_row(way) == Some(at)) && (way[at] is List ==> first_row(way)
            is None) && (at + 1 == way.len() && way[at] !is FileRow ==> first_row(way) is None),
    decreases at,
{
    let rest = way.skip(1);
    if at == 0 {
        if way.len() == 1 {
            assert(rest =~= Seq::<WidgetKind>::empty());
            reveal_with_fuel(reaches_surface, 2);
            reveal_with_fuel(first_row, 2);
        }
    } else {
        assert(forall|k: int| 0 <= k < rest.len() ==> #[trigger] rest[k] == way[k + 1]);
        law_way_out_decides_what_was_pressed(rest, at - 1);
        if forall|k: int| 0 <= k < at ==> #[trigger] way[k] !is Surface && way[k] !is Control {
            assert(way[0] !is Surface && way[0] !is Control);
            assert forall|k: int| 0 <= k < at - 1 implies #[trigger] rest[k] !is Surface && rest[k]
                !is Control by {
                assert(way[k + 1] !is Surface && way[k + 1] !is Control);
            }
        }
        if forall|k: int| 0 <= k < at ==> #[trigger] way[k] !is FileRow && way[k] !is List {
            assert(way[0] !is FileRow && way[0] !is List);
            assert forall|k: int| 0 <= k < at - 1 implies #[trigger] rest[k] !is FileRow && rest[k]
                !is List by {
                assert(way[k + 1] !is FileRow && way[k + 1] !is List);
            }
        }
    }
}

} // verus!
