//! The rows of a listing: which of them a filter leaves, where they stand, and which are selected.

use crate::entry::{entry_matches, is_shown};
use crate::input::Key;
use crate::text::{concat_text, count_text, decimal, lowercase, lowercase_text, starts_with_text};
use vstd::prelude::*;

verus! {

/// How a filter changed.
#[derive(Clone, Copy, Debug, PartialEq, Eq, Structural)]
pub enum FilterChange {
    MoreStrict,
    LessStrict,
    Different,
}

/// Whether `longer` continues `shorter`.
pub open spec fn continues(longer: Seq<char>, shorter: Seq<char>) -> bool {
    shorter.is_prefix_of(longer) && shorter.len() < longer.len()
}

/// How a filter changes from one text to another: stricter where the text was continued, looser
/// where it was shortened.
pub open spec fn filter_change(previous: Seq<char>, settled: Seq<char>) -> FilterChange {
    if continues(settled, previous) {
        FilterChange::MoreStrict
    } else if continues(previous, settled) {
        FilterChange::LessStrict
    } else {
        FilterChange::Different
    }
}

/// How a filter changes from one text to another.
pub fn filter_change_for(previous: &str, settled: &str) -> (result: FilterChange)
    ensures
        result == filter_change(previous@, settled@),
{
    if starts_with_text(settled, previous) && !starts_with_text(previous, settled) {
        assert(settled@ != previous@);
        proof {
            if settled@.len() == previous@.len() {
                assert(settled@.take(previous@.len() as int) == settled@);
            }
        }
        FilterChange::MoreStrict
    } else if starts_with_text(previous, settled) && !starts_with_text(settled, previous) {
        proof {
            if settled@.len() == previous@.len() {
                assert(previous@.take(settled@.len() as int) == previous@);
            }
        }
        FilterChange::LessStrict
    } else {
        FilterChange::Different
    }
}

/// Puts the settled text in place of the filter's; answers how the filter changed, or nothing where
/// the text is the one it had.
pub fn settle_filter_query(query: &mut String, settled: String) -> (result: Option<FilterChange>)
    ensures
        final(query)@ == settled@,
        result == if old(query)@ == settled@ {
            None
        } else {
            Some(filter_change(old(query)@, settled@))
        },
{
    if *query == settled {
        return None;
    }
    let change: FilterChange = filter_change_for(query.as_str(), settled.as_str());
    *query = settled;
    Some(change)
}

/// Takes the text of a filter field, in lowercase; answers how the filter changed, or nothing where
/// it did not.
pub fn notify_filter_query(query: &mut String, text: &str) -> (result: Option<FilterChange>)
    ensures
        final(query)@ == lowercase(text@),
        result == if old(query)@ == lowercase(text@) {
            None
        } else {
            Some(filter_change(old(query)@, lowercase(text@)))
        },
{
    settle_filter_query(query, lowercase_text(text))
}

/// What becomes of the filter of a list.
#[derive(Clone, Copy, Debug, PartialEq, Eq, Structural)]
pub enum FilterUpdate {
    Remove,
    Install,
    Change(FilterChange),
}

/// What becomes of the filter of a list when its text changes.
pub open spec fn filter_update(previous: Seq<char>, settled: Seq<char>) -> FilterUpdate {
    if settled.len() == 0 {
        FilterUpdate::Remove
    } else if previous.len() == 0 {
        FilterUpdate::Install
    } else {
        FilterUpdate::Change(filter_change(previous, settled))
    }
}

/// Puts the settled text in place of the filter's; answers what becomes of the filter of the list.
pub fn apply_filter_query(query: &mut String, settled: String) -> (result: FilterUpdate)
    ensures
        final(query)@ == settled@,
        result == filter_update(old(query)@, settled@),
{
    let change: FilterChange = filter_change_for(query.as_str(), settled.as_str());
    let was_empty: bool = query.as_str().is_empty();
    *query = settled;
    if query.as_str().is_empty() {
        FilterUpdate::Remove
    } else if was_empty {
        FilterUpdate::Install
    } else {
        FilterUpdate::Change(change)
    }
}

/// What an empty filter field says.
pub open spec fn placeholder_text(count: nat) -> Seq<char> {
    "Filter "@ + decimal(count) + if count == 1 {
        " item…"@
    } else {
        " items…"@
    }
}

/// What an empty filter field says above a list of `count` entries.
pub fn filter_placeholder(count: usize) -> (result: String)
    ensures
        result@ == placeholder_text(count as nat),
{
    let number: String = count_text(count);
    let start: String = concat_text("Filter ", number.as_str());
    concat_text(
        start.as_str(),
        if count == 1 {
            " item…"
        } else {
            " items…"
        },
    )
}

/// The position in the filtered list of a row that the filter leaves out.
pub const NO_FILTERED_POSITION: u32 = 0xffff_ffff;

/// The places at which a row is shown, in order.
pub open spec fn shown_places(shown: Seq<bool>) -> Seq<usize>
    decreases shown.len(),
{
    if shown.len() == 0 {
        Seq::empty()
    } else if shown.last() {
        shown_places(shown.drop_last()).push((shown.len() - 1) as usize)
    } else {
        shown_places(shown.drop_last())
    }
}

/// For each place, how many rows before it are shown, or that it is not shown itself.
pub open spec fn place_ranks(shown: Seq<bool>) -> Seq<u32> {
    Seq::new(
        shown.len(),
        |i: int|
            if shown[i] {
                shown_places(shown.take(i)).len() as u32
            } else {
                NO_FILTERED_POSITION
            },
    )
}

/// Which rows of a listing are shown. A row whose value is not there is not.
pub open spec fn shown_rows(source: Seq<Option<String>>, show_hidden: bool, query: Seq<char>) -> Seq<
    bool,
> {
    Seq::new(
        source.len(),
        |i: int|
            match source[i] {
                Some(value) => is_shown(value@, show_hidden, query),
                None => false,
            },
    )
}

/// Where the rows of a filtered list come from, and where the rows of the listing went.
#[derive(Debug)]
pub struct PositionMap {
    pub query: String,
    pub generation: u64,
    pub forward: Vec<usize>,
    pub reverse: Vec<u32>,
}

impl PositionMap {
    /// Whether this is the map of a listing of which the given rows are shown.
    pub open spec fn maps(&self, shown: Seq<bool>) -> bool {
        &&& self.forward@ == shown_places(shown)
        &&& self.reverse@ == place_ranks(shown)
    }
}

proof fn lemma_shown_places_bound(shown: Seq<bool>)
    ensures
        shown_places(shown).len() <= shown.len(),
    decreases shown.len(),
{
    if shown.len() > 0 {
        lemma_shown_places_bound(shown.drop_last());
    }
}

/// The map of a listing of which the given rows are shown.
pub fn position_map_of(shown: &Vec<bool>, query: &str, generation: u64) -> (result: PositionMap)
    requires
        shown@.len() <= u32::MAX,
    ensures
        result.maps(shown@),
        result.query@ == query@,
        result.generation == generation,
{
    let mut forward: Vec<usize> = Vec::new();
    let mut reverse: Vec<u32> = Vec::new();
    let mut i: usize = 0;
    while i < shown.len()
        invariant
            i <= shown@.len() <= u32::MAX,
            forward@ == shown_places(shown@.take(i as int)),
            forward@.len() <= i,
            reverse@.len() == i,
            forall|k: int| 0 <= k < i ==> #[trigger] reverse@[k] == place_ranks(shown@)[k],
        decreases shown@.len() - i,
    {
        proof {
            assert(shown@.take(i + 1).drop_last() == shown@.take(i as int));
        }
        if shown[i] {
            reverse.push(forward.len() as u32);
            forward.push(i);
        } else {
            reverse.push(NO_FILTERED_POSITION);
        }
        i = i + 1;
    }
    assert(shown@.take(i as int) == shown@);
    assert(reverse@ == place_ranks(shown@));
    PositionMap { query: query.to_owned(), generation, forward, reverse }
}

/// The map of a listing under a filter.
pub fn rebuild_position_map(
    source: &Vec<Option<String>>,
    query: &str,
    show_hidden: bool,
    generation: u64,
) -> (result: PositionMap)
    requires
        source@.len() <= u32::MAX,
    ensures
        result.maps(shown_rows(source@, show_hidden, query@)),
        result.query@ == query@,
        result.generation == generation,
{
    let mut shown: Vec<bool> = Vec::new();
    let mut i: usize = 0;
    while i < source.len()
        invariant
            i <= source@.len(),
            shown@.len() == i,
            forall|k: int|
                0 <= k < i ==> #[trigger] shown@[k] == shown_rows(source@, show_hidden, query@)[k],
        decreases source@.len() - i,
    {
        let matches: bool = match &source[i] {
            Some(value) => entry_matches(value.as_str(), show_hidden, query),
            None => false,
        };
        shown.push(matches);
        i = i + 1;
    }
    assert(shown@ == shown_rows(source@, show_hidden, query@));
    position_map_of(&shown, query, generation)
}

/// Translates between the rows of a list and the entries of the listing behind it. The map it
/// remembers serves as long as neither the filter nor the generation of the listing changes.
#[derive(Debug)]
pub struct ViewMap {
    pub cache: PositionMap,
    pub query: String,
    pub show_hidden: bool,
    pub generation: u64,
}

/// What the toolkit tells of the lists that a [`ViewMap`] translates between: how many rows the
/// filtered list holds, and how many stand above them that belong to no entry.
#[derive(Clone, Copy, Debug)]
pub struct RowCounts {
    pub filtered: u32,
    pub placeholders: u32,
}

/// The rows of `positions` that stand for an entry, each with it.
pub open spec fn located(positions: Seq<u32>, find: spec_fn(u32) -> Option<usize>) -> Seq<(u32, usize)>
    decreases positions.len(),
{
    if positions.len() == 0 {
        Seq::empty()
    } else {
        match find(positions.last()) {
            Some(source) => located(positions.drop_last(), find).push((positions.last(), source)),
            None => located(positions.drop_last(), find),
        }
    }
}

/// The rows that are found for positions, in their order.
pub open spec fn rows_found(positions: Seq<usize>, find: spec_fn(usize) -> Option<u32>) -> Seq<u32>
    decreases positions.len(),
{
    if positions.len() == 0 {
        Seq::empty()
    } else {
        let before = rows_found(positions.drop_last(), find);
        match find(positions.last()) {
            Some(row) => before.push(row),
            None => before,
        }
    }
}

impl ViewMap {
    /// Whether every entry has its row.
    pub open spec fn is_unfiltered(&self) -> bool {
        self.query@.len() == 0 && self.show_hidden
    }

    /// Whether the remembered map still serves.
    pub open spec fn is_current(&self) -> bool {
        self.cache.query@ == self.query@ && self.cache.generation == self.generation
    }

    /// Where the rows come from.
    pub open spec fn forward(&self, source: Seq<Option<String>>) -> Seq<usize> {
        if self.is_current() {
            self.cache.forward@
        } else {
            shown_places(shown_rows(source, self.show_hidden, self.query@))
        }
    }

    /// Where the entries went.
    pub open spec fn reverse(&self, source: Seq<Option<String>>) -> Seq<u32> {
        if self.is_current() {
            self.cache.reverse@
        } else {
            place_ranks(shown_rows(source, self.show_hidden, self.query@))
        }
    }

    /// The entry of a row.
    pub open spec fn entry_of(
        &self,
        source: Seq<Option<String>>,
        rows: RowCounts,
        visible_position: u32,
    ) -> Option<usize> {
        if visible_position < rows.placeholders {
            None
        } else {
            let row = visible_position - rows.placeholders;
            if self.is_unfiltered() {
                if row < source.len() && row < rows.filtered {
                    Some(row as usize)
                } else {
                    None
                }
            } else if row < self.forward(source).len() {
                Some(self.forward(source)[row])
            } else {
                None
            }
        }
    }

    /// The row of an entry.
    pub open spec fn row_of(
        &self,
        source: Seq<Option<String>>,
        rows: RowCounts,
        source_position: usize,
    ) -> Option<u32> {
        if self.is_unfiltered() {
            if source_position < source.len() && source_position < rows.filtered {
                Some((source_position + rows.placeholders) as u32)
            } else {
                None
            }
        } else if source_position < self.reverse(source).len() && self.reverse(
            source,
        )[source_position as int] != NO_FILTERED_POSITION {
            Some((self.reverse(source)[source_position as int] + rows.placeholders) as u32)
        } else {
            None
        }
    }

    /// Whether two maps answer alike.
    pub open spec fn answers_like(&self, other: &ViewMap, source: Seq<Option<String>>) -> bool {
        &&& self.query@ == other.query@
        &&& self.show_hidden == other.show_hidden
        &&& self.generation == other.generation
        &&& self.forward(source) == other.forward(source)
        &&& self.reverse(source) == other.reverse(source)
    }

    /// Whether the remembered map is that of some listing, be it that of now or one before.
    pub open spec fn is_consistent(&self) -> bool {
        exists|shown: Seq<bool>| shown.len() <= u32::MAX && #[trigger] self.cache.maps(shown)
    }

    /// Whether every row fits the numbers of the toolkit, those above the entries counted.
    pub open spec fn fits(&self, source: Seq<Option<String>>, rows: RowCounts) -> bool {
        &&& source.len() <= u32::MAX
        &&& source.len() + rows.placeholders <= u32::MAX
        &&& forall|i: int|
            0 <= i < self.cache.reverse@.len() ==> #[trigger] self.cache.reverse@[i]
                == NO_FILTERED_POSITION || self.cache.reverse@[i] + rows.placeholders <= u32::MAX
    }

    /// A map that has not looked at any listing.
    pub fn new(query: String, show_hidden: bool, generation: u64) -> (result: Self)
        ensures
            result.query@ == query@,
            result.show_hidden == show_hidden,
            result.generation == generation,
            result.cache.query@ == Seq::<char>::empty(),
            result.cache.generation == 0,
            result.cache.forward@ == Seq::<usize>::empty(),
            result.cache.reverse@ == Seq::<u32>::empty(),
            result.is_consistent(),
    {
        let result: ViewMap = ViewMap {
            cache: PositionMap {
                query: String::new(),
                generation: 0,
                forward: Vec::new(),
                reverse: Vec::new(),
            },
            query,
            show_hidden,
            generation,
        };
        proof {
            let shown = Seq::<bool>::empty();
            assert(result.cache.reverse@ =~= place_ranks(shown));
            assert(result.cache.forward@ =~= shown_places(shown));
            assert(result.cache.maps(shown));
        }
        result
    }

    /// Builds the map anew where the remembered one does not serve.
    fn refresh(&mut self, source: &Vec<Option<String>>)
        requires
            source@.len() <= u32::MAX,
        ensures
            final(self).answers_like(old(self), source@),
            final(self).is_current(),
            old(self).is_current() ==> final(self).cache == old(self).cache,
            old(self).is_consistent() ==> final(self).is_consistent(),
    {
        if self.cache.query != self.query || self.cache.generation != self.generation {
            self.cache = rebuild_position_map(
                source,
                self.query.as_str(),
                self.show_hidden,
                self.generation,
            );
        }
    }

    /// The entry of a row.
    pub fn source_position(
        &mut self,
        source: &Vec<Option<String>>,
        rows: RowCounts,
        visible_position: u32,
    ) -> (result: Option<usize>)
        requires
            source@.len() <= u32::MAX,
        ensures
            result == old(self).entry_of(source@, rows, visible_position),
            final(self).answers_like(old(self), source@),
            old(self).is_consistent() ==> final(self).is_consistent(),
    {
        if visible_position < rows.placeholders {
            return None;
        }
        let row: u32 = visible_position - rows.placeholders;
        if self.query.as_str().is_empty() && self.show_hidden {
            if (row as usize) < source.len() && row < rows.filtered {
                return Some(row as usize);
            }
            return None;
        }
        self.refresh(source);
        if (row as usize) < self.cache.forward.len() {
            Some(self.cache.forward[row as usize])
        } else {
            None
        }
    }

    /// The row of an entry.
    pub fn view_position(
        &mut self,
        source: &Vec<Option<String>>,
        rows: RowCounts,
        source_position: usize,
    ) -> (result: Option<u32>)
        requires
            old(self).fits(source@, rows),
        ensures
            result == old(self).row_of(source@, rows, source_position),
            final(self).answers_like(old(self), source@),
            final(self).fits(source@, rows),
            old(self).is_consistent() ==> final(self).is_consistent(),
    {
        if self.query.as_str().is_empty() && self.show_hidden {
            if source_position < source.len() && source_position < rows.filtered as usize {
                return Some(source_position as u32 + rows.placeholders);
            }
            return None;
        }
        self.refresh(source);
        proof {
            if !old(self).is_current() {
                let shown = shown_rows(source@, old(self).show_hidden, old(self).query@);
                assert forall|i: int| 0 <= i < self.cache.reverse@.len() implies (
                #[trigger] self.cache.reverse@[i]) == NO_FILTERED_POSITION || self.cache.reverse@[i]
                    + rows.placeholders <= u32::MAX by {
                    lemma_shown_places_bound(shown.take(i));
                }
            }
        }
        if source_position >= self.cache.reverse.len() {
            return None;
        }
        let position: u32 = self.cache.reverse[source_position];
        if position == NO_FILTERED_POSITION {
            return None;
        }
        proof {
            if !old(self).is_current() {
                let shown = shown_rows(source@, old(self).show_hidden, old(self).query@);
                lemma_shown_places_bound(shown.take(source_position as int));
            }
        }
        Some(position + rows.placeholders)
    }

    /// The rows of those entries that have one.
    pub fn view_rows(
        &mut self,
        source: &Vec<Option<String>>,
        rows: RowCounts,
        source_positions: &Vec<usize>,
    ) -> (result: Vec<u32>)
        requires
            old(self).fits(source@, rows),
        ensures
            result@ == rows_found(
                source_positions@,
                |position: usize| old(self).row_of(source@, rows, position),
            ),
            final(self).answers_like(old(self), source@),
            final(self).fits(source@, rows),
            old(self).is_consistent() ==> final(self).is_consistent(),
    {
        let ghost find = |position: usize| old(self).row_of(source@, rows, position);
        let mut result: Vec<u32> = Vec::new();
        let mut i: usize = 0;
        while i < source_positions.len()
            invariant
                i <= source_positions@.len(),
                self.fits(source@, rows),
                self.answers_like(old(self), source@),
                old(self).is_consistent() ==> self.is_consistent(),
                find == (|position: usize| old(self).row_of(source@, rows, position)),
                result@ == rows_found(source_positions@.take(i as int), find),
            decreases source_positions@.len() - i,
        {
            let position: usize = source_positions[i];
            proof {
                assert(source_positions@.take(i + 1).drop_last() == source_positions@.take(
                    i as int,
                ));
                assert(self.row_of(source@, rows, position) == find(position));
            }
            match self.view_position(source, rows, position) {
                Some(row) => {
                    result.push(row);
                },
                None => {},
            }
            i = i + 1;
        }
        assert(source_positions@.take(i as int) == source_positions@);
        result
    }

    /// The rows that stand for an entry, each with it.
    pub fn source_positions(
        &mut self,
        source: &Vec<Option<String>>,
        rows: RowCounts,
        visible_positions: &Vec<u32>,
    ) -> (result: Vec<(u32, usize)>)
        requires
            source@.len() <= u32::MAX,
        ensures
            result@ == located(
                visible_positions@,
                |position: u32| old(self).entry_of(source@, rows, position),
            ),
            final(self).answers_like(old(self), source@),
            old(self).is_consistent() ==> final(self).is_consistent(),
    {
        let ghost find = |position: u32| old(self).entry_of(source@, rows, position);
        let mut result: Vec<(u32, usize)> = Vec::new();
        let mut i: usize = 0;
        while i < visible_positions.len()
            invariant
                i <= visible_positions@.len(),
                source@.len() <= u32::MAX,
                self.answers_like(old(self), source@),
                old(self).is_consistent() ==> self.is_consistent(),
                find == (|position: u32| old(self).entry_of(source@, rows, position)),
                result@ == located(visible_positions@.take(i as int), find),
            decreases visible_positions@.len() - i,
        {
            let position: u32 = visible_positions[i];
            proof {
                assert(visible_positions@.take(i + 1).drop_last() == visible_positions@.take(
                    i as int,
                ));
                assert(self.entry_of(source@, rows, position) == find(position));
            }
            match self.source_position(source, rows, position) {
                Some(found) => {
                    result.push((position, found));
                },
                None => {},
            }
            i = i + 1;
        }
        assert(visible_positions@.take(i as int) == visible_positions@);
        result
    }
}

/// A key that opens the selected result of a search.
pub open spec fn opens_result(key: Key) -> bool {
    key is Return || key is KeypadEnter || key is Right
}

/// Whether a key opens the selected result of a search.
pub fn recursive_search_activation_key(key: Key) -> (result: bool)
    ensures
        result == opens_result(key),
{
    match key {
        Key::Return | Key::KeypadEnter | Key::Right => true,
        _ => false,
    }
}

/// Where a selection of one among `count` results goes: to an end where there was none, and
/// otherwise on in the given direction, but not past an end.
pub open spec fn navigated(current: Option<u32>, count: u32, direction: int) -> Option<int> {
    if count == 0 {
        None
    } else {
        match current {
            None => Some(
                if direction < 0 {
                    count - 1
                } else {
                    0
                },
            ),
            Some(current) => Some(
                if current + direction < 0 {
                    0
                } else if current + direction > count - 1 {
                    count - 1
                } else {
                    current + direction
                },
            ),
        }
    }
}

/// Where the selection of a search result goes.
pub fn search_result_navigation_position(current: Option<u32>, count: u32, direction: i32) -> (result:
    Option<u32>)
    ensures
        match result {
            Some(position) => navigated(current, count, direction as int) == Some(position as int),
            None => navigated(current, count, direction as int) is None,
        },
{
    if count == 0 {
        return None;
    }
    match current {
        None => Some(
            if direction < 0 {
                count - 1
            } else {
                0
            },
        ),
        Some(current) => {
            let target: i64 = current as i64 + direction as i64;
            if target < 0 {
                Some(0)
            } else if target > (count - 1) as i64 {
                Some(count - 1)
            } else {
                Some(target as u32)
            }
        },
    }
}

/// How a selection is handed to the toolkit.
#[derive(Debug)]
pub enum SelectionPlan {
    All,
    Range { position: u32, count: u32 },
    Items(Vec<u32>),
}

impl SelectionPlan {
    /// The rows that the plan selects in a list of `n_items`.
    pub open spec fn selects(&self, n_items: u32, row: int) -> bool {
        match self {
            SelectionPlan::All => 0 <= row < n_items,
            SelectionPlan::Range { position, count } => *position <= row < *position + *count,
            SelectionPlan::Items(items) => exists|k: int|
                0 <= k < items@.len() && #[trigger] items@[k] == row,
        }
    }
}

/// Whether the positions are a run without a gap.
pub open spec fn is_run(positions: Seq<u32>) -> bool {
    positions.len() > 0 && forall|k: int|
        0 <= k < positions.len() ==> #[trigger] positions[k] == positions[0] + k
}

/// The positions of a list of rows once more.
fn duplicate_positions(positions: &Vec<u32>) -> (result: Vec<u32>)
    ensures
        result@ == positions@,
{
    let mut result: Vec<u32> = Vec::new();
    let mut i: usize = 0;
    while i < positions.len()
        invariant
            i <= positions@.len(),
            result@ == positions@.take(i as int),
        decreases positions@.len() - i,
    {
        result.push(positions[i]);
        i = i + 1;
        assert(positions@.take(i as int) == positions@.take(i - 1).push(positions@[i - 1]));
    }
    assert(positions@.take(i as int) == positions@);
    result
}

/// How a selection is handed to the toolkit: everything at once, as a run, or row by row.
pub fn plan_selection(n_items: u32, positions: &Vec<u32>) -> (result: SelectionPlan)
    requires
        positions@.len() <= u32::MAX,
        forall|k: int| 0 <= k < positions@.len() - 1 ==> #[trigger] positions@[k] < u32::MAX,
    ensures
        result is All <==> is_run(positions@) && positions@.len() == n_items && positions@[0] == 0,
        result is Range <==> is_run(positions@) && !(positions@.len() == n_items && positions@[0]
            == 0),
        result matches SelectionPlan::Range { position, count } ==> position == positions@[0]
            && count == positions@.len(),
        result is Items <==> !is_run(positions@),
        result matches SelectionPlan::Items(items) ==> items@ == positions@,
        forall|row: int| #[trigger]
            result.selects(n_items, row) <==> exists|k: int|
                0 <= k < positions@.len() && #[trigger] positions@[k] == row,
{
    let mut is_contiguous: bool = positions.len() > 0;
    let mut i: usize = 1;
    while i < positions.len() && is_contiguous
        invariant
            1 <= i,
            positions@.len() > 0 ==> i <= positions@.len(),
            positions@.len() <= u32::MAX,
            forall|k: int| 0 <= k < positions@.len() - 1 ==> #[trigger] positions@[k] < u32::MAX,
            is_contiguous ==> positions@.len() > 0 && forall|k: int|
                0 <= k < i ==> #[trigger] positions@[k] == positions@[0] + k,
            !is_contiguous ==> !is_run(positions@),
        decreases positions@.len() - i,
    {
        if positions[i] != positions[i - 1] + 1 {
            is_contiguous = false;
            assert(positions@[i - 1] == positions@[0] + (i - 1));
            assert(!(positions@[i as int] == positions@[0] + i));
        }
        i = i + 1;
    }
    let result: SelectionPlan = if is_contiguous && positions.len() as u32 == n_items
        && positions[0] == 0 {
        SelectionPlan::All
    } else if is_contiguous {
        SelectionPlan::Range { position: positions[0], count: positions.len() as u32 }
    } else {
        SelectionPlan::Items(duplicate_positions(positions))
    };
    assert forall|row: int| #[trigger]
        result.selects(n_items, row) <==> exists|k: int|
            0 <= k < positions@.len() && #[trigger] positions@[k] == row by {
        if is_contiguous {
            if result.selects(n_items, row) {
                assert(positions@[row - positions@[0]] == row);
            }
            if exists|k: int| 0 <= k < positions@.len() && #[trigger] positions@[k] == row {
                let k = choose|k: int| 0 <= k < positions@.len() && #[trigger] positions@[k] == row;
                assert(positions@[k] == positions@[0] + k);
                assert(result.selects(n_items, row));
            }
        } else {
            assert(result->Items_0@ == positions@);
            if exists|k: int| 0 <= k < positions@.len() && #[trigger] positions@[k] == row {
                let k = choose|k: int| 0 <= k < positions@.len() && #[trigger] positions@[k] == row;
                assert(result->Items_0@[k] == row);
                assert(result.selects(n_items, row));
            }
            if result.selects(n_items, row) {
                let k = choose|k: int|
                    0 <= k < result->Items_0@.len() && #[trigger] result->Items_0@[k] == row;
                assert(positions@[k] == row);
            }
        }
    }
    result
}

/// What happens to a list that waits for its first layout before it scrolls.
#[derive(Clone, Copy, Debug, PartialEq, Eq, Structural)]
pub enum ScrollStep {
    /// Scroll now.
    Scroll,
    /// Give up.
    Stop,
    /// Wait for the next frame.
    Wait,
}

/// How many frames a list waits for its first layout.
pub const MAX_SCROLL_FRAMES: u8 = 8;

/// A list that waits for its first layout.
#[derive(Clone, Copy, Debug)]
pub struct ScrollWait {
    pub frames: u8,
}

impl ScrollWait {
    /// A list that has not waited yet.
    pub fn new() -> (result: Self)
        ensures
            result.frames == 0,
    {
        ScrollWait { frames: 0 }
    }

    /// Takes a frame: a list that has its layout scrolls, unless it was to take the focus along and
    /// lost it; one without waits for a few frames.
    pub fn tick(&mut self, has_layout: bool, takes_focus: bool, holds_focus: bool) -> (result:
        ScrollStep)
        ensures
            has_layout ==> *final(self) == *old(self) && result == if takes_focus && !holds_focus {
                ScrollStep::Stop
            } else {
                ScrollStep::Scroll
            },
            !has_layout ==> final(self).frames == if old(self).frames == u8::MAX {
                u8::MAX
            } else {
                (old(self).frames + 1) as u8
            } && result == if final(self).frames >= MAX_SCROLL_FRAMES {
                ScrollStep::Stop
            } else {
                ScrollStep::Wait
            },
    {
        if has_layout {
            if takes_focus && !holds_focus {
                ScrollStep::Stop
            } else {
                ScrollStep::Scroll
            }
        } else {
            if self.frames < u8::MAX {
                self.frames = self.frames + 1;
            }
            if self.frames >= MAX_SCROLL_FRAMES {
                ScrollStep::Stop
            } else {
                ScrollStep::Wait
            }
        }
    }
}

/// A filter field whose text takes effect once typing pauses.
#[derive(Debug)]
pub struct FilterDebounce {
    pub pending: Option<String>,
}

impl FilterDebounce {
    /// A field in which nobody has typed.
    pub fn new() -> (result: Self)
        ensures
            result.pending is None,
    {
        FilterDebounce { pending: None }
    }

    /// Takes a change of the field. Answers whether a timer is running that has to be stopped
    /// before the new one starts.
    pub fn changed(&mut self, text: String) -> (result: bool)
        ensures
            final(self).pending == Some(text),
            result == (old(self).pending is Some),
    {
        let running: bool = self.pending.is_some();
        self.pending = Some(text);
        running
    }

    /// Takes the end of the pause: the text that settled, once.
    pub fn settled(&mut self) -> (result: Option<String>)
        ensures
            result == old(self).pending,
            final(self).pending is None,
    {
        self.pending.take()
    }
}

proof fn lemma_shown_places_push(shown: Seq<bool>, i: int)
    requires
        0 <= i < shown.len(),
    ensures
        shown_places(shown.take(i + 1)) == if shown[i] {
            shown_places(shown.take(i)).push(i as usize)
        } else {
            shown_places(shown.take(i))
        },
{
    assert(shown.take(i + 1).drop_last() == shown.take(i));
}

proof fn lemma_shown_places_prefix(shown: Seq<bool>, i: int)
    requires
        0 <= i <= shown.len(),
    ensures
        shown_places(shown.take(i)).is_prefix_of(shown_places(shown)),
    decreases shown.len() - i,
{
    if i == shown.len() {
        assert(shown.take(i) == shown);
    } else {
        lemma_shown_places_prefix(shown, i + 1);
        lemma_shown_places_push(shown, i);
    }
}

/// What the rows of a filtered list are: the places that are shown, each once, in the order of the
/// listing.
pub proof fn law_filtered_rows_keep_their_order(shown: Seq<bool>)
    requires
        shown.len() <= usize::MAX,
    ensures
        forall|k: int|
            0 <= k < shown_places(shown).len() ==> (#[trigger] shown_places(shown)[k]) < shown.len()
                && shown[shown_places(shown)[k] as int],
        forall|j: int, k: int|
            0 <= j < k < shown_places(shown).len() ==> (#[trigger] shown_places(shown)[j]) < (
            #[trigger] shown_places(shown)[k]),
        forall|i: int|
            0 <= i < shown.len() && shown[i] ==> #[trigger] shown_places(shown).contains(i as usize),
    decreases shown.len(),
{
    if shown.len() > 0 {
        let front = shown.drop_last();
        law_filtered_rows_keep_their_order(front);
        let places = shown_places(shown);
        let before = shown_places(front);
        assert forall|i: int| 0 <= i < shown.len() && shown[i] implies #[trigger] places.contains(
            i as usize,
        ) by {
            if i < front.len() {
                assert(front[i]);
                assert(before.contains(i as usize));
                let k = before.index_of(i as usize);
                assert(places[k] == i as usize);
            } else {
                assert(places[places.len() - 1] == i as usize);
            }
        }
    }
}

/// The two directions of a map undo each other: a row's entry has that row, and a shown entry's row
/// has that entry.
pub proof fn law_position_map_round_trip(shown: Seq<bool>, row: int, place: int)
    requires
        shown.len() <= u32::MAX,
    ensures
        0 <= row < shown_places(shown).len() ==> place_ranks(shown)[shown_places(shown)[row] as int]
            == row,
        0 <= place < shown.len() && shown[place] ==> place_ranks(shown)[place]
            != NO_FILTERED_POSITION && shown_places(shown)[place_ranks(shown)[place] as int] == place,
        0 <= place < shown.len() && !shown[place] ==> place_ranks(shown)[place]
            == NO_FILTERED_POSITION,
{
    law_filtered_rows_keep_their_order(shown);
    let places = shown_places(shown);
    if 0 <= place < shown.len() && shown[place] {
        lemma_rank_is_row(shown, place);
    }
    if 0 <= row < places.len() {
        let at = places[row] as int;
        lemma_rank_is_row(shown, at);
        let other = place_ranks(shown)[at] as int;
        if other < row {
            assert(places[other] < places[row]);
        }
        if row < other {
            assert(places[row] < places[other]);
        }
    }
}

proof fn lemma_rank_is_row(shown: Seq<bool>, place: int)
    requires
        shown.len() <= u32::MAX,
        0 <= place < shown.len(),
        shown[place],
    ensures
        place_ranks(shown)[place] < shown_places(shown).len(),
        place_ranks(shown)[place] < NO_FILTERED_POSITION,
        shown_places(shown)[place_ranks(shown)[place] as int] == place,
{
    lemma_shown_places_push(shown, place);
    lemma_shown_places_prefix(shown, place + 1);
    lemma_shown_places_bound(shown.take(place));
    let before = shown_places(shown.take(place));
    let through = shown_places(shown.take(place + 1));
    assert(through[before.len() as int] == place as usize);
    assert(shown_places(shown)[before.len() as int] == through[before.len() as int]);
}

/// Rows and entries are each other's: an entry has a row exactly if the row has that entry, whatever
/// was asked before, as long as the filter and the listing stay. The rows above the entries belong to
/// none.
pub proof fn law_rows_and_entries_are_inverse(
    map: ViewMap,
    after: ViewMap,
    source: Seq<Option<String>>,
    rows: RowCounts,
    source_position: usize,
    visible_position: u32,
)
    requires
        map.is_consistent(),
        map.fits(source, rows),
        after.answers_like(&map, source),
    ensures
        map.row_of(source, rows, source_position) == Some(visible_position) <==> after.entry_of(
            source,
            rows,
            visible_position,
        ) == Some(source_position),
        after.row_of(source, rows, source_position) == Some(visible_position) <==> map.entry_of(
            source,
            rows,
            visible_position,
        ) == Some(source_position),
        visible_position < rows.placeholders ==> map.entry_of(
            source,
            rows,
            visible_position,
        ) is None,
{
    assert(map.row_of(source, rows, source_position) == after.row_of(
        source,
        rows,
        source_position,
    ));
    assert(map.entry_of(source, rows, visible_position) == after.entry_of(
        source,
        rows,
        visible_position,
    ));
    if !map.is_unfiltered() {
        let shown = if map.is_current() {
            choose|shown: Seq<bool>| shown.len() <= u32::MAX && #[trigger] map.cache.maps(shown)
        } else {
            shown_rows(source, map.show_hidden, map.query@)
        };
        let row = visible_position - rows.placeholders;
        assert(map.reverse(source) == place_ranks(shown));
        assert(map.forward(source) == shown_places(shown));
        law_filtered_rows_keep_their_order(shown);
        law_position_map_round_trip(shown, row, source_position as int);
        if source_position < shown.len() && shown[source_position as int] {
            lemma_rank_is_row(shown, source_position as int);
            lemma_shown_places_bound(shown.take(source_position as int));
        }
        if 0 <= row < shown_places(shown).len() {
            lemma_shown_places_bound(shown);
        }
        if !map.is_current() && source_position < shown.len() {
            lemma_shown_places_bound(shown.take(source_position as int));
        }
    }
}

/// Filters that were typed on are stricter and those that were shortened looser, never both; the
/// same text is neither.
pub proof fn law_filter_changes_are_opposite(previous: Seq<char>, settled: Seq<char>)
    ensures
        filter_change(previous, settled) is MoreStrict <==> filter_change(
            settled,
            previous,
        ) is LessStrict,
        filter_change(previous, previous) is Different,
{
}

/// Moving the selection never leaves the list, and finds a place in every list that has one.
pub proof fn law_navigation_stays_in_the_list(current: Option<u32>, count: u32, direction: int)
    ensures
        navigated(current, count, direction) is Some <==> count > 0,
        navigated(current, count, direction) matches Some(position) ==> 0 <= position < count,
{
}

/// A filter is stricter exactly where something was typed behind it, and looser where something was
/// taken from its end.
pub proof fn law_typing_on_is_stricter(previous: Seq<char>, typed: Seq<char>, settled: Seq<char>)
    ensures
        typed.len() > 0 ==> filter_change(previous, previous + typed) is MoreStrict,
        typed.len() > 0 ==> filter_change(previous + typed, previous) is LessStrict,
        filter_change(previous, settled) is MoreStrict ==> previous.len() < settled.len()
            && settled.take(previous.len() as int) == previous,
        filter_change(previous, settled) is LessStrict ==> settled.len() < previous.len()
            && previous.take(settled.len() as int) == settled,
        filter_change(previous, settled) is Different ==> previous.len() == settled.len()
            || !settled.is_prefix_of(previous) && !previous.is_prefix_of(settled),
{
    assert((previous + typed).take(previous.len() as int) =~= previous);
}

/// A filter goes where its text is gone and comes where there was none; between two texts it changes.
pub proof fn law_filters_come_and_go_with_their_text(previous: Seq<char>, settled: Seq<char>)
    ensures
        filter_update(previous, settled) is Remove <==> settled.len() == 0,
        filter_update(previous, settled) is Install <==> settled.len() > 0 && previous.len() == 0,
        filter_update(previous, settled) matches FilterUpdate::Change(change) ==> change
            == filter_change(previous, settled),
{
}

/// The empty field of a filter tells how many items it looks at.
pub proof fn law_placeholder_tells_the_number(count: nat)
    ensures
        placeholder_text(count) == "Filter "@ + decimal(count) + " item"@ + (if count == 1 {
            Seq::<char>::empty()
        } else {
            seq!['s']
        }) + seq!['…'],
{
    reveal_strlit("Filter ");
    reveal_strlit(" item");
    reveal_strlit(" item…");
    reveal_strlit(" items…");
    assert(placeholder_text(count) =~= "Filter "@ + decimal(count) + " item"@ + (if count == 1 {
        Seq::<char>::empty()
    } else {
        seq!['s']
    }) + seq!['…']);
}

/// A row of the listing is shown by its own value alone; one that holds no value never is.
pub proof fn law_rows_are_shown_one_by_one(
    source: Seq<Option<String>>,
    show_hidden: bool,
    query: Seq<char>,
    i: int,
)
    requires
        0 <= i < source.len(),
    ensures
        shown_rows(source, show_hidden, query).len() == source.len(),
        source[i] is None ==> !shown_rows(source, show_hidden, query)[i],
        source[i] is Some ==> shown_rows(source, show_hidden, query)[i] == is_shown(
            source[i]->0@,
            show_hidden,
            query,
        ),
        place_ranks(shown_rows(source, show_hidden, query)).len() == source.len(),
{
}

/// Without a filter, every entry stands as many rows down as there are rows above the listing. With
/// one, the entries it shows follow each other there without gaps, in their order, and those it does
/// not show have no row.
pub proof fn law_rows_follow_the_listing(
    map: ViewMap,
    source: Seq<Option<String>>,
    rows: RowCounts,
    position: usize,
    row: int,
)
    requires
        map.fits(source, rows),
        position < source.len(),
    ensures
        map.query@.len() == 0 && map.show_hidden && position < rows.filtered ==> map.row_of(
            source,
            rows,
            position,
        ) == Some((position + rows.placeholders) as u32),
        map.query@.len() == 0 && map.show_hidden && position >= rows.filtered ==> map.row_of(
            source,
            rows,
            position,
        ) is None,
        !(map.query@.len() == 0 && map.show_hidden) && !map.is_current() ==> {
            let shown = shown_rows(source, map.show_hidden, map.query@);
            &&& map.row_of(source, rows, position) is Some <==> shown[position as int]
            &&& 0 <= row < shown_places(shown).len() ==> map.entry_of(
                source,
                rows,
                (row + rows.placeholders) as u32,
            ) == Some(shown_places(shown)[row])
        },
        map.is_current() <==> map.cache.query@ == map.query@ && map.cache.generation
            == map.generation,
{
    if !(map.query@.len() == 0 && map.show_hidden) && !map.is_current() {
        let shown = shown_rows(source, map.show_hidden, map.query@);
        law_position_map_round_trip(shown, row, position as int);
        lemma_shown_places_bound(shown);
    }
}

/// The rows that stand for an entry are found one after the other, each with its entry, and the others
/// are left out; so are the entries that have a row.
pub proof fn law_rows_are_found_in_order(
    left: Seq<u32>,
    right: Seq<u32>,
    row: u32,
    find: spec_fn(u32) -> Option<usize>,
    left_entries: Seq<usize>,
    right_entries: Seq<usize>,
    entry: usize,
    find_row: spec_fn(usize) -> Option<u32>,
)
    ensures
        located(left + right, find) == located(left, find) + located(right, find),
        located(seq![row], find) == match find(row) {
            Some(found) => seq![(row, found)],
            None => Seq::empty(),
        },
        rows_found(left_entries + right_entries, find_row) == rows_found(left_entries, find_row)
            + rows_found(right_entries, find_row),
        rows_found(seq![entry], find_row) == match find_row(entry) {
            Some(found) => seq![found],
            None => Seq::empty(),
        },
{
    reveal_with_fuel(located, 2);
    reveal_with_fuel(rows_found, 2);
    lemma_located_parts(left, right, find);
    lemma_rows_found_parts(left_entries, right_entries, find_row);
    assert(seq![row].drop_last() =~= Seq::<u32>::empty());
    assert(seq![entry].drop_last() =~= Seq::<usize>::empty());
    assert(located(seq![row], find) =~= match find(row) {
        Some(found) => seq![(row, found)],
        None => Seq::empty(),
    });
    assert(rows_found(seq![entry], find_row) =~= match find_row(entry) {
        Some(found) => seq![found],
        None => Seq::empty(),
    });
}

proof fn lemma_located_parts(left: Seq<u32>, right: Seq<u32>, find: spec_fn(u32) -> Option<usize>)
    ensures
        located(left + right, find) == located(left, find) + located(right, find),
    decreases right.len(),
{
    if right.len() == 0 {
        assert(left + right =~= left);
        assert(located(left, find) + located(right, find) =~= located(left, find));
    } else {
        lemma_located_parts(left, right.drop_last(), find);
        assert((left + right).drop_last() =~= left + right.drop_last());
        assert(located(left + right, find) =~= located(left, find) + located(right, find));
    }
}

proof fn lemma_rows_found_parts(
    left: Seq<usize>,
    right: Seq<usize>,
    find: spec_fn(usize) -> Option<u32>,
)
    ensures
        rows_found(left + right, find) == rows_found(left, find) + rows_found(right, find),
    decreases right.len(),
{
    if right.len() == 0 {
        assert(left + right =~= left);
        assert(rows_found(left, find) + rows_found(right, find) =~= rows_found(left, find));
    } else {
        lemma_rows_found_parts(left, right.drop_last(), find);
        assert((left + right).drop_last() =~= left + right.drop_last());
        assert(rows_found(left + right, find) =~= rows_found(left, find) + rows_found(right, find));
    }
}

/// Moving by so many rows goes there, or to the end of the list that lies in that direction. Without
/// a row to start from, it goes to the first, or upwards to the last.
pub proof fn law_navigation_goes_as_far_as_it_can(current: u32, count: u32, direction: int)
    requires
        count > 0,
    ensures
        0 <= current + direction < count ==> navigated(Some(current), count, direction) == Some(
            current + direction,
        ),
        current + direction < 0 ==> navigated(Some(current), count, direction) == Some(0int),
        current + direction >= count ==> navigated(Some(current), count, direction) == Some(
            count - 1,
        ),
        direction >= 0 ==> navigated(None, count, direction) == Some(0int),
        direction < 0 ==> navigated(None, count, direction) == Some(count - 1),
{
}

/// A result is opened by the keys that enter, and by the one that leads to the right.
pub proof fn law_results_are_opened_by_entering(key: Key)
    ensures
        opens_result(key) <==> key is Return || key is KeypadEnter || key is Right,
{
}

/// Rows are a run where each is one further than the one before.
pub proof fn law_runs_have_no_gaps(positions: Seq<u32>, next: u32)
    ensures
        !is_run(Seq::empty()),
        is_run(seq![next]),
        positions.len() > 0 ==> (is_run(positions.push(next)) <==> is_run(positions) && next
            == positions.last() + 1),
{
    if positions.len() > 0 {
        let longer = positions.push(next);
        if is_run(longer) {
            assert(longer[positions.len() as int] == longer[0] + positions.len());
            assert(longer[positions.len() - 1] == longer[0] + (positions.len() - 1));
            assert forall|k: int| 0 <= k < positions.len() implies #[trigger] positions[k]
                == positions[0] + k by {
                assert(longer[k] == longer[0] + k);
            }
        }
        if is_run(positions) && next == positions.last() + 1 {
            assert(positions[positions.len() - 1] == positions[0] + (positions.len() - 1));
            assert forall|k: int| 0 <= k < longer.len() implies #[trigger] longer[k] == longer[0]
                + k by {
                if k < positions.len() {
                    assert(positions[k] == positions[0] + k);
                }
            }
        }
    }
}

/// A plan for everything selects each row of the list, and one for a range as many rows as it counts,
/// from its first on.
pub proof fn law_plans_select_their_rows(position: u32, count: u32, n_items: u32, row: int)
    ensures
        SelectionPlan::All.selects(n_items, row) <==> 0 <= row < n_items,
        (SelectionPlan::Range { position, count }).selects(n_items, row) <==> 0 <= row - position
            < count,
{
}

/// A map that answers like another has the same filter of the same listing, and gives every entry and
/// every row the same answer.
pub proof fn law_like_maps_answer_alike(
    map: ViewMap,
    other: ViewMap,
    source: Seq<Option<String>>,
    rows: RowCounts,
    position: usize,
    row: u32,
)
    requires
        map.answers_like(&other, source),
    ensures
        map.query@ == other.query@,
        map.show_hidden == other.show_hidden,
        map.generation == other.generation,
        map.row_of(source, rows, position) == other.row_of(source, rows, position),
        map.entry_of(source, rows, row) == other.entry_of(source, rows, row),
        map.is_current() && other.is_current() ==> map.cache.forward@ == other.cache.forward@
            && map.cache.reverse@ == other.cache.reverse@,
{
}

/// A map that is asked again remembers its answers: what it holds for its filter and listing is what it
/// answers by.
pub proof fn law_current_maps_answer_by_what_they_hold(
    map: ViewMap,
    source: Seq<Option<String>>,
    rows: RowCounts,
    position: usize,
    row: u32,
)
    requires
        map.cache.query@ == map.query@,
        map.cache.generation == map.generation,
        !(map.query@.len() == 0 && map.show_hidden),
        rows.placeholders <= row,
    ensures
        map.entry_of(source, rows, row) == if row - rows.placeholders < map.cache.forward@.len() {
            Some(map.cache.forward@[row - rows.placeholders])
        } else {
            None
        },
        map.row_of(source, rows, position) is Some <==> position < map.cache.reverse@.len()
            && map.cache.reverse@[position as int] != u32::MAX,
        position < map.cache.reverse@.len() && map.cache.reverse@[position as int] + rows.placeholders
            < u32::MAX ==> map.row_of(source, rows, position) == Some(
            (map.cache.reverse@[position as int] + rows.placeholders) as u32,
        ),
{
}

} // verus!
