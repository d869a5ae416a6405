//! The panes of the column view: what each of them shows while its folder loads, changes and is
//! searched.

use crate::collection::{filter_placeholder, placeholder_text};
use crate::input::{following_number, next_number};
use crate::location::{is_trash_root, Location, LocationView};
use crate::text::{concat_text, same_text, trim_text, trimmed};
use vstd::prelude::*;

verus! {

/// What a pane shows.
#[derive(Clone, Copy, Debug, PartialEq, Eq, Structural)]
pub enum Page {
    Loading,
    Content,
    Empty,
    Failed,
}

/// The spinner in the header of a pane. While it waits, it appears once a short delay has passed.
#[derive(Clone, Copy, Debug, PartialEq, Eq, Structural)]
pub struct Spinner {
    pub waiting: bool,
    pub visible: bool,
    pub spinning: bool,
    pub sorting: bool,
}

/// What a pane is like at a moment.
#[derive(Clone, Copy, Debug, PartialEq, Eq, Structural)]
pub struct ColumnState {
    pub entry_count: usize,
    pub page: Page,
    pub spinner: Spinner,
    pub busy: bool,
    pub truncated: bool,
    /// Whether the trash can be emptied, where the pane offers it.
    pub empty_trash: Option<bool>,
    pub show_hidden: bool,
    /// Whether the rows of the folder are shown as they come.
    pub attached: bool,
    /// Whether a change of the selection comes from the view itself.
    pub syncing: bool,
    pub filter_open: bool,
    pub searching: bool,
    pub search_running: bool,
    pub search_number: u64,
    pub animation: u64,
    pub focused_row: Option<u32>,
}

/// What is known of a folder that was listed before its pane was made.
#[derive(Clone, Copy, Debug, PartialEq, Eq, Structural)]
pub struct ColumnSnapshot {
    pub count: usize,
    pub truncated: bool,
    pub loading: bool,
    /// Whether the folder shows what has come while the rest still loads.
    pub shows_early: bool,
}

/// The sum of two numbers, or the largest number where it is too large.
pub open spec fn capped_sum(left: usize, right: usize) -> usize {
    if left + right > usize::MAX {
        usize::MAX
    } else {
        (left + right) as usize
    }
}

/// The difference of two numbers, or nothing where it would be negative.
pub open spec fn floored_difference(left: usize, right: usize) -> usize {
    if left < right {
        0
    } else {
        (left - right) as usize
    }
}

/// How many entries there are after changes, each of which takes some entries out and puts others
/// in.
pub open spec fn spliced_count(count: usize, splices: Seq<(usize, usize)>) -> usize
    decreases splices.len(),
{
    if splices.len() == 0 {
        count
    } else {
        let before = spliced_count(count, splices.drop_last());
        capped_sum(floored_difference(before, splices.last().0), splices.last().1)
    }
}

impl Spinner {
    /// The spinner of a pane that has nothing to wait for.
    pub open spec fn stopped(self) -> Spinner {
        Spinner { waiting: false, visible: false, spinning: false, ..self }
    }

    /// The spinner of a pane that waits.
    pub open spec fn started(self) -> Spinner {
        Spinner { visible: true, spinning: true, ..self }
    }

    fn stop(&mut self)
        ensures
            *final(self) == old(self).stopped(),
    {
        self.waiting = false;
        self.visible = false;
        self.spinning = false;
    }

    fn start(&mut self)
        ensures
            *final(self) == old(self).started(),
    {
        self.visible = true;
        self.spinning = true;
    }
}

impl ColumnState {
    /// A pane that was just opened.
    pub open spec fn opened(location: LocationView, show_hidden: bool) -> ColumnState {
        ColumnState {
            entry_count: 0,
            page: Page::Loading,
            spinner: Spinner { waiting: true, visible: false, spinning: false, sorting: false },
            busy: true,
            truncated: false,
            empty_trash: if location.is_trash_root() {
                Some(false)
            } else {
                None
            },
            show_hidden,
            attached: true,
            syncing: false,
            filter_open: false,
            searching: false,
            search_running: false,
            search_number: 0,
            animation: 1,
            focused_row: None,
        }
    }

    /// The pane with another number of entries. An empty trash cannot be emptied.
    pub open spec fn counting(self, count: usize) -> ColumnState {
        ColumnState {
            entry_count: count,
            empty_trash: match self.empty_trash {
                Some(_) => Some(count > 0),
                None => None,
            },
            ..self
        }
    }

    /// The page of a folder that was read whole.
    pub open spec fn settled_page(count: usize) -> Page {
        if count == 0 {
            Page::Empty
        } else {
            Page::Content
        }
    }

    /// The pane once entries were added. They are shown at once, unless the spinner turns.
    pub open spec fn added(self, count: usize) -> ColumnState {
        ColumnState {
            page: if count > 0 && !self.spinner.spinning {
                Page::Content
            } else {
                self.page
            },
            busy: false,
            ..self.counting(capped_sum(self.entry_count, count))
        }
    }

    /// The pane once its entries were replaced.
    pub open spec fn replaced(self, count: usize) -> ColumnState {
        ColumnState {
            page: if count > 0 {
                Page::Content
            } else {
                self.page
            },
            busy: self.busy && count == 0,
            ..self.counting(count)
        }
    }

    /// The pane while its entries are put in order.
    pub open spec fn sorting(self) -> ColumnState {
        ColumnState {
            spinner: Spinner { sorting: true, ..self.spinner.started() },
            busy: true,
            ..self
        }
    }

    /// The pane once its entries are in order.
    pub open spec fn sorted(self) -> ColumnState {
        ColumnState {
            spinner: Spinner { sorting: false, ..self.spinner.stopped() },
            busy: false,
            ..self
        }
    }

    /// The pane once some of its entries came and others went.
    pub open spec fn spliced(self, splices: Seq<(usize, usize)>) -> ColumnState {
        let count = spliced_count(self.entry_count, splices);
        ColumnState { page: ColumnState::settled_page(count), busy: false, ..self.counting(count) }
    }

    /// The pane while its folder is read again. Its search ends, and its rows are held back.
    pub open spec fn reloaded(self) -> ColumnState {
        ColumnState {
            entry_count: 0,
            page: Page::Loading,
            spinner: self.spinner.started(),
            busy: true,
            truncated: false,
            attached: false,
            syncing: true,
            search_running: false,
            search_number: next_number(self.search_number),
            ..self
        }
    }

    /// The pane with its rows shown again, where they were held back.
    pub open spec fn reattached(self) -> ColumnState {
        if self.attached {
            self
        } else {
            ColumnState { attached: true, syncing: false, ..self }
        }
    }

    /// The pane once its folder was read.
    pub open spec fn loaded(self, truncated: bool) -> ColumnState {
        ColumnState {
            spinner: self.spinner.stopped(),
            truncated,
            page: ColumnState::settled_page(self.entry_count),
            busy: false,
            ..self.reattached().counting(self.entry_count)
        }
    }

    /// The pane once its folder could not be read.
    pub open spec fn failed(self) -> ColumnState {
        ColumnState {
            spinner: self.spinner.stopped(),
            page: Page::Failed,
            busy: false,
            ..self.reattached()
        }
    }

    /// The pane that was made anew for a folder of which much is known already.
    pub open spec fn rebuilt(self, snapshot: ColumnSnapshot, has_failed: bool) -> ColumnState {
        let counted = ColumnState {
            truncated: snapshot.truncated,
            ..self.counting(snapshot.count)
        };
        if snapshot.loading {
            let early = snapshot.count > 0 && snapshot.shows_early;
            ColumnState {
                spinner: Spinner { waiting: false, ..self.spinner.started() },
                page: if early {
                    Page::Content
                } else {
                    Page::Loading
                },
                busy: self.busy && !early,
                ..counted
            }
        } else {
            ColumnState {
                spinner: self.spinner.stopped(),
                page: if has_failed {
                    Page::Failed
                } else {
                    ColumnState::settled_page(snapshot.count)
                },
                ..counted
            }
        }
    }

    /// The pane without a search, so that results that still come are not taken.
    pub open spec fn listing(self) -> ColumnState {
        ColumnState {
            searching: false,
            search_running: false,
            search_number: next_number(self.search_number),
            ..self
        }
    }

    /// The pane with a search, which begins or goes on with another text.
    pub open spec fn searched(self) -> ColumnState {
        ColumnState {
            searching: true,
            search_running: true,
            search_number: if self.search_running {
                self.search_number
            } else {
                next_number(self.search_number)
            },
            ..self
        }
    }

    /// The pane once the delay of its spinner has passed.
    pub open spec fn delayed(self) -> ColumnState {
        if self.spinner.waiting {
            ColumnState {
                spinner: Spinner { waiting: false, ..self.spinner.started() },
                ..self
            }
        } else {
            self
        }
    }
}

/// How long the spinner of a pane waits before it appears, in milliseconds.
pub const COLUMN_SPINNER_DELAY: u64 = 120;

/// How wide a pane is at least.
pub const COLUMN_WIDTH: i32 = 300;

/// What the text of a filter leads to once it has settled.
#[derive(Debug)]
pub enum QueryStep {
    /// Show the listing, filtered by the text.
    Listing,
    /// Search below the folder. A search that begins takes the place of the listing.
    Search { query: String, begins: bool },
}

/// Whether a text is searched for below a folder: on the local file system, unless it is blank.
pub open spec fn is_searched(location: LocationView, text: Seq<char>) -> bool {
    location is Native && trimmed(text).len() > 0
}

/// A pane of the column view.
#[derive(Debug)]
pub struct Column {
    pub location: Location,
    pub state: ColumnState,
    /// Why the folder could not be read, when that was last told.
    pub failure: Option<String>,
}

impl Column {
    /// A pane for a folder that begins to load.
    pub fn open(location: Location, show_hidden: bool) -> (result: Self)
        ensures
            result.location == location,
            result.state == ColumnState::opened(location@, show_hidden),
            result.failure is None,
    {
        let is_trash: bool = is_trash_root(&location);
        Column {
            location,
            state: ColumnState {
                entry_count: 0,
                page: Page::Loading,
                spinner: Spinner { waiting: true, visible: false, spinning: false, sorting: false },
                busy: true,
                truncated: false,
                empty_trash: if is_trash {
                    Some(false)
                } else {
                    None
                },
                show_hidden,
                attached: true,
                syncing: false,
                filter_open: false,
                searching: false,
                search_running: false,
                search_number: 0,
                animation: 1,
                focused_row: None,
            },
            failure: None,
        }
    }

    fn count(&mut self, count: usize)
        ensures
            *final(self) == (Column { state: old(self).state.counting(count), ..*old(self) }),
    {
        self.state.entry_count = count;
        if self.state.empty_trash.is_some() {
            self.state.empty_trash = Some(count > 0);
        }
    }

    /// Takes that the delay of the spinner has passed.
    pub fn spinner_delay_passed(&mut self)
        ensures
            *final(self) == (Column { state: old(self).state.delayed(), ..*old(self) }),
    {
        if self.state.spinner.waiting {
            self.state.spinner.waiting = false;
            self.state.spinner.start();
        }
    }

    /// Takes that entries were added to the folder.
    pub fn entries_added(&mut self, count: usize)
        ensures
            *final(self) == (Column { state: old(self).state.added(count), ..*old(self) }),
    {
        if count > 0 && !self.state.spinner.spinning {
            self.state.page = Page::Content;
        }
        let total: usize = if count > usize::MAX - self.state.entry_count {
            usize::MAX
        } else {
            self.state.entry_count + count
        };
        self.count(total);
        self.state.busy = false;
    }

    /// Takes that the entries of the folder were replaced.
    pub fn entries_replaced(&mut self, count: usize)
        ensures
            *final(self) == (Column { state: old(self).state.replaced(count), ..*old(self) }),
    {
        if count > 0 {
            self.state.page = Page::Content;
            self.state.busy = false;
        }
        self.count(count);
    }

    /// Takes that the entries are being put in order.
    pub fn sorting_started(&mut self)
        ensures
            *final(self) == (Column { state: old(self).state.sorting(), ..*old(self) }),
    {
        self.state.spinner.sorting = true;
        self.state.spinner.start();
        self.state.busy = true;
    }

    /// Takes that the entries are in order.
    pub fn sorting_finished(&mut self)
        ensures
            *final(self) == (Column { state: old(self).state.sorted(), ..*old(self) }),
    {
        self.state.spinner.stop();
        self.state.spinner.sorting = false;
        self.state.busy = false;
    }

    /// Takes that entries came and went; of each change, how many it took out and put in.
    pub fn entries_spliced(&mut self, splices: &Vec<(usize, usize)>)
        ensures
            *final(self) == (Column { state: old(self).state.spliced(splices@), ..*old(self) }),
    {
        let start: usize = self.state.entry_count;
        let mut count: usize = start;
        let mut i: usize = 0;
        while i < splices.len()
            invariant
                i <= splices@.len(),
                count == spliced_count(start, splices@.take(i as int)),
            decreases splices@.len() - i,
        {
            let (removed, put_in): (usize, usize) = splices[i];
            let left: usize = if count < removed {
                0
            } else {
                count - removed
            };
            count = if put_in > usize::MAX - left {
                usize::MAX
            } else {
                left + put_in
            };
            assert(splices@.take(i + 1).drop_last() == splices@.take(i as int));
            i = i + 1;
        }
        assert(splices@.take(i as int) == splices@);
        self.count(count);
        self.state.page = if count == 0 {
            Page::Empty
        } else {
            Page::Content
        };
        self.state.busy = false;
    }

    /// Takes that the folder is read again. The text of its filter is to be cleared.
    pub fn reloaded(&mut self)
        ensures
            *final(self) == (Column { state: old(self).state.reloaded(), ..*old(self) }),
    {
        self.state.search_running = false;
        self.state.search_number = following_number(self.state.search_number);
        self.state.syncing = true;
        self.state.attached = false;
        self.state.entry_count = 0;
        self.state.truncated = false;
        self.state.spinner.start();
        self.state.busy = true;
        self.state.page = Page::Loading;
    }

    fn reattach(&mut self)
        ensures
            *final(self) == (Column { state: old(self).state.reattached(), ..*old(self) }),
    {
        if !self.state.attached {
            self.state.attached = true;
            self.state.syncing = false;
        }
    }

    /// Takes that the folder was read, wholly or in part.
    pub fn load_finished(&mut self, truncated: bool)
        ensures
            *final(self) == (Column { state: old(self).state.loaded(truncated), ..*old(self) }),
    {
        self.reattach();
        self.state.spinner.stop();
        self.state.truncated = truncated;
        let count: usize = self.state.entry_count;
        self.state.page = if count == 0 {
            Page::Empty
        } else {
            Page::Content
        };
        self.state.busy = false;
        self.count(count);
    }

    /// Takes that the folder could not be read, and why.
    pub fn load_failed(&mut self, message: String)
        ensures
            *final(self) == (Column {
                location: old(self).location,
                state: old(self).state.failed(),
                failure: Some(message),
            }),
    {
        self.reattach();
        self.state.spinner.stop();
        self.state.page = Page::Failed;
        self.state.busy = false;
        self.failure = Some(message);
    }

    /// Takes what is known already of the folder of a pane that was made anew.
    pub fn rebuild(&mut self, snapshot: ColumnSnapshot, failure: Option<String>)
        ensures
            final(self).location == old(self).location,
            final(self).state == old(self).state.rebuilt(snapshot, failure is Some),
            final(self).failure == if !snapshot.loading && failure is Some {
                failure
            } else {
                old(self).failure
            },
    {
        self.count(snapshot.count);
        self.state.truncated = snapshot.truncated;
        if snapshot.loading {
            self.state.spinner.waiting = false;
            self.state.spinner.start();
            if snapshot.count > 0 && snapshot.shows_early {
                self.state.page = Page::Content;
                self.state.busy = false;
            } else {
                self.state.page = Page::Loading;
            }
        } else {
            self.state.spinner.stop();
            if failure.is_some() {
                self.state.page = Page::Failed;
                self.failure = failure;
            } else {
                self.state.page = if snapshot.count == 0 {
                    Page::Empty
                } else {
                    Page::Content
                };
            }
        }
    }

    /// Takes the text of the filter, once it has settled.
    pub fn query_settled(&mut self, text: &str) -> (result: QueryStep)
        ensures
            *final(self) == (Column {
                state: if is_searched(old(self).location@, text@) {
                    old(self).state.searched()
                } else {
                    old(self).state.listing()
                },
                ..*old(self)
            }),
            result is Search <==> is_searched(old(self).location@, text@),
            result matches QueryStep::Search { query, begins } ==> query@ == trimmed(text@)
                && begins == !old(self).state.search_running,
    {
        let query: String = trim_text(text);
        if self.location.native_path().is_none() || query.as_str().is_empty() {
            self.state.searching = false;
            self.state.search_running = false;
            self.state.search_number = following_number(self.state.search_number);
            return QueryStep::Listing;
        }
        let begins: bool = !self.state.search_running;
        self.state.searching = true;
        self.state.search_running = true;
        if begins {
            self.state.search_number = following_number(self.state.search_number);
        }
        QueryStep::Search { query, begins }
    }

    /// Whether results are taken that a search with the given number found for a text, while the
    /// field of the filter holds another.
    pub fn takes_results(&self, number: u64, query: &str, field: &str) -> (result: bool)
        ensures
            result == (number == self.state.search_number && query@.len() > 0 && query@ == trimmed(
                field@,
            )),
    {
        let wanted: String = trim_text(field);
        let is_wanted: bool = same_text(query, wanted.as_str());
        number == self.state.search_number && !wanted.as_str().is_empty() && is_wanted
    }

    /// What the field of the filter says while it is empty.
    pub fn filter_hint(&self) -> (result: String)
        ensures
            result@ == placeholder_text(self.state.entry_count as nat),
    {
        filter_placeholder(self.state.entry_count)
    }

    /// What the pane tells in place of entries.
    pub open spec fn told(&self) -> Option<Seq<char>> {
        match self.state.page {
            Page::Empty => Some("This directory is empty"@),
            Page::Failed => Some(
                "Unable to read this directory\n"@ + match self.failure {
                    Some(message) => message@,
                    None => Seq::empty(),
                },
            ),
            _ => None,
        }
    }

    /// What the pane tells in place of entries. Only a failure can be tried again.
    pub fn feedback(&self) -> (result: Option<String>)
        ensures
            match result {
                Some(text) => self.told() == Some(text@),
                None => self.told() is None,
            },
    {
        match self.state.page {
            Page::Empty => Some("This directory is empty".to_owned()),
            Page::Failed => {
                let reason: &str = match &self.failure {
                    Some(message) => message.as_str(),
                    None => "",
                };
                proof {
                    reveal_strlit("");
                    assert(""@ == Seq::<char>::empty());
                }
                Some(concat_text("Unable to read this directory\n", reason))
            },
            _ => None,
        }
    }
}

/// However a folder was read, its pane then is at rest: no spinner, no wait, and rows that follow the
/// listing. It says that the folder is empty exactly if it is.
pub proof fn law_loading_ends(state: ColumnState, truncated: bool)
    ensures
        !state.loaded(truncated).busy && !state.failed().busy,
        state.loaded(truncated).spinner.stopped() == state.loaded(truncated).spinner,
        state.failed().spinner.stopped() == state.failed().spinner,
        state.loaded(truncated).attached && state.failed().attached,
        state.loaded(truncated).page is Empty <==> state.entry_count == 0,
        state.failed().page is Failed,
        state.loaded(truncated).delayed() == state.loaded(truncated),
{
}

/// Results of a search that was ended, by another text or by reading the folder again, are not taken,
/// as long as the numbers of searches last.
pub proof fn law_ended_searches_stay_silent(state: ColumnState)
    requires
        state.search_number < u64::MAX,
    ensures
        state.listing().search_number != state.search_number,
        state.reloaded().search_number != state.search_number,
        !state.listing().searching && !state.listing().search_running,
        state.listing().searched().search_number != state.search_number,
{
}

/// Adding entries in pieces counts as many as adding them at once.
pub proof fn law_entries_add_up(state: ColumnState, first: usize, second: usize)
    requires
        state.entry_count + first + second <= usize::MAX,
    ensures
        state.added(first).added(second).entry_count == state.entry_count + first + second,
        state.added(first).added(second).counting(0) == state.added(
            (first + second) as usize,
        ).counting(0),
{
}

/// Counts stop at the largest number rather than begin anew, and never fall below nothing.
pub proof fn law_counts_stay_in_bounds(left: usize, right: usize)
    ensures
        left + right <= usize::MAX ==> capped_sum(left, right) == left + right,
        left + right > usize::MAX ==> capped_sum(left, right) == usize::MAX,
        right <= left ==> floored_difference(left, right) == left - right,
        right > left ==> floored_difference(left, right) == 0,
{
}

/// Splices count one after the other: each takes away what it removes and adds what it brings.
pub proof fn law_splices_count_in_order(
    count: usize,
    splices: Seq<(usize, usize)>,
    removed: usize,
    added: usize,
)
    ensures
        spliced_count(count, Seq::empty()) == count,
        removed <= spliced_count(count, splices) && spliced_count(count, splices) - removed + added
            <= usize::MAX ==> spliced_count(count, splices.push((removed, added)))
            == spliced_count(count, splices) - removed + added,
        removed <= spliced_count(count, splices) && spliced_count(count, splices) - removed + added
            > usize::MAX ==> spliced_count(count, splices.push((removed, added))) == usize::MAX,
        removed > spliced_count(count, splices) ==> spliced_count(
            count,
            splices.push((removed, added)),
        ) == added,
{
    assert(splices.push((removed, added)).drop_last() =~= splices);
}

/// A spinner that is stopped shows nothing and waits for nothing, and one that is started shows itself
/// at once.
pub proof fn law_spinners_stop_and_start(spinner: Spinner)
    ensures
        !spinner.stopped().visible && !spinner.stopped().spinning && !spinner.stopped().waiting,
        spinner.stopped().sorting == spinner.sorting,
        spinner.started().visible && spinner.started().spinning,
        spinner.started().waiting == spinner.waiting,
        spinner.started().sorting == spinner.sorting,
{
}

/// A pane opens empty and loading, waits before it shows a spinner, and offers to empty the trash only
/// where it shows the trash itself, and not before something is in it.
pub proof fn law_panes_open_loading(location: LocationView, show_hidden: bool)
    ensures
        ({
            let state = ColumnState::opened(location, show_hidden);
            &&& state.entry_count == 0 && state.page is Loading && state.busy && !state.truncated
            &&& state.spinner.waiting && !state.spinner.visible && !state.spinner.spinning
                && !state.spinner.sorting
            &&& state.empty_trash is Some <==> location.is_trash_root()
            &&& state.empty_trash != Some(true)
            &&& state.show_hidden == show_hidden
            &&& state.attached && !state.syncing && !state.filter_open && !state.searching
                && !state.search_running
            &&& state.search_number == 0 && state.animation == 1 && state.focused_row is None
            &&& state.delayed().spinner.visible && state.delayed().spinner.spinning
                && !state.delayed().spinner.waiting
        }),
{
}

/// The trash can be emptied exactly while entries are counted in it, and only where the pane offers
/// it. Counting changes nothing else.
pub proof fn law_counted_trash_can_be_emptied(state: ColumnState, count: usize)
    ensures
        state.counting(count).entry_count == count,
        state.empty_trash is Some ==> state.counting(count).empty_trash == Some(count != 0),
        state.empty_trash is None ==> state.counting(count).empty_trash is None,
        state.counting(count) == (ColumnState {
            entry_count: count,
            empty_trash: state.counting(count).empty_trash,
            ..state
        }),
{
}

/// Entries that come are counted with those that are there, and shown as soon as there are any,
/// unless a spinner stands in their place. Entries that replace all others count alone.
pub proof fn law_entries_are_shown_as_they_come(state: ColumnState, count: usize)
    ensures
        state.added(count).entry_count == capped_sum(state.entry_count, count),
        !state.added(count).busy,
        count > 0 && !state.spinner.spinning ==> state.added(count).page is Content,
        count == 0 || state.spinner.spinning ==> state.added(count).page == state.page,
        state.added(count) == (ColumnState {
            page: state.added(count).page,
            busy: false,
            ..state.counting(capped_sum(state.entry_count, count))
        }),
        state.replaced(count).entry_count == count,
        count > 0 ==> state.replaced(count).page is Content && !state.replaced(count).busy,
        count == 0 ==> state.replaced(count).page == state.page && state.replaced(count).busy
            == state.busy,
        state.replaced(count) == (ColumnState {
            page: state.replaced(count).page,
            busy: state.replaced(count).busy,
            ..state.counting(count)
        }),
{
}

/// While a pane is sorted it is busy and shows a spinner, and once it is, neither; nothing else
/// changes meanwhile.
pub proof fn law_sorting_is_shown_until_it_ends(state: ColumnState)
    ensures
        state.sorting().busy && state.sorting().spinner.visible && state.sorting().spinner.spinning
            && state.sorting().spinner.sorting,
        !state.sorted().busy && !state.sorted().spinner.visible && !state.sorted().spinner.spinning
            && !state.sorted().spinner.sorting && !state.sorted().spinner.waiting,
        state.sorting() == (ColumnState {
            spinner: state.sorting().spinner,
            busy: true,
            ..state
        }),
        state.sorting().spinner.waiting == state.spinner.waiting,
        state.sorted() == (ColumnState { spinner: state.sorted().spinner, busy: false, ..state }),
        state.sorting().sorted() == state.sorted(),
{
}

/// A pane whose entries changed shows them, or that there are none; either way it is no longer busy.
pub proof fn law_changed_panes_show_what_is_left(state: ColumnState, splices: Seq<(usize, usize)>)
    ensures
        state.spliced(splices).entry_count == spliced_count(state.entry_count, splices),
        state.spliced(splices).page is Empty <==> state.spliced(splices).entry_count == 0,
        state.spliced(splices).page is Content <==> state.spliced(splices).entry_count > 0,
        !state.spliced(splices).busy,
        state.spliced(splices) == (ColumnState {
            page: state.spliced(splices).page,
            busy: false,
            ..state.counting(spliced_count(state.entry_count, splices))
        }),
{
}

/// A pane that is read anew is empty and loading, with a spinner and detached from its rows, and any
/// search in it is over. What was chosen for it stays.
pub proof fn law_reloading_begins_anew(state: ColumnState)
    ensures
        ({
            let after = state.reloaded();
            &&& after.entry_count == 0 && after.page is Loading && after.busy && !after.truncated
            &&& after.spinner.visible && after.spinner.spinning && after.spinner.waiting
                == state.spinner.waiting && after.spinner.sorting == state.spinner.sorting
            &&& !after.attached && after.syncing && !after.search_running
            &&& state.search_number < u64::MAX ==> after.search_number == state.search_number + 1
            &&& after.empty_trash == state.empty_trash && after.show_hidden == state.show_hidden
            &&& after.filter_open == state.filter_open && after.searching == state.searching
            &&& after.animation == state.animation && after.focused_row == state.focused_row
        }),
        state.attached ==> state.reattached() == state,
        !state.attached ==> state.reattached().attached && !state.reattached().syncing
            && state.reattached() == (ColumnState { attached: true, syncing: false, ..state }),
{
}

/// A pane that was read shows its entries, or that there are none, and one that could not be read
/// that; what was counted, and what was chosen for the pane, stays.
pub proof fn law_reading_ends_in_what_was_read(state: ColumnState, truncated: bool)
    ensures
        state.loaded(truncated).entry_count == state.entry_count,
        state.loaded(truncated).truncated == truncated,
        state.loaded(truncated).page is Content <==> state.entry_count > 0,
        state.loaded(truncated).spinner == state.spinner.stopped(),
        state.loaded(truncated) == (ColumnState {
            spinner: state.loaded(truncated).spinner,
            truncated,
            page: state.loaded(truncated).page,
            busy: false,
            ..state.reattached().counting(state.entry_count)
        }),
        state.failed().spinner == state.spinner.stopped(),
        state.failed() == (ColumnState {
            spinner: state.failed().spinner,
            page: Page::Failed,
            busy: false,
            ..state.reattached()
        }),
{
}

/// A pane that is built anew shows what is known of its folder: entries, that there are none or that
/// it could not be read, and while it is read a spinner, with the entries where they are shown early.
pub proof fn law_rebuilt_panes_show_what_is_known(
    state: ColumnState,
    snapshot: ColumnSnapshot,
    has_failed: bool,
)
    ensures
        ({
            let after = state.rebuilt(snapshot, has_failed);
            &&& after.entry_count == snapshot.count && after.truncated == snapshot.truncated
            &&& snapshot.loading ==> {
                &&& after.spinner.visible && after.spinner.spinning && !after.spinner.waiting
                &&& after.page is Content <==> snapshot.count > 0 && snapshot.shows_early
                &&& after.page is Content || after.page is Loading
                &&& after.busy == (state.busy && after.page is Loading)
            }
            &&& !snapshot.loading ==> {
                &&& after.spinner == state.spinner.stopped()
                &&& after.page is Failed <==> has_failed
                &&& !has_failed ==> (after.page is Empty <==> snapshot.count == 0)
                &&& !has_failed ==> (after.page is Content <==> snapshot.count > 0)
                &&& after.busy == state.busy
            }
            &&& after == (ColumnState {
                spinner: after.spinner,
                page: after.page,
                busy: after.busy,
                truncated: snapshot.truncated,
                ..state.counting(snapshot.count)
            })
        }),
{
}

/// A search keeps its number while it runs, and every other gets a new one. Only panes of the local
/// file system are searched, and only for a text that is not blank.
pub proof fn law_searches_are_numbered(state: ColumnState, location: LocationView, text: Seq<char>)
    ensures
        state.searched().searching && state.searched().search_running,
        state.searched().searched() == state.searched(),
        state.search_running ==> state.searched().search_number == state.search_number,
        !state.search_running && state.search_number < u64::MAX ==> state.searched().search_number
            == state.search_number + 1,
        state.searched() == (ColumnState {
            searching: true,
            search_running: true,
            search_number: state.searched().search_number,
            ..state
        }),
        state.listing() == (ColumnState {
            searching: false,
            search_running: false,
            search_number: state.listing().search_number,
            ..state
        }),
        location is Uri ==> !is_searched(location, text),
        location is Native ==> (is_searched(location, text) <==> trimmed(text).len() > 0),
{
}

/// The spinner comes after its while where it is still waited for, and otherwise nothing changes.
pub proof fn law_spinner_comes_where_it_is_waited_for(state: ColumnState)
    ensures
        !state.spinner.waiting ==> state.delayed() == state,
        state.spinner.waiting ==> state.delayed().spinner.visible
            && state.delayed().spinner.spinning && !state.delayed().spinner.waiting
            && state.delayed().spinner.sorting == state.spinner.sorting,
        state.delayed() == (ColumnState { spinner: state.delayed().spinner, ..state }),
        COLUMN_SPINNER_DELAY == 120,
        COLUMN_WIDTH == 300,
{
}

/// An empty pane says that it is empty, and one that could not be read why, as far as it is known; any
/// other says nothing.
pub proof fn law_panes_say_why_they_show_nothing(column: Column)
    ensures
        column.told() is Some <==> column.state.page is Empty || column.state.page is Failed,
        column.state.page is Empty ==> column.told() == Some("This directory is empty"@),
        column.state.page is Failed && column.failure is None ==> column.told() == Some(
            "Unable to read this directory\n"@,
        ),
        column.state.page is Failed && column.failure is Some ==> column.told() == Some(
            "Unable to read this directory\n"@ + column.failure->0@,
        ),
{
    assert("Unable to read this directory\n"@ + Seq::<char>::empty()
        =~= "Unable to read this directory\n"@);
}

} // verus!
