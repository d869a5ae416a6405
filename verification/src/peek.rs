//! The peek into a folder that the pointer rests on.

use crate::columns::Page;
use crate::entry::{BrowserMode, FileEntry};
use crate::location::Location;
use vstd::prelude::*;

verus! {

/// How a peek behaves; times are in milliseconds.
#[derive(Clone, Copy, Debug, PartialEq, Eq, Structural)]
pub struct PeekBehavior {
    pub open_delay: u64,
    pub close_delay: u64,
    pub fade_duration: u64,
    pub item_limit: usize,
}

impl Default for PeekBehavior {
    /// How a peek behaves unless told otherwise.
    fn default() -> (result: Self)
        ensures
            result == (PeekBehavior {
                open_delay: 180,
                close_delay: 80,
                fade_duration: 150,
                item_limit: 8,
            }),
    {
        PeekBehavior { open_delay: 180, close_delay: 80, fade_duration: 150, item_limit: 8 }
    }
}

/// What a peek is placed beside.
#[derive(Clone, Copy, Debug, PartialEq, Eq, Structural)]
pub enum PeekOriginBounds {
    /// The row that the pointer rests on.
    Anchor,
    /// The pane of that row.
    Column,
}

/// What a peek is placed beside.
pub fn peek_origin_bounds(mode: BrowserMode) -> (result: PeekOriginBounds)
    ensures
        result == match mode {
            BrowserMode::Columns => PeekOriginBounds::Column,
            BrowserMode::Icons | BrowserMode::List => PeekOriginBounds::Anchor,
        },
{
    match mode {
        BrowserMode::Columns => PeekOriginBounds::Column,
        BrowserMode::Icons | BrowserMode::List => PeekOriginBounds::Anchor,
    }
}

/// A peek on the screen.
#[derive(Debug)]
pub struct ShownPeek {
    pub location: Location,
    pub entries: Vec<FileEntry>,
    pub page: Page,
    pub spinning: bool,
}

/// The peek, and what it waits for.
#[derive(Debug)]
pub struct Peek {
    pub enabled: bool,
    pub item_limit: usize,
    /// The pane from which a peek is to open.
    pub anchor: Option<usize>,
    /// The folder into which a peek opens once the pointer has rested, and its pane.
    pub pending_open: Option<(usize, Location)>,
    pub pending_close: bool,
    pub shown: Option<ShownPeek>,
}

/// What resting on a folder leads to.
#[derive(Clone, Copy, Debug, PartialEq, Eq, Structural)]
pub enum PeekStep {
    Nothing,
    /// End the peek that is under way.
    Close,
    /// Wait before a peek opens.
    Wait,
}

/// How many entries a peek shows at most.
pub open spec fn peek_limit(item_limit: usize) -> nat {
    if item_limit > 1 {
        item_limit as nat
    } else {
        1
    }
}

/// The entries of a peek once more of them came.
pub open spec fn peeked(entries: Seq<FileEntry>, more: Seq<FileEntry>, item_limit: usize) -> Seq<
    FileEntry,
> {
    let limit = peek_limit(item_limit);
    let room = if entries.len() < limit {
        limit - entries.len()
    } else {
        0
    };
    entries + if more.len() <= room {
        more
    } else {
        more.take(room as int)
    }
}

impl ShownPeek {
    /// Not more entries than there is room for.
    pub open spec fn fits(&self, item_limit: usize) -> bool {
        self.entries@.len() <= peek_limit(item_limit)
    }
}

impl Peek {
    /// Not more entries than there is room for.
    pub open spec fn well_formed(&self) -> bool {
        self.shown matches Some(shown) ==> shown.fits(self.item_limit)
    }

    /// The peek once nothing is peeked into, nor waits to be.
    pub open spec fn dropped(self) -> Peek {
        Peek { anchor: None, pending_open: None, pending_close: false, shown: None, ..self }
    }

    /// What else is set stays.
    pub open spec fn same_settings(&self, other: &Peek) -> bool {
        self.enabled == other.enabled && self.item_limit == other.item_limit
    }

    /// No peek.
    pub fn new(behavior: PeekBehavior) -> (result: Self)
        ensures
            result == (Peek {
                enabled: true,
                item_limit: behavior.item_limit,
                anchor: None,
                pending_open: None,
                pending_close: false,
                shown: None,
            }),
            result.well_formed(),
    {
        Peek {
            enabled: true,
            item_limit: behavior.item_limit,
            anchor: None,
            pending_open: None,
            pending_close: false,
            shown: None,
        }
    }

    /// Whether a peek into the folder is on the screen.
    pub open spec fn shows(&self, location: Location) -> bool {
        self.shown matches Some(shown) && shown.location@.place() == location@.place()
    }

    /// Takes that the pointer rests on a folder. `by_keyboard` is whether the keyboard navigates;
    /// `is_open` is whether the folder is open in the next pane already.
    pub fn schedule(
        &mut self,
        origin_depth: usize,
        location: Location,
        by_keyboard: bool,
        is_open: bool,
    ) -> (result: PeekStep)
        ensures
            final(self).same_settings(old(self)),
            final(self).shown == old(self).shown,
            !old(self).enabled || by_keyboard ==> result is Nothing && *final(self) == *old(self),
            old(self).enabled && !by_keyboard ==> {
                let shows = old(self).shows(location);
                &&& !final(self).pending_close
                &&& result == if is_open {
                    PeekStep::Close
                } else if shows {
                    PeekStep::Nothing
                } else {
                    PeekStep::Wait
                }
                &&& final(self).anchor == if is_open {
                    None
                } else if shows {
                    old(self).anchor
                } else {
                    Some(origin_depth)
                }
                &&& final(self).pending_open == if is_open || shows {
                    None
                } else {
                    Some((origin_depth, location))
                }
            },
    {
        if !self.enabled || by_keyboard {
            return PeekStep::Nothing;
        }
        self.pending_open = None;
        self.pending_close = false;
        if is_open {
            self.anchor = None;
            return PeekStep::Close;
        }
        let shows: bool = match &self.shown {
            Some(shown) => shown.location.same_as(&location),
            None => false,
        };
        if shows {
            return PeekStep::Nothing;
        }
        self.anchor = Some(origin_depth);
        self.pending_open = Some((origin_depth, location));
        PeekStep::Wait
    }

    /// Takes that the pointer has rested long enough. Gives the folder to peek into.
    pub fn open_delay_passed(&mut self) -> (result: Option<(usize, Location)>)
        ensures
            result == old(self).pending_open,
            *final(self) == (Peek { pending_open: None, ..*old(self) }),
    {
        self.pending_open.take()
    }

    /// Takes that the pointer left the folder or the peek, which then closes after a while.
    pub fn schedule_close(&mut self)
        ensures
            *final(self) == (Peek { pending_open: None, pending_close: true, ..*old(self) }),
    {
        self.pending_open = None;
        self.pending_close = true;
    }

    /// Takes that the while is over. Gives whether the peek is to end.
    pub fn close_delay_passed(&mut self) -> (result: bool)
        ensures
            result == old(self).pending_close,
            *final(self) == (Peek { pending_close: false, ..*old(self) }),
    {
        let closes: bool = self.pending_close;
        self.pending_close = false;
        closes
    }

    /// Takes that the pointer entered the peek, which then stays.
    pub fn entered(&mut self)
        ensures
            *final(self) == (Peek { pending_close: false, ..*old(self) }),
    {
        self.pending_close = false;
    }

    /// Takes that the pointer entered the row of a file, on which there is nothing to peek into.
    pub fn cancel_open(&mut self)
        ensures
            *final(self) == (Peek { pending_open: None, ..*old(self) }),
    {
        self.pending_open = None;
    }

    /// Takes the peek off the screen.
    pub fn close_visual(&mut self)
        ensures
            *final(self) == (Peek {
                pending_open: None,
                pending_close: false,
                shown: None,
                ..*old(self)
            }),
    {
        self.pending_open = None;
        self.pending_close = false;
        self.shown = None;
    }

    /// Allows or forbids peeks. Gives whether the one under way is to end.
    pub fn set_enabled(&mut self, enabled: bool) -> (result: bool)
        ensures
            result == !enabled,
            *final(self) == (Peek {
                enabled,
                pending_open: if enabled {
                    old(self).pending_open
                } else {
                    None
                },
                ..*old(self)
            }),
    {
        self.enabled = enabled;
        if !enabled {
            self.pending_open = None;
        }
        !enabled
    }

    /// Takes that a folder begins to load for a peek. `has_room` is whether there is a place for the
    /// peek beside what it opens from. Gives whether it goes on; otherwise it is to end.
    pub fn append(&mut self, location: Location, has_room: bool) -> (result: bool)
        ensures
            final(self).well_formed(),
            final(self).same_settings(old(self)),
            result == (old(self).anchor is Some && has_room),
            final(self).anchor is None,
            final(self).pending_open is None,
            !final(self).pending_close,
            final(self).shown is Some <==> result,
            final(self).shown matches Some(shown) ==> shown.location == location
                && shown.entries@.len() == 0 && shown.page is Loading && shown.spinning,
    {
        let anchor: Option<usize> = self.anchor.take();
        self.close_visual();
        if anchor.is_none() || !has_room {
            return false;
        }
        self.shown = Some(
            ShownPeek { location, entries: Vec::new(), page: Page::Loading, spinning: true },
        );
        true
    }

    /// Takes that entries of the folder came, of which the peek shows the first few.
    pub fn entries_added(&mut self, entries: Vec<FileEntry>)
        requires
            old(self).well_formed(),
        ensures
            final(self).well_formed(),
            final(self).same_settings(old(self)),
            final(self).anchor == old(self).anchor,
            final(self).pending_open == old(self).pending_open,
            final(self).pending_close == old(self).pending_close,
            match (old(self).shown, final(self).shown) {
                (Some(before), Some(after)) => {
                    &&& after.location == before.location
                    &&& after.spinning == before.spinning
                    &&& after.page == if entries@.len() > 0 {
                        Page::Content
                    } else {
                        before.page
                    }
                    &&& after.entries@ == peeked(before.entries@, entries@, old(self).item_limit)
                },
                (None, None) => true,
                _ => false,
            },
    {
        match self.shown.take() {
            Some(shown) => {
                let limit: usize = if self.item_limit > 1 {
                    self.item_limit
                } else {
                    1
                };
                let ShownPeek { location, entries: mut kept, page, spinning } = shown;
                let ghost before = kept@;
                let ghost whole = entries@;
                let has_entries: bool = entries.len() > 0;
                let room: usize = limit - kept.len();
                let mut taken: usize = 0;
                for entry in it: entries
                    invariant
                        it.seq() == whole,
                        taken <= room,
                        taken <= it.index(),
                        taken == it.index() || taken == room,
                        before.len() + room == limit,
                        kept@ == before + whole.take(taken as int),
                {
                    if taken < room {
                        assert(whole.take(taken + 1) == whole.take(taken as int).push(
                            whole[taken as int],
                        ));
                        kept.push(entry);
                        taken = taken + 1;
                    }
                }
                assert(whole.len() <= room ==> whole.take(taken as int) == whole);
                self.shown = Some(
                    ShownPeek {
                        location,
                        entries: kept,
                        page: if has_entries {
                            Page::Content
                        } else {
                            page
                        },
                        spinning,
                    },
                );
            },
            None => {},
        }
    }

    /// Takes that the folder was read.
    pub fn finished(&mut self)
        requires
            old(self).well_formed(),
        ensures
            final(self).well_formed(),
            *final(self) == (Peek {
                shown: match old(self).shown {
                    Some(shown) => Some(
                        ShownPeek {
                            spinning: false,
                            page: if shown.entries@.len() == 0 {
                                Page::Empty
                            } else {
                                Page::Content
                            },
                            ..shown
                        },
                    ),
                    None => None,
                },
                ..*old(self)
            }),
    {
        match self.shown.take() {
            Some(shown) => {
                let page: Page = if shown.entries.len() == 0 {
                    Page::Empty
                } else {
                    Page::Content
                };
                self.shown = Some(ShownPeek { page, spinning: false, ..shown });
            },
            None => {},
        }
    }

    /// Takes that the folder could not be read.
    pub fn failed(&mut self)
        requires
            old(self).well_formed(),
        ensures
            final(self).well_formed(),
            *final(self) == (Peek {
                shown: match old(self).shown {
                    Some(shown) => Some(
                        ShownPeek { spinning: false, page: Page::Failed, ..shown },
                    ),
                    None => None,
                },
                ..*old(self)
            }),
    {
        match self.shown.take() {
            Some(shown) => {
                self.shown = Some(ShownPeek { page: Page::Failed, spinning: false, ..shown });
            },
            None => {},
        }
    }
}

/// A peek shows the first entries of its folder, however they come: in pieces or at once.
pub proof fn law_peek_shows_the_first_entries(
    entries: Seq<FileEntry>,
    first: Seq<FileEntry>,
    second: Seq<FileEntry>,
    item_limit: usize,
)
    requires
        entries.len() <= peek_limit(item_limit),
    ensures
        peeked(peeked(entries, first, item_limit), second, item_limit) == peeked(
            entries,
            first + second,
            item_limit,
        ),
        peeked(entries, first, item_limit).len() <= peek_limit(item_limit),
        peeked(entries, first, item_limit).is_prefix_of(entries + first),
{
    assert(peeked(peeked(entries, first, item_limit), second, item_limit) =~= peeked(
        entries,
        first + second,
        item_limit,
    ));
    assert((entries + first).take(peeked(entries, first, item_limit).len() as int) =~= peeked(
        entries,
        first,
        item_limit,
    ));
}

/// A peek shows as many entries as it may, and at least one: those that came first, in their order.
pub proof fn law_peek_holds_as_many_as_fit(
    entries: Seq<FileEntry>,
    more: Seq<FileEntry>,
    item_limit: usize,
    i: int,
)
    requires
        entries.len() <= peek_limit(item_limit),
    ensures
        item_limit >= 1 ==> peek_limit(item_limit) == item_limit,
        peek_limit(0) == 1,
        peeked(entries, more, item_limit).len() == if entries.len() + more.len() <= peek_limit(
            item_limit,
        ) {
            entries.len() + more.len()
        } else {
            peek_limit(item_limit)
        },
        0 <= i < peeked(entries, more, item_limit).len() ==> peeked(entries, more, item_limit)[i]
            == (entries + more)[i],
{
}

/// A peek that is given up leaves nothing waiting or shown, and its settings as they are.
pub proof fn law_dropped_peeks_leave_nothing(peek: Peek, other: Peek, location: Location)
    ensures
        peek.dropped().anchor is None && peek.dropped().pending_open is None
            && !peek.dropped().pending_close && peek.dropped().shown is None,
        peek.dropped().enabled == peek.enabled && peek.dropped().item_limit == peek.item_limit,
        peek.same_settings(&other) <==> peek.enabled == other.enabled && peek.item_limit
            == other.item_limit,
        peek.shown is None ==> !peek.shows(location),
        peek.shown is Some ==> (peek.shows(location) <==> peek.shown->0.location@.place()
            == location@.place()),
        peek.well_formed() && peek.shown is Some ==> peek.shown->0.entries@.len() <= peek_limit(
            peek.item_limit,
        ),
{
}

/// A peek that is full takes nothing more.
pub proof fn law_full_peeks_stay(entries: Seq<FileEntry>, more: Seq<FileEntry>, item_limit: usize)
    requires
        entries.len() >= peek_limit(item_limit),
    ensures
        peeked(entries, more, item_limit) == entries,
{
    assert(peeked(entries, more, item_limit) =~= entries);
}

} // verus!
