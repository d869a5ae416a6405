//! The trash: measuring it within a budget, emptying it, and deleting for good.

use crate::entry::{
    entry_kind_summary, item_count_label, items_label, FileEntry, MetadataValue,
};
use crate::input::{home_row_direction, vim_focus_direction, Direction, Key, Modifiers};
use crate::text::{concat_text, count_text, decimal, views};
use vstd::prelude::*;

verus! {

/// How many entries of the trash are measured at most.
pub const MAX_TRASH_ENTRIES: usize = 200_000;

/// How deep the trash is measured at most.
pub const MAX_TRASH_DEPTH: usize = 64;

/// What an entry of the trash is, as far as measuring it goes.
#[derive(Clone, Copy, Debug, PartialEq, Eq, Structural)]
pub enum TrashEntryKind {
    Regular,
    Directory,
    Other,
}

/// An entry of the trash, as far as measuring it goes.
#[derive(Clone, Copy, Debug, PartialEq, Eq, Structural)]
pub struct TrashEntry {
    pub kind: TrashEntryKind,
    pub is_symlink: bool,
    pub size: i64,
}

/// What was measured so far of one directory.
#[derive(Clone, Copy, Debug, PartialEq, Eq, Structural)]
pub struct Measured {
    pub count: usize,
    pub size: u64,
    pub truncated: bool,
}

/// What a walk through the trash does next.
#[derive(Clone, Copy, Debug, PartialEq, Eq, Structural)]
pub enum WalkStep {
    /// Go on in the directory being listed.
    Next,
    /// List the directory just offered.
    Open,
    /// Leave the directory being listed, and go on in the one above.
    Close,
    /// The walk is over.
    Finished,
}

/// A walk through the trash: how many entries it saw, and what it measured of the directories it is
/// in, the trash itself first.
#[derive(Debug)]
pub struct TrashWalk {
    pub visited: usize,
    pub open: Vec<Measured>,
    pub max_entries: usize,
    pub max_depth: usize,
}

/// The state of a walk, over sequences.
pub struct WalkView {
    pub visited: usize,
    pub open: Seq<Measured>,
    pub max_entries: usize,
    pub max_depth: usize,
}

impl View for TrashWalk {
    type V = WalkView;

    open spec fn view(&self) -> WalkView {
        WalkView {
            visited: self.visited,
            open: self.open@,
            max_entries: self.max_entries,
            max_depth: self.max_depth,
        }
    }
}

/// The sum of two counts, or the largest count where it is too large.
pub open spec fn capped_count(left: usize, right: usize) -> usize {
    if left + right > usize::MAX {
        usize::MAX
    } else {
        (left + right) as usize
    }
}

/// The sum of two sizes, or the largest size where it is too large.
pub open spec fn capped_size(left: u64, right: u64) -> u64 {
    if left + right > u64::MAX {
        u64::MAX
    } else {
        (left + right) as u64
    }
}

/// The bytes that an entry takes by itself: those of a regular file.
pub open spec fn own_size(entry: TrashEntry) -> u64 {
    if entry.kind is Regular && entry.size > 0 {
        entry.size as u64
    } else {
        0
    }
}

/// What was measured, with one more part of it.
pub open spec fn with_part(whole: Measured, part: Measured) -> Measured {
    Measured {
        count: capped_count(whole.count, part.count),
        size: capped_size(whole.size, part.size),
        truncated: whole.truncated || part.truncated,
    }
}

impl WalkView {
    /// Whether the walk is in the trash and has not seen more than it may.
    pub open spec fn is_valid(self) -> bool {
        self.open.len() > 0 && self.visited <= self.max_entries
    }

    /// Whether the walk must not look at another entry.
    pub open spec fn is_spent(self, late: bool) -> bool {
        self.visited >= self.max_entries || late
    }

    /// The walk with what was measured of the directory being listed replaced.
    pub open spec fn with_top(self, top: Measured) -> WalkView {
        WalkView { open: self.open.update(self.open.len() - 1, top), ..self }
    }

    /// The walk once it left the directory being listed, which then counts for the one above.
    pub open spec fn left(self) -> WalkView {
        if self.open.len() == 1 {
            self
        } else {
            let inner = self.open.last();
            let outer = WalkView { open: self.open.drop_last(), ..self };
            outer.with_top(
                with_part(
                    outer.open.last(),
                    Measured {
                        count: capped_count(1, inner.count),
                        size: inner.size,
                        truncated: inner.truncated,
                    },
                ),
            )
        }
    }

    /// What follows once the walk left a directory.
    pub open spec fn leave_step(self) -> WalkStep {
        if self.open.len() == 1 {
            WalkStep::Finished
        } else {
            WalkStep::Close
        }
    }

    /// The walk with the directory being listed marked as not wholly measured.
    pub open spec fn cut_short(self) -> WalkView {
        self.with_top(Measured { truncated: true, ..self.open.last() })
    }

    /// Whether a directory just seen is listed: not too deep, with budget left.
    pub open spec fn may_open(self, late: bool) -> bool {
        self.open.len() - 1 < self.max_depth && self.visited + 1 < self.max_entries && !late
    }

    /// The walk once an entry of the directory being listed was offered. `late` tells whether the
    /// time was up at the entry, `late_inside` whether it was up on looking into it.
    pub open spec fn offered(self, entry: TrashEntry, late: bool, late_inside: bool) -> WalkView {
        if self.is_spent(late) {
            self.cut_short().left()
        } else {
            let seen = WalkView { visited: (self.visited + 1) as usize, ..self };
            let enters = entry.kind is Directory && !entry.is_symlink;
            if enters && self.may_open(late_inside) {
                WalkView {
                    open: seen.open.push(
                        Measured { count: 0, size: own_size(entry), truncated: false },
                    ),
                    ..seen
                }
            } else {
                seen.with_top(
                    with_part(
                        self.open.last(),
                        Measured { count: 1, size: own_size(entry), truncated: enters },
                    ),
                )
            }
        }
    }

    /// What follows once an entry was offered.
    pub open spec fn offer_step(self, entry: TrashEntry, late: bool, late_inside: bool) -> WalkStep {
        if self.is_spent(late) {
            self.leave_step()
        } else if entry.kind is Directory && !entry.is_symlink && self.may_open(late_inside) {
            WalkStep::Open
        } else {
            WalkStep::Next
        }
    }

    /// The walk once it went through a batch of entries.
    pub open spec fn batch_over(self, late: bool) -> WalkView {
        if self.is_spent(late) {
            self.cut_short().left()
        } else {
            self
        }
    }

    /// The walk once the directory being listed could not be listed: what was measured of it does
    /// not count, only the directory does.
    pub open spec fn failed(self) -> WalkView {
        let outer = WalkView { open: self.open.drop_last(), ..self };
        outer.with_top(
            with_part(outer.open.last(), Measured { count: 1, size: 0, truncated: true }),
        )
    }
}

fn add_counts(left: usize, right: usize) -> (result: usize)
    ensures
        result == capped_count(left, right),
{
    if right > usize::MAX - left {
        usize::MAX
    } else {
        left + right
    }
}

fn add_sizes(left: u64, right: u64) -> (result: u64)
    ensures
        result == capped_size(left, right),
{
    if right > u64::MAX - left {
        u64::MAX
    } else {
        left + right
    }
}

fn add_part(whole: Measured, part: Measured) -> (result: Measured)
    ensures
        result == with_part(whole, part),
{
    Measured {
        count: add_counts(whole.count, part.count),
        size: add_sizes(whole.size, part.size),
        truncated: whole.truncated || part.truncated,
    }
}

/// What a walk through the trash measured. Where it did not see all of it, count and size are at
/// least these.
#[derive(Clone, Copy, Debug, PartialEq, Eq, Structural)]
pub struct TrashSummary {
    pub item_count: usize,
    pub total_size: u64,
    pub truncated: bool,
}

impl TrashWalk {
    /// A walk that begins, within the usual budget.
    pub fn begin() -> (result: Self)
        ensures
            result@ == begun(MAX_TRASH_ENTRIES, MAX_TRASH_DEPTH),
    {
        TrashWalk::begin_with_budget(MAX_TRASH_ENTRIES, MAX_TRASH_DEPTH)
    }

    /// A walk that begins, within the given budget.
    pub fn begin_with_budget(max_entries: usize, max_depth: usize) -> (result: Self)
        ensures
            result@ == begun(max_entries, max_depth),
            result@.is_valid(),
    {
        let mut open: Vec<Measured> = Vec::new();
        open.push(Measured { count: 0, size: 0, truncated: false });
        let result: TrashWalk = TrashWalk { visited: 0, open, max_entries, max_depth };
        assert(result@.open == begun(max_entries, max_depth).open);
        result
    }

    fn set_top(&mut self, top: Measured)
        requires
            old(self)@.is_valid(),
        ensures
            final(self)@ == old(self)@.with_top(top),
    {
        let last: usize = self.open.len() - 1;
        self.open.set(last, top);
    }

    fn top(&self) -> (result: Measured)
        requires
            self@.is_valid(),
        ensures
            result == self@.open.last(),
    {
        self.open[self.open.len() - 1]
    }

    /// Leaves the directory being listed.
    fn leave(&mut self) -> (result: WalkStep)
        requires
            old(self)@.is_valid(),
        ensures
            final(self)@ == old(self)@.left(),
            final(self)@.is_valid(),
            result == old(self)@.leave_step(),
    {
        if self.open.len() == 1 {
            return WalkStep::Finished;
        }
        let inner: Measured = self.top();
        let _ = self.open.pop();
        let outer: Measured = self.top();
        self.set_top(
            add_part(
                outer,
                Measured {
                    count: add_counts(1, inner.count),
                    size: inner.size,
                    truncated: inner.truncated,
                },
            ),
        );
        WalkStep::Close
    }

    fn cut_short(&mut self)
        requires
            old(self)@.is_valid(),
        ensures
            final(self)@ == old(self)@.cut_short(),
            final(self)@.is_valid(),
    {
        let top: Measured = self.top();
        self.set_top(Measured { count: top.count, size: top.size, truncated: true });
    }

    /// Takes an entry of the directory being listed. `late` tells whether the time is up, and
    /// `late_inside` whether it is up before looking into the entry.
    pub fn offer(&mut self, entry: TrashEntry, late: bool, late_inside: bool) -> (result: WalkStep)
        requires
            old(self)@.is_valid(),
        ensures
            final(self)@ == old(self)@.offered(entry, late, late_inside),
            final(self)@.is_valid(),
            result == old(self)@.offer_step(entry, late, late_inside),
    {
        if self.visited >= self.max_entries || late {
            self.cut_short();
            return self.leave();
        }
        let depth: usize = self.open.len() - 1;
        self.visited = self.visited + 1;
        let size: u64 = if entry.kind == TrashEntryKind::Regular && entry.size > 0 {
            entry.size as u64
        } else {
            0
        };
        let enters: bool = entry.kind == TrashEntryKind::Directory && !entry.is_symlink;
        if enters && depth < self.max_depth && self.visited < self.max_entries && !late_inside {
            self.open.push(Measured { count: 0, size, truncated: false });
            WalkStep::Open
        } else {
            let top: Measured = self.top();
            self.set_top(add_part(top, Measured { count: 1, size, truncated: enters }));
            WalkStep::Next
        }
    }

    /// Takes the end of a batch of entries: the walk goes on in the directory as long as the budget
    /// lasts.
    pub fn batch_ended(&mut self, late: bool) -> (result: WalkStep)
        requires
            old(self)@.is_valid(),
        ensures
            final(self)@ == old(self)@.batch_over(late),
            final(self)@.is_valid(),
            result == if old(self)@.is_spent(late) {
                old(self)@.leave_step()
            } else {
                WalkStep::Next
            },
    {
        if self.visited >= self.max_entries || late {
            self.cut_short();
            self.leave()
        } else {
            WalkStep::Next
        }
    }

    /// Takes the end of the directory being listed.
    pub fn directory_ended(&mut self) -> (result: WalkStep)
        requires
            old(self)@.is_valid(),
        ensures
            final(self)@ == old(self)@.left(),
            final(self)@.is_valid(),
            result == old(self)@.leave_step(),
    {
        self.leave()
    }

    /// Takes that the directory being listed cannot be. Below the trash it only spoils what is
    /// known of that directory; the trash itself cannot be measured then.
    pub fn directory_failed(&mut self) -> (result: Option<WalkStep>)
        requires
            old(self)@.is_valid(),
        ensures
            final(self)@.is_valid(),
            old(self)@.open.len() == 1 ==> result is None && final(self)@ == old(self)@,
            old(self)@.open.len() > 1 ==> result == Some(WalkStep::Close) && final(self)@ == old(
                self,
            )@.failed(),
    {
        if self.open.len() == 1 {
            return None;
        }
        let _ = self.open.pop();
        let outer: Measured = self.top();
        self.set_top(add_part(outer, Measured { count: 1, size: 0, truncated: true }));
        Some(WalkStep::Close)
    }

    /// What the walk measured of the trash.
    pub fn summary(&self) -> (result: TrashSummary)
        requires
            self@.is_valid(),
        ensures
            result == summary_of(self@),
    {
        let whole: Measured = self.open[0];
        TrashSummary {
            item_count: whole.count,
            total_size: whole.size,
            truncated: whole.truncated,
        }
    }
}

/// A walk that begins.
pub open spec fn begun(max_entries: usize, max_depth: usize) -> WalkView {
    WalkView {
        visited: 0,
        open: seq![Measured { count: 0, size: 0, truncated: false }],
        max_entries,
        max_depth,
    }
}

/// What a walk measured of the trash.
pub open spec fn summary_of(walk: WalkView) -> TrashSummary {
    TrashSummary {
        item_count: walk.open[0].count,
        total_size: walk.open[0].size,
        truncated: walk.open[0].truncated,
    }
}

/// What lies in the trash.
pub enum TrashTree {
    File { size: i64 },
    Folder { children: Seq<TrashTree> },
}

/// Something that a walk comes across.
pub enum WalkEvent {
    Entry(TrashEntry),
    BatchOver,
    FolderOver,
}

/// The walk after an event that came in time.
pub open spec fn after_event(walk: WalkView, event: WalkEvent) -> WalkView {
    match event {
        WalkEvent::Entry(entry) => walk.offered(entry, false, false),
        WalkEvent::BatchOver => walk.batch_over(false),
        WalkEvent::FolderOver => walk.left(),
    }
}

/// The walk after events that came in time.
pub open spec fn after_events(walk: WalkView, events: Seq<WalkEvent>) -> WalkView
    decreases events.len(),
{
    if events.len() == 0 {
        walk
    } else {
        after_event(after_events(walk, events.drop_last()), events.last())
    }
}

/// How many things there are.
pub open spec fn tree_count(tree: TrashTree) -> nat
    decreases tree,
{
    match tree {
        TrashTree::File { .. } => 1,
        TrashTree::Folder { children } => 1 + forest_count(children),
    }
}

/// How many things there are.
pub open spec fn forest_count(trees: Seq<TrashTree>) -> nat
    decreases trees,
{
    if trees.len() == 0 {
        0
    } else {
        forest_count(trees.drop_last()) + tree_count(trees.last())
    }
}

/// How many bytes there are.
pub open spec fn tree_size(tree: TrashTree) -> nat
    decreases tree,
{
    match tree {
        TrashTree::File { size } => if size > 0 {
            size as nat
        } else {
            0
        },
        TrashTree::Folder { children } => forest_size(children),
    }
}

/// How many bytes there are.
pub open spec fn forest_size(trees: Seq<TrashTree>) -> nat
    decreases trees,
{
    if trees.len() == 0 {
        0
    } else {
        forest_size(trees.drop_last()) + tree_size(trees.last())
    }
}

/// How many folders lie inside each other at most.
pub open spec fn tree_height(tree: TrashTree) -> nat
    decreases tree,
{
    match tree {
        TrashTree::File { .. } => 0,
        TrashTree::Folder { children } => 1 + forest_height(children),
    }
}

/// How many folders lie inside each other at most.
pub open spec fn forest_height(trees: Seq<TrashTree>) -> nat
    decreases trees,
{
    if trees.len() == 0 {
        0
    } else {
        let before = forest_height(trees.drop_last());
        let last = tree_height(trees.last());
        if before < last {
            last
        } else {
            before
        }
    }
}

/// What a walk comes across, folder by folder.
pub open spec fn tree_events(tree: TrashTree) -> Seq<WalkEvent>
    decreases tree,
{
    match tree {
        TrashTree::File { size } => seq![
            WalkEvent::Entry(
                TrashEntry { kind: TrashEntryKind::Regular, is_symlink: false, size },
            ),
        ],
        TrashTree::Folder { children } => seq![
            WalkEvent::Entry(
                TrashEntry { kind: TrashEntryKind::Directory, is_symlink: false, size: 0 },
            ),
        ] + forest_events(children) + seq![WalkEvent::BatchOver, WalkEvent::FolderOver],
    }
}

/// What a walk comes across, thing by thing.
pub open spec fn forest_events(trees: Seq<TrashTree>) -> Seq<WalkEvent>
    decreases trees,
{
    if trees.len() == 0 {
        Seq::empty()
    } else {
        forest_events(trees.drop_last()) + tree_events(trees.last())
    }
}

proof fn lemma_events_add(walk: WalkView, first: Seq<WalkEvent>, second: Seq<WalkEvent>)
    ensures
        after_events(walk, first + second) == after_events(after_events(walk, first), second),
    decreases second.len(),
{
    if second.len() == 0 {
        assert(first + second == first);
    } else {
        lemma_events_add(walk, first, second.drop_last());
        assert((first + second).drop_last() == first + second.drop_last());
        assert((first + second).last() == second.last());
    }
}

/// The walk with so much more seen and measured in the directory being listed.
pub open spec fn grown(walk: WalkView, count: nat, size: nat) -> WalkView {
    let top = walk.open.last();
    WalkView {
        visited: (walk.visited + count) as usize,
        open: walk.open.update(
            walk.open.len() - 1,
            Measured {
                count: (top.count + count) as usize,
                size: (top.size + size) as u64,
                truncated: top.truncated,
            },
        ),
        ..walk
    }
}

/// Whether the budget of a walk and the numbers hold so many things of such a height.
pub open spec fn has_room(walk: WalkView, count: nat, size: nat, height: nat) -> bool {
    &&& walk.is_valid()
    &&& walk.visited + count < walk.max_entries
    &&& walk.open.len() - 1 + height <= walk.max_depth
    &&& walk.open.last().count + count <= usize::MAX
    &&& walk.open.last().size + size <= u64::MAX
}

proof fn lemma_walk_tree(walk: WalkView, tree: TrashTree)
    requires
        has_room(walk, tree_count(tree), tree_size(tree), tree_height(tree)),
    ensures
        after_events(walk, tree_events(tree)) == grown(walk, tree_count(tree), tree_size(tree)),
    decreases tree,
{
    match tree {
        TrashTree::File { size } => {
            let entry = TrashEntry { kind: TrashEntryKind::Regular, is_symlink: false, size };
            let events = tree_events(tree);
            assert(events.drop_last() == Seq::<WalkEvent>::empty());
            assert(after_events(walk, events.drop_last()) == walk);
            assert(after_events(walk, events) == walk.offered(entry, false, false));
            let result = walk.offered(entry, false, false);
            let wanted = grown(walk, 1, tree_size(tree));
            assert(result.open == wanted.open);
        },
        TrashTree::Folder { children } => {
            let entry = TrashEntry { kind: TrashEntryKind::Directory, is_symlink: false, size: 0 };
            let head = seq![WalkEvent::Entry(entry)];
            let inner = forest_events(children);
            let tail = seq![WalkEvent::BatchOver, WalkEvent::FolderOver];
            assert(head.drop_last() == Seq::<WalkEvent>::empty());
            let opened = walk.offered(entry, false, false);
            assert(after_events(walk, head) == opened) by {
                assert(after_events(walk, head.drop_last()) == walk);
            }
            assert(opened.open.last() == Measured { count: 0, size: 0, truncated: false });
            assert(opened.open.drop_last() == walk.open);
            lemma_walk_forest(opened, children);
            let measured = grown(opened, forest_count(children), forest_size(children));
            lemma_events_add(walk, head + inner, tail);
            lemma_events_add(walk, head, inner);
            assert(after_events(walk, head + inner) == measured);
            assert(tail.drop_last() == seq![WalkEvent::BatchOver]);
            assert(tail.drop_last().drop_last() == Seq::<WalkEvent>::empty());
            assert(after_events(measured, tail.drop_last().drop_last()) == measured);
            assert(after_events(measured, tail.drop_last()) == measured.batch_over(false));
            assert(measured.batch_over(false) == measured);
            assert(after_events(measured, tail) == measured.left());
            assert(measured.open.drop_last() == walk.open);
            let result = measured.left();
            let wanted = grown(walk, tree_count(tree), tree_size(tree));
            assert(result.open == wanted.open);
        },
    }
}

proof fn lemma_walk_forest(walk: WalkView, trees: Seq<TrashTree>)
    requires
        has_room(walk, forest_count(trees), forest_size(trees), forest_height(trees)),
    ensures
        after_events(walk, forest_events(trees)) == grown(
            walk,
            forest_count(trees),
            forest_size(trees),
        ),
    decreases trees,
{
    if trees.len() == 0 {
        assert(grown(walk, 0, 0).open == walk.open);
    } else {
        let front = trees.drop_last();
        lemma_walk_forest(walk, front);
        let middle = grown(walk, forest_count(front), forest_size(front));
        lemma_walk_tree(middle, trees.last());
        lemma_events_add(walk, forest_events(front), tree_events(trees.last()));
        assert(grown(middle, tree_count(trees.last()), tree_size(trees.last())).open == grown(
            walk,
            forest_count(trees),
            forest_size(trees),
        ).open);
    }
}

/// A walk that comes across everything in time and within its budget measures the trash exactly:
/// every thing and every byte, with nothing left out.
pub proof fn law_complete_walk_is_exact(
    trees: Seq<TrashTree>,
    max_entries: usize,
    max_depth: usize,
)
    requires
        forest_count(trees) < max_entries,
        forest_height(trees) <= max_depth,
        forest_size(trees) <= u64::MAX,
    ensures
        summary_of(
            after_events(
                begun(max_entries, max_depth),
                forest_events(trees) + seq![WalkEvent::BatchOver, WalkEvent::FolderOver],
            ),
        ) == (TrashSummary {
            item_count: forest_count(trees) as usize,
            total_size: forest_size(trees) as u64,
            truncated: false,
        }),
{
    let start = begun(max_entries, max_depth);
    let tail = seq![WalkEvent::BatchOver, WalkEvent::FolderOver];
    lemma_walk_forest(start, trees);
    let measured = grown(start, forest_count(trees), forest_size(trees));
    lemma_events_add(start, forest_events(trees), tail);
    assert(tail.drop_last() == seq![WalkEvent::BatchOver]);
    assert(tail.drop_last().drop_last() == Seq::<WalkEvent>::empty());
    assert(after_events(measured, tail.drop_last().drop_last()) == measured);
    assert(after_events(measured, tail.drop_last()) == measured.batch_over(false));
    assert(after_events(measured, tail) == measured);
}

/// How the listing of a directory ends: after its last entry, once the budget is spent, or in an
/// error.
pub enum ListingEnd {
    Over,
    CutShort,
    Failed,
}

/// How a walk deals with one entry: it counts it, or lists what is in it as far as it gets.
pub enum EntryRun {
    Counted { entry: TrashEntry, late_inside: bool },
    Listed { entry: TrashEntry, inside: Seq<EntryRun>, end: ListingEnd },
}

/// The walk after the listing of a directory.
pub open spec fn after_end(walk: WalkView, end: ListingEnd) -> WalkView {
    match end {
        ListingEnd::Over => walk.left(),
        ListingEnd::CutShort => walk.cut_short().left(),
        ListingEnd::Failed => walk.failed(),
    }
}

/// The walk after one entry, and all that it saw in it.
pub open spec fn after_entry(walk: WalkView, run: EntryRun) -> WalkView
    decreases run,
{
    match run {
        EntryRun::Counted { entry, late_inside } => walk.offered(entry, false, late_inside),
        EntryRun::Listed { entry, inside, end } => after_end(
            after_entries(walk.offered(entry, false, false), inside),
            end,
        ),
    }
}

/// The walk after entries of the directory being listed.
pub open spec fn after_entries(walk: WalkView, runs: Seq<EntryRun>) -> WalkView
    decreases runs,
{
    if runs.len() == 0 {
        walk
    } else {
        after_entry(after_entries(walk, runs.drop_last()), runs.last())
    }
}

/// Whether an entry is what lies in the trash: a folder, or anything else with its bytes.
pub open spec fn is_entry_of(entry: TrashEntry, tree: TrashTree) -> bool {
    match tree {
        TrashTree::File { .. } => {
            &&& !(entry.kind is Directory && !entry.is_symlink)
            &&& own_size(entry) == tree_size(tree)
        },
        TrashTree::Folder { .. } => entry.kind is Directory && !entry.is_symlink,
    }
}

/// Whether a walk may deal with what lies in the trash like that.
pub open spec fn may_run(walk: WalkView, run: EntryRun, tree: TrashTree) -> bool
    decreases run,
{
    &&& !walk.is_spent(false)
    &&& match run {
        EntryRun::Counted { entry, late_inside } => {
            &&& is_entry_of(entry, tree)
            &&& walk.offer_step(entry, false, late_inside) is Next
        },
        EntryRun::Listed { entry, inside, end } => {
            &&& is_entry_of(entry, tree)
            &&& walk.offer_step(entry, false, false) is Open
            &&& tree matches TrashTree::Folder { children }
            &&& may_list(walk.offered(entry, false, false), inside, children)
            &&& end is Over ==> inside.len() == children.len()
        },
    }
}

/// Whether a walk may come through the first of the things in the directory being listed like that.
pub open spec fn may_list(walk: WalkView, runs: Seq<EntryRun>, trees: Seq<TrashTree>) -> bool
    decreases runs,
{
    &&& runs.len() <= trees.len()
    &&& runs.len() > 0 ==> {
        &&& may_list(walk, runs.drop_last(), trees)
        &&& may_run(after_entries(walk, runs.drop_last()), runs.last(), trees[runs.len() - 1])
    }
}

/// Whether so much more was measured at most, and exactly that much where nothing is marked as
/// incomplete.
pub open spec fn grew_by(before: Measured, after: Measured, count: nat, size: nat) -> bool {
    &&& after.count <= before.count + count
    &&& after.size <= before.size + size
    &&& !after.truncated ==> {
        &&& !before.truncated
        &&& after.count == if before.count + count > usize::MAX {
            usize::MAX as int
        } else {
            before.count + count
        }
        &&& after.size == if before.size + size > u64::MAX {
            u64::MAX as int
        } else {
            before.size + size
        }
    }
}

proof fn lemma_forest_prefix(trees: Seq<TrashTree>, k: int)
    requires
        0 <= k <= trees.len(),
    ensures
        forest_count(trees.take(k)) <= forest_count(trees),
        forest_size(trees.take(k)) <= forest_size(trees),
    decreases trees.len() - k,
{
    if k == trees.len() {
        assert(trees.take(k) == trees);
    } else {
        assert(trees.take(k + 1).drop_last() == trees.take(k));
        lemma_forest_prefix(trees, k + 1);
    }
}

proof fn lemma_run_is_bounded(walk: WalkView, run: EntryRun, tree: TrashTree)
    requires
        walk.is_valid(),
        may_run(walk, run, tree),
    ensures
        after_entry(walk, run).is_valid(),
        after_entry(walk, run).open.len() == walk.open.len(),
        after_entry(walk, run).open.drop_last() == walk.open.drop_last(),
        grew_by(
            walk.open.last(),
            after_entry(walk, run).open.last(),
            tree_count(tree),
            tree_size(tree),
        ),
    decreases run,
{
    let after = after_entry(walk, run);
    match run {
        EntryRun::Counted { entry, late_inside } => {
            assert(after.open.drop_last() == walk.open.drop_last());
        },
        EntryRun::Listed { entry, inside, end } => {
            let opened = walk.offered(entry, false, false);
            let children = tree->children;
            assert(opened.open.last() == Measured { count: 0, size: 0, truncated: false });
            assert(opened.open.drop_last() == walk.open);
            lemma_listing_is_bounded(opened, inside, children);
            lemma_forest_prefix(children, inside.len() as int);
            let listed = after_entries(opened, inside);
            if end is Over {
                assert(children.take(inside.len() as int) == children);
            }
            let cut = listed.cut_short();
            assert(cut.open.drop_last() == listed.open.drop_last());
            assert(after.open.drop_last() == walk.open.drop_last());
        },
    }
}

proof fn lemma_listing_is_bounded(walk: WalkView, runs: Seq<EntryRun>, trees: Seq<TrashTree>)
    requires
        walk.is_valid(),
        may_list(walk, runs, trees),
    ensures
        after_entries(walk, runs).is_valid(),
        after_entries(walk, runs).open.len() == walk.open.len(),
        after_entries(walk, runs).open.drop_last() == walk.open.drop_last(),
        grew_by(
            walk.open.last(),
            after_entries(walk, runs).open.last(),
            forest_count(trees.take(runs.len() as int)),
            forest_size(trees.take(runs.len() as int)),
        ),
    decreases runs,
{
    if runs.len() > 0 {
        let front = runs.drop_last();
        let seen = trees.take(runs.len() as int);
        lemma_listing_is_bounded(walk, front, trees);
        lemma_run_is_bounded(after_entries(walk, front), runs.last(), trees[runs.len() - 1]);
        assert(seen.drop_last() == trees.take(front.len() as int));
        assert(seen.last() == trees[runs.len() - 1]);
    }
}

/// However a walk goes, whatever it leaves out, finds unreadable or has no time for: it never
/// measures more than lies in the trash, and what it does not mark as incomplete is exact, up to the
/// largest numbers there are.
pub proof fn law_summary_is_a_lower_bound(
    trees: Seq<TrashTree>,
    runs: Seq<EntryRun>,
    end: ListingEnd,
    max_entries: usize,
    max_depth: usize,
)
    requires
        may_list(begun(max_entries, max_depth), runs, trees),
        end is Over ==> runs.len() == trees.len(),
        end !is Failed,
    ensures
        ({
            let summary = summary_of(
                after_end(after_entries(begun(max_entries, max_depth), runs), end),
            );
            &&& summary.item_count <= forest_count(trees)
            &&& summary.total_size <= forest_size(trees)
            &&& !summary.truncated ==> {
                &&& summary.item_count == if forest_count(trees) > usize::MAX {
                    usize::MAX as nat
                } else {
                    forest_count(trees)
                }
                &&& summary.total_size == if forest_size(trees) > u64::MAX {
                    u64::MAX as nat
                } else {
                    forest_size(trees)
                }
            }
        }),
{
    let start = begun(max_entries, max_depth);
    lemma_listing_is_bounded(start, runs, trees);
    lemma_forest_prefix(trees, runs.len() as int);
    if end is Over {
        assert(trees.take(runs.len() as int) == trees);
    }
}

/// However a walk goes, it never sees more entries than its budget allows.
pub proof fn law_walk_keeps_its_budget(
    walk: WalkView,
    entry: TrashEntry,
    late: bool,
    late_inside: bool,
)
    requires
        walk.is_valid(),
    ensures
        walk.offered(entry, late, late_inside).is_valid(),
        walk.batch_over(late).is_valid(),
        walk.left().is_valid(),
        walk.visited <= walk.offered(entry, late, late_inside).visited <= walk.visited + 1,
{
}

/// A walk whose time is up leaves what it measured marked as incomplete, up to the trash itself.
pub proof fn law_late_walk_is_marked(walk: WalkView)
    requires
        walk.is_valid(),
    ensures
        walk.cut_short().left().open.last().truncated,
        walk.batch_over(true).open.last().truncated,
{
}

/// What the loading of the trash's measure leads to.
#[derive(Debug)]
pub enum TrashSummaryOutcome {
    /// Ask whether to empty the trash.
    Confirm(TrashSummary),
    /// There is nothing to empty.
    Nothing,
    /// Tell that the trash cannot be read.
    Error(String),
}

/// Whether the trash is to be measured: not where a pane shows it to be empty.
pub fn measures_trash(shown_count: Option<usize>) -> (result: bool)
    ensures
        result == (shown_count != Some(0usize)),
{
    match shown_count {
        Some(count) => count != 0,
        None => true,
    }
}

/// What the end of a measurement leads to.
pub fn trash_summary_outcome(summary: Result<TrashSummary, String>) -> (result: TrashSummaryOutcome)
    ensures
        result == match summary {
            Ok(summary) => if summary.item_count > 0 {
                TrashSummaryOutcome::Confirm(summary)
            } else {
                TrashSummaryOutcome::Nothing
            },
            Err(message) => TrashSummaryOutcome::Error(message),
        },
{
    match summary {
        Ok(summary) => {
            if summary.item_count > 0 {
                TrashSummaryOutcome::Confirm(summary)
            } else {
                TrashSummaryOutcome::Nothing
            }
        },
        Err(message) => TrashSummaryOutcome::Error(message),
    }
}

/// What emptying the trash would free, in words.
pub open spec fn reclaim_text(summary: TrashSummary, size_text: Seq<char>) -> Seq<char> {
    let items = items_label(summary.item_count as nat);
    if summary.truncated {
        "At least "@ + items + " · "@ + "at least "@ + size_text + " will be reclaimed"@
    } else {
        items + " · "@ + size_text + " will be reclaimed"@
    }
}

/// What emptying the trash would free, in words. `size_text` is the size of it.
pub fn empty_trash_subtitle(summary: TrashSummary, size_text: &str) -> (result: String)
    ensures
        result@ == reclaim_text(summary, size_text@),
{
    let items: String = item_count_label(summary.item_count);
    let mut text: String = String::new();
    if summary.truncated {
        text.append("At least ");
        text.append(items.as_str());
        text.append(" · ");
        text.append("at least ");
        assert(text@ == "At least "@ + items@ + " · "@ + "at least "@);
    } else {
        text.append(items.as_str());
        text.append(" · ");
        assert(text@ == items@ + " · "@);
    }
    text.append(size_text);
    text.append(" will be reclaimed");
    text
}

/// What was measured of the trash as its properties show it: at least that much where the measure
/// is not complete.
pub open spec fn measured_as(summary: TrashSummary, text: Seq<char>) -> Seq<char> {
    if summary.truncated {
        "≥ "@ + text
    } else {
        text
    }
}

/// What was measured of the trash as its properties show it.
pub fn measured_text(summary: TrashSummary, text: &str) -> (result: String)
    ensures
        result@ == measured_as(summary, text@),
{
    if summary.truncated {
        concat_text("≥ ", text)
    } else {
        text.to_owned()
    }
}

/// How many errors of an emptying are told one by one.
pub const MAX_LISTED_ERRORS: usize = 8;

/// What emptying the trash came to. Only the first errors are kept.
#[derive(Debug)]
pub struct EmptyTrashOutcome {
    pub deleted: usize,
    pub failed: usize,
    pub errors: Vec<String>,
}

impl EmptyTrashOutcome {
    /// Whether the errors kept are as many as failed, up to the limit.
    pub open spec fn is_valid(&self) -> bool {
        self.errors@.len() == if self.failed < MAX_LISTED_ERRORS {
            self.failed as nat
        } else {
            MAX_LISTED_ERRORS as nat
        }
    }

    /// An emptying that begins.
    pub fn new() -> (result: Self)
        ensures
            result.deleted == 0,
            result.failed == 0,
            result.errors@.len() == 0,
            result.is_valid(),
    {
        EmptyTrashOutcome { deleted: 0, failed: 0, errors: Vec::new() }
    }

    /// Takes the deletion of an entry, or the error it ended in.
    pub fn record(&mut self, name: &str, error: Option<&str>)
        requires
            old(self).is_valid(),
            error is None ==> old(self).deleted < usize::MAX,
            error is Some ==> old(self).failed < usize::MAX,
        ensures
            final(self).is_valid(),
            match error {
                None => final(self).deleted == old(self).deleted + 1 && final(self).failed == old(
                    self,
                ).failed && final(self).errors == old(self).errors,
                Some(message) => {
                    &&& final(self).deleted == old(self).deleted
                    &&& final(self).failed == old(self).failed + 1
                    &&& views(final(self).errors@) == if old(self).errors@.len() < MAX_LISTED_ERRORS {
                        views(old(self).errors@).push(name@ + ": "@ + message@)
                    } else {
                        views(old(self).errors@)
                    }
                },
            },
    {
        match error {
            None => {
                self.deleted = self.deleted + 1;
            },
            Some(message) => {
                self.failed = self.failed + 1;
                if self.errors.len() < MAX_LISTED_ERRORS {
                    let ghost before = self.errors@;
                    let start: String = concat_text(name, ": ");
                    let line: String = concat_text(start.as_str(), message);
                    self.errors.push(line);
                    assert(views(self.errors@) == views(before).push(name@ + ": "@ + message@));
                }
            },
        }
    }

    /// How many entries were dealt with.
    pub fn processed(&self) -> (result: usize)
        requires
            self.deleted + self.failed <= usize::MAX,
        ensures
            result == self.deleted + self.failed,
    {
        self.deleted + self.failed
    }
}

/// How far an emptying has come, in words.
pub fn empty_trash_status(processed: usize) -> (result: String)
    ensures
        result@ == items_label(processed as nat) + " deleted"@,
{
    let items: String = item_count_label(processed);
    concat_text(items.as_str(), " deleted")
}

/// Each error on lines of its own.
pub open spec fn bulleted(errors: Seq<Seq<char>>) -> Seq<char>
    decreases errors.len(),
{
    if errors.len() == 0 {
        Seq::empty()
    } else {
        bulleted(errors.drop_last()) + "\n\n• "@ + errors.last()
    }
}

/// What went wrong on emptying the trash: how much, the errors that were kept, and how many more
/// there were.
pub open spec fn error_summary(failed: nat, errors: Seq<Seq<char>>) -> Seq<char> {
    items_label(failed) + " could not be deleted. The remaining items were processed."@ + bulleted(
        errors,
    ) + if failed > errors.len() {
        "\n\n…and "@ + decimal((failed - errors.len()) as nat) + " more"@
    } else {
        Seq::empty()
    }
}

/// What went wrong on emptying the trash.
pub fn empty_trash_error_summary(outcome: &EmptyTrashOutcome) -> (result: String)
    ensures
        result@ == error_summary(outcome.failed as nat, views(outcome.errors@)),
{
    let items: String = item_count_label(outcome.failed);
    let mut summary: String = concat_text(
        items.as_str(),
        " could not be deleted. The remaining items were processed.",
    );
    let ghost head = summary@;
    let mut i: usize = 0;
    assert(summary@ == head + bulleted(views(outcome.errors@).take(0)));
    while i < outcome.errors.len()
        invariant
            i <= outcome.errors@.len(),
            summary@ == head + bulleted(views(outcome.errors@).take(i as int)),
        decreases outcome.errors@.len() - i,
    {
        let ghost listed = views(outcome.errors@);
        assert(listed.take(i + 1).drop_last() == listed.take(i as int));
        summary.append("\n\n• ");
        summary.append(outcome.errors[i].as_str());
        i = i + 1;
        assert(summary@ == head + bulleted(listed.take(i as int)));
    }
    assert(views(outcome.errors@).take(i as int) == views(outcome.errors@));
    if outcome.failed > outcome.errors.len() {
        let more: String = count_text(outcome.failed - outcome.errors.len());
        let mut rest: String = concat_text("\n\n…and ", more.as_str());
        rest.append(" more");
        summary.append(rest.as_str());
    } else {
        assert(summary@ == summary@ + Seq::<char>::empty());
    }
    summary
}

/// What a request to delete entries leads to.
#[derive(Debug)]
pub enum DeleteStep {
    /// Ask before deleting for good.
    Confirm(Vec<FileEntry>),
    /// Move to the trash at once, and remember the entries in case they cannot be.
    MoveToTrash(Vec<FileEntry>),
}

/// What a request to delete entries leads to.
pub fn request_delete(entries: Vec<FileEntry>, permanent: bool) -> (result: DeleteStep)
    ensures
        result == if permanent {
            DeleteStep::Confirm(entries)
        } else {
            DeleteStep::MoveToTrash(entries)
        },
{
    if permanent {
        DeleteStep::Confirm(entries)
    } else {
        DeleteStep::MoveToTrash(entries)
    }
}

/// What a row of the question before deleting says of an entry.
#[derive(Clone, Copy, Debug, PartialEq, Eq, Structural)]
pub enum DeletedEntrySize {
    Folder,
    Bytes(u64),
    Unknown,
}

/// What a row of the question before deleting says of an entry.
pub open spec fn deleted_entry_size(entry: FileEntry) -> DeletedEntrySize {
    if entry.kind.is_directory() {
        DeletedEntrySize::Folder
    } else {
        match entry.size {
            MetadataValue::Known(size) => DeletedEntrySize::Bytes(size),
            _ => DeletedEntrySize::Unknown,
        }
    }
}

/// The question before deleting for good.
#[derive(Debug)]
pub struct DeleteConfirmation {
    pub title: String,
    pub subtitle: String,
    pub confirm_label: String,
    pub sizes: Vec<DeletedEntrySize>,
    pub scrolls: bool,
}

/// The question before deleting entries for good. A long list scrolls.
pub fn delete_confirmation(entries: &Vec<FileEntry>) -> (result: DeleteConfirmation)
    ensures
        result.title@ == "Permanently delete "@ + items_label(entries@.len()) + "?"@,
        result.confirm_label@ == "Permanently delete "@ + items_label(entries@.len()),
        result.subtitle@ == crate::entry::kind_summary(
            (entries@.len() - crate::entry::directory_count(entries@)) as nat,
            crate::entry::directory_count(entries@),
        ),
        result.sizes@ == entries@.map_values(|entry: FileEntry| deleted_entry_size(entry)),
        result.scrolls == (entries@.len() > 10),
{
    let items: String = item_count_label(entries.len());
    let confirm_label: String = concat_text("Permanently delete ", items.as_str());
    let title: String = concat_text(confirm_label.as_str(), "?");
    let mut sizes: Vec<DeletedEntrySize> = Vec::new();
    let mut i: usize = 0;
    while i < entries.len()
        invariant
            i <= entries@.len(),
            sizes@.len() == i,
            forall|k: int| 0 <= k < i ==> #[trigger] sizes@[k] == deleted_entry_size(entries@[k]),
        decreases entries@.len() - i,
    {
        let size: DeletedEntrySize = if entries[i].is_directory() {
            DeletedEntrySize::Folder
        } else {
            match entries[i].size {
                MetadataValue::Known(size) => DeletedEntrySize::Bytes(size),
                _ => DeletedEntrySize::Unknown,
            }
        };
        sizes.push(size);
        i = i + 1;
    }
    assert(sizes@ == entries@.map_values(|entry: FileEntry| deleted_entry_size(entry)));
    DeleteConfirmation {
        title,
        subtitle: entry_kind_summary(entries),
        confirm_label,
        sizes,
        scrolls: entries.len() > 10,
    }
}

/// A button of the question before deleting for good.
#[derive(Clone, Copy, Debug, PartialEq, Eq, Structural)]
pub enum DeleteConfirmationFocus {
    Cancel,
    Confirm,
}

/// The button that a key moves the focus to.
pub open spec fn focused_by(key: Key) -> Option<DeleteConfirmationFocus> {
    match key {
        Key::Left | Key::H => Some(DeleteConfirmationFocus::Cancel),
        Key::Right | Key::L => Some(DeleteConfirmationFocus::Confirm),
        _ => None,
    }
}

/// The button that a key moves the focus to.
pub fn delete_confirmation_focus_target(key: Key) -> (result: Option<DeleteConfirmationFocus>)
    ensures
        result == focused_by(key),
{
    match key {
        Key::Left | Key::H => Some(DeleteConfirmationFocus::Cancel),
        Key::Right | Key::L => Some(DeleteConfirmationFocus::Confirm),
        _ => None,
    }
}

/// What a key does in the question before deleting for good.
#[derive(Clone, Copy, Debug, PartialEq, Eq, Structural)]
pub enum ConfirmationKeyStep {
    Dismiss,
    Confirm,
    Focus(DeleteConfirmationFocus),
    Ignore,
}

/// What a key does in the question before deleting for good.
pub fn delete_confirmation_key(key: Key, modifiers: Modifiers) -> (result: ConfirmationKeyStep)
    ensures
        result == if key is Escape {
            ConfirmationKeyStep::Dismiss
        } else if key is Return || key is KeypadEnter {
            ConfirmationKeyStep::Confirm
        } else if modifiers.control || modifiers.alt || focused_by(key) is None {
            ConfirmationKeyStep::Ignore
        } else {
            ConfirmationKeyStep::Focus(focused_by(key)->0)
        },
{
    match key {
        Key::Escape => ConfirmationKeyStep::Dismiss,
        Key::Return | Key::KeypadEnter => ConfirmationKeyStep::Confirm,
        _ => {
            if modifiers.control || modifiers.alt {
                ConfirmationKeyStep::Ignore
            } else {
                match delete_confirmation_focus_target(key) {
                    Some(focus) => ConfirmationKeyStep::Focus(focus),
                    None => ConfirmationKeyStep::Ignore,
                }
            }
        },
    }
}

/// What is done to a question before something is deleted for good.
#[derive(Clone, Copy, Debug, PartialEq, Eq, Structural)]
pub enum QuestionInput {
    Confirm,
    Cancel,
    Close,
    Escape,
    /// A press beside the question.
    Backdrop,
}

/// What the question before deleting for good leads to. The question closes in any case.
#[derive(Debug)]
pub enum DeleteAnswer {
    /// Nothing is deleted. The listing has the focus where that is said.
    Dismiss { focus_listing: bool },
    /// The entries are deleted for good, and the listing has the focus.
    DeleteForGood(Vec<FileEntry>),
}

/// Takes what is done to the question before deleting entries for good.
pub fn answer_delete_confirmation(entries: Vec<FileEntry>, input: QuestionInput) -> (result:
    DeleteAnswer)
    ensures
        result == match input {
            QuestionInput::Confirm => DeleteAnswer::DeleteForGood(entries),
            QuestionInput::Cancel | QuestionInput::Close | QuestionInput::Escape =>
                DeleteAnswer::Dismiss { focus_listing: true },
            QuestionInput::Backdrop => DeleteAnswer::Dismiss { focus_listing: false },
        },
{
    match input {
        QuestionInput::Confirm => DeleteAnswer::DeleteForGood(entries),
        QuestionInput::Cancel | QuestionInput::Close | QuestionInput::Escape =>
            DeleteAnswer::Dismiss { focus_listing: true },
        QuestionInput::Backdrop => DeleteAnswer::Dismiss { focus_listing: false },
    }
}

/// What a key does in the question before emptying the trash.
#[derive(Clone, Copy, Debug, PartialEq, Eq, Structural)]
pub enum EmptyTrashKeyStep {
    Dismiss,
    MoveFocus(Direction),
    Ignore,
}

/// What a key does in the question before emptying the trash.
pub fn empty_trash_key(key: Key, modifiers: Modifiers) -> (result: EmptyTrashKeyStep)
    ensures
        result == if key is Escape {
            EmptyTrashKeyStep::Dismiss
        } else if modifiers.control || modifiers.alt || home_row_direction(key) is None {
            EmptyTrashKeyStep::Ignore
        } else {
            EmptyTrashKeyStep::MoveFocus(home_row_direction(key)->0)
        },
{
    match key {
        Key::Escape => EmptyTrashKeyStep::Dismiss,
        _ => {
            if modifiers.control || modifiers.alt {
                EmptyTrashKeyStep::Ignore
            } else {
                match vim_focus_direction(key) {
                    Some(direction) => EmptyTrashKeyStep::MoveFocus(direction),
                    None => EmptyTrashKeyStep::Ignore,
                }
            }
        },
    }
}

/// Whether the option that moves entries to the trash is shown: always in the trash, where it
/// deletes them for good, and elsewhere unless it is known that nothing can be trashed there.
pub fn move_to_trash_is_visible(in_trash: bool, can_trash: Option<bool>) -> (result: bool)
    ensures
        result == (in_trash || can_trash != Some(false)),
{
    in_trash || (match can_trash {
        Some(can_trash) => can_trash,
        None => true,
    })
}

/// Whether the option that deletes entries for good is shown: outside the trash, unless it is known
/// that nothing can be deleted there.
pub fn permanently_delete_is_visible(in_trash: bool, can_delete: Option<bool>) -> (result: bool)
    ensures
        result == (!in_trash && can_delete != Some(false)),
{
    !in_trash && (match can_delete {
        Some(can_delete) => can_delete,
        None => true,
    })
}

/// The errors told never outgrow their limit, whatever failed.
pub proof fn law_listed_errors_are_bounded(outcome: EmptyTrashOutcome)
    requires
        outcome.is_valid(),
    ensures
        outcome.errors@.len() <= MAX_LISTED_ERRORS,
        outcome.errors@.len() <= outcome.failed,
{
}

/// Counts and sizes stop at the largest number, and a part adds to the whole; where it was not
/// measured to the end, neither was the whole.
pub proof fn law_parts_add_to_the_whole(whole: Measured, part: Measured)
    ensures
        whole.count + part.count <= usize::MAX ==> with_part(whole, part).count == whole.count
            + part.count,
        whole.count + part.count > usize::MAX ==> with_part(whole, part).count == usize::MAX,
        whole.size + part.size <= u64::MAX ==> with_part(whole, part).size == whole.size + part.size,
        whole.size + part.size > u64::MAX ==> with_part(whole, part).size == u64::MAX,
        with_part(whole, part).truncated <==> whole.truncated || part.truncated,
{
}

/// Only regular files take up space, and never less than none.
pub proof fn law_only_regular_files_take_space(entry: TrashEntry)
    ensures
        entry.kind is Regular && entry.size >= 0 ==> own_size(entry) == entry.size,
        entry.kind is Directory || entry.kind is Other || entry.size < 0 ==> own_size(entry) == 0,
{
}

/// A walk is spent where it saw as many entries as it may, or is late: it then counts nothing more and
/// marks the folder as not measured to the end.
pub proof fn law_spent_walks_count_no_more(
    walk: WalkView,
    entry: TrashEntry,
    late: bool,
    late_inside: bool,
)
    requires
        walk.is_valid(),
        walk.visited == walk.max_entries || late,
    ensures
        walk.offered(entry, late, late_inside).visited == walk.visited,
        walk.offered(entry, late, late_inside) == walk.batch_over(late),
        walk.offer_step(entry, late, late_inside) == walk.leave_step(),
        walk.offered(entry, late, late_inside).open.last().truncated,
        walk.open.len() == 1 ==> walk.offered(entry, late, late_inside).open.last().count
            == walk.open.last().count && walk.offered(entry, late, late_inside).open.last().size
            == walk.open.last().size,
        walk.open.len() > 1 ==> walk.offered(entry, late, late_inside).open.len() == walk.open.len()
            - 1,
{
}

/// A folder is entered where it is one, and no link to one, not too deep, with entries left to see
/// beyond it and time to see them. What is not entered counts as one, with its own size, and a folder
/// that was not entered leaves the one around it not measured to the end.
pub proof fn law_folders_are_entered_within_limits(
    walk: WalkView,
    entry: TrashEntry,
    late_inside: bool,
)
    requires
        walk.is_valid(),
        walk.visited < walk.max_entries,
    ensures
        ({
            let after = walk.offered(entry, false, late_inside);
            let folder = entry.kind is Directory && !entry.is_symlink;
            let opens = folder && walk.open.len() <= walk.max_depth && walk.visited + 1
                < walk.max_entries && !late_inside;
            &&& after.visited == walk.visited + 1
            &&& after.max_entries == walk.max_entries && after.max_depth == walk.max_depth
            &&& walk.offer_step(entry, false, late_inside) == if opens {
                WalkStep::Open
            } else {
                WalkStep::Next
            }
            &&& opens ==> after.open == walk.open.push(
                Measured { count: 0, size: own_size(entry), truncated: false },
            )
            &&& !opens ==> after.open.len() == walk.open.len() && after.open.drop_last()
                == walk.open.drop_last()
            &&& !opens && walk.open.last().count < usize::MAX ==> after.open.last().count
                == walk.open.last().count + 1
            &&& !opens && walk.open.last().size + own_size(entry) <= u64::MAX
                ==> after.open.last().size == walk.open.last().size + own_size(entry)
            &&& !opens ==> (after.open.last().truncated <==> walk.open.last().truncated || folder)
        }),
{
    let after = walk.offered(entry, false, late_inside);
    let opens = entry.kind is Directory && !entry.is_symlink && walk.may_open(late_inside);
    if !opens {
        assert(after.open.drop_last() =~= walk.open.drop_last());
    }
}

/// A folder that was left counts in the one around it: itself, all that was counted in it, and its
/// size. The outermost folder is not left, and ends the walk.
pub proof fn law_left_folders_count_with_their_contents(walk: WalkView)
    requires
        walk.is_valid(),
    ensures
        walk.open.len() == 1 ==> walk.left() == walk && walk.leave_step() is Finished,
        walk.open.len() > 1 ==> {
            let inner = walk.open.last();
            let outer = walk.open[walk.open.len() - 2];
            let after = walk.left();
            &&& walk.leave_step() is Close
            &&& after.open.len() == walk.open.len() - 1
            &&& after.visited == walk.visited && after.max_entries == walk.max_entries
                && after.max_depth == walk.max_depth
            &&& outer.count + inner.count + 1 <= usize::MAX ==> after.open.last().count
                == outer.count + inner.count + 1
            &&& outer.size + inner.size <= u64::MAX ==> after.open.last().size == outer.size
                + inner.size
            &&& after.open.last().truncated <==> outer.truncated || inner.truncated
            &&& after.open.drop_last() == walk.open.drop_last().drop_last()
        },
{
    if walk.open.len() > 1 {
        assert(walk.left().open.drop_last() =~= walk.open.drop_last().drop_last());
    }
}

/// A folder that could not be listed counts as one thing of no size, and leaves the one around it not
/// measured to the end. A batch that ends in time changes nothing.
pub proof fn law_unread_folders_count_once(walk: WalkView)
    requires
        walk.is_valid(),
    ensures
        walk.open.len() > 1 ==> {
            let outer = walk.open[walk.open.len() - 2];
            let after = walk.failed();
            &&& after.open.len() == walk.open.len() - 1
            &&& after.visited == walk.visited
            &&& outer.count < usize::MAX ==> after.open.last().count == outer.count + 1
            &&& after.open.last().size == outer.size
            &&& after.open.last().truncated
        },
        walk.visited < walk.max_entries ==> walk.batch_over(false) == walk,
        walk.cut_short().open.len() == walk.open.len(),
        walk.cut_short().open.last() == (Measured { truncated: true, ..walk.open.last() }),
        walk.cut_short().visited == walk.visited,
{
}

/// A walk begins with nothing counted, and its summary is what was counted in the outermost folder.
pub proof fn law_summary_is_of_the_outermost_folder(
    walk: WalkView,
    max_entries: usize,
    max_depth: usize,
)
    ensures
        summary_of(walk).item_count == walk.open[0].count,
        summary_of(walk).total_size == walk.open[0].size,
        summary_of(walk).truncated == walk.open[0].truncated,
        begun(max_entries, max_depth).visited == 0,
        begun(max_entries, max_depth).open.len() == 1,
        summary_of(begun(max_entries, max_depth)) == (TrashSummary {
            item_count: 0,
            total_size: 0,
            truncated: false,
        }),
        begun(max_entries, max_depth).max_entries == max_entries,
        begun(max_entries, max_depth).max_depth == max_depth,
        MAX_TRASH_ENTRIES == 200_000,
        MAX_TRASH_DEPTH == 64,
        MAX_LISTED_ERRORS == 8,
{
}

/// What emptying the trash reclaims is told exactly, or as the least it can be where not all of it was
/// measured.
pub proof fn law_reclaimed_space_is_told(summary: TrashSummary, size_text: Seq<char>)
    ensures
        !summary.truncated ==> reclaim_text(summary, size_text) == items_label(
            summary.item_count as nat,
        ) + " · "@ + size_text + " will be reclaimed"@,
        summary.truncated ==> reclaim_text(summary, size_text) == "At least "@ + items_label(
            summary.item_count as nat,
        ) + " · "@ + "at least "@ + size_text + " will be reclaimed"@,
        !summary.truncated ==> measured_as(summary, size_text) == size_text,
        summary.truncated ==> measured_as(summary, size_text) == seq!['≥', ' '] + size_text,
{
    reveal_strlit("≥ ");
    assert("≥ "@ =~= seq!['≥', ' ']);
}

/// Errors are told one below the other, each behind a bullet.
pub proof fn law_errors_stand_behind_bullets(
    left: Seq<Seq<char>>,
    right: Seq<Seq<char>>,
    error: Seq<char>,
)
    ensures
        bulleted(Seq::empty()) == Seq::<char>::empty(),
        bulleted(seq![error]) == seq!['\n', '\n', '•', ' '] + error,
        bulleted(left + right) == bulleted(left) + bulleted(right),
    decreases right.len(),
{
    reveal_with_fuel(bulleted, 2);
    reveal_strlit("\n\n• ");
    assert("\n\n• "@ =~= seq!['\n', '\n', '•', ' ']);
    assert(seq![error].drop_last() =~= Seq::<Seq<char>>::empty());
    assert(bulleted(seq![error]) =~= seq!['\n', '\n', '•', ' '] + error);
    if right.len() == 0 {
        assert(left + right =~= left);
        assert(bulleted(left) + bulleted(right) =~= bulleted(left));
    } else {
        law_errors_stand_behind_bullets(left, right.drop_last(), error);
        assert((left + right).drop_last() =~= left + right.drop_last());
        assert(bulleted(left + right) =~= bulleted(left) + bulleted(right));
    }
}

/// The summary of what could not be deleted tells how much it is, the errors that are listed, and how
/// many more there are where not all of them are.
pub proof fn law_error_summary_tells_how_many_more(
    failed: nat,
    errors: Seq<Seq<char>>,
    outcome: EmptyTrashOutcome,
)
    ensures
        failed <= errors.len() ==> error_summary(failed, errors) == items_label(failed)
            + " could not be deleted. The remaining items were processed."@ + bulleted(errors),
        failed > errors.len() ==> error_summary(failed, errors) == items_label(failed)
            + " could not be deleted. The remaining items were processed."@ + bulleted(errors)
            + "\n\n…and "@ + decimal((failed - errors.len()) as nat) + " more"@,
        outcome.is_valid() && outcome.failed <= 8 ==> outcome.errors@.len() == outcome.failed,
        outcome.is_valid() && outcome.failed > 8 ==> outcome.errors@.len() == 8,
{
    let start = items_label(failed)
        + " could not be deleted. The remaining items were processed."@ + bulleted(errors);
    assert(start + Seq::<char>::empty() =~= start);
    assert(start + "\n\n…and "@ + decimal((failed - errors.len()) as nat) + " more"@ =~= start + (
    "\n\n…and "@ + decimal((failed - errors.len()) as nat) + " more"@));
}

/// The list of what is deleted tells the size of every file that is known, and of folders that they
/// are.
pub proof fn law_deleted_entries_tell_their_size(entry: FileEntry)
    ensures
        entry.kind is Directory || entry.kind is DirectorySymbolicLink <==> deleted_entry_size(entry)
            is Folder,
        deleted_entry_size(entry) matches DeletedEntrySize::Bytes(bytes) ==> entry.size
            == MetadataValue::Known(bytes),
        !(entry.kind is Directory || entry.kind is DirectorySymbolicLink) && entry.size is Known
            ==> deleted_entry_size(entry) is Bytes,
{
}

/// The keys that lead left focus the button that cancels, those that lead right the one that confirms,
/// and no other key focuses either.
pub proof fn law_left_cancels_right_confirms(key: Key)
    ensures
        focused_by(key) == Some(DeleteConfirmationFocus::Cancel) <==> key is Left || key is H,
        focused_by(key) == Some(DeleteConfirmationFocus::Confirm) <==> key is Right || key is L,
{
}

/// A walk is known by what it saw, what is open, and its limits.
pub proof fn law_walks_are_known_by_their_state(walk: TrashWalk)
    ensures
        walk@.visited == walk.visited,
        walk@.open == walk.open@,
        walk@.max_entries == walk.max_entries,
        walk@.max_depth == walk.max_depth,
{
}

} // verus!
