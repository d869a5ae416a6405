//! The trail of folders above the one in view.

use crate::input::{following_number, next_number};
use crate::location::{location_views, places, Location, LocationView, Place};
use crate::paths::{path_equal, same_path};
use vstd::prelude::*;

verus! {

/// A folder of the trail.
#[derive(Debug)]
pub struct Crumb {
    pub location: Location,
    pub label: String,
    pub separator_before: bool,
    pub is_current: bool,
    pub is_root: bool,
}

/// The first place of `home` in the trail from `from` on, or the end.
pub open spec fn first_home(crumbs: Seq<Place>, home: Place, from: int) -> int
    decreases crumbs.len() - from,
{
    if from >= crumbs.len() {
        crumbs.len() as int
    } else if crumbs[from] == home {
        from
    } else {
        first_home(crumbs, home, from + 1)
    }
}

/// Where the trail shown begins: at home where it leads through it, at its first folder otherwise.
pub open spec fn trail_start(crumbs: Seq<Place>, home: Place) -> int {
    if first_home(crumbs, home, 0) < crumbs.len() {
        first_home(crumbs, home, 0)
    } else {
        0
    }
}

/// Whether `shown` is the folder at `at` of the trail that begins at `start`.
pub open spec fn is_crumb(
    shown: Crumb,
    crumbs: Seq<Location>,
    names: Seq<String>,
    roots: Seq<bool>,
    home: Place,
    start: int,
    at: int,
) -> bool {
    &&& shown.location == crumbs[at]
    &&& shown.label@ == if crumbs[at]@.place() == home {
        "~"@
    } else {
        names[at]@
    }
    &&& shown.separator_before == (at > start && !(roots[start] && at == start + 1))
    &&& shown.is_current == (at == crumbs.len() - 1)
    &&& shown.is_root == roots[at]
}

proof fn lemma_first_home_from(crumbs: Seq<Place>, home: Place, from: int, to: int)
    requires
        0 <= from <= to <= crumbs.len(),
        forall|k: int| from <= k < to ==> #[trigger] crumbs[k] != home,
    ensures
        first_home(crumbs, home, from) == first_home(crumbs, home, to),
    decreases to - from,
{
    if from < to {
        assert(crumbs[from] != home);
        lemma_first_home_from(crumbs, home, from + 1, to);
    }
}

/// The trail that is shown for the folders from the root to the one in view, given their names and
/// which of them are the root. It begins at home where it leads through it; a separator stands
/// between two folders, but not behind a root that it begins with.
pub fn breadcrumb_trail(
    crumbs: &Vec<Location>,
    names: &Vec<String>,
    roots: &Vec<bool>,
    home: &Location,
) -> (result: Vec<Crumb>)
    requires
        names@.len() == crumbs@.len(),
        roots@.len() == crumbs@.len(),
    ensures
        result@.len() == crumbs@.len() - trail_start(places(crumbs@), home@.place()),
        forall|k: int|
            0 <= k < result@.len() ==> is_crumb(
                #[trigger] result@[k],
                crumbs@,
                names@,
                roots@,
                home@.place(),
                trail_start(places(crumbs@), home@.place()),
                trail_start(places(crumbs@), home@.place()) + k,
            ),
{
    let ghost views = places(crumbs@);
    let mut found: usize = 0;
    while found < crumbs.len() && !crumbs[found].same_as(home)
        invariant
            found <= crumbs@.len(),
            views == places(crumbs@),
            forall|k: int| 0 <= k < found ==> #[trigger] views[k] != home@.place(),
        ensures
            found <= crumbs@.len(),
            found < crumbs@.len() ==> views[found as int] == home@.place(),
            forall|k: int| 0 <= k < found ==> #[trigger] views[k] != home@.place(),
        decreases crumbs@.len() - found,
    {
        found = found + 1;
    }
    proof {
        lemma_first_home_from(views, home@.place(), 0, found as int);
    }
    let start: usize = if found < crumbs.len() {
        found
    } else {
        0
    };
    assert(start == trail_start(views, home@.place()));
    let mut result: Vec<Crumb> = Vec::new();
    let mut at: usize = start;
    while at < crumbs.len()
        invariant
            names@.len() == crumbs@.len(),
            roots@.len() == crumbs@.len(),
            start <= at <= crumbs@.len(),
            result@.len() == at - start,
            forall|k: int|
                0 <= k < result@.len() ==> is_crumb(
                    #[trigger] result@[k],
                    crumbs@,
                    names@,
                    roots@,
                    home@.place(),
                    start as int,
                    start + k,
                ),
        decreases crumbs@.len() - at,
    {
        let label: String = if crumbs[at].same_as(home) {
            "~".to_owned()
        } else {
            names[at].clone()
        };
        let last: usize = crumbs.len() - 1;
        result.push(
            Crumb {
                location: crumbs[at].duplicate(),
                label,
                separator_before: at > start && !(roots[start] && at == start + 1),
                is_current: at == last,
                is_root: roots[at],
            },
        );
        at = at + 1;
    }
    result
}

/// Whether a folder is the root of the file system.
pub open spec fn is_file_system_root(location: LocationView) -> bool {
    location matches LocationView::Native(path) && path_equal(path, "/"@)
}

/// Which of the folders are the root of the file system.
pub open spec fn root_flags(crumbs: Seq<LocationView>) -> Seq<bool> {
    crumbs.map_values(|crumb: LocationView| is_file_system_root(crumb))
}

/// The trail that is shown for the folders from the root to the one in view, given their names.
pub fn location_trail(crumbs: &Vec<Location>, names: &Vec<String>, home: &Location) -> (result: Vec<
    Crumb,
>)
    requires
        names@.len() == crumbs@.len(),
    ensures
        result@.len() == crumbs@.len() - trail_start(places(crumbs@), home@.place()),
        forall|k: int|
            0 <= k < result@.len() ==> is_crumb(
                #[trigger] result@[k],
                crumbs@,
                names@,
                root_flags(location_views(crumbs@)),
                home@.place(),
                trail_start(places(crumbs@), home@.place()),
                trail_start(places(crumbs@), home@.place()) + k,
            ),
{
    let mut roots: Vec<bool> = Vec::new();
    let mut i: usize = 0;
    while i < crumbs.len()
        invariant
            i <= crumbs@.len(),
            roots@.len() == i,
            forall|k: int|
                0 <= k < i ==> #[trigger] roots@[k] == root_flags(location_views(crumbs@))[k],
        decreases crumbs@.len() - i,
    {
        let is_root: bool = match crumbs[i].native_path() {
            Some(path) => same_path(path, "/"),
            None => false,
        };
        roots.push(is_root);
        i = i + 1;
    }
    assert(roots@ == root_flags(location_views(crumbs@)));
    breadcrumb_trail(crumbs, names, &roots, home)
}

/// What a button tells after a path was copied, until a while has passed since the last copy.
#[derive(Clone, Copy, Debug)]
pub struct CopyFeedback {
    pub generation: u64,
    pub copied: bool,
}

impl CopyFeedback {
    /// A button that nobody has pressed.
    pub fn new() -> (result: Self)
        ensures
            result.generation == 0,
            !result.copied,
    {
        CopyFeedback { generation: 0, copied: false }
    }

    /// Takes a press; answers the number of it.
    pub fn pressed(&mut self) -> (result: u64)
        ensures
            result == next_number(old(self).generation),
            *final(self) == (CopyFeedback { generation: result, copied: true }),
    {
        self.generation = following_number(self.generation);
        self.copied = true;
        self.generation
    }

    /// Takes the end of the while since the press of the given number: it counts only for the last
    /// press.
    pub fn while_passed(&mut self, generation: u64)
        ensures
            *final(self) == (CopyFeedback {
                generation: old(self).generation,
                copied: old(self).copied && generation != old(self).generation,
            }),
    {
        if self.generation == generation {
            self.copied = false;
        }
    }
}

proof fn lemma_first_home_bounds(crumbs: Seq<Place>, home: Place, from: int)
    requires
        0 <= from <= crumbs.len(),
    ensures
        from <= first_home(crumbs, home, from) <= crumbs.len(),
        first_home(crumbs, home, from) < crumbs.len() ==> crumbs[first_home(crumbs, home, from)]
            == home,
        forall|k: int| from <= k < first_home(crumbs, home, from) ==> #[trigger] crumbs[k] != home,
    decreases crumbs.len() - from,
{
    if from < crumbs.len() && crumbs[from] != home {
        lemma_first_home_bounds(crumbs, home, from + 1);
    }
}

/// What a widget is, on the way outwards from the one under the pointer in the trail.
#[derive(Clone, Copy, Debug, PartialEq, Eq, Structural)]
pub enum TrailWidget {
    Button,
    /// The box that holds the trail.
    Trail,
    Other,
}

/// Whether there is a button on the way outwards before the trail.
pub open spec fn meets_button(way: Seq<TrailWidget>) -> bool
    decreases way.len(),
{
    way.len() > 0 && (way[0] is Button || (way.len() > 1 && way[1] !is Trail && meets_button(
        way.skip(1),
    )))
}

/// Whether what was pressed in the trail is a button. Beside the buttons a press begins to edit the
/// location.
pub fn is_breadcrumb_button_target(way: &Vec<TrailWidget>) -> (result: bool)
    ensures
        result == meets_button(way@),
{
    let mut i: usize = 0;
    assert(way@.skip(0) == way@);
    while i < way.len()
        invariant
            i <= way@.len(),
            meets_button(way@) == meets_button(way@.skip(i as int)),
        decreases way@.len() - i,
    {
        assert(way@.skip(i as int)[0] == way@[i as int]);
        assert(way@.skip(i as int).skip(1) == way@.skip(i + 1));
        if way[i] == TrailWidget::Button {
            return true;
        }
        if i + 1 == way.len() {
            return false;
        }
        assert(way@.skip(i as int)[1] == way@[i + 1]);
        if way[i + 1] == TrailWidget::Trail {
            return false;
        }
        i = i + 1;
    }
    false
}

/// A trail that leads through home begins there; any other begins at its first folder. The folder
/// in view is always on it.
pub proof fn law_trail_begins_at_home(crumbs: Seq<Place>, home: Place)
    ensures
        0 <= trail_start(crumbs, home) <= crumbs.len(),
        crumbs.len() > 0 ==> trail_start(crumbs, home) < crumbs.len(),
        crumbs.contains(home) ==> crumbs[trail_start(crumbs, home)] == home,
        !crumbs.contains(home) ==> trail_start(crumbs, home) == 0,
{
    lemma_first_home_bounds(crumbs, home, 0);
    let first = first_home(crumbs, home, 0);
    if crumbs.contains(home) {
        let k = crumbs.index_of(home);
        assert(crumbs[k] == home);
    }
    if first < crumbs.len() {
        assert(crumbs.contains(home));
    }
}

/// The trail begins at the first crumb that is home: none before it is.
pub proof fn law_no_home_comes_before_the_trail(crumbs: Seq<Place>, home: Place, i: int)
    ensures
        0 <= i < trail_start(crumbs, home) ==> crumbs[i] != home,
        crumbs.len() > 0 && crumbs[0] == home ==> trail_start(crumbs, home) == 0,
{
    lemma_no_home_before(crumbs, home, 0, i);
}

proof fn lemma_no_home_before(crumbs: Seq<Place>, home: Place, from: int, i: int)
    requires
        0 <= from,
    ensures
        from <= i < first_home(crumbs, home, from) ==> crumbs[i] != home,
    decreases crumbs.len() - from,
{
    if from < crumbs.len() && crumbs[from] != home {
        lemma_no_home_before(crumbs, home, from + 1, i);
    }
}

/// A crumb stands for its folder, and is called by its name; home is called `~`. Only the last one is
/// the folder in view. A separator stands before every crumb but the first, and not behind the root of
/// the file system, which is one itself.
pub proof fn law_crumbs_tell_their_folder(
    shown: Crumb,
    crumbs: Seq<Location>,
    names: Seq<String>,
    roots: Seq<bool>,
    home: Place,
    start: int,
    at: int,
)
    requires
        0 <= start <= at < crumbs.len(),
        is_crumb(shown, crumbs, names, roots, home, start, at),
    ensures
        shown.location == crumbs[at],
        crumbs[at]@.place() != home ==> shown.label@ == names[at]@,
        crumbs[at]@.place() == home ==> shown.label@ == "~"@,
        shown.is_current <==> at + 1 == crumbs.len(),
        shown.is_root == roots[at],
        at == start ==> !shown.separator_before,
        at == start + 1 ==> shown.separator_before == !roots[start],
        at > start + 1 ==> shown.separator_before,
{
}

/// Only a native path with the components of `/` is the root of the file system.
pub proof fn law_root_is_a_native_path(crumbs: Seq<LocationView>, i: int)
    requires
        0 <= i < crumbs.len(),
    ensures
        root_flags(crumbs).len() == crumbs.len(),
        root_flags(crumbs)[i] <==> crumbs[i] is Native && crumbs[i].place() == LocationView::Native(
            "/"@,
        ).place(),
{
}

/// A press on the trail is one on a button where a button is met on the way out before the trail is,
/// and not where the trail comes first or no button comes at all.
pub proof fn law_buttons_are_met_before_the_trail(way: Seq<TrailWidget>, at: int)
    requires
        0 <= at <= way.len(),
        forall|k: int| 0 <= k < at ==> #[trigger] way[k] !is Button,
        forall|k: int| 0 < k < at ==> #[trigger] way[k] !is Trail,
    ensures
        at < way.len() && way[at] is Button ==> meets_button(way),
        0 < at < way.len() && way[at] is Trail ==> !meets_button(way),
        at == way.len() ==> !meets_button(way),
    decreases at,
{
    if at > 0 {
        let rest = way.skip(1);
        assert forall|k: int| 0 <= k < at - 1 implies #[trigger] rest[k] !is Button by {
            assert(way[k + 1] !is Button);
        }
        assert forall|k: int| 0 < k < at - 1 implies #[trigger] rest[k] !is Trail by {
            assert(way[k + 1] !is Trail);
        }
        law_buttons_are_met_before_the_trail(rest, at - 1);
        assert(way[0] !is Button);
        if at > 1 {
            assert(way[1] !is Trail);
        }
        if at < way.len() {
            assert(rest[at - 1] == way[at]);
        }
    }
}

} // verus!
