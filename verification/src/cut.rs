//! What was cut, and how the browser recognises it when it comes back from the clipboard, where a
//! location may be written in another way.

use crate::clipboard::TransferRequest;
use crate::entry::FileEntry;
use crate::location::{
    contains_location, duplicate_locations, is_trash_location, places, Location, LocationView,
    Place,
};
use vstd::multiset::Multiset;
use vstd::prelude::*;

verus! {

/// For each location of one list, whether each of another stands for the same file. A file may be
/// written in more than one way; what the file system says of that comes with `verdicts`.
pub open spec fn links(
    left: Seq<Place>,
    right: Seq<Place>,
    verdicts: Seq<Seq<bool>>,
) -> Seq<Seq<bool>> {
    Seq::new(
        left.len(),
        |i: int| Seq::new(right.len(), |j: int| left[i] == right[j] || verdicts[i][j]),
    )
}

/// The contents of a table.
pub open spec fn table(rows: Seq<Vec<bool>>) -> Seq<Seq<bool>> {
    rows.map_values(|row: Vec<bool>| row@)
}

/// Whether a table has a verdict for each pair of the two lists.
pub open spec fn is_table_for(verdicts: Seq<Seq<bool>>, rows: nat, columns: nat) -> bool {
    &&& verdicts.len() == rows
    &&& forall|i: int| 0 <= i < rows ==> (#[trigger] verdicts[i]).len() == columns
}

/// Whether two locations stand for the same file: equal, or the same by the verdict of the file
/// system.
pub fn locations_equal(left: &Location, right: &Location, verdict: bool) -> (result: bool)
    ensures
        result == (left@.place() == right@.place() || verdict),
{
    left.same_as(right) || verdict
}

/// The first place from `from` on that is linked and not taken, or the end.
pub open spec fn first_free(row: Seq<bool>, taken: Seq<bool>, from: int) -> int
    decreases row.len() - from,
{
    if from >= row.len() {
        row.len() as int
    } else if row[from] && !taken[from] {
        from
    } else {
        first_free(row, taken, from + 1)
    }
}

/// Whether each row from `from` on finds a place of its own, the first one free for it.
pub open spec fn pairs_up(links: Seq<Seq<bool>>, from: int, taken: Seq<bool>) -> bool
    decreases links.len() - from,
{
    if from >= links.len() {
        true
    } else {
        let place = first_free(links[from], taken, 0);
        place < taken.len() && pairs_up(links, from + 1, taken.update(place, true))
    }
}

/// Nothing taken.
pub open spec fn none_taken(places: nat) -> Seq<bool> {
    Seq::new(places, |j: int| false)
}

/// Whether both lists have the same members.
pub open spec fn same_members(left: Seq<Place>, right: Seq<Place>) -> bool {
    forall|location: Place| #[trigger] left.contains(location) <==> right.contains(location)
}

/// Whether the two lists stand for the same files, in whatever order: some, as many here as there,
/// and either with equal members or paired off one by one.
pub open spec fn same_files(
    left: Seq<Place>,
    right: Seq<Place>,
    verdicts: Seq<Seq<bool>>,
) -> bool {
    &&& left.len() > 0
    &&& left.len() == right.len()
    &&& same_members(left, right) || pairs_up(
        links(left, right, verdicts),
        0,
        none_taken(right.len()),
    )
}

fn all_contained(left: &Vec<Location>, right: &Vec<Location>) -> (result: bool)
    ensures
        result == forall|location: Place| #[trigger]
            places(left@).contains(location) ==> places(right@).contains(location),
{
    let mut i: usize = 0;
    while i < left.len()
        invariant
            i <= left@.len(),
            forall|k: int|
                0 <= k < i ==> places(right@).contains((#[trigger] left@[k])@.place()),
        decreases left@.len() - i,
    {
        if !contains_location(right, &left[i]) {
            assert(places(left@)[i as int] == left@[i as int]@.place());
            assert(places(left@).contains(left@[i as int]@.place()));
            return false;
        }
        i = i + 1;
    }
    assert forall|location: Place| #[trigger]
        places(left@).contains(location) implies places(right@).contains(location) by {
        let k = places(left@).index_of(location);
        assert(left@[k]@.place() == location);
    }
    true
}

proof fn lemma_first_free_from(row: Seq<bool>, taken: Seq<bool>, from: int, to: int)
    requires
        0 <= from <= to <= row.len(),
        forall|k: int| from <= k < to ==> !(#[trigger] row[k] && !taken[k]),
    ensures
        first_free(row, taken, from) == first_free(row, taken, to),
    decreases to - from,
{
    if from < to {
        assert(!(row[from] && !taken[from]));
        lemma_first_free_from(row, taken, from + 1, to);
    }
}

/// Whether the two lists stand for the same files, in whatever order. `verdicts[i][j]` is the
/// verdict of the file system on `left[i]` and `right[j]`.
pub fn same_locations(
    left: &Vec<Location>,
    right: &Vec<Location>,
    verdicts: &Vec<Vec<bool>>,
) -> (result: bool)
    requires
        is_table_for(table(verdicts@), left@.len(), right@.len()),
    ensures
        result == same_files(places(left@), places(right@), table(verdicts@)),
{
    if left.len() == 0 || left.len() != right.len() {
        return false;
    }
    if all_contained(left, right) && all_contained(right, left) {
        assert(same_members(places(left@), places(right@)));
        return true;
    }
    assert(!same_members(places(left@), places(right@)));
    let ghost linked = links(places(left@), places(right@), table(verdicts@));
    let mut taken: Vec<bool> = Vec::new();
    let mut filled: usize = 0;
    while filled < right.len()
        invariant
            filled <= right@.len(),
            taken@ == none_taken(filled as nat),
        decreases right@.len() - filled,
    {
        taken.push(false);
        filled = filled + 1;
        assert(taken@ == none_taken(filled as nat));
    }
    let mut i: usize = 0;
    while i < left.len()
        invariant
            i <= left@.len(),
            linked == links(places(left@), places(right@), table(verdicts@)),
            is_table_for(table(verdicts@), left@.len(), right@.len()),
            taken@.len() == right@.len(),
            !same_members(places(left@), places(right@)),
            pairs_up(linked, 0, none_taken(right@.len())) == pairs_up(linked, i as int, taken@),
        decreases left@.len() - i,
    {
        assert(table(verdicts@)[i as int] == verdicts@[i as int]@);
        let mut j: usize = 0;
        while j < right.len() && !(!taken[j] && locations_equal(
            &left[i],
            &right[j],
            verdicts[i][j],
        ))
            invariant
                i < left@.len(),
                j <= right@.len(),
                linked == links(places(left@), places(right@), table(verdicts@)),
                is_table_for(table(verdicts@), left@.len(), right@.len()),
                table(verdicts@)[i as int] == verdicts@[i as int]@,
                taken@.len() == right@.len(),
                forall|k: int| 0 <= k < j ==> !(#[trigger] linked[i as int][k] && !taken@[k]),
            ensures
                j <= right@.len(),
                forall|k: int| 0 <= k < j ==> !(#[trigger] linked[i as int][k] && !taken@[k]),
                j < right@.len() ==> linked[i as int][j as int] && !taken@[j as int],
            decreases right@.len() - j,
        {
            j = j + 1;
        }
        proof {
            lemma_first_free_from(linked[i as int], taken@, 0, j as int);
        }
        if j >= right.len() {
            return false;
        }
        taken.set(j, true);
        i = i + 1;
    }
    true
}

/// The items whose flag is set, in order.
pub open spec fn flagged<T>(items: Seq<T>, keep: Seq<bool>) -> Seq<T>
    decreases items.len(),
{
    if items.len() == 0 {
        items
    } else if keep[items.len() - 1] {
        flagged(items.drop_last(), keep).push(items.last())
    } else {
        flagged(items.drop_last(), keep)
    }
}

/// For each row, whether it is linked to nothing.
pub open spec fn unlinked(links: Seq<Seq<bool>>) -> Seq<bool> {
    links.map_values(|row: Seq<bool>| !row.contains(true))
}

/// What is left of a cut once the given files were moved: the locations that stand for none of
/// them, in their order.
pub open spec fn untransferred(
    cut: Seq<Location>,
    transferred: Seq<Place>,
    verdicts: Seq<Seq<bool>>,
) -> Seq<Location> {
    flagged(cut, unlinked(links(places(cut), transferred, verdicts)))
}

/// Takes the files that were moved out of a cut. `verdicts[i][j]` is the verdict of the file system
/// on `cut[i]` and `transferred[j]`.
pub fn retain_untransferred(
    cut: &mut Vec<Location>,
    transferred: &Vec<Location>,
    verdicts: &Vec<Vec<bool>>,
)
    requires
        is_table_for(table(verdicts@), old(cut)@.len(), transferred@.len()),
    ensures
        final(cut)@ == untransferred(old(cut)@, places(transferred@), table(verdicts@)),
{
    let ghost linked = links(
        places(cut@),
        places(transferred@),
        table(verdicts@),
    );
    let ghost keep = unlinked(linked);
    let mut kept: Vec<Location> = Vec::new();
    let mut i: usize = 0;
    while i < cut.len()
        invariant
            cut@ == old(cut)@,
            i <= cut@.len(),
            linked == links(
                places(cut@),
                places(transferred@),
                table(verdicts@),
            ),
            keep == unlinked(linked),
            is_table_for(table(verdicts@), cut@.len(), transferred@.len()),
            kept@ == flagged(cut@.take(i as int), keep),
        decreases cut@.len() - i,
    {
        assert(table(verdicts@)[i as int] == verdicts@[i as int]@);
        assert(cut@.take(i + 1).drop_last() == cut@.take(i as int));
        let mut moved: bool = false;
        let mut j: usize = 0;
        while j < transferred.len()
            invariant
                i < cut@.len(),
                j <= transferred@.len(),
                linked == links(
                    places(cut@),
                    places(transferred@),
                    table(verdicts@),
                ),
                is_table_for(table(verdicts@), cut@.len(), transferred@.len()),
                table(verdicts@)[i as int] == verdicts@[i as int]@,
                moved == exists|k: int| 0 <= k < j && #[trigger] linked[i as int][k],
            decreases transferred@.len() - j,
        {
            if locations_equal(&cut[i], &transferred[j], verdicts[i][j]) {
                assert(linked[i as int][j as int]);
                moved = true;
            }
            j = j + 1;
        }
        proof {
            let row = linked[i as int];
            if moved {
                let k = choose|k: int| 0 <= k < j && #[trigger] linked[i as int][k];
                assert(row[k] == true);
                assert(row.contains(true));
            } else if row.contains(true) {
                let k = row.index_of(true);
                assert(linked[i as int][k]);
            }
        }
        if !moved {
            kept.push(cut[i].duplicate());
        }
        i = i + 1;
    }
    assert(cut@.take(i as int) == cut@);
    *cut = kept;
}

/// The locations of a list of entries.
pub open spec fn locations_of(entries: Seq<FileEntry>) -> Seq<Location> {
    entries.map_values(|entry: FileEntry| entry.location)
}

/// The locations of a list of entries.
pub fn entry_locations(entries: &Vec<FileEntry>) -> (result: Vec<Location>)
    ensures
        result@ == locations_of(entries@),
{
    let mut result: Vec<Location> = Vec::new();
    let mut i: usize = 0;
    while i < entries.len()
        invariant
            i <= entries@.len(),
            result@ == locations_of(entries@).take(i as int),
        decreases entries@.len() - i,
    {
        result.push(entries[i].location.duplicate());
        i = i + 1;
        assert(locations_of(entries@).take(i as int) == locations_of(entries@).take(i - 1).push(
            entries@[i - 1].location,
        ));
    }
    assert(locations_of(entries@).take(i as int) == locations_of(entries@));
    result
}

/// What becomes of the clipboard once cut files were moved.
#[derive(Debug)]
pub enum ClipboardUpdate {
    Clear,
    Keep(Vec<Location>),
}

/// What was cut, in any window.
#[derive(Debug)]
pub struct CutFiles {
    pub locations: Vec<Location>,
}

impl CutFiles {
    /// Nothing cut.
    pub fn new() -> (result: Self)
        ensures
            result.locations@.len() == 0,
    {
        CutFiles { locations: Vec::new() }
    }

    /// Cuts the given files in place of those cut before.
    pub fn set_shared_cut(&mut self, locations: &Vec<Location>)
        ensures
            final(self).locations@ == locations@,
    {
        self.locations = duplicate_locations(locations);
    }

    /// Forgets what was cut.
    pub fn clear_shared_cut(&mut self)
        ensures
            final(self).locations@.len() == 0,
    {
        self.locations = Vec::new();
    }

    /// Whether the given files are those that were cut.
    pub fn is_cut_match(&self, sources: &Vec<Location>, verdicts: &Vec<Vec<bool>>) -> (result: bool)
        requires
            is_table_for(table(verdicts@), sources@.len(), self.locations@.len()),
        ensures
            result == same_files(
                places(sources@),
                places(self.locations@),
                table(verdicts@),
            ),
    {
        same_locations(sources, &self.locations, verdicts)
    }

    /// Whether the row of an entry is drawn as cut when it comes on the screen: where the entry is
    /// one of those cut, be it written in another way. `verdicts` tells for each of those cut what
    /// the file system says of that.
    pub fn is_cut(&self, location: &Location, verdicts: &Vec<bool>) -> (result: bool)
        requires
            verdicts@.len() == self.locations@.len(),
        ensures
            result == exists|i: int|
                0 <= i < self.locations@.len() && ((#[trigger] self.locations@[i])@.place()
                    == location@.place() || verdicts@[i]),
    {
        let mut i: usize = 0;
        while i < self.locations.len()
            invariant
                i <= self.locations@.len(),
                verdicts@.len() == self.locations@.len(),
                forall|k: int|
                    0 <= k < i ==> (#[trigger] self.locations@[k])@.place() != location@.place()
                        && !verdicts@[k],
            decreases self.locations@.len() - i,
        {
            if locations_equal(&self.locations[i], location, verdicts[i]) {
                assert(self.locations@[i as int]@.place() == location@.place()
                    || verdicts@[i as int]);
                return true;
            }
            i = i + 1;
        }
        false
    }

    /// Whether a row that is on the screen is drawn as cut after other files were cut: where its
    /// entry is one of them, written in the same way.
    pub fn is_newly_cut(&self, location: &Location) -> (result: bool)
        ensures
            result == places(self.locations@).contains(location@.place()),
    {
        contains_location(&self.locations, location)
    }

    /// What a request to cut the given entries puts on the clipboard: their locations, or nothing
    /// where there are none or one of them cannot be removed.
    pub fn cut_request(&self, entries: &Vec<FileEntry>, removable: &Vec<bool>) -> (result: Option<
        Vec<Location>,
    >)
        requires
            removable@.len() == entries@.len(),
        ensures
            match result {
                Some(locations) => locations@ == locations_of(entries@) && entries@.len() > 0
                    && !removable@.contains(false),
                None => entries@.len() == 0 || removable@.contains(false),
            },
    {
        let mut i: usize = 0;
        while i < removable.len()
            invariant
                i <= removable@.len(),
                forall|k: int| 0 <= k < i ==> #[trigger] removable@[k],
            decreases removable@.len() - i,
        {
            if !removable[i] {
                assert(removable@[i as int] == false);
                return None;
            }
            i = i + 1;
        }
        assert(!removable@.contains(false));
        if entries.len() == 0 {
            None
        } else {
            Some(entry_locations(entries))
        }
    }

    /// Takes the answer of the clipboard to a cut; answers whether the files are cut now.
    pub fn cut_answered(&mut self, locations: &Vec<Location>, accepted: bool) -> (result: bool)
        ensures
            result == accepted,
            accepted ==> final(self).locations@ == locations@,
            !accepted ==> final(self).locations == old(self).locations,
    {
        if accepted {
            self.set_shared_cut(locations);
        }
        accepted
    }

    /// Takes the answer of the clipboard to a copy: nothing is cut any more once it holds the
    /// copies.
    pub fn copy_answered(&mut self, accepted: bool)
        ensures
            accepted ==> final(self).locations@.len() == 0,
            !accepted ==> final(self).locations == old(self).locations,
    {
        if accepted {
            self.clear_shared_cut();
        }
    }

    /// Takes the end of a move; answers what becomes of the clipboard.
    pub fn complete_cut_transfer(
        &mut self,
        transferred: &Vec<Location>,
        verdicts: &Vec<Vec<bool>>,
    ) -> (result: ClipboardUpdate)
        requires
            is_table_for(table(verdicts@), old(self).locations@.len(), transferred@.len()),
        ensures
            final(self).locations@ == untransferred(
                old(self).locations@,
                places(transferred@),
                table(verdicts@),
            ),
            match result {
                ClipboardUpdate::Clear => final(self).locations@.len() == 0,
                ClipboardUpdate::Keep(remaining) => remaining@ == final(self).locations@
                    && remaining@.len() > 0,
            },
    {
        retain_untransferred(&mut self.locations, transferred, verdicts);
        if self.locations.len() == 0 {
            ClipboardUpdate::Clear
        } else {
            ClipboardUpdate::Keep(duplicate_locations(&self.locations))
        }
    }

    /// What pasting files asks for: those that were cut are moved, others are copied. Nothing is
    /// pasted into the trash.
    pub fn paste_into(
        &self,
        destination: Location,
        sources: Vec<Location>,
        verdicts: &Vec<Vec<bool>>,
    ) -> (result: Option<TransferRequest>)
        requires
            is_table_for(table(verdicts@), sources@.len(), self.locations@.len()),
        ensures
            result == if destination@.in_trash() {
                None
            } else {
                Some(
                    TransferRequest::StartTransfer {
                        destination,
                        sources,
                        move_sources: same_files(
                            places(sources@),
                            places(self.locations@),
                            table(verdicts@),
                        ),
                    },
                )
            },
    {
        if is_trash_location(&destination) {
            return None;
        }
        let move_sources: bool = self.is_cut_match(&sources, verdicts);
        Some(TransferRequest::StartTransfer { destination, sources, move_sources })
    }
}

/// Where a pasted picture is written: into a folder of the local file system outside the trash.
pub fn paste_image_directory(destination: &Location) -> (result: Option<&str>)
    ensures
        match result {
            Some(path) => destination@ == LocationView::Native(path@),
            None => destination@ is Uri,
        },
{
    if is_trash_location(destination) {
        return None;
    }
    destination.native_path()
}

/// The classes of the places that are not taken.
pub open spec fn free_classes(classes: Seq<int>, taken: Seq<bool>) -> Multiset<int>
    decreases classes.len(),
{
    if classes.len() == 0 {
        Multiset::empty()
    } else if taken[classes.len() - 1] {
        free_classes(classes.drop_last(), taken)
    } else {
        free_classes(classes.drop_last(), taken).insert(classes.last())
    }
}

proof fn lemma_free_classes_same(classes: Seq<int>, taken: Seq<bool>, other: Seq<bool>)
    requires
        classes.len() <= taken.len(),
        classes.len() <= other.len(),
        forall|k: int| 0 <= k < classes.len() ==> #[trigger] taken[k] == other[k],
    ensures
        free_classes(classes, taken) == free_classes(classes, other),
    decreases classes.len(),
{
    if classes.len() > 0 {
        lemma_free_classes_same(classes.drop_last(), taken, other);
    }
}

proof fn lemma_free_classes_take(classes: Seq<int>, taken: Seq<bool>, place: int)
    requires
        0 <= place < classes.len(),
        classes.len() <= taken.len(),
        !taken[place],
    ensures
        free_classes(classes, taken) == free_classes(classes, taken.update(place, true)).insert(
            classes[place],
        ),
    decreases classes.len(),
{
    let after = taken.update(place, true);
    if place == classes.len() - 1 {
        lemma_free_classes_same(classes.drop_last(), taken, after);
    } else {
        lemma_free_classes_take(classes.drop_last(), taken, place);
        let front = free_classes(classes.drop_last(), after);
        assert(front.insert(classes[place]).insert(classes.last()) == front.insert(
            classes.last(),
        ).insert(classes[place]));
    }
}

proof fn lemma_free_classes_absent(classes: Seq<int>, taken: Seq<bool>, class: int)
    requires
        classes.len() <= taken.len(),
        forall|k: int| 0 <= k < classes.len() ==> !(#[trigger] classes[k] == class && !taken[k]),
    ensures
        free_classes(classes, taken).count(class) == 0,
    decreases classes.len(),
{
    if classes.len() > 0 {
        lemma_free_classes_absent(classes.drop_last(), taken, class);
        assert(!(classes[classes.len() - 1] == class && !taken[classes.len() - 1]));
    }
}

proof fn lemma_first_free_finds(row: Seq<bool>, taken: Seq<bool>, from: int)
    requires
        0 <= from <= row.len(),
        row.len() == taken.len(),
    ensures
        from <= first_free(row, taken, from) <= row.len(),
        first_free(row, taken, from) < row.len() ==> row[first_free(row, taken, from)]
            && !taken[first_free(row, taken, from)],
        forall|k: int|
            from <= k < first_free(row, taken, from) ==> !(#[trigger] row[k] && !taken[k]),
    decreases row.len() - from,
{
    if from < row.len() && !(row[from] && !taken[from]) {
        lemma_first_free_finds(row, taken, from + 1);
    }
}

proof fn lemma_free_classes_all(classes: Seq<int>)
    ensures
        free_classes(classes, none_taken(classes.len())) == classes.to_multiset(),
    decreases classes.len(),
{
    broadcast use vstd::seq_lib::group_to_multiset_ensures;

    if classes.len() > 0 {
        let front = classes.drop_last();
        lemma_free_classes_all(front);
        lemma_free_classes_same(front, none_taken(classes.len()), none_taken(front.len()));
        assert(front.push(classes.last()) == classes);
    } else {
        assert(classes.to_multiset() == Multiset::<int>::empty());
    }
}

proof fn lemma_pairs_up_by_class(
    links: Seq<Seq<bool>>,
    from: int,
    taken: Seq<bool>,
    left: Seq<int>,
    right: Seq<int>,
)
    requires
        0 <= from <= left.len(),
        links.len() == left.len(),
        taken.len() == right.len(),
        forall|i: int| 0 <= i < left.len() ==> (#[trigger] links[i]).len() == right.len(),
        forall|i: int, j: int|
            0 <= i < left.len() && 0 <= j < right.len() ==> #[trigger] links[i][j] == (left[i]
                == right[j]),
    ensures
        pairs_up(links, from, taken) <==> left.skip(from).to_multiset().subset_of(
            free_classes(right, taken),
        ),
    decreases left.len() - from,
{
    broadcast use vstd::seq_lib::group_to_multiset_ensures;

    let rest = left.skip(from);
    if from == left.len() {
        assert(rest =~= Seq::<int>::empty());
        assert(rest.to_multiset().len() == 0);
        assert forall|c: int| rest.to_multiset().count(c) == 0 by {
            assert(!rest.contains(c));
        }
    } else {
        let class = left[from];
        let after = left.skip(from + 1);
        assert(rest.remove(0) == after);
        assert(rest[0] == class);
        let wanted = rest.to_multiset();
        assert(rest.contains(class));
        assert(wanted.count(class) > 0);
        assert(after.to_multiset() == wanted.remove(class));
        let row = links[from];
        let place = first_free(row, taken, 0);
        lemma_first_free_finds(row, taken, 0);
        let free = free_classes(right, taken);
        if place < taken.len() {
            let next = taken.update(place, true);
            lemma_pairs_up_by_class(links, from + 1, next, left, right);
            lemma_free_classes_take(right, taken, place);
            let free_after = free_classes(right, next);
            assert(links[from][place]);
            assert(free == free_after.insert(class));
            if after.to_multiset().subset_of(free_after) {
                assert forall|c: int| wanted.count(c) <= #[trigger] free.count(c) by {
                    assert(after.to_multiset().count(c) <= free_after.count(c));
                }
            }
            if wanted.subset_of(free) {
                assert forall|c: int| after.to_multiset().count(c) <= #[trigger] free_after.count(
                    c,
                ) by {
                    assert(wanted.count(c) <= free.count(c));
                }
            }
        } else {
            assert forall|k: int| 0 <= k < right.len() implies !(#[trigger] right[k] == class
                && !taken[k]) by {
                assert(links[from][k] == (left[from] == right[k]));
            }
            lemma_free_classes_absent(right, taken, class);
            assert(free.count(class) == 0);
        }
    }
}

/// Where the verdicts of the file system sort the locations into files, the two lists pair off
/// exactly where the one needs no file more often than the other has it. So the order of neither
/// list matters.
pub proof fn law_pairing_ignores_order(
    linked: Seq<Seq<bool>>,
    left: Seq<int>,
    right: Seq<int>,
)
    requires
        is_table_for(linked, left.len(), right.len()),
        forall|i: int, j: int|
            0 <= i < left.len() && 0 <= j < right.len() ==> #[trigger] linked[i][j] == (left[i]
                == right[j]),
    ensures
        pairs_up(linked, 0, none_taken(right.len())) <==> left.to_multiset().subset_of(
            right.to_multiset(),
        ),
{
    lemma_pairs_up_by_class(linked, 0, none_taken(right.len()), left, right);
    assert(left.skip(0) == left);
    lemma_free_classes_all(right);
}

/// A list stands for the same files as itself in any order, if it holds anything at all.
pub proof fn law_reordered_cut_matches(
    left: Seq<Place>,
    right: Seq<Place>,
    verdicts: Seq<Seq<bool>>,
)
    requires
        left.len() > 0,
        left.to_multiset() == right.to_multiset(),
    ensures
        same_files(left, right, verdicts),
{
    broadcast use vstd::seq_lib::group_to_multiset_ensures;

    assert(left.len() == left.to_multiset().len());
    assert(right.len() == right.to_multiset().len());
    assert forall|location: Place| #[trigger] left.contains(location) <==> right.contains(
        location,
    ) by {
        assert(left.contains(location) <==> left.to_multiset().count(location) > 0);
        assert(right.contains(location) <==> right.to_multiset().count(location) > 0);
    }
}

/// A forgotten cut matches nothing, and neither does an empty list match any cut.
pub proof fn law_cleared_cut_matches_nothing(
    sources: Seq<Place>,
    cut: Seq<Place>,
    verdicts: Seq<Seq<bool>>,
)
    requires
        sources.len() == 0 || cut.len() == 0,
    ensures
        !same_files(sources, cut, verdicts),
{
}

/// Whether an item is one of those whose flag is set.
pub open spec fn is_flagged<T>(items: Seq<T>, keep: Seq<bool>, item: T) -> bool {
    exists|i: int| 0 <= i < items.len() && keep[i] && #[trigger] items[i] == item
}

proof fn lemma_flagged_members<T>(items: Seq<T>, keep: Seq<bool>)
    requires
        items.len() <= keep.len(),
    ensures
        flagged(items, keep).len() <= items.len(),
        forall|k: int|
            0 <= k < flagged(items, keep).len() ==> is_flagged(
                items,
                keep,
                #[trigger] flagged(items, keep)[k],
            ),
    decreases items.len(),
{
    if items.len() > 0 {
        let front = items.drop_last();
        lemma_flagged_members(front, keep);
        let result = flagged(items, keep);
        assert forall|k: int| 0 <= k < result.len() implies is_flagged(
            items,
            keep,
            #[trigger] result[k],
        ) by {
            let before = flagged(front, keep);
            if k < before.len() {
                assert(result[k] == before[k]);
                assert(is_flagged(front, keep, before[k]));
                let i = choose|i: int|
                    0 <= i < front.len() && keep[i] && #[trigger] front[i] == before[k];
                assert(items[i] == result[k]);
            } else {
                assert(items[items.len() - 1] == result[k]);
            }
        }
    }
}

/// Once files were moved, the cut holds none that equals one of them, and nothing that it
/// did not hold before.
pub proof fn law_moved_files_leave_the_cut(
    cut: Seq<Location>,
    transferred: Seq<Place>,
    verdicts: Seq<Seq<bool>>,
)
    requires
        is_table_for(verdicts, cut.len(), transferred.len()),
    ensures
        untransferred(cut, transferred, verdicts).len() <= cut.len(),
        forall|k: int|
            0 <= k < untransferred(cut, transferred, verdicts).len() ==> cut.contains(
                #[trigger] untransferred(cut, transferred, verdicts)[k],
            ) && !transferred.contains(untransferred(cut, transferred, verdicts)[k]@.place()),
{
    let linked = links(places(cut), transferred, verdicts);
    let keep = unlinked(linked);
    lemma_flagged_members(cut, keep);
    let left = untransferred(cut, transferred, verdicts);
    assert forall|k: int| 0 <= k < left.len() implies cut.contains(#[trigger] left[k])
        && !transferred.contains(left[k]@.place()) by {
        assert(is_flagged(cut, keep, flagged(cut, keep)[k]));
        let i = choose|i: int| 0 <= i < cut.len() && keep[i] && #[trigger] cut[i] == left[k];
        assert(!linked[i].contains(true));
        if transferred.contains(left[k]@.place()) {
            let j = transferred.index_of(left[k]@.place());
            assert(places(cut)[i] == transferred[j]);
            assert(linked[i][j] == true);
            assert(false);
        }
    }
}

/// What is flagged of a list is found part by part: of two lists after one another, what is flagged
/// of the first and then of the second. A single item is kept exactly where it is flagged.
pub proof fn law_flags_keep_items_in_order<T>(
    left: Seq<T>,
    right: Seq<T>,
    left_flags: Seq<bool>,
    right_flags: Seq<bool>,
    item: T,
    flag: bool,
)
    requires
        left.len() == left_flags.len(),
        right.len() == right_flags.len(),
    ensures
        flagged(left + right, left_flags + right_flags) == flagged(left, left_flags) + flagged(
            right,
            right_flags,
        ),
        flagged(seq![item], seq![flag]) == if flag {
            seq![item]
        } else {
            Seq::empty()
        },
        flagged(Seq::<T>::empty(), Seq::empty()) == Seq::<T>::empty(),
    decreases right.len(),
{
    reveal_with_fuel(flagged, 2);
    assert(seq![item].drop_last() =~= Seq::<T>::empty());
    assert(flagged(seq![item], seq![flag]) =~= if flag {
        seq![item]
    } else {
        Seq::empty()
    });
    let flags = left_flags + right_flags;
    if right.len() == 0 {
        assert(left + right =~= left);
        assert(flags =~= left_flags);
        assert(flagged(left, left_flags) + flagged(right, right_flags) =~= flagged(
            left,
            left_flags,
        ));
    } else {
        let shorter = right_flags.drop_last();
        law_flags_keep_items_in_order(left, right.drop_last(), left_flags, shorter, item, flag);
        assert((left + right).drop_last() =~= left + right.drop_last());
        lemma_flagged_same(left + right.drop_last(), flags, left_flags + shorter);
        lemma_flagged_same(right.drop_last(), right_flags, shorter);
        assert(flagged(left + right, flags) =~= flagged(left, left_flags) + flagged(
            right,
            right_flags,
        ));
    }
}

proof fn lemma_flagged_same<T>(items: Seq<T>, flags: Seq<bool>, other: Seq<bool>)
    requires
        items.len() <= flags.len(),
        items.len() <= other.len(),
        forall|k: int| 0 <= k < items.len() ==> #[trigger] flags[k] == other[k],
    ensures
        flagged(items, flags) == flagged(items, other),
    decreases items.len(),
{
    if items.len() > 0 {
        lemma_flagged_same(items.drop_last(), flags, other);
        assert(flags[items.len() - 1] == other[items.len() - 1]);
    }
}

/// What stays cut is found file by file: each that was neither moved nor is, as the file system says,
/// one of those moved stays at its place among the others, and each that was leaves.
pub proof fn law_files_stay_cut_one_by_one(
    left: Seq<Location>,
    right: Seq<Location>,
    transferred: Seq<Place>,
    left_verdicts: Seq<Seq<bool>>,
    right_verdicts: Seq<Seq<bool>>,
    file: Location,
    row: Seq<bool>,
)
    requires
        is_table_for(left_verdicts, left.len(), transferred.len()),
        is_table_for(right_verdicts, right.len(), transferred.len()),
        row.len() == transferred.len(),
    ensures
        untransferred(left + right, transferred, left_verdicts + right_verdicts) == untransferred(
            left,
            transferred,
            left_verdicts,
        ) + untransferred(right, transferred, right_verdicts),
        untransferred(seq![file], transferred, seq![row]) == if exists|j: int|
            0 <= j < transferred.len() && (#[trigger] transferred[j] == file@.place() || row[j]) {
            Seq::empty()
        } else {
            seq![file]
        },
{
    let first = unlinked(links(places(left), transferred, left_verdicts));
    let second = unlinked(links(places(right), transferred, right_verdicts));
    let both = unlinked(links(places(left + right), transferred, left_verdicts + right_verdicts));
    law_flags_keep_items_in_order(left, right, first, second, file, true);
    assert forall|k: int| 0 <= k < both.len() implies both[k] == (first + second)[k] by {
        let whole = links(places(left + right), transferred, left_verdicts + right_verdicts)[k];
        if k < left.len() {
            assert(whole =~= links(places(left), transferred, left_verdicts)[k]);
        } else {
            assert(whole =~= links(places(right), transferred, right_verdicts)[k - left.len()]);
        }
    }
    assert(both =~= first + second);
    let linked = links(places(seq![file]), transferred, seq![row]);
    let stays = unlinked(linked);
    assert(stays =~= seq![stays[0]]);
    law_flags_keep_items_in_order(seq![file], Seq::empty(), stays, Seq::empty(), file, stays[0]);
    if exists|j: int|
        0 <= j < transferred.len() && (#[trigger] transferred[j] == file@.place() || row[j]) {
        let j = choose|j: int|
            0 <= j < transferred.len() && (#[trigger] transferred[j] == file@.place() || row[j]);
        assert(linked[0][j]);
        assert(linked[0].contains(true));
    } else {
        assert forall|j: int| 0 <= j < linked[0].len() implies !linked[0][j] by {
            assert(!(transferred[j] == file@.place() || row[j]));
        }
        assert(!linked[0].contains(true));
    }
}

proof fn lemma_paired_are_linked(links: Seq<Seq<bool>>, from: int, taken: Seq<bool>, i: int)
    requires
        0 <= from <= i < links.len(),
        forall|k: int| 0 <= k < links.len() ==> (#[trigger] links[k]).len() == taken.len(),
        pairs_up(links, from, taken),
    ensures
        exists|j: int| 0 <= j < taken.len() && #[trigger] links[i][j],
    decreases links.len() - from,
{
    let place = first_free(links[from], taken, 0);
    assert(links[from].len() == taken.len());
    lemma_first_free_finds(links[from], taken, 0);
    if i == from {
        assert(links[i][place]);
    } else {
        lemma_paired_are_linked(links, from + 1, taken.update(place, true), i);
    }
}

/// Files are moved only where as many were cut, at least one, and where each of them is one that was
/// cut, be it as the file system says.
pub proof fn law_only_cut_files_are_moved(
    sources: Seq<Place>,
    cut: Seq<Place>,
    verdicts: Seq<Seq<bool>>,
    i: int,
)
    requires
        is_table_for(verdicts, sources.len(), cut.len()),
        same_files(sources, cut, verdicts),
        0 <= i < sources.len(),
    ensures
        sources.len() == cut.len(),
        exists|j: int| 0 <= j < cut.len() && (sources[i] == #[trigger] cut[j] || verdicts[i][j]),
{
    if same_members(sources, cut) {
        assert(sources.contains(sources[i]));
        assert(cut.contains(sources[i]));
        let j = choose|j: int| 0 <= j < cut.len() && cut[j] == sources[i];
        assert(cut[j] == sources[i]);
    } else {
        let linked = links(sources, cut, verdicts);
        lemma_paired_are_linked(linked, 0, none_taken(cut.len()), i);
        let j = choose|j: int| 0 <= j < cut.len() && #[trigger] linked[i][j];
        assert(sources[i] == cut[j] || verdicts[i][j]);
    }
}

/// Files that the file system knows under other names count as those cut: where every source and every
/// cut file is of some class that decides whether two of them are one, equal numbers of each class are
/// enough.
pub proof fn law_other_names_of_cut_files_count(
    sources: Seq<Place>,
    cut: Seq<Place>,
    verdicts: Seq<Seq<bool>>,
    source_classes: Seq<int>,
    cut_classes: Seq<int>,
)
    requires
        source_classes.len() == sources.len(),
        cut.len() == sources.len(),
        cut_classes.len() == sources.len(),
        sources.len() > 0,
        is_table_for(verdicts, sources.len(), cut.len()),
        forall|i: int, j: int|
            #![trigger source_classes[i], cut_classes[j]]
            0 <= i < sources.len() && 0 <= j < cut.len() ==> (sources[i] == cut[j]
                || verdicts[i][j]) == (source_classes[i] == cut_classes[j]),
        source_classes.to_multiset() == cut_classes.to_multiset(),
    ensures
        same_files(sources, cut, verdicts),
{
    let linked = links(sources, cut, verdicts);
    assert forall|i: int, j: int|
        0 <= i < sources.len() && 0 <= j < cut.len() implies #[trigger] linked[i][j] == (
    source_classes[i] == cut_classes[j]) by {
        assert(linked[i][j] == (sources[i] == cut[j] || verdicts[i][j]));
    }
    law_pairing_ignores_order(linked, source_classes, cut_classes);
}

/// The locations of entries are theirs, in order, and the rows of a table those that were given.
pub proof fn law_locations_follow_the_entries(
    entries: Seq<FileEntry>,
    rows: Seq<Vec<bool>>,
    i: int,
)
    ensures
        locations_of(entries).len() == entries.len(),
        0 <= i < entries.len() ==> locations_of(entries)[i] == entries[i].location,
        table(rows).len() == rows.len(),
        0 <= i < rows.len() ==> table(rows)[i] == rows[i]@,
{
}

/// No cut file stands for two of the files that are moved: where classes decide which files are one,
/// none is needed more often than it was cut, unless both lists name the very same places.
pub proof fn law_cut_files_are_moved_once(
    sources: Seq<Place>,
    cut: Seq<Place>,
    verdicts: Seq<Seq<bool>>,
    source_classes: Seq<int>,
    cut_classes: Seq<int>,
)
    requires
        source_classes.len() == sources.len(),
        cut_classes.len() == cut.len(),
        is_table_for(verdicts, sources.len(), cut.len()),
        forall|i: int, j: int|
            #![trigger source_classes[i], cut_classes[j]]
            0 <= i < sources.len() && 0 <= j < cut.len() ==> (sources[i] == cut[j]
                || verdicts[i][j]) == (source_classes[i] == cut_classes[j]),
        same_files(sources, cut, verdicts),
    ensures
        source_classes.to_multiset().subset_of(cut_classes.to_multiset()) || forall|place: Place|
            #[trigger] sources.contains(place) <==> cut.contains(place),
{
    let linked = links(sources, cut, verdicts);
    assert forall|i: int, j: int|
        0 <= i < sources.len() && 0 <= j < cut.len() implies #[trigger] linked[i][j] == (
    source_classes[i] == cut_classes[j]) by {
        assert(linked[i][j] == (sources[i] == cut[j] || verdicts[i][j]));
    }
    if !same_members(sources, cut) {
        law_pairing_ignores_order(linked, source_classes, cut_classes);
    }
}

} // verus!
