//! The groups of a listing by the type of its entries, and the order in which a pane sorts them.

use crate::entry::{model_display_name, model_is_broken_link, model_is_directory, named_in};
use crate::input::{home_row_direction, vim_focus_direction, Direction, Key, Modifiers};
use crate::text::{
    before_last, characters, last_place, lemma_before_last, lemma_before_last_none, same_text,
    text_between,
};
use vstd::prelude::*;

verus! {

/// How many types are remembered.
pub const TYPE_GROUP_CACHE_LIMIT: usize = 2048;

/// What is remembered of a name: its suffix, from the last dot on, or all of it where that dot is
/// missing or begins the name. Names that share a suffix share a type.
pub open spec fn group_key(name: Seq<char>) -> Seq<char> {
    match before_last(name, '.') {
        Some(stem) => if stem.len() > 0 {
            name.skip(stem.len() as int)
        } else {
            name
        },
        None => name,
    }
}

/// What is remembered of a name.
pub fn type_group_key(name: &str) -> (result: String)
    ensures
        result@ == group_key(name@),
{
    let chars: Vec<char> = characters(name);
    match last_place(&chars, '.') {
        Some(at) => {
            proof {
                lemma_before_last(name@, '.', at as int);
            }
            if at > 0 {
                let end: usize = chars.len();
                let key: String = text_between(&chars, at, end);
                assert(key@ == name@.skip(at as int));
                key
            } else {
                name.to_owned()
            }
        },
        None => {
            proof {
                lemma_before_last_none(name@, '.');
            }
            name.to_owned()
        },
    }
}

/// The group of a file: the words for its type, or a plain one where the type is not known.
pub open spec fn guessed_group(content_type: Seq<char>, description: Seq<char>) -> Seq<char> {
    if content_type.len() == 0 || content_type == "application/octet-stream"@ || description.len()
        == 0 {
        "File"@
    } else {
        description
    }
}

/// The group of a file, from the type that was guessed from its name and the words for that type.
pub fn guess_type_group(content_type: &str, description: &str) -> (result: String)
    ensures
        result@ == guessed_group(content_type@, description@),
{
    if content_type.is_empty() || same_text(content_type, "application/octet-stream")
        || description.is_empty() {
        "File".to_owned()
    } else {
        description.to_owned()
    }
}

/// The groups that were told apart so far, each by what is remembered of a name.
#[derive(Debug)]
pub struct TypeGroups {
    pub groups: Vec<(String, String)>,
}

/// The group that is remembered first for a key.
pub open spec fn remembered(groups: Seq<(String, String)>, key: Seq<char>) -> Option<Seq<char>>
    decreases groups.len(),
{
    if groups.len() == 0 {
        None
    } else if groups[0].0@ == key {
        Some(groups[0].1@)
    } else {
        remembered(groups.skip(1), key)
    }
}

impl TypeGroups {
    /// No key is remembered twice, and not more keys than there is room for.
    pub open spec fn well_formed(&self) -> bool {
        &&& self.groups@.len() <= TYPE_GROUP_CACHE_LIMIT
        &&& forall|i: int, j: int|
            0 <= i < j < self.groups@.len() ==> (#[trigger] self.groups@[i]).0@ != (
            #[trigger] self.groups@[j]).0@
    }

    /// The group that is known for the value of a row without asking for its type.
    pub open spec fn known(&self, value: Seq<char>) -> Option<Seq<char>> {
        if "d"@.is_prefix_of(value) {
            Some("Folder"@)
        } else if "x"@.is_prefix_of(value) {
            Some("Broken link"@)
        } else {
            remembered(self.groups@, group_key(named_in(value)))
        }
    }

    /// No groups.
    pub fn new() -> (result: Self)
        ensures
            result.groups@.len() == 0,
            result.well_formed(),
    {
        TypeGroups { groups: Vec::new() }
    }

    fn find(&self, key: &str) -> (result: Option<String>)
        ensures
            match result {
                Some(group) => remembered(self.groups@, key@) == Some(group@),
                None => remembered(self.groups@, key@) is None,
            },
    {
        let mut i: usize = 0;
        assert(self.groups@.skip(0) == self.groups@);
        while i < self.groups.len()
            invariant
                i <= self.groups@.len(),
                remembered(self.groups@, key@) == remembered(self.groups@.skip(i as int), key@),
            decreases self.groups@.len() - i,
        {
            assert(self.groups@.skip(i as int)[0] == self.groups@[i as int]);
            assert(self.groups@.skip(i as int).skip(1) == self.groups@.skip(i + 1));
            if same_text(self.groups[i].0.as_str(), key) {
                return Some(self.groups[i].1.clone());
            }
            i = i + 1;
        }
        None
    }

    /// The group of the value of a row, where it is known: folders and links to nothing have their
    /// own, and files that of a name with the same suffix.
    pub fn known_group(&self, value: &str) -> (result: Option<String>)
        ensures
            match result {
                Some(group) => self.known(value@) == Some(group@),
                None => self.known(value@) is None,
            },
    {
        if model_is_directory(value) {
            return Some("Folder".to_owned());
        }
        if model_is_broken_link(value) {
            return Some("Broken link".to_owned());
        }
        let name: String = model_display_name(value);
        let key: String = type_group_key(name.as_str());
        self.find(key.as_str())
    }

    /// The group of the value of a row, from the type that was guessed and the words for it where
    /// the group is not known. The guess is then remembered, in the place of all others once there
    /// is no room.
    pub fn model_type_group(&mut self, value: &str, content_type: &str, description: &str) -> (result:
        String)
        requires
            old(self).well_formed(),
        ensures
            final(self).well_formed(),
            result@ == match old(self).known(value@) {
                Some(group) => group,
                None => guessed_group(content_type@, description@),
            },
            old(self).known(value@) is Some ==> final(self).groups == old(self).groups,
            old(self).known(value@) is None ==> {
                let kept = if old(self).groups@.len() >= TYPE_GROUP_CACHE_LIMIT {
                    Seq::empty()
                } else {
                    old(self).groups@
                };
                &&& final(self).groups@.len() == kept.len() + 1
                &&& final(self).groups@.drop_last() == kept
                &&& final(self).groups@.last().0@ == group_key(named_in(value@))
                &&& final(self).groups@.last().1@ == guessed_group(content_type@, description@)
            },
            final(self).known(value@) == Some(result@),
    {
        match self.known_group(value) {
            Some(group) => group,
            None => {
                let name: String = model_display_name(value);
                let key: String = type_group_key(name.as_str());
                let group: String = guess_type_group(content_type, description);
                if self.groups.len() >= TYPE_GROUP_CACHE_LIMIT {
                    self.groups = Vec::new();
                }
                let ghost kept = self.groups@;
                proof {
                    lemma_not_remembered(kept, key@);
                }
                self.groups.push((key, group.clone()));
                proof {
                    lemma_remembered_last(self.groups@, key@);
                    assert(self.groups@.drop_last() == kept);
                }
                group
            },
        }
    }
}

proof fn lemma_not_remembered(groups: Seq<(String, String)>, key: Seq<char>)
    requires
        remembered(groups, key) is None,
    ensures
        forall|i: int| 0 <= i < groups.len() ==> (#[trigger] groups[i]).0@ != key,
    decreases groups.len(),
{
    if groups.len() > 0 {
        lemma_not_remembered(groups.skip(1), key);
        assert forall|i: int| 0 <= i < groups.len() implies (#[trigger] groups[i]).0@ != key by {
            if i > 0 {
                assert(groups.skip(1)[i - 1] == groups[i]);
            }
        }
    }
}

proof fn lemma_remembered_last(groups: Seq<(String, String)>, key: Seq<char>)
    requires
        groups.len() > 0,
        groups.last().0@ == key,
        forall|i: int| 0 <= i < groups.len() - 1 ==> (#[trigger] groups[i]).0@ != key,
    ensures
        remembered(groups, key) == Some(groups.last().1@),
    decreases groups.len(),
{
    if groups.len() > 1 {
        let rest = groups.skip(1);
        assert forall|i: int| 0 <= i < rest.len() - 1 implies (#[trigger] rest[i]).0@ != key by {
            assert(rest[i] == groups[i + 1]);
        }
        lemma_remembered_last(rest, key);
    }
}

/// Files whose names share a suffix share a group.
pub proof fn law_suffixes_share_a_group(groups: TypeGroups, left: Seq<char>, right: Seq<char>)
    requires
        !"d"@.is_prefix_of(left) && !"x"@.is_prefix_of(left),
        !"d"@.is_prefix_of(right) && !"x"@.is_prefix_of(right),
        group_key(named_in(left)) == group_key(named_in(right)),
    ensures
        groups.known(left) == groups.known(right),
{
}

/// By what a pane sorts its entries.
#[derive(Clone, Copy, Debug, PartialEq, Eq, Structural)]
pub enum SortKey {
    Name,
    Size,
    Modified,
    Type,
}

/// In which direction a pane sorts its entries.
#[derive(Clone, Copy, Debug, PartialEq, Eq, Structural)]
pub enum SortDirection {
    Ascending,
    Descending,
}

/// How a pane sorts its entries, and whether it shows the hidden ones.
#[derive(Clone, Copy, Debug, PartialEq, Eq, Structural)]
pub struct SortPreferences {
    pub sort_key: SortKey,
    pub sort_direction: SortDirection,
    pub folders_first: bool,
    pub show_hidden: bool,
}

/// What an option of the sort menu says.
pub fn sort_key_label(key: SortKey) -> (result: &'static str)
    ensures
        result@ == match key {
            SortKey::Name => "Name"@,
            SortKey::Size => "Size"@,
            SortKey::Modified => "Modified"@,
            SortKey::Type => "Type"@,
        },
{
    match key {
        SortKey::Name => "Name",
        SortKey::Size => "Size",
        SortKey::Modified => "Modified",
        SortKey::Type => "Type",
    }
}

/// The sort menu of a pane: which options are checked.
#[derive(Clone, Copy, Debug, PartialEq, Eq, Structural)]
pub struct SortMenu {
    pub checked: SortKey,
    pub folders_first: bool,
}

impl SortMenu {
    /// The menu for what a pane is set to.
    pub fn column_sort_menu(preferences: SortPreferences) -> (result: Self)
        ensures
            result == (SortMenu {
                checked: preferences.sort_key,
                folders_first: preferences.folders_first,
            }),
    {
        SortMenu { checked: preferences.sort_key, folders_first: preferences.folders_first }
    }

    /// Takes that the menu is shown, with what the pane is then set to, if it is still there.
    pub fn shown(&mut self, preferences: Option<SortPreferences>)
        ensures
            *final(self) == match preferences {
                Some(preferences) => (SortMenu {
                    checked: preferences.sort_key,
                    folders_first: preferences.folders_first,
                }),
                None => *old(self),
            },
    {
        match preferences {
            Some(preferences) => {
                self.checked = preferences.sort_key;
                self.folders_first = preferences.folders_first;
            },
            None => {},
        }
    }

    /// Takes the choice of a key, by which the pane is then to sort.
    pub fn key_chosen(&mut self, key: SortKey)
        ensures
            *final(self) == (SortMenu { checked: key, ..*old(self) }),
    {
        self.checked = key;
    }

    /// Takes the choice of whether folders come first, and gives it.
    pub fn folders_first_chosen(&mut self) -> (result: bool)
        ensures
            result == !old(self).folders_first,
            *final(self) == (SortMenu { folders_first: result, ..*old(self) }),
    {
        self.folders_first = !self.folders_first;
        self.folders_first
    }
}

/// What a key in the sort menu leads to.
#[derive(Clone, Copy, Debug, PartialEq, Eq, Structural)]
pub enum MenuKeyStep {
    Proceed,
    Close,
    MoveFocus(Direction),
}

/// What a key in the sort menu leads to.
pub fn sort_menu_key_pressed(key: Key, modifiers: Modifiers) -> (result: MenuKeyStep)
    ensures
        result == if modifiers.control || modifiers.alt {
            MenuKeyStep::Proceed
        } else if key is BackSpace {
            MenuKeyStep::Close
        } else {
            match home_row_direction(key) {
                Some(direction) => MenuKeyStep::MoveFocus(direction),
                None => MenuKeyStep::Proceed,
            }
        },
{
    if modifiers.control || modifiers.alt {
        return MenuKeyStep::Proceed;
    }
    if key == Key::BackSpace {
        return MenuKeyStep::Close;
    }
    match vim_focus_direction(key) {
        Some(direction) => MenuKeyStep::MoveFocus(direction),
        None => MenuKeyStep::Proceed,
    }
}

/// The other direction.
pub open spec fn reversed(direction: SortDirection) -> SortDirection {
    match direction {
        SortDirection::Ascending => SortDirection::Descending,
        SortDirection::Descending => SortDirection::Ascending,
    }
}

/// The direction that a click on the toggle leads to.
pub fn column_sort_direction_toggle(direction: SortDirection) -> (result: SortDirection)
    ensures
        result == reversed(direction),
{
    match direction {
        SortDirection::Ascending => SortDirection::Descending,
        SortDirection::Descending => SortDirection::Ascending,
    }
}

/// What the toggle of the direction says.
pub fn sort_direction_tooltip(direction: SortDirection) -> (result: &'static str)
    ensures
        result@ == match direction {
            SortDirection::Descending => "Descending — click to reverse"@,
            SortDirection::Ascending => "Ascending — click to reverse"@,
        },
{
    match direction {
        SortDirection::Descending => "Descending — click to reverse",
        SortDirection::Ascending => "Ascending — click to reverse",
    }
}

/// Two clicks on the toggle of the direction lead back.
pub proof fn law_two_reversals_cancel(direction: SortDirection)
    ensures
        reversed(reversed(direction)) == direction,
        reversed(direction) != direction,
{
}

/// Files are grouped by what their names end in, from the last dot on; names without one, or with a
/// leading one only, stand for themselves.
pub proof fn law_groups_go_by_the_ending(
    stem: Seq<char>,
    other_stem: Seq<char>,
    extension: Seq<char>,
)
    requires
        !extension.contains('.'),
    ensures
        stem.len() > 0 ==> group_key(stem + seq!['.'] + extension) == seq!['.'] + extension,
        stem.len() > 0 && other_stem.len() > 0 ==> group_key(stem + seq!['.'] + extension)
            == group_key(other_stem + seq!['.'] + extension),
        group_key(seq!['.'] + extension) == seq!['.'] + extension,
        group_key(extension) == extension,
{
    let none = Seq::<char>::empty();
    crate::text::law_separators_part_a_text(stem, '.', extension);
    crate::text::law_separators_part_a_text(other_stem, '.', extension);
    crate::text::law_separators_part_a_text(none, '.', extension);
    crate::text::law_separators_part_a_text(extension, '.', none);
    assert(none + seq!['.'] + extension =~= seq!['.'] + extension);
    assert((stem + seq!['.'] + extension).skip(stem.len() as int) =~= seq!['.'] + extension);
    assert((other_stem + seq!['.'] + extension).skip(other_stem.len() as int) =~= seq!['.']
        + extension);
}

/// A group is called by the description of its type, and simply a file where the type or its
/// description is not known.
pub proof fn law_unknown_types_are_files(content_type: Seq<char>, description: Seq<char>)
    ensures
        guessed_group(content_type, description) == description || guessed_group(
            content_type,
            description,
        ) == "File"@,
        guessed_group(content_type, Seq::empty()) == "File"@,
        guessed_group(Seq::empty(), description) == "File"@,
        guessed_group("application/octet-stream"@, description) == "File"@,
        content_type.len() > 0 && content_type != "application/octet-stream"@ && description.len() > 0
            ==> guessed_group(content_type, description) == description,
{
}

/// What is remembered of a key is what was first noted for it, and nothing where nothing was.
pub proof fn law_first_note_is_remembered(
    groups: Seq<(String, String)>,
    key: Seq<char>,
    at: int,
)
    requires
        0 <= at <= groups.len(),
        forall|k: int| 0 <= k < at ==> (#[trigger] groups[k]).0@ != key,
    ensures
        at < groups.len() && groups[at].0@ == key ==> remembered(groups, key) == Some(
            groups[at].1@,
        ),
        at == groups.len() ==> remembered(groups, key) is None,
    decreases groups.len(),
{
    if at > 0 {
        let rest = groups.skip(1);
        assert forall|k: int| 0 <= k < at - 1 implies (#[trigger] rest[k]).0@ != key by {
            assert(groups[k + 1].0@ != key);
        }
        law_first_note_is_remembered(rest, key, at - 1);
        assert(groups[0].0@ != key);
        if at < groups.len() {
            assert(rest[at - 1] == groups[at]);
        }
    }
}

/// Directories and broken links have groups of their own, whatever they are called; of any other row
/// what is remembered for the ending of its name.
pub proof fn law_directories_have_their_group(
    groups: TypeGroups,
    kind: crate::entry::EntryKind,
    is_hidden: bool,
    name: Seq<char>,
)
    ensures
        ({
            let known = groups.known(crate::entry::model_value(kind, is_hidden, name));
            &&& kind is Directory || kind is DirectorySymbolicLink ==> known == Some("Folder"@)
            &&& kind is SymbolicLink ==> known == Some("Broken link"@)
            &&& kind is File || kind is FileSymbolicLink || kind is Other ==> known == remembered(
                groups.groups@,
                group_key(name),
            )
        }),
        TYPE_GROUP_CACHE_LIMIT == 2048,
        groups.well_formed() ==> groups.groups@.len() <= 2048,
{
    crate::entry::law_model_value_round_trip(kind, is_hidden, name);
}

/// Turning the order over makes ascending descending.
pub proof fn law_turned_order_is_the_other(direction: SortDirection)
    ensures
        direction is Ascending <==> reversed(direction) is Descending,
{
}

} // verus!
