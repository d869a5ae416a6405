//! Paths as text: how they are shortened for display, what a typed destination means, and which
//! folders are suggested for it.

use crate::input::{following_number, next_number};
use crate::location::{Location, LocationView};
use crate::ranking::{in_rank_order, is_ranked, sort_by_rank, Ranked};
use crate::text::{
    characters, concat_text, ends_with_text, first_place, is_white_space,
    law_trimming_keeps_the_inside, lemma_single_prefix, lowercase, lowercase_text,
    same_text, starts_with_text, text_between, trim_end_text, trim_text, trimmed,
    trimmed_end,
};
use vstd::prelude::*;

verus! {

/// How many folders are suggested at most for a typed destination.
pub const MAX_SUGGESTIONS: usize = 8;

/// The path above another, as `Path::parent` finds it.
pub uninterp spec fn path_parent(path: Seq<char>) -> Option<Seq<char>>;

/// The last component of a path, as `Path::file_name` finds it.
pub uninterp spec fn path_file_name(path: Seq<char>) -> Option<Seq<char>>;

/// `part` taken from `base`: a part from the root on stands for itself, and any other comes after the
/// base and a separator.
pub open spec fn path_join(base: Seq<char>, part: Seq<char>) -> Seq<char> {
    if "/"@.is_prefix_of(part) {
        part
    } else if base.len() == 0 {
        part
    } else {
        with_separator(base) + part
    }
}

/// What is left of `path` below `base`, as `Path::strip_prefix` finds it.
pub uninterp spec fn path_below(path: Seq<char>, base: Seq<char>) -> Option<Seq<char>>;

/// The components of a path that the equality of `Path` compares, in order: repeated separators, a
/// separator at the end and a `.` inside a path give none.
pub uninterp spec fn path_parts(path: Seq<char>) -> Seq<Seq<char>>;

/// How many paths are above another, one above the other. The one right above a path is shorter.
pub open spec fn path_depth(path: Seq<char>) -> nat
    decreases path.len(),
{
    match path_parent(path) {
        Some(parent) => if parent.len() < path.len() {
            1 + path_depth(parent)
        } else {
            0
        },
        None => 0,
    }
}

/// Whether two paths have the same components.
pub open spec fn path_equal(left: Seq<char>, right: Seq<char>) -> bool {
    path_parts(left) == path_parts(right)
}

/// The view of an optional text.
pub open spec fn optional_view(text: Option<String>) -> Option<Seq<char>> {
    match text {
        Some(text) => Some(text@),
        None => None,
    }
}

/// `Path::parent`: the path without its last component, and so a shorter one. Which texts have a
/// parent, and which text it is, is only named.
#[verifier::external_body]
pub(crate) fn parent_of(path: &str) -> (result: Option<String>)
    ensures
        optional_view(result) == path_parent(path@),
        result matches Some(parent) ==> parent@.len() < path@.len(),
{
    std::path::Path::new(path).parent().map(|parent| parent.to_string_lossy().into_owned())
}

/// `Path::file_name`: the last component of a path. It is only named.
#[verifier::external_body]
pub(crate) fn file_name_of(path: &str) -> (result: Option<String>)
    ensures
        optional_view(result) == path_file_name(path@),
{
    std::path::Path::new(path).file_name().map(|name| name.to_string_lossy().into_owned())
}

/// `part` taken from `base`.
pub fn join_paths(base: &str, part: &str) -> (result: String)
    ensures
        result@ == path_join(base@, part@),
{
    if starts_with_text(part, "/") || base.is_empty() {
        return part.to_owned();
    }
    let folder: String = ensure_separator(base.to_owned());
    concat_text(folder.as_str(), part)
}

/// `Path::strip_prefix`: what is left of a path below another. It is only named.
#[verifier::external_body]
pub(crate) fn below(path: &str, base: &str) -> (result: Option<String>)
    ensures
        optional_view(result) == path_below(path@, base@),
{
    std::path::Path::new(path).strip_prefix(base).ok().map(|rest| rest.to_string_lossy().into_owned())
}

/// The equality of `Path`: two paths are equal exactly if their components are. What those are is
/// only named.
#[verifier::external_body]
pub(crate) fn same_path(left: &str, right: &str) -> (result: bool)
    ensures
        result == (path_parts(left@) == path_parts(right@)),
{
    std::path::Path::new(left) == std::path::Path::new(right)
}

/// How many paths are above another.
pub fn depth_of(path: &str) -> (result: usize)
    ensures
        result == path_depth(path@),
{
    let limit: usize = path.unicode_len();
    let mut depth: usize = 0;
    let mut current: String = path.to_owned();
    loop
        invariant
            limit == path@.len(),
            depth + current@.len() <= limit,
            depth + path_depth(current@) == path_depth(path@),
        ensures
            depth == path_depth(path@),
        decreases current@.len(),
    {
        match parent_of(current.as_str()) {
            None => {
                break;
            },
            Some(parent) => {
                depth = depth + 1;
                current = parent;
            },
        }
    }
    depth
}

/// How a path is shown: `~` stands for the home directory that it equals or lies below.
pub open spec fn compact_path(path: Seq<char>, is_home: bool, below_home: Option<Seq<char>>) -> Seq<
    char,
> {
    if is_home {
        "~"@
    } else {
        match below_home {
            Some(rest) => "~/"@ + rest,
            None => path,
        }
    }
}

/// How a path is shown that was found to be the home directory, to lie below it, or neither.
pub fn compact_path_text(path: &str, is_home: bool, below_home: Option<String>) -> (result: String)
    ensures
        result@ == compact_path(path@, is_home, optional_view(below_home)),
{
    if is_home {
        "~".to_owned()
    } else {
        match below_home {
            Some(rest) => concat_text("~/", rest.as_str()),
            None => path.to_owned(),
        }
    }
}

/// How `path` is shown to someone whose home directory is `home`.
pub open spec fn compacted(path: Seq<char>, home: Seq<char>) -> Seq<char> {
    compact_path(path, path_equal(path, home), path_below(path, home))
}

/// How a path is shown to someone whose home directory is `home`.
pub fn compact_native_path(path: &str, home: &str) -> (result: String)
    ensures
        result@ == compacted(path@, home@),
{
    compact_path_text(path, same_path(path, home), below(path, home))
}

/// How a location is shown: a native path in short, anything else as `display_path`.
pub fn compact_display_path(location: &Location, display_path: &str, home: &str) -> (result: String)
    ensures
        result@ == match location@ {
            LocationView::Native(path) => compacted(path, home@),
            LocationView::Uri(_) => display_path@,
        },
{
    match location.native_path() {
        Some(path) => compact_native_path(path, home),
        None => display_path.to_owned(),
    }
}

/// `path` with a separator at its end.
pub open spec fn with_separator(path: Seq<char>) -> Seq<char> {
    if "/"@.is_suffix_of(path) {
        path
    } else {
        path + "/"@
    }
}

/// The text with a separator at its end, put there only where it is missing.
pub fn ensure_separator(path: String) -> (result: String)
    ensures
        result@ == with_separator(path@),
{
    if ends_with_text(path.as_str(), "/") {
        path
    } else {
        concat_text(path.as_str(), "/")
    }
}

/// What the destination field shows for a chosen folder: its short form, ready to be continued.
pub fn folder_input_path(path: &str, home: &str) -> (result: String)
    ensures
        result@ == with_separator(compacted(path@, home@)),
{
    ensure_separator(compact_native_path(path, home))
}

/// What a typed destination asks for.
#[derive(Debug)]
pub enum Destination {
    Home,
    BelowHome(String),
    Absolute(String),
    BelowBase(String),
}

/// What a typed destination asks for, over characters.
pub enum DestinationView {
    Home,
    BelowHome(Seq<char>),
    Absolute(Seq<char>),
    BelowBase(Seq<char>),
}

impl View for Destination {
    type V = DestinationView;

    open spec fn view(&self) -> DestinationView {
        match self {
            Destination::Home => DestinationView::Home,
            Destination::BelowHome(rest) => DestinationView::BelowHome(rest@),
            Destination::Absolute(path) => DestinationView::Absolute(path@),
            Destination::BelowBase(path) => DestinationView::BelowBase(path@),
        }
    }
}

/// What the typed text asks for: `~` and `~/…` start at home, a leading separator at the root, and
/// anything else at the folder in view.
pub open spec fn destination_of(input: Seq<char>) -> DestinationView {
    let typed = trimmed(input);
    if typed == "~"@ {
        DestinationView::Home
    } else if "~/"@.is_prefix_of(typed) {
        DestinationView::BelowHome(typed.skip(2))
    } else if "/"@.is_prefix_of(typed) {
        DestinationView::Absolute(typed)
    } else {
        DestinationView::BelowBase(typed)
    }
}

/// Reads a typed destination.
pub fn read_destination(input: &str) -> (result: Destination)
    ensures
        result@ == destination_of(input@),
{
    let typed: String = trim_text(input);
    if same_text(typed.as_str(), "~") {
        Destination::Home
    } else if starts_with_text(typed.as_str(), "~/") {
        proof {
            reveal_strlit("~/");
        }
        let chars: Vec<char> = characters(typed.as_str());
        let rest: String = text_between(&chars, 2, chars.len());
        assert(rest@ == typed@.skip(2));
        Destination::BelowHome(rest)
    } else if starts_with_text(typed.as_str(), "/") {
        Destination::Absolute(typed)
    } else {
        Destination::BelowBase(typed)
    }
}

/// The path that a typed destination stands for.
pub open spec fn resolved_destination(input: Seq<char>, base: Seq<char>, home: Seq<char>) -> Seq<
    char,
> {
    match destination_of(input) {
        DestinationView::Home => home,
        DestinationView::BelowHome(rest) => path_join(home, rest),
        DestinationView::Absolute(path) => path,
        DestinationView::BelowBase(path) => path_join(base, path),
    }
}

/// The path that a typed destination stands for.
pub fn resolve_destination_path(input: &str, base: &str, home: &str) -> (result: String)
    ensures
        result@ == resolved_destination(input@, base@, home@),
{
    match read_destination(input) {
        Destination::Home => home.to_owned(),
        Destination::BelowHome(rest) => join_paths(home, rest.as_str()),
        Destination::Absolute(path) => path,
        Destination::BelowBase(path) => join_paths(base, path.as_str()),
    }
}

/// Which folder to list for suggestions, and what the names in it begin with.
#[derive(Debug)]
pub struct SuggestionRequest {
    pub directory: String,
    pub prefix: String,
}

/// The request for a destination that resolved to `resolved`: all of it where it is complete, the
/// names in the folder above that begin like its last component otherwise.
pub fn request_for(
    complete: bool,
    resolved: String,
    parent: Option<String>,
    folded_name: Option<String>,
    base: &str,
) -> (result: SuggestionRequest)
    ensures
        complete ==> result.directory@ == resolved@ && result.prefix@ == Seq::<char>::empty(),
        !complete ==> result.directory@ == match optional_view(parent) {
            Some(parent) => parent,
            None => base@,
        },
        !complete ==> result.prefix@ == match optional_view(folded_name) {
            Some(name) => name,
            None => Seq::empty(),
        },
{
    if complete {
        SuggestionRequest { directory: resolved, prefix: String::new() }
    } else {
        SuggestionRequest {
            directory: match parent {
                Some(parent) => parent,
                None => base.to_owned(),
            },
            prefix: match folded_name {
                Some(name) => name,
                None => String::new(),
            },
        }
    }
}

/// Whether a typed destination names a folder whose contents are to be suggested.
pub open spec fn is_complete(input: Seq<char>) -> bool {
    "/"@.is_suffix_of(trimmed_end(input))
}

/// Which folder to list for the suggestions to a typed destination.
pub fn suggestion_request(input: &str, base: &str, home: &str) -> (result: SuggestionRequest)
    ensures
        is_complete(input@) ==> result.directory@ == resolved_destination(input@, base@, home@)
            && result.prefix@ == Seq::<char>::empty(),
        !is_complete(input@) ==> result.directory@ == match path_parent(
            resolved_destination(input@, base@, home@),
        ) {
            Some(parent) => parent,
            None => base@,
        },
        !is_complete(input@) ==> result.prefix@ == match path_file_name(
            resolved_destination(input@, base@, home@),
        ) {
            Some(name) => lowercase(name),
            None => Seq::empty(),
        },
{
    let resolved: String = resolve_destination_path(input, base, home);
    let typed: String = trim_end_text(input);
    let complete: bool = ends_with_text(typed.as_str(), "/");
    let parent: Option<String> = parent_of(resolved.as_str());
    let folded_name: Option<String> = match file_name_of(resolved.as_str()) {
        Some(name) => Some(lowercase_text(name.as_str())),
        None => None,
    };
    request_for(complete, resolved, parent, folded_name, base)
}

/// Whether the first text stands before or at the second in the order of their characters.
pub open spec fn alphabetical(left: Seq<char>, right: Seq<char>) -> bool
    decreases left.len(),
{
    if left.len() == 0 {
        true
    } else if right.len() == 0 {
        false
    } else if left[0] != right[0] {
        left[0] < right[0]
    } else {
        alphabetical(left.drop_first(), right.drop_first())
    }
}

proof fn lemma_alphabetical_transitive(left: Seq<char>, middle: Seq<char>, right: Seq<char>)
    requires
        alphabetical(left, middle),
        alphabetical(middle, right),
    ensures
        alphabetical(left, right),
    decreases left.len(),
{
    if left.len() > 0 && middle.len() > 0 && right.len() > 0 && left[0] == middle[0] && middle[0]
        == right[0] {
        lemma_alphabetical_transitive(
            left.drop_first(),
            middle.drop_first(),
            right.drop_first(),
        );
    }
}

proof fn lemma_alphabetical_total(left: Seq<char>, right: Seq<char>)
    ensures
        alphabetical(left, right) || alphabetical(right, left),
    decreases left.len(),
{
    if left.len() > 0 && right.len() > 0 && left[0] == right[0] {
        lemma_alphabetical_total(left.drop_first(), right.drop_first());
    }
}

/// Whether the first text stands before or at the second in the order of their characters.
fn in_alphabetical_order(left: &str, right: &str) -> (result: bool)
    ensures
        result == alphabetical(left@, right@),
{
    let left_chars: Vec<char> = characters(left);
    let right_chars: Vec<char> = characters(right);
    let mut i: usize = 0;
    assert(left@.skip(0) == left@);
    assert(right@.skip(0) == right@);
    while i < left_chars.len()
        invariant
            left_chars@ == left@,
            right_chars@ == right@,
            i <= left@.len(),
            i <= right@.len(),
            alphabetical(left@, right@) == alphabetical(left@.skip(i as int), right@.skip(i as int)),
        decreases left@.len() - i,
    {
        if i >= right_chars.len() {
            return false;
        }
        if left_chars[i] != right_chars[i] {
            return left_chars[i] < right_chars[i];
        }
        assert(left@.skip(i as int).drop_first() == left@.skip(i + 1));
        assert(right@.skip(i as int).drop_first() == right@.skip(i + 1));
        i = i + 1;
    }
    true
}

/// A folder that may be suggested, with its name in lowercase.
#[derive(Debug)]
pub struct FolderCandidate {
    pub path: String,
    pub folded_name: String,
}

impl FolderCandidate {
    /// The same candidate once more.
    fn duplicate(&self) -> (result: Self)
        ensures
            result == *self,
    {
        FolderCandidate { path: self.path.clone(), folded_name: self.folded_name.clone() }
    }
}

impl Ranked for FolderCandidate {
    open spec fn ranks_up_to(&self, other: &Self) -> bool {
        alphabetical(self.folded_name@, other.folded_name@)
    }

    proof fn ranks_are_transitive(left: &Self, middle: &Self, right: &Self) {
        lemma_alphabetical_transitive(left.folded_name@, middle.folded_name@, right.folded_name@);
    }

    proof fn ranks_are_total(left: &Self, right: &Self) {
        lemma_alphabetical_total(left.folded_name@, right.folded_name@);
    }

    fn may_precede(&self, other: &Self) -> (result: bool) {
        in_alphabetical_order(self.folded_name.as_str(), other.folded_name.as_str())
    }
}

/// Whether a folder of the given name is suggested for `prefix`: it begins with it, and is hidden
/// only where the prefix asks for hidden names.
pub open spec fn is_suggested(folded_name: Seq<char>, prefix: Seq<char>) -> bool {
    &&& "."@.is_prefix_of(prefix) || !"."@.is_prefix_of(folded_name)
    &&& prefix.is_prefix_of(folded_name)
}

/// The first `count` items of a sequence, or all of it where it is shorter.
pub open spec fn first_of<T>(items: Seq<T>, count: nat) -> Seq<T> {
    if items.len() <= count {
        items
    } else {
        items.take(count as int)
    }
}

/// Picks the suggestions among the folders that were found: those whose name fits, in the order of
/// their names, the first few only.
pub fn pick_suggestions(candidates: &Vec<FolderCandidate>, prefix: &str) -> (result: Vec<
    FolderCandidate,
>)
    ensures
        result@ == first_of(
            in_rank_order(
                candidates@.filter(
                    |candidate: FolderCandidate| is_suggested(candidate.folded_name@, prefix@),
                ),
            ),
            MAX_SUGGESTIONS as nat,
        ),
{
    let ghost fits = |candidate: FolderCandidate| is_suggested(candidate.folded_name@, prefix@);
    let hidden_wanted: bool = starts_with_text(prefix, ".");
    let mut fitting: Vec<FolderCandidate> = Vec::new();
    let mut i: usize = 0;
    assert(candidates@.take(0).filter(fits) == Seq::<FolderCandidate>::empty()) by {
        reveal(Seq::filter);
    }
    while i < candidates.len()
        invariant
            i <= candidates@.len(),
            hidden_wanted == "."@.is_prefix_of(prefix@),
            fits == (|candidate: FolderCandidate| is_suggested(candidate.folded_name@, prefix@)),
            fitting@ == candidates@.take(i as int).filter(fits),
        decreases candidates@.len() - i,
    {
        let name: &str = candidates[i].folded_name.as_str();
        let visible: bool = hidden_wanted || !starts_with_text(name, ".");
        proof {
            reveal(Seq::filter);
            assert(candidates@.take(i + 1).drop_last() == candidates@.take(i as int));
        }
        if visible && starts_with_text(name, prefix) {
            fitting.push(candidates[i].duplicate());
        }
        i = i + 1;
    }
    assert(candidates@.take(i as int) == candidates@);
    let mut ordered: Vec<FolderCandidate> = sort_by_rank(fitting);
    if ordered.len() > MAX_SUGGESTIONS {
        ordered.truncate(MAX_SUGGESTIONS);
        assert(ordered@ == in_rank_order(candidates@.filter(fits)).take(MAX_SUGGESTIONS as int));
    }
    ordered
}

/// A folder below the one being listed.
#[derive(Debug)]
pub struct ChildFolder {
    pub path: String,
    pub name: String,
}

/// The candidates that a listing gives: each folder with its name in lowercase.
pub open spec fn candidates_of(children: Seq<ChildFolder>, candidates: Seq<FolderCandidate>) -> bool {
    &&& candidates.len() == children.len()
    &&& forall|i: int|
        0 <= i < children.len() ==> (#[trigger] candidates[i]).path@ == children[i].path@
            && candidates[i].folded_name@ == lowercase(children[i].name@)
}

/// The folders to suggest among the children of the listed directory.
pub fn path_suggestions(children: &Vec<ChildFolder>, prefix: &str) -> (result: Vec<FolderCandidate>)
    ensures
        exists|candidates: Seq<FolderCandidate>| #[trigger]
            candidates_of(children@, candidates) && result@ == first_of(
                in_rank_order(
                    candidates.filter(
                        |candidate: FolderCandidate| is_suggested(candidate.folded_name@, prefix@),
                    ),
                ),
                MAX_SUGGESTIONS as nat,
            ),
{
    let mut candidates: Vec<FolderCandidate> = Vec::new();
    let mut i: usize = 0;
    while i < children.len()
        invariant
            i <= children@.len(),
            candidates_of(children@.take(i as int), candidates@),
        decreases children@.len() - i,
    {
        candidates.push(
            FolderCandidate {
                path: children[i].path.clone(),
                folded_name: lowercase_text(children[i].name.as_str()),
            },
        );
        i = i + 1;
    }
    assert(children@.take(i as int) == children@);
    assert(candidates_of(children@, candidates@));
    pick_suggestions(&candidates, prefix)
}

/// A folder that a search found, with how deep it lies.
#[derive(Debug)]
pub struct FoundFolder {
    pub path: String,
    pub depth: usize,
}

impl Ranked for FoundFolder {
    open spec fn ranks_up_to(&self, other: &Self) -> bool {
        self.depth <= other.depth
    }

    proof fn ranks_are_transitive(left: &Self, middle: &Self, right: &Self) {
    }

    proof fn ranks_are_total(left: &Self, right: &Self) {
    }

    fn may_precede(&self, other: &Self) -> (result: bool) {
        self.depth <= other.depth
    }
}

/// Something that a search below a folder found.
#[derive(Debug)]
pub struct SearchItem {
    pub path: String,
    pub name: String,
    pub is_directory: bool,
}

impl SearchItem {
    /// The same item once more.
    pub fn duplicate(&self) -> (result: Self)
        ensures
            result == *self,
    {
        SearchItem {
            path: self.path.clone(),
            name: self.name.clone(),
            is_directory: self.is_directory,
        }
    }
}

/// The folders to suggest among those that a search found: the shallowest first, the first few
/// only.
pub fn shallowest_folders(folders: Vec<FoundFolder>) -> (result: Vec<FoundFolder>)
    ensures
        result@ == first_of(in_rank_order(folders@), MAX_SUGGESTIONS as nat),
{
    let mut ordered: Vec<FoundFolder> = sort_by_rank(folders);
    if ordered.len() > MAX_SUGGESTIONS {
        let ghost whole = ordered@;
        ordered.truncate(MAX_SUGGESTIONS);
        assert(ordered@ == whole.take(MAX_SUGGESTIONS as int));
    }
    ordered
}

/// The folders among the items that a search found, each with its depth.
pub open spec fn found_folders(items: Seq<SearchItem>, folders: Seq<FoundFolder>) -> bool {
    let kept = items.filter(|item: SearchItem| item.is_directory);
    &&& folders.len() == kept.len()
    &&& forall|i: int|
        0 <= i < kept.len() ==> (#[trigger] folders[i]).path@ == kept[i].path@ && folders[i].depth
            == path_depth(kept[i].path@)
}

/// The folders to suggest among the items that a search found.
pub fn search_suggestions(items: &Vec<SearchItem>) -> (result: Vec<FoundFolder>)
    ensures
        exists|folders: Seq<FoundFolder>| #[trigger]
            found_folders(items@, folders) && result@ == first_of(
                in_rank_order(folders),
                MAX_SUGGESTIONS as nat,
            ),
{
    let mut folders: Vec<FoundFolder> = Vec::new();
    let mut i: usize = 0;
    assert(found_folders(items@.take(0), folders@)) by {
        reveal(Seq::filter);
    }
    while i < items.len()
        invariant
            i <= items@.len(),
            found_folders(items@.take(i as int), folders@),
        decreases items@.len() - i,
    {
        proof {
            reveal(Seq::filter);
            assert(items@.take(i + 1).drop_last() == items@.take(i as int));
        }
        if items[i].is_directory {
            folders.push(
                FoundFolder {
                    path: items[i].path.clone(),
                    depth: depth_of(items[i].path.as_str()),
                },
            );
        }
        i = i + 1;
    }
    assert(items@.take(i as int) == items@);
    assert(found_folders(items@, folders@));
    shallowest_folders(folders)
}

/// Whether the typed text is a path to list rather than a name to search for.
pub open spec fn reads_as_path(input: Seq<char>) -> bool {
    let typed = trimmed(input);
    typed.contains('/') || "~"@.is_prefix_of(typed) || typed.len() == 0
}

/// Whether the typed text is a path to list rather than a name to search for.
pub fn looks_like_path(input: &str) -> (result: bool)
    ensures
        result == reads_as_path(input@),
{
    let typed: String = trim_text(input);
    let chars: Vec<char> = characters(typed.as_str());
    let separated: bool = match first_place(&chars, '/') {
        Some(at) => {
            assert(typed@[at as int] == '/');
            true
        },
        None => false,
    };
    separated || starts_with_text(typed.as_str(), "~") || chars.len() == 0
}

/// The suggestions below a destination field: which request is the latest, and whether the typed
/// text is being searched for.
#[derive(Debug)]
pub struct DestinationSuggestions {
    pub generation: u64,
    pub searching: bool,
}

/// What a change of the destination field asks for.
#[derive(Debug)]
pub enum SuggestionStep {
    /// List folders for the request of the given number.
    List { request: u64 },
    /// Search for the typed text.
    Search,
}

impl DestinationSuggestions {
    /// The suggestions of a field that nobody has typed in.
    pub fn new() -> (result: Self)
        ensures
            result.generation == 0,
            !result.searching,
    {
        DestinationSuggestions { generation: 0, searching: false }
    }

    /// Takes a change of the field: a path is listed, a name is searched for, and every request
    /// made before is out of date.
    pub fn input_changed(&mut self, input: &str) -> (result: SuggestionStep)
        ensures
            final(self).generation == next_number(old(self).generation),
            final(self).searching == !reads_as_path(input@),
            result == if reads_as_path(input@) {
                SuggestionStep::List { request: final(self).generation }
            } else {
                SuggestionStep::Search
            },
    {
        self.generation = following_number(self.generation);
        if looks_like_path(input) {
            self.searching = false;
            SuggestionStep::List { request: self.generation }
        } else {
            self.searching = true;
            SuggestionStep::Search
        }
    }

    /// Whether the folders listed for a request are still wanted.
    pub fn accepts_listing(&self, request: u64) -> (result: bool)
        ensures
            result == (request == self.generation),
    {
        request == self.generation
    }

    /// Whether the results of a search for `query` are still wanted by a field that holds `input`.
    pub fn accepts_results(&self, query: &str, input: &str) -> (result: bool)
        ensures
            result == (self.searching && query@ == trimmed(input@)),
    {
        let typed: String = trim_text(input);
        self.searching && same_text(query, typed.as_str())
    }
}

/// One suggested folder, as it is shown.
#[derive(Debug)]
pub struct SuggestionRow {
    pub name: String,
    pub parent: Option<String>,
    pub input: String,
}

/// The row of a suggested folder whose name and parent were found.
pub fn suggestion_row_for(
    path: &str,
    name: Option<String>,
    parent: Option<String>,
    home: &str,
) -> (result: SuggestionRow)
    ensures
        result.name@ == match optional_view(name) {
            Some(name) => name,
            None => path@,
        },
        optional_view(result.parent) == match optional_view(parent) {
            Some(parent) => Some(compacted(parent, home@)),
            None => None,
        },
        result.input@ == with_separator(compacted(path@, home@)),
{
    SuggestionRow {
        name: match name {
            Some(name) => name,
            None => path.to_owned(),
        },
        parent: match parent {
            Some(parent) => Some(compact_native_path(parent.as_str(), home)),
            None => None,
        },
        input: folder_input_path(path, home),
    }
}

/// The row of a suggested folder.
pub fn suggestion_row(path: &str, home: &str) -> (result: SuggestionRow)
    ensures
        result.name@ == match path_file_name(path@) {
            Some(name) => name,
            None => path@,
        },
        optional_view(result.parent) == match path_parent(path@) {
            Some(parent) => Some(compacted(parent, home@)),
            None => None,
        },
        result.input@ == with_separator(compacted(path@, home@)),
{
    suggestion_row_for(path, file_name_of(path), parent_of(path), home)
}

/// Where opening a search result leads: into a folder, and to the folder that holds anything else.
pub fn search_result_target(item: &SearchItem, parent: Option<String>) -> (result: Option<Location>)
    ensures
        match result {
            Some(target) => target@ == LocationView::Native(
                if item.is_directory {
                    item.path@
                } else {
                    optional_view(parent)->0
                },
            ) && (item.is_directory || parent is Some),
            None => !item.is_directory && parent is None,
        },
{
    if item.is_directory {
        Some(Location::local(item.path.as_str()))
    } else {
        match parent {
            Some(parent) => Some(Location::local(parent.as_str())),
            None => None,
        }
    }
}

/// Where opening the search result at `position` leads, if anywhere.
pub fn activate_recursive_search_result(results: &Vec<SearchItem>, position: u32) -> (result: Option<
    Location,
>)
    ensures
        match result {
            Some(target) => position < results@.len() && target@ == LocationView::Native(
                if results@[position as int].is_directory {
                    results@[position as int].path@
                } else {
                    path_parent(results@[position as int].path@)->0
                },
            ) && (results@[position as int].is_directory || path_parent(
                results@[position as int].path@,
            ) is Some),
            None => position >= results@.len() || (!results@[position as int].is_directory
                && path_parent(results@[position as int].path@) is None),
        },
{
    if position as usize >= results.len() {
        return None;
    }
    let item: &SearchItem = &results[position as usize];
    search_result_target(item, parent_of(item.path.as_str()))
}

/// A separator is put at the end of a path once: doing it again changes nothing.
pub proof fn law_separator_is_added_once(path: Seq<char>)
    ensures
        with_separator(with_separator(path)) == with_separator(path),
        "/"@.is_suffix_of(with_separator(path)),
{
    reveal_strlit("/");
    assert("/"@.is_suffix_of(path + "/"@));
}

/// The folders suggested for a path are at most a screenful, in the order of their names.
pub proof fn law_suggestions_are_few_and_ordered(candidates: Seq<FolderCandidate>)
    ensures
        first_of(in_rank_order(candidates), MAX_SUGGESTIONS as nat).len() <= MAX_SUGGESTIONS,
        is_ranked(first_of(in_rank_order(candidates), MAX_SUGGESTIONS as nat)),
{
    crate::ranking::law_sorting_orders_and_keeps_items(candidates);
    let ordered = in_rank_order(candidates);
    let few = first_of(ordered, MAX_SUGGESTIONS as nat);
    assert forall|i: int, j: int| 0 <= i < j < few.len() implies #[trigger] few[i].ranks_up_to(
        &few[j],
    ) by {
        assert(ordered[i].ranks_up_to(&ordered[j]));
    }
}

/// A path and a part of it are joined by exactly one separator, and a part from the root on stands
/// for itself whatever the path is.
pub proof fn law_joining_takes_one_separator(base: Seq<char>, part: Seq<char>)
    ensures
        part.len() > 0 && part[0] == '/' ==> path_join(base, part) == part,
        base.len() == 0 ==> path_join(base, part) == part,
        base.len() > 0 && base.last() != '/' && !(part.len() > 0 && part[0] == '/') ==> path_join(
            base,
            part,
        ) == base + seq!['/'] + part,
        base.len() > 0 && base.last() == '/' && !(part.len() > 0 && part[0] == '/') ==> path_join(
            base,
            part,
        ) == base + part,
{
    reveal_strlit("/");
    lemma_single_prefix(part, "/"@);
    lemma_ends_with_separator(base);
    assert("/"@ =~= seq!['/']);
}

proof fn lemma_ends_with_separator(path: Seq<char>)
    ensures
        "/"@.is_suffix_of(path) == (path.len() > 0 && path.last() == '/'),
{
    reveal_strlit("/");
    if path.len() > 0 && path.last() == '/' {
        assert(path.subrange(path.len() - 1, path.len() as int) =~= "/"@);
    }
    if "/"@.is_suffix_of(path) {
        assert(path.subrange(path.len() - 1, path.len() as int)[0] == "/"@[0]);
    }
}

proof fn lemma_typed(before: Seq<char>, typed: Seq<char>, after: Seq<char>)
    requires
        forall|k: int| 0 <= k < before.len() ==> is_white_space(#[trigger] before[k]),
        forall|k: int| 0 <= k < after.len() ==> is_white_space(#[trigger] after[k]),
        typed.len() > 0,
        !is_white_space(typed[0]),
        !is_white_space(typed.last()),
    ensures
        trimmed(before + typed + after) == typed,
        "/"@.is_prefix_of(typed) == (typed[0] == '/'),
        "~"@.is_prefix_of(typed) == (typed[0] == '~'),
        (typed == "~"@) == (typed.len() == 1 && typed[0] == '~'),
        "~/"@.is_prefix_of(typed) == (typed.len() >= 2 && typed[0] == '~' && typed[1] == '/'),
{
    reveal_strlit("/");
    reveal_strlit("~");
    reveal_strlit("~/");
    law_trimming_keeps_the_inside(before, typed, after);
    lemma_single_prefix(typed, "/"@);
    lemma_single_prefix(typed, "~"@);
    if typed.len() == 1 && typed[0] == '~' {
        assert(typed =~= "~"@);
    }
    if typed.len() >= 2 && typed[0] == '~' && typed[1] == '/' {
        assert(typed.take(2) =~= "~/"@);
    }
    if "~/"@.is_prefix_of(typed) {
        assert(typed[0] == "~/"@[0] && typed[1] == "~/"@[1]);
    }
}

/// What is typed behind `~/` lies below the home directory, however deep and whatever folder is in
/// view: it is the home directory, one separator, and the rest as typed. White space around the text
/// does not count.
pub proof fn law_tilde_stands_for_home(
    before: Seq<char>,
    rest: Seq<char>,
    after: Seq<char>,
    base: Seq<char>,
    home: Seq<char>,
)
    requires
        forall|k: int| 0 <= k < before.len() ==> is_white_space(#[trigger] before[k]),
        forall|k: int| 0 <= k < after.len() ==> is_white_space(#[trigger] after[k]),
        rest.len() > 0 ==> rest[0] != '/' && !is_white_space(rest.last()),
        home.len() > 0,
    ensures
        resolved_destination(before + (seq!['~', '/'] + rest) + after, base, home) == if home.last()
            == '/' {
            home + rest
        } else {
            home + seq!['/'] + rest
        },
        resolved_destination(before + seq!['~'] + after, base, home) == home,
        destination_of(before + (seq!['~', '/'] + rest) + after) == DestinationView::BelowHome(rest),
        destination_of(before + seq!['~'] + after) is Home,
{
    let typed = seq!['~', '/'] + rest;
    lemma_typed(before, typed, after);
    lemma_typed(before, seq!['~'], after);
    assert(typed.skip(2) =~= rest);
    law_joining_takes_one_separator(home, rest);
}

/// A typed path from the root on is that path, wherever home is and whatever folder is in view. Any
/// other text that is no path below home lies below the folder in view.
pub proof fn law_typed_paths_start_where_they_say(
    before: Seq<char>,
    typed: Seq<char>,
    after: Seq<char>,
    base: Seq<char>,
    home: Seq<char>,
)
    requires
        forall|k: int| 0 <= k < before.len() ==> is_white_space(#[trigger] before[k]),
        forall|k: int| 0 <= k < after.len() ==> is_white_space(#[trigger] after[k]),
        typed.len() > 0,
        !is_white_space(typed[0]),
        !is_white_space(typed.last()),
        base.len() > 0,
    ensures
        typed[0] == '/' ==> resolved_destination(before + typed + after, base, home) == typed
            && destination_of(before + typed + after) == DestinationView::Absolute(typed),
        typed[0] != '/' && !(typed[0] == '~' && (typed.len() == 1 || typed[1] == '/'))
            ==> resolved_destination(before + typed + after, base, home) == if base.last() == '/' {
            base + typed
        } else {
            base + seq!['/'] + typed
        } && destination_of(before + typed + after) == DestinationView::BelowBase(typed),
{
    lemma_typed(before, typed, after);
    law_joining_takes_one_separator(base, typed);
}

/// The home directory is shown as `~`, what lies below it behind `~/`, and any other path as it is.
/// Typed into a destination field, the short form leads back to where the path lies below home.
pub proof fn law_short_paths_lead_back(
    path: Seq<char>,
    is_home: bool,
    below_home: Option<Seq<char>>,
    base: Seq<char>,
    home: Seq<char>,
)
    requires
        home.len() > 0,
    ensures
        is_home ==> resolved_destination(compact_path(path, is_home, below_home), base, home)
            == home,
        !is_home && below_home is Some && below_home->0.len() > 0 && below_home->0[0] != '/'
            && !is_white_space(below_home->0.last()) ==> resolved_destination(
            compact_path(path, is_home, below_home),
            base,
            home,
        ) == path_join(home, below_home->0),
        !is_home && below_home is None ==> compact_path(path, is_home, below_home) == path,
        is_home ==> compact_path(path, is_home, below_home) == seq!['~'],
        !is_home && below_home is Some ==> compact_path(path, is_home, below_home) == seq!['~', '/']
            + below_home->0,
{
    reveal_strlit("~");
    reveal_strlit("~/");
    let none = Seq::<char>::empty();
    assert("~"@ =~= seq!['~']);
    assert("~/"@ =~= seq!['~', '/']);
    assert(none + seq!['~'] + none =~= seq!['~']);
    law_tilde_stands_for_home(none, none, none, base, home);
    if !is_home && below_home is Some {
        let rest = below_home->0;
        assert(none + (seq!['~', '/'] + rest) + none =~= seq!['~', '/'] + rest);
        if rest.len() > 0 && rest[0] != '/' && !is_white_space(rest.last()) {
            law_tilde_stands_for_home(none, rest, none, base, home);
            law_joining_takes_one_separator(home, rest);
        }
    }
}

/// A path is shown short exactly by how it relates to home: the components decide whether it is
/// home itself.
pub proof fn law_home_is_known_by_its_components(path: Seq<char>, home: Seq<char>)
    ensures
        path_parts(path) == path_parts(home) ==> compacted(path, home) == seq!['~'],
        path_parts(path) != path_parts(home) ==> compacted(path, home) == match path_below(
            path,
            home,
        ) {
            Some(rest) => seq!['~', '/'] + rest,
            None => path,
        },
        path_equal(path, home) <==> path_parts(path) == path_parts(home),
{
    reveal_strlit("~");
    reveal_strlit("~/");
    assert("~"@ =~= seq!['~']);
    assert("~/"@ =~= seq!['~', '/']);
}

/// A folder in the field ends in one separator: the path, and a separator behind it where it has none.
pub proof fn law_folders_end_in_a_separator(path: Seq<char>)
    ensures
        path.len() > 0 && path.last() == '/' ==> with_separator(path) == path,
        !(path.len() > 0 && path.last() == '/') ==> with_separator(path) == path + seq!['/'],
{
    reveal_strlit("/");
    assert("/"@ =~= seq!['/']);
    lemma_ends_with_separator(path);
}

/// What is typed is complete exactly where its last character is a separator, white space behind it
/// left out.
pub proof fn law_separator_completes_what_is_typed(typed: Seq<char>, after: Seq<char>)
    requires
        forall|k: int| 0 <= k < after.len() ==> is_white_space(#[trigger] after[k]),
        typed.len() > 0 ==> !is_white_space(typed[0]) && !is_white_space(typed.last()),
    ensures
        is_complete(typed + after) <==> typed.len() > 0 && typed.last() == '/',
{
    law_trimming_keeps_the_inside(Seq::empty(), typed, after);
    lemma_ends_with_separator(typed);
}

/// Anything with a separator in it is a path, and so is what begins with `~`, and nothing at all. Any
/// other text is a name to search for.
pub proof fn law_names_have_no_separator(before: Seq<char>, typed: Seq<char>, after: Seq<char>)
    requires
        forall|k: int| 0 <= k < before.len() ==> is_white_space(#[trigger] before[k]),
        forall|k: int| 0 <= k < after.len() ==> is_white_space(#[trigger] after[k]),
        typed.len() > 0 ==> !is_white_space(typed[0]) && !is_white_space(typed.last()),
    ensures
        reads_as_path(before + typed + after) <==> typed.len() == 0 || typed[0] == '~' || exists|k:
            int| 0 <= k < typed.len() && typed[k] == '/',
{
    law_trimming_keeps_the_inside(before, typed, after);
    if typed.len() > 0 {
        lemma_typed(before, typed, after);
        if typed.contains('/') {
            let k = choose|k: int| 0 <= k < typed.len() && typed[k] == '/';
            assert(typed[k] == '/');
        }
    }
}

/// Texts are ordered by the first character in which they differ, and where one goes on from the
/// other, the shorter stands first.
pub proof fn law_first_difference_orders_texts(
    common: Seq<char>,
    left: char,
    right: char,
    left_rest: Seq<char>,
    right_rest: Seq<char>,
)
    ensures
        left != right ==> alphabetical(common + seq![left] + left_rest, common + seq![right]
            + right_rest) == (left < right),
        alphabetical(common, common + right_rest),
        left_rest.len() > 0 ==> !alphabetical(common + left_rest, common),
    decreases common.len(),
{
    let one = common + seq![left] + left_rest;
    let two = common + seq![right] + right_rest;
    if common.len() > 0 {
        let shorter = common.drop_first();
        law_first_difference_orders_texts(shorter, left, right, left_rest, right_rest);
        assert(one.drop_first() =~= shorter + seq![left] + left_rest);
        assert(two.drop_first() =~= shorter + seq![right] + right_rest);
        assert((common + right_rest).drop_first() =~= shorter + right_rest);
        assert((common + left_rest).drop_first() =~= shorter + left_rest);
    }
}

/// A folder is suggested exactly where its name goes on from what was typed of it; one whose name
/// begins with a dot only where what was typed does.
pub proof fn law_suggestions_go_on_from_what_was_typed(name: Seq<char>, prefix: Seq<char>)
    ensures
        is_suggested(name, prefix) <==> (exists|rest: Seq<char>| name == #[trigger] (prefix + rest))
            && (name.len() > 0 && name[0] == '.' ==> prefix.len() > 0),
{
    reveal_strlit(".");
    lemma_single_prefix(name, "."@);
    lemma_single_prefix(prefix, "."@);
    if prefix.is_prefix_of(name) {
        assert(name =~= prefix + name.skip(prefix.len() as int));
    }
    if exists|rest: Seq<char>| name == #[trigger] (prefix + rest) {
        let rest = choose|rest: Seq<char>| name == #[trigger] (prefix + rest);
        assert(name.take(prefix.len() as int) =~= prefix);
        if prefix.len() > 0 {
            assert(name[0] == prefix[0]);
        }
    }
}

/// The first few items are those items in their order, as many as asked for or as there are.
pub proof fn law_first_items_are_kept<T>(items: Seq<T>, count: nat, i: int)
    ensures
        first_of(items, count).len() == if items.len() < count {
            items.len()
        } else {
            count
        },
        0 <= i < first_of(items, count).len() ==> first_of(items, count)[i] == items[i],
        MAX_SUGGESTIONS == 8,
{
}

/// The folders offered for suggestion are the listed ones in their order, with their names in
/// lowercase; and those of a search its folders, in theirs.
pub proof fn law_candidates_are_the_listed_folders(
    children: Seq<ChildFolder>,
    candidates: Seq<FolderCandidate>,
    items: Seq<SearchItem>,
    folders: Seq<FoundFolder>,
)
    requires
        candidates_of(children, candidates),
        found_folders(items, folders),
    ensures
        candidates.len() == children.len(),
        forall|i: int|
            0 <= i < children.len() ==> (#[trigger] candidates[i]).path@ == children[i].path@
                && candidates[i].folded_name@ == lowercase(children[i].name@),
        folders.len() == items.filter(|item: SearchItem| item.is_directory).len(),
        forall|i: int|
            0 <= i < folders.len() ==> (#[trigger] folders[i]).path@ == items.filter(
                |item: SearchItem| item.is_directory,
            )[i].path@ && folders[i].depth == path_depth(folders[i].path@),
{
}

/// A path lies one deeper than the one above it, and one with none above it at no depth.
pub proof fn law_depth_counts_the_paths_above(path: Seq<char>)
    ensures
        path_parent(path) is None ==> path_depth(path) == 0,
        path_parent(path) is Some && path_parent(path)->0.len() < path.len() ==> path_depth(path)
            == path_depth(path_parent(path)->0) + 1,
{
}

/// Suggested folders come in the order of their names, and those of a search the shallowest first.
pub proof fn law_suggestions_come_in_order(
    candidates: Seq<FolderCandidate>,
    folders: Seq<FoundFolder>,
    i: int,
    j: int,
)
    requires
        0 <= i < j,
    ensures
        j < candidates.len() ==> alphabetical(
            in_rank_order(candidates)[i].folded_name@,
            in_rank_order(candidates)[j].folded_name@,
        ),
        j < folders.len() ==> in_rank_order(folders)[i].depth <= in_rank_order(folders)[j].depth,
{
    crate::ranking::law_sorting_orders_and_keeps_items(candidates);
    crate::ranking::law_sorting_orders_and_keeps_items(folders);
    if j < candidates.len() {
        assert(in_rank_order(candidates)[i].ranks_up_to(&in_rank_order(candidates)[j]));
    }
    if j < folders.len() {
        assert(in_rank_order(folders)[i].ranks_up_to(&in_rank_order(folders)[j]));
    }
}

/// Folders of the same depth, and of the same name, come in the order in which they were found.
pub proof fn law_equal_suggestions_keep_their_order(
    first: FoundFolder,
    second: FoundFolder,
    left: FolderCandidate,
    right: FolderCandidate,
)
    ensures
        first.depth == second.depth ==> in_rank_order(seq![first, second]) == seq![first, second],
        first.depth > second.depth ==> in_rank_order(seq![first, second]) == seq![second, first],
        left.folded_name@ == right.folded_name@ ==> in_rank_order(seq![left, right]) == seq![
            left,
            right,
        ],
{
    crate::ranking::law_equal_ranks_keep_their_order(seq![first], first, second);
    crate::ranking::law_equal_ranks_keep_their_order(seq![left], left, right);
    lemma_alphabetical_total(left.folded_name@, right.folded_name@);
}

/// What is read of a typed destination is what its text stands for.
pub proof fn law_read_destinations_keep_their_text(destination: Destination)
    ensures
        destination is Home <==> destination@ is Home,
        destination matches Destination::BelowHome(rest) ==> destination@
            == DestinationView::BelowHome(rest@),
        destination matches Destination::Absolute(path) ==> destination@
            == DestinationView::Absolute(path@),
        destination matches Destination::BelowBase(path) ==> destination@
            == DestinationView::BelowBase(path@),
{
}

/// Whatever is typed, down to nothing at all, is taken from home, from the root or from the folder in
/// view, as its first characters say; white space around it does not count. A path from the root on
/// behind `~/` stands for itself, as it does anywhere.
pub proof fn law_first_characters_say_where_to_start(
    before: Seq<char>,
    typed: Seq<char>,
    after: Seq<char>,
    base: Seq<char>,
    home: Seq<char>,
)
    requires
        forall|k: int| 0 <= k < before.len() ==> is_white_space(#[trigger] before[k]),
        forall|k: int| 0 <= k < after.len() ==> is_white_space(#[trigger] after[k]),
        typed.len() > 0 ==> !is_white_space(typed[0]) && !is_white_space(typed.last()),
    ensures
        resolved_destination(before + typed + after, base, home) == if typed.len() == 0 {
            path_join(base, typed)
        } else if typed[0] == '/' {
            typed
        } else if typed[0] == '~' && typed.len() == 1 {
            home
        } else if typed[0] == '~' && typed[1] == '/' {
            path_join(home, typed.skip(2))
        } else {
            path_join(base, typed)
        },
        typed.len() >= 3 && typed[0] == '~' && typed[1] == '/' && typed[2] == '/'
            ==> resolved_destination(before + typed + after, base, home) == typed.skip(2),
        typed.len() == 0 && base.len() > 0 ==> resolved_destination(
            before + typed + after,
            base,
            home,
        ) == with_separator(base),
{
    reveal_strlit("~");
    reveal_strlit("~/");
    reveal_strlit("/");
    law_trimming_keeps_the_inside(before, typed, after);
    if typed.len() > 0 {
        lemma_typed(before, typed, after);
        if typed.len() >= 3 {
            law_joining_takes_one_separator(home, typed.skip(2));
        }
    } else {
        assert(!("~/"@.is_prefix_of(typed)) && !("/"@.is_prefix_of(typed)) && typed != "~"@);
        if base.len() > 0 {
            assert(with_separator(base) + typed =~= with_separator(base));
        }
    }
}

} // verus!
