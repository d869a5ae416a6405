//! The clipboard and drag and drop: what was cut, what a drop does, and how paths are copied as
//! text.

use crate::entry::FileEntry;
use crate::input::Modifiers;
use crate::location::{duplicate_locations, places, Location, LocationView, Place};
use crate::paths::with_separator;
use crate::text::{
    characters, concat_text, decimal, decimal_text, ends_with_text, is_control_code, is_white_space,
    join_text, joined, views,
};
use vstd::prelude::*;

verus! {

/// What a drag source or a drop target lets happen to files.
#[derive(Clone, Copy, Debug, PartialEq, Eq, Structural)]
pub struct DragActions {
    pub copies: bool,
    pub moves: bool,
}

/// Whether a held modifier decides what a drop does.
#[derive(Clone, Copy, Debug, PartialEq, Eq, Structural)]
pub enum DropOverride {
    Unforced,
    ForceCopy,
    ForceMove,
}

/// Whether the dropped files lie on the volume of the destination.
#[derive(Clone, Copy, Debug, PartialEq, Eq, Structural)]
pub enum VolumeRelation {
    Same,
    Different,
    Unknown,
}

/// What a drop from another volume does.
#[derive(Clone, Copy, Debug, PartialEq, Eq, Structural)]
pub enum CrossVolumeDropStrategy {
    Ask,
    Move,
    Copy,
}

/// What happens to dropped files.
#[derive(Clone, Copy, Debug, PartialEq, Eq, Structural)]
pub enum TransferKind {
    Copy,
    Move,
    Forbidden,
}

/// What is done with a drop.
#[derive(Clone, Copy, Debug, PartialEq, Eq, Structural)]
pub enum DropCommit {
    Move,
    Copy,
    Ask { default: TransferKind },
    Forbidden,
}

/// What happens to the files of a drop that is done as `commit` says.
pub open spec fn committed_kind(commit: DropCommit) -> TransferKind {
    match commit {
        DropCommit::Move => TransferKind::Move,
        DropCommit::Copy => TransferKind::Copy,
        DropCommit::Ask { default } => default,
        DropCommit::Forbidden => TransferKind::Forbidden,
    }
}

impl DropCommit {
    /// What happens to the files.
    pub fn transfer_kind(self) -> (result: TransferKind)
        ensures
            result == committed_kind(self),
    {
        match self {
            DropCommit::Move => TransferKind::Move,
            DropCommit::Copy => TransferKind::Copy,
            DropCommit::Ask { default } => default,
            DropCommit::Forbidden => TransferKind::Forbidden,
        }
    }
}

/// What a drag offers while modifiers are held: control copies, shift moves, neither leaves both
/// open.
pub fn drag_actions_for_modifiers(modifiers: Modifiers) -> (result: DragActions)
    ensures
        result.copies == (modifiers.control || !modifiers.shift),
        result.moves == !modifiers.control,
{
    if modifiers.control {
        DragActions { copies: true, moves: false }
    } else if modifiers.shift {
        DragActions { copies: false, moves: true }
    } else {
        DragActions { copies: true, moves: true }
    }
}

/// What is on offer for a drop: the target decides on copies alone, moves need both sides.
pub fn offered_file_actions(target: DragActions, source: DragActions) -> (result: DragActions)
    ensures
        result.copies == target.copies,
        result.moves == (target.moves && source.moves),
{
    DragActions { copies: target.copies, moves: target.moves && source.moves }
}

/// What the held modifiers make of a drop.
pub open spec fn override_of(modifiers: Modifiers) -> DropOverride {
    if modifiers.control {
        DropOverride::ForceCopy
    } else if modifiers.shift {
        DropOverride::ForceMove
    } else {
        DropOverride::Unforced
    }
}

/// What the held modifiers make of a drop.
pub fn drop_override(modifiers: Modifiers) -> (result: DropOverride)
    ensures
        result == override_of(modifiers),
{
    if modifiers.control {
        DropOverride::ForceCopy
    } else if modifiers.shift {
        DropOverride::ForceMove
    } else {
        DropOverride::Unforced
    }
}

/// What is done with a drop, where nothing but `kind` is wanted: that where it is on offer, the
/// other where only it is, nothing where neither is.
pub open spec fn wanted_or_offered(actions: DragActions, wants_move: bool) -> DropCommit {
    if wants_move && actions.moves {
        DropCommit::Move
    } else if !wants_move && actions.copies {
        DropCommit::Copy
    } else if actions.copies {
        DropCommit::Copy
    } else if actions.moves {
        DropCommit::Move
    } else {
        DropCommit::Forbidden
    }
}

/// What is done with a drop. A held modifier decides where it can. Otherwise files of the same
/// volume are moved, and for others the strategy decides: one that asks proposes a copy, and only
/// asks where both are on offer.
pub open spec fn drop_rule(
    actions: DragActions,
    override_with: DropOverride,
    volume: VolumeRelation,
    strategy: CrossVolumeDropStrategy,
) -> DropCommit {
    match override_with {
        DropOverride::ForceCopy => wanted_or_offered(actions, false),
        DropOverride::ForceMove => wanted_or_offered(actions, true),
        DropOverride::Unforced => if volume is Same {
            wanted_or_offered(actions, true)
        } else {
            match strategy {
                CrossVolumeDropStrategy::Move => wanted_or_offered(actions, true),
                CrossVolumeDropStrategy::Copy => wanted_or_offered(actions, false),
                CrossVolumeDropStrategy::Ask => if actions.copies && actions.moves {
                    DropCommit::Ask { default: TransferKind::Copy }
                } else {
                    wanted_or_offered(actions, false)
                },
            }
        },
    }
}

fn preferred(actions: DragActions, wants_move: bool) -> (result: DropCommit)
    ensures
        result == wanted_or_offered(actions, wants_move),
{
    if wants_move && actions.moves {
        DropCommit::Move
    } else if actions.copies {
        DropCommit::Copy
    } else if actions.moves {
        DropCommit::Move
    } else {
        DropCommit::Forbidden
    }
}

/// What is done with a drop.
pub fn drop_commit(
    actions: DragActions,
    override_with: DropOverride,
    volume: VolumeRelation,
    strategy: CrossVolumeDropStrategy,
) -> (result: DropCommit)
    ensures
        result == drop_rule(actions, override_with, volume, strategy),
{
    match override_with {
        DropOverride::ForceCopy => preferred(actions, false),
        DropOverride::ForceMove => preferred(actions, true),
        DropOverride::Unforced => {
            if volume == VolumeRelation::Same {
                preferred(actions, true)
            } else {
                match strategy {
                    CrossVolumeDropStrategy::Move => preferred(actions, true),
                    CrossVolumeDropStrategy::Copy => preferred(actions, false),
                    CrossVolumeDropStrategy::Ask => {
                        if actions.copies && actions.moves {
                            DropCommit::Ask { default: TransferKind::Copy }
                        } else {
                            preferred(actions, false)
                        }
                    },
                }
            }
        },
    }
}

/// What is done with a drop, one that would change nothing included.
pub open spec fn preferred_commit(
    actions: DragActions,
    override_with: DropOverride,
    volume: VolumeRelation,
    is_noop: bool,
    strategy: CrossVolumeDropStrategy,
) -> DropCommit {
    if is_noop {
        DropCommit::Forbidden
    } else {
        drop_rule(actions, override_with, volume, strategy)
    }
}

/// What is done with a drop: nothing where it would change nothing.
pub fn preferred_file_drop_commit(
    actions: DragActions,
    override_with: DropOverride,
    volume: VolumeRelation,
    is_noop: bool,
    strategy: CrossVolumeDropStrategy,
) -> (result: DropCommit)
    ensures
        result == preferred_commit(actions, override_with, volume, is_noop, strategy),
{
    if is_noop {
        return DropCommit::Forbidden;
    }
    drop_commit(actions, override_with, volume, strategy)
}

/// What the pointer shows over a drop that would be done as `commit` says.
pub fn drop_commit_action(commit: DropCommit) -> (result: DragActions)
    ensures
        result.copies == (committed_kind(commit) is Copy),
        result.moves == (committed_kind(commit) is Move),
{
    match commit.transfer_kind() {
        TransferKind::Copy => DragActions { copies: true, moves: false },
        TransferKind::Move => DragActions { copies: false, moves: true },
        TransferKind::Forbidden => DragActions { copies: false, moves: false },
    }
}

/// What a drop does that no volume is known of: files of this application are moved, others copied
/// where both are on offer.
pub fn preferred_file_drop_action(actions: DragActions, local: bool) -> (result: TransferKind)
    ensures
        result is Move <==> actions.moves && (local || !actions.copies),
        result is Copy <==> actions.copies && !(actions.moves && local),
        result is Forbidden <==> !actions.copies && !actions.moves,
{
    if actions.moves && (local || !actions.copies) {
        TransferKind::Move
    } else if actions.copies {
        TransferKind::Copy
    } else {
        TransferKind::Forbidden
    }
}

/// The locations of a list of files, of which some may have none. An empty list is no list.
pub fn locations_from_file_list(files: Vec<Option<Location>>) -> (result: Option<Vec<Location>>)
    ensures
        match result {
            Some(locations) => locations@ == present(files@) && locations@.len() > 0,
            None => present(files@).len() == 0,
        },
{
    let mut locations: Vec<Location> = Vec::new();
    let mut i: usize = 0;
    while i < files.len()
        invariant
            i <= files@.len(),
            locations@ == present(files@.take(i as int)),
        decreases files@.len() - i,
    {
        assert(files@.take(i + 1).drop_last() == files@.take(i as int));
        match &files[i] {
            Some(location) => {
                locations.push(location.duplicate());
            },
            None => {},
        }
        i = i + 1;
    }
    assert(files@.take(i as int) == files@);
    if locations.len() == 0 {
        None
    } else {
        Some(locations)
    }
}

/// The locations that are there, in order.
pub open spec fn present(files: Seq<Option<Location>>) -> Seq<Location>
    decreases files.len(),
{
    if files.len() == 0 {
        Seq::empty()
    } else {
        match files.last() {
            Some(location) => present(files.drop_last()).push(location),
            None => present(files.drop_last()),
        }
    }
}

/// Whether two lists hold equal locations, in the same order.
pub fn same_lists(left: &Vec<Location>, right: &Vec<Location>) -> (result: bool)
    ensures
        result == (places(left@) == places(right@)),
{
    if left.len() != right.len() {
        assert(places(left@).len() != places(right@).len());
        return false;
    }
    let mut i: usize = 0;
    while i < left.len()
        invariant
            i <= left@.len() == right@.len(),
            forall|k: int| 0 <= k < i ==> (#[trigger] left@[k])@.place() == right@[k]@.place(),
        decreases left@.len() - i,
    {
        if !left[i].same_as(&right[i]) {
            assert(places(left@)[i as int] != places(right@)[i as int]);
            return false;
        }
        i = i + 1;
    }
    assert(places(left@) == places(right@));
    true
}

/// What was found out of a drop: for which files and destination, and with which result.
#[derive(Debug)]
pub struct DropClassification {
    pub destination: Location,
    pub sources: Vec<Location>,
    pub is_noop: bool,
    pub relation: VolumeRelation,
}

/// What is known of a drop.
#[derive(Clone, Copy, Debug, PartialEq, Eq, Structural)]
pub struct DropFinding {
    pub relation: VolumeRelation,
    pub is_noop: bool,
}

/// What a drop of files over a target has come to: the modifiers last held, the dragged files, and
/// what was found out of them.
#[derive(Debug)]
pub struct FileDropState {
    pub last_override: DropOverride,
    pub sources: Option<Vec<Location>>,
    pub classification: Option<DropClassification>,
}

impl DropClassification {
    /// Whether this was found out for the given files and destination.
    pub open spec fn is_about(
        &self,
        destination: Place,
        sources: Seq<Place>,
    ) -> bool {
        self.destination@.place() == destination && places(self.sources@) == sources
    }

    /// Whether this was found out for the given files and destination.
    pub fn covers(&self, destination: &Location, sources: &Vec<Location>) -> (result: bool)
        ensures
            result == self.is_about(destination@.place(), places(sources@)),
    {
        self.destination.same_as(destination) && same_lists(&self.sources, sources)
    }
}

impl FileDropState {
    /// What is known of the given files and destination, without finding out anything new.
    pub open spec fn known(
        &self,
        destination: Place,
        sources: Seq<Place>,
    ) -> Option<DropFinding> {
        if sources.len() == 0 {
            Some(DropFinding { relation: VolumeRelation::Unknown, is_noop: false })
        } else {
            match self.classification {
                Some(found) => if found.is_about(destination, sources) {
                    Some(DropFinding { relation: found.relation, is_noop: found.is_noop })
                } else {
                    None
                },
                None => None,
            }
        }
    }

    /// Whether nothing is being dragged.
    pub open spec fn is_idle(&self) -> bool {
        self.last_override is Unforced && self.sources is None && self.classification is None
    }

    /// A target that nothing is dragged over.
    pub fn new() -> (result: Self)
        ensures
            result.is_idle(),
    {
        FileDropState { last_override: DropOverride::Unforced, sources: None, classification: None }
    }

    /// The drag left the target.
    pub fn reset(&mut self)
        ensures
            final(self).is_idle(),
    {
        self.last_override = DropOverride::Unforced;
        self.sources = None;
        self.classification = None;
    }

    /// The dragged files became known, or are no longer.
    pub fn reload_sources(&mut self, sources: Vec<Location>)
        ensures
            sources@.len() == 0 ==> final(self).is_idle(),
            sources@.len() > 0 ==> final(self).sources == Some(sources) && final(self).last_override
                == old(self).last_override && final(self).classification
                == old(self).classification,
    {
        if sources.len() == 0 {
            self.reset();
        } else {
            self.sources = Some(sources);
        }
    }

    /// The dragged files: those remembered, or else those that the target gives, which are then
    /// remembered if there are any.
    pub fn dragged_sources(&mut self, given: Vec<Location>) -> (result: Vec<Location>)
        ensures
            result@ == match old(self).sources {
                Some(sources) => sources@,
                None => given@,
            },
            final(self).last_override == old(self).last_override,
            final(self).classification == old(self).classification,
            old(self).sources is Some ==> final(self).sources == old(self).sources,
            old(self).sources is None && given@.len() == 0 ==> final(self).sources is None,
            old(self).sources is None && given@.len() > 0 ==> (final(self).sources matches Some(
                kept,
            ) && kept@ == given@),
    {
        match &self.sources {
            Some(sources) => {
                return duplicate_locations(sources);
            },
            None => {},
        }
        if given.len() > 0 {
            self.sources = Some(duplicate_locations(&given));
        }
        given
    }

    /// What is known of a drop. Nothing is where its files or its destination are new: the volumes
    /// have to be looked up, and recorded.
    pub fn classify(&self, destination: &Location, sources: &Vec<Location>) -> (result: Option<
        DropFinding,
    >)
        ensures
            result == self.known(destination@.place(), places(sources@)),
    {
        if sources.len() == 0 {
            return Some(DropFinding { relation: VolumeRelation::Unknown, is_noop: false });
        }
        match &self.classification {
            Some(found) => {
                if found.covers(destination, sources) {
                    Some(DropFinding { relation: found.relation, is_noop: found.is_noop })
                } else {
                    None
                }
            },
            None => None,
        }
    }

    /// Records what a look at the volumes has told so far.
    pub fn record(
        &mut self,
        destination: &Location,
        sources: &Vec<Location>,
        finding: DropFinding,
    )
        ensures
            final(self).last_override == old(self).last_override,
            final(self).sources == old(self).sources,
            final(self).classification matches Some(found) && found.destination == *destination
                && found.sources@ == sources@ && found.is_noop == finding.is_noop && found.relation
                == finding.relation,
    {
        self.classification = Some(
            DropClassification {
                destination: destination.duplicate(),
                sources: duplicate_locations(sources),
                is_noop: finding.is_noop,
                relation: finding.relation,
            },
        );
    }

    /// Takes the end of a look at the volumes. It counts only where the drop is still the one it
    /// was for; then the pointer has to be brought up to date.
    pub fn volumes_resolved(
        &mut self,
        destination: &Location,
        sources: &Vec<Location>,
        relation: VolumeRelation,
    ) -> (result: bool)
        ensures
            result == (old(self).classification matches Some(found) && found.is_about(
                destination@.place(),
                places(sources@),
            )),
            final(self).last_override == old(self).last_override,
            final(self).sources == old(self).sources,
            !result ==> final(self).classification == old(self).classification,
            result ==> (final(self).classification matches Some(found) && found.relation == relation
                && found.destination == old(self).classification->0.destination && found.sources
                == old(self).classification->0.sources && found.is_noop
                == old(self).classification->0.is_noop),
    {
        match self.classification.take() {
            Some(found) => {
                let counts: bool = found.covers(destination, sources);
                if counts {
                    self.classification = Some(
                        DropClassification {
                            destination: found.destination,
                            sources: found.sources,
                            is_noop: found.is_noop,
                            relation,
                        },
                    );
                } else {
                    self.classification = Some(found);
                }
                counts
            },
            None => false,
        }
    }

    /// What the modifiers held over the target make of the drop.
    pub fn hover_override(&mut self, modifiers: Modifiers) -> (result: DropOverride)
        ensures
            result == override_of(modifiers),
            final(self).last_override == result,
            final(self).sources == old(self).sources,
            final(self).classification == old(self).classification,
    {
        let current: DropOverride = drop_override(modifiers);
        self.last_override = current;
        current
    }

    /// What the modifiers held at the drop make of it: those released just before still count.
    pub fn commit_override(&mut self, modifiers: Modifiers) -> (result: DropOverride)
        ensures
            result == if override_of(modifiers) is Unforced {
                old(self).last_override
            } else {
                override_of(modifiers)
            },
            final(self).last_override == result,
            final(self).sources == old(self).sources,
            final(self).classification == old(self).classification,
    {
        let current: DropOverride = drop_override(modifiers);
        if current != DropOverride::Unforced {
            self.last_override = current;
            current
        } else {
            self.last_override
        }
    }

    /// What is done with the drop, once it is known what it is: nothing where there is no drop to
    /// speak of or no destination. `is_commit` tells a drop from a drag that is still going on.
    pub fn classify_file_drop(
        &mut self,
        is_commit: bool,
        has_drop: bool,
        modifiers: Modifiers,
        has_destination: bool,
        finding: DropFinding,
        target_actions: DragActions,
        source_actions: Option<DragActions>,
        strategy: CrossVolumeDropStrategy,
    ) -> (result: DropCommit)
        ensures
            final(self).sources == old(self).sources,
            final(self).classification == old(self).classification,
            !has_drop && !is_commit ==> result is Forbidden && final(self).last_override
                == old(self).last_override,
            has_drop || is_commit ==> final(self).last_override == if is_commit && override_of(
                modifiers,
            ) is Unforced {
                old(self).last_override
            } else {
                override_of(modifiers)
            },
            (has_drop || is_commit) && !has_destination ==> result is Forbidden,
            (has_drop || is_commit) && has_destination ==> result == preferred_commit(
                DragActions {
                    copies: target_actions.copies,
                    moves: target_actions.moves && (match source_actions {
                        Some(actions) => actions,
                        None => target_actions,
                    }).moves,
                },
                final(self).last_override,
                finding.relation,
                finding.is_noop,
                strategy,
            ),
    {
        if !has_drop && !is_commit {
            return DropCommit::Forbidden;
        }
        let override_with: DropOverride = if is_commit {
            self.commit_override(modifiers)
        } else {
            self.hover_override(modifiers)
        };
        if !has_destination {
            return DropCommit::Forbidden;
        }
        let source: DragActions = match source_actions {
            Some(actions) => actions,
            None => target_actions,
        };
        preferred_file_drop_commit(
            offered_file_actions(target_actions, source),
            override_with,
            finding.relation,
            finding.is_noop,
            strategy,
        )
    }
}

/// A transfer that the clipboard or a drop asks for.
#[derive(Debug)]
pub enum TransferRequest {
    /// A drop, done as its commit says.
    CommitFileDrop { destination: Location, sources: Vec<Location>, commit: DropCommit },
    /// A paste, which moves what was cut and copies anything else.
    StartTransfer { destination: Location, sources: Vec<Location>, move_sources: bool },
}

/// What a drop of files asks for: the strategy that classified the drop decides, whatever it is.
/// Nothing is asked for where no file came with the drop.
pub fn transfer_dropped_files(
    destination: Location,
    sources: Option<Vec<Location>>,
    commit: DropCommit,
) -> (result: Option<TransferRequest>)
    ensures
        result == match sources {
            Some(sources) => if sources@.len() == 0 {
                None
            } else {
                Some(TransferRequest::CommitFileDrop { destination, sources, commit })
            },
            None => None,
        },
{
    match sources {
        Some(sources) => {
            if sources.len() == 0 {
                None
            } else {
                Some(TransferRequest::CommitFileDrop { destination, sources, commit })
            }
        },
        None => None,
    }
}

/// The lines of a list of URIs, each ended as the format demands.
pub open spec fn uri_list(uris: Seq<Seq<char>>) -> Seq<char> {
    joined(uris, "\r\n"@) + "\r\n"@
}

/// The text of a list of URIs, or nothing where the list is empty.
pub fn uri_list_text(uris: &Vec<String>) -> (result: Option<String>)
    ensures
        match result {
            Some(text) => uris@.len() > 0 && text@ == uri_list(views(uris@)),
            None => uris@.len() == 0,
        },
{
    if uris.len() == 0 {
        return None;
    }
    let lines: String = join_text(uris, "\r\n");
    Some(concat_text(lines.as_str(), "\r\n"))
}

/// Whether a shell would read something else into the character.
pub open spec fn is_shell_special(ch: char) -> bool {
    ||| is_white_space(ch)
    ||| is_control_code(ch)
    ||| ch == '"'
    ||| ch == '\''
    ||| ch == '\\'
    ||| ch == '$'
    ||| ch == '`'
    ||| ch == '!'
    ||| ch == '#'
    ||| ch == '&'
    ||| ch == '*'
    ||| ch == ';'
    ||| ch == '<'
    ||| ch == '>'
    ||| ch == '?'
    ||| ch == '['
    ||| ch == ']'
    ||| ch == '{'
    ||| ch == '}'
    ||| ch == '('
    ||| ch == ')'
    ||| ch == '|'
    ||| ch == '~'
}

/// Whether a character has to be escaped for a shell.
pub fn needs_shell_escape(ch: char) -> (result: bool)
    ensures
        result == is_shell_special(ch),
{
    ch.is_whitespace() || ch.is_control() || ch == '"' || ch == '\'' || ch == '\\' || ch == '$' || ch
        == '`' || ch == '!' || ch == '#' || ch == '&' || ch == '*' || ch == ';' || ch == '<' || ch
        == '>' || ch == '?' || ch == '[' || ch == ']' || ch == '{' || ch == '}' || ch == '(' || ch
        == ')' || ch == '|' || ch == '~'
}

/// A character as a shell reads it outside quotes.
pub open spec fn escaped_char(ch: char) -> Seq<char> {
    if is_shell_special(ch) {
        seq!['\\', ch]
    } else {
        seq![ch]
    }
}

/// Every special character behind a backslash.
pub open spec fn backslashed(text: Seq<char>) -> Seq<char>
    decreases text.len(),
{
    if text.len() == 0 {
        text
    } else {
        backslashed(text.drop_last()) + escaped_char(text.last())
    }
}

/// A character as a shell reads it inside single quotes.
pub open spec fn quoted_char(ch: char) -> Seq<char> {
    if ch == '\'' {
        seq!['\'', '\\', '\'', '\'']
    } else {
        seq![ch]
    }
}

/// The text between single quotes, the quotes in it written so that it goes on behind them.
pub open spec fn inside_quotes(text: Seq<char>) -> Seq<char>
    decreases text.len(),
{
    if text.len() == 0 {
        text
    } else {
        inside_quotes(text.drop_last()) + quoted_char(text.last())
    }
}

/// A path as a word of a shell: in quotes where it spans lines, with backslashes otherwise.
pub open spec fn shell_word(path: Seq<char>) -> Seq<char> {
    if path.contains('\n') {
        seq!['\''] + inside_quotes(path) + seq!['\'']
    } else {
        backslashed(path)
    }
}

/// A path as a word of a shell.
pub fn shell_escape_path(path: &str) -> (result: String)
    ensures
        result@ == shell_word(path@),
{
    let chars: Vec<char> = characters(path);
    let spans_lines: bool = match crate::text::first_place(&chars, '\n') {
        Some(at) => {
            assert(path@[at as int] == '\n');
            true
        },
        None => false,
    };
    let mut escaped: String = String::new();
    let mut i: usize = 0;
    if spans_lines {
        escaped.push('\'');
        assert(escaped@ == seq!['\''] + inside_quotes(path@.take(0)));
        while i < chars.len()
            invariant
                chars@ == path@,
                i <= chars@.len(),
                escaped@ == seq!['\''] + inside_quotes(path@.take(i as int)),
            decreases chars@.len() - i,
        {
            let ghost before = escaped@;
            assert(path@.take(i + 1).drop_last() == path@.take(i as int));
            let ch: char = chars[i];
            if ch == '\'' {
                escaped.push('\'');
                escaped.push('\\');
                escaped.push('\'');
                escaped.push('\'');
            } else {
                escaped.push(ch);
            }
            i = i + 1;
            assert(escaped@ == before + quoted_char(ch));
            assert(escaped@ == seq!['\''] + inside_quotes(path@.take(i as int)));
        }
        assert(path@.take(i as int) == path@);
        escaped.push('\'');
        assert(escaped@ == shell_word(path@));
        return escaped;
    }
    while i < chars.len()
        invariant
            chars@ == path@,
            i <= chars@.len(),
            escaped@ == backslashed(path@.take(i as int)),
        decreases chars@.len() - i,
    {
        let ghost before = escaped@;
        assert(path@.take(i + 1).drop_last() == path@.take(i as int));
        let ch: char = chars[i];
        if needs_shell_escape(ch) {
            escaped.push('\\');
        }
        escaped.push(ch);
        i = i + 1;
        assert(escaped@ == before + escaped_char(ch));
    }
    assert(path@.take(i as int) == path@);
    escaped
}

/// What is copied for a location: a path ready for a shell, with a separator behind a directory, or
/// the location as it is shown.
pub open spec fn copied_path(
    location: LocationView,
    display_path: Seq<char>,
    is_directory: bool,
) -> Seq<char> {
    match location {
        LocationView::Native(path) => if is_directory {
            with_separator(shell_word(path))
        } else {
            shell_word(path)
        },
        LocationView::Uri(_) => display_path,
    }
}

/// What is copied for a location.
pub fn copy_path_text(location: &Location, display_path: &str, is_directory: bool) -> (result: String)
    ensures
        result@ == copied_path(location@, display_path@, is_directory),
{
    match location.native_path() {
        Some(path) => {
            let word: String = shell_escape_path(path);
            if is_directory && !ends_with_text(word.as_str(), "/") {
                concat_text(word.as_str(), "/")
            } else {
                word
            }
        },
        None => display_path.to_owned(),
    }
}

/// What is copied for each of the entries, given how their locations are shown.
pub open spec fn copied_paths(entries: Seq<FileEntry>, display_paths: Seq<String>) -> Seq<Seq<char>> {
    Seq::new(
        entries.len(),
        |i: int|
            copied_path(
                entries[i].location@,
                display_paths[i]@,
                entries[i].kind.is_directory(),
            ),
    )
}

/// The paths of the entries, one to a line.
pub fn copy_locations_text(entries: &Vec<FileEntry>, display_paths: &Vec<String>) -> (result: String)
    requires
        display_paths@.len() == entries@.len(),
    ensures
        result@ == joined(copied_paths(entries@, display_paths@), "\n"@),
{
    let mut lines: Vec<String> = Vec::new();
    let mut i: usize = 0;
    while i < entries.len()
        invariant
            display_paths@.len() == entries@.len(),
            i <= entries@.len(),
            lines@.len() == i,
            forall|k: int|
                0 <= k < i ==> (#[trigger] lines@[k])@ == copied_paths(entries@, display_paths@)[k],
        decreases entries@.len() - i,
    {
        lines.push(
            copy_path_text(
                &entries[i].location,
                display_paths[i].as_str(),
                entries[i].is_directory(),
            ),
        );
        i = i + 1;
    }
    assert(views(lines@) == copied_paths(entries@, display_paths@));
    join_text(&lines, "\n")
}

/// The names of the entries, one to a line.
pub fn copy_names_text(entries: &Vec<FileEntry>) -> (result: String)
    ensures
        result@ == joined(crate::entry::names_of(entries@), "\n"@),
{
    let mut lines: Vec<String> = Vec::new();
    let mut i: usize = 0;
    while i < entries.len()
        invariant
            i <= entries@.len(),
            lines@.len() == i,
            forall|k: int| 0 <= k < i ==> (#[trigger] lines@[k])@ == entries@[k].display_name@,
        decreases entries@.len() - i,
    {
        lines.push(entries[i].display_name.clone());
        i = i + 1;
    }
    assert(views(lines@) == crate::entry::names_of(entries@));
    join_text(&lines, "\n")
}

/// The name of a pasted picture: numbered from the second attempt on.
pub open spec fn pasted_name(suffix: u64) -> Seq<char> {
    if suffix == 0 {
        "image.png"@
    } else {
        "image ("@ + decimal(suffix as nat) + ").png"@
    }
}

/// The name of a pasted picture at an attempt to write it.
pub fn pasted_image_name(suffix: u64) -> (result: String)
    ensures
        result@ == pasted_name(suffix),
{
    if suffix == 0 {
        "image.png".to_owned()
    } else {
        let number: String = decimal_text(suffix);
        let start: String = concat_text("image (", number.as_str());
        concat_text(start.as_str(), ").png")
    }
}

/// What a shell reads out of a word: quotes and backslashes are taken away, and what they protect
/// stays. `in_quotes` tells whether the text begins inside single quotes.
pub open spec fn read_by_shell(text: Seq<char>, in_quotes: bool) -> Seq<char>
    decreases text.len(),
{
    if text.len() == 0 {
        text
    } else if text[0] == '\'' {
        read_by_shell(text.skip(1), !in_quotes)
    } else if text[0] == '\\' && !in_quotes && text.len() > 1 {
        seq![text[1]] + read_by_shell(text.skip(2), in_quotes)
    } else {
        seq![text[0]] + read_by_shell(text.skip(1), in_quotes)
    }
}

proof fn lemma_reads_backslashed(text: Seq<char>, rest: Seq<char>)
    ensures
        read_by_shell(backslashed(text) + rest, false) == text + read_by_shell(rest, false),
    decreases text.len(),
{
    if text.len() == 0 {
        assert(backslashed(text) + rest == rest);
    } else {
        let ch = text.last();
        let tail = escaped_char(ch) + rest;
        lemma_reads_backslashed(text.drop_last(), tail);
        assert(backslashed(text) + rest == backslashed(text.drop_last()) + tail);
        if is_shell_special(ch) {
            assert(tail.skip(2) == rest);
        } else {
            assert(tail.skip(1) == rest);
        }
        assert(read_by_shell(tail, false) == seq![ch] + read_by_shell(rest, false));
        assert(text.drop_last() + (seq![ch] + read_by_shell(rest, false)) == text + read_by_shell(
            rest,
            false,
        ));
    }
}

proof fn lemma_reads_quoted(text: Seq<char>, rest: Seq<char>)
    ensures
        read_by_shell(inside_quotes(text) + rest, true) == text + read_by_shell(rest, true),
    decreases text.len(),
{
    if text.len() == 0 {
        assert(inside_quotes(text) + rest == rest);
    } else {
        let ch = text.last();
        let tail = quoted_char(ch) + rest;
        lemma_reads_quoted(text.drop_last(), tail);
        assert(inside_quotes(text) + rest == inside_quotes(text.drop_last()) + tail);
        if ch == '\'' {
            let unquoted = tail.skip(1);
            assert(unquoted[0] == '\\' && unquoted[1] == '\'' && unquoted[2] == '\'');
            let reopened = unquoted.skip(2);
            assert(reopened[0] == '\'');
            assert(reopened.skip(1) == rest);
            assert(read_by_shell(reopened, false) == read_by_shell(rest, true));
            assert(read_by_shell(unquoted, false) == seq![ch] + read_by_shell(rest, true));
        } else {
            assert(tail.skip(1) == rest);
        }
        assert(read_by_shell(tail, true) == seq![ch] + read_by_shell(rest, true));
        assert(text.drop_last() + (seq![ch] + read_by_shell(rest, true)) == text + read_by_shell(
            rest,
            true,
        ));
    }
}

/// A copied path is one word of a shell that reads back as the path.
pub proof fn law_shell_word_reads_back(path: Seq<char>)
    ensures
        read_by_shell(shell_word(path), false) == path,
{
    if path.contains('\n') {
        let word = shell_word(path);
        let tail = seq!['\''];
        assert(word.skip(1) == inside_quotes(path) + tail);
        lemma_reads_quoted(path, tail);
        assert(tail.skip(1) == Seq::<char>::empty());
        assert(read_by_shell(tail, true) == read_by_shell(tail.skip(1), false));
        assert(path + Seq::<char>::empty() == path);
    } else {
        lemma_reads_backslashed(path, Seq::empty());
        assert(backslashed(path) + Seq::<char>::empty() == backslashed(path));
        assert(path + Seq::<char>::empty() == path);
    }
}

/// The number that decimal digits stand for.
pub open spec fn decimal_value(digits: Seq<char>) -> int
    decreases digits.len(),
{
    if digits.len() == 0 {
        0
    } else {
        decimal_value(digits.drop_last()) * 10 + (digits.last() as int - 48)
    }
}

proof fn lemma_decimal_value(value: nat)
    ensures
        decimal_value(decimal(value)) == value,
    decreases value,
{
    reveal_with_fuel(decimal_value, 2);
    if value < 10 {
        assert(decimal(value).drop_last() == Seq::<char>::empty());
    } else {
        lemma_decimal_value(value / 10);
        let front = decimal(value / 10);
        assert(decimal(value).drop_last() == front);
        assert(decimal(value).last() == crate::text::digit(value % 10));
    }
}

/// Every attempt to write a pasted picture uses a name of its own.
pub proof fn law_pasted_names_differ(left: u64, right: u64)
    requires
        left != right,
    ensures
        pasted_name(left) != pasted_name(right),
{
    reveal_strlit("image.png");
    reveal_strlit("image (");
    reveal_strlit(").png");
    if left == 0 || right == 0 {
        let other = if left == 0 {
            right
        } else {
            left
        };
        assert(pasted_name(other)[5] == ' ');
        assert("image.png"@[5] == '.');
    } else {
        let left_name = pasted_name(left);
        let right_name = pasted_name(right);
        if left_name == right_name {
            let left_digits = decimal(left as nat);
            let right_digits = decimal(right as nat);
            assert(left_digits == left_name.subrange(7, left_name.len() - 5));
            assert(right_digits == right_name.subrange(7, right_name.len() - 5));
            lemma_decimal_value(left as nat);
            lemma_decimal_value(right as nat);
            assert(false);
        }
    }
}

/// A drop that would change nothing is never done, and neither is one of which nothing is on offer.
pub proof fn law_pointless_drops_are_forbidden(
    actions: DragActions,
    override_with: DropOverride,
    volume: VolumeRelation,
    is_noop: bool,
    strategy: CrossVolumeDropStrategy,
)
    ensures
        preferred_commit(actions, override_with, volume, is_noop, strategy) is Forbidden <==> is_noop
            || (!actions.copies && !actions.moves),
{
}

/// A drop does only what is on offer, and asks only without a held modifier, across volumes, and
/// with a choice to offer.
pub proof fn law_drops_do_what_is_offered(
    actions: DragActions,
    override_with: DropOverride,
    volume: VolumeRelation,
    strategy: CrossVolumeDropStrategy,
)
    ensures
        committed_kind(drop_rule(actions, override_with, volume, strategy)) is Move ==> actions.moves,
        committed_kind(drop_rule(actions, override_with, volume, strategy)) is Copy ==> actions.copies,
        drop_rule(actions, override_with, volume, strategy) is Ask <==> override_with is Unforced
            && volume !is Same && strategy is Ask && actions.copies && actions.moves,
{
}

/// Files on the volume of the destination are moved wherever moves are on offer, and whatever is set
/// for other volumes. Where only copies are on offer, they are copied.
pub proof fn law_drops_on_the_same_volume_move(
    actions: DragActions,
    strategy: CrossVolumeDropStrategy,
)
    ensures
        actions.moves ==> drop_rule(
            actions,
            DropOverride::Unforced,
            VolumeRelation::Same,
            strategy,
        ) is Move,
        !actions.moves && actions.copies ==> drop_rule(
            actions,
            DropOverride::Unforced,
            VolumeRelation::Same,
            strategy,
        ) is Copy,
{
}

/// A held modifier has its way wherever what it stands for is on offer, on every volume and whatever
/// is set; where it is not, the drop does what is on offer.
pub proof fn law_modifiers_have_their_way(
    actions: DragActions,
    modifiers: Modifiers,
    volume: VolumeRelation,
    strategy: CrossVolumeDropStrategy,
)
    ensures
        modifiers.control && actions.copies ==> drop_rule(
            actions,
            override_of(modifiers),
            volume,
            strategy,
        ) is Copy,
        modifiers.shift && !modifiers.control && actions.moves ==> drop_rule(
            actions,
            override_of(modifiers),
            volume,
            strategy,
        ) is Move,
        (modifiers.control || modifiers.shift) && !actions.copies && actions.moves ==> drop_rule(
            actions,
            override_of(modifiers),
            volume,
            strategy,
        ) is Move,
        (modifiers.control || modifiers.shift) && actions.copies && !actions.moves ==> drop_rule(
            actions,
            override_of(modifiers),
            volume,
            strategy,
        ) is Copy,
        !modifiers.control && !modifiers.shift <==> override_of(modifiers) is Unforced,
        modifiers.control <==> override_of(modifiers) is ForceCopy,
{
}

/// Across volumes the setting decides between what is on offer: to move, to copy, or to ask, where a
/// copy is proposed. A volume that is not known counts as another.
pub proof fn law_setting_decides_across_volumes(
    actions: DragActions,
    volume: VolumeRelation,
    strategy: CrossVolumeDropStrategy,
)
    requires
        volume !is Same,
    ensures
        actions.copies && actions.moves ==> drop_rule(
            actions,
            DropOverride::Unforced,
            volume,
            strategy,
        ) == match strategy {
            CrossVolumeDropStrategy::Move => DropCommit::Move,
            CrossVolumeDropStrategy::Copy => DropCommit::Copy,
            CrossVolumeDropStrategy::Ask => DropCommit::Ask { default: TransferKind::Copy },
        },
        actions.copies && !actions.moves ==> drop_rule(
            actions,
            DropOverride::Unforced,
            volume,
            strategy,
        ) is Copy,
        !actions.copies && actions.moves ==> drop_rule(
            actions,
            DropOverride::Unforced,
            volume,
            strategy,
        ) is Move,
{
}

/// A drop that would change something is done by the rule alone. What is done with the files is what
/// the drop was decided to do, and where it asks, what it proposes.
pub proof fn law_drops_are_done_as_decided(
    actions: DragActions,
    override_with: DropOverride,
    volume: VolumeRelation,
    strategy: CrossVolumeDropStrategy,
    commit: DropCommit,
)
    ensures
        preferred_commit(actions, override_with, volume, false, strategy) == drop_rule(
            actions,
            override_with,
            volume,
            strategy,
        ),
        preferred_commit(actions, override_with, volume, true, strategy) is Forbidden,
        commit is Move ==> committed_kind(commit) is Move,
        commit is Copy ==> committed_kind(commit) is Copy,
        commit is Forbidden ==> committed_kind(commit) is Forbidden,
        commit matches DropCommit::Ask { default } ==> committed_kind(commit) == default,
        actions.copies && actions.moves ==> committed_kind(
            drop_rule(actions, override_with, volume, strategy),
        ) is Move == (override_with is ForceMove || (override_with is Unforced && (volume is Same
            || strategy is Move))),
{
}

/// The files of a list are those that have a location, in their order.
pub proof fn law_files_without_a_location_are_left_out(
    left: Seq<Option<Location>>,
    right: Seq<Option<Location>>,
    file: Location,
)
    ensures
        present(Seq::empty()) == Seq::<Location>::empty(),
        present(seq![Some(file)]) == seq![file],
        present(seq![None]) == Seq::<Location>::empty(),
        present(left + right) == present(left) + present(right),
    decreases right.len(),
{
    reveal_with_fuel(present, 2);
    assert(present(seq![Some(file)]) =~= seq![file]);
    if right.len() == 0 {
        assert(left + right =~= left);
        assert(present(left) + present(right) =~= present(left));
    } else {
        law_files_without_a_location_are_left_out(left, right.drop_last(), file);
        assert((left + right).drop_last() =~= left + right.drop_last());
        assert(present(left + right) =~= present(left) + present(right));
    }
}

/// What was found out of a drop is known again for the same files and the same destination, and for
/// no others; of no files, nothing has to be found out.
pub proof fn law_findings_serve_the_same_drop_only(
    state: FileDropState,
    destination: Place,
    sources: Seq<Place>,
)
    ensures
        sources.len() == 0 ==> state.known(destination, sources) == Some(
            DropFinding { relation: VolumeRelation::Unknown, is_noop: false },
        ),
        sources.len() > 0 && state.classification is None ==> state.known(destination, sources)
            is None,
        sources.len() > 0 && state.classification is Some ==> state.known(destination, sources)
            == if state.classification->0.destination@.place() == destination && places(
            state.classification->0.sources@,
        ) == sources {
            Some(
                DropFinding {
                    relation: state.classification->0.relation,
                    is_noop: state.classification->0.is_noop,
                },
            )
        } else {
            None
        },
        state.is_idle() ==> state.last_override is Unforced && state.sources is None
            && state.classification is None,
{
}

/// Every URI of a list stands on a line of its own, and every line is ended.
pub proof fn law_uris_stand_on_lines(uris: Seq<Seq<char>>, uri: Seq<char>)
    ensures
        uri_list(seq![uri]) == uri + seq!['\r', '\n'],
        uris.len() > 0 ==> uri_list(uris.push(uri)) == uri_list(uris) + uri + seq!['\r', '\n'],
{
    reveal_strlit("\r\n");
    assert("\r\n"@ =~= seq!['\r', '\n']);
    crate::text::law_joining_puts_separators_between(uris, seq![uri], uri, "\r\n"@);
    assert(uris.push(uri) =~= uris + seq![uri]);
}

/// A character is escaped exactly where a shell would read something else into it: white space,
/// control codes, quotes, and the signs with a meaning of their own.
pub proof fn law_shell_signs_are_escaped(ch: char)
    ensures
        is_shell_special(ch) <==> is_white_space(ch) || is_control_code(ch)
            || "\"'\\$`!#&*;<>?[]{}()|~"@.contains(ch),
        'a' <= ch <= 'z' || 'A' <= ch <= 'Z' || '0' <= ch <= '9' || ch == '/' || ch == '.' || ch
            == '-' || ch == '_' ==> !is_shell_special(ch),
{
    let signs = "\"'\\$`!#&*;<>?[]{}()|~"@;
    reveal_strlit("\"'\\$`!#&*;<>?[]{}()|~");
    assert(signs.len() == 21);
    assert(signs[0] == '"' && signs[1] == '\'' && signs[2] == '\\' && signs[3] == '$');
    assert(signs[4] == '`' && signs[5] == '!' && signs[6] == '#' && signs[7] == '&');
    assert(signs[8] == '*' && signs[9] == ';' && signs[10] == '<' && signs[11] == '>');
    assert(signs[12] == '?' && signs[13] == '[' && signs[14] == ']' && signs[15] == '{');
    assert(signs[16] == '}' && signs[17] == '(' && signs[18] == ')' && signs[19] == '|');
    assert(signs[20] == '~');
}

proof fn lemma_backslashed_parts(left: Seq<char>, right: Seq<char>)
    ensures
        backslashed(left + right) == backslashed(left) + backslashed(right),
    decreases right.len(),
{
    if right.len() == 0 {
        assert(left + right =~= left);
        assert(backslashed(left) + backslashed(right) =~= backslashed(left));
    } else {
        lemma_backslashed_parts(left, right.drop_last());
        assert((left + right).drop_last() =~= left + right.drop_last());
        assert(backslashed(left + right) =~= backslashed(left) + backslashed(right));
    }
}

/// A path on one line is written character by character: each that a shell reads as it is stands for
/// itself, and any other stands behind a backslash. A path over several lines stands in quotes.
pub proof fn law_shell_words_are_written_by_character(left: Seq<char>, right: Seq<char>, ch: char)
    ensures
        !left.contains('\n') && !right.contains('\n') ==> shell_word(left + right) == shell_word(
            left,
        ) + shell_word(right),
        ch != '\n' ==> shell_word(seq![ch]) == if is_shell_special(ch) {
            seq!['\\', ch]
        } else {
            seq![ch]
        },
        left.contains('\n') ==> shell_word(left).len() >= left.len() + 2 && shell_word(left)[0]
            == '\'' && shell_word(left).last() == '\'',
{
    if !left.contains('\n') && !right.contains('\n') {
        assert forall|k: int| 0 <= k < (left + right).len() implies (left + right)[k] != '\n' by {
            if k < left.len() {
                assert(left.contains(left[k]));
            } else {
                assert(right.contains(right[k - left.len()]));
            }
        }
        assert(!(left + right).contains('\n'));
        lemma_backslashed_parts(left, right);
    }
    if ch != '\n' {
        let one = seq![ch];
        assert(!one.contains('\n'));
        assert(one.drop_last() =~= Seq::<char>::empty());
        reveal_with_fuel(backslashed, 2);
        assert(backslashed(one) =~= escaped_char(ch));
    }
    lemma_inside_quotes_length(left);
}

proof fn lemma_inside_quotes_length(text: Seq<char>)
    ensures
        inside_quotes(text).len() >= text.len(),
    decreases text.len(),
{
    if text.len() > 0 {
        lemma_inside_quotes_length(text.drop_last());
    }
}

/// What is copied for a native path is a word of a shell that stands for it, with a separator at the
/// end of a directory; for any other location, what is shown of it.
pub proof fn law_copied_paths_stand_for_their_location(
    path: Seq<char>,
    uri: Seq<char>,
    shown: Seq<char>,
    is_directory: bool,
)
    ensures
        copied_path(LocationView::Uri(uri), shown, is_directory) == shown,
        copied_path(LocationView::Native(path), shown, false) == shell_word(path),
        read_by_shell(copied_path(LocationView::Native(path), shown, false), false) == path,
        shell_word(path).len() > 0 && shell_word(path).last() == '/' ==> copied_path(
            LocationView::Native(path),
            shown,
            true,
        ) == shell_word(path),
        !(shell_word(path).len() > 0 && shell_word(path).last() == '/') ==> copied_path(
            LocationView::Native(path),
            shown,
            true,
        ) == shell_word(path) + seq!['/'],
{
    law_shell_word_reads_back(path);
    crate::paths::law_folders_end_in_a_separator(shell_word(path));
}

/// Each line of what is copied is the path of the entry at its place.
pub proof fn law_copied_lines_follow_the_entries(
    entries: Seq<FileEntry>,
    display_paths: Seq<String>,
    i: int,
)
    requires
        display_paths.len() == entries.len(),
        0 <= i < entries.len(),
    ensures
        copied_paths(entries, display_paths).len() == entries.len(),
        copied_paths(entries, display_paths)[i] == copied_path(
            entries[i].location@,
            display_paths[i]@,
            entries[i].kind is Directory || entries[i].kind is DirectorySymbolicLink,
        ),
{
}

/// A pasted picture is numbered from the second attempt on, between its name and its extension.
pub proof fn law_pasted_names_are_numbered(suffix: u64)
    ensures
        pasted_name(0) == "image"@ + ".png"@,
        suffix > 0 ==> pasted_name(suffix) == "image"@ + " ("@ + decimal(suffix as nat) + ")"@
            + ".png"@,
{
    reveal_strlit("image.png");
    reveal_strlit("image");
    reveal_strlit(".png");
    reveal_strlit("image (");
    reveal_strlit(" (");
    reveal_strlit(")");
    reveal_strlit(").png");
    assert("image.png"@ =~= "image"@ + ".png"@);
    if suffix > 0 {
        assert(pasted_name(suffix) =~= "image"@ + " ("@ + decimal(suffix as nat) + ")"@ + ".png"@);
    }
}

} // verus!
