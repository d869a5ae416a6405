//! Compressing entries into an archive, and extracting one.

use crate::cut::{entry_locations, locations_of};
use crate::entry::{entry_kind_summary, item_count_label, items_label, FileEntry};
use crate::location::{Location, LocationView};
use crate::text::{
    ascii_lowercase_text, ascii_lowercased, characters, concat_text, same_text, text_between,
};
use crate::transfer::TransferConflict;
use vstd::prelude::*;

verus! {

/// A format that archives are written in.
#[derive(Clone, Copy, Debug, PartialEq, Eq, Structural)]
pub enum ArchiveFormat {
    Zip,
    SevenZ,
    TarGz,
    Tar,
}

/// The extension of a format.
pub open spec fn format_extension(format: ArchiveFormat) -> Seq<char> {
    match format {
        ArchiveFormat::Zip => "zip"@,
        ArchiveFormat::SevenZ => "7z"@,
        ArchiveFormat::TarGz => "tar.gz"@,
        ArchiveFormat::Tar => "tar"@,
    }
}

/// What the names of a format's files end in.
pub open spec fn format_suffix(format: ArchiveFormat) -> Seq<char> {
    "."@ + format_extension(format)
}

impl ArchiveFormat {
    /// The extension of the format.
    pub fn extension(self) -> (result: &'static str)
        ensures
            result@ == format_extension(self),
    {
        match self {
            ArchiveFormat::Zip => "zip",
            ArchiveFormat::SevenZ => "7z",
            ArchiveFormat::TarGz => "tar.gz",
            ArchiveFormat::Tar => "tar",
        }
    }

    /// The name of the file for an archive of the given name.
    pub fn archive_filename(self, name: &str) -> (result: String)
        ensures
            result@ == name@ + format_suffix(self),
    {
        let suffix: String = concat_text(".", self.extension());
        concat_text(name, suffix.as_str())
    }
}

/// Whether a name ends in a suffix, but for the case of ASCII letters.
pub open spec fn ends_in(name: Seq<char>, suffix: Seq<char>) -> bool {
    &&& suffix.len() <= name.len()
    &&& ascii_lowercased(name.skip(name.len() - suffix.len())) == ascii_lowercased(suffix)
}

/// The name of an archive without the extension of its format, which was perhaps typed along.
pub open spec fn without_suffix(name: Seq<char>, suffix: Seq<char>) -> Seq<char> {
    if ends_in(name, suffix) {
        name.take(name.len() - suffix.len())
    } else {
        name
    }
}

/// The name of an archive without the extension of its format, in whatever case it was typed along.
/// Other extensions stay.
pub fn normalized_archive_name(name: &str, format: ArchiveFormat) -> (result: String)
    ensures
        result@ == without_suffix(name@, format_suffix(format)),
{
    let suffix: String = concat_text(".", format.extension());
    let suffix_length: usize = characters(suffix.as_str()).len();
    let chars: Vec<char> = characters(name);
    if chars.len() < suffix_length {
        return name.to_owned();
    }
    let at: usize = chars.len() - suffix_length;
    let tail: String = text_between(&chars, at, chars.len());
    assert(tail@ == name@.skip(at as int));
    let folded_tail: String = ascii_lowercase_text(tail.as_str());
    let folded_suffix: String = ascii_lowercase_text(suffix.as_str());
    if same_text(folded_tail.as_str(), folded_suffix.as_str()) {
        let stem: String = text_between(&chars, 0, at);
        assert(stem@ == name@.take(at as int));
        stem
    } else {
        name.to_owned()
    }
}

/// What is asked of the archive service.
#[derive(Debug)]
pub enum ArchiveAction {
    Compress {
        sources: Vec<Location>,
        archive_name: String,
        format: ArchiveFormat,
        conflict: TransferConflict,
    },
    Extract { archive: Location, password: Option<String> },
}

/// The compression of the given entries.
pub open spec fn compresses(
    action: ArchiveAction,
    entries: Seq<FileEntry>,
    archive_name: Seq<char>,
    format: ArchiveFormat,
    conflict: TransferConflict,
) -> bool {
    action matches ArchiveAction::Compress {
        sources,
        archive_name: name,
        format: chosen,
        conflict: decided,
    } && sources@ == locations_of(entries) && name@ == archive_name && chosen == format && decided
        == conflict
}

/// The question whether an archive is replaced.
#[derive(Debug)]
pub struct ReplaceArchive {
    pub final_name: String,
    pub explanation: String,
    pub destination: Location,
    pub action: ArchiveAction,
}

/// What is done to the question whether an archive is replaced.
#[derive(Clone, Copy, Debug, PartialEq, Eq, Structural)]
pub enum ReplaceInput {
    Close,
    Cancel,
    Escape,
    /// A press beside the question.
    Backdrop,
    Enter,
    Replace,
}

/// What the question whether an archive is replaced leads to.
#[derive(Debug)]
pub enum ReplaceStep {
    /// The archive that is there stays. The listing has the focus again where that is said.
    Dismiss { focus_listing: bool },
    /// The archive that is there is replaced.
    Compress { destination: Location, action: ArchiveAction },
}

impl ReplaceArchive {
    /// Takes what is done to the question. Only the button and the enter key replace the archive.
    pub fn answer(self, input: ReplaceInput) -> (result: ReplaceStep)
        ensures
            result == match input {
                ReplaceInput::Close | ReplaceInput::Cancel => ReplaceStep::Dismiss {
                    focus_listing: true,
                },
                ReplaceInput::Escape | ReplaceInput::Backdrop => ReplaceStep::Dismiss {
                    focus_listing: false,
                },
                ReplaceInput::Enter | ReplaceInput::Replace => ReplaceStep::Compress {
                    destination: self.destination,
                    action: self.action,
                },
            },
    {
        match input {
            ReplaceInput::Close | ReplaceInput::Cancel => ReplaceStep::Dismiss {
                focus_listing: true,
            },
            ReplaceInput::Escape | ReplaceInput::Backdrop => ReplaceStep::Dismiss {
                focus_listing: false,
            },
            ReplaceInput::Enter | ReplaceInput::Replace => ReplaceStep::Compress {
                destination: self.destination,
                action: self.action,
            },
        }
    }
}

/// What starting a compression leads to.
#[derive(Debug)]
pub enum CompressionStart {
    /// Compress into the folder at once.
    Compress { destination: Location, action: ArchiveAction },
    /// Ask before replacing the archive that is there.
    AskToReplace(ReplaceArchive),
}

/// The question about an archive that is there.
pub open spec fn replace_archive_text(final_name: Seq<char>, place: Seq<char>) -> Seq<char> {
    "An archive named “"@ + final_name + "” already exists in "@ + place
        + ". Replacing it will overwrite its contents."@
}

fn compression(
    entries: &Vec<FileEntry>,
    archive_name: String,
    format: ArchiveFormat,
    conflict: TransferConflict,
) -> (result: ArchiveAction)
    ensures
        compresses(result, entries@, archive_name@, format, conflict),
{
    ArchiveAction::Compress { sources: entry_locations(entries), archive_name, format, conflict }
}

/// Starts a compression. Where the name is taken it asks first, and replaces only then.
pub fn start_compression(
    entries: &Vec<FileEntry>,
    destination: Location,
    archive_name: String,
    format: ArchiveFormat,
    has_collision: bool,
    place: &str,
) -> (result: CompressionStart)
    ensures
        match result {
            CompressionStart::Compress { destination: folder, action } => {
                &&& !has_collision
                &&& folder == destination
                &&& compresses(
                    action,
                    entries@,
                    archive_name@,
                    format,
                    TransferConflict::FailIfExists,
                )
            },
            CompressionStart::AskToReplace(question) => {
                &&& has_collision
                &&& question.destination == destination
                &&& question.final_name@ == archive_name@ + format_suffix(format)
                &&& question.explanation@ == replace_archive_text(question.final_name@, place@)
                &&& compresses(
                    question.action,
                    entries@,
                    archive_name@,
                    format,
                    TransferConflict::ReplaceExisting,
                )
            },
        },
{
    if !has_collision {
        return CompressionStart::Compress {
            destination,
            action: compression(entries, archive_name, format, TransferConflict::FailIfExists),
        };
    }
    let final_name: String = format.archive_filename(archive_name.as_str());
    let mut explanation: String = concat_text("An archive named “", final_name.as_str());
    explanation.append("” already exists in ");
    explanation.append(place);
    explanation.append(". Replacing it will overwrite its contents.");
    CompressionStart::AskToReplace(
        ReplaceArchive {
            final_name,
            explanation,
            destination,
            action: compression(entries, archive_name, format, TransferConflict::ReplaceExisting),
        },
    )
}

/// Whether all the entries lie on the local file system.
pub open spec fn all_native(entries: Seq<FileEntry>) -> bool {
    forall|i: int| 0 <= i < entries.len() ==> (#[trigger] entries[i]).location@ is Native
}

/// The dialog that asks how entries are compressed.
#[derive(Debug)]
pub struct CompressDialog {
    pub destination: Location,
    pub default_name: String,
    pub title: String,
    pub subtitle: String,
    pub format: ArchiveFormat,
    pub name_error: Option<&'static str>,
}

impl CompressDialog {
    /// The dialog for the given entries: none where there is nothing to compress or where an entry
    /// is not on the local file system. The archive goes to the folder of the first entry, else to
    /// that in view, else home.
    pub fn open(
        entries: &Vec<FileEntry>,
        first_parent: Option<Location>,
        active_location: Option<Location>,
        home: &str,
    ) -> (result: Option<Self>)
        ensures
            result is Some <==> entries@.len() > 0 && all_native(entries@),
            result matches Some(dialog) ==> {
                &&& dialog.destination@ == match first_parent {
                    Some(parent) => parent@,
                    None => match active_location {
                        Some(location) => location@,
                        None => LocationView::Native(home@),
                    },
                }
                &&& dialog.default_name@ == if entries@.len() == 1 {
                    entries@[0].display_name@
                } else {
                    "archive"@
                }
                &&& dialog.title@ == "Compress "@ + items_label(entries@.len())
                &&& dialog.subtitle@ == crate::entry::kind_summary(
                    (entries@.len() - crate::entry::directory_count(entries@)) as nat,
                    crate::entry::directory_count(entries@),
                )
                &&& dialog.format is Zip
                &&& dialog.name_error is None
            },
    {
        if entries.len() == 0 {
            return None;
        }
        let mut i: usize = 0;
        while i < entries.len()
            invariant
                i <= entries@.len(),
                forall|k: int| 0 <= k < i ==> (#[trigger] entries@[k]).location@ is Native,
            decreases entries@.len() - i,
        {
            if entries[i].location.native_path().is_none() {
                return None;
            }
            i = i + 1;
        }
        let destination: Location = match first_parent {
            Some(parent) => parent,
            None => match active_location {
                Some(location) => location,
                None => Location::local(home),
            },
        };
        let default_name: String = if entries.len() == 1 {
            entries[0].display_name.clone()
        } else {
            "archive".to_owned()
        };
        let items: String = item_count_label(entries.len());
        Some(
            CompressDialog {
                destination,
                default_name,
                title: concat_text("Compress ", items.as_str()),
                subtitle: entry_kind_summary(entries),
                format: ArchiveFormat::Zip,
                name_error: None,
            },
        )
    }

    /// Takes the choice of a format.
    pub fn set_format(&mut self, format: ArchiveFormat)
        ensures
            *final(self) == (CompressDialog { format, ..*old(self) }),
    {
        self.format = format;
    }

    /// The name that the archive would get from what is typed.
    pub fn archive_name(&self, typed: &str) -> (result: String)
        ensures
            result@ == without_suffix(typed@, format_suffix(self.format)),
    {
        normalized_archive_name(typed, self.format)
    }

    /// Takes a press on the button that compresses. `verdict` is what is wrong, as a file name, with
    /// the name that the archive would get from what is typed. The dialog stays open while
    /// something is; answers that name otherwise.
    pub fn confirm(&mut self, typed: &str, verdict: Option<&'static str>) -> (result: Option<String>)
        ensures
            *final(self) == (CompressDialog {
                name_error: if verdict is Some {
                    verdict
                } else {
                    old(self).name_error
                },
                ..*old(self)
            }),
            verdict is Some ==> result is None,
            verdict is None ==> (result matches Some(name) && name@ == without_suffix(
                typed@,
                format_suffix(old(self).format),
            )),
    {
        match verdict {
            Some(message) => {
                self.name_error = Some(message);
                None
            },
            None => Some(self.archive_name(typed)),
        }
    }

    /// Whether a press beside the dialog must not close it: once the name was changed.
    pub fn blocks_dismissal(&self, typed: &str) -> (result: bool)
        ensures
            result == (typed@ != self.default_name@),
    {
        !same_text(typed, self.default_name.as_str())
    }
}

/// What a request to extract an archive leads to.
#[derive(Debug)]
pub enum ExtractStart {
    /// Nothing: the archive is not on the local file system.
    Ignored,
    /// An error: there is no folder to extract to.
    NoParent,
    /// Extract into the folder, without a password at first.
    Extract { destination: Location, action: ArchiveAction },
}

/// Extracts an archive into the folder it is in.
pub fn extract_entry(entry: &FileEntry, parent: Option<Location>) -> (result: ExtractStart)
    ensures
        result == if entry.location@ is Uri {
            ExtractStart::Ignored
        } else {
            match parent {
                None => ExtractStart::NoParent,
                Some(destination) => ExtractStart::Extract {
                    destination,
                    action: ArchiveAction::Extract { archive: entry.location, password: None },
                },
            }
        },
{
    if entry.location.native_path().is_none() {
        return ExtractStart::Ignored;
    }
    match parent {
        None => ExtractStart::NoParent,
        Some(destination) => ExtractStart::Extract {
            destination,
            action: ArchiveAction::Extract { archive: entry.location.duplicate(), password: None },
        },
    }
}

/// Where the dialog starts that asks for a folder to extract to: at that of the archive, or home.
/// There is no dialog for an archive that is not on the local file system.
pub fn extract_base(entry: &FileEntry, parent: Option<&Location>, home: &str) -> (result: Option<
    String,
>)
    ensures
        result is Some <==> entry.location@ is Native,
        result matches Some(base) ==> base@ == match parent {
            Some(parent) => match parent@ {
                LocationView::Native(path) => path,
                LocationView::Uri(_) => home@,
            },
            None => home@,
        },
{
    if entry.location.native_path().is_none() {
        return None;
    }
    match parent {
        Some(parent) => match parent.native_path() {
            Some(path) => Some(path.to_owned()),
            None => Some(home.to_owned()),
        },
        None => Some(home.to_owned()),
    }
}

/// What confirming a folder to extract to leads to.
#[derive(Debug)]
pub enum ExtractToStep {
    /// The dialog stays open with a message.
    Error(String),
    /// Extract there, and go there once it is done.
    Extract { destination: Location, action: ArchiveAction },
}

/// What confirming a folder to extract to leads to. A folder that is not there was created first,
/// unless that failed.
pub fn confirm_extract_to(
    archive: &Location,
    path: &str,
    exists: bool,
    is_directory: bool,
    creation_error: Option<&str>,
) -> (result: ExtractToStep)
    ensures
        exists && !is_directory ==> (result matches ExtractToStep::Error(text) && text@
            == "The destination exists, but it is not a folder."@),
        !exists && creation_error is Some ==> (result matches ExtractToStep::Error(text) && text@
            == "Could not create folder: "@ + creation_error->0@),
        (exists && is_directory) || (!exists && creation_error is None) ==> (
        result matches ExtractToStep::Extract { destination, action } && destination@
            == LocationView::Native(path@) && action == (ArchiveAction::Extract {
            archive: *archive,
            password: None,
        })),
{
    if exists && !is_directory {
        return ExtractToStep::Error("The destination exists, but it is not a folder.".to_owned());
    }
    if !exists {
        match creation_error {
            Some(reason) => {
                return ExtractToStep::Error(concat_text("Could not create folder: ", reason));
            },
            None => {},
        }
    }
    ExtractToStep::Extract {
        destination: Location::local(path),
        action: ArchiveAction::Extract { archive: archive.duplicate(), password: None },
    }
}

/// The extraction that is tried again with what was typed as the password. Nothing typed is no
/// password.
pub fn extract_with_password(archive: &Location, typed: String) -> (result: ArchiveAction)
    ensures
        result == (ArchiveAction::Extract {
            archive: *archive,
            password: if typed@.len() == 0 {
                None
            } else {
                Some(typed)
            },
        }),
{
    let password: Option<String> = if typed.as_str().is_empty() {
        None
    } else {
        Some(typed)
    };
    ArchiveAction::Extract { archive: archive.duplicate(), password }
}

/// The file of an archive ends in the extension of its format exactly as often as needed: typing
/// the extension along does not double it.
pub proof fn law_extension_is_not_doubled(name: Seq<char>, format: ArchiveFormat)
    ensures
        without_suffix(name + format_suffix(format), format_suffix(format)) == name,
        !ends_in(name, format_suffix(format)) ==> without_suffix(name, format_suffix(format))
            == name,
{
    let suffix = format_suffix(format);
    let typed = name + suffix;
    assert(typed.skip(typed.len() - suffix.len()) == suffix);
    assert(typed.take(typed.len() - suffix.len()) == name);
}

/// The archive name is a beginning of what was typed: no character is split or changed.
pub proof fn law_archive_name_is_a_prefix(name: Seq<char>, format: ArchiveFormat)
    ensures
        without_suffix(name, format_suffix(format)).is_prefix_of(name),
{
    let suffix = format_suffix(format);
    if ends_in(name, suffix) {
        assert(name.take(name.len() - suffix.len()).is_prefix_of(name));
    }
}

/// Every format ends its names in a dot and its own extension, which is told from the end of a name
/// in capitals or not.
pub proof fn law_extension_counts_in_any_case(
    name: Seq<char>,
    written: Seq<char>,
    format: ArchiveFormat,
)
    ensures
        format_suffix(format)[0] == '.',
        format_suffix(format).skip(1) == format_extension(format),
        ascii_lowercased(written) == format_suffix(format) ==> without_suffix(
            name + written,
            format_suffix(format),
        ) == name && ends_in(name + written, format_suffix(format)),
        ascii_lowercased(written) != format_suffix(format) && written.len() == format_suffix(
            format,
        ).len() ==> without_suffix(name + written, format_suffix(format)) == name + written,
        format_extension(ArchiveFormat::Zip) == "zip"@,
        format_extension(ArchiveFormat::SevenZ) == "7z"@,
        format_extension(ArchiveFormat::Tar) == "tar"@,
        format_extension(ArchiveFormat::TarGz) == format_extension(ArchiveFormat::Tar) + ".gz"@,
{
    reveal_strlit(".");
    reveal_strlit("zip");
    reveal_strlit("7z");
    reveal_strlit("tar");
    reveal_strlit("tar.gz");
    reveal_strlit(".gz");
    assert("tar.gz"@ =~= "tar"@ + ".gz"@);
    let suffix = format_suffix(format);
    assert(suffix.skip(1) =~= format_extension(format));
    assert(ascii_lowercased(suffix) =~= suffix);
    let whole = name + written;
    if written.len() == suffix.len() {
        assert(whole.skip(whole.len() - suffix.len()) =~= written);
        assert(whole.take(whole.len() - suffix.len()) =~= name);
    } else if ascii_lowercased(written) == suffix {
        assert(ascii_lowercased(written).len() == written.len());
    }
}

/// A name that does not end like the format keeps all of its characters, and one that does loses just
/// as many as the ending has.
pub proof fn law_only_the_ending_is_left_out(name: Seq<char>, suffix: Seq<char>)
    ensures
        without_suffix(name, suffix).len() == name.len() || without_suffix(name, suffix).len()
            + suffix.len() == name.len(),
        ends_in(name, suffix) ==> without_suffix(name, suffix) == name.take(
            name.len() - suffix.len(),
        ),
        ends_in(name, suffix) <==> suffix.len() <= name.len() && ascii_lowercased(
            name.skip(name.len() - suffix.len()),
        ) == ascii_lowercased(suffix),
        suffix.len() > name.len() ==> without_suffix(name, suffix) == name,
{
}

/// An archive is made of the entries asked for, under the name and in the format chosen, and replaces
/// one that is there only as decided. Nothing that is extracted is taken for it.
pub proof fn law_archives_hold_the_entries(
    action: ArchiveAction,
    entries: Seq<FileEntry>,
    archive_name: Seq<char>,
    format: ArchiveFormat,
    conflict: TransferConflict,
    i: int,
)
    requires
        compresses(action, entries, archive_name, format, conflict),
    ensures
        action is Compress,
        action->sources@.len() == entries.len(),
        0 <= i < entries.len() ==> action->sources@[i] == entries[i].location,
        action->archive_name@ == archive_name,
        action->format == format,
        action->conflict == conflict,
{
}

/// The question before an archive is replaced tells its name in quotes, where it is, and what
/// replacing it does.
pub proof fn law_replacing_question_tells_name_and_place(final_name: Seq<char>, place: Seq<char>)
    ensures
        replace_archive_text(final_name, place) == "An archive named "@ + seq!['“'] + final_name
            + seq!['”'] + " already exists in "@ + place
            + ". Replacing it will overwrite its contents."@,
{
    reveal_strlit("An archive named “");
    reveal_strlit("” already exists in ");
    reveal_strlit("An archive named ");
    reveal_strlit(" already exists in ");
    assert(replace_archive_text(final_name, place) =~= "An archive named "@ + seq!['“']
        + final_name + seq!['”'] + " already exists in "@ + place
        + ". Replacing it will overwrite its contents."@);
}

/// Entries are on the local file system where each of them is.
pub proof fn law_one_foreign_entry_is_enough(entries: Seq<FileEntry>, entry: FileEntry)
    ensures
        all_native(Seq::empty()),
        all_native(entries.push(entry)) <==> all_native(entries) && entry.location@ is Native,
{
    let longer = entries.push(entry);
    if all_native(longer) {
        assert forall|i: int| 0 <= i < entries.len() implies (#[trigger] entries[i]).location@
            is Native by {
            assert(longer[i] == entries[i]);
        }
        assert(longer[entries.len() as int] == entry);
    }
}

} // verus!
