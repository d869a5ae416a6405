//! The entries of a directory: what they are called, how a row stands for one, and which of them a
//! filter shows.

use crate::location::{contains_location, Location};
use crate::text::{
    after_first, after_last, ascii_lowercase_text, ascii_lowercased, before_last, characters,
    concat_text, contains_text, count_text, decimal, join_text, joined, last_place,
    law_part_stands_between, law_separators_part_a_text, lemma_before_last, lemma_before_last_none,
    lemma_single_prefix, lowercase, lowercase_text, occurs_in, same_text, starts_with_text,
    text_after_first, text_after_last, text_between, views,
};
use vstd::prelude::*;

verus! {

/// What an entry of a directory is.
#[derive(Clone, Copy, Debug, PartialEq, Eq, Structural)]
pub enum EntryKind {
    Directory,
    DirectorySymbolicLink,
    File,
    FileSymbolicLink,
    SymbolicLink,
    Other,
}

/// A number that a file system may not have told yet, or may not tell at all.
#[derive(Clone, Copy, Debug, PartialEq, Eq, Structural)]
pub enum MetadataValue {
    Unknown,
    Unavailable,
    Known(u64),
}

/// How the entries of a directory are laid out.
#[derive(Clone, Copy, Debug, PartialEq, Eq, Structural)]
pub enum BrowserMode {
    Columns,
    Icons,
    List,
}

/// An entry of a directory.
#[derive(Debug)]
pub struct FileEntry {
    pub location: Location,
    pub native_name: String,
    pub display_name: String,
    pub kind: EntryKind,
    pub size: MetadataValue,
    pub modified_unix_seconds: MetadataValue,
    pub mode: MetadataValue,
    pub is_hidden: bool,
}

impl EntryKind {
    /// Whether an entry of this kind can be entered.
    pub open spec fn is_directory(self) -> bool {
        self is Directory || self is DirectorySymbolicLink
    }

    /// Whether an entry of this kind points at another.
    pub open spec fn is_link(self) -> bool {
        self is DirectorySymbolicLink || self is FileSymbolicLink || self is SymbolicLink
    }
}

impl FileEntry {
    /// Whether the entry can be entered.
    pub fn is_directory(&self) -> (result: bool)
        ensures
            result == self.kind.is_directory(),
    {
        match self.kind {
            EntryKind::Directory | EntryKind::DirectorySymbolicLink => true,
            _ => false,
        }
    }

    /// Whether the entry points at another.
    pub fn is_symbolic_link(&self) -> (result: bool)
        ensures
            result == self.kind.is_link(),
    {
        match self.kind {
            EntryKind::DirectorySymbolicLink
            | EntryKind::FileSymbolicLink
            | EntryKind::SymbolicLink => true,
            _ => false,
        }
    }

    /// Whether the entry points at nothing.
    pub fn is_broken_symbolic_link(&self) -> (result: bool)
        ensures
            result == (self.kind is SymbolicLink),
    {
        match self.kind {
            EntryKind::SymbolicLink => true,
            _ => false,
        }
    }

    /// The same entry once more.
    pub fn duplicate(&self) -> (result: Self)
        ensures
            result == *self,
    {
        FileEntry {
            location: self.location.duplicate(),
            native_name: self.native_name.clone(),
            display_name: self.display_name.clone(),
            kind: self.kind,
            size: self.size,
            modified_unix_seconds: self.modified_unix_seconds,
            mode: self.mode,
            is_hidden: self.is_hidden,
        }
    }
}

/// The same entries once more.
pub fn duplicate_entries(entries: &Vec<FileEntry>) -> (result: Vec<FileEntry>)
    ensures
        result@ == entries@,
{
    let mut result: Vec<FileEntry> = Vec::new();
    let mut i: usize = 0;
    while i < entries.len()
        invariant
            i <= entries@.len(),
            result@ == entries@.take(i as int),
        decreases entries@.len() - i,
    {
        result.push(entries[i].duplicate());
        i = i + 1;
        assert(entries@.take(i as int) == entries@.take(i - 1).push(entries@[i - 1]));
    }
    assert(entries@.take(i as int) == entries@);
    result
}

/// What an assistive technology calls a view.
pub open spec fn spoken_view_name(mode: BrowserMode) -> Seq<char> {
    match mode {
        BrowserMode::Columns => "Columns view"@,
        BrowserMode::Icons => "Icons view"@,
        BrowserMode::List => "List view"@,
    }
}

/// What an assistive technology calls a view.
pub fn view_name(mode: BrowserMode) -> (result: &'static str)
    ensures
        result@ == spoken_view_name(mode),
{
    match mode {
        BrowserMode::Columns => "Columns view",
        BrowserMode::Icons => "Icons view",
        BrowserMode::List => "List view",
    }
}

/// What an assistive technology calls a kind of entry.
pub open spec fn spoken_kind(kind: EntryKind) -> Seq<char> {
    match kind {
        EntryKind::Directory => "Folder"@,
        EntryKind::DirectorySymbolicLink => "Folder link"@,
        EntryKind::File => "File"@,
        EntryKind::FileSymbolicLink => "File link"@,
        EntryKind::SymbolicLink => "Broken link"@,
        EntryKind::Other => "Other"@,
    }
}

/// What an assistive technology calls an entry.
pub fn entry_kind_name(entry: &FileEntry) -> (result: &'static str)
    ensures
        result@ == spoken_kind(entry.kind),
{
    match entry.kind {
        EntryKind::Directory => "Folder",
        EntryKind::DirectorySymbolicLink => "Folder link",
        EntryKind::File => "File",
        EntryKind::FileSymbolicLink => "File link",
        EntryKind::SymbolicLink => "Broken link",
        EntryKind::Other => "Other",
    }
}

/// How an assistive technology describes a row, whose entry may not be known.
pub fn entry_description(entry: Option<&FileEntry>) -> (result: &'static str)
    ensures
        result@ == match entry {
            Some(entry) => spoken_kind(entry.kind),
            None => "Entry"@,
        },
{
    match entry {
        Some(entry) => entry_kind_name(entry),
        None => "Entry",
    }
}

/// The letter that stands for a kind of entry in the value of a row.
pub open spec fn kind_letter(kind: EntryKind) -> char {
    if kind is SymbolicLink {
        'x'
    } else if kind.is_directory() {
        'd'
    } else if kind.is_link() {
        's'
    } else {
        'f'
    }
}

/// The value of a row: a letter for the kind, one for whether the entry is hidden, a tab, and the
/// name.
pub open spec fn model_value(kind: EntryKind, is_hidden: bool, name: Seq<char>) -> Seq<char> {
    seq![
        kind_letter(kind),
        if is_hidden {
            'h'
        } else {
            'v'
        },
        '\t',
    ] + name
}

/// The value of the row of an entry.
pub fn entry_model_value(entry: &FileEntry) -> (result: String)
    ensures
        result@ == model_value(entry.kind, entry.is_hidden, entry.display_name@),
{
    let kind: char = if entry.is_broken_symbolic_link() {
        'x'
    } else if entry.is_directory() {
        'd'
    } else if entry.is_symbolic_link() {
        's'
    } else {
        'f'
    };
    let hidden: char = if entry.is_hidden {
        'h'
    } else {
        'v'
    };
    let mut value: String = String::new();
    value.push(kind);
    value.push(hidden);
    value.push('\t');
    value.append(entry.display_name.as_str());
    assert(value@ == model_value(entry.kind, entry.is_hidden, entry.display_name@));
    value
}

/// The name in the value of a row: what follows the first tab, or the whole value.
pub open spec fn named_in(value: Seq<char>) -> Seq<char> {
    match after_first(value, '\t') {
        Some(name) => name,
        None => value,
    }
}

/// The name in the value of a row.
pub fn model_display_name(value: &str) -> (result: String)
    ensures
        result@ == named_in(value@),
{
    match text_after_first(value, '\t') {
        Some(name) => name,
        None => value.to_owned(),
    }
}

/// Whether the value of a row stands for a directory.
pub fn model_is_directory(value: &str) -> (result: bool)
    ensures
        result == "d"@.is_prefix_of(value@),
{
    starts_with_text(value, "d")
}

/// Whether the value of a row stands for a link to nothing.
pub fn model_is_broken_link(value: &str) -> (result: bool)
    ensures
        result == "x"@.is_prefix_of(value@),
{
    starts_with_text(value, "x")
}

/// Whether the value of a row stands for a hidden entry: the byte behind a first letter of one byte
/// is `h`.
pub open spec fn marked_hidden(value: Seq<char>) -> bool {
    value.len() >= 2 && value[0] <= '\u{7f}' && value[1] == 'h'
}

/// Whether the value of a row stands for a hidden entry.
pub fn model_is_hidden(value: &str) -> (result: bool)
    ensures
        result == marked_hidden(value@),
{
    let chars: Vec<char> = characters(value);
    chars.len() >= 2 && chars[0] <= '\u{7f}' && chars[1] == 'h'
}

/// Whether a name in lowercase passes a filter whose text is in lowercase.
pub open spec fn passes_filter(folded_name: Seq<char>, query: Seq<char>) -> bool {
    query.len() == 0 || occurs_in(folded_name, query)
}

/// Whether a name in lowercase passes a filter whose text is in lowercase.
pub fn folded_name_matches(folded_name: &str, query: &str) -> (result: bool)
    ensures
        result == passes_filter(folded_name@, query@),
{
    query.is_empty() || contains_text(folded_name, query)
}

/// Whether the name in the value of a row passes a filter whose text is in lowercase.
pub fn pane_filter_matches(value: &str, query: &str) -> (result: bool)
    ensures
        result == passes_filter(lowercase(named_in(value@)), query@),
{
    let name: String = model_display_name(value);
    let folded: String = lowercase_text(name.as_str());
    folded_name_matches(folded.as_str(), query)
}

/// Whether a row is shown: hidden entries only on request, and only names that pass the filter.
pub open spec fn is_shown(value: Seq<char>, show_hidden: bool, query: Seq<char>) -> bool {
    (show_hidden || !marked_hidden(value)) && passes_filter(lowercase(named_in(value)), query)
}

/// Whether a row is shown.
pub fn entry_matches(value: &str, show_hidden: bool, query: &str) -> (result: bool)
    ensures
        result == is_shown(value@, show_hidden, query@),
{
    (show_hidden || !model_is_hidden(value)) && pane_filter_matches(value, query)
}

/// The picture that stands for a kind of file.
#[derive(Clone, Copy, Debug, PartialEq, Eq, Structural)]
pub enum Icon {
    BrokenLink,
    Folder,
    Terminal,
    Pictures,
    Videos,
    Archive,
    Code,
    Documents,
}

/// Whether the extension is one of a shell script.
pub open spec fn is_script_extension(extension: Seq<char>) -> bool {
    extension == "sh"@ || extension == "bash"@ || extension == "zsh"@ || extension == "fish"@
}

/// Whether the extension is one of a common picture.
pub open spec fn is_common_picture_extension(extension: Seq<char>) -> bool {
    extension == "png"@ || extension == "jpg"@ || extension == "jpeg"@ || extension == "gif"@
        || extension == "webp"@ || extension == "svg"@ || extension == "bmp"@ || extension
        == "avif"@ || extension == "tif"@ || extension == "tiff"@
}

/// Whether the extension is one of a raw picture of a camera.
pub open spec fn is_raw_picture_extension(extension: Seq<char>) -> bool {
    extension == "3fr"@ || extension == "arw"@ || extension == "cr2"@ || extension == "cr3"@
        || extension == "dcr"@ || extension == "dng"@ || extension == "erf"@ || extension == "kdc"@
        || extension == "mef"@ || extension == "mos"@ || extension == "mrw"@ || extension == "nef"@
        || extension == "nrw"@ || extension == "orf"@ || extension == "pef"@ || extension == "raf"@
        || extension == "raw"@ || extension == "rw2"@ || extension == "rwl"@ || extension == "sr2"@
        || extension == "srf"@ || extension == "srw"@ || extension == "x3f"@
}

/// Whether the extension is one of a video.
pub open spec fn is_video_extension(extension: Seq<char>) -> bool {
    extension == "mp4"@ || extension == "mkv"@ || extension == "webm"@ || extension == "mov"@
        || extension == "avi"@ || extension == "m4v"@
}

/// Whether the extension is one of an archive.
pub open spec fn is_archive_extension(extension: Seq<char>) -> bool {
    extension == "zip"@ || extension == "tar"@ || extension == "gz"@ || extension == "bz2"@
        || extension == "xz"@ || extension == "7z"@ || extension == "rar"@ || extension == "zst"@
}

/// Whether the extension is one of source code.
pub open spec fn is_code_extension(extension: Seq<char>) -> bool {
    extension == "rs"@ || extension == "c"@ || extension == "h"@ || extension == "cpp"@
        || extension == "go"@ || extension == "py"@ || extension == "rb"@ || extension == "java"@
        || extension == "js"@ || extension == "jsx"@ || extension == "ts"@ || extension == "tsx"@
        || extension == "lua"@ || extension == "php"@ || extension == "html"@ || extension
        == "css"@ || extension == "scss"@ || extension == "json"@
}

/// The picture for an extension in lowercase.
pub open spec fn extension_icon(extension: Seq<char>) -> Icon {
    if is_script_extension(extension) {
        Icon::Terminal
    } else if is_common_picture_extension(extension) || is_raw_picture_extension(extension) {
        Icon::Pictures
    } else if is_video_extension(extension) {
        Icon::Videos
    } else if is_archive_extension(extension) {
        Icon::Archive
    } else if is_code_extension(extension) {
        Icon::Code
    } else {
        Icon::Documents
    }
}

/// The picture for a name.
pub open spec fn name_icon(name: Seq<char>) -> Icon {
    match after_last(name, '.') {
        Some(extension) => extension_icon(ascii_lowercased(extension)),
        None => Icon::Documents,
    }
}

fn is_script(extension: &str) -> (result: bool)
    ensures
        result == is_script_extension(extension@),
{
    same_text(extension, "sh") || same_text(extension, "bash") || same_text(extension, "zsh")
        || same_text(extension, "fish")
}

fn is_common_picture(extension: &str) -> (result: bool)
    ensures
        result == is_common_picture_extension(extension@),
{
    same_text(extension, "png") || same_text(extension, "jpg") || same_text(extension, "jpeg")
        || same_text(extension, "gif") || same_text(extension, "webp") || same_text(extension, "svg")
        || same_text(extension, "bmp") || same_text(extension, "avif") || same_text(
        extension,
        "tif",
    ) || same_text(extension, "tiff")
}

fn is_raw_picture(extension: &str) -> (result: bool)
    ensures
        result == is_raw_picture_extension(extension@),
{
    same_text(extension, "3fr") || same_text(extension, "arw") || same_text(extension, "cr2")
        || same_text(extension, "cr3") || same_text(extension, "dcr") || same_text(extension, "dng")
        || same_text(extension, "erf") || same_text(extension, "kdc") || same_text(extension, "mef")
        || same_text(extension, "mos") || same_text(extension, "mrw") || same_text(extension, "nef")
        || same_text(extension, "nrw") || same_text(extension, "orf") || same_text(extension, "pef")
        || same_text(extension, "raf") || same_text(extension, "raw") || same_text(extension, "rw2")
        || same_text(extension, "rwl") || same_text(extension, "sr2") || same_text(extension, "srf")
        || same_text(extension, "srw") || same_text(extension, "x3f")
}

fn is_video(extension: &str) -> (result: bool)
    ensures
        result == is_video_extension(extension@),
{
    same_text(extension, "mp4") || same_text(extension, "mkv") || same_text(extension, "webm")
        || same_text(extension, "mov") || same_text(extension, "avi") || same_text(extension, "m4v")
}

fn is_archive(extension: &str) -> (result: bool)
    ensures
        result == is_archive_extension(extension@),
{
    same_text(extension, "zip") || same_text(extension, "tar") || same_text(extension, "gz")
        || same_text(extension, "bz2") || same_text(extension, "xz") || same_text(extension, "7z")
        || same_text(extension, "rar") || same_text(extension, "zst")
}

fn is_code(extension: &str) -> (result: bool)
    ensures
        result == is_code_extension(extension@),
{
    same_text(extension, "rs") || same_text(extension, "c") || same_text(extension, "h")
        || same_text(extension, "cpp") || same_text(extension, "go") || same_text(extension, "py")
        || same_text(extension, "rb") || same_text(extension, "java") || same_text(extension, "js")
        || same_text(extension, "jsx") || same_text(extension, "ts") || same_text(extension, "tsx")
        || same_text(extension, "lua") || same_text(extension, "php") || same_text(
        extension,
        "html",
    ) || same_text(extension, "css") || same_text(extension, "scss") || same_text(extension, "json")
}

/// The picture for a name, by its extension.
pub fn icon_for_name(name: &str) -> (result: Icon)
    ensures
        result == name_icon(name@),
{
    match text_after_last(name, '.') {
        Some(extension) => {
            let folded: String = ascii_lowercase_text(extension.as_str());
            let text: &str = folded.as_str();
            if is_script(text) {
                Icon::Terminal
            } else if is_common_picture(text) || is_raw_picture(text) {
                Icon::Pictures
            } else if is_video(text) {
                Icon::Videos
            } else if is_archive(text) {
                Icon::Archive
            } else if is_code(text) {
                Icon::Code
            } else {
                Icon::Documents
            }
        },
        None => Icon::Documents,
    }
}

/// The picture for an entry: broken links and directories have their own.
pub fn entry_icon(entry: &FileEntry) -> (result: Icon)
    ensures
        result == if entry.kind is SymbolicLink {
            Icon::BrokenLink
        } else if entry.kind.is_directory() {
            Icon::Folder
        } else {
            name_icon(entry.display_name@)
        },
{
    if entry.is_broken_symbolic_link() {
        Icon::BrokenLink
    } else if entry.is_directory() {
        Icon::Folder
    } else {
        icon_for_name(entry.display_name.as_str())
    }
}

/// How many characters of a name are selected when it is renamed: those before the last dot, or all
/// of them where there is none but a leading one.
pub open spec fn stem_length(name: Seq<char>) -> nat {
    match before_last(name, '.') {
        Some(stem) => if stem.len() > 0 {
            stem.len()
        } else {
            name.len()
        },
        None => name.len(),
    }
}

/// Where the selection ends when a name is renamed.
pub fn rename_stem_end(name: &str) -> (result: i32)
    ensures
        result == if stem_length(name@) <= i32::MAX {
            stem_length(name@) as int
        } else {
            i32::MAX as int
        },
{
    let chars: Vec<char> = characters(name);
    let end: usize = match last_place(&chars, '.') {
        Some(at) => {
            proof {
                lemma_before_last(name@, '.', at as int);
            }
            if at > 0 {
                at
            } else {
                chars.len()
            }
        },
        None => {
            proof {
                lemma_before_last_none(name@, '.');
            }
            chars.len()
        },
    };
    if end <= i32::MAX as usize {
        end as i32
    } else {
        i32::MAX
    }
}

/// What is wrong with a name in a field, given what is wrong with it as a file name: nothing is
/// said of an empty field.
pub fn basename_field_error(name: &str, verdict: Option<&'static str>) -> (result: Option<&'static str>)
    ensures
        result == if name@.len() == 0 {
            None
        } else {
            verdict
        },
{
    if name.is_empty() {
        None
    } else {
        verdict
    }
}

/// How a name field looks, and whether its name can be submitted.
#[derive(Debug)]
pub struct NameFieldState {
    pub error: Option<&'static str>,
    pub submittable: bool,
}

/// How a field looks that holds `name`, given what is wrong with it as a file name. An empty name
/// is no mistake, and still cannot be submitted.
pub fn update_basename_validation(name: &str, verdict: Option<&'static str>) -> (result:
    NameFieldState)
    ensures
        result.error == if name@.len() == 0 {
            None
        } else {
            verdict
        },
        result.submittable == (name@.len() > 0 && verdict is None),
{
    match basename_field_error(name, verdict) {
        None => NameFieldState { error: None, submittable: !name.is_empty() },
        Some(message) => NameFieldState { error: Some(message), submittable: false },
    }
}

/// Whether the size or the age of an entry still has to be asked for.
pub fn metadata_needs_fill(entry: &FileEntry) -> (result: bool)
    ensures
        result == (entry.modified_unix_seconds is Unknown || (!entry.kind.is_directory()
            && entry.size is Unknown)),
{
    entry.modified_unix_seconds == MetadataValue::Unknown || (!entry.is_directory() && entry.size
        == MetadataValue::Unknown)
}

/// The number of bytes that a row shows: that of an entry other than a directory, once known.
pub fn column_size(entry: Option<&FileEntry>) -> (result: Option<u64>)
    ensures
        result == match entry {
            Some(entry) => match entry.size {
                MetadataValue::Known(bytes) => if entry.kind.is_directory() {
                    None
                } else {
                    Some(bytes)
                },
                _ => None,
            },
            None => None,
        },
{
    match entry {
        Some(entry) => {
            if entry.is_directory() {
                None
            } else {
                match entry.size {
                    MetadataValue::Known(bytes) => Some(bytes),
                    _ => None,
                }
            }
        },
        None => None,
    }
}

/// A count with its noun.
pub open spec fn counted(count: nat, one: Seq<char>, many: Seq<char>) -> Seq<char> {
    if count == 1 {
        one
    } else {
        decimal(count) + many
    }
}

/// A count with its noun: `one` for a single thing, the number and `many` otherwise.
fn counted_text(count: usize, one: &str, many: &str) -> (result: String)
    ensures
        result@ == counted(count as nat, one@, many@),
{
    if count == 1 {
        one.to_owned()
    } else {
        concat_text(count_text(count).as_str(), many)
    }
}

/// How many items there are, in words.
pub open spec fn items_label(count: nat) -> Seq<char> {
    counted(count, "1 item"@, " items"@)
}

/// How many items there are, in words.
pub fn item_count_label(count: usize) -> (result: String)
    ensures
        result@ == items_label(count as nat),
{
    counted_text(count, "1 item", " items")
}

/// How many of the entries are directories.
pub open spec fn directory_count(entries: Seq<FileEntry>) -> nat {
    entries.filter(|entry: FileEntry| entry.kind.is_directory()).len()
}

/// What a list of entries is made of, in words: files, folders, or both.
pub open spec fn kind_summary(files: nat, directories: nat) -> Seq<char> {
    if directories == 0 {
        counted(files, "1 file"@, " files"@)
    } else if files == 0 {
        counted(directories, "1 folder"@, " folders"@)
    } else {
        items_label(files + directories)
    }
}

/// What a list of entries is made of, in words.
pub fn entry_kind_summary(entries: &Vec<FileEntry>) -> (result: String)
    ensures
        result@ == kind_summary(
            (entries@.len() - directory_count(entries@)) as nat,
            directory_count(entries@),
        ),
{
    let ghost is_directory = |entry: FileEntry| entry.kind.is_directory();
    let mut directories: usize = 0;
    let mut i: usize = 0;
    assert(entries@.take(0).filter(is_directory).len() == 0) by {
        reveal(Seq::filter);
    }
    while i < entries.len()
        invariant
            i <= entries@.len(),
            directories <= i,
            is_directory == (|entry: FileEntry| entry.kind.is_directory()),
            directories == entries@.take(i as int).filter(is_directory).len(),
        decreases entries@.len() - i,
    {
        proof {
            reveal(Seq::filter);
            assert(entries@.take(i + 1).drop_last() == entries@.take(i as int));
        }
        if entries[i].is_directory() {
            directories = directories + 1;
        }
        i = i + 1;
    }
    assert(entries@.take(i as int) == entries@);
    let files: usize = entries.len() - directories;
    if directories == 0 {
        counted_text(files, "1 file", " files")
    } else if files == 0 {
        counted_text(directories, "1 folder", " folders")
    } else {
        item_count_label(entries.len())
    }
}

/// How long the summary of a selection may be.
pub const SUMMARY_MAX_CHARS: usize = 60;

/// The names of a list of entries.
pub open spec fn names_of(entries: Seq<FileEntry>) -> Seq<Seq<char>> {
    entries.map_values(|entry: FileEntry| entry.display_name@)
}

/// The text, cut to `length` characters with an ellipsis as the last of them where it is longer.
pub open spec fn cut_to(text: Seq<char>, length: nat) -> Seq<char> {
    if text.len() > length {
        text.take(length - 1).push('…')
    } else {
        text
    }
}

/// The first names of a selection, in one line.
pub open spec fn selection_summary(names: Seq<Seq<char>>) -> Seq<char> {
    if names.len() > 3 {
        joined(names.take(3), ", "@) + ", …"@
    } else {
        joined(names, ", "@)
    }
}

/// The first names of a selection, in one line that is not too long.
pub fn selected_items_summary(entries: &Vec<FileEntry>) -> (result: String)
    ensures
        result@ == cut_to(selection_summary(names_of(entries@)), SUMMARY_MAX_CHARS as nat),
{
    let shown: usize = if entries.len() > 3 {
        3
    } else {
        entries.len()
    };
    let mut names: Vec<String> = Vec::new();
    let mut i: usize = 0;
    while i < shown
        invariant
            i <= shown <= entries@.len(),
            views(names@) == names_of(entries@).take(i as int),
        decreases shown - i,
    {
        let ghost before = names@;
        names.push(entries[i].display_name.clone());
        i = i + 1;
        assert(views(names@) == views(before).push(entries@[i - 1].display_name@));
        assert(names_of(entries@).take(i as int) == names_of(entries@).take(i - 1).push(
            entries@[i - 1].display_name@,
        ));
    }
    let mut summary: String = join_text(&names, ", ");
    if entries.len() > 3 {
        summary.append(", …");
    } else {
        assert(names_of(entries@).take(shown as int) == names_of(entries@));
    }
    let chars: Vec<char> = characters(summary.as_str());
    if chars.len() > SUMMARY_MAX_CHARS {
        let mut cut: String = text_between(&chars, 0, SUMMARY_MAX_CHARS - 1);
        cut.push('…');
        cut
    } else {
        summary
    }
}

/// Narrows the entries of a deletion down to those at the given locations, in their order.
pub fn retryable_delete_entries(
    entries: &Vec<FileEntry>,
    retryable_locations: &Vec<Location>,
) -> (result: Vec<FileEntry>)
    ensures
        result@ == entries@.filter(
            |entry: FileEntry|
                crate::location::places(retryable_locations@).contains(entry.location@.place()),
        ),
{
    let ghost retryable = |entry: FileEntry|
        crate::location::places(retryable_locations@).contains(entry.location@.place());
    let mut result: Vec<FileEntry> = Vec::new();
    let mut i: usize = 0;
    assert(entries@.take(0).filter(retryable) == Seq::<FileEntry>::empty()) by {
        reveal(Seq::filter);
    }
    while i < entries.len()
        invariant
            i <= entries@.len(),
            retryable == (|entry: FileEntry|
                crate::location::places(retryable_locations@).contains(entry.location@.place())),
            result@ == entries@.take(i as int).filter(retryable),
        decreases entries@.len() - i,
    {
        proof {
            reveal(Seq::filter);
            assert(entries@.take(i + 1).drop_last() == entries@.take(i as int));
        }
        if contains_location(retryable_locations, &entries[i].location) {
            result.push(entries[i].duplicate());
        }
        i = i + 1;
    }
    assert(entries@.take(i as int) == entries@);
    result
}

/// Whether the file types of an entry say that it can be printed.
#[derive(Clone, Copy, Debug)]
pub struct ContentHints {
    pub is_text: bool,
    pub is_image: bool,
    pub is_pdf: bool,
    pub is_plain_text: bool,
    pub has_plain_text_extension: bool,
    pub is_extensionless_dotfile: bool,
}

/// Whether an entry can be printed: a file that is text, a picture or a PDF by any sign of it.
pub fn entry_supports_printing(entry: &FileEntry, hints: ContentHints) -> (result: bool)
    ensures
        result == ((entry.kind is File || entry.kind is FileSymbolicLink) && (hints.is_text
            || hints.is_image || hints.is_pdf || hints.is_plain_text
            || hints.has_plain_text_extension || hints.is_extensionless_dotfile)),
{
    match entry.kind {
        EntryKind::File | EntryKind::FileSymbolicLink => {
            hints.is_text || hints.is_image || hints.is_pdf || hints.is_plain_text
                || hints.has_plain_text_extension || hints.is_extensionless_dotfile
        },
        _ => false,
    }
}

/// Whether a click on an entry shows a preview of it.
pub fn entry_responds_to_preview_click(
    entry: &FileEntry,
    previews_enabled: bool,
    supports_quick_preview: bool,
) -> (result: bool)
    ensures
        result == (previews_enabled && !entry.kind.is_directory() && supports_quick_preview),
{
    previews_enabled && !entry.is_directory() && supports_quick_preview
}

/// Whether a folder can be pinned to the sidebar.
#[derive(Clone, Copy, Debug, PartialEq, Eq, Structural)]
pub enum PinStatus {
    Available,
    Pinned,
    Unavailable,
}

/// Whether an entry can be pinned: a directory outside the trash that is not pinned yet.
pub fn can_pin_entry(entry: &FileEntry, status: PinStatus) -> (result: bool)
    ensures
        result == (entry.kind.is_directory() && !entry.location@.in_trash() && status is Available),
{
    entry.is_directory() && !crate::location::is_trash_location(&entry.location) && status
        == PinStatus::Available
}

/// Where a terminal opens for a selection: in its one directory.
pub fn selected_terminal_location(entries: &Vec<FileEntry>) -> (result: Option<Location>)
    ensures
        result == if entries@.len() == 1 && entries@[0].kind.is_directory() {
            Some(entries@[0].location)
        } else {
            None
        },
{
    if entries.len() == 1 && entries[0].is_directory() {
        Some(entries[0].location.duplicate())
    } else {
        None
    }
}

/// Names that an assistive technology speaks tell the kinds of entries and the views apart.
pub proof fn law_spoken_names_are_distinct(
    left: EntryKind,
    right: EntryKind,
    left_mode: BrowserMode,
    right_mode: BrowserMode,
)
    ensures
        spoken_kind(left).len() > 0,
        left != right ==> spoken_kind(left) != spoken_kind(right),
        left_mode != right_mode ==> spoken_view_name(left_mode) != spoken_view_name(right_mode),
{
    reveal_strlit("Folder");
    reveal_strlit("Folder link");
    reveal_strlit("File");
    reveal_strlit("File link");
    reveal_strlit("Broken link");
    reveal_strlit("Other");
    reveal_strlit("Columns view");
    reveal_strlit("Icons view");
    reveal_strlit("List view");
    assert("Folder link"@[1] == 'o');
    assert("Broken link"@[1] == 'r');
    assert("File"@[0] == 'F');
    assert("Icons view"@.len() != "List view"@.len());
}

/// The value of a row gives back the name, whether the entry is a directory, a broken link or
/// hidden.
pub proof fn law_model_value_round_trip(kind: EntryKind, is_hidden: bool, name: Seq<char>)
    ensures
        named_in(model_value(kind, is_hidden, name)) == name,
        "d"@.is_prefix_of(model_value(kind, is_hidden, name)) == kind.is_directory(),
        "x"@.is_prefix_of(model_value(kind, is_hidden, name)) == (kind is SymbolicLink),
        marked_hidden(model_value(kind, is_hidden, name)) == is_hidden,
{
    let value = model_value(kind, is_hidden, name);
    reveal_strlit("d");
    reveal_strlit("x");
    reveal_with_fuel(after_first, 4);
    assert(value[0] == kind_letter(kind));
    assert(value[2] == '\t');
    assert(value.drop_first().drop_first().drop_first() == name);
    assert(after_first(value, '\t') == Some(name));
    lemma_single_prefix(value, "d"@);
    lemma_single_prefix(value, "x"@);
}

/// A tighter filter shows no more: what passes a filter also passes every text that occurs in it.
pub proof fn law_filter_is_monotone(name: Seq<char>, query: Seq<char>, looser: Seq<char>)
    requires
        passes_filter(name, query),
        passes_filter(query, looser),
    ensures
        passes_filter(name, looser),
{
    if looser.len() > 0 {
        let inner = choose|at: int| crate::text::occurs_at(query, looser, at);
        assert(crate::text::occurs_at(query, looser, inner));
        let at = choose|at: int| crate::text::occurs_at(name, query, at);
        assert(crate::text::occurs_at(name, query, at));
        let found = name.subrange(at + inner, at + inner + looser.len());
        assert forall|k: int| 0 <= k < looser.len() implies found[k] == looser[k] by {
            assert(name.subrange(at, at + query.len())[inner + k] == query[inner + k]);
            assert(query.subrange(inner, inner + looser.len())[k] == looser[k]);
        }
        assert(found == looser);
        assert(crate::text::occurs_at(name, looser, at + inner));
    }
}

/// A cut summary is never longer than its limit.
pub proof fn law_summary_fits(text: Seq<char>, length: nat)
    requires
        length > 0,
    ensures
        cut_to(text, length).len() <= length,
{
}

/// A filter finds its text anywhere in a name: the row of an entry is shown exactly if the name in
/// lowercase reads as something, the text of the filter, and something else, and if the entry is not
/// hidden or hidden ones are shown. No text at all finds every name.
pub proof fn law_filter_finds_text_anywhere_in_a_name(
    kind: EntryKind,
    is_hidden: bool,
    name: Seq<char>,
    show_hidden: bool,
    query: Seq<char>,
)
    ensures
        is_shown(model_value(kind, is_hidden, name), show_hidden, query) <==> (show_hidden
            || !is_hidden) && exists|before: Seq<char>, after: Seq<char>|
            lowercase(name) == #[trigger] ((before + query) + after),
{
    law_model_value_round_trip(kind, is_hidden, name);
    lemma_filter(lowercase(name), query);
}

proof fn lemma_filter(folded: Seq<char>, query: Seq<char>)
    ensures
        passes_filter(folded, query) <==> exists|before: Seq<char>, after: Seq<char>|
            folded == #[trigger] ((before + query) + after),
{
    law_part_stands_between(folded, query);
    if query.len() == 0 {
        assert(folded == (folded + query) + Seq::<char>::empty());
    }
}

/// A row is shown by the name in its value alone, and by the mark of a hidden entry: whatever stands
/// before the name, the filter looks for its text in the name only.
pub proof fn law_filter_looks_at_the_name_only(
    value: Seq<char>,
    show_hidden: bool,
    query: Seq<char>,
    before: Seq<char>,
    after: Seq<char>,
)
    ensures
        !value.contains('\t') ==> named_in(value) == value,
        forall|mark: Seq<char>, name: Seq<char>|
            !mark.contains('\t') && value == #[trigger] (mark + seq!['\t'] + name) ==> named_in(
                value,
            ) == name,
        lowercase(named_in(value)) == before + query + after && (show_hidden || !marked_hidden(
            value,
        )) ==> is_shown(value, show_hidden, query),
        is_shown(value, show_hidden, query) ==> passes_filter(lowercase(named_in(value)), query),
        is_shown(value, false, query) ==> is_shown(value, true, query),
        is_shown(value, true, query) && !marked_hidden(value) ==> is_shown(value, false, query),
        marked_hidden(value) ==> !is_shown(value, false, query),
        passes_filter(lowercase(named_in(value)), query) ==> is_shown(value, true, query),
        marked_hidden(value) <==> value.len() >= 2 && value[0] <= '\u{7f}' && value[1] == 'h',
{
    law_separators_part_a_text(value, '\t', Seq::empty());
    assert forall|mark: Seq<char>, name: Seq<char>|
        !mark.contains('\t') && value == #[trigger] (mark + seq!['\t'] + name) implies named_in(value)
        == name by {
        law_separators_part_a_text(mark, '\t', name);
    }
    lemma_filter(lowercase(named_in(value)), query);
    if lowercase(named_in(value)) == before + query + after {
        assert(lowercase(named_in(value)) == (before + query) + after);
    }
}

/// A text is found in every name made by writing something before and behind it.
pub proof fn law_names_around_a_text_pass_its_filter(
    before: Seq<char>,
    text: Seq<char>,
    after: Seq<char>,
)
    ensures
        passes_filter(before + text + after, text),
        passes_filter(before, Seq::empty()),
        passes_filter(before, text) && before.len() == text.len() ==> before == text || text.len()
            == 0,
        text.len() > before.len() ==> !passes_filter(before, text),
{
    lemma_filter(before + text + after, text);
    assert(before + text + after == (before + text) + after);
    if passes_filter(before, text) && text.len() > 0 {
        let at = choose|at: int| crate::text::occurs_at(before, text, at);
        assert(crate::text::occurs_at(before, text, at));
        if before.len() == text.len() {
            assert(before.subrange(0, before.len() as int) =~= before);
        }
    }
}

/// Directories are entered through links as well, and links that lead nowhere are links but no
/// directories.
pub proof fn law_links_are_what_they_lead_to(kind: EntryKind)
    ensures
        kind.is_directory() <==> kind is Directory || kind is DirectorySymbolicLink,
        kind.is_link() <==> kind !is Directory && kind !is File && kind !is Other,
{
}

/// The first letter of a row tells a directory, a broken link, a link to a file, and anything else
/// apart.
pub proof fn law_rows_begin_with_their_kind(kind: EntryKind, is_hidden: bool, name: Seq<char>)
    ensures
        model_value(kind, is_hidden, name).len() == name.len() + 3,
        model_value(kind, is_hidden, name)[0] == 'd' <==> kind is Directory || kind
            is DirectorySymbolicLink,
        model_value(kind, is_hidden, name)[0] == 'x' <==> kind is SymbolicLink,
        model_value(kind, is_hidden, name)[0] == 's' <==> kind is FileSymbolicLink,
        model_value(kind, is_hidden, name)[0] == 'f' <==> kind is File || kind is Other,
        model_value(kind, is_hidden, name)[1] == 'h' <==> is_hidden,
        model_value(kind, is_hidden, name)[1] == 'v' <==> !is_hidden,
        model_value(kind, is_hidden, name)[2] == '\t',
{
}

/// A link is spoken as what it leads to, followed by the word for a link, and a view by its name
/// followed by the word for a view.
pub proof fn law_spoken_links_name_their_target(kind: EntryKind)
    ensures
        spoken_kind(EntryKind::Directory) == "Folder"@,
        spoken_kind(EntryKind::File) == "File"@,
        spoken_kind(EntryKind::Other) == "Other"@,
        spoken_kind(EntryKind::DirectorySymbolicLink) == spoken_kind(EntryKind::Directory)
            + " link"@,
        spoken_kind(EntryKind::FileSymbolicLink) == spoken_kind(EntryKind::File) + " link"@,
        spoken_kind(EntryKind::SymbolicLink) == "Broken"@ + " link"@,
        kind.is_link() <==> " link"@.is_suffix_of(spoken_kind(kind)),
        spoken_view_name(BrowserMode::Columns) == "Columns"@ + " view"@,
        spoken_view_name(BrowserMode::Icons) == "Icons"@ + " view"@,
        spoken_view_name(BrowserMode::List) == "List"@ + " view"@,
{
    reveal_strlit("Folder");
    reveal_strlit("Folder link");
    reveal_strlit("File");
    reveal_strlit("File link");
    reveal_strlit("Broken link");
    reveal_strlit("Broken");
    reveal_strlit("Other");
    reveal_strlit(" link");
    reveal_strlit("Columns view");
    reveal_strlit("Icons view");
    reveal_strlit("List view");
    reveal_strlit("Columns");
    reveal_strlit("Icons");
    reveal_strlit("List");
    reveal_strlit(" view");
    assert("Folder link"@ =~= "Folder"@ + " link"@);
    assert("File link"@ =~= "File"@ + " link"@);
    assert("Broken link"@ =~= "Broken"@ + " link"@);
    assert("Columns view"@ =~= "Columns"@ + " view"@);
    assert("Icons view"@ =~= "Icons"@ + " view"@);
    assert("List view"@ =~= "List"@ + " view"@);
    let text = spoken_kind(kind);
    if kind.is_link() {
        assert(text.subrange(text.len() - 5, text.len() as int) =~= " link"@);
    } else if text.len() >= 5 {
        assert(text.subrange(text.len() - 5, text.len() as int)[0] != " link"@[0]);
    }
}

/// Renaming selects what stands before the last dot of a name, and the whole of a name that has no dot
/// or only a leading one.
pub proof fn law_renaming_selects_the_stem(stem: Seq<char>, extension: Seq<char>)
    requires
        !extension.contains('.'),
    ensures
        stem_length(stem + seq!['.'] + extension) == if stem.len() > 0 {
            stem.len()
        } else {
            extension.len() + 1
        },
        stem_length(extension) == extension.len(),
{
    law_separators_part_a_text(stem, '.', extension);
    law_separators_part_a_text(extension, '.', stem);
}

/// Only what follows the last dot of a name decides its picture, in capitals or not; a name without a
/// dot has that of a document.
pub proof fn law_pictures_go_by_the_extension(
    stem: Seq<char>,
    other_stem: Seq<char>,
    extension: Seq<char>,
)
    requires
        !extension.contains('.'),
    ensures
        name_icon(stem + seq!['.'] + extension) == name_icon(other_stem + seq!['.'] + extension),
        name_icon(stem + seq!['.'] + extension) == name_icon(
            stem + seq!['.'] + ascii_lowercased(extension),
        ),
        name_icon(extension) is Documents,
        name_icon(stem + seq!['.'] + extension) == extension_icon(ascii_lowercased(extension)),
{
    law_separators_part_a_text(stem, '.', extension);
    law_separators_part_a_text(other_stem, '.', extension);
    law_separators_part_a_text(extension, '.', stem);
    let folded = ascii_lowercased(extension);
    assert forall|k: int| 0 <= k < folded.len() implies folded[k] != '.' by {
        assert(extension[k] != '.');
    }
    assert(!folded.contains('.'));
    law_separators_part_a_text(stem, '.', folded);
    assert(ascii_lowercased(folded) =~= folded);
}

/// One thing is told by its own words, and any other number of them by the number and the words for
/// many.
pub proof fn law_counts_are_told_with_their_noun(count: nat)
    ensures
        items_label(1) == "1 item"@,
        count != 1 ==> items_label(count) == decimal(count) + " items"@,
        kind_summary(1, 0) == "1 file"@,
        count != 1 ==> kind_summary(count, 0) == decimal(count) + " files"@,
        kind_summary(0, 1) == "1 folder"@,
        count > 1 ==> kind_summary(0, count) == decimal(count) + " folders"@,
        forall|files: nat, directories: nat|
            files > 0 && directories > 0 ==> #[trigger] kind_summary(files, directories)
                == decimal(files + directories) + " items"@,
{
}

/// Directories are counted one by one: those of two lists are together those of both after one
/// another.
pub proof fn law_directories_are_counted(left: Seq<FileEntry>, entry: FileEntry)
    ensures
        directory_count(Seq::empty()) == 0,
        directory_count(left.push(entry)) == directory_count(left) + if entry.kind is Directory
            || entry.kind is DirectorySymbolicLink {
            1nat
        } else {
            0nat
        },
        directory_count(left) <= left.len(),
    decreases left.len(),
{
    reveal(Seq::filter);
    assert(left.push(entry).drop_last() =~= left);
    if left.len() > 0 {
        law_directories_are_counted(left.drop_last(), left.last());
        assert(left.drop_last().push(left.last()) =~= left);
    }
}

/// A text that fits is not cut. One that does not keeps its first characters, and the last that fits
/// is an ellipsis.
pub proof fn law_cut_texts_end_in_an_ellipsis(text: Seq<char>, length: nat, i: int)
    requires
        length > 0,
    ensures
        text.len() <= length ==> cut_to(text, length) == text,
        text.len() > length ==> cut_to(text, length).len() == length && cut_to(text, length).last()
            == '…',
        text.len() > length && 0 <= i < length - 1 ==> cut_to(text, length)[i] == text[i],
        SUMMARY_MAX_CHARS == 60,
{
}

/// The summary of a selection tells up to three names, and by dots that there are more; each name is
/// that of an entry, in their order.
pub proof fn law_summary_tells_three_names(entries: Seq<FileEntry>, i: int, rest: Seq<Seq<char>>)
    ensures
        names_of(entries).len() == entries.len(),
        0 <= i < entries.len() ==> names_of(entries)[i] == entries[i].display_name@,
        entries.len() == 1 ==> selection_summary(names_of(entries)) == entries[0].display_name@,
        entries.len() == 2 ==> selection_summary(names_of(entries)) == entries[0].display_name@
            + ", "@ + entries[1].display_name@,
        entries.len() >= 3 ==> selection_summary(names_of(entries).take(3))
            == entries[0].display_name@ + ", "@ + entries[1].display_name@ + ", "@
            + entries[2].display_name@,
        entries.len() >= 3 && rest.len() > 0 ==> selection_summary(names_of(entries).take(3) + rest)
            == selection_summary(names_of(entries).take(3)) + ", …"@,
{
    let names = names_of(entries);
    reveal_with_fuel(joined, 4);
    if entries.len() == 2 {
        assert(names.drop_last()[0] == entries[0].display_name@);
    }
    if entries.len() >= 3 {
        let three = names.take(3);
        assert(three.drop_last().drop_last()[0] == entries[0].display_name@);
        assert(three.drop_last().last() == entries[1].display_name@);
        assert((three + rest).take(3) =~= three);
    }
}

/// Files are pictured by their extension: scripts, pictures and those of cameras, videos, archives and
/// source code each have a picture of their own, and everything else that of a document.
#[verifier::rlimit(60)]
#[verifier::spinoff_prover]
pub proof fn law_extensions_have_their_picture(extension: Seq<char>)
    ensures
        extension_icon(extension) is Terminal <==> (
            extension == "sh"@ || extension == "bash"@ || extension == "zsh"@ ||
            extension == "fish"@),
        extension_icon(extension) is Pictures <==> (
            extension == "png"@ || extension == "jpg"@ || extension == "jpeg"@ ||
            extension == "gif"@ || extension == "webp"@ || extension == "svg"@ ||
            extension == "bmp"@ || extension == "avif"@ || extension == "tif"@ ||
            extension == "tiff"@ || extension == "3fr"@ || extension == "arw"@ ||
            extension == "cr2"@ || extension == "cr3"@ || extension == "dcr"@ ||
            extension == "dng"@ || extension == "erf"@ || extension == "kdc"@ ||
            extension == "mef"@ || extension == "mos"@ || extension == "mrw"@ ||
            extension == "nef"@ || extension == "nrw"@ || extension == "orf"@ ||
            extension == "pef"@ || extension == "raf"@ || extension == "raw"@ ||
            extension == "rw2"@ || extension == "rwl"@ || extension == "sr2"@ ||
            extension == "srf"@ || extension == "srw"@ || extension == "x3f"@),
        extension_icon(extension) is Videos <==> (
            extension == "mp4"@ || extension == "mkv"@ || extension == "webm"@ ||
            extension == "mov"@ || extension == "avi"@ || extension == "m4v"@),
        extension_icon(extension) is Archive <==> (
            extension == "zip"@ || extension == "tar"@ || extension == "gz"@ ||
            extension == "bz2"@ || extension == "xz"@ || extension == "7z"@ ||
            extension == "rar"@ || extension == "zst"@),
        extension_icon(extension) is Code <==> (
            extension == "rs"@ || extension == "c"@ || extension == "h"@ ||
            extension == "cpp"@ || extension == "go"@ || extension == "py"@ ||
            extension == "rb"@ || extension == "java"@ || extension == "js"@ ||
            extension == "jsx"@ || extension == "ts"@ || extension == "tsx"@ ||
            extension == "lua"@ || extension == "php"@ || extension == "html"@ ||
            extension == "css"@ || extension == "scss"@ || extension == "json"@),
        extension_icon(extension) !is BrokenLink && extension_icon(extension) !is Folder,
{
    reveal_strlit("sh");
    assert("sh"@.len() == 2 && "sh"@[0] == 's' && "sh"@[1] == 'h');
    reveal_strlit("bash");
    assert("bash"@.len() == 4 && "bash"@[0] == 'b' && "bash"@[1] == 'a' && "bash"@[2] == 's'
        && "bash"@[3] == 'h');
    reveal_strlit("zsh");
    assert("zsh"@.len() == 3 && "zsh"@[0] == 'z' && "zsh"@[1] == 's' && "zsh"@[2] == 'h');
    reveal_strlit("fish");
    assert("fish"@.len() == 4 && "fish"@[0] == 'f' && "fish"@[1] == 'i' && "fish"@[2] == 's'
        && "fish"@[3] == 'h');
    reveal_strlit("png");
    assert("png"@.len() == 3 && "png"@[0] == 'p' && "png"@[1] == 'n' && "png"@[2] == 'g');
    reveal_strlit("jpg");
    assert("jpg"@.len() == 3 && "jpg"@[0] == 'j' && "jpg"@[1] == 'p' && "jpg"@[2] == 'g');
    reveal_strlit("jpeg");
    assert("jpeg"@.len() == 4 && "jpeg"@[0] == 'j' && "jpeg"@[1] == 'p' && "jpeg"@[2] == 'e'
        && "jpeg"@[3] == 'g');
    reveal_strlit("gif");
    assert("gif"@.len() == 3 && "gif"@[0] == 'g' && "gif"@[1] == 'i' && "gif"@[2] == 'f');
    reveal_strlit("webp");
    assert("webp"@.len() == 4 && "webp"@[0] == 'w' && "webp"@[1] == 'e' && "webp"@[2] == 'b'
        && "webp"@[3] == 'p');
    reveal_strlit("svg");
    assert("svg"@.len() == 3 && "svg"@[0] == 's' && "svg"@[1] == 'v' && "svg"@[2] == 'g');
    reveal_strlit("bmp");
    assert("bmp"@.len() == 3 && "bmp"@[0] == 'b' && "bmp"@[1] == 'm' && "bmp"@[2] == 'p');
    reveal_strlit("avif");
    assert("avif"@.len() == 4 && "avif"@[0] == 'a' && "avif"@[1] == 'v' && "avif"@[2] == 'i'
        && "avif"@[3] == 'f');
    reveal_strlit("tif");
    assert("tif"@.len() == 3 && "tif"@[0] == 't' && "tif"@[1] == 'i' && "tif"@[2] == 'f');
    reveal_strlit("tiff");
    assert("tiff"@.len() == 4 && "tiff"@[0] == 't' && "tiff"@[1] == 'i' && "tiff"@[2] == 'f'
        && "tiff"@[3] == 'f');
    reveal_strlit("3fr");
    assert("3fr"@.len() == 3 && "3fr"@[0] == '3' && "3fr"@[1] == 'f' && "3fr"@[2] == 'r');
    reveal_strlit("arw");
    assert("arw"@.len() == 3 && "arw"@[0] == 'a' && "arw"@[1] == 'r' && "arw"@[2] == 'w');
    reveal_strlit("cr2");
    assert("cr2"@.len() == 3 && "cr2"@[0] == 'c' && "cr2"@[1] == 'r' && "cr2"@[2] == '2');
    reveal_strlit("cr3");
    assert("cr3"@.len() == 3 && "cr3"@[0] == 'c' && "cr3"@[1] == 'r' && "cr3"@[2] == '3');
    reveal_strlit("dcr");
    assert("dcr"@.len() == 3 && "dcr"@[0] == 'd' && "dcr"@[1] == 'c' && "dcr"@[2] == 'r');
    reveal_strlit("dng");
    assert("dng"@.len() == 3 && "dng"@[0] == 'd' && "dng"@[1] == 'n' && "dng"@[2] == 'g');
    reveal_strlit("erf");
    assert("erf"@.len() == 3 && "erf"@[0] == 'e' && "erf"@[1] == 'r' && "erf"@[2] == 'f');
    reveal_strlit("kdc");
    assert("kdc"@.len() == 3 && "kdc"@[0] == 'k' && "kdc"@[1] == 'd' && "kdc"@[2] == 'c');
    reveal_strlit("mef");
    assert("mef"@.len() == 3 && "mef"@[0] == 'm' && "mef"@[1] == 'e' && "mef"@[2] == 'f');
    reveal_strlit("mos");
    assert("mos"@.len() == 3 && "mos"@[0] == 'm' && "mos"@[1] == 'o' && "mos"@[2] == 's');
    reveal_strlit("mrw");
    assert("mrw"@.len() == 3 && "mrw"@[0] == 'm' && "mrw"@[1] == 'r' && "mrw"@[2] == 'w');
    reveal_strlit("nef");
    assert("nef"@.len() == 3 && "nef"@[0] == 'n' && "nef"@[1] == 'e' && "nef"@[2] == 'f');
    reveal_strlit("nrw");
    assert("nrw"@.len() == 3 && "nrw"@[0] == 'n' && "nrw"@[1] == 'r' && "nrw"@[2] == 'w');
    reveal_strlit("orf");
    assert("orf"@.len() == 3 && "orf"@[0] == 'o' && "orf"@[1] == 'r' && "orf"@[2] == 'f');
    reveal_strlit("pef");
    assert("pef"@.len() == 3 && "pef"@[0] == 'p' && "pef"@[1] == 'e' && "pef"@[2] == 'f');
    reveal_strlit("raf");
    assert("raf"@.len() == 3 && "raf"@[0] == 'r' && "raf"@[1] == 'a' && "raf"@[2] == 'f');
    reveal_strlit("raw");
    assert("raw"@.len() == 3 && "raw"@[0] == 'r' && "raw"@[1] == 'a' && "raw"@[2] == 'w');
    reveal_strlit("rw2");
    assert("rw2"@.len() == 3 && "rw2"@[0] == 'r' && "rw2"@[1] == 'w' && "rw2"@[2] == '2');
    reveal_strlit("rwl");
    assert("rwl"@.len() == 3 && "rwl"@[0] == 'r' && "rwl"@[1] == 'w' && "rwl"@[2] == 'l');
    reveal_strlit("sr2");
    assert("sr2"@.len() == 3 && "sr2"@[0] == 's' && "sr2"@[1] == 'r' && "sr2"@[2] == '2');
    reveal_strlit("srf");
    assert("srf"@.len() == 3 && "srf"@[0] == 's' && "srf"@[1] == 'r' && "srf"@[2] == 'f');
    reveal_strlit("srw");
    assert("srw"@.len() == 3 && "srw"@[0] == 's' && "srw"@[1] == 'r' && "srw"@[2] == 'w');
    reveal_strlit("x3f");
    assert("x3f"@.len() == 3 && "x3f"@[0] == 'x' && "x3f"@[1] == '3' && "x3f"@[2] == 'f');
    reveal_strlit("mp4");
    assert("mp4"@.len() == 3 && "mp4"@[0] == 'm' && "mp4"@[1] == 'p' && "mp4"@[2] == '4');
    reveal_strlit("mkv");
    assert("mkv"@.len() == 3 && "mkv"@[0] == 'm' && "mkv"@[1] == 'k' && "mkv"@[2] == 'v');
    reveal_strlit("webm");
    assert("webm"@.len() == 4 && "webm"@[0] == 'w' && "webm"@[1] == 'e' && "webm"@[2] == 'b'
        && "webm"@[3] == 'm');
    reveal_strlit("mov");
    assert("mov"@.len() == 3 && "mov"@[0] == 'm' && "mov"@[1] == 'o' && "mov"@[2] == 'v');
    reveal_strlit("avi");
    assert("avi"@.len() == 3 && "avi"@[0] == 'a' && "avi"@[1] == 'v' && "avi"@[2] == 'i');
    reveal_strlit("m4v");
    assert("m4v"@.len() == 3 && "m4v"@[0] == 'm' && "m4v"@[1] == '4' && "m4v"@[2] == 'v');
    reveal_strlit("zip");
    assert("zip"@.len() == 3 && "zip"@[0] == 'z' && "zip"@[1] == 'i' && "zip"@[2] == 'p');
    reveal_strlit("tar");
    assert("tar"@.len() == 3 && "tar"@[0] == 't' && "tar"@[1] == 'a' && "tar"@[2] == 'r');
    reveal_strlit("gz");
    assert("gz"@.len() == 2 && "gz"@[0] == 'g' && "gz"@[1] == 'z');
    reveal_strlit("bz2");
    assert("bz2"@.len() == 3 && "bz2"@[0] == 'b' && "bz2"@[1] == 'z' && "bz2"@[2] == '2');
    reveal_strlit("xz");
    assert("xz"@.len() == 2 && "xz"@[0] == 'x' && "xz"@[1] == 'z');
    reveal_strlit("7z");
    assert("7z"@.len() == 2 && "7z"@[0] == '7' && "7z"@[1] == 'z');
    reveal_strlit("rar");
    assert("rar"@.len() == 3 && "rar"@[0] == 'r' && "rar"@[1] == 'a' && "rar"@[2] == 'r');
    reveal_strlit("zst");
    assert("zst"@.len() == 3 && "zst"@[0] == 'z' && "zst"@[1] == 's' && "zst"@[2] == 't');
    reveal_strlit("rs");
    assert("rs"@.len() == 2 && "rs"@[0] == 'r' && "rs"@[1] == 's');
    reveal_strlit("c");
    assert("c"@.len() == 1 && "c"@[0] == 'c');
    reveal_strlit("h");
    assert("h"@.len() == 1 && "h"@[0] == 'h');
    reveal_strlit("cpp");
    assert("cpp"@.len() == 3 && "cpp"@[0] == 'c' && "cpp"@[1] == 'p' && "cpp"@[2] == 'p');
    reveal_strlit("go");
    assert("go"@.len() == 2 && "go"@[0] == 'g' && "go"@[1] == 'o');
    reveal_strlit("py");
    assert("py"@.len() == 2 && "py"@[0] == 'p' && "py"@[1] == 'y');
    reveal_strlit("rb");
    assert("rb"@.len() == 2 && "rb"@[0] == 'r' && "rb"@[1] == 'b');
    reveal_strlit("java");
    assert("java"@.len() == 4 && "java"@[0] == 'j' && "java"@[1] == 'a' && "java"@[2] == 'v'
        && "java"@[3] == 'a');
    reveal_strlit("js");
    assert("js"@.len() == 2 && "js"@[0] == 'j' && "js"@[1] == 's');
    reveal_strlit("jsx");
    assert("jsx"@.len() == 3 && "jsx"@[0] == 'j' && "jsx"@[1] == 's' && "jsx"@[2] == 'x');
    reveal_strlit("ts");
    assert("ts"@.len() == 2 && "ts"@[0] == 't' && "ts"@[1] == 's');
    reveal_strlit("tsx");
    assert("tsx"@.len() == 3 && "tsx"@[0] == 't' && "tsx"@[1] == 's' && "tsx"@[2] == 'x');
    reveal_strlit("lua");
    assert("lua"@.len() == 3 && "lua"@[0] == 'l' && "lua"@[1] == 'u' && "lua"@[2] == 'a');
    reveal_strlit("php");
    assert("php"@.len() == 3 && "php"@[0] == 'p' && "php"@[1] == 'h' && "php"@[2] == 'p');
    reveal_strlit("html");
    assert("html"@.len() == 4 && "html"@[0] == 'h' && "html"@[1] == 't' && "html"@[2] == 'm'
        && "html"@[3] == 'l');
    reveal_strlit("css");
    assert("css"@.len() == 3 && "css"@[0] == 'c' && "css"@[1] == 's' && "css"@[2] == 's');
    reveal_strlit("scss");
    assert("scss"@.len() == 4 && "scss"@[0] == 's' && "scss"@[1] == 'c' && "scss"@[2] == 's'
        && "scss"@[3] == 's');
    reveal_strlit("json");
    assert("json"@.len() == 4 && "json"@[0] == 'j' && "json"@[1] == 's' && "json"@[2] == 'o'
        && "json"@[3] == 'n');
}

} // verus!
