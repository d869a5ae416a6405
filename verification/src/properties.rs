//! The properties of an entry or of the folder in view.

use crate::entry::{
    entry_icon, item_count_label, items_label, FileEntry, Icon, MetadataValue, PinStatus,
};
use crate::location::{is_trash_location, is_trash_root, Location, LocationView};
use crate::paths::{compact_display_path, compacted};
use crate::text::starts_with_text;
use crate::trash::{measured_as, measured_text, TrashSummary};
use vstd::prelude::*;

verus! {

/// What is told of a size.
#[derive(Clone, Copy, Debug, PartialEq, Eq, Structural)]
pub enum SizeText {
    Calculating,
    Bytes(u64),
    /// The bytes of the trash; at least so many where it was not measured to the end.
    Measured { bytes: u64, at_least: bool },
    Unknown,
    /// The trash could not be measured.
    Unavailable,
}

/// What is told of the time something was last changed.
#[derive(Debug)]
pub enum ModifiedText {
    /// A dash.
    Unknown,
    /// The time, in seconds since 1970.
    At(u64),
    /// The time, as the file system told it.
    Told(String),
}

/// What the properties show, and what can be done from them.
#[derive(Debug)]
pub struct PropertiesView {
    pub name: String,
    pub icon: Icon,
    pub is_directory: bool,
    pub kind: String,
    pub location: String,
    pub location_tooltip: String,
    pub size: SizeText,
    pub size_tooltip: Option<String>,
    pub modified: ModifiedText,
    pub opens_with: String,
    pub is_hidden: bool,
    pub is_pinned: bool,
    pub owner: String,
    pub group: String,
    pub executable_visible: bool,
    pub open_visible: bool,
    pub rename_sensitive: bool,
    pub pin_visible: bool,
    pub pin_sensitive: bool,
    pub measures_trash: bool,
}

/// What the window knows beside the location whose properties are shown.
#[derive(Debug)]
pub struct PropertiesContext {
    pub display_name: String,
    pub display_path: String,
    pub home: String,
    pub interactive: bool,
    pub selected_count: usize,
    pub pin_status: Option<PinStatus>,
    pub has_pin_handler: bool,
}

/// Whether the properties are those of a directory: the folder in view always is one.
pub open spec fn shows_directory(entry: Option<&FileEntry>) -> bool {
    match entry {
        Some(entry) => entry.kind.is_directory(),
        None => true,
    }
}

/// The name that the properties show.
pub open spec fn shown_name(entry: Option<&FileEntry>, display_name: Seq<char>) -> Seq<char> {
    match entry {
        Some(entry) => entry.display_name@,
        None => display_name,
    }
}

/// The size that the properties show at first: that of the trash has to be measured.
pub open spec fn initial_size(location: LocationView, entry: Option<&FileEntry>) -> SizeText {
    if location.is_trash_root() {
        SizeText::Calculating
    } else {
        match entry {
            Some(entry) => match entry.size {
                MetadataValue::Known(size) => SizeText::Bytes(size),
                _ => SizeText::Unknown,
            },
            None => SizeText::Unknown,
        }
    }
}

/// The time that the properties show at first: that of the entry, where it is known.
pub open spec fn initial_modified(entry: Option<&FileEntry>) -> ModifiedText {
    match entry {
        Some(entry) => match entry.modified_unix_seconds {
            MetadataValue::Known(seconds) => ModifiedText::At(seconds),
            _ => ModifiedText::Unknown,
        },
        None => ModifiedText::Unknown,
    }
}

/// What the properties show at first, from what is known without asking the file system.
pub fn show_properties(location: &Location, entry: Option<&FileEntry>, context: &PropertiesContext)
    -> (result: PropertiesView)
    ensures
        result.name@ == shown_name(entry, context.display_name@),
        result.is_directory == shows_directory(entry),
        result.icon == match entry {
            Some(entry) => if entry.kind is SymbolicLink {
                Icon::BrokenLink
            } else if entry.kind.is_directory() {
                Icon::Folder
            } else {
                crate::entry::name_icon(entry.display_name@)
            },
            None => Icon::Folder,
        },
        result.kind@ == if shows_directory(entry) {
            "Folder"@
        } else {
            "File"@
        },
        result.location@ == match location@ {
            LocationView::Native(path) => compacted(path, context.home@),
            LocationView::Uri(_) => context.display_path@,
        },
        result.location_tooltip@ == context.display_path@,
        result.size == initial_size(location@, entry),
        result.measures_trash == location@.is_trash_root(),
        result.size_tooltip is None,
        result.modified == initial_modified(entry),
        result.opens_with@ == "—"@,
        result.owner@ == "—"@,
        result.group@ == "—"@,
        result.is_hidden == "."@.is_prefix_of(shown_name(entry, context.display_name@)),
        result.is_pinned == (context.pin_status == Some(PinStatus::Pinned)),
        result.executable_visible == !shows_directory(entry),
        result.open_visible == context.interactive,
        result.pin_visible == context.interactive,
        result.rename_sensitive == (entry is Some && (context.interactive || context.selected_count
            == 1)),
        result.pin_sensitive == (shows_directory(entry) && !location@.in_trash()
            && context.has_pin_handler && context.pin_status == Some(PinStatus::Available)),
{
    let is_directory: bool = match entry {
        Some(entry) => entry.is_directory(),
        None => true,
    };
    let name: String = match entry {
        Some(entry) => entry.display_name.clone(),
        None => context.display_name.clone(),
    };
    let icon: Icon = match entry {
        Some(entry) => entry_icon(entry),
        None => Icon::Folder,
    };
    let measures_trash: bool = is_trash_root(location);
    let size: SizeText = if measures_trash {
        SizeText::Calculating
    } else {
        match entry {
            Some(entry) => match entry.size {
                MetadataValue::Known(size) => SizeText::Bytes(size),
                _ => SizeText::Unknown,
            },
            None => SizeText::Unknown,
        }
    };
    let modified: ModifiedText = match entry {
        Some(entry) => match entry.modified_unix_seconds {
            MetadataValue::Known(seconds) => ModifiedText::At(seconds),
            _ => ModifiedText::Unknown,
        },
        None => ModifiedText::Unknown,
    };
    let is_hidden: bool = starts_with_text(name.as_str(), ".");
    let is_available: bool = match context.pin_status {
        Some(PinStatus::Available) => true,
        _ => false,
    };
    let is_pinned: bool = match context.pin_status {
        Some(PinStatus::Pinned) => true,
        _ => false,
    };
    let renameable: bool = entry.is_some() && (context.interactive || context.selected_count == 1);
    PropertiesView {
        name,
        icon,
        is_directory,
        kind: if is_directory {
            "Folder".to_owned()
        } else {
            "File".to_owned()
        },
        location: compact_display_path(
            location,
            context.display_path.as_str(),
            context.home.as_str(),
        ),
        location_tooltip: context.display_path.clone(),
        size,
        size_tooltip: None,
        modified,
        opens_with: "—".to_owned(),
        is_hidden,
        is_pinned,
        owner: "—".to_owned(),
        group: "—".to_owned(),
        executable_visible: !is_directory,
        open_visible: context.interactive,
        rename_sensitive: renameable,
        pin_visible: context.interactive,
        pin_sensitive: is_directory && !is_trash_location(location) && context.has_pin_handler
            && is_available,
        measures_trash,
    }
}

/// What the file system tells of a file.
#[derive(Debug)]
pub struct FileFacts {
    pub size: i64,
    pub modified: Option<String>,
    pub is_hidden: bool,
    pub description: Option<String>,
    pub application: Option<String>,
    pub owner: Option<String>,
    pub group: Option<String>,
}

/// The text, or a dash where there is none.
pub open spec fn or_dash(text: Option<String>) -> Seq<char> {
    match text {
        Some(text) => text@,
        None => "—"@,
    }
}

fn text_or_dash(text: Option<String>) -> (result: String)
    ensures
        result@ == or_dash(text),
{
    match text {
        Some(text) => text,
        None => "—".to_owned(),
    }
}

impl PropertiesView {
    /// Takes what the file system tells. The size of a directory is not that of its contents, and
    /// stays; what is not told stays as well, but for the owners.
    pub fn facts_loaded(&mut self, facts: FileFacts)
        ensures
            final(self).name == old(self).name,
            final(self).icon == old(self).icon,
            final(self).is_directory == old(self).is_directory,
            final(self).location == old(self).location,
            final(self).location_tooltip == old(self).location_tooltip,
            final(self).executable_visible == old(self).executable_visible,
            final(self).open_visible == old(self).open_visible,
            final(self).pin_visible == old(self).pin_visible,
            final(self).measures_trash == old(self).measures_trash,
            final(self).is_pinned == old(self).is_pinned,
            final(self).pin_sensitive == old(self).pin_sensitive,
            final(self).rename_sensitive == old(self).rename_sensitive,
            final(self).size == if old(self).is_directory {
                old(self).size
            } else {
                SizeText::Bytes(
                    if facts.size > 0 {
                        facts.size as u64
                    } else {
                        0
                    },
                )
            },
            final(self).size_tooltip == old(self).size_tooltip,
            final(self).modified == match facts.modified {
                Some(text) => ModifiedText::Told(text),
                None => old(self).modified,
            },
            final(self).is_hidden == facts.is_hidden,
            final(self).kind@ == match facts.description {
                Some(text) => text@,
                None => old(self).kind@,
            },
            final(self).opens_with@ == match facts.application {
                Some(text) => if facts.description is Some {
                    text@
                } else {
                    old(self).opens_with@
                },
                None => old(self).opens_with@,
            },
            final(self).owner@ == or_dash(facts.owner),
            final(self).group@ == or_dash(facts.group),
    {
        if !self.is_directory {
            self.size = SizeText::Bytes(
                if facts.size > 0 {
                    facts.size as u64
                } else {
                    0
                },
            );
        }
        match facts.modified {
            Some(text) => {
                self.modified = ModifiedText::Told(text);
            },
            None => {},
        }
        self.is_hidden = facts.is_hidden;
        match facts.description {
            Some(text) => {
                self.kind = text;
                match facts.application {
                    Some(application) => {
                        self.opens_with = application;
                    },
                    None => {},
                }
            },
            None => {},
        }
        self.owner = text_or_dash(facts.owner);
        self.group = text_or_dash(facts.group);
    }

    /// Takes what was measured of the trash, or that it could not be measured. The number of items
    /// is told beside the size; both are marked where there may be more.
    pub fn trash_measured(&mut self, summary: Option<TrashSummary>)
        ensures
            match summary {
                Some(summary) => {
                    &&& final(self).size == (SizeText::Measured {
                        bytes: summary.total_size,
                        at_least: summary.truncated,
                    })
                    &&& final(self).size_tooltip matches Some(text)
                    &&& text@ == measured_as(summary, items_label(summary.item_count as nat))
                },
                None => {
                    &&& final(self).size is Unavailable
                    &&& final(self).size_tooltip == old(self).size_tooltip
                },
            },
            *final(self) == (PropertiesView {
                size: final(self).size,
                size_tooltip: final(self).size_tooltip,
                ..*old(self)
            }),
    {
        match summary {
            Some(summary) => {
                let items: String = item_count_label(summary.item_count);
                self.size_tooltip = Some(measured_text(summary, items.as_str()));
                self.size = SizeText::Measured {
                    bytes: summary.total_size,
                    at_least: summary.truncated,
                };
            },
            None => {
                self.size = SizeText::Unavailable;
            },
        }
    }
}

/// Properties are those of the entry where there is one, and otherwise those of the folder in view,
/// which is a directory. What is not known of it is left open.
pub proof fn law_properties_are_of_the_entry_or_the_folder(
    location: LocationView,
    entry: &FileEntry,
    display_name: Seq<char>,
)
    ensures
        shows_directory(None),
        shows_directory(Some(entry)) <==> entry.kind is Directory || entry.kind
            is DirectorySymbolicLink,
        shown_name(None, display_name) == display_name,
        shown_name(Some(entry), display_name) == entry.display_name@,
        location.is_trash_root() ==> initial_size(location, None) is Calculating && initial_size(
            location,
            Some(entry),
        ) is Calculating,
        !location.is_trash_root() ==> initial_size(location, None) is Unknown,
        !location.is_trash_root() && entry.size is Known ==> initial_size(location, Some(entry))
            == SizeText::Bytes(entry.size->Known_0),
        !location.is_trash_root() && entry.size !is Known ==> initial_size(location, Some(entry))
            is Unknown,
        initial_modified(None) is Unknown,
        entry.modified_unix_seconds is Known ==> initial_modified(Some(entry)) == ModifiedText::At(
            entry.modified_unix_seconds->Known_0,
        ),
        entry.modified_unix_seconds !is Known ==> initial_modified(Some(entry)) is Unknown,
{
}

/// What is not told is shown as a dash, and anything else as it is told.
pub proof fn law_untold_facts_are_dashes(text: String)
    ensures
        or_dash(Some(text)) == text@,
        or_dash(None) == seq!['—'],
{
    reveal_strlit("—");
    assert("—"@ =~= seq!['—']);
}

} // verus!
