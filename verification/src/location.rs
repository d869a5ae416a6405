//! Where things are: native paths and URIs, and what the browser derives from them.

use crate::paths::{path_parts, same_path};
use crate::text::{same_text, starts_with_text};
use vstd::prelude::*;

verus! {

/// A place that the browser can show: a path of the local file system, or a URI.
#[derive(Debug)]
pub enum Location {
    Native(String),
    Uri(String),
}

/// What a [`Location`] says, over the characters of its text.
pub enum LocationView {
    Native(Seq<char>),
    Uri(Seq<char>),
}

impl View for Location {
    type V = LocationView;

    open spec fn view(&self) -> LocationView {
        match self {
            Location::Native(path) => LocationView::Native(path@),
            Location::Uri(uri) => LocationView::Uri(uri@),
        }
    }
}

/// What a [`Location`] stands for. A path may be written in more than one way: its components count.
pub enum Place {
    Native(Seq<Seq<char>>),
    Uri(Seq<char>),
}

impl LocationView {
    /// What the location stands for.
    pub open spec fn place(self) -> Place {
        match self {
            LocationView::Native(path) => Place::Native(path_parts(path)),
            LocationView::Uri(uri) => Place::Uri(uri),
        }
    }

    /// Whether the location lies in the trash.
    pub open spec fn in_trash(self) -> bool {
        self matches LocationView::Uri(uri) && "trash:"@.is_prefix_of(uri)
    }

    /// Whether the location is the trash itself.
    pub open spec fn is_trash_root(self) -> bool {
        self == LocationView::Uri("trash:///"@)
    }
}

/// The views of a list of locations.
pub open spec fn location_views(locations: Seq<Location>) -> Seq<LocationView> {
    locations.map_values(|location: Location| location@)
}

/// What the locations of a list stand for.
pub open spec fn places(locations: Seq<Location>) -> Seq<Place> {
    locations.map_values(|location: Location| location@.place())
}

impl Location {
    /// The location of a path of the local file system.
    pub fn local(path: &str) -> (result: Self)
        ensures
            result@ == LocationView::Native(path@),
    {
        Location::Native(path.to_owned())
    }

    /// The location of a URI.
    pub fn uri(uri: &str) -> (result: Self)
        ensures
            result@ == LocationView::Uri(uri@),
    {
        Location::Uri(uri.to_owned())
    }

    /// The same location once more.
    pub fn duplicate(&self) -> (result: Self)
        ensures
            result == *self,
    {
        match self {
            Location::Native(path) => Location::Native(path.clone()),
            Location::Uri(uri) => Location::Uri(uri.clone()),
        }
    }

    /// Whether both locations are equal: the same URI, or paths of the same components.
    pub fn same_as(&self, other: &Location) -> (result: bool)
        ensures
            result == (self@.place() == other@.place()),
    {
        match (self, other) {
            (Location::Native(left), Location::Native(right)) => {
                same_path(left.as_str(), right.as_str())
            },
            (Location::Uri(left), Location::Uri(right)) => *left == *right,
            _ => false,
        }
    }

    /// The path, for a location of the local file system.
    pub fn native_path(&self) -> (result: Option<&str>)
        ensures
            match result {
                Some(path) => self@ == LocationView::Native(path@),
                None => self@ is Uri,
            },
    {
        match self {
            Location::Native(path) => Some(path.as_str()),
            Location::Uri(_) => None,
        }
    }

    /// The URI, for a location that is given by one.
    pub fn uri_value(&self) -> (result: Option<&str>)
        ensures
            match result {
                Some(uri) => self@ == LocationView::Uri(uri@),
                None => self@ is Native,
            },
    {
        match self {
            Location::Native(_) => None,
            Location::Uri(uri) => Some(uri.as_str()),
        }
    }
}

/// Whether a location is in the list.
pub fn contains_location(locations: &Vec<Location>, location: &Location) -> (result: bool)
    ensures
        result == places(locations@).contains(location@.place()),
{
    let mut i: usize = 0;
    while i < locations.len()
        invariant
            i <= locations@.len(),
            forall|k: int| 0 <= k < i ==> (#[trigger] locations@[k])@.place() != location@.place(),
        decreases locations@.len() - i,
    {
        if locations[i].same_as(location) {
            assert(places(locations@)[i as int] == location@.place());
            return true;
        }
        i = i + 1;
    }
    assert forall|k: int| 0 <= k < places(locations@).len() implies places(locations@)[k]
        != location@.place() by {
        assert(locations@[k]@.place() != location@.place());
    }
    false
}

/// The same locations once more.
pub fn duplicate_locations(locations: &Vec<Location>) -> (result: Vec<Location>)
    ensures
        result@ == locations@,
{
    let mut result: Vec<Location> = Vec::new();
    let mut i: usize = 0;
    while i < locations.len()
        invariant
            i <= locations@.len(),
            result@ == locations@.take(i as int),
        decreases locations@.len() - i,
    {
        result.push(locations[i].duplicate());
        i = i + 1;
        assert(locations@.take(i as int) == locations@.take(i - 1).push(locations@[i - 1]));
    }
    assert(locations@.take(i as int) == locations@);
    result
}

/// Whether the location is the trash itself.
pub fn is_trash_root(location: &Location) -> (result: bool)
    ensures
        result == location@.is_trash_root(),
{
    match location.uri_value() {
        Some(uri) => same_text(uri, "trash:///"),
        None => false,
    }
}

/// Whether the location lies in the trash.
pub fn is_trash_location(location: &Location) -> (result: bool)
    ensures
        result == location@.in_trash(),
{
    match location.uri_value() {
        Some(uri) => starts_with_text(uri, "trash:"),
        None => false,
    }
}

/// Whether a terminal can be opened at the location.
pub fn can_open_terminal(location: &Location) -> (result: bool)
    ensures
        result == (location@ is Native && !location@.in_trash()),
{
    location.native_path().is_some() && !is_trash_location(location)
}

/// The trash itself lies in the trash, and no native path does.
pub proof fn law_trash_is_never_native(location: LocationView)
    ensures
        location.is_trash_root() ==> location.in_trash(),
        location is Native ==> !location.in_trash(),
{
    reveal_strlit("trash:");
    reveal_strlit("trash:///");
    assert("trash:"@.is_prefix_of("trash:///"@));
}

/// A location lies in the trash exactly where it is a URI that goes on from `trash:`, and is the trash
/// itself where nothing but the root follows.
pub proof fn law_trash_is_known_by_its_scheme(uri: Seq<char>)
    ensures
        LocationView::Uri(uri).in_trash() <==> exists|rest: Seq<char>|
            uri == #[trigger] ("trash:"@ + rest),
        LocationView::Uri(uri).is_trash_root() <==> uri == "trash:"@ + "///"@,
        !LocationView::Native(uri).is_trash_root(),
{
    reveal_strlit("trash:");
    reveal_strlit("trash:///");
    reveal_strlit("///");
    let scheme = "trash:"@;
    assert("trash:///"@ =~= scheme + "///"@);
    if "trash:"@.is_prefix_of(uri) {
        assert(uri =~= scheme + uri.skip(6));
    }
    if exists|rest: Seq<char>| uri == #[trigger] (scheme + rest) {
        let rest = choose|rest: Seq<char>| uri == #[trigger] (scheme + rest);
        assert(uri.take(6) =~= scheme);
    }
}

/// Two locations stand for the same place where they are the same URI, or paths of the same
/// components; a path and a URI never do.
pub proof fn law_places_are_told_apart(left: Seq<char>, right: Seq<char>)
    ensures
        LocationView::Uri(left).place() == LocationView::Uri(right).place() <==> left == right,
        LocationView::Native(left).place() == LocationView::Native(right).place() <==> path_parts(
            left,
        ) == path_parts(right),
        LocationView::Native(left).place() != LocationView::Uri(right).place(),
{
}

/// The places of a list are those of its locations, in order.
pub proof fn law_places_follow_the_list(locations: Seq<Location>, i: int)
    requires
        0 <= i < locations.len(),
    ensures
        places(locations).len() == locations.len(),
        location_views(locations).len() == locations.len(),
        places(locations)[i] == locations[i]@.place(),
        location_views(locations)[i] == locations[i]@,
        locations[i] matches Location::Native(path) ==> locations[i]@ == LocationView::Native(path@),
        locations[i] matches Location::Uri(uri) ==> locations[i]@ == LocationView::Uri(uri@),
{
}

} // verus!
