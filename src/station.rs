use vstd::prelude::*;

verus! {

/// A named stream address that can be handed to the player.
#[derive(Debug, Clone)]
pub struct Station {
    pub station: String,
    pub url: String,
}

/// The mathematical content of a station: its name and its address.
pub struct StationView {
    pub name: Seq<char>,
    pub url: Seq<char>,
}

impl View for Station {
    type V = StationView;

    open spec fn view(&self) -> StationView {
        StationView { name: self.station@, url: self.url@ }
    }
}

/// The name of the catalog entry that stands for "search the remote directory".
pub open spec fn other_name() -> Seq<char> {
    "Other"@
}

/// The name given to a station built from an address passed on the command line.
pub open spec fn url_station_name() -> Seq<char> {
    "URL"@
}

/// The reserved catalog entry: named "Other", with an empty address.
pub open spec fn sentinel_view() -> StationView {
    StationView { name: other_name(), url: Seq::empty() }
}

impl Station {
    pub fn new(station: String, url: String) -> (r: Station)
        ensures
            r.station@ == station@,
            r.url@ == url@,
    {
        Station { station, url }
    }

    /// The reserved "Other" entry that ends every catalog.
    pub fn other() -> (r: Station)
        ensures
            r@ == sentinel_view(),
    {
        Station { station: String::from_str("Other"), url: String::new() }
    }

    /// A station for an address given directly: it is named "URL".
    pub fn from_url(url: String) -> (r: Station)
        ensures
            r@ == (StationView { name: url_station_name(), url: url@ }),
    {
        Station { station: String::from_str("URL"), url }
    }

    /// Whether this is the reserved "Other" entry.
    pub fn is_other(&self) -> (r: bool)
        ensures
            r == (self@ == sentinel_view()),
    {
        let other = String::from_str("Other");
        let empty = String::new();
        self.station == other && self.url == empty
    }

    /// An independent copy with the same name and address.
    pub fn copied(&self) -> (r: Station)
        ensures
            r@ == self@,
    {
        Station { station: self.station.clone(), url: self.url.clone() }
    }

    /// The text shown for this station in lists: its name.
    pub fn display(&self) -> (r: String)
        ensures
            r@ == self.station@,
    {
        self.station.clone()
    }
}

} // verus!
