use vstd::prelude::*;
use crate::browser::all_names;
use crate::errors::{ConfigError, ConfigErrorCode, parse_failed_message};
use crate::station::{Station, StationView, sentinel_view};
use crate::version::{Version, version_spec};

verus! {

/// A configuration as it is read from its file, before its version is checked
/// and the catalog is completed.
pub struct ConfigFile {
    pub config_version: String,
    pub max_lines: Option<usize>,
    pub country_code: Option<String>,
    pub data: Vec<Station>,
}

/// The run's configuration: the catalog of stations and the settings for the
/// interactive lists and remote queries.
pub struct Config {
    pub config_version: Version,
    pub max_lines: Option<usize>,
    pub country_code: Option<String>,
    pub data: Vec<Station>,
}

/// The name and address of each station, in order.
pub open spec fn views_of(stations: Seq<Station>) -> Seq<StationView> {
    stations.map_values(|s: Station| s@)
}

/// Entry `v` is a station named `name`; the reserved "Other" entry is none.
pub open spec fn is_playable_named(v: StationView, name: Seq<char>) -> bool {
    v.name == name && v != sentinel_view()
}

/// Entry `i` is the first station in `cat` named `name`.
pub open spec fn first_named(cat: Seq<StationView>, name: Seq<char>, i: int) -> bool {
    &&& 0 <= i < cat.len()
    &&& is_playable_named(cat[i], name)
    &&& forall|j: int| 0 <= j < i ==> !is_playable_named(#[trigger] cat[j], name)
}

/// The address of the first station of `cat` named `name`, if any; the reserved
/// "Other" entry is never found.
pub open spec fn url_for_spec(cat: Seq<StationView>, name: Seq<char>) -> Option<Seq<char>> {
    if exists|i: int| first_named(cat, name, i) {
        Some(cat[choose|i: int| first_named(cat, name, i)].url)
    } else {
        None
    }
}

proof fn lemma_first_named_unique(cat: Seq<StationView>, name: Seq<char>, i: int, k: int)
    requires
        first_named(cat, name, i),
        first_named(cat, name, k),
    ensures
        i == k,
{
    if i < k {
        assert(!is_playable_named(cat[i], name));
    } else if k < i {
        assert(!is_playable_named(cat[k], name));
    }
}

impl Config {
    /// The catalog: name and address of each station, the reserved entry included.
    pub open spec fn catalog(&self) -> Seq<StationView> {
        views_of(self.data@)
    }

    /// The catalog ends with the reserved "Other" entry.
    pub open spec fn wf(&self) -> bool {
        &&& self.data@.len() >= 1
        &&& self.catalog().last() == sentinel_view()
    }

    /// Completes a configuration read from its file: reads its version and appends
    /// the reserved "Other" entry to the stations it lists. Fails, with
    /// `ParseError`, exactly when the version text is not "major.minor.patch".
    pub fn from_file(file: ConfigFile) -> (r: Result<Config, ConfigError>)
        ensures
            r is Ok <==> version_spec(file.config_version@) is Some,
            r matches Ok(c) ==> {
                &&& Some(c.config_version) == version_spec(file.config_version@)
                &&& c.max_lines == file.max_lines
                &&& c.country_code.deep_view() == file.country_code.deep_view()
                &&& c.catalog() == views_of(file.data@).push(sentinel_view())
                &&& c.wf()
            },
            r matches Err(e) ==> e.code == ConfigErrorCode::ParseError && e.message@
                == parse_failed_message(),
    {
        let ConfigFile { config_version, max_lines, country_code, data } = file;
        let version = match Version::from(config_version) {
            Some(v) => v,
            None => {
                return Err(ConfigError::parse_failed(String::from_str("could not parse version")));
            },
        };
        let mut data = data;
        let ghost before = data@;
        data.push(Station::other());
        assert(views_of(data@) =~= views_of(before).push(sentinel_view()));
        Ok(Config { config_version: version, max_lines, country_code, data })
    }

    /// The address of the first catalog station named `station_name`; the reserved
    /// "Other" entry is not a station and is never found.
    pub fn get_url_for(&self, station_name: &str) -> (r: Option<String>)
        ensures
            r.deep_view() == url_for_spec(self.catalog(), station_name@),
    {
        let key = String::from_str(station_name);
        let mut i: usize = 0;
        while i < self.data.len()
            invariant
                i <= self.data@.len(),
                key@ == station_name@,
                forall|j: int| 0 <= j < i ==> !is_playable_named(#[trigger] self.catalog()[j], key@),
            decreases self.data.len() - i,
        {
            if self.data[i].station == key && !self.data[i].is_other() {
                let url = self.data[i].url.clone();
                proof {
                    let cat = self.catalog();
                    assert(first_named(cat, key@, i as int));
                    let k = choose|k: int| first_named(cat, key@, k);
                    lemma_first_named_unique(cat, key@, i as int, k);
                }
                return Some(url);
            }
            i = i + 1;
        }
        proof {
            let cat = self.catalog();
            assert forall|k: int| !first_named(cat, station_name@, k) by {
                if 0 <= k < cat.len() {
                    assert(!is_playable_named(cat[k], station_name@));
                }
            }
        }
        None
    }

    /// The names of all catalog entries, in order.
    pub fn catalog_names(&self) -> (r: Vec<String>)
        ensures
            r@.map_values(|s: String| s@) == all_names(self.catalog()),
    {
        let mut names: Vec<String> = Vec::new();
        let mut i: usize = 0;
        while i < self.data.len()
            invariant
                i <= self.data@.len(),
                names@.len() == i,
                forall|j: int| 0 <= j < i ==> #[trigger] names@[j]@ == self.catalog()[j].name,
            decreases self.data.len() - i,
        {
            names.push(self.data[i].station.clone());
            i = i + 1;
        }
        assert(names@.map_values(|s: String| s@) =~= all_names(self.catalog()));
        names
    }

    /// The names of all catalog entries, in order; consumes the configuration.
    pub fn get_all_stations(self) -> (r: Vec<String>)
        ensures
            r@.map_values(|s: String| s@) == all_names(self.catalog()),
    {
        self.catalog_names()
    }

    /// The same configuration with its country filter replaced by `code` where one
    /// is given; the catalog and the other settings stay as they are.
    pub fn with_country_code(self, code: Option<String>) -> (r: Config)
        ensures
            r.country_code.deep_view() == (match code {
                Some(c) => Some(c@),
                None => self.country_code.deep_view(),
            }),
            r.config_version == self.config_version,
            r.max_lines == self.max_lines,
            r.catalog() == self.catalog(),
            self.wf() ==> r.wf(),
    {
        let Config { config_version, max_lines, country_code, data } = self;
        let country_code = match code {
            Some(c) => Some(c),
            None => country_code,
        };
        Config { config_version, max_lines, country_code, data }
    }
}

} // verus!
