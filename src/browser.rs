use std::rc::Rc;
use vstd::prelude::*;
use crate::station::{Station, StationView};
use crate::text::{lemma_empty_occurs, lower_of, matches_folded, occurs_in, to_lower};

verus! {

/// A station as the remote directory lists it: the fields that the player needs.
#[derive(Debug, Clone)]
pub struct RemoteStation {
    pub name: String,
    pub url: String,
}

impl View for RemoteStation {
    type V = StationView;

    open spec fn view(&self) -> StationView {
        StationView { name: self.name@, url: self.url@ }
    }
}

impl RemoteStation {
    pub fn new(name: String, url: String) -> (r: RemoteStation)
        ensures
            r.name@ == name@,
            r.url@ == url@,
    {
        RemoteStation { name, url }
    }
}

/// A shared, read-only snapshot of the remote directory's stations.
pub type StationCache = Rc<Vec<RemoteStation>>;

/// The name and address of each remote station, in order.
pub open spec fn remote_views(s: Seq<RemoteStation>) -> Seq<StationView> {
    s.map_values(|r: RemoteStation| r@)
}

/// The names, in cache order, of the stations whose lowercase name contains the
/// lowercase `query`.
pub open spec fn matching_names(stations: Seq<StationView>, query: Seq<char>) -> Seq<Seq<char>>
    decreases stations.len(),
{
    if stations.len() == 0 {
        Seq::empty()
    } else {
        let rest = matching_names(stations.drop_last(), query);
        if occurs_in(lower_of(query), lower_of(stations.last().name)) {
            rest.push(stations.last().name)
        } else {
            rest
        }
    }
}

/// The names of all stations, in order.
pub open spec fn all_names(stations: Seq<StationView>) -> Seq<Seq<char>> {
    stations.map_values(|s: StationView| s.name)
}

/// Where the lowercase query is empty, every station matches.
pub proof fn lemma_empty_query_matches_all(stations: Seq<StationView>, query: Seq<char>)
    requires
        lower_of(query).len() == 0,
    ensures
        matching_names(stations, query) == all_names(stations),
    decreases stations.len(),
{
    if stations.len() > 0 {
        lemma_empty_query_matches_all(stations.drop_last(), query);
        assert(lower_of(query) =~= Seq::<char>::empty());
        lemma_empty_occurs(lower_of(stations.last().name));
        assert(all_names(stations) =~= all_names(stations.drop_last()).push(stations.last().name));
    } else {
        assert(all_names(stations) =~= Seq::<Seq<char>>::empty());
    }
}

/// The error that tells the prompt to let the user keep typing.
pub open spec fn no_suggestion_message() -> Seq<char> {
    "No suggestion available"@
}

/// The suggestion source of the remote search prompt, bound to one cache snapshot.
#[derive(Debug, Clone)]
pub struct Stations {
    stations: StationCache,
}

impl Stations {
    pub fn new(stations: StationCache) -> (r: Stations)
        ensures
            r.entries() == remote_views(stations@),
    {
        Stations { stations }
    }

    /// The stations that suggestions are drawn from.
    pub closed spec fn entries(&self) -> Seq<StationView> {
        remote_views(self.stations@)
    }

    /// The names of all cached stations whose name contains `input`, ignoring case,
    /// in cache order and without a cap. An empty input matches every station.
    pub fn get_suggestions(&mut self, input: &str) -> (r: Vec<String>)
        ensures
            final(self).entries() == old(self).entries(),
            r@.map_values(|s: String| s@) == matching_names(old(self).entries(), input@),
            input@.len() == 0 ==> r@.map_values(|s: String| s@) == all_names(
                old(self).entries(),
            ),
    {
        let query = to_lower(input);
        let mut found: Vec<String> = Vec::new();
        let mut i: usize = 0;
        let ghost entries = self.entries();
        while i < self.stations.len()
            invariant
                i <= self.stations@.len(),
                entries == self.entries(),
                query@ == lower_of(input@),
                found@.map_values(|s: String| s@) == matching_names(
                    entries.take(i as int),
                    input@,
                ),
            decreases self.stations.len() - i,
        {
            let name = &self.stations[i].name;
            let folded = to_lower(name.as_str());
            let ghost before = found@;
            assert(entries.take(i + 1).drop_last() =~= entries.take(i as int));
            assert(entries.take(i + 1).last() == entries[i as int]);
            if matches_folded(query.as_str(), folded.as_str()) {
                found.push(name.clone());
                assert(found@.map_values(|s: String| s@) =~= before.map_values(|s: String| s@).push(
                    name@,
                ));
            }
            i = i + 1;
        }
        assert(entries.take(entries.len() as int) =~= entries);
        proof {
            if input@.len() == 0 {
                lemma_empty_query_matches_all(entries, input@);
            }
        }
        found
    }

    /// The text that completes the input: the highlighted suggestion, if there is
    /// one; otherwise an error that asks the user to keep typing.
    pub fn get_completion(&mut self, input: &str, highlighted_suggestion: Option<String>) -> (r:
        Result<Option<String>, String>)
        ensures
            final(self).entries() == old(self).entries(),
            match highlighted_suggestion {
                Some(s) => r matches Ok(Some(t)) && t@ == s@,
                None => r matches Err(m) && m@ == no_suggestion_message(),
            },
    {
        match highlighted_suggestion {
            Some(suggestion) => Ok(Some(suggestion)),
            None => Err(String::from_str("No suggestion available")),
        }
    }
}

/// Why a station could not be had from the remote directory by its name.
#[derive(Debug, Clone, Copy, PartialEq, Eq, Structural)]
pub enum LookupError {
    /// The directory answered, with no station of that name.
    NotFound,
    /// The directory could not be reached.
    ServiceUnavailable,
}

/// The station that an exact-name query resolves to: the first, best ranked, of
/// the directory's answer; `None` stands for a query that got no answer.
pub fn first_result(answer: Option<Vec<RemoteStation>>) -> (r: Result<Station, LookupError>)
    ensures
        match answer {
            None => r == Err::<Station, LookupError>(LookupError::ServiceUnavailable),
            Some(v) => if v@.len() == 0 {
                r == Err::<Station, LookupError>(LookupError::NotFound)
            } else {
                r matches Ok(s) && s@ == v@[0]@
            },
        },
{
    match answer {
        None => Err(LookupError::ServiceUnavailable),
        Some(v) => {
            if v.len() == 0 {
                Err(LookupError::NotFound)
            } else {
                Ok(Station::new(v[0].name.clone(), v[0].url.clone()))
            }
        },
    }
}

} // verus!
