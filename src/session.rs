use std::rc::Rc;
use vstd::prelude::*;
use crate::browser::{
    LookupError, RemoteStation, StationCache, Stations, all_names, first_result, remote_views,
};
use crate::config::{Config, url_for_spec};
use crate::station::{Station, StationView, sentinel_view, url_station_name};

verus! {

/// Where a played station came from.
#[derive(Debug, Clone, Copy, PartialEq, Eq, Structural)]
pub enum Source {
    /// An address given directly.
    Url,
    /// The local catalog.
    Catalog,
    /// The remote directory.
    Directory,
}

/// How a run ends.
#[derive(Debug, Clone, Copy, PartialEq, Eq, Structural)]
pub enum Finish {
    /// The user left a selection prompt.
    Cancelled,
    /// The remote directory was needed and could not be reached.
    NoDirectory,
    /// No station of the name looked up exists, in the catalog or remotely.
    NotFound,
    /// The remote directory did not answer the exact-name query.
    ServiceUnavailable,
    /// The player reported a failure.
    PlayerFailed,
}

pub open spec fn exit_code_spec(f: Finish) -> u8 {
    match f {
        Finish::Cancelled => 0,
        Finish::NoDirectory | Finish::NotFound | Finish::ServiceUnavailable => 1,
        Finish::PlayerFailed => 2,
    }
}

impl Finish {
    /// The process exit status for this ending.
    pub fn exit_code(&self) -> (r: u8)
        ensures
            r == exit_code_spec(*self),
    {
        match self {
            Finish::Cancelled => 0,
            Finish::NoDirectory | Finish::NotFound | Finish::ServiceUnavailable => 1,
            Finish::PlayerFailed => 2,
        }
    }
}

/// What the remote directory is being used for.
pub enum Target {
    /// Resolving a station name given on the command line.
    Named(String),
    /// Interactive browsing, chosen through the catalog's "Other" entry.
    Browse,
}

pub enum TargetView {
    Named(Seq<char>),
    Browse,
}

impl View for Target {
    type V = TargetView;

    open spec fn view(&self) -> TargetView {
        match self {
            Target::Named(n) => TargetView::Named(n@),
            Target::Browse => TargetView::Browse,
        }
    }
}

/// The step the session waits on.
pub enum Phase {
    /// About to resolve a station.
    Idle,
    /// The catalog list is shown.
    Selecting,
    /// The remote directory is being opened.
    Connecting(Target),
    /// The free-text search over the cached stations is shown.
    Searching,
    /// An exact-name query is under way.
    Querying(Target),
    /// The player runs.
    Playing,
    /// The run is over.
    Finished(Finish),
}

pub enum PhaseView {
    Idle,
    Selecting,
    Connecting(TargetView),
    Searching,
    Querying(TargetView),
    Playing,
    Finished(Finish),
}

impl View for Phase {
    type V = PhaseView;

    open spec fn view(&self) -> PhaseView {
        match self {
            Phase::Idle => PhaseView::Idle,
            Phase::Selecting => PhaseView::Selecting,
            Phase::Connecting(t) => PhaseView::Connecting(t@),
            Phase::Searching => PhaseView::Searching,
            Phase::Querying(t) => PhaseView::Querying(t@),
            Phase::Playing => PhaseView::Playing,
            Phase::Finished(f) => PhaseView::Finished(*f),
        }
    }
}

/// What the surrounding program is asked to do next.
pub enum Action {
    /// Hand the station to the player.
    Play { station: Station, source: Source },
    /// Open the remote directory; when `fetch` holds, also fetch its station
    /// list, most clicked first, filtered by `country_code` where one is set.
    Connect { fetch: bool, country_code: Option<String> },
    /// Ask the remote directory for the stations named exactly `name`.
    QueryName { name: String, country_code: Option<String> },
    /// Show the catalog's names and let the user pick one.
    SelectLocal { names: Vec<String>, page_size: Option<usize> },
    /// Show the free-text search, with suggestions from `matcher`.
    SearchRemote { matcher: Stations, page_size: Option<usize> },
    /// End the run.
    Exit(Finish),
}

pub enum ActionView {
    Play { station: StationView, source: Source },
    Connect { fetch: bool, country_code: Option<Seq<char>> },
    QueryName { name: Seq<char>, country_code: Option<Seq<char>> },
    SelectLocal { names: Seq<Seq<char>>, page_size: Option<usize> },
    SearchRemote { entries: Seq<StationView>, page_size: Option<usize> },
    Exit(Finish),
}

impl View for Action {
    type V = ActionView;

    open spec fn view(&self) -> ActionView {
        match self {
            Action::Play { station, source } => ActionView::Play { station: station@, source: *source },
            Action::Connect { fetch, country_code } => ActionView::Connect {
                fetch: *fetch,
                country_code: country_code.deep_view(),
            },
            Action::QueryName { name, country_code } => ActionView::QueryName {
                name: name@,
                country_code: country_code.deep_view(),
            },
            Action::SelectLocal { names, page_size } => ActionView::SelectLocal {
                names: names@.map_values(|s: String| s@),
                page_size: *page_size,
            },
            Action::SearchRemote { matcher, page_size } => ActionView::SearchRemote {
                entries: matcher.entries(),
                page_size: *page_size,
            },
            Action::Exit(f) => ActionView::Exit(*f),
        }
    }
}

/// What the surrounding program reports back.
pub enum Event {
    /// Start resolving the first station.
    Begin,
    /// The user picked the catalog entry at this index.
    Selected(usize),
    /// The user left the prompt.
    Cancelled,
    /// The remote directory could not be opened.
    DirectoryUnavailable,
    /// The remote directory was opened; the fetched list, if one was asked for
    /// and came back.
    DirectoryOpened(Option<Vec<RemoteStation>>),
    /// The answer to an exact-name query; `None` where none came back.
    Answer(Option<Vec<RemoteStation>>),
    /// The user confirmed this text in the remote search.
    Confirmed(String),
    /// The player ended; whether it reported success.
    Played(bool),
}

pub enum EventView {
    Begin,
    Selected(usize),
    Cancelled,
    DirectoryUnavailable,
    DirectoryOpened(Option<Seq<StationView>>),
    Answer(Option<Seq<StationView>>),
    Confirmed(Seq<char>),
    Played(bool),
}

pub open spec fn list_view(l: Option<Vec<RemoteStation>>) -> Option<Seq<StationView>> {
    match l {
        Some(v) => Some(remote_views(v@)),
        None => None,
    }
}

impl View for Event {
    type V = EventView;

    open spec fn view(&self) -> EventView {
        match self {
            Event::Begin => EventView::Begin,
            Event::Selected(i) => EventView::Selected(*i),
            Event::Cancelled => EventView::Cancelled,
            Event::DirectoryUnavailable => EventView::DirectoryUnavailable,
            Event::DirectoryOpened(l) => EventView::DirectoryOpened(list_view(*l)),
            Event::Answer(l) => EventView::Answer(list_view(*l)),
            Event::Confirmed(t) => EventView::Confirmed(t@),
            Event::Played(ok) => EventView::Played(*ok),
        }
    }
}

/// The resolution and playback loop: the station given on the command line, if
/// any, then interactive selection after each playback.
pub struct Session {
    pub config: Config,
    pub pending_name: Option<String>,
    pub pending_url: Option<String>,
    pub cache: Option<StationCache>,
    pub keep_cache: bool,
    pub phase: Phase,
}

pub struct SessionView {
    pub catalog: Seq<StationView>,
    pub country_code: Option<Seq<char>>,
    pub page_size: Option<usize>,
    pub pending_name: Option<Seq<char>>,
    pub pending_url: Option<Seq<char>>,
    pub cache: Option<Seq<StationView>>,
    pub keep_cache: bool,
    pub phase: PhaseView,
}

pub open spec fn cache_view(c: Option<StationCache>) -> Option<Seq<StationView>> {
    match c {
        Some(rc) => Some(remote_views(rc@)),
        None => None,
    }
}

impl View for Session {
    type V = SessionView;

    open spec fn view(&self) -> SessionView {
        SessionView {
            catalog: self.config.catalog(),
            country_code: self.config.country_code.deep_view(),
            page_size: self.config.max_lines,
            pending_name: self.pending_name.deep_view(),
            pending_url: self.pending_url.deep_view(),
            cache: cache_view(self.cache),
            keep_cache: self.keep_cache,
            phase: self.phase@,
        }
    }
}

/// Entry `i` is the reserved "Other" entry, which stands for remote browsing
/// rather than for a station.
pub open spec fn is_fallback(catalog: Seq<StationView>, i: int) -> bool {
    catalog[i] == sentinel_view()
}

/// The request that opens the remote directory: the list is fetched only where
/// no snapshot is held.
pub open spec fn connect_action(s: SessionView) -> ActionView {
    ActionView::Connect { fetch: s.cache is None, country_code: s.country_code }
}

/// Starting a resolution: an address given directly wins, then a name given
/// directly (catalog first, then the remote directory); with neither, the
/// catalog list is shown. What was given directly is used once.
pub open spec fn resolve(s: SessionView) -> (SessionView, ActionView) {
    let cleared = SessionView { pending_name: None, pending_url: None, ..s };
    match s.pending_url {
        Some(u) => (
            SessionView { phase: PhaseView::Playing, ..cleared },
            ActionView::Play {
                station: StationView { name: url_station_name(), url: u },
                source: Source::Url,
            },
        ),
        None => match s.pending_name {
            Some(n) => match url_for_spec(s.catalog, n) {
                Some(u) => (
                    SessionView { phase: PhaseView::Playing, ..cleared },
                    ActionView::Play {
                        station: StationView { name: n, url: u },
                        source: Source::Catalog,
                    },
                ),
                None => (
                    SessionView { phase: PhaseView::Connecting(TargetView::Named(n)), ..cleared },
                    connect_action(s),
                ),
            },
            None => (
                SessionView { phase: PhaseView::Selecting, ..cleared },
                ActionView::SelectLocal { names: all_names(s.catalog), page_size: s.page_size },
            ),
        },
    }
}

pub open spec fn finish(s: SessionView, f: Finish) -> (SessionView, ActionView) {
    (SessionView { phase: PhaseView::Finished(f), ..s }, ActionView::Exit(f))
}

/// The snapshot that a freshly opened directory yields: the fetched list, else
/// the one already held, else nothing.
pub open spec fn snapshot(s: SessionView, fetched: Option<Seq<StationView>>) -> Seq<StationView> {
    match fetched {
        Some(v) => v,
        None => match s.cache {
            Some(c) => c,
            None => Seq::empty(),
        },
    }
}

/// The station an exact-name answer resolves to, as `first_result` computes it.
pub open spec fn answer_spec(a: Option<Seq<StationView>>) -> Result<StationView, LookupError> {
    match a {
        None => Err(LookupError::ServiceUnavailable),
        Some(v) => if v.len() == 0 {
            Err(LookupError::NotFound)
        } else {
            Ok(v[0])
        },
    }
}

/// The events that the session waits for in its current phase.
pub open spec fn is_expected(s: SessionView, e: EventView) -> bool {
    match s.phase {
        PhaseView::Idle => e is Begin,
        PhaseView::Selecting => match e {
            EventView::Selected(i) => i < s.catalog.len(),
            EventView::Cancelled => true,
            _ => false,
        },
        PhaseView::Connecting(_) => e is DirectoryUnavailable || e is DirectoryOpened,
        PhaseView::Searching => e is Confirmed || e is Cancelled,
        PhaseView::Querying(_) => e is Answer,
        PhaseView::Playing => e is Played,
        PhaseView::Finished(_) => false,
    }
}

/// The session's transition on an accepted event, with the action it requests.
/// Events that `is_expected` refuses are never applied; the last arm only makes
/// the function total.
pub open spec fn next(s: SessionView, e: EventView) -> (SessionView, ActionView) {
    match (s.phase, e) {
        (PhaseView::Idle, EventView::Begin) => resolve(s),
        (PhaseView::Selecting, EventView::Selected(i)) => if is_fallback(s.catalog, i as int) {
            (
                SessionView { phase: PhaseView::Connecting(TargetView::Browse), ..s },
                connect_action(s),
            )
        } else {
            (
                SessionView { phase: PhaseView::Playing, ..s },
                ActionView::Play { station: s.catalog[i as int], source: Source::Catalog },
            )
        },
        (PhaseView::Connecting(_), EventView::DirectoryUnavailable) => finish(
            s,
            Finish::NoDirectory,
        ),
        (PhaseView::Connecting(t), EventView::DirectoryOpened(fetched)) => {
            let snap = snapshot(s, fetched);
            let kept = if s.keep_cache {
                SessionView { cache: Some(snap), ..s }
            } else {
                s
            };
            match t {
                TargetView::Named(n) => (
                    SessionView { phase: PhaseView::Querying(TargetView::Named(n)), ..kept },
                    ActionView::QueryName { name: n, country_code: s.country_code },
                ),
                TargetView::Browse => (
                    SessionView { phase: PhaseView::Searching, ..kept },
                    ActionView::SearchRemote { entries: snap, page_size: s.page_size },
                ),
            }
        },
        (PhaseView::Searching, EventView::Confirmed(text)) => (
            SessionView { phase: PhaseView::Querying(TargetView::Browse), ..s },
            ActionView::QueryName { name: text, country_code: s.country_code },
        ),
        (PhaseView::Querying(t), EventView::Answer(a)) => match (answer_spec(a), t) {
            (Ok(st), TargetView::Named(n)) => (
                SessionView { phase: PhaseView::Playing, ..s },
                ActionView::Play {
                    station: StationView { name: n, url: st.url },
                    source: Source::Directory,
                },
            ),
            (Ok(st), TargetView::Browse) => (
                SessionView { phase: PhaseView::Playing, ..s },
                ActionView::Play { station: st, source: Source::Directory },
            ),
            (Err(LookupError::NotFound), _) => finish(s, Finish::NotFound),
            (Err(LookupError::ServiceUnavailable), _) => finish(s, Finish::ServiceUnavailable),
        },
        (PhaseView::Playing, EventView::Played(true)) => resolve(
            SessionView { pending_name: None, pending_url: None, ..s },
        ),
        (PhaseView::Playing, EventView::Played(false)) => finish(s, Finish::PlayerFailed),
        (_, EventView::Cancelled) => finish(s, Finish::Cancelled),
        _ => (s, ActionView::Exit(Finish::Cancelled)),
    }
}

fn clone_text(o: &Option<String>) -> (r: Option<String>)
    ensures
        r.deep_view() == o.deep_view(),
{
    match o {
        Some(t) => Some(t.clone()),
        None => None,
    }
}

impl Session {
    /// A session about to resolve its first station, from the name or the address
    /// given on the command line, if any. `keep_cache` says whether the remote
    /// snapshot is kept for later browsing in the same run.
    pub fn new(config: Config, station: Option<String>, url: Option<String>, keep_cache: bool) -> (r:
        Session)
        ensures
            r@ == (SessionView {
                catalog: config.catalog(),
                country_code: config.country_code.deep_view(),
                page_size: config.max_lines,
                pending_name: station.deep_view(),
                pending_url: url.deep_view(),
                cache: None,
                keep_cache,
                phase: PhaseView::Idle,
            }),
    {
        Session {
            config,
            pending_name: station,
            pending_url: url,
            cache: None,
            keep_cache,
            phase: Phase::Idle,
        }
    }

    /// Whether the session waits for `event` now.
    pub fn expects(&self, event: &Event) -> (r: bool)
        ensures
            r == is_expected(self@, event@),
    {
        match (&self.phase, event) {
            (Phase::Idle, Event::Begin) => true,
            (Phase::Selecting, Event::Selected(i)) => *i < self.config.data.len(),
            (Phase::Selecting, Event::Cancelled) => true,
            (Phase::Connecting(_), Event::DirectoryUnavailable) => true,
            (Phase::Connecting(_), Event::DirectoryOpened(_)) => true,
            (Phase::Searching, Event::Confirmed(_)) => true,
            (Phase::Searching, Event::Cancelled) => true,
            (Phase::Querying(_), Event::Answer(_)) => true,
            (Phase::Playing, Event::Played(_)) => true,
            _ => false,
        }
    }

    fn connect(&self) -> (r: Action)
        ensures
            r@ == connect_action(self@),
    {
        Action::Connect {
            fetch: self.cache.is_none(),
            country_code: clone_text(&self.config.country_code),
        }
    }

    fn finish(self, f: Finish) -> (r: (Session, Action))
        ensures
            (r.0@, r.1@) == finish(self@, f),
    {
        (Session { phase: Phase::Finished(f), ..self }, Action::Exit(f))
    }

    fn resolve(self) -> (r: (Session, Action))
        ensures
            (r.0@, r.1@) == resolve(self@),
    {
        let Session { config, pending_name, pending_url, cache, keep_cache, phase: _ } = self;
        match pending_url {
            Some(u) => (
                Session {
                    config,
                    pending_name: None,
                    pending_url: None,
                    cache,
                    keep_cache,
                    phase: Phase::Playing,
                },
                Action::Play { station: Station::from_url(u), source: Source::Url },
            ),
            None => match pending_name {
                Some(n) => match config.get_url_for(n.as_str()) {
                    Some(u) => (
                        Session {
                            config,
                            pending_name: None,
                            pending_url: None,
                            cache,
                            keep_cache,
                            phase: Phase::Playing,
                        },
                        Action::Play { station: Station::new(n, u), source: Source::Catalog },
                    ),
                    None => {
                        let next = Session {
                            config,
                            pending_name: None,
                            pending_url: None,
                            cache,
                            keep_cache,
                            phase: Phase::Connecting(Target::Named(n)),
                        };
                        let action = next.connect();
                        (next, action)
                    },
                },
                None => {
                    let names = config.catalog_names();
                    let page_size = config.max_lines;
                    (
                        Session {
                            config,
                            pending_name: None,
                            pending_url: None,
                            cache,
                            keep_cache,
                            phase: Phase::Selecting,
                        },
                        Action::SelectLocal { names, page_size },
                    )
                },
            },
        }
    }

    fn on_selected(self, i: usize) -> (r: (Session, Action))
        requires
            is_expected(self@, EventView::Selected(i)),
            self.phase is Selecting,
        ensures
            (r.0@, r.1@) == next(self@, EventView::Selected(i)),
    {
        if self.config.data[i].is_other() {
            let action = self.connect();
            (Session { phase: Phase::Connecting(Target::Browse), ..self }, action)
        } else {
            let station = self.config.data[i].copied();
            (
                Session { phase: Phase::Playing, ..self },
                Action::Play { station, source: Source::Catalog },
            )
        }
    }

    fn on_opened(self, fetched: Option<Vec<RemoteStation>>) -> (r: (Session, Action))
        requires
            self.phase is Connecting,
        ensures
            (r.0@, r.1@) == next(self@, EventView::DirectoryOpened(list_view(fetched))),
    {
        let Session { config, pending_name, pending_url, cache, keep_cache, phase } = self;
        let snap: StationCache = match fetched {
            Some(v) => Rc::new(v),
            None => match &cache {
                Some(c) => c.clone(),
                None => Rc::new(Vec::new()),
            },
        };
        let cache = if keep_cache {
            Some(snap.clone())
        } else {
            cache
        };
        let country_code = clone_text(&config.country_code);
        let page_size = config.max_lines;
        let ghost s0 = self@;
        let ghost snap_v = snapshot(s0, list_view(fetched));
        assert(remote_views(snap@) == snap_v);
        assert(cache_view(cache) == if keep_cache {
            Some(snap_v)
        } else {
            s0.cache
        });
        match phase {
            Phase::Connecting(Target::Named(n)) => {
                let name = n.clone();
                assert(name@ == n@);
                assert(country_code.deep_view() == s0.country_code);
                (
                    Session {
                        config,
                        pending_name,
                        pending_url,
                        cache,
                        keep_cache,
                        phase: Phase::Querying(Target::Named(n)),
                    },
                    Action::QueryName { name, country_code },
                )
            },
            _ => (
                Session {
                    config,
                    pending_name,
                    pending_url,
                    cache,
                    keep_cache,
                    phase: Phase::Searching,
                },
                Action::SearchRemote { matcher: Stations::new(snap), page_size },
            ),
        }
    }

    fn on_answer(self, answer: Option<Vec<RemoteStation>>) -> (r: (Session, Action))
        requires
            self.phase is Querying,
        ensures
            (r.0@, r.1@) == next(self@, EventView::Answer(list_view(answer))),
    {
        let found = first_result(answer);
        let named: Option<String> = match &self.phase {
            Phase::Querying(Target::Named(n)) => Some(n.clone()),
            _ => None,
        };
        match (found, named) {
            (Ok(st), Some(n)) => (
                Session { phase: Phase::Playing, ..self },
                Action::Play { station: Station::new(n, st.url), source: Source::Directory },
            ),
            (Ok(st), None) => (
                Session { phase: Phase::Playing, ..self },
                Action::Play { station: st, source: Source::Directory },
            ),
            (Err(LookupError::NotFound), _) => self.finish(Finish::NotFound),
            (Err(LookupError::ServiceUnavailable), _) => self.finish(Finish::ServiceUnavailable),
        }
    }

    /// Advances the session on `event` and says what to do next.
    pub fn step(self, event: Event) -> (r: (Session, Action))
        requires
            is_expected(self@, event@),
        ensures
            (r.0@, r.1@) == next(self@, event@),
    {
        match event {
            Event::Begin => self.resolve(),
            Event::Selected(i) => self.on_selected(i),
            Event::Cancelled => self.finish(Finish::Cancelled),
            Event::DirectoryUnavailable => self.finish(Finish::NoDirectory),
            Event::DirectoryOpened(fetched) => self.on_opened(fetched),
            Event::Confirmed(text) => {
                let country_code = clone_text(&self.config.country_code);
                (
                    Session { phase: Phase::Querying(Target::Browse), ..self },
                    Action::QueryName { name: text, country_code },
                )
            },
            Event::Answer(answer) => self.on_answer(answer),
            Event::Played(ok) => {
                if ok {
                    Session { pending_name: None, pending_url: None, ..self }.resolve()
                } else {
                    self.finish(Finish::PlayerFailed)
                }
            },
        }
    }
}

} // verus!
