use vstd::prelude::*;
use crate::browser::all_names;
use crate::config::{first_named, is_playable_named, url_for_spec};
use crate::session::{
    ActionView, EventView, PhaseView, SessionView, Source, TargetView, answer_spec,
    exit_code_spec, is_expected, is_fallback, next,
};
use crate::station::{StationView, sentinel_view, url_station_name};

verus! {

proof fn lemma_some_first_named(cat: Seq<StationView>, name: Seq<char>, i: int)
    requires
        0 <= i < cat.len(),
        is_playable_named(cat[i], name),
    ensures
        exists|k: int| first_named(cat, name, k),
    decreases i,
{
    if forall|j: int| 0 <= j < i ==> !is_playable_named(#[trigger] cat[j], name) {
        assert(first_named(cat, name, i));
    } else {
        let j = choose|j: int| 0 <= j < i && is_playable_named(#[trigger] cat[j], name);
        lemma_some_first_named(cat, name, j);
    }
}

/// A station given by a name that the catalog holds is played from the catalog:
/// the remote directory is not asked, and the snapshot is left as it was. The
/// reserved "Other" entry is no such station.
pub proof fn lemma_catalog_name_stays_local(s: SessionView, name: Seq<char>)
    requires
        s.phase is Idle,
        s.pending_url is None,
        s.pending_name == Some(name),
        exists|i: int| 0 <= i < s.catalog.len() && is_playable_named(#[trigger] s.catalog[i], name),
    ensures
        ({
            let (t, a) = next(s, EventView::Begin);
            &&& a matches ActionView::Play { station, source } && source == Source::Catalog
                && station.name == name && Some(station.url) == url_for_spec(s.catalog, name)
            &&& t.phase is Playing
            &&& t.cache == s.cache
        }),
{
    let i = choose|i: int|
        0 <= i < s.catalog.len() && is_playable_named(#[trigger] s.catalog[i], name);
    lemma_some_first_named(s.catalog, name, i);
}

/// A station given by a name that the catalog lacks, on a run that holds no
/// snapshot yet: the directory is opened with one fetch of the station list,
/// then one exact-name query is made; where that query finds nothing or gets no
/// answer, the run ends with status 1 and nothing more is tried.
pub proof fn lemma_unknown_name_single_lookup(
    s: SessionView,
    name: Seq<char>,
    fetched: Option<Seq<StationView>>,
    answer: Option<Seq<StationView>>,
)
    requires
        s.phase is Idle,
        s.pending_url is None,
        s.pending_name == Some(name),
        url_for_spec(s.catalog, name) is None,
        s.cache is None,
    ensures
        ({
            let (s1, a1) = next(s, EventView::Begin);
            let (s2, a2) = next(s1, EventView::DirectoryOpened(fetched));
            let (s3, a3) = next(s2, EventView::Answer(answer));
            &&& a1 == ActionView::Connect { fetch: true, country_code: s.country_code }
            &&& is_expected(s1, EventView::DirectoryOpened(fetched))
            &&& a2 == ActionView::QueryName { name, country_code: s.country_code }
            &&& is_expected(s2, EventView::Answer(answer))
            &&& answer_spec(answer) is Err ==> {
                &&& a3 matches ActionView::Exit(f) && exit_code_spec(f) == 1
                &&& s3.phase is Finished
                &&& forall|e: EventView| !is_expected(s3, e)
            }
        }),
{
}

/// An address given directly is played as a station named "URL", without
/// reading the catalog or the remote directory.
pub proof fn lemma_url_played_directly(s: SessionView, url: Seq<char>)
    requires
        s.phase is Idle,
        s.pending_url == Some(url),
    ensures
        ({
            let (t, a) = next(s, EventView::Begin);
            &&& a == ActionView::Play {
                station: StationView { name: url_station_name(), url },
                source: Source::Url,
            }
            &&& t.catalog == s.catalog
            &&& t.cache == s.cache
            &&& t.pending_name is None && t.pending_url is None
        }),
{
}

/// After a playback that ended well, the catalog is shown again, whatever was
/// given on the command line; the next station played from it is the one the
/// user picks there.
pub proof fn lemma_replay_asks_again(s: SessionView, pick: usize)
    requires
        s.phase is Playing,
    ensures
        ({
            let (s1, a1) = next(s, EventView::Played(true));
            &&& s1.pending_name is None && s1.pending_url is None
            &&& a1 == ActionView::SelectLocal {
                names: all_names(s.catalog),
                page_size: s.page_size,
            }
            &&& pick < s.catalog.len() && !is_fallback(s.catalog, pick as int) ==> {
                &&& is_expected(s1, EventView::Selected(pick))
                &&& next(s1, EventView::Selected(pick)).1 == ActionView::Play {
                    station: s.catalog[pick as int],
                    source: Source::Catalog,
                }
            }
        }),
{
}

/// The reserved "Other" entry is never handed to the player as a station: not
/// when it is picked from the list, not when its name is given, and not as an
/// address given directly. (Stations that the remote directory returns are
/// played as it returns them.)
pub proof fn lemma_sentinel_never_played(s: SessionView, e: EventView)
    requires
        is_expected(s, e),
    ensures
        next(s, e).1 matches ActionView::Play { station, source } ==> source == Source::Directory
            || station != sentinel_view(),
{
    reveal_strlit("URL");
    reveal_strlit("Other");
    assert(url_station_name().len() != sentinel_view().name.len());
    let r = match e {
        EventView::Played(true) => SessionView { pending_name: None, pending_url: None, ..s },
        _ => s,
    };
    if let Some(n) = r.pending_name {
        if url_for_spec(r.catalog, n) is Some {
            let k = choose|k: int| first_named(r.catalog, n, k);
            assert(r.catalog[k] == (StationView { name: n, url: url_for_spec(r.catalog, n)->0 }));
        }
    }
}

/// Giving the name "Other", where the catalog holds no station of that name,
/// sends the name to the remote directory instead of playing the reserved entry.
pub proof fn lemma_other_name_goes_remote(s: SessionView)
    requires
        s.phase is Idle,
        s.pending_url is None,
        s.pending_name == Some(sentinel_view().name),
        forall|i: int| 0 <= i < s.catalog.len() ==> #[trigger] s.catalog[i] == sentinel_view()
            || s.catalog[i].name != sentinel_view().name,
    ensures
        next(s, EventView::Begin).1 == (ActionView::Connect {
            fetch: s.cache is None,
            country_code: s.country_code,
        }),
        next(s, EventView::Begin).0.phase == PhaseView::Connecting(
            TargetView::Named(sentinel_view().name),
        ),
{
    let n = sentinel_view().name;
    if exists|k: int| first_named(s.catalog, n, k) {
        let k = choose|k: int| first_named(s.catalog, n, k);
        assert(s.catalog[k] == sentinel_view() || s.catalog[k].name != n);
    }
}

/// The session reached from `s` by the events `events`, in order.
pub open spec fn trace(s: SessionView, events: Seq<EventView>) -> SessionView
    decreases events.len(),
{
    if events.len() == 0 {
        s
    } else {
        next(trace(s, events.drop_last()), events.last()).0
    }
}

/// Each of `events` is one that the session waits for when it comes.
pub open spec fn is_run(s: SessionView, events: Seq<EventView>) -> bool {
    forall|k: int| 0 <= k < events.len() ==> is_expected(trace(s, events.take(k)), #[trigger] events[k])
}

/// The action requested on the `k`-th event of a run.
pub open spec fn action_at(s: SessionView, events: Seq<EventView>, k: int) -> ActionView {
    next(trace(s, events.take(k)), events[k]).1
}

pub open spec fn fetches(a: ActionView) -> bool {
    a matches ActionView::Connect { fetch, .. } && fetch
}

proof fn lemma_step_keeps_snapshot(s: SessionView, e: EventView)
    requires
        s.keep_cache,
        s.cache is Some,
        is_expected(s, e),
    ensures
        next(s, e).0.keep_cache,
        next(s, e).0.cache is Some,
        !fetches(next(s, e).1),
{
}

proof fn lemma_trace_keeps_snapshot(s: SessionView, events: Seq<EventView>)
    requires
        s.keep_cache,
        s.cache is Some,
        is_run(s, events),
    ensures
        trace(s, events).keep_cache,
        trace(s, events).cache is Some,
    decreases events.len(),
{
    if events.len() > 0 {
        let prefix = events.drop_last();
        assert forall|k: int| 0 <= k < prefix.len() implies is_expected(
            trace(s, prefix.take(k)),
            #[trigger] prefix[k],
        ) by {
            assert(prefix.take(k) =~= events.take(k));
            assert(prefix[k] == events[k]);
        }
        lemma_trace_keeps_snapshot(s, prefix);
        let k = events.len() - 1;
        assert(events.take(k) =~= prefix);
        assert(is_expected(trace(s, events.take(k)), events[k]));
        lemma_step_keeps_snapshot(trace(s, prefix), events.last());
    }
}

/// With the snapshot kept for the run, the remote directory's station list is
/// fetched once: after the directory has been opened the first time, no later
/// request, whatever the user does, fetches it again.
pub proof fn lemma_snapshot_reused(
    s: SessionView,
    fetched: Option<Seq<StationView>>,
    events: Seq<EventView>,
)
    requires
        s.keep_cache,
        s.phase is Connecting,
        is_run(next(s, EventView::DirectoryOpened(fetched)).0, events),
    ensures
        forall|k: int|
            0 <= k < events.len() ==> !fetches(
                #[trigger] action_at(next(s, EventView::DirectoryOpened(fetched)).0, events, k),
            ),
{
    let s1 = next(s, EventView::DirectoryOpened(fetched)).0;
    assert(s1.cache is Some && s1.keep_cache);
    assert forall|k: int| 0 <= k < events.len() implies !fetches(
        #[trigger] action_at(s1, events, k),
    ) by {
        let prefix = events.take(k);
        assert forall|j: int| 0 <= j < prefix.len() implies is_expected(
            trace(s1, prefix.take(j)),
            #[trigger] prefix[j],
        ) by {
            assert(prefix.take(j) =~= events.take(j));
            assert(prefix[j] == events[j]);
        }
        lemma_trace_keeps_snapshot(s1, prefix);
        lemma_step_keeps_snapshot(trace(s1, prefix), events[k]);
    }
}

} // verus!
