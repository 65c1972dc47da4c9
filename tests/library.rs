use radio_libs::browser::{first_result, LookupError, RemoteStation, Stations};
use radio_libs::config::{Config, ConfigFile};
use radio_libs::errors::{ConfigError, ConfigErrorCode};
use radio_libs::player::player_args;
use radio_libs::session::{Action, Event, Finish, Session, Source};
use radio_libs::station::Station;
use radio_libs::text::{contains_ignoring_case, matches_folded};
use radio_libs::version::Version;
use std::rc::Rc;

fn station(name: &str, url: &str) -> Station {
    Station::new(name.to_string(), url.to_string())
}

fn remote(name: &str, url: &str) -> RemoteStation {
    RemoteStation::new(name.to_string(), url.to_string())
}

fn config_with(stations: Vec<Station>, country: Option<&str>) -> Config {
    let file = ConfigFile {
        config_version: "1.2.3".to_string(),
        max_lines: Some(9),
        country_code: country.map(|c| c.to_string()),
        data: stations,
    };
    match Config::from_file(file) {
        Ok(c) => c,
        Err(_) => panic!("the version is valid"),
    }
}

fn names(v: &[Station]) -> Vec<String> {
    v.iter().map(|s| s.station.clone()).collect()
}

#[test]
fn empty_catalog_gets_other_entry() {
    let c = config_with(Vec::new(), None);
    assert_eq!(c.data.len(), 1);
    assert_eq!(c.data[0].station, "Other");
    assert_eq!(c.data[0].url, "");
}

#[test]
fn catalog_keeps_order_and_ends_with_other() {
    let c = config_with(vec![station("BBC", "http://bbc"), station("Jazz", "http://jazz")], Some("GB"));
    assert_eq!(names(&c.data), vec!["BBC", "Jazz", "Other"]);
    assert_eq!(c.data[2].url, "");
    assert_eq!(c.config_version, Version::new(1, 2, 3));
    assert_eq!(c.max_lines, Some(9));
    assert_eq!(c.country_code.as_deref(), Some("GB"));
}

#[test]
fn bad_config_version_is_parse_error() {
    let file = ConfigFile {
        config_version: "one.two.three".to_string(),
        max_lines: None,
        country_code: None,
        data: vec![station("BBC", "http://bbc")],
    };
    match Config::from_file(file) {
        Ok(_) => panic!("the version is not a number"),
        Err(e) => {
            assert_eq!(e.code, ConfigErrorCode::ParseError);
            assert_eq!(e.display(), "Couldn't parse config");
        }
    }
}

#[test]
fn version_parses_three_numbers() {
    assert_eq!(Version::from("1.2.3".to_string()), Some(Version::new(1, 2, 3)));
    assert_eq!(Version::from("0.10.42".to_string()), Some(Version::new(0, 10, 42)));
    assert_eq!(Version::from("+7.8.9".to_string()), Some(Version::new(7, 8, 9)));
    assert_eq!(Version::from("4294967295.0.1".to_string()), Some(Version::new(4294967295, 0, 1)));
}

#[test]
fn version_ignores_pieces_after_the_third() {
    assert_eq!(Version::from("2.3.4.5".to_string()), Some(Version::new(2, 3, 4)));
    assert_eq!(Version::from("2.3.4.x".to_string()), Some(Version::new(2, 3, 4)));
}

#[test]
fn version_rejects_malformed_text() {
    assert_eq!(Version::from("".to_string()), None);
    assert_eq!(Version::from("1.2".to_string()), None);
    assert_eq!(Version::from("1..3".to_string()), None);
    assert_eq!(Version::from("1.2.3a".to_string()), None);
    assert_eq!(Version::from("1.-2.3".to_string()), None);
    assert_eq!(Version::from("+.2.3".to_string()), None);
    assert_eq!(Version::from(" 1.2.3".to_string()), None);
    assert_eq!(Version::from("4294967296.0.0".to_string()), None);
    assert_eq!(Version::from("99999999999999999999.0.0".to_string()), None);
}

#[test]
fn version_text() {
    assert_eq!(Version::new(1, 20, 300).to_text(), "1.20.300");
    assert_eq!(Version::new(0, 0, 0).to_text(), "0.0.0");
    assert_eq!(Version::new(4294967295, 10, 9).to_text(), "4294967295.10.9");
}

#[test]
fn version_text_reads_back() {
    for v in [Version::new(0, 0, 0), Version::new(2, 10, 99), Version::new(4294967295, 4294967295, 1)] {
        assert_eq!(Version::from(v.to_text()), Some(v));
    }
}

#[test]
fn older_major_version() {
    let config = Version::new(1, 9, 9);
    assert!(config.is_older_major_than(&Version::new(2, 0, 0)));
    assert!(!config.is_older_major_than(&Version::new(1, 0, 0)));
    assert!(!Version::new(3, 0, 0).is_older_major_than(&Version::new(2, 5, 1)));
}

#[test]
fn url_lookup_takes_first_entry_of_the_name() {
    let c = config_with(
        vec![station("BBC", "http://bbc"), station("Jazz", "http://jazz"), station("BBC", "http://bbc2")],
        None,
    );
    assert_eq!(c.get_url_for("BBC"), Some("http://bbc".to_string()));
    assert_eq!(c.get_url_for("Jazz"), Some("http://jazz".to_string()));
    assert_eq!(c.get_url_for("bbc"), None);
    assert_eq!(c.get_url_for("Rock"), None);
    assert_eq!(c.get_url_for("Other"), None);
}

#[test]
fn all_station_names_in_order() {
    let c = config_with(vec![station("A", "a"), station("B", "b")], None);
    assert_eq!(c.catalog_names(), vec!["A", "B", "Other"]);
    assert_eq!(c.get_all_stations(), vec!["A", "B", "Other"]);
}

#[test]
fn country_override() {
    let c = config_with(vec![station("A", "a")], Some("ES"));
    let kept = c.with_country_code(None);
    assert_eq!(kept.country_code.as_deref(), Some("ES"));
    let changed = kept.with_country_code(Some("US".to_string()));
    assert_eq!(changed.country_code.as_deref(), Some("US"));
    assert_eq!(names(&changed.data), vec!["A", "Other"]);
}

#[test]
fn config_error_texts() {
    let e = ConfigError::open_failed("\"/tmp/c.json\"", "NotFound".to_string());
    assert_eq!(e.code, ConfigErrorCode::OpenError);
    assert_eq!(e.display(), "Could not open the file \"/tmp/c.json\"");
    assert_eq!(
        e.describe(),
        "{ code: OpenError, message: \"Could not open the file \"/tmp/c.json\"\", info: NotFound }"
    );
    let r = ConfigError::read_failed("x", "bad".to_string());
    assert_eq!(r.code, ConfigErrorCode::ReadError);
    assert_eq!(r.display(), "Couldn't read the file x");
    let p = ConfigError::parse_failed("line 1".to_string());
    assert_eq!(p.describe(), "{ code: ParseError, message: \"Couldn't parse config\", info: line 1 }");
    assert_eq!(ConfigErrorCode::CloseError.name(), "CloseError");
}

#[test]
fn station_helpers() {
    let s = station("Jazz", "http://jazz");
    assert_eq!(s.display(), "Jazz");
    assert!(!s.is_other());
    assert!(Station::other().is_other());
    let u = Station::from_url("http://x".to_string());
    assert_eq!(u.station, "URL");
    assert_eq!(u.url, "http://x");
    let c = s.copied();
    assert_eq!((c.station, c.url), ("Jazz".to_string(), "http://jazz".to_string()));
}

fn cache_of(names: &[&str]) -> Rc<Vec<RemoteStation>> {
    Rc::new(names.iter().map(|n| remote(n, &format!("http://{}", n.len()))).collect())
}

#[test]
fn suggestions_bb_match_both_bbc_stations() {
    let mut m = Stations::new(cache_of(&["BBC Radio 1", "BBC Radio 2", "Classic FM"]));
    assert_eq!(m.get_suggestions("bb"), vec!["BBC Radio 1", "BBC Radio 2"]);
}

#[test]
fn suggestions_for_empty_input_are_everything() {
    let mut m = Stations::new(cache_of(&["BBC Radio 1", "BBC Radio 2", "Classic FM"]));
    assert_eq!(m.get_suggestions(""), vec!["BBC Radio 1", "BBC Radio 2", "Classic FM"]);
}

#[test]
fn suggestions_ignore_case_both_ways() {
    let mut m = Stations::new(cache_of(&["BBC Radio 1", "BBC Radio 2", "Classic FM"]));
    assert_eq!(m.get_suggestions("CLASSIC fm"), vec!["Classic FM"]);
    assert_eq!(m.get_suggestions("radio 2"), vec!["BBC Radio 2"]);
    assert!(m.get_suggestions("jazz").is_empty());
}

#[test]
fn suggestions_over_empty_cache() {
    let mut m = Stations::new(Rc::new(Vec::new()));
    assert!(m.get_suggestions("").is_empty());
}

#[test]
fn completion_uses_highlighted_suggestion() {
    let mut m = Stations::new(cache_of(&["BBC Radio 1"]));
    assert_eq!(m.get_completion("bb", Some("BBC Radio 1".to_string())), Ok(Some("BBC Radio 1".to_string())));
    assert_eq!(m.get_completion("bb", None), Err("No suggestion available".to_string()));
}

#[test]
fn folded_matching() {
    assert!(matches_folded("bb", "bbc radio"));
    assert!(!matches_folded("BB", "bbc radio"));
    assert!(matches_folded("", ""));
    assert!(!matches_folded("radio 1 ", "bbc radio 1"));
    assert!(contains_ignoring_case("BBC Radio", "bbc r"));
    assert!(contains_ignoring_case("bbc radio", "BBC R"));
    assert!(!contains_ignoring_case("BBC", "bbcx"));
}

#[test]
fn first_result_outcomes() {
    assert_eq!(first_result(None).err(), Some(LookupError::ServiceUnavailable));
    assert_eq!(first_result(Some(Vec::new())).err(), Some(LookupError::NotFound));
    let s = first_result(Some(vec![remote("A", "http://a"), remote("B", "http://b")])).ok().unwrap();
    assert_eq!((s.station, s.url), ("A".to_string(), "http://a".to_string()));
}

#[test]
fn player_arguments() {
    assert_eq!(player_args("http://a", false, false), vec!["http://a", "--no-video", "--really-quiet"]);
    assert_eq!(player_args("http://a", true, false), vec!["http://a", "--really-quiet"]);
    assert_eq!(player_args("http://a", false, true), vec!["http://a", "--no-video"]);
    assert_eq!(player_args("http://a", true, true), vec!["http://a"]);
}

#[test]
fn exit_codes() {
    assert_eq!(Finish::Cancelled.exit_code(), 0);
    assert_eq!(Finish::NoDirectory.exit_code(), 1);
    assert_eq!(Finish::NotFound.exit_code(), 1);
    assert_eq!(Finish::ServiceUnavailable.exit_code(), 1);
    assert_eq!(Finish::PlayerFailed.exit_code(), 2);
}

fn step(s: Session, e: Event) -> (Session, Action) {
    assert!(s.expects(&e));
    s.step(e)
}

fn bbc_config() -> Config {
    config_with(vec![station("BBC", "http://bbc"), station("Jazz", "http://jazz")], Some("GB"))
}

#[test]
fn catalog_name_is_played_without_the_directory() {
    let s = Session::new(bbc_config(), Some("BBC".to_string()), None, true);
    let (s, a) = step(s, Event::Begin);
    match a {
        Action::Play { station, source } => {
            assert_eq!(station.station, "BBC");
            assert_eq!(station.url, "http://bbc");
            assert_eq!(source, Source::Catalog);
        }
        _ => panic!("expected the catalog station to play"),
    }
    assert!(s.cache.is_none());
}

#[test]
fn unknown_name_fetches_once_queries_once_then_fails() {
    let s = Session::new(bbc_config(), Some("Rock FM".to_string()), None, true);
    let (s, a) = step(s, Event::Begin);
    match a {
        Action::Connect { fetch, country_code } => {
            assert!(fetch);
            assert_eq!(country_code.as_deref(), Some("GB"));
        }
        _ => panic!("expected the directory to be opened"),
    }
    let (s, a) = step(s, Event::DirectoryOpened(Some(vec![remote("Pop", "http://pop")])));
    match a {
        Action::QueryName { name, country_code } => {
            assert_eq!(name, "Rock FM");
            assert_eq!(country_code.as_deref(), Some("GB"));
        }
        _ => panic!("expected one exact-name query"),
    }
    let (s, a) = step(s, Event::Answer(Some(Vec::new())));
    match a {
        Action::Exit(f) => {
            assert_eq!(f, Finish::NotFound);
            assert_eq!(f.exit_code(), 1);
        }
        _ => panic!("expected the run to end"),
    }
    assert!(!s.expects(&Event::Answer(Some(Vec::new()))));
    assert!(!s.expects(&Event::Begin));
}

#[test]
fn unknown_name_without_answer_is_fatal() {
    let s = Session::new(bbc_config(), Some("Rock FM".to_string()), None, false);
    let (s, _) = step(s, Event::Begin);
    let (s, _) = step(s, Event::DirectoryOpened(None));
    let (_, a) = step(s, Event::Answer(None));
    assert!(matches!(a, Action::Exit(Finish::ServiceUnavailable)));
}

#[test]
fn unknown_name_found_remotely_keeps_given_name() {
    let s = Session::new(bbc_config(), Some("Rock FM".to_string()), None, true);
    let (s, _) = step(s, Event::Begin);
    let (s, _) = step(s, Event::DirectoryOpened(None));
    let (s, a) = step(s, Event::Answer(Some(vec![remote("ROCK FM", "http://rock"), remote("x", "y")])));
    match a {
        Action::Play { station, source } => {
            assert_eq!(station.station, "Rock FM");
            assert_eq!(station.url, "http://rock");
            assert_eq!(source, Source::Directory);
        }
        _ => panic!("expected the remote station to play"),
    }
    assert_eq!(s.cache.as_ref().map(|c| c.len()), Some(0));
}

#[test]
fn unreachable_directory_for_a_name_is_fatal() {
    let s = Session::new(bbc_config(), Some("Rock FM".to_string()), None, true);
    let (s, _) = step(s, Event::Begin);
    let (_, a) = step(s, Event::DirectoryUnavailable);
    assert!(matches!(a, Action::Exit(Finish::NoDirectory)));
}

#[test]
fn url_is_played_as_url_station() {
    let s = Session::new(bbc_config(), Some("BBC".to_string()), Some("http://stream".to_string()), true);
    let (s, a) = step(s, Event::Begin);
    match a {
        Action::Play { station, source } => {
            assert_eq!(station.station, "URL");
            assert_eq!(station.url, "http://stream");
            assert_eq!(source, Source::Url);
        }
        _ => panic!("expected the address to play"),
    }
    assert!(s.pending_name.is_none() && s.pending_url.is_none());
    assert!(s.cache.is_none());
}

#[test]
fn second_iteration_asks_the_user_again() {
    let s = Session::new(bbc_config(), Some("BBC".to_string()), None, true);
    let (s, _) = step(s, Event::Begin);
    let (s, a) = step(s, Event::Played(true));
    match a {
        Action::SelectLocal { names, page_size } => {
            assert_eq!(names, vec!["BBC", "Jazz", "Other"]);
            assert_eq!(page_size, Some(9));
        }
        _ => panic!("expected the catalog to be shown"),
    }
    let (s, a) = step(s, Event::Selected(1));
    match a {
        Action::Play { station, .. } => assert_eq!(station.station, "Jazz"),
        _ => panic!("expected the picked station to play"),
    }
    let (s, _) = step(s, Event::Played(true));
    let (_, a) = step(s, Event::Cancelled);
    assert!(matches!(a, Action::Exit(Finish::Cancelled)));
}

#[test]
fn player_failure_ends_with_status_two() {
    let s = Session::new(bbc_config(), None, Some("http://x".to_string()), true);
    let (s, _) = step(s, Event::Begin);
    let (_, a) = step(s, Event::Played(false));
    match a {
        Action::Exit(f) => assert_eq!(f.exit_code(), 2),
        _ => panic!("expected the run to end"),
    }
}

/// Drives one remote browsing session from the catalog list, counting the fetches
/// that the session asks for.
fn browse_once(s: Session, fetches: &mut u32) -> Session {
    let (s, a) = step(s, Event::Selected(2));
    let fetch = match a {
        Action::Connect { fetch, .. } => fetch,
        _ => panic!("expected the directory to be opened"),
    };
    let listed = if fetch {
        *fetches += 1;
        Some(vec![remote("BBC Radio 1", "http://r1"), remote("BBC Radio 2", "http://r2"), remote("Classic FM", "http://cfm")])
    } else {
        None
    };
    let (s, a) = step(s, Event::DirectoryOpened(listed));
    let mut matcher = match a {
        Action::SearchRemote { matcher, .. } => matcher,
        _ => panic!("expected the search prompt"),
    };
    assert_eq!(matcher.get_suggestions("bb"), vec!["BBC Radio 1", "BBC Radio 2"]);
    let (s, _) = step(s, Event::Confirmed("BBC Radio 2".to_string()));
    let (s, a) = step(s, Event::Answer(Some(vec![remote("BBC Radio 2", "http://r2")])));
    match a {
        Action::Play { station, source } => {
            assert_eq!(station.url, "http://r2");
            assert_eq!(source, Source::Directory);
        }
        _ => panic!("expected the remote station to play"),
    }
    let (s, _) = step(s, Event::Played(true));
    s
}

#[test]
fn cache_is_fetched_once_per_run() {
    let mut fetches: u32 = 0;
    let s = Session::new(bbc_config(), None, None, true);
    let (s, _) = step(s, Event::Begin);
    let s = browse_once(s, &mut fetches);
    let (s, _) = step(s, Event::Selected(0));
    let (s, _) = step(s, Event::Played(true));
    let _ = browse_once(s, &mut fetches);
    assert_eq!(fetches, 1);
}

#[test]
fn without_cache_every_browse_fetches() {
    let mut fetches: u32 = 0;
    let s = Session::new(bbc_config(), None, None, false);
    let (s, _) = step(s, Event::Begin);
    let s = browse_once(s, &mut fetches);
    let _ = browse_once(s, &mut fetches);
    assert_eq!(fetches, 2);
}

#[test]
fn browse_failures_are_fatal() {
    let s = Session::new(bbc_config(), None, None, true);
    let (s, _) = step(s, Event::Begin);
    let (s, _) = step(s, Event::Selected(2));
    let (_, a) = step(s, Event::DirectoryUnavailable);
    match a {
        Action::Exit(f) => {
            assert_eq!(f, Finish::NoDirectory);
            assert_eq!(f.exit_code(), 1);
        }
        _ => panic!("expected the run to end"),
    }

    let s = Session::new(bbc_config(), None, None, true);
    let (s, _) = step(s, Event::Begin);
    let (s, _) = step(s, Event::Selected(2));
    let (s, _) = step(s, Event::DirectoryOpened(Some(Vec::new())));
    let (s, _) = step(s, Event::Confirmed("Nothing".to_string()));
    let (_, a) = step(s, Event::Answer(Some(Vec::new())));
    match a {
        Action::Exit(f) => {
            assert_eq!(f, Finish::NotFound);
            assert_eq!(f.exit_code(), 1);
        }
        _ => panic!("expected the run to end"),
    }

    let s = Session::new(bbc_config(), None, None, true);
    let (s, _) = step(s, Event::Begin);
    let (s, _) = step(s, Event::Selected(2));
    let (s, _) = step(s, Event::DirectoryOpened(None));
    let (s, _) = step(s, Event::Confirmed("BBC Radio 1".to_string()));
    let (_, a) = step(s, Event::Answer(None));
    match a {
        Action::Exit(f) => {
            assert_eq!(f, Finish::ServiceUnavailable);
            assert_eq!(f.exit_code(), 1);
        }
        _ => panic!("expected the run to end"),
    }
}

#[test]
fn search_cancel_ends_cleanly() {
    let s = Session::new(bbc_config(), None, None, true);
    let (s, _) = step(s, Event::Begin);
    let (s, _) = step(s, Event::Selected(2));
    let (s, _) = step(s, Event::DirectoryOpened(None));
    let (_, a) = step(s, Event::Cancelled);
    match a {
        Action::Exit(f) => {
            assert_eq!(f, Finish::Cancelled);
            assert_eq!(f.exit_code(), 0);
        }
        _ => panic!("expected the run to end"),
    }
}

#[test]
fn explicit_other_name_is_looked_up_remotely() {
    let s = Session::new(bbc_config(), Some("Other".to_string()), None, true);
    let (s, a) = step(s, Event::Begin);
    assert!(matches!(a, Action::Connect { fetch: true, .. }));
    let (_, a) = step(s, Event::DirectoryOpened(None));
    match a {
        Action::QueryName { name, .. } => assert_eq!(name, "Other"),
        _ => panic!("expected a remote query for the name"),
    }
}

#[test]
fn a_real_station_named_other_plays() {
    let c = config_with(vec![station("Other", "http://other")], None);
    let s = Session::new(c, None, None, true);
    let (s, _) = step(s, Event::Begin);
    assert!(!s.expects(&Event::Selected(2)));
    let (_, a) = step(s, Event::Selected(0));
    match a {
        Action::Play { station, .. } => assert_eq!(station.url, "http://other"),
        _ => panic!("expected the catalog station to play"),
    }
}
