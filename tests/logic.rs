use medialibrary::cascade::{cascade_target, is_orphaned, CascadeTarget, CreditPresence};
use medialibrary::collection::inherit_poster;
use medialibrary::error::ErrorKind;
use medialibrary::media::{movie_info_from_captures, tv_info_from_captures};
use medialibrary::query::{generate_sql, Criteria, Filter};
use medialibrary::row::{get_list, get_number, get_u64, parse_concat};
use medialibrary::search::{MovieSearch, VideoSearch};
use medialibrary::store::Cell;
use medialibrary::text::{decimal_string, parse_u64, replace_with_space, signed_decimal_string, split_text};
use medialibrary::video::{Video, VideoResult};
use medialibrary::watch::{aggregate_watched, is_watched_through, next_watched_count, parse_watched};
use medialibrary::probe::Track;
use medialibrary::ingest::assets_to_fetch;
use medialibrary::movie::movie_delete_statements;
use medialibrary::tv::episode_delete_statements;
use medialibrary::metadata::{Credits, Genre, Keyword, KeywordsMovie, Movie, Videos};
use medialibrary::movie::movie_upsert_statements;
use medialibrary::metadata::TvEpisode as Episode;
use medialibrary::tv::episode_plan;

fn filter(column: &str, op: &str, value: &str) -> Filter {
    Filter { column: column.to_string(), condition: Some((op.to_string(), value.to_string())) }
}

#[test]
fn query_builder_single_filter_order_limit() {
    let filters = vec![filter("Movies.id", "=", "5")];
    let q = generate_sql(
        "SELECT * FROM Movies",
        &filters,
        None,
        Some("Movies.id"),
        &Some("Movies.id".to_string()),
        Some(10),
        None,
    );
    assert_eq!(
        q.sql,
        "SELECT * FROM Movies WHERE Movies.id = ?1 \nGROUP BY Movies.id \nORDER BY Movies.id \nLIMIT 10\n"
    );
    assert_eq!(q.params, vec!["5".to_string()]);
    assert_eq!(q.sql.matches('?').count(), q.params.len());
}

#[test]
fn query_builder_leading_user_shifts_placeholders() {
    let filters = vec![filter("Movies.id", "=", "5")];
    let user = "alice".to_string();
    let q = generate_sql("SELECT x", &filters, Some(&user), None, &None, None, None);
    assert_eq!(q.sql, "SELECT x WHERE Movies.id = ?2 \n");
    assert_eq!(q.params, vec!["alice".to_string(), "5".to_string()]);
}

#[test]
fn query_builder_without_filters_has_no_where() {
    let q = generate_sql("SELECT x", &Vec::new(), None, None, &None, None, Some(3));
    assert_eq!(q.sql, "SELECT x");
    assert!(q.params.is_empty());
}

#[test]
fn query_builder_null_and_multiple_filters() {
    let filters = vec![
        filter("path", "=", "/a.mkv"),
        Filter { column: "media_id".to_string(), condition: None },
        filter("media_type", "=", "1"),
    ];
    let q = generate_sql("S", &filters, None, None, &None, Some(2), Some(4));
    assert_eq!(
        q.sql,
        "S WHERE path = ?1 AND media_id IS NULL AND media_type = ?2 \nLIMIT 2 OFFSET 4 \n"
    );
    assert_eq!(q.params, vec!["/a.mkv".to_string(), "1".to_string()]);
}

#[test]
fn criteria_replace_filter_on_same_column() {
    let mut c = Criteria::new();
    c.find("a", "=", Some("1".to_string()));
    c.find("b", "=", Some("2".to_string()));
    c.find("a", ">", Some("3".to_string()));
    assert_eq!(c.filters.len(), 2);
    assert_eq!(c.filters[0].column, "a");
    assert_eq!(c.filters[0].condition, Some((">".to_string(), "3".to_string())));
    assert_eq!(c.filters[1].column, "b");
}

#[test]
fn video_search_unknown_asks_for_null_media() {
    let s = VideoSearch::new(&"u".to_string()).unknown();
    assert_eq!(s.criteria.filters.len(), 1);
    assert_eq!(s.criteria.filters[0].column, "media_id");
    assert_eq!(s.criteria.filters[0].condition, None);
    let s = VideoSearch::new(&"u".to_string()).movie().media_id(12);
    assert_eq!(s.criteria.filters[0].condition, Some(("=".to_string(), "0".to_string())));
    assert_eq!(s.criteria.filters[1].condition, Some(("=".to_string(), "12".to_string())));
}

#[test]
fn movie_search_filters_and_order() {
    let s = MovieSearch::new(&"u".to_string()).cast(7).id(3).order_by("Movies.title".to_string());
    assert_eq!(s.criteria.filters[0].column, "MovieCasts.person_id");
    assert_eq!(s.criteria.filters[1].column, "Movies.id");
    assert_eq!(s.criteria.order_by, Some("Movies.title".to_string()));
}

#[test]
fn decimal_text() {
    assert_eq!(decimal_string(0), "0");
    assert_eq!(decimal_string(1234567890), "1234567890");
    assert_eq!(decimal_string(u64::MAX), "18446744073709551615");
    assert_eq!(signed_decimal_string(-42), "-42");
    assert_eq!(signed_decimal_string(i64::MIN), "-9223372036854775808");
}

#[test]
fn split_on_commas() {
    assert_eq!(split_text("en,fr,de", ','), vec!["en", "fr", "de"]);
    assert_eq!(split_text("", ','), vec![""]);
    assert_eq!(split_text("a,", ','), vec!["a", ""]);
    assert_eq!(parse_concat(Some("Drama,Comedy".to_string())), Some(vec!["Drama".to_string(), "Comedy".to_string()]));
    assert_eq!(parse_concat(None), None);
}

#[test]
fn digits_and_spaces() {
    assert_eq!(parse_u64("0042"), Some(42));
    assert_eq!(parse_u64("18446744073709551615"), Some(u64::MAX));
    assert_eq!(parse_u64("18446744073709551616"), None);
    assert_eq!(parse_u64(""), None);
    assert_eq!(parse_u64("4a"), None);
    assert_eq!(replace_with_space("The.Big.Show", '.'), "The Big Show");
}

#[test]
fn watched_counter_defaults_to_zero() {
    assert_eq!(parse_watched(None), 0);
    assert_eq!(parse_watched(Some(3)), 3);
}

#[test]
fn watched_aggregation_is_minimum() {
    assert_eq!(aggregate_watched(&vec![1, 0]), 0);
    assert_eq!(aggregate_watched(&vec![1, 2]), 1);
    assert_eq!(aggregate_watched(&vec![3, 2, 5]), 2);
    assert_eq!(aggregate_watched(&vec![]), 0);
}

#[test]
fn watch_threshold_and_counter() {
    assert!(!is_watched_through(85, 100));
    assert!(is_watched_through(86, 100));
    assert!(!is_watched_through(850, 1099));
    assert!(is_watched_through(851, 1099));
    assert!(!is_watched_through(850, 1000));
    assert_eq!(next_watched_count(2, true), 3);
    assert_eq!(next_watched_count(2, false), 0);
    assert_eq!(next_watched_count(u64::MAX, true), u64::MAX);
}

#[test]
fn poster_inherited_from_first_member_only() {
    let empty = String::new();
    let first = inherit_poster(&empty, &"/a.jpg".to_string());
    assert_eq!(first, "/a.jpg");
    let second = inherit_poster(&first, &"/b.jpg".to_string());
    assert_eq!(second, "/a.jpg");
}

#[test]
fn person_orphan_rule() {
    let none = CreditPresence { movie_cast: false, movie_crew: false, tv_cast: false, tv_crew: false };
    assert!(is_orphaned(&none));
    let one = CreditPresence { movie_cast: false, movie_crew: false, tv_cast: false, tv_crew: true };
    assert!(!is_orphaned(&one));
}

#[test]
fn cascade_target_follows_media() {
    assert!(matches!(cascade_target(0, Some(4)), CascadeTarget::Movie(4)));
    assert!(matches!(cascade_target(1, Some(9)), CascadeTarget::Episode(9)));
    assert!(matches!(cascade_target(0, None), CascadeTarget::Nothing));
    assert!(matches!(cascade_target(2, Some(9)), CascadeTarget::Nothing));
}

#[test]
fn show_file_name_groups() {
    let caps = Some(vec![
        "/tv/The.Show.S02E11.mkv".to_string(),
        "The.Show".to_string(),
        "02".to_string(),
        "11".to_string(),
        "mkv".to_string(),
    ]);
    let (name, season, episode) = tv_info_from_captures(&caps).unwrap();
    assert_eq!(name, "The Show");
    assert_eq!(season, 2);
    assert_eq!(episode, 11);
    assert_eq!(tv_info_from_captures(&None).unwrap_err().kind, ErrorKind::ParseName);
    let (title, year) = movie_info_from_captures(&Some(vec![
        "x".to_string(),
        "A.Film".to_string(),
        "1999".to_string(),
        "mkv".to_string(),
    ]))
    .unwrap();
    assert_eq!(title, "A Film");
    assert_eq!(year, 1999);
}

#[test]
fn parse_paths_through_regex() {
    let v = Video::new("u".to_string(), "/media/tv/Dark.Matter.s01e03.720p.mkv".to_string(), 1);
    let (name, season, episode) = v.parse_tv().unwrap();
    assert_eq!(name, "Dark Matter");
    assert_eq!((season, episode), (1, 3));
    let m = Video::new("u".to_string(), "/media/movies/Blade.Runner.1982.mkv".to_string(), 0);
    let (title, year) = m.parse_movie().unwrap();
    assert_eq!(title, "Blade Runner");
    assert_eq!(year, 1982);
    let bad = Video::new("u".to_string(), "noslash.mkv".to_string(), 0);
    assert_eq!(bad.parse_movie().unwrap_err().kind, ErrorKind::ParseName);
}

#[test]
fn row_cells_decode() {
    let row = vec![Cell::Integer(5), Cell::Real("7.5".to_string()), Cell::Null, Cell::Text("a,b".to_string())];
    assert_eq!(get_u64(&row, 0, "t").unwrap(), 5);
    assert_eq!(get_number(&row, 1, "t").unwrap(), "7.5");
    assert_eq!(get_number(&row, 0, "t").unwrap(), "5");
    assert_eq!(get_list(&row, 2, "t").unwrap(), Vec::<String>::new());
    assert_eq!(get_list(&row, 3, "t").unwrap(), vec!["a", "b"]);
    assert_eq!(get_u64(&row, 1, "t").unwrap_err().kind, ErrorKind::Decode);
    assert_eq!(get_u64(&row, 9, "t").unwrap_err().kind, ErrorKind::Decode);
}

#[test]
fn video_result_row_with_unassigned_media() {
    let mut row: Vec<Cell> = Vec::new();
    row.push(Cell::Integer(1));
    row.push(Cell::Text("/a.mkv".to_string()));
    row.push(Cell::Integer(0));
    row.push(Cell::Null);
    row.push(Cell::Text("2024-01-01".to_string()));
    for _ in 5..10 {
        row.push(Cell::Null);
    }
    row.push(Cell::Integer(100));
    row.push(Cell::Text("h264".to_string()));
    row.push(Cell::Integer(2000));
    row.push(Cell::Null);
    row.push(Cell::Text("en".to_string()));
    let r = VideoResult::from_row(&"u".to_string(), &row).unwrap();
    assert!(matches!(r.info, medialibrary::video::MediaInfo::Unknown));
    assert_eq!(r.audios, vec!["en"]);
    assert_eq!(r.duration, 100);
}

#[test]
fn video_from_probed_tracks() {
    let tracks = vec![
        Track::General { bit_rate: 5000, duration: 3600, size: 1 << 30 },
        Track::Picture { codec: Some("avc1".to_string()), width: 1920, height: 1080 },
        Track::Audio { language: Some("en".to_string()) },
        Track::Audio { language: Some("fr".to_string()) },
        Track::Audio { language: Some("en".to_string()) },
        Track::Audio { language: None },
        Track::Text { language: Some("de".to_string()) },
        Track::Other,
    ];
    let v = Video::from_tracks("u".to_string(), "/a.mkv".to_string(), 0, &tracks);
    assert_eq!((v.bit_rate, v.duration, v.size), (5000, 3600, 1 << 30));
    assert_eq!(v.codec, Some("avc1".to_string()));
    assert_eq!((v.width, v.height), (1920, 1080));
    assert_eq!(v.audios, vec!["en", "fr"]);
    assert_eq!(v.subtitles, vec!["de"]);
    assert_eq!(v.media_id, None);
    let bare = Video::from_tracks("u".to_string(), "/b.mkv".to_string(), 1, &Vec::new());
    assert_eq!((bare.bit_rate, bare.width), (0, 0));
    assert!(bare.audios.is_empty());
}

#[test]
fn empty_asset_paths_are_skipped() {
    let paths = vec!["/a.jpg".to_string(), String::new(), "/b.jpg".to_string()];
    assert_eq!(assets_to_fetch(&paths), vec!["/a.jpg", "/b.jpg"]);
}

#[test]
fn delete_statements_cover_owned_rows() {
    let s = movie_delete_statements(5);
    assert_eq!(s.len(), 8);
    assert_eq!(s[0].sql, "DELETE FROM Movies WHERE id=?1");
    assert_eq!(s[7].sql, "DELETE FROM MovieUserWatched WHERE movie_id=?1");
    assert_eq!(s[3].params, vec!["5"]);
    let e = episode_delete_statements(12);
    assert_eq!(e[1].sql, "DELETE FROM EpisodeCasts WHERE episode_id=?1");
    assert_eq!(e[1].params, vec!["12"]);
}

#[test]
fn upsert_statements_only_replace_or_ignore() {
    let m = Movie {
        id: 5,
        budget: 0,
        poster_path: None,
        backdrop_path: None,
        homepage: None,
        title: "T".to_string(),
        original_title: "O".to_string(),
        original_language: "en".to_string(),
        overview: None,
        release_date: "2000".to_string(),
        popularity: "1.5".to_string(),
        adult: true,
        vote_count: 3,
        vote_average: "6.5".to_string(),
        tagline: None,
        status: "Released".to_string(),
        genres: vec![Genre { id: 18, name: "Drama".to_string() }],
        production_companies: Vec::new(),
        production_countries: Vec::new(),
        spoken_languages: Vec::new(),
        credits: Credits { cast: Vec::new(), crew: Vec::new() },
        videos: Videos { results: Vec::new() },
        keywords: KeywordsMovie { keywords: vec![Keyword { id: 4, name: "k".to_string() }] },
    };
    let s = movie_upsert_statements(&m);
    assert_eq!(s.len(), 5);
    assert!(s[0].sql.starts_with("INSERT OR REPLACE INTO Movies ("));
    assert_eq!(s[0].params[0], "5");
    assert_eq!(s[0].params[5], "");
    assert_eq!(s[0].params[13], "true");
    assert_eq!(s[1].params, vec!["18", "Drama"]);
    assert_eq!(s[2].params, vec!["18", "5"]);
    assert!(s[4].sql.starts_with("INSERT OR IGNORE INTO Keywords"));
    for st in &s {
        assert!(st.sql.starts_with("INSERT OR REPLACE INTO ") || st.sql.starts_with("INSERT OR IGNORE INTO "));
    }
}

#[test]
fn episode_needs_a_season_id() {
    use_episode_plan();
}

fn use_episode_plan() {
    let e = Episode {
        air_date: "2010".to_string(),
        guest_stars: Vec::new(),
        name: "E".to_string(),
        overview: None,
        id: 9,
        production_code: None,
        season_number: 1,
        episode_number: 2,
        still_path: None,
        vote_average: "7.0".to_string(),
        vote_count: 3,
        credits: Credits { cast: Vec::new(), crew: Vec::new() },
    };
    assert_eq!(episode_plan(4, None, &e).unwrap_err().kind, ErrorKind::NotFound);
    let (stmts, ids) = episode_plan(4, Some(41), &e).unwrap();
    assert_eq!(stmts.len(), 1);
    assert_eq!(&stmts[0].params[0..3], &["9".to_string(), "41".to_string(), "4".to_string()]);
    assert!(ids.is_empty());
}
