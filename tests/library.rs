use medialibrary::collection::Collection;
use medialibrary::error::ErrorKind;
use medialibrary::metadata;
use medialibrary::search::{CollectionSearch, EpisodeSearch, MovieSearch, PersonSearch, TvSearch, VideoSearch};
use medialibrary::store::{Cell, SqlLibrary};
use medialibrary::video::Video;
use medialibrary::library::Library;
use medialibrary::probe::Track;

fn user() -> String {
    "alice".to_string()
}

fn count(db: &SqlLibrary, sql: &str) -> i64 {
    let rows = db.query(sql, &Vec::new(), "count").unwrap();
    match rows[0][0] {
        Cell::Integer(n) => n,
        _ => panic!("not a count"),
    }
}

fn cast(id: u64, character: &str, order: u64) -> metadata::Cast {
    metadata::Cast {
        adult: false,
        gender: Some(1),
        id,
        known_for_department: None,
        name: format!("Actor {}", id),
        original_name: format!("Actor {}", id),
        popularity: "1.5".to_string(),
        profile_path: None,
        cast_id: None,
        character: Some(character.to_string()),
        credit_id: format!("c{}", id),
        order,
    }
}

fn crew(id: u64, job: &str) -> metadata::Crew {
    metadata::Crew {
        adult: false,
        gender: None,
        id,
        known_for_department: None,
        name: format!("Crew {}", id),
        original_name: format!("Crew {}", id),
        popularity: "0.5".to_string(),
        profile_path: None,
        credit_id: format!("k{}", id),
        department: "Dept".to_string(),
        job: job.to_string(),
    }
}

fn clip(site: &str, key: &str) -> metadata::Video {
    metadata::Video {
        iso_639_1: "en".to_string(),
        iso_3166_1: "US".to_string(),
        name: format!("Trailer {}", key),
        key: key.to_string(),
        published_at: "2020".to_string(),
        site: site.to_string(),
        size: 1080,
        _type: None,
        id: key.to_string(),
    }
}

fn movie(id: u64, poster: Option<&str>, credits: metadata::Credits) -> metadata::Movie {
    metadata::Movie {
        id,
        budget: 0,
        poster_path: poster.map(|p| p.to_string()),
        backdrop_path: Some(format!("/back{}.jpg", id)),
        homepage: None,
        title: format!("Movie {}", id),
        original_title: format!("Original {}", id),
        original_language: "en".to_string(),
        overview: Some("An overview".to_string()),
        release_date: "2001-01-01".to_string(),
        popularity: "12.5".to_string(),
        adult: false,
        vote_count: 10,
        vote_average: "7.5".to_string(),
        tagline: None,
        status: "Released".to_string(),
        genres: vec![metadata::Genre { id: 18, name: "Drama".to_string() }],
        production_companies: Vec::new(),
        production_countries: Vec::new(),
        spoken_languages: Vec::new(),
        credits,
        videos: metadata::Videos { results: vec![clip("YouTube", "yt1"), clip("Vimeo", "vm1")] },
        keywords: metadata::KeywordsMovie { keywords: vec![metadata::Keyword { id: 3, name: "space".to_string() }] },
    }
}

fn person(id: u64) -> metadata::Person {
    metadata::Person {
        birthday: Some("1970-01-01".to_string()),
        known_for_department: None,
        deathday: None,
        id,
        name: format!("Person {}", id),
        also_known_as: Vec::new(),
        gender: 2,
        biography: "Bio".to_string(),
        popularity: "3.25".to_string(),
        place_of_birth: None,
        profile_path: Some(format!("/p{}.jpg", id)),
        adult: false,
        imdb_id: None,
        homepage: None,
    }
}

fn show(id: u64) -> metadata::Tv {
    metadata::Tv {
        id,
        backdrop_path: None,
        poster_path: Some("/show.jpg".to_string()),
        episode_run_time: vec![42],
        first_air_date: Some("2010-01-01".to_string()),
        genres: vec![metadata::Genre { id: 10765, name: "Sci-Fi".to_string() }],
        homepage: None,
        in_production: false,
        languages: Vec::new(),
        last_air_date: None,
        name: format!("Show {}", id),
        number_of_episodes: 2,
        number_of_seasons: 1,
        origin_country: Vec::new(),
        original_language: "en".to_string(),
        original_name: format!("Show {}", id),
        overview: None,
        popularity: "9.5".to_string(),
        production_companies: Vec::new(),
        production_countries: Vec::new(),
        spoken_languages: Vec::new(),
        credits: metadata::Credits { cast: vec![cast(900, "Lead", 0)], crew: Vec::new() },
        status: "Ended".to_string(),
        tagline: String::new(),
        vote_count: 5,
        vote_average: "8.0".to_string(),
        created_by: vec![metadata::CreatedBy {
            gender: None,
            id: 901,
            name: "Creator".to_string(),
            profile_path: None,
            credit_id: "cr".to_string(),
        }],
        last_episode_to_air: None,
        networks: Vec::new(),
        seasons: vec![metadata::Season {
            air_date: None,
            episode_count: 2,
            name: "Season 1".to_string(),
            id: id * 10 + 1,
            poster_path: Some("/s1.jpg".to_string()),
            season_number: 1,
            overview: None,
        }],
        videos: metadata::Videos { results: Vec::new() },
        keywords: metadata::KeywordsTv { results: Vec::new() },
    }
}

fn episode(id: u64, number: u64) -> metadata::TvEpisode {
    metadata::TvEpisode {
        air_date: "2010-01-08".to_string(),
        guest_stars: Vec::new(),
        name: format!("Episode {}", number),
        overview: None,
        id,
        production_code: None,
        season_number: 1,
        episode_number: number,
        still_path: None,
        vote_average: "7.0".to_string(),
        vote_count: 3,
        credits: metadata::Credits { cast: Vec::new(), crew: vec![crew(902, "Director")] },
    }
}

fn add_video(db: &mut SqlLibrary, path: &str, media_type: u8) -> u64 {
    let mut v = Video::new(user(), path.to_string(), media_type);
    v.duration = 1000;
    v.audios = vec!["en".to_string()];
    db.create_video(&v).unwrap()
}

fn assign(db: &mut SqlLibrary, video_id: u64, media_id: u64) {
    db.edit_video_media_id(video_id, media_id).unwrap();
}

#[test]
fn connect_twice_keeps_rows() {
    let mut db = SqlLibrary::connect(":memory:").unwrap();
    add_video(&mut db, "/a.mkv", 0);
    medialibrary::schema::init_db(&mut db).unwrap();
    assert_eq!(count(&db, "SELECT COUNT(*) FROM Videos"), 1);
}

#[test]
fn unassigned_video_only_in_unknown_search() {
    let mut db = SqlLibrary::connect(":memory:").unwrap();
    let id = add_video(&mut db, "/movies/Film.2001.mkv", 0);
    let unknown = VideoSearch::new(&user()).unknown().results(&db, None, None).unwrap();
    assert_eq!(unknown.len(), 1);
    assert_eq!(unknown[0].id, id);
    assert_eq!(unknown[0].audios, vec!["en"]);
    let video = db.get_video(&user(), id).unwrap().unwrap();
    assert_eq!(video.media_id, None);
    assert_eq!(video.path, "/movies/Film.2001.mkv");
    assert!(MovieSearch::new(&user()).results(&db, None, None).unwrap().is_empty());
    assert!(TvSearch::new(&user()).results(&db, None, None).unwrap().is_empty());
    assert!(EpisodeSearch::new(&user()).results(&db, None, None).unwrap().is_empty());
}

#[test]
fn duplicate_video_path_fails_whole_registration() {
    let mut db = SqlLibrary::connect(":memory:").unwrap();
    add_video(&mut db, "/a.mkv", 0);
    let mut v = Video::new(user(), "/a.mkv".to_string(), 0);
    v.subtitles = vec!["de".to_string()];
    let e = db.create_video(&v).unwrap_err();
    assert_eq!(e.kind, ErrorKind::TransactionFailure);
    assert_eq!(e.location, "create_video");
    assert_eq!(count(&db, "SELECT COUNT(*) FROM Videos"), 1);
    assert_eq!(count(&db, "SELECT COUNT(*) FROM Subtitles"), 0);
}

#[test]
fn movie_upsert_twice_is_idempotent() {
    let mut db = SqlLibrary::connect(":memory:").unwrap();
    let credits = metadata::Credits {
        cast: vec![cast(100, "Hero", 0)],
        crew: vec![crew(101, "Director"), crew(102, "Gaffer")],
    };
    let m = movie(5, Some("/poster5.jpg"), credits);
    let (ids, paths) = db.create_movie(&m).unwrap();
    assert_eq!(ids, vec![100, 101]);
    assert_eq!(paths, vec!["/back5.jpg", "/poster5.jpg"]);
    let v = add_video(&mut db, "/m5.mkv", 0);
    assign(&mut db, v, 5);
    let first = db.get_movie(&user(), 5).unwrap().unwrap();
    db.create_movie(&m).unwrap();
    let second = db.get_movie(&user(), 5).unwrap().unwrap();
    for table in ["Movies", "MovieGenres", "MovieGenreLinks", "MovieCasts", "MovieCrews", "MovieTrailers", "MovieKeywordLinks", "Keywords"] {
        assert_eq!(count(&db, &format!("SELECT COUNT(*) FROM {}", table)), 1, "{}", table);
    }
    assert_eq!(first.title, second.title);
    assert_eq!(first.genres, vec!["Drama"]);
    assert_eq!(second.genres, vec!["Drama"]);
    assert_eq!(first.vote_count, 10);
    assert_eq!(first.popularity, second.popularity);
    assert_eq!(first.poster_path, "/poster5.jpg");
    assert_eq!(db.get_movie_trailer(5).unwrap()[0].youtube_id, "yt1");
    assert_eq!(db.get_movie_keywords(5).unwrap()[0].name, "space");
    assert_eq!(db.genre_movie().unwrap()[0].id, 18);
}

#[test]
fn movie_hidden_without_video() {
    let mut db = SqlLibrary::connect(":memory:").unwrap();
    db.create_movie(&movie(6, None, metadata::Credits { cast: Vec::new(), crew: Vec::new() })).unwrap();
    assert!(db.get_movie(&user(), 6).unwrap().is_none());
    assert!(MovieSearch::new(&user()).id(6).last(&db).unwrap().is_none());
}

#[test]
fn removing_last_video_cascades_to_movie_and_person() {
    let mut db = SqlLibrary::connect(":memory:").unwrap();
    let credits = metadata::Credits { cast: vec![cast(100, "Hero", 0)], crew: Vec::new() };
    db.create_movie(&movie(5, Some("/p.jpg"), credits)).unwrap();
    db.create_person(&person(100)).unwrap();
    let v = add_video(&mut db, "/m5.mkv", 0);
    assign(&mut db, v, 5);
    assert_eq!(db.get_movie_cast(&user(), 5).unwrap()[0].name, "Person 100");
    let report = db.remove_video(v).unwrap();
    assert_eq!(report.movie_deleted, Some(5));
    assert_eq!(report.persons_deleted, vec![100]);
    for table in ["Movies", "MovieGenreLinks", "MovieKeywordLinks", "MovieCasts", "MovieCrews", "MovieTrailers", "Persons", "Videos"] {
        assert_eq!(count(&db, &format!("SELECT COUNT(*) FROM {}", table)), 0, "{}", table);
    }
}

#[test]
fn person_with_other_credit_survives_cascade() {
    let mut db = SqlLibrary::connect(":memory:").unwrap();
    let c1 = metadata::Credits { cast: vec![cast(100, "Hero", 0)], crew: Vec::new() };
    let c2 = metadata::Credits { cast: Vec::new(), crew: vec![crew(100, "Producer")] };
    db.create_movie(&movie(5, None, c1)).unwrap();
    db.create_movie(&movie(7, None, c2)).unwrap();
    db.create_person(&person(100)).unwrap();
    let v5 = add_video(&mut db, "/m5.mkv", 0);
    assign(&mut db, v5, 5);
    let v7 = add_video(&mut db, "/m7.mkv", 0);
    assign(&mut db, v7, 7);
    let report = db.remove_video(v5).unwrap();
    assert_eq!(report.movie_deleted, Some(5));
    assert!(report.persons_deleted.is_empty());
    assert!(db.get_person(&user(), 100).unwrap().is_some());
    assert_eq!(count(&db, "SELECT COUNT(*) FROM Movies"), 1);
}

#[test]
fn second_video_keeps_movie() {
    let mut db = SqlLibrary::connect(":memory:").unwrap();
    db.create_movie(&movie(5, None, metadata::Credits { cast: Vec::new(), crew: Vec::new() })).unwrap();
    let a = add_video(&mut db, "/a.mkv", 0);
    let b = add_video(&mut db, "/b.mkv", 0);
    assign(&mut db, a, 5);
    assign(&mut db, b, 5);
    let report = db.remove_video(a).unwrap();
    assert_eq!(report.movie_deleted, None);
    assert!(db.get_movie(&user(), 5).unwrap().is_some());
}

#[test]
fn unassigned_video_removal_cascades_nothing() {
    let mut db = SqlLibrary::connect(":memory:").unwrap();
    db.create_movie(&movie(5, None, metadata::Credits { cast: Vec::new(), crew: Vec::new() })).unwrap();
    let a = add_video(&mut db, "/a.mkv", 0);
    let report = db.remove_video(a).unwrap();
    assert_eq!(report.movie_deleted, None);
    assert_eq!(count(&db, "SELECT COUNT(*) FROM Movies"), 1);
}

fn stored_show(db: &mut SqlLibrary) -> (u64, u64) {
    let (ids, paths) = db.create_tv(&show(50)).unwrap();
    assert_eq!(ids, vec![900, 901]);
    assert_eq!(paths, vec!["/s1.jpg", "/show.jpg"]);
    let (eids, epaths) = db.create_episode(50, &episode(501, 1)).unwrap();
    assert_eq!(eids, vec![902]);
    assert!(epaths.is_empty());
    db.create_episode(50, &episode(502, 2)).unwrap();
    let v1 = add_video(db, "/Show.S01E01.mkv", 1);
    let v2 = add_video(db, "/Show.S01E02.mkv", 1);
    assign(db, v1, 501);
    assign(db, v2, 502);
    (v1, v2)
}

#[test]
fn show_watched_is_minimum_of_episodes() {
    let mut db = SqlLibrary::connect(":memory:").unwrap();
    stored_show(&mut db);
    db.set_episode_watched(user(), 501, 1).unwrap();
    db.set_episode_watched(user(), 502, 0).unwrap();
    assert_eq!(db.get_tv(&user(), 50).unwrap().unwrap().watched, 0);
    assert_eq!(db.get_season(&user(), 50, 1).unwrap().unwrap().watched, 0);
    db.set_episode_watched(user(), 502, 2).unwrap();
    let tv = db.get_tv(&user(), 50).unwrap().unwrap();
    assert!(tv.watched >= 1);
    assert_eq!(tv.watched, 1);
    assert!(db.get_season(&user(), 50, 1).unwrap().unwrap().watched >= 1);
    let listed = TvSearch::new(&user()).id(50).last(&db).unwrap().unwrap();
    assert_eq!(listed.watched, 1);
}

#[test]
fn episodes_by_show_season_and_number() {
    let mut db = SqlLibrary::connect(":memory:").unwrap();
    stored_show(&mut db);
    db.create_person(&person(901)).unwrap();
    db.create_person(&person(902)).unwrap();
    let e = EpisodeSearch::new(&user()).tv(50).season(1).episode(2).last(&db).unwrap().unwrap();
    assert_eq!(e.id, 502);
    assert_eq!(e.tv_title, "Show 50");
    assert_eq!(e.poster_path, "/show.jpg");
    assert_eq!(db.get_episode_crew(&user(), 501).unwrap().len(), 1);
    assert_eq!(db.get_tv_crew(&user(), 50).unwrap()[0].job, "Creator");
    assert_eq!(db.get_seasons(&user(), 50).unwrap().len(), 1);
}

#[test]
fn episode_needs_its_season() {
    let mut db = SqlLibrary::connect(":memory:").unwrap();
    let e = db.create_episode(77, &episode(1, 1)).unwrap_err();
    assert_eq!(e.kind, ErrorKind::NotFound);
}

#[test]
fn removing_last_episode_video_removes_show() {
    let mut db = SqlLibrary::connect(":memory:").unwrap();
    let (v1, v2) = stored_show(&mut db);
    let first = db.remove_video(v1).unwrap();
    assert_eq!(first.episode_deleted, Some(501));
    assert_eq!(first.tv_deleted, None);
    let second = db.remove_video(v2).unwrap();
    assert_eq!(second.episode_deleted, Some(502));
    assert_eq!(second.tv_deleted, Some(50));
    assert_eq!(count(&db, "SELECT COUNT(*) FROM Tvs"), 0);
    assert_eq!(count(&db, "SELECT COUNT(*) FROM Seasons"), 0);
}

#[test]
fn paging_returns_rows_three_and_four() {
    let mut db = SqlLibrary::connect(":memory:").unwrap();
    for i in 1..=5 {
        add_video(&mut db, &format!("/v{}.mkv", i), 0);
    }
    let search = VideoSearch::new(&user()).order_by("VideosView.id".to_string());
    let page = search.results(&db, Some(2), Some(2)).unwrap();
    let ids: Vec<u64> = page.iter().map(|v| v.id).collect();
    assert_eq!(ids, vec![3, 4]);
    let again: Vec<u64> = search.results(&db, Some(2), Some(2)).unwrap().iter().map(|v| v.id).collect();
    assert_eq!(again, ids);
}

#[test]
fn collection_poster_inherited_from_first_movie() {
    let mut db = SqlLibrary::connect(":memory:").unwrap();
    let empty = metadata::Credits { cast: Vec::new(), crew: Vec::new() };
    db.create_movie(&movie(5, Some("/first.jpg"), empty)).unwrap();
    db.create_movie(&movie(6, Some("/second.jpg"), metadata::Credits { cast: Vec::new(), crew: Vec::new() })).unwrap();
    let a = add_video(&mut db, "/a.mkv", 0);
    let b = add_video(&mut db, "/b.mkv", 0);
    assign(&mut db, a, 5);
    assign(&mut db, b, 6);
    let mut c: Collection = db.create_collection(&user(), "Favourites".to_string()).unwrap();
    assert_eq!(c.poster_path, "");
    c.add_movie(&mut db, 5).unwrap();
    assert_eq!(c.poster_path, "/first.jpg");
    c.add_movie(&mut db, 6).unwrap();
    assert_eq!(c.poster_path, "/first.jpg");
    let saved = c.save(&mut db).unwrap();
    assert_eq!(saved.poster_path, "/first.jpg");
    let found = CollectionSearch::new(&user()).movie(6).results(&db, None, None).unwrap();
    assert_eq!(found.len(), 1);
    assert_eq!(found[0].name, "Favourites");
}

#[test]
fn duplicate_collection_name_refused() {
    let mut db = SqlLibrary::connect(":memory:").unwrap();
    db.create_collection(&user(), "Mine".to_string()).unwrap();
    let e = db.create_collection(&user(), "Mine".to_string()).unwrap_err();
    assert_eq!(e.kind, ErrorKind::ConstraintViolation);
}

#[test]
fn person_round_trip() {
    let mut db = SqlLibrary::connect(":memory:").unwrap();
    let (ids, paths) = db.create_person(&person(7)).unwrap();
    assert!(ids.is_empty());
    assert_eq!(paths, vec!["/p7.jpg"]);
    let p = db.get_person(&user(), 7).unwrap().unwrap();
    assert_eq!(p.name, "Person 7");
    assert_eq!(p.gender, 2);
    assert_eq!(p.popularity, "3.25");
    assert_eq!(PersonSearch::new(&user()).id(7).results(&db, None, None).unwrap().len(), 1);
}

#[test]
fn watch_time_marks_movie_watched() {
    let mut db = SqlLibrary::connect(":memory:").unwrap();
    db.create_movie(&movie(5, None, metadata::Credits { cast: Vec::new(), crew: Vec::new() })).unwrap();
    let id = add_video(&mut db, "/a.mkv", 0);
    assign(&mut db, id, 5);
    let v = db.get_video(&user(), id).unwrap().unwrap();
    assert!(!v.set_watch_time(&mut db, 500).unwrap());
    assert_eq!(db.get_movie(&user(), 5).unwrap().unwrap().watched, 0);
    assert!(v.set_watch_time(&mut db, 900).unwrap());
    assert_eq!(db.get_movie(&user(), 5).unwrap().unwrap().watched, 1);
    assert_eq!(db.get_video(&user(), id).unwrap().unwrap().watch_time, Some(900));
}

#[test]
fn video_type_mismatch_is_refused() {
    let mut db = SqlLibrary::connect(":memory:").unwrap();
    let id = add_video(&mut db, "/a.mkv", 0);
    let mut v = db.get_video(&user(), id).unwrap().unwrap();
    assert_eq!(v.set_tv(&mut db, 1).unwrap_err().kind, ErrorKind::MediaType);
    assert_eq!(v.tv_episode(&db).unwrap_err().kind, ErrorKind::MediaType);
}

#[test]
fn failed_transaction_leaves_nothing() {
    let mut db = SqlLibrary::connect(":memory:").unwrap();
    db.execute("DROP TABLE MovieKeywordLinks", &Vec::new(), "test").unwrap();
    let e = db.create_movie(&movie(5, None, metadata::Credits { cast: vec![cast(1, "A", 0)], crew: Vec::new() })).unwrap_err();
    assert_eq!(e.kind, ErrorKind::TransactionFailure);
    assert_eq!(e.location, "create_movie");
    assert_eq!(count(&db, "SELECT COUNT(*) FROM Movies"), 0);
    assert_eq!(count(&db, "SELECT COUNT(*) FROM MovieCasts"), 0);
}

#[test]
fn ingest_movie_lists_unknown_people() {
    let mut db = SqlLibrary::connect(":memory:").unwrap();
    db.create_person(&person(100)).unwrap();
    let credits = metadata::Credits { cast: vec![cast(100, "A", 0), cast(101, "B", 1)], crew: Vec::new() };
    let pending = db.ingest_movie(&user(), &movie(5, Some("/p.jpg"), credits)).unwrap();
    assert_eq!(pending.persons, vec![101]);
    assert_eq!(pending.assets, vec!["/back5.jpg", "/p.jpg"]);
    assert!(!db.movie_known(&user(), 5).unwrap());
}

#[test]
fn library_registers_probed_video() {
    let mut lib = Library::new(":memory:", "/rsc".to_string()).unwrap();
    let tracks = vec![
        Track::General { bit_rate: 1, duration: 2, size: 3 },
        Track::Text { language: Some("en".to_string()) },
    ];
    let v = lib.new_video(user(), "/x.mkv".to_string(), 0, &tracks).unwrap();
    assert_eq!(v.duration, 2);
    assert_eq!(v.subtitles, vec!["en"]);
    assert_eq!(lib.videos(user()).path("/x.mkv".to_string()).results(&lib.db, None, None).unwrap().len(), 1);
    assert!(lib.movie(user(), 1).unwrap().is_none());
}

#[test]
fn collection_edits_and_show_membership() {
    let mut lib = Library::new(":memory:", "/rsc".to_string()).unwrap();
    lib.db.create_tv(&show(50)).unwrap();
    lib.db.create_episode(50, &episode(501, 1)).unwrap();
    let v = add_video(&mut lib.db, "/Show.S01E01.mkv", 1);
    assign(&mut lib.db, v, 501);
    assert_eq!(lib.tvs(user()).results(&lib.db, None, None).unwrap().len(), 1);
    assert_eq!(lib.tv_season(user(), 50, 1).unwrap().unwrap().season_number, 1);
    assert!(lib.tv_season(user(), 50, 2).unwrap().is_none());
    assert_eq!(lib.tv_episodes(user()).tv(50).results(&lib.db, None, None).unwrap().len(), 1);
    let mut c = lib.new_collection(user(), "Shows".to_string()).unwrap();
    c.edit_description("Good ones".to_string());
    c.add_tv(&mut lib.db, 50).unwrap();
    assert_eq!(c.poster_path, "/show.jpg");
    c.edit_poster_path("/mine.jpg".to_string());
    let saved = c.save(&mut lib.db).unwrap();
    assert_eq!(saved.description, "Good ones");
    assert_eq!(saved.poster_path, "/mine.jpg");
    let listed = CollectionSearch::new(&user()).tv(50).results(&lib.db, None, None).unwrap();
    assert_eq!(listed.len(), 1);
    c.delete(&mut lib.db).unwrap();
    assert!(lib.collection(user(), c.id).unwrap().is_none());
}

#[test]
fn video_path_can_move() {
    let mut db = SqlLibrary::connect(":memory:").unwrap();
    let id = add_video(&mut db, "/old.mkv", 0);
    let v = db.get_video(&user(), id).unwrap().unwrap();
    v.set_path(&mut db, "/new.mkv".to_string()).unwrap();
    assert_eq!(db.get_video(&user(), id).unwrap().unwrap().path, "/new.mkv");
    assert_eq!(VideoSearch::new(&user()).path("/new.mkv".to_string()).results(&db, None, None).unwrap().len(), 1);
}

#[test]
fn schema_lists_tables_before_views() {
    use_schema_items();
}

fn use_schema_items() {
    let items = medialibrary::schema::schema_items();
    let first_view = items
        .iter()
        .position(|i| matches!(i, medialibrary::schema::SchemaItem::View(_, _)))
        .unwrap();
    assert!(items[first_view..].iter().all(|i| matches!(i, medialibrary::schema::SchemaItem::View(_, _))));
    assert_eq!(items.len(), 40);
}

#[test]
fn cascade_report_records_what_it_found() {
    let mut db = SqlLibrary::connect(":memory:").unwrap();
    let c1 = metadata::Credits { cast: vec![cast(100, "Hero", 0), cast(101, "Sidekick", 1)], crew: Vec::new() };
    let c2 = metadata::Credits { cast: vec![cast(101, "Cameo", 0)], crew: Vec::new() };
    db.create_movie(&movie(5, None, c1)).unwrap();
    db.create_movie(&movie(7, None, c2)).unwrap();
    db.create_person(&person(100)).unwrap();
    db.create_person(&person(101)).unwrap();
    let a = add_video(&mut db, "/a.mkv", 0);
    let b = add_video(&mut db, "/b.mkv", 0);
    assign(&mut db, a, 5);
    assign(&mut db, b, 5);
    let va = db.get_video(&user(), a).unwrap().unwrap();
    let kept = va.delete(&mut db).unwrap();
    assert!(kept.still_shown);
    assert_eq!(kept.movie_deleted, None);
    assert!(kept.person_checks.is_empty());
    let vb = db.get_video(&user(), b).unwrap().unwrap();
    let gone = vb.delete(&mut db).unwrap();
    assert!(!gone.still_shown);
    assert_eq!(gone.movie_deleted, Some(5));
    let mut checked: Vec<u64> = gone.person_checks.iter().map(|c| c.0).collect();
    checked.sort();
    assert_eq!(checked, vec![100, 101]);
    assert_eq!(gone.persons_deleted, vec![100]);
    assert!(db.get_person(&user(), 101).unwrap().is_some());
}

#[test]
fn unassigned_video_record_delete_removes_nothing_else() {
    let mut db = SqlLibrary::connect(":memory:").unwrap();
    db.create_movie(&movie(5, None, metadata::Credits { cast: Vec::new(), crew: Vec::new() })).unwrap();
    let a = add_video(&mut db, "/a.mkv", 0);
    let v = db.get_video(&user(), a).unwrap().unwrap();
    let report = v.delete(&mut db).unwrap();
    assert!(!report.still_shown);
    assert_eq!(report.movie_deleted, None);
    assert!(report.person_checks.is_empty());
    assert_eq!(count(&db, "SELECT COUNT(*) FROM Movies"), 1);
    assert_eq!(count(&db, "SELECT COUNT(*) FROM Videos"), 0);
}

#[test]
fn episode_cascade_reports_the_show_check() {
    let mut db = SqlLibrary::connect(":memory:").unwrap();
    let (v1, v2) = stored_show(&mut db);
    let first = db.remove_video(v1).unwrap();
    assert_eq!(first.show_still_shown, Some(true));
    assert_eq!(first.tv_deleted, None);
    let second = db.remove_video(v2).unwrap();
    assert_eq!(second.show_still_shown, Some(false));
    assert_eq!(second.tv_deleted, Some(50));
    assert_eq!(second.persons_deleted.len(), second.person_checks.len());
}

#[test]
fn marking_a_show_watched_marks_every_episode() {
    let mut db = SqlLibrary::connect(":memory:").unwrap();
    stored_show(&mut db);
    let tv = db.get_tv(&user(), 50).unwrap().unwrap();
    assert_eq!(tv.watched, 0);
    tv.set_watched(&mut db, true).unwrap();
    assert_eq!(db.get_tv(&user(), 50).unwrap().unwrap().watched, 1);
    let eps = EpisodeSearch::new(&user()).tv(50).results(&db, None, None).unwrap();
    assert!(eps.iter().all(|e| e.watched == 1));
    tv.set_watched(&mut db, false).unwrap();
    assert_eq!(db.get_tv(&user(), 50).unwrap().unwrap().watched, 0);
}

#[test]
fn collection_refuses_member_not_in_library() {
    let mut db = SqlLibrary::connect(":memory:").unwrap();
    let mut c = db.create_collection(&user(), "Empty".to_string()).unwrap();
    let e = c.add_movie(&mut db, 42).unwrap_err();
    assert_eq!(e.kind, ErrorKind::NotFound);
    assert_eq!(c.poster_path, "");
    assert_eq!(count(&db, "SELECT COUNT(*) FROM MovieCollectionLinks"), 0);
}
