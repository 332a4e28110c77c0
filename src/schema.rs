use vstd::prelude::*;

use crate::error::Error;
use crate::query::StatementView;
use crate::store::SqlLibrary;

verus! {

/// The statement that declares a base table, keeping it when it exists.
pub fn table_sql(name: &str, columns: &str) -> (r: String)
    ensures
        r@ == table_text(name@, columns@),
{
    let mut s = String::from_str("CREATE TABLE IF NOT EXISTS ");
    s.append(name);
    s.append(" (");
    s.append(columns);
    s.append(")");
    s
}

/// The two statements that rebuild a view from its current definition: the
/// old view is dropped, then the view is created again.
pub fn view_sql(name: &str, select: &str) -> (r: (String, String))
    ensures
        r.0@ == drop_view_text(name@),
        r.1@ == create_view_text(name@, select@),
{
    let mut drop = String::from_str("DROP VIEW IF EXISTS ");
    drop.append(name);
    let mut create = String::from_str("CREATE VIEW ");
    create.append(name);
    create.append(" AS ");
    create.append(select);
    (drop, create)
}

/// A statement that declares a table only when it is missing.
pub open spec fn is_table_ddl(st: StatementView) -> bool {
    exists|name: Seq<char>, columns: Seq<char>|
        st == (#[trigger] table_text(name, columns), Seq::<Seq<char>>::empty())
}

/// Two statements that drop a view when it exists and then create it anew.
pub open spec fn is_view_rebuild(drop: StatementView, create: StatementView) -> bool {
    exists|name: Seq<char>, select: Seq<char>|
        drop == (drop_view_text(name), Seq::<Seq<char>>::empty()) && create == (
            #[trigger] create_view_text(name, select),
            Seq::<Seq<char>>::empty(),
        )
}

/// Whether a run of schema statements is safe to repeat: each declares a
/// missing table, keeping an existing one and its rows, or rebuilds a view
/// by dropping it first.
pub open spec fn schema_safe(s: Seq<StatementView>) -> bool
    decreases s.len(),
{
    s.len() == 0 || (is_table_ddl(s.last()) && schema_safe(s.drop_last())) || (s.len() >= 2
        && is_view_rebuild(s[s.len() - 2], s.last()) && schema_safe(s.subrange(0, s.len() - 2)))
}

pub open spec fn table_text(name: Seq<char>, columns: Seq<char>) -> Seq<char> {
    "CREATE TABLE IF NOT EXISTS "@ + name + " ("@ + columns + ")"@
}

pub open spec fn drop_view_text(name: Seq<char>) -> Seq<char> {
    "DROP VIEW IF EXISTS "@ + name
}

pub open spec fn create_view_text(name: Seq<char>, select: Seq<char>) -> Seq<char> {
    "CREATE VIEW "@ + name + " AS "@ + select
}

/// One schema item: a base table with its column list, or a view with its
/// query.
pub enum SchemaItem {
    Table(&'static str, &'static str),
    View(&'static str, &'static str),
}

fn create_table(store: &mut SqlLibrary, name: &str, columns: &str) -> (r: Result<(), Error>)
    ensures
        r is Ok ==> final(store).history() == old(store).history().push(
            (table_text(name@, columns@), Seq::<Seq<char>>::empty()),
        ),
        r matches Err(e) ==> e.location@ == "schema"@,
{
    let none: Vec<String> = Vec::new();
    let sql = table_sql(name, columns);
    proof {
        assert(crate::text::texts(none@) =~= Seq::<Seq<char>>::empty());
    }
    store.execute(sql.as_str(), &none, "schema")?;
    Ok(())
}

fn create_view(store: &mut SqlLibrary, name: &str, select: &str) -> (r: Result<(), Error>)
    ensures
        r is Ok ==> final(store).history() == old(store).history().push(
            (drop_view_text(name@), Seq::<Seq<char>>::empty()),
        ).push((create_view_text(name@, select@), Seq::<Seq<char>>::empty())),
        r matches Err(e) ==> e.location@ == "schema"@,
{
    let none: Vec<String> = Vec::new();
    let (drop, create) = view_sql(name, select);
    proof {
        assert(crate::text::texts(none@) =~= Seq::<Seq<char>>::empty());
    }
    store.execute(drop.as_str(), &none, "schema")?;
    store.execute(create.as_str(), &none, "schema")?;
    Ok(())
}

/// The view of one schema item: whether it is a table, its name, and its
/// column list or query.
pub open spec fn item_view(i: SchemaItem) -> (bool, Seq<char>, Seq<char>) {
    match i {
        SchemaItem::Table(n, c) => (true, n@, c@),
        SchemaItem::View(n, q) => (false, n@, q@),
    }
}

pub const VIDEOS_COLUMNS: &'static str = "id INTEGER PRIMARY KEY NOT NULL, path TEXT NOT NULL UNIQUE, media_type INTEGER, media_id INTEGER, duration INTEGER, bit_rate INTEGER, codec TEXT, width INTEGER, height INTEGER, size INTEGER, adding TEXT";

pub const WATCH_TIMES_COLUMNS: &'static str = "video_id INTEGER NOT NULL, user_name INTEGER NOT NULL, watch_time INTEGER, last_watch TEXT, unique(video_id, user_name)";

pub const AUDIOS_COLUMNS: &'static str = "video_id INTEGER NOT NULL, language TEXT, unique(video_id, language)";

pub const SUBTITLES_COLUMNS: &'static str = "video_id INTEGER NOT NULL, language TEXT, unique(video_id, language)";

pub const MOVIES_COLUMNS: &'static str = "id INTEGER PRIMARY KEY NOT NULL, original_title TEXT, original_language TEXT, title TEXT, release_date TEXT, overview TEXT, popularity FLOAT, poster_path TEXT, backdrop_path TEXT, vote_average FLOAT, vote_count INTEGER, tagline TEXT, status TEXT, adult BOOL, updated TEXT";

pub const MOVIE_GENRES_COLUMNS: &'static str = "id INTEGER PRIMARY KEY NOT NULL, name TEXT";

pub const MOVIE_GENRE_LINKS_COLUMNS: &'static str = "movie_id INTEGER NOT NULL, genre_id INTEGER NOT NULL, unique(movie_id,genre_id)";

pub const MOVIE_COLLECTION_LINKS_COLUMNS: &'static str = "movie_id INTEGER NOT NULL, collection_id INTEGER NOT NULL, unique(movie_id, collection_id)";

pub const MOVIE_KEYWORD_LINKS_COLUMNS: &'static str = "movie_id INTEGER NOT NULL, keyword_id INTEGER NOT NULL, unique(movie_id,keyword_id)";

pub const MOVIE_TRAILERS_COLUMNS: &'static str = "movie_id INTEGER NOT NULL, name TEXT, youtube_id TEXT, unique(movie_id,youtube_id)";

pub const MOVIE_CASTS_COLUMNS: &'static str = "movie_id INTEGER NOT NULL, person_id TEXT, character TEXT, ord INTEGER, unique(movie_id,person_id,character)";

pub const MOVIE_CREWS_COLUMNS: &'static str = "movie_id INTEGER NOT NULL, person_id TEXT, job TEXT, unique(movie_id,person_id,job)";

pub const MOVIE_USER_WATCHED_COLUMNS: &'static str = "movie_id INTEGER NOT NULL, user_name TEXT, watched INTEGER, vote_user FLOAT, unique(movie_id,user_name)";

pub const TVS_COLUMNS: &'static str = "id INTEGER PRIMARY KEY NOT NULL, original_title TEXT, original_language TEXT, title TEXT, release_date TEXT, overview TEXT, popularity FLOAT, poster_path TEXT, backdrop_path TEXT, status TEXT, vote_average FLOAT, vote_count INTEGER, in_production BOOL, number_of_episodes INTEGER, number_of_seasons INTEGER, episode_run_time INTEGER, updated TEXT";

pub const TV_GENRES_COLUMNS: &'static str = "id INTEGER PRIMARY KEY NOT NULL, name TEXT";

pub const TV_GENRE_LINKS_COLUMNS: &'static str = "tv_id INTEGER NOT NULL, genre_id INTEGER NOT NULL, unique(tv_id,genre_id)";

pub const TV_COLLECTION_LINKS_COLUMNS: &'static str = "tv_id INTEGER NOT NULL, collection_id INTEGER NOT NULL, unique(tv_id, collection_id)";

pub const TV_KEYWORD_LINKS_COLUMNS: &'static str = "tv_id INTEGER NOT NULL, keyword_id INTEGER NOT NULL, unique(tv_id,keyword_id)";

pub const TV_TRAILERS_COLUMNS: &'static str = "tv_id INTEGER NOT NULL, name TEXT, youtube_id TEXT, unique(tv_id,youtube_id)";

pub const TV_CASTS_COLUMNS: &'static str = "tv_id INTEGER NOT NULL, person_id TEXT, character TEXT, ord INTEGER, unique(tv_id, person_id, character)";

pub const TV_CREWS_COLUMNS: &'static str = "tv_id INTEGER NOT NULL, person_id TEXT, job TEXT, unique(tv_id, person_id, job)";

pub const SEASONS_COLUMNS: &'static str = "id INTEGER PRIMARY KEY NOT NULL, tv_id INTEGER NOT NULL, season_number INTEGER NOT NULL, episode_count INTEGER, title TEXT, overview TEXT, poster_path TEXT, release_date TEXT, updated TEXT";

pub const EPISODES_COLUMNS: &'static str = "id INTEGER PRIMARY KEY NOT NULL, season_id INTEGER NOT NULL, tv_id INTEGER NOT NULL, season_number INTEGER NOT NULL, episode_number INTEGER NOT NULL, release_date TEXT, title TEXT, overview TEXT, vote_average FLOAT, vote_count INTEGER, updated TEXT";

pub const EPISODE_CASTS_COLUMNS: &'static str = "episode_id INTEGER NOT NULL, person_id INTEGER NOT NULL, character TEXT, ord INTEGER, unique(episode_id,person_id,character)";

pub const EPISODE_CREWS_COLUMNS: &'static str = "episode_id INTEGER NOT NULL, person_id INTEGER NOT NULL, job TEXT, unique(episode_id,person_id,job)";

pub const EPISODES_USER_WATCHED_COLUMNS: &'static str = "episode_id INTEGER NOT NULL, user_name TEXT, watched INTEGER, vote_user FLOAT, unique(episode_id,user_name)";

pub const PERSONS_COLUMNS: &'static str = "id INTEGER PRIMARY KEY NOT NULL, birthday TEXT, known_for_department TEXT, deathday TEXT, name TEXT, gender INTEGER, biography TEXT, popularity FLOAT, place_of_birth TEXT, profile_path TEXT";

pub const KEYWORDS_COLUMNS: &'static str = "id INTEGER PRIMARY KEY NOT NULL, name TEXT";

pub const COLLECTIONS_COLUMNS: &'static str = "id INTEGER PRIMARY KEY NOT NULL, name TEXT, description TEXT, creator TEXT, creation_date TEXT, poster_path TEXT, unique(name, creator)";

pub const VIDEOS_VIEW_QUERY: &'static str = "SELECT Videos.id as id, path, media_type, media_id, duration, bit_rate, codec, width, height, Movies.id as m_id, Tvs.id as t_id, Movies.title as m_title, Tvs.title as t_title, episode_number, season_number, Movies.release_date as release_date, size, adding, GROUP_CONCAT(Subtitles.language) as subtitles, GROUP_CONCAT(Audios.language) as audios FROM Videos LEFT OUTER JOIN Audios ON Videos.id = Audios.video_id LEFT OUTER JOIN Subtitles ON Videos.id = Subtitles.video_id LEFT OUTER JOIN Movies ON Videos.media_type = 0 AND Videos.media_id = Movies.id LEFT OUTER JOIN Episodes ON Videos.media_type = 1 AND Videos.media_id = Episodes.id LEFT OUTER JOIN Tvs ON Episodes.tv_id = Tvs.id GROUP BY videos.id";

pub const MOVIES_VIEW_QUERY: &'static str = "SELECT Movies.id as id, original_title, original_language, title, release_date, overview, popularity, poster_path, backdrop_path, vote_average, vote_count, tagline, status, updated, GROUP_CONCAT(DISTINCT MovieGenres.name) as genres, MAX(Videos.adding) as adding FROM Movies INNER JOIN Videos ON Movies.id = Videos.media_id AND Videos.media_type = 0 LEFT OUTER JOIN MovieGenreLinks ON Movies.id = MovieGenreLinks.movie_id LEFT OUTER JOIN MovieGenres ON MovieGenreLinks.genre_id = MovieGenres.id GROUP BY Movies.id";

pub const MOVIE_CASTS_VIEW_QUERY: &'static str = "SELECT Persons.id as id, character, movie_id, ord, name, profile_path FROM MovieCasts LEFT OUTER JOIN Persons ON MovieCasts.person_id = Persons.id";

pub const MOVIE_CREWS_VIEW_QUERY: &'static str = "SELECT Persons.id as id, job, movie_id, name, profile_path FROM MovieCrews LEFT OUTER JOIN Persons ON MovieCrews.person_id = Persons.id";

pub const TVS_VIEW_QUERY: &'static str = "SELECT Tvs.id as id, Tvs.original_title as original_title, original_language, Tvs.title as title, Tvs.release_date as release_date, Tvs.overview as overview, popularity, poster_path, backdrop_path, status, Tvs.vote_average as vote_average, Tvs.vote_count as vote_count, number_of_episodes, number_of_seasons, episode_run_time, Tvs.updated as updated, GROUP_CONCAT(DISTINCT TvGenres.name) as genres, MAX(Videos.adding) as adding FROM Tvs LEFT OUTER JOIN TvGenreLinks ON Tvs.id = TvGenreLinks.tv_id LEFT OUTER JOIN TvGenres ON TvGenreLinks.genre_id = TvGenres.id LEFT OUTER JOIN Episodes ON Tvs.id = Episodes.tv_id INNER JOIN Videos ON Videos.media_id = Episodes.id AND Videos.media_type = 1 GROUP BY Tvs.id";

pub const SEASONS_VIEW_QUERY: &'static str = "SELECT Seasons.id as id, Seasons.tv_id as tv_id, Seasons.season_number as season_number, Seasons.episode_count as episode_count, Seasons.title as title, Seasons.overview as overview, Seasons.poster_path as poster_path, Seasons.release_date as release_date, Seasons.updated as updated FROM Seasons INNER JOIN Episodes ON Episodes.season_id = Seasons.id INNER JOIN Videos ON Videos.media_id = Episodes.id AND Videos.media_type = 1 GROUP BY Seasons.id";

pub const EPISODES_VIEW_QUERY: &'static str = "SELECT Episodes.id as id, tv_id, season_number, episode_number, release_date, title, overview, vote_average, vote_count, updated FROM Episodes INNER JOIN Videos ON Videos.media_id = Episodes.id AND Videos.media_type = 1 GROUP BY Videos.id";

pub const TV_CASTS_VIEW_QUERY: &'static str = "SELECT Persons.id as id, character, tv_id, ord, name, profile_path FROM TvCasts LEFT OUTER JOIN Persons ON TvCasts.person_id = Persons.id";

pub const TV_CREWS_VIEW_QUERY: &'static str = "SELECT Persons.id as id, tv_id, job, name, profile_path FROM TvCrews LEFT OUTER JOIN Persons ON TvCrews.person_id = Persons.id";

pub const EPISODE_CASTS_VIEW_QUERY: &'static str = "SELECT Persons.id as id, character, episode_id, ord, name, profile_path FROM EpisodeCasts LEFT OUTER JOIN Persons ON EpisodeCasts.person_id = Persons.id";

pub const EPISODE_CREWS_VIEW_QUERY: &'static str = "SELECT Persons.id as id, episode_id, job, name, profile_path FROM EpisodeCrews LEFT OUTER JOIN Persons ON EpisodeCrews.person_id = Persons.id";

/// The tables, then the views, of the catalog.
pub open spec fn schema_list() -> Seq<(bool, Seq<char>, Seq<char>)> {
    seq![
        (true, "Videos"@, VIDEOS_COLUMNS@),
        (true, "WatchTimes"@, WATCH_TIMES_COLUMNS@),
        (true, "Audios"@, AUDIOS_COLUMNS@),
        (true, "Subtitles"@, SUBTITLES_COLUMNS@),
        (true, "Movies"@, MOVIES_COLUMNS@),
        (true, "MovieGenres"@, MOVIE_GENRES_COLUMNS@),
        (true, "MovieGenreLinks"@, MOVIE_GENRE_LINKS_COLUMNS@),
        (true, "MovieCollectionLinks"@, MOVIE_COLLECTION_LINKS_COLUMNS@),
        (true, "MovieKeywordLinks"@, MOVIE_KEYWORD_LINKS_COLUMNS@),
        (true, "MovieTrailers"@, MOVIE_TRAILERS_COLUMNS@),
        (true, "MovieCasts"@, MOVIE_CASTS_COLUMNS@),
        (true, "MovieCrews"@, MOVIE_CREWS_COLUMNS@),
        (true, "MovieUserWatched"@, MOVIE_USER_WATCHED_COLUMNS@),
        (true, "Tvs"@, TVS_COLUMNS@),
        (true, "TvGenres"@, TV_GENRES_COLUMNS@),
        (true, "TvGenreLinks"@, TV_GENRE_LINKS_COLUMNS@),
        (true, "TvCollectionLinks"@, TV_COLLECTION_LINKS_COLUMNS@),
        (true, "TvKeywordLinks"@, TV_KEYWORD_LINKS_COLUMNS@),
        (true, "TvTrailers"@, TV_TRAILERS_COLUMNS@),
        (true, "TvCasts"@, TV_CASTS_COLUMNS@),
        (true, "TvCrews"@, TV_CREWS_COLUMNS@),
        (true, "Seasons"@, SEASONS_COLUMNS@),
        (true, "Episodes"@, EPISODES_COLUMNS@),
        (true, "EpisodeCasts"@, EPISODE_CASTS_COLUMNS@),
        (true, "EpisodeCrews"@, EPISODE_CREWS_COLUMNS@),
        (true, "EpisodesUserWatched"@, EPISODES_USER_WATCHED_COLUMNS@),
        (true, "Persons"@, PERSONS_COLUMNS@),
        (true, "Keywords"@, KEYWORDS_COLUMNS@),
        (true, "Collections"@, COLLECTIONS_COLUMNS@),
        (false, "VideosView"@, VIDEOS_VIEW_QUERY@),
        (false, "MoviesView"@, MOVIES_VIEW_QUERY@),
        (false, "MovieCastsView"@, MOVIE_CASTS_VIEW_QUERY@),
        (false, "MovieCrewsView"@, MOVIE_CREWS_VIEW_QUERY@),
        (false, "TvsView"@, TVS_VIEW_QUERY@),
        (false, "SeasonsView"@, SEASONS_VIEW_QUERY@),
        (false, "EpisodesView"@, EPISODES_VIEW_QUERY@),
        (false, "TvCastsView"@, TV_CASTS_VIEW_QUERY@),
        (false, "TvCrewsView"@, TV_CREWS_VIEW_QUERY@),
        (false, "EpisodeCastsView"@, EPISODE_CASTS_VIEW_QUERY@),
        (false, "EpisodeCrewsView"@, EPISODE_CREWS_VIEW_QUERY@),
    ]
}

/// The statements that declare one item: a table when missing, or a view
/// dropped and created anew.
pub open spec fn item_plan(it: (bool, Seq<char>, Seq<char>)) -> Seq<StatementView> {
    if it.0 {
        seq![(table_text(it.1, it.2), Seq::<Seq<char>>::empty())]
    } else {
        seq![
            (drop_view_text(it.1), Seq::<Seq<char>>::empty()),
            (create_view_text(it.1, it.2), Seq::<Seq<char>>::empty()),
        ]
    }
}

/// The statements that declare the items, in order.
pub open spec fn plan_of(items: Seq<(bool, Seq<char>, Seq<char>)>) -> Seq<StatementView>
    decreases items.len(),
{
    if items.len() == 0 {
        Seq::empty()
    } else {
        plan_of(items.drop_last()) + item_plan(items.last())
    }
}

/// The statements that declare the catalog's schema.
pub open spec fn schema_plan() -> Seq<StatementView> {
    plan_of(schema_list())
}

/// Whatever items are declared, the statements are safe to repeat: tables
/// are only created when missing, views are dropped before they are created.
pub proof fn lemma_schema_plan_safe(items: Seq<(bool, Seq<char>, Seq<char>)>)
    ensures
        schema_safe(plan_of(items)),
    decreases items.len(),
{
    if items.len() > 0 {
        lemma_schema_plan_safe(items.drop_last());
        let before = plan_of(items.drop_last());
        let it = items.last();
        let now = plan_of(items);
        if it.0 {
            let t = (table_text(it.1, it.2), Seq::<Seq<char>>::empty());
            assert(now =~= before.push(t));
            assert(now.drop_last() =~= before);
            assert(is_table_ddl(now.last()));
        } else {
            let d = (drop_view_text(it.1), Seq::<Seq<char>>::empty());
            let c = (create_view_text(it.1, it.2), Seq::<Seq<char>>::empty());
            assert(now =~= before.push(d).push(c));
            assert(now.subrange(0, now.len() - 2) =~= before);
            assert(now[now.len() - 2] == d);
            assert(is_view_rebuild(d, c));
        }
    }
}

/// The schema statements are safe to run on every connection.
pub proof fn lemma_schema_safe()
    ensures
        schema_safe(schema_plan()),
{
    lemma_schema_plan_safe(schema_list());
}

/// The tables, then the views, of the catalog.
#[verifier::rlimit(50)]
pub fn schema_items() -> (r: Vec<SchemaItem>)
    ensures
        r@.map_values(|i: SchemaItem| item_view(i)) == schema_list(),
{
    let mut items: Vec<SchemaItem> = Vec::new();
    items.push(SchemaItem::Table("Videos", VIDEOS_COLUMNS));
    items.push(SchemaItem::Table("WatchTimes", WATCH_TIMES_COLUMNS));
    items.push(SchemaItem::Table("Audios", AUDIOS_COLUMNS));
    items.push(SchemaItem::Table("Subtitles", SUBTITLES_COLUMNS));
    items.push(SchemaItem::Table("Movies", MOVIES_COLUMNS));
    items.push(SchemaItem::Table("MovieGenres", MOVIE_GENRES_COLUMNS));
    items.push(SchemaItem::Table("MovieGenreLinks", MOVIE_GENRE_LINKS_COLUMNS));
    items.push(SchemaItem::Table("MovieCollectionLinks", MOVIE_COLLECTION_LINKS_COLUMNS));
    items.push(SchemaItem::Table("MovieKeywordLinks", MOVIE_KEYWORD_LINKS_COLUMNS));
    items.push(SchemaItem::Table("MovieTrailers", MOVIE_TRAILERS_COLUMNS));
    items.push(SchemaItem::Table("MovieCasts", MOVIE_CASTS_COLUMNS));
    items.push(SchemaItem::Table("MovieCrews", MOVIE_CREWS_COLUMNS));
    items.push(SchemaItem::Table("MovieUserWatched", MOVIE_USER_WATCHED_COLUMNS));
    items.push(SchemaItem::Table("Tvs", TVS_COLUMNS));
    items.push(SchemaItem::Table("TvGenres", TV_GENRES_COLUMNS));
    items.push(SchemaItem::Table("TvGenreLinks", TV_GENRE_LINKS_COLUMNS));
    items.push(SchemaItem::Table("TvCollectionLinks", TV_COLLECTION_LINKS_COLUMNS));
    items.push(SchemaItem::Table("TvKeywordLinks", TV_KEYWORD_LINKS_COLUMNS));
    items.push(SchemaItem::Table("TvTrailers", TV_TRAILERS_COLUMNS));
    items.push(SchemaItem::Table("TvCasts", TV_CASTS_COLUMNS));
    items.push(SchemaItem::Table("TvCrews", TV_CREWS_COLUMNS));
    items.push(SchemaItem::Table("Seasons", SEASONS_COLUMNS));
    items.push(SchemaItem::Table("Episodes", EPISODES_COLUMNS));
    items.push(SchemaItem::Table("EpisodeCasts", EPISODE_CASTS_COLUMNS));
    items.push(SchemaItem::Table("EpisodeCrews", EPISODE_CREWS_COLUMNS));
    items.push(SchemaItem::Table("EpisodesUserWatched", EPISODES_USER_WATCHED_COLUMNS));
    items.push(SchemaItem::Table("Persons", PERSONS_COLUMNS));
    items.push(SchemaItem::Table("Keywords", KEYWORDS_COLUMNS));
    items.push(SchemaItem::Table("Collections", COLLECTIONS_COLUMNS));
    items.push(SchemaItem::View("VideosView", VIDEOS_VIEW_QUERY));
    items.push(SchemaItem::View("MoviesView", MOVIES_VIEW_QUERY));
    items.push(SchemaItem::View("MovieCastsView", MOVIE_CASTS_VIEW_QUERY));
    items.push(SchemaItem::View("MovieCrewsView", MOVIE_CREWS_VIEW_QUERY));
    items.push(SchemaItem::View("TvsView", TVS_VIEW_QUERY));
    items.push(SchemaItem::View("SeasonsView", SEASONS_VIEW_QUERY));
    items.push(SchemaItem::View("EpisodesView", EPISODES_VIEW_QUERY));
    items.push(SchemaItem::View("TvCastsView", TV_CASTS_VIEW_QUERY));
    items.push(SchemaItem::View("TvCrewsView", TV_CREWS_VIEW_QUERY));
    items.push(SchemaItem::View("EpisodeCastsView", EPISODE_CASTS_VIEW_QUERY));
    items.push(SchemaItem::View("EpisodeCrewsView", EPISODE_CREWS_VIEW_QUERY));
    proof {
        assert(items@.map_values(|i: SchemaItem| item_view(i)) =~= schema_list());
    }
    items
}

/// Declares every base table, keeping existing ones and their rows, then
/// rebuilds every view so that its shape follows the definitions here. Safe
/// to run on every connection.
pub fn init_db(store: &mut SqlLibrary) -> (r: Result<(), Error>)
    ensures
        r is Ok ==> final(store).history() == old(store).history() + schema_plan(),
        r matches Err(e) ==> e.location@ == "schema"@,
{
    let items = schema_items();
    let ghost listed = items@.map_values(|i: SchemaItem| item_view(i));
    let ghost start = store.history();
    let mut i: usize = 0;
    proof {
        assert(listed.subrange(0, 0) =~= Seq::<(bool, Seq<char>, Seq<char>)>::empty());
        assert(start + plan_of(listed.subrange(0, 0)) =~= start);
    }
    while i < items.len()
        invariant
            start == old(store).history(),
            listed == items@.map_values(|i: SchemaItem| item_view(i)),
            listed == schema_list(),
            i <= items@.len(),
            store.history() == start + plan_of(listed.subrange(0, i as int)),
        decreases items@.len() - i,
    {
        let ghost prev = store.history();
        proof {
            let next = listed.subrange(0, i + 1);
            assert(next.drop_last() =~= listed.subrange(0, i as int));
            assert(next.last() == item_view(items@[i as int]));
        }
        match &items[i] {
            SchemaItem::Table(name, columns) => {
                create_table(store, name, columns)?;
            },
            SchemaItem::View(name, select) => {
                create_view(store, name, select)?;
            },
        }
        proof {
            let next = listed.subrange(0, i + 1);
            assert(store.history() =~= start + plan_of(next));
        }
        i = i + 1;
    }
    proof {
        assert(listed.subrange(0, items@.len() as int) =~= listed);
    }
    Ok(())
}

} // verus!
