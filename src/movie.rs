use vstd::prelude::*;

use crate::metadata;
use crate::credits::{Cast, Crew, Genre, Keyword, Trailer};
use crate::error::Error;
use crate::query::{
    generate_sql, params1, params3, statement_views, Filter, SqlQuery, StatementView,
};
use crate::row::{
    at_i64, at_list, at_number, at_text, at_u64, at_watched, get_i64, get_list, get_number,
    get_text, get_u64, get_watched, row_views,
};
use crate::store::{Cell, SqlLibrary};
use crate::text::{decimal_string, texts};
use crate::upsert::{
    all_upserts, bool_string, bool_text, cast_ids, cast_statements, crew_ids, crew_statements, dec,
    delete_where, genre_statements, keyword_statements, lemma_cast_upserts, lemma_crew_upserts,
    lemma_genre_upserts, lemma_keyword_upserts, lemma_trailer_upserts, opt_paths, or_empty,
    push_casts, push_crews, push_delete, push_genres, push_keywords, push_path, push_trailers,
    replace_into, replace_into_sql, text_or_empty, trailer_statements, KEYWORD,
};

verus! {

/// A movie of the library, with the watch mark of one user.
#[derive(Debug)]
pub struct Movie {
    /// The user whose watch marks the record carries.
    pub user: String,
    pub id: u64,
    pub original_title: String,
    pub original_language: String,
    pub title: String,
    pub release_date: String,
    pub overview: String,
    /// Decimal text.
    pub popularity: String,
    pub poster_path: String,
    pub backdrop_path: String,
    /// Decimal text.
    pub vote_average: String,
    pub vote_count: i64,
    pub tagline: String,
    pub status: String,
    pub genres: Vec<String>,
    /// When its latest video was added.
    pub adding: String,
    /// How many times the user watched it.
    pub watched: u64,
    pub updated: String,
}

/// Whether every column that a movie needs holds a value of the right type.
pub open spec fn movie_row_ok(row: Seq<Cell>) -> bool {
    &&& at_u64(row, 0) is Some
    &&& at_text(row, 1) is Some
    &&& at_text(row, 2) is Some
    &&& at_text(row, 3) is Some
    &&& at_text(row, 4) is Some
    &&& at_text(row, 5) is Some
    &&& at_number(row, 6) is Some
    &&& at_text(row, 7) is Some
    &&& at_text(row, 8) is Some
    &&& at_number(row, 9) is Some
    &&& at_i64(row, 10) is Some
    &&& at_text(row, 11) is Some
    &&& at_text(row, 12) is Some
    &&& at_list(row, 13) is Some
    &&& at_text(row, 14) is Some
    &&& at_watched(row, 15) is Some
    &&& at_text(row, 16) is Some
}

impl Movie {
    /// Whether this record is what `row` holds, read for `user`.
    pub open spec fn decodes(&self, user: Seq<char>, row: Seq<Cell>) -> bool {
        &&& self.user@ == user
        &&& at_u64(row, 0) == Some(self.id)
        &&& at_text(row, 1) == Some(self.original_title@)
        &&& at_text(row, 2) == Some(self.original_language@)
        &&& at_text(row, 3) == Some(self.title@)
        &&& at_text(row, 4) == Some(self.release_date@)
        &&& at_text(row, 5) == Some(self.overview@)
        &&& at_number(row, 6) == Some(self.popularity@)
        &&& at_text(row, 7) == Some(self.poster_path@)
        &&& at_text(row, 8) == Some(self.backdrop_path@)
        &&& at_number(row, 9) == Some(self.vote_average@)
        &&& at_i64(row, 10) == Some(self.vote_count)
        &&& at_text(row, 11) == Some(self.tagline@)
        &&& at_text(row, 12) == Some(self.status@)
        &&& at_list(row, 13) == Some(texts(self.genres@))
        &&& at_text(row, 14) == Some(self.adding@)
        &&& at_watched(row, 15) == Some(self.watched)
        &&& at_text(row, 16) == Some(self.updated@)
    }

    /// Reads one result row.
    pub fn from_row(user: &String, row: &Vec<Cell>) -> (r: Result<Movie, Error>)
        ensures
            match r {
                Ok(x) => x.decodes(user@, row@),
                Err(e) => e.kind is Decode && !movie_row_ok(row@),
            },
    {
        let id = get_u64(row, 0, "get_movie")?;
        let original_title = get_text(row, 1, "get_movie")?;
        let original_language = get_text(row, 2, "get_movie")?;
        let title = get_text(row, 3, "get_movie")?;
        let release_date = get_text(row, 4, "get_movie")?;
        let overview = get_text(row, 5, "get_movie")?;
        let popularity = get_number(row, 6, "get_movie")?;
        let poster_path = get_text(row, 7, "get_movie")?;
        let backdrop_path = get_text(row, 8, "get_movie")?;
        let vote_average = get_number(row, 9, "get_movie")?;
        let vote_count = get_i64(row, 10, "get_movie")?;
        let tagline = get_text(row, 11, "get_movie")?;
        let status = get_text(row, 12, "get_movie")?;
        let genres = get_list(row, 13, "get_movie")?;
        let adding = get_text(row, 14, "get_movie")?;
        let watched = get_watched(row, 15, "get_movie")?;
        let updated = get_text(row, 16, "get_movie")?;
        Ok(Movie { user: user.clone(), id, original_title, original_language, title, release_date, overview, popularity, poster_path, backdrop_path, vote_average, vote_count, tagline, status, genres, adding, watched, updated })
    }

    /// Whether the records are, one for one, what the rows hold.
    pub open spec fn all_decode(v: Seq<Movie>, user: Seq<char>, rows: Seq<Seq<Cell>>) -> bool {
        &&& v.len() == rows.len()
        &&& forall|i: int| 0 <= i < v.len() ==> (#[trigger] v[i]).decodes(user, rows[i])
    }

    /// Reads every result row, in order; fails on the first row that does not decode.
    pub fn from_rows(user: &String, rows: &Vec<Vec<Cell>>) -> (r: Result<Vec<Movie>, Error>)
        ensures
            r matches Ok(v) ==> Movie::all_decode(v@, user@, row_views(rows@)),
            match r {
                Ok(v) => v@.len() == rows@.len() && forall|i: int|
                    0 <= i < rows@.len() ==> (#[trigger] v@[i]).decodes(user@, rows@[i]@),
                Err(e) => e.kind is Decode && exists|i: int|
                    0 <= i < rows@.len() && !movie_row_ok(#[trigger] rows@[i]@),
            },
    {
        let mut out: Vec<Movie> = Vec::new();
        let n = rows.len();
        let mut i: usize = 0;
        while i < n
            invariant
                n == rows@.len(),
                i <= n,
                out@.len() == i,
                forall|j: int| 0 <= j < i ==> (#[trigger] out@[j]).decodes(user@, rows@[j]@),
            decreases n - i,
        {
            let x = Movie::from_row(user, &rows[i])?;
            out.push(x);
            i = i + 1;
        }
        proof {
            assert forall|i: int| 0 <= i < out@.len() implies (#[trigger] out@[i]).decodes(
                user@, row_views(rows@)[i],
            ) by {
                assert(row_views(rows@)[i] == rows@[i]@);
            }
        }
        Ok(out)
    }

    /// Reads the first result row, if there is one.
    pub fn first_of(user: &String, rows: &Vec<Vec<Cell>>) -> (r: Result<Option<Movie>, Error>)
        ensures
            match r {
                Ok(Some(x)) => rows@.len() > 0 && x.decodes(user@, rows@[0]@),
                Ok(None) => rows@.len() == 0,
                Err(e) => e.kind is Decode && rows@.len() > 0 && !movie_row_ok(rows@[0]@),
            },
    {
        if rows.len() == 0 {
            return Ok(None);
        }
        let x = Movie::from_row(user, &rows[0])?;
        Ok(Some(x))
    }
}
/// The summary of a movie that searches return.
#[derive(Debug)]
pub struct MovieResult {
    /// The user whose watch marks the record carries.
    pub user: String,
    pub id: u64,
    pub title: String,
    pub release_date: String,
    pub poster_path: String,
    /// Decimal text.
    pub vote_average: String,
    pub genres: Vec<String>,
    pub adding: String,
    pub watched: u64,
    pub backdrop_path: String,
}

/// Whether every column that a movie result needs holds a value of the right type.
pub open spec fn movie_result_row_ok(row: Seq<Cell>) -> bool {
    &&& at_u64(row, 0) is Some
    &&& at_text(row, 1) is Some
    &&& at_text(row, 2) is Some
    &&& at_text(row, 3) is Some
    &&& at_number(row, 4) is Some
    &&& at_list(row, 5) is Some
    &&& at_text(row, 6) is Some
    &&& at_watched(row, 7) is Some
    &&& at_text(row, 8) is Some
}

impl MovieResult {
    /// Whether this record is what `row` holds, read for `user`.
    pub open spec fn decodes(&self, user: Seq<char>, row: Seq<Cell>) -> bool {
        &&& self.user@ == user
        &&& at_u64(row, 0) == Some(self.id)
        &&& at_text(row, 1) == Some(self.title@)
        &&& at_text(row, 2) == Some(self.release_date@)
        &&& at_text(row, 3) == Some(self.poster_path@)
        &&& at_number(row, 4) == Some(self.vote_average@)
        &&& at_list(row, 5) == Some(texts(self.genres@))
        &&& at_text(row, 6) == Some(self.adding@)
        &&& at_watched(row, 7) == Some(self.watched)
        &&& at_text(row, 8) == Some(self.backdrop_path@)
    }

    /// Reads one result row.
    pub fn from_row(user: &String, row: &Vec<Cell>) -> (r: Result<MovieResult, Error>)
        ensures
            match r {
                Ok(x) => x.decodes(user@, row@),
                Err(e) => e.kind is Decode && !movie_result_row_ok(row@),
            },
    {
        let id = get_u64(row, 0, "get_movies")?;
        let title = get_text(row, 1, "get_movies")?;
        let release_date = get_text(row, 2, "get_movies")?;
        let poster_path = get_text(row, 3, "get_movies")?;
        let vote_average = get_number(row, 4, "get_movies")?;
        let genres = get_list(row, 5, "get_movies")?;
        let adding = get_text(row, 6, "get_movies")?;
        let watched = get_watched(row, 7, "get_movies")?;
        let backdrop_path = get_text(row, 8, "get_movies")?;
        Ok(MovieResult { user: user.clone(), id, title, release_date, poster_path, vote_average, genres, adding, watched, backdrop_path })
    }

    /// Whether the records are, one for one, what the rows hold.
    pub open spec fn all_decode(v: Seq<MovieResult>, user: Seq<char>, rows: Seq<Seq<Cell>>) -> bool {
        &&& v.len() == rows.len()
        &&& forall|i: int| 0 <= i < v.len() ==> (#[trigger] v[i]).decodes(user, rows[i])
    }

    /// Reads every result row, in order; fails on the first row that does not decode.
    pub fn from_rows(user: &String, rows: &Vec<Vec<Cell>>) -> (r: Result<Vec<MovieResult>, Error>)
        ensures
            r matches Ok(v) ==> MovieResult::all_decode(v@, user@, row_views(rows@)),
            match r {
                Ok(v) => v@.len() == rows@.len() && forall|i: int|
                    0 <= i < rows@.len() ==> (#[trigger] v@[i]).decodes(user@, rows@[i]@),
                Err(e) => e.kind is Decode && exists|i: int|
                    0 <= i < rows@.len() && !movie_result_row_ok(#[trigger] rows@[i]@),
            },
    {
        let mut out: Vec<MovieResult> = Vec::new();
        let n = rows.len();
        let mut i: usize = 0;
        while i < n
            invariant
                n == rows@.len(),
                i <= n,
                out@.len() == i,
                forall|j: int| 0 <= j < i ==> (#[trigger] out@[j]).decodes(user@, rows@[j]@),
            decreases n - i,
        {
            let x = MovieResult::from_row(user, &rows[i])?;
            out.push(x);
            i = i + 1;
        }
        proof {
            assert forall|i: int| 0 <= i < out@.len() implies (#[trigger] out@[i]).decodes(
                user@, row_views(rows@)[i],
            ) by {
                assert(row_views(rows@)[i] == rows@[i]@);
            }
        }
        Ok(out)
    }

    /// Reads the first result row, if there is one.
    pub fn first_of(user: &String, rows: &Vec<Vec<Cell>>) -> (r: Result<Option<MovieResult>, Error>)
        ensures
            match r {
                Ok(Some(x)) => rows@.len() > 0 && x.decodes(user@, rows@[0]@),
                Ok(None) => rows@.len() == 0,
                Err(e) => e.kind is Decode && rows@.len() > 0 && !movie_result_row_ok(rows@[0]@),
            },
    {
        if rows.len() == 0 {
            return Ok(None);
        }
        let x = MovieResult::from_row(user, &rows[0])?;
        Ok(Some(x))
    }
}
pub const MOVIE_ROW: &'static str = "Movies (id, original_title, original_language, title, release_date, overview, popularity, poster_path, backdrop_path, vote_average, vote_count, tagline, status, adult, updated) values (?1, ?2, ?3, ?4, ?5, ?6, ?7, ?8, ?9, ?10, ?11, ?12, ?13, ?14, datetime('now'))";

pub const MOVIE_GENRE: &'static str = "MovieGenres (id, name) values (?1, ?2)";

pub const MOVIE_GENRE_LINK: &'static str = "MovieGenreLinks (genre_id, movie_id) values (?1, ?2)";

pub const MOVIE_CAST: &'static str = "MovieCasts (person_id, movie_id, character, ord) values (?1, ?2, ?3, ?4)";

pub const MOVIE_CREW: &'static str = "MovieCrews (person_id, movie_id, job) values (?1, ?2, ?3)";

pub const MOVIE_TRAILER: &'static str = "MovieTrailers (movie_id, name, youtube_id) values (?1, ?2, ?3)";

pub const MOVIE_KEYWORD_LINK: &'static str = "MovieKeywordLinks (keyword_id, movie_id) values (?1, ?2)";

pub const MOVIE_WATCHED: &'static str = "MovieUserWatched (watched, user_name, movie_id) values (?1, ?2, ?3)";

pub const MOVIE_BY_ID: &'static str = "SELECT id, original_title, original_language, title, release_date, overview, popularity, poster_path, backdrop_path, vote_average, vote_count, tagline, status, genres, adding, MovieUserWatched.watched, updated FROM MoviesView LEFT OUTER JOIN MovieUserWatched ON MoviesView.id = MovieUserWatched.movie_id AND MovieUserWatched.user_name = ?1 WHERE id = ?2 GROUP BY MoviesView.id";

pub const MOVIES_HEAD: &'static str = "SELECT Movies.id, Movies.title, Movies.release_date, Movies.poster_path, Movies.vote_average, GROUP_CONCAT(DISTINCT MovieGenres.name), MAX(Videos.adding), MovieUserWatched.watched, Movies.backdrop_path FROM Movies INNER JOIN Videos ON Movies.id = Videos.media_id AND Videos.media_type = 0 LEFT OUTER JOIN MovieGenreLinks ON Movies.id = MovieGenreLinks.movie_id LEFT OUTER JOIN MovieGenres ON MovieGenreLinks.genre_id = MovieGenres.id LEFT OUTER JOIN MovieCasts ON Movies.id = MovieCasts.movie_id LEFT OUTER JOIN MovieCrews ON Movies.id = MovieCrews.movie_id LEFT OUTER JOIN MovieCollectionLinks ON Movies.id = MovieCollectionLinks.movie_id LEFT OUTER JOIN MovieUserWatched ON Movies.id = MovieUserWatched.movie_id AND MovieUserWatched.user_name = ?1";

pub const MOVIE_CAST_OF: &'static str = "SELECT id, character, ord, name, profile_path FROM MovieCastsView WHERE movie_id = ?1";

pub const MOVIE_CREW_OF: &'static str = "SELECT id, job, name, profile_path FROM MovieCrewsView WHERE movie_id = ?1";

pub const MOVIE_TRAILERS_OF: &'static str = "SELECT name, youtube_id FROM MovieTrailers WHERE movie_id = ?1";

pub const MOVIE_KEYWORDS_OF: &'static str = "SELECT name, id FROM MovieKeywordLinks INNER JOIN Keywords ON MovieKeywordLinks.keyword_id = Keywords.id WHERE movie_id = ?1";

pub const MOVIE_GENRES: &'static str = "SELECT name, id FROM MovieGenres";

/// The values of the movie's own row, in column order.
pub open spec fn movie_row_params(m: metadata::Movie) -> Seq<Seq<char>> {
    seq![
        dec(m.id),
        m.original_title@,
        m.original_language@,
        m.title@,
        m.release_date@,
        or_empty(m.overview),
        m.popularity@,
        or_empty(m.poster_path),
        or_empty(m.backdrop_path),
        m.vote_average@,
        dec(m.vote_count),
        or_empty(m.tagline),
        m.status@,
        bool_text(m.adult),
    ]
}

/// The statements that store a movie: its row, then its genres, acting
/// credits, kept crew credits, YouTube trailers and keywords.
pub open spec fn movie_upsert_plan(m: metadata::Movie) -> Seq<StatementView> {
    seq![(replace_into(MOVIE_ROW@), movie_row_params(m))] + genre_statements(
        MOVIE_GENRE@,
        MOVIE_GENRE_LINK@,
        m.genres@,
        m.id,
    ) + cast_statements(MOVIE_CAST@, m.credits.cast@, m.id) + crew_statements(
        MOVIE_CREW@,
        m.credits.crew@,
        m.id,
    ) + trailer_statements(MOVIE_TRAILER@, m.videos.results@, m.id) + keyword_statements(
        MOVIE_KEYWORD_LINK@,
        KEYWORD@,
        m.keywords.keywords@,
        m.id,
    )
}

/// The people that a stored movie credits: actors, then kept crew.
pub open spec fn movie_person_ids(m: metadata::Movie) -> Seq<u64> {
    cast_ids(m.credits.cast@) + crew_ids(m.credits.crew@)
}

/// The assets that a stored movie names: its backdrop, then its poster.
pub open spec fn movie_asset_paths(m: metadata::Movie) -> Seq<Seq<char>> {
    opt_paths(m.backdrop_path) + opt_paths(m.poster_path)
}

/// The tables that hold a movie's own rows, with the column naming it.
pub open spec fn movie_delete_plan(id: u64) -> Seq<StatementView> {
    seq![
        (delete_where("Movies"@, "id"@), seq![dec(id)]),
        (delete_where("MovieGenreLinks"@, "movie_id"@), seq![dec(id)]),
        (delete_where("MovieCollectionLinks"@, "movie_id"@), seq![dec(id)]),
        (delete_where("MovieKeywordLinks"@, "movie_id"@), seq![dec(id)]),
        (delete_where("MovieTrailers"@, "movie_id"@), seq![dec(id)]),
        (delete_where("MovieCasts"@, "movie_id"@), seq![dec(id)]),
        (delete_where("MovieCrews"@, "movie_id"@), seq![dec(id)]),
        (delete_where("MovieUserWatched"@, "movie_id"@), seq![dec(id)]),
    ]
}

fn movie_row_values(m: &metadata::Movie) -> (r: Vec<String>)
    ensures
        texts(r@) == movie_row_params(*m),
{
    let mut v: Vec<String> = Vec::new();
    v.push(decimal_string(m.id));
    v.push(m.original_title.clone());
    v.push(m.original_language.clone());
    v.push(m.title.clone());
    v.push(m.release_date.clone());
    v.push(text_or_empty(&m.overview));
    v.push(m.popularity.clone());
    v.push(text_or_empty(&m.poster_path));
    v.push(text_or_empty(&m.backdrop_path));
    v.push(m.vote_average.clone());
    v.push(decimal_string(m.vote_count));
    v.push(text_or_empty(&m.tagline));
    v.push(m.status.clone());
    v.push(bool_string(m.adult));
    proof {
        assert(texts(v@) =~= movie_row_params(*m));
    }
    v
}

/// The statements that store `m`, in the order they run.
pub fn movie_upsert_statements(m: &metadata::Movie) -> (r: Vec<SqlQuery>)
    ensures
        statement_views(r@) == movie_upsert_plan(*m),
{
    let mut out: Vec<SqlQuery> = Vec::new();
    let mut ids: Vec<u64> = Vec::new();
    crate::query::push_statement(&mut out, replace_into_sql(MOVIE_ROW), movie_row_values(m));
    proof {
        assert(statement_views(out@) =~= seq![(replace_into(MOVIE_ROW@), movie_row_params(*m))]);
    }
    push_genres(&mut out, MOVIE_GENRE, MOVIE_GENRE_LINK, &m.genres, m.id);
    push_casts(&mut out, &mut ids, MOVIE_CAST, &m.credits.cast, m.id);
    push_crews(&mut out, &mut ids, MOVIE_CREW, &m.credits.crew, m.id);
    push_trailers(&mut out, MOVIE_TRAILER, &m.videos.results, m.id);
    push_keywords(&mut out, MOVIE_KEYWORD_LINK, KEYWORD, &m.keywords.keywords, m.id);
    out
}

/// The people a movie credits, actors first.
pub fn movie_persons(m: &metadata::Movie) -> (r: Vec<u64>)
    ensures
        r@ == movie_person_ids(*m),
{
    let mut out: Vec<SqlQuery> = Vec::new();
    let mut ids: Vec<u64> = Vec::new();
    push_casts(&mut out, &mut ids, MOVIE_CAST, &m.credits.cast, m.id);
    push_crews(&mut out, &mut ids, MOVIE_CREW, &m.credits.crew, m.id);
    proof {
        assert(ids@ =~= movie_person_ids(*m));
    }
    ids
}

/// The assets a movie names: backdrop, then poster.
pub fn movie_assets(m: &metadata::Movie) -> (r: Vec<String>)
    ensures
        texts(r@) == movie_asset_paths(*m),
{
    let mut paths: Vec<String> = Vec::new();
    proof {
        assert(texts(paths@) =~= Seq::<Seq<char>>::empty());
    }
    push_path(&mut paths, &m.backdrop_path);
    push_path(&mut paths, &m.poster_path);
    proof {
        assert(texts(paths@) =~= movie_asset_paths(*m));
    }
    paths
}

/// Storing a movie only inserts rows or replaces or keeps the rows holding
/// the same unique keys, so storing the same movie twice leaves one row per
/// key.
pub proof fn lemma_movie_upsert_idempotent(m: metadata::Movie)
    ensures
        all_upserts(movie_upsert_plan(m)),
{
    crate::upsert::lemma_replace_is_upsert(MOVIE_ROW@);
    let first = seq![(replace_into(MOVIE_ROW@), movie_row_params(m))];
    assert(all_upserts(first));
    let g = genre_statements(MOVIE_GENRE@, MOVIE_GENRE_LINK@, m.genres@, m.id);
    let c = cast_statements(MOVIE_CAST@, m.credits.cast@, m.id);
    let w = crew_statements(MOVIE_CREW@, m.credits.crew@, m.id);
    let t = trailer_statements(MOVIE_TRAILER@, m.videos.results@, m.id);
    let k = keyword_statements(MOVIE_KEYWORD_LINK@, KEYWORD@, m.keywords.keywords@, m.id);
    lemma_genre_upserts(MOVIE_GENRE@, MOVIE_GENRE_LINK@, m.genres@, m.id);
    lemma_cast_upserts(MOVIE_CAST@, m.credits.cast@, m.id);
    lemma_crew_upserts(MOVIE_CREW@, m.credits.crew@, m.id);
    lemma_trailer_upserts(MOVIE_TRAILER@, m.videos.results@, m.id);
    lemma_keyword_upserts(MOVIE_KEYWORD_LINK@, KEYWORD@, m.keywords.keywords@, m.id);
    crate::upsert::lemma_all_upserts_concat(first, g);
    crate::upsert::lemma_all_upserts_concat(first + g, c);
    crate::upsert::lemma_all_upserts_concat(first + g + c, w);
    crate::upsert::lemma_all_upserts_concat(first + g + c + w, t);
    crate::upsert::lemma_all_upserts_concat(first + g + c + w + t, k);
}

impl SqlLibrary {
    /// Stores a movie with its genres, credits, trailers and keywords in one
    /// transaction, replacing what was stored under the same keys. Hands back
    /// the people it credits and the asset paths it names, for the caller to
    /// fetch.
    pub fn create_movie(&mut self, movie: &metadata::Movie) -> (r: Result<(Vec<u64>, Vec<String>), Error>)
        ensures
            match r {
                Ok((ids, paths)) => ids@ == movie_person_ids(*movie) && texts(paths@)
                    == movie_asset_paths(*movie) && final(self).history() == old(self).history()
                    + movie_upsert_plan(*movie),
                Err(e) => e.kind is TransactionFailure && e.location@ == "create_movie"@
                    && final(self).history() == old(self).history(),
            },
    {
        let statements = movie_upsert_statements(movie);
        self.transaction(&statements, "create_movie")?;
        Ok((movie_persons(movie), movie_assets(movie)))
    }

    /// The movie with id `movie_id`, as `user` sees it, when some video
    /// shows it.
    pub fn get_movie(&self, user: &String, movie_id: u64) -> (r: Result<Option<Movie>, Error>)
        ensures
            r matches Ok(Some(m)) ==> m.user@ == user@,
            r matches Ok(Some(x)) ==> exists|row: Seq<Cell>| #[trigger] x.decodes(user@, row),
    {
        let rows = self.query(MOVIE_BY_ID, &crate::query::params2(user.clone(), decimal_string(movie_id)), "get_movie")?;
        Movie::first_of(user, &rows)
    }

    /// The movies that some video shows and that pass `filters`, one row per
    /// movie, ordered and paged as asked.
    pub fn get_movies(
        &self,
        user: &String,
        filters: &Vec<Filter>,
        order_by: &Option<String>,
        limit: Option<u64>,
        offset: Option<u64>,
    ) -> (r: Result<Vec<MovieResult>, Error>)
        ensures
            r matches Ok(v) ==> forall|i: int| 0 <= i < v@.len() ==> (#[trigger] v@[i]).user@ == user@,
            r matches Ok(v) ==> exists|rows: Seq<Seq<Cell>>| #[trigger] MovieResult::all_decode(v@, user@, rows),
    {
        let q = generate_sql(MOVIES_HEAD, filters, Some(user), Some("Movies.id"), order_by, limit, offset);
        let rows = self.query(q.sql.as_str(), &q.params, "get_movies")?;
        MovieResult::from_rows(user, &rows)
    }

    pub fn get_movie_cast(&self, user: &String, movie_id: u64) -> (r: Result<Vec<Cast>, Error>)
        ensures
            r matches Ok(v) ==> forall|i: int| 0 <= i < v@.len() ==> (#[trigger] v@[i]).user@ == user@,
            r matches Ok(v) ==> exists|rows: Seq<Seq<Cell>>| #[trigger] Cast::all_decode(v@, user@, rows),
    {
        let rows = self.query(MOVIE_CAST_OF, &params1(decimal_string(movie_id)), "get_movie_cast")?;
        Cast::from_rows(user, &rows)
    }

    pub fn get_movie_crew(&self, user: &String, movie_id: u64) -> (r: Result<Vec<Crew>, Error>)
        ensures
            r matches Ok(v) ==> forall|i: int| 0 <= i < v@.len() ==> (#[trigger] v@[i]).user@ == user@,
            r matches Ok(v) ==> exists|rows: Seq<Seq<Cell>>| #[trigger] Crew::all_decode(v@, user@, rows),
    {
        let rows = self.query(MOVIE_CREW_OF, &params1(decimal_string(movie_id)), "get_movie_crew")?;
        Crew::from_rows(user, &rows)
    }

    pub fn get_movie_trailer(&self, movie_id: u64) -> (r: Result<Vec<Trailer>, Error>)
        ensures
            r matches Ok(v) ==> exists|rows: Seq<Seq<Cell>>| #[trigger] Trailer::all_decode(v@, rows),
    {
        let rows = self.query(MOVIE_TRAILERS_OF, &params1(decimal_string(movie_id)), "get_movie_trailer")?;
        Trailer::from_rows(&rows)
    }

    pub fn get_movie_keywords(&self, movie_id: u64) -> (r: Result<Vec<Keyword>, Error>)
        ensures
            r matches Ok(v) ==> exists|rows: Seq<Seq<Cell>>| #[trigger] Keyword::all_decode(v@, rows),
    {
        let rows = self.query(MOVIE_KEYWORDS_OF, &params1(decimal_string(movie_id)), "get_movie_keywords")?;
        Keyword::from_rows(&rows)
    }

    /// Every movie genre known.
    pub fn genre_movie(&self) -> (r: Result<Vec<Genre>, Error>)
        ensures
            r matches Ok(v) ==> exists|rows: Seq<Seq<Cell>>| #[trigger] Genre::all_decode(v@, rows),
    {
        let none: Vec<String> = Vec::new();
        let rows = self.query(MOVIE_GENRES, &none, "genre_movie")?;
        Genre::from_rows(&rows)
    }

    /// Sets how many times `user` watched the movie.
    pub fn set_movie_watched(&mut self, user: String, movie_id: u64, watched: u64) -> (r: Result<(), Error>)
        ensures
            match r {
                Ok(()) => final(self).history() == old(self).history().push(
                    (replace_into(MOVIE_WATCHED@), seq![dec(watched), user@, dec(movie_id)]),
                ),
                Err(e) => e.location@ == "set_movie_watched"@ && final(self).history() == old(self).history(),
            },
    {
        let sql = replace_into_sql(MOVIE_WATCHED);
        let params = params3(decimal_string(watched), user, decimal_string(movie_id));
        self.execute(sql.as_str(), &params, "set_movie_watched")?;
        Ok(())
    }

    /// Deletes the movie's row and every row it owns (genre, collection and
    /// keyword links, trailers, credits, watch marks) in one transaction. It
    /// touches no other entity.
    pub fn delete_movie(&mut self, movie_id: u64) -> (r: Result<(), Error>)
        ensures
            match r {
                Ok(()) => final(self).history() == old(self).history() + movie_delete_plan(movie_id),
                Err(e) => e.kind is TransactionFailure && e.location@ == "delete_movie"@ && final(self).history() == old(self).history(),
            },
    {
        let statements = movie_delete_statements(movie_id);
        self.transaction(&statements, "delete_movie")
    }
}

/// The statements that delete a movie's own rows.
pub fn movie_delete_statements(movie_id: u64) -> (r: Vec<SqlQuery>)
    ensures
        statement_views(r@) == movie_delete_plan(movie_id),
{
    let mut out: Vec<SqlQuery> = Vec::new();
    push_delete(&mut out, "Movies", "id", movie_id);
    push_delete(&mut out, "MovieGenreLinks", "movie_id", movie_id);
    push_delete(&mut out, "MovieCollectionLinks", "movie_id", movie_id);
    push_delete(&mut out, "MovieKeywordLinks", "movie_id", movie_id);
    push_delete(&mut out, "MovieTrailers", "movie_id", movie_id);
    push_delete(&mut out, "MovieCasts", "movie_id", movie_id);
    push_delete(&mut out, "MovieCrews", "movie_id", movie_id);
    push_delete(&mut out, "MovieUserWatched", "movie_id", movie_id);
    proof {
        assert(statement_views(out@) =~= movie_delete_plan(movie_id));
    }
    out
}

} // verus!
