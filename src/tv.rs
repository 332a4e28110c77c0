use vstd::prelude::*;

use crate::metadata;
use crate::credits::{Cast, Crew, Genre, Keyword, Trailer};
use crate::error::{Error, ErrorKind};
use crate::query::{
    generate_sql, params1, params2, params3, push_statement, statement_views, Filter, SqlQuery,
    StatementView,
};
use crate::row::{
    at_i64, at_list, at_number, at_text, at_u64, at_watched, get_i64, get_list, get_number,
    get_text, get_u64, get_watched, row_views,
};
use crate::store::{Cell, SqlLibrary};
use crate::text::{decimal_string, texts};
use crate::upsert::{
    all_upserts, bool_string, bool_text, cast_ids, cast_statements, creator_ids, creator_statements,
    crew_ids, crew_statements, dec, delete_where, genre_statements, keyword_statements,
    lemma_all_upserts_concat, lemma_cast_upserts, lemma_creator_upserts, lemma_crew_upserts,
    lemma_genre_upserts, lemma_keyword_upserts, lemma_replace_is_upsert, lemma_trailer_upserts,
    opt_paths, or_empty, push_casts, push_creators, push_crews, push_delete, push_genres,
    push_keywords, push_path, push_trailers, replace_into, replace_into_sql, text_or_empty,
    trailer_statements, KEYWORD,
};
use crate::watch::{aggregate_watched, min_watched};

verus! {

/// A show of the library, with the watch mark of one user.
#[derive(Debug)]
pub struct Tv {
    /// The user whose watch marks the record carries.
    pub user: String,
    pub id: u64,
    pub original_title: String,
    pub original_language: String,
    pub title: String,
    pub release_date: String,
    pub overview: String,
    /// Decimal text.
    pub popularity: String,
    pub poster_path: String,
    pub backdrop_path: String,
    /// Decimal text.
    pub vote_average: String,
    pub vote_count: i64,
    pub status: String,
    pub genres: Vec<String>,
    pub number_of_episodes: u64,
    pub number_of_seasons: u64,
    pub episode_run_time: u64,
    /// When its latest video was added.
    pub adding: String,
    pub updated: String,
    /// The least watched counter of its episodes; filled from them after the row is read.
    pub watched: u64,
}

/// Whether every column that a tv needs holds a value of the right type.
pub open spec fn tv_row_ok(row: Seq<Cell>) -> bool {
    &&& at_u64(row, 0) is Some
    &&& at_text(row, 1) is Some
    &&& at_text(row, 2) is Some
    &&& at_text(row, 3) is Some
    &&& at_text(row, 4) is Some
    &&& at_text(row, 5) is Some
    &&& at_number(row, 6) is Some
    &&& at_text(row, 7) is Some
    &&& at_text(row, 8) is Some
    &&& at_number(row, 9) is Some
    &&& at_i64(row, 10) is Some
    &&& at_text(row, 11) is Some
    &&& at_list(row, 12) is Some
    &&& at_u64(row, 13) is Some
    &&& at_u64(row, 14) is Some
    &&& at_u64(row, 15) is Some
    &&& at_text(row, 16) is Some
    &&& at_text(row, 17) is Some
}

impl Tv {
    /// Whether this record is what `row` holds, read for `user`.
    pub open spec fn decodes(&self, user: Seq<char>, row: Seq<Cell>) -> bool {
        &&& self.user@ == user
        &&& at_u64(row, 0) == Some(self.id)
        &&& at_text(row, 1) == Some(self.original_title@)
        &&& at_text(row, 2) == Some(self.original_language@)
        &&& at_text(row, 3) == Some(self.title@)
        &&& at_text(row, 4) == Some(self.release_date@)
        &&& at_text(row, 5) == Some(self.overview@)
        &&& at_number(row, 6) == Some(self.popularity@)
        &&& at_text(row, 7) == Some(self.poster_path@)
        &&& at_text(row, 8) == Some(self.backdrop_path@)
        &&& at_number(row, 9) == Some(self.vote_average@)
        &&& at_i64(row, 10) == Some(self.vote_count)
        &&& at_text(row, 11) == Some(self.status@)
        &&& at_list(row, 12) == Some(texts(self.genres@))
        &&& at_u64(row, 13) == Some(self.number_of_episodes)
        &&& at_u64(row, 14) == Some(self.number_of_seasons)
        &&& at_u64(row, 15) == Some(self.episode_run_time)
        &&& at_text(row, 16) == Some(self.adding@)
        &&& at_text(row, 17) == Some(self.updated@)
        &&& self.watched == 0
    }

    /// Reads one result row.
    pub fn from_row(user: &String, row: &Vec<Cell>) -> (r: Result<Tv, Error>)
        ensures
            match r {
                Ok(x) => x.decodes(user@, row@),
                Err(e) => e.kind is Decode && !tv_row_ok(row@),
            },
    {
        let id = get_u64(row, 0, "get_tv")?;
        let original_title = get_text(row, 1, "get_tv")?;
        let original_language = get_text(row, 2, "get_tv")?;
        let title = get_text(row, 3, "get_tv")?;
        let release_date = get_text(row, 4, "get_tv")?;
        let overview = get_text(row, 5, "get_tv")?;
        let popularity = get_number(row, 6, "get_tv")?;
        let poster_path = get_text(row, 7, "get_tv")?;
        let backdrop_path = get_text(row, 8, "get_tv")?;
        let vote_average = get_number(row, 9, "get_tv")?;
        let vote_count = get_i64(row, 10, "get_tv")?;
        let status = get_text(row, 11, "get_tv")?;
        let genres = get_list(row, 12, "get_tv")?;
        let number_of_episodes = get_u64(row, 13, "get_tv")?;
        let number_of_seasons = get_u64(row, 14, "get_tv")?;
        let episode_run_time = get_u64(row, 15, "get_tv")?;
        let adding = get_text(row, 16, "get_tv")?;
        let updated = get_text(row, 17, "get_tv")?;
        let watched: u64 = 0;
        Ok(Tv { user: user.clone(), id, original_title, original_language, title, release_date, overview, popularity, poster_path, backdrop_path, vote_average, vote_count, status, genres, number_of_episodes, number_of_seasons, episode_run_time, adding, updated, watched })
    }

    /// Whether the records are, one for one, what the rows hold.
    pub open spec fn all_decode(v: Seq<Tv>, user: Seq<char>, rows: Seq<Seq<Cell>>) -> bool {
        &&& v.len() == rows.len()
        &&& forall|i: int| 0 <= i < v.len() ==> (#[trigger] v[i]).decodes(user, rows[i])
    }

    /// Reads every result row, in order; fails on the first row that does not decode.
    pub fn from_rows(user: &String, rows: &Vec<Vec<Cell>>) -> (r: Result<Vec<Tv>, Error>)
        ensures
            r matches Ok(v) ==> Tv::all_decode(v@, user@, row_views(rows@)),
            match r {
                Ok(v) => v@.len() == rows@.len() && forall|i: int|
                    0 <= i < rows@.len() ==> (#[trigger] v@[i]).decodes(user@, rows@[i]@),
                Err(e) => e.kind is Decode && exists|i: int|
                    0 <= i < rows@.len() && !tv_row_ok(#[trigger] rows@[i]@),
            },
    {
        let mut out: Vec<Tv> = Vec::new();
        let n = rows.len();
        let mut i: usize = 0;
        while i < n
            invariant
                n == rows@.len(),
                i <= n,
                out@.len() == i,
                forall|j: int| 0 <= j < i ==> (#[trigger] out@[j]).decodes(user@, rows@[j]@),
            decreases n - i,
        {
            let x = Tv::from_row(user, &rows[i])?;
            out.push(x);
            i = i + 1;
        }
        proof {
            assert forall|i: int| 0 <= i < out@.len() implies (#[trigger] out@[i]).decodes(
                user@, row_views(rows@)[i],
            ) by {
                assert(row_views(rows@)[i] == rows@[i]@);
            }
        }
        Ok(out)
    }

    /// Reads the first result row, if there is one.
    pub fn first_of(user: &String, rows: &Vec<Vec<Cell>>) -> (r: Result<Option<Tv>, Error>)
        ensures
            match r {
                Ok(Some(x)) => rows@.len() > 0 && x.decodes(user@, rows@[0]@),
                Ok(None) => rows@.len() == 0,
                Err(e) => e.kind is Decode && rows@.len() > 0 && !tv_row_ok(rows@[0]@),
            },
    {
        if rows.len() == 0 {
            return Ok(None);
        }
        let x = Tv::from_row(user, &rows[0])?;
        Ok(Some(x))
    }
}
/// The summary of a show that searches return.
#[derive(Debug)]
pub struct TvResult {
    /// The user whose watch marks the record carries.
    pub user: String,
    pub id: u64,
    pub title: String,
    pub release_date: String,
    pub poster_path: String,
    /// Decimal text.
    pub vote_average: String,
    pub genres: Vec<String>,
    pub adding: String,
    /// The least watched counter of its episodes.
    pub watched: u64,
    pub backdrop_path: String,
}

/// Whether every column that a tv result needs holds a value of the right type.
pub open spec fn tv_result_row_ok(row: Seq<Cell>) -> bool {
    &&& at_u64(row, 0) is Some
    &&& at_text(row, 1) is Some
    &&& at_text(row, 2) is Some
    &&& at_text(row, 3) is Some
    &&& at_number(row, 4) is Some
    &&& at_list(row, 5) is Some
    &&& at_text(row, 6) is Some
    &&& at_watched(row, 7) is Some
    &&& at_text(row, 8) is Some
}

impl TvResult {
    /// Whether this record is what `row` holds, read for `user`.
    pub open spec fn decodes(&self, user: Seq<char>, row: Seq<Cell>) -> bool {
        &&& self.user@ == user
        &&& at_u64(row, 0) == Some(self.id)
        &&& at_text(row, 1) == Some(self.title@)
        &&& at_text(row, 2) == Some(self.release_date@)
        &&& at_text(row, 3) == Some(self.poster_path@)
        &&& at_number(row, 4) == Some(self.vote_average@)
        &&& at_list(row, 5) == Some(texts(self.genres@))
        &&& at_text(row, 6) == Some(self.adding@)
        &&& at_watched(row, 7) == Some(self.watched)
        &&& at_text(row, 8) == Some(self.backdrop_path@)
    }

    /// Reads one result row.
    pub fn from_row(user: &String, row: &Vec<Cell>) -> (r: Result<TvResult, Error>)
        ensures
            match r {
                Ok(x) => x.decodes(user@, row@),
                Err(e) => e.kind is Decode && !tv_result_row_ok(row@),
            },
    {
        let id = get_u64(row, 0, "get_tvs")?;
        let title = get_text(row, 1, "get_tvs")?;
        let release_date = get_text(row, 2, "get_tvs")?;
        let poster_path = get_text(row, 3, "get_tvs")?;
        let vote_average = get_number(row, 4, "get_tvs")?;
        let genres = get_list(row, 5, "get_tvs")?;
        let adding = get_text(row, 6, "get_tvs")?;
        let watched = get_watched(row, 7, "get_tvs")?;
        let backdrop_path = get_text(row, 8, "get_tvs")?;
        Ok(TvResult { user: user.clone(), id, title, release_date, poster_path, vote_average, genres, adding, watched, backdrop_path })
    }

    /// Whether the records are, one for one, what the rows hold.
    pub open spec fn all_decode(v: Seq<TvResult>, user: Seq<char>, rows: Seq<Seq<Cell>>) -> bool {
        &&& v.len() == rows.len()
        &&& forall|i: int| 0 <= i < v.len() ==> (#[trigger] v[i]).decodes(user, rows[i])
    }

    /// Reads every result row, in order; fails on the first row that does not decode.
    pub fn from_rows(user: &String, rows: &Vec<Vec<Cell>>) -> (r: Result<Vec<TvResult>, Error>)
        ensures
            r matches Ok(v) ==> TvResult::all_decode(v@, user@, row_views(rows@)),
            match r {
                Ok(v) => v@.len() == rows@.len() && forall|i: int|
                    0 <= i < rows@.len() ==> (#[trigger] v@[i]).decodes(user@, rows@[i]@),
                Err(e) => e.kind is Decode && exists|i: int|
                    0 <= i < rows@.len() && !tv_result_row_ok(#[trigger] rows@[i]@),
            },
    {
        let mut out: Vec<TvResult> = Vec::new();
        let n = rows.len();
        let mut i: usize = 0;
        while i < n
            invariant
                n == rows@.len(),
                i <= n,
                out@.len() == i,
                forall|j: int| 0 <= j < i ==> (#[trigger] out@[j]).decodes(user@, rows@[j]@),
            decreases n - i,
        {
            let x = TvResult::from_row(user, &rows[i])?;
            out.push(x);
            i = i + 1;
        }
        proof {
            assert forall|i: int| 0 <= i < out@.len() implies (#[trigger] out@[i]).decodes(
                user@, row_views(rows@)[i],
            ) by {
                assert(row_views(rows@)[i] == rows@[i]@);
            }
        }
        Ok(out)
    }

    /// Reads the first result row, if there is one.
    pub fn first_of(user: &String, rows: &Vec<Vec<Cell>>) -> (r: Result<Option<TvResult>, Error>)
        ensures
            match r {
                Ok(Some(x)) => rows@.len() > 0 && x.decodes(user@, rows@[0]@),
                Ok(None) => rows@.len() == 0,
                Err(e) => e.kind is Decode && rows@.len() > 0 && !tv_result_row_ok(rows@[0]@),
            },
    {
        if rows.len() == 0 {
            return Ok(None);
        }
        let x = TvResult::from_row(user, &rows[0])?;
        Ok(Some(x))
    }
}
/// A season of a show, with the watch mark of one user.
#[derive(Debug)]
pub struct Season {
    /// The user whose watch marks the record carries.
    pub user: String,
    pub season_number: u64,
    pub episode_count: u64,
    pub title: String,
    pub overview: String,
    pub poster_path: String,
    pub release_date: String,
    pub tv_id: u64,
    pub updated: String,
    /// The least watched counter of its episodes; filled from them after the row is read.
    pub watched: u64,
}

/// Whether every column that a season needs holds a value of the right type.
pub open spec fn season_row_ok(row: Seq<Cell>) -> bool {
    &&& at_u64(row, 0) is Some
    &&& at_u64(row, 1) is Some
    &&& at_text(row, 2) is Some
    &&& at_text(row, 3) is Some
    &&& at_text(row, 4) is Some
    &&& at_text(row, 5) is Some
    &&& at_u64(row, 6) is Some
    &&& at_text(row, 7) is Some
}

impl Season {
    /// Whether this record is what `row` holds, read for `user`.
    pub open spec fn decodes(&self, user: Seq<char>, row: Seq<Cell>) -> bool {
        &&& self.user@ == user
        &&& at_u64(row, 0) == Some(self.season_number)
        &&& at_u64(row, 1) == Some(self.episode_count)
        &&& at_text(row, 2) == Some(self.title@)
        &&& at_text(row, 3) == Some(self.overview@)
        &&& at_text(row, 4) == Some(self.poster_path@)
        &&& at_text(row, 5) == Some(self.release_date@)
        &&& at_u64(row, 6) == Some(self.tv_id)
        &&& at_text(row, 7) == Some(self.updated@)
        &&& self.watched == 0
    }

    /// Reads one result row.
    pub fn from_row(user: &String, row: &Vec<Cell>) -> (r: Result<Season, Error>)
        ensures
            match r {
                Ok(x) => x.decodes(user@, row@),
                Err(e) => e.kind is Decode && !season_row_ok(row@),
            },
    {
        let season_number = get_u64(row, 0, "get_seasons")?;
        let episode_count = get_u64(row, 1, "get_seasons")?;
        let title = get_text(row, 2, "get_seasons")?;
        let overview = get_text(row, 3, "get_seasons")?;
        let poster_path = get_text(row, 4, "get_seasons")?;
        let release_date = get_text(row, 5, "get_seasons")?;
        let tv_id = get_u64(row, 6, "get_seasons")?;
        let updated = get_text(row, 7, "get_seasons")?;
        let watched: u64 = 0;
        Ok(Season { user: user.clone(), season_number, episode_count, title, overview, poster_path, release_date, tv_id, updated, watched })
    }

    /// Whether the records are, one for one, what the rows hold.
    pub open spec fn all_decode(v: Seq<Season>, user: Seq<char>, rows: Seq<Seq<Cell>>) -> bool {
        &&& v.len() == rows.len()
        &&& forall|i: int| 0 <= i < v.len() ==> (#[trigger] v[i]).decodes(user, rows[i])
    }

    /// Reads every result row, in order; fails on the first row that does not decode.
    pub fn from_rows(user: &String, rows: &Vec<Vec<Cell>>) -> (r: Result<Vec<Season>, Error>)
        ensures
            r matches Ok(v) ==> Season::all_decode(v@, user@, row_views(rows@)),
            match r {
                Ok(v) => v@.len() == rows@.len() && forall|i: int|
                    0 <= i < rows@.len() ==> (#[trigger] v@[i]).decodes(user@, rows@[i]@),
                Err(e) => e.kind is Decode && exists|i: int|
                    0 <= i < rows@.len() && !season_row_ok(#[trigger] rows@[i]@),
            },
    {
        let mut out: Vec<Season> = Vec::new();
        let n = rows.len();
        let mut i: usize = 0;
        while i < n
            invariant
                n == rows@.len(),
                i <= n,
                out@.len() == i,
                forall|j: int| 0 <= j < i ==> (#[trigger] out@[j]).decodes(user@, rows@[j]@),
            decreases n - i,
        {
            let x = Season::from_row(user, &rows[i])?;
            out.push(x);
            i = i + 1;
        }
        proof {
            assert forall|i: int| 0 <= i < out@.len() implies (#[trigger] out@[i]).decodes(
                user@, row_views(rows@)[i],
            ) by {
                assert(row_views(rows@)[i] == rows@[i]@);
            }
        }
        Ok(out)
    }

    /// Reads the first result row, if there is one.
    pub fn first_of(user: &String, rows: &Vec<Vec<Cell>>) -> (r: Result<Option<Season>, Error>)
        ensures
            match r {
                Ok(Some(x)) => rows@.len() > 0 && x.decodes(user@, rows@[0]@),
                Ok(None) => rows@.len() == 0,
                Err(e) => e.kind is Decode && rows@.len() > 0 && !season_row_ok(rows@[0]@),
            },
    {
        if rows.len() == 0 {
            return Ok(None);
        }
        let x = Season::from_row(user, &rows[0])?;
        Ok(Some(x))
    }
}
/// An episode of a show, with the watch mark of one user.
#[derive(Debug)]
pub struct Episode {
    /// The user whose watch marks the record carries.
    pub user: String,
    pub season_number: u64,
    pub episode_number: u64,
    pub release_date: String,
    pub title: String,
    pub overview: String,
    /// Decimal text.
    pub vote_average: String,
    pub vote_count: u64,
    pub id: u64,
    pub tv_id: u64,
    pub watched: u64,
    pub updated: String,
    pub tv_title: String,
    /// The poster of its show.
    pub poster_path: String,
}

/// Whether every column that a episode needs holds a value of the right type.
pub open spec fn episode_row_ok(row: Seq<Cell>) -> bool {
    &&& at_u64(row, 0) is Some
    &&& at_u64(row, 1) is Some
    &&& at_text(row, 2) is Some
    &&& at_text(row, 3) is Some
    &&& at_text(row, 4) is Some
    &&& at_number(row, 5) is Some
    &&& at_u64(row, 6) is Some
    &&& at_u64(row, 7) is Some
    &&& at_u64(row, 8) is Some
    &&& at_watched(row, 9) is Some
    &&& at_text(row, 10) is Some
    &&& at_text(row, 11) is Some
    &&& at_text(row, 12) is Some
}

impl Episode {
    /// Whether this record is what `row` holds, read for `user`.
    pub open spec fn decodes(&self, user: Seq<char>, row: Seq<Cell>) -> bool {
        &&& self.user@ == user
        &&& at_u64(row, 0) == Some(self.season_number)
        &&& at_u64(row, 1) == Some(self.episode_number)
        &&& at_text(row, 2) == Some(self.release_date@)
        &&& at_text(row, 3) == Some(self.title@)
        &&& at_text(row, 4) == Some(self.overview@)
        &&& at_number(row, 5) == Some(self.vote_average@)
        &&& at_u64(row, 6) == Some(self.vote_count)
        &&& at_u64(row, 7) == Some(self.id)
        &&& at_u64(row, 8) == Some(self.tv_id)
        &&& at_watched(row, 9) == Some(self.watched)
        &&& at_text(row, 10) == Some(self.updated@)
        &&& at_text(row, 11) == Some(self.tv_title@)
        &&& at_text(row, 12) == Some(self.poster_path@)
    }

    /// Reads one result row.
    pub fn from_row(user: &String, row: &Vec<Cell>) -> (r: Result<Episode, Error>)
        ensures
            match r {
                Ok(x) => x.decodes(user@, row@),
                Err(e) => e.kind is Decode && !episode_row_ok(row@),
            },
    {
        let season_number = get_u64(row, 0, "get_episodes")?;
        let episode_number = get_u64(row, 1, "get_episodes")?;
        let release_date = get_text(row, 2, "get_episodes")?;
        let title = get_text(row, 3, "get_episodes")?;
        let overview = get_text(row, 4, "get_episodes")?;
        let vote_average = get_number(row, 5, "get_episodes")?;
        let vote_count = get_u64(row, 6, "get_episodes")?;
        let id = get_u64(row, 7, "get_episodes")?;
        let tv_id = get_u64(row, 8, "get_episodes")?;
        let watched = get_watched(row, 9, "get_episodes")?;
        let updated = get_text(row, 10, "get_episodes")?;
        let tv_title = get_text(row, 11, "get_episodes")?;
        let poster_path = get_text(row, 12, "get_episodes")?;
        Ok(Episode { user: user.clone(), season_number, episode_number, release_date, title, overview, vote_average, vote_count, id, tv_id, watched, updated, tv_title, poster_path })
    }

    /// Whether the records are, one for one, what the rows hold.
    pub open spec fn all_decode(v: Seq<Episode>, user: Seq<char>, rows: Seq<Seq<Cell>>) -> bool {
        &&& v.len() == rows.len()
        &&& forall|i: int| 0 <= i < v.len() ==> (#[trigger] v[i]).decodes(user, rows[i])
    }

    /// Reads every result row, in order; fails on the first row that does not decode.
    pub fn from_rows(user: &String, rows: &Vec<Vec<Cell>>) -> (r: Result<Vec<Episode>, Error>)
        ensures
            r matches Ok(v) ==> Episode::all_decode(v@, user@, row_views(rows@)),
            match r {
                Ok(v) => v@.len() == rows@.len() && forall|i: int|
                    0 <= i < rows@.len() ==> (#[trigger] v@[i]).decodes(user@, rows@[i]@),
                Err(e) => e.kind is Decode && exists|i: int|
                    0 <= i < rows@.len() && !episode_row_ok(#[trigger] rows@[i]@),
            },
    {
        let mut out: Vec<Episode> = Vec::new();
        let n = rows.len();
        let mut i: usize = 0;
        while i < n
            invariant
                n == rows@.len(),
                i <= n,
                out@.len() == i,
                forall|j: int| 0 <= j < i ==> (#[trigger] out@[j]).decodes(user@, rows@[j]@),
            decreases n - i,
        {
            let x = Episode::from_row(user, &rows[i])?;
            out.push(x);
            i = i + 1;
        }
        proof {
            assert forall|i: int| 0 <= i < out@.len() implies (#[trigger] out@[i]).decodes(
                user@, row_views(rows@)[i],
            ) by {
                assert(row_views(rows@)[i] == rows@[i]@);
            }
        }
        Ok(out)
    }

    /// Reads the first result row, if there is one.
    pub fn first_of(user: &String, rows: &Vec<Vec<Cell>>) -> (r: Result<Option<Episode>, Error>)
        ensures
            match r {
                Ok(Some(x)) => rows@.len() > 0 && x.decodes(user@, rows@[0]@),
                Ok(None) => rows@.len() == 0,
                Err(e) => e.kind is Decode && rows@.len() > 0 && !episode_row_ok(rows@[0]@),
            },
    {
        if rows.len() == 0 {
            return Ok(None);
        }
        let x = Episode::from_row(user, &rows[0])?;
        Ok(Some(x))
    }
}
pub const TV_ROW: &'static str = "Tvs (id, original_title, original_language, title, release_date, overview, popularity, poster_path, backdrop_path, status, vote_average, vote_count, in_production, number_of_episodes, number_of_seasons, episode_run_time, updated) values (?1, ?2, ?3, ?4, ?5, ?6, ?7, ?8, ?9, ?10, ?11, ?12, ?13, ?14, ?15, ?16, datetime('now'))";

pub const SEASON_ROW: &'static str = "Seasons (id, tv_id, season_number, episode_count, title, overview, poster_path, release_date, updated) values (?1, ?2, ?3, ?4, ?5, ?6, ?7, ?8, datetime('now'))";

pub const TV_GENRE: &'static str = "TvGenres (id, name) values (?1, ?2)";

pub const TV_GENRE_LINK: &'static str = "TvGenreLinks (genre_id, tv_id) values (?1, ?2)";

pub const TV_CAST: &'static str = "TvCasts (person_id, tv_id, character, ord) values (?1, ?2, ?3, ?4)";

pub const TV_CREW: &'static str = "TvCrews (person_id, tv_id, job) values (?1, ?2, ?3)";

pub const TV_TRAILER: &'static str = "TvTrailers (tv_id, name, youtube_id) values (?1, ?2, ?3)";

pub const TV_KEYWORD_LINK: &'static str = "TvKeywordLinks (keyword_id, tv_id) values (?1, ?2)";

pub const EPISODE_ROW: &'static str = "Episodes (id, season_id, tv_id, season_number, episode_number, release_date, title, overview, vote_average, vote_count, updated) values (?1, ?2, ?3, ?4, ?5, ?6, ?7, ?8, ?9, ?10, datetime('now'))";

pub const EPISODE_CAST: &'static str = "EpisodeCasts (person_id, episode_id, character, ord) values (?1, ?2, ?3, ?4)";

pub const EPISODE_CREW: &'static str = "EpisodeCrews (person_id, episode_id, job) values (?1, ?2, ?3)";

pub const EPISODE_WATCHED: &'static str = "EpisodesUserWatched (watched, user_name, episode_id) values (?1, ?2, ?3)";

pub const SEASON_ID: &'static str = "SELECT id from Seasons WHERE tv_id = ?1 and season_number = ?2";

pub const TV_BY_ID: &'static str = "SELECT TvsView.id, TvsView.original_title, TvsView.original_language, TvsView.title, TvsView.release_date, TvsView.overview, TvsView.popularity, TvsView.poster_path, TvsView.backdrop_path, TvsView.vote_average, TvsView.vote_count, TvsView.status, TvsView.genres, TvsView.number_of_episodes, TvsView.number_of_seasons, TvsView.episode_run_time, TvsView.adding, TvsView.updated FROM TvsView WHERE TvsView.id = ?1 GROUP BY TvsView.id";

pub const TV_WATCH_COUNTS: &'static str = "SELECT COALESCE(EpisodesUserWatched.watched, 0) FROM Episodes LEFT OUTER JOIN EpisodesUserWatched ON Episodes.id = EpisodesUserWatched.episode_id AND EpisodesUserWatched.user_name = ?1 WHERE Episodes.tv_id = ?2";

pub const SEASON_WATCH_COUNTS: &'static str = "SELECT COALESCE(EpisodesUserWatched.watched, 0) FROM Episodes LEFT OUTER JOIN EpisodesUserWatched ON Episodes.id = EpisodesUserWatched.episode_id AND EpisodesUserWatched.user_name = ?1 WHERE Episodes.tv_id = ?2 AND Episodes.season_number = ?3";

pub const TVS_HEAD: &'static str = "SELECT Tvs.id, Tvs.title, Tvs.release_date, Tvs.poster_path, Tvs.vote_average, GROUP_CONCAT(DISTINCT TvGenres.name), MAX(Videos.adding), MIN(COALESCE(EpisodesUserWatched.watched, 0)), Tvs.backdrop_path FROM Tvs LEFT OUTER JOIN Episodes ON Tvs.id = Episodes.tv_id INNER JOIN Videos ON Videos.media_id = Episodes.id AND Videos.media_type = 1 LEFT OUTER JOIN TvGenreLinks ON Tvs.id = TvGenreLinks.tv_id LEFT OUTER JOIN TvGenres ON TvGenreLinks.genre_id = TvGenres.id LEFT OUTER JOIN TvCasts ON Tvs.id = TvCasts.tv_id LEFT OUTER JOIN TvCrews ON Tvs.id = TvCrews.tv_id LEFT OUTER JOIN TvCollectionLinks ON Tvs.id = TvCollectionLinks.tv_id LEFT OUTER JOIN EpisodesUserWatched ON Episodes.id = EpisodesUserWatched.episode_id AND EpisodesUserWatched.user_name = ?1";

pub const SEASONS_OF: &'static str = "SELECT season_number, episode_count, title, overview, poster_path, release_date, tv_id, updated FROM SeasonsView WHERE tv_id = ?1";

pub const EPISODES_HEAD: &'static str = "SELECT Episodes.season_number, Episodes.episode_number, Episodes.release_date, Episodes.title, Episodes.overview, Episodes.vote_average, Episodes.vote_count, Episodes.id, Episodes.tv_id, EpisodesUserWatched.watched, Episodes.updated, Tvs.title, Tvs.poster_path FROM Episodes INNER JOIN Videos ON Videos.media_id = Episodes.id AND Videos.media_type = 1 LEFT OUTER JOIN Tvs ON Episodes.tv_id = Tvs.id LEFT OUTER JOIN EpisodeCasts ON Episodes.id = EpisodeCasts.episode_id LEFT OUTER JOIN EpisodeCrews ON Episodes.id = EpisodeCrews.episode_id LEFT OUTER JOIN EpisodesUserWatched ON Episodes.id = EpisodesUserWatched.episode_id AND EpisodesUserWatched.user_name = ?1";

pub const TV_CAST_OF: &'static str = "SELECT id, character, ord, name, profile_path FROM TvCastsView WHERE tv_id = ?1";

pub const TV_CREW_OF: &'static str = "SELECT id, job, name, profile_path FROM TvCrewsView WHERE tv_id = ?1";

pub const EPISODE_CAST_OF: &'static str = "SELECT id, character, ord, name, profile_path FROM EpisodeCastsView WHERE episode_id = ?1";

pub const EPISODE_CREW_OF: &'static str = "SELECT id, job, name, profile_path FROM EpisodeCrewsView WHERE episode_id = ?1";

pub const TV_TRAILERS_OF: &'static str = "SELECT name, youtube_id FROM TvTrailers WHERE tv_id = ?1";

pub const TV_KEYWORDS_OF: &'static str = "SELECT name, id FROM TvKeywordLinks INNER JOIN Keywords ON TvKeywordLinks.keyword_id = Keywords.id WHERE tv_id = ?1";

pub const TV_GENRES: &'static str = "SELECT name, id FROM TvGenres";

/// The first run time listed, or zero.
pub open spec fn first_or_zero(v: Seq<u64>) -> u64 {
    if v.len() > 0 {
        v[0]
    } else {
        0
    }
}

/// The values of a show's own row, in column order.
pub open spec fn tv_row_params(t: metadata::Tv) -> Seq<Seq<char>> {
    seq![
        dec(t.id),
        t.original_name@,
        t.original_language@,
        t.name@,
        or_empty(t.first_air_date),
        or_empty(t.overview),
        t.popularity@,
        or_empty(t.poster_path),
        or_empty(t.backdrop_path),
        t.status@,
        t.vote_average@,
        dec(t.vote_count),
        bool_text(t.in_production),
        dec(t.number_of_episodes),
        dec(t.number_of_seasons),
        dec(first_or_zero(t.episode_run_time@)),
    ]
}

/// One statement per season of a show.
pub open spec fn season_statements(ss: Seq<metadata::Season>, owner: u64) -> Seq<StatementView>
    decreases ss.len(),
{
    if ss.len() == 0 {
        Seq::empty()
    } else {
        let s = ss.last();
        season_statements(ss.drop_last(), owner) + seq![
            (
                replace_into(SEASON_ROW@),
                seq![
                    dec(s.id),
                    dec(owner),
                    dec(s.season_number),
                    dec(s.episode_count),
                    s.name@,
                    or_empty(s.overview),
                    or_empty(s.poster_path),
                    or_empty(s.air_date),
                ],
            ),
        ]
    }
}

/// The posters of the seasons that have one, in order.
pub open spec fn season_posters(ss: Seq<metadata::Season>) -> Seq<Seq<char>>
    decreases ss.len(),
{
    if ss.len() == 0 {
        Seq::empty()
    } else {
        season_posters(ss.drop_last()) + opt_paths(ss.last().poster_path)
    }
}

/// The statements that store a show: its row, its seasons, then its genres,
/// acting credits, kept crew credits, creators, YouTube trailers and
/// keywords.
pub open spec fn tv_upsert_plan(t: metadata::Tv) -> Seq<StatementView> {
    seq![(replace_into(TV_ROW@), tv_row_params(t))] + season_statements(t.seasons@, t.id)
        + genre_statements(TV_GENRE@, TV_GENRE_LINK@, t.genres@, t.id) + cast_statements(
        TV_CAST@,
        t.credits.cast@,
        t.id,
    ) + crew_statements(TV_CREW@, t.credits.crew@, t.id) + creator_statements(
        TV_CREW@,
        t.created_by@,
        t.id,
    ) + trailer_statements(TV_TRAILER@, t.videos.results@, t.id) + keyword_statements(
        TV_KEYWORD_LINK@,
        KEYWORD@,
        t.keywords.results@,
        t.id,
    )
}

/// The people that a stored show credits: actors, kept crew, creators.
pub open spec fn tv_person_ids(t: metadata::Tv) -> Seq<u64> {
    cast_ids(t.credits.cast@) + crew_ids(t.credits.crew@) + creator_ids(t.created_by@)
}

/// The assets that a stored show names: season posters, backdrop, poster.
pub open spec fn tv_asset_paths(t: metadata::Tv) -> Seq<Seq<char>> {
    season_posters(t.seasons@) + opt_paths(t.backdrop_path) + opt_paths(t.poster_path)
}

/// The values of an episode's own row, in column order.
pub open spec fn episode_row_params(tv_id: u64, season_id: u64, e: metadata::TvEpisode) -> Seq<
    Seq<char>,
> {
    seq![
        dec(e.id),
        dec(season_id),
        dec(tv_id),
        dec(e.season_number),
        dec(e.episode_number),
        e.air_date@,
        e.name@,
        or_empty(e.overview),
        e.vote_average@,
        dec(e.vote_count),
    ]
}

/// The statements that store an episode: its row, its acting credits and
/// its kept crew credits.
pub open spec fn episode_upsert_plan(tv_id: u64, season_id: u64, e: metadata::TvEpisode) -> Seq<
    StatementView,
> {
    seq![(replace_into(EPISODE_ROW@), episode_row_params(tv_id, season_id, e))] + cast_statements(
        EPISODE_CAST@,
        e.credits.cast@,
        e.id,
    ) + crew_statements(EPISODE_CREW@, e.credits.crew@, e.id)
}

pub open spec fn episode_person_ids(e: metadata::TvEpisode) -> Seq<u64> {
    cast_ids(e.credits.cast@) + crew_ids(e.credits.crew@)
}

/// The statements that delete a show's own rows, its seasons included.
pub open spec fn tv_delete_plan(id: u64) -> Seq<StatementView> {
    seq![
        (delete_where("Tvs"@, "id"@), seq![dec(id)]),
        (delete_where("TvGenreLinks"@, "tv_id"@), seq![dec(id)]),
        (delete_where("TvCollectionLinks"@, "tv_id"@), seq![dec(id)]),
        (delete_where("TvKeywordLinks"@, "tv_id"@), seq![dec(id)]),
        (delete_where("TvTrailers"@, "tv_id"@), seq![dec(id)]),
        (delete_where("TvCasts"@, "tv_id"@), seq![dec(id)]),
        (delete_where("TvCrews"@, "tv_id"@), seq![dec(id)]),
        (delete_where("Seasons"@, "tv_id"@), seq![dec(id)]),
    ]
}

/// The statements that delete an episode's own rows.
pub open spec fn episode_delete_plan(id: u64) -> Seq<StatementView> {
    seq![
        (delete_where("Episodes"@, "id"@), seq![dec(id)]),
        (delete_where("EpisodeCasts"@, "episode_id"@), seq![dec(id)]),
        (delete_where("EpisodeCrews"@, "episode_id"@), seq![dec(id)]),
        (delete_where("EpisodesUserWatched"@, "episode_id"@), seq![dec(id)]),
    ]
}

fn tv_row_values(t: &metadata::Tv) -> (r: Vec<String>)
    ensures
        texts(r@) == tv_row_params(*t),
{
    let run_time: u64 = if t.episode_run_time.len() > 0 {
        t.episode_run_time[0]
    } else {
        0
    };
    let mut v: Vec<String> = Vec::new();
    v.push(decimal_string(t.id));
    v.push(t.original_name.clone());
    v.push(t.original_language.clone());
    v.push(t.name.clone());
    v.push(text_or_empty(&t.first_air_date));
    v.push(text_or_empty(&t.overview));
    v.push(t.popularity.clone());
    v.push(text_or_empty(&t.poster_path));
    v.push(text_or_empty(&t.backdrop_path));
    v.push(t.status.clone());
    v.push(t.vote_average.clone());
    v.push(decimal_string(t.vote_count));
    v.push(bool_string(t.in_production));
    v.push(decimal_string(t.number_of_episodes));
    v.push(decimal_string(t.number_of_seasons));
    v.push(decimal_string(run_time));
    proof {
        assert(texts(v@) =~= tv_row_params(*t));
    }
    v
}

fn push_seasons(out: &mut Vec<SqlQuery>, paths: &mut Vec<String>, ss: &Vec<metadata::Season>, owner: u64)
    ensures
        statement_views(final(out)@) == statement_views(old(out)@) + season_statements(ss@, owner),
        texts(final(paths)@) == texts(old(paths)@) + season_posters(ss@),
{
    let ghost start = statement_views(out@);
    let ghost start_paths = texts(paths@);
    let mut i: usize = 0;
    proof {
        assert(ss@.subrange(0, 0) =~= Seq::<metadata::Season>::empty());
        assert(start + Seq::<StatementView>::empty() =~= start);
        assert(start_paths + Seq::<Seq<char>>::empty() =~= start_paths);
    }
    while i < ss.len()
        invariant
            i <= ss@.len(),
            statement_views(out@) == start + season_statements(ss@.subrange(0, i as int), owner),
            texts(paths@) == start_paths + season_posters(ss@.subrange(0, i as int)),
        decreases ss@.len() - i,
    {
        let s = &ss[i];
        let mut values: Vec<String> = Vec::new();
        values.push(decimal_string(s.id));
        values.push(decimal_string(owner));
        values.push(decimal_string(s.season_number));
        values.push(decimal_string(s.episode_count));
        values.push(s.name.clone());
        values.push(text_or_empty(&s.overview));
        values.push(text_or_empty(&s.poster_path));
        values.push(text_or_empty(&s.air_date));
        proof {
            assert(texts(values@) =~= seq![
                dec(s.id),
                dec(owner),
                dec(s.season_number),
                dec(s.episode_count),
                s.name@,
                or_empty(s.overview),
                or_empty(s.poster_path),
                or_empty(s.air_date),
            ]);
        }
        push_statement(out, replace_into_sql(SEASON_ROW), values);
        push_path(paths, &s.poster_path);
        proof {
            let next = ss@.subrange(0, i + 1);
            assert(next.drop_last() =~= ss@.subrange(0, i as int));
            assert(statement_views(out@) =~= start + season_statements(next, owner));
            assert(texts(paths@) =~= start_paths + season_posters(next));
        }
        i = i + 1;
    }
    proof {
        assert(ss@.subrange(0, ss@.len() as int) =~= ss@);
    }
}

/// The statements that store a show, in the order they run, with the people
/// it credits and the assets it names.
pub fn tv_upsert_statements(t: &metadata::Tv) -> (r: (Vec<SqlQuery>, Vec<u64>, Vec<String>))
    ensures
        statement_views(r.0@) == tv_upsert_plan(*t),
        r.1@ == tv_person_ids(*t),
        texts(r.2@) == tv_asset_paths(*t),
{
    let mut out: Vec<SqlQuery> = Vec::new();
    let mut ids: Vec<u64> = Vec::new();
    let mut paths: Vec<String> = Vec::new();
    push_statement(&mut out, replace_into_sql(TV_ROW), tv_row_values(t));
    proof {
        assert(statement_views(out@) =~= seq![(replace_into(TV_ROW@), tv_row_params(*t))]);
        assert(texts(paths@) =~= Seq::<Seq<char>>::empty());
        assert(ids@ =~= Seq::<u64>::empty());
    }
    push_seasons(&mut out, &mut paths, &t.seasons, t.id);
    push_path(&mut paths, &t.backdrop_path);
    push_path(&mut paths, &t.poster_path);
    push_genres(&mut out, TV_GENRE, TV_GENRE_LINK, &t.genres, t.id);
    push_casts(&mut out, &mut ids, TV_CAST, &t.credits.cast, t.id);
    push_crews(&mut out, &mut ids, TV_CREW, &t.credits.crew, t.id);
    push_creators(&mut out, &mut ids, TV_CREW, &t.created_by, t.id);
    push_trailers(&mut out, TV_TRAILER, &t.videos.results, t.id);
    push_keywords(&mut out, TV_KEYWORD_LINK, KEYWORD, &t.keywords.results, t.id);
    proof {
        assert(ids@ =~= tv_person_ids(*t));
        assert(texts(paths@) =~= tv_asset_paths(*t));
    }
    (out, ids, paths)
}

/// The statements that store an episode of show `tv_id` in season
/// `season_id`, with the people it credits.
pub fn episode_upsert_statements(tv_id: u64, season_id: u64, e: &metadata::TvEpisode) -> (r: (
    Vec<SqlQuery>,
    Vec<u64>,
))
    ensures
        statement_views(r.0@) == episode_upsert_plan(tv_id, season_id, *e),
        r.1@ == episode_person_ids(*e),
{
    let mut out: Vec<SqlQuery> = Vec::new();
    let mut ids: Vec<u64> = Vec::new();
    let mut v: Vec<String> = Vec::new();
    v.push(decimal_string(e.id));
    v.push(decimal_string(season_id));
    v.push(decimal_string(tv_id));
    v.push(decimal_string(e.season_number));
    v.push(decimal_string(e.episode_number));
    v.push(e.air_date.clone());
    v.push(e.name.clone());
    v.push(text_or_empty(&e.overview));
    v.push(e.vote_average.clone());
    v.push(decimal_string(e.vote_count));
    proof {
        assert(texts(v@) =~= episode_row_params(tv_id, season_id, *e));
    }
    push_statement(&mut out, replace_into_sql(EPISODE_ROW), v);
    proof {
        assert(statement_views(out@) =~= seq![
            (replace_into(EPISODE_ROW@), episode_row_params(tv_id, season_id, *e)),
        ]);
        assert(ids@ =~= Seq::<u64>::empty());
    }
    push_casts(&mut out, &mut ids, EPISODE_CAST, &e.credits.cast, e.id);
    push_crews(&mut out, &mut ids, EPISODE_CREW, &e.credits.crew, e.id);
    proof {
        assert(ids@ =~= episode_person_ids(*e));
    }
    (out, ids)
}

proof fn lemma_season_upserts(ss: Seq<metadata::Season>, owner: u64)
    ensures
        all_upserts(season_statements(ss, owner)),
    decreases ss.len(),
{
    if ss.len() > 0 {
        lemma_season_upserts(ss.drop_last(), owner);
        lemma_replace_is_upsert(SEASON_ROW@);
        let s = ss.last();
        lemma_all_upserts_concat(
            season_statements(ss.drop_last(), owner),
            seq![
                (
                    replace_into(SEASON_ROW@),
                    seq![
                        dec(s.id),
                        dec(owner),
                        dec(s.season_number),
                        dec(s.episode_count),
                        s.name@,
                        or_empty(s.overview),
                        or_empty(s.poster_path),
                        or_empty(s.air_date),
                    ],
                ),
            ],
        );
    }
}

/// Storing a show only inserts rows or replaces or keeps the rows holding
/// the same unique keys, so storing the same show twice leaves one row per
/// key.
pub proof fn lemma_tv_upsert_idempotent(t: metadata::Tv)
    ensures
        all_upserts(tv_upsert_plan(t)),
{
    lemma_replace_is_upsert(TV_ROW@);
    let a = seq![(replace_into(TV_ROW@), tv_row_params(t))];
    assert(all_upserts(a));
    let b = season_statements(t.seasons@, t.id);
    let c = genre_statements(TV_GENRE@, TV_GENRE_LINK@, t.genres@, t.id);
    let d = cast_statements(TV_CAST@, t.credits.cast@, t.id);
    let e = crew_statements(TV_CREW@, t.credits.crew@, t.id);
    let f = creator_statements(TV_CREW@, t.created_by@, t.id);
    let g = trailer_statements(TV_TRAILER@, t.videos.results@, t.id);
    let h = keyword_statements(TV_KEYWORD_LINK@, KEYWORD@, t.keywords.results@, t.id);
    lemma_season_upserts(t.seasons@, t.id);
    lemma_genre_upserts(TV_GENRE@, TV_GENRE_LINK@, t.genres@, t.id);
    lemma_cast_upserts(TV_CAST@, t.credits.cast@, t.id);
    lemma_crew_upserts(TV_CREW@, t.credits.crew@, t.id);
    lemma_creator_upserts(TV_CREW@, t.created_by@, t.id);
    lemma_trailer_upserts(TV_TRAILER@, t.videos.results@, t.id);
    lemma_keyword_upserts(TV_KEYWORD_LINK@, KEYWORD@, t.keywords.results@, t.id);
    lemma_all_upserts_concat(a, b);
    lemma_all_upserts_concat(a + b, c);
    lemma_all_upserts_concat(a + b + c, d);
    lemma_all_upserts_concat(a + b + c + d, e);
    lemma_all_upserts_concat(a + b + c + d + e, f);
    lemma_all_upserts_concat(a + b + c + d + e + f, g);
    lemma_all_upserts_concat(a + b + c + d + e + f + g, h);
}

/// Storing an episode only inserts rows or replaces the rows holding the
/// same unique keys.
pub proof fn lemma_episode_upsert_idempotent(tv_id: u64, season_id: u64, e: metadata::TvEpisode)
    ensures
        all_upserts(episode_upsert_plan(tv_id, season_id, e)),
{
    lemma_replace_is_upsert(EPISODE_ROW@);
    let a = seq![(replace_into(EPISODE_ROW@), episode_row_params(tv_id, season_id, e))];
    assert(all_upserts(a));
    lemma_cast_upserts(EPISODE_CAST@, e.credits.cast@, e.id);
    lemma_crew_upserts(EPISODE_CREW@, e.credits.crew@, e.id);
    lemma_all_upserts_concat(a, cast_statements(EPISODE_CAST@, e.credits.cast@, e.id));
    lemma_all_upserts_concat(
        a + cast_statements(EPISODE_CAST@, e.credits.cast@, e.id),
        crew_statements(EPISODE_CREW@, e.credits.crew@, e.id),
    );
}

pub fn tv_delete_statements(tv_id: u64) -> (r: Vec<SqlQuery>)
    ensures
        statement_views(r@) == tv_delete_plan(tv_id),
{
    let mut out: Vec<SqlQuery> = Vec::new();
    push_delete(&mut out, "Tvs", "id", tv_id);
    push_delete(&mut out, "TvGenreLinks", "tv_id", tv_id);
    push_delete(&mut out, "TvCollectionLinks", "tv_id", tv_id);
    push_delete(&mut out, "TvKeywordLinks", "tv_id", tv_id);
    push_delete(&mut out, "TvTrailers", "tv_id", tv_id);
    push_delete(&mut out, "TvCasts", "tv_id", tv_id);
    push_delete(&mut out, "TvCrews", "tv_id", tv_id);
    push_delete(&mut out, "Seasons", "tv_id", tv_id);
    proof {
        assert(statement_views(out@) =~= tv_delete_plan(tv_id));
    }
    out
}

pub fn episode_delete_statements(episode_id: u64) -> (r: Vec<SqlQuery>)
    ensures
        statement_views(r@) == episode_delete_plan(episode_id),
{
    let mut out: Vec<SqlQuery> = Vec::new();
    push_delete(&mut out, "Episodes", "id", episode_id);
    push_delete(&mut out, "EpisodeCasts", "episode_id", episode_id);
    push_delete(&mut out, "EpisodeCrews", "episode_id", episode_id);
    push_delete(&mut out, "EpisodesUserWatched", "episode_id", episode_id);
    proof {
        assert(statement_views(out@) =~= episode_delete_plan(episode_id));
    }
    out
}

impl Tv {
    /// The show with every field but `watched` as read.
    pub open spec fn zeroed(&self) -> Tv {
        Tv { watched: 0, ..*self }
    }

    /// Whether the show is a row read for `user` with its watched value the
    /// least of some episode counters.
    pub open spec fn read_back(&self, user: Seq<char>) -> bool {
        &&& exists|row: Seq<Cell>| #[trigger] self.zeroed().decodes(user, row)
        &&& exists|counts: Seq<u64>| self.watched == #[trigger] min_watched(counts)
    }

    /// The show with its watched value set to the least of the episode
    /// counters, every other field kept.
    pub fn with_watched(self, counts: &Vec<u64>) -> (r: Tv)
        ensures
            r == (Tv { watched: min_watched(counts@), ..self }),
    {
        let mut t = self;
        t.watched = aggregate_watched(counts);
        t
    }
}

impl Season {
    /// The season with every field but `watched` as read.
    pub open spec fn zeroed(&self) -> Season {
        Season { watched: 0, ..*self }
    }

    /// Whether the season is a row read for `user` with its watched value
    /// the least of some episode counters.
    pub open spec fn read_back(&self, user: Seq<char>) -> bool {
        &&& exists|row: Seq<Cell>| #[trigger] self.zeroed().decodes(user, row)
        &&& exists|counts: Seq<u64>| self.watched == #[trigger] min_watched(counts)
    }

    /// The season with its watched value set to the least of the episode
    /// counters, every other field kept.
    pub fn with_watched(self, counts: &Vec<u64>) -> (r: Season)
        ensures
            r == (Season { watched: min_watched(counts@), ..self }),
    {
        let mut t = self;
        t.watched = aggregate_watched(counts);
        t
    }
}

/// The statements that store an episode once its season's id was looked up:
/// a missing season refuses the episode.
pub fn episode_plan(tv_id: u64, season: Option<u64>, e: &metadata::TvEpisode) -> (r: Result<
    (Vec<SqlQuery>, Vec<u64>),
    Error,
>)
    ensures
        match season {
            None => r matches Err(err) && err.kind is NotFound,
            Some(id) => r matches Ok((v, ids)) && statement_views(v@) == episode_upsert_plan(
                tv_id,
                id,
                *e,
            ) && ids@ == episode_person_ids(*e),
        },
{
    match season {
        Some(id) => Ok(episode_upsert_statements(tv_id, id, e)),
        None => Err(Error::new(ErrorKind::NotFound, String::from_str("no such season"), "create_episode")),
    }
}

/// Reads a column of watched counters.
fn counts_of(rows: &Vec<Vec<Cell>>) -> (r: Result<Vec<u64>, Error>)
    ensures
        r matches Ok(v) ==> v@.len() == rows@.len() && forall|i: int|
            0 <= i < rows@.len() ==> at_u64(rows@[i]@, 0) == Some(#[trigger] v@[i]),
{
    let mut out: Vec<u64> = Vec::new();
    let mut i: usize = 0;
    while i < rows.len()
        invariant
            i <= rows@.len(),
            out@.len() == i,
            forall|j: int| 0 <= j < i ==> at_u64(rows@[j]@, 0) == Some(#[trigger] out@[j]),
        decreases rows@.len() - i,
    {
        let c = get_u64(&rows[i], 0, "watched")?;
        out.push(c);
        i = i + 1;
    }
    Ok(out)
}

impl SqlLibrary {
    /// Stores a show with its seasons, genres, credits, trailers and keywords
    /// in one transaction. Hands back the people it credits and the asset
    /// paths it names.
    pub fn create_tv(&mut self, tv: &metadata::Tv) -> (r: Result<(Vec<u64>, Vec<String>), Error>)
        ensures
            match r {
                Ok((ids, paths)) => ids@ == tv_person_ids(*tv) && texts(paths@) == tv_asset_paths(*tv)
                    && final(self).history() == old(self).history() + tv_upsert_plan(*tv),
                Err(e) => e.kind is TransactionFailure && e.location@ == "create_tv"@ && final(self).history() == old(self).history(),
            },
    {
        let (statements, ids, paths) = tv_upsert_statements(tv);
        self.transaction(&statements, "create_tv")?;
        Ok((ids, paths))
    }

    /// The id of season `season_number` of show `tv_id`, if stored.
    pub fn get_season_id(&self, tv_id: u64, season_number: u64) -> (r: Result<Option<u64>, Error>)
        ensures
            r matches Ok(Some(id)) ==> exists|row: Seq<Cell>| #[trigger] at_u64(row, 0) == Some(id),
    {
        let rows = self.query(SEASON_ID, &params2(decimal_string(tv_id), decimal_string(season_number)), "get_season_id")?;
        if rows.len() == 0 {
            return Ok(None);
        }
        let id = get_u64(&rows[0], 0, "get_season_id")?;
        Ok(Some(id))
    }

    /// Stores an episode of show `tv_id` with its credits in one transaction.
    /// Its season must be stored already. Hands back the people it credits
    /// and no asset path.
    pub fn create_episode(&mut self, tv_id: u64, episode: &metadata::TvEpisode) -> (r: Result<(Vec<u64>, Vec<String>), Error>)
        ensures
            r matches Ok((ids, paths)) ==> ids@ == episode_person_ids(*episode) && paths@.len() == 0
                && exists|season_id: u64|
                final(self).history() == old(self).history() + episode_upsert_plan(
                    tv_id,
                    season_id,
                    *episode,
                ),
            r is Err ==> final(self).history() == old(self).history(),
    {
        let season = self.get_season_id(tv_id, episode.season_number)?;
        let (statements, ids) = episode_plan(tv_id, season, episode)?;
        self.transaction(&statements, "create_episode")?;
        Ok((ids, Vec::new()))
    }

    /// The watched counters of the episodes of a show, or of one of its
    /// seasons, for `user`; an episode without a mark counts zero.
    fn watch_counts(&self, user: &String, tv_id: u64, season_number: Option<u64>) -> (r: Result<Vec<u64>, Error>) {
        let rows = match season_number {
            Some(n) => self.query(
                SEASON_WATCH_COUNTS,
                &params3(user.clone(), decimal_string(tv_id), decimal_string(n)),
                "watched",
            )?,
            None => self.query(TV_WATCH_COUNTS, &params2(user.clone(), decimal_string(tv_id)), "watched")?,
        };
        counts_of(&rows)
    }

    /// The show with id `tv_id` as `user` sees it, when some video shows one
    /// of its episodes. Its watched value is the least counter of its
    /// episodes.
    pub fn get_tv(&self, user: &String, tv_id: u64) -> (r: Result<Option<Tv>, Error>)
        ensures
            r matches Ok(Some(t)) ==> t.user@ == user@ && t.read_back(user@),
    {
        let rows = self.query(TV_BY_ID, &params1(decimal_string(tv_id)), "get_tv")?;
        match Tv::first_of(user, &rows)? {
            Some(t) => {
                let counts = self.watch_counts(user, tv_id, None)?;
                let ghost d = t;
                let t = t.with_watched(&counts);
                proof {
                    assert(t.zeroed() == d);
                    assert(t.zeroed().decodes(user@, rows@[0]@));
                    assert(t.watched == min_watched(counts@));
                }
                Ok(Some(t))
            },
            None => Ok(None),
        }
    }

    pub fn get_tvs(
        &self,
        user: &String,
        filters: &Vec<Filter>,
        order_by: &Option<String>,
        limit: Option<u64>,
        offset: Option<u64>,
    ) -> (r: Result<Vec<TvResult>, Error>)
        ensures
            r matches Ok(v) ==> forall|i: int| 0 <= i < v@.len() ==> (#[trigger] v@[i]).user@ == user@,
            r matches Ok(v) ==> exists|rows: Seq<Seq<Cell>>| #[trigger] TvResult::all_decode(v@, user@, rows),
    {
        let q = generate_sql(TVS_HEAD, filters, Some(user), Some("Tvs.id"), order_by, limit, offset);
        let rows = self.query(q.sql.as_str(), &q.params, "get_tvs")?;
        TvResult::from_rows(user, &rows)
    }

    /// The seasons of show `tv_id` that some video shows, each with the least
    /// watched counter of its episodes.
    pub fn get_seasons(&self, user: &String, tv_id: u64) -> (r: Result<Vec<Season>, Error>)
        ensures
            r matches Ok(v) ==> forall|i: int|
                0 <= i < v@.len() ==> (#[trigger] v@[i]).user@ == user@ && v@[i].read_back(user@),
    {
        let rows = self.query(SEASONS_OF, &params1(decimal_string(tv_id)), "get_seasons")?;
        let mut seasons = Season::from_rows(user, &rows)?;
        let ghost all = seasons@;
        let mut out: Vec<Season> = Vec::new();
        while seasons.len() > 0
            invariant
                out@.len() + seasons@.len() == all.len(),
                all.len() == rows@.len(),
                forall|i: int| 0 <= i < seasons@.len() ==> #[trigger] seasons@[i] == all[out@.len() + i],
                forall|i: int| 0 <= i < all.len() ==> (#[trigger] all[i]).decodes(user@, rows@[i]@),
                forall|i: int|
                    0 <= i < out@.len() ==> (#[trigger] out@[i]).user@ == user@ && out@[i].read_back(
                        user@,
                    ),
            decreases seasons@.len(),
        {
            let ghost k = out@.len();
            let s = seasons.remove(0);
            let counts = self.watch_counts(user, tv_id, Some(s.season_number))?;
            let ghost d = s;
            let s = s.with_watched(&counts);
            proof {
                assert(d == all[k as int]);
                assert(s.zeroed() == d);
                assert(s.zeroed().decodes(user@, rows@[k as int]@));
                assert(s.watched == min_watched(counts@));
            }
            out.push(s);
        }
        Ok(out)
    }

    /// Season `season_number` of show `tv_id`, when some video shows it.
    pub fn get_season(&self, user: &String, tv_id: u64, season_number: u64) -> (r: Result<Option<Season>, Error>)
        ensures
            r matches Ok(Some(s)) ==> s.season_number == season_number && s.user@ == user@
                && s.read_back(user@),
    {
        let mut seasons = self.get_seasons(user, tv_id)?;
        while seasons.len() > 0
            invariant
                forall|i: int|
                    0 <= i < seasons@.len() ==> (#[trigger] seasons@[i]).user@ == user@
                        && seasons@[i].read_back(user@),
            decreases seasons@.len(),
        {
            let s = seasons.remove(0);
            if s.season_number == season_number {
                return Ok(Some(s));
            }
        }
        Ok(None)
    }

    /// The episodes that some video shows and that pass `filters`.
    pub fn get_episodes(
        &self,
        user: &String,
        filters: &Vec<Filter>,
        order_by: &Option<String>,
        limit: Option<u64>,
        offset: Option<u64>,
    ) -> (r: Result<Vec<Episode>, Error>)
        ensures
            r matches Ok(v) ==> forall|i: int| 0 <= i < v@.len() ==> (#[trigger] v@[i]).user@ == user@,
            r matches Ok(v) ==> exists|rows: Seq<Seq<Cell>>| #[trigger] Episode::all_decode(v@, user@, rows),
    {
        let q = generate_sql(EPISODES_HEAD, filters, Some(user), Some("Episodes.id"), order_by, limit, offset);
        let rows = self.query(q.sql.as_str(), &q.params, "get_episodes")?;
        Episode::from_rows(user, &rows)
    }

    pub fn get_tv_cast(&self, user: &String, tv_id: u64) -> (r: Result<Vec<Cast>, Error>)
        ensures
            r matches Ok(v) ==> exists|rows: Seq<Seq<Cell>>| #[trigger] Cast::all_decode(v@, user@, rows),
    {
        let rows = self.query(TV_CAST_OF, &params1(decimal_string(tv_id)), "get_tv_cast")?;
        Cast::from_rows(user, &rows)
    }

    pub fn get_tv_crew(&self, user: &String, tv_id: u64) -> (r: Result<Vec<Crew>, Error>)
        ensures
            r matches Ok(v) ==> exists|rows: Seq<Seq<Cell>>| #[trigger] Crew::all_decode(v@, user@, rows),
    {
        let rows = self.query(TV_CREW_OF, &params1(decimal_string(tv_id)), "get_tv_crew")?;
        Crew::from_rows(user, &rows)
    }

    pub fn get_episode_cast(&self, user: &String, episode_id: u64) -> (r: Result<Vec<Cast>, Error>)
        ensures
            r matches Ok(v) ==> exists|rows: Seq<Seq<Cell>>| #[trigger] Cast::all_decode(v@, user@, rows),
    {
        let rows = self.query(EPISODE_CAST_OF, &params1(decimal_string(episode_id)), "get_episode_cast")?;
        Cast::from_rows(user, &rows)
    }

    pub fn get_episode_crew(&self, user: &String, episode_id: u64) -> (r: Result<Vec<Crew>, Error>)
        ensures
            r matches Ok(v) ==> exists|rows: Seq<Seq<Cell>>| #[trigger] Crew::all_decode(v@, user@, rows),
    {
        let rows = self.query(EPISODE_CREW_OF, &params1(decimal_string(episode_id)), "get_episode_crew")?;
        Crew::from_rows(user, &rows)
    }

    pub fn get_tv_trailer(&self, tv_id: u64) -> (r: Result<Vec<Trailer>, Error>)
        ensures
            r matches Ok(v) ==> exists|rows: Seq<Seq<Cell>>| #[trigger] Trailer::all_decode(v@, rows),
    {
        let rows = self.query(TV_TRAILERS_OF, &params1(decimal_string(tv_id)), "get_tv_trailer")?;
        Trailer::from_rows(&rows)
    }

    pub fn get_tv_keywords(&self, tv_id: u64) -> (r: Result<Vec<Keyword>, Error>)
        ensures
            r matches Ok(v) ==> exists|rows: Seq<Seq<Cell>>| #[trigger] Keyword::all_decode(v@, rows),
    {
        let rows = self.query(TV_KEYWORDS_OF, &params1(decimal_string(tv_id)), "get_tv_keywords")?;
        Keyword::from_rows(&rows)
    }

    /// Every show genre known.
    pub fn genre_tv(&self) -> (r: Result<Vec<Genre>, Error>)
        ensures
            r matches Ok(v) ==> exists|rows: Seq<Seq<Cell>>| #[trigger] Genre::all_decode(v@, rows),
    {
        let none: Vec<String> = Vec::new();
        let rows = self.query(TV_GENRES, &none, "genre_tv")?;
        Genre::from_rows(&rows)
    }

    /// Sets how many times `user` watched the episode.
    pub fn set_episode_watched(&mut self, user: String, episode_id: u64, watched: u64) -> (r: Result<(), Error>)
        ensures
            match r {
                Ok(()) => final(self).history() == old(self).history().push(
                    (replace_into(EPISODE_WATCHED@), seq![dec(watched), user@, dec(episode_id)]),
                ),
                Err(e) => e.location@ == "set_episode_watched"@ && final(self).history() == old(self).history(),
            },
    {
        let sql = replace_into_sql(EPISODE_WATCHED);
        let params = params3(decimal_string(watched), user, decimal_string(episode_id));
        self.execute(sql.as_str(), &params, "set_episode_watched")?;
        Ok(())
    }

    /// Deletes the show's row, its seasons and every row it owns in one
    /// transaction.
    pub fn delete_tv(&mut self, tv_id: u64) -> (r: Result<(), Error>)
        ensures
            match r {
                Ok(()) => final(self).history() == old(self).history() + tv_delete_plan(tv_id),
                Err(e) => e.kind is TransactionFailure && e.location@ == "delete_tv"@ && final(self).history() == old(self).history(),
            },
    {
        let statements = tv_delete_statements(tv_id);
        self.transaction(&statements, "delete_tv")
    }

    /// Deletes the episode's row, its credits and watch marks in one
    /// transaction.
    pub fn delete_episode(&mut self, episode_id: u64) -> (r: Result<(), Error>)
        ensures
            match r {
                Ok(()) => final(self).history() == old(self).history() + episode_delete_plan(episode_id),
                Err(e) => e.kind is TransactionFailure && e.location@ == "delete_episode"@ && final(self).history() == old(self).history(),
            },
    {
        let statements = episode_delete_statements(episode_id);
        self.transaction(&statements, "delete_episode")
    }
}

} // verus!
