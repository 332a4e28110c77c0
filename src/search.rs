use vstd::prelude::*;

use crate::collection::CollectionResult;
use crate::error::Error;
use crate::movie::MovieResult;
use crate::person::PersonResult;
use crate::query::{filter_views, with_filter, Criteria, FilterView};
use crate::store::SqlLibrary;
use crate::text::{decimal, decimal_string};
use crate::tv::{Episode, TvResult};
use crate::video::VideoResult;

verus! {

/// The filters of a search after setting one.
pub open spec fn found(c: Criteria, f: FilterView) -> Seq<FilterView> {
    with_filter(filter_views(c.filters@), f)
}

/// A search over the videos of the library, for one user: filters set
/// by column, an ordering, then results fetched page by page.
pub struct VideoSearch {
    pub user: String,
    pub criteria: Criteria,
}

impl VideoSearch {
    pub fn new(user: &String) -> (r: VideoSearch)
        ensures
            r.user@ == user@,
            r.criteria.filters@.len() == 0,
            r.criteria.order_by is None,
    {
        VideoSearch { user: user.clone(), criteria: Criteria::new() }
    }

    /// Sets the filter on `column`, replacing the one already set on it.
    pub fn find(self, column: &str, operator: &str, value: Option<String>) -> (r: VideoSearch)
        ensures
            r.user == self.user,
            r.criteria.order_by == self.criteria.order_by,
            filter_views(r.criteria.filters@) == found(
                self.criteria,
                (
                    column@,
                    match value {
                        Some(v) => Some((operator@, v@)),
                        None => None,
                    },
                ),
            ),
    {
        let mut s = self;
        s.criteria.find(column, operator, value);
        s
    }

    /// Keeps the videos stored under `path`.
    pub fn path(self, path: String) -> (r: VideoSearch)
        ensures
            r.user == self.user,
            r.criteria.order_by == self.criteria.order_by,
            filter_views(r.criteria.filters@) == found(self.criteria, ("path"@, Some(("="@, path@)))),
    {
        self.find("path", "=", Some(path))
    }

    /// Keeps the videos of movies.
    pub fn movie(self) -> (r: VideoSearch)
        ensures
            r.user == self.user,
            r.criteria.order_by == self.criteria.order_by,
            filter_views(r.criteria.filters@) == found(self.criteria, ("media_type"@, Some(("="@, "0"@)))),
    {
        self.find("media_type", "=", Some(String::from_str("0")))
    }

    /// Keeps the videos of episodes.
    pub fn tv(self) -> (r: VideoSearch)
        ensures
            r.user == self.user,
            r.criteria.order_by == self.criteria.order_by,
            filter_views(r.criteria.filters@) == found(self.criteria, ("media_type"@, Some(("="@, "1"@)))),
    {
        self.find("media_type", "=", Some(String::from_str("1")))
    }

    /// Keeps the unassigned videos: those whose media id is NULL.
    pub fn unknown(self) -> (r: VideoSearch)
        ensures
            r.user == self.user,
            r.criteria.order_by == self.criteria.order_by,
            filter_views(r.criteria.filters@) == found(self.criteria, ("media_id"@, None)),
    {
        self.find("media_id", "is", None)
    }

    /// Keeps the videos assigned to media `id`.
    pub fn media_id(self, id: u64) -> (r: VideoSearch)
        ensures
            r.user == self.user,
            r.criteria.order_by == self.criteria.order_by,
            filter_views(r.criteria.filters@) == found(self.criteria, ("media_id"@, Some(("="@, decimal(id as nat))))),
    {
        self.find("media_id", "=", Some(decimal_string(id)))
    }

    /// Keeps the video with id `id`.
    pub fn id(self, id: u64) -> (r: VideoSearch)
        ensures
            r.user == self.user,
            r.criteria.order_by == self.criteria.order_by,
            filter_views(r.criteria.filters@) == found(self.criteria, ("id"@, Some(("="@, decimal(id as nat))))),
    {
        self.find("id", "=", Some(decimal_string(id)))
    }

    /// Orders the results by `order_by`.
    pub fn order_by(self, order_by: String) -> (r: VideoSearch)
        ensures
            r.user == self.user,
            r.criteria.filters == self.criteria.filters,
            r.criteria.order_by == Some(order_by),
    {
        let mut s = self;
        s.criteria.set_order(order_by);
        s
    }

    /// The results, `limit` at most from `offset` on.
    pub fn results(&self, db: &SqlLibrary, limit: Option<u64>, offset: Option<u64>) -> (r: Result<
        Vec<VideoResult>,
        Error,
    >)
        ensures
            r matches Ok(v) ==> forall|i: int| 0 <= i < v@.len() ==> (#[trigger] v@[i]).user@ == self.user@,
    {
        db.get_videos(&self.user, &self.criteria.filters, &self.criteria.order_by, limit, offset)
    }

    /// Whether the search finds anything.
    pub fn exist(&self, db: &SqlLibrary) -> (r: Result<bool, Error>) {
        let v = self.results(db, None, None)?;
        Ok(v.len() > 0)
    }

    /// The last result, if any.
    pub fn last(&self, db: &SqlLibrary) -> (r: Result<Option<VideoResult>, Error>)
        ensures
            r matches Ok(Some(x)) ==> x.user@ == self.user@,
    {
        let mut v = self.results(db, None, None)?;
        Ok(v.pop())
    }
}

/// A search over the movies of the library, for one user: filters set
/// by column, an ordering, then results fetched page by page.
pub struct MovieSearch {
    pub user: String,
    pub criteria: Criteria,
}

impl MovieSearch {
    pub fn new(user: &String) -> (r: MovieSearch)
        ensures
            r.user@ == user@,
            r.criteria.filters@.len() == 0,
            r.criteria.order_by is None,
    {
        MovieSearch { user: user.clone(), criteria: Criteria::new() }
    }

    /// Sets the filter on `column`, replacing the one already set on it.
    pub fn find(self, column: &str, operator: &str, value: Option<String>) -> (r: MovieSearch)
        ensures
            r.user == self.user,
            r.criteria.order_by == self.criteria.order_by,
            filter_views(r.criteria.filters@) == found(
                self.criteria,
                (
                    column@,
                    match value {
                        Some(v) => Some((operator@, v@)),
                        None => None,
                    },
                ),
            ),
    {
        let mut s = self;
        s.criteria.find(column, operator, value);
        s
    }

    /// Keeps the movie with id `id`.
    pub fn id(self, id: u64) -> (r: MovieSearch)
        ensures
            r.user == self.user,
            r.criteria.order_by == self.criteria.order_by,
            filter_views(r.criteria.filters@) == found(self.criteria, ("Movies.id"@, Some(("="@, decimal(id as nat))))),
    {
        self.find("Movies.id", "=", Some(decimal_string(id)))
    }

    /// Keeps the movies in which the person acts.
    pub fn cast(self, person_id: u64) -> (r: MovieSearch)
        ensures
            r.user == self.user,
            r.criteria.order_by == self.criteria.order_by,
            filter_views(r.criteria.filters@) == found(self.criteria, ("MovieCasts.person_id"@, Some(("="@, decimal(person_id as nat))))),
    {
        self.find("MovieCasts.person_id", "=", Some(decimal_string(person_id)))
    }

    /// Keeps the movies of a collection.
    pub fn collection(self, collection_id: u64) -> (r: MovieSearch)
        ensures
            r.user == self.user,
            r.criteria.order_by == self.criteria.order_by,
            filter_views(r.criteria.filters@) == found(self.criteria, ("MovieCollectionLinks.collection_id"@, Some(("="@, decimal(collection_id as nat))))),
    {
        self.find("MovieCollectionLinks.collection_id", "=", Some(decimal_string(collection_id)))
    }

    /// Keeps the movies that credit the person for a job.
    pub fn crew(self, person_id: u64) -> (r: MovieSearch)
        ensures
            r.user == self.user,
            r.criteria.order_by == self.criteria.order_by,
            filter_views(r.criteria.filters@) == found(self.criteria, ("MovieCrews.person_id"@, Some(("="@, decimal(person_id as nat))))),
    {
        self.find("MovieCrews.person_id", "=", Some(decimal_string(person_id)))
    }

    /// Orders the results by `order_by`.
    pub fn order_by(self, order_by: String) -> (r: MovieSearch)
        ensures
            r.user == self.user,
            r.criteria.filters == self.criteria.filters,
            r.criteria.order_by == Some(order_by),
    {
        let mut s = self;
        s.criteria.set_order(order_by);
        s
    }

    /// The results, `limit` at most from `offset` on.
    pub fn results(&self, db: &SqlLibrary, limit: Option<u64>, offset: Option<u64>) -> (r: Result<
        Vec<MovieResult>,
        Error,
    >)
        ensures
            r matches Ok(v) ==> forall|i: int| 0 <= i < v@.len() ==> (#[trigger] v@[i]).user@ == self.user@,
    {
        db.get_movies(&self.user, &self.criteria.filters, &self.criteria.order_by, limit, offset)
    }

    /// Whether the search finds anything.
    pub fn exist(&self, db: &SqlLibrary) -> (r: Result<bool, Error>) {
        let v = self.results(db, None, None)?;
        Ok(v.len() > 0)
    }

    /// The last result, if any.
    pub fn last(&self, db: &SqlLibrary) -> (r: Result<Option<MovieResult>, Error>)
        ensures
            r matches Ok(Some(x)) ==> x.user@ == self.user@,
    {
        let mut v = self.results(db, None, None)?;
        Ok(v.pop())
    }
}

/// A search over the shows of the library, for one user: filters set
/// by column, an ordering, then results fetched page by page.
pub struct TvSearch {
    pub user: String,
    pub criteria: Criteria,
}

impl TvSearch {
    pub fn new(user: &String) -> (r: TvSearch)
        ensures
            r.user@ == user@,
            r.criteria.filters@.len() == 0,
            r.criteria.order_by is None,
    {
        TvSearch { user: user.clone(), criteria: Criteria::new() }
    }

    /// Sets the filter on `column`, replacing the one already set on it.
    pub fn find(self, column: &str, operator: &str, value: Option<String>) -> (r: TvSearch)
        ensures
            r.user == self.user,
            r.criteria.order_by == self.criteria.order_by,
            filter_views(r.criteria.filters@) == found(
                self.criteria,
                (
                    column@,
                    match value {
                        Some(v) => Some((operator@, v@)),
                        None => None,
                    },
                ),
            ),
    {
        let mut s = self;
        s.criteria.find(column, operator, value);
        s
    }

    /// Keeps the show with id `id`.
    pub fn id(self, id: u64) -> (r: TvSearch)
        ensures
            r.user == self.user,
            r.criteria.order_by == self.criteria.order_by,
            filter_views(r.criteria.filters@) == found(self.criteria, ("Tvs.id"@, Some(("="@, decimal(id as nat))))),
    {
        self.find("Tvs.id", "=", Some(decimal_string(id)))
    }

    /// Keeps the shows in which the person acts.
    pub fn cast(self, person_id: u64) -> (r: TvSearch)
        ensures
            r.user == self.user,
            r.criteria.order_by == self.criteria.order_by,
            filter_views(r.criteria.filters@) == found(self.criteria, ("TvCasts.person_id"@, Some(("="@, decimal(person_id as nat))))),
    {
        self.find("TvCasts.person_id", "=", Some(decimal_string(person_id)))
    }

    /// Keeps the shows that credit the person for a job.
    pub fn crew(self, person_id: u64) -> (r: TvSearch)
        ensures
            r.user == self.user,
            r.criteria.order_by == self.criteria.order_by,
            filter_views(r.criteria.filters@) == found(self.criteria, ("TvCrews.person_id"@, Some(("="@, decimal(person_id as nat))))),
    {
        self.find("TvCrews.person_id", "=", Some(decimal_string(person_id)))
    }

    /// Keeps the shows of a collection.
    pub fn collection(self, collection_id: u64) -> (r: TvSearch)
        ensures
            r.user == self.user,
            r.criteria.order_by == self.criteria.order_by,
            filter_views(r.criteria.filters@) == found(self.criteria, ("TvCollectionLinks.collection_id"@, Some(("="@, decimal(collection_id as nat))))),
    {
        self.find("TvCollectionLinks.collection_id", "=", Some(decimal_string(collection_id)))
    }

    /// Orders the results by `order_by`.
    pub fn order_by(self, order_by: String) -> (r: TvSearch)
        ensures
            r.user == self.user,
            r.criteria.filters == self.criteria.filters,
            r.criteria.order_by == Some(order_by),
    {
        let mut s = self;
        s.criteria.set_order(order_by);
        s
    }

    /// The results, `limit` at most from `offset` on.
    pub fn results(&self, db: &SqlLibrary, limit: Option<u64>, offset: Option<u64>) -> (r: Result<
        Vec<TvResult>,
        Error,
    >)
        ensures
            r matches Ok(v) ==> forall|i: int| 0 <= i < v@.len() ==> (#[trigger] v@[i]).user@ == self.user@,
    {
        db.get_tvs(&self.user, &self.criteria.filters, &self.criteria.order_by, limit, offset)
    }

    /// Whether the search finds anything.
    pub fn exist(&self, db: &SqlLibrary) -> (r: Result<bool, Error>) {
        let v = self.results(db, None, None)?;
        Ok(v.len() > 0)
    }

    /// The last result, if any.
    pub fn last(&self, db: &SqlLibrary) -> (r: Result<Option<TvResult>, Error>)
        ensures
            r matches Ok(Some(x)) ==> x.user@ == self.user@,
    {
        let mut v = self.results(db, None, None)?;
        Ok(v.pop())
    }
}

/// A search over the episodes of the library, for one user: filters set
/// by column, an ordering, then results fetched page by page.
pub struct EpisodeSearch {
    pub user: String,
    pub criteria: Criteria,
}

impl EpisodeSearch {
    pub fn new(user: &String) -> (r: EpisodeSearch)
        ensures
            r.user@ == user@,
            r.criteria.filters@.len() == 0,
            r.criteria.order_by is None,
    {
        EpisodeSearch { user: user.clone(), criteria: Criteria::new() }
    }

    /// Sets the filter on `column`, replacing the one already set on it.
    pub fn find(self, column: &str, operator: &str, value: Option<String>) -> (r: EpisodeSearch)
        ensures
            r.user == self.user,
            r.criteria.order_by == self.criteria.order_by,
            filter_views(r.criteria.filters@) == found(
                self.criteria,
                (
                    column@,
                    match value {
                        Some(v) => Some((operator@, v@)),
                        None => None,
                    },
                ),
            ),
    {
        let mut s = self;
        s.criteria.find(column, operator, value);
        s
    }

    /// Keeps the episode with id `episode_id`.
    pub fn id(self, episode_id: u64) -> (r: EpisodeSearch)
        ensures
            r.user == self.user,
            r.criteria.order_by == self.criteria.order_by,
            filter_views(r.criteria.filters@) == found(self.criteria, ("Episodes.id"@, Some(("="@, decimal(episode_id as nat))))),
    {
        self.find("Episodes.id", "=", Some(decimal_string(episode_id)))
    }

    /// Keeps the episodes of season `season_number`.
    pub fn season(self, season_number: u64) -> (r: EpisodeSearch)
        ensures
            r.user == self.user,
            r.criteria.order_by == self.criteria.order_by,
            filter_views(r.criteria.filters@) == found(self.criteria, ("Episodes.season_number"@, Some(("="@, decimal(season_number as nat))))),
    {
        self.find("Episodes.season_number", "=", Some(decimal_string(season_number)))
    }

    /// Keeps the episodes numbered `episode_number`.
    pub fn episode(self, episode_number: u64) -> (r: EpisodeSearch)
        ensures
            r.user == self.user,
            r.criteria.order_by == self.criteria.order_by,
            filter_views(r.criteria.filters@) == found(self.criteria, ("Episodes.episode_number"@, Some(("="@, decimal(episode_number as nat))))),
    {
        self.find("Episodes.episode_number", "=", Some(decimal_string(episode_number)))
    }

    /// Keeps the episodes of show `tv_id`.
    pub fn tv(self, tv_id: u64) -> (r: EpisodeSearch)
        ensures
            r.user == self.user,
            r.criteria.order_by == self.criteria.order_by,
            filter_views(r.criteria.filters@) == found(self.criteria, ("Episodes.tv_id"@, Some(("="@, decimal(tv_id as nat))))),
    {
        self.find("Episodes.tv_id", "=", Some(decimal_string(tv_id)))
    }

    /// Keeps the episodes in which the person acts.
    pub fn cast(self, person_id: u64) -> (r: EpisodeSearch)
        ensures
            r.user == self.user,
            r.criteria.order_by == self.criteria.order_by,
            filter_views(r.criteria.filters@) == found(self.criteria, ("EpisodeCasts.person_id"@, Some(("="@, decimal(person_id as nat))))),
    {
        self.find("EpisodeCasts.person_id", "=", Some(decimal_string(person_id)))
    }

    /// Keeps the episodes that credit the person for a job.
    pub fn crew(self, person_id: u64) -> (r: EpisodeSearch)
        ensures
            r.user == self.user,
            r.criteria.order_by == self.criteria.order_by,
            filter_views(r.criteria.filters@) == found(self.criteria, ("EpisodeCrews.person_id"@, Some(("="@, decimal(person_id as nat))))),
    {
        self.find("EpisodeCrews.person_id", "=", Some(decimal_string(person_id)))
    }

    /// Orders the results by `order_by`.
    pub fn order_by(self, order_by: String) -> (r: EpisodeSearch)
        ensures
            r.user == self.user,
            r.criteria.filters == self.criteria.filters,
            r.criteria.order_by == Some(order_by),
    {
        let mut s = self;
        s.criteria.set_order(order_by);
        s
    }

    /// The results, `limit` at most from `offset` on.
    pub fn results(&self, db: &SqlLibrary, limit: Option<u64>, offset: Option<u64>) -> (r: Result<
        Vec<Episode>,
        Error,
    >)
        ensures
            r matches Ok(v) ==> forall|i: int| 0 <= i < v@.len() ==> (#[trigger] v@[i]).user@ == self.user@,
    {
        db.get_episodes(&self.user, &self.criteria.filters, &self.criteria.order_by, limit, offset)
    }

    /// Whether the search finds anything.
    pub fn exist(&self, db: &SqlLibrary) -> (r: Result<bool, Error>) {
        let v = self.results(db, None, None)?;
        Ok(v.len() > 0)
    }

    /// The last result, if any.
    pub fn last(&self, db: &SqlLibrary) -> (r: Result<Option<Episode>, Error>)
        ensures
            r matches Ok(Some(x)) ==> x.user@ == self.user@,
    {
        let mut v = self.results(db, None, None)?;
        Ok(v.pop())
    }
}

/// A search over the people of the library, for one user: filters set
/// by column, an ordering, then results fetched page by page.
pub struct PersonSearch {
    pub user: String,
    pub criteria: Criteria,
}

impl PersonSearch {
    pub fn new(user: &String) -> (r: PersonSearch)
        ensures
            r.user@ == user@,
            r.criteria.filters@.len() == 0,
            r.criteria.order_by is None,
    {
        PersonSearch { user: user.clone(), criteria: Criteria::new() }
    }

    /// Sets the filter on `column`, replacing the one already set on it.
    pub fn find(self, column: &str, operator: &str, value: Option<String>) -> (r: PersonSearch)
        ensures
            r.user == self.user,
            r.criteria.order_by == self.criteria.order_by,
            filter_views(r.criteria.filters@) == found(
                self.criteria,
                (
                    column@,
                    match value {
                        Some(v) => Some((operator@, v@)),
                        None => None,
                    },
                ),
            ),
    {
        let mut s = self;
        s.criteria.find(column, operator, value);
        s
    }

    /// Keeps the person with id `id`.
    pub fn id(self, id: u64) -> (r: PersonSearch)
        ensures
            r.user == self.user,
            r.criteria.order_by == self.criteria.order_by,
            filter_views(r.criteria.filters@) == found(self.criteria, ("Persons.id"@, Some(("="@, decimal(id as nat))))),
    {
        self.find("Persons.id", "=", Some(decimal_string(id)))
    }

    /// Orders the results by `order_by`.
    pub fn order_by(self, order_by: String) -> (r: PersonSearch)
        ensures
            r.user == self.user,
            r.criteria.filters == self.criteria.filters,
            r.criteria.order_by == Some(order_by),
    {
        let mut s = self;
        s.criteria.set_order(order_by);
        s
    }

    /// The results, `limit` at most from `offset` on.
    pub fn results(&self, db: &SqlLibrary, limit: Option<u64>, offset: Option<u64>) -> (r: Result<
        Vec<PersonResult>,
        Error,
    >)
        ensures
            r matches Ok(v) ==> forall|i: int| 0 <= i < v@.len() ==> (#[trigger] v@[i]).user@ == self.user@,
    {
        db.get_persons(&self.user, &self.criteria.filters, &self.criteria.order_by, limit, offset)
    }

    /// Whether the search finds anything.
    pub fn exist(&self, db: &SqlLibrary) -> (r: Result<bool, Error>) {
        let v = self.results(db, None, None)?;
        Ok(v.len() > 0)
    }

    /// The last result, if any.
    pub fn last(&self, db: &SqlLibrary) -> (r: Result<Option<PersonResult>, Error>)
        ensures
            r matches Ok(Some(x)) ==> x.user@ == self.user@,
    {
        let mut v = self.results(db, None, None)?;
        Ok(v.pop())
    }
}

/// A search over the collections of the library, for one user: filters set
/// by column, an ordering, then results fetched page by page.
pub struct CollectionSearch {
    pub user: String,
    pub criteria: Criteria,
}

impl CollectionSearch {
    pub fn new(user: &String) -> (r: CollectionSearch)
        ensures
            r.user@ == user@,
            r.criteria.filters@.len() == 0,
            r.criteria.order_by is None,
    {
        CollectionSearch { user: user.clone(), criteria: Criteria::new() }
    }

    /// Sets the filter on `column`, replacing the one already set on it.
    pub fn find(self, column: &str, operator: &str, value: Option<String>) -> (r: CollectionSearch)
        ensures
            r.user == self.user,
            r.criteria.order_by == self.criteria.order_by,
            filter_views(r.criteria.filters@) == found(
                self.criteria,
                (
                    column@,
                    match value {
                        Some(v) => Some((operator@, v@)),
                        None => None,
                    },
                ),
            ),
    {
        let mut s = self;
        s.criteria.find(column, operator, value);
        s
    }

    /// Keeps the collections holding the movie.
    pub fn movie(self, movie_id: u64) -> (r: CollectionSearch)
        ensures
            r.user == self.user,
            r.criteria.order_by == self.criteria.order_by,
            filter_views(r.criteria.filters@) == found(self.criteria, ("MovieCollectionLinks.movie_id"@, Some(("="@, decimal(movie_id as nat))))),
    {
        self.find("MovieCollectionLinks.movie_id", "=", Some(decimal_string(movie_id)))
    }

    /// Keeps the collections holding the show.
    pub fn tv(self, tv_id: u64) -> (r: CollectionSearch)
        ensures
            r.user == self.user,
            r.criteria.order_by == self.criteria.order_by,
            filter_views(r.criteria.filters@) == found(self.criteria, ("TvCollectionLinks.tv_id"@, Some(("="@, decimal(tv_id as nat))))),
    {
        self.find("TvCollectionLinks.tv_id", "=", Some(decimal_string(tv_id)))
    }

    /// Orders the results by `order_by`.
    pub fn order_by(self, order_by: String) -> (r: CollectionSearch)
        ensures
            r.user == self.user,
            r.criteria.filters == self.criteria.filters,
            r.criteria.order_by == Some(order_by),
    {
        let mut s = self;
        s.criteria.set_order(order_by);
        s
    }

    /// The results, `limit` at most from `offset` on.
    pub fn results(&self, db: &SqlLibrary, limit: Option<u64>, offset: Option<u64>) -> (r: Result<
        Vec<CollectionResult>,
        Error,
    >)
        ensures
            r matches Ok(v) ==> forall|i: int| 0 <= i < v@.len() ==> (#[trigger] v@[i]).user@ == self.user@,
    {
        db.get_collections(&self.user, &self.criteria.filters, &self.criteria.order_by, limit, offset)
    }

    /// Whether the search finds anything.
    pub fn exist(&self, db: &SqlLibrary) -> (r: Result<bool, Error>) {
        let v = self.results(db, None, None)?;
        Ok(v.len() > 0)
    }

    /// The last result, if any.
    pub fn last(&self, db: &SqlLibrary) -> (r: Result<Option<CollectionResult>, Error>)
        ensures
            r matches Ok(Some(x)) ==> x.user@ == self.user@,
    {
        let mut v = self.results(db, None, None)?;
        Ok(v.pop())
    }
}

} // verus!
