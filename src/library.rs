use vstd::prelude::*;

use crate::collection::Collection;
use crate::error::{Error, ErrorKind};
use crate::movie::Movie;
use crate::person::Person;
use crate::probe::Track;
use crate::search::{
    CollectionSearch, EpisodeSearch, MovieSearch, PersonSearch, TvSearch, VideoSearch,
};
use crate::store::SqlLibrary;
use crate::tv::{Episode, Season, Tv};
use crate::video::Video;

verus! {

/// The entry point of the catalog: one open database and the directory that
/// fetched assets go to.
pub struct Library {
    pub db: SqlLibrary,
    pub rsc_path: String,
}

impl Library {
    /// Opens (or creates) the database at `database_path` and declares its
    /// schema.
    pub fn new(database_path: &str, rsc_path: String) -> (r: Result<Library, Error>)
        ensures
            r matches Ok(l) ==> l.rsc_path == rsc_path,
    {
        let db = SqlLibrary::connect(database_path)?;
        Ok(Library { db, rsc_path })
    }

    /// Registers a new, unassigned video from its probed tracks and hands it
    /// back as stored.
    pub fn new_video(&mut self, user: String, path: String, media_type: u8, tracks: &Vec<Track>) -> (r: Result<
        Video,
        Error,
    >)
        ensures
            r matches Ok(v) ==> v.user@ == user@,
    {
        let video = Video::from_tracks(user.clone(), path, media_type, tracks);
        let id = self.db.create_video(&video)?;
        match self.db.get_video(&user, id)? {
            Some(v) => Ok(v),
            None => Err(Error::new(ErrorKind::NotFound, String::from_str("video not stored"), "new_video")),
        }
    }

    pub fn videos(&self, user: String) -> (r: VideoSearch)
        ensures
            r.user@ == user@,
            r.criteria.filters@.len() == 0,
            r.criteria.order_by is None,
    {
        VideoSearch::new(&user)
    }

    pub fn video(&self, user: String, video_id: u64) -> (r: Result<Option<Video>, Error>) {
        self.db.get_video(&user, video_id)
    }

    pub fn movies(&self, user: String) -> (r: MovieSearch)
        ensures
            r.user@ == user@,
            r.criteria.filters@.len() == 0,
            r.criteria.order_by is None,
    {
        MovieSearch::new(&user)
    }

    pub fn movie(&self, user: String, movie_id: u64) -> (r: Result<Option<Movie>, Error>) {
        self.db.get_movie(&user, movie_id)
    }

    pub fn tvs(&self, user: String) -> (r: TvSearch)
        ensures
            r.user@ == user@,
            r.criteria.filters@.len() == 0,
            r.criteria.order_by is None,
    {
        TvSearch::new(&user)
    }

    pub fn tv(&self, user: String, tv_id: u64) -> (r: Result<Option<Tv>, Error>) {
        self.db.get_tv(&user, tv_id)
    }

    pub fn tv_season(&self, user: String, tv_id: u64, season_number: u64) -> (r: Result<
        Option<Season>,
        Error,
    >)
        ensures
            r matches Ok(Some(s)) ==> s.season_number == season_number,
    {
        self.db.get_season(&user, tv_id, season_number)
    }

    pub fn tv_episode(&self, user: String, tv_id: u64, season_number: u64, episode_number: u64) -> (r:
        Result<Option<Episode>, Error>) {
        EpisodeSearch::new(&user).tv(tv_id).season(season_number).episode(episode_number).last(&self.db)
    }

    pub fn tv_episodes(&self, user: String) -> (r: EpisodeSearch)
        ensures
            r.user@ == user@,
            r.criteria.filters@.len() == 0,
            r.criteria.order_by is None,
    {
        EpisodeSearch::new(&user)
    }

    pub fn persons(&self, user: String) -> (r: PersonSearch)
        ensures
            r.user@ == user@,
            r.criteria.filters@.len() == 0,
            r.criteria.order_by is None,
    {
        PersonSearch::new(&user)
    }

    pub fn person(&self, user: String, person_id: u64) -> (r: Result<Option<Person>, Error>) {
        self.db.get_person(&user, person_id)
    }

    pub fn new_collection(&mut self, user: String, collection_name: String) -> (r: Result<Collection, Error>) {
        self.db.create_collection(&user, collection_name)
    }

    pub fn collection(&self, user: String, collection_id: u64) -> (r: Result<Option<Collection>, Error>) {
        self.db.get_collection(&user, collection_id)
    }

    pub fn collections(&self, user: String) -> (r: CollectionSearch)
        ensures
            r.user@ == user@,
            r.criteria.filters@.len() == 0,
            r.criteria.order_by is None,
    {
        CollectionSearch::new(&user)
    }
}

} // verus!
