use vstd::prelude::*;

use crate::cascade::{
    cascade_history, cascade_target, cascade_target_of, episode_cascade, follows_target,
    movie_cascade, person_deletes, tv_cascade, CascadeReport,
};
use crate::collection::{inherited_poster, COLLECTION_MOVIE, COLLECTION_TV, Collection};
use crate::error::{Error, ErrorKind};
use crate::movie::{MOVIE_WATCHED, Movie};
use crate::person::Person;
use crate::query::StatementView;
use crate::search::{EpisodeSearch, MovieSearch, TvSearch};
use crate::store::SqlLibrary;
use crate::text::{digits_value, is_u64_text, parse_u64, replace_with_space, spaced, texts};
use crate::tv::{EPISODE_WATCHED, Episode, Season, Tv};
use crate::upsert::{dec, replace_into};
use crate::video::{video_delete_plan, SET_MEDIA_ID, SET_PATH, Video};
use crate::watch::{is_watched_through, next_watched, next_watched_count, watched_through};

verus! {

/// The groups of the leftmost match of a pattern in a text, group 0 (the
/// whole match) first and an unmatched group as the empty text; `None` when
/// the pattern is invalid or does not match.
pub uninterp spec fn regex_captures(pattern: Seq<char>, text: Seq<char>) -> Option<Seq<Seq<char>>>;

/// Relies on regex::Regex::new and Regex::captures: the capture groups of the
/// leftmost match, each as its text.
#[verifier::external_body]
fn first_captures(pattern: &str, text: &str) -> (r: Option<Vec<String>>)
    ensures
        match r {
            Some(v) => regex_captures(pattern@, text@) == Some(texts(v@)),
            None => regex_captures(pattern@, text@) is None,
        },
{
    let re = regex::Regex::new(pattern).ok()?;
    let caps = re.captures(text)?;
    Some(caps.iter().map(|m| m.map_or(String::new(), |m| m.as_str().to_string())).collect())
}

/// A show episode file: `<dir>/<Name.With.Dots>.S<season>E<episode>...<ext>`.
pub const TV_PATTERN: &'static str = ".*[/](.*)[.][sS](\\d+)[eE](\\d+)[.]?.*[.](.*)";

/// A movie file: `<dir>/<Name.With.Dots>.<year>...<ext>`.
pub const MOVIE_PATTERN: &'static str = ".*[/](.*)[.](\\d{4})[.]?.*[.](.*)";

pub open spec fn opt_texts(caps: Option<Vec<String>>) -> Option<Seq<Seq<char>>> {
    match caps {
        Some(v) => Some(texts(v@)),
        None => None,
    }
}

/// The show name (dots read as spaces), season and episode that the groups
/// of a show file name give.
pub open spec fn tv_info(caps: Option<Seq<Seq<char>>>) -> Option<(Seq<char>, u64, u64)> {
    match caps {
        Some(c) => if c.len() >= 4 && is_u64_text(c[2]) && is_u64_text(c[3]) {
            Some((spaced(c[1], '.'), digits_value(c[2]) as u64, digits_value(c[3]) as u64))
        } else {
            None
        },
        None => None,
    }
}

/// The movie title (dots read as spaces) and year that the groups of a movie
/// file name give.
pub open spec fn movie_info(caps: Option<Seq<Seq<char>>>) -> Option<(Seq<char>, u64)> {
    match caps {
        Some(c) => if c.len() >= 3 && is_u64_text(c[2]) {
            Some((spaced(c[1], '.'), digits_value(c[2]) as u64))
        } else {
            None
        },
        None => None,
    }
}

fn parse_name_error(location: &str) -> (r: Error)
    ensures
        r.kind is ParseName,
{
    Error::new(ErrorKind::ParseName, String::from_str("could not parse name"), location)
}

fn media_type_error(location: &str) -> (r: Error)
    ensures
        r.kind is MediaType,
{
    Error::new(ErrorKind::MediaType, String::from_str("mediatype error"), location)
}

/// Reads show name, season and episode from the groups of a show file name.
pub fn tv_info_from_captures(caps: &Option<Vec<String>>) -> (r: Result<(String, u64, u64), Error>)
    ensures
        match r {
            Ok((name, season, episode)) => tv_info(opt_texts(*caps)) == Some((name@, season, episode)),
            Err(e) => tv_info(opt_texts(*caps)) is None && e.kind is ParseName,
        },
{
    match caps {
        Some(c) => {
            if c.len() < 4 {
                return Err(parse_name_error("tv path"));
            }
            proof {
                assert(texts(c@)[2] == c@[2]@ && texts(c@)[3] == c@[3]@ && texts(c@)[1] == c@[1]@);
            }
            let season = match parse_u64(c[2].as_str()) {
                Some(v) => v,
                None => {
                    return Err(parse_name_error("tv path"));
                },
            };
            let episode = match parse_u64(c[3].as_str()) {
                Some(v) => v,
                None => {
                    return Err(parse_name_error("tv path"));
                },
            };
            Ok((replace_with_space(c[1].as_str(), '.'), season, episode))
        },
        None => Err(parse_name_error("tv path")),
    }
}

/// Reads movie title and year from the groups of a movie file name.
pub fn movie_info_from_captures(caps: &Option<Vec<String>>) -> (r: Result<(String, u64), Error>)
    ensures
        match r {
            Ok((name, year)) => movie_info(opt_texts(*caps)) == Some((name@, year)),
            Err(e) => movie_info(opt_texts(*caps)) is None && e.kind is ParseName,
        },
{
    match caps {
        Some(c) => {
            if c.len() < 3 {
                return Err(parse_name_error("movie path"));
            }
            proof {
                assert(texts(c@)[2] == c@[2]@ && texts(c@)[1] == c@[1]@);
            }
            let year = match parse_u64(c[2].as_str()) {
                Some(v) => v,
                None => {
                    return Err(parse_name_error("movie path"));
                },
            };
            Ok((replace_with_space(c[1].as_str(), '.'), year))
        },
        None => Err(parse_name_error("movie path")),
    }
}

impl Video {
    /// The show name, season and episode that the file name gives.
    pub fn parse_tv(&self) -> (r: Result<(String, u64, u64), Error>)
        ensures
            match r {
                Ok((name, season, episode)) => tv_info(regex_captures(TV_PATTERN@, self.path@))
                    == Some((name@, season, episode)),
                Err(e) => tv_info(regex_captures(TV_PATTERN@, self.path@)) is None && e.kind is ParseName,
            },
    {
        let caps = first_captures(TV_PATTERN, self.path.as_str());
        tv_info_from_captures(&caps)
    }

    /// The movie title and year that the file name gives.
    pub fn parse_movie(&self) -> (r: Result<(String, u64), Error>)
        ensures
            match r {
                Ok((name, year)) => movie_info(regex_captures(MOVIE_PATTERN@, self.path@)) == Some(
                    (name@, year),
                ),
                Err(e) => movie_info(regex_captures(MOVIE_PATTERN@, self.path@)) is None && e.kind is ParseName,
            },
    {
        let caps = first_captures(MOVIE_PATTERN, self.path.as_str());
        movie_info_from_captures(&caps)
    }

    /// The movie the video shows; an error for a video that is not of a movie.
    pub fn movie(&self, db: &SqlLibrary) -> (r: Result<Option<Movie>, Error>)
        ensures
            self.media_type != 0 ==> (r matches Err(e) && e.kind is MediaType),
            self.media_type == 0 && self.media_id is None ==> r matches Ok(None),
    {
        if self.media_type != 0 {
            return Err(media_type_error("video movie"));
        }
        match self.media_id {
            Some(id) => db.get_movie(&self.user, id),
            None => Ok(None),
        }
    }

    /// The episode the video shows; an error for a video that is not of an
    /// episode.
    pub fn tv_episode(&self, db: &SqlLibrary) -> (r: Result<Option<Episode>, Error>)
        ensures
            self.media_type != 1 ==> (r matches Err(e) && e.kind is MediaType),
            self.media_type == 1 && self.media_id is None ==> r matches Ok(None),
    {
        if self.media_type != 1 {
            return Err(media_type_error("video episode"));
        }
        match self.media_id {
            Some(id) => EpisodeSearch::new(&self.user).id(id).last(db),
            None => Ok(None),
        }
    }

    /// Assigns the video to movie `movie_id`, whose metadata must be stored
    /// already, and removes the movie it showed before when that one is left
    /// without video.
    pub fn set_movie(&mut self, db: &mut SqlLibrary, movie_id: u64) -> (r: Result<(), Error>)
        ensures
            old(self).media_type != 0 ==> (r matches Err(e) && e.kind is MediaType),
            r is Ok ==> final(self).media_id == Some(movie_id),
            r is Ok ==> exists|rep: CascadeReport|
                final(db).history() == old(db).history().push(
                    (SET_MEDIA_ID@, seq![dec(movie_id), dec(old(self).id)]),
                ) + cascade_history(rep) && #[trigger] follows_target(
                    rep,
                    cascade_target_of(old(self).media_type, old(self).media_id),
                ),
            final(self).id == old(self).id,
            final(self).media_type == old(self).media_type,
    {
        if self.media_type != 0 {
            return Err(media_type_error("video set movie"));
        }
        db.edit_video_media_id(self.id, movie_id)?;
        let previous = cascade_target(self.media_type, self.media_id);
        self.media_id = Some(movie_id);
        let _report = db.cascade_from(previous)?;
        Ok(())
    }

    /// Assigns the video to episode `episode_id`, whose metadata must be
    /// stored already, and removes the episode it showed before when that one
    /// is left without video.
    pub fn set_tv(&mut self, db: &mut SqlLibrary, episode_id: u64) -> (r: Result<(), Error>)
        ensures
            old(self).media_type != 1 ==> (r matches Err(e) && e.kind is MediaType),
            r is Ok ==> final(self).media_id == Some(episode_id),
            r is Ok ==> exists|rep: CascadeReport|
                final(db).history() == old(db).history().push(
                    (SET_MEDIA_ID@, seq![dec(episode_id), dec(old(self).id)]),
                ) + cascade_history(rep) && #[trigger] follows_target(
                    rep,
                    cascade_target_of(old(self).media_type, old(self).media_id),
                ),
            final(self).id == old(self).id,
            final(self).media_type == old(self).media_type,
    {
        if self.media_type != 1 {
            return Err(media_type_error("video set episode"));
        }
        db.edit_video_media_id(self.id, episode_id)?;
        let previous = cascade_target(self.media_type, self.media_id);
        self.media_id = Some(episode_id);
        let _report = db.cascade_from(previous)?;
        Ok(())
    }

    /// Records how far the user watched; past 85 hundredths of the duration
    /// the movie or episode counts as watched once more.
    pub fn set_watch_time(&self, db: &mut SqlLibrary, time: u64) -> (r: Result<bool, Error>)
        ensures
            r matches Ok(marked) ==> (marked ==> watched_through(time, self.duration)),
    {
        db.set_watch_time(self.user.clone(), self.id, time)?;
        if !is_watched_through(time, self.duration) {
            return Ok(false);
        }
        if self.media_type == 0 {
            if let Some(movie) = self.movie(db)? {
                movie.set_watched(db, true)?;
                return Ok(true);
            }
        } else if self.media_type == 1 {
            if let Some(episode) = self.tv_episode(db)? {
                episode.set_watched(db, true)?;
                return Ok(true);
            }
        }
        Ok(false)
    }

    /// Removes the video, then whatever its media record leaves orphaned: an
    /// unassigned video removes nothing else.
    pub fn delete(&self, db: &mut SqlLibrary) -> (r: Result<CascadeReport, Error>)
        ensures
            r matches Ok(rep) ==> final(db).history() == old(db).history() + video_delete_plan(
                self.id,
            ) + cascade_history(rep),
            r matches Ok(rep) ==> follows_target(rep, cascade_target_of(self.media_type, self.media_id)),
    {
        db.delete_video(self.id)?;
        let report = db.cascade_from(cascade_target(self.media_type, self.media_id))?;
        proof {
            assert(db.history() =~= old(db).history() + video_delete_plan(self.id) + cascade_history(report));
        }
        Ok(report)
    }

    pub fn set_path(&self, db: &mut SqlLibrary, new_path: String) -> (r: Result<(), Error>)
        ensures
            r is Ok ==> final(db).history() == old(db).history().push(
                (SET_PATH@, seq![new_path@, dec(self.id)]),
            ),
    {
        db.edit_video_path(self.id, new_path.as_str())
    }
}

impl Movie {
    /// Marks the movie watched once more, or unwatched.
    pub fn set_watched(&self, db: &mut SqlLibrary, b: bool) -> (r: Result<(), Error>)
        ensures
            r is Ok ==> final(db).history() == old(db).history().push(
                (
                    replace_into(MOVIE_WATCHED@),
                    seq![dec(next_watched(self.watched, b)), self.user@, dec(self.id)],
                ),
            ),
    {
        db.set_movie_watched(self.user.clone(), self.id, next_watched_count(self.watched, b))
    }

    /// Removes the movie, and then its orphaned people, unless a video still
    /// shows it.
    pub fn delete(&self, db: &mut SqlLibrary) -> (r: Result<CascadeReport, Error>)
        ensures
            r matches Ok(rep) ==> final(db).history() == old(db).history() + cascade_history(rep),
            r matches Ok(rep) ==> movie_cascade(rep, self.id),
    {
        db.delete_movie_if_orphan(self.id)
    }
}

impl Episode {
    /// Marks the episode watched once more, or unwatched.
    pub fn set_watched(&self, db: &mut SqlLibrary, b: bool) -> (r: Result<(), Error>)
        ensures
            r is Ok ==> final(db).history() == old(db).history().push(
                (
                    replace_into(EPISODE_WATCHED@),
                    seq![dec(next_watched(self.watched, b)), self.user@, dec(self.id)],
                ),
            ),
    {
        db.set_episode_watched(self.user.clone(), self.id, next_watched_count(self.watched, b))
    }

    /// Removes the episode, and then its show, unless a video still shows it.
    pub fn delete(&self, db: &mut SqlLibrary) -> (r: Result<CascadeReport, Error>)
        ensures
            r matches Ok(rep) ==> final(db).history() == old(db).history() + cascade_history(rep),
            r matches Ok(rep) ==> episode_cascade(rep, self.id),
    {
        db.delete_episode_if_orphan(self.id)
    }
}

/// The statement that marks one episode watched once more, or unwatched.
pub open spec fn watched_mark(e: Episode, b: bool) -> StatementView {
    (replace_into(EPISODE_WATCHED@), seq![dec(next_watched(e.watched, b)), e.user@, dec(e.id)])
}

/// One mark per episode, in order.
pub open spec fn watched_marks(eps: Seq<Episode>, b: bool) -> Seq<StatementView>
    decreases eps.len(),
{
    if eps.len() == 0 {
        Seq::empty()
    } else {
        watched_marks(eps.drop_last(), b).push(watched_mark(eps.last(), b))
    }
}

/// Whether every episode is read for `user`.
pub open spec fn all_for(eps: Seq<Episode>, user: Seq<char>) -> bool {
    forall|i: int| 0 <= i < eps.len() ==> (#[trigger] eps[i]).user@ == user
}

pub proof fn lemma_marks_concat(a: Seq<Episode>, c: Seq<Episode>, b: bool)
    ensures
        watched_marks(a + c, b) == watched_marks(a, b) + watched_marks(c, b),
    decreases c.len(),
{
    if c.len() == 0 {
        assert(a + c =~= a);
        assert(watched_marks(a, b) + watched_marks(c, b) =~= watched_marks(a, b));
    } else {
        lemma_marks_concat(a, c.drop_last(), b);
        assert((a + c).drop_last() =~= a + c.drop_last());
        assert((a + c).last() == c.last());
        assert(watched_marks(a + c, b) =~= watched_marks(a, b) + watched_marks(c, b));
    }
}

impl Season {
    /// Marks every episode of the season that a video shows.
    pub fn set_watched(&self, db: &mut SqlLibrary, b: bool) -> (r: Result<(), Error>)
        ensures
            r is Ok ==> exists|eps: Seq<Episode>|
                final(db).history() == old(db).history() + #[trigger] watched_marks(eps, b)
                    && all_for(eps, self.user@),
    {
        let episodes = EpisodeSearch::new(&self.user).tv(self.tv_id).season(self.season_number).results(
            db,
            None,
            None,
        )?;
        let mut i: usize = 0;
        proof {
            assert(episodes@.subrange(0, 0) =~= Seq::<Episode>::empty());
            assert(db.history() =~= old(db).history() + watched_marks(episodes@.subrange(0, 0), b));
        }
        while i < episodes.len()
            invariant
                i <= episodes@.len(),
                all_for(episodes@, self.user@),
                db.history() == old(db).history() + watched_marks(episodes@.subrange(0, i as int), b),
            decreases episodes@.len() - i,
        {
            episodes[i].set_watched(db, b)?;
            proof {
                let next = episodes@.subrange(0, i + 1);
                assert(next.drop_last() =~= episodes@.subrange(0, i as int));
                assert(next.last() == episodes@[i as int]);
                assert(db.history() =~= old(db).history() + watched_marks(next, b));
            }
            i = i + 1;
        }
        proof {
            assert(episodes@.subrange(0, episodes@.len() as int) =~= episodes@);
        }
        Ok(())
    }
}

impl Tv {
    /// Marks every episode of every season of the show.
    pub fn set_watched(&self, db: &mut SqlLibrary, b: bool) -> (r: Result<(), Error>)
        ensures
            r is Ok ==> exists|eps: Seq<Episode>|
                final(db).history() == old(db).history() + #[trigger] watched_marks(eps, b)
                    && all_for(eps, self.user@),
    {
        let seasons = db.get_seasons(&self.user, self.id)?;
        let mut i: usize = 0;
        let ghost mut done: Seq<Episode> = Seq::empty();
        proof {
            assert(db.history() =~= old(db).history() + watched_marks(done, b));
        }
        while i < seasons.len()
            invariant
                i <= seasons@.len(),
                forall|k: int| 0 <= k < seasons@.len() ==> (#[trigger] seasons@[k]).user@ == self.user@,
                all_for(done, self.user@),
                db.history() == old(db).history() + watched_marks(done, b),
            decreases seasons@.len() - i,
        {
            let ghost before = db.history();
            seasons[i].set_watched(db, b)?;
            proof {
                let eps = choose|eps: Seq<Episode>|
                    db.history() == before + #[trigger] watched_marks(eps, b) && all_for(
                        eps,
                        seasons@[i as int].user@,
                    );
                lemma_marks_concat(done, eps, b);
                assert(db.history() =~= old(db).history() + watched_marks(done + eps, b));
                assert forall|k: int| 0 <= k < (done + eps).len() implies (#[trigger] (done
                    + eps)[k]).user@ == self.user@ by {
                    if k < done.len() {
                        assert((done + eps)[k] == done[k]);
                    } else {
                        assert((done + eps)[k] == eps[k - done.len()]);
                    }
                }
                done = done + eps;
            }
            i = i + 1;
        }
        Ok(())
    }

    /// Removes the show, with its seasons and orphaned people, unless a video
    /// still shows one of its episodes.
    pub fn delete(&self, db: &mut SqlLibrary) -> (r: Result<CascadeReport, Error>)
        ensures
            r matches Ok(rep) ==> final(db).history() == old(db).history() + cascade_history(rep),
            r matches Ok(rep) ==> tv_cascade(rep, self.id),
    {
        db.delete_tv_if_orphan(self.id)
    }
}

impl Person {
    /// Removes the person unless a credit still names them.
    pub fn delete(&self, db: &mut SqlLibrary) -> (r: Result<bool, Error>)
        ensures
            match r {
                Ok(true) => final(db).history() == old(db).history() + person_deletes(seq![self.id]),
                _ => final(db).history() == old(db).history(),
            },
    {
        db.delete_person_if_orphan(self.id)
    }
}

fn not_in_library(location: &str) -> (r: Error)
    ensures
        r.kind is NotFound,
{
    Error::new(ErrorKind::NotFound, String::from_str("not in the library"), location)
}

impl Collection {
    /// Takes in a member that a search found, with its poster: a collection
    /// without poster takes the member's; a member not found is refused and
    /// the collection stays as it was.
    pub fn take_member(&mut self, found: Option<&String>, location: &str) -> (r: Result<(), Error>)
        ensures
            match found {
                None => (r matches Err(e) && e.kind is NotFound) && *final(self) == *old(self),
                Some(p) => r is Ok && final(self).poster_path@ == inherited_poster(
                    old(self).poster_path@,
                    p@,
                ) && final(self).id == old(self).id && final(self).name == old(self).name
                    && final(self).description == old(self).description && final(self).creator
                    == old(self).creator,
            },
    {
        match found {
            Some(p) => {
                self.offer_poster(p);
                Ok(())
            },
            None => Err(not_in_library(location)),
        }
    }

    /// Adds a movie of the library; a collection without poster takes the
    /// movie's.
    pub fn add_movie(&mut self, db: &mut SqlLibrary, movie_id: u64) -> (r: Result<(), Error>)
        ensures
            r is Ok ==> exists|poster: Seq<char>|
                final(self).poster_path@ == #[trigger] inherited_poster(old(self).poster_path@, poster),
            r is Ok ==> final(db).history() == old(db).history().push(
                (COLLECTION_MOVIE@, seq![dec(movie_id), dec(old(self).id)]),
            ),
            r is Err ==> final(db).history() == old(db).history(),
            final(self).id == old(self).id,
    {
        let found = MovieSearch::new(&self.user).id(movie_id).last(db)?;
        let poster: Option<&String> = match &found {
            Some(x) => Some(&x.poster_path),
            None => None,
        };
        self.take_member(poster, "collection add movie")?;
        db.add_movie_collection(self.id, movie_id)
    }

    /// Adds a show of the library; a collection without poster takes the
    /// show's.
    pub fn add_tv(&mut self, db: &mut SqlLibrary, tv_id: u64) -> (r: Result<(), Error>)
        ensures
            r is Ok ==> exists|poster: Seq<char>|
                final(self).poster_path@ == #[trigger] inherited_poster(old(self).poster_path@, poster),
            r is Ok ==> final(db).history() == old(db).history().push(
                (COLLECTION_TV@, seq![dec(tv_id), dec(old(self).id)]),
            ),
            r is Err ==> final(db).history() == old(db).history(),
            final(self).id == old(self).id,
    {
        let found = TvSearch::new(&self.user).id(tv_id).last(db)?;
        let poster: Option<&String> = match &found {
            Some(x) => Some(&x.poster_path),
            None => None,
        };
        self.take_member(poster, "collection add show")?;
        db.add_tv_collection(self.id, tv_id)
    }

    /// Stores the collection's fields.
    pub fn save(&self, db: &mut SqlLibrary) -> (r: Result<Collection, Error>) {
        db.update_collection(&self.user, self)
    }

    pub fn delete(&self, db: &mut SqlLibrary) -> (r: Result<(), Error>) {
        db.delete_collection(self.id)
    }
}

} // verus!
