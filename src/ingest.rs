use vstd::prelude::*;

use crate::metadata;
use crate::error::Error;
use crate::movie::{movie_asset_paths, movie_person_ids, movie_upsert_plan};
use crate::person::{person_row_params, PERSON_ROW};
use crate::search::{EpisodeSearch, MovieSearch, PersonSearch, TvSearch};
use crate::store::SqlLibrary;
use crate::text::texts;
use crate::tv::{
    episode_person_ids, episode_upsert_plan, tv_asset_paths, tv_person_ids, tv_upsert_plan,
};
use crate::upsert::{opt_paths, replace_into};

verus! {

/// The asset paths worth fetching: the non-empty ones, in order.
pub open spec fn fetchable(paths: Seq<Seq<char>>) -> Seq<Seq<char>>
    decreases paths.len(),
{
    if paths.len() == 0 {
        Seq::empty()
    } else if paths.last().len() == 0 {
        fetchable(paths.drop_last())
    } else {
        fetchable(paths.drop_last()).push(paths.last())
    }
}

/// Keeps the non-empty asset paths.
pub fn assets_to_fetch(paths: &Vec<String>) -> (r: Vec<String>)
    ensures
        texts(r@) == fetchable(texts(paths@)),
{
    let mut out: Vec<String> = Vec::new();
    let mut i: usize = 0;
    proof {
        assert(texts(paths@).subrange(0, 0) =~= Seq::<Seq<char>>::empty());
        assert(texts(out@) =~= Seq::<Seq<char>>::empty());
    }
    while i < paths.len()
        invariant
            i <= paths@.len(),
            texts(out@) == fetchable(texts(paths@).subrange(0, i as int)),
        decreases paths@.len() - i,
    {
        let ghost before = out@;
        proof {
            assert(texts(paths@).subrange(0, i + 1).drop_last() =~= texts(paths@).subrange(0, i as int));
            assert(texts(paths@).subrange(0, i + 1).last() == paths@[i as int]@);
        }
        if paths[i].as_str().unicode_len() > 0 {
            out.push(paths[i].clone());
            proof {
                assert(texts(out@) =~= texts(before).push(paths@[i as int]@));
            }
        }
        i = i + 1;
    }
    proof {
        assert(texts(paths@).subrange(0, paths@.len() as int) =~= texts(paths@));
    }
    out
}

/// What an ingestion leaves for the caller to fetch: people not stored yet,
/// then asset files.
#[derive(Debug)]
pub struct Pending {
    pub persons: Vec<u64>,
    pub assets: Vec<String>,
}

impl SqlLibrary {
    /// Whether the movie is in the library already (stored, with a video).
    pub fn movie_known(&self, user: &String, movie_id: u64) -> (r: Result<bool, Error>) {
        MovieSearch::new(user).id(movie_id).exist(self)
    }

    /// Whether the show is in the library already.
    pub fn tv_known(&self, user: &String, tv_id: u64) -> (r: Result<bool, Error>) {
        TvSearch::new(user).id(tv_id).exist(self)
    }

    /// The id of the stored episode, when it is in the library already.
    pub fn episode_known(&self, user: &String, tv_id: u64, season_number: u64, episode_number: u64) -> (r: Result<Option<u64>, Error>) {
        let found = EpisodeSearch::new(user).tv(tv_id).season(season_number).episode(episode_number).last(self)?;
        match found {
            Some(e) => Ok(Some(e.id)),
            None => Ok(None),
        }
    }

    /// The people of `ids` that are not stored yet, in order.
    fn unknown_persons(&self, user: &String, ids: &Vec<u64>) -> (r: Result<Vec<u64>, Error>)
        ensures
            r matches Ok(v) ==> forall|i: int| 0 <= i < v@.len() ==> ids@.contains(#[trigger] v@[i]),
    {
        let mut out: Vec<u64> = Vec::new();
        let mut i: usize = 0;
        while i < ids.len()
            invariant
                i <= ids@.len(),
                forall|j: int| 0 <= j < out@.len() ==> ids@.contains(#[trigger] out@[j]),
            decreases ids@.len() - i,
        {
            let id = ids[i];
            if !PersonSearch::new(user).id(id).exist(self)? {
                out.push(id);
                proof {
                    assert(ids@[i as int] == id);
                }
            }
            i = i + 1;
        }
        Ok(out)
    }

    /// Stores fetched metadata of a movie and says what to fetch next: the
    /// credited people not stored yet and the non-empty asset paths.
    pub fn ingest_movie(&mut self, user: &String, movie: &metadata::Movie) -> (r: Result<Pending, Error>)
        ensures
            r matches Ok(p) ==> final(self).history() == old(self).history() + movie_upsert_plan(*movie)
                && texts(p.assets@) == fetchable(movie_asset_paths(*movie)) && forall|i: int|
                0 <= i < p.persons@.len() ==> movie_person_ids(*movie).contains(#[trigger] p.persons@[i]),
    {
        let (ids, paths) = self.create_movie(movie)?;
        let persons = self.unknown_persons(user, &ids)?;
        Ok(Pending { persons, assets: assets_to_fetch(&paths) })
    }

    /// Stores fetched metadata of a show and says what to fetch next.
    pub fn ingest_tv(&mut self, user: &String, tv: &metadata::Tv) -> (r: Result<Pending, Error>)
        ensures
            r matches Ok(p) ==> final(self).history() == old(self).history() + tv_upsert_plan(*tv)
                && texts(p.assets@) == fetchable(tv_asset_paths(*tv)) && forall|i: int|
                0 <= i < p.persons@.len() ==> tv_person_ids(*tv).contains(#[trigger] p.persons@[i]),
    {
        let (ids, paths) = self.create_tv(tv)?;
        let persons = self.unknown_persons(user, &ids)?;
        Ok(Pending { persons, assets: assets_to_fetch(&paths) })
    }

    /// Stores fetched metadata of an episode of show `tv_id` and says what to
    /// fetch next: an episode names no asset.
    pub fn ingest_episode(&mut self, user: &String, tv_id: u64, episode: &metadata::TvEpisode) -> (r:
        Result<Pending, Error>)
        ensures
            r matches Ok(p) ==> (exists|season_id: u64|
                final(self).history() == old(self).history() + #[trigger] episode_upsert_plan(
                    tv_id,
                    season_id,
                    *episode,
                )) && p.assets@.len() == 0 && forall|i: int|
                0 <= i < p.persons@.len() ==> episode_person_ids(*episode).contains(
                    #[trigger] p.persons@[i],
                ),
    {
        let (ids, paths) = self.create_episode(tv_id, episode)?;
        let persons = self.unknown_persons(user, &ids)?;
        let assets = assets_to_fetch(&paths);
        proof {
            assert(texts(paths@) =~= Seq::<Seq<char>>::empty());
            assert(fetchable(texts(paths@)) =~= Seq::<Seq<char>>::empty());
        }
        Ok(Pending { persons, assets })
    }

    /// Stores fetched metadata of a person and says what to fetch next: no
    /// other person, and the profile image when there is one.
    pub fn ingest_person(&mut self, person: &metadata::Person) -> (r: Result<Pending, Error>)
        ensures
            r matches Ok(p) ==> final(self).history() == old(self).history().push(
                (replace_into(PERSON_ROW@), person_row_params(*person)),
            ) && p.persons@.len() == 0 && texts(p.assets@) == fetchable(opt_paths(person.profile_path)),
    {
        let (_ids, paths) = self.create_person(person)?;
        Ok(Pending { persons: Vec::new(), assets: assets_to_fetch(&paths) })
    }
}

} // verus!
