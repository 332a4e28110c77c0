use vstd::prelude::*;

use crate::error::Error;
use crate::movie::movie_delete_plan;
use crate::query::{params1, StatementView};
use crate::row::{get_opt_u64, get_u64, get_u8};
use crate::store::SqlLibrary;
use crate::text::decimal_string;
use crate::tv::{episode_delete_plan, tv_delete_plan};
use crate::upsert::{dec, delete_where};
use crate::video::video_delete_plan;

verus! {

/// Which credit tables still name a person.
#[derive(Clone, Copy, Debug)]
pub struct CreditPresence {
    pub movie_cast: bool,
    pub movie_crew: bool,
    pub tv_cast: bool,
    pub tv_crew: bool,
}

/// A person is left without credits, and may go, only when no movie cast,
/// movie crew, show cast or show crew names them.
pub open spec fn person_orphaned(c: CreditPresence) -> bool {
    !c.movie_cast && !c.movie_crew && !c.tv_cast && !c.tv_crew
}

pub fn is_orphaned(c: &CreditPresence) -> (r: bool)
    ensures
        r == person_orphaned(*c),
{
    !c.movie_cast && !c.movie_crew && !c.tv_cast && !c.tv_crew
}

/// A person with a credit in any of the four tables survives the cascade,
/// whatever the order in which the tables are looked at; only one with no
/// credit at all is removed.
pub proof fn lemma_person_survives_any_credit(c: CreditPresence)
    ensures
        (c.movie_cast || c.movie_crew || c.tv_cast || c.tv_crew) <==> !person_orphaned(c),
{
}

/// The media record that removing a video may leave orphaned.
#[derive(Debug)]
pub enum CascadeTarget {
    Nothing,
    Movie(u64),
    Episode(u64),
}

/// An assigned video of a movie points at the movie, one of an episode at
/// the episode; an unassigned video, or one of another type, at nothing.
pub open spec fn cascade_target_of(media_type: u8, media_id: Option<u64>) -> CascadeTarget {
    match media_id {
        None => CascadeTarget::Nothing,
        Some(id) => if media_type == 0 {
            CascadeTarget::Movie(id)
        } else if media_type == 1 {
            CascadeTarget::Episode(id)
        } else {
            CascadeTarget::Nothing
        },
    }
}

pub fn cascade_target(media_type: u8, media_id: Option<u64>) -> (r: CascadeTarget)
    ensures
        r == cascade_target_of(media_type, media_id),
{
    match media_id {
        None => CascadeTarget::Nothing,
        Some(id) => if media_type == 0 {
            CascadeTarget::Movie(id)
        } else if media_type == 1 {
            CascadeTarget::Episode(id)
        } else {
            CascadeTarget::Nothing
        },
    }
}

/// What a cascade found and what it removed.
#[derive(Debug)]
pub struct CascadeReport {
    /// Whether a video still showed the movie, episode or show checked first.
    pub still_shown: bool,
    /// After an episode went: whether a video still showed some episode of
    /// its show; `None` when the show was not looked at.
    pub show_still_shown: Option<bool>,
    pub movie_deleted: Option<u64>,
    pub episode_deleted: Option<u64>,
    pub tv_deleted: Option<u64>,
    /// Each person credited on what went, with the credits found for them.
    pub person_checks: Vec<(u64, CreditPresence)>,
    pub persons_deleted: Vec<u64>,
}

pub fn empty_report() -> (r: CascadeReport)
    ensures
        nothing_removed(r),
        !r.still_shown,
{
    CascadeReport {
        still_shown: false,
        show_still_shown: None,
        movie_deleted: None,
        episode_deleted: None,
        tv_deleted: None,
        person_checks: Vec::new(),
        persons_deleted: Vec::new(),
    }
}

/// The people of the checks that had no credit left, in order.
pub open spec fn orphans_of(checks: Seq<(u64, CreditPresence)>) -> Seq<u64>
    decreases checks.len(),
{
    if checks.len() == 0 {
        Seq::empty()
    } else if person_orphaned(checks.last().1) {
        orphans_of(checks.drop_last()).push(checks.last().0)
    } else {
        orphans_of(checks.drop_last())
    }
}

/// The people that the checks looked at, in order.
pub open spec fn checked_ids(checks: Seq<(u64, CreditPresence)>) -> Seq<u64> {
    checks.map_values(|c: (u64, CreditPresence)| c.0)
}

/// A report of a cascade that removed nothing.
pub open spec fn nothing_removed(rep: CascadeReport) -> bool {
    &&& rep.show_still_shown is None
    &&& rep.movie_deleted is None
    &&& rep.episode_deleted is None
    &&& rep.tv_deleted is None
    &&& rep.person_checks@.len() == 0
    &&& rep.persons_deleted@.len() == 0
}

/// The movie goes exactly when no video shows it any more; then each of its
/// people goes exactly when no credit names them.
pub open spec fn movie_cascade(rep: CascadeReport, movie_id: u64) -> bool {
    &&& rep.show_still_shown is None
    &&& rep.episode_deleted is None
    &&& rep.tv_deleted is None
    &&& rep.movie_deleted == (if rep.still_shown {
        None
    } else {
        Some(movie_id)
    })
    &&& rep.still_shown ==> rep.person_checks@.len() == 0
    &&& rep.persons_deleted@ == orphans_of(rep.person_checks@)
}

/// The show goes, with its seasons, exactly when no video shows any of its
/// episodes; then each of its people goes exactly when no credit names them.
pub open spec fn tv_cascade(rep: CascadeReport, tv_id: u64) -> bool {
    &&& rep.show_still_shown is None
    &&& rep.movie_deleted is None
    &&& rep.episode_deleted is None
    &&& rep.tv_deleted == (if rep.still_shown {
        None
    } else {
        Some(tv_id)
    })
    &&& rep.still_shown ==> rep.person_checks@.len() == 0
    &&& rep.persons_deleted@ == orphans_of(rep.person_checks@)
}

/// The episode goes exactly when no video shows it any more; then its show
/// goes exactly when no video shows any of its episodes, and the show's
/// people as for a show.
pub open spec fn episode_cascade(rep: CascadeReport, episode_id: u64) -> bool {
    &&& rep.movie_deleted is None
    &&& rep.episode_deleted == (if rep.still_shown {
        None
    } else {
        Some(episode_id)
    })
    &&& rep.still_shown ==> rep.show_still_shown is None
    &&& match rep.show_still_shown {
        Some(false) => rep.tv_deleted is Some,
        _ => rep.tv_deleted is None && rep.person_checks@.len() == 0,
    }
    &&& rep.persons_deleted@ == orphans_of(rep.person_checks@)
}

/// What the removal of a video's media record calls for.
pub open spec fn follows_target(rep: CascadeReport, target: CascadeTarget) -> bool {
    match target {
        CascadeTarget::Nothing => nothing_removed(rep),
        CascadeTarget::Movie(id) => movie_cascade(rep, id),
        CascadeTarget::Episode(id) => episode_cascade(rep, id),
    }
}

/// The statement that deletes one person.
pub open spec fn person_delete(id: u64) -> StatementView {
    (delete_where("Persons"@, "id"@), seq![dec(id)])
}

/// The statements that delete the given people, in order.
pub open spec fn person_deletes(ids: Seq<u64>) -> Seq<StatementView>
    decreases ids.len(),
{
    if ids.len() == 0 {
        Seq::empty()
    } else {
        person_deletes(ids.drop_last()).push(person_delete(ids.last()))
    }
}

/// The statements that a cascade ran, read off its report: the movie, the
/// episode and the show it deleted, then the people.
pub open spec fn cascade_history(rep: CascadeReport) -> Seq<StatementView> {
    (match rep.movie_deleted {
        Some(id) => movie_delete_plan(id),
        None => Seq::empty(),
    }) + (match rep.episode_deleted {
        Some(id) => episode_delete_plan(id),
        None => Seq::empty(),
    }) + (match rep.tv_deleted {
        Some(id) => tv_delete_plan(id),
        None => Seq::empty(),
    }) + person_deletes(rep.persons_deleted@)
}

proof fn lemma_single_delete(id: u64)
    ensures
        person_deletes(seq![id]) == seq![person_delete(id)],
{
    let one = seq![id];
    assert(one.len() == 1);
    assert(one.drop_last() =~= Seq::<u64>::empty());
    assert(one.last() == id);
    assert(person_deletes(one.drop_last()) == Seq::<StatementView>::empty());
    assert(person_deletes(one) == Seq::<StatementView>::empty().push(person_delete(id)));
    assert(Seq::<StatementView>::empty().push(person_delete(id)) =~= seq![person_delete(id)]);
}

proof fn lemma_empty_cascade(rep: CascadeReport)
    requires
        rep.movie_deleted is None,
        rep.episode_deleted is None,
        rep.tv_deleted is None,
        rep.persons_deleted@.len() == 0,
    ensures
        cascade_history(rep) == Seq::<StatementView>::empty(),
{
    assert(cascade_history(rep) =~= Seq::<StatementView>::empty());
}

pub const MOVIE_HAS_VIDEO: &'static str = "SELECT 1 FROM Videos WHERE media_type = 0 AND media_id = ?1 LIMIT 1";

pub const EPISODE_HAS_VIDEO: &'static str = "SELECT 1 FROM Videos WHERE media_type = 1 AND media_id = ?1 LIMIT 1";

pub const TV_HAS_VIDEO: &'static str = "SELECT 1 FROM Episodes INNER JOIN Videos ON Videos.media_id = Episodes.id AND Videos.media_type = 1 WHERE Episodes.tv_id = ?1 LIMIT 1";

pub const IN_MOVIE_CAST: &'static str = "SELECT 1 FROM MovieCasts WHERE person_id = ?1 LIMIT 1";

pub const IN_MOVIE_CREW: &'static str = "SELECT 1 FROM MovieCrews WHERE person_id = ?1 LIMIT 1";

pub const IN_TV_CAST: &'static str = "SELECT 1 FROM TvCasts WHERE person_id = ?1 LIMIT 1";

pub const IN_TV_CREW: &'static str = "SELECT 1 FROM TvCrews WHERE person_id = ?1 LIMIT 1";

pub const MOVIE_PEOPLE: &'static str = "SELECT CAST(person_id AS INTEGER) FROM MovieCasts WHERE movie_id = ?1 UNION SELECT CAST(person_id AS INTEGER) FROM MovieCrews WHERE movie_id = ?1";

pub const TV_PEOPLE: &'static str = "SELECT CAST(person_id AS INTEGER) FROM TvCasts WHERE tv_id = ?1 UNION SELECT CAST(person_id AS INTEGER) FROM TvCrews WHERE tv_id = ?1";

pub const EPISODE_SHOW: &'static str = "SELECT tv_id FROM Episodes WHERE id = ?1";

pub const VIDEO_MEDIA: &'static str = "SELECT media_type, media_id FROM Videos WHERE id = ?1";

impl SqlLibrary {
    /// Whether the query finds at least one row.
    pub fn exist(&self, sql: &str, params: &Vec<String>, location: &str) -> (r: Result<bool, Error>)
        ensures
            r matches Err(e) ==> e.location@ == location@,
    {
        let rows = self.query(sql, params, location)?;
        Ok(rows.len() > 0)
    }

    /// Which credit tables name the person.
    pub fn credit_presence(&self, person_id: u64) -> (r: Result<CreditPresence, Error>) {
        let p = params1(decimal_string(person_id));
        let movie_cast = self.exist(IN_MOVIE_CAST, &p, "credit_presence")?;
        let movie_crew = self.exist(IN_MOVIE_CREW, &p, "credit_presence")?;
        let tv_cast = self.exist(IN_TV_CAST, &p, "credit_presence")?;
        let tv_crew = self.exist(IN_TV_CREW, &p, "credit_presence")?;
        Ok(CreditPresence { movie_cast, movie_crew, tv_cast, tv_crew })
    }

    /// Deletes the person when no credit names them any more; says whether it
    /// did.
    pub fn delete_person_if_orphan(&mut self, person_id: u64) -> (r: Result<bool, Error>)
        ensures
            match r {
                Ok(true) => final(self).history() == old(self).history() + person_deletes(
                    seq![person_id],
                ),
                _ => final(self).history() == old(self).history(),
            },
    {
        let presence = self.credit_presence(person_id)?;
        let gone = self.delete_if_orphaned(person_id, &presence)?;
        Ok(gone)
    }

    /// Deletes the person when the credits found leave them orphaned.
    fn delete_if_orphaned(&mut self, person_id: u64, presence: &CreditPresence) -> (r: Result<bool, Error>)
        ensures
            match r {
                Ok(gone) => gone == person_orphaned(*presence) && final(self).history() == old(
                    self,
                ).history() + if gone {
                    person_deletes(seq![person_id])
                } else {
                    Seq::empty()
                },
                Err(_) => final(self).history() == old(self).history(),
            },
    {
        if is_orphaned(presence) {
            self.delete_person(person_id)?;
            proof {
                lemma_single_delete(person_id);
                assert(self.history() =~= old(self).history() + person_deletes(seq![person_id]));
            }
            Ok(true)
        } else {
            proof {
                assert(self.history() =~= old(self).history() + Seq::<StatementView>::empty());
            }
            Ok(false)
        }
    }

    /// The ids that the first column of a query yields.
    fn ids_of(&self, sql: &str, id: u64, location: &str) -> (r: Result<Vec<u64>, Error>) {
        let rows = self.query(sql, &params1(decimal_string(id)), location)?;
        let mut out: Vec<u64> = Vec::new();
        let mut i: usize = 0;
        while i < rows.len()
            decreases rows@.len() - i,
        {
            let v = get_u64(&rows[i], 0, location)?;
            out.push(v);
            i = i + 1;
        }
        Ok(out)
    }

    /// Checks the credits of each person and deletes those left without any.
    fn delete_orphans(&mut self, people: &Vec<u64>) -> (r: Result<
        (Vec<(u64, CreditPresence)>, Vec<u64>),
        Error,
    >)
        ensures
            r matches Ok((checks, deleted)) ==> checked_ids(checks@) == people@ && deleted@
                == orphans_of(checks@) && final(self).history() == old(self).history()
                + person_deletes(deleted@),
    {
        let mut checks: Vec<(u64, CreditPresence)> = Vec::new();
        let mut deleted: Vec<u64> = Vec::new();
        let mut i: usize = 0;
        proof {
            assert(old(self).history() + person_deletes(deleted@) =~= old(self).history());
            assert(checked_ids(checks@) =~= people@.subrange(0, 0));
        }
        while i < people.len()
            invariant
                i <= people@.len(),
                checked_ids(checks@) == people@.subrange(0, i as int),
                deleted@ == orphans_of(checks@),
                self.history() == old(self).history() + person_deletes(deleted@),
            decreases people@.len() - i,
        {
            let id = people[i];
            let presence = self.credit_presence(id)?;
            let ghost earlier_checks = checks@;
            let ghost earlier = deleted@;
            let gone = self.delete_if_orphaned(id, &presence)?;
            checks.push((id, presence));
            if gone {
                deleted.push(id);
            }
            proof {
                assert(checks@ =~= earlier_checks.push((id, presence)));
                assert(checks@.drop_last() =~= earlier_checks);
                assert(checked_ids(checks@) =~= checked_ids(earlier_checks).push(id));
                assert(people@.subrange(0, i + 1) =~= people@.subrange(0, i as int).push(id));
                assert(checked_ids(checks@) =~= people@.subrange(0, i + 1));
                if gone {
                    lemma_single_delete(id);
                    assert(deleted@.drop_last() =~= earlier);
                    assert(self.history() =~= old(self).history() + person_deletes(deleted@));
                } else {
                    assert(deleted@ =~= earlier);
                    assert(self.history() =~= old(self).history() + person_deletes(deleted@));
                }
            }
            i = i + 1;
        }
        proof {
            assert(people@.subrange(0, people@.len() as int) =~= people@);
        }
        Ok((checks, deleted))
    }

    /// Deletes the movie when no video shows it any more, then each of its
    /// people whom no credit names any more.
    pub fn delete_movie_if_orphan(&mut self, movie_id: u64) -> (r: Result<CascadeReport, Error>)
        ensures
            r matches Ok(rep) ==> movie_cascade(rep, movie_id) && final(self).history() == old(
                self,
            ).history() + cascade_history(rep),
    {
        let mut report = empty_report();
        if self.exist(MOVIE_HAS_VIDEO, &params1(decimal_string(movie_id)), "delete_movie")? {
            report.still_shown = true;
            proof {
                lemma_empty_cascade(report);
                assert(orphans_of(report.person_checks@) =~= Seq::<u64>::empty());
                assert(report.persons_deleted@ =~= orphans_of(report.person_checks@));
                assert(self.history() =~= old(self).history() + cascade_history(report));
            }
            return Ok(report);
        }
        let people = self.ids_of(MOVIE_PEOPLE, movie_id, "delete_movie")?;
        self.delete_movie(movie_id)?;
        let (checks, deleted) = self.delete_orphans(&people)?;
        report.movie_deleted = Some(movie_id);
        report.person_checks = checks;
        report.persons_deleted = deleted;
        proof {
            assert(cascade_history(report) =~= movie_delete_plan(movie_id) + person_deletes(report.persons_deleted@));
            assert(self.history() =~= old(self).history() + cascade_history(report));
        }
        Ok(report)
    }

    /// Deletes the show when none of its episodes has a video any more, with
    /// its seasons, then each of its people whom no credit names any more.
    pub fn delete_tv_if_orphan(&mut self, tv_id: u64) -> (r: Result<CascadeReport, Error>)
        ensures
            r matches Ok(rep) ==> tv_cascade(rep, tv_id) && final(self).history() == old(
                self,
            ).history() + cascade_history(rep),
    {
        let mut report = empty_report();
        if self.exist(TV_HAS_VIDEO, &params1(decimal_string(tv_id)), "delete_tv")? {
            report.still_shown = true;
            proof {
                lemma_empty_cascade(report);
                assert(orphans_of(report.person_checks@) =~= Seq::<u64>::empty());
                assert(report.persons_deleted@ =~= orphans_of(report.person_checks@));
                assert(self.history() =~= old(self).history() + cascade_history(report));
            }
            return Ok(report);
        }
        let people = self.ids_of(TV_PEOPLE, tv_id, "delete_tv")?;
        self.delete_tv(tv_id)?;
        let (checks, deleted) = self.delete_orphans(&people)?;
        report.tv_deleted = Some(tv_id);
        report.person_checks = checks;
        report.persons_deleted = deleted;
        proof {
            assert(cascade_history(report) =~= tv_delete_plan(tv_id) + person_deletes(report.persons_deleted@));
            assert(self.history() =~= old(self).history() + cascade_history(report));
        }
        Ok(report)
    }

    /// Deletes the episode when no video shows it any more; then its show
    /// when no episode of it keeps a video.
    pub fn delete_episode_if_orphan(&mut self, episode_id: u64) -> (r: Result<CascadeReport, Error>)
        ensures
            r matches Ok(rep) ==> episode_cascade(rep, episode_id) && final(self).history() == old(
                self,
            ).history() + cascade_history(rep),
    {
        let mut report = empty_report();
        if self.exist(EPISODE_HAS_VIDEO, &params1(decimal_string(episode_id)), "delete_episode")? {
            report.still_shown = true;
            proof {
                lemma_empty_cascade(report);
                assert(orphans_of(report.person_checks@) =~= Seq::<u64>::empty());
                assert(report.persons_deleted@ =~= orphans_of(report.person_checks@));
                assert(self.history() =~= old(self).history() + cascade_history(report));
            }
            return Ok(report);
        }
        let shows = self.ids_of(EPISODE_SHOW, episode_id, "delete_episode")?;
        self.delete_episode(episode_id)?;
        report.episode_deleted = Some(episode_id);
        if shows.len() > 0 {
            let show = self.delete_tv_if_orphan(shows[0])?;
            report.show_still_shown = Some(show.still_shown);
            report.tv_deleted = show.tv_deleted;
            report.person_checks = show.person_checks;
            report.persons_deleted = show.persons_deleted;
            proof {
                assert(report.person_checks@ == show.person_checks@);
                assert(report.persons_deleted@ == show.persons_deleted@);
                assert(cascade_history(report) =~= episode_delete_plan(episode_id) + cascade_history(show));
                assert(self.history() =~= old(self).history() + cascade_history(report));
            }
        } else {
            proof {
                assert(orphans_of(report.person_checks@) =~= Seq::<u64>::empty());
                assert(report.persons_deleted@ =~= orphans_of(report.person_checks@));
                assert(cascade_history(report) =~= episode_delete_plan(episode_id));
                assert(self.history() =~= old(self).history() + cascade_history(report));
            }
        }
        Ok(report)
    }

    /// Runs the cascade that the media record of a removed video calls for.
    pub fn cascade_from(&mut self, target: CascadeTarget) -> (r: Result<CascadeReport, Error>)
        ensures
            r matches Ok(rep) ==> follows_target(rep, target) && final(self).history() == old(
                self,
            ).history() + cascade_history(rep),
    {
        match target {
            CascadeTarget::Nothing => {
                let report = empty_report();
                proof {
                    lemma_empty_cascade(report);
                }
                Ok(report)
            },
            CascadeTarget::Movie(id) => self.delete_movie_if_orphan(id),
            CascadeTarget::Episode(id) => self.delete_episode_if_orphan(id),
        }
    }

    /// Removes a video, then whatever its removal leaves orphaned: its movie
    /// and that movie's people, or its episode, the episode's show and the
    /// show's people. An unassigned video removes nothing else.
    pub fn remove_video(&mut self, video_id: u64) -> (r: Result<CascadeReport, Error>)
        ensures
            r matches Ok(rep) ==> exists|target: CascadeTarget| #[trigger] follows_target(rep, target),
            r matches Ok(rep) ==> final(self).history() == old(self).history() + video_delete_plan(
                video_id,
            ) + cascade_history(rep),
    {
        let rows = self.query(VIDEO_MEDIA, &params1(decimal_string(video_id)), "remove_video")?;
        let target = if rows.len() > 0 {
            let media_type = get_u8(&rows[0], 0, "remove_video")?;
            let media_id = get_opt_u64(&rows[0], 1, "remove_video")?;
            cascade_target(media_type, media_id)
        } else {
            CascadeTarget::Nothing
        };
        self.delete_video(video_id)?;
        let report = self.cascade_from(target)?;
        proof {
            assert(self.history() =~= old(self).history() + video_delete_plan(video_id) + cascade_history(
                report,
            ));
        }
        Ok(report)
    }
}

} // verus!
