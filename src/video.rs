use vstd::prelude::*;

use crate::error::{Error, ErrorKind};
use crate::query::{
    generate_sql, opt_text, params1, params2, push_statement, statement_views, Filter, SqlQuery,
    StatementView,
};
use crate::row::{
    at_list, at_opt_text, at_opt_u64, at_text, at_u64, at_u8, get_list, get_opt_text, get_opt_u64,
    get_text, get_u64, get_u8, row_views,
};
use crate::store::{Cell, SqlLibrary};
use crate::text::{decimal_string, texts};
use crate::upsert::{
    dec, delete_where, ignore_into, ignore_into_sql, or_empty, push_delete, replace_into,
    replace_into_sql, text_or_empty,
};

verus! {

/// A media file of the library. A video with no `media_id` is unassigned.
#[derive(Debug)]
pub struct Video {
    /// The user whose watch marks the record carries.
    pub user: String,
    pub id: u64,
    /// Unique among videos.
    pub path: String,
    /// 0 for a movie, 1 for an episode.
    pub media_type: u8,
    /// The movie or episode it shows, if assigned.
    pub media_id: Option<u64>,
    pub bit_rate: u64,
    pub duration: u64,
    pub size: u64,
    /// When it was added.
    pub adding: String,
    pub codec: Option<String>,
    pub width: u64,
    pub height: u64,
    /// Subtitle languages.
    pub subtitles: Vec<String>,
    /// Audio languages.
    pub audios: Vec<String>,
    /// How far the user watched.
    pub watch_time: Option<u64>,
    pub last_watch: Option<String>,
}

/// Whether every column that a video needs holds a value of the right type.
pub open spec fn video_row_ok(row: Seq<Cell>) -> bool {
    &&& at_u64(row, 0) is Some
    &&& at_text(row, 1) is Some
    &&& at_u8(row, 2) is Some
    &&& at_opt_u64(row, 3) is Some
    &&& at_u64(row, 5) is Some
    &&& at_u64(row, 4) is Some
    &&& at_u64(row, 9) is Some
    &&& at_text(row, 10) is Some
    &&& at_opt_text(row, 6) is Some
    &&& at_u64(row, 7) is Some
    &&& at_u64(row, 8) is Some
    &&& at_list(row, 11) is Some
    &&& at_list(row, 12) is Some
    &&& at_opt_u64(row, 13) is Some
    &&& at_opt_text(row, 14) is Some
}

impl Video {
    /// Whether this record is what `row` holds, read for `user`.
    pub open spec fn decodes(&self, user: Seq<char>, row: Seq<Cell>) -> bool {
        &&& self.user@ == user
        &&& at_u64(row, 0) == Some(self.id)
        &&& at_text(row, 1) == Some(self.path@)
        &&& at_u8(row, 2) == Some(self.media_type)
        &&& at_opt_u64(row, 3) == Some(self.media_id)
        &&& at_u64(row, 5) == Some(self.bit_rate)
        &&& at_u64(row, 4) == Some(self.duration)
        &&& at_u64(row, 9) == Some(self.size)
        &&& at_text(row, 10) == Some(self.adding@)
        &&& at_opt_text(row, 6) == Some(opt_text(self.codec))
        &&& at_u64(row, 7) == Some(self.width)
        &&& at_u64(row, 8) == Some(self.height)
        &&& at_list(row, 11) == Some(texts(self.subtitles@))
        &&& at_list(row, 12) == Some(texts(self.audios@))
        &&& at_opt_u64(row, 13) == Some(self.watch_time)
        &&& at_opt_text(row, 14) == Some(opt_text(self.last_watch))
    }

    /// Reads one result row.
    pub fn from_row(user: &String, row: &Vec<Cell>) -> (r: Result<Video, Error>)
        ensures
            match r {
                Ok(x) => x.decodes(user@, row@),
                Err(e) => e.kind is Decode && !video_row_ok(row@),
            },
    {
        let id = get_u64(row, 0, "get_video")?;
        let path = get_text(row, 1, "get_video")?;
        let media_type = get_u8(row, 2, "get_video")?;
        let media_id = get_opt_u64(row, 3, "get_video")?;
        let bit_rate = get_u64(row, 5, "get_video")?;
        let duration = get_u64(row, 4, "get_video")?;
        let size = get_u64(row, 9, "get_video")?;
        let adding = get_text(row, 10, "get_video")?;
        let codec = get_opt_text(row, 6, "get_video")?;
        let width = get_u64(row, 7, "get_video")?;
        let height = get_u64(row, 8, "get_video")?;
        let subtitles = get_list(row, 11, "get_video")?;
        let audios = get_list(row, 12, "get_video")?;
        let watch_time = get_opt_u64(row, 13, "get_video")?;
        let last_watch = get_opt_text(row, 14, "get_video")?;
        Ok(Video { user: user.clone(), id, path, media_type, media_id, bit_rate, duration, size, adding, codec, width, height, subtitles, audios, watch_time, last_watch })
    }

    /// Whether the records are, one for one, what the rows hold.
    pub open spec fn all_decode(v: Seq<Video>, user: Seq<char>, rows: Seq<Seq<Cell>>) -> bool {
        &&& v.len() == rows.len()
        &&& forall|i: int| 0 <= i < v.len() ==> (#[trigger] v[i]).decodes(user, rows[i])
    }

    /// Reads every result row, in order; fails on the first row that does not decode.
    pub fn from_rows(user: &String, rows: &Vec<Vec<Cell>>) -> (r: Result<Vec<Video>, Error>)
        ensures
            r matches Ok(v) ==> Video::all_decode(v@, user@, row_views(rows@)),
            match r {
                Ok(v) => v@.len() == rows@.len() && forall|i: int|
                    0 <= i < rows@.len() ==> (#[trigger] v@[i]).decodes(user@, rows@[i]@),
                Err(e) => e.kind is Decode && exists|i: int|
                    0 <= i < rows@.len() && !video_row_ok(#[trigger] rows@[i]@),
            },
    {
        let mut out: Vec<Video> = Vec::new();
        let n = rows.len();
        let mut i: usize = 0;
        while i < n
            invariant
                n == rows@.len(),
                i <= n,
                out@.len() == i,
                forall|j: int| 0 <= j < i ==> (#[trigger] out@[j]).decodes(user@, rows@[j]@),
            decreases n - i,
        {
            let x = Video::from_row(user, &rows[i])?;
            out.push(x);
            i = i + 1;
        }
        proof {
            assert forall|i: int| 0 <= i < out@.len() implies (#[trigger] out@[i]).decodes(
                user@, row_views(rows@)[i],
            ) by {
                assert(row_views(rows@)[i] == rows@[i]@);
            }
        }
        Ok(out)
    }

    /// Reads the first result row, if there is one.
    pub fn first_of(user: &String, rows: &Vec<Vec<Cell>>) -> (r: Result<Option<Video>, Error>)
        ensures
            match r {
                Ok(Some(x)) => rows@.len() > 0 && x.decodes(user@, rows@[0]@),
                Ok(None) => rows@.len() == 0,
                Err(e) => e.kind is Decode && rows@.len() > 0 && !video_row_ok(rows@[0]@),
            },
    {
        if rows.len() == 0 {
            return Ok(None);
        }
        let x = Video::from_row(user, &rows[0])?;
        Ok(Some(x))
    }
}
impl Video {
    /// A video not yet stored: no id, no media assignment, no probe data.
    pub fn new(user: String, path: String, media_type: u8) -> (r: Video)
        ensures
            r.user == user,
            r.path == path,
            r.media_type == media_type,
            r.media_id is None,
            r.id == 0 && r.bit_rate == 0 && r.duration == 0 && r.size == 0,
            r.width == 0 && r.height == 0,
            r.codec is None && r.watch_time is None && r.last_watch is None,
            r.subtitles@.len() == 0 && r.audios@.len() == 0 && r.adding@.len() == 0,
    {
        Video {
            user,
            id: 0,
            path,
            media_type,
            media_id: None,
            bit_rate: 0,
            duration: 0,
            size: 0,
            adding: String::new(),
            codec: None,
            width: 0,
            height: 0,
            subtitles: Vec::new(),
            audios: Vec::new(),
            watch_time: None,
            last_watch: None,
        }
    }
}

/// What a video search row tells of a movie.
#[derive(Debug)]
pub struct MovieMinimal {
    pub id: u64,
    pub title: String,
    pub release_date: String,
}

/// What a video search row tells of an episode.
#[derive(Debug)]
pub struct EpisodeMinimal {
    pub id: u64,
    pub title: String,
    pub season_number: u64,
    pub episode_number: u64,
}

/// The media a video shows.
#[derive(Debug)]
pub enum MediaInfo {
    Tv(EpisodeMinimal),
    Movie(MovieMinimal),
    Unknown,
}

/// Whether `info` is what a video search row says of the media: nothing for
/// an unassigned video or an unknown media type, else the movie or episode
/// columns.
pub open spec fn info_decodes(info: MediaInfo, row: Seq<Cell>) -> bool {
    match at_opt_u64(row, 3) {
        Some(None) => info is Unknown,
        Some(Some(_id)) => if at_u8(row, 2) == Some(0u8) {
            match info {
                MediaInfo::Movie(m) => at_u64(row, 15) == Some(m.id) && at_text(row, 5) == Some(
                    m.title@,
                ) && at_text(row, 7) == Some(m.release_date@),
                _ => false,
            }
        } else if at_u8(row, 2) == Some(1u8) {
            match info {
                MediaInfo::Tv(e) => at_u64(row, 16) == Some(e.id) && at_text(row, 6) == Some(
                    e.title@,
                ) && at_u64(row, 9) == Some(e.season_number) && at_u64(row, 8) == Some(
                    e.episode_number,
                ),
                _ => false,
            }
        } else {
            info is Unknown
        },
        None => false,
    }
}

/// Whether the media columns of a video search row decode.
pub open spec fn info_row_ok(row: Seq<Cell>) -> bool {
    match at_opt_u64(row, 3) {
        Some(None) => true,
        Some(Some(_id)) => if at_u8(row, 2) == Some(0u8) {
            at_u64(row, 15) is Some && at_text(row, 5) is Some && at_text(row, 7) is Some
        } else if at_u8(row, 2) == Some(1u8) {
            at_u64(row, 16) is Some && at_text(row, 6) is Some && at_u64(row, 9) is Some && at_u64(
                row,
                8,
            ) is Some
        } else {
            at_u8(row, 2) is Some
        },
        None => false,
    }
}

fn media_info_from_row(row: &Vec<Cell>) -> (r: Result<MediaInfo, Error>)
    ensures
        match r {
            Ok(info) => info_decodes(info, row@),
            Err(e) => e.kind is Decode && !info_row_ok(row@),
        },
{
    let media_id = get_opt_u64(row, 3, "get_videos")?;
    match media_id {
        None => Ok(MediaInfo::Unknown),
        Some(_id) => {
            let media_type = get_u8(row, 2, "get_videos")?;
            if media_type == 0 {
                let id = get_u64(row, 15, "get_videos")?;
                let title = get_text(row, 5, "get_videos")?;
                let release_date = get_text(row, 7, "get_videos")?;
                Ok(MediaInfo::Movie(MovieMinimal { id, title, release_date }))
            } else if media_type == 1 {
                let id = get_u64(row, 16, "get_videos")?;
                let title = get_text(row, 6, "get_videos")?;
                let season_number = get_u64(row, 9, "get_videos")?;
                let episode_number = get_u64(row, 8, "get_videos")?;
                Ok(MediaInfo::Tv(EpisodeMinimal { id, title, season_number, episode_number }))
            } else {
                Ok(MediaInfo::Unknown)
            }
        },
    }
}

/// The summary of a video that searches return.
#[derive(Debug)]
pub struct VideoResult {
    pub user: String,
    pub id: u64,
    pub path: String,
    pub media_type: u8,
    pub adding: String,
    pub duration: u64,
    pub codec: Option<String>,
    pub size: u64,
    pub subtitles: Vec<String>,
    pub audios: Vec<String>,
    pub info: MediaInfo,
}

pub open spec fn video_result_row_ok(row: Seq<Cell>) -> bool {
    &&& at_u64(row, 0) is Some
    &&& at_text(row, 1) is Some
    &&& at_u8(row, 2) is Some
    &&& at_text(row, 4) is Some
    &&& info_row_ok(row)
    &&& at_u64(row, 10) is Some
    &&& at_opt_text(row, 11) is Some
    &&& at_u64(row, 12) is Some
    &&& at_list(row, 13) is Some
    &&& at_list(row, 14) is Some
}

impl VideoResult {
    pub open spec fn decodes(&self, user: Seq<char>, row: Seq<Cell>) -> bool {
        &&& self.user@ == user
        &&& at_u64(row, 0) == Some(self.id)
        &&& at_text(row, 1) == Some(self.path@)
        &&& at_u8(row, 2) == Some(self.media_type)
        &&& at_text(row, 4) == Some(self.adding@)
        &&& info_decodes(self.info, row)
        &&& at_u64(row, 10) == Some(self.duration)
        &&& at_opt_text(row, 11) == Some(opt_text(self.codec))
        &&& at_u64(row, 12) == Some(self.size)
        &&& at_list(row, 13) == Some(texts(self.subtitles@))
        &&& at_list(row, 14) == Some(texts(self.audios@))
    }

    /// Reads one result row.
    pub fn from_row(user: &String, row: &Vec<Cell>) -> (r: Result<VideoResult, Error>)
        ensures
            match r {
                Ok(x) => x.decodes(user@, row@),
                Err(e) => e.kind is Decode && !video_result_row_ok(row@),
            },
    {
        let id = get_u64(row, 0, "get_videos")?;
        let path = get_text(row, 1, "get_videos")?;
        let media_type = get_u8(row, 2, "get_videos")?;
        let adding = get_text(row, 4, "get_videos")?;
        let info = media_info_from_row(row)?;
        let duration = get_u64(row, 10, "get_videos")?;
        let codec = get_opt_text(row, 11, "get_videos")?;
        let size = get_u64(row, 12, "get_videos")?;
        let subtitles = get_list(row, 13, "get_videos")?;
        let audios = get_list(row, 14, "get_videos")?;
        Ok(
            VideoResult {
                user: user.clone(),
                id,
                path,
                media_type,
                adding,
                duration,
                codec,
                size,
                subtitles,
                audios,
                info,
            },
        )
    }

    /// Whether the records are, one for one, what the rows hold.
    pub open spec fn all_decode(v: Seq<VideoResult>, user: Seq<char>, rows: Seq<Seq<Cell>>) -> bool {
        &&& v.len() == rows.len()
        &&& forall|i: int| 0 <= i < v.len() ==> (#[trigger] v[i]).decodes(user, rows[i])
    }

    /// Reads every result row, in order.
    pub fn from_rows(user: &String, rows: &Vec<Vec<Cell>>) -> (r: Result<Vec<VideoResult>, Error>)
        ensures
            r matches Ok(v) ==> VideoResult::all_decode(v@, user@, row_views(rows@)),
            match r {
                Ok(v) => v@.len() == rows@.len() && forall|i: int|
                    0 <= i < rows@.len() ==> (#[trigger] v@[i]).decodes(user@, rows@[i]@),
                Err(e) => e.kind is Decode && exists|i: int|
                    0 <= i < rows@.len() && !video_result_row_ok(#[trigger] rows@[i]@),
            },
    {
        let mut out: Vec<VideoResult> = Vec::new();
        let n = rows.len();
        let mut i: usize = 0;
        while i < n
            invariant
                n == rows@.len(),
                i <= n,
                out@.len() == i,
                forall|j: int| 0 <= j < i ==> (#[trigger] out@[j]).decodes(user@, rows@[j]@),
            decreases n - i,
        {
            let x = VideoResult::from_row(user, &rows[i])?;
            out.push(x);
            i = i + 1;
        }
        proof {
            assert forall|i: int| 0 <= i < out@.len() implies (#[trigger] out@[i]).decodes(
                user@, row_views(rows@)[i],
            ) by {
                assert(row_views(rows@)[i] == rows@[i]@);
            }
        }
        Ok(out)
    }
}

pub const VIDEO_ROW: &'static str = "INSERT INTO Videos (path, media_type, duration, bit_rate, codec, width, height, size, adding) values (?1, ?2, ?3, ?4, ?5, ?6, ?7, ?8, datetime('now'))";

pub const SUBTITLE_ROW: &'static str = "Subtitles (video_id, language) values ((SELECT id FROM Videos WHERE path = ?1), ?2)";

pub const AUDIO_ROW: &'static str = "Audios (video_id, language) values ((SELECT id FROM Videos WHERE path = ?1), ?2)";

pub const VIDEO_ID_BY_PATH: &'static str = "SELECT id FROM Videos WHERE path = ?1";

pub const SET_MEDIA_ID: &'static str = "UPDATE Videos SET media_id = ?1 WHERE id = ?2";

pub const SET_PATH: &'static str = "UPDATE Videos SET path = ?1 WHERE id = ?2";

pub const VIDEO_BY_ID: &'static str = "SELECT id, path, media_type, media_id, duration, bit_rate, codec, width, height, size, adding, subtitles, audios, WatchTimes.watch_time, WatchTimes.last_watch FROM VideosView LEFT OUTER JOIN WatchTimes ON VideosView.id = WatchTimes.video_id AND WatchTimes.user_name = ?1 WHERE id = ?2";

pub const VIDEOS_HEAD: &'static str = "SELECT id, path, media_type, media_id, adding, m_title, t_title, release_date, episode_number, season_number, duration, codec, size, subtitles, audios, m_id, t_id, WatchTimes.last_watch as last_watch FROM VideosView LEFT OUTER JOIN WatchTimes ON VideosView.id = WatchTimes.video_id AND WatchTimes.user_name = ?1";

pub const WATCH_TIME_ROW: &'static str = "WatchTimes (user_name, video_id, watch_time, last_watch) values (?1, ?2, ?3, datetime('now'))";

/// The values of a new video's row, in column order; its media stays
/// unassigned.
pub open spec fn video_row_params(v: Video) -> Seq<Seq<char>> {
    seq![
        v.path@,
        dec(v.media_type as u64),
        dec(v.duration),
        dec(v.bit_rate),
        or_empty(v.codec),
        dec(v.width),
        dec(v.height),
        dec(v.size),
    ]
}

pub fn video_row_values(v: &Video) -> (r: Vec<String>)
    ensures
        texts(r@) == video_row_params(*v),
{
    let mut out: Vec<String> = Vec::new();
    out.push(v.path.clone());
    out.push(decimal_string(v.media_type as u64));
    out.push(decimal_string(v.duration));
    out.push(decimal_string(v.bit_rate));
    out.push(text_or_empty(&v.codec));
    out.push(decimal_string(v.width));
    out.push(decimal_string(v.height));
    out.push(decimal_string(v.size));
    proof {
        assert(texts(out@) =~= video_row_params(*v));
    }
    out
}

/// One statement per language, linking it to the video stored under `path`
/// unless the pair is there already.
pub open spec fn language_statements(rest: Seq<char>, path: Seq<char>, langs: Seq<Seq<char>>) -> Seq<
    StatementView,
>
    decreases langs.len(),
{
    if langs.len() == 0 {
        Seq::empty()
    } else {
        language_statements(rest, path, langs.drop_last()).push(
            (ignore_into(rest), seq![path, langs.last()]),
        )
    }
}

/// The statements that register a video: its row, then its subtitle and
/// audio languages.
pub open spec fn video_create_plan(v: Video) -> Seq<StatementView> {
    seq![(VIDEO_ROW@, video_row_params(v))] + language_statements(
        SUBTITLE_ROW@,
        v.path@,
        texts(v.subtitles@),
    ) + language_statements(AUDIO_ROW@, v.path@, texts(v.audios@))
}

fn push_languages(out: &mut Vec<SqlQuery>, rest: &str, path: &String, langs: &Vec<String>)
    ensures
        statement_views(final(out)@) == statement_views(old(out)@) + language_statements(
            rest@,
            path@,
            texts(langs@),
        ),
{
    let ghost start = statement_views(out@);
    let mut i: usize = 0;
    proof {
        assert(texts(langs@).subrange(0, 0) =~= Seq::<Seq<char>>::empty());
        assert(start + Seq::<StatementView>::empty() =~= start);
    }
    while i < langs.len()
        invariant
            i <= langs@.len(),
            statement_views(out@) == start + language_statements(
                rest@,
                path@,
                texts(langs@).subrange(0, i as int),
            ),
        decreases langs@.len() - i,
    {
        push_statement(out, ignore_into_sql(rest), params2(path.clone(), langs[i].clone()));
        proof {
            let next = texts(langs@).subrange(0, i + 1);
            assert(next.drop_last() =~= texts(langs@).subrange(0, i as int));
            assert(next.last() == langs@[i as int]@);
            assert(statement_views(out@) =~= start + language_statements(rest@, path@, next));
        }
        i = i + 1;
    }
    proof {
        assert(texts(langs@).subrange(0, langs@.len() as int) =~= texts(langs@));
    }
}

/// The statements that register `v`, in the order they run.
pub fn video_create_statements(v: &Video) -> (r: Vec<SqlQuery>)
    ensures
        statement_views(r@) == video_create_plan(*v),
{
    let mut out: Vec<SqlQuery> = Vec::new();
    push_statement(&mut out, String::from_str(VIDEO_ROW), video_row_values(v));
    proof {
        assert(statement_views(out@) =~= seq![(VIDEO_ROW@, video_row_params(*v))]);
    }
    push_languages(&mut out, SUBTITLE_ROW, &v.path, &v.subtitles);
    push_languages(&mut out, AUDIO_ROW, &v.path, &v.audios);
    out
}

/// The statements that delete a video's own rows.
pub open spec fn video_delete_plan(id: u64) -> Seq<StatementView> {
    seq![
        (delete_where("Videos"@, "id"@), seq![dec(id)]),
        (delete_where("WatchTimes"@, "video_id"@), seq![dec(id)]),
        (delete_where("Audios"@, "video_id"@), seq![dec(id)]),
        (delete_where("Subtitles"@, "video_id"@), seq![dec(id)]),
    ]
}

pub fn video_delete_statements(video_id: u64) -> (r: Vec<SqlQuery>)
    ensures
        statement_views(r@) == video_delete_plan(video_id),
{
    let mut out: Vec<SqlQuery> = Vec::new();
    push_delete(&mut out, "Videos", "id", video_id);
    push_delete(&mut out, "WatchTimes", "video_id", video_id);
    push_delete(&mut out, "Audios", "video_id", video_id);
    push_delete(&mut out, "Subtitles", "video_id", video_id);
    proof {
        assert(statement_views(out@) =~= video_delete_plan(video_id));
    }
    out
}

impl SqlLibrary {
    /// Stores a new video, unassigned, with its subtitle and audio languages,
    /// in one transaction, and hands back its id. A path already stored is
    /// refused.
    pub fn create_video(&mut self, video: &Video) -> (r: Result<u64, Error>)
        ensures
            match r {
                Ok(_) => final(self).history() == old(self).history() + video_create_plan(*video),
                Err(e) => final(self).history() == old(self).history() || final(self).history()
                    == old(self).history() + video_create_plan(*video),
            },
    {
        let statements = video_create_statements(video);
        self.transaction(&statements, "create_video")?;
        let rows = self.query(VIDEO_ID_BY_PATH, &params1(video.path.clone()), "create_video")?;
        if rows.len() == 0 {
            return Err(Error::new(ErrorKind::NotFound, String::from_str("video not stored"), "create_video"));
        }
        get_u64(&rows[0], 0, "create_video")
    }

    /// The video with id `video_id`, with the watch time of `user`.
    pub fn get_video(&self, user: &String, video_id: u64) -> (r: Result<Option<Video>, Error>)
        ensures
            r matches Ok(Some(v)) ==> v.user@ == user@,
            r matches Ok(Some(x)) ==> exists|row: Seq<Cell>| #[trigger] x.decodes(user@, row),
    {
        let rows = self.query(VIDEO_BY_ID, &params2(user.clone(), decimal_string(video_id)), "get_video")?;
        Video::first_of(user, &rows)
    }

    /// The videos that pass `filters`, ordered and paged as asked.
    pub fn get_videos(
        &self,
        user: &String,
        filters: &Vec<Filter>,
        order_by: &Option<String>,
        limit: Option<u64>,
        offset: Option<u64>,
    ) -> (r: Result<Vec<VideoResult>, Error>)
        ensures
            r matches Ok(v) ==> forall|i: int| 0 <= i < v@.len() ==> (#[trigger] v@[i]).user@ == user@,
            r matches Ok(v) ==> exists|rows: Seq<Seq<Cell>>| #[trigger] VideoResult::all_decode(v@, user@, rows),
    {
        let q = generate_sql(VIDEOS_HEAD, filters, Some(user), Some("VideosView.id"), order_by, limit, offset);
        let rows = self.query(q.sql.as_str(), &q.params, "get_videos")?;
        VideoResult::from_rows(user, &rows)
    }

    /// Assigns the video to media `media_id`.
    pub fn edit_video_media_id(&mut self, video_id: u64, media_id: u64) -> (r: Result<(), Error>)
        ensures
            match r {
                Ok(()) => final(self).history() == old(self).history().push(
                    (SET_MEDIA_ID@, seq![dec(media_id), dec(video_id)]),
                ),
                Err(e) => e.location@ == "edit_video_media_id"@ && final(self).history() == old(self).history(),
            },
    {
        let params = params2(decimal_string(media_id), decimal_string(video_id));
        self.execute(SET_MEDIA_ID, &params, "edit_video_media_id")?;
        Ok(())
    }

    /// Moves the video to `path`.
    pub fn edit_video_path(&mut self, video_id: u64, path: &str) -> (r: Result<(), Error>)
        ensures
            match r {
                Ok(()) => final(self).history() == old(self).history().push(
                    (SET_PATH@, seq![path@, dec(video_id)]),
                ),
                Err(e) => e.location@ == "edit_video_path"@ && final(self).history() == old(self).history(),
            },
    {
        let params = params2(String::from_str(path), decimal_string(video_id));
        self.execute(SET_PATH, &params, "edit_video_path")?;
        Ok(())
    }

    /// Records how far `user` watched the video, stamped now.
    pub fn set_watch_time(&mut self, user: String, video_id: u64, time: u64) -> (r: Result<(), Error>)
        ensures
            match r {
                Ok(()) => final(self).history() == old(self).history().push(
                    (replace_into(WATCH_TIME_ROW@), seq![user@, dec(video_id), dec(time)]),
                ),
                Err(e) => e.location@ == "set_watch_time"@ && final(self).history() == old(self).history(),
            },
    {
        let sql = replace_into_sql(WATCH_TIME_ROW);
        let params = crate::query::params3(user, decimal_string(video_id), decimal_string(time));
        self.execute(sql.as_str(), &params, "set_watch_time")?;
        Ok(())
    }

    /// Deletes the video's row, its watch times and its languages in one
    /// transaction. It touches no other entity.
    pub fn delete_video(&mut self, video_id: u64) -> (r: Result<(), Error>)
        ensures
            match r {
                Ok(()) => final(self).history() == old(self).history() + video_delete_plan(video_id),
                Err(e) => e.kind is TransactionFailure && e.location@ == "delete_video"@ && final(self).history() == old(self).history(),
            },
    {
        let statements = video_delete_statements(video_id);
        self.transaction(&statements, "delete_video")
    }
}

} // verus!
