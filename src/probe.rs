use vstd::prelude::*;

use crate::text::texts;
use crate::video::Video;

verus! {

/// One track of a media file as the prober reports it.
#[derive(Debug)]
pub enum Track {
    /// The container: overall bit rate, duration and file size.
    General { bit_rate: u64, duration: u64, size: u64 },
    /// The picture stream.
    Picture { codec: Option<String>, width: u64, height: u64 },
    /// A sound stream and its language, when known.
    Audio { language: Option<String> },
    /// A subtitle stream and its language, when known.
    Text { language: Option<String> },
    /// Any other track.
    Other,
}

/// The container figures of the last general track.
pub open spec fn last_general(ts: Seq<Track>) -> Option<(u64, u64, u64)>
    decreases ts.len(),
{
    if ts.len() == 0 {
        None
    } else {
        match ts.last() {
            Track::General { bit_rate, duration, size } => Some((bit_rate, duration, size)),
            _ => last_general(ts.drop_last()),
        }
    }
}

/// The picture figures of the last picture track.
pub open spec fn last_picture(ts: Seq<Track>) -> Option<(Option<Seq<char>>, u64, u64)>
    decreases ts.len(),
{
    if ts.len() == 0 {
        None
    } else {
        match ts.last() {
            Track::Picture { codec, width, height } => Some(
                (
                    match codec {
                        Some(c) => Some(c@),
                        None => None,
                    },
                    width,
                    height,
                ),
            ),
            _ => last_picture(ts.drop_last()),
        }
    }
}

/// `langs` with `l` added at the end unless it is there already.
pub open spec fn add_unique(langs: Seq<Seq<char>>, l: Seq<char>) -> Seq<Seq<char>> {
    if langs.contains(l) {
        langs
    } else {
        langs.push(l)
    }
}

/// The distinct languages of the sound (`audio`) or subtitle tracks, in the
/// order first met.
pub open spec fn track_languages(ts: Seq<Track>, audio: bool) -> Seq<Seq<char>>
    decreases ts.len(),
{
    if ts.len() == 0 {
        Seq::empty()
    } else {
        let before = track_languages(ts.drop_last(), audio);
        match ts.last() {
            Track::Audio { language: Some(l) } => if audio {
                add_unique(before, l@)
            } else {
                before
            },
            Track::Text { language: Some(l) } => if !audio {
                add_unique(before, l@)
            } else {
                before
            },
            _ => before,
        }
    }
}

fn contains_text(v: &Vec<String>, s: &String) -> (r: bool)
    ensures
        r == texts(v@).contains(s@),
{
    let mut i: usize = 0;
    while i < v.len()
        invariant
            i <= v@.len(),
            forall|j: int| 0 <= j < i ==> v@[j]@ != s@,
        decreases v@.len() - i,
    {
        if v[i] == *s {
            proof {
                assert(texts(v@)[i as int] == s@);
            }
            return true;
        }
        i = i + 1;
    }
    proof {
        if texts(v@).contains(s@) {
            let k = choose|k: int| 0 <= k < texts(v@).len() && texts(v@)[k] == s@;
            assert(v@[k]@ == s@);
        }
    }
    false
}

fn push_unique(v: &mut Vec<String>, s: &String)
    ensures
        texts(final(v)@) == add_unique(texts(old(v)@), s@),
{
    if !contains_text(v, s) {
        let ghost before = v@;
        v.push(s.clone());
        proof {
            assert(texts(v@) =~= texts(before).push(s@));
        }
    }
}

impl Video {
    /// A new video of `path` whose figures come from its probed tracks: the
    /// container figures and picture figures of the last such tracks, and the
    /// distinct sound and subtitle languages in the order first met.
    pub fn from_tracks(user: String, path: String, media_type: u8, tracks: &Vec<Track>) -> (r: Video)
        ensures
            r.user == user,
            r.path == path,
            r.media_type == media_type,
            r.media_id is None,
            match last_general(tracks@) {
                Some((b, d, s)) => r.bit_rate == b && r.duration == d && r.size == s,
                None => r.bit_rate == 0 && r.duration == 0 && r.size == 0,
            },
            match last_picture(tracks@) {
                Some((c, w, h)) => crate::query::opt_text(r.codec) == c && r.width == w && r.height == h,
                None => r.codec is None && r.width == 0 && r.height == 0,
            },
            texts(r.audios@) == track_languages(tracks@, true),
            texts(r.subtitles@) == track_languages(tracks@, false),
    {
        let mut video = Video::new(user, path, media_type);
        let ghost start = video;
        proof {
            assert(tracks@.subrange(0, 0) =~= Seq::<Track>::empty());
            assert(texts(video.audios@) =~= Seq::<Seq<char>>::empty());
            assert(texts(video.subtitles@) =~= Seq::<Seq<char>>::empty());
        }
        let mut i: usize = 0;
        while i < tracks.len()
            invariant
                i <= tracks@.len(),
                video.user == start.user,
                video.path == start.path,
                video.media_type == start.media_type,
                video.media_id is None,
                match last_general(tracks@.subrange(0, i as int)) {
                    Some((b, d, s)) => video.bit_rate == b && video.duration == d && video.size == s,
                    None => video.bit_rate == 0 && video.duration == 0 && video.size == 0,
                },
                match last_picture(tracks@.subrange(0, i as int)) {
                    Some((c, w, h)) => crate::query::opt_text(video.codec) == c && video.width == w
                        && video.height == h,
                    None => video.codec is None && video.width == 0 && video.height == 0,
                },
                texts(video.audios@) == track_languages(tracks@.subrange(0, i as int), true),
                texts(video.subtitles@) == track_languages(tracks@.subrange(0, i as int), false),
            decreases tracks@.len() - i,
        {
            proof {
                let next = tracks@.subrange(0, i + 1);
                assert(next.drop_last() =~= tracks@.subrange(0, i as int));
                assert(next.last() == tracks@[i as int]);
            }
            match &tracks[i] {
                Track::General { bit_rate, duration, size } => {
                    video.bit_rate = *bit_rate;
                    video.duration = *duration;
                    video.size = *size;
                },
                Track::Picture { codec, width, height } => {
                    video.codec = match codec {
                        Some(c) => Some(c.clone()),
                        None => None,
                    };
                    video.width = *width;
                    video.height = *height;
                },
                Track::Audio { language } => {
                    match language {
                        Some(l) => push_unique(&mut video.audios, l),
                        None => {},
                    }
                },
                Track::Text { language } => {
                    match language {
                        Some(l) => push_unique(&mut video.subtitles, l),
                        None => {},
                    }
                },
                Track::Other => {},
            }
            i = i + 1;
        }
        proof {
            assert(tracks@.subrange(0, tracks@.len() as int) =~= tracks@);
        }
        video
    }
}

} // verus!
