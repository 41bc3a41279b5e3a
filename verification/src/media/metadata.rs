use crate::error::{Error, MediaError};
use crate::text::{contains_sub, has_substring, opt_str_view};
use vstd::prelude::*;

verus! {

/// The label reported for a video codec: the well-known names get a friendly
/// label, anything else is reported as the container spells it.
pub open spec fn codec_label(codec_id: Seq<char>) -> Seq<char> {
    if has_substring(codec_id, "HEVC"@) {
        "HEVC / h265"@
    } else if has_substring(codec_id, "AVC"@) {
        "AVC / h264"@
    } else {
        codec_id
    }
}

/// The label reported for an audio track, from its optional name and
/// optional language.
pub open spec fn audio_label(name: Option<Seq<char>>, lang: Option<Seq<char>>) -> Seq<char> {
    match (name, lang) {
        (Some(n), Some(l)) => n + " ("@ + l + ")"@,
        (None, Some(l)) => "Audio track ("@ + l + ")"@,
        (Some(n), None) => n,
        (None, None) => "Audio track"@,
    }
}

pub open spec fn audio_labels(tracks: Seq<(Option<String>, Option<String>)>) -> Seq<Seq<char>> {
    tracks.map_values(
        |t: (Option<String>, Option<String>)| audio_label(opt_str_view(t.0), opt_str_view(t.1)),
    )
}

/// What the library keeps of a container file's metadata: the playing time
/// in seconds, the video codec's label, and one label per audio track.
#[derive(Debug)]
pub struct MediaMetadata {
    pub duration: u64,
    pub video_codec: String,
    pub audio_tracks: Vec<String>,
}

pub fn parse_video_codec(codec_id: &str) -> (r: String)
    ensures
        r@ == codec_label(codec_id@),
{
    if contains_sub(codec_id, "HEVC") {
        String::from_str("HEVC / h265")
    } else if contains_sub(codec_id, "AVC") {
        String::from_str("AVC / h264")
    } else {
        String::from_str(codec_id)
    }
}

pub fn map_audio_track(name: &Option<String>, lang: &Option<String>) -> (r: String)
    ensures
        r@ == audio_label(opt_str_view(*name), opt_str_view(*lang)),
{
    match (name, lang) {
        (Some(n), Some(l)) => {
            let mut s = n.clone();
            s.append(" (");
            s.append(l.as_str());
            s.append(")");
            s
        }
        (None, Some(l)) => {
            let mut s = String::from_str("Audio track (");
            s.append(l.as_str());
            s.append(")");
            s
        }
        (Some(n), None) => n.clone(),
        (None, None) => String::from_str("Audio track"),
    }
}

impl MediaMetadata {
    /// Builds the metadata record from what was read out of a container
    /// file: the duration if the container reported one, the codec ids of
    /// its video tracks in order, and the name and language of each audio
    /// track. A container without a duration lacks required metadata; one
    /// without a video track is no movie file: each is the corresponding
    /// media error, never a silent default.
    pub fn from_parts(
        duration_secs: Option<u64>,
        video_codecs: &Vec<String>,
        audio_tracks: &Vec<(Option<String>, Option<String>)>,
    ) -> (r: Result<Self, Error>)
        ensures
            duration_secs is None ==> r == Err::<Self, Error>(
                Error::Media(MediaError::IncompleteMetadata),
            ),
            duration_secs is Some && video_codecs@.len() == 0 ==> r == Err::<Self, Error>(
                Error::Media(MediaError::NoVideoTrack),
            ),
            duration_secs matches Some(d) ==> video_codecs@.len() > 0 ==> (r matches Ok(m)
                && m.duration == d && m.video_codec@ == codec_label(video_codecs@[0]@)
                && m.audio_tracks.deep_view() == audio_labels(audio_tracks@)),
    {
        let duration = match duration_secs {
            Some(d) => d,
            None => {
                return Err(Error::Media(MediaError::IncompleteMetadata));
            }
        };
        if video_codecs.len() == 0 {
            return Err(Error::Media(MediaError::NoVideoTrack));
        }
        let video_codec = parse_video_codec(video_codecs[0].as_str());

        let mut labels: Vec<String> = Vec::new();
        let mut i: usize = 0;
        while i < audio_tracks.len()
            invariant
                i == labels@.len(),
                i <= audio_tracks@.len(),
                forall|k: int|
                    0 <= k < i ==> (#[trigger] labels@[k])@ == audio_label(
                        opt_str_view(audio_tracks@[k].0),
                        opt_str_view(audio_tracks@[k].1),
                    ),
            decreases audio_tracks@.len() - i,
        {
            let track = &audio_tracks[i];
            labels.push(map_audio_track(&track.0, &track.1));
            i = i + 1;
        }
        proof {
            assert(labels.deep_view() =~= audio_labels(audio_tracks@));
        }

        Ok(Self { duration, video_codec, audio_tracks: labels })
    }
}

} // verus!
