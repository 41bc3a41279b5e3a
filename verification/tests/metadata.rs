use libmm::error::{Error, MediaError};
use libmm::media::metadata::{map_audio_track, parse_video_codec};
use libmm::media::MediaMetadata;

#[test]
fn codec_ids_get_friendly_labels() {
    assert_eq!(parse_video_codec("V_MPEGH/ISO/HEVC"), "HEVC / h265");
    assert_eq!(parse_video_codec("V_MPEG4/ISO/AVC"), "AVC / h264");
    assert_eq!(parse_video_codec("V_VP9"), "V_VP9");
}

#[test]
fn audio_tracks_get_labels() {
    assert_eq!(
        map_audio_track(&Some(String::from("Surround")), &Some(String::from("eng"))),
        "Surround (eng)"
    );
    assert_eq!(
        map_audio_track(&None, &Some(String::from("eng"))),
        "Audio track (eng)"
    );
    assert_eq!(map_audio_track(&Some(String::from("Surround")), &None), "Surround");
    assert_eq!(map_audio_track(&None, &None), "Audio track");
}

#[test]
fn missing_duration_is_incomplete_metadata() {
    let r = MediaMetadata::from_parts(None, &vec![String::from("V_VP9")], &Vec::new());
    assert!(matches!(r, Err(Error::Media(MediaError::IncompleteMetadata))));
}

#[test]
fn missing_video_track_is_an_error() {
    let r = MediaMetadata::from_parts(Some(60), &Vec::new(), &Vec::new());
    assert!(matches!(r, Err(Error::Media(MediaError::NoVideoTrack))));
}

#[test]
fn full_parts_build_the_record() {
    let tracks = vec![
        (Some(String::from("Stereo")), Some(String::from("eng"))),
        (None, None),
    ];
    let m = MediaMetadata::from_parts(
        Some(8160),
        &vec![String::from("V_MPEGH/ISO/HEVC"), String::from("V_VP9")],
        &tracks,
    )
    .unwrap();
    assert_eq!(m.duration, 8160);
    assert_eq!(m.video_codec, "HEVC / h265");
    assert_eq!(m.audio_tracks, vec!["Stereo (eng)", "Audio track"]);
}
