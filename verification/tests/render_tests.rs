use pretty_cue::error::{CueError, Field};
use pretty_cue::model::{Disc, Track};
use pretty_cue::render::{render, timecode_string};

fn track(title: &str, performer: &str, filename: &str, start: u64, index1: u64) -> Track {
    Track {
        title: Some(title.to_string()),
        performer: Some(performer.to_string()),
        filename: filename.to_string(),
        start,
        index1,
    }
}

fn one_track_disc() -> Disc {
    Disc {
        performer: Some("A".to_string()),
        title: Some("B".to_string()),
        date: Some("2020-01-01".to_string()),
        genre: Some("Rock".to_string()),
        tracks: vec![track("T1", "A", "audio.wav", 0, 0)],
    }
}

#[test]
fn single_track_sheet_is_exact() {
    let out = render(&one_track_disc()).unwrap();
    assert_eq!(
        out,
        "PERFORMER \"A\"\n\
         TITLE \"B\"\n\
         REM DATE \"2020-01-01\"\n\
         GENRE \"Rock\"\n\
         FILE \"audio.wav\" WAVE\n\
         \x20 TRACK 01 AUDIO\n\
         \x20   TITLE \"T1\"\n\
         \x20   PERFORMER \"A\"\n\
         \x20   INDEX 01 00:00:00\n"
    );
}

#[test]
fn first_track_has_no_pregap_line() {
    let out = render(&one_track_disc()).unwrap();
    assert!(!out.contains("INDEX 00"));
    assert!(out.contains("    INDEX 01 00:00:00\n"));
}

#[test]
fn second_track_pregap_and_start() {
    let mut disc = one_track_disc();
    disc.tracks.push(track("T2", "A", "audio.wav", 5000, 150));
    let out = render(&disc).unwrap();
    // Pre-gap from the raw start, track start from start + offset.
    assert!(out.contains("    INDEX 00 01:06:50\n"));
    assert!(out.contains("    INDEX 01 01:08:50\n"));
}

#[test]
fn numbering_is_sequential_and_positional() {
    let mut disc = one_track_disc();
    disc.tracks.push(track("T2", "A", "audio.wav", 5000, 0));
    disc.tracks.push(track("T3", "A", "audio.wav", 9000, 0));
    let out = render(&disc).unwrap();
    let t1 = out.find("  TRACK 01 AUDIO\n").unwrap();
    let t2 = out.find("  TRACK 02 AUDIO\n").unwrap();
    let t3 = out.find("  TRACK 03 AUDIO\n").unwrap();
    assert!(t1 < t2 && t2 < t3);
    assert!(!out.contains("TRACK 04"));
}

#[test]
fn minutes_wider_than_two_digits_keep_all_digits() {
    let mut disc = one_track_disc();
    disc.tracks.push(track("T2", "A", "audio.wav", 100 * 60 * 75, 0));
    let out = render(&disc).unwrap();
    assert!(out.contains("    INDEX 01 100:00:00\n"));
}

#[test]
fn missing_genre_names_the_field() {
    let mut disc = one_track_disc();
    disc.genre = None;
    let err = render(&disc).unwrap_err();
    assert_eq!(err, CueError::MissingField(Field::Genre));
    assert_eq!(err.message(), "genre is not found");
}

#[test]
fn missing_fields_reported_in_emission_order() {
    let mut disc = one_track_disc();
    disc.title = None;
    disc.genre = None;
    // The disc title line would be emitted before the genre line.
    assert_eq!(render(&disc).unwrap_err(), CueError::MissingField(Field::Title));

    let mut disc = one_track_disc();
    disc.tracks[0].title = None;
    disc.tracks[0].performer = None;
    assert_eq!(render(&disc).unwrap_err(), CueError::MissingField(Field::TrackTitle));

    let mut disc = one_track_disc();
    disc.tracks[0].performer = None;
    assert_eq!(render(&disc).unwrap_err(), CueError::MissingField(Field::TrackPerformer));
}

#[test]
fn disc_fields_reported_before_track_fields() {
    let mut disc = one_track_disc();
    disc.performer = None;
    disc.tracks[0].title = None;
    assert_eq!(render(&disc).unwrap_err(), CueError::MissingField(Field::Performer));
}

#[test]
fn timecode_string_format() {
    assert_eq!(timecode_string(0), "00:00:00");
    assert_eq!(timecode_string(5000), "01:06:50");
    assert_eq!(timecode_string(5150), "01:08:50");
}

#[test]
fn well_formedness_check() {
    let disc = one_track_disc();
    assert!(disc.check_wf());

    let empty = Disc {
        performer: Some("A".to_string()),
        title: Some("B".to_string()),
        date: Some("2020-01-01".to_string()),
        genre: Some("Rock".to_string()),
        tracks: vec![],
    };
    assert!(!empty.check_wf());

    let overflowing = Disc { tracks: vec![track("T1", "A", "audio.wav", u64::MAX, 1)], ..empty };
    assert!(!overflowing.check_wf());
}

#[test]
fn error_messages_by_kind() {
    assert_eq!(CueError::InputAccess.message(), "input file cannot be read");
    assert_eq!(CueError::Parse.message(), "input is not a valid cue sheet");
    assert_eq!(CueError::OutputAccess.message(), "output file cannot be written");
    assert_eq!(
        CueError::MissingField(Field::TrackPerformer).message(),
        "track performer is not found"
    );
}
