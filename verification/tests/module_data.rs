use tracker_core::module::{
    note_is_valid, pattern_is_valid, row_is_valid, Column, Effect, LoopType, Module, Note,
    PlaybackMode, Row, Sample, VolEffect, CHANNEL_COUNT, MAX_ROWS, PLAYLIST_END, PLAYLIST_SKIP,
};

fn empty_row() -> Row {
    [Column::empty(); 64]
}

fn module(patterns: Vec<Vec<Row>>, playlist: Vec<u8>) -> Module {
    Module {
        mode: PlaybackMode::IT,
        samples: vec![Sample {
            audio: vec![0; 16],
            loop_start: 0,
            loop_end: 0,
            loop_type: LoopType::Disabled,
            base_frequency: 8363,
            default_volume: 64,
            global_volume: 64,
        }],
        patterns,
        playlist,
        initial_tempo: 125,
        initial_speed: 6,
        initial_global_volume: 128,
        mixing_volume: 48,
        linear_freq_slides: true,
        fast_volume_slides: false,
    }
}

#[test]
fn constants_of_the_format() {
    assert_eq!(CHANNEL_COUNT, 64);
    assert_eq!(PLAYLIST_SKIP, 254);
    assert_eq!(PLAYLIST_END, 255);
    assert_eq!(MAX_ROWS, 65535);
}

#[test]
fn an_empty_column_tells_nothing() {
    let col = Column::empty();
    assert_eq!(col.note, Note::Empty);
    assert_eq!(col.instrument, 0);
    assert_eq!(col.vol, VolEffect::Empty);
    assert_eq!(col.effect, Effect::Empty(0));
}

#[test]
fn dialects() {
    assert!(PlaybackMode::IT.is_it());
    assert!(PlaybackMode::ITSample.is_it());
    assert!(!PlaybackMode::S3M(1).is_it());
    assert!(!PlaybackMode::MOD.is_it());
    assert!(PlaybackMode::S3M(0).is_s3m());
    assert!(PlaybackMode::S3M(9).is_s3m());
    assert!(!PlaybackMode::IT.is_s3m());
    assert!(!PlaybackMode::ITSample.is_s3m());
    assert!(!PlaybackMode::MOD.is_s3m());
}

#[test]
fn notes_name_semitones_below_120() {
    assert!(note_is_valid(Note::On(0)));
    assert!(note_is_valid(Note::On(119)));
    assert!(!note_is_valid(Note::On(120)));
    assert!(!note_is_valid(Note::On(255)));
    assert!(note_is_valid(Note::Empty));
    assert!(note_is_valid(Note::Fade));
    assert!(note_is_valid(Note::Cut));
    assert!(note_is_valid(Note::Off));
}

#[test]
fn a_row_is_valid_when_all_its_notes_are() {
    let mut row = empty_row();
    assert!(row_is_valid(&row));
    row[63].note = Note::On(119);
    assert!(row_is_valid(&row));
    row[63].note = Note::On(120);
    assert!(!row_is_valid(&row));
    row[63].note = Note::Empty;
    row[0].note = Note::On(200);
    assert!(!row_is_valid(&row));
}

#[test]
fn a_pattern_has_rows() {
    assert!(!pattern_is_valid(&Vec::new()));
    assert!(pattern_is_valid(&vec![empty_row()]));
    let mut bad = empty_row();
    bad[7].note = Note::On(130);
    assert!(!pattern_is_valid(&vec![empty_row(), bad, empty_row()]));
}

#[test]
fn a_valid_module() {
    assert!(module(vec![vec![empty_row()]], vec![0, 255]).is_valid());
    assert!(module(vec![vec![empty_row()]], vec![0]).is_valid());
    assert!(module(vec![vec![empty_row()], vec![empty_row(); 3]], vec![1, 254, 0, 255, 1]).is_valid());
}

#[test]
fn the_playlist_starts_with_a_pattern() {
    assert!(!module(vec![vec![empty_row()]], Vec::new()).is_valid());
    assert!(!module(vec![vec![empty_row()]], vec![255]).is_valid());
    assert!(!module(vec![vec![empty_row()]], vec![254, 0, 255]).is_valid());
}

#[test]
fn the_playlist_names_patterns_that_exist() {
    assert!(!module(vec![vec![empty_row()]], vec![0, 1, 255]).is_valid());
    assert!(!module(vec![vec![empty_row()]], vec![1, 255]).is_valid());
    assert!(!module(Vec::new(), vec![0, 255]).is_valid());
}

#[test]
fn every_pattern_is_valid() {
    assert!(!module(vec![vec![empty_row()], Vec::new()], vec![0, 255]).is_valid());
    let mut bad = empty_row();
    bad[1].note = Note::On(120);
    assert!(!module(vec![vec![empty_row()], vec![bad]], vec![0, 255]).is_valid());
}

#[test]
fn playlist_entries_past_the_end_end_the_song() {
    let m = module(vec![vec![empty_row()]], vec![0, 254, 0]);
    assert_eq!(m.playlist_entry(0), 0);
    assert_eq!(m.playlist_entry(1), 254);
    assert_eq!(m.playlist_entry(2), 0);
    assert_eq!(m.playlist_entry(3), 255);
    assert_eq!(m.playlist_entry(256), 255);
    assert_eq!(m.playlist_entry(usize::MAX), 255);
    let long = module(vec![vec![empty_row()]], vec![0; 300]);
    assert_eq!(long.playlist_entry(255), 0);
    assert_eq!(long.playlist_entry(256), 255);
}

#[test]
fn skip_markers_lead_to_the_next_entry() {
    let m = module(vec![vec![empty_row()]], vec![0, 254, 254, 0, 254]);
    assert_eq!(m.skip_markers(0), 0);
    assert_eq!(m.skip_markers(1), 3);
    assert_eq!(m.skip_markers(2), 3);
    assert_eq!(m.skip_markers(3), 3);
    assert_eq!(m.skip_markers(4), 5);
    assert_eq!(m.skip_markers(5), 5);
    assert_eq!(m.skip_markers(256), 256);
    let all = module(vec![vec![empty_row()]], vec![254; 300]);
    assert_eq!(all.skip_markers(0), 256);
}
