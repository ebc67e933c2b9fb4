use tracker_core::channel::Interpolation;
use tracker_core::fixed_point::ONE;
use tracker_core::lut::LINEAR_UP;
use tracker_core::module::{
    Column, Effect, LoopType, Module, Note, PlaybackMode, Row, Sample, VolEffect,
};
use tracker_core::player::{Player, ROW_NOT_STARTED};

fn fx(whole: u32) -> u64 {
    (whole as u64) << 32
}

fn empty_row() -> Row {
    [Column::empty(); 64]
}

fn row_with(cells: &[(usize, Column)]) -> Row {
    let mut row = empty_row();
    for (index, col) in cells {
        row[*index] = *col;
    }
    row
}

fn cell(note: Note, instrument: u8, vol: VolEffect, effect: Effect) -> Column {
    Column { note, instrument, vol, effect }
}

fn effect_only(effect: Effect) -> Column {
    cell(Note::Empty, 0, VolEffect::Empty, effect)
}

fn constant_sample(value: i16, frames: usize) -> Sample {
    Sample {
        audio: vec![value; frames],
        loop_start: 0,
        loop_end: 0,
        loop_type: LoopType::Disabled,
        base_frequency: 8363,
        default_volume: 64,
        global_volume: 64,
    }
}

fn module(mode: PlaybackMode, patterns: Vec<Vec<Row>>, playlist: Vec<u8>) -> Module {
    Module {
        mode,
        samples: vec![constant_sample(1000, 100_000)],
        patterns,
        playlist,
        initial_tempo: 125,
        initial_speed: 6,
        initial_global_volume: 64,
        mixing_volume: 48,
        linear_freq_slides: true,
        fast_volume_slides: false,
    }
}

fn run(player: &mut Player, frames: usize) -> Vec<i32> {
    let mut out = Vec::with_capacity(frames);
    for _ in 0..frames {
        out.push(player.process());
    }
    out
}

#[test]
fn a_new_player_stands_before_the_first_row() {
    let m = module(PlaybackMode::IT, vec![vec![empty_row(); 4]], vec![0, 255]);
    assert!(m.is_valid());
    let player = Player::from_module(&m, 48000);
    assert_eq!(player.samplerate, 48000);
    assert_eq!(player.interpolation, Interpolation::Linear);
    assert_eq!(player.global_volume, 64);
    assert_eq!(player.current_position, 0);
    assert_eq!(player.current_pattern, 0);
    assert_eq!(player.current_row, ROW_NOT_STARTED);
    assert_eq!(player.current_row, 0xFFFF);
    assert_eq!(player.current_tempo, 125);
    assert_eq!(player.current_speed, 6);
    assert_eq!(player.tick_counter, 0);
    assert_eq!(player.ticks_passed, 0);
    assert!(!player.finished);
    assert!(!player.unsupported_effect);
    assert_eq!(player.channels.len(), 64);
    for channel in &player.channels {
        assert_eq!(channel.freq, fx(8363));
        assert_eq!(channel.base_freq, fx(8363));
        assert_eq!(channel.volume, 64);
        assert_eq!(channel.position, 0);
        assert!(!channel.playing);
        assert!(!channel.backwards);
        assert_eq!(channel.arpeggio_selector, 0);
    }
}

#[test]
fn a_new_player_takes_the_first_pattern_of_the_playlist() {
    let m = module(
        PlaybackMode::IT,
        vec![vec![empty_row(); 4], vec![empty_row(); 4], vec![empty_row(); 4]],
        vec![2, 0, 255],
    );
    let player = Player::from_module(&m, 44100);
    assert_eq!(player.current_position, 0);
    assert_eq!(player.current_pattern, 2);
}

#[test]
fn initial_global_volume_is_held_under_the_ceiling() {
    let mut m = module(PlaybackMode::S3M(0), vec![vec![empty_row(); 4]], vec![0, 255]);
    m.initial_global_volume = 200;
    assert_eq!(Player::from_module(&m, 48000).global_volume, 64);
    m.mode = PlaybackMode::IT;
    assert_eq!(Player::from_module(&m, 48000).global_volume, 128);
    m.initial_global_volume = 100;
    assert_eq!(Player::from_module(&m, 48000).global_volume, 100);
}

#[test]
fn silence_on_init() {
    let mut rows = vec![empty_row(); 4];
    rows[1] = row_with(&[(0, cell(Note::On(60), 1, VolEffect::Empty, Effect::Empty(0)))]);
    let m = module(PlaybackMode::IT, vec![rows], vec![0, 255]);
    let mut player = Player::from_module(&m, 48000);
    let out = run(&mut player, 5760);
    assert_eq!(out.len(), 5760);
    assert!(out.iter().all(|frame| *frame == 0));
    assert_eq!(player.current_row, 0);
}

#[test]
fn the_first_row_is_entered_with_the_sixth_tick() {
    let first = row_with(&[(0, cell(Note::On(60), 1, VolEffect::Empty, Effect::Empty(0)))]);
    let m = module(PlaybackMode::IT, vec![vec![first, empty_row()]], vec![0, 255]);
    let mut player = Player::from_module(&m, 48000);
    let out = run(&mut player, 5759);
    assert!(out.iter().all(|frame| *frame == 0));
    assert_eq!(player.current_row, ROW_NOT_STARTED);
    assert_eq!(player.ticks_passed, 5);
    assert_eq!(player.tick_counter, 959);
    assert_eq!(player.process(), 0);
    assert_eq!(player.current_row, 0);
    assert_eq!(player.ticks_passed, 0);
    assert_eq!(player.tick_counter, 0);
    assert!(player.channels[0].playing);
    // 1000 at full volume, times the mixing volume, the global volume and two
    assert_eq!(player.process(), 1000 * 48 * 64 * 2);
}

#[test]
fn rows_advance_every_5760_samples() {
    let m = module(PlaybackMode::IT, vec![vec![empty_row(); 8]], vec![0, 255]);
    let mut player = Player::from_module(&m, 48000);
    let mut entered = Vec::new();
    let mut row = player.current_row;
    for frame in 1..=(5 * 5760) {
        player.process();
        if player.current_row != row {
            row = player.current_row;
            entered.push((frame, row));
        }
    }
    assert_eq!(entered, vec![(5760, 0), (11520, 1), (17280, 2), (23040, 3), (28800, 4)]);
}

#[test]
fn ticks_come_every_960_samples() {
    let m = module(PlaybackMode::IT, vec![vec![empty_row(); 8]], vec![0, 255]);
    let mut player = Player::from_module(&m, 48000);
    run(&mut player, 5760);
    let mut ticks = Vec::new();
    let mut seen = player.ticks_passed;
    for frame in 1..=5760 {
        player.process();
        if player.ticks_passed != seen {
            seen = player.ticks_passed;
            ticks.push((frame, seen));
        }
    }
    assert_eq!(ticks, vec![(960, 1), (1920, 2), (2880, 3), (3840, 4), (4800, 5), (5760, 0)]);
}

#[test]
fn set_speed_and_tempo_change_the_length_of_a_row() {
    let first = row_with(&[
        (0, effect_only(Effect::SetSpeed(3))),
        (1, effect_only(Effect::SetTempo(250))),
    ]);
    let m = module(PlaybackMode::IT, vec![vec![first, empty_row(), empty_row()]], vec![0, 255]);
    let mut player = Player::from_module(&m, 48000);
    run(&mut player, 5760);
    assert_eq!(player.current_row, 0);
    assert_eq!(player.current_speed, 3);
    assert_eq!(player.current_tempo, 250);
    run(&mut player, 3 * 480 - 1);
    assert_eq!(player.current_row, 0);
    player.process();
    assert_eq!(player.current_row, 1);
}

#[test]
fn volume_column() {
    let first = row_with(&[(0, cell(Note::On(60), 1, VolEffect::Volume(32), Effect::Empty(0)))]);
    let m = module(PlaybackMode::IT, vec![vec![first, empty_row()]], vec![0, 255]);
    let mut player = Player::from_module(&m, 48000);
    run(&mut player, 5760);
    assert_eq!(player.current_row, 0);
    assert_eq!(player.channels[0].volume, 32);
    assert_eq!(player.channels[0].current_sample_index, 0);
    assert_eq!(player.channels[0].current_note, 60);
    assert_eq!(player.channels[0].freq, fx(8363));
    assert!(player.channels[0].playing);
    assert_eq!(player.process(), 500 * 48 * 64 * 2);
}

#[test]
fn without_a_volume_column_the_instrument_sets_its_default_volume() {
    let first = row_with(&[(0, cell(Note::On(60), 1, VolEffect::Empty, Effect::Empty(0)))]);
    let mut m = module(PlaybackMode::IT, vec![vec![first, empty_row()]], vec![0, 255]);
    m.samples[0].default_volume = 40;
    let mut player = Player::from_module(&m, 48000);
    run(&mut player, 5760);
    assert_eq!(player.channels[0].volume, 40);
    m.samples[0].default_volume = 200;
    let mut player = Player::from_module(&m, 48000);
    run(&mut player, 5760);
    assert_eq!(player.channels[0].volume, 64);
}

#[test]
fn a_volume_above_64_is_held_at_64() {
    let first = row_with(&[(0, cell(Note::On(60), 1, VolEffect::Volume(99), Effect::Empty(0)))]);
    let m = module(PlaybackMode::IT, vec![vec![first, empty_row()]], vec![0, 255]);
    let mut player = Player::from_module(&m, 48000);
    run(&mut player, 5760);
    assert_eq!(player.channels[0].volume, 64);
}

#[test]
fn tone_portamento_memory() {
    let first = row_with(&[(0, cell(Note::On(60), 1, VolEffect::Empty, Effect::TonePorta(0x20)))]);
    let second = row_with(&[(0, cell(Note::On(72), 0, VolEffect::Empty, Effect::TonePorta(0x00)))]);
    let m = module(
        PlaybackMode::IT,
        vec![vec![first, second, empty_row(), empty_row()]],
        vec![0, 255],
    );
    let mut player = Player::from_module(&m, 48000);
    // row 0: the note is the target and does not start; the frequency is on it already
    run(&mut player, 2 * 5760 - 1);
    assert_eq!(player.current_row, 0);
    assert!(!player.channels[0].playing);
    assert_eq!(player.channels[0].porta_memory, 0x20);
    assert_eq!(player.channels[0].last_note, 60);
    assert_eq!(player.channels[0].freq, fx(8363));
    // row 1, tick 0: nothing moves yet
    player.process();
    assert_eq!(player.current_row, 1);
    assert_eq!(player.channels[0].freq, fx(8363));
    // ticks 1 to 5 slide by the remembered 0x20 each
    let mut expected = fx(8363);
    for tick in 1..=5u8 {
        run(&mut player, 960);
        assert_eq!(player.ticks_passed, tick);
        expected = ((expected as u128 * LINEAR_UP[0x20] as u128) >> 32) as u64;
        assert_eq!(player.channels[0].freq, expected);
        assert_eq!(player.channels[0].last_note, 72);
        assert_eq!(player.channels[0].porta_memory, 0x20);
    }
    assert!(expected > fx(8363));
    assert!(expected < fx(16726));
    assert_eq!(expected >> 32, 9662);
}

#[test]
fn pattern_break_bcd_in_s3m() {
    let first = row_with(&[(3, effect_only(Effect::PatBreak(0x14)))]);
    let patterns = vec![vec![first], vec![empty_row(); 32]];
    let m = module(PlaybackMode::S3M(0), patterns.clone(), vec![0, 1, 255]);
    let mut player = Player::from_module(&m, 48000);
    run(&mut player, 2 * 5760);
    assert_eq!(player.current_position, 1);
    assert_eq!(player.current_pattern, 1);
    assert_eq!(player.current_row, 14);

    let m = module(PlaybackMode::IT, patterns, vec![0, 1, 255]);
    let mut player = Player::from_module(&m, 48000);
    run(&mut player, 2 * 5760);
    assert_eq!(player.current_position, 1);
    assert_eq!(player.current_pattern, 1);
    assert_eq!(player.current_row, 20);
}

#[test]
fn pattern_break_at_the_end_of_the_playlist_wraps_to_its_start() {
    let first = row_with(&[(0, effect_only(Effect::PatBreak(2)))]);
    let m = module(PlaybackMode::IT, vec![vec![first, empty_row(), empty_row()]], vec![0, 255]);
    let mut player = Player::from_module(&m, 48000);
    run(&mut player, 2 * 5760);
    assert!(!player.finished);
    assert_eq!(player.current_position, 0);
    assert_eq!(player.current_pattern, 0);
    assert_eq!(player.current_row, 2);
}

#[test]
fn pattern_break_past_the_end_of_a_pattern_goes_on_to_the_next_position() {
    let first = row_with(&[(0, effect_only(Effect::PatBreak(40)))]);
    let patterns = vec![vec![first], vec![empty_row(); 8], vec![empty_row(); 8]];
    let m = module(PlaybackMode::IT, patterns, vec![0, 1, 2, 255]);
    let mut player = Player::from_module(&m, 48000);
    run(&mut player, 2 * 5760);
    assert!(!player.finished);
    assert_eq!(player.current_position, 2);
    assert_eq!(player.current_pattern, 2);
    assert_eq!(player.current_row, 0);
}

#[test]
fn position_jump_goes_to_the_first_row_of_its_position() {
    let first = row_with(&[(5, effect_only(Effect::PosJump(2)))]);
    let patterns = vec![vec![first, empty_row()], vec![empty_row(); 8], vec![empty_row(); 8]];
    let m = module(PlaybackMode::IT, patterns, vec![0, 1, 2, 255]);
    let mut player = Player::from_module(&m, 48000);
    run(&mut player, 2 * 5760);
    assert_eq!(player.current_position, 2);
    assert_eq!(player.current_pattern, 2);
    assert_eq!(player.current_row, 0);
}

#[test]
fn position_jump_with_pattern_break_goes_to_the_row_after_the_jump() {
    let first = row_with(&[
        (0, effect_only(Effect::PatBreak(3))),
        (1, effect_only(Effect::PosJump(1))),
    ]);
    let patterns = vec![vec![first, empty_row()], vec![empty_row(); 8], vec![empty_row(); 8]];
    let m = module(PlaybackMode::IT, patterns, vec![0, 1, 2, 255]);
    let mut player = Player::from_module(&m, 48000);
    run(&mut player, 2 * 5760);
    assert_eq!(player.current_position, 2);
    assert_eq!(player.current_pattern, 2);
    assert_eq!(player.current_row, 3);
}

#[test]
fn the_last_jump_and_the_last_break_of_a_row_count() {
    let first = row_with(&[
        (0, effect_only(Effect::PosJump(1))),
        (7, effect_only(Effect::PosJump(2))),
        (9, effect_only(Effect::PatBreak(1))),
        (63, effect_only(Effect::PatBreak(5))),
    ]);
    let patterns = vec![vec![first], vec![empty_row(); 8], vec![empty_row(); 8], vec![empty_row(); 8]];
    let m = module(PlaybackMode::IT, patterns, vec![0, 1, 2, 3, 255]);
    let mut player = Player::from_module(&m, 48000);
    run(&mut player, 2 * 5760);
    assert_eq!(player.current_position, 3);
    assert_eq!(player.current_row, 5);
}

#[test]
fn skip_markers_are_stepped_over() {
    let patterns = vec![vec![empty_row()], vec![empty_row(); 2]];
    let m = module(PlaybackMode::IT, patterns, vec![0, 254, 254, 1, 255]);
    assert!(m.is_valid());
    let mut player = Player::from_module(&m, 48000);
    run(&mut player, 2 * 5760);
    assert_eq!(player.current_position, 3);
    assert_eq!(player.current_pattern, 1);
    assert_eq!(player.current_row, 0);
}

#[test]
fn end_of_song() {
    let m = module(PlaybackMode::IT, vec![vec![empty_row()]], vec![0, 255]);
    let mut player = Player::from_module(&m, 48000);
    run(&mut player, 5760);
    assert_eq!(player.current_row, 0);
    assert!(!player.finished);
    run(&mut player, 5759);
    assert!(!player.finished);
    player.process();
    assert!(player.finished);
    let out = run(&mut player, 20_000);
    assert!(out.iter().all(|frame| *frame == 0));
    assert!(player.finished);
}

#[test]
fn a_finished_player_is_silent_and_does_not_move() {
    let first = row_with(&[(0, cell(Note::On(60), 1, VolEffect::Empty, Effect::Empty(0)))]);
    let m = module(PlaybackMode::IT, vec![vec![first]], vec![0, 255]);
    let mut player = Player::from_module(&m, 48000);
    let out = run(&mut player, 2 * 5760);
    assert!(out[5760..].iter().all(|frame| *frame == 1000 * 48 * 64 * 2));
    assert!(player.finished);
    assert!(player.channels[0].playing);
    let position = player.channels[0].position;
    let counter = player.tick_counter;
    assert_eq!(player.process(), 0);
    assert_eq!(player.channels[0].position, position);
    assert_eq!(player.tick_counter, counter);
}

#[test]
fn the_song_ends_where_the_playlist_ends_without_a_marker() {
    let m = module(PlaybackMode::IT, vec![vec![empty_row()]], vec![0]);
    assert!(m.is_valid());
    let mut player = Player::from_module(&m, 48000);
    run(&mut player, 2 * 5760);
    assert!(player.finished);
}

#[test]
fn a_jump_to_the_end_marker_ends_the_song() {
    let first = row_with(&[(0, effect_only(Effect::PosJump(1)))]);
    let m = module(PlaybackMode::IT, vec![vec![first, empty_row()]], vec![0, 255]);
    let mut player = Player::from_module(&m, 48000);
    run(&mut player, 2 * 5760);
    assert!(player.finished);
    let first = row_with(&[(0, effect_only(Effect::PosJump(200)))]);
    let m = module(PlaybackMode::IT, vec![vec![first, empty_row()]], vec![0, 255]);
    let mut player = Player::from_module(&m, 48000);
    run(&mut player, 2 * 5760);
    assert!(player.finished);
}

#[test]
fn mix_gain_doubles_outside_impulse_tracker() {
    let first = row_with(&[(0, cell(Note::On(60), 1, VolEffect::Empty, Effect::Empty(0)))]);
    let m = module(PlaybackMode::S3M(0), vec![vec![first, empty_row()]], vec![0, 255]);
    let mut player = Player::from_module(&m, 48000);
    run(&mut player, 5760);
    assert_eq!(player.process(), 1000 * 48 * 64 * 4);
    let mut m = m;
    m.mode = PlaybackMode::MOD;
    let mut player = Player::from_module(&m, 48000);
    run(&mut player, 5760);
    assert_eq!(player.process(), 1000 * 48 * 64 * 4);
    assert_eq!(ONE, 1 << 32);
}

#[test]
fn voices_are_summed() {
    let note = cell(Note::On(60), 1, VolEffect::Empty, Effect::Empty(0));
    let first = row_with(&[(0, note), (1, note), (63, cell(Note::On(60), 1, VolEffect::Volume(16), Effect::Empty(0)))]);
    let m = module(PlaybackMode::IT, vec![vec![first, empty_row()]], vec![0, 255]);
    let mut player = Player::from_module(&m, 48000);
    run(&mut player, 5760);
    assert_eq!(player.process(), (1000 + 1000 + 250) * 48 * 64 * 2);
}

#[test]
fn the_mix_saturates() {
    let note = cell(Note::On(60), 1, VolEffect::Empty, Effect::Empty(0));
    let cells: Vec<(usize, Column)> = (0..64).map(|i| (i, note)).collect();
    let mut m = module(PlaybackMode::S3M(0), vec![vec![row_with(&cells), empty_row()]], vec![0, 255]);
    m.samples[0] = constant_sample(32767, 1000);
    m.mixing_volume = 255;
    let mut player = Player::from_module(&m, 48000);
    run(&mut player, 5760);
    assert_eq!(player.process(), i32::MAX);
    m.samples[0] = constant_sample(-32768, 1000);
    let mut player = Player::from_module(&m, 48000);
    run(&mut player, 5760);
    assert_eq!(player.process(), i32::MIN);
}

#[test]
fn fill_is_process_frame_by_frame() {
    let first = row_with(&[(0, cell(Note::On(72), 1, VolEffect::Volume(20), Effect::Empty(0)))]);
    let mut m = module(PlaybackMode::IT, vec![vec![first, empty_row()]], vec![0, 255]);
    m.samples[0].audio = (0..2000).map(|i| (i * 7 % 3001) as i16 - 1500).collect();
    let mut one = Player::from_module(&m, 48000);
    let mut other = Player::from_module(&m, 48000);
    let mut buffer = vec![7i32; 8000];
    one.fill(&mut buffer);
    let frames = run(&mut other, 8000);
    assert_eq!(buffer, frames);
    assert!(buffer.iter().any(|frame| *frame != 0));
    assert_eq!(one.tick_counter, other.tick_counter);
    assert_eq!(one.channels[0], other.channels[0]);
}

#[test]
fn a_row_lasts_the_speed_times_the_tick_length() {
    for (samplerate, tempo, speed, length) in
        [(44100u32, 150u8, 4u8, 735usize), (8000, 255, 1, 78), (22050, 32, 3, 1722), (48000, 125, 6, 960)]
    {
        let mut m = module(PlaybackMode::IT, vec![vec![empty_row(); 6]], vec![0, 255]);
        m.initial_tempo = tempo;
        m.initial_speed = speed;
        let mut player = Player::from_module(&m, samplerate);
        let row_length = speed as usize * length;
        run(&mut player, row_length);
        assert_eq!(player.current_row, 0);
        for row in 1..5u16 {
            run(&mut player, row_length - 1);
            assert_eq!(player.current_row, row - 1);
            assert_eq!(player.ticks_passed, speed - 1);
            assert_eq!(player.tick_counter as usize, length - 1);
            player.process();
            assert_eq!(player.current_row, row);
            assert_eq!(player.ticks_passed, 0);
            assert_eq!(player.tick_counter, 0);
        }
    }
}

#[test]
fn the_default_interpolation_reads_the_nearest_frame() {
    assert_eq!(Interpolation::default(), Interpolation::Nearest);
}

#[test]
fn every_interpolation_gives_the_same_frames() {
    let first = row_with(&[(0, cell(Note::On(67), 1, VolEffect::Volume(40), Effect::Empty(0)))]);
    let mut m = module(PlaybackMode::IT, vec![vec![first, empty_row()]], vec![0, 255]);
    m.samples[0].audio = (0..3000).map(|i| ((i * 37) % 2001) as i16 - 1000).collect();
    let mut reference = Player::from_module(&m, 32000);
    reference.interpolation = Interpolation::Nearest;
    let frames = run(&mut reference, 9000);
    assert!(frames.iter().any(|frame| *frame != 0));
    for interpolation in [
        Interpolation::Linear,
        Interpolation::Sinc16,
        Interpolation::Sinc32,
        Interpolation::Sinc64,
        Interpolation::Sinc64Fast,
    ] {
        let mut player = Player::from_module(&m, 32000);
        player.interpolation = interpolation;
        assert_eq!(run(&mut player, 9000), frames);
    }
}
