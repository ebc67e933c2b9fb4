use tracker_core::channel::{
    amiga_period, freq_from_period, glide, note_freq, period, retrigger_volume, scale,
    slide_volume, PERIOD,
};
use tracker_core::fixed_point::ONE;
use tracker_core::lut::{
    FINE_LINEAR_DOWN, FINE_LINEAR_UP, LINEAR_DOWN, LINEAR_UP, PITCH_TABLE,
};
use tracker_core::player::{break_row, max_global_volume, samples_per_tick, saturating_sum};
use tracker_core::module::PlaybackMode;

fn fx(whole: u32) -> u64 {
    (whole as u64) << 32
}

fn nearest(exponent: f64) -> f64 {
    (2f64.powf(exponent) * 4294967296.0).round()
}

#[test]
fn period_is_the_base_over_the_frequency() {
    assert_eq!(PERIOD, 14_317_056);
    assert_eq!(period(1), 14_317_056);
    assert_eq!(period(8363), 1711);
    assert_eq!(period(440), 32538);
    assert_eq!(period(14_317_056), 1);
    assert_eq!(period(14_317_057), 0);
}

#[test]
fn frequency_of_a_period_is_exact_in_q32() {
    assert_eq!(freq_from_period(1), fx(14_317_056));
    assert_eq!(freq_from_period(14_317_056), ONE);
    let expected = ((14_317_056u128 << 32) / 32538) as u64;
    assert_eq!(freq_from_period(32538), expected);
    assert_eq!(freq_from_period(32538) >> 32, 440);
    let small = ((14_317_056u128 << 32) / 4_000_000_000) as u64;
    assert_eq!(freq_from_period(4_000_000_000), small);
}

#[test]
fn amiga_period_takes_the_whole_part() {
    assert_eq!(amiga_period(fx(440)), 32538);
    assert_eq!(amiga_period(fx(440) + 0xE666_0000), 32538);
    assert_eq!(amiga_period(fx(441)), 32464);
    assert_eq!(amiga_period(fx(8363)), 1711);
}

#[test]
fn amiga_period_is_held_between_one_and_the_base() {
    assert_eq!(amiga_period(0), PERIOD);
    assert_eq!(amiga_period(ONE - 1), PERIOD);
    assert_eq!(amiga_period(ONE), PERIOD);
    assert_eq!(amiga_period(fx(14_317_056)), 1);
    assert_eq!(amiga_period(fx(14_317_057)), 1);
    assert_eq!(amiga_period(u64::MAX), 1);
}

#[test]
fn note_frequency_scales_the_base_frequency() {
    assert_eq!(note_freq(60, 8363), fx(8363));
    assert_eq!(note_freq(72, 8363), fx(16726));
    assert_eq!(note_freq(48, 8363), fx(8363) / 2);
    assert_eq!(note_freq(0, 32), ONE);
    assert_eq!(note_freq(60, 0), 0);
    let expected = ((PITCH_TABLE[61] as u128 * fx(8363) as u128) >> 32) as u64;
    assert_eq!(note_freq(61, 8363), expected);
    assert_eq!(note_freq(61, 8363) >> 32, 8860);
}

#[test]
fn note_frequency_saturates() {
    assert_eq!(note_freq(134, u32::MAX), u64::MAX);
}

#[test]
fn scale_counts_both_volumes_in_sixty_fourths() {
    assert_eq!(scale(1000, 64, 64), 1000);
    assert_eq!(scale(1000, 32, 64), 500);
    assert_eq!(scale(1000, 64, 32), 500);
    assert_eq!(scale(1000, 32, 32), 250);
    assert_eq!(scale(1000, 0, 64), 0);
    assert_eq!(scale(1000, 64, 0), 0);
    assert_eq!(scale(1000, 1, 1), 0);
    assert_eq!(scale(32767, 64, 64), 32767);
    assert_eq!(scale(-32768, 64, 64), -32768);
}

#[test]
fn scale_rounds_towards_minus_infinity() {
    assert_eq!(scale(3, 32, 64), 1);
    assert_eq!(scale(-3, 32, 64), -2);
    assert_eq!(scale(-1, 1, 1), -1);
    assert_eq!(scale(-1, 63, 64), -1);
    assert_eq!(scale(1, 63, 64), 0);
}

#[test]
fn scale_is_held_in_sixteen_bits() {
    assert_eq!(scale(32767, 64, 255), 32767);
    assert_eq!(scale(-32768, 64, 255), -32768);
    assert_eq!(scale(32767, 255, 255), 32767);
    assert_eq!(scale(-32768, 255, 255), -32768);
    assert_eq!(scale(1000, 128, 128), 4000);
    assert_eq!(scale(10000, 128, 128), 32767);
}

#[test]
fn scale_agrees_with_the_product_over_4096() {
    let frames = [-32768i16, -12345, -4097, -4096, -1, 0, 1, 4095, 4096, 12345, 32767];
    for raw in frames {
        for volume in [0u8, 1, 7, 32, 63, 64, 100, 255] {
            for global in [0u8, 1, 13, 64, 128, 255] {
                let product = raw as i64 * volume as i64 * global as i64;
                let expected = product.div_euclid(4096).clamp(-32768, 32767) as i16;
                assert_eq!(scale(raw, volume, global), expected);
            }
        }
    }
}

#[test]
fn pitch_table_matches_equal_temperament() {
    assert_eq!(PITCH_TABLE.len(), 135);
    assert_eq!(PITCH_TABLE[60], ONE);
    assert_eq!(PITCH_TABLE[72], 2 * ONE);
    assert_eq!(PITCH_TABLE[48], ONE / 2);
    assert_eq!(PITCH_TABLE[0], ONE / 32);
    for note in 0..135usize {
        let expected = nearest((note as f64 - 60.0) / 12.0);
        assert!((PITCH_TABLE[note] as f64 - expected).abs() <= 1.0);
    }
    for note in 0..134usize {
        assert!(PITCH_TABLE[note] < PITCH_TABLE[note + 1]);
    }
}

#[test]
fn linear_slide_tables_match_their_powers_of_two() {
    assert_eq!(LINEAR_UP[0], ONE);
    assert_eq!(LINEAR_DOWN[0], ONE);
    for x in 0..256usize {
        assert!((LINEAR_UP[x] as f64 - nearest(x as f64 / 768.0)).abs() <= 1.0);
        assert!((LINEAR_DOWN[x] as f64 - nearest(-(x as f64) / 768.0)).abs() <= 1.0);
        assert!(LINEAR_UP[x] >= ONE);
        assert!(LINEAR_DOWN[x] <= ONE);
    }
}

#[test]
fn sixty_four_linear_units_make_a_semitone() {
    assert_eq!(LINEAR_UP[64], PITCH_TABLE[61]);
    assert_eq!(LINEAR_DOWN[64], PITCH_TABLE[59]);
    assert_eq!(LINEAR_UP[64], 4550359342);
}

#[test]
fn fine_slide_tables_are_a_quarter_unit_per_step() {
    assert_eq!(FINE_LINEAR_UP.len(), 16);
    assert_eq!(FINE_LINEAR_DOWN.len(), 16);
    assert_eq!(FINE_LINEAR_UP[0], ONE);
    assert_eq!(FINE_LINEAR_DOWN[0], ONE);
    for x in 0..16usize {
        assert!((FINE_LINEAR_UP[x] as f64 - nearest(x as f64 / 3072.0)).abs() <= 1.0);
        assert!((FINE_LINEAR_DOWN[x] as f64 - nearest(-(x as f64) / 3072.0)).abs() <= 1.0);
    }
    assert_eq!(FINE_LINEAR_UP[4], LINEAR_UP[1]);
    assert_eq!(FINE_LINEAR_UP[12], LINEAR_UP[3]);
    assert_eq!(FINE_LINEAR_DOWN[8], LINEAR_DOWN[2]);
}

#[test]
fn samples_per_tick_is_the_rate_times_two_and_a_half_over_the_tempo() {
    assert_eq!(samples_per_tick(48000, 125), 960);
    assert_eq!(samples_per_tick(44100, 125), 882);
    assert_eq!(samples_per_tick(44100, 126), 875);
    assert_eq!(samples_per_tick(48000, 255), 470);
    assert_eq!(samples_per_tick(1, 1), 2);
    assert_eq!(samples_per_tick(1, 3), 0);
}

#[test]
fn samples_per_tick_is_held_in_thirty_two_bits() {
    assert_eq!(samples_per_tick(48000, 0), u32::MAX);
    assert_eq!(samples_per_tick(u32::MAX, 1), u32::MAX);
    assert_eq!(samples_per_tick(u32::MAX, 3), 3_579_139_412);
}

#[test]
fn global_volume_ceiling_depends_on_the_dialect() {
    assert_eq!(max_global_volume(&PlaybackMode::MOD), 64);
    assert_eq!(max_global_volume(&PlaybackMode::S3M(0)), 64);
    assert_eq!(max_global_volume(&PlaybackMode::S3M(3)), 64);
    assert_eq!(max_global_volume(&PlaybackMode::IT), 128);
    assert_eq!(max_global_volume(&PlaybackMode::ITSample), 128);
}

#[test]
fn pattern_break_reads_decimal_digits_in_the_older_dialects() {
    assert_eq!(break_row(PlaybackMode::S3M(0), 0x14), 14);
    assert_eq!(break_row(PlaybackMode::MOD, 0x14), 14);
    assert_eq!(break_row(PlaybackMode::IT, 0x14), 20);
    assert_eq!(break_row(PlaybackMode::ITSample, 0x14), 20);
    assert_eq!(break_row(PlaybackMode::S3M(0), 0x63), 63);
    assert_eq!(break_row(PlaybackMode::S3M(0), 0xFF), 165);
    assert_eq!(break_row(PlaybackMode::IT, 0xFF), 255);
    assert_eq!(break_row(PlaybackMode::MOD, 0), 0);
}

#[test]
fn saturating_sum_is_held_in_thirty_two_bits() {
    assert_eq!(saturating_sum(1, 2), 3);
    assert_eq!(saturating_sum(-5, 2), -3);
    assert_eq!(saturating_sum(i32::MAX, 1), i32::MAX);
    assert_eq!(saturating_sum(i32::MIN, -1), i32::MIN);
    assert_eq!(saturating_sum(i32::MAX, i32::MIN), -1);
}

#[test]
fn volume_slide_nibbles() {
    // regular up and down, on a later tick
    assert_eq!(slide_volume(32, 0x40, 1, false, 64), 36);
    assert_eq!(slide_volume(32, 0x04, 1, false, 64), 28);
    // both nibbles set and neither fine: down wins
    assert_eq!(slide_volume(32, 0x24, 1, false, 64), 28);
    // fine up and down, on the first tick
    assert_eq!(slide_volume(32, 0x4F, 0, false, 64), 36);
    assert_eq!(slide_volume(32, 0xF4, 0, false, 64), 28);
    // 0xF0 is a regular slide up by 15, 0x0F a regular slide down by 15
    assert_eq!(slide_volume(32, 0xF0, 1, false, 64), 47);
    assert_eq!(slide_volume(32, 0xF0, 0, false, 64), 32);
    assert_eq!(slide_volume(32, 0x0F, 1, false, 64), 17);
    assert_eq!(slide_volume(32, 0x0F, 0, false, 64), 32);
    // 0xFF is a fine slide up by 15
    assert_eq!(slide_volume(32, 0xFF, 0, false, 64), 47);
    assert_eq!(slide_volume(32, 0xFF, 1, false, 64), 32);
    // no parameter, no change
    assert_eq!(slide_volume(32, 0x00, 1, false, 64), 32);
}

#[test]
fn volume_slide_is_held_between_zero_and_the_ceiling() {
    assert_eq!(slide_volume(60, 0x80, 1, false, 64), 64);
    assert_eq!(slide_volume(3, 0x08, 1, false, 64), 0);
    assert_eq!(slide_volume(120, 0xF0, 1, false, 128), 128);
    assert_eq!(slide_volume(250, 0xF0, 1, false, 255), 255);
    assert_eq!(slide_volume(200, 0x00, 1, false, 64), 64);
    assert_eq!(slide_volume(2, 0xF3, 0, false, 64), 0);
}

#[test]
fn retrigger_volume_operations() {
    assert_eq!(retrigger_volume(32, 0), 32);
    assert_eq!(retrigger_volume(32, 1), 31);
    assert_eq!(retrigger_volume(32, 2), 30);
    assert_eq!(retrigger_volume(32, 3), 28);
    assert_eq!(retrigger_volume(32, 4), 24);
    assert_eq!(retrigger_volume(32, 5), 16);
    assert_eq!(retrigger_volume(32, 6), 21);
    assert_eq!(retrigger_volume(32, 7), 16);
    assert_eq!(retrigger_volume(32, 8), 32);
    assert_eq!(retrigger_volume(32, 9), 33);
    assert_eq!(retrigger_volume(32, 10), 34);
    assert_eq!(retrigger_volume(32, 11), 36);
    assert_eq!(retrigger_volume(32, 12), 40);
    assert_eq!(retrigger_volume(32, 13), 48);
    assert_eq!(retrigger_volume(32, 14), 48);
    assert_eq!(retrigger_volume(31, 14), 46);
    assert_eq!(retrigger_volume(32, 15), 64);
}

#[test]
fn retrigger_volume_saturates() {
    assert_eq!(retrigger_volume(0, 1), 0);
    assert_eq!(retrigger_volume(3, 5), 0);
    assert_eq!(retrigger_volume(64, 9), 64);
    assert_eq!(retrigger_volume(60, 13), 64);
    assert_eq!(retrigger_volume(64, 14), 64);
    assert_eq!(retrigger_volume(33, 15), 64);
    assert_eq!(retrigger_volume(0, 15), 0);
}

#[test]
fn linear_glide_stops_on_the_target() {
    let from = fx(8363);
    let to = fx(16726);
    let step = ((from as u128 * LINEAR_UP[0x20] as u128) >> 32) as u64;
    assert_eq!(glide(from, to, true, 0x20), step);
    assert!(step > from && step < to);
    assert_eq!(glide(to - 1, to, true, 0x20), to);
    assert_eq!(glide(to, to, true, 0x20), to);
    let down = ((to as u128 * LINEAR_DOWN[0x20] as u128) >> 32) as u64;
    assert_eq!(glide(to, from, true, 0x20), down);
    assert!(down < to && down > from);
    assert_eq!(glide(from + 1, from, true, 0x20), from);
    assert_eq!(glide(from, to, true, 0), from);
}

#[test]
fn amiga_glide_moves_the_period_by_four_per_unit() {
    // 8363 Hz is period 1711, 16726 Hz is period 855
    let from = fx(8363);
    let to = fx(16726);
    assert_eq!(glide(from, to, false, 0x20), freq_from_period(1711 - 128));
    assert_eq!(glide(to, from, false, 0x20), freq_from_period(855 + 128));
    assert_eq!(glide(from, to, false, 0xFF), freq_from_period(855));
    assert_eq!(glide(to, from, false, 0xFF), freq_from_period(1711));
    assert_eq!(glide(from, from, false, 0x20), freq_from_period(1711));
}
