use modtracker::engine::channel::{ChannelState, FULL_SCALE};
use modtracker::engine::effects::{split_nibbles, Effect, RowCommand, SubEffect};
use modtracker::engine::mod_engine::ModEngine;
use modtracker::engine::Engine;
use modtracker::formats::modfile::parse;
use modtracker::song::{Note, PCMData, Sample, Song, SongMetadata};
use modtracker::tracker::Tracker;

const SILENT: Note = Note { sample: 0, period: 0, effect: 0, argument: 0 };

fn instrument(volume: u8, length: u32, repeat_offset: u32, repeat_length: u32) -> Sample {
    Sample {
        name: String::new(),
        length,
        finetune: 0,
        volume,
        repeat_offset,
        repeat_length,
    }
}

/// A song of `channels` channels and `patterns` silent patterns, played in
/// the order of `order`, with the given instruments.
fn song(channels: u8, patterns: u16, order: &[u8], instruments: Vec<(Sample, Vec<u8>)>) -> Song {
    let mut pattern_table = vec![0u8; 128];
    pattern_table[..order.len()].copy_from_slice(order);
    let (samples, data): (Vec<Sample>, Vec<Vec<u8>>) = instruments.into_iter().unzip();
    Song {
        metadata: SongMetadata {
            name: String::new(),
            pattern_count: patterns,
            channel_count: channels,
            samples,
            pattern_table,
            format: String::from("M.K."),
            end_jump: 0,
            tracker: Tracker::ProTracker,
        },
        patterns: (0..patterns)
            .map(|_| (0..64).map(|_| vec![SILENT; channels as usize]).collect())
            .collect(),
        samples: data.into_iter().map(PCMData::U8).collect(),
    }
}

fn channel_with(effect: u8, effect_arg: u8) -> ChannelState {
    ChannelState {
        effect,
        effect_arg,
        period: 428,
        base_period: 428,
        ..ChannelState::default()
    }
}

fn ticks(engine: &mut ModEngine, count: usize) {
    for _ in 0..count {
        engine.next_tick();
    }
}

#[test]
fn a_byte_splits_into_its_halves() {
    assert_eq!(split_nibbles(0x00), (0, 0));
    assert_eq!(split_nibbles(0xA7), (0xA, 0x7));
    assert_eq!(split_nibbles(0x0F), (0, 0xF));
    assert_eq!(split_nibbles(0xF0), (0xF, 0));
    assert_eq!(split_nibbles(0xFF), (0xF, 0xF));
}

#[test]
fn effects_decode_with_their_payload() {
    let decode = Effect::from_effect_and_arg_bytes;
    assert_eq!(decode(0x0, 0x37), Some(Effect::Arpeggio { x: 3, y: 7 }));
    assert_eq!(decode(0x1, 0xFF), Some(Effect::PortamentoUp(255)));
    assert_eq!(decode(0x2, 0x10), Some(Effect::PortamentoDown(16)));
    assert_eq!(decode(0x3, 0x08), Some(Effect::TonePortamento(8)));
    assert_eq!(decode(0x4, 0x8F), Some(Effect::Vibrato { speed: 8, depth: 15 }));
    assert_eq!(
        decode(0xA, 0x2C),
        Some(Effect::VolumeSlide { slide_up: 2, slide_down: 12 })
    );
    assert_eq!(decode(0xB, 0x7F), Some(Effect::PositionJump(127)));
    assert_eq!(decode(0xB, 0x80), Some(Effect::PositionJump(0)));
    assert_eq!(decode(0xC, 0x40), Some(Effect::SetVolume(64)));
    assert_eq!(decode(0xC, 0xFF), Some(Effect::SetVolume(64)));
    assert_eq!(decode(0xC, 0x21), Some(Effect::SetVolume(33)));
    assert_eq!(decode(0xD, 0x32), Some(Effect::PatternBreak(32)));
    assert_eq!(decode(0xD, 0x63), Some(Effect::PatternBreak(63)));
    assert_eq!(decode(0xD, 0x64), Some(Effect::PatternBreak(0)));
    assert_eq!(decode(0xD, 0x0F), Some(Effect::PatternBreak(15)));
    assert_eq!(decode(0xD, 0xFF), Some(Effect::PatternBreak(0)));
    assert_eq!(
        decode(0xE, 0x1A),
        Some(Effect::ExtendedEffect(SubEffect::FinePortamentoUp(10)))
    );
    assert_eq!(
        decode(0xE, 0x23),
        Some(Effect::ExtendedEffect(SubEffect::FinePortamentoDown(3)))
    );
    assert_eq!(
        decode(0xE, 0x90),
        Some(Effect::ExtendedEffect(SubEffect::RetriggerNote(0)))
    );
    assert_eq!(decode(0xF, 0x00), Some(Effect::SetSpeed(0)));
    assert_eq!(decode(0xF, 0x1F), Some(Effect::SetSpeed(31)));
    assert_eq!(decode(0xF, 0x20), Some(Effect::SetTempo(32)));
    assert_eq!(decode(0xF, 0xFF), Some(Effect::SetTempo(255)));
}

#[test]
fn codes_outside_the_table_decode_to_nothing() {
    for code in [0x5u8, 0x6, 0x7, 0x8, 0x9, 0x10, 0x1F, 0xFF] {
        for arg in [0u8, 1, 0x55, 0xFF] {
            assert_eq!(Effect::from_effect_and_arg_bytes(code, arg), None);
        }
    }
    for sub in [0x0u8, 0x3, 0x4, 0x5, 0x6, 0x7, 0x8, 0xA, 0xB, 0xC, 0xD, 0xE, 0xF] {
        assert_eq!(Effect::from_effect_and_arg_bytes(0xE, sub << 4 | 5), None);
    }
}

#[test]
fn an_unknown_effect_is_passed_over() {
    for (effect, arg) in [(0x5u8, 0x11u8), (0x9, 0xFF), (0xE, 0x00), (0xE, 0xF3), (0x40, 1)] {
        let before = channel_with(effect, arg);
        for tick in [0u8, 1, 2, 5, 255] {
            let mut channel = before;
            assert_eq!(channel.process_effects(tick), None);
            assert_eq!(channel, before);
        }
    }
}

#[test]
fn arpeggio_without_offsets_changes_nothing_in_ten_ticks() {
    let before = ChannelState {
        period: 300,
        base_period: 428,
        arp_counter: 7,
        volume: 20,
        ..channel_with(0x0, 0x00)
    };
    let mut channel = before;
    for tick in 0..10u8 {
        assert_eq!(channel.process_effects(tick), None);
        assert_eq!(channel.period, 300);
        assert_eq!(channel, before);
    }
}

#[test]
fn arpeggio_goes_round_base_and_two_offsets() {
    let mut channel = ChannelState { period: 500, ..channel_with(0x0, 0x47) };
    let mut heard = Vec::new();
    for tick in 0..8u8 {
        assert_eq!(channel.process_effects(tick), None);
        heard.push(channel.period);
    }
    assert_eq!(heard, vec![428, 428, 432, 435, 428, 432, 435, 428]);
    assert_eq!(channel.base_period, 428);
}

#[test]
fn portamento_slides_the_base_from_the_second_tick_on() {
    let mut up = channel_with(0x1, 0x10);
    let mut down = channel_with(0x2, 0x10);
    assert_eq!(up.process_effects(0), None);
    assert_eq!(down.process_effects(0), None);
    assert_eq!((up.period, down.period), (428, 428));
    for tick in 1..4u8 {
        up.process_effects(tick);
        down.process_effects(tick);
    }
    assert_eq!((up.period, up.base_period), (380, 380));
    assert_eq!((down.period, down.base_period), (476, 476));

    let mut low = ChannelState { period: 5, base_period: 5, ..channel_with(0x1, 0xFF) };
    low.process_effects(1);
    assert_eq!((low.period, low.base_period), (0, 0));
    let mut high = ChannelState {
        period: 65500,
        base_period: 65500,
        ..channel_with(0x2, 0xFF)
    };
    high.process_effects(1);
    assert_eq!((high.period, high.base_period), (65535, 65535));
}

#[test]
fn tone_portamento_reaches_its_target_and_stays() {
    let mut falling = ChannelState { target_period: 400, ..channel_with(0x3, 0x0A) };
    let mut heard = Vec::new();
    for tick in 0..6u8 {
        assert_eq!(falling.process_effects(tick), None);
        heard.push(falling.period);
    }
    assert_eq!(heard, vec![428, 418, 408, 400, 400, 400]);
    assert_eq!(falling.base_period, 400);

    let mut rising = ChannelState { target_period: 450, ..channel_with(0x3, 0x0A) };
    let mut heard = Vec::new();
    for tick in 0..5u8 {
        rising.process_effects(tick);
        heard.push(rising.period);
    }
    assert_eq!(heard, vec![428, 438, 448, 450, 450]);

    let before = channel_with(0x3, 0x0A);
    let mut aimless = before;
    aimless.process_effects(1);
    assert_eq!(aimless, before);
}

#[test]
fn vibrato_swings_round_the_base() {
    let mut channel = channel_with(0x4, 0x8F);
    let mut heard = Vec::new();
    for tick in 0..10u8 {
        assert_eq!(channel.process_effects(tick), None);
        heard.push(channel.period);
    }
    assert_eq!(
        heard,
        vec![428, 428, 449, 457, 449, 428, 407, 399, 407, 428]
    );
    assert_eq!(channel.base_period, 428);
    assert_eq!(channel.vibrato_phase, 8);
}

#[test]
fn volume_slides_stay_between_nothing_and_sixty_four() {
    let mut up = ChannelState { volume: 50, ..channel_with(0xA, 0x50) };
    assert_eq!(up.process_effects(0), None);
    assert_eq!(up.volume, 50);
    let mut heard = Vec::new();
    for tick in 1..200u8 {
        up.process_effects(tick);
        assert!(up.volume <= 64);
        heard.push(up.volume);
    }
    assert_eq!(heard[..4], [55, 60, 64, 64]);
    assert_eq!(up.volume, 64);

    let mut down = ChannelState { volume: 10, ..channel_with(0xA, 0x04) };
    let mut heard = Vec::new();
    for tick in 1..200u8 {
        down.process_effects(tick);
        heard.push(down.volume);
    }
    assert_eq!(heard[..4], [6, 2, 0, 0]);
    assert_eq!(down.volume, 0);

    let mut both = ChannelState { volume: 30, ..channel_with(0xA, 0x23) };
    both.process_effects(1);
    assert_eq!(both.volume, 32);

    let mut neither = ChannelState { volume: 30, ..channel_with(0xA, 0x00) };
    neither.process_effects(1);
    assert_eq!(neither.volume, 30);

    for volume in [65u8, 100, 255] {
        let mut loud = ChannelState { volume, ..channel_with(0xA, 0x01) };
        loud.process_effects(1);
        assert_eq!(loud.volume, 64);
        let mut loud = ChannelState { volume, ..channel_with(0xA, 0xF0) };
        loud.process_effects(1);
        assert_eq!(loud.volume, 64);
    }
}

#[test]
fn set_volume_holds_at_the_first_tick_and_at_sixty_four() {
    let mut channel = ChannelState { volume: 10, ..channel_with(0xC, 0x30) };
    assert_eq!(channel.process_effects(1), None);
    assert_eq!(channel.volume, 10);
    assert_eq!(channel.process_effects(0), None);
    assert_eq!(channel.volume, 48);
    let mut channel = channel_with(0xC, 0xFF);
    channel.process_effects(0);
    assert_eq!(channel.volume, 64);
    let mut channel = channel_with(0xC, 0x00);
    channel.process_effects(0);
    assert_eq!(channel.volume, 0);
}

#[test]
fn fine_portamento_moves_the_period_once() {
    let mut up = channel_with(0xE, 0x15);
    up.process_effects(0);
    assert_eq!((up.period, up.base_period), (423, 428));
    up.process_effects(1);
    up.process_effects(2);
    assert_eq!((up.period, up.base_period), (423, 428));
    let mut down = channel_with(0xE, 0x2F);
    down.process_effects(0);
    assert_eq!((down.period, down.base_period), (443, 428));
}

#[test]
fn retrigger_restarts_playback_every_so_many_ticks() {
    let mut channel = ChannelState { position_in_sample: 99, ..channel_with(0xE, 0x93) };
    let mut restarted = Vec::new();
    for tick in 0..7u8 {
        channel.position_in_sample = 99;
        assert_eq!(channel.process_effects(tick), None);
        restarted.push(channel.position_in_sample == 0);
    }
    assert_eq!(restarted, vec![true, false, false, true, false, false, true]);

    let before = ChannelState { position_in_sample: 99, ..channel_with(0xE, 0x90) };
    for tick in 0..5u8 {
        let mut channel = before;
        assert_eq!(channel.process_effects(tick), None);
        assert_eq!(channel, before);
    }
}

#[test]
fn jumps_speed_and_tempo_are_asked_of_the_sequencer_at_the_first_tick() {
    let cases = [
        (0xBu8, 0x05u8, RowCommand::PositionJump(5)),
        (0xB, 0xFF, RowCommand::PositionJump(0)),
        (0xD, 0x21, RowCommand::PatternBreak(21)),
        (0xD, 0x99, RowCommand::PatternBreak(0)),
        (0xF, 0x03, RowCommand::SetSpeed(3)),
        (0xF, 0x00, RowCommand::SetSpeed(0)),
        (0xF, 0x7D, RowCommand::SetTempo(125)),
    ];
    for (effect, arg, command) in cases {
        let before = channel_with(effect, arg);
        let mut channel = before;
        assert_eq!(channel.process_effects(0), Some(command));
        assert_eq!(channel, before);
        for tick in [1u8, 2, 31, 255] {
            assert_eq!(channel.process_effects(tick), None);
            assert_eq!(channel, before);
        }
    }
}

#[test]
fn a_note_with_a_period_starts_over() {
    let instruments = vec![instrument(40, 100, 10, 20), instrument(200, 50, 0, 0)];
    let mut channel = ChannelState {
        position_in_sample: 77,
        sample_step: 5,
        arp_counter: 2,
        vibrato_phase: 9,
        volume: 3,
        ..channel_with(0xA, 0x11)
    };
    channel.trigger(
        &Note { sample: 1, period: 214, effect: 0x4, argument: 0x22 },
        &instruments,
    );
    assert_eq!(
        channel,
        ChannelState {
            sample_index: 0,
            volume: 40,
            period: 214,
            effect: 0x4,
            effect_arg: 0x22,
            panning: 128,
            position_in_sample: 0,
            sample_step: 0,
            base_period: 214,
            target_period: 0,
            repeat_offset: 10,
            repeat_length: 20,
            arp_counter: 0,
            vibrato_phase: 0,
        }
    );
    channel.volume = 9;
    channel.position_in_sample = 5;
    channel.trigger(&Note { sample: 0, period: 300, effect: 0, argument: 0 }, &instruments);
    assert_eq!(channel.sample_index, 0);
    assert_eq!(channel.volume, 9);
    assert_eq!((channel.period, channel.base_period), (300, 300));
    assert_eq!(channel.position_in_sample, 0);
    channel.trigger(&Note { sample: 2, period: 301, effect: 0, argument: 0 }, &instruments);
    assert_eq!(channel.sample_index, 1);
    assert_eq!(channel.volume, 64);
    assert_eq!((channel.repeat_offset, channel.repeat_length), (0, 0));
}

#[test]
fn a_note_without_a_period_keeps_playing() {
    let instruments = vec![instrument(40, 100, 10, 20), instrument(12, 50, 2, 4)];
    let before = ChannelState {
        position_in_sample: 77,
        sample_step: 5,
        arp_counter: 2,
        ..channel_with(0xA, 0x11)
    };
    let mut channel = before;
    channel.trigger(&Note { sample: 2, period: 0, effect: 0x1, argument: 0x02 }, &instruments);
    assert_eq!(
        channel,
        ChannelState {
            sample_index: 1,
            volume: 12,
            repeat_offset: 2,
            repeat_length: 4,
            effect: 0x1,
            effect_arg: 0x02,
            ..before
        }
    );
    let mut channel = before;
    channel.trigger(&Note { sample: 0, period: 0, effect: 0xC, argument: 0x05 }, &instruments);
    assert_eq!(channel, ChannelState { effect: 0xC, effect_arg: 0x05, ..before });
}

#[test]
fn a_tone_portamento_note_names_the_target() {
    let instruments = vec![instrument(40, 100, 0, 0)];
    let before = ChannelState { position_in_sample: 77, sample_step: 5, ..channel_with(0, 0) };
    let mut channel = before;
    channel.trigger(&Note { sample: 0, period: 300, effect: 0x3, argument: 0x08 }, &instruments);
    assert_eq!(
        channel,
        ChannelState { target_period: 300, effect: 0x3, effect_arg: 0x08, ..before }
    );
    channel.process_effects(0);
    assert_eq!(channel.period, 428);
    channel.process_effects(1);
    assert_eq!((channel.period, channel.base_period), (420, 420));

    let mut fresh = ChannelState::default();
    fresh.trigger(&Note { sample: 1, period: 300, effect: 0x3, argument: 0x08 }, &instruments);
    assert_eq!((fresh.period, fresh.base_period, fresh.target_period), (300, 300, 0));
}

#[test]
fn an_instrument_that_the_song_lacks_has_no_data_and_no_loop() {
    let instruments = vec![instrument(40, 100, 10, 20)];
    let mut channel = ChannelState { repeat_offset: 4, repeat_length: 8, volume: 17, ..channel_with(0, 0) };
    channel.trigger(&Note { sample: 2, period: 0, effect: 0, argument: 0 }, &instruments);
    assert_eq!(channel.sample_index, 1);
    assert_eq!((channel.repeat_offset, channel.repeat_length), (0, 0));
    assert_eq!(channel.volume, 17);
    channel.trigger(&Note { sample: 255, period: 500, effect: 0, argument: 0 }, &instruments);
    assert_eq!(channel.sample_index, 254);
    assert_eq!(channel.period, 500);
}

#[test]
fn the_step_follows_period_and_rate() {
    let mut channel = channel_with(0, 0);
    channel.update_step(44100);
    assert_eq!(channel.sample_step, 807097098);
    channel.period = 214;
    channel.update_step(44100);
    assert_eq!(channel.sample_step, 1614194196);
    channel.update_step(0);
    assert_eq!(channel.sample_step, 1614194196);
    channel.period = 0;
    channel.update_step(48000);
    assert_eq!(channel.sample_step, 1614194196);
    channel.period = 1;
    channel.update_step(1);
    assert_eq!(channel.sample_step, 15233796309359001);
    channel.period = 65535;
    channel.update_step(u32::MAX);
    assert_eq!(channel.sample_step, 54);
}

#[test]
fn a_channel_adds_its_sample_by_volume_and_side() {
    let data: Vec<u8> = vec![64, 0x80, 0x7F, 0xFF, 0];
    let mut channel = ChannelState { sample_step: 1 << 32, panning: 128, ..channel_with(0, 0) };
    assert_eq!(channel.mix(&data), (64 * 64 * 127, 64 * 64 * 128));
    assert_eq!(channel.mix(&data), (-128 * 64 * 127, -128 * 64 * 128));
    channel.volume = 32;
    channel.panning = 0;
    assert_eq!(channel.mix(&data), (127 * 32 * 255, 0));
    channel.volume = 200;
    channel.panning = 255;
    assert_eq!(channel.mix(&data), (0, -64 * 255));
    assert_eq!(channel.mix(&data), (0, 0));
    assert_eq!(channel.position_in_sample, 5 << 32);
    assert_eq!(channel.mix(&data), (0, 0));
    assert_eq!(channel.position_in_sample, 6 << 32);

    let mut loudest = ChannelState { panning: 255, ..channel_with(0, 0) };
    assert_eq!(loudest.mix(&vec![0x80]), (0, -FULL_SCALE));
    assert_eq!(loudest.position_in_sample, 0);
}

#[test]
fn playback_moves_by_fractions_and_stops_growing_at_the_top() {
    let data: Vec<u8> = vec![1, 2, 3];
    let mut channel = ChannelState {
        sample_step: 3 << 30,
        volume: 1,
        panning: 255,
        ..channel_with(0, 0)
    };
    let mut heard = Vec::new();
    for _ in 0..5 {
        heard.push(channel.mix(&data).1 / 255);
    }
    assert_eq!(heard, vec![1, 1, 2, 3, 0]);
    assert_eq!(channel.position_in_sample, 15 << 30);

    channel.position_in_sample = u64::MAX - 5;
    assert_eq!(channel.mix(&data), (0, 0));
    assert_eq!(channel.position_in_sample, u64::MAX);
    assert_eq!(channel.mix(&data), (0, 0));
    assert_eq!(channel.position_in_sample, u64::MAX);
}

#[test]
fn a_loop_brings_playback_round() {
    let data: Vec<u8> = vec![10, 11, 12, 13, 14, 15];
    let mut channel = ChannelState {
        sample_step: 1 << 32,
        volume: 1,
        panning: 255,
        repeat_offset: 2,
        repeat_length: 3,
        ..channel_with(0, 0)
    };
    let mut heard = Vec::new();
    for _ in 0..11 {
        heard.push(channel.mix(&data).1 / 255);
    }
    assert_eq!(heard, vec![10, 11, 12, 13, 14, 12, 13, 14, 12, 13, 14]);

    channel.position_in_sample = (100 << 32) + 7;
    assert_eq!(channel.mix(&data).1 / 255, 14);
    assert_eq!(channel.position_in_sample, (5 << 32) + 7);

    channel.repeat_offset = 4;
    channel.repeat_length = 6;
    channel.position_in_sample = 11 << 32;
    assert_eq!(channel.mix(&data).1 / 255, 15);
    channel.position_in_sample = 12 << 32;
    assert_eq!(channel.mix(&data).1, 0);
    assert_eq!(channel.position_in_sample, 7 << 32);
}

#[test]
fn a_new_engine_stands_at_the_start() {
    let engine = ModEngine::new(song(3, 2, &[1, 0], vec![]));
    assert_eq!(engine.current_pattern(), 0);
    assert_eq!(engine.current_row(), 0);
    assert_eq!(engine.tick(), 0);
    assert_eq!(engine.speed(), 6);
    assert_eq!(engine.tempo(), 125);
    assert_eq!(engine.tick_duration(), 20_000);
    assert_eq!(engine.sample_rate(), 0);
    assert_eq!(engine.channel_count(), 0);
    assert_eq!(engine.samples_per_tick(), 0);
    assert_eq!(engine.samples_since_tick(), 0);
    assert!(engine.looping());
    assert!(!engine.is_finished());
    assert_eq!(engine.channels(), &vec![ChannelState::default(); 3]);
    assert_eq!(engine.song().metadata.channel_count, 3);
    assert_eq!(
        ChannelState::default(),
        ChannelState {
            sample_index: 0,
            volume: 64,
            period: 0,
            effect: 0,
            effect_arg: 0,
            panning: 128,
            position_in_sample: 0,
            sample_step: 0,
            base_period: 0,
            target_period: 0,
            repeat_offset: 0,
            repeat_length: 0,
            arp_counter: 0,
            vibrato_phase: 0,
        }
    );
}

#[test]
fn a_decoded_module_plays_one_pattern_in_speed_times_sixty_four_ticks() {
    let mut data = vec![0u8; 20];
    for i in 0..31 {
        data.extend_from_slice(&[0u8; 22]);
        data.extend_from_slice(&[0, if i < 2 { 4 } else { 0 }, 0, 64, 0, 0, 0, 1]);
    }
    data.extend_from_slice(&[1, 127]);
    data.extend_from_slice(&[0u8; 128]);
    data.extend_from_slice(b"M.K.");
    data.extend_from_slice(&[0u8; 1024]);
    data.extend_from_slice(&[0u8; 16]);
    let song = parse(data).unwrap();
    assert_eq!(song.metadata.channel_count, 4);
    assert_eq!(song.metadata.pattern_count, 1);
    assert_eq!(song.patterns.len(), 1);
    assert!(song.patterns[0].iter().all(|row| row.len() == 4 && row.iter().all(|n| *n == SILENT)));
    assert!(song.is_well_formed());

    let mut engine = Engine::new(song);
    let speed = 6;
    for tick in 0..speed * 64 {
        let Engine::Mod(inner) = &engine;
        assert_eq!(inner.current_pattern(), 0);
        assert_eq!(inner.current_row(), tick / speed);
        assert_eq!(inner.tick() as usize, tick % speed);
        assert!(!engine.is_finished());
        engine.next_tick();
    }
    let Engine::Mod(inner) = &engine;
    assert_eq!(inner.current_row(), 0);
    assert_eq!(inner.current_pattern(), 1);
    assert_eq!(inner.tick(), 0);
    assert_eq!(inner.speed(), 6);
    assert_eq!(inner.channels(), &vec![ChannelState::default(); 4]);
}

#[test]
fn the_song_starts_over_behind_the_last_position() {
    let mut engine = ModEngine::new(song(1, 1, &[], vec![]));
    ticks(&mut engine, 6 * 64 * 127);
    assert_eq!((engine.current_pattern(), engine.current_row()), (127, 0));
    ticks(&mut engine, 6 * 64 - 1);
    assert_eq!((engine.current_pattern(), engine.current_row(), engine.tick()), (127, 63, 5));
    engine.next_tick();
    assert_eq!((engine.current_pattern(), engine.current_row(), engine.tick()), (0, 0, 0));
    assert!(!engine.is_finished());
}

#[test]
fn a_song_that_does_not_loop_is_over_behind_the_last_position() {
    let mut engine = ModEngine::new(song(1, 1, &[], vec![]));
    engine.set_looping(false);
    assert!(!engine.looping());
    ticks(&mut engine, 6 * 64 * 128 - 1);
    assert!(!engine.is_finished());
    engine.next_tick();
    assert!(engine.is_finished());
    assert_eq!((engine.current_pattern(), engine.current_row(), engine.tick()), (128, 0, 0));
    ticks(&mut engine, 10);
    assert!(engine.is_finished());
    assert_eq!((engine.current_pattern(), engine.current_row(), engine.tick()), (128, 0, 0));
    engine.set_looping(true);
    assert!(!engine.is_finished());
    assert_eq!(engine.current_pattern(), 0);
}

#[test]
fn the_order_table_says_which_pattern_plays() {
    let mut module = song(1, 3, &[2, 0, 1], vec![(instrument(64, 0, 0, 0), Vec::new())]);
    for (pattern, period) in [(0usize, 100u16), (1, 200), (2, 300)] {
        module.patterns[pattern][0][0] = Note { sample: 1, period, effect: 0, argument: 0 };
    }
    let mut engine = ModEngine::new(module);
    let mut heard = Vec::new();
    for _ in 0..4 {
        engine.next_tick();
        heard.push(engine.channels()[0].period);
        ticks(&mut engine, 6 * 64 - 1);
    }
    assert_eq!(heard, vec![300, 100, 200, 100]);
    assert_eq!(engine.current_pattern(), 4);
}

#[test]
fn speed_and_tempo_hold_from_their_row_on() {
    let mut module = song(2, 1, &[], vec![]);
    module.patterns[0][0][1] = Note { sample: 0, period: 0, effect: 0xF, argument: 0x03 };
    module.patterns[0][1][0] = Note { sample: 0, period: 0, effect: 0xF, argument: 0x40 };
    module.patterns[0][2][0] = Note { sample: 0, period: 0, effect: 0xF, argument: 0x01 };
    module.patterns[0][2][1] = Note { sample: 0, period: 0, effect: 0xF, argument: 0x02 };
    module.patterns[0][3][0] = Note { sample: 0, period: 0, effect: 0xF, argument: 0x00 };
    let mut engine = ModEngine::new(module);
    engine.set_sample_rate(44100);
    assert_eq!(engine.samples_per_tick(), 882);
    engine.next_tick();
    assert_eq!((engine.speed(), engine.current_row(), engine.tick()), (3, 0, 1));
    ticks(&mut engine, 2);
    assert_eq!((engine.current_row(), engine.tick()), (1, 0));
    engine.next_tick();
    assert_eq!((engine.speed(), engine.tempo()), (3, 64));
    assert_eq!(engine.tick_duration(), 39_062);
    assert_eq!(engine.samples_per_tick(), 1722);
    ticks(&mut engine, 2);
    assert_eq!((engine.current_row(), engine.tick()), (2, 0));
    engine.next_tick();
    assert_eq!(engine.speed(), 2);
    assert_eq!((engine.current_row(), engine.tick()), (2, 1));
    engine.next_tick();
    assert_eq!((engine.current_row(), engine.tick()), (3, 0));
    engine.next_tick();
    assert_eq!(engine.speed(), 0);
    assert_eq!((engine.current_row(), engine.tick()), (4, 0));
    engine.next_tick();
    assert_eq!((engine.current_row(), engine.tick()), (5, 0));
}

#[test]
fn jumps_and_breaks_wait_for_the_end_of_the_row() {
    let mut module = song(2, 2, &[0, 1, 1, 0], vec![]);
    module.patterns[0][1][0] = Note { sample: 0, period: 0, effect: 0xD, argument: 0x12 };
    module.patterns[1][12][1] = Note { sample: 0, period: 0, effect: 0xB, argument: 0x03 };
    module.patterns[0][0][0] = Note { sample: 0, period: 0, effect: 0xB, argument: 0x00 };
    module.patterns[0][0][1] = Note { sample: 0, period: 0, effect: 0xD, argument: 0x01 };
    module.patterns[0][63][1] = Note { sample: 0, period: 0, effect: 0xD, argument: 0x63 };
    let mut engine = ModEngine::new(module);
    engine.next_tick();
    assert_eq!((engine.current_pattern(), engine.current_row(), engine.tick()), (0, 0, 1));
    ticks(&mut engine, 5);
    assert_eq!((engine.current_pattern(), engine.current_row(), engine.tick()), (0, 1, 0));
    ticks(&mut engine, 6);
    assert_eq!((engine.current_pattern(), engine.current_row()), (1, 12));
    ticks(&mut engine, 6);
    assert_eq!((engine.current_pattern(), engine.current_row()), (3, 0));
    ticks(&mut engine, 6);
    assert_eq!((engine.current_pattern(), engine.current_row()), (0, 1));
    ticks(&mut engine, 6);
    assert_eq!((engine.current_pattern(), engine.current_row()), (1, 12));

    let mut module = song(1, 1, &[], vec![]);
    module.patterns[0][63][0] = Note { sample: 0, period: 0, effect: 0xD, argument: 0x63 };
    let mut engine = ModEngine::new(module);
    ticks(&mut engine, 6 * 64);
    assert_eq!((engine.current_pattern(), engine.current_row()), (1, 63));
    ticks(&mut engine, 6);
    assert_eq!((engine.current_pattern(), engine.current_row()), (2, 63));
    ticks(&mut engine, 6 * 125);
    assert_eq!((engine.current_pattern(), engine.current_row()), (127, 63));
    ticks(&mut engine, 6);
    assert_eq!((engine.current_pattern(), engine.current_row()), (0, 63));
}

#[test]
fn notes_reach_their_channels_at_the_first_tick() {
    let mut module = song(
        2,
        1,
        &[],
        vec![
            (instrument(30, 4, 0, 0), vec![0; 4]),
            (instrument(99, 4, 2, 2), vec![0; 4]),
        ],
    );
    module.patterns[0][0][0] = Note { sample: 1, period: 428, effect: 0xA, argument: 0x20 };
    module.patterns[0][0][1] = Note { sample: 2, period: 214, effect: 0xC, argument: 0x10 };
    module.patterns[0][1][0] = Note { sample: 0, period: 0, effect: 0x1, argument: 0x04 };
    let mut engine = ModEngine::new(module);
    engine.set_sample_rate(44100);
    engine.next_tick();
    let first = engine.channels()[0];
    let second = engine.channels()[1];
    assert_eq!((first.sample_index, first.volume, first.period), (0, 30, 428));
    assert_eq!((first.effect, first.effect_arg), (0xA, 0x20));
    assert_eq!(first.sample_step, 807097098);
    assert_eq!((second.sample_index, second.volume, second.period), (1, 16, 214));
    assert_eq!((second.repeat_offset, second.repeat_length), (2, 2));
    assert_eq!(second.sample_step, 1614194196);
    ticks(&mut engine, 5);
    assert_eq!(engine.channels()[0].volume, 40);
    assert_eq!(engine.channels()[1].volume, 16);
    ticks(&mut engine, 6);
    assert_eq!(engine.channels()[0].volume, 40);
    assert_eq!(engine.channels()[0].period, 408);
    assert_eq!(engine.channels()[0].base_period, 408);
    assert_eq!(engine.channels()[1].effect, 0);
}

#[test]
fn a_frame_holds_left_right_and_silence() {
    let mut module = song(
        2,
        1,
        &[],
        vec![
            (instrument(64, 2, 0, 0), vec![64, 32]),
            (instrument(32, 2, 0, 0), vec![0x80, 0x80]),
        ],
    );
    module.patterns[0][0][0] = Note { sample: 1, period: 1, effect: 0, argument: 0 };
    module.patterns[0][0][1] = Note { sample: 2, period: 1, effect: 0, argument: 0 };
    let mut engine = ModEngine::new(module);
    engine.set_sample_rate(3_546_895);
    engine.set_channel_count(3);
    engine.next_tick();
    assert_eq!(engine.channels()[0].sample_step, 4294966811);
    let mut buffer = vec![7i32; 11];
    engine.get_audio_buffer(&mut buffer);
    let left = 64 * 64 * 127 - 128 * 32 * 127;
    let right = 64 * 64 * 128 - 128 * 32 * 128;
    assert_eq!((left, right), (0, 0));
    assert_eq!(buffer[..3], [0, 0, 0]);
    assert_eq!(buffer[9..], [7, 7]);
    assert_eq!(engine.channels()[0].position_in_sample, 3 * 4294966811);
    assert_eq!((engine.current_row(), engine.tick()), (0, 1));
    assert_eq!(engine.samples_since_tick(), 0);
}

#[test]
fn lanes_are_mixed_from_all_channels_and_held_to_full_scale() {
    let loud = (instrument(64, 4, 0, 4), vec![0x7F, 0x7F, 0x7F, 0x7F]);
    let soft = (instrument(16, 4, 0, 4), vec![0xF0, 0xF0, 0xF0, 0xF0]);
    let mut module = song(4, 1, &[], vec![loud, soft]);
    for channel in 0..3 {
        module.patterns[0][0][channel] = Note { sample: 1, period: 428, effect: 0, argument: 0 };
    }
    module.patterns[0][0][3] = Note { sample: 2, period: 428, effect: 0, argument: 0 };
    let mut engine = ModEngine::new(module);
    engine.set_sample_rate(44100);
    engine.set_channel_count(2);
    engine.next_tick();
    let mut buffer = vec![0i32; 5];
    engine.get_audio_buffer(&mut buffer);
    let left = 3 * 127 * 64 * 127 - 16 * 16 * 127;
    let right = 3 * 127 * 64 * 128 - 16 * 16 * 128;
    assert_eq!((left, right), (3_064_256, 3_088_384));
    assert_eq!(buffer, vec![FULL_SCALE, FULL_SCALE, FULL_SCALE, FULL_SCALE, 0]);

    engine.set_channel_count(1);
    let mut mono = vec![0i32; 2];
    engine.get_audio_buffer(&mut mono);
    assert_eq!(mono, vec![FULL_SCALE, FULL_SCALE]);
    assert_eq!(engine.channels()[0].position_in_sample, 4 * 807097098);
}

#[test]
fn a_channel_without_data_is_silent_and_stands_still() {
    let mut module = song(3, 1, &[], vec![(instrument(64, 1, 0, 0), vec![100])]);
    module.samples.push(PCMData::U16(vec![1000, 2000]));
    module.metadata.samples.push(instrument(64, 4, 0, 0));
    module.patterns[0][0][0] = Note { sample: 1, period: 428, effect: 0, argument: 0 };
    module.patterns[0][0][1] = Note { sample: 2, period: 428, effect: 0, argument: 0 };
    module.patterns[0][0][2] = Note { sample: 9, period: 428, effect: 0, argument: 0 };
    assert!(!module.is_well_formed());
    module.samples[1] = PCMData::U8(vec![50, 50, 50, 50]);
    assert!(module.is_well_formed());
    module.samples[1] = PCMData::U8(Vec::new());
    module.metadata.samples[1].length = 0;
    let mut engine = ModEngine::new(module);
    engine.set_sample_rate(44100);
    engine.set_channel_count(2);
    engine.next_tick();
    let mut buffer = vec![0i32; 4];
    engine.get_audio_buffer(&mut buffer);
    assert_eq!(buffer, vec![100 * 64 * 127, 100 * 64 * 128, 100 * 64 * 127, 100 * 64 * 128]);
    assert_eq!(engine.channels()[0].position_in_sample, 2 * 807097098);
    assert_eq!(engine.channels()[1].position_in_sample, 2 * 807097098);
    assert_eq!(engine.channels()[2].sample_index, 8);
    assert_eq!(engine.channels()[2].position_in_sample, 0);
}

#[test]
fn an_output_without_lanes_renders_nothing() {
    let mut engine = ModEngine::new(song(1, 1, &[], vec![]));
    let mut buffer = vec![5i32; 6];
    engine.get_audio_buffer(&mut buffer);
    assert_eq!(buffer, vec![5; 6]);
    engine.render(&mut buffer);
    assert_eq!(buffer, vec![5; 6]);
    assert_eq!(engine.samples_since_tick(), 0);
    assert_eq!((engine.current_row(), engine.tick()), (0, 0));
    let mut nothing: Vec<i32> = Vec::new();
    engine.set_channel_count(2);
    engine.render(&mut nothing);
    assert_eq!((engine.current_row(), engine.tick()), (0, 0));
}

#[test]
fn rendering_plays_the_ticks_that_its_frames_pay_for() {
    let mut engine = ModEngine::new(song(1, 1, &[], vec![]));
    engine.set_channel_count(2);
    engine.set_sample_rate(1000);
    assert_eq!(engine.samples_per_tick(), 20);
    let mut buffer = vec![9i32; 2 * 19];
    engine.render(&mut buffer);
    assert_eq!(buffer, vec![0; 38]);
    assert_eq!((engine.tick(), engine.samples_since_tick()), (0, 19));
    let mut buffer = vec![9i32; 2];
    engine.render(&mut buffer);
    assert_eq!((engine.tick(), engine.samples_since_tick()), (1, 0));
    let mut buffer = vec![9i32; 2 * 130 + 1];
    engine.render(&mut buffer);
    assert_eq!(buffer[259], 0);
    assert_eq!(buffer[260], 9);
    assert_eq!(
        (engine.current_row(), engine.tick(), engine.samples_since_tick()),
        (1, 1, 10)
    );
    engine.set_samples_since_tick(45);
    assert_eq!(engine.samples_since_tick(), 45);
    let mut buffer = vec![0i32; 0];
    engine.render(&mut buffer);
    assert_eq!(
        (engine.current_row(), engine.tick(), engine.samples_since_tick()),
        (1, 3, 5)
    );
}

#[test]
fn rendering_without_a_rate_plays_no_tick() {
    let mut engine = ModEngine::new(song(1, 1, &[], vec![]));
    engine.set_channel_count(1);
    let mut buffer = vec![1i32; 100];
    engine.render(&mut buffer);
    assert_eq!(engine.samples_per_tick(), 0);
    assert_eq!(engine.samples_since_tick(), 100);
    assert_eq!((engine.current_row(), engine.tick()), (0, 0));
}

#[test]
fn the_engine_passes_everything_on_to_its_player() {
    let mut engine = Engine::new(song(1, 1, &[], vec![]));
    engine.set_sample_rate(48000);
    engine.set_channel_count(2);
    engine.set_samples_since_tick(3);
    assert_eq!(engine.sample_rate(), 48000);
    assert_eq!(engine.channel_count(), 2);
    assert_eq!(engine.samples_since_tick(), 3);
    assert_eq!(engine.samples_per_tick(), 960);
    assert_eq!(engine.tick_duration(), 20_000);
    assert_eq!(engine.song().metadata.channel_count, 1);
    assert!(!engine.is_finished());
    let mut buffer = vec![1i32; 4];
    engine.get_audio_buffer(&mut buffer);
    assert_eq!(buffer, vec![0; 4]);
    assert_eq!(engine.samples_since_tick(), 3);
    let mut buffer = vec![1i32; 2 * 957];
    engine.render(&mut buffer);
    assert_eq!(engine.samples_since_tick(), 0);
    let Engine::Mod(inner) = &engine;
    assert_eq!(inner.tick(), 1);
    assert!(inner.looping());
    engine.set_looping(false);
    let Engine::Mod(inner) = &engine;
    assert!(!inner.looping());
}

#[test]
fn songs_that_do_not_fit_together_are_told_apart() {
    assert!(song(4, 2, &[1], vec![]).is_well_formed());
    assert!(!song(4, 2, &[], vec![]).is_well_formed());
    assert!(!song(4, 1, &[1], vec![]).is_well_formed());
    let mut short = song(4, 1, &[], vec![]);
    short.patterns[0].pop();
    assert!(!short.is_well_formed());
    let mut narrow = song(4, 1, &[], vec![]);
    narrow.patterns[0][63].pop();
    assert!(!narrow.is_well_formed());
    let mut table = song(4, 1, &[], vec![]);
    table.metadata.pattern_table.pop();
    assert!(!table.is_well_formed());
    let mut data = song(1, 1, &[], vec![(instrument(64, 3, 0, 0), vec![1, 2])]);
    assert!(!data.is_well_formed());
    data.metadata.samples[0].length = 2;
    assert!(data.is_well_formed());
    data.samples.push(PCMData::U8(Vec::new()));
    assert!(!data.is_well_formed());
}
