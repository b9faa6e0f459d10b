use sfml::header::{parse_header, SoundInfo};
use sfml::music::{Music, OpenError, SoundChannel, Status};
use sfml::source::MemorySource;
use sfml::stream::InputStream;
use sfml::time::{frames_to_time, time_to_frames, Time, TimeSpan};

fn wave(rate: u32, channels: u16, bits: u16, frames: u32) -> Vec<u8> {
    let align = channels * (bits / 8);
    let data_len = frames * align as u32;
    let mut v = Vec::new();
    v.extend_from_slice(b"RIFF");
    v.extend_from_slice(&(36 + data_len).to_le_bytes());
    v.extend_from_slice(b"WAVE");
    v.extend_from_slice(b"fmt ");
    v.extend_from_slice(&16u32.to_le_bytes());
    v.extend_from_slice(&1u16.to_le_bytes());
    v.extend_from_slice(&channels.to_le_bytes());
    v.extend_from_slice(&rate.to_le_bytes());
    v.extend_from_slice(&(rate * align as u32).to_le_bytes());
    v.extend_from_slice(&align.to_le_bytes());
    v.extend_from_slice(&bits.to_le_bytes());
    v.extend_from_slice(b"data");
    v.extend_from_slice(&data_len.to_le_bytes());
    v.resize(44 + data_len as usize, 0);
    v
}

type MemMusic<'a> = Music<'a, MemorySource>;

#[test]
fn ten_second_stereo_from_memory() {
    let data = wave(44100, 2, 16, 441000);
    let mut music = MemMusic::from_memory(&data).unwrap();
    assert_eq!(music.duration().as_microseconds(), 10_000_000);
    assert_eq!(music.sample_rate(), 44100);
    assert_eq!(music.channel_count(), 2);
    music.play();
    assert_eq!(music.status(), Status::Playing);
    music.set_playing_offset(Time::microseconds(2_500_000));
    assert_eq!(music.playing_offset().as_microseconds(), 2_500_000);
    music.stop();
    assert_eq!(music.status(), Status::Stopped);
    assert_eq!(music.playing_offset(), Time::zero());
}

#[test]
fn parse_header_reads_fields() {
    let data = wave(8000, 1, 8, 1234);
    assert_eq!(
        parse_header(&data),
        Some(SoundInfo { sample_rate: 8000, channel_count: 1, frame_count: 1234 })
    );
}

#[test]
fn parse_header_rejects_bad_input() {
    let good = wave(8000, 1, 8, 10);
    assert_eq!(parse_header(&good[..43]), None);
    let mut bad_tag = good.clone();
    bad_tag[8] = b'X';
    assert_eq!(parse_header(&bad_tag), None);
    let mut compressed = good.clone();
    compressed[20] = 3;
    assert_eq!(parse_header(&compressed), None);
    let mut bad_align = good.clone();
    bad_align[32] = 7;
    assert_eq!(parse_header(&bad_align), None);
}

#[test]
fn from_memory_rejects_unknown_format() {
    let data = vec![0u8; 100];
    assert!(matches!(MemMusic::from_memory(&data), Err(OpenError::Format)));
}

#[test]
fn failed_open_keeps_previous_sound() {
    let first = wave(22050, 1, 16, 22050);
    let mut music = MemMusic::from_memory(&first).unwrap();
    music.set_looping(true);
    assert_eq!(music.open_from_memory(&[1, 2, 3]), Err(OpenError::Format));
    assert_eq!(music.sample_rate(), 22050);
    assert_eq!(music.duration().as_microseconds(), 1_000_000);
    assert!(music.is_looping());
}

#[test]
fn from_stream_borrowed_reads_header() {
    let mut src = MemorySource::new(wave(48000, 2, 24, 96000));
    let mut stream = InputStream::new(&mut src);
    let music = Music::from_stream(&mut stream).unwrap();
    assert_eq!(music.sample_rate(), 48000);
    assert_eq!(music.channel_count(), 2);
    assert_eq!(music.duration().as_microseconds(), 2_000_000);
}

#[test]
fn borrowed_open_failure_releases_source() {
    let mut src = MemorySource::new(vec![7u8; 30]);
    {
        let mut stream = InputStream::new(&mut src);
        let result = Music::from_stream(&mut stream);
        assert!(matches!(result, Err(OpenError::Format)));
    }
    let mut again = InputStream::new(&mut src);
    assert_eq!(again.seek(0), 0);
    assert_eq!(again.get_size(), 30);
}

#[test]
fn from_stream_owned_keeps_stream() {
    let stream = InputStream::new_owned(MemorySource::new(wave(44100, 2, 16, 44100)));
    let mut music = Music::from_stream_owned(stream).unwrap();
    assert_eq!(music.duration().as_microseconds(), 1_000_000);
    music.play();
    music.pause();
    assert_eq!(music.status(), Status::Paused);
    drop(music);
}

#[test]
fn from_stream_owned_rejects_short_stream() {
    let stream = InputStream::new_owned(MemorySource::new(vec![0u8; 10]));
    assert!(matches!(Music::from_stream_owned(stream), Err(OpenError::Format)));
}

#[test]
fn play_restarts_when_playing() {
    let data = wave(1000, 1, 8, 5000);
    let mut music = MemMusic::from_memory(&data).unwrap();
    music.play();
    music.set_playing_offset(Time::microseconds(3_000_000));
    music.pause();
    music.play();
    assert_eq!(music.playing_offset().as_microseconds(), 3_000_000);
    music.play();
    assert_eq!(music.playing_offset(), Time::zero());
}

#[test]
fn seeking_stopped_music_has_no_effect() {
    let data = wave(1000, 1, 8, 5000);
    let mut music = MemMusic::from_memory(&data).unwrap();
    music.set_playing_offset(Time::microseconds(1_000_000));
    assert_eq!(music.playing_offset(), Time::zero());
    music.play();
    music.set_playing_offset(Time::microseconds(99_000_000));
    assert_eq!(music.playing_offset().as_microseconds(), 5_000_000);
}

#[test]
fn pause_without_play_does_nothing() {
    let data = wave(1000, 1, 8, 5000);
    let mut music = MemMusic::from_memory(&data).unwrap();
    music.pause();
    assert_eq!(music.status(), Status::Stopped);
}

#[test]
fn empty_music_reports_zero() {
    let music = MemMusic::new().unwrap();
    assert_eq!(music.duration(), Time::zero());
    assert_eq!(music.sample_rate(), 0);
    assert_eq!(music.channel_count(), 0);
    assert!(!music.is_looping());
    assert_eq!(music.loop_points(), TimeSpan { offset: Time::zero(), length: Time::zero() });
}

#[test]
fn default_loop_window_is_whole_sound() {
    let data = wave(44100, 2, 16, 441000);
    let music = MemMusic::from_memory(&data).unwrap();
    let span = music.loop_points();
    assert_eq!(span.offset, Time::zero());
    assert_eq!(span.length.as_microseconds(), 10_000_000);
}

#[test]
fn loop_window_settles_after_one_rounding() {
    let data = wave(44100, 2, 16, 441000);
    let mut music = MemMusic::from_memory(&data).unwrap();
    music.set_loop_points(TimeSpan {
        offset: Time::microseconds(1_234_567),
        length: Time::microseconds(3_000_001),
    });
    let first = music.loop_points();
    assert_eq!(first.offset.as_microseconds(), 1_234_558);
    assert_eq!(first.length.as_microseconds(), 3_000_000);
    music.set_loop_points(first);
    assert_eq!(music.loop_points(), first);
}

#[test]
fn loop_window_is_cut_at_end_and_bad_windows_ignored() {
    let data = wave(1000, 1, 8, 5000);
    let mut music = MemMusic::from_memory(&data).unwrap();
    music.set_loop_points(TimeSpan {
        offset: Time::microseconds(4_000_000),
        length: Time::microseconds(9_000_000),
    });
    let span = music.loop_points();
    assert_eq!(span.offset.as_microseconds(), 4_000_000);
    assert_eq!(span.length.as_microseconds(), 1_000_000);
    music.set_loop_points(TimeSpan {
        offset: Time::microseconds(6_000_000),
        length: Time::microseconds(1_000_000),
    });
    assert_eq!(music.loop_points(), span);
    music.set_loop_points(TimeSpan { offset: Time::zero(), length: Time::microseconds(500) });
    assert_eq!(music.loop_points(), span);
    music.set_loop_points(TimeSpan { offset: Time::microseconds(-1), length: Time::microseconds(5) });
    assert_eq!(music.loop_points(), span);
}

#[test]
fn time_conversions_round_as_stated() {
    assert_eq!(frames_to_time(1, 44100).as_microseconds(), 23);
    assert_eq!(frames_to_time(44100, 44100).as_microseconds(), 1_000_000);
    assert_eq!(frames_to_time(0, 3).as_microseconds(), 0);
    assert_eq!(time_to_frames(Time::microseconds(23), 44100), 1);
    assert_eq!(time_to_frames(Time::microseconds(22), 44100), 0);
    assert_eq!(time_to_frames(Time::microseconds(1_000_000), 48000), 48000);
}

#[test]
fn channel_map_follows_channel_count() {
    let mono = MemMusic::from_memory(&wave(8000, 1, 8, 10)).unwrap();
    assert_eq!(mono.channel_map(), vec![SoundChannel::Mono]);
    let stereo = MemMusic::from_memory(&wave(8000, 2, 16, 10)).unwrap();
    assert_eq!(stereo.channel_map(), vec![SoundChannel::FrontLeft, SoundChannel::FrontRight]);
    let surround = MemMusic::from_memory(&wave(8000, 6, 16, 10)).unwrap();
    assert_eq!(surround.channel_map()[3], SoundChannel::LowFrequencyEffects);
    let odd = MemMusic::from_memory(&wave(8000, 11, 8, 10)).unwrap();
    assert_eq!(odd.channel_map(), vec![SoundChannel::Unspecified; 11]);
    assert!(MemMusic::new().unwrap().channel_map().is_empty());
}

#[test]
fn loop_window_never_ends_past_duration() {
    let data = wave(44100, 1, 16, 4);
    let mut music = MemMusic::from_memory(&data).unwrap();
    let duration = music.duration().as_microseconds();
    assert_eq!(duration, 91);
    music.set_loop_points(TimeSpan { offset: Time::microseconds(23), length: Time::microseconds(1000) });
    let span = music.loop_points();
    assert_eq!(span.offset.as_microseconds(), 23);
    assert_eq!(span.length.as_microseconds(), 68);
    music.set_loop_points(TimeSpan { offset: Time::zero(), length: Time::microseconds(1) });
    let after = music.loop_points();
    assert_eq!(after, span);
    assert!(after.offset.as_microseconds() + after.length.as_microseconds() <= duration);
    music.set_loop_points(after);
    assert_eq!(music.loop_points(), after);
}

#[test]
fn header_with_rate_above_one_megahertz_is_rejected() {
    let data = wave(2_000_000, 1, 8, 10);
    assert_eq!(parse_header(&data), None);
    assert!(matches!(MemMusic::from_memory(&data), Err(OpenError::Format)));
    let top = wave(1_000_000, 1, 8, 10);
    assert!(parse_header(&top).is_some());
}

#[test]
fn stop_on_stopped_music_changes_nothing() {
    let data = wave(1000, 1, 8, 5000);
    let mut music = MemMusic::from_memory(&data).unwrap();
    music.stop();
    assert_eq!(music.status(), Status::Stopped);
    assert_eq!(music.playing_offset(), Time::zero());
}
