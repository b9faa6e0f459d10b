use vstd::prelude::*;

use crate::header::{header_info, header_ok, parse_header, SoundInfo, HEADER_LEN};
use crate::source::Source;
use crate::stream::InputStream;
use crate::time::{
    frames_to_micros, frames_to_time, lemma_frame_round_trip, lemma_frames_to_micros_grows,
    micros_to_frame_count, micros_to_frames, time_to_frames, Time, TimeSpan, MICROS_PER_SECOND,
};

verus! {

/// Why opening a music failed.
#[derive(Debug, Clone, Copy, PartialEq, Eq, Structural)]
pub enum OpenError {
    /// A stream callback reported a failure.
    Stream,
    /// The data does not start with a supported header.
    Format,
}

/// Playback state.
#[derive(Debug, Clone, Copy, PartialEq, Eq, Structural)]
pub enum Status {
    Stopped,
    Paused,
    Playing,
}

/// The speaker position a channel of a sample frame is meant for.
#[derive(Debug, Clone, Copy, PartialEq, Eq, Structural)]
pub enum SoundChannel {
    Unspecified,
    Mono,
    FrontLeft,
    FrontRight,
    FrontCenter,
    LowFrequencyEffects,
    BackLeft,
    BackRight,
    BackCenter,
    SideLeft,
    SideRight,
}

/// The usual speaker layout for `n` interleaved channels; a count with no
/// usual layout leaves every channel unspecified.
pub open spec fn channel_layout(n: nat) -> Seq<SoundChannel> {
    if n == 1 {
        seq![SoundChannel::Mono]
    } else if n == 2 {
        seq![SoundChannel::FrontLeft, SoundChannel::FrontRight]
    } else if n == 3 {
        seq![SoundChannel::FrontLeft, SoundChannel::FrontRight, SoundChannel::FrontCenter]
    } else if n == 4 {
        seq![SoundChannel::FrontLeft, SoundChannel::FrontRight, SoundChannel::BackLeft, SoundChannel::BackRight]
    } else if n == 5 {
        seq![SoundChannel::FrontLeft, SoundChannel::FrontRight, SoundChannel::FrontCenter, SoundChannel::BackLeft, SoundChannel::BackRight]
    } else if n == 6 {
        seq![SoundChannel::FrontLeft, SoundChannel::FrontRight, SoundChannel::FrontCenter, SoundChannel::LowFrequencyEffects, SoundChannel::BackLeft, SoundChannel::BackRight]
    } else if n == 7 {
        seq![
            SoundChannel::FrontLeft,
            SoundChannel::FrontRight,
            SoundChannel::FrontCenter,
            SoundChannel::LowFrequencyEffects,
            SoundChannel::BackCenter,
            SoundChannel::SideLeft,
            SoundChannel::SideRight,
        ]
    } else if n == 8 {
        seq![
            SoundChannel::FrontLeft,
            SoundChannel::FrontRight,
            SoundChannel::FrontCenter,
            SoundChannel::LowFrequencyEffects,
            SoundChannel::BackLeft,
            SoundChannel::BackRight,
            SoundChannel::SideLeft,
            SoundChannel::SideRight,
        ]
    } else {
        Seq::new(n, |i: int| SoundChannel::Unspecified)
    }
}

/// The abstract state of a music handle.
pub struct MusicView {
    /// What the open source holds, if one is open.
    pub info: Option<SoundInfo>,
    pub status: Status,
    pub looping: bool,
    /// Playing position, in frames.
    pub cursor: nat,
    /// First frame of the loop window.
    pub loop_start: nat,
    /// Length of the loop window, in frames.
    pub loop_len: nat,
    /// Whether the handle keeps an owned stream alive.
    pub holds_stream: bool,
}

impl MusicView {
    pub open spec fn wf(self) -> bool {
        match self.info {
            Some(i) => {
                &&& 0 < i.sample_rate <= MICROS_PER_SECOND
                &&& (self.status == Status::Stopped ==> self.cursor == 0)
                &&& self.cursor <= i.frame_count
                &&& (i.frame_count > 0 ==> {
                    &&& self.loop_start < i.frame_count
                    &&& 0 < self.loop_len <= i.frame_count - self.loop_start
                })
                &&& (i.frame_count == 0 ==> self.loop_start == 0 && self.loop_len == 0)
            },
            None => {
                &&& self.status == Status::Stopped
                &&& self.cursor == 0
                &&& self.loop_start == 0
                &&& self.loop_len == 0
                &&& !self.holds_stream
            },
        }
    }

    /// The state right after a sound described by `info` was opened.
    pub open spec fn opened(info: SoundInfo, holds_stream: bool, looping: bool) -> MusicView {
        MusicView {
            info: Some(info),
            status: Status::Stopped,
            looping,
            cursor: 0,
            loop_start: 0,
            loop_len: info.frame_count as nat,
            holds_stream,
        }
    }

    /// Converts a frame count to time at this sound's rate.
    pub open spec fn time_of(self, frames: nat) -> int {
        match self.info {
            Some(i) => frames_to_micros(frames, i.sample_rate as nat),
            None => 0,
        }
    }

    /// The total duration, as a time.
    pub open spec fn duration_micros(self) -> int {
        match self.info {
            Some(i) => self.time_of(i.frame_count as nat),
            None => 0,
        }
    }

    /// The loop window, as a start time and a length: the length runs from
    /// the start time to the time of the window's last frame boundary.
    pub open spec fn loop_span(self) -> (int, int) {
        let start = self.time_of(self.loop_start);
        (start, self.time_of(self.loop_start + self.loop_len) - start)
    }

    /// The state after asking for the loop window `offset`, `length` (microseconds):
    /// its start and its end are each rounded down to a frame; a window that
    /// starts at or past the end, or holds no whole frame, is ignored; one that
    /// runs past the end is cut there.
    pub open spec fn with_loop(self, offset: int, length: int) -> MusicView {
        match self.info {
            Some(i) => {
                let rate = i.sample_rate as nat;
                let start = micros_to_frames(offset, rate);
                let end = micros_to_frames(offset + length, rate);
                if offset < 0 || length < 0 || start >= i.frame_count || end <= start {
                    self
                } else {
                    let stop = if end <= i.frame_count {
                        end
                    } else {
                        i.frame_count as int
                    };
                    MusicView { loop_start: start as nat, loop_len: (stop - start) as nat, ..self }
                }
            },
            None => self,
        }
    }
}

impl MusicView {
    /// The state after `play`: an open sound starts, resumes, or restarts
    /// from the beginning if it was already playing.
    pub open spec fn played(self) -> MusicView {
        match self.info {
            Some(_) => MusicView {
                status: Status::Playing,
                cursor: if self.status == Status::Playing { 0 } else { self.cursor },
                ..self
            },
            None => self,
        }
    }

    /// The state after `pause`: only a playing sound pauses.
    pub open spec fn paused(self) -> MusicView {
        if self.status == Status::Playing {
            MusicView { status: Status::Paused, ..self }
        } else {
            self
        }
    }

    /// The state after `stop`: stopped, back at the beginning.
    pub open spec fn stopped(self) -> MusicView {
        MusicView { status: Status::Stopped, cursor: 0, ..self }
    }

    /// The state after moving the playing position to `micros`: this only
    /// has an effect on a sound that is playing or paused, and a position
    /// past the end is taken as the end.
    pub open spec fn with_cursor(self, micros: int) -> MusicView {
        match self.info {
            Some(i) => if self.status == Status::Stopped || micros < 0 {
                self
            } else {
                let f = micros_to_frames(micros, i.sample_rate as nat);
                MusicView {
                    cursor: (if f <= i.frame_count { f } else { i.frame_count as int }) as nat,
                    ..self
                }
            },
            None => self,
        }
    }
}

/// The loop window read back from a well-formed handle lies within the
/// sound: it starts at or after zero, has a non-negative length and ends at
/// or before the duration; on a non-empty sound it starts before the end and
/// is not empty.
pub proof fn lemma_loop_span_in_bounds(v: MusicView)
    requires
        v.wf(),
    ensures
        ({
            let (a, b) = v.loop_span();
            &&& 0 <= a
            &&& 0 <= b
            &&& a + b <= v.duration_micros()
            &&& (v.info matches Some(i) && i.frame_count > 0) ==> a < v.duration_micros() && 0 < b
        }),
{
    if v.info is Some {
        let i = v.info->Some_0;
        let rate = i.sample_rate as nat;
        let fc = i.frame_count as nat;
        lemma_frame_round_trip(v.loop_start, rate);
        lemma_frames_to_micros_grows(v.loop_start, v.loop_start + v.loop_len, rate);
        lemma_frames_to_micros_grows(v.loop_start + v.loop_len, fc, rate);
        if fc > 0 {
            lemma_frames_to_micros_grows(v.loop_start, fc, rate);
        }
    }
}

/// Setting the loop window to what was read back from it changes nothing,
/// so a window settles after one round of rounding.
pub proof fn lemma_loop_window_settles(v: MusicView, offset: int, length: int)
    requires
        v.wf(),
    ensures
        ({
            let w = v.with_loop(offset, length);
            let (a, b) = w.loop_span();
            &&& w.wf()
            &&& w.with_loop(a, b) == w
            &&& w.with_loop(a, b).loop_span() == (a, b)
        }),
{
    if v.info is Some {
        let i = v.info->Some_0;
        let rate = i.sample_rate as nat;
        let w = v.with_loop(offset, length);
        assert(w.wf()) by {
            if !(offset < 0 || length < 0) {
                let m = MICROS_PER_SECOND as int;
                assert(offset * rate >= 0) by (nonlinear_arith)
                    requires
                        offset >= 0,
                ;
                vstd::arithmetic::div_mod::lemma_div_pos_is_pos(offset * rate, m);
            }
        }
        let s = w.loop_start;
        let e = w.loop_start + w.loop_len;
        lemma_frame_round_trip(s, rate);
        lemma_frame_round_trip(e, rate);
        lemma_frames_to_micros_grows(s, e, rate);
        let (a, b) = w.loop_span();
        assert(a + b == frames_to_micros(e, rate));
    }
}

/// Streamed music: a sound opened from memory or a stream, with its playback
/// state and, when opened from an owned stream, that stream.
///
/// Opening reads only the sound's header, which must be a canonical PCM wave
/// header (see `header_ok`); no other container format is recognised. No
/// samples are decoded or played: the playback state (status, playing
/// position, loop window) is kept as plain values, and the playing position
/// moves only when it is set.
pub struct Music<'src, S> {
    info: Option<SoundInfo>,
    status: Status,
    looping: bool,
    cursor: u32,
    loop_start: u32,
    loop_len: u32,
    stream: Option<InputStream<'src, S>>,
}

impl<'src, S: Source> Music<'src, S> {
    pub closed spec fn view(&self) -> MusicView {
        MusicView {
            info: self.info,
            status: self.status,
            looping: self.looping,
            cursor: self.cursor as nat,
            loop_start: self.loop_start as nat,
            loop_len: self.loop_len as nat,
            holds_stream: self.stream is Some,
        }
    }

    pub closed spec fn stream_wf(&self) -> bool {
        self.stream matches Some(s) ==> s.wf()
    }

    pub open spec fn wf(&self) -> bool {
        self.view().wf() && self.stream_wf()
    }

    /// A new, empty music.
    pub fn new() -> (r: Result<Self, OpenError>)
        ensures
            r matches Ok(m) && m.wf() && m.view() == (MusicView {
                info: None,
                status: Status::Stopped,
                looping: false,
                cursor: 0,
                loop_start: 0,
                loop_len: 0,
                holds_stream: false,
            }),
    {
        Ok(
            Music {
                info: None,
                status: Status::Stopped,
                looping: false,
                cursor: 0,
                loop_start: 0,
                loop_len: 0,
                stream: None,
            },
        )
    }

    /// Installs a freshly opened sound, replacing what was open before.
    fn install(&mut self, info: SoundInfo, stream: Option<InputStream<'src, S>>)
        requires
            0 < info.sample_rate <= MICROS_PER_SECOND,
            stream matches Some(s) ==> s.wf(),
        ensures
            final(self).wf(),
            final(self).view() == MusicView::opened(
                info,
                stream is Some,
                old(self).view().looping,
            ),
    {
        self.info = Some(info);
        self.status = Status::Stopped;
        self.cursor = 0;
        self.loop_start = 0;
        self.loop_len = info.frame_count;
        self.stream = stream;
    }

    /// Reads and checks the header at the start of `stream`, leaving the
    /// stream positioned after what was read.
    fn probe(stream: &mut InputStream<'_, S>) -> (r: Result<SoundInfo, OpenError>)
        requires
            old(stream).wf(),
        ensures
            final(stream).wf(),
            final(stream).owns_source() == old(stream).owns_source(),
            final(stream).source().contents() == old(stream).source().contents(),
            r matches Ok(info) ==> header_info(old(stream).source().contents()) == Some(info),
            header_info(old(stream).source().contents()) is None ==> r is Err,
            r == Err::<SoundInfo, OpenError>(OpenError::Format) ==> header_info(
                old(stream).source().contents(),
            ) is None,
            old(stream).source().infallible() ==> r == match header_info(
                old(stream).source().contents(),
            ) {
                Some(info) => Ok(info),
                None => Err(OpenError::Format),
            },
    {
        let ghost contents = stream.source().contents();
        if stream.seek(0) != 0 {
            return Err(OpenError::Stream);
        }
        let mut buf: Vec<u8> = vec![0u8; HEADER_LEN];
        let n = stream.read(&mut buf, HEADER_LEN as i64);
        if n < 0 {
            return Err(OpenError::Stream);
        }
        if n != HEADER_LEN as i64 {
            return Err(OpenError::Format);
        }
        assert(buf@ =~= buf@.subrange(0, 44));
        let r = parse_header(buf.as_slice());
        assert(header_ok(buf@) == header_ok(contents)) by {
            assert(buf@ == contents.subrange(0, 44));
        }
        match r {
            Some(info) => Ok(info),
            None => Err(OpenError::Format),
        }
    }

    /// Opens music from a stream that the caller keeps, by reading its canonical
    /// PCM wave header through the callbacks. The handle does not
    /// retain the stream, and an owned stream it held is released on success.
    /// On failure the handle is left as it was.
    pub fn open_from_stream(&mut self, stream: &mut InputStream<'_, S>) -> (r: Result<
        (),
        OpenError,
    >)
        requires
            old(self).wf(),
            old(stream).wf(),
        ensures
            final(self).wf(),
            final(stream).wf(),
            final(stream).source().contents() == old(stream).source().contents(),
            match r {
                Ok(_) => header_info(old(stream).source().contents()) matches Some(info)
                    && final(self).view() == MusicView::opened(
                    info,
                    false,
                    old(self).view().looping,
                ),
                Err(_) => *final(self) == *old(self),
            },
            header_info(old(stream).source().contents()) is None ==> r is Err,
            r == Err::<(), OpenError>(OpenError::Format) ==> header_info(
                old(stream).source().contents(),
            ) is None,
            old(stream).source().infallible() ==> (r is Ok <==> header_info(
                old(stream).source().contents(),
            ) is Some),
    {
        match Self::probe(stream) {
            Ok(info) => {
                self.install(info, None);
                Ok(())
            },
            Err(e) => Err(e),
        }
    }

    /// Opens music from a stream (canonical PCM wave header, read through the
    /// callbacks) and keeps the stream for as long as the
    /// sound stays open. On failure the stream is dropped and the handle is
    /// left as it was.
    pub fn open_from_stream_owned(&mut self, stream: InputStream<'src, S>) -> (r: Result<
        (),
        OpenError,
    >)
        requires
            old(self).wf(),
            stream.wf(),
        ensures
            final(self).wf(),
            match r {
                Ok(_) => header_info(stream.source().contents()) matches Some(info)
                    && final(self).view() == MusicView::opened(
                    info,
                    true,
                    old(self).view().looping,
                ),
                Err(_) => *final(self) == *old(self),
            },
            header_info(stream.source().contents()) is None ==> r is Err,
            r == Err::<(), OpenError>(OpenError::Format) ==> header_info(
                stream.source().contents(),
            ) is None,
            stream.source().infallible() ==> (r is Ok <==> header_info(
                stream.source().contents(),
            ) is Some),
    {
        let mut stream = stream;
        match Self::probe(&mut stream) {
            Ok(info) => {
                self.install(info, Some(stream));
                Ok(())
            },
            Err(e) => Err(e),
        }
    }

    /// Opens music from sound data in memory that starts with a canonical PCM
    /// wave header. On failure the handle is left
    /// as it was.
    pub fn open_from_memory(&mut self, data: &[u8]) -> (r: Result<(), OpenError>)
        requires
            old(self).wf(),
        ensures
            final(self).wf(),
            match header_info(data@) {
                Some(info) => r is Ok && final(self).view() == MusicView::opened(
                    info,
                    false,
                    old(self).view().looping,
                ),
                None => r == Err::<(), OpenError>(OpenError::Format) && *final(self)
                    == *old(self),
            },
    {
        match parse_header(data) {
            Some(info) => {
                self.install(info, None);
                Ok(())
            },
            None => Err(OpenError::Format),
        }
    }

    /// A new music opened from a stream that the caller keeps.
    pub fn from_stream(stream: &mut InputStream<'_, S>) -> (r: Result<Self, OpenError>)
        requires
            old(stream).wf(),
        ensures
            final(stream).wf(),
            final(stream).source().contents() == old(stream).source().contents(),
            match r {
                Ok(m) => m.wf() && (header_info(old(stream).source().contents()) matches Some(
                    info,
                ) && m.view() == MusicView::opened(info, false, false)),
                Err(_) => true,
            },
            header_info(old(stream).source().contents()) is None ==> r is Err,
            r matches Err(OpenError::Format) ==> header_info(
                old(stream).source().contents(),
            ) is None,
            old(stream).source().infallible() ==> (r is Ok <==> header_info(
                old(stream).source().contents(),
            ) is Some),
    {
        let mut new = Self::new()?;
        new.open_from_stream(stream)?;
        Ok(new)
    }

    /// A new music that owns the stream it was opened from.
    pub fn from_stream_owned(stream: InputStream<'src, S>) -> (r: Result<Self, OpenError>)
        requires
            stream.wf(),
        ensures
            match r {
                Ok(m) => m.wf() && (header_info(stream.source().contents()) matches Some(info)
                    && m.view() == MusicView::opened(info, true, false)),
                Err(_) => true,
            },
            header_info(stream.source().contents()) is None ==> r is Err,
            r matches Err(OpenError::Format) ==> header_info(stream.source().contents()) is None,
            stream.source().infallible() ==> (r is Ok <==> header_info(
                stream.source().contents(),
            ) is Some),
    {
        let mut new = Self::new()?;
        new.open_from_stream_owned(stream)?;
        Ok(new)
    }

    /// A new music opened from sound data in memory.
    pub fn from_memory(data: &[u8]) -> (r: Result<Self, OpenError>)
        ensures
            match header_info(data@) {
                Some(info) => r matches Ok(m) && m.wf() && m.view() == MusicView::opened(
                    info,
                    false,
                    false,
                ),
                None => r == Err::<Self, OpenError>(OpenError::Format),
            },
    {
        let mut new = Self::new()?;
        new.open_from_memory(data)?;
        Ok(new)
    }

    /// Starts or resumes playback; restarts from the beginning if playing.
    pub fn play(&mut self)
        requires
            old(self).wf(),
        ensures
            final(self).wf(),
            final(self).view() == old(self).view().played(),
    {
        if self.info.is_some() {
            if self.status == Status::Playing {
                self.cursor = 0;
            }
            self.status = Status::Playing;
        }
    }

    /// Pauses playback; has no effect unless playing.
    pub fn pause(&mut self)
        requires
            old(self).wf(),
        ensures
            final(self).wf(),
            final(self).view() == old(self).view().paused(),
    {
        if self.status == Status::Playing {
            self.status = Status::Paused;
        }
    }

    /// Stops playback and goes back to the beginning.
    pub fn stop(&mut self)
        requires
            old(self).wf(),
        ensures
            final(self).wf(),
            final(self).view() == old(self).view().stopped(),
    {
        self.status = Status::Stopped;
        self.cursor = 0;
    }

    /// The playback state.
    pub fn status(&self) -> (r: Status)
        ensures
            r == self.view().status,
    {
        self.status
    }

    /// Whether the music starts over when it reaches the end.
    pub fn is_looping(&self) -> (r: bool)
        ensures
            r == self.view().looping,
    {
        self.looping
    }

    /// Sets whether the music starts over when it reaches the end.
    pub fn set_looping(&mut self, looping: bool)
        requires
            old(self).wf(),
        ensures
            final(self).wf(),
            final(self).view() == (MusicView { looping, ..old(self).view() }),
    {
        self.looping = looping;
    }

    /// The total duration; zero when nothing is open.
    pub fn duration(&self) -> (r: Time)
        requires
            self.wf(),
        ensures
            r.microseconds == match self.view().info {
                Some(i) => self.view().time_of(i.frame_count as nat),
                None => 0,
            },
    {
        match self.info {
            Some(i) => frames_to_time(i.frame_count, i.sample_rate),
            None => Time::zero(),
        }
    }

    /// The number of channels; zero when nothing is open.
    pub fn channel_count(&self) -> (r: u32)
        ensures
            r == match self.view().info {
                Some(i) => i.channel_count,
                None => 0,
            },
    {
        match self.info {
            Some(i) => i.channel_count,
            None => 0,
        }
    }

    /// Samples per second on each channel; zero when nothing is open.
    pub fn sample_rate(&self) -> (r: u32)
        ensures
            r == match self.view().info {
                Some(i) => i.sample_rate,
                None => 0,
            },
    {
        match self.info {
            Some(i) => i.sample_rate,
            None => 0,
        }
    }

    /// The current playing position.
    pub fn playing_offset(&self) -> (r: Time)
        requires
            self.wf(),
        ensures
            r.microseconds == self.view().time_of(self.view().cursor),
    {
        match self.info {
            Some(i) => frames_to_time(self.cursor, i.sample_rate),
            None => Time::zero(),
        }
    }

    /// Moves the playing position of a playing or paused music.
    pub fn set_playing_offset(&mut self, time_offset: Time)
        requires
            old(self).wf(),
        ensures
            final(self).wf(),
            final(self).view() == old(self).view().with_cursor(time_offset.microseconds as int),
    {
        match self.info {
            Some(i) => {
                if self.status != Status::Stopped && time_offset.microseconds >= 0 {
                    let f = time_to_frames(time_offset, i.sample_rate);
                    self.cursor = if f <= i.frame_count as u128 {
                        f as u32
                    } else {
                        i.frame_count
                    };
                }
            },
            None => {},
        }
    }

    /// The loop window, with times on frame boundaries.
    pub fn loop_points(&self) -> (r: TimeSpan)
        requires
            self.wf(),
        ensures
            (r.offset.microseconds as int, r.length.microseconds as int)
                == self.view().loop_span(),
            0 <= r.offset.microseconds,
            0 <= r.length.microseconds,
            r.offset.microseconds + r.length.microseconds <= self.view().duration_micros(),
            (self.view().info matches Some(i) && i.frame_count > 0) ==> r.offset.microseconds
                < self.view().duration_micros() && 0 < r.length.microseconds,
    {
        proof {
            lemma_loop_span_in_bounds(self.view());
        }
        match self.info {
            Some(i) => {
                let start = frames_to_time(self.loop_start, i.sample_rate);
                let end = frames_to_time(self.loop_start + self.loop_len, i.sample_rate);
                TimeSpan {
                    offset: start,
                    length: Time::microseconds(end.microseconds - start.microseconds),
                }
            },
            None => TimeSpan { offset: Time::zero(), length: Time::zero() },
        }
    }

    /// Sets the loop window; see `MusicView::with_loop` for how it is rounded.
    pub fn set_loop_points(&mut self, time_points: TimeSpan)
        requires
            old(self).wf(),
        ensures
            final(self).wf(),
            final(self).view() == old(self).view().with_loop(
                time_points.offset.microseconds as int,
                time_points.length.microseconds as int,
            ),
    {
        let ghost v = self.view();
        match self.info {
            Some(i) => {
                let off = time_points.offset.microseconds;
                let len = time_points.length.microseconds;
                if off < 0 || len < 0 {
                    return;
                }
                let start = micros_to_frame_count(off as u128, i.sample_rate);
                let end = micros_to_frame_count(off as u128 + len as u128, i.sample_rate);
                if start >= i.frame_count as u128 || end <= start {
                    return;
                }
                let stop: u128 = if end <= i.frame_count as u128 {
                    end
                } else {
                    i.frame_count as u128
                };
                self.loop_start = start as u32;
                self.loop_len = (stop - start) as u32;
                proof {
                    let w = v.with_loop(off as int, len as int);
                    assert(self.view() == w);
                }
            },
            None => {},
        }
    }

    /// Which speaker each channel of a sample frame is meant for; empty when
    /// nothing is open.
    pub fn channel_map(&self) -> (r: Vec<SoundChannel>)
        ensures
            r@ == match self.view().info {
                Some(i) => channel_layout(i.channel_count as nat),
                None => Seq::<SoundChannel>::empty(),
            },
    {
            let n: u32 = match self.info {
            Some(i) => i.channel_count,
            None => {
                return Vec::new();
            },
        };
        let r = if n == 1 {
            vec![SoundChannel::Mono]
        } else if n == 2 {
            vec![SoundChannel::FrontLeft, SoundChannel::FrontRight]
        } else if n == 3 {
            vec![SoundChannel::FrontLeft, SoundChannel::FrontRight, SoundChannel::FrontCenter]
        } else if n == 4 {
            vec![SoundChannel::FrontLeft, SoundChannel::FrontRight, SoundChannel::BackLeft, SoundChannel::BackRight]
        } else if n == 5 {
            vec![SoundChannel::FrontLeft, SoundChannel::FrontRight, SoundChannel::FrontCenter, SoundChannel::BackLeft, SoundChannel::BackRight]
        } else if n == 6 {
            vec![SoundChannel::FrontLeft, SoundChannel::FrontRight, SoundChannel::FrontCenter, SoundChannel::LowFrequencyEffects, SoundChannel::BackLeft, SoundChannel::BackRight]
        } else if n == 7 {
            vec![
                SoundChannel::FrontLeft,
                SoundChannel::FrontRight,
                SoundChannel::FrontCenter,
                SoundChannel::LowFrequencyEffects,
                SoundChannel::BackCenter,
                SoundChannel::SideLeft,
                SoundChannel::SideRight,
            ]
        } else if n == 8 {
            vec![
                SoundChannel::FrontLeft,
                SoundChannel::FrontRight,
                SoundChannel::FrontCenter,
                SoundChannel::LowFrequencyEffects,
                SoundChannel::BackLeft,
                SoundChannel::BackRight,
                SoundChannel::SideLeft,
                SoundChannel::SideRight,
            ]
        } else {
            let mut v: Vec<SoundChannel> = Vec::new();
            let mut k: u32 = 0;
            while k < n
                invariant
                    k <= n,
                    v@ == Seq::new(k as nat, |i: int| SoundChannel::Unspecified),
                decreases n - k,
            {
                v.push(SoundChannel::Unspecified);
                k = k + 1;
                assert(v@ =~= Seq::new(k as nat, |i: int| SoundChannel::Unspecified));
            }
            v
        };
        assert(r@ =~= channel_layout(n as nat));
        r
    }
}

} // verus!
