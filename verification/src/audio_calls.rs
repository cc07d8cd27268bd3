//! Descriptors for the audio primitives: the one-shot sound effect and
//! music playback control.

use vstd::prelude::*;

use crate::sentinel::{bool_or, sentinel_i32, spec_bool_or, spec_sentinel_i32};

verus! {

/// The flat arguments of one sound-effect trigger, exactly as the raw
/// primitive reads them.
#[derive(Clone, Copy, Debug, PartialEq, Eq, Structural)]
pub struct SfxArgs {
    pub id: i32,
    pub note: i32,
    pub octave: i32,
    pub duration: i32,
    pub channel: i32,
    pub volume_left: i32,
    pub volume_right: i32,
    pub speed: i32,
}

/// An incrementally configured sound-effect trigger. Unset fields
/// resolve to the `-1` sentinel when the request is finalized.
#[derive(Clone, Copy, Debug, PartialEq, Eq, Structural)]
pub struct Sfx {
    pub note: Option<i32>,
    pub octave: Option<i32>,
    pub duration: Option<i32>,
    pub channel: Option<i32>,
    pub volume_left: Option<i32>,
    pub volume_right: Option<i32>,
    pub speed: Option<i32>,
}

impl Sfx {
    /// What finalizing this request encodes.
    pub open spec fn spec_build(self, id: i32) -> SfxArgs {
        SfxArgs {
            id,
            note: spec_sentinel_i32(self.note),
            octave: spec_sentinel_i32(self.octave),
            duration: spec_sentinel_i32(self.duration),
            channel: spec_sentinel_i32(self.channel),
            volume_left: spec_sentinel_i32(self.volume_left),
            volume_right: spec_sentinel_i32(self.volume_right),
            speed: spec_sentinel_i32(self.speed),
        }
    }

    /// A request with every field unset.
    pub fn new() -> (r: Sfx)
        ensures
            r == (Sfx {
                note: None,
                octave: None,
                duration: None,
                channel: None,
                volume_left: None,
                volume_right: None,
                speed: None,
            }),
    {
        Sfx {
            note: None,
            octave: None,
            duration: None,
            channel: None,
            volume_left: None,
            volume_right: None,
            speed: None,
        }
    }

    /// Sets the note within the octave.
    pub fn note(self, note: i32) -> (r: Sfx)
        ensures
            r == (Sfx { note: Some(note), ..self }),
    {
        Sfx { note: Some(note), ..self }
    }

    /// Sets the octave.
    pub fn octave(self, octave: i32) -> (r: Sfx)
        ensures
            r == (Sfx { octave: Some(octave), ..self }),
    {
        Sfx { octave: Some(octave), ..self }
    }

    /// Sets the duration in frames.
    pub fn duration(self, duration: i32) -> (r: Sfx)
        ensures
            r == (Sfx { duration: Some(duration), ..self }),
    {
        Sfx { duration: Some(duration), ..self }
    }

    /// Sets the mixer channel.
    pub fn channel(self, channel: i32) -> (r: Sfx)
        ensures
            r == (Sfx { channel: Some(channel), ..self }),
    {
        Sfx { channel: Some(channel), ..self }
    }

    /// Sets the left-speaker volume.
    pub fn volume_left(self, volume_left: i32) -> (r: Sfx)
        ensures
            r == (Sfx { volume_left: Some(volume_left), ..self }),
    {
        Sfx { volume_left: Some(volume_left), ..self }
    }

    /// Sets the right-speaker volume.
    pub fn volume_right(self, volume_right: i32) -> (r: Sfx)
        ensures
            r == (Sfx { volume_right: Some(volume_right), ..self }),
    {
        Sfx { volume_right: Some(volume_right), ..self }
    }

    /// Sets the playback speed.
    pub fn speed(self, speed: i32) -> (r: Sfx)
        ensures
            r == (Sfx { speed: Some(speed), ..self }),
    {
        Sfx { speed: Some(speed), ..self }
    }

    /// Finalizes the request for the given effect id.
    pub fn sfx(self, id: i32) -> (r: SfxArgs)
        ensures
            r == self.spec_build(id),
    {
        SfxArgs {
            id,
            note: sentinel_i32(self.note),
            octave: sentinel_i32(self.octave),
            duration: sentinel_i32(self.duration),
            channel: sentinel_i32(self.channel),
            volume_left: sentinel_i32(self.volume_left),
            volume_right: sentinel_i32(self.volume_right),
            speed: sentinel_i32(self.speed),
        }
    }
}

/// What the flat call form encodes, per optional parameter.
pub open spec fn spec_sfx_args(
    id: i32,
    note: Option<i32>,
    octave: Option<i32>,
    duration: Option<i32>,
    channel: Option<i32>,
    volume_left: Option<i32>,
    volume_right: Option<i32>,
    speed: Option<i32>,
) -> SfxArgs {
    SfxArgs {
        id,
        note: spec_sentinel_i32(note),
        octave: spec_sentinel_i32(octave),
        duration: spec_sentinel_i32(duration),
        channel: spec_sentinel_i32(channel),
        volume_left: spec_sentinel_i32(volume_left),
        volume_right: spec_sentinel_i32(volume_right),
        speed: spec_sentinel_i32(speed),
    }
}

/// The flat call form of the sound-effect trigger.
pub fn sfx_args(
    id: i32,
    note: Option<i32>,
    octave: Option<i32>,
    duration: Option<i32>,
    channel: Option<i32>,
    volume_left: Option<i32>,
    volume_right: Option<i32>,
    speed: Option<i32>,
) -> (r: SfxArgs)
    ensures
        r == spec_sfx_args(id, note, octave, duration, channel, volume_left, volume_right, speed),
{
    SfxArgs {
        id,
        note: sentinel_i32(note),
        octave: sentinel_i32(octave),
        duration: sentinel_i32(duration),
        channel: sentinel_i32(channel),
        volume_left: sentinel_i32(volume_left),
        volume_right: sentinel_i32(volume_right),
        speed: sentinel_i32(speed),
    }
}

/// For every choice of optional parameters, the flat call form and the
/// incremental request form encode the same flat arguments.
pub proof fn lemma_sfx_forms_agree(
    id: i32,
    note: Option<i32>,
    octave: Option<i32>,
    duration: Option<i32>,
    channel: Option<i32>,
    volume_left: Option<i32>,
    volume_right: Option<i32>,
    speed: Option<i32>,
)
    ensures
        (Sfx { note, octave, duration, channel, volume_left, volume_right, speed }).spec_build(id)
            == spec_sfx_args(
            id,
            note,
            octave,
            duration,
            channel,
            volume_left,
            volume_right,
            speed,
        ),
{
}

/// The flat arguments of the music-control primitive, exactly as the
/// raw primitive reads them.
#[derive(Clone, Copy, Debug, PartialEq, Eq, Structural)]
pub struct MusicArgs {
    pub track: i32,
    pub frame: i32,
    pub row: i32,
    pub loop_music: bool,
    pub sustain: bool,
    pub tempo: i32,
    pub speed: i32,
}

/// An incrementally configured music-control request. Unset integer
/// fields resolve to the `-1` sentinel; the booleans have no absent
/// sentinel, looping defaulting to on and sustain to off.
#[derive(Clone, Copy, Debug, PartialEq, Eq, Structural)]
pub struct Music {
    pub track: Option<i32>,
    pub frame: Option<i32>,
    pub row: Option<i32>,
    pub loop_music: Option<bool>,
    pub sustain: Option<bool>,
    pub tempo: Option<i32>,
    pub speed: Option<i32>,
}

impl Music {
    /// What finalizing this request encodes.
    pub open spec fn spec_build(self) -> MusicArgs {
        MusicArgs {
            track: spec_sentinel_i32(self.track),
            frame: spec_sentinel_i32(self.frame),
            row: spec_sentinel_i32(self.row),
            loop_music: spec_bool_or(self.loop_music, true),
            sustain: spec_bool_or(self.sustain, false),
            tempo: spec_sentinel_i32(self.tempo),
            speed: spec_sentinel_i32(self.speed),
        }
    }

    /// A request with every field unset; finalized as it stands it stops
    /// the music, since the track falls back to the `-1` sentinel.
    pub fn new() -> (r: Music)
        ensures
            r == (Music {
                track: None,
                frame: None,
                row: None,
                loop_music: None,
                sustain: None,
                tempo: None,
                speed: None,
            }),
    {
        Music {
            track: None,
            frame: None,
            row: None,
            loop_music: None,
            sustain: None,
            tempo: None,
            speed: None,
        }
    }

    /// Sets the track to play.
    pub fn track(self, track: i32) -> (r: Music)
        ensures
            r == (Music { track: Some(track), ..self }),
    {
        Music { track: Some(track), ..self }
    }

    /// Sets the pattern frame to start at.
    pub fn frame(self, frame: i32) -> (r: Music)
        ensures
            r == (Music { frame: Some(frame), ..self }),
    {
        Music { frame: Some(frame), ..self }
    }

    /// Sets the row to start at.
    pub fn row(self, row: i32) -> (r: Music)
        ensures
            r == (Music { row: Some(row), ..self }),
    {
        Music { row: Some(row), ..self }
    }

    /// Sets whether the track loops.
    pub fn loop_music(self, loop_music: bool) -> (r: Music)
        ensures
            r == (Music { loop_music: Some(loop_music), ..self }),
    {
        Music { loop_music: Some(loop_music), ..self }
    }

    /// Sets whether notes sustain.
    pub fn sustain(self, sustain: bool) -> (r: Music)
        ensures
            r == (Music { sustain: Some(sustain), ..self }),
    {
        Music { sustain: Some(sustain), ..self }
    }

    /// Sets the tempo.
    pub fn tempo(self, tempo: i32) -> (r: Music)
        ensures
            r == (Music { tempo: Some(tempo), ..self }),
    {
        Music { tempo: Some(tempo), ..self }
    }

    /// Sets the playback speed.
    pub fn speed(self, speed: i32) -> (r: Music)
        ensures
            r == (Music { speed: Some(speed), ..self }),
    {
        Music { speed: Some(speed), ..self }
    }

    /// Finalizes the request into the raw call's flat arguments.
    pub fn music(&self) -> (r: MusicArgs)
        ensures
            r == self.spec_build(),
    {
        MusicArgs {
            track: sentinel_i32(self.track),
            frame: sentinel_i32(self.frame),
            row: sentinel_i32(self.row),
            loop_music: bool_or(self.loop_music, true),
            sustain: bool_or(self.sustain, false),
            tempo: sentinel_i32(self.tempo),
            speed: sentinel_i32(self.speed),
        }
    }
}

/// What the flat call form encodes, per optional parameter.
pub open spec fn spec_music_args(
    track: Option<i32>,
    frame: Option<i32>,
    row: Option<i32>,
    loop_music: Option<bool>,
    sustain: Option<bool>,
    tempo: Option<i32>,
    speed: Option<i32>,
) -> MusicArgs {
    MusicArgs {
        track: spec_sentinel_i32(track),
        frame: spec_sentinel_i32(frame),
        row: spec_sentinel_i32(row),
        loop_music: spec_bool_or(loop_music, true),
        sustain: spec_bool_or(sustain, false),
        tempo: spec_sentinel_i32(tempo),
        speed: spec_sentinel_i32(speed),
    }
}

/// The flat call form of the music-control primitive: every optional
/// parameter in one call, absent integers encoding to the sentinel,
/// absent looping to on and absent sustain to off.
pub fn music_args(
    track: Option<i32>,
    frame: Option<i32>,
    row: Option<i32>,
    loop_music: Option<bool>,
    sustain: Option<bool>,
    tempo: Option<i32>,
    speed: Option<i32>,
) -> (r: MusicArgs)
    ensures
        r == spec_music_args(track, frame, row, loop_music, sustain, tempo, speed),
{
    MusicArgs {
        track: sentinel_i32(track),
        frame: sentinel_i32(frame),
        row: sentinel_i32(row),
        loop_music: bool_or(loop_music, true),
        sustain: bool_or(sustain, false),
        tempo: sentinel_i32(tempo),
        speed: sentinel_i32(speed),
    }
}

/// For every choice of optional parameters, the flat call form and the
/// incremental request form encode the same flat arguments.
pub proof fn lemma_music_forms_agree(
    track: Option<i32>,
    frame: Option<i32>,
    row: Option<i32>,
    loop_music: Option<bool>,
    sustain: Option<bool>,
    tempo: Option<i32>,
    speed: Option<i32>,
)
    ensures
        (Music { track, frame, row, loop_music, sustain, tempo, speed }).spec_build()
            == spec_music_args(track, frame, row, loop_music, sustain, tempo, speed),
{
}

} // verus!
