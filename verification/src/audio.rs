//! Sound playback with user-adjustable music and sound-effect volume.
//!
//! The mixer itself is hardware; this module keeps everything the game
//! decides about sound: the two volume settings (0 mute ..= `MAX_VOLUME`),
//! whether music is playing, and the queue of mixer commands that the
//! current frame produced.  Music is one looping high-priority channel
//! (the mixer never steals it to play an effect); sound effects are
//! fire-and-forget channels.
use vstd::prelude::*;

verus! {

/// The loudest volume setting.
pub const MAX_VOLUME: u8 = 10;

/// The music tracks.
#[derive(Clone, Copy, PartialEq, Eq, Structural, Debug)]
pub enum Music {
    Title,
    Overworld,
    Platform,
}

/// The sound effects.
#[derive(Clone, Copy, PartialEq, Eq, Structural, Debug)]
pub enum Sfx {
    Jump,
    Stomp,
    Hurt,
    LoseLife,
    WinLevel,
    EnemyDeath,
    TalkBlip,
    MenuMove,
    MenuSelect,
    SaveChime,
}

/// One instruction for the mixer.  Gains are fixed-point numbers with 8
/// fractional bits (`256` is full volume).
#[derive(Clone, Copy, PartialEq, Eq, Structural, Debug)]
pub enum MixerCommand {
    /// Start `track` looping on the high-priority music channel.
    PlayMusic { track: Music, gain: i16 },
    /// Stop the music channel.
    StopMusic,
    /// Change the gain of the music channel.
    SetMusicGain { gain: i16 },
    /// Play `effect` once on a normal-priority channel.
    PlaySfx { effect: Sfx, gain: i16 },
}

/// The mixer gain for a user volume: the volume (counted as `MAX_VOLUME`
/// when above it) over `MAX_VOLUME`, in fixed point with 8 fractional bits,
/// rounded down.
pub open spec fn spec_gain(volume: u8) -> i16 {
    ((capped(volume) * 256) / 10) as i16
}

/// Convert a user volume into the mixer's fixed-point gain.
pub fn gain(volume: u8) -> (g: i16)
    ensures
        g == spec_gain(volume),
        0 <= g <= 256,
{
    let v: u8 = if volume < MAX_VOLUME { volume } else { MAX_VOLUME };
    let q: i32 = (v as i32) * 256 / 10;
    q as i16
}

/// The smaller of a volume and `MAX_VOLUME`.
pub open spec fn capped(volume: u8) -> u8 {
    if volume < MAX_VOLUME {
        volume
    } else {
        MAX_VOLUME
    }
}

/// Law: a volume setting never exceeds `MAX_VOLUME`, and a setting within
/// range is kept as it is.
pub proof fn law_volume_capped(volume: u8)
    ensures
        capped(volume) <= MAX_VOLUME,
        volume <= MAX_VOLUME ==> capped(volume) == volume,
{
}

/// Requesting sound effects keeps the queue so far and adds sound-effect
/// commands only.
pub proof fn lemma_after_sfxs_extends(pending: Seq<MixerCommand>, sfx_volume: u8, effects: Seq<Sfx>)
    ensures
        Audio::after_sfxs(pending, sfx_volume, effects).len() >= pending.len(),
        forall|i: int|
            0 <= i < pending.len() ==> #[trigger] Audio::after_sfxs(pending, sfx_volume, effects)[i] == pending[i],
        forall|i: int|
            pending.len() <= i < Audio::after_sfxs(pending, sfx_volume, effects).len()
                ==> (#[trigger] Audio::after_sfxs(pending, sfx_volume, effects)[i] is PlaySfx),
    decreases effects.len(),
{
    if effects.len() > 0 {
        lemma_after_sfxs_extends(pending, sfx_volume, effects.drop_last());
    }
}

/// What the game knows about the mixer.
#[derive(Debug)]
pub struct Audio {
    /// Whether the music channel is playing a track.
    pub music_playing: bool,
    pub music_volume: u8,
    pub sfx_volume: u8,
    /// Commands produced since the last frame, oldest first.
    pub pending: Vec<MixerCommand>,
}

impl Audio {
    /// The queue after a sound effect was requested: nothing when sound
    /// effects are muted, otherwise one more `PlaySfx`.
    pub open spec fn after_sfx(pending: Seq<MixerCommand>, sfx_volume: u8, effect: Sfx) -> Seq<
        MixerCommand,
    > {
        if sfx_volume == 0 {
            pending
        } else {
            pending.push(MixerCommand::PlaySfx { effect, gain: spec_gain(sfx_volume) })
        }
    }

    /// The queue after each of `effects` was requested in turn.
    pub open spec fn after_sfxs(pending: Seq<MixerCommand>, sfx_volume: u8, effects: Seq<Sfx>) -> Seq<
        MixerCommand,
    >
        decreases effects.len(),
    {
        if effects.len() == 0 {
            pending
        } else {
            Self::after_sfx(
                Self::after_sfxs(pending, sfx_volume, effects.drop_last()),
                sfx_volume,
                effects.last(),
            )
        }
    }

    /// The queue after `play_music(track)`: the old music stops (if any
    /// played), then `track` starts at the music volume.
    pub open spec fn after_play(self, track: Music) -> Seq<MixerCommand> {
        if self.music_playing {
            self.pending@.push(MixerCommand::StopMusic).push(
                MixerCommand::PlayMusic { track, gain: spec_gain(self.music_volume) },
            )
        } else {
            self.pending@.push(MixerCommand::PlayMusic { track, gain: spec_gain(self.music_volume) })
        }
    }

    /// Audio with nothing playing and the given volumes (capped at
    /// `MAX_VOLUME`).
    pub fn new(music_volume: u8, sfx_volume: u8) -> (a: Audio)
        ensures
            !a.music_playing,
            a.music_volume == capped(music_volume),
            a.sfx_volume == capped(sfx_volume),
            a.pending@ == Seq::<MixerCommand>::empty(),
    {
        Audio {
            music_playing: false,
            music_volume: if music_volume < MAX_VOLUME { music_volume } else { MAX_VOLUME },
            sfx_volume: if sfx_volume < MAX_VOLUME { sfx_volume } else { MAX_VOLUME },
            pending: Vec::new(),
        }
    }

    /// Hands over (and forgets) the commands queued since the last frame.
    /// Must be called once per game frame.
    pub fn frame(&mut self) -> (commands: Vec<MixerCommand>)
        ensures
            commands@ == old(self).pending@,
            final(self).pending@ == Seq::<MixerCommand>::empty(),
            final(self).music_playing == old(self).music_playing,
            final(self).music_volume == old(self).music_volume,
            final(self).sfx_volume == old(self).sfx_volume,
    {
        let mut commands: Vec<MixerCommand> = Vec::new();
        std::mem::swap(&mut commands, &mut self.pending);
        commands
    }

    /// Stop the current music (if any) and start a new looping track.
    pub fn play_music(&mut self, track: Music)
        ensures
            final(self).music_playing,
            final(self).music_volume == old(self).music_volume,
            final(self).sfx_volume == old(self).sfx_volume,
            final(self).pending@ == old(self).after_play(track),
    {
        self.stop_music();
        let g = gain(self.music_volume);
        self.pending.push(MixerCommand::PlayMusic { track, gain: g });
        self.music_playing = true;
    }

    /// Stop the music, if any is playing.
    pub fn stop_music(&mut self)
        ensures
            !final(self).music_playing,
            final(self).music_volume == old(self).music_volume,
            final(self).sfx_volume == old(self).sfx_volume,
            final(self).pending@ == if old(self).music_playing {
                old(self).pending@.push(MixerCommand::StopMusic)
            } else {
                old(self).pending@
            },
    {
        if self.music_playing {
            self.music_playing = false;
            self.pending.push(MixerCommand::StopMusic);
        }
    }

    /// Play a one-shot sound effect (nothing when sound effects are muted).
    pub fn sfx(&mut self, effect: Sfx)
        ensures
            final(self).music_playing == old(self).music_playing,
            final(self).music_volume == old(self).music_volume,
            final(self).sfx_volume == old(self).sfx_volume,
            final(self).pending@ == Self::after_sfx(old(self).pending@, old(self).sfx_volume, effect),
    {
        if self.sfx_volume == 0 {
            return;
        }
        let g = gain(self.sfx_volume);
        self.pending.push(MixerCommand::PlaySfx { effect, gain: g });
    }

    pub fn music_volume(&self) -> (v: u8)
        ensures
            v == self.music_volume,
    {
        self.music_volume
    }

    pub fn sfx_volume(&self) -> (v: u8)
        ensures
            v == self.sfx_volume,
    {
        self.sfx_volume
    }

    /// Change the music volume (capped at `MAX_VOLUME`), applying it at
    /// once to whatever is playing.
    pub fn set_music_volume(&mut self, volume: u8)
        ensures
            final(self).music_volume == capped(volume),
            final(self).music_playing == old(self).music_playing,
            final(self).sfx_volume == old(self).sfx_volume,
            final(self).pending@ == if old(self).music_playing {
                old(self).pending@.push(MixerCommand::SetMusicGain { gain: spec_gain(capped(volume)) })
            } else {
                old(self).pending@
            },
    {
        self.music_volume = if volume < MAX_VOLUME { volume } else { MAX_VOLUME };
        if self.music_playing {
            let g = gain(self.music_volume);
            self.pending.push(MixerCommand::SetMusicGain { gain: g });
        }
    }

    /// Change the sound-effect volume (capped at `MAX_VOLUME`).
    pub fn set_sfx_volume(&mut self, volume: u8)
        ensures
            final(self).sfx_volume == capped(volume),
            final(self).music_playing == old(self).music_playing,
            final(self).music_volume == old(self).music_volume,
            final(self).pending@ == old(self).pending@,
    {
        self.sfx_volume = if volume < MAX_VOLUME { volume } else { MAX_VOLUME };
    }
}

} // verus!
