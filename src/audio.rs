//! Volume settings. Volumes are counted in tenths: 10 is the sound's own
//! loudness, 0 is silence, and the settings menu moves them by one tenth
//! between 0 and 30.
use vstd::prelude::*;

use crate::text::{decimal, decimal_padded, pad_left};

verus! {

/// Lowest volume the settings menu goes down to, in tenths.
pub const MIN_VOLUME: u32 = 0;

/// Highest volume the settings menu goes up to, in tenths.
pub const MAX_VOLUME: u32 = 30;

/// The three volumes that can be set.
#[derive(Debug, Clone, Copy, PartialEq, Eq, Structural)]
pub enum VolumeType {
    Master,
    Music,
    Sfx,
}

/// Display name of a volume.
pub open spec fn volume_type_name(t: VolumeType) -> Seq<char> {
    match t {
        VolumeType::Master => "Master"@,
        VolumeType::Music => "Music"@,
        VolumeType::Sfx => "SFX"@,
    }
}

impl VolumeType {
    /// Display name of the volume.
    pub fn to_string(&self) -> (r: String)
        ensures
            r@ == volume_type_name(*self),
    {
        match self {
            VolumeType::Master => String::from_str("Master"),
            VolumeType::Music => String::from_str("Music"),
            VolumeType::Sfx => String::from_str("SFX"),
        }
    }

    /// Caption of the volume's row in the settings menu.
    pub fn label_text(&self) -> (r: String)
        ensures
            r@ == volume_type_name(*self) + " Volume"@,
    {
        let mut r = self.to_string();
        r.append(" Volume");
        r
    }
}

/// The volume one step below `v`, but not below the minimum.
pub open spec fn lowered(v: u32) -> u32 {
    if v <= MIN_VOLUME + 1 {
        MIN_VOLUME
    } else {
        (v - 1) as u32
    }
}

/// The volume one step above `v`, but not above the maximum.
pub open spec fn raised(v: u32) -> u32 {
    if v + 1 >= MAX_VOLUME {
        MAX_VOLUME
    } else {
        (v + 1) as u32
    }
}

/// The text that shows a volume as a percentage, right-aligned on three
/// characters.
pub open spec fn volume_percent_text(v: u32) -> Seq<char> {
    pad_left(decimal((10 * v) as nat), 3) + "%"@
}

/// Volumes of the game, in tenths.
#[derive(Debug, Clone, Copy, PartialEq, Eq, Structural)]
pub struct AudioSettings {
    pub master_volume: u32,
    pub sfx_volume: u32,
    pub music_volume: u32,
}

impl Default for AudioSettings {
    fn default() -> (r: AudioSettings)
        ensures
            r == (AudioSettings { master_volume: 5, sfx_volume: 5, music_volume: 5 }),
    {
        AudioSettings { master_volume: 5, music_volume: 5, sfx_volume: 5 }
    }
}

impl AudioSettings {
    /// The volume of the given kind.
    pub open spec fn volume_of(self, t: VolumeType) -> u32 {
        match t {
            VolumeType::Master => self.master_volume,
            VolumeType::Music => self.music_volume,
            VolumeType::Sfx => self.sfx_volume,
        }
    }

    /// The settings with the volume of kind `t` set to `v`.
    pub open spec fn with_volume(self, t: VolumeType, v: u32) -> AudioSettings {
        match t {
            VolumeType::Master => AudioSettings { master_volume: v, ..self },
            VolumeType::Music => AudioSettings { music_volume: v, ..self },
            VolumeType::Sfx => AudioSettings { sfx_volume: v, ..self },
        }
    }

    pub fn set_volume(&mut self, volume_type: VolumeType, value: u32)
        ensures
            *final(self) == old(self).with_volume(volume_type, value),
    {
        match volume_type {
            VolumeType::Master => self.master_volume = value,
            VolumeType::Music => self.music_volume = value,
            VolumeType::Sfx => self.sfx_volume = value,
        }
    }

    pub fn get_volume(&self, volume_type: VolumeType) -> (r: u32)
        ensures
            r == self.volume_of(volume_type),
    {
        match volume_type {
            VolumeType::Master => self.master_volume,
            VolumeType::Music => self.music_volume,
            VolumeType::Sfx => self.sfx_volume,
        }
    }

    /// Turns one volume down by one step, not below the minimum.
    pub fn lower_volume(&mut self, volume_type: VolumeType)
        ensures
            *final(self) == old(self).with_volume(
                volume_type,
                lowered(old(self).volume_of(volume_type)),
            ),
    {
        let v = self.get_volume(volume_type);
        let next = if v <= MIN_VOLUME + 1 {
            MIN_VOLUME
        } else {
            v - 1
        };
        self.set_volume(volume_type, next);
    }

    /// Turns one volume up by one step, not above the maximum.
    pub fn raise_volume(&mut self, volume_type: VolumeType)
        ensures
            *final(self) == old(self).with_volume(
                volume_type,
                raised(old(self).volume_of(volume_type)),
            ),
    {
        let v = self.get_volume(volume_type);
        let next = if v >= MAX_VOLUME - 1 {
            MAX_VOLUME
        } else {
            v + 1
        };
        self.set_volume(volume_type, next);
    }

    /// Loudness of music, in hundredths: the master volume times the music
    /// volume.
    pub fn music_volume(&self) -> (r: u64)
        ensures
            r == self.master_volume * self.music_volume,
    {
        proof {
            let (a, b) = (self.master_volume as int, self.music_volume as int);
            assert(a * b <= 0xffff_ffff * 0xffff_ffff) by (nonlinear_arith)
                requires
                    0 <= a <= 0xffff_ffff,
                    0 <= b <= 0xffff_ffff,
            ;
        }
        self.master_volume as u64 * self.music_volume as u64
    }

    /// Loudness of sound effects, in hundredths: the master volume times the
    /// effects volume.
    pub fn sfx_volume(&self) -> (r: u64)
        ensures
            r == self.master_volume * self.sfx_volume,
    {
        proof {
            let (a, b) = (self.master_volume as int, self.sfx_volume as int);
            assert(a * b <= 0xffff_ffff * 0xffff_ffff) by (nonlinear_arith)
                requires
                    0 <= a <= 0xffff_ffff,
                    0 <= b <= 0xffff_ffff,
            ;
        }
        self.master_volume as u64 * self.sfx_volume as u64
    }

    /// The text of a volume as a percentage, as the settings menu shows it.
    pub fn volume_text(&self, volume_type: VolumeType) -> (r: String)
        ensures
            r@ == volume_percent_text(self.volume_of(volume_type)),
    {
        let percent = 10 * (self.get_volume(volume_type) as u64);
        let mut r = decimal_padded(percent, 3);
        r.append("%");
        r
    }
}

/// Within the range of the menu, one step up and one step down come back
/// to the same volume.
pub proof fn lemma_raise_then_lower(v: u32)
    requires
        MIN_VOLUME <= v < MAX_VOLUME,
    ensures
        lowered(raised(v)) == v,
{
}

/// Within the range of the menu, one step down and one step up come back
/// to the same volume.
pub proof fn lemma_lower_then_raise(v: u32)
    requires
        MIN_VOLUME < v <= MAX_VOLUME,
    ensures
        raised(lowered(v)) == v,
{
}

/// Steps of the menu never take a volume out of its range.
pub proof fn lemma_steps_stay_in_range(v: u32)
    requires
        MIN_VOLUME <= v <= MAX_VOLUME,
    ensures
        MIN_VOLUME <= lowered(v) <= MAX_VOLUME,
        MIN_VOLUME <= raised(v) <= MAX_VOLUME,
{
}

} // verus!
