//! What the library hands to the audio player and what it hears back from it.
use vstd::prelude::*;

use crate::config::opt_string_view;

verus! {

/// An instruction for the audio player.
#[derive(Debug)]
pub enum PlayerCommand {
    /// Start the stream at the URL at the given volume (0 to 100).
    Play(String, u8),
    TogglePause,
    SetVolume(u8),
    Quit,
}

/// The value of a player instruction.
pub enum PlayerCommandV {
    Play(Seq<char>, u8),
    TogglePause,
    SetVolume(u8),
    Quit,
}

impl View for PlayerCommand {
    type V = PlayerCommandV;

    open spec fn view(&self) -> PlayerCommandV {
        match self {
            PlayerCommand::Play(u, v) => PlayerCommandV::Play(u@, *v),
            PlayerCommand::TogglePause => PlayerCommandV::TogglePause,
            PlayerCommand::SetVolume(v) => PlayerCommandV::SetVolume(*v),
            PlayerCommand::Quit => PlayerCommandV::Quit,
        }
    }
}

/// The value of an optional player instruction.
pub open spec fn opt_command_view(c: Option<PlayerCommand>) -> Option<PlayerCommandV> {
    match c {
        Some(c) => Some(c@),
        None => None,
    }
}

/// A report from the player. Playback position and stream length are
/// floating-point seconds in the player; they are carried here as the bit
/// patterns of those `f64` values (`f64::to_bits`), which nothing in the
/// library reads.
#[derive(Clone, Debug)]
pub struct MetadataUpdate {
    pub title: Option<String>,
    pub time_pos: Option<u64>,
    pub duration: Option<u64>,
    pub paused: bool,
    pub error: Option<String>,
}

/// The value of a player report.
pub struct MetadataUpdateV {
    pub title: Option<Seq<char>>,
    pub time_pos: Option<u64>,
    pub duration: Option<u64>,
    pub paused: bool,
    pub error: Option<Seq<char>>,
}

impl View for MetadataUpdate {
    type V = MetadataUpdateV;

    open spec fn view(&self) -> MetadataUpdateV {
        MetadataUpdateV {
            title: opt_string_view(self.title),
            time_pos: self.time_pos,
            duration: self.duration,
            paused: self.paused,
            error: opt_string_view(self.error),
        }
    }
}

} // verus!
