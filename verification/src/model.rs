//! The shared vocabulary of the crate: front-end mode selection, the error
//! taxonomy, the command and event protocol between a controller and the
//! playback engine, and the header-strip configuration constants.

use vstd::prelude::*;

use crate::duration::PlayDuration;
use crate::pcap::Pcap;
use crate::player::PlayerState;

verus! {

/// Fixed link-layer header size assumed at the front of every captured
/// payload; configuration, not derived from the file.
pub const ETHERNET_HEADER_LENGTH: usize = 13;

/// Fixed network-layer header size assumed after the link-layer header.
pub const IP_HEADER_LENGTH: usize = 20;

/// Fixed transport-layer header size assumed after the network-layer header.
pub const UDP_HEADER_LENGTH: usize = 8;

/// How many leading payload bytes are stripped before transmission: the
/// three assumed header sizes plus one.
pub const STRIP_HEADERS_INDEX: usize = ETHERNET_HEADER_LENGTH + IP_HEADER_LENGTH
    + UDP_HEADER_LENGTH + 1;

/// Which front-end drives the player.
#[derive(Copy, Clone, Debug, PartialEq, Eq, Structural)]
pub enum Mode {
    Cli,
    Gui,
}

/// What `Mode::from_str` returns: the ASCII-case-insensitive match against
/// the two mode names, anything else rejected.
pub open spec fn spec_mode_from(s: Seq<char>) -> Result<Mode, Error> {
    if s.len() == 3 && (s[0] == 'c' || s[0] == 'C') && (s[1] == 'l' || s[1] == 'L') && (s[2]
        == 'i' || s[2] == 'I') {
        Ok(Mode::Cli)
    } else if s.len() == 3 && (s[0] == 'g' || s[0] == 'G') && (s[1] == 'u' || s[1] == 'U') && (s[2]
        == 'i' || s[2] == 'I') {
        Ok(Mode::Gui)
    } else {
        Err(Error::ArgumentError)
    }
}

impl Mode {
    /// Parses a mode name, ignoring ASCII case.
    pub fn from_str(s: &str) -> (r: Result<Mode, Error>)
        ensures
            r == spec_mode_from(s@),
    {
        let len = s.unicode_len();
        if len != 3 {
            return Err(Error::ArgumentError);
        }
        let c0 = s.get_char(0);
        let c1 = s.get_char(1);
        let c2 = s.get_char(2);
        if (c0 == 'c' || c0 == 'C') && (c1 == 'l' || c1 == 'L') && (c2 == 'i' || c2 == 'I') {
            Ok(Mode::Cli)
        } else if (c0 == 'g' || c0 == 'G') && (c1 == 'u' || c1 == 'U') && (c2 == 'i' || c2
            == 'I') {
            Ok(Mode::Gui)
        } else {
            Err(Error::ArgumentError)
        }
    }
}

/// Everything that can go wrong, from argument validation to a lost
/// command channel.
#[derive(Clone, Debug)]
pub enum Error {
    ArgumentError,
    ParsePcapError,
    ParsePcapNgError,
    PlayerInitError,
    FileTypeNotSupported(String),
    CommandChannelError,
}

/// A parsed recording, tagged by trace format; only the first variant has
/// a playback implementation.
#[allow(non_camel_case_types)]
pub enum Recording {
    PCAP(Pcap),
    PCAPNG,
}

/// A command a controller sends to the player.
#[derive(Copy, Clone, Debug, PartialEq, Eq, Structural)]
pub enum Command {
    Play,
    Pause,
    Rewind,
    Quit,
    Unspecified,
}

impl Command {
    /// The menu labels a terminal front-end offers, in command order, with
    /// a trailing blank line for the progress bar.
    pub fn as_vec() -> (v: Vec<&'static str>)
        ensures
            v@.len() == 5,
            v@[0]@ == "Play"@,
            v@[1]@ == "Pause"@,
            v@[2]@ == "Rewind"@,
            v@[3]@ == "Quit"@,
            v@[4]@ == ""@,
    {
        let mut v: Vec<&'static str> = Vec::new();
        v.push("Play");
        v.push("Pause");
        v.push("Rewind");
        v.push("Quit");
        v.push("");
        v
    }
}

impl From<usize> for Command {
    /// Maps a menu index to its command; out-of-range input is the no-op
    /// marker.
    fn from(value: usize) -> (r: Self) {
        match value {
            0 => Command::Play,
            1 => Command::Pause,
            2 => Command::Rewind,
            3 => Command::Quit,
            _ => Command::Unspecified,
        }
    }
}

impl vstd::std_specs::convert::FromSpecImpl<usize> for Command {
    open spec fn obeys_from_spec() -> bool {
        true
    }

    open spec fn from_spec(v: usize) -> Self {
        if v == 0 {
            Command::Play
        } else if v == 1 {
            Command::Pause
        } else if v == 2 {
            Command::Rewind
        } else if v == 3 {
            Command::Quit
        } else {
            Command::Unspecified
        }
    }
}

/// A state-transition notification.
#[derive(Copy, Clone, Debug, PartialEq, Eq, Structural)]
pub struct StateChange {
    pub state: PlayerState,
}

/// A progress notification: 1-based position, total packet count, elapsed
/// playback time and total recording time.
#[derive(Copy, Clone, Debug, PartialEq, Eq, Structural)]
pub struct PositionChange {
    pub position: usize,
    pub max_position: usize,
    pub time_position: PlayDuration,
    pub time_total: PlayDuration,
}

impl Default for PositionChange {
    /// The baseline position before any playback: everything zero.
    fn default() -> (d: Self)
        ensures
            d.position == 0,
            d.max_position == 0,
            d.time_position.wf() && d.time_position.as_nanos() == 0,
            d.time_total.wf() && d.time_total.as_nanos() == 0,
    {
        PositionChange {
            position: 0,
            max_position: 0,
            time_position: PlayDuration::zero(),
            time_total: PlayDuration::zero(),
        }
    }
}

/// A notification the player emits to its observers.
#[derive(Clone, Debug)]
pub enum Event {
    Error(Error),
    PlayerReady,
    PlayerStateChanged(StateChange),
    PlayerPositionChanged(PositionChange),
    QuitCommanded,
}

impl Event {
    /// Wraps a state transition as an event.
    pub fn state_event(state: PlayerState) -> (e: Self)
        ensures
            e == Event::PlayerStateChanged(StateChange { state }),
    {
        Event::PlayerStateChanged(StateChange { state })
    }

    /// Wraps a progress report as an event. The position is increased by
    /// one to compensate for 0-based packet indexing.
    pub fn position_event(
        current_pos: usize,
        max_pos: usize,
        current_time: PlayDuration,
        total_time: PlayDuration,
    ) -> (e: Self)
        requires
            current_pos < usize::MAX,
        ensures
            e == Event::PlayerPositionChanged(
                PositionChange {
                    position: (current_pos + 1) as usize,
                    max_position: max_pos,
                    time_position: current_time,
                    time_total: total_time,
                },
            ),
    {
        Event::PlayerPositionChanged(
            PositionChange {
                position: current_pos + 1,
                max_position: max_pos,
                time_position: current_time,
                time_total: total_time,
            },
        )
    }

    /// Wraps an error as an event.
    pub fn error(error: Error) -> (e: Self)
        ensures
            e == Event::Error(error),
    {
        Event::Error(error)
    }
}

} // verus!
