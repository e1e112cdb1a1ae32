//! The playback engine: a state machine that consumes controller commands,
//! paces transmission with the playback clock, and reports progress through
//! events.
//!
//! The engine is pure: one call polls a command and applies the transition
//! table, another performs one playback step and says what to do next
//! (wait, transmit, stop). An embedding runs those decisions against real
//! channels, a real socket and a real clock; everything the engine decides
//! is stated by `spec_poll_model` / `spec_tick_model` and the event
//! functions beside them.

use vstd::prelude::*;

use crate::clock::{duration_from_timestamp, spec_record_nanos};
use crate::duration::{lemma_duration_unique, spec_duration, PlayDuration};
use crate::model::{
    Command, Error, Event, PositionChange, Recording, StateChange, STRIP_HEADERS_INDEX,
};
use crate::pcap::{copy_range, PacketRecordModel, Pcap, PcapMagicNumber};

verus! {

/// The engine's control state.
#[derive(Copy, Clone, Debug, PartialEq, Eq, Structural)]
pub enum PlayerState {
    Initial,
    Playing,
    Paused,
    Finished,
    Quit,
}

impl PlayerState {
    /// The label a front-end shows for this state.
    pub open spec fn spec_label(&self) -> Seq<char> {
        match *self {
            PlayerState::Initial => "Ready"@,
            PlayerState::Playing => "Playing"@,
            PlayerState::Paused => "Paused"@,
            PlayerState::Finished => "Finished"@,
            PlayerState::Quit => ""@,
        }
    }

    /// Renders the state for display.
    pub fn label(&self) -> (s: String)
        ensures
            s@ == self.spec_label(),
    {
        match *self {
            PlayerState::Initial => "Ready".to_owned(),
            PlayerState::Playing => "Playing".to_owned(),
            PlayerState::Paused => "Paused".to_owned(),
            PlayerState::Finished => "Finished".to_owned(),
            PlayerState::Quit => "".to_owned(),
        }
    }
}

/// The outcome of one non-blocking look at the command channel.
#[derive(Copy, Clone, Debug, PartialEq, Eq, Structural)]
pub enum CommandPoll {
    /// A command was pending.
    Received(Command),
    /// Nothing was pending; not an error.
    Empty,
    /// The controller side is gone; unrecoverable.
    Disconnected,
}

/// What the embedding must do after one playback step.
#[derive(Debug)]
pub enum TickAction {
    /// Nothing: the engine is not playing.
    Idle,
    /// Wait the given duration, then send the payload bytes.
    Transmit(PlayDuration, Vec<u8>),
    /// The engine has quit: stop the loop.
    ShutDown,
}

/// One playback step: the action to perform and the events to publish, in
/// order, after performing it.
#[derive(Debug)]
pub struct TickOutput {
    pub action: TickAction,
    pub events: Vec<Event>,
}

/// The mathematical image of the engine.
pub ghost struct PlayerModel {
    /// The recording's variant: byte order and fraction unit.
    pub magic: PcapMagicNumber,
    /// The recording's packets in capture order; never mutated.
    pub packets: Seq<PacketRecordModel>,
    /// The control state.
    pub state: PlayerState,
    /// Index of the next packet to transmit.
    pub cursor: int,
    /// Derived timestamp, in nanoseconds, of the last transmitted packet.
    pub previous_ts: int,
    /// Nanoseconds of recording time already played back.
    pub elapsed: int,
}

/// The model invariant: the cursor stays within the recording and the
/// times are non-negative.
pub open spec fn model_wf(m: PlayerModel) -> bool {
    &&& 0 <= m.cursor <= m.packets.len()
    &&& m.previous_ts >= 0
    &&& m.elapsed >= 0
}

/// Derived timestamp of the first packet; zero for an empty recording.
pub open spec fn spec_first_nanos(m: PlayerModel) -> int {
    if m.packets.len() == 0 {
        0
    } else {
        spec_record_nanos(m.magic, m.packets[0])
    }
}

/// Derived timestamp of the last packet; zero for an empty recording.
pub open spec fn spec_last_nanos(m: PlayerModel) -> int {
    if m.packets.len() == 0 {
        0
    } else {
        spec_record_nanos(m.magic, m.packets[m.packets.len() - 1])
    }
}

/// The recording's total duration: last minus first timestamp, floored at
/// zero; zero for an empty recording, with no packet dereferenced.
pub open spec fn spec_total_nanos(m: PlayerModel) -> int {
    if spec_last_nanos(m) >= spec_first_nanos(m) {
        spec_last_nanos(m) - spec_first_nanos(m)
    } else {
        0
    }
}

/// A state-change event.
pub open spec fn spec_state_event(s: PlayerState) -> Event {
    Event::PlayerStateChanged(StateChange { state: s })
}

/// A position event with the given 1-based position (0 meaning "before the
/// first packet"), packet count, elapsed and total nanoseconds.
pub open spec fn spec_position_event(pos: int, max: int, elapsed: int, total: int) -> Event {
    Event::PlayerPositionChanged(
        PositionChange {
            position: pos as usize,
            max_position: max as usize,
            time_position: spec_duration(elapsed),
            time_total: spec_duration(total),
        },
    )
}

/// The position event a rewind emits: back to position zero, nothing
/// played back yet.
pub open spec fn spec_rewind_position_event(m: PlayerModel) -> Event {
    spec_position_event(0, m.packets.len() as int, 0, spec_total_nanos(m))
}

/// The transition table: what state a command moves the engine to. Every
/// command acts from every state; the no-op marker changes nothing.
pub open spec fn spec_next_state(cur: PlayerState, c: Command) -> PlayerState {
    match c {
        Command::Play => PlayerState::Playing,
        Command::Pause => PlayerState::Paused,
        Command::Rewind => PlayerState::Initial,
        Command::Quit => PlayerState::Quit,
        Command::Unspecified => cur,
    }
}

/// The engine after one command poll: a received command moves the state
/// by the transition table (rewind also resets the cursor and the elapsed
/// time), an empty poll changes nothing, a disconnected controller forces
/// `Quit`.
pub open spec fn spec_poll_model(m: PlayerModel, poll: CommandPoll) -> PlayerModel {
    match poll {
        CommandPoll::Received(c) => {
            if c == Command::Rewind {
                PlayerModel {
                    state: PlayerState::Initial,
                    cursor: 0,
                    previous_ts: spec_first_nanos(m),
                    elapsed: 0,
                    ..m
                }
            } else {
                PlayerModel { state: spec_next_state(m.state, c), ..m }
            }
        },
        CommandPoll::Empty => m,
        CommandPoll::Disconnected => PlayerModel { state: PlayerState::Quit, ..m },
    }
}

/// The events one command poll emits, in order: a rewind first reports
/// position zero; a state change is reported once, only when the state
/// actually changes; a disconnected controller reports the channel error
/// before the forced state change.
pub open spec fn spec_poll_events(m: PlayerModel, poll: CommandPoll) -> Seq<Event> {
    match poll {
        CommandPoll::Received(c) => {
            let next = spec_next_state(m.state, c);
            let sc: Seq<Event> = if next != m.state {
                seq![spec_state_event(next)]
            } else {
                Seq::empty()
            };
            if c == Command::Rewind {
                seq![spec_rewind_position_event(m)] + sc
            } else {
                sc
            }
        },
        CommandPoll::Empty => Seq::empty(),
        CommandPoll::Disconnected => {
            if m.state != PlayerState::Quit {
                seq![
                    Event::Error(Error::CommandChannelError),
                    spec_state_event(PlayerState::Quit),
                ]
            } else {
                seq![Event::Error(Error::CommandChannelError)]
            }
        },
    }
}

/// The engine after one playback step: while playing, the cursor advances
/// past the transmitted packet and the times follow its derived timestamp;
/// an exhausted cursor finishes playback; every other state is left alone.
pub open spec fn spec_tick_model(m: PlayerModel) -> PlayerModel {
    if m.state == PlayerState::Playing {
        if m.cursor < m.packets.len() {
            let d = spec_record_nanos(m.magic, m.packets[m.cursor]);
            PlayerModel {
                cursor: m.cursor + 1,
                previous_ts: d,
                elapsed: if d >= spec_first_nanos(m) {
                    d - spec_first_nanos(m)
                } else {
                    0
                },
                ..m
            }
        } else {
            PlayerModel { state: PlayerState::Finished, ..m }
        }
    } else {
        m
    }
}

/// The events one playback step emits: a transmitted packet reports its
/// 1-based position and the elapsed time, exhaustion reports `Finished`
/// once, the `Quit` state acknowledges the quit; nothing otherwise.
pub open spec fn spec_tick_events(m: PlayerModel) -> Seq<Event> {
    if m.state == PlayerState::Playing {
        if m.cursor < m.packets.len() {
            let d = spec_record_nanos(m.magic, m.packets[m.cursor]);
            let elapsed = if d >= spec_first_nanos(m) {
                d - spec_first_nanos(m)
            } else {
                0
            };
            seq![
                spec_position_event(
                    m.cursor + 1,
                    m.packets.len() as int,
                    elapsed,
                    spec_total_nanos(m),
                ),
            ]
        } else {
            seq![spec_state_event(PlayerState::Finished)]
        }
    } else if m.state == PlayerState::Quit {
        seq![Event::QuitCommanded]
    } else {
        Seq::empty()
    }
}

/// How long to wait before transmitting the packet at the cursor: the
/// interval since the previous packet's timestamp, minus the wall-clock
/// time already spent since the last transmission, floored at zero twice.
pub open spec fn spec_tick_wait(m: PlayerModel, loop_elapsed: int) -> int {
    let d = spec_record_nanos(m.magic, m.packets[m.cursor]);
    let iv = if d >= m.previous_ts {
        d - m.previous_ts
    } else {
        0
    };
    if iv >= loop_elapsed {
        iv - loop_elapsed
    } else {
        0
    }
}

/// A payload with its assumed link-, network- and transport-layer headers
/// stripped: everything from `STRIP_HEADERS_INDEX` on, empty if the
/// payload is no longer than that.
pub open spec fn spec_stripped(data: Seq<u8>) -> Seq<u8> {
    if data.len() <= STRIP_HEADERS_INDEX {
        Seq::empty()
    } else {
        data.subrange(STRIP_HEADERS_INDEX as int, data.len() as int)
    }
}

/// The playback engine. It exclusively owns the parsed recording; all
/// external visibility goes through returned event values.
pub struct Player {
    pcap: Pcap,
    state: PlayerState,
    cursor: usize,
    first_ts: PlayDuration,
    total_duration: PlayDuration,
    previous_ts: PlayDuration,
    playback_elapsed: PlayDuration,
}

impl View for Player {
    type V = PlayerModel;

    closed spec fn view(&self) -> PlayerModel {
        PlayerModel {
            magic: self.pcap.header.magic_number,
            packets: self.pcap@.packets,
            state: self.state,
            cursor: self.cursor as int,
            previous_ts: self.previous_ts.as_nanos(),
            elapsed: self.playback_elapsed.as_nanos(),
        }
    }
}

impl Player {
    /// The engine's invariant: the model invariant, plus cached first and
    /// total durations that agree with the recording.
    pub closed spec fn wf(&self) -> bool {
        &&& self.cursor <= self.pcap.packets@.len()
        &&& self.first_ts.wf()
        &&& self.first_ts.as_nanos() == spec_first_nanos(self@)
        &&& self.total_duration.wf()
        &&& self.total_duration.as_nanos() == spec_total_nanos(self@)
        &&& self.previous_ts.wf()
        &&& self.playback_elapsed.wf()
    }

    /// A well-formed engine has a well-formed model.
    pub proof fn lemma_wf_model(&self)
        requires
            self.wf(),
        ensures
            model_wf(self@),
    {
    }

    /// Builds an engine over a recording of the supported variant; any
    /// other variant is rejected before playback can start. An empty
    /// recording is accepted: its total duration is zero.
    pub fn new(recording: Recording) -> (r: Result<Player, Error>)
        ensures
            match recording {
                Recording::PCAP(p) => {
                    &&& r matches Ok(pl)
                    &&& pl.wf()
                    &&& pl@.magic == p.header.magic_number
                    &&& pl@.packets == p@.packets
                    &&& pl@.state == PlayerState::Initial
                    &&& pl@.cursor == 0
                    &&& pl@.previous_ts == spec_first_nanos(pl@)
                    &&& pl@.elapsed == 0
                },
                Recording::PCAPNG => r matches Err(e) && e matches Error::FileTypeNotSupported(msg)
                    && msg@ == "Files other than .pcap are currently not supported."@,
            },
    {
        match recording {
            Recording::PCAP(pcap) => {
                let magic = pcap.header.magic_number;
                let n = pcap.packets.len();
                let first_ts = if n == 0 {
                    PlayDuration::zero()
                } else {
                    duration_from_timestamp(&magic, &pcap.packets[0])
                };
                let last_ts = if n == 0 {
                    PlayDuration::zero()
                } else {
                    duration_from_timestamp(&magic, &pcap.packets[n - 1])
                };
                let total_duration = last_ts.saturating_sub(&first_ts);
                let player = Player {
                    pcap,
                    state: PlayerState::Initial,
                    cursor: 0,
                    first_ts,
                    total_duration,
                    previous_ts: first_ts,
                    playback_elapsed: PlayDuration::zero(),
                };
                Ok(player)
            },
            Recording::PCAPNG => Err(
                Error::FileTypeNotSupported(
                    "Files other than .pcap are currently not supported.".to_owned(),
                ),
            ),
        }
    }

    /// The events emitted once, before any command is processed: readiness,
    /// the current state, and a baseline position at zero, so an observer
    /// can render a consistent starting view.
    pub fn startup_events(&self) -> (events: Vec<Event>)
        requires
            self.wf(),
        ensures
            events@ == seq![
                Event::PlayerReady,
                spec_state_event(self@.state),
                spec_position_event(
                    0,
                    self@.packets.len() as int,
                    self@.elapsed,
                    spec_total_nanos(self@),
                ),
            ],
    {
        let mut events: Vec<Event> = Vec::new();
        events.push(Event::PlayerReady);
        events.push(Event::state_event(self.state));
        events.push(
            Event::PlayerPositionChanged(
                PositionChange {
                    position: 0,
                    max_position: self.pcap.packets.len(),
                    time_position: self.playback_elapsed,
                    time_total: self.total_duration,
                },
            ),
        );
        proof {
            lemma_duration_unique(self.playback_elapsed, self@.elapsed);
            lemma_duration_unique(self.total_duration, spec_total_nanos(self@));
            assert(events@ =~= seq![
                Event::PlayerReady,
                spec_state_event(self@.state),
                spec_position_event(
                    0,
                    self@.packets.len() as int,
                    self@.elapsed,
                    spec_total_nanos(self@),
                ),
            ]);
        }
        events
    }

    /// Applies one command poll: the transition table of
    /// `spec_poll_model`, emitting the events of `spec_poll_events`.
    pub fn handle_poll(&mut self, poll: CommandPoll) -> (events: Vec<Event>)
        requires
            old(self).wf(),
        ensures
            final(self).wf(),
            final(self)@ == spec_poll_model(old(self)@, poll),
            events@ == spec_poll_events(old(self)@, poll),
    {
        let mut events: Vec<Event> = Vec::new();
        match poll {
            CommandPoll::Received(c) => {
                let next = match c {
                    Command::Play => PlayerState::Playing,
                    Command::Pause => PlayerState::Paused,
                    Command::Rewind => PlayerState::Initial,
                    Command::Quit => PlayerState::Quit,
                    Command::Unspecified => self.state,
                };
                if let Command::Rewind = c {
                    self.cursor = 0;
                    self.previous_ts = self.first_ts;
                    self.playback_elapsed = PlayDuration::zero();
                    events.push(
                        Event::PlayerPositionChanged(
                            PositionChange {
                                position: 0,
                                max_position: self.pcap.packets.len(),
                                time_position: self.playback_elapsed,
                                time_total: self.total_duration,
                            },
                        ),
                    );
                    proof {
                        lemma_duration_unique(self.playback_elapsed, 0);
                        lemma_duration_unique(self.total_duration, spec_total_nanos(old(self)@));
                    }
                }
                if next != self.state {
                    events.push(Event::state_event(next));
                    self.state = next;
                }
                proof {
                    assert(events@ =~= spec_poll_events(old(self)@, poll));
                }
            },
            CommandPoll::Empty => {
                proof {
                    assert(events@ =~= spec_poll_events(old(self)@, poll));
                }
            },
            CommandPoll::Disconnected => {
                events.push(Event::error(Error::CommandChannelError));
                if self.state != PlayerState::Quit {
                    events.push(Event::state_event(PlayerState::Quit));
                    self.state = PlayerState::Quit;
                }
                proof {
                    assert(events@ =~= spec_poll_events(old(self)@, poll));
                }
            },
        }
        events
    }

    /// Performs one playback step: decides what the embedding must do
    /// (`spec_tick_model`, `spec_tick_events`); a transmission carries the
    /// wait of `spec_tick_wait` and the stripped payload of
    /// `spec_stripped`. `loop_elapsed` is the wall-clock time the embedding
    /// has already spent since the previous transmission.
    pub fn tick(&mut self, loop_elapsed: PlayDuration) -> (out: TickOutput)
        requires
            old(self).wf(),
            loop_elapsed.wf(),
        ensures
            final(self).wf(),
            final(self)@ == spec_tick_model(old(self)@),
            out.events@ == spec_tick_events(old(self)@),
            match out.action {
                TickAction::Transmit(wait, payload) => {
                    &&& old(self)@.state == PlayerState::Playing
                    &&& old(self)@.cursor < old(self)@.packets.len()
                    &&& wait.wf()
                    &&& wait.as_nanos() == spec_tick_wait(old(self)@, loop_elapsed.as_nanos())
                    &&& payload@ == spec_stripped(
                        old(self)@.packets[old(self)@.cursor].packet_data,
                    )
                },
                TickAction::ShutDown => old(self)@.state == PlayerState::Quit,
                TickAction::Idle => old(self)@.state != PlayerState::Quit && !(old(self)@.state
                    == PlayerState::Playing && old(self)@.cursor < old(self)@.packets.len()),
            },
    {
        let mut events: Vec<Event> = Vec::new();
        match self.state {
            PlayerState::Playing => {
                if self.cursor < self.pcap.packets.len() {
                    let magic = self.pcap.header.magic_number;
                    let current_ts = duration_from_timestamp(&magic, &self.pcap.packets[self.cursor]);
                    let ts_duration = current_ts.saturating_sub(&self.previous_ts);
                    let wait = ts_duration.saturating_sub(&loop_elapsed);
                    let data = &self.pcap.packets[self.cursor].packet_data;
                    let data_len = data.len();
                    let start = if STRIP_HEADERS_INDEX < data_len {
                        STRIP_HEADERS_INDEX
                    } else {
                        data_len
                    };
                    let payload = copy_range(data.as_slice(), start, data_len);
                    proof {
                        assert(payload@ =~= spec_stripped(
                            old(self)@.packets[old(self)@.cursor].packet_data,
                        ));
                    }
                    self.previous_ts = current_ts;
                    self.playback_elapsed = current_ts.saturating_sub(&self.first_ts);
                    events.push(
                        Event::position_event(
                            self.cursor,
                            self.pcap.packets.len(),
                            self.playback_elapsed,
                            self.total_duration,
                        ),
                    );
                    self.cursor = self.cursor + 1;
                    proof {
                        lemma_duration_unique(
                            self.playback_elapsed,
                            self.playback_elapsed.as_nanos(),
                        );
                        lemma_duration_unique(self.total_duration, spec_total_nanos(old(self)@));
                        assert(events@ =~= spec_tick_events(old(self)@));
                    }
                    TickOutput { action: TickAction::Transmit(wait, payload), events }
                } else {
                    events.push(Event::state_event(PlayerState::Finished));
                    self.state = PlayerState::Finished;
                    proof {
                        assert(events@ =~= spec_tick_events(old(self)@));
                    }
                    TickOutput { action: TickAction::Idle, events }
                }
            },
            PlayerState::Quit => {
                events.push(Event::QuitCommanded);
                proof {
                    assert(events@ =~= spec_tick_events(old(self)@));
                }
                TickOutput { action: TickAction::ShutDown, events }
            },
            _ => {
                proof {
                    assert(events@ =~= spec_tick_events(old(self)@));
                }
                TickOutput { action: TickAction::Idle, events }
            },
        }
    }

    /// The engine's current control state.
    pub fn state(&self) -> (s: PlayerState)
        ensures
            s == self@.state,
    {
        self.state
    }

    /// How many packets the recording holds.
    pub fn packet_count(&self) -> (n: usize)
        ensures
            n == self@.packets.len(),
    {
        self.pcap.packets.len()
    }

    /// Index of the next packet to transmit.
    pub fn position(&self) -> (p: usize)
        ensures
            p == self@.cursor,
    {
        self.cursor
    }

    /// The recording's total duration.
    pub fn total_time(&self) -> (d: PlayDuration)
        requires
            self.wf(),
        ensures
            d.wf(),
            d.as_nanos() == spec_total_nanos(self@),
    {
        self.total_duration
    }
}

/// Law: pausing an already paused engine changes nothing and emits no
/// duplicate state-change event.
pub proof fn lemma_pause_idempotent(m: PlayerModel)
    requires
        m.state == PlayerState::Paused,
    ensures
        spec_poll_model(m, CommandPoll::Received(Command::Pause)) == m,
        spec_poll_events(m, CommandPoll::Received(Command::Pause)) == Seq::<Event>::empty(),
{
    assert(spec_poll_events(m, CommandPoll::Received(Command::Pause)) =~= Seq::<Event>::empty());
}

/// Law: a rewind from any state resets the cursor and the elapsed time to
/// zero and emits exactly one position event, which reports position zero;
/// the only other event it can emit is the state change to `Initial`.
pub proof fn lemma_rewind_resets(m: PlayerModel)
    ensures
        spec_poll_model(m, CommandPoll::Received(Command::Rewind)).state == PlayerState::Initial,
        spec_poll_model(m, CommandPoll::Received(Command::Rewind)).cursor == 0,
        spec_poll_model(m, CommandPoll::Received(Command::Rewind)).elapsed == 0,
        ({
            let evs = spec_poll_events(m, CommandPoll::Received(Command::Rewind));
            &&& evs[0] == spec_rewind_position_event(m)
            &&& evs[0] matches Event::PlayerPositionChanged(pc) && pc.position == 0
            &&& forall|i: int|
                1 <= i < evs.len() ==> !(#[trigger] evs[i] is PlayerPositionChanged)
            &&& evs.len() == if m.state != PlayerState::Initial {
                2int
            } else {
                1int
            }
        }),
{
}

/// Law: a quit command moves the engine to `Quit` in a single poll, and
/// the very next playback step acknowledges it and stops the loop, so the
/// acknowledgement lags the command by at most one step.
pub proof fn lemma_quit_acknowledged(m: PlayerModel)
    ensures
        spec_poll_model(m, CommandPoll::Received(Command::Quit)).state == PlayerState::Quit,
        spec_tick_events(spec_poll_model(m, CommandPoll::Received(Command::Quit))) == seq![
            Event::QuitCommanded,
        ],
{
    assert(spec_tick_events(spec_poll_model(m, CommandPoll::Received(Command::Quit))) =~= seq![
        Event::QuitCommanded,
    ]);
}

/// Law: while playing, each step advances the cursor by exactly one and
/// reports exactly that 1-based position, so the positions an observer
/// sees within one play cycle are strictly increasing; only a rewind
/// resets them.
pub proof fn lemma_position_monotonic(m: PlayerModel)
    requires
        model_wf(m),
        m.packets.len() <= usize::MAX,
        m.state == PlayerState::Playing,
        m.cursor < m.packets.len(),
    ensures
        spec_tick_model(m).cursor == m.cursor + 1,
        spec_tick_events(m).len() == 1,
        spec_tick_events(m)[0] matches Event::PlayerPositionChanged(pc) && pc.position == m.cursor
            + 1,
{
}

/// Law: playing an empty recording finishes immediately: one state-change
/// event, no packet dereferenced, and a total duration of zero.
pub proof fn lemma_empty_recording_finishes(m: PlayerModel)
    requires
        model_wf(m),
        m.packets.len() == 0,
        m.state == PlayerState::Playing,
    ensures
        spec_tick_model(m).state == PlayerState::Finished,
        spec_tick_events(m) == seq![spec_state_event(PlayerState::Finished)],
        spec_total_nanos(m) == 0,
{
    assert(spec_tick_events(m) =~= seq![spec_state_event(PlayerState::Finished)]);
}

} // verus!
