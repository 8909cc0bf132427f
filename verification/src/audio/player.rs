use vstd::prelude::*;

use crate::audio::AudioSourceProperties;

verus! {

/// A fraction is given in millionths: this many make the whole.
pub const PERCENTS_SCALE: i64 = 1_000_000;

/// Volume, in thousandths, that leaves samples unchanged.
pub const VOLUME_IDENTITY: u32 = 1000;

/// Failures of the player.
#[derive(Debug)]
pub enum PlayerError {
    CreateOutputStreamError(String),
    CreateSinkError(String),
    StreamClosed,
    SeekFailed(String),
    UnknownTotalDuration,
    InvalidPercents,
}

impl PlayerError {
    pub open spec fn spec_message(self) -> Seq<char> {
        match self {
            PlayerError::CreateOutputStreamError(e) => "Failed to create an output stream: "@ + e@,
            PlayerError::CreateSinkError(e) => "Failed to create a sink: "@ + e@,
            PlayerError::StreamClosed => "Playback stream closed"@,
            PlayerError::SeekFailed(e) => "Failed to seek: "@ + e@,
            PlayerError::UnknownTotalDuration => "Total duration of the audio source is unknown"@,
            PlayerError::InvalidPercents => "Percents number must be in range [0.00, 1.00]"@,
        }
    }

    /// Describes the error.
    pub fn message(&self) -> (text: String)
        ensures
            text@ == self.spec_message(),
    {
        match self {
            PlayerError::CreateOutputStreamError(e) => {
                let mut text = String::from_str("Failed to create an output stream: ");
                text.append(e.as_str());
                text
            },
            PlayerError::CreateSinkError(e) => {
                let mut text = String::from_str("Failed to create a sink: ");
                text.append(e.as_str());
                text
            },
            PlayerError::StreamClosed => String::from_str("Playback stream closed"),
            PlayerError::SeekFailed(e) => {
                let mut text = String::from_str("Failed to seek: ");
                text.append(e.as_str());
                text
            },
            PlayerError::UnknownTotalDuration => String::from_str(
                "Total duration of the audio source is unknown",
            ),
            PlayerError::InvalidPercents => String::from_str(
                "Percents number must be in range [0.00, 1.00]",
            ),
        }
    }
}

/// How a source is played.
#[derive(Clone, Copy, Debug, PartialEq, Eq, Structural)]
pub struct PlaybackProperties {
    /// A secondary sink plays beside the primary one and cannot be
    /// controlled; the primary sink replaces what it was playing.
    pub secondary: bool,
    /// Sample multiplier in thousandths.
    pub volume: u32,
    pub source_props: AudioSourceProperties,
}

impl Default for PlaybackProperties {
    fn default() -> (props: Self)
        ensures
            !props.secondary,
            props.volume == VOLUME_IDENTITY,
            props.source_props.fade_in.is_none(),
            !props.source_props.repeat,
    {
        PlaybackProperties {
            secondary: false,
            volume: VOLUME_IDENTITY,
            source_props: AudioSourceProperties { fade_in: None, repeat: false },
        }
    }
}

/// Position within the source of the primary sink, in milliseconds.
#[derive(Clone, Copy, Debug, PartialEq, Eq, Structural)]
pub struct PlaybackPosition {
    pub current: u64,
    /// `None` if the total duration is unknown.
    pub total: Option<u64>,
}

impl PlaybackPosition {
    pub fn current_ms(&self) -> (ms: u64)
        ensures
            ms == self.current,
    {
        self.current
    }

    pub fn total_ms(&self) -> (ms: Option<u64>)
        ensures
            ms == self.total,
    {
        self.total
    }
}

/// Target of a seek.
#[derive(Clone, Copy, Debug, PartialEq, Eq, Structural)]
pub enum SeekTo {
    /// A fraction of the total duration, in millionths; valid from 0 up to,
    /// but not including, the whole.
    Percents(i64),
    /// A position in milliseconds.
    Position(u64),
}

impl SeekTo {
    /// The target is acceptable before anything is known of the source.
    pub open spec fn valid(self) -> bool {
        match self {
            SeekTo::Percents(p) => 0 <= p < PERCENTS_SCALE,
            SeekTo::Position(_) => true,
        }
    }
}

/// Requests to the playback worker.
#[derive(Clone, Copy, Debug, PartialEq, Eq, Structural)]
pub enum Command {
    /// Play a source whose total duration, if known, is `duration`.
    Play { duration: Option<u64>, props: PlaybackProperties },
    IsPlaying,
    Resume,
    Pause,
    GetPosition,
    Seek(SeekTo),
}

/// Answers of the playback worker.
#[derive(Clone, Copy, Debug, PartialEq, Eq, Structural)]
pub enum Response {
    Initialized,
    PlayStarted,
    BoolResult(bool),
    /// `None` means the primary sink holds no source.
    Position(Option<PlaybackPosition>),
}

/// What the worker sees of the primary sink.
#[derive(Clone, Copy, Debug, PartialEq, Eq, Structural)]
pub struct PrimarySink {
    /// No source is queued.
    pub empty: bool,
    pub paused: bool,
    /// Elapsed time of the current source in milliseconds.
    pub position: u64,
}

/// What the worker does to the hardware for one command.
#[derive(Clone, Copy, Debug, PartialEq, Eq, Structural)]
pub enum SinkAction {
    /// Nothing is touched.
    Nothing,
    /// Empty the primary sink, queue the source, rewind and play.
    ReplacePrimary(PlaybackProperties),
    /// Open a sink of its own, queue the source, play and detach.
    PlayDetached(PlaybackProperties),
    Resume,
    Pause,
    /// Move the primary sink to a position in milliseconds.
    Seek(u64),
}

/// Reaction to one command: the hardware action and the answer to send once
/// the action has succeeded.
#[derive(Clone, Copy, Debug, PartialEq, Eq, Structural)]
pub struct Step {
    pub action: SinkAction,
    pub response: Response,
}

impl PrimarySink {
    /// A sink right after its creation.
    pub open spec fn idle() -> PrimarySink {
        PrimarySink { empty: true, paused: false, position: 0 }
    }

    /// A source is queued and not paused.
    pub open spec fn playing(self) -> bool {
        !(self.paused || self.empty)
    }

    /// The sink once an action has been carried out.
    pub open spec fn after(self, action: SinkAction) -> PrimarySink {
        match action {
            SinkAction::Nothing | SinkAction::PlayDetached(_) => self,
            SinkAction::ReplacePrimary(_) => PrimarySink { empty: false, paused: false, position: 0 },
            SinkAction::Resume => PrimarySink { paused: false, ..self },
            SinkAction::Pause => PrimarySink { paused: true, ..self },
            SinkAction::Seek(position) => PrimarySink { position, ..self },
        }
    }

    /// The sink once its source has played to the end.
    pub open spec fn ended(self) -> PrimarySink {
        PrimarySink { empty: true, ..self }
    }

    pub fn is_playing(&self) -> (yes: bool)
        ensures
            yes == self.playing(),
    {
        !(self.paused || self.empty)
    }
}

/// Position, in milliseconds, that lies `percents` millionths into a source
/// of `total` milliseconds.
pub open spec fn position_at(total: u64, percents: i64) -> int {
    total as int * percents as int / PERCENTS_SCALE as int
}

/// Computes the position of a fraction of the total duration.
pub fn percents_to_position(total: u64, percents: i64) -> (position: u64)
    requires
        0 <= percents < PERCENTS_SCALE,
    ensures
        position == position_at(total, percents),
        position <= total,
{
    proof {
        assert(0 <= total as int * percents as int <= total as int * 1_000_000)
            by (nonlinear_arith)
            requires
                0 <= percents < 1_000_000,
                total >= 0,
        ;
    }
    let product: u128 = (total as u128) * (percents as u128);
    let quotient: u128 = product / 1_000_000u128;
    proof {
        assert(product == total as int * percents as int);
        assert(product / 1_000_000 <= total);
    }
    quotient as u64
}

/// The reaction of the worker to a command.
pub open spec fn spec_handle_command(
    command: Command,
    sink: PrimarySink,
    current_source_duration: Option<u64>,
) -> Result<Step, PlayerError> {
    match command {
        Command::Play { duration, props } => Ok(
            Step {
                action: if props.secondary {
                    SinkAction::PlayDetached(props)
                } else {
                    SinkAction::ReplacePrimary(props)
                },
                response: Response::PlayStarted,
            },
        ),
        Command::IsPlaying => Ok(
            Step { action: SinkAction::Nothing, response: Response::BoolResult(sink.playing()) },
        ),
        Command::Resume => Ok(
            if !sink.paused || sink.empty {
                Step { action: SinkAction::Nothing, response: Response::BoolResult(false) }
            } else {
                Step { action: SinkAction::Resume, response: Response::BoolResult(true) }
            },
        ),
        Command::Pause => Ok(
            if sink.playing() {
                Step { action: SinkAction::Pause, response: Response::BoolResult(true) }
            } else {
                Step { action: SinkAction::Nothing, response: Response::BoolResult(false) }
            },
        ),
        Command::GetPosition => Ok(
            Step {
                action: SinkAction::Nothing,
                response: Response::Position(
                    if sink.empty {
                        None
                    } else {
                        Some(
                            PlaybackPosition {
                                current: sink.position,
                                total: current_source_duration,
                            },
                        )
                    },
                ),
            },
        ),
        Command::Seek(to) => if !to.valid() {
            Err(PlayerError::InvalidPercents)
        } else if sink.empty {
            Ok(Step { action: SinkAction::Nothing, response: Response::BoolResult(false) })
        } else {
            match to {
                SeekTo::Percents(p) => match current_source_duration {
                    None => Err(PlayerError::UnknownTotalDuration),
                    Some(total) => Ok(
                        Step {
                            action: SinkAction::Seek(position_at(total, p) as u64),
                            response: Response::BoolResult(true),
                        },
                    ),
                },
                SeekTo::Position(position) => Ok(
                    Step {
                        action: SinkAction::Seek(position),
                        response: Response::BoolResult(true),
                    },
                ),
            }
        },
    }
}

/// The duration the worker remembers once a command has been handled: a
/// source played on the primary sink replaces it.
pub open spec fn duration_after(command: Command, current_source_duration: Option<u64>) -> Option<
    u64,
> {
    match command {
        Command::Play { duration, props } => if props.secondary {
            current_source_duration
        } else {
            duration
        },
        _ => current_source_duration,
    }
}

/// Decides what the worker does for `command`, given what it sees of the
/// primary sink, and records the duration of a new primary source. A seek to
/// a fraction outside of `[0, 1)` is refused whatever the sink holds.
pub fn handle_command(
    command: Command,
    sink: &PrimarySink,
    current_source_duration: &mut Option<u64>,
) -> (result: Result<Step, PlayerError>)
    ensures
        result == spec_handle_command(command, *sink, *old(current_source_duration)),
        *final(current_source_duration) == duration_after(command, *old(current_source_duration)),
{
    let step = match command {
        Command::Play { duration, props } => {
            if props.secondary {
                Step { action: SinkAction::PlayDetached(props), response: Response::PlayStarted }
            } else {
                *current_source_duration = duration;
                Step { action: SinkAction::ReplacePrimary(props), response: Response::PlayStarted }
            }
        },
        Command::IsPlaying => Step {
            action: SinkAction::Nothing,
            response: Response::BoolResult(sink.is_playing()),
        },
        Command::Resume => {
            if !sink.paused || sink.empty {
                Step { action: SinkAction::Nothing, response: Response::BoolResult(false) }
            } else {
                Step { action: SinkAction::Resume, response: Response::BoolResult(true) }
            }
        },
        Command::Pause => {
            if sink.is_playing() {
                Step { action: SinkAction::Pause, response: Response::BoolResult(true) }
            } else {
                Step { action: SinkAction::Nothing, response: Response::BoolResult(false) }
            }
        },
        Command::GetPosition => {
            let position = if sink.empty {
                None
            } else {
                Some(PlaybackPosition { current: sink.position, total: *current_source_duration })
            };
            Step { action: SinkAction::Nothing, response: Response::Position(position) }
        },
        Command::Seek(to) => {
            if let SeekTo::Percents(percents) = to {
                if !(0 <= percents && percents < PERCENTS_SCALE) {
                    return Err(PlayerError::InvalidPercents);
                }
            }
            if sink.empty {
                Step { action: SinkAction::Nothing, response: Response::BoolResult(false) }
            } else {
                let position: u64 = match to {
                    SeekTo::Percents(p) => match *current_source_duration {
                        None => {
                            return Err(PlayerError::UnknownTotalDuration);
                        },
                        Some(total) => percents_to_position(total, p),
                    },
                    SeekTo::Position(position) => position,
                };
                Step { action: SinkAction::Seek(position), response: Response::BoolResult(true) }
            }
        },
    };
    Ok(step)
}

/// The error reported when the hardware refuses an action. Only opening a
/// detached sink and seeking can fail.
pub fn action_failed(action: SinkAction, message: String) -> (error: PlayerError)
    requires
        action is PlayDetached || action is Seek,
    ensures
        action is PlayDetached ==> error == PlayerError::CreateSinkError(message),
        action is Seek ==> error == PlayerError::SeekFailed(message),
{
    match action {
        SinkAction::PlayDetached(_) => PlayerError::CreateSinkError(message),
        _ => PlayerError::SeekFailed(message),
    }
}

/// Checks a seek request on the caller's side, before anything is sent to
/// the worker: a fraction outside of `[0, 1)` is refused.
pub fn seek(to: SeekTo) -> (result: Result<Command, PlayerError>)
    ensures
        to.valid() ==> result == Ok::<Command, PlayerError>(Command::Seek(to)),
        !to.valid() ==> result == Err::<Command, PlayerError>(PlayerError::InvalidPercents),
{
    if let SeekTo::Percents(percents) = to {
        if !(0 <= percents && percents < PERCENTS_SCALE) {
            return Err(PlayerError::InvalidPercents);
        }
    }
    Ok(Command::Seek(to))
}

/// The answer to a command, given what arrived on the response channel; a
/// closed channel is an error of its own.
pub fn perform(received: Option<Result<Response, PlayerError>>) -> (result: Result<
    Response,
    PlayerError,
>)
    ensures
        received matches Some(answer) ==> result == answer,
        received is None ==> result == Err::<Response, PlayerError>(PlayerError::StreamClosed),
{
    match received {
        Some(answer) => answer,
        None => Err(PlayerError::StreamClosed),
    }
}

/// Reads the answer to a command that yields a flag.
pub fn perform_and_get_bool(received: Option<Result<Response, PlayerError>>) -> (result: Result<
    bool,
    PlayerError,
>)
    requires
        received matches Some(Ok(response)) ==> response is BoolResult,
    ensures
        received matches Some(Ok(Response::BoolResult(flag))) ==> result == Ok::<
            bool,
            PlayerError,
        >(flag),
        received matches Some(Err(e)) ==> result == Err::<bool, PlayerError>(e),
        received is None ==> result == Err::<bool, PlayerError>(PlayerError::StreamClosed),
{
    match received {
        Some(Ok(Response::BoolResult(flag))) => Ok(flag),
        Some(Ok(_)) => Ok(false),
        Some(Err(e)) => Err(e),
        None => Err(PlayerError::StreamClosed),
    }
}

/// Reads the answer to a position query.
pub fn position(received: Option<Result<Response, PlayerError>>) -> (result: Result<
    Option<PlaybackPosition>,
    PlayerError,
>)
    requires
        received matches Some(Ok(response)) ==> response is Position,
    ensures
        received matches Some(Ok(Response::Position(p))) ==> result == Ok::<
            Option<PlaybackPosition>,
            PlayerError,
        >(p),
        received matches Some(Err(e)) ==> result == Err::<Option<PlaybackPosition>, PlayerError>(
            e,
        ),
        received is None ==> result == Err::<Option<PlaybackPosition>, PlayerError>(
            PlayerError::StreamClosed,
        ),
{
    match received {
        Some(Ok(Response::Position(p))) => Ok(p),
        Some(Ok(_)) => Ok(None),
        Some(Err(e)) => Err(e),
        None => Err(PlayerError::StreamClosed),
    }
}

/// Outcome of constructing a player, given the first message of the worker:
/// the player exists only if the worker reported that the output stream and
/// the primary sink are open.
pub fn initialized(first: Option<Result<Response, PlayerError>>) -> (result: Result<
    (),
    PlayerError,
>)
    ensures
        first matches Some(Ok(_)) ==> result is Ok,
        first matches Some(Err(e)) ==> result == Err::<(), PlayerError>(e),
        first is None ==> result == Err::<(), PlayerError>(PlayerError::StreamClosed),
{
    match first {
        Some(Ok(_)) => Ok(()),
        Some(Err(e)) => Err(e),
        None => Err(PlayerError::StreamClosed),
    }
}

/// After a source is played on the primary sink the sink is playing, until
/// it is paused or the source ends.
pub proof fn lemma_play_makes_playing(
    sink: PrimarySink,
    duration: Option<u64>,
    props: PlaybackProperties,
    remembered: Option<u64>,
)
    requires
        !props.secondary,
    ensures
        spec_handle_command(Command::Play { duration, props }, sink, remembered) is Ok,
        sink.after(
            spec_handle_command(Command::Play { duration, props }, sink, remembered).unwrap().action,
        ).playing(),
        !sink.after(
            spec_handle_command(Command::Play { duration, props }, sink, remembered).unwrap().action,
        ).ended().playing(),
        duration_after(Command::Play { duration, props }, remembered) == duration,
{
}

/// On a playing sink `Pause` answers true once and false the second time; a
/// following `Resume` answers true once and false the second time, and the
/// sink is playing again.
pub proof fn lemma_pause_resume_once(sink: PrimarySink, remembered: Option<u64>)
    requires
        sink.playing(),
    ensures
        ({
            let first = spec_handle_command(Command::Pause, sink, remembered).unwrap();
            let paused = sink.after(first.action);
            let second = spec_handle_command(Command::Pause, paused, remembered).unwrap();
            let still = paused.after(second.action);
            let third = spec_handle_command(Command::Resume, still, remembered).unwrap();
            let resumed = still.after(third.action);
            let fourth = spec_handle_command(Command::Resume, resumed, remembered).unwrap();
            &&& first.response == Response::BoolResult(true)
            &&& !paused.playing()
            &&& second.response == Response::BoolResult(false)
            &&& second.action == SinkAction::Nothing
            &&& third.response == Response::BoolResult(true)
            &&& resumed.playing()
            &&& fourth.response == Response::BoolResult(false)
            &&& fourth.action == SinkAction::Nothing
        }),
{
}

/// With nothing queued, `Pause`, `Resume` and `Seek` answer false and touch
/// nothing, and there is no position.
pub proof fn lemma_empty_sink_is_inert(sink: PrimarySink, remembered: Option<u64>, to: SeekTo)
    requires
        sink.empty,
        to.valid(),
    ensures
        spec_handle_command(Command::Pause, sink, remembered) == Ok::<Step, PlayerError>(
            Step { action: SinkAction::Nothing, response: Response::BoolResult(false) },
        ),
        spec_handle_command(Command::Resume, sink, remembered) == Ok::<Step, PlayerError>(
            Step { action: SinkAction::Nothing, response: Response::BoolResult(false) },
        ),
        spec_handle_command(Command::Seek(to), sink, remembered) == Ok::<Step, PlayerError>(
            Step { action: SinkAction::Nothing, response: Response::BoolResult(false) },
        ),
        spec_handle_command(Command::GetPosition, sink, remembered) == Ok::<Step, PlayerError>(
            Step { action: SinkAction::Nothing, response: Response::Position(None) },
        ),
{
}

/// A fraction outside of `[0, 1)` is refused before anything is looked at or
/// touched, on either side of the command channel.
pub proof fn lemma_invalid_percents(sink: PrimarySink, remembered: Option<u64>, percents: i64)
    requires
        !(0 <= percents < PERCENTS_SCALE),
    ensures
        spec_handle_command(Command::Seek(SeekTo::Percents(percents)), sink, remembered)
            == Err::<Step, PlayerError>(PlayerError::InvalidPercents),
        !SeekTo::Percents(percents).valid(),
{
}

/// A valid fraction of a known duration `total` seeks to `total` times the
/// fraction, rounded down, which never lies past the end; with an unknown
/// duration the seek fails and touches nothing.
pub proof fn lemma_seek_percents(sink: PrimarySink, total: u64, percents: i64)
    requires
        !sink.empty,
        0 <= percents < PERCENTS_SCALE,
    ensures
        spec_handle_command(Command::Seek(SeekTo::Percents(percents)), sink, None::<u64>)
            == Err::<Step, PlayerError>(PlayerError::UnknownTotalDuration),
        spec_handle_command(Command::Seek(SeekTo::Percents(percents)), sink, Some(total)) is Ok,
        sink.after(
            spec_handle_command(
                Command::Seek(SeekTo::Percents(percents)),
                sink,
                Some(total),
            ).unwrap().action,
        ).position == position_at(total, percents),
        0 <= position_at(total, percents) <= total,
        PERCENTS_SCALE * position_at(total, percents) <= total * percents,
        total * percents < PERCENTS_SCALE * (position_at(total, percents) + 1),
{
    assert(total as int * percents as int <= total as int * 1_000_000) by (nonlinear_arith)
        requires
            0 <= percents < 1_000_000,
            total >= 0,
    ;
    assert(0 <= total as int * percents as int) by (nonlinear_arith)
        requires
            0 <= percents,
            total >= 0,
    ;
    let n = total as int * percents as int;
    assert(n == 1_000_000 * (n / 1_000_000) + n % 1_000_000) by (nonlinear_arith);
    assert(0 <= n % 1_000_000 < 1_000_000);
}

} // verus!
