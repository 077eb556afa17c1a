//! The interface to the native audio engine.
//!
//! The engine decodes AAC-ELD, applies gain and limiter and publishes a PipeWire
//! source. This module decides what is handed to it and what its answers mean.
use crate::decibel::{EngineDecibels, DEFAULT_LIMITER_32};
use crate::text::{chars_of, decode_lossy, utf8_lossy};
use vstd::prelude::*;

verus! {

/// The PCM clock of the virtual microphone.
pub const SAMPLE_RATE: u32 = 64_000;

/// The number of channels of the virtual microphone.
pub const CHANNELS: u8 = 1;

/// The name of the PipeWire node.
pub const SOURCE_NAME: &'static str = "Microphone_Virtual_Abdullohs_AirPods_Pro";

/// The name of the PipeWire source in audio settings.
pub const SOURCE_DESCRIPTION: &'static str = "Microphone virtual - Abdulloh's AirPods Pro";

/// The binary32 pattern of the gain that the engine starts with, 0 dB.
pub const DEFAULT_GAIN_32: u32 = 0;

/// The largest capacity of the PCM queue.
pub const MAX_QUEUE_CAPACITY_MS: u32 = 5_000;

/// The capacity of the PCM queue where none is chosen.
pub const DEFAULT_QUEUE_CAPACITY_MS: u32 = 250;

/// Why the engine cannot do what is asked of it.
#[derive(Debug)]
pub enum EngineError {
    /// The gain is not finite or out of range.
    Gain,
    /// The limiter is not finite or out of range.
    Limiter,
    /// The queue capacity is out of range.
    QueueCapacity,
    /// The node name holds a null character.
    NodeName,
    /// The node description holds a null character.
    NodeDescription,
    /// An access unit is empty.
    EmptyAccessUnit,
    /// The native engine failed, with its message.
    Native(String),
}

impl EngineError {
    /// The message of this error.
    pub open spec fn text(self) -> Seq<char> {
        match self {
            EngineError::Gain => "microphone gain must be between 0 and 30 dB"@,
            EngineError::Limiter => "limiter must be between -12 and 0 dBFS"@,
            EngineError::QueueCapacity => "audio queue capacity must be between 1 and 5000 ms"@,
            EngineError::NodeName => "PipeWire node name contains a null byte"@,
            EngineError::NodeDescription => "PipeWire node description contains a null byte"@,
            EngineError::EmptyAccessUnit => "cannot process an empty AAC-ELD access unit"@,
            EngineError::Native(message) => message@,
        }
    }

    /// The message of this error.
    pub fn message(self) -> (message: String)
        ensures
            message@ == self.text(),
    {
        match self {
            EngineError::Gain => "microphone gain must be between 0 and 30 dB".to_owned(),
            EngineError::Limiter => "limiter must be between -12 and 0 dBFS".to_owned(),
            EngineError::QueueCapacity => {
                "audio queue capacity must be between 1 and 5000 ms".to_owned()
            },
            EngineError::NodeName => "PipeWire node name contains a null byte".to_owned(),
            EngineError::NodeDescription => {
                "PipeWire node description contains a null byte".to_owned()
            },
            EngineError::EmptyAccessUnit => {
                "cannot process an empty AAC-ELD access unit".to_owned()
            },
            EngineError::Native(message) => message,
        }
    }
}

/// The values from which the engine is made.
#[derive(Debug)]
pub struct AudioConfig {
    /// The name of the PipeWire node.
    pub node_name: String,
    /// The name shown to users.
    pub node_description: String,
    /// The gain before the limiter, in dB.
    pub gain_db: EngineDecibels,
    /// The ceiling of the limiter, in dBFS.
    pub limiter_dbfs: EngineDecibels,
    /// The capacity of the PCM queue, in milliseconds.
    pub queue_capacity_ms: u32,
}

impl Default for AudioConfig {
    /// A mono source with a queue of 250 ms, no gain and a ceiling of -3 dBFS.
    fn default() -> (config: AudioConfig)
        ensures
            config.node_name@ == SOURCE_NAME@,
            config.node_description@ == SOURCE_DESCRIPTION@,
            config.gain_db.bits == DEFAULT_GAIN_32,
            config.limiter_dbfs.bits == DEFAULT_LIMITER_32,
            config.queue_capacity_ms == DEFAULT_QUEUE_CAPACITY_MS,
    {
        AudioConfig {
            node_name: SOURCE_NAME.to_owned(),
            node_description: SOURCE_DESCRIPTION.to_owned(),
            gain_db: EngineDecibels { bits: DEFAULT_GAIN_32 },
            limiter_dbfs: EngineDecibels { bits: DEFAULT_LIMITER_32 },
            queue_capacity_ms: DEFAULT_QUEUE_CAPACITY_MS,
        }
    }
}

/// The first obstacle to using a gain and a limiter.
pub open spec fn processing_obstacle(gain: EngineDecibels, limiter: EngineDecibels) -> Option<
    EngineError,
> {
    if !gain.valid_gain() {
        Some(EngineError::Gain)
    } else if !limiter.valid_limiter() {
        Some(EngineError::Limiter)
    } else {
        None
    }
}

/// The first obstacle to making an engine.
pub open spec fn config_obstacle(config: AudioConfig) -> Option<EngineError> {
    if processing_obstacle(config.gain_db, config.limiter_dbfs) is Some {
        processing_obstacle(config.gain_db, config.limiter_dbfs)
    } else if !(1 <= config.queue_capacity_ms <= MAX_QUEUE_CAPACITY_MS) {
        Some(EngineError::QueueCapacity)
    } else if config.node_name@.contains('\0') {
        Some(EngineError::NodeName)
    } else if config.node_description@.contains('\0') {
        Some(EngineError::NodeDescription)
    } else {
        None
    }
}

/// Accepts a gain from 0 to 30 dB with a limiter from -12 to 0 dBFS.
pub fn validate_processing(gain_db: EngineDecibels, limiter_dbfs: EngineDecibels) -> (result:
    Result<(), EngineError>)
    ensures
        match result {
            Ok(_) => processing_obstacle(gain_db, limiter_dbfs) is None,
            Err(error) => processing_obstacle(gain_db, limiter_dbfs) == Some(error),
        },
{
    if !gain_db.is_valid_gain() {
        return Err(EngineError::Gain);
    }
    if !limiter_dbfs.is_valid_limiter() {
        return Err(EngineError::Limiter);
    }
    Ok(())
}

fn has_null(text: &str) -> (found: bool)
    ensures
        found == text@.contains('\0'),
{
    let chars = chars_of(text);
    for i in 0..chars.len()
        invariant
            chars@ == text@,
            forall|j: int| 0 <= j < i ==> chars@[j] != '\0',
    {
        if chars[i] == '\0' {
            assert(text@[i as int] == '\0');
            return true;
        }
    }
    false
}

impl AudioConfig {
    /// Accepts the values of which an engine can be made.
    pub fn validate(&self) -> (result: Result<(), EngineError>)
        ensures
            match result {
                Ok(_) => config_obstacle(*self) is None,
                Err(error) => config_obstacle(*self) == Some(error),
            },
    {
        match validate_processing(self.gain_db, self.limiter_dbfs) {
            Ok(_) => {},
            Err(error) => {
                return Err(error);
            },
        }
        if !(1 <= self.queue_capacity_ms && self.queue_capacity_ms <= MAX_QUEUE_CAPACITY_MS) {
            return Err(EngineError::QueueCapacity);
        }
        if has_null(self.node_name.as_str()) {
            return Err(EngineError::NodeName);
        }
        if has_null(self.node_description.as_str()) {
            return Err(EngineError::NodeDescription);
        }
        Ok(())
    }
}

/// What became of an access unit.
#[derive(Clone, Copy, Debug, PartialEq, Eq, Structural)]
pub enum PushOutcome {
    /// It was decoded and its PCM queued.
    Queued,
    /// It was decoded, but the queue was full and the frame dropped.
    QueueFull,
    /// The decoder refused it, and silence stands in its place.
    DecodeError,
}

/// The counters of decoder, DSP and queue.
#[derive(Clone, Copy, Debug, PartialEq, Eq, Structural)]
pub struct AudioMetrics {
    /// The access units received.
    pub access_units: u64,
    /// The frames decoded.
    pub decoded_frames: u64,
    /// The PCM samples decoded.
    pub decoded_samples: u64,
    /// The frames dropped because the queue was full.
    pub queue_drops: u64,
    /// The access units that could not be decoded.
    pub decode_errors: u64,
    /// The callbacks that were filled with silence in part.
    pub underflows: u64,
    /// The samples of silence sent while buffering or on underflow.
    pub silence_samples: u64,
    /// The old samples dropped to bound the latency.
    pub stale_samples_dropped: u64,
    /// The samples of silence that stand for frames that could not be decoded.
    pub concealed_samples: u64,
    /// The longest gap between two access units, in microseconds.
    pub maximum_packet_gap_microseconds: u64,
    /// The current jitter target, in samples.
    pub target_samples: u64,
    /// The samples that PipeWire asked for last.
    pub requested_samples: u64,
    /// The most samples that PipeWire asked for in one callback.
    pub maximum_requested_samples: u64,
    /// The current correction of clock drift, in parts per million.
    pub rate_correction_ppm: i64,
    /// The samples waiting in the queue.
    pub queued_samples: u64,
}

impl Default for AudioMetrics {
    /// The counters before anything happened.
    fn default() -> (metrics: AudioMetrics)
        ensures
            metrics == (AudioMetrics {
                access_units: 0,
                decoded_frames: 0,
                decoded_samples: 0,
                queue_drops: 0,
                decode_errors: 0,
                underflows: 0,
                silence_samples: 0,
                stale_samples_dropped: 0,
                concealed_samples: 0,
                maximum_packet_gap_microseconds: 0,
                target_samples: 0,
                requested_samples: 0,
                maximum_requested_samples: 0,
                rate_correction_ppm: 0,
                queued_samples: 0,
            }),
    {
        AudioMetrics {
            access_units: 0,
            decoded_frames: 0,
            decoded_samples: 0,
            queue_drops: 0,
            decode_errors: 0,
            underflows: 0,
            silence_samples: 0,
            stale_samples_dropped: 0,
            concealed_samples: 0,
            maximum_packet_gap_microseconds: 0,
            target_samples: 0,
            requested_samples: 0,
            maximum_requested_samples: 0,
            rate_correction_ppm: 0,
            queued_samples: 0,
        }
    }
}

/// The bytes of a buffer before its first null byte.
pub open spec fn until_null(buffer: Seq<u8>) -> Seq<u8>
    decreases buffer.len(),
{
    if buffer.len() == 0 || buffer[0] == 0 {
        Seq::empty()
    } else {
        seq![buffer[0]] + until_null(buffer.skip(1))
    }
}

/// The message for a native failure without one.
pub const SILENT_FAILURE: &'static str = "native audio engine failed without an error message";

/// The message that the bytes of an error buffer stand for.
pub open spec fn native_text(bytes: Seq<u8>) -> Seq<char> {
    if utf8_lossy(bytes).len() == 0 {
        SILENT_FAILURE@
    } else {
        utf8_lossy(bytes)
    }
}

/// The message for a text that the native engine wrote.
pub fn native_message(text: String) -> (message: String)
    ensures
        message@ == (if text@.len() == 0 {
            SILENT_FAILURE@
        } else {
            text@
        }),
{
    if text.as_str().is_empty() {
        SILENT_FAILURE.to_owned()
    } else {
        text
    }
}

/// The error that the native engine wrote into a buffer, up to the first null byte.
pub fn native_error(buffer: &[u8]) -> (error: EngineError)
    ensures
        error.text() == native_text(until_null(buffer@)),
        error is Native,
{
    let mut end: usize = 0;
    assert(buffer@.take(0) + until_null(buffer@.skip(0)) =~= until_null(buffer@)) by {
        assert(buffer@.skip(0) =~= buffer@);
    }
    while end < buffer.len() && buffer[end] != 0
        invariant
            end <= buffer.len(),
            until_null(buffer@) == buffer@.take(end as int) + until_null(buffer@.skip(end as int)),
        decreases buffer.len() - end,
    {
        let ghost rest = buffer@.skip(end as int);
        assert(rest.skip(1) =~= buffer@.skip(end + 1));
        assert(buffer@.take(end as int) + (seq![rest[0]] + until_null(rest.skip(1)))
            =~= buffer@.take(end + 1) + until_null(buffer@.skip(end + 1)));
        end = end + 1;
    }
    assert(buffer@.take(end as int) + Seq::<u8>::empty() =~= buffer@.take(end as int));
    let bytes = vstd::slice::slice_subrange(buffer, 0, end);
    assert(bytes@ =~= until_null(buffer@));
    EngineError::Native(native_message(decode_lossy(bytes)))
}

/// Reads the status of a native call: zero is success, and otherwise the buffer
/// holds the message.
pub fn call_status(status: i32, buffer: &[u8]) -> (result: Result<(), EngineError>)
    ensures
        result is Ok <==> status == 0,
        result matches Err(error) ==> error is Native && error.text() == native_text(
            until_null(buffer@),
        ),
{
    if status == 0 {
        Ok(())
    } else {
        Err(native_error(buffer))
    }
}

/// Refuses an access unit that the engine cannot take.
pub fn check_access_unit(access_unit: &[u8]) -> (result: Result<(), EngineError>)
    ensures
        match result {
            Ok(_) => access_unit@.len() > 0,
            Err(error) => access_unit@.len() == 0 && error is EmptyAccessUnit,
        },
{
    if access_unit.is_empty() {
        Err(EngineError::EmptyAccessUnit)
    } else {
        Ok(())
    }
}

/// The outcome that a status of the native push stands for.
pub open spec fn outcome_of(status: i32) -> Option<PushOutcome> {
    if status == 0 {
        Some(PushOutcome::Queued)
    } else if status == 1 {
        Some(PushOutcome::QueueFull)
    } else if status == 2 {
        Some(PushOutcome::DecodeError)
    } else {
        None
    }
}

/// Reads the status of the native push.
pub fn push_outcome(status: i32, buffer: &[u8]) -> (result: Result<PushOutcome, EngineError>)
    ensures
        match result {
            Ok(outcome) => outcome_of(status) == Some(outcome),
            Err(error) => {
                &&& outcome_of(status) is None
                &&& error is Native
                &&& error.text() == native_text(until_null(buffer@))
            },
        },
{
    match status {
        0 => Ok(PushOutcome::Queued),
        1 => Ok(PushOutcome::QueueFull),
        2 => Ok(PushOutcome::DecodeError),
        _ => Err(native_error(buffer)),
    }
}

/// The engine can be made from the values that stand where none are chosen.
pub proof fn law_default_engine_is_accepted(config: AudioConfig)
    requires
        config.node_name@ == SOURCE_NAME@,
        config.node_description@ == SOURCE_DESCRIPTION@,
        config.gain_db.bits == DEFAULT_GAIN_32,
        config.limiter_dbfs.bits == DEFAULT_LIMITER_32,
        config.queue_capacity_ms == DEFAULT_QUEUE_CAPACITY_MS,
    ensures
        config_obstacle(config) is None,
{
    reveal_strlit("Microphone_Virtual_Abdullohs_AirPods_Pro");
    reveal_strlit("Microphone virtual - Abdulloh's AirPods Pro");
    vstd::arithmetic::power2::lemma_pow2_pos(149);
    crate::decibel::lemma_whole_32();
    crate::decibel::lemma_magnitude_order(0, 0, 23);
    vstd::arithmetic::power2::lemma2_to64();
    assert(crate::decibel::magnitude(0, 23) == 0);
}

/// An engine can be made exactly with a gain and a limiter that are accepted, with a queue of 1 to
/// 5000 ms, and with names that hold no null character.
pub proof fn law_engines_need_usable_values(
    config: &AudioConfig,
    result: Result<(), EngineError>,
    valid_gain: bool,
    valid_limiter: bool,
)
    requires
        call_ensures(AudioConfig::validate, (config,), result),
        call_ensures(EngineDecibels::is_valid_gain, (config.gain_db,), valid_gain),
        call_ensures(EngineDecibels::is_valid_limiter, (config.limiter_dbfs,), valid_limiter),
    ensures
        result is Ok <==> valid_gain && valid_limiter && 1 <= config.queue_capacity_ms <= 5000 && (
        forall|i: int| 0 <= i < config.node_name@.len() ==> #[trigger] config.node_name@[i] != '\0')
            && (forall|i: int|
            0 <= i < config.node_description@.len() ==> #[trigger] config.node_description@[i]
                != '\0'),
        !valid_gain ==> result is Err && result->Err_0 is Gain,
        valid_gain && !valid_limiter ==> result is Err && result->Err_0 is Limiter,
{
    if config.node_name@.contains('\0') {
        let i = config.node_name@.index_of('\0');
        assert(config.node_name@[i] == '\0');
    }
    if config.node_description@.contains('\0') {
        let i = config.node_description@.index_of('\0');
        assert(config.node_description@[i] == '\0');
    }
}

/// Levels for a running engine are accepted exactly where both of them are.
pub proof fn law_running_engines_take_levels_in_range(
    gain_db: EngineDecibels,
    limiter_dbfs: EngineDecibels,
    result: Result<(), EngineError>,
    valid_gain: bool,
    valid_limiter: bool,
)
    requires
        call_ensures(validate_processing, (gain_db, limiter_dbfs), result),
        call_ensures(EngineDecibels::is_valid_gain, (gain_db,), valid_gain),
        call_ensures(EngineDecibels::is_valid_limiter, (limiter_dbfs,), valid_limiter),
    ensures
        result is Ok <==> valid_gain && valid_limiter,
        !valid_gain ==> result->Err_0 is Gain,
        valid_gain && !valid_limiter ==> result->Err_0 is Limiter,
{
}

proof fn lemma_until_null(buffer: Seq<u8>)
    ensures
        ({
            let text = until_null(buffer);
            &&& text.len() <= buffer.len()
            &&& text == buffer.take(text.len() as int)
            &&& forall|i: int| 0 <= i < text.len() ==> #[trigger] text[i] != 0
            &&& text.len() < buffer.len() ==> buffer[text.len() as int] == 0
        }),
    decreases buffer.len(),
{
    let text = until_null(buffer);
    if buffer.len() == 0 || buffer[0] == 0 {
        assert(text =~= buffer.take(0));
    } else {
        let rest = until_null(buffer.skip(1));
        lemma_until_null(buffer.skip(1));
        assert(text =~= buffer.take(text.len() as int)) by {
            assert(rest =~= buffer.skip(1).take(rest.len() as int));
        }
        assert forall|i: int| 0 <= i < text.len() implies #[trigger] text[i] != 0 by {
            if i > 0 {
                assert(text[i] == rest[i - 1]);
            }
        }
    }
}

/// The message of a native failure is what stands in its buffer before the first null byte, and a
/// failure without a message still has one.
pub proof fn law_native_messages_end_at_the_null_byte(buffer: &[u8], error: EngineError, end: int)
    requires
        call_ensures(native_error, (buffer,), error),
        0 <= end <= buffer@.len(),
        forall|i: int| 0 <= i < end ==> #[trigger] buffer@[i] != 0,
        end < buffer@.len() ==> buffer@[end] == 0,
    ensures
        error is Native,
        utf8_lossy(buffer@.take(end)).len() > 0 ==> error->Native_0@ == utf8_lossy(
            buffer@.take(end),
        ),
        error->Native_0@.len() > 0,
{
    lemma_until_null(buffer@);
    let text = until_null(buffer@);
    if text.len() < end {
        assert(buffer@[text.len() as int] != 0);
    }
    if end < text.len() {
        assert(text[end] == buffer@[end]);
    }
    reveal_strlit("native audio engine failed without an error message");
}

/// A native call succeeds exactly with the status zero. Of a push, zero says that the unit was
/// queued, one that the queue was full, two that it could not be decoded, and anything else is an
/// error. An access unit must not be empty.
pub proof fn law_statuses_have_their_meaning(
    status: i32,
    buffer: &[u8],
    called: Result<(), EngineError>,
    pushed: Result<PushOutcome, EngineError>,
    unit: &[u8],
    checked: Result<(), EngineError>,
)
    requires
        call_ensures(call_status, (status, buffer), called),
        call_ensures(push_outcome, (status, buffer), pushed),
        call_ensures(check_access_unit, (unit,), checked),
    ensures
        called is Ok <==> status == 0,
        status == 0 ==> pushed == Ok::<PushOutcome, EngineError>(PushOutcome::Queued),
        status == 1 ==> pushed == Ok::<PushOutcome, EngineError>(PushOutcome::QueueFull),
        status == 2 ==> pushed == Ok::<PushOutcome, EngineError>(PushOutcome::DecodeError),
        status < 0 || status > 2 ==> pushed is Err && pushed->Err_0 is Native,
        called is Err ==> called->Err_0 is Native,
        checked is Ok <==> unit@.len() > 0,
{
}

/// An engine of which nothing is chosen has no gain, a limiter of -3 dBFS and a queue of 250 ms, and
/// can be made.
pub proof fn law_engines_begin_without_gain(config: AudioConfig, result: Result<(), EngineError>)
    requires
        call_ensures(<AudioConfig as Default>::default, (), config),
        call_ensures(AudioConfig::validate, (&config,), result),
    ensures
        config.gain_db.bits == 0,
        config.limiter_dbfs.bits == 0xc040_0000,
        config.queue_capacity_ms == 250,
        result is Ok,
{
    law_default_engine_is_accepted(config);
}

/// What the native engine says is its message, and only where it says nothing another one stands in
/// its place.
pub proof fn law_native_messages_are_handed_on(
    text: String,
    message: String,
    error: EngineError,
    shown: String,
)
    requires
        call_ensures(native_message, (text,), message),
        call_ensures(EngineError::message, (error,), shown),
    ensures
        text@.len() > 0 ==> message@ == text@,
        text@.len() == 0 ==> message@ == "native audio engine failed without an error message"@,
        error matches EngineError::Native(said) ==> shown@ == said@,
{
}

} // verus!
