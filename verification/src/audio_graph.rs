//! Bookkeeping of the audio graph: ids of contexts, nodes and buffers,
//! which node kinds carry which automatable parameters, and the reading of
//! the enumerated settings scripts pass as strings.

use vstd::prelude::*;
use vstd::string::StringExecFns;
use std::collections::HashMap;
use crate::text::str_eq;

verus! {

broadcast use {vstd::std_specs::hash::group_hash_axioms, vstd::string::group_string_axioms};

/// An id handed to scripts.
#[derive(Clone, Copy, Debug, PartialEq, Eq, Structural)]
pub struct AudioId {
    pub id: u32,
}

/// The kinds of audio node the host creates.
#[derive(Clone, Copy, Debug, PartialEq, Eq, Structural)]
pub enum AudioNodeKind {
    Destination,
    Gain,
    BufferSource,
    Oscillator,
    Panner,
    BiquadFilter,
    StereoPanner,
    Delay,
    DynamicsCompressor,
    Analyser,
    ConstantSource,
    Convolver,
    WaveShaper,
    ChannelMerger,
    ChannelSplitter,
}

/// Automatable parameters of audio nodes.
#[derive(Clone, Copy, Debug, PartialEq, Eq, Structural)]
pub enum AudioParamName {
    Gain,
    PlaybackRate,
    Detune,
    Frequency,
    Q,
    Pan,
    DelayTime,
    Threshold,
    Knee,
    Ratio,
    Attack,
    Release,
    PositionX,
    PositionY,
    PositionZ,
    OrientationX,
    OrientationY,
    OrientationZ,
    Offset,
}

/// Errors of the audio ops.
#[derive(Clone, Debug, PartialEq, Eq)]
pub enum AudioError {
    ContextNotFound,
    OfflineContextNotFound,
    NodeNotFound,
    SourceNodeNotFound,
    DestinationNodeNotFound,
    BufferNotFound,
    /// The node exists but is of another kind than the op needs.
    WrongNodeKind(AudioNodeKind),
    /// The node kind has no parameter by this name.
    UnknownParam(AudioNodeKind, String),
    /// The node kind has no automatable parameters at all.
    NoParams,
    UnknownOscillatorType(String),
    UnknownFilterType(String),
    UnknownChannelCountMode(String),
    UnknownChannelInterpretation(String),
}

/// How a node kind is named in error texts.
pub open spec fn kind_name_spec(k: AudioNodeKind) -> Seq<char> {
    match k {
        AudioNodeKind::Destination => "Destination"@,
        AudioNodeKind::Gain => "Gain"@,
        AudioNodeKind::BufferSource => "BufferSource"@,
        AudioNodeKind::Oscillator => "Oscillator"@,
        AudioNodeKind::Panner => "Panner"@,
        AudioNodeKind::BiquadFilter => "BiquadFilter"@,
        AudioNodeKind::StereoPanner => "StereoPanner"@,
        AudioNodeKind::Delay => "Delay"@,
        AudioNodeKind::DynamicsCompressor => "DynamicsCompressor"@,
        AudioNodeKind::Analyser => "Analyser"@,
        AudioNodeKind::ConstantSource => "ConstantSource"@,
        AudioNodeKind::Convolver => "Convolver"@,
        AudioNodeKind::WaveShaper => "WaveShaper"@,
        AudioNodeKind::ChannelMerger => "ChannelMerger"@,
        AudioNodeKind::ChannelSplitter => "ChannelSplitter"@,
    }
}

fn kind_name(k: AudioNodeKind) -> (r: &'static str)
    ensures
        r@ == kind_name_spec(k),
{
    match k {
        AudioNodeKind::Destination => "Destination",
        AudioNodeKind::Gain => "Gain",
        AudioNodeKind::BufferSource => "BufferSource",
        AudioNodeKind::Oscillator => "Oscillator",
        AudioNodeKind::Panner => "Panner",
        AudioNodeKind::BiquadFilter => "BiquadFilter",
        AudioNodeKind::StereoPanner => "StereoPanner",
        AudioNodeKind::Delay => "Delay",
        AudioNodeKind::DynamicsCompressor => "DynamicsCompressor",
        AudioNodeKind::Analyser => "Analyser",
        AudioNodeKind::ConstantSource => "ConstantSource",
        AudioNodeKind::Convolver => "Convolver",
        AudioNodeKind::WaveShaper => "WaveShaper",
        AudioNodeKind::ChannelMerger => "ChannelMerger",
        AudioNodeKind::ChannelSplitter => "ChannelSplitter",
    }
}

/// The text an audio error is reported with. A node of the wrong kind is
/// "Not a ...Node" ("Not an OscillatorNode"); an unknown parameter is named
/// after the node kind, a gain node as "GainNode".
pub open spec fn audio_error_message_spec(e: AudioError) -> Seq<char> {
    match e {
        AudioError::ContextNotFound => "AudioContext not found"@,
        AudioError::OfflineContextNotFound => "OfflineAudioContext not found"@,
        AudioError::NodeNotFound => "Node not found"@,
        AudioError::SourceNodeNotFound => "Source node not found"@,
        AudioError::DestinationNodeNotFound => "Destination node not found"@,
        AudioError::BufferNotFound => "AudioBuffer not found"@,
        AudioError::WrongNodeKind(k) => (if k == AudioNodeKind::Oscillator { "Not an "@ } else { "Not a "@ })
            + kind_name_spec(k) + "Node"@,
        AudioError::UnknownParam(k, name) => (if k == AudioNodeKind::Gain { "GainNode"@ } else { kind_name_spec(k) })
            + ": unknown param '"@ + name@ + "'"@,
        AudioError::NoParams => "Node type has no audio params"@,
        AudioError::UnknownOscillatorType(t) => "Unknown oscillator type: "@ + t@,
        AudioError::UnknownFilterType(t) => "Unknown filter type: "@ + t@,
        AudioError::UnknownChannelCountMode(m) => "Unknown channelCountMode: "@ + m@,
        AudioError::UnknownChannelInterpretation(i) => "Unknown channelInterpretation: "@ + i@,
    }
}

fn prefixed(prefix: &str, rest: &String) -> (r: String)
    ensures
        r@ == prefix@ + rest@,
{
    let mut m = String::from_str(prefix);
    m.append(rest.as_str());
    m
}

impl AudioError {
    /// The text an audio error is reported with.
    pub fn message(&self) -> (r: String)
        ensures
            r@ == audio_error_message_spec(*self),
    {
        match self {
            AudioError::ContextNotFound => String::from_str("AudioContext not found"),
            AudioError::OfflineContextNotFound => String::from_str("OfflineAudioContext not found"),
            AudioError::NodeNotFound => String::from_str("Node not found"),
            AudioError::SourceNodeNotFound => String::from_str("Source node not found"),
            AudioError::DestinationNodeNotFound => String::from_str("Destination node not found"),
            AudioError::BufferNotFound => String::from_str("AudioBuffer not found"),
            AudioError::WrongNodeKind(k) => {
                let mut m = if *k == AudioNodeKind::Oscillator {
                    String::from_str("Not an ")
                } else {
                    String::from_str("Not a ")
                };
                m.append(kind_name(*k));
                m.append("Node");
                m
            },
            AudioError::UnknownParam(k, name) => {
                let mut m = if *k == AudioNodeKind::Gain {
                    String::from_str("GainNode")
                } else {
                    String::from_str(kind_name(*k))
                };
                m.append(": unknown param '");
                m.append(name.as_str());
                m.append("'");
                m
            },
            AudioError::NoParams => String::from_str("Node type has no audio params"),
            AudioError::UnknownOscillatorType(t) => prefixed("Unknown oscillator type: ", t),
            AudioError::UnknownFilterType(t) => prefixed("Unknown filter type: ", t),
            AudioError::UnknownChannelCountMode(m) => prefixed("Unknown channelCountMode: ", m),
            AudioError::UnknownChannelInterpretation(i) => prefixed("Unknown channelInterpretation: ", i),
        }
    }
}

/// The Web Audio attribute name of each automatable parameter.
pub open spec fn param_name(p: AudioParamName) -> Seq<char> {
    match p {
        AudioParamName::Gain => "gain"@,
        AudioParamName::PlaybackRate => "playbackRate"@,
        AudioParamName::Detune => "detune"@,
        AudioParamName::Frequency => "frequency"@,
        AudioParamName::Q => "Q"@,
        AudioParamName::Pan => "pan"@,
        AudioParamName::DelayTime => "delayTime"@,
        AudioParamName::Threshold => "threshold"@,
        AudioParamName::Knee => "knee"@,
        AudioParamName::Ratio => "ratio"@,
        AudioParamName::Attack => "attack"@,
        AudioParamName::Release => "release"@,
        AudioParamName::PositionX => "positionX"@,
        AudioParamName::PositionY => "positionY"@,
        AudioParamName::PositionZ => "positionZ"@,
        AudioParamName::OrientationX => "orientationX"@,
        AudioParamName::OrientationY => "orientationY"@,
        AudioParamName::OrientationZ => "orientationZ"@,
        AudioParamName::Offset => "offset"@,
    }
}

/// A parameter looked up by name is the parameter of that name: whatever
/// node it is asked of, a found parameter's attribute name is the name given.
pub proof fn lemma_found_param_has_name(kind: AudioNodeKind, name: Seq<char>)
    ensures
        param_spec(kind, name) is Some ==> param_name(param_spec(kind, name)->0) == name,
{
}

/// The automatable parameters each kind of node has, as Web Audio defines them.
pub open spec fn node_has_param(kind: AudioNodeKind, p: AudioParamName) -> bool {
    match kind {
        AudioNodeKind::Gain => p == AudioParamName::Gain,
        AudioNodeKind::BufferSource => p == AudioParamName::PlaybackRate || p == AudioParamName::Detune,
        AudioNodeKind::Oscillator => p == AudioParamName::Frequency || p == AudioParamName::Detune,
        AudioNodeKind::BiquadFilter => p == AudioParamName::Frequency || p == AudioParamName::Q
            || p == AudioParamName::Gain || p == AudioParamName::Detune,
        AudioNodeKind::StereoPanner => p == AudioParamName::Pan,
        AudioNodeKind::Delay => p == AudioParamName::DelayTime,
        AudioNodeKind::DynamicsCompressor => p == AudioParamName::Threshold || p == AudioParamName::Knee
            || p == AudioParamName::Ratio || p == AudioParamName::Attack || p == AudioParamName::Release,
        AudioNodeKind::Panner => p == AudioParamName::PositionX || p == AudioParamName::PositionY
            || p == AudioParamName::PositionZ || p == AudioParamName::OrientationX
            || p == AudioParamName::OrientationY || p == AudioParamName::OrientationZ,
        AudioNodeKind::ConstantSource => p == AudioParamName::Offset,
        _ => false,
    }
}

/// Every parameter a node has is found under its own name, and a lookup finds
/// only parameters that the node has.
pub proof fn lemma_node_params_found_by_name(kind: AudioNodeKind, p: AudioParamName, name: Seq<char>)
    ensures
        node_has_param(kind, p) ==> param_spec(kind, param_name(p)) == Some(p),
        param_spec(kind, name) is Some ==> node_has_param(kind, param_spec(kind, name)->0),
{
    reveal_strlit("gain");
    reveal_strlit("playbackRate");
    reveal_strlit("detune");
    reveal_strlit("frequency");
    reveal_strlit("Q");
    reveal_strlit("threshold");
    reveal_strlit("knee");
    reveal_strlit("ratio");
    reveal_strlit("attack");
    reveal_strlit("release");
    reveal_strlit("positionX");
    reveal_strlit("positionY");
    reveal_strlit("positionZ");
    reveal_strlit("orientationX");
    reveal_strlit("orientationY");
    reveal_strlit("orientationZ");
    assert("detune"@.len() != "playbackRate"@.len());
    assert("detune"@.len() != "frequency"@.len());
    assert("Q"@.len() != "frequency"@.len());
    assert("gain"@.len() != "frequency"@.len());
    assert("gain"@.len() != "Q"@.len());
    assert("detune"@.len() != "Q"@.len());
    assert("detune"@.len() != "gain"@.len());
    assert("knee"@.len() != "threshold"@.len());
    assert("ratio"@.len() != "threshold"@.len());
    assert("ratio"@.len() != "knee"@.len());
    assert("attack"@.len() != "threshold"@.len());
    assert("attack"@.len() != "knee"@.len());
    assert("attack"@.len() != "ratio"@.len());
    assert("release"@.len() != "threshold"@.len());
    assert("release"@.len() != "knee"@.len());
    assert("release"@.len() != "ratio"@.len());
    assert("release"@.len() != "attack"@.len());
    assert("orientationX"@.len() != "positionX"@.len());
    assert("orientationX"@.len() != "positionY"@.len());
    assert("orientationX"@.len() != "positionZ"@.len());
    assert("orientationY"@.len() != "positionX"@.len());
    assert("orientationY"@.len() != "positionY"@.len());
    assert("orientationY"@.len() != "positionZ"@.len());
    assert("orientationZ"@.len() != "positionX"@.len());
    assert("orientationZ"@.len() != "positionY"@.len());
    assert("orientationZ"@.len() != "positionZ"@.len());
    assert("positionY"@[8] != "positionX"@[8]);
    assert("positionZ"@[8] != "positionX"@[8]);
    assert("positionZ"@[8] != "positionY"@[8]);
    assert("orientationY"@[11] != "orientationX"@[11]);
    assert("orientationZ"@[11] != "orientationX"@[11]);
    assert("orientationZ"@[11] != "orientationY"@[11]);
    assert("positionY"@ != "positionX"@);
    assert("positionZ"@ != "positionX"@);
    assert("positionZ"@ != "positionY"@);
    assert("orientationY"@ != "orientationX"@);
    assert("orientationZ"@ != "orientationX"@);
    assert("orientationZ"@ != "orientationY"@);
}

/// The parameter a script names on a node of a given kind.
pub open spec fn param_spec(kind: AudioNodeKind, name: Seq<char>) -> Option<AudioParamName> {
    match kind {
        AudioNodeKind::Gain => {
            if name == "gain"@ { Some(AudioParamName::Gain) }
            else { None }
        },
        AudioNodeKind::BufferSource => {
            if name == "playbackRate"@ { Some(AudioParamName::PlaybackRate) }
            else if name == "detune"@ { Some(AudioParamName::Detune) }
            else { None }
        },
        AudioNodeKind::Oscillator => {
            if name == "frequency"@ { Some(AudioParamName::Frequency) }
            else if name == "detune"@ { Some(AudioParamName::Detune) }
            else { None }
        },
        AudioNodeKind::BiquadFilter => {
            if name == "frequency"@ { Some(AudioParamName::Frequency) }
            else if name == "Q"@ { Some(AudioParamName::Q) }
            else if name == "gain"@ { Some(AudioParamName::Gain) }
            else if name == "detune"@ { Some(AudioParamName::Detune) }
            else { None }
        },
        AudioNodeKind::StereoPanner => {
            if name == "pan"@ { Some(AudioParamName::Pan) }
            else { None }
        },
        AudioNodeKind::Delay => {
            if name == "delayTime"@ { Some(AudioParamName::DelayTime) }
            else { None }
        },
        AudioNodeKind::DynamicsCompressor => {
            if name == "threshold"@ { Some(AudioParamName::Threshold) }
            else if name == "knee"@ { Some(AudioParamName::Knee) }
            else if name == "ratio"@ { Some(AudioParamName::Ratio) }
            else if name == "attack"@ { Some(AudioParamName::Attack) }
            else if name == "release"@ { Some(AudioParamName::Release) }
            else { None }
        },
        AudioNodeKind::Panner => {
            if name == "positionX"@ { Some(AudioParamName::PositionX) }
            else if name == "positionY"@ { Some(AudioParamName::PositionY) }
            else if name == "positionZ"@ { Some(AudioParamName::PositionZ) }
            else if name == "orientationX"@ { Some(AudioParamName::OrientationX) }
            else if name == "orientationY"@ { Some(AudioParamName::OrientationY) }
            else if name == "orientationZ"@ { Some(AudioParamName::OrientationZ) }
            else { None }
        },
        AudioNodeKind::ConstantSource => {
            if name == "offset"@ { Some(AudioParamName::Offset) }
            else { None }
        },
        _ => None,
    }
}

/// Whether nodes of a kind carry automatable parameters.
pub open spec fn has_params(kind: AudioNodeKind) -> bool {
    kind == AudioNodeKind::Gain || kind == AudioNodeKind::BufferSource || kind == AudioNodeKind::Oscillator || kind == AudioNodeKind::BiquadFilter || kind == AudioNodeKind::StereoPanner || kind == AudioNodeKind::Delay || kind == AudioNodeKind::DynamicsCompressor || kind == AudioNodeKind::Panner || kind == AudioNodeKind::ConstantSource
}

/// Looks up the parameter a script names on a node of a given kind.
pub fn param_for(kind: AudioNodeKind, name: &str) -> (r: Result<AudioParamName, AudioError>)
    ensures
        !has_params(kind) ==> r == Err::<AudioParamName, AudioError>(AudioError::NoParams),
        has_params(kind) && param_spec(kind, name@) is Some ==>
            r == Ok::<AudioParamName, AudioError>(param_spec(kind, name@)->0),
        has_params(kind) && param_spec(kind, name@) is None ==>
            (r matches Err(AudioError::UnknownParam(k, n)) && k == kind && n@ == name@),
{
    let found = match kind {
        AudioNodeKind::Gain => {
            if str_eq(name, "gain") { Some(AudioParamName::Gain) }
            else { None }
        },
        AudioNodeKind::BufferSource => {
            if str_eq(name, "playbackRate") { Some(AudioParamName::PlaybackRate) }
            else if str_eq(name, "detune") { Some(AudioParamName::Detune) }
            else { None }
        },
        AudioNodeKind::Oscillator => {
            if str_eq(name, "frequency") { Some(AudioParamName::Frequency) }
            else if str_eq(name, "detune") { Some(AudioParamName::Detune) }
            else { None }
        },
        AudioNodeKind::BiquadFilter => {
            if str_eq(name, "frequency") { Some(AudioParamName::Frequency) }
            else if str_eq(name, "Q") { Some(AudioParamName::Q) }
            else if str_eq(name, "gain") { Some(AudioParamName::Gain) }
            else if str_eq(name, "detune") { Some(AudioParamName::Detune) }
            else { None }
        },
        AudioNodeKind::StereoPanner => {
            if str_eq(name, "pan") { Some(AudioParamName::Pan) }
            else { None }
        },
        AudioNodeKind::Delay => {
            if str_eq(name, "delayTime") { Some(AudioParamName::DelayTime) }
            else { None }
        },
        AudioNodeKind::DynamicsCompressor => {
            if str_eq(name, "threshold") { Some(AudioParamName::Threshold) }
            else if str_eq(name, "knee") { Some(AudioParamName::Knee) }
            else if str_eq(name, "ratio") { Some(AudioParamName::Ratio) }
            else if str_eq(name, "attack") { Some(AudioParamName::Attack) }
            else if str_eq(name, "release") { Some(AudioParamName::Release) }
            else { None }
        },
        AudioNodeKind::Panner => {
            if str_eq(name, "positionX") { Some(AudioParamName::PositionX) }
            else if str_eq(name, "positionY") { Some(AudioParamName::PositionY) }
            else if str_eq(name, "positionZ") { Some(AudioParamName::PositionZ) }
            else if str_eq(name, "orientationX") { Some(AudioParamName::OrientationX) }
            else if str_eq(name, "orientationY") { Some(AudioParamName::OrientationY) }
            else if str_eq(name, "orientationZ") { Some(AudioParamName::OrientationZ) }
            else { None }
        },
        AudioNodeKind::ConstantSource => {
            if str_eq(name, "offset") { Some(AudioParamName::Offset) }
            else { None }
        },
        _ => return Err(AudioError::NoParams),
    };
    match found {
        Some(p) => Ok(p),
        None => Err(AudioError::UnknownParam(kind, crate::text::owned(name))),
    }
}

/// Oscillator waveforms.
#[derive(Clone, Copy, Debug, PartialEq, Eq, Structural)]
pub enum OscillatorType {
    Sine,
    Square,
    Sawtooth,
    Triangle,
}

pub open spec fn oscillator_type_spec(s: Seq<char>) -> Option<OscillatorType> {
    if s == "sine"@ { Some(OscillatorType::Sine) }
    else if s == "square"@ { Some(OscillatorType::Square) }
    else if s == "sawtooth"@ { Some(OscillatorType::Sawtooth) }
    else if s == "triangle"@ { Some(OscillatorType::Triangle) }
    else { None }
}

/// Reads an oscillator waveform; unknown names are refused.
pub fn parse_oscillator_type(s: &str) -> (r: Result<OscillatorType, AudioError>)
    ensures
        match oscillator_type_spec(s@) {
            Some(t) => r == Ok::<OscillatorType, AudioError>(t),
            None => r matches Err(AudioError::UnknownOscillatorType(n)) && n@ == s@,
        },
{
    if str_eq(s, "sine") { Ok(OscillatorType::Sine) }
    else if str_eq(s, "square") { Ok(OscillatorType::Square) }
    else if str_eq(s, "sawtooth") { Ok(OscillatorType::Sawtooth) }
    else if str_eq(s, "triangle") { Ok(OscillatorType::Triangle) }
    else { Err(AudioError::UnknownOscillatorType(crate::text::owned(s))) }
}

/// The name of each oscillator waveform, as scripts write it.
pub open spec fn oscillator_type_name(v: OscillatorType) -> Seq<char> {
    match v {
        OscillatorType::Sine => "sine"@,
        OscillatorType::Square => "square"@,
        OscillatorType::Sawtooth => "sawtooth"@,
        OscillatorType::Triangle => "triangle"@,
    }
}

/// Every oscillator waveform is found under its name, as the oscillator waveform of that name.
pub proof fn lemma_oscillator_type_names(v: OscillatorType)
    ensures
        oscillator_type_spec(oscillator_type_name(v)) is Some,
        oscillator_type_name(oscillator_type_spec(oscillator_type_name(v))->0) == oscillator_type_name(v),
{
}

/// Biquad filter responses.
#[derive(Clone, Copy, Debug, PartialEq, Eq, Structural)]
pub enum BiquadFilterType {
    Lowpass,
    Highpass,
    Bandpass,
    Lowshelf,
    Highshelf,
    Peaking,
    Notch,
    Allpass,
}

pub open spec fn filter_type_spec(s: Seq<char>) -> Option<BiquadFilterType> {
    if s == "lowpass"@ { Some(BiquadFilterType::Lowpass) }
    else if s == "highpass"@ { Some(BiquadFilterType::Highpass) }
    else if s == "bandpass"@ { Some(BiquadFilterType::Bandpass) }
    else if s == "lowshelf"@ { Some(BiquadFilterType::Lowshelf) }
    else if s == "highshelf"@ { Some(BiquadFilterType::Highshelf) }
    else if s == "peaking"@ { Some(BiquadFilterType::Peaking) }
    else if s == "notch"@ { Some(BiquadFilterType::Notch) }
    else if s == "allpass"@ { Some(BiquadFilterType::Allpass) }
    else { None }
}

/// Reads a biquad filter response; unknown names are refused.
pub fn parse_filter_type(s: &str) -> (r: Result<BiquadFilterType, AudioError>)
    ensures
        match filter_type_spec(s@) {
            Some(t) => r == Ok::<BiquadFilterType, AudioError>(t),
            None => r matches Err(AudioError::UnknownFilterType(n)) && n@ == s@,
        },
{
    if str_eq(s, "lowpass") { Ok(BiquadFilterType::Lowpass) }
    else if str_eq(s, "highpass") { Ok(BiquadFilterType::Highpass) }
    else if str_eq(s, "bandpass") { Ok(BiquadFilterType::Bandpass) }
    else if str_eq(s, "lowshelf") { Ok(BiquadFilterType::Lowshelf) }
    else if str_eq(s, "highshelf") { Ok(BiquadFilterType::Highshelf) }
    else if str_eq(s, "peaking") { Ok(BiquadFilterType::Peaking) }
    else if str_eq(s, "notch") { Ok(BiquadFilterType::Notch) }
    else if str_eq(s, "allpass") { Ok(BiquadFilterType::Allpass) }
    else { Err(AudioError::UnknownFilterType(crate::text::owned(s))) }
}

/// The name of each biquad filter response, as scripts write it.
pub open spec fn filter_type_name(v: BiquadFilterType) -> Seq<char> {
    match v {
        BiquadFilterType::Lowpass => "lowpass"@,
        BiquadFilterType::Highpass => "highpass"@,
        BiquadFilterType::Bandpass => "bandpass"@,
        BiquadFilterType::Lowshelf => "lowshelf"@,
        BiquadFilterType::Highshelf => "highshelf"@,
        BiquadFilterType::Peaking => "peaking"@,
        BiquadFilterType::Notch => "notch"@,
        BiquadFilterType::Allpass => "allpass"@,
    }
}

/// Every biquad filter response is found under its name, as the biquad filter response of that name.
pub proof fn lemma_filter_type_names(v: BiquadFilterType)
    ensures
        filter_type_spec(filter_type_name(v)) is Some,
        filter_type_name(filter_type_spec(filter_type_name(v))->0) == filter_type_name(v),
{
}

/// How a node's channel count follows its inputs.
#[derive(Clone, Copy, Debug, PartialEq, Eq, Structural)]
pub enum ChannelCountMode {
    Max,
    ClampedMax,
    Explicit,
}

pub open spec fn channel_count_mode_spec(s: Seq<char>) -> Option<ChannelCountMode> {
    if s == "max"@ { Some(ChannelCountMode::Max) }
    else if s == "clamped-max"@ { Some(ChannelCountMode::ClampedMax) }
    else if s == "explicit"@ { Some(ChannelCountMode::Explicit) }
    else { None }
}

/// Reads a channel count mode; unknown names are refused.
pub fn parse_channel_count_mode(s: &str) -> (r: Result<ChannelCountMode, AudioError>)
    ensures
        match channel_count_mode_spec(s@) {
            Some(t) => r == Ok::<ChannelCountMode, AudioError>(t),
            None => r matches Err(AudioError::UnknownChannelCountMode(n)) && n@ == s@,
        },
{
    if str_eq(s, "max") { Ok(ChannelCountMode::Max) }
    else if str_eq(s, "clamped-max") { Ok(ChannelCountMode::ClampedMax) }
    else if str_eq(s, "explicit") { Ok(ChannelCountMode::Explicit) }
    else { Err(AudioError::UnknownChannelCountMode(crate::text::owned(s))) }
}

/// The name of each channel count mode, as scripts write it.
pub open spec fn channel_count_mode_name(v: ChannelCountMode) -> Seq<char> {
    match v {
        ChannelCountMode::Max => "max"@,
        ChannelCountMode::ClampedMax => "clamped-max"@,
        ChannelCountMode::Explicit => "explicit"@,
    }
}

/// Every channel count mode is found under its name, as the channel count mode of that name.
pub proof fn lemma_channel_count_mode_names(v: ChannelCountMode)
    ensures
        channel_count_mode_spec(channel_count_mode_name(v)) is Some,
        channel_count_mode_name(channel_count_mode_spec(channel_count_mode_name(v))->0) == channel_count_mode_name(v),
{
}

/// How channels are up- and down-mixed.
#[derive(Clone, Copy, Debug, PartialEq, Eq, Structural)]
pub enum ChannelInterpretation {
    Speakers,
    Discrete,
}

pub open spec fn channel_interpretation_spec(s: Seq<char>) -> Option<ChannelInterpretation> {
    if s == "speakers"@ { Some(ChannelInterpretation::Speakers) }
    else if s == "discrete"@ { Some(ChannelInterpretation::Discrete) }
    else { None }
}

/// Reads a channel interpretation; unknown names are refused.
pub fn parse_channel_interpretation(s: &str) -> (r: Result<ChannelInterpretation, AudioError>)
    ensures
        match channel_interpretation_spec(s@) {
            Some(t) => r == Ok::<ChannelInterpretation, AudioError>(t),
            None => r matches Err(AudioError::UnknownChannelInterpretation(n)) && n@ == s@,
        },
{
    if str_eq(s, "speakers") { Ok(ChannelInterpretation::Speakers) }
    else if str_eq(s, "discrete") { Ok(ChannelInterpretation::Discrete) }
    else { Err(AudioError::UnknownChannelInterpretation(crate::text::owned(s))) }
}

/// The name of each channel interpretation, as scripts write it.
pub open spec fn channel_interpretation_name(v: ChannelInterpretation) -> Seq<char> {
    match v {
        ChannelInterpretation::Speakers => "speakers"@,
        ChannelInterpretation::Discrete => "discrete"@,
    }
}

/// Every channel interpretation is found under its name, as the channel interpretation of that name.
pub proof fn lemma_channel_interpretation_names(v: ChannelInterpretation)
    ensures
        channel_interpretation_spec(channel_interpretation_name(v)) is Some,
        channel_interpretation_name(channel_interpretation_spec(channel_interpretation_name(v))->0) == channel_interpretation_name(v),
{
}

/// Spatialisation of a panner.
#[derive(Clone, Copy, Debug, PartialEq, Eq, Structural)]
pub enum PanningModel {
    EqualPower,
    Hrtf,
}

/// Reads a panning model: "HRTF", else equal power.
pub fn parse_panning_model(s: &str) -> (r: PanningModel)
    ensures
        r == (if s@ == "HRTF"@ { PanningModel::Hrtf } else { PanningModel::EqualPower }),
{
    if str_eq(s, "HRTF") { PanningModel::Hrtf } else { PanningModel::EqualPower }
}

/// Distance attenuation of a panner.
#[derive(Clone, Copy, Debug, PartialEq, Eq, Structural)]
pub enum DistanceModel {
    Linear,
    Inverse,
    Exponential,
}

/// Reads a distance model: "linear", "exponential", else inverse.
pub fn parse_distance_model(s: &str) -> (r: DistanceModel)
    ensures
        r == (if s@ == "linear"@ { DistanceModel::Linear }
            else if s@ == "exponential"@ { DistanceModel::Exponential }
            else { DistanceModel::Inverse }),
{
    if str_eq(s, "linear") { DistanceModel::Linear }
    else if str_eq(s, "exponential") { DistanceModel::Exponential }
    else { DistanceModel::Inverse }
}

/// Whether a context renders in real time or offline.
#[derive(Clone, Copy, Debug, PartialEq, Eq, Structural)]
pub enum ContextKind {
    Realtime,
    Offline,
}

/// The ids the audio ops hand out, one counter for everything (from 1),
/// and what each live id stands for.
pub struct AudioRegistry {
    next_id: u32,
    contexts: HashMap<u32, ContextKind>,
    nodes: HashMap<u32, AudioNodeKind>,
    buffers: HashMap<u32, bool>,
}

/// Every live id is below the next one to be handed out.
pub open spec fn ids_below(m: Map<u32, ContextKind>, n: Map<u32, AudioNodeKind>, b: Map<u32, bool>, next: u32) -> bool {
    &&& forall|k: u32| #[trigger] m.contains_key(k) ==> k < next
    &&& forall|k: u32| #[trigger] n.contains_key(k) ==> k < next
    &&& forall|k: u32| #[trigger] b.contains_key(k) ==> k < next
}

impl AudioRegistry {
    pub closed spec fn next(&self) -> u32 { self.next_id }
    pub closed spec fn contexts(&self) -> Map<u32, ContextKind> { self.contexts@ }
    pub closed spec fn nodes(&self) -> Map<u32, AudioNodeKind> { self.nodes@ }
    pub closed spec fn buffers(&self) -> Set<u32> { self.buffers@.dom() }

    pub closed spec fn wf(&self) -> bool {
        &&& self.next_id >= 1
        &&& ids_below(self.contexts@, self.nodes@, self.buffers@, self.next_id)
    }

    /// Nothing registered; the first id is 1.
    pub fn new() -> (s: Self)
        ensures
            s.wf(),
            s.next() == 1,
            s.contexts() == Map::<u32, ContextKind>::empty(),
            s.nodes() == Map::<u32, AudioNodeKind>::empty(),
            s.buffers() == Set::<u32>::empty(),
    {
        let s = AudioRegistry { next_id: 1, contexts: HashMap::new(), nodes: HashMap::new(), buffers: HashMap::new() };
        assert(s.buffers@.dom() =~= Set::<u32>::empty());
        s
    }

    /// The id handed out next.
    pub fn next_id(&self) -> (r: u32)
        ensures
            r == self.next(),
    {
        self.next_id
    }

    /// Hands out the next id.
    pub fn alloc_id(&mut self) -> (id: u32)
        requires
            old(self).wf(),
            old(self).next() < u32::MAX,
        ensures
            final(self).wf(),
            id == old(self).next(),
            final(self).next() == old(self).next() + 1,
            final(self).contexts() == old(self).contexts(),
            final(self).nodes() == old(self).nodes(),
            final(self).buffers() == old(self).buffers(),
    {
        let id = self.next_id;
        self.next_id = self.next_id + 1;
        id
    }

    /// Registers a new context and its destination node, in that order of
    /// ids, and returns (context id, destination id).
    pub fn create_context(&mut self, kind: ContextKind) -> (r: (u32, u32))
        requires
            old(self).wf(),
            old(self).next() < u32::MAX - 1,
        ensures
            final(self).wf(),
            r.0 == old(self).next(),
            r.1 == old(self).next() + 1,
            final(self).next() == old(self).next() + 2,
            final(self).contexts() == old(self).contexts().insert(r.0, kind),
            final(self).nodes() == old(self).nodes().insert(r.1, AudioNodeKind::Destination),
            final(self).buffers() == old(self).buffers(),
    {
        let ctx_id = self.alloc_id();
        let dest_id = self.alloc_id();
        self.contexts.insert(ctx_id, kind);
        self.nodes.insert(dest_id, AudioNodeKind::Destination);
        proof {
            assert(self.buffers@.dom() =~= old(self).buffers@.dom());
        }
        (ctx_id, dest_id)
    }

    /// Creates a node of a kind on a context; the context must exist.
    pub fn create_node(&mut self, ctx_id: u32, kind: AudioNodeKind) -> (r: Result<AudioId, AudioError>)
        requires
            old(self).wf(),
            old(self).next() < u32::MAX,
        ensures
            final(self).wf(),
            !old(self).contexts().contains_key(ctx_id) ==>
                r == Err::<AudioId, AudioError>(AudioError::ContextNotFound)
                && final(self).next() == old(self).next()
                && final(self).nodes() == old(self).nodes(),
            old(self).contexts().contains_key(ctx_id) ==>
                r == Ok::<AudioId, AudioError>(AudioId { id: old(self).next() })
                && final(self).next() == old(self).next() + 1
                && final(self).nodes() == old(self).nodes().insert(old(self).next(), kind),
            final(self).contexts() == old(self).contexts(),
            final(self).buffers() == old(self).buffers(),
    {
        if !self.contexts.contains_key(&ctx_id) {
            return Err(AudioError::ContextNotFound);
        }
        let id = self.alloc_id();
        self.nodes.insert(id, kind);
        Ok(AudioId { id })
    }

    /// Registers a buffer under a fresh id.
    pub fn add_buffer(&mut self) -> (id: u32)
        requires
            old(self).wf(),
            old(self).next() < u32::MAX,
        ensures
            final(self).wf(),
            id == old(self).next(),
            !old(self).buffers().contains(id),
            final(self).next() == old(self).next() + 1,
            final(self).buffers() == old(self).buffers().insert(id),
            final(self).contexts() == old(self).contexts(),
            final(self).nodes() == old(self).nodes(),
    {
        let id = self.alloc_id();
        self.buffers.insert(id, true);
        proof {
            assert(self.buffers@.dom() =~= old(self).buffers@.dom().insert(id));
        }
        id
    }

    /// Ends an offline context's rendering: the context leaves the active
    /// set and its rendered buffer is registered under a fresh id.
    pub fn finish_offline(&mut self, ctx_id: u32) -> (r: Result<u32, AudioError>)
        requires
            old(self).wf(),
            old(self).next() < u32::MAX,
        ensures
            final(self).wf(),
            !(old(self).contexts().contains_key(ctx_id) && old(self).contexts()[ctx_id] == ContextKind::Offline) ==>
                r == Err::<u32, AudioError>(AudioError::OfflineContextNotFound)
                && final(self).contexts() == old(self).contexts()
                && final(self).buffers() == old(self).buffers()
                && final(self).next() == old(self).next(),
            old(self).contexts().contains_key(ctx_id) && old(self).contexts()[ctx_id] == ContextKind::Offline ==>
                r == Ok::<u32, AudioError>(old(self).next())
                && final(self).contexts() == old(self).contexts().remove(ctx_id)
                && final(self).buffers() == old(self).buffers().insert(old(self).next())
                && final(self).next() == old(self).next() + 1,
            final(self).nodes() == old(self).nodes(),
    {
        match self.contexts.get(&ctx_id) {
            Some(ContextKind::Offline) => {},
            _ => return Err(AudioError::OfflineContextNotFound),
        }
        let _ = self.contexts.remove(&ctx_id);
        let id = self.add_buffer();
        Ok(id)
    }

    /// The kind of a live node.
    pub fn node_kind(&self, node_id: u32) -> (r: Result<AudioNodeKind, AudioError>)
        ensures
            self.nodes().contains_key(node_id) ==> r == Ok::<AudioNodeKind, AudioError>(self.nodes()[node_id]),
            !self.nodes().contains_key(node_id) ==> r == Err::<AudioNodeKind, AudioError>(AudioError::NodeNotFound),
    {
        match self.nodes.get(&node_id) {
            Some(k) => Ok(*k),
            None => Err(AudioError::NodeNotFound),
        }
    }

    /// Checks that a node exists and is of the kind an op needs.
    pub fn expect_kind(&self, node_id: u32, kind: AudioNodeKind) -> (r: Result<(), AudioError>)
        ensures
            r is Ok <==> (self.nodes().contains_key(node_id) && self.nodes()[node_id] == kind),
            r matches Err(e) ==> e == (if self.nodes().contains_key(node_id) {
                AudioError::WrongNodeKind(self.nodes()[node_id])
            } else {
                AudioError::NodeNotFound
            }),
    {
        match self.nodes.get(&node_id) {
            Some(k) => if *k == kind { Ok(()) } else { Err(AudioError::WrongNodeKind(*k)) },
            None => Err(AudioError::NodeNotFound),
        }
    }

    /// Forgets a node; unknown ids are ignored.
    pub fn drop_node(&mut self, node_id: u32)
        requires
            old(self).wf(),
        ensures
            final(self).wf(),
            final(self).nodes() == old(self).nodes().remove(node_id),
            final(self).contexts() == old(self).contexts(),
            final(self).buffers() == old(self).buffers(),
            final(self).next() == old(self).next(),
    {
        let _ = self.nodes.remove(&node_id);
    }

    /// Forgets a buffer; unknown ids are ignored.
    pub fn drop_buffer(&mut self, buffer_id: u32)
        requires
            old(self).wf(),
        ensures
            final(self).wf(),
            final(self).buffers() == old(self).buffers().remove(buffer_id),
            final(self).nodes() == old(self).nodes(),
            final(self).contexts() == old(self).contexts(),
            final(self).next() == old(self).next(),
    {
        let _ = self.buffers.remove(&buffer_id);
        proof {
            assert(self.buffers@.dom() =~= old(self).buffers@.dom().remove(buffer_id));
        }
    }

    /// Closes a realtime context; unknown ids are ignored. Says whether it existed.
    pub fn close_context(&mut self, ctx_id: u32) -> (r: bool)
        requires
            old(self).wf(),
        ensures
            final(self).wf(),
            r == (old(self).contexts().contains_key(ctx_id) && old(self).contexts()[ctx_id] == ContextKind::Realtime),
            final(self).contexts() == (if r { old(self).contexts().remove(ctx_id) } else { old(self).contexts() }),
            final(self).nodes() == old(self).nodes(),
            final(self).buffers() == old(self).buffers(),
            final(self).next() == old(self).next(),
    {
        match self.contexts.get(&ctx_id) {
            Some(ContextKind::Realtime) => {
                let _ = self.contexts.remove(&ctx_id);
                true
            },
            _ => false,
        }
    }
}

/// Every id the registry hands out is new: it differs from every live
/// context, node and buffer id.
pub proof fn lemma_fresh_ids(r: AudioRegistry, k: u32)
    requires
        r.wf(),
        r.contexts().contains_key(k) || r.nodes().contains_key(k) || r.buffers().contains(k),
    ensures
        k != r.next(),
{
}

} // verus!
