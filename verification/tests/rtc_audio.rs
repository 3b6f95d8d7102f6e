use lattice::audio_graph::{
    param_for, parse_channel_count_mode, parse_channel_interpretation, parse_distance_model,
    parse_filter_type, parse_oscillator_type, parse_panning_model, AudioError, AudioId,
    AudioNodeKind, AudioParamName, AudioRegistry, BiquadFilterType, ChannelCountMode,
    ChannelInterpretation, ContextKind, DistanceModel, OscillatorType, PanningModel,
};
use lattice::rtc_state::{base64_encode, webrtc, RtcError, RtcEventOut, WebRtcState};

#[test]
fn base64_matches_standard_encoding() {
    assert_eq!(base64_encode(b""), "");
    assert_eq!(base64_encode(b"f"), "Zg==");
    assert_eq!(base64_encode(b"fo"), "Zm8=");
    assert_eq!(base64_encode(b"foo"), "Zm9v");
    assert_eq!(base64_encode(b"foobar"), "Zm9vYmFy");
    assert_eq!(base64_encode(&[0xff, 0xfe, 0x00, 0x3e]), "//4APg==");
    assert_eq!(base64_encode(&[0u8; 7]).len(), 12);
}

#[test]
fn peers_channels_and_events() {
    let mut s = WebRtcState::new();
    let p = s.alloc_id();
    assert_eq!(p, 1);
    s.add_peer(p);
    assert_eq!(s.reserve_channel_id(p), Ok(0));
    assert_eq!(s.reserve_channel_id(p), Ok(1));
    assert_eq!(s.reserve_channel_id(9), Err(RtcError::PeerNotFound));
    assert_eq!(s.channel(p, 0), Err(RtcError::ChannelNotFound));
    s.register_channel(p, 0, 77);
    assert_eq!(s.channel(p, 0), Ok(77));
    assert_eq!(s.channel(2, 0), Err(RtcError::PeerNotFound));
    s.push_event(p, RtcEventOut::ChannelOpen { channel_id: 0, label: "chat".to_string() });
    s.push_event(p, RtcEventOut::ChannelClose { channel_id: 0 });
    let evs = s.poll(p).unwrap();
    assert_eq!(evs.len(), 2);
    assert!(matches!(evs[0], RtcEventOut::ChannelOpen { channel_id: 0, .. }));
    assert_eq!(s.poll(p).unwrap().len(), 0);
    assert!(s.close(p));
    assert!(!s.close(p));
    assert!(matches!(s.poll(p), Err(RtcError::PeerNotFound)));
    assert_eq!(s.alloc_id(), 2);
}

#[test]
fn shared_peer_registry_created_once() {
    let mut slot: Option<WebRtcState> = None;
    assert_eq!(webrtc(&mut slot).alloc_id(), 1);
    assert_eq!(webrtc(&mut slot).alloc_id(), 2);
}

#[test]
fn audio_params_by_node_kind() {
    assert_eq!(param_for(AudioNodeKind::Gain, "gain"), Ok(AudioParamName::Gain));
    assert_eq!(param_for(AudioNodeKind::BiquadFilter, "Q"), Ok(AudioParamName::Q));
    assert_eq!(param_for(AudioNodeKind::Panner, "orientationZ"), Ok(AudioParamName::OrientationZ));
    assert_eq!(param_for(AudioNodeKind::DynamicsCompressor, "release"), Ok(AudioParamName::Release));
    assert_eq!(param_for(AudioNodeKind::Gain, "pan"), Err(AudioError::UnknownParam(AudioNodeKind::Gain, "pan".to_string())));
    assert_eq!(param_for(AudioNodeKind::Analyser, "gain"), Err(AudioError::NoParams));
}

#[test]
fn audio_settings_parse() {
    assert_eq!(parse_oscillator_type("sawtooth"), Ok(OscillatorType::Sawtooth));
    assert_eq!(parse_oscillator_type("noise"), Err(AudioError::UnknownOscillatorType("noise".to_string())));
    assert_eq!(parse_filter_type("notch"), Ok(BiquadFilterType::Notch));
    assert_eq!(parse_filter_type("comb"), Err(AudioError::UnknownFilterType("comb".to_string())));
    assert_eq!(parse_channel_count_mode("clamped-max"), Ok(ChannelCountMode::ClampedMax));
    assert_eq!(parse_channel_count_mode("min"), Err(AudioError::UnknownChannelCountMode("min".to_string())));
    assert_eq!(parse_channel_interpretation("discrete"), Ok(ChannelInterpretation::Discrete));
    assert_eq!(parse_channel_interpretation("mono"), Err(AudioError::UnknownChannelInterpretation("mono".to_string())));
    assert_eq!(parse_panning_model("HRTF"), PanningModel::Hrtf);
    assert_eq!(parse_panning_model("hrtf"), PanningModel::EqualPower);
    assert_eq!(parse_distance_model("exponential"), DistanceModel::Exponential);
    assert_eq!(parse_distance_model("other"), DistanceModel::Inverse);
}

#[test]
fn audio_registry_ids() {
    let mut r = AudioRegistry::new();
    assert_eq!(r.create_context(ContextKind::Realtime), (1, 2));
    assert_eq!(r.node_kind(2), Ok(AudioNodeKind::Destination));
    assert_eq!(r.create_node(1, AudioNodeKind::Gain), Ok(AudioId { id: 3 }));
    assert_eq!(r.create_node(9, AudioNodeKind::Gain), Err(AudioError::ContextNotFound));
    assert_eq!(r.expect_kind(3, AudioNodeKind::Gain), Ok(()));
    assert_eq!(r.expect_kind(3, AudioNodeKind::Oscillator), Err(AudioError::WrongNodeKind(AudioNodeKind::Gain)));
    assert_eq!(r.expect_kind(4, AudioNodeKind::Gain), Err(AudioError::NodeNotFound));
    let (off, _) = r.create_context(ContextKind::Offline);
    assert_eq!(off, 4);
    assert!(!r.close_context(off));
    assert_eq!(r.finish_offline(off), Ok(6));
    assert_eq!(r.finish_offline(off), Err(AudioError::OfflineContextNotFound));
    assert_eq!(r.add_buffer(), 7);
    r.drop_buffer(7);
    r.drop_node(3);
    assert_eq!(r.node_kind(3), Err(AudioError::NodeNotFound));
    assert!(r.close_context(1));
    assert_eq!(r.next_id(), 8);
    assert_eq!(r.alloc_id(), 8);
    assert_eq!(r.next_id(), 9);
}

#[test]
fn audio_errors_read_as_reported() {
    assert_eq!(AudioError::ContextNotFound.message(), "AudioContext not found");
    assert_eq!(AudioError::OfflineContextNotFound.message(), "OfflineAudioContext not found");
    assert_eq!(AudioError::NodeNotFound.message(), "Node not found");
    assert_eq!(AudioError::SourceNodeNotFound.message(), "Source node not found");
    assert_eq!(AudioError::DestinationNodeNotFound.message(), "Destination node not found");
    assert_eq!(AudioError::BufferNotFound.message(), "AudioBuffer not found");
    assert_eq!(AudioError::WrongNodeKind(AudioNodeKind::Oscillator).message(), "Not an OscillatorNode");
    assert_eq!(AudioError::WrongNodeKind(AudioNodeKind::BufferSource).message(), "Not a BufferSourceNode");
    assert_eq!(AudioError::WrongNodeKind(AudioNodeKind::BiquadFilter).message(), "Not a BiquadFilterNode");
    assert_eq!(AudioError::WrongNodeKind(AudioNodeKind::Panner).message(), "Not a PannerNode");
    assert_eq!(AudioError::UnknownParam(AudioNodeKind::Gain, "pan".to_string()).message(), "GainNode: unknown param 'pan'");
    assert_eq!(AudioError::UnknownParam(AudioNodeKind::Delay, "gain".to_string()).message(), "Delay: unknown param 'gain'");
    assert_eq!(AudioError::NoParams.message(), "Node type has no audio params");
    assert_eq!(AudioError::UnknownOscillatorType("noise".to_string()).message(), "Unknown oscillator type: noise");
    assert_eq!(AudioError::UnknownFilterType("comb".to_string()).message(), "Unknown filter type: comb");
    assert_eq!(AudioError::UnknownChannelCountMode("all".to_string()).message(), "Unknown channelCountMode: all");
    assert_eq!(AudioError::UnknownChannelInterpretation("x".to_string()).message(), "Unknown channelInterpretation: x");
    assert_eq!(param_for(AudioNodeKind::Gain, "pan").unwrap_err().message(), "GainNode: unknown param 'pan'");
}
