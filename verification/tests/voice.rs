use xinshang::asr::{
    asr_config, config_frame, extract_text, is_configured, is_final, not_configured_event,
    ready_event, voice_step, AsrConnection, AsrSession, AsrSetupError, PipeInput, PipeNext,
    PipeOutput, VoiceAction, VoiceMessage,
};
use xinshang::frame::{
    build_frame, parse_frame, FrameError, COMP_NONE, FLAG_SEQ_NEG, FLAG_SEQ_POS, MT_AUDIO_ONLY,
    MT_FULL_CLIENT, MT_FULL_SERVER, MT_SERVER_ERROR, SER_JSON, SER_NONE,
};
use xinshang::json::Json;
use xinshang::settings::Settings;

fn settings(vars: &[(&str, &str)]) -> Settings {
    Settings::from_vars(vars.iter().map(|(k, v)| (k.to_string(), v.to_string())).collect())
}

fn json(text: &str) -> Json {
    Json::parse(text.as_bytes()).unwrap()
}

fn event(out: &PipeOutput) -> Option<(&str, &str)> {
    out.event.as_ref().map(|e| (e.kind, e.text.as_str()))
}

fn error_frame(payload: &[u8]) -> Vec<u8> {
    let mut bin = vec![0x11, MT_SERVER_ERROR << 4, 0, 0, 0, 0, 0, 7];
    bin.extend_from_slice(&(payload.len() as u32).to_be_bytes());
    bin.extend_from_slice(payload);
    bin
}

#[test]
fn t_build_frame_min() {
    let f = build_frame(MT_FULL_CLIENT, FLAG_SEQ_POS, SER_JSON, COMP_NONE, Some(1), b"{}");
    assert_eq!(f.len(), 14);
    assert_eq!(f[0], 0x11);
    assert_eq!(f[1], (MT_FULL_CLIENT << 4) | FLAG_SEQ_POS);
    assert_eq!(f[2], SER_JSON << 4);
}

#[test]
fn frames_are_exact() {
    assert_eq!(
        build_frame(MT_AUDIO_ONLY, FLAG_SEQ_NEG, SER_NONE, COMP_NONE, Some(-3), &[]),
        vec![0x11, 0x23, 0x00, 0x00, 0xff, 0xff, 0xff, 0xfd, 0, 0, 0, 0]
    );
    assert_eq!(
        build_frame(0x0f, 0, 1, 1, None, &[9]),
        vec![0x11, 0xf0, 0x11, 0x00, 0, 0, 0, 1, 9]
    );
}

#[test]
fn frames_come_back() {
    let f = build_frame(MT_FULL_SERVER, FLAG_SEQ_POS, SER_JSON, COMP_NONE, Some(5), b"{\"a\":1}");
    let parsed = parse_frame(&f).ok().unwrap();
    assert_eq!(parsed.message_type, MT_FULL_SERVER);
    assert_eq!(parsed.payload, b"{\"a\":1}");
    let mut longer = build_frame(MT_FULL_SERVER + 16, 0, SER_JSON, COMP_NONE, None, b"xy");
    longer.extend_from_slice(b"rest");
    let parsed = parse_frame(&longer).ok().unwrap();
    assert_eq!((parsed.message_type, parsed.payload), (MT_FULL_SERVER, b"xy".to_vec()));
    let parsed = parse_frame(&error_frame(b"bad")).ok().unwrap();
    assert_eq!(parsed.message_type, MT_SERVER_ERROR);
    assert_eq!(parsed.payload, b"bad");
}

#[test]
fn broken_frames_are_told_apart() {
    assert!(matches!(parse_frame(&[0x11, 0, 0]), Err(FrameError::TooShort)));
    let seq = [0x11, (MT_FULL_SERVER << 4) | FLAG_SEQ_POS, 0, 0, 0, 0];
    assert!(matches!(parse_frame(&seq), Err(FrameError::MissingSequence)));
    let code = [0x11, MT_SERVER_ERROR << 4, 0, 0, 0];
    assert!(matches!(parse_frame(&code), Err(FrameError::MissingErrorCode)));
    let size = [0x11, MT_FULL_SERVER << 4, 0, 0, 0, 0];
    assert!(matches!(parse_frame(&size), Err(FrameError::MissingPayloadSize)));
    let payload = [0x11, MT_FULL_SERVER << 4, 0, 0, 0, 0, 0, 2, 1];
    assert!(matches!(parse_frame(&payload), Err(FrameError::PayloadTruncated)));
}

#[test]
fn the_recogniser_needs_an_id_and_a_token() {
    assert!(!is_configured(&settings(&[])));
    assert!(!is_configured(&settings(&[("VOLC_ASR_APP_ID", "a")])));
    let s = settings(&[("VOLCENGINE_ASR_STREAM_APP_ID", "a"), ("VOLC_ASR_TOKEN", "t")]);
    assert!(is_configured(&s));
    assert_eq!(
        AsrConnection::new(&settings(&[("VOLC_ASR_TOKEN", "t")]), 0).err(),
        Some(AsrSetupError::NoAppId)
    );
    assert_eq!(
        AsrConnection::new(&settings(&[("VOLC_ASR_APP_ID", "a")]), 0).err(),
        Some(AsrSetupError::NoToken)
    );
    assert_eq!(AsrSetupError::NoAppId.message(), "asr_not_configured: VOLC_ASR_APP_ID 未设置");
    assert_eq!(AsrSetupError::NoToken.message(), "asr_not_configured: VOLC_ASR_TOKEN 未设置");
}

#[test]
fn the_terms_of_a_connection() {
    let s = settings(&[("VOLC_ASR_APP_ID", "a"), ("VOLC_ASR_TOKEN", "t")]);
    let c = AsrConnection::with_ids(&s, 12, "r", "c").ok().unwrap();
    assert_eq!(c.url, "wss://openspeech.bytedance.com/api/v3/sauc/bigmodel");
    assert_eq!(c.resource, "volc.bigasr.sauc.duration");
    assert_eq!(c.model_name, "bigmodel");
    assert_eq!(c.request_id, "r");
    assert_eq!(c.connect_id, "xinshang-12-c");
    let a = AsrConnection::new(&s, 0).ok().unwrap();
    let b = AsrConnection::new(&s, 0).ok().unwrap();
    assert_eq!(a.request_id.len(), 36);
    assert_eq!(a.connect_id.len(), "xinshang-0-".len() + 36);
    assert_ne!(a.request_id, b.request_id);
}

#[test]
fn the_configuration_is_fixed() {
    let c = asr_config(40, "bigmodel".into());
    assert_eq!(c.user.uid, "xinshang_user_40");
    assert_eq!((c.audio.format, c.audio.codec), ("pcm", "raw"));
    assert_eq!((c.audio.rate, c.audio.bits, c.audio.channel), (16000, 16, 1));
    assert_eq!(c.request.model_name, "bigmodel");
    assert!(c.request.enable_punc && c.request.enable_itn && c.request.enable_ddc);
    assert!(c.request.show_utterances);
    let frame = config_frame(b"{}");
    assert_eq!(frame, build_frame(MT_FULL_CLIENT, FLAG_SEQ_POS, SER_JSON, COMP_NONE, Some(1), b"{}"));
}

#[test]
fn what_was_said() {
    assert_eq!(extract_text(&json(r#"{"result":{"text":"你好"}}"#)), "你好");
    let pieces = r#"{"result":{"text":"","utterances":[{"text":"你"},{"x":1},{"text":"好"}]}}"#;
    assert_eq!(extract_text(&json(pieces)), "你好");
    assert_eq!(extract_text(&json("{}")), "");
    assert!(is_final(&json(r#"{"result":{"is_final":true}}"#)));
    assert!(!is_final(&json(r#"{"result":{"is_final":"yes"}}"#)));
}

#[test]
fn sound_goes_out_in_numbered_frames() {
    let mut session = AsrSession::new();
    assert_eq!(session.sent(), 1);
    let out = session.step(PipeInput::Audio(vec![1, 2]));
    assert_eq!(
        out.frame,
        Some(build_frame(MT_AUDIO_ONLY, FLAG_SEQ_POS, SER_NONE, COMP_NONE, Some(2), &[1, 2]))
    );
    assert!(matches!(out.next, PipeNext::StopUnlessSent));
    let read = parse_frame(&out.frame.unwrap()).ok().unwrap();
    assert_eq!((read.message_type, read.payload), (MT_AUDIO_ONLY, vec![1, 2]));
    let out = session.step(PipeInput::Audio(vec![]));
    assert_eq!(
        out.frame,
        Some(build_frame(MT_AUDIO_ONLY, FLAG_SEQ_NEG, SER_NONE, COMP_NONE, Some(-3), &[]))
    );
    assert!(matches!(out.next, PipeNext::Continue));
    let out = session.step(PipeInput::AudioEnded);
    assert_eq!(
        out.frame,
        Some(build_frame(MT_AUDIO_ONLY, FLAG_SEQ_NEG, SER_NONE, COMP_NONE, Some(-4), &[]))
    );
    assert!(matches!(out.next, PipeNext::Stop));
    assert_eq!(session.sent(), 4);
}

#[test]
fn replies_become_events() {
    let mut session = AsrSession::new();
    let reply = |text: &str| {
        build_frame(MT_FULL_SERVER, FLAG_SEQ_POS, SER_JSON, COMP_NONE, Some(1), text.as_bytes())
    };
    let out = session.step(PipeInput::Binary(reply(r#"{"result":{"text":"你"}}"#)));
    assert_eq!(event(&out), Some(("partial", "你")));
    assert!(matches!(out.next, PipeNext::Continue));
    let out =
        session.step(PipeInput::Binary(reply(r#"{"result":{"text":"你好","is_final":true}}"#)));
    assert_eq!(event(&out), Some(("final", "你好")));
    let out = session.step(PipeInput::Binary(reply("no json")));
    assert_eq!(event(&out), None);
    let out = session.step(PipeInput::Binary(vec![0x11]));
    assert_eq!(event(&out), None);
    assert!(matches!(out.next, PipeNext::Continue));
    assert_eq!(session.sent(), 1);
}

#[test]
fn errors_end_the_session() {
    let mut session = AsrSession::new();
    let out = session.step(PipeInput::Binary(error_frame(b"b\xffd")));
    assert_eq!(event(&out), Some(("error", "b\u{fffd}d")));
    assert!(matches!(out.next, PipeNext::Fail));
    let out = session.step(PipeInput::Broken("reset".into()));
    assert_eq!(event(&out), Some(("error", "ws error: reset")));
    assert!(matches!(out.next, PipeNext::Stop));
    assert!(matches!(session.step(PipeInput::Closed).next, PipeNext::Stop));
    assert!(matches!(session.step(PipeInput::Other).next, PipeNext::Continue));
}

#[test]
fn the_browser_is_heard() {
    match voice_step(VoiceMessage::Binary(vec![1])) {
        VoiceAction::Forward(sound) => assert_eq!(sound, vec![1]),
        _ => panic!("sound is passed on"),
    }
    assert!(matches!(voice_step(VoiceMessage::Text("{\"type\":\"end\"}".into())), VoiceAction::End));
    assert!(matches!(voice_step(VoiceMessage::Text("hello".into())), VoiceAction::Ignore));
    assert!(matches!(voice_step(VoiceMessage::Close), VoiceAction::Stop));
    assert!(matches!(voice_step(VoiceMessage::Other), VoiceAction::Ignore));
    let e = not_configured_event();
    assert_eq!((e.kind, e.text.as_str()), ("error", "asr_not_configured"));
    let e = ready_event();
    assert_eq!((e.kind, e.text.as_str()), ("ready", ""));
}
