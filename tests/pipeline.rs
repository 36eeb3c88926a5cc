use voice_assistant::capture::CaptureBuffer;
use voice_assistant::conditioner::{condition, condition_sample};
use voice_assistant::device::{find_closest_supported_sample_rate, SupportedRange};
use voice_assistant::orchestrator::{next_action, Action, Outcome};
use voice_assistant::transcription::{
    build_request, encode_pcm, first_transcript, pcm_to_le_bytes, RecognitionResponse,
    RecognitionResult, TranscriptOutcome,
};

const GAIN_TEN: u32 = 10_000_000;
const GATE: u32 = 5_000;

#[test]
fn conditions_captured_samples_end_to_end() {
    let out = condition(&vec![100, 2_000, -3_000], GAIN_TEN, GATE);
    assert_eq!(out, vec![0, 655, -983]);
}

#[test]
fn threshold_equality_is_gated() {
    assert_eq!(condition_sample(500, GAIN_TEN, GATE), 0);
    assert_eq!(condition_sample(-500, GAIN_TEN, GATE), 0);
    assert_eq!(condition_sample(501, GAIN_TEN, GATE), 164);
}

#[test]
fn condition_keeps_length_and_zeroes_quiet_samples() {
    let input = vec![1, -1, 400, 0, 1_000_000, -1_000_000];
    let out = condition(&input, GAIN_TEN, GATE);
    assert_eq!(out.len(), input.len());
    assert_eq!(&out[..4], &[0, 0, 0, 0]);
    assert_eq!(out[4], 32767);
    assert_eq!(out[5], -32768);
    assert!(condition(&vec![], GAIN_TEN, GATE).is_empty());
}

#[test]
fn passing_samples_keep_their_sign() {
    assert!(condition_sample(2_000, GAIN_TEN, GATE) > 0);
    assert!(condition_sample(-2_000, GAIN_TEN, GATE) < 0);
}

#[test]
fn appends_then_drain_keep_order() {
    let mut b = CaptureBuffer::new();
    assert_eq!(b.snapshot_max_abs(), 0);
    b.append(&[1, 2]);
    b.append(&[]);
    b.append(&[-7, 3, 4]);
    assert_eq!(b.snapshot_len(), 5);
    assert_eq!(b.snapshot_max_abs(), 7);
    assert_eq!(b.drain(), vec![1, 2, -7, 3, 4]);
    assert_eq!(b.snapshot_len(), 0);
    b.append(&[i32::MIN]);
    assert_eq!(b.snapshot_max_abs(), 2_147_483_648);
}

#[test]
fn negotiation_picks_the_nearest_range() {
    let ranges = vec![
        SupportedRange { min_sample_rate: 8_000, max_sample_rate: 16_000, channels: 1 },
        SupportedRange { min_sample_rate: 16_000, max_sample_rate: 48_000, channels: 2 },
    ];
    let c = find_closest_supported_sample_rate(&ranges, 44_100).unwrap();
    assert_eq!(c.candidate, 1);
    assert_eq!(c.sample_rate, 44_100);
    assert_eq!(c.channels, 2);
    let low = find_closest_supported_sample_rate(&ranges, 4_000).unwrap();
    assert_eq!((low.candidate, low.sample_rate), (0, 8_000));
    assert!(find_closest_supported_sample_rate(&vec![], 44_100).is_none());
}

#[test]
fn pcm_is_little_endian_base64() {
    assert_eq!(pcm_to_le_bytes(&vec![1, -2]), vec![1, 0, 0xFE, 0xFF]);
    assert_eq!(encode_pcm(&vec![1, -2]), "AQD+/w==");
    let req = build_request(&vec![1, -2], 16_000, 1, "en-US");
    assert_eq!(req.encoding, "LINEAR16");
    assert_eq!(req.language, "en-US");
    assert_eq!(req.content, "AQD+/w==");
    assert_eq!((req.sample_rate, req.channel_count), (16_000, 1));
}

#[test]
fn empty_results_mean_no_speech() {
    let r = first_transcript(&RecognitionResponse { results: vec![] });
    assert!(matches!(r, TranscriptOutcome::NoSpeech));
    let r = first_transcript(&RecognitionResponse {
        results: vec![RecognitionResult { alternatives: vec![], is_final: true }],
    });
    assert!(matches!(r, TranscriptOutcome::NoSpeech));
}

#[test]
fn first_alternative_is_returned_verbatim() {
    let resp = RecognitionResponse {
        results: vec![RecognitionResult {
            alternatives: vec!["hello world".to_string(), "hollow word".to_string()],
            is_final: false,
        }],
    };
    match first_transcript(&resp) {
        TranscriptOutcome::Transcript(t) => assert_eq!(t, "hello world"),
        TranscriptOutcome::NoSpeech => panic!("expected a transcript"),
    }
}

#[test]
fn transport_failure_still_runs_screen_and_mouse() {
    let a = next_action(Action::Listen, Outcome::Failed);
    assert!(matches!(a, Action::CaptureScreen));
    let a = next_action(a, Outcome::Text("menu".to_string()));
    assert!(matches!(&a, Action::AnalyzeScreen(t) if t == "menu"));
    let a = next_action(a, Outcome::Failed);
    assert!(matches!(a, Action::ReadMouse));
    assert!(matches!(next_action(a, Outcome::Done), Action::Sleep));
}

#[test]
fn spoken_reply_follows_transcript() {
    let a = next_action(Action::Listen, Outcome::Text("hi".to_string()));
    assert!(matches!(&a, Action::GenerateReply(t) if t == "hi"));
    let a = next_action(a, Outcome::Text("hello".to_string()));
    assert!(matches!(&a, Action::Speak(t) if t == "hello"));
    assert!(matches!(next_action(Action::Listen, Outcome::Text(String::new())), Action::CaptureScreen));
    assert!(matches!(next_action(Action::Sleep, Outcome::Done), Action::Listen));
}
