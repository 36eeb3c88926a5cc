use vstd::prelude::*;
use vstd::string::StringExecFns;
use base64::Engine;

verus! {

/// What base64's standard encoding makes of a byte sequence.
pub uninterp spec fn base64_of(b: Seq<u8>) -> Seq<char>;

/// Relies on base64's STANDARD engine `encode`: the standard padded encoding, a function of the bytes alone.
#[verifier::external_body]
fn base64_encode(b: &Vec<u8>) -> (r: String)
    ensures
        r@ == base64_of(b@),
{
    base64::engine::general_purpose::STANDARD.encode(b)
}

/// Little-endian byte pair of one PCM sample.
pub open spec fn le_pair(v: i16) -> Seq<u8> {
    let u = (if v >= 0 { v as int } else { v as int + 65536 });
    seq![(u % 256) as u8, (u / 256) as u8]
}

/// The PCM stream as little-endian byte pairs, in order.
pub open spec fn le_bytes(pcm: Seq<i16>) -> Seq<u8>
    decreases pcm.len(),
{
    if pcm.len() == 0 { Seq::empty() } else { le_bytes(pcm.drop_last()) + le_pair(pcm.last()) }
}

/// Lays out PCM samples as little-endian byte pairs.
pub fn pcm_to_le_bytes(pcm: &Vec<i16>) -> (r: Vec<u8>)
    ensures
        r@ == le_bytes(pcm@),
{
    let mut out: Vec<u8> = Vec::new();
    let mut i: usize = 0;
    while i < pcm.len()
        invariant
            i <= pcm@.len(),
            out@ == le_bytes(pcm@.subrange(0, i as int)),
        decreases pcm@.len() - i,
    {
        let v = pcm[i];
        let u: u32 = if v >= 0 { v as u32 } else { (v as i32 + 65536) as u32 };
        out.push((u % 256) as u8);
        out.push((u / 256) as u8);
        assert(pcm@.subrange(0, i + 1).drop_last() == pcm@.subrange(0, i as int));
        i = i + 1;
    }
    assert(pcm@.subrange(0, pcm@.len() as int) == pcm@);
    out
}

/// Base64 text of the little-endian PCM bytes.
pub fn encode_pcm(pcm: &Vec<i16>) -> (r: String)
    ensures
        r@ == base64_of(le_bytes(pcm@)),
{
    let bytes = pcm_to_le_bytes(pcm);
    base64_encode(&bytes)
}

/// A request to the transcription endpoint.
pub struct TranscriptionRequest {
    pub encoding: String,
    pub sample_rate: u32,
    pub language: String,
    pub channel_count: u16,
    pub content: String,
}

/// Builds the request for conditioned PCM: LINEAR16 encoding and base64 content.
pub fn build_request(pcm: &Vec<i16>, sample_rate: u32, channel_count: u16, language: &str) -> (r: TranscriptionRequest)
    ensures
        r.encoding@ == "LINEAR16"@,
        r.sample_rate == sample_rate,
        r.channel_count == channel_count,
        r.language@ == language@,
        r.content@ == base64_of(le_bytes(pcm@)),
{
    TranscriptionRequest {
        encoding: String::from_str("LINEAR16"),
        sample_rate,
        language: String::from_str(language),
        channel_count,
        content: encode_pcm(pcm),
    }
}

/// One recognised segment with its ranked alternative transcripts.
pub struct RecognitionResult {
    pub alternatives: Vec<String>,
    pub is_final: bool,
}

/// A parsed response of the transcription endpoint.
pub struct RecognitionResponse {
    pub results: Vec<RecognitionResult>,
}

/// What one submission yields when the call itself succeeded.
pub enum TranscriptOutcome {
    Transcript(String),
    NoSpeech,
}

/// Why a submission failed.
pub enum TranscriptionError {
    Transport(String),
    ParseFailure(String),
}

/// The first alternative of the first result, verbatim; no speech when there is none.
pub fn first_transcript(resp: &RecognitionResponse) -> (r: TranscriptOutcome)
    ensures
        (resp.results@.len() == 0 || resp.results@[0].alternatives@.len() == 0)
            <==> r is NoSpeech,
        r matches TranscriptOutcome::Transcript(t) ==> t@ == resp.results@[0].alternatives@[0]@,
{
    if resp.results.len() == 0 {
        return TranscriptOutcome::NoSpeech;
    }
    let first = &resp.results[0];
    if first.alternatives.len() == 0 {
        return TranscriptOutcome::NoSpeech;
    }
    TranscriptOutcome::Transcript(first.alternatives[0].clone())
}

} // verus!
