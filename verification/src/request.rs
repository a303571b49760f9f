//! The requests that the speech client streams: first the settings of the recognition, then
//! the audio.
use crate::text::texts;
use vstd::prelude::*;

verus! {

/// The sample rate of the audio that is sent, in hertz.
pub const TARGET_SAMPLE_RATE: u32 = 16_000;

/// The channels of the audio that is sent.
pub const TARGET_CHANNELS: u16 = 1;

/// How strongly a phrase is preferred.
pub const PHRASE_BOOST: u32 = 15;

/// A phrase that is likely to be said.
#[derive(Debug)]
pub struct Phrase {
    pub value: String,
    pub boost: u32,
}

/// A setting that the client never sets: the service goes by its own default.
#[derive(Debug, Clone, Copy, PartialEq, Eq, Structural)]
pub struct Unset;

/// Phrases that go with the request, and how strongly they are preferred together. As they
/// are kept nowhere, the set has no name and no history.
#[derive(Debug)]
pub struct PhraseSet {
    pub name: String,
    pub uid: String,
    pub phrases: Vec<Phrase>,
    pub boost: u32,
    pub display_name: String,
    pub state: i32,
    pub create_time: Unset,
    pub update_time: Unset,
    pub delete_time: Unset,
    pub expire_time: Unset,
    pub annotations: Unset,
    pub etag: String,
    pub reconciling: bool,
    pub kms_key_name: String,
    pub kms_key_version_name: String,
}

/// What the recognition is helped by: phrase sets that go with the request.
#[derive(Debug)]
pub struct SpeechAdaptation {
    pub phrase_sets: Vec<PhraseSet>,
    pub custom_classes: Unset,
}

/// How the audio is encoded.
#[derive(Debug, Clone, Copy, PartialEq, Eq, Structural)]
pub enum AudioEncoding {
    /// Uncompressed 16-bit signed samples, the low byte first.
    Linear16,
}

/// What the audio is.
#[derive(Debug, Clone, Copy)]
pub struct ExplicitDecodingConfig {
    pub encoding: AudioEncoding,
    pub sample_rate_hertz: i32,
    pub audio_channel_count: i32,
}

/// What is to be recognized, and how.
#[derive(Debug)]
pub struct RecognitionConfig {
    pub model: String,
    pub language_codes: Vec<String>,
    pub features: Unset,
    pub adaptation: SpeechAdaptation,
    pub transcript_normalization: Unset,
    pub translation_config: Unset,
    pub denoiser_config: Unset,
    pub decoding: ExplicitDecodingConfig,
}

/// How results are to be streamed.
#[derive(Debug)]
pub struct StreamingRecognitionConfig {
    pub config: RecognitionConfig,
    pub config_mask: Unset,
    pub enable_voice_activity_events: bool,
    pub interim_results: bool,
    pub voice_activity_timeout: Unset,
}

/// What a request carries.
#[derive(Debug)]
pub enum StreamingRequest {
    StreamingConfig { config: StreamingRecognitionConfig },
    Audio { audio: Vec<u8> },
}

/// A request of the stream.
#[derive(Debug)]
pub struct StreamingRecognizeRequest {
    pub recognizer: String,
    pub streaming_request: StreamingRequest,
}

/// What a [`Phrase`] holds.
pub struct PhraseView {
    pub value: Seq<char>,
    pub boost: u32,
}

/// What a [`PhraseSet`] holds.
pub struct PhraseSetView {
    pub name: Seq<char>,
    pub uid: Seq<char>,
    pub phrases: Seq<PhraseView>,
    pub boost: u32,
    pub display_name: Seq<char>,
    pub state: i32,
    pub create_time: Unset,
    pub update_time: Unset,
    pub delete_time: Unset,
    pub expire_time: Unset,
    pub annotations: Unset,
    pub etag: Seq<char>,
    pub reconciling: bool,
    pub kms_key_name: Seq<char>,
    pub kms_key_version_name: Seq<char>,
}

/// What a [`SpeechAdaptation`] holds.
pub struct SpeechAdaptationView {
    pub phrase_sets: Seq<PhraseSetView>,
    pub custom_classes: Unset,
}

/// What a [`RecognitionConfig`] holds.
pub struct RecognitionConfigView {
    pub model: Seq<char>,
    pub language_codes: Seq<Seq<char>>,
    pub features: Unset,
    pub adaptation: SpeechAdaptationView,
    pub transcript_normalization: Unset,
    pub translation_config: Unset,
    pub denoiser_config: Unset,
    pub decoding: ExplicitDecodingConfig,
}

/// What a [`StreamingRecognitionConfig`] holds.
pub struct StreamingRecognitionConfigView {
    pub config: RecognitionConfigView,
    pub config_mask: Unset,
    pub enable_voice_activity_events: bool,
    pub interim_results: bool,
    pub voice_activity_timeout: Unset,
}

/// What a [`StreamingRequest`] holds.
pub enum StreamingRequestView {
    StreamingConfig { config: StreamingRecognitionConfigView },
    Audio { audio: Seq<u8> },
}

/// What a [`StreamingRecognizeRequest`] holds.
pub struct RequestView {
    pub recognizer: Seq<char>,
    pub streaming_request: StreamingRequestView,
}

impl View for Phrase {
    type V = PhraseView;

    open spec fn view(&self) -> PhraseView {
        PhraseView { value: self.value@, boost: self.boost }
    }
}

impl View for PhraseSet {
    type V = PhraseSetView;

    open spec fn view(&self) -> PhraseSetView {
        PhraseSetView {
            name: self.name@,
            uid: self.uid@,
            phrases: self.phrases@.map_values(|p: Phrase| p@),
            boost: self.boost,
            display_name: self.display_name@,
            state: self.state,
            create_time: self.create_time,
            update_time: self.update_time,
            delete_time: self.delete_time,
            expire_time: self.expire_time,
            annotations: self.annotations,
            etag: self.etag@,
            reconciling: self.reconciling,
            kms_key_name: self.kms_key_name@,
            kms_key_version_name: self.kms_key_version_name@,
        }
    }
}

impl View for SpeechAdaptation {
    type V = SpeechAdaptationView;

    open spec fn view(&self) -> SpeechAdaptationView {
        SpeechAdaptationView {
            phrase_sets: self.phrase_sets@.map_values(|p: PhraseSet| p@),
            custom_classes: self.custom_classes,
        }
    }
}

impl View for RecognitionConfig {
    type V = RecognitionConfigView;

    open spec fn view(&self) -> RecognitionConfigView {
        RecognitionConfigView {
            model: self.model@,
            language_codes: texts(self.language_codes@),
            features: self.features,
            adaptation: self.adaptation@,
            transcript_normalization: self.transcript_normalization,
            translation_config: self.translation_config,
            denoiser_config: self.denoiser_config,
            decoding: self.decoding,
        }
    }
}

impl View for StreamingRecognitionConfig {
    type V = StreamingRecognitionConfigView;

    open spec fn view(&self) -> StreamingRecognitionConfigView {
        StreamingRecognitionConfigView {
            config: self.config@,
            config_mask: self.config_mask,
            enable_voice_activity_events: self.enable_voice_activity_events,
            interim_results: self.interim_results,
            voice_activity_timeout: self.voice_activity_timeout,
        }
    }
}

impl View for StreamingRecognizeRequest {
    type V = RequestView;

    open spec fn view(&self) -> RequestView {
        RequestView {
            recognizer: self.recognizer@,
            streaming_request: match self.streaming_request {
                StreamingRequest::StreamingConfig { config } =>
                    StreamingRequestView::StreamingConfig { config: config@ },
                StreamingRequest::Audio { audio } => StreamingRequestView::Audio { audio: audio@ },
            },
        }
    }
}

/// The phrases that are likely to be said.
pub open spec fn phrase_texts() -> Seq<Seq<char>> {
    seq!["Dobrý den"@, "Česká republika"@, "umělá inteligence"@]
}

/// The phrase set: each phrase with the same boost, and nothing else set.
pub open spec fn default_phrases() -> PhraseSetView {
    PhraseSetView {
        name: seq![],
        uid: seq![],
        phrases: phrase_texts().map_values(
            |value: Seq<char>| PhraseView { value, boost: PHRASE_BOOST },
        ),
        boost: PHRASE_BOOST,
        display_name: seq![],
        state: 0,
        create_time: Unset,
        update_time: Unset,
        delete_time: Unset,
        expire_time: Unset,
        annotations: Unset,
        etag: seq![],
        reconciling: false,
        kms_key_name: seq![],
        kms_key_version_name: seq![],
    }
}

/// The settings of the recognition: Czech speech, sent as mono 16-bit PCM at
/// [`TARGET_SAMPLE_RATE`].
pub open spec fn default_config() -> RecognitionConfigView {
    RecognitionConfigView {
        model: "chirp_2"@,
        language_codes: seq!["cs-CZ"@],
        features: Unset,
        adaptation: SpeechAdaptationView {
            phrase_sets: seq![default_phrases()],
            custom_classes: Unset,
        },
        transcript_normalization: Unset,
        translation_config: Unset,
        denoiser_config: Unset,
        decoding: ExplicitDecodingConfig {
            encoding: AudioEncoding::Linear16,
            sample_rate_hertz: TARGET_SAMPLE_RATE as i32,
            audio_channel_count: TARGET_CHANNELS as i32,
        },
    }
}

/// The request that opens the stream.
pub open spec fn opening_request(recognizer: Seq<char>) -> RequestView {
    RequestView {
        recognizer,
        streaming_request: StreamingRequestView::StreamingConfig {
            config: StreamingRecognitionConfigView {
                config: default_config(),
                config_mask: Unset,
                enable_voice_activity_events: false,
                interim_results: true,
                voice_activity_timeout: Unset,
            },
        },
    }
}

/// A request that carries audio.
pub open spec fn carrying_request(audio: Seq<u8>) -> RequestView {
    RequestView { recognizer: seq![], streaming_request: StreamingRequestView::Audio { audio } }
}

fn phrase(value: &str) -> (r: Phrase)
    ensures
        r@ == (PhraseView { value: value@, boost: PHRASE_BOOST }),
{
    Phrase { value: value.to_owned(), boost: PHRASE_BOOST }
}

fn inline_phrases() -> (r: PhraseSet)
    ensures
        r@ == default_phrases(),
{
    let phrases: Vec<Phrase> = vec![
        phrase("Dobrý den"),
        phrase("Česká republika"),
        phrase("umělá inteligence"),
    ];
    assert(phrases@.map_values(|p: Phrase| p@) =~= default_phrases().phrases);
    PhraseSet {
        name: String::new(),
        uid: String::new(),
        phrases,
        boost: PHRASE_BOOST,
        display_name: String::new(),
        state: 0,
        create_time: Unset,
        update_time: Unset,
        delete_time: Unset,
        expire_time: Unset,
        annotations: Unset,
        etag: String::new(),
        reconciling: false,
        kms_key_name: String::new(),
        kms_key_version_name: String::new(),
    }
}

/// The request that opens the stream to a recognizer: it holds the settings and no audio.
pub fn initial_request(recognizer: String) -> (r: StreamingRecognizeRequest)
    ensures
        r@ == opening_request(recognizer@),
{
    let phrase_sets: Vec<PhraseSet> = vec![inline_phrases()];
    let language_codes: Vec<String> = vec!["cs-CZ".to_owned()];
    assert(phrase_sets@.map_values(|p: PhraseSet| p@) =~= seq![default_phrases()]);
    assert(texts(language_codes@) =~= seq!["cs-CZ"@]);
    let config = RecognitionConfig {
        model: "chirp_2".to_owned(),
        language_codes,
        features: Unset,
        adaptation: SpeechAdaptation { phrase_sets, custom_classes: Unset },
        transcript_normalization: Unset,
        translation_config: Unset,
        denoiser_config: Unset,
        decoding: ExplicitDecodingConfig {
            encoding: AudioEncoding::Linear16,
            sample_rate_hertz: TARGET_SAMPLE_RATE as i32,
            audio_channel_count: TARGET_CHANNELS as i32,
        },
    };
    StreamingRecognizeRequest {
        recognizer,
        streaming_request: StreamingRequest::StreamingConfig {
            config: StreamingRecognitionConfig {
                config,
                config_mask: Unset,
                enable_voice_activity_events: false,
                interim_results: true,
                voice_activity_timeout: Unset,
            },
        },
    }
}

/// A request that carries audio. It names no recognizer: the first request did.
pub fn audio_request(audio: Vec<u8>) -> (r: StreamingRecognizeRequest)
    ensures
        r@ == carrying_request(audio@),
{
    StreamingRecognizeRequest {
        recognizer: String::new(),
        streaming_request: StreamingRequest::Audio { audio },
    }
}

/// The request that opens the stream names the recognizer, and but for that is the same for all.
pub proof fn law_opening_names_recognizer(a: Seq<char>, b: Seq<char>)
    ensures
        opening_request(a).recognizer == a,
        opening_request(a).streaming_request == opening_request(b).streaming_request,
{
}

/// What is asked for: Czech speech, by the model `chirp_2`, in mono 16-bit PCM at 16000 Hz,
/// with interim results and without voice activity events, helped by three phrases of equal
/// boost.
pub proof fn law_what_is_asked_for(recognizer: Seq<char>)
    ensures
        opening_request(recognizer).streaming_request
            matches StreamingRequestView::StreamingConfig { config } && {
            &&& config.interim_results
            &&& !config.enable_voice_activity_events
            &&& config.config.model == "chirp_2"@
            &&& config.config.language_codes == seq!["cs-CZ"@]
            &&& config.config.decoding.encoding == AudioEncoding::Linear16
            &&& config.config.decoding.sample_rate_hertz == 16_000
            &&& config.config.decoding.audio_channel_count == 1
            &&& config.config.adaptation.phrase_sets.len() == 1
            &&& ({
                let set = config.config.adaptation.phrase_sets[0];
                &&& set.boost == 15
                &&& set.phrases.len() == 3
                &&& set.phrases[0] == PhraseView { value: "Dobrý den"@, boost: 15 }
                &&& set.phrases[1] == PhraseView { value: "Česká republika"@, boost: 15 }
                &&& set.phrases[2] == PhraseView { value: "umělá inteligence"@, boost: 15 }
                &&& set.name.len() == 0 && set.uid.len() == 0 && set.display_name.len() == 0
                &&& set.etag.len() == 0 && set.kms_key_name.len() == 0
                &&& set.kms_key_version_name.len() == 0 && set.state == 0 && !set.reconciling
            })
        },
{
}

/// A request that carries audio carries all of it, names no recognizer and sets nothing.
pub proof fn law_audio_request_carries_audio(audio: Seq<u8>)
    ensures
        carrying_request(audio).recognizer.len() == 0,
        carrying_request(audio).streaming_request == (StreamingRequestView::Audio { audio }),
{
}

} // verus!
