//! What the clients decide about the microphone.
use crate::text::{contains, has_part, joined};
use vstd::prelude::*;

verus! {

/// The format in which the microphone gives samples: one of the three that are taken, or
/// another, by its name.
#[derive(Debug)]
pub enum SampleFormat {
    Float32,
    Signed16,
    Unsigned16,
    Other { name: String },
}

/// A format of samples that is taken.
#[derive(Debug, Clone, Copy, PartialEq, Eq, Structural)]
pub enum SampleKind {
    Float32,
    Signed16,
    Unsigned16,
}

/// What is said of a format that is not taken.
pub open spec fn unsupported_text(name: Seq<char>) -> Seq<char> {
    "unsupported microphone sample format: "@ + name
}

/// The kind of samples to ask for, or what to say where the format is not taken.
pub fn sample_kind(format: SampleFormat) -> (r: Result<SampleKind, String>)
    ensures
        match format {
            SampleFormat::Float32 => r == Ok::<SampleKind, String>(SampleKind::Float32),
            SampleFormat::Signed16 => r == Ok::<SampleKind, String>(SampleKind::Signed16),
            SampleFormat::Unsigned16 => r == Ok::<SampleKind, String>(SampleKind::Unsigned16),
            SampleFormat::Other { name } => r matches Err(e) && e@ == unsupported_text(name@),
        },
{
    match format {
        SampleFormat::Float32 => Ok(SampleKind::Float32),
        SampleFormat::Signed16 => Ok(SampleKind::Signed16),
        SampleFormat::Unsigned16 => Ok(SampleKind::Unsigned16),
        SampleFormat::Other { name } => Err(
            joined("unsupported microphone sample format: ", name.as_str()),
        ),
    }
}

/// What is said of an error of the microphone stream.
pub open spec fn stream_error_text(message: Seq<char>) -> Seq<char> {
    "microphone stream error: "@ + message
}

/// Whether an error of the microphone stream is of no consequence.
pub open spec fn harmless(message: Seq<char>) -> bool {
    has_part(message, "alsa::poll() spuriously returned"@)
}

/// The line that reports an error of the microphone stream.
pub fn stream_error_line(message: &str) -> (r: String)
    ensures
        r@ == stream_error_text(message@),
{
    joined("microphone stream error: ", message)
}

/// The line that reports an error of the microphone stream, unless it is of no consequence.
pub fn report_stream_error(message: &str) -> (r: Option<String>)
    ensures
        match r {
            Some(line) => !harmless(message@) && line@ == stream_error_text(message@),
            None => harmless(message@),
        },
{
    if contains(message, "alsa::poll() spuriously returned") {
        None
    } else {
        Some(stream_error_line(message))
    }
}

/// What is said of a format and of an error names the one it is about.
pub proof fn law_capture_texts(text: Seq<char>)
    ensures
        unsupported_text(text) == "unsupported microphone sample format: "@ + text,
        stream_error_text(text) == "microphone stream error: "@ + text,
{
}

/// An error of the microphone stream is of no consequence exactly where it holds, with anything
/// before and after it, that ALSA was polled in vain.
pub proof fn law_harmless(message: Seq<char>)
    ensures
        harmless(message) <==> exists|a: Seq<char>, b: Seq<char>|
            message == #[trigger] (a + "alsa::poll() spuriously returned"@ + b),
{
    crate::text::law_has_part(message, "alsa::poll() spuriously returned"@);
}

} // verus!
