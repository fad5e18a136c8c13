//! The failure vocabulary shared by the input lifecycle and the driving loop.
//!
//! Each error type carries a stable, human-readable rendering through its
//! `message` method, and preserves the originating cause where one exists.

use vstd::prelude::*;
use vstd::string::StringExecFns;
use symphonia_core::errors::Error as SymphoniaError;

verus! {

/// Errors encountered while opening a new audio source or requesting
/// out-of-band metadata from a capability factory.
///
/// Underlying causes that arise outside this crate are carried as their
/// rendered descriptions.
#[derive(Debug)]
pub enum Error {
    /// Opening a DCA source failed; the description of the failure is kept.
    Dca(String),
    /// Reading or opening a file failed; the description of the failure is kept.
    Io(String),
    /// Parsing JSON (during metadata or stereo detection) failed.
    Json {
        /// Description of the JSON parse failure.
        error: String,
        /// The text that failed to parse.
        parsed_text: String,
    },
    /// The Opus codec reported an error; its description is kept.
    Opus(String),
    /// Extracting metadata from an alternate pipe failed.
    Metadata,
    /// Creating a stdout pipe failed.
    Stdout,
    /// Checking whether a path is stereo failed.
    Streams,
    /// A cached input was configured incorrectly; the description is kept.
    Streamcatcher(String),
    /// The JSON output of `youtube-dl` could not be processed; the text is kept.
    YouTubeDlProcessing(String),
    /// Running `youtube-dl` failed; the rendered process output is kept.
    YouTubeDlRun(String),
    /// The `url` field of the `youtube-dl` JSON output was missing; the text is kept.
    YouTubeDlUrl(String),
}

/// The rendering that [`Error::message`] returns.
pub open spec fn error_text(e: Error) -> Seq<char> {
    match e {
        Error::Dca(_) => "opening file DCA failed"@,
        Error::Io(d) => d@,
        Error::Json { error: _, parsed_text: _ } => "parsing JSON failed"@,
        Error::Opus(d) => d@,
        Error::Metadata => "extracting metadata failed"@,
        Error::Stdout => "creating stdout failed"@,
        Error::Streams => "checking if path is stereo failed"@,
        Error::Streamcatcher(_) => "invalid config for cached input"@,
        Error::YouTubeDlProcessing(_) => "youtube-dl returned invalid JSON"@,
        Error::YouTubeDlRun(o) => "youtube-dl encountered an error: "@ + o@,
        Error::YouTubeDlUrl(_) => "missing youtube-dl url"@,
    }
}

impl Error {
    /// A stable, human-readable summary of the failure.
    pub fn message(&self) -> (r: String)
        ensures
            r@ == error_text(*self),
    {
        match self {
            Error::Dca(_) => "opening file DCA failed".to_owned(),
            Error::Io(d) => d.clone(),
            Error::Json { error: _, parsed_text: _ } => "parsing JSON failed".to_owned(),
            Error::Opus(d) => d.clone(),
            Error::Metadata => "extracting metadata failed".to_owned(),
            Error::Stdout => "creating stdout failed".to_owned(),
            Error::Streams => "checking if path is stereo failed".to_owned(),
            Error::Streamcatcher(_) => "invalid config for cached input".to_owned(),
            Error::YouTubeDlProcessing(_) => "youtube-dl returned invalid JSON".to_owned(),
            Error::YouTubeDlRun(o) => {
                let mut s = "youtube-dl encountered an error: ".to_owned();
                s.append(o.as_str());
                s
            },
            Error::YouTubeDlUrl(_) => "missing youtube-dl url".to_owned(),
        }
    }

    /// The description of the wrapped underlying cause, for the variants that
    /// carry one.
    pub fn source(&self) -> (r: Option<&String>)
        ensures
            match *self {
                Error::Dca(d) => r matches Some(c) && *c == d,
                Error::Io(d) => r matches Some(c) && *c == d,
                Error::Json { error, parsed_text: _ } => r matches Some(c) && *c == error,
                Error::Opus(d) => r matches Some(c) && *c == d,
                Error::Streamcatcher(d) => r matches Some(c) && *c == d,
                _ => r is None,
            },
    {
        match self {
            Error::Dca(d) => Some(d),
            Error::Io(d) => Some(d),
            Error::Json { error, parsed_text: _ } => Some(error),
            Error::Opus(d) => Some(d),
            Error::Streamcatcher(d) => Some(d),
            _ => None,
        }
    }
}

/// Errors returned when a capability factory attempts to open a live audio
/// stream, or to fetch out-of-band metadata.
#[derive(Debug)]
pub enum AudioStreamError {
    /// The operation failed and should be retried once the given number of
    /// milliseconds has passed. The driving loop owns the retry decision.
    /// Rendered as seconds with two decimals (hundredths, truncated).
    RetryIn(u64),
    /// The operation failed and should not be retried.
    Fail(Error),
    /// The operation is not supported and will never succeed.
    Unsupported,
}

/// The decimal rendering of the digit `d`.
pub open spec fn digit_text(d: nat) -> Seq<char> {
    if d == 0 {
        "0"@
    } else if d == 1 {
        "1"@
    } else if d == 2 {
        "2"@
    } else if d == 3 {
        "3"@
    } else if d == 4 {
        "4"@
    } else if d == 5 {
        "5"@
    } else if d == 6 {
        "6"@
    } else if d == 7 {
        "7"@
    } else if d == 8 {
        "8"@
    } else {
        "9"@
    }
}

/// The decimal rendering of `n`, most significant digit first, no leading
/// zeros (except for `n == 0` itself).
pub open spec fn dec_text(n: nat) -> Seq<char>
    decreases n,
{
    if n < 10 {
        digit_text(n)
    } else {
        dec_text(n / 10) + digit_text(n % 10)
    }
}

fn digit_str(d: u64) -> (r: &'static str)
    requires
        d < 10,
    ensures
        r@ == digit_text(d as nat),
{
    if d == 0 {
        "0"
    } else if d == 1 {
        "1"
    } else if d == 2 {
        "2"
    } else if d == 3 {
        "3"
    } else if d == 4 {
        "4"
    } else if d == 5 {
        "5"
    } else if d == 6 {
        "6"
    } else if d == 7 {
        "7"
    } else if d == 8 {
        "8"
    } else {
        "9"
    }
}

pub(crate) fn dec_string(n: u64) -> (r: String)
    ensures
        r@ == dec_text(n as nat),
    decreases n,
{
    if n < 10 {
        digit_str(n).to_owned()
    } else {
        let mut s = dec_string(n / 10);
        s.append(digit_str(n % 10));
        s
    }
}

/// The rendering that [`AudioStreamError::message`] returns.
pub open spec fn audio_stream_error_text(e: AudioStreamError) -> Seq<char> {
    match e {
        AudioStreamError::RetryIn(ms) => "failed to create audio: "@ + "retry in "@ + dec_text(
            (ms / 1000) as nat,
        ) + "."@ + digit_text(((ms % 1000) / 100) as nat) + digit_text(((ms % 100) / 10) as nat)
            + "s"@,
        AudioStreamError::Fail(why) => "failed to create audio: "@ + error_text(why),
        AudioStreamError::Unsupported => "failed to create audio: "@
            + "operation was not supported"@,
    }
}

impl AudioStreamError {
    /// A stable, human-readable summary of the failure.
    pub fn message(&self) -> (r: String)
        ensures
            r@ == audio_stream_error_text(*self),
    {
        let mut s = "failed to create audio: ".to_owned();
        match self {
            AudioStreamError::RetryIn(ms) => {
                s.append("retry in ");
                let secs = dec_string(*ms / 1000);
                s.append(secs.as_str());
                s.append(".");
                s.append(digit_str((*ms % 1000) / 100));
                s.append(digit_str((*ms % 100) / 10));
                s.append("s");
            },
            AudioStreamError::Fail(why) => {
                let inner = why.message();
                s.append(inner.as_str());
            },
            AudioStreamError::Unsupported => {
                s.append("operation was not supported");
            },
        }
        s
    }
}

/// Declares `symphonia_core::errors::Error`, the failure type of the external
/// codec/demux collaborator, so that parse failures can carry it through.
#[verifier::external_type_specification]
#[verifier::external_body]
pub struct ExSymphoniaError(SymphoniaError);

/// Relies on the `Display` impl of `symphonia_core::errors::Error`, for the
/// description of a parse failure that this crate's own messages carry
/// verbatim. Nothing is claimed of the rendering: its content is the
/// collaborator's own, and the I/O variant delegates it wholly to the wrapped
/// `std::io::Error`.
#[verifier::external_body]
fn symphonia_error_text(e: &SymphoniaError) -> (r: String) {
    format!("{e}")
}

/// Errors encountered while readying an input: making it live, or parsing its
/// headers and codecs.
#[derive(Debug)]
pub enum MakePlayableError {
    /// The lazy capability factory failed to produce a live stream.
    Create(AudioStreamError),
    /// The codec/demux collaborator could not read headers, codecs, or a
    /// valid stream from the live input.
    Parse(SymphoniaError),
    /// The worker running the blocking parse terminated abnormally without
    /// producing a result.
    Panicked,
}

impl MakePlayableError {
    /// A stable, human-readable summary of the failure. For a parse failure
    /// the collaborator's own description is framed in brackets.
    pub fn message(&self) -> (r: String)
        ensures
            *self matches MakePlayableError::Create(c) ==> r@ == "failed to make track playable: "@
                + "input creation ["@ + audio_stream_error_text(c) + "]"@,
            *self matches MakePlayableError::Parse(_) ==> exists|mid: Seq<char>|
                r@ == "failed to make track playable: "@ + "parsing formats/codecs ["@ + mid
                    + "]"@,
            *self is Panicked ==> r@ == "failed to make track playable: "@
                + "panic during blocking I/O in parse"@,
    {
        let mut s = "failed to make track playable: ".to_owned();
        match self {
            MakePlayableError::Create(c) => {
                s.append("input creation [");
                let inner = c.message();
                s.append(inner.as_str());
                s.append("]");
            },
            MakePlayableError::Parse(p) => {
                s.append("parsing formats/codecs [");
                let inner = symphonia_error_text(p);
                s.append(inner.as_str());
                s.append("]");
                proof {
                    let mid = inner@;
                    assert(s@ == "failed to make track playable: "@ + "parsing formats/codecs ["@
                        + mid + "]"@);
                }
            },
            MakePlayableError::Panicked => {
                s.append("panic during blocking I/O in parse");
            },
        }
        s
    }
}

impl From<AudioStreamError> for MakePlayableError {
    /// Wraps a creation failure, as [`MakePlayableError::Create`].
    fn from(val: AudioStreamError) -> (r: Self) {
        MakePlayableError::Create(val)
    }
}

impl vstd::std_specs::convert::FromSpecImpl<AudioStreamError> for MakePlayableError {
    open spec fn obeys_from_spec() -> bool {
        true
    }

    open spec fn from_spec(val: AudioStreamError) -> Self {
        MakePlayableError::Create(val)
    }
}

impl From<SymphoniaError> for MakePlayableError {
    /// Wraps a codec/demux failure, as [`MakePlayableError::Parse`].
    fn from(val: SymphoniaError) -> (r: Self) {
        MakePlayableError::Parse(val)
    }
}

impl vstd::std_specs::convert::FromSpecImpl<SymphoniaError> for MakePlayableError {
    open spec fn obeys_from_spec() -> bool {
        true
    }

    open spec fn from_spec(val: SymphoniaError) -> Self {
        MakePlayableError::Parse(val)
    }
}

/// Errors encountered when asking for in-stream metadata before the input has
/// reached the state where it is discoverable. Never retried: the caller must
/// advance the input's state first.
#[derive(Debug)]
pub enum MetadataError {
    /// The input is still lazily initialised and must be made live first.
    NotLive,
    /// The input is live, but its headers have not been parsed yet.
    NotParsed,
}

/// The rendering that [`MetadataError::message`] returns.
pub open spec fn metadata_error_text(e: MetadataError) -> Seq<char> {
    match e {
        MetadataError::NotLive => "failed to get metadata: "@
            + "the input is not live, and hasn't been parsed"@,
        MetadataError::NotParsed => "failed to get metadata: "@
            + "the input is live but hasn't been parsed"@,
    }
}

impl MetadataError {
    /// A stable, human-readable summary of the failure.
    pub fn message(&self) -> (r: String)
        ensures
            r@ == metadata_error_text(*self),
    {
        let mut s = "failed to get metadata: ".to_owned();
        match self {
            MetadataError::NotLive => {
                s.append("the input is not live, and hasn't been parsed");
            },
            MetadataError::NotParsed => {
                s.append("the input is live but hasn't been parsed");
            },
        }
        s
    }
}

/// Errors encountered when asking for out-of-band metadata.
#[derive(Debug)]
pub enum AuxMetadataError {
    /// The input retains no capability factory, which is what serves
    /// out-of-band metadata.
    NoCompose,
    /// The capability factory failed to retrieve the metadata.
    Retrieve(AudioStreamError),
}

/// The rendering that [`AuxMetadataError::message`] returns.
pub open spec fn aux_metadata_error_text(e: AuxMetadataError) -> Seq<char> {
    match e {
        AuxMetadataError::NoCompose => "failed to get aux_metadata: "@
            + "the input has no Compose object"@,
        AuxMetadataError::Retrieve(why) => "failed to get aux_metadata: "@
            + "aux_metadata error from Compose: "@ + audio_stream_error_text(why),
    }
}

impl AuxMetadataError {
    /// A stable, human-readable summary of the failure.
    pub fn message(&self) -> (r: String)
        ensures
            r@ == aux_metadata_error_text(*self),
    {
        let mut s = "failed to get aux_metadata: ".to_owned();
        match self {
            AuxMetadataError::NoCompose => {
                s.append("the input has no Compose object");
            },
            AuxMetadataError::Retrieve(why) => {
                s.append("aux_metadata error from Compose: ");
                let inner = why.message();
                s.append(inner.as_str());
            },
        }
        s
    }
}

impl From<AudioStreamError> for AuxMetadataError {
    /// Wraps a factory failure, as [`AuxMetadataError::Retrieve`].
    fn from(val: AudioStreamError) -> (r: Self) {
        AuxMetadataError::Retrieve(val)
    }
}

impl vstd::std_specs::convert::FromSpecImpl<AudioStreamError> for AuxMetadataError {
    open spec fn obeys_from_spec() -> bool {
        true
    }

    open spec fn from_spec(val: AudioStreamError) -> Self {
        AuxMetadataError::Retrieve(val)
    }
}

} // verus!
