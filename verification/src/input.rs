//! The readiness lifecycle of one audio source.
//!
//! An input is promoted on demand: *Lazy* (only a capability factory held)
//! to *Live* (byte stream open, headers unknown) to *Parsed* (headers and
//! codec known, in-stream metadata queryable). Promotion is one-directional
//! and never automatic. Blocking work — opening the stream, parsing headers —
//! is performed by collaborators off the tick loop; this module owns only the
//! decisions, so it never blocks the 20 ms cadence.

use vstd::prelude::*;
use crate::error::{AudioStreamError, AuxMetadataError, MakePlayableError, MetadataError};
use symphonia_core::errors::Error as SymphoniaError;

verus! {

/// A handle to the live byte stream of one audio source. The stream's bytes
/// are owned and read outside this crate; the handle identifies the stream to
/// the collaborators that consume it.
#[derive(Clone, Copy, Debug, PartialEq, Eq, Structural)]
pub struct AudioStream {
    /// Identifier of the externally owned byte stream.
    pub handle: u64,
}

/// In-stream metadata, discoverable only once headers have been parsed.
#[derive(Clone, Debug, PartialEq, Eq)]
pub struct Metadata {
    /// Track title read from the stream's headers, if present.
    pub title: Option<String>,
    /// Track duration in milliseconds, if the headers state one.
    pub duration_ms: Option<u64>,
    /// Sample rate in Hz, if the headers state one.
    pub sample_rate: Option<u32>,
    /// Channel count, if the headers state one.
    pub channels: Option<u32>,
}

/// Out-of-band metadata served by a capability factory, independent of any
/// stream.
#[derive(Clone, Debug, PartialEq, Eq)]
pub struct AuxMetadata {
    /// Track title, if known out of band.
    pub title: Option<String>,
    /// Artist, if known out of band.
    pub artist: Option<String>,
    /// Track duration in milliseconds, if known out of band.
    pub duration_ms: Option<u64>,
    /// Where the audio was sourced from, if known.
    pub source_url: Option<String>,
}

/// The artifacts of a successful header/codec parse: the stream they were
/// read from, together with the in-stream metadata.
#[derive(Debug, PartialEq, Eq)]
pub struct ParsedSource {
    /// The live byte stream the headers were read from.
    pub stream: AudioStream,
    /// The in-stream metadata found while parsing.
    pub metadata: Metadata,
}

/// A capability factory: a polymorphic producer able to open a live audio
/// stream, and to supply out-of-band metadata without opening one. Backends
/// (a file, a cached stream, a piped process) implement this trait; the
/// factory may perform blocking or long-latency work, which it surfaces as
/// [`AudioStreamError::RetryIn`] rather than by blocking the tick loop.
pub trait Compose {
    /// Attempts to open a live audio stream.
    fn create(&mut self) -> Result<AudioStream, AudioStreamError>;

    /// Fetches out-of-band metadata, independent of any stream.
    fn aux_metadata(&mut self) -> Result<AuxMetadata, AudioStreamError>;
}

/// The stage one input has reached, carrying only the data valid for that
/// stage.
#[derive(Debug, PartialEq, Eq)]
pub enum InputStage {
    /// Nothing opened yet.
    Lazy,
    /// A live byte stream exists; headers and codec are not yet identified.
    Live(AudioStream),
    /// Headers and codec are known; the input is playable.
    Parsed(ParsedSource),
}

/// The single terminal outcome of one offloaded parse job. The worker that
/// runs the blocking header/codec parse reports exactly one of these; no
/// partial result is observable.
#[derive(Debug)]
pub enum ParseOutcome {
    /// Headers and codec were identified; the in-stream metadata is attached.
    Parsed(Metadata),
    /// The codec/demux collaborator rejected the stream.
    Failed(SymphoniaError),
    /// The worker terminated abnormally without producing a result.
    Panicked,
}

/// One audio source's readiness state: its stage, and the capability factory
/// if one is retained. The factory is present whenever the input is still
/// lazy; an input constructed directly from a live stream may have none.
pub struct Input<C: Compose> {
    compose: Option<C>,
    stage: InputStage,
}

impl<C: Compose> Input<C> {
    /// The stage this input has reached.
    pub closed spec fn spec_stage(&self) -> InputStage {
        self.stage
    }

    /// Whether a capability factory is retained.
    pub closed spec fn has_compose(&self) -> bool {
        self.compose is Some
    }

    /// The retained capability factory.
    pub closed spec fn spec_compose(&self) -> Option<C> {
        self.compose
    }

    /// Whether nothing has been opened yet.
    pub open spec fn is_lazy(&self) -> bool {
        self.spec_stage() is Lazy
    }

    /// Whether a live stream exists whose headers are not yet parsed.
    pub open spec fn is_live_raw(&self) -> bool {
        self.spec_stage() is Live
    }

    /// Whether headers and codec are known.
    pub open spec fn is_parsed(&self) -> bool {
        self.spec_stage() is Parsed
    }

    /// How far this input has advanced: promotions only ever increase it.
    pub open spec fn rank(&self) -> int {
        match self.spec_stage() {
            InputStage::Lazy => 0,
            InputStage::Live(_) => 1,
            InputStage::Parsed(_) => 2,
        }
    }

    /// The live byte stream, once one exists.
    pub closed spec fn spec_stream(&self) -> AudioStream
        recommends
            !self.is_lazy(),
    {
        match self.stage {
            InputStage::Lazy => AudioStream { handle: 0 },
            InputStage::Live(s) => s,
            InputStage::Parsed(p) => p.stream,
        }
    }

    /// The in-stream metadata, once parsed.
    pub closed spec fn spec_metadata(&self) -> Metadata
        recommends
            self.is_parsed(),
    {
        match self.stage {
            InputStage::Parsed(p) => p.metadata,
            _ => Metadata { title: None, duration_ms: None, sample_rate: None, channels: None },
        }
    }

    /// A lazy input must retain the factory that can make it live.
    pub open spec fn wf(&self) -> bool {
        self.is_lazy() ==> self.has_compose()
    }

    /// A new input that holds only a capability factory.
    pub fn lazy(compose: C) -> (r: Self)
        ensures
            r.is_lazy(),
            r.spec_compose() == Some(compose),
            r.wf(),
    {
        Input { compose: Some(compose), stage: InputStage::Lazy }
    }

    /// A new input wrapping an already-open byte stream, retaining a factory
    /// only if the caller supplies one.
    pub fn live(stream: AudioStream, compose: Option<C>) -> (r: Self)
        ensures
            r.is_live_raw(),
            r.spec_stream() == stream,
            r.spec_compose() == compose,
            r.wf(),
    {
        Input { compose, stage: InputStage::Live(stream) }
    }

    /// The stage this input has reached.
    pub fn state(&self) -> (r: &InputStage)
        ensures
            *r == self.spec_stage(),
    {
        &self.stage
    }

    /// Applies the capability factory's answer to a creation attempt.
    ///
    /// Valid only while lazy; past that stage the answer is ignored and the
    /// call is a no-op, tolerating speculative re-invocation. On success the
    /// input becomes live with exactly the produced stream; on failure it
    /// stays lazy, no stream is stored, and the directive — including a
    /// retry-after duration — is handed back unmodified.
    pub fn apply_create(&mut self, outcome: Result<AudioStream, AudioStreamError>) -> (r: Result<
        (),
        AudioStreamError,
    >)
        ensures
            final(self).rank() >= old(self).rank(),
            final(self).spec_compose() == old(self).spec_compose(),
            old(self).wf() ==> final(self).wf(),
            !old(self).is_lazy() ==> *final(self) == *old(self) && r is Ok,
            old(self).is_lazy() ==> (outcome matches Ok(s) ==> final(self).is_live_raw()
                && final(self).spec_stream() == s && r is Ok),
            old(self).is_lazy() ==> (outcome matches Err(e) ==> *final(self) == *old(self) && r
                == Err::<(), AudioStreamError>(e)),
    {
        if matches!(&self.stage, InputStage::Lazy) {
            match outcome {
                Ok(s) => {
                    self.stage = InputStage::Live(s);
                    Ok(())
                },
                Err(e) => Err(e),
            }
        } else {
            Ok(())
        }
    }

    /// Asks the retained capability factory to open a live stream.
    ///
    /// Valid only while lazy; past that stage the factory is not consulted
    /// and the call is a no-op. On failure the input stays lazy with its
    /// factory, and the factory's directive is returned for the driving loop
    /// to schedule a retry — this function never retries internally.
    pub fn create(&mut self) -> (r: Result<(), AudioStreamError>)
        requires
            old(self).wf(),
        ensures
            final(self).wf(),
            final(self).rank() >= old(self).rank(),
            !old(self).is_lazy() ==> *final(self) == *old(self) && r is Ok,
            old(self).is_lazy() && r is Ok ==> final(self).is_live_raw() && final(self).has_compose(),
            old(self).is_lazy() && r is Err ==> final(self).is_lazy() && final(self).has_compose(),
    {
        if matches!(&self.stage, InputStage::Lazy) {
            let outcome = match &mut self.compose {
                Some(c) => c.create(),
                None => {
                    assert(false);
                    Err(AudioStreamError::Unsupported)
                },
            };
            self.apply_create(outcome)
        } else {
            Ok(())
        }
    }

    /// Applies the terminal outcome of one offloaded parse job.
    ///
    /// Valid once a stream exists. If already parsed, the outcome is ignored
    /// and the call is a no-op. A successful outcome promotes the input, a
    /// rejected stream and an abnormally terminated worker leave it live and
    /// untouched — a panicked worker is fatal for the attempt, and the core
    /// infers no partial success.
    pub fn apply_parse(&mut self, outcome: ParseOutcome) -> (r: Result<(), MakePlayableError>)
        requires
            !old(self).is_lazy(),
        ensures
            final(self).rank() >= old(self).rank(),
            final(self).spec_compose() == old(self).spec_compose(),
            old(self).wf() ==> final(self).wf(),
            old(self).is_parsed() ==> *final(self) == *old(self) && r is Ok,
            old(self).is_live_raw() ==> (outcome matches ParseOutcome::Parsed(m)
                ==> final(self).is_parsed() && final(self).spec_stream() == old(self).spec_stream()
                && final(self).spec_metadata() == m && r is Ok),
            old(self).is_live_raw() ==> (outcome matches ParseOutcome::Failed(e)
                ==> *final(self) == *old(self)
                && r == Err::<(), MakePlayableError>(MakePlayableError::Parse(e))),
            old(self).is_live_raw() && outcome is Panicked ==> *final(self) == *old(self) && r
                == Err::<(), MakePlayableError>(MakePlayableError::Panicked),
    {
        match outcome {
            ParseOutcome::Parsed(m) => {
                if matches!(&self.stage, InputStage::Live(_)) {
                    let mut taken = InputStage::Lazy;
                    core::mem::swap(&mut taken, &mut self.stage);
                    match taken {
                        InputStage::Live(s) => {
                            self.stage = InputStage::Parsed(
                                ParsedSource { stream: s, metadata: m },
                            );
                            Ok(())
                        },
                        _ => {
                            assert(false);
                            Ok(())
                        },
                    }
                } else {
                    Ok(())
                }
            },
            ParseOutcome::Failed(e) => {
                if matches!(&self.stage, InputStage::Live(_)) {
                    Err(MakePlayableError::Parse(e))
                } else {
                    Ok(())
                }
            },
            ParseOutcome::Panicked => {
                if matches!(&self.stage, InputStage::Live(_)) {
                    Err(MakePlayableError::Panicked)
                } else {
                    Ok(())
                }
            },
        }
    }

    /// Makes the input playable: creates the stream first if it is still
    /// lazy — surfacing creation errors unchanged, wrapped as
    /// [`MakePlayableError::Create`] — then applies the parse outcome.
    ///
    /// If already parsed, this is a no-op returning success.
    pub fn parse(&mut self, outcome: ParseOutcome) -> (r: Result<(), MakePlayableError>)
        requires
            old(self).wf(),
        ensures
            final(self).wf(),
            final(self).rank() >= old(self).rank(),
            old(self).is_parsed() ==> *final(self) == *old(self) && r is Ok,
            old(self).is_live_raw() ==> (outcome matches ParseOutcome::Parsed(m)
                ==> final(self).is_parsed() && final(self).spec_stream() == old(self).spec_stream()
                && final(self).spec_metadata() == m && r is Ok),
            old(self).is_live_raw() ==> (outcome matches ParseOutcome::Failed(e)
                ==> *final(self) == *old(self)
                && r == Err::<(), MakePlayableError>(MakePlayableError::Parse(e))),
            old(self).is_live_raw() && outcome is Panicked ==> *final(self) == *old(self) && r
                == Err::<(), MakePlayableError>(MakePlayableError::Panicked),
            old(self).is_lazy() ==> {
                ||| (r matches Err(MakePlayableError::Create(_)) && final(self).is_lazy() && final(self).has_compose())
                ||| (outcome matches ParseOutcome::Parsed(m) && final(self).is_parsed() && final(self).spec_metadata() == m && r is Ok)
                ||| (outcome matches ParseOutcome::Failed(e) && final(self).is_live_raw() && r
                    == Err::<(), MakePlayableError>(MakePlayableError::Parse(e)))
                ||| (outcome is Panicked && final(self).is_live_raw() && r == Err::<
                    (),
                    MakePlayableError,
                >(MakePlayableError::Panicked))
            },
    {
        if matches!(&self.stage, InputStage::Lazy) {
            let created = self.create();
            match created {
                Ok(()) => {},
                Err(e) => {
                    return Err(MakePlayableError::Create(e));
                },
            }
        }
        self.apply_parse(outcome)
    }

    /// In-stream metadata: available exactly once the input is parsed.
    ///
    /// Fails with [`MetadataError::NotLive`] while lazy and
    /// [`MetadataError::NotParsed`] while live — metadata embedded in the
    /// stream is only discoverable after header parsing, even though the
    /// stream exists earlier.
    pub fn metadata(&self) -> (r: Result<&Metadata, MetadataError>)
        ensures
            self.is_lazy() ==> r == Err::<&Metadata, MetadataError>(MetadataError::NotLive),
            self.is_live_raw() ==> r == Err::<&Metadata, MetadataError>(MetadataError::NotParsed),
            self.is_parsed() ==> (r matches Ok(m) && *m == self.spec_metadata()),
    {
        match &self.stage {
            InputStage::Lazy => Err(MetadataError::NotLive),
            InputStage::Live(_) => Err(MetadataError::NotParsed),
            InputStage::Parsed(p) => Ok(&p.metadata),
        }
    }

    /// Out-of-band metadata, served by the retained capability factory
    /// independent of the stream's state.
    ///
    /// Fails with [`AuxMetadataError::NoCompose`] when no factory is
    /// retained; the factory's answer is otherwise mapped exactly as
    /// [`apply_aux_metadata`] states. The input's stage never changes.
    pub fn aux_metadata(&mut self) -> (r: Result<AuxMetadata, AuxMetadataError>)
        ensures
            final(self).spec_stage() == old(self).spec_stage(),
            final(self).has_compose() == old(self).has_compose(),
            old(self).wf() ==> final(self).wf(),
            !old(self).has_compose() ==> *final(self) == *old(self) && r == Err::<
                AuxMetadata,
                AuxMetadataError,
            >(AuxMetadataError::NoCompose),
            old(self).has_compose() ==> (r is Ok || r matches Err(AuxMetadataError::Retrieve(_))),
    {
        match &mut self.compose {
            Some(c) => apply_aux_metadata(c.aux_metadata()),
            None => Err(AuxMetadataError::NoCompose),
        }
    }
}

/// Maps a capability factory's answer to an out-of-band metadata request:
/// metadata is handed through untouched, and the factory's own retrieval
/// error is propagated, wrapped as [`AuxMetadataError::Retrieve`].
pub fn apply_aux_metadata(outcome: Result<AuxMetadata, AudioStreamError>) -> (r: Result<
    AuxMetadata,
    AuxMetadataError,
>)
    ensures
        outcome matches Ok(m) ==> r == Ok::<AuxMetadata, AuxMetadataError>(m),
        outcome matches Err(e) ==> r == Err::<AuxMetadata, AuxMetadataError>(
            AuxMetadataError::Retrieve(e),
        ),
{
    match outcome {
        Ok(m) => Ok(m),
        Err(e) => Err(AuxMetadataError::Retrieve(e)),
    }
}

} // verus!
