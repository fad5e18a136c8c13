use symphonia_core::errors::Error as SymphoniaError;
use voice_core::error::{AudioStreamError, AuxMetadataError, MakePlayableError, MetadataError};
use voice_core::input::{
    apply_aux_metadata, AudioStream, AuxMetadata, Compose, Input, InputStage, Metadata,
    ParseOutcome,
};

/// A factory that answers each creation attempt from a script, and serves
/// fixed out-of-band metadata.
struct ScriptedCompose {
    answers: Vec<Result<AudioStream, AudioStreamError>>,
    aux: Result<AuxMetadata, AudioStreamError>,
}

impl Compose for ScriptedCompose {
    fn create(&mut self) -> Result<AudioStream, AudioStreamError> {
        if self.answers.is_empty() {
            panic!("factory consulted more often than scripted");
        }
        self.answers.remove(0)
    }

    fn aux_metadata(&mut self) -> Result<AuxMetadata, AudioStreamError> {
        match &self.aux {
            Ok(m) => Ok(m.clone()),
            Err(AudioStreamError::RetryIn(ms)) => Err(AudioStreamError::RetryIn(*ms)),
            Err(AudioStreamError::Unsupported) => Err(AudioStreamError::Unsupported),
            Err(AudioStreamError::Fail(_)) => Err(AudioStreamError::Unsupported),
        }
    }
}

fn some_aux() -> AuxMetadata {
    AuxMetadata {
        title: Some("a song".to_string()),
        artist: Some("a band".to_string()),
        duration_ms: Some(180_000),
        source_url: None,
    }
}

fn some_metadata() -> Metadata {
    Metadata {
        title: Some("a song".to_string()),
        duration_ms: Some(180_000),
        sample_rate: Some(48_000),
        channels: Some(2),
    }
}

#[test]
fn create_retries_twice_then_succeeds() {
    let factory = ScriptedCompose {
        answers: vec![
            Err(AudioStreamError::RetryIn(2000)),
            Err(AudioStreamError::RetryIn(2000)),
            Ok(AudioStream { handle: 7 }),
        ],
        aux: Ok(some_aux()),
    };
    let mut input = Input::lazy(factory);
    assert!(matches!(input.state(), InputStage::Lazy));

    let first = input.create();
    assert!(matches!(first, Err(AudioStreamError::RetryIn(2000))));
    assert!(matches!(input.state(), InputStage::Lazy));

    let second = input.create();
    assert!(matches!(second, Err(AudioStreamError::RetryIn(2000))));
    assert!(matches!(input.state(), InputStage::Lazy));

    let third = input.create();
    assert!(matches!(third, Ok(())));
    assert!(matches!(input.state(), InputStage::Live(AudioStream { handle: 7 })));
}

#[test]
fn retry_directive_passes_through_unmodified() {
    let mut input: Input<ScriptedCompose> =
        Input::lazy(ScriptedCompose { answers: vec![], aux: Ok(some_aux()) });
    let r = input.apply_create(Err(AudioStreamError::RetryIn(2000)));
    assert!(matches!(r, Err(AudioStreamError::RetryIn(2000))));
    assert!(matches!(input.state(), InputStage::Lazy));
}

#[test]
fn create_is_a_noop_once_live() {
    // The script holds exactly one answer: a second consultation would panic.
    let factory = ScriptedCompose {
        answers: vec![Ok(AudioStream { handle: 3 })],
        aux: Ok(some_aux()),
    };
    let mut input = Input::lazy(factory);
    assert!(matches!(input.create(), Ok(())));
    assert!(matches!(input.create(), Ok(())));
    assert!(matches!(input.state(), InputStage::Live(AudioStream { handle: 3 })));
}

#[test]
fn metadata_gating_follows_the_stage() {
    let factory = ScriptedCompose {
        answers: vec![Ok(AudioStream { handle: 1 })],
        aux: Ok(some_aux()),
    };
    let mut input = Input::lazy(factory);
    assert!(matches!(input.metadata(), Err(MetadataError::NotLive)));

    input.create().unwrap();
    assert!(matches!(input.metadata(), Err(MetadataError::NotParsed)));

    input.apply_parse(ParseOutcome::Parsed(some_metadata())).unwrap();
    assert_eq!(input.metadata().unwrap(), &some_metadata());
}

#[test]
fn panicked_worker_leaves_input_live_and_unparsed() {
    let mut input: Input<ScriptedCompose> = Input::live(AudioStream { handle: 9 }, None);
    let r = input.apply_parse(ParseOutcome::Panicked);
    assert!(matches!(r, Err(MakePlayableError::Panicked)));
    assert!(matches!(input.state(), InputStage::Live(AudioStream { handle: 9 })));
    assert!(matches!(input.metadata(), Err(MetadataError::NotParsed)));
}

#[test]
fn rejected_stream_leaves_input_live() {
    let mut input: Input<ScriptedCompose> = Input::live(AudioStream { handle: 4 }, None);
    let r = input.apply_parse(ParseOutcome::Failed(SymphoniaError::DecodeError("bad header")));
    assert!(matches!(
        r,
        Err(MakePlayableError::Parse(SymphoniaError::DecodeError("bad header")))
    ));
    assert!(matches!(input.state(), InputStage::Live(AudioStream { handle: 4 })));
}

#[test]
fn parse_creates_first_when_lazy() {
    let factory = ScriptedCompose {
        answers: vec![Ok(AudioStream { handle: 11 })],
        aux: Ok(some_aux()),
    };
    let mut input = Input::lazy(factory);
    let r = input.parse(ParseOutcome::Parsed(some_metadata()));
    assert!(matches!(r, Ok(())));
    assert!(matches!(input.state(), InputStage::Parsed(_)));
    assert_eq!(input.metadata().unwrap(), &some_metadata());
}

#[test]
fn parse_surfaces_creation_errors_unchanged() {
    let factory = ScriptedCompose {
        answers: vec![Err(AudioStreamError::RetryIn(500))],
        aux: Ok(some_aux()),
    };
    let mut input = Input::lazy(factory);
    let r = input.parse(ParseOutcome::Parsed(some_metadata()));
    assert!(matches!(
        r,
        Err(MakePlayableError::Create(AudioStreamError::RetryIn(500)))
    ));
    assert!(matches!(input.state(), InputStage::Lazy));
}

#[test]
fn parse_is_a_noop_once_parsed() {
    let mut input: Input<ScriptedCompose> = Input::live(AudioStream { handle: 2 }, None);
    input.apply_parse(ParseOutcome::Parsed(some_metadata())).unwrap();
    let again = input.apply_parse(ParseOutcome::Failed(SymphoniaError::ResetRequired));
    assert!(matches!(again, Ok(())));
    assert_eq!(input.metadata().unwrap(), &some_metadata());
}

#[test]
fn aux_metadata_without_factory_fails() {
    let mut input: Input<ScriptedCompose> = Input::live(AudioStream { handle: 5 }, None);
    assert!(matches!(input.aux_metadata(), Err(AuxMetadataError::NoCompose)));
}

#[test]
fn aux_metadata_is_served_by_the_factory_in_any_stage() {
    let factory = ScriptedCompose {
        answers: vec![Ok(AudioStream { handle: 5 })],
        aux: Ok(some_aux()),
    };
    let mut input = Input::lazy(factory);
    assert_eq!(input.aux_metadata().unwrap(), some_aux());
    input.create().unwrap();
    assert_eq!(input.aux_metadata().unwrap(), some_aux());
}

#[test]
fn aux_metadata_wraps_factory_failures() {
    let factory = ScriptedCompose {
        answers: vec![],
        aux: Err(AudioStreamError::RetryIn(750)),
    };
    let mut input: Input<ScriptedCompose> =
        Input::live(AudioStream { handle: 6 }, Some(factory));
    assert!(matches!(
        input.aux_metadata(),
        Err(AuxMetadataError::Retrieve(AudioStreamError::RetryIn(750)))
    ));
}

#[test]
fn aux_metadata_answer_maps_exactly() {
    assert_eq!(apply_aux_metadata(Ok(some_aux())).unwrap(), some_aux());
    assert!(matches!(
        apply_aux_metadata(Err(AudioStreamError::RetryIn(300))),
        Err(AuxMetadataError::Retrieve(AudioStreamError::RetryIn(300)))
    ));
    assert!(matches!(
        apply_aux_metadata(Err(AudioStreamError::Unsupported)),
        Err(AuxMetadataError::Retrieve(AudioStreamError::Unsupported))
    ));
}
