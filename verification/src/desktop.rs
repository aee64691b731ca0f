//! State that the application owns, independent of the UI framework: generations of the
//! event producers, and the events that reach the window.

use crate::text::concat2;
use vstd::prelude::*;

verus! {

/// A position in the sequence of one producer's events.
#[derive(Debug, Clone, Copy, PartialEq, Eq, PartialOrd, Ord, Structural)]
pub struct Generation {
    pub value: u64,
}

impl Generation {
    pub fn new(value: u64) -> (r: Self)
        ensures
            r.value == value,
    {
        Generation { value }
    }

    pub fn get(&self) -> (r: u64)
        ensures
            r == self.value,
    {
        self.value
    }
}

/// The last generation that each producer was given.
#[derive(Debug, PartialEq, Eq)]
pub struct ProducerGenerations {
    pub game_detection: u64,
    pub cloud_upload: u64,
    pub enrichment: u64,
}

impl Default for ProducerGenerations {
    fn default() -> (r: Self)
        ensures
            r == (ProducerGenerations { game_detection: 0, cloud_upload: 0, enrichment: 0 }),
    {
        ProducerGenerations { game_detection: 0, cloud_upload: 0, enrichment: 0 }
    }
}

/// The counter after a request: one more, or unchanged where there is no next number.
pub open spec fn counter_after(counter: u64) -> u64 {
    if counter < u64::MAX {
        (counter + 1) as u64
    } else {
        counter
    }
}

/// The answer to a request: the next number, or the text that the numbers are used up.
pub open spec fn is_next_generation(
    counter: u64,
    domain: Seq<char>,
    res: Result<Generation, String>,
) -> bool {
    match res {
        Ok(generation) => counter < u64::MAX && generation.value == counter + 1,
        Err(message) => counter == u64::MAX && message@ == domain + " generation exhausted"@,
    }
}

fn next_generation(counter: u64, domain: &str) -> (res: Result<Generation, String>)
    ensures
        is_next_generation(counter, domain@, res),
{
    match counter.checked_add(1) {
        Some(next) => Ok(Generation::new(next)),
        None => Err(concat2(domain, " generation exhausted")),
    }
}

impl ProducerGenerations {
    pub fn next_game_detection(&mut self) -> (res: Result<Generation, String>)
        ensures
            is_next_generation(old(self).game_detection, "game detection"@, res),
            *final(self) == (ProducerGenerations {
                game_detection: counter_after(old(self).game_detection),
                ..*old(self)
            }),
    {
        let res = next_generation(self.game_detection, "game detection");
        if let Ok(generation) = &res {
            self.game_detection = generation.value;
        }
        res
    }

    pub fn next_cloud_upload(&mut self) -> (res: Result<Generation, String>)
        ensures
            is_next_generation(old(self).cloud_upload, "cloud upload"@, res),
            *final(self) == (ProducerGenerations {
                cloud_upload: counter_after(old(self).cloud_upload),
                ..*old(self)
            }),
    {
        let res = next_generation(self.cloud_upload, "cloud upload");
        if let Ok(generation) = &res {
            self.cloud_upload = generation.value;
        }
        res
    }

    pub fn next_enrichment(&mut self) -> (res: Result<Generation, String>)
        ensures
            is_next_generation(old(self).enrichment, "enrichment"@, res),
            *final(self) == (ProducerGenerations {
                enrichment: counter_after(old(self).enrichment),
                ..*old(self)
            }),
    {
        let res = next_generation(self.enrichment, "enrichment");
        if let Ok(generation) = &res {
            self.enrichment = generation.value;
        }
        res
    }
}

// ---------------------------------------------------------------------------
// Events for the window
// ---------------------------------------------------------------------------

/// What the recorder reports, as far as its routing depends on it.
#[derive(Debug, PartialEq, Eq)]
pub enum RecorderNotice {
    MediaRootResolved,
    Status,
    Saved,
    Error { message: String },
}

/// An event for the UI, as far as its routing depends on it.
#[derive(Debug, PartialEq, Eq)]
pub enum UiNotice {
    Recorder(RecorderNotice),
    WindowLifecycle,
    MicMonitor,
    MicTestError { message: String },
    MicTestStopped,
    GameDetection,
    CloudUploadProgress,
    EnrichmentUpdated,
    UserError { message: String },
}

/// What is sent along with an event: the serialised content of the event, its message,
/// or nothing.
#[derive(Debug, PartialEq, Eq)]
pub enum EmissionPayload {
    Content,
    Message(String),
    Nothing,
}

/// An event as the window receives it.
#[derive(Debug, PartialEq, Eq)]
pub struct UiEmission {
    pub name: &'static str,
    pub payload: EmissionPayload,
}

/// The name of an event at the window; the resolved media root is not sent to it.
pub open spec fn emission_name(event: UiNotice) -> Option<Seq<char>> {
    match event {
        UiNotice::Recorder(RecorderNotice::MediaRootResolved) => None,
        UiNotice::Recorder(RecorderNotice::Status) => Some("status"@),
        UiNotice::Recorder(RecorderNotice::Saved) => Some("saved"@),
        UiNotice::Recorder(RecorderNotice::Error { .. }) => Some("error"@),
        UiNotice::WindowLifecycle => Some("window-lifecycle"@),
        UiNotice::MicMonitor => Some("mic-test"@),
        UiNotice::MicTestError { .. } => Some("mic-test-error"@),
        UiNotice::MicTestStopped => Some("mic-test-stopped"@),
        UiNotice::GameDetection => Some("game-detection"@),
        UiNotice::CloudUploadProgress => Some("cloud-upload-progress"@),
        UiNotice::EnrichmentUpdated => Some("osu-enrichment-updated"@),
        UiNotice::UserError { .. } => Some("error"@),
    }
}

/// What is sent along with an event.
pub open spec fn emission_payload(event: UiNotice) -> EmissionPayload {
    match event {
        UiNotice::Recorder(RecorderNotice::Error { message }) => EmissionPayload::Message(message),
        UiNotice::MicTestError { message } => EmissionPayload::Message(message),
        UiNotice::UserError { message } => EmissionPayload::Message(message),
        UiNotice::MicTestStopped => EmissionPayload::Nothing,
        UiNotice::EnrichmentUpdated => EmissionPayload::Nothing,
        _ => EmissionPayload::Content,
    }
}

/// The event as the window receives it, where it does.
pub fn ui_emission(event: UiNotice) -> (emission: Option<UiEmission>)
    ensures
        match emission {
            Some(emission) => emission_name(event) == Some(emission.name@) && emission.payload
                == emission_payload(event),
            None => emission_name(event) is None,
        },
{
    let (name, payload) = match event {
        UiNotice::Recorder(notice) => match notice {
            RecorderNotice::MediaRootResolved => return None,
            RecorderNotice::Status => ("status", EmissionPayload::Content),
            RecorderNotice::Saved => ("saved", EmissionPayload::Content),
            RecorderNotice::Error { message } => ("error", EmissionPayload::Message(message)),
        },
        UiNotice::WindowLifecycle => ("window-lifecycle", EmissionPayload::Content),
        UiNotice::MicMonitor => ("mic-test", EmissionPayload::Content),
        UiNotice::MicTestError { message } => (
            "mic-test-error",
            EmissionPayload::Message(message),
        ),
        UiNotice::MicTestStopped => ("mic-test-stopped", EmissionPayload::Nothing),
        UiNotice::GameDetection => ("game-detection", EmissionPayload::Content),
        UiNotice::CloudUploadProgress => ("cloud-upload-progress", EmissionPayload::Content),
        UiNotice::EnrichmentUpdated => ("osu-enrichment-updated", EmissionPayload::Nothing),
        UiNotice::UserError { message } => ("error", EmissionPayload::Message(message)),
    };
    Some(UiEmission { name, payload })
}

/// What the desktop state made of an event.
#[derive(Debug, Clone, Copy, PartialEq, Eq, Structural)]
pub enum ApplyEventOutcome {
    Applied,
    Unchanged,
    Stale,
}

/// Only an event that changed the desktop state is sent on to the window.
pub fn forwards_event(outcome: ApplyEventOutcome) -> (r: bool)
    ensures
        r == (outcome == ApplyEventOutcome::Applied),
{
    matches!(outcome, ApplyEventOutcome::Applied)
}

/// Every notice reaches the windows under its own name, with its message, its content or nothing;
/// that the media folder was resolved stays inside.
pub proof fn law_notices_have_their_names(message: String)
    ensures
        emission_name(UiNotice::Recorder(RecorderNotice::MediaRootResolved)) is None,
        emission_name(UiNotice::Recorder(RecorderNotice::Status)) == Some("status"@),
        emission_name(UiNotice::Recorder(RecorderNotice::Saved)) == Some("saved"@),
        emission_name(UiNotice::Recorder(RecorderNotice::Error { message })) == Some("error"@),
        emission_name(UiNotice::WindowLifecycle) == Some("window-lifecycle"@),
        emission_name(UiNotice::MicMonitor) == Some("mic-test"@),
        emission_name(UiNotice::MicTestError { message }) == Some("mic-test-error"@),
        emission_name(UiNotice::MicTestStopped) == Some("mic-test-stopped"@),
        emission_name(UiNotice::GameDetection) == Some("game-detection"@),
        emission_name(UiNotice::CloudUploadProgress) == Some("cloud-upload-progress"@),
        emission_name(UiNotice::EnrichmentUpdated) == Some("osu-enrichment-updated"@),
        emission_name(UiNotice::UserError { message }) == Some("error"@),
        emission_payload(UiNotice::Recorder(RecorderNotice::Error { message }))
            == EmissionPayload::Message(message),
        emission_payload(UiNotice::MicTestError { message }) == EmissionPayload::Message(message),
        emission_payload(UiNotice::UserError { message }) == EmissionPayload::Message(message),
        emission_payload(UiNotice::MicTestStopped) is Nothing,
        emission_payload(UiNotice::EnrichmentUpdated) is Nothing,
        emission_payload(UiNotice::Recorder(RecorderNotice::Status)) is Content,
        emission_payload(UiNotice::Recorder(RecorderNotice::Saved)) is Content,
        emission_payload(UiNotice::WindowLifecycle) is Content,
        emission_payload(UiNotice::MicMonitor) is Content,
        emission_payload(UiNotice::GameDetection) is Content,
        emission_payload(UiNotice::CloudUploadProgress) is Content,
{
}

/// A producer counts its events from one up: each is numbered one more than the one before, until
/// the numbers are used up.
pub proof fn law_generations_count_up(
    counter: u64,
    domain: Seq<char>,
    res: Result<Generation, String>,
)
    requires
        is_next_generation(counter, domain, res),
    ensures
        res is Ok <==> counter < 0xffff_ffff_ffff_ffff,
        res matches Ok(generation) ==> generation.value == counter + 1 && generation.value
            == counter_after(counter),
        res is Err ==> counter_after(counter) == counter,
        res matches Err(message) ==> message@ == domain + " generation exhausted"@,
{
}

} // verus!
