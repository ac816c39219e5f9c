use mcp_qdrant::startup::{
    probe_outcome, startup_step, CollectionStatus, PopulateOutcome, ProbeOutcome, StartupAction,
    StartupEvent, StartupFailure, StartupPhase,
};
use mcp_qdrant::synthetic::{synthetic_documents, synthetic_points, PayloadValue};

fn run(events: &[StartupEvent]) -> (StartupPhase, Vec<StartupAction>) {
    let mut phase = StartupPhase::Start;
    let mut actions = Vec::new();
    for e in events {
        let (p, a) = startup_step(phase, *e);
        phase = p;
        actions.push(a);
    }
    (phase, actions)
}

#[test]
fn existing_collection_is_used_as_is() {
    let (phase, actions) = run(&[
        StartupEvent::Begin,
        StartupEvent::ClientBuilt(true),
        StartupEvent::HealthChecked(true),
        StartupEvent::ModelLoaded(true),
        StartupEvent::CollectionChecked(CollectionStatus::Exists),
    ]);
    assert_eq!(phase, StartupPhase::Ready);
    assert_eq!(
        actions,
        vec![
            StartupAction::BuildClient,
            StartupAction::CheckHealth,
            StartupAction::LoadModel,
            StartupAction::CheckCollection,
            StartupAction::Finish,
        ]
    );
}

#[test]
fn missing_collection_is_created_and_filled() {
    let (phase, actions) = run(&[
        StartupEvent::Begin,
        StartupEvent::ClientBuilt(true),
        StartupEvent::HealthChecked(true),
        StartupEvent::ModelLoaded(true),
        StartupEvent::CollectionChecked(CollectionStatus::Missing),
        StartupEvent::DimensionMeasured(probe_outcome(1, 384)),
        StartupEvent::CollectionCreated(true),
        StartupEvent::Populated(PopulateOutcome::Inserted),
    ]);
    assert_eq!(phase, StartupPhase::Ready);
    assert_eq!(actions[4], StartupAction::MeasureDimension);
    assert_eq!(actions[5], StartupAction::CreateCollection(384));
    assert_eq!(actions[6], StartupAction::Populate);
    assert_eq!(actions[7], StartupAction::Finish);
}

#[test]
fn unknown_collection_state_goes_on() {
    let (phase, actions) = run(&[
        StartupEvent::Begin,
        StartupEvent::ClientBuilt(true),
        StartupEvent::HealthChecked(true),
        StartupEvent::ModelLoaded(true),
        StartupEvent::CollectionChecked(CollectionStatus::Unknown),
    ]);
    assert_eq!(phase, StartupPhase::Ready);
    assert_eq!(actions.last(), Some(&StartupAction::Finish));
}

#[test]
fn failures_abort() {
    let (phase, actions) = run(&[
        StartupEvent::Begin,
        StartupEvent::ClientBuilt(true),
        StartupEvent::HealthChecked(false),
    ]);
    assert_eq!(phase, StartupPhase::Failed);
    assert_eq!(actions[2], StartupAction::Abort(StartupFailure::QdrantUnreachable));
    assert_eq!(StartupFailure::QdrantUnreachable.message(), "Failed to connect to Qdrant: ");
    assert_eq!(probe_outcome(0, 0), ProbeOutcome::NoVector);
    let (p, a) = startup_step(StartupPhase::MeasuringDimension, StartupEvent::DimensionMeasured(ProbeOutcome::NoVector));
    assert_eq!((p, a), (StartupPhase::Failed, StartupAction::Abort(StartupFailure::NoTestEmbedding)));
    assert_eq!(StartupFailure::NoTestEmbedding.message(), "No test embedding generated");
    let (_, a) = startup_step(StartupPhase::Populating, StartupEvent::Populated(PopulateOutcome::InsertFailed));
    assert_eq!(a, StartupAction::Abort(StartupFailure::PopulateInsert));
    assert_eq!(StartupFailure::PopulateInsert.message(), "Failed to insert synthetic data: ");
    assert_eq!(StartupFailure::PopulateEmbedding.message(), "Failed to generate embeddings: ");
    assert_eq!(StartupFailure::ModelLoad.message(), "");
}

#[test]
fn sample_documents() {
    let docs = synthetic_documents();
    assert_eq!(docs.len(), 10);
    assert_eq!(docs[0].filename, "rust_intro");
    assert_eq!(docs[0].username, "alice");
    assert_eq!(docs[0].topics, vec!["programming", "rust", "systems"]);
    assert_eq!(docs[9].text, "JSON is a lightweight data interchange format that is easy to read and write.");
    let points = synthetic_points(&docs, 10);
    assert_eq!(points.len(), 10);
    for (i, p) in points.iter().enumerate() {
        assert_eq!(p.id, i as u64);
        assert_eq!(p.payload.len(), 4);
        assert_eq!(p.payload[0].key, "text");
        match &p.payload[0].value {
            PayloadValue::Text(t) => assert_eq!(t, &docs[i].text),
            _ => panic!("text must be a string"),
        }
        assert_eq!(p.payload[3].key, "topics");
        match &p.payload[3].value {
            PayloadValue::TextList(l) => assert_eq!(l, &docs[i].topics),
            _ => panic!("topics must be a list"),
        }
    }
    assert_eq!(synthetic_points(&docs, 3).len(), 3);
}
