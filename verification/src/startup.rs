use vstd::prelude::*;

verus! {

/// Text embedded once to learn the vector size of a new collection.
pub const DIMENSION_PROBE_TEXT: &'static str = "test";

/// Where start-up stands.
#[derive(PartialEq, Eq, Structural, Debug, Clone, Copy)]
pub enum StartupPhase {
    /// Nothing done yet.
    Start,
    /// The Qdrant client is being built from the configured URL.
    BuildingClient,
    /// Qdrant's health endpoint is being queried.
    CheckingHealth,
    /// The embedding model is being loaded.
    LoadingModel,
    /// Qdrant is asked whether the collection exists.
    CheckingCollection,
    /// A probe text is embedded to learn the vector size.
    MeasuringDimension,
    /// The missing collection is being created.
    CreatingCollection,
    /// Synthetic documents are being inserted into the new collection.
    Populating,
    /// Start-up succeeded; the server can be built.
    Ready,
    /// Start-up failed.
    Failed,
}

/// What Qdrant said about the collection.
#[derive(PartialEq, Eq, Structural, Debug, Clone, Copy)]
pub enum CollectionStatus {
    Exists,
    Missing,
    /// The question itself failed; start-up goes on with a warning.
    Unknown,
}

/// The result of embedding the probe text.
#[derive(PartialEq, Eq, Structural, Debug, Clone, Copy)]
pub enum ProbeOutcome {
    /// A vector of this many dimensions.
    Vector(u64),
    /// The model returned an error.
    EmbeddingFailed,
    /// The model returned no vector.
    NoVector,
}

/// What the outside work reported.
#[derive(PartialEq, Eq, Structural, Debug, Clone, Copy)]
pub enum StartupEvent {
    Begin,
    ClientBuilt(bool),
    HealthChecked(bool),
    ModelLoaded(bool),
    CollectionChecked(CollectionStatus),
    DimensionMeasured(ProbeOutcome),
    CollectionCreated(bool),
    Populated(PopulateOutcome),
}

/// Why start-up gave up.
#[derive(PartialEq, Eq, Structural, Debug, Clone, Copy)]
pub enum StartupFailure {
    /// The Qdrant client could not be built from the URL.
    ClientSetup,
    /// "Failed to connect to Qdrant"
    QdrantUnreachable,
    /// The embedding model could not be loaded.
    ModelLoad,
    /// "Failed to get embedding dimension"
    DimensionEmbedding,
    /// "No test embedding generated"
    NoTestEmbedding,
    /// "Failed to create collection"
    CreateCollection,
    /// "Failed to generate embeddings"
    PopulateEmbedding,
    /// "Failed to insert synthetic data"
    PopulateInsert,
}

/// The result of inserting the synthetic documents.
#[derive(PartialEq, Eq, Structural, Debug, Clone, Copy)]
pub enum PopulateOutcome {
    Inserted,
    /// The documents could not be embedded.
    EmbeddingFailed,
    /// Qdrant refused the points.
    InsertFailed,
}

/// The outside work to do next.
#[derive(PartialEq, Eq, Structural, Debug, Clone, Copy)]
pub enum StartupAction {
    BuildClient,
    CheckHealth,
    LoadModel,
    CheckCollection,
    /// Embed `DIMENSION_PROBE_TEXT` and report the vector size.
    MeasureDimension,
    /// Create the collection with cosine distance and vectors of this size.
    CreateCollection(u64),
    /// Insert the synthetic documents.
    Populate,
    /// Build the server.
    Finish,
    /// Stop with this failure.
    Abort(StartupFailure),
}

/// The event that the outside work of a phase reports.
pub open spec fn event_fits(phase: StartupPhase, event: StartupEvent) -> bool {
    match phase {
        StartupPhase::Start => event is Begin,
        StartupPhase::BuildingClient => event is ClientBuilt,
        StartupPhase::CheckingHealth => event is HealthChecked,
        StartupPhase::LoadingModel => event is ModelLoaded,
        StartupPhase::CheckingCollection => event is CollectionChecked,
        StartupPhase::MeasuringDimension => event is DimensionMeasured,
        StartupPhase::CreatingCollection => event is CollectionCreated,
        StartupPhase::Populating => event is Populated,
        StartupPhase::Ready => false,
        StartupPhase::Failed => false,
    }
}

/// One step of start-up: the next phase and the work it asks for.
pub open spec fn startup_transition(phase: StartupPhase, event: StartupEvent) -> (
    StartupPhase,
    StartupAction,
) {
    match event {
        StartupEvent::Begin => (StartupPhase::BuildingClient, StartupAction::BuildClient),
        StartupEvent::ClientBuilt(ok) => if ok {
            (StartupPhase::CheckingHealth, StartupAction::CheckHealth)
        } else {
            (StartupPhase::Failed, StartupAction::Abort(StartupFailure::ClientSetup))
        },
        StartupEvent::HealthChecked(ok) => if ok {
            (StartupPhase::LoadingModel, StartupAction::LoadModel)
        } else {
            (StartupPhase::Failed, StartupAction::Abort(StartupFailure::QdrantUnreachable))
        },
        StartupEvent::ModelLoaded(ok) => if ok {
            (StartupPhase::CheckingCollection, StartupAction::CheckCollection)
        } else {
            (StartupPhase::Failed, StartupAction::Abort(StartupFailure::ModelLoad))
        },
        StartupEvent::CollectionChecked(status) => match status {
            CollectionStatus::Missing => (
                StartupPhase::MeasuringDimension,
                StartupAction::MeasureDimension,
            ),
            _ => (StartupPhase::Ready, StartupAction::Finish),
        },
        StartupEvent::DimensionMeasured(outcome) => match outcome {
            ProbeOutcome::Vector(n) => (
                StartupPhase::CreatingCollection,
                StartupAction::CreateCollection(n),
            ),
            ProbeOutcome::EmbeddingFailed => (
                StartupPhase::Failed,
                StartupAction::Abort(StartupFailure::DimensionEmbedding),
            ),
            ProbeOutcome::NoVector => (
                StartupPhase::Failed,
                StartupAction::Abort(StartupFailure::NoTestEmbedding),
            ),
        },
        StartupEvent::CollectionCreated(ok) => if ok {
            (StartupPhase::Populating, StartupAction::Populate)
        } else {
            (StartupPhase::Failed, StartupAction::Abort(StartupFailure::CreateCollection))
        },
        StartupEvent::Populated(outcome) => match outcome {
            PopulateOutcome::Inserted => (StartupPhase::Ready, StartupAction::Finish),
            PopulateOutcome::EmbeddingFailed => (
                StartupPhase::Failed,
                StartupAction::Abort(StartupFailure::PopulateEmbedding),
            ),
            PopulateOutcome::InsertFailed => (
                StartupPhase::Failed,
                StartupAction::Abort(StartupFailure::PopulateInsert),
            ),
        },
    }
}

/// Decides the next step of start-up from the phase it is in and what the
/// outside work of that phase reported.
pub fn startup_step(phase: StartupPhase, event: StartupEvent) -> (r: (StartupPhase, StartupAction))
    requires
        event_fits(phase, event),
    ensures
        r == startup_transition(phase, event),
{
    match event {
        StartupEvent::Begin => (StartupPhase::BuildingClient, StartupAction::BuildClient),
        StartupEvent::ClientBuilt(ok) => if ok {
            (StartupPhase::CheckingHealth, StartupAction::CheckHealth)
        } else {
            (StartupPhase::Failed, StartupAction::Abort(StartupFailure::ClientSetup))
        },
        StartupEvent::HealthChecked(ok) => if ok {
            (StartupPhase::LoadingModel, StartupAction::LoadModel)
        } else {
            (StartupPhase::Failed, StartupAction::Abort(StartupFailure::QdrantUnreachable))
        },
        StartupEvent::ModelLoaded(ok) => if ok {
            (StartupPhase::CheckingCollection, StartupAction::CheckCollection)
        } else {
            (StartupPhase::Failed, StartupAction::Abort(StartupFailure::ModelLoad))
        },
        StartupEvent::CollectionChecked(status) => match status {
            CollectionStatus::Missing => (
                StartupPhase::MeasuringDimension,
                StartupAction::MeasureDimension,
            ),
            _ => (StartupPhase::Ready, StartupAction::Finish),
        },
        StartupEvent::DimensionMeasured(outcome) => match outcome {
            ProbeOutcome::Vector(n) => (
                StartupPhase::CreatingCollection,
                StartupAction::CreateCollection(n),
            ),
            ProbeOutcome::EmbeddingFailed => (
                StartupPhase::Failed,
                StartupAction::Abort(StartupFailure::DimensionEmbedding),
            ),
            ProbeOutcome::NoVector => (
                StartupPhase::Failed,
                StartupAction::Abort(StartupFailure::NoTestEmbedding),
            ),
        },
        StartupEvent::CollectionCreated(ok) => if ok {
            (StartupPhase::Populating, StartupAction::Populate)
        } else {
            (StartupPhase::Failed, StartupAction::Abort(StartupFailure::CreateCollection))
        },
        StartupEvent::Populated(outcome) => match outcome {
            PopulateOutcome::Inserted => (StartupPhase::Ready, StartupAction::Finish),
            PopulateOutcome::EmbeddingFailed => (
                StartupPhase::Failed,
                StartupAction::Abort(StartupFailure::PopulateEmbedding),
            ),
            PopulateOutcome::InsertFailed => (
                StartupPhase::Failed,
                StartupAction::Abort(StartupFailure::PopulateInsert),
            ),
        },
    }
}

/// The text that start-up puts before the outside error's own message when
/// it reports a failure (the whole message for `NoTestEmbedding`, which has
/// no outside error; nothing for the failures that pass the outside error on
/// unchanged).
pub open spec fn startup_failure_text(f: StartupFailure) -> Seq<char> {
    match f {
        StartupFailure::ClientSetup => seq![],
        StartupFailure::QdrantUnreachable => "Failed to connect to Qdrant: "@,
        StartupFailure::ModelLoad => seq![],
        StartupFailure::DimensionEmbedding => "Failed to get embedding dimension: "@,
        StartupFailure::NoTestEmbedding => "No test embedding generated"@,
        StartupFailure::CreateCollection => "Failed to create collection: "@,
        StartupFailure::PopulateEmbedding => "Failed to generate embeddings: "@,
        StartupFailure::PopulateInsert => "Failed to insert synthetic data: "@,
    }
}

impl StartupFailure {
    /// The text that precedes the outside error's own message when start-up
    /// reports this failure.
    pub fn message(&self) -> (m: String)
        ensures
            m@ == startup_failure_text(*self),
    {
        match self {
            StartupFailure::ClientSetup => String::new(),
            StartupFailure::QdrantUnreachable => "Failed to connect to Qdrant: ".to_owned(),
            StartupFailure::ModelLoad => String::new(),
            StartupFailure::DimensionEmbedding => "Failed to get embedding dimension: ".to_owned(),
            StartupFailure::NoTestEmbedding => "No test embedding generated".to_owned(),
            StartupFailure::CreateCollection => "Failed to create collection: ".to_owned(),
            StartupFailure::PopulateEmbedding => "Failed to generate embeddings: ".to_owned(),
            StartupFailure::PopulateInsert => "Failed to insert synthetic data: ".to_owned(),
        }
    }
}

/// What embedding the probe text gave: the size of the first vector, or no
/// vector at all.
pub fn probe_outcome(vector_count: usize, first_vector_len: usize) -> (o: ProbeOutcome)
    ensures
        o == if vector_count == 0 {
            ProbeOutcome::NoVector
        } else {
            ProbeOutcome::Vector(first_vector_len as u64)
        },
{
    if vector_count == 0 {
        ProbeOutcome::NoVector
    } else {
        ProbeOutcome::Vector(first_vector_len as u64)
    }
}

// ----------------------------------------------------------------------------
// Runs
// ----------------------------------------------------------------------------

/// The phase reached and the actions asked for when `events` are reported
/// one after the other from `phase`; `None` if some event does not fit.
pub open spec fn run_from(phase: StartupPhase, events: Seq<StartupEvent>) -> Option<
    (StartupPhase, Seq<StartupAction>),
>
    decreases events.len(),
{
    if events.len() == 0 {
        Some((phase, seq![]))
    } else if !event_fits(phase, events[0]) {
        None
    } else {
        let (next, action) = startup_transition(phase, events[0]);
        match run_from(next, events.drop_first()) {
            Some((last, actions)) => Some((last, seq![action] + actions)),
            None => None,
        }
    }
}

/// The actions asked for when `events` are reported one after the other from
/// `phase` (none if some event does not fit).
pub open spec fn run_actions(phase: StartupPhase, events: Seq<StartupEvent>) -> Seq<StartupAction> {
    match run_from(phase, events) {
        Some((_, actions)) => actions,
        None => seq![],
    }
}

/// The phase after which start-up creates a collection has been entered only
/// because Qdrant reported the collection missing.
pub open spec fn creation_pending(phase: StartupPhase) -> bool {
    ||| phase == StartupPhase::MeasuringDimension
    ||| phase == StartupPhase::CreatingCollection
    ||| phase == StartupPhase::Populating
}

proof fn lemma_no_create_without_missing(phase: StartupPhase, events: Seq<StartupEvent>)
    requires
        !creation_pending(phase),
        run_from(phase, events) is Some,
        forall|i: int|
            0 <= i < events.len() ==> events[i] != StartupEvent::CollectionChecked(
                CollectionStatus::Missing,
            ),
    ensures
        forall|k: int|
            0 <= k < run_actions(phase, events).len() ==> !(run_actions(phase, events)[k] is CreateCollection)
                && !(run_actions(phase, events)[k] is Populate),
    decreases events.len(),
{
    if events.len() > 0 {
        let (next, action) = startup_transition(phase, events[0]);
        let rest = events.drop_first();
        assert forall|i: int| 0 <= i < rest.len() implies rest[i]
            != StartupEvent::CollectionChecked(CollectionStatus::Missing) by {
            assert(rest[i] == events[i + 1]);
        }
        lemma_no_create_without_missing(next, rest);
        let acts = run_actions(phase, events);
        let rest_acts = run_actions(next, rest);
        assert(acts == seq![action] + rest_acts);
        assert forall|k: int| 0 <= k < acts.len() implies !(acts[k] is CreateCollection) && !(
        acts[k] is Populate) by {
            if k > 0 {
                assert(acts[k] == rest_acts[k - 1]);
            }
        }
    }
}

/// Start-up never creates or fills a collection unless Qdrant reported it
/// missing: an existing collection, or one whose existence could not be
/// checked, is left as it is.
pub proof fn law_existing_collection_is_never_recreated(events: Seq<StartupEvent>)
    requires
        run_from(StartupPhase::Start, events) is Some,
        forall|i: int|
            0 <= i < events.len() ==> events[i] != StartupEvent::CollectionChecked(
                CollectionStatus::Missing,
            ),
    ensures
        forall|k: int|
            0 <= k < run_actions(StartupPhase::Start, events).len() ==> !(run_actions(
                StartupPhase::Start,
                events,
            )[k] is CreateCollection) && !(run_actions(StartupPhase::Start, events)[k] is Populate),
{
    lemma_no_create_without_missing(StartupPhase::Start, events);
}

/// A failed health check ends start-up: it reports Qdrant unreachable, and
/// no further event is accepted.
pub proof fn law_unhealthy_qdrant_stops_startup(rest: Seq<StartupEvent>)
    ensures
        startup_transition(StartupPhase::CheckingHealth, StartupEvent::HealthChecked(false)) == (
            StartupPhase::Failed,
            StartupAction::Abort(StartupFailure::QdrantUnreachable),
        ),
        rest.len() > 0 ==> run_from(StartupPhase::Failed, rest) is None,
{
}

/// The event reports that the outside work of its phase failed.
pub open spec fn reports_failure(event: StartupEvent) -> bool {
    match event {
        StartupEvent::Begin => false,
        StartupEvent::ClientBuilt(ok) => !ok,
        StartupEvent::HealthChecked(ok) => !ok,
        StartupEvent::ModelLoaded(ok) => !ok,
        StartupEvent::CollectionChecked(_) => false,
        StartupEvent::DimensionMeasured(outcome) => !(outcome is Vector),
        StartupEvent::CollectionCreated(ok) => !ok,
        StartupEvent::Populated(outcome) => outcome != PopulateOutcome::Inserted,
    }
}

/// The phase whose outside work a failure reports on.
pub open spec fn failing_phase(f: StartupFailure) -> StartupPhase {
    match f {
        StartupFailure::ClientSetup => StartupPhase::BuildingClient,
        StartupFailure::QdrantUnreachable => StartupPhase::CheckingHealth,
        StartupFailure::ModelLoad => StartupPhase::LoadingModel,
        StartupFailure::DimensionEmbedding => StartupPhase::MeasuringDimension,
        StartupFailure::NoTestEmbedding => StartupPhase::MeasuringDimension,
        StartupFailure::CreateCollection => StartupPhase::CreatingCollection,
        StartupFailure::PopulateEmbedding => StartupPhase::Populating,
        StartupFailure::PopulateInsert => StartupPhase::Populating,
    }
}

/// Start-up stops exactly when the outside work reports a failure: such a
/// step, and only such a step, enters `Failed`, always together with an
/// abort, and the abort names the phase whose work failed (a refused
/// collection creation aborts with `CreateCollection`, a failed embedding of
/// the probe text with one of the dimension failures, and so on).
pub proof fn law_failures_abort_startup(phase: StartupPhase, event: StartupEvent)
    requires
        event_fits(phase, event),
    ensures
        (startup_transition(phase, event).0 == StartupPhase::Failed) == reports_failure(event),
        (startup_transition(phase, event).1 is Abort) == reports_failure(event),
        startup_transition(phase, event).1 matches StartupAction::Abort(f) ==> failing_phase(f)
            == phase,
{
}

/// Start-up becomes ready only once the collection can be served: Qdrant
/// reported it existing (or could not tell), or the sample documents were
/// inserted into the collection that start-up created.
pub proof fn law_ready_only_with_a_collection(phase: StartupPhase, event: StartupEvent)
    requires
        event_fits(phase, event),
    ensures
        startup_transition(phase, event).0 == StartupPhase::Ready ==> {
            ||| event == StartupEvent::CollectionChecked(CollectionStatus::Exists)
            ||| event == StartupEvent::CollectionChecked(CollectionStatus::Unknown)
            ||| (phase == StartupPhase::Populating && event == StartupEvent::Populated(
                PopulateOutcome::Inserted,
            ))
        },
        (startup_transition(phase, event).1 == StartupAction::Finish) == (
        startup_transition(phase, event).0 == StartupPhase::Ready),
{
}

/// A collection that start-up created is filled, or start-up fails: after a
/// successful creation the only step is to insert the sample documents, and
/// a refused creation never reaches `Ready`.
pub proof fn law_created_collection_is_filled_or_startup_fails(created: bool)
    ensures
        created ==> startup_transition(
            StartupPhase::CreatingCollection,
            StartupEvent::CollectionCreated(created),
        ) == (StartupPhase::Populating, StartupAction::Populate),
        !created ==> startup_transition(
            StartupPhase::CreatingCollection,
            StartupEvent::CollectionCreated(created),
        ).0 == StartupPhase::Failed,
{
    law_failures_abort_startup(StartupPhase::CreatingCollection, StartupEvent::CollectionCreated(created));
}

/// A created collection gets exactly the vector size that the probe
/// embedding measured.
pub proof fn law_created_collection_has_probe_size(phase: StartupPhase, event: StartupEvent, n: u64)
    requires
        event_fits(phase, event),
        startup_transition(phase, event).1 == StartupAction::CreateCollection(n),
    ensures
        phase == StartupPhase::MeasuringDimension,
        event == StartupEvent::DimensionMeasured(ProbeOutcome::Vector(n)),
{
}

} // verus!
