use vstd::prelude::*;

verus! {

/// Where a build-and-test session stands.
#[derive(Debug, PartialEq, Eq)]
pub enum Phase {
    /// The image build is pending.
    Build,
    /// The image is built; creating the container is pending.
    Create,
    /// The container exists; starting it is pending.
    Start { container: String },
    /// The container is started; attaching to it is pending.
    Attach { container: String },
    /// The attached streams are being relayed.
    Relay { container: String },
    /// The session is over but the container still exists; its forced
    /// removal is pending. `failure` is the originating error, if any.
    RemoveContainer { container: String, failure: Option<String> },
    /// The container is removed; the image's forced removal is pending.
    RemoveImage { failure: Option<String> },
    /// Everything is done; `failure` is the session's outcome.
    Done { failure: Option<String> },
}

/// What the outside world reports back to the session.
#[derive(Debug, PartialEq, Eq)]
pub enum Event {
    /// A build progress message arrived (echoed only when verbose).
    BuildProgress { detail: String },
    BuildOk,
    BuildFailed { message: String },
    CreateOk { container: String },
    CreateFailed { message: String },
    StartOk,
    StartFailed { message: String },
    AttachOk,
    AttachFailed { message: String },
    /// The container's output stream ended: the session is over.
    OutputEnded,
    RelayFailed { message: String },
    RemoveContainerOk,
    RemoveContainerFailed { message: String },
    RemoveImageOk,
    RemoveImageFailed { message: String },
}

/// What the caller is to do next for a session in a given phase.
#[derive(Debug, PartialEq, Eq)]
pub enum Action {
    BuildImage,
    CreateContainer,
    StartContainer { container: String },
    AttachContainer { container: String },
    RelayIo { container: String },
    RemoveContainer { container: String },
    RemoveImage,
    Finish { failure: Option<String> },
}

/// How one reported event moves a session on. An event that does not
/// belong to the phase leaves it unchanged. After a successful
/// creation every path leads through both removal phases; removal
/// results never touch the recorded outcome.
pub open spec fn step_spec(p: Phase, e: Event) -> Phase {
    match (p, e) {
        (Phase::Build, Event::BuildProgress { .. }) => Phase::Build,
        (Phase::Build, Event::BuildOk) => Phase::Create,
        (Phase::Build, Event::BuildFailed { message }) => Phase::Done { failure: Some(message) },
        (Phase::Create, Event::CreateOk { container }) => Phase::Start { container },
        (Phase::Create, Event::CreateFailed { message }) => Phase::Done { failure: Some(message) },
        (Phase::Start { container }, Event::StartOk) => Phase::Attach { container },
        (Phase::Start { container }, Event::StartFailed { message }) => Phase::RemoveContainer {
            container,
            failure: Some(message),
        },
        (Phase::Attach { container }, Event::AttachOk) => Phase::Relay { container },
        (Phase::Attach { container }, Event::AttachFailed { message }) => Phase::RemoveContainer {
            container,
            failure: Some(message),
        },
        (Phase::Relay { container }, Event::OutputEnded) => Phase::RemoveContainer {
            container,
            failure: None,
        },
        (Phase::Relay { container }, Event::RelayFailed { message }) => Phase::RemoveContainer {
            container,
            failure: Some(message),
        },
        (Phase::RemoveContainer { failure, .. }, Event::RemoveContainerOk) => Phase::RemoveImage {
            failure,
        },
        (
            Phase::RemoveContainer { failure, .. },
            Event::RemoveContainerFailed { .. },
        ) => Phase::RemoveImage { failure },
        (Phase::RemoveImage { failure }, Event::RemoveImageOk) => Phase::Done { failure },
        (Phase::RemoveImage { failure }, Event::RemoveImageFailed { .. }) => Phase::Done {
            failure,
        },
        (other, _) => other,
    }
}

/// Phases in which a created container exists and is not yet removed.
pub open spec fn has_container(p: Phase) -> bool {
    ||| p matches Phase::Start { .. }
    ||| p matches Phase::Attach { .. }
    ||| p matches Phase::Relay { .. }
    ||| p matches Phase::RemoveContainer { .. }
}

/// Phases in which some teardown (container or image removal) is still
/// owed before the session may conclude.
pub open spec fn cleanup_pending(p: Phase) -> bool {
    has_container(p) || p matches Phase::RemoveImage { .. }
}

/// The phase after a whole sequence of events, first event first.
pub open spec fn run(p: Phase, evs: Seq<Event>) -> Phase
    decreases evs.len(),
{
    if evs.len() == 0 {
        p
    } else {
        run(step_spec(p, evs[0]), evs.drop_first())
    }
}

/// What the action for a phase must be, up to the text of its strings.
pub open spec fn action_matches(p: Phase, a: Action) -> bool {
    match p {
        Phase::Build => a is BuildImage,
        Phase::Create => a is CreateContainer,
        Phase::Start { container } => a matches Action::StartContainer { container: c } && c@
            == container@,
        Phase::Attach { container } => a matches Action::AttachContainer { container: c } && c@
            == container@,
        Phase::Relay { container } => a matches Action::RelayIo { container: c } && c@
            == container@,
        Phase::RemoveContainer { container, .. } => a matches Action::RemoveContainer {
            container: c,
        } && c@ == container@,
        Phase::RemoveImage { .. } => a is RemoveImage,
        Phase::Done { failure } => a matches Action::Finish { failure: f } && (match (f, failure) {
            (Some(a_msg), Some(p_msg)) => a_msg@ == p_msg@,
            (None, None) => true,
            _ => false,
        }),
    }
}

/// One build-and-test session: the driver performs each phase's action
/// and reports the outcome back through `step`.
#[derive(Debug, PartialEq, Eq)]
pub struct Session {
    pub phase: Phase,
    /// Override the image's entrypoint with an interactive shell.
    pub bash: bool,
    /// Echo build progress details.
    pub verbose: bool,
}

impl Session {
    /// A fresh session: the image build comes first.
    pub fn new(bash: bool, verbose: bool) -> (s: Session)
        ensures
            s.phase == Phase::Build,
            s.bash == bash,
            s.verbose == verbose,
    {
        Session { phase: Phase::Build, bash, verbose }
    }

    /// Moves the session on by one reported event.
    pub fn step(self, e: Event) -> (s: Session)
        ensures
            s.phase == step_spec(self.phase, e),
            s.bash == self.bash,
            s.verbose == self.verbose,
    {
        let Session { phase, bash, verbose } = self;
        let next = match (phase, e) {
            (Phase::Build, Event::BuildProgress { .. }) => Phase::Build,
            (Phase::Build, Event::BuildOk) => Phase::Create,
            (Phase::Build, Event::BuildFailed { message }) => Phase::Done {
                failure: Some(message),
            },
            (Phase::Create, Event::CreateOk { container }) => Phase::Start { container },
            (Phase::Create, Event::CreateFailed { message }) => Phase::Done {
                failure: Some(message),
            },
            (Phase::Start { container }, Event::StartOk) => Phase::Attach { container },
            (Phase::Start { container }, Event::StartFailed { message }) => Phase::RemoveContainer {
                container,
                failure: Some(message),
            },
            (Phase::Attach { container }, Event::AttachOk) => Phase::Relay { container },
            (
                Phase::Attach { container },
                Event::AttachFailed { message },
            ) => Phase::RemoveContainer { container, failure: Some(message) },
            (Phase::Relay { container }, Event::OutputEnded) => Phase::RemoveContainer {
                container,
                failure: None,
            },
            (Phase::Relay { container }, Event::RelayFailed { message }) => Phase::RemoveContainer {
                container,
                failure: Some(message),
            },
            (
                Phase::RemoveContainer { failure, .. },
                Event::RemoveContainerOk,
            ) => Phase::RemoveImage { failure },
            (
                Phase::RemoveContainer { failure, .. },
                Event::RemoveContainerFailed { .. },
            ) => Phase::RemoveImage { failure },
            (Phase::RemoveImage { failure }, Event::RemoveImageOk) => Phase::Done { failure },
            (Phase::RemoveImage { failure }, Event::RemoveImageFailed { .. }) => Phase::Done {
                failure,
            },
            (other, _) => other,
        };
        Session { phase: next, bash, verbose }
    }

    /// What the driver is to do next.
    pub fn next_action(&self) -> (a: Action)
        ensures
            action_matches(self.phase, a),
    {
        match &self.phase {
            Phase::Build => Action::BuildImage,
            Phase::Create => Action::CreateContainer,
            Phase::Start { container } => Action::StartContainer { container: container.clone() },
            Phase::Attach { container } => Action::AttachContainer {
                container: container.clone(),
            },
            Phase::Relay { container } => Action::RelayIo { container: container.clone() },
            Phase::RemoveContainer { container, .. } => Action::RemoveContainer {
                container: container.clone(),
            },
            Phase::RemoveImage { .. } => Action::RemoveImage,
            Phase::Done { failure } => Action::Finish {
                failure: match failure {
                    Some(m) => Some(m.clone()),
                    None => None,
                },
            },
        }
    }
}

/// The container configuration a test session creates its container
/// from: a TTY with all three standard streams attached and input kept
/// open, the entrypoint overridden with an interactive shell exactly
/// when one was asked for.
#[derive(Debug, PartialEq, Eq)]
pub struct ContainerSpec {
    pub image: String,
    pub tty: bool,
    pub attach_stdin: bool,
    pub attach_stdout: bool,
    pub attach_stderr: bool,
    pub open_stdin: bool,
    pub entrypoint: Option<Vec<String>>,
    pub cmd: Option<Vec<String>>,
}

/// Builds the configuration for a test container of the given image.
pub fn container_config(image: String, bash: bool) -> (c: ContainerSpec)
    ensures
        c.image == image,
        c.tty && c.attach_stdin && c.attach_stdout && c.attach_stderr && c.open_stdin,
        bash ==> ((c.entrypoint matches Some(e) && e@.len() == 1 && e@[0]@ == "/bin/bash"@) && (
        c.cmd matches Some(v) && v@.len() == 0)),
        !bash ==> c.entrypoint is None && c.cmd is None,
{
    let entrypoint = if bash {
        let mut e: Vec<String> = Vec::new();
        e.push("/bin/bash".to_owned());
        Some(e)
    } else {
        None
    };
    let cmd = if bash {
        Some(Vec::new())
    } else {
        None
    };
    ContainerSpec {
        image,
        tty: true,
        attach_stdin: true,
        attach_stdout: true,
        attach_stderr: true,
        open_stdin: true,
        entrypoint,
        cmd,
    }
}

/// A concluded session stays concluded, whatever else is reported.
pub proof fn lemma_done_stays(p: Phase, evs: Seq<Event>)
    requires
        p matches Phase::Done { .. },
    ensures
        run(p, evs) == p,
    decreases evs.len(),
{
    if evs.len() > 0 {
        lemma_done_stays(step_spec(p, evs[0]), evs.drop_first());
    }
}

/// A build failure concludes the session at once, carrying the build's
/// error as the outcome.
pub proof fn lemma_build_failure_ends_session(message: String)
    ensures
        step_spec(Phase::Build, Event::BuildFailed { message }) == (Phase::Done {
            failure: Some(message),
        }),
{
}

/// Until a build has succeeded no container exists: a session whose
/// events hold no build success never reaches a phase with a container,
/// nor even the phase in which one would be created.
pub proof fn lemma_no_container_without_build_ok(evs: Seq<Event>)
    requires
        forall|k: int| 0 <= k < evs.len() ==> !(evs[k] is BuildOk),
    ensures
        !has_container(run(Phase::Build, evs)),
        !(run(Phase::Build, evs) is Create),
    decreases evs.len(),
{
    if evs.len() > 0 {
        let p2 = step_spec(Phase::Build, evs[0]);
        if p2 is Build {
            assert(forall|k: int|
                0 <= k < evs.drop_first().len() ==> !(evs.drop_first()[k] is BuildOk));
            lemma_no_container_without_build_ok(evs.drop_first());
        } else {
            lemma_done_stays(p2, evs.drop_first());
        }
    }
}

/// One step of teardown bookkeeping: while a container exists the
/// session cannot conclude, teardown stays owed, and the only way out
/// of the container-owning phases is into the image-removal phase.
pub proof fn lemma_cleanup_owed(p: Phase, e: Event)
    requires
        has_container(p),
    ensures
        !(step_spec(p, e) is Done),
        cleanup_pending(step_spec(p, e)),
        !has_container(step_spec(p, e)) ==> ((p matches Phase::RemoveContainer { .. }) && (
        step_spec(p, e) matches Phase::RemoveImage { .. })),
{
}

/// Cleanup ran before any conclusion: a session that holds a container
/// and later concludes passed through the container-removal phase and
/// the image-removal phase on the way.
pub proof fn lemma_done_implies_cleanup_ran(p: Phase, evs: Seq<Event>)
    requires
        has_container(p),
        run(p, evs) matches Phase::Done { .. },
    ensures
        exists|k: int|
            0 <= k <= evs.len() && (#[trigger] run(p, evs.take(k))) matches Phase::RemoveContainer { .. },
        exists|k: int|
            0 <= k <= evs.len() && (#[trigger] run(p, evs.take(k))) matches Phase::RemoveImage { .. },
    decreases evs.len(),
{
    assert(evs.len() > 0);
    let p2 = step_spec(p, evs[0]);
    lemma_cleanup_owed(p, evs[0]);
    if has_container(p2) {
        lemma_done_implies_cleanup_ran(p2, evs.drop_first());
        let k1 = choose|k: int|
            0 <= k <= evs.drop_first().len() && (#[trigger] run(p2, evs.drop_first().take(k))) matches Phase::RemoveContainer { .. };
        assert(evs.take(k1 + 1).drop_first() =~= evs.drop_first().take(k1));
        assert(run(p, evs.take(k1 + 1)) == run(p2, evs.drop_first().take(k1)));
        let k2 = choose|k: int|
            0 <= k <= evs.drop_first().len() && (#[trigger] run(p2, evs.drop_first().take(k))) matches Phase::RemoveImage { .. };
        assert(evs.take(k2 + 1).drop_first() =~= evs.drop_first().take(k2));
        assert(run(p, evs.take(k2 + 1)) == run(p2, evs.drop_first().take(k2)));
    } else {
        assert(p matches Phase::RemoveContainer { .. });
        assert(p2 matches Phase::RemoveImage { .. });
        assert(evs.take(0) =~= Seq::<Event>::empty());
        assert(run(p, evs.take(0)) == p);
        assert(evs.take(1).len() == 1);
        assert(evs.take(1)[0] == evs[0]);
        assert(evs.take(1).drop_first() =~= Seq::<Event>::empty());
        assert(run(p, evs.take(1)) == run(step_spec(p, evs.take(1)[0]), evs.take(1).drop_first()));
        assert(run(p, evs.take(1)) == p2);
    }
}

/// Once the container is removed the session only winds down: no later
/// event brings a container back, so teardown runs at most once.
pub proof fn lemma_teardown_final(p: Phase, e: Event)
    requires
        p matches Phase::RemoveImage { .. } || p matches Phase::Done { .. },
    ensures
        !has_container(step_spec(p, e)),
        (step_spec(p, e) matches Phase::RemoveImage { .. }) || (step_spec(
            p,
            e,
        ) matches Phase::Done { .. }),
{
}

/// Teardown results never change the session's outcome: from the
/// container-removal phase, whatever each removal reports, the session
/// concludes with exactly the outcome it already carried.
pub proof fn lemma_cleanup_failures_keep_outcome(
    container: String,
    failure: Option<String>,
    e1: Event,
    e2: Event,
)
    requires
        e1 is RemoveContainerOk || e1 matches Event::RemoveContainerFailed { .. },
        e2 is RemoveImageOk || e2 matches Event::RemoveImageFailed { .. },
    ensures
        run(Phase::RemoveContainer { container, failure }, seq![e1, e2]) == (Phase::Done {
            failure,
        }),
{
    let p0 = Phase::RemoveContainer { container, failure };
    let p1 = step_spec(p0, e1);
    assert(p1 == (Phase::RemoveImage { failure }));
    let s = seq![e1, e2];
    assert(s[0] == e1);
    assert(s.drop_first() =~= seq![e2]);
    assert(seq![e2][0] == e2);
    assert(seq![e2].drop_first() =~= Seq::<Event>::empty());
    assert(run(p0, s) == run(p1, seq![e2]));
    assert(run(p1, seq![e2]) == run(step_spec(p1, e2), Seq::<Event>::empty()));
}

} // verus!
