//! The orchestrator: one whole session of the manager.
//!
//! A session validates the configuration, resolves the subject level against
//! the notes root, resolves the topic level against the resolved subject,
//! instantiates the template set when — and only when — the topic was
//! freshly created, and finally launches the startup script with the
//! resolved topic path as its single argument. The launched process is
//! detached: once it has started, the session is complete and its later fate
//! is not observed. The surrounding program performs the checks, drives the
//! two level resolutions and the instantiation, and spawns the process; the
//! machine decides the sequence.

use vstd::prelude::*;

verus! {

/// The three configured paths of a session, as strings.
pub struct SessionConfig {
    /// The notes root: the directory holding the subjects.
    pub notes_root: String,
    /// The template directory copied into freshly created topics.
    pub template_dir: String,
    /// The startup script launched on the resolved topic.
    pub startup_script: String,
}

/// A configuration path that is missing or of the wrong kind.
#[derive(PartialEq, Eq, Structural, Clone, Copy, Debug)]
pub enum ConfigError {
    /// The notes root does not exist or is not a directory.
    NotesRootMissing,
    /// The template directory does not exist or is not a directory.
    TemplateDirMissing,
    /// The startup script does not exist or is not a regular file.
    ScriptMissing,
}

/// The validation failures for given checks of the three paths, in the order
/// the paths are configured; empty iff all three checks passed.
pub open spec fn config_errors(
    root_is_dir: bool,
    template_is_dir: bool,
    script_is_file: bool,
) -> Seq<ConfigError> {
    (if !root_is_dir {
        seq![ConfigError::NotesRootMissing]
    } else {
        Seq::empty()
    }) + (if !template_is_dir {
        seq![ConfigError::TemplateDirMissing]
    } else {
        Seq::empty()
    }) + (if !script_is_file {
        seq![ConfigError::ScriptMissing]
    } else {
        Seq::empty()
    })
}

/// Validate the configuration from the three path checks (notes root is a
/// directory, template directory is a directory, startup script is a regular
/// file). All three are checked independently; each failing check
/// contributes its own error.
pub fn validate_config(root_is_dir: bool, template_is_dir: bool, script_is_file: bool) -> (r: Vec<
    ConfigError,
>)
    ensures
        r@ == config_errors(root_is_dir, template_is_dir, script_is_file),
        r@.len() == 0 <==> root_is_dir && template_is_dir && script_is_file,
{
    let mut r: Vec<ConfigError> = Vec::new();
    if !root_is_dir {
        r.push(ConfigError::NotesRootMissing);
    }
    if !template_is_dir {
        r.push(ConfigError::TemplateDirMissing);
    }
    if !script_is_file {
        r.push(ConfigError::ScriptMissing);
    }
    proof {
        assert(r@ =~= config_errors(root_is_dir, template_is_dir, script_is_file));
    }
    r
}

/// The string form of the child `name` under the directory `parent`.
pub open spec fn join_spec(parent: Seq<char>, name: Seq<char>) -> Seq<char> {
    parent + "/"@ + name
}

/// Join a child name onto a parent directory path.
pub fn join_path(parent: &str, name: &str) -> (r: String)
    ensures
        r@ == join_spec(parent@, name@),
{
    let mut r = String::from_str(parent);
    r.append("/");
    r.append(name);
    r
}

/// The prompt shown when selecting the subject.
pub open spec fn subject_prompt() -> Seq<char> {
    "select subject"@
}

/// The prompt shown when selecting the topic.
pub open spec fn topic_prompt() -> Seq<char> {
    "select topic"@
}

/// The state of a session.
pub enum SessionState {
    /// Waiting for the three configuration checks.
    Start,
    /// Resolving the subject level against the notes root.
    ResolvingSubject,
    /// Resolving the topic level against the resolved subject.
    ResolvingTopic { subject_path: String },
    /// The topic was freshly created; instantiating the template into it.
    Instantiating { topic_path: String, topic_name: String },
    /// Launching the startup script on the resolved topic.
    Launching { topic_path: String },
    /// The session completed; the launched process runs detached.
    Done,
    /// The session failed; the process must exit non-zero.
    Failed,
}

/// What the outside world reports back to the machine.
pub enum SessionEvent {
    /// The three path checks, in configuration order.
    Checked { root_is_dir: bool, template_is_dir: bool, script_is_file: bool },
    /// The subject level resolved to the child `name`.
    SubjectResolved { name: String },
    /// The subject level ended fatally.
    SubjectFailed,
    /// The topic level resolved to the child `name`; `was_created` says
    /// whether the topic directory was freshly created.
    TopicResolved { name: String, was_created: bool },
    /// The topic level ended fatally.
    TopicFailed,
    /// The instantiation completed.
    Instantiated,
    /// The instantiation failed.
    InstantiateFailed,
    /// The startup script's process started.
    LaunchStarted,
    /// The startup script's process could not be started.
    LaunchFailed,
}

/// What the machine asks the outside world to do next.
pub enum SessionAction {
    /// Resolve one hierarchy level: list `parent`, prompt with `prompt`.
    ResolveLevel { parent: String, prompt: String },
    /// Instantiate the template into the freshly created topic.
    Instantiate { template_dir: String, topic_path: String, topic_name: String },
    /// Start `program` with exactly the arguments `args`, detached.
    Launch { program: String, args: Vec<String> },
    /// The session is complete: exit with status zero.
    Finish,
    /// Terminate with a non-zero status, reporting `errors` when the
    /// configuration was at fault (empty for every later failure).
    Fail { errors: Vec<ConfigError> },
}

/// Which events may arrive in which state.
pub open spec fn session_admits(state: SessionState, event: SessionEvent) -> bool {
    match state {
        SessionState::Start => event is Checked,
        SessionState::ResolvingSubject => event is SubjectResolved || event is SubjectFailed,
        SessionState::ResolvingTopic { .. } => event is TopicResolved || event is TopicFailed,
        SessionState::Instantiating { .. } => event is Instantiated || event is InstantiateFailed,
        SessionState::Launching { .. } => event is LaunchStarted || event is LaunchFailed,
        SessionState::Done => false,
        SessionState::Failed => false,
    }
}

/// The transition relation of a session: `session_rel(cfg, s, e, s2, a)`
/// holds iff, under configuration `cfg`, the machine in state `s` answers
/// the event `e` with the successor state `s2` and the action `a`.
pub open spec fn session_rel(
    cfg: SessionConfig,
    state: SessionState,
    event: SessionEvent,
    next: SessionState,
    action: SessionAction,
) -> bool {
    match (state, event) {
        (
            SessionState::Start,
            SessionEvent::Checked { root_is_dir, template_is_dir, script_is_file },
        ) => {
            if root_is_dir && template_is_dir && script_is_file {
                &&& next is ResolvingSubject
                &&& (action matches SessionAction::ResolveLevel { parent, prompt } && parent@
                    == cfg.notes_root@ && prompt@ == subject_prompt())
            } else {
                &&& next is Failed
                &&& (action matches SessionAction::Fail { errors } && errors@ == config_errors(
                    root_is_dir,
                    template_is_dir,
                    script_is_file,
                ))
            }
        },
        (SessionState::ResolvingSubject, SessionEvent::SubjectResolved { name }) => {
            &&& (next matches SessionState::ResolvingTopic { subject_path } && subject_path@
                == join_spec(cfg.notes_root@, name@))
            &&& (action matches SessionAction::ResolveLevel { parent, prompt } && parent@
                == join_spec(cfg.notes_root@, name@) && prompt@ == topic_prompt())
        },
        (SessionState::ResolvingSubject, SessionEvent::SubjectFailed) => {
            &&& next is Failed
            &&& (action matches SessionAction::Fail { errors } && errors@ == Seq::<
                ConfigError,
            >::empty())
        },
        (
            SessionState::ResolvingTopic { subject_path },
            SessionEvent::TopicResolved { name, was_created },
        ) => {
            if was_created {
                &&& (next matches SessionState::Instantiating { topic_path, topic_name }
                    && topic_path@ == join_spec(subject_path@, name@) && topic_name@ == name@)
                &&& (action matches SessionAction::Instantiate {
                    template_dir,
                    topic_path,
                    topic_name,
                } && template_dir@ == cfg.template_dir@ && topic_path@ == join_spec(
                    subject_path@,
                    name@,
                ) && topic_name@ == name@)
            } else {
                &&& (next matches SessionState::Launching { topic_path } && topic_path@
                    == join_spec(subject_path@, name@))
                &&& (action matches SessionAction::Launch { program, args } && program@
                    == cfg.startup_script@ && args.deep_view() == seq![
                    join_spec(subject_path@, name@),
                ])
            }
        },
        (SessionState::ResolvingTopic { .. }, SessionEvent::TopicFailed) => {
            &&& next is Failed
            &&& (action matches SessionAction::Fail { errors } && errors@ == Seq::<
                ConfigError,
            >::empty())
        },
        (SessionState::Instantiating { topic_path, .. }, SessionEvent::Instantiated) => {
            &&& (next matches SessionState::Launching { topic_path: tp } && tp@ == topic_path@)
            &&& (action matches SessionAction::Launch { program, args } && program@
                == cfg.startup_script@ && args.deep_view() == seq![topic_path@])
        },
        (SessionState::Instantiating { .. }, SessionEvent::InstantiateFailed) => {
            &&& next is Failed
            &&& (action matches SessionAction::Fail { errors } && errors@ == Seq::<
                ConfigError,
            >::empty())
        },
        (SessionState::Launching { .. }, SessionEvent::LaunchStarted) => {
            &&& next is Done
            &&& action is Finish
        },
        (SessionState::Launching { .. }, SessionEvent::LaunchFailed) => {
            &&& next is Failed
            &&& (action matches SessionAction::Fail { errors } && errors@ == Seq::<
                ConfigError,
            >::empty())
        },
        _ => next is Failed && action is Fail,
    }
}

/// The initial state of a session. The first thing the outside world owes
/// the machine is the `Checked` event with the three path checks.
pub fn session_start() -> (r: SessionState)
    ensures
        r is Start,
{
    SessionState::Start
}

/// Advance a session by one event.
pub fn session_step(cfg: &SessionConfig, state: SessionState, event: SessionEvent) -> (r: (
    SessionState,
    SessionAction,
))
    requires
        session_admits(state, event),
    ensures
        session_rel(*cfg, state, event, r.0, r.1),
{
    match (state, event) {
        (
            SessionState::Start,
            SessionEvent::Checked { root_is_dir, template_is_dir, script_is_file },
        ) => {
            if root_is_dir && template_is_dir && script_is_file {
                (
                    SessionState::ResolvingSubject,
                    SessionAction::ResolveLevel {
                        parent: cfg.notes_root.clone(),
                        prompt: String::from_str("select subject"),
                    },
                )
            } else {
                (
                    SessionState::Failed,
                    SessionAction::Fail {
                        errors: validate_config(root_is_dir, template_is_dir, script_is_file),
                    },
                )
            }
        },
        (SessionState::ResolvingSubject, SessionEvent::SubjectResolved { name }) => {
            let subject_path = join_path(cfg.notes_root.as_str(), name.as_str());
            let parent = subject_path.clone();
            (
                SessionState::ResolvingTopic { subject_path },
                SessionAction::ResolveLevel { parent, prompt: String::from_str("select topic") },
            )
        },
        (
            SessionState::ResolvingTopic { subject_path },
            SessionEvent::TopicResolved { name, was_created },
        ) => {
            let topic_path = join_path(subject_path.as_str(), name.as_str());
            if was_created {
                let action = SessionAction::Instantiate {
                    template_dir: cfg.template_dir.clone(),
                    topic_path: topic_path.clone(),
                    topic_name: name.clone(),
                };
                (SessionState::Instantiating { topic_path, topic_name: name }, action)
            } else {
                let mut args: Vec<String> = Vec::new();
                args.push(topic_path.clone());
                proof {
                    assert(args.deep_view() =~= seq![topic_path@]);
                }
                (
                    SessionState::Launching { topic_path },
                    SessionAction::Launch { program: cfg.startup_script.clone(), args },
                )
            }
        },
        (SessionState::Instantiating { topic_path, .. }, SessionEvent::Instantiated) => {
            let mut args: Vec<String> = Vec::new();
            args.push(topic_path.clone());
            proof {
                assert(args.deep_view() =~= seq![topic_path@]);
            }
            (
                SessionState::Launching { topic_path },
                SessionAction::Launch { program: cfg.startup_script.clone(), args },
            )
        },
        (SessionState::Launching { .. }, SessionEvent::LaunchStarted) => (
            SessionState::Done,
            SessionAction::Finish,
        ),
        _ => (SessionState::Failed, SessionAction::Fail { errors: Vec::new() }),
    }
}

/// The launch law: every `Launch` action the machine emits starts the
/// configured startup script with exactly one argument, the string form of
/// the resolved topic path — the path stored in the `Launching` state the
/// machine moves to.
pub proof fn lemma_launch_single_argument(
    cfg: SessionConfig,
    state: SessionState,
    event: SessionEvent,
    next: SessionState,
    action: SessionAction,
)
    requires
        session_rel(cfg, state, event, next, action),
        action is Launch,
    ensures
        action matches SessionAction::Launch { program, args } && {
            &&& program@ == cfg.startup_script@
            &&& args.deep_view().len() == 1
            &&& (next matches SessionState::Launching { topic_path } && args.deep_view()
                == seq![topic_path@])
        },
{
}

/// The launch argument does not depend on whether the topic was freshly
/// created: resolving the topic `name` under `subject_path` leads — at once
/// for an existing topic, after the instantiation for a created one — to a
/// launch whose single argument is the joined topic path either way.
pub proof fn lemma_launch_regardless_of_creation(
    cfg: SessionConfig,
    subject_path: String,
    name: String,
    next: SessionState,
    action: SessionAction,
)
    ensures
        session_rel(
            cfg,
            SessionState::ResolvingTopic { subject_path },
            SessionEvent::TopicResolved { name, was_created: false },
            next,
            action,
        ) ==> (action matches SessionAction::Launch { args, .. } && args.deep_view() == seq![
            join_spec(subject_path@, name@),
        ]),
        session_rel(
            cfg,
            SessionState::ResolvingTopic { subject_path },
            SessionEvent::TopicResolved { name, was_created: true },
            next,
            action,
        ) ==> (next matches SessionState::Instantiating { topic_path, .. } && topic_path@
            == join_spec(subject_path@, name@)),
        forall|next2: SessionState, action2: SessionAction, topic_path: String, topic_name: String|
            session_rel(
                cfg,
                SessionState::Instantiating { topic_path, topic_name },
                SessionEvent::Instantiated,
                next2,
                action2,
            ) ==> (action2 matches SessionAction::Launch { args, .. } && args.deep_view() == seq![
                topic_path@,
            ]),
{
}

} // verus!
