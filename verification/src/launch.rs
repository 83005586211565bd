//! The launch from the located runtime library to the destroyed runtime.
//!
//! The program loads the runtime, looks up the application's entry point,
//! calls it and destroys the runtime. After each step it reports the outcome
//! to a `Launcher`, which says what to do next and keeps the failure, if any.
//! Once a runtime exists no path ends the launch without destroying it.

use vstd::prelude::*;
use vstd::string::*;
use crate::utils::errors::{ErrorExt, LaunchError, MessagedError, Missing, Stage};
use crate::utils::strings::{decimal, decimal_digits, join_path, joined};

verus! {

/// Ceiling of the Java heap, in megabytes.
pub const MAX_HEAP_USAGE_MB: usize = 512;

/// Name of the application archive beside the launcher.
pub fn app_jar_name() -> (name: &'static str)
    ensures
        name@ == "clash-multiplatform.jar"@,
{
    "clash-multiplatform.jar"
}

/// Class that holds the application's entry point.
pub fn main_class_name() -> (name: &'static str)
    ensures
        name@ == "com/github/kr328/clash/MainKt"@,
{
    "com/github/kr328/clash/MainKt"
}

/// Name of the entry point, a static method.
pub fn main_method_name() -> (name: &'static str)
    ensures
        name@ == "main"@,
{
    "main"
}

/// Signature of the entry point: it takes the startup parameters and returns
/// nothing.
pub fn main_method_signature() -> (signature: &'static str)
    ensures
        signature@ == "(Lcom/github/kr328/clash/StartupParameters;)V"@,
{
    "(Lcom/github/kr328/clash/StartupParameters;)V"
}

/// Path of the application archive in `app_dir`.
pub fn classes_jar_path(app_dir: &str) -> (path: String)
    ensures
        path@ == joined(app_dir@, "clash-multiplatform.jar"@),
{
    join_path(app_dir, app_jar_name())
}

/// The options that the runtime is created with, for the archive at
/// `classes_jar` and a heap of at most `max_heap_mb` megabytes.
pub open spec fn runtime_option_texts(classes_jar: Seq<char>, max_heap_mb: nat) -> Seq<Seq<char>> {
    seq![
        "-Djava.class.path="@ + classes_jar,
        "-Xmx"@ + decimal_digits(max_heap_mb) + "m"@,
        "-XX:+UseSerialGC"@,
    ]
}

/// The options that the runtime is created with: the class path, the heap
/// ceiling and the choice of the serial collector, in this order.
pub fn runtime_options(classes_jar: &str, max_heap_mb: usize) -> (options: Vec<String>)
    ensures
        options.deep_view() == runtime_option_texts(classes_jar@, max_heap_mb as nat),
{
    let mut class_path = String::from_str("-Djava.class.path=");
    class_path.append(classes_jar);
    let mut heap = String::from_str("-Xmx");
    let megabytes = decimal(max_heap_mb);
    heap.append(megabytes.as_str());
    heap.append("m");
    let collector = String::from_str("-XX:+UseSerialGC");
    let mut options: Vec<String> = Vec::new();
    options.push(class_path);
    options.push(heap);
    options.push(collector);
    options
}

/// Where the launch stands.
#[derive(Debug, Clone, Copy, PartialEq, Eq, Structural)]
pub enum LaunchState {
    /// The runtime library has been found.
    Located,
    /// The runtime has been created.
    Loaded,
    /// The class of the entry point has been found.
    ClassResolved,
    /// The entry point has been found.
    MethodResolved,
    /// The entry point has been called and has returned.
    Invoked,
    /// The entry point ended without an exception.
    Completed,
    /// The launch has failed while the runtime exists.
    Faulted,
    /// The runtime has been destroyed.
    Destroyed,
    /// No runtime could be created, so there is none to destroy.
    Aborted,
}

/// What the program reports of its last step.
#[derive(Debug, PartialEq, Eq)]
pub enum LaunchEvent {
    /// The runtime has been created.
    RuntimeLoaded,
    /// No runtime could be created: its library was not found or could not be
    /// brought up.
    RuntimeRejected(LaunchError),
    /// The class of the entry point is there.
    ClassFound,
    /// The application has no such class.
    ClassMissing,
    /// The entry point is there.
    MethodFound,
    /// The class has no such method.
    MethodMissing,
    /// The startup parameters could not be handed over: the application lacks
    /// the class that carries them or its constructor, or a Java string or
    /// array could not be made. The entry point was not called.
    ParametersRejected(Missing),
    /// The call of the entry point has returned.
    EntryPointReturned,
    /// The call has left an exception behind.
    ExceptionPending,
    /// The call has left no exception behind.
    NoException,
    /// The runtime has been shut down.
    RuntimeDestroyed,
}

/// What the program has to do next.
#[derive(Debug, Clone, Copy, PartialEq, Eq, Structural)]
pub enum LaunchAction {
    /// Create the runtime.
    LoadRuntime,
    /// Look up the class of the entry point.
    FindMainClass,
    /// Look up the entry point.
    FindMainMethod,
    /// Make the Java object that carries the startup parameters and call the
    /// entry point with it.
    CallMain,
    /// Ask whether the call has left an exception behind.
    CheckException,
    /// Shut the runtime down, after printing the pending exception where
    /// `describe_exception` is set.
    Destroy { describe_exception: bool },
    /// End the process.
    Exit,
}

/// The failure of a launch: the step at which it happened and the cause.
#[derive(Debug, PartialEq, Eq)]
pub struct Failure {
    pub stage: Stage,
    pub error: LaunchError,
}

/// The launch as the program drives it.
#[derive(Debug)]
pub struct Launcher {
    state: LaunchState,
    failure: Option<Failure>,
}

/// What a `Launcher` holds.
pub ghost struct LaunchView {
    pub state: LaunchState,
    pub failure: Option<Failure>,
}

/// The launch at its start.
pub open spec fn launch_start() -> LaunchView {
    LaunchView { state: LaunchState::Located, failure: None }
}

/// The launch after a failure at `stage` while the runtime exists.
pub open spec fn faulted(stage: Stage, error: LaunchError) -> LaunchView {
    LaunchView { state: LaunchState::Faulted, failure: Some(Failure { stage, error }) }
}

/// The launch after `event`. An event that does not answer the step that is
/// due changes nothing.
pub open spec fn launch_next(launch: LaunchView, event: LaunchEvent) -> LaunchView {
    match (launch.state, event) {
        (LaunchState::Located, LaunchEvent::RuntimeLoaded) => LaunchView {
            state: LaunchState::Loaded,
            ..launch
        },
        (LaunchState::Located, LaunchEvent::RuntimeRejected(cause)) => LaunchView {
            state: LaunchState::Aborted,
            failure: Some(Failure { stage: Stage::LoadRuntime, error: cause }),
        },
        (LaunchState::Loaded, LaunchEvent::ClassFound) => LaunchView {
            state: LaunchState::ClassResolved,
            ..launch
        },
        (LaunchState::Loaded, LaunchEvent::ClassMissing) => faulted(
            Stage::InvalidPackage,
            LaunchError::InvalidPackage(Missing::Class),
        ),
        (LaunchState::ClassResolved, LaunchEvent::MethodFound) => LaunchView {
            state: LaunchState::MethodResolved,
            ..launch
        },
        (LaunchState::ClassResolved, LaunchEvent::MethodMissing) => faulted(
            Stage::InvalidPackage,
            LaunchError::InvalidPackage(Missing::Method),
        ),
        (LaunchState::MethodResolved, LaunchEvent::ParametersRejected(what)) => faulted(
            Stage::InvalidPackage,
            LaunchError::InvalidPackage(what),
        ),
        (LaunchState::MethodResolved, LaunchEvent::EntryPointReturned) => LaunchView {
            state: LaunchState::Invoked,
            ..launch
        },
        (LaunchState::Invoked, LaunchEvent::ExceptionPending) => faulted(
            Stage::UnexpectedException,
            LaunchError::UnexpectedException,
        ),
        (LaunchState::Invoked, LaunchEvent::NoException) => LaunchView {
            state: LaunchState::Completed,
            ..launch
        },
        (LaunchState::Completed, LaunchEvent::RuntimeDestroyed) => LaunchView {
            state: LaunchState::Destroyed,
            ..launch
        },
        (LaunchState::Faulted, LaunchEvent::RuntimeDestroyed) => LaunchView {
            state: LaunchState::Destroyed,
            ..launch
        },
        _ => launch,
    }
}

/// The step that is due in `state`.
pub open spec fn launch_action(state: LaunchState) -> LaunchAction {
    match state {
        LaunchState::Located => LaunchAction::LoadRuntime,
        LaunchState::Loaded => LaunchAction::FindMainClass,
        LaunchState::ClassResolved => LaunchAction::FindMainMethod,
        LaunchState::MethodResolved => LaunchAction::CallMain,
        LaunchState::Invoked => LaunchAction::CheckException,
        LaunchState::Completed => LaunchAction::Destroy { describe_exception: false },
        LaunchState::Faulted => LaunchAction::Destroy { describe_exception: true },
        LaunchState::Destroyed => LaunchAction::Exit,
        LaunchState::Aborted => LaunchAction::Exit,
    }
}

/// Whether a runtime exists in `state` that has not been destroyed.
pub open spec fn runtime_alive(state: LaunchState) -> bool {
    state != LaunchState::Located && state != LaunchState::Destroyed && state
        != LaunchState::Aborted
}

/// Whether the launch is over in `state`.
pub open spec fn is_final(state: LaunchState) -> bool {
    state == LaunchState::Destroyed || state == LaunchState::Aborted
}

/// The launch after `events`, reported in order.
pub open spec fn launch_run(start: LaunchView, events: Seq<LaunchEvent>) -> LaunchView
    decreases events.len(),
{
    if events.len() == 0 {
        start
    } else {
        launch_next(launch_run(start, events.drop_last()), events.last())
    }
}

/// How often the runtime has been destroyed in the course of `events`: the
/// number of steps that lead into `Destroyed` from another state.
pub open spec fn destroyed_count(start: LaunchView, events: Seq<LaunchEvent>) -> nat
    decreases events.len(),
{
    if events.len() == 0 {
        0
    } else {
        let before = launch_run(start, events.drop_last());
        let after = launch_next(before, events.last());
        destroyed_count(start, events.drop_last()) + if before.state != LaunchState::Destroyed
            && after.state == LaunchState::Destroyed {
            1nat
        } else {
            0nat
        }
    }
}

/// Whether the runtime has been created in the course of `events`.
pub open spec fn was_loaded(start: LaunchView, events: Seq<LaunchEvent>) -> bool
    decreases events.len(),
{
    if events.len() == 0 {
        start.state != LaunchState::Located && start.state != LaunchState::Aborted
    } else {
        was_loaded(start, events.drop_last()) || launch_run(start, events).state
            == LaunchState::Loaded
    }
}

impl View for Launcher {
    type V = LaunchView;

    closed spec fn view(&self) -> LaunchView {
        LaunchView { state: self.state, failure: self.failure }
    }
}

impl Launcher {
    /// A launch that has located the runtime library.
    pub fn new() -> (launcher: Launcher)
        ensures
            launcher@ == launch_start(),
    {
        Launcher { state: LaunchState::Located, failure: None }
    }

    /// Where the launch stands.
    pub fn state(&self) -> (state: LaunchState)
        ensures
            state == self@.state,
    {
        self.state
    }

    /// What the program has to do next: `launch_action`.
    pub fn next_action(&self) -> (action: LaunchAction)
        ensures
            action == launch_action(self@.state),
    {
        match self.state {
            LaunchState::Located => LaunchAction::LoadRuntime,
            LaunchState::Loaded => LaunchAction::FindMainClass,
            LaunchState::ClassResolved => LaunchAction::FindMainMethod,
            LaunchState::MethodResolved => LaunchAction::CallMain,
            LaunchState::Invoked => LaunchAction::CheckException,
            LaunchState::Completed => LaunchAction::Destroy { describe_exception: false },
            LaunchState::Faulted => LaunchAction::Destroy { describe_exception: true },
            LaunchState::Destroyed => LaunchAction::Exit,
            LaunchState::Aborted => LaunchAction::Exit,
        }
    }

    /// Takes note of `event`: `launch_next`.
    pub fn step(&mut self, event: LaunchEvent)
        ensures
            final(self)@ == launch_next(old(self)@, event),
    {
        match self.state {
            LaunchState::Located => match event {
                LaunchEvent::RuntimeLoaded => {
                    self.state = LaunchState::Loaded;
                },
                LaunchEvent::RuntimeRejected(cause) => {
                    self.state = LaunchState::Aborted;
                    self.failure = Some(Failure { stage: Stage::LoadRuntime, error: cause });
                },
                _ => {},
            },
            LaunchState::Loaded => match event {
                LaunchEvent::ClassFound => {
                    self.state = LaunchState::ClassResolved;
                },
                LaunchEvent::ClassMissing => {
                    self.fail(Stage::InvalidPackage, LaunchError::InvalidPackage(Missing::Class));
                },
                _ => {},
            },
            LaunchState::ClassResolved => match event {
                LaunchEvent::MethodFound => {
                    self.state = LaunchState::MethodResolved;
                },
                LaunchEvent::MethodMissing => {
                    self.fail(Stage::InvalidPackage, LaunchError::InvalidPackage(Missing::Method));
                },
                _ => {},
            },
            LaunchState::MethodResolved => match event {
                LaunchEvent::ParametersRejected(what) => {
                    self.fail(Stage::InvalidPackage, LaunchError::InvalidPackage(what));
                },
                LaunchEvent::EntryPointReturned => {
                    self.state = LaunchState::Invoked;
                },
                _ => {},
            },
            LaunchState::Invoked => match event {
                LaunchEvent::ExceptionPending => {
                    self.fail(Stage::UnexpectedException, LaunchError::UnexpectedException);
                },
                LaunchEvent::NoException => {
                    self.state = LaunchState::Completed;
                },
                _ => {},
            },
            LaunchState::Completed => match event {
                LaunchEvent::RuntimeDestroyed => {
                    self.state = LaunchState::Destroyed;
                },
                _ => {},
            },
            LaunchState::Faulted => match event {
                LaunchEvent::RuntimeDestroyed => {
                    self.state = LaunchState::Destroyed;
                },
                _ => {},
            },
            LaunchState::Destroyed => {},
            LaunchState::Aborted => {},
        }
    }

    fn fail(&mut self, stage: Stage, error: LaunchError)
        ensures
            final(self)@ == faulted(stage, error),
    {
        self.state = LaunchState::Faulted;
        self.failure = Some(Failure { stage, error });
    }

    /// How the launch has ended: `None` while it is under way, then `Ok` or
    /// the failure under the message of its step.
    pub fn outcome(&self) -> (outcome: Option<Result<(), MessagedError>>)
        ensures
            outcome is Some <==> is_final(self@.state),
            is_final(self@.state) ==> match (self@.failure, outcome->0) {
                (None, Ok(_)) => true,
                (Some(failure), Err(told)) => told.message@ == failure.stage.label() && told.error
                    == failure.error,
                _ => false,
            },
    {
        match self.state {
            LaunchState::Destroyed | LaunchState::Aborted => match &self.failure {
                None => Some(Ok(())),
                Some(failure) => {
                    let error = failure.error.clone();
                    Some(Err(error.with_message(failure.stage.message())))
                },
            },
            _ => None,
        }
    }
}

/// What holds of a launch after any events whatever. The runtime is destroyed
/// at most once; it has been destroyed exactly if the launch stands at
/// `Destroyed`; a launch in which a runtime was created can end nowhere
/// else, with or without a failure; one in which none was created destroys
/// nothing. A launch that has failed holds the failure, and one that is under
/// way without a fault holds none.
pub proof fn lemma_runtime_destroyed_once(events: Seq<LaunchEvent>)
    ensures
        ({
            let end = launch_run(launch_start(), events);
            let count = destroyed_count(launch_start(), events);
            let loaded = was_loaded(launch_start(), events);
            &&& count <= 1
            &&& count == 1 <==> end.state == LaunchState::Destroyed
            &&& loaded <==> (runtime_alive(end.state) || end.state == LaunchState::Destroyed)
            &&& loaded && is_final(end.state) ==> count == 1
            &&& !loaded ==> count == 0
            &&& end.state == LaunchState::Faulted || end.state == LaunchState::Aborted
                ==> end.failure is Some
            &&& end.state != LaunchState::Faulted && !is_final(end.state) ==> end.failure is None
        }),
    decreases events.len(),
{
    if events.len() > 0 {
        lemma_runtime_destroyed_once(events.drop_last());
    }
}

/// A failure after the runtime was created does not keep the runtime alive:
/// the step that is due is to destroy it, and the report that this was done
/// ends the launch with the failure kept.
pub proof fn lemma_fault_still_destroys(stage: Stage, error: LaunchError)
    ensures
        launch_action(faulted(stage, error).state) == (LaunchAction::Destroy {
            describe_exception: true,
        }),
        launch_next(faulted(stage, error), LaunchEvent::RuntimeDestroyed) == (LaunchView {
            state: LaunchState::Destroyed,
            failure: Some(Failure { stage, error }),
        }),
{
}

} // verus!
