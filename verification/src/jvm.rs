//! Bringing the Java runtime up and shutting it down again.
//!
//! The program opens the library and calls into it. Addresses and handles come
//! here as plain numbers, zero standing for "none", and each outcome is
//! answered with the state that the load has reached.

use vstd::prelude::*;
use vstd::string::*;
use vstd::utf8::encode_utf8;
use crate::utils::errors::LoadError;
use crate::utils::java::{jni_false, jni_ok, jni_version_1_8};

verus! {

/// The arguments with which a runtime is created.
#[derive(Debug, PartialEq, Eq)]
pub struct InitArgs {
    /// The version of the interface that is asked for.
    pub version: i32,
    /// The options in order, each a text closed by a zero byte. The runtime
    /// reads them in place, so they are kept until the call has returned.
    pub options: Vec<Vec<u8>>,
    /// Whether the runtime may pass over options it does not know, as a Java
    /// boolean.
    pub ignore_unrecognized: u8,
}

/// Whether `option` is a text closed by a zero byte: zero is its last byte and
/// no other.
pub open spec fn is_terminated(option: Seq<u8>) -> bool {
    &&& option.len() > 0
    &&& option.last() == 0
    &&& forall|i: int| 0 <= i < option.len() - 1 ==> option[i] != 0
}

impl InitArgs {
    /// Whether the arguments can be handed to the runtime as the launcher
    /// means them: version 1.8 of the interface is asked for, options that
    /// the runtime does not know are refused, and every option is a text
    /// closed by a zero byte, with no zero byte inside.
    pub open spec fn well_formed(&self) -> bool {
        &&& self.version == 0x0001_0008
        &&& self.ignore_unrecognized == 0
        &&& forall|i: int| 0 <= i < self.options.len() ==> is_terminated(#[trigger] self.options[i]@)
    }

    /// The arguments for the given options: the launcher asks for version 1.8
    /// of the interface and has the runtime refuse options it does not know.
    /// They are well formed exactly if every option is a text closed by a
    /// zero byte.
    pub fn new(options: Vec<Vec<u8>>) -> (args: InitArgs)
        ensures
            args.version == 0x0001_0008,
            args.options == options,
            args.ignore_unrecognized == 0,
            args.well_formed() <==> forall|i: int|
                0 <= i < options.len() ==> is_terminated(#[trigger] options[i]@),
    {
        InitArgs { version: jni_version_1_8(), options, ignore_unrecognized: jni_false() }
    }

    /// The number of options, as the runtime wants it.
    pub fn option_count(&self) -> (count: Option<i32>)
        ensures
            match count {
                Some(n) => n == self.options@.len(),
                None => self.options@.len() > i32::MAX,
            },
    {
        if self.options.len() <= i32::MAX as usize {
            Some(self.options.len() as i32)
        } else {
            None
        }
    }
}

/// `bytes` as a C string: closed by a zero byte, and `None` where a zero byte
/// stands among them.
pub open spec fn c_string_of(bytes: Seq<u8>) -> Option<Seq<u8>> {
    if bytes.contains(0u8) {
        None
    } else {
        Some(bytes.push(0u8))
    }
}

/// The bytes of an optional buffer.
pub open spec fn bytes_of(value: Option<Vec<u8>>) -> Option<Seq<u8>> {
    match value {
        Some(bytes) => Some(bytes@),
        None => None,
    }
}

/// `text` in UTF-8 as a C string.
pub fn c_string(text: &str) -> (out: Option<Vec<u8>>)
    ensures
        bytes_of(out) == c_string_of(encode_utf8(text@)),
        out is Some ==> is_terminated(out->0@),
{
    let bytes = text.as_bytes();
    let mut out: Vec<u8> = Vec::new();
    let mut i: usize = 0;
    while i < bytes.len()
        invariant
            i <= bytes.len(),
            bytes@ == encode_utf8(text@),
            out@ == bytes@.take(i as int),
            forall|j: int| 0 <= j < i ==> bytes@[j] != 0,
        decreases bytes.len() - i,
    {
        let byte = bytes[i];
        if byte == 0 {
            return None;
        }
        out.push(byte);
        i = i + 1;
    }
    out.push(0);
    Some(out)
}

/// Whether `options` are `args` as C strings, one for one and in order.
pub open spec fn encodes(options: Seq<Seq<u8>>, args: Seq<Seq<char>>) -> bool {
    &&& options.len() == args.len()
    &&& forall|i: int|
        0 <= i < args.len() ==> c_string_of(encode_utf8(#[trigger] args[i])) == Some(options[i])
}

/// Whether `init` is what `args` come to as arguments of the runtime: well
/// formed arguments that hold `args` as C strings, one for one and in
/// order; or nothing, one of `args` holding a zero byte.
pub open spec fn is_init_args_of(init: Option<InitArgs>, args: Seq<Seq<char>>) -> bool {
    match init {
        Some(init) => init.well_formed() && encodes(init.options.deep_view(), args),
        None => exists|i: int|
            0 <= i < args.len() && c_string_of(encode_utf8(#[trigger] args[i])) is None,
    }
}

/// The arguments with which the runtime is created: `args` in UTF-8, each
/// closed by a zero byte, in order. `None` where one of them holds a zero
/// byte and so cannot be handed over.
pub fn build_init_args(args: &Vec<String>) -> (init: Option<InitArgs>)
    ensures
        is_init_args_of(init, args.deep_view()),
{
    let mut options: Vec<Vec<u8>> = Vec::new();
    let mut i: usize = 0;
    while i < args.len()
        invariant
            i <= args.len(),
            options.len() == i,
            forall|j: int|
                0 <= j < i ==> c_string_of(encode_utf8(#[trigger] args.deep_view()[j])) == Some(
                    options[j]@,
                ),
            forall|j: int| 0 <= j < i ==> is_terminated(#[trigger] options[j]@),
        decreases args.len() - i,
    {
        assert(args.deep_view()[i as int] == args[i as int]@);
        match c_string(args[i].as_str()) {
            Some(option) => {
                options.push(option);
            },
            None => {
                return None;
            },
        }
        i = i + 1;
    }
    let init = InitArgs::new(options);
    proof {
        assert forall|j: int| 0 <= j < args.deep_view().len() implies c_string_of(
            encode_utf8(#[trigger] args.deep_view()[j]),
        ) == Some(init.options.deep_view()[j]) by {
            assert(init.options.deep_view()[j] == init.options[j]@);
        }
    }
    Some(init)
}

/// How far the load has come. Handles and addresses are kept as the program
/// has reported them.
#[derive(Debug, PartialEq, Eq)]
pub enum LoadState {
    /// The library has been found and nothing has been done with it.
    Located,
    /// The library is open.
    Opened { library: usize },
    /// The function that creates a runtime has been found in it.
    Resolved { library: usize, create: usize },
    /// The runtime has been created.
    Created { library: usize, vm: usize, env: usize },
    /// The runtime is ready. `destroy` is the address of the function that
    /// destroys it, zero where the library exports none.
    Loaded { library: usize, vm: usize, env: usize, destroy: usize },
    /// The load has failed.
    Failed(LoadError),
}

/// What the program reports of its last step.
#[derive(Debug, PartialEq, Eq)]
pub enum LoadEvent {
    /// The loader's answer: the library's handle, or zero and the system's
    /// message.
    LibraryOpened { handle: usize, os_message: String },
    /// The address of the function that creates a runtime, or zero.
    CreateResolved { address: usize },
    /// The status with which that function has returned, and the runtime and
    /// the thread's environment that it has handed out.
    InstanceCreated { status: i32, vm: usize, env: usize },
    /// The address of the function that destroys a runtime, or zero.
    DestroyResolved { address: usize },
}

/// What the program has to do next.
#[derive(Debug, Clone, Copy, PartialEq, Eq, Structural)]
pub enum LoadAction {
    /// Open the library.
    OpenLibrary,
    /// Look up the function that creates a runtime.
    ResolveCreate,
    /// Call it with the arguments.
    CreateInstance,
    /// Look up the function that destroys a runtime.
    ResolveDestroy,
    /// Nothing: the load has ended.
    Finish,
}

/// The state that follows `state` when `event` is reported. The load fails
/// where the loader hands out no handle, where the library lacks the function
/// that creates a runtime, and where that function returns a status other
/// than zero; a library without the function that destroys a runtime is
/// accepted. An event that does not answer the step that is due changes
/// nothing.
pub open spec fn load_next(state: LoadState, event: LoadEvent) -> LoadState {
    match (state, event) {
        (LoadState::Located, LoadEvent::LibraryOpened { handle, os_message }) => if handle == 0 {
            LoadState::Failed(LoadError::OpenFailed(os_message))
        } else {
            LoadState::Opened { library: handle }
        },
        (LoadState::Opened { library }, LoadEvent::CreateResolved { address }) => if address == 0 {
            LoadState::Failed(LoadError::SymbolMissing)
        } else {
            LoadState::Resolved { library, create: address }
        },
        (LoadState::Resolved { library, create }, LoadEvent::InstanceCreated { status, vm, env }) => if status
            != 0 {
            LoadState::Failed(LoadError::InitFailed(status))
        } else {
            LoadState::Created { library, vm, env }
        },
        (LoadState::Created { library, vm, env }, LoadEvent::DestroyResolved { address }) => LoadState::Loaded {
            library,
            vm,
            env,
            destroy: address,
        },
        _ => state,
    }
}

/// The step that is due in `state`.
pub open spec fn load_action(state: LoadState) -> LoadAction {
    match state {
        LoadState::Located => LoadAction::OpenLibrary,
        LoadState::Opened { .. } => LoadAction::ResolveCreate,
        LoadState::Resolved { .. } => LoadAction::CreateInstance,
        LoadState::Created { .. } => LoadAction::ResolveDestroy,
        LoadState::Loaded { .. } => LoadAction::Finish,
        LoadState::Failed(_) => LoadAction::Finish,
    }
}

/// Takes the load one step further: `load_next`.
pub fn load_step(state: LoadState, event: LoadEvent) -> (next: LoadState)
    ensures
        next == load_next(state, event),
{
    match state {
        LoadState::Located => match event {
            LoadEvent::LibraryOpened { handle, os_message } => if handle == 0 {
                LoadState::Failed(LoadError::OpenFailed(os_message))
            } else {
                LoadState::Opened { library: handle }
            },
            _ => LoadState::Located,
        },
        LoadState::Opened { library } => match event {
            LoadEvent::CreateResolved { address } => if address == 0 {
                LoadState::Failed(LoadError::SymbolMissing)
            } else {
                LoadState::Resolved { library, create: address }
            },
            _ => LoadState::Opened { library },
        },
        LoadState::Resolved { library, create } => match event {
            LoadEvent::InstanceCreated { status, vm, env } => if status != jni_ok() {
                LoadState::Failed(LoadError::InitFailed(status))
            } else {
                LoadState::Created { library, vm, env }
            },
            _ => LoadState::Resolved { library, create },
        },
        LoadState::Created { library, vm, env } => match event {
            LoadEvent::DestroyResolved { address } => LoadState::Loaded {
                library,
                vm,
                env,
                destroy: address,
            },
            _ => LoadState::Created { library, vm, env },
        },
        LoadState::Loaded { library, vm, env, destroy } => LoadState::Loaded {
            library,
            vm,
            env,
            destroy,
        },
        LoadState::Failed(cause) => LoadState::Failed(cause),
    }
}

/// The step that is due in `state`: `load_action`.
pub fn next_load_action(state: &LoadState) -> (action: LoadAction)
    ensures
        action == load_action(*state),
{
    match state {
        LoadState::Located => LoadAction::OpenLibrary,
        LoadState::Opened { .. } => LoadAction::ResolveCreate,
        LoadState::Resolved { .. } => LoadAction::CreateInstance,
        LoadState::Created { .. } => LoadAction::ResolveDestroy,
        LoadState::Loaded { .. } => LoadAction::Finish,
        LoadState::Failed(_) => LoadAction::Finish,
    }
}

/// How a load has ended: with the runtime, or with the cause of the failure.
/// `None` while the load is under way.
pub open spec fn load_outcome(state: LoadState) -> Option<Result<RuntimeView, LoadError>> {
    match state {
        LoadState::Loaded { library, vm, env, destroy } => Some(
            Ok(RuntimeView { library, vm, env, destroy, shut_down: false }),
        ),
        LoadState::Failed(cause) => Some(Err(cause)),
        _ => None,
    }
}

/// Hands out what a load has come to. A runtime is to be had in no other way:
/// it exists only after a load that went through all its steps.
pub fn finish_load(state: LoadState) -> (outcome: Option<Result<JavaRuntime, LoadError>>)
    ensures
        match (outcome, load_outcome(state)) {
            (Some(Ok(runtime)), Some(Ok(view))) => runtime@ == view,
            (Some(Err(error)), Some(Err(cause))) => error == cause,
            (None, None) => true,
            _ => false,
        },
{
    match state {
        LoadState::Loaded { library, vm, env, destroy } => Some(
            Ok(JavaRuntime { library, vm, env, destroy, shut_down: false }),
        ),
        LoadState::Failed(cause) => Some(Err(cause)),
        _ => None,
    }
}

/// The state after `events`, reported in order.
pub open spec fn load_run(state: LoadState, events: Seq<LoadEvent>) -> LoadState
    decreases events.len(),
{
    if events.len() == 0 {
        state
    } else {
        load_next(load_run(state, events.drop_last()), events.last())
    }
}

/// No step of a load can be left out: whatever is reported, the library is
/// not open before the first report, the function that creates a runtime is
/// not found before the second, the runtime is not created before the third
/// and not ready before the fourth.
pub proof fn lemma_load_needs_every_step(events: Seq<LoadEvent>)
    ensures
        load_run(LoadState::Located, events) is Opened ==> events.len() >= 1,
        load_run(LoadState::Located, events) is Resolved ==> events.len() >= 2,
        load_run(LoadState::Located, events) is Created ==> events.len() >= 3,
        load_run(LoadState::Located, events) is Loaded ==> events.len() >= 4,
    decreases events.len(),
{
    if events.len() > 0 {
        lemma_load_needs_every_step(events.drop_last());
    }
}

/// A load that has ended stays as it is: no report leads out of `Loaded` or
/// `Failed`.
pub proof fn lemma_load_end_is_final(state: LoadState, event: LoadEvent)
    requires
        state is Loaded || state is Failed,
    ensures
        load_next(state, event) == state,
{
}

/// Whether `event` reports the success that leads from `state` to `next`: the
/// loader has handed out a handle, the function that creates a runtime has
/// been found, that function has returned zero, or the function that
/// destroys a runtime has been looked up. The handle, the runtime and the
/// environment are kept as they were reported.
pub open spec fn advances(state: LoadState, event: LoadEvent, next: LoadState) -> bool {
    match (state, event, next) {
        (
            LoadState::Located,
            LoadEvent::LibraryOpened { handle, .. },
            LoadState::Opened { library },
        ) => handle != 0 && library == handle,
        (
            LoadState::Opened { library: opened },
            LoadEvent::CreateResolved { address },
            LoadState::Resolved { library, create },
        ) => address != 0 && library == opened && create == address,
        (
            LoadState::Resolved { library: opened, .. },
            LoadEvent::InstanceCreated { status, vm: made, env: given },
            LoadState::Created { library, vm, env },
        ) => status == 0 && library == opened && vm == made && env == given,
        (
            LoadState::Created { library: opened, vm: made, env: given },
            LoadEvent::DestroyResolved { address },
            LoadState::Loaded { library, vm, env, destroy },
        ) => library == opened && vm == made && env == given && destroy == address,
        _ => false,
    }
}

/// The load advances only on success: a report changes nothing, or makes the
/// load fail, or leads from a state to the one after it as `advances` says.
pub proof fn lemma_load_advances_on_success(state: LoadState, event: LoadEvent)
    ensures
        load_next(state, event) == state || (load_next(state, event) is Failed && !(state
            is Failed)) || advances(state, event, load_next(state, event)),
{
}

/// The call that destroys a runtime: the function's address and the runtime
/// it is called with.
#[derive(Debug, Clone, Copy, PartialEq, Eq, Structural)]
pub struct DestroyCall {
    pub function: usize,
    pub vm: usize,
}

/// What a `JavaRuntime` holds.
pub ghost struct RuntimeView {
    pub library: usize,
    pub vm: usize,
    pub env: usize,
    pub destroy: usize,
    pub shut_down: bool,
}

/// A runtime that has been created: the library's handle, the runtime and the
/// thread's environment in it, and the address of the function that destroys
/// the runtime, zero where the library exports none. It is handed out by
/// `finish_load` after a load that went through. Nothing else destroys the
/// runtime, and `shutdown` asks for it once.
#[derive(Debug, PartialEq, Eq)]
pub struct JavaRuntime {
    library: usize,
    vm: usize,
    env: usize,
    destroy: usize,
    shut_down: bool,
}

/// The runtime after `shutdown`, and the call that `shutdown` asks for.
pub open spec fn shut_down(runtime: RuntimeView) -> (RuntimeView, Option<DestroyCall>) {
    (
        RuntimeView { shut_down: true, ..runtime },
        if runtime.shut_down || runtime.destroy == 0 {
            None
        } else {
            Some(DestroyCall { function: runtime.destroy, vm: runtime.vm })
        },
    )
}

/// How many destroy calls `times` shutdowns in a row ask for.
pub open spec fn destroy_calls(runtime: RuntimeView, times: nat) -> nat
    decreases times,
{
    if times == 0 {
        0
    } else {
        let first = shut_down(runtime);
        (if first.1 is Some {
            1nat
        } else {
            0nat
        }) + destroy_calls(first.0, (times - 1) as nat)
    }
}

impl View for JavaRuntime {
    type V = RuntimeView;

    closed spec fn view(&self) -> RuntimeView {
        RuntimeView {
            library: self.library,
            vm: self.vm,
            env: self.env,
            destroy: self.destroy,
            shut_down: self.shut_down,
        }
    }
}

impl JavaRuntime {
    /// The handle of the library.
    pub fn library(&self) -> (handle: usize)
        ensures
            handle == self@.library,
    {
        self.library
    }

    /// The runtime.
    pub fn vm(&self) -> (vm: usize)
        ensures
            vm == self@.vm,
    {
        self.vm
    }

    /// The environment of the thread that created the runtime.
    pub fn env(&self) -> (env: usize)
        ensures
            env == self@.env,
    {
        self.env
    }

    /// Whether `shutdown` has been called.
    pub fn is_shut_down(&self) -> (done: bool)
        ensures
            done == self@.shut_down,
    {
        self.shut_down
    }

    /// Ends the runtime's life. The first call returns the destroy call to
    /// make, where the library exports the function; every later call returns
    /// `None`.
    pub fn shutdown(&mut self) -> (call: Option<DestroyCall>)
        ensures
            final(self)@ == shut_down(old(self)@).0,
            call == shut_down(old(self)@).1,
    {
        let call = if self.shut_down || self.destroy == 0 {
            None
        } else {
            Some(DestroyCall { function: self.destroy, vm: self.vm })
        };
        self.shut_down = true;
        call
    }
}

/// Shutting down twice is shutting down once: the second call asks for
/// nothing and changes nothing.
pub proof fn lemma_shutdown_idempotent(runtime: RuntimeView)
    ensures
        shut_down(shut_down(runtime).0) == (shut_down(runtime).0, None::<DestroyCall>),
{
}

/// However often a runtime is shut down, it is destroyed at most once, and
/// exactly once where it is shut down at all, has not been before, and the
/// library exports the function.
pub proof fn lemma_destroyed_at_most_once(runtime: RuntimeView, times: nat)
    ensures
        destroy_calls(runtime, times) <= 1,
        destroy_calls(runtime, times) == 1 <==> (times >= 1 && !runtime.shut_down
            && runtime.destroy != 0),
    decreases times,
{
    if times > 0 {
        let first = shut_down(runtime);
        lemma_destroyed_at_most_once(first.0, (times - 1) as nat);
    }
}

} // verus!
