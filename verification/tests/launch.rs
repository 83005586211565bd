use starter::jvm::{finish_load, DestroyCall, JavaRuntime, LoadState};
use starter::launch::{
    app_jar_name, classes_jar_path, main_class_name, main_method_name, main_method_signature,
    runtime_options, LaunchAction, LaunchEvent, LaunchState, Launcher, MAX_HEAP_USAGE_MB,
};
use starter::utils::errors::{
    exit_status, failure_report, LaunchError, LoadError, MessagedError, Missing,
};

/// A runtime as a load hands it out.
fn runtime() -> JavaRuntime {
    finish_load(LoadState::Loaded { library: 1, vm: 2, env: 3, destroy: 4 }).unwrap().unwrap()
}

/// Drives a launch with the given reports and counts the destroy calls that
/// the runtime is asked for.
fn run(events: Vec<LaunchEvent>) -> (Launcher, usize) {
    let mut launcher = Launcher::new();
    let mut created: Option<JavaRuntime> = None;
    let mut destroyed = 0;
    for event in events {
        if let LaunchAction::Destroy { .. } = launcher.next_action() {
            if let Some(runtime) = created.as_mut() {
                if runtime.shutdown().is_some() {
                    destroyed += 1;
                }
            }
        }
        if event == LaunchEvent::RuntimeLoaded && launcher.state() == LaunchState::Located {
            created = Some(runtime());
        }
        launcher.step(event);
    }
    (launcher, destroyed)
}

#[test]
fn names_of_the_entry_point() {
    assert_eq!(app_jar_name(), "clash-multiplatform.jar");
    assert_eq!(main_class_name(), "com/github/kr328/clash/MainKt");
    assert_eq!(main_method_name(), "main");
    assert_eq!(main_method_signature(), "(Lcom/github/kr328/clash/StartupParameters;)V");
    assert_eq!(classes_jar_path("/opt/clash"), "/opt/clash/clash-multiplatform.jar");
}

#[test]
fn runtime_options_in_order() {
    assert_eq!(MAX_HEAP_USAGE_MB, 512);
    assert_eq!(
        runtime_options("/opt/clash/clash-multiplatform.jar", MAX_HEAP_USAGE_MB),
        vec![
            "-Djava.class.path=/opt/clash/clash-multiplatform.jar".to_string(),
            "-Xmx512m".to_string(),
            "-XX:+UseSerialGC".to_string(),
        ]
    );
    assert_eq!(runtime_options("a.jar", 0)[1], "-Xmx0m");
    assert_eq!(runtime_options("a.jar", 1024)[1], "-Xmx1024m");
}

#[test]
fn launch_that_goes_through() {
    let mut launcher = Launcher::new();
    assert_eq!(launcher.state(), LaunchState::Located);
    assert_eq!(launcher.next_action(), LaunchAction::LoadRuntime);
    assert_eq!(launcher.outcome(), None);
    launcher.step(LaunchEvent::RuntimeLoaded);
    assert_eq!(launcher.state(), LaunchState::Loaded);
    assert_eq!(launcher.next_action(), LaunchAction::FindMainClass);
    launcher.step(LaunchEvent::ClassFound);
    assert_eq!(launcher.state(), LaunchState::ClassResolved);
    assert_eq!(launcher.next_action(), LaunchAction::FindMainMethod);
    launcher.step(LaunchEvent::MethodFound);
    assert_eq!(launcher.state(), LaunchState::MethodResolved);
    assert_eq!(launcher.next_action(), LaunchAction::CallMain);
    launcher.step(LaunchEvent::EntryPointReturned);
    assert_eq!(launcher.state(), LaunchState::Invoked);
    assert_eq!(launcher.next_action(), LaunchAction::CheckException);
    launcher.step(LaunchEvent::NoException);
    assert_eq!(launcher.state(), LaunchState::Completed);
    assert_eq!(launcher.next_action(), LaunchAction::Destroy { describe_exception: false });
    assert_eq!(launcher.outcome(), None);
    launcher.step(LaunchEvent::RuntimeDestroyed);
    assert_eq!(launcher.state(), LaunchState::Destroyed);
    assert_eq!(launcher.next_action(), LaunchAction::Exit);
    assert_eq!(launcher.outcome(), Some(Ok(())));
    assert_eq!(exit_status(&launcher.outcome().unwrap()), 0);
}

#[test]
fn fault_after_the_call_still_destroys_the_runtime_once() {
    let (launcher, destroyed) = run(vec![
        LaunchEvent::RuntimeLoaded,
        LaunchEvent::ClassFound,
        LaunchEvent::MethodFound,
        LaunchEvent::EntryPointReturned,
        LaunchEvent::ExceptionPending,
        LaunchEvent::RuntimeDestroyed,
        LaunchEvent::RuntimeDestroyed,
        LaunchEvent::ExceptionPending,
    ]);
    assert_eq!(destroyed, 1);
    assert_eq!(launcher.state(), LaunchState::Destroyed);
    let failure = launcher.outcome().unwrap().unwrap_err();
    assert_eq!(failure.message, "Unexpected exception");
    assert_eq!(failure.error, LaunchError::UnexpectedException);
    assert!(failure.to_string().contains("Unexpected exception"));
}

#[test]
fn fault_asks_for_the_exception_to_be_described() {
    let mut launcher = Launcher::new();
    launcher.step(LaunchEvent::RuntimeLoaded);
    launcher.step(LaunchEvent::ClassFound);
    launcher.step(LaunchEvent::MethodFound);
    launcher.step(LaunchEvent::EntryPointReturned);
    launcher.step(LaunchEvent::ExceptionPending);
    assert_eq!(launcher.state(), LaunchState::Faulted);
    assert_eq!(launcher.next_action(), LaunchAction::Destroy { describe_exception: true });
    assert_eq!(launcher.outcome(), None);
}

#[test]
fn launch_without_a_runtime_library_fails_with_load_runtime() {
    let (launcher, destroyed) = run(vec![LaunchEvent::RuntimeRejected(LaunchError::NotFound)]);
    assert_eq!(destroyed, 0);
    assert_eq!(launcher.state(), LaunchState::Aborted);
    assert_eq!(launcher.next_action(), LaunchAction::Exit);
    let outcome = launcher.outcome().unwrap();
    assert_ne!(exit_status(&outcome), 0);
    let failure = outcome.unwrap_err();
    assert_eq!(
        failure,
        MessagedError { message: "Load runtime".to_string(), error: LaunchError::NotFound }
    );
    assert!(failure.to_string().contains("Load runtime"));
    assert_eq!(failure.to_string(), "Load runtime: JavaRuntime not found");
    assert!(failure_report(&failure).contains("Load runtime"));
}

#[test]
fn launch_with_a_rejected_library_keeps_the_cause() {
    let cause = LaunchError::Load(LoadError::OpenFailed("no such file".to_string()));
    let (launcher, destroyed) = run(vec![LaunchEvent::RuntimeRejected(cause)]);
    assert_eq!(destroyed, 0);
    let failure = launcher.outcome().unwrap().unwrap_err();
    assert_eq!(failure.to_string(), "Load runtime: no such file");
}

#[test]
fn package_without_the_main_class_is_invalid_and_the_runtime_is_destroyed() {
    let mut launcher = Launcher::new();
    let mut runtime = runtime();
    launcher.step(LaunchEvent::RuntimeLoaded);
    launcher.step(LaunchEvent::ClassMissing);
    assert_eq!(launcher.state(), LaunchState::Faulted);
    assert_eq!(launcher.next_action(), LaunchAction::Destroy { describe_exception: true });
    assert_eq!(runtime.shutdown(), Some(DestroyCall { function: 4, vm: 2 }));
    launcher.step(LaunchEvent::RuntimeDestroyed);
    assert_eq!(launcher.state(), LaunchState::Destroyed);
    let outcome = launcher.outcome().unwrap();
    assert_eq!(exit_status(&outcome), 1);
    let failure = outcome.unwrap_err();
    assert_eq!(failure.message, "Invalid application package");
    assert_eq!(failure.error, LaunchError::InvalidPackage(Missing::Class));
    assert!(failure_report(&failure).contains("Invalid application package"));
    assert_eq!(runtime.shutdown(), None);
}

#[test]
fn package_without_the_main_method_is_invalid() {
    let (launcher, destroyed) = run(vec![
        LaunchEvent::RuntimeLoaded,
        LaunchEvent::ClassFound,
        LaunchEvent::MethodMissing,
        LaunchEvent::RuntimeDestroyed,
    ]);
    assert_eq!(destroyed, 1);
    let failure = launcher.outcome().unwrap().unwrap_err();
    assert_eq!(failure.message, "Invalid application package");
    assert_eq!(failure.error, LaunchError::InvalidPackage(Missing::Method));
}

#[test]
fn reports_out_of_turn_change_nothing() {
    let mut launcher = Launcher::new();
    launcher.step(LaunchEvent::ClassFound);
    launcher.step(LaunchEvent::RuntimeDestroyed);
    launcher.step(LaunchEvent::NoException);
    assert_eq!(launcher.state(), LaunchState::Located);
    launcher.step(LaunchEvent::RuntimeLoaded);
    launcher.step(LaunchEvent::RuntimeRejected(LaunchError::NotFound));
    launcher.step(LaunchEvent::RuntimeDestroyed);
    assert_eq!(launcher.state(), LaunchState::Loaded);
    assert_eq!(launcher.outcome(), None);
}

#[test]
fn ended_launch_stays_ended() {
    let (mut launcher, destroyed) = run(vec![
        LaunchEvent::RuntimeLoaded,
        LaunchEvent::ClassFound,
        LaunchEvent::MethodFound,
        LaunchEvent::EntryPointReturned,
        LaunchEvent::NoException,
        LaunchEvent::RuntimeDestroyed,
    ]);
    assert_eq!(destroyed, 1);
    launcher.step(LaunchEvent::RuntimeLoaded);
    launcher.step(LaunchEvent::ExceptionPending);
    assert_eq!(launcher.state(), LaunchState::Destroyed);
    assert_eq!(launcher.outcome(), Some(Ok(())));
}

#[test]
fn package_without_the_parameter_class_is_invalid_and_the_runtime_is_destroyed() {
    for what in [Missing::ParameterClass, Missing::Constructor, Missing::Conversion] {
        let (launcher, destroyed) = run(vec![
            LaunchEvent::RuntimeLoaded,
            LaunchEvent::ClassFound,
            LaunchEvent::MethodFound,
            LaunchEvent::ParametersRejected(what),
            LaunchEvent::RuntimeDestroyed,
        ]);
        assert_eq!(destroyed, 1);
        assert_eq!(launcher.state(), LaunchState::Destroyed);
        let failure = launcher.outcome().unwrap().unwrap_err();
        assert_eq!(failure.message, "Invalid application package");
        assert_eq!(failure.error, LaunchError::InvalidPackage(what));
    }
}

#[test]
fn rejected_parameters_fault_the_launch_before_the_call() {
    let mut launcher = Launcher::new();
    launcher.step(LaunchEvent::RuntimeLoaded);
    launcher.step(LaunchEvent::ParametersRejected(Missing::Constructor));
    assert_eq!(launcher.state(), LaunchState::Loaded);
    launcher.step(LaunchEvent::ClassFound);
    launcher.step(LaunchEvent::MethodFound);
    assert_eq!(launcher.next_action(), LaunchAction::CallMain);
    launcher.step(LaunchEvent::ParametersRejected(Missing::Constructor));
    assert_eq!(launcher.state(), LaunchState::Faulted);
    assert_eq!(launcher.next_action(), LaunchAction::Destroy { describe_exception: true });
    launcher.step(LaunchEvent::EntryPointReturned);
    assert_eq!(launcher.state(), LaunchState::Faulted);
}
