use starter::jvm::InitArgs;
use starter::linux::dirs::{config_directory_in, current_user_config_directory};
use starter::jvm::c_string;
use starter::linux::jvm::{library_search_path, search_path_for};
use starter::linux::redirect::{duplication_failed, Duplication, StandardOutputID};
use starter::utils::errors::LaunchError;
use starter::win32::redirect::{
    call_failed, console_allocated, StandardInputOutput, Substitution,
};
use starter::win32::strings::Win32Strings;

#[test]
fn c_string_is_utf8_closed_by_zero() {
    assert_eq!(c_string("-Xmx512m"), Some(b"-Xmx512m\0".to_vec()));
    assert_eq!(c_string(""), Some(vec![0]));
    assert_eq!(c_string("é"), Some(vec![0xC3, 0xA9, 0]));
    assert_eq!(c_string("日本"), Some(vec![0xE6, 0x97, 0xA5, 0xE6, 0x9C, 0xAC, 0]));
}

#[test]
fn c_string_refuses_a_zero_inside() {
    assert_eq!(c_string("a\0b"), None);
    assert_eq!(c_string("\0"), None);
    assert_eq!(c_string("ab\0"), None);
}

#[test]
fn linux_init_args_hold_each_option_as_c_string() {
    let args = vec![
        "-Djava.class.path=/opt/clash/clash-multiplatform.jar".to_string(),
        "-Xmx512m".to_string(),
        "-XX:+UseSerialGC".to_string(),
    ];
    let init = starter::linux::jvm::build_jvm_init_args(&args).unwrap();
    assert_eq!(
        init,
        InitArgs {
            version: 0x0001_0008,
            options: vec![
                b"-Djava.class.path=/opt/clash/clash-multiplatform.jar\0".to_vec(),
                b"-Xmx512m\0".to_vec(),
                b"-XX:+UseSerialGC\0".to_vec(),
            ],
            ignore_unrecognized: 0,
        }
    );
    assert_eq!(init.option_count(), Some(3));
    assert_eq!(
        starter::linux::jvm::build_jvm_init_args(&Vec::new()),
        Some(InitArgs { version: 0x0001_0008, options: Vec::new(), ignore_unrecognized: 0 })
    );
}

#[test]
fn linux_init_args_refuse_an_option_with_a_zero() {
    let args = vec!["-Xmx512m".to_string(), "-Dbad=\0".to_string()];
    assert_eq!(starter::linux::jvm::build_jvm_init_args(&args), None);
}

#[test]
fn library_directory_goes_in_front_of_the_search_path() {
    assert_eq!(
        library_search_path("/app/jre/lib/server", Some("/usr/lib:/lib")),
        "/app/jre/lib/server:/usr/lib:/lib"
    );
    assert_eq!(library_search_path("/app/jre/lib/server", Some("/usr/lib")), "/app/jre/lib/server:/usr/lib");
    assert_eq!(library_search_path("/app/jre/lib/server", None), "/app/jre/lib/server");
    assert_eq!(library_search_path("/app/jre/lib", Some("")), "/app/jre/lib");
}

#[test]
fn search_path_takes_the_directory_of_the_library() {
    assert_eq!(
        search_path_for("/app/jre/lib/server/libjvm.so", Some("/usr/lib")),
        Some("/app/jre/lib/server:/usr/lib".to_string())
    );
    assert_eq!(
        search_path_for("/app/jre/lib/libjvm.so", None),
        Some("/app/jre/lib".to_string())
    );
    assert_eq!(search_path_for("libjvm.so", None), Some("".to_string()));
    assert_eq!(search_path_for("/", Some("/usr/lib")), None);
}

#[test]
fn config_directory_is_dot_config_in_the_home_directory() {
    assert_eq!(config_directory_in(Some("/home/kr328")), Ok("/home/kr328/.config".to_string()));
    assert_eq!(config_directory_in(Some("/")), Ok("/.config".to_string()));
    assert_eq!(config_directory_in(None), Err(LaunchError::HomeNotFound));
}

#[test]
fn current_user_config_directory_follows_the_home_directory() {
    let expected = config_directory_in(
        home::home_dir().map(|p| p.to_string_lossy().into_owned()).as_deref(),
    );
    assert_eq!(current_user_config_directory(), expected);
}

#[test]
fn linux_streams_have_descriptors_one_and_two() {
    assert_eq!(StandardOutputID::Output.descriptor(), 1);
    assert_eq!(StandardOutputID::Error.descriptor(), 2);
    assert_eq!(
        starter::linux::redirect::set_standard_input_output(StandardOutputID::Output, 7),
        Duplication { source: 7, target: 1 }
    );
    assert_eq!(
        starter::linux::redirect::set_standard_input_output(StandardOutputID::Error, 9),
        Duplication { source: 9, target: 2 }
    );
}

#[test]
fn duplication_fails_on_a_negative_result() {
    assert!(duplication_failed(-1));
    assert!(duplication_failed(i32::MIN));
    assert!(!duplication_failed(0));
    assert!(!duplication_failed(2));
}

#[test]
fn windows_init_args_hold_each_option_as_c_string() {
    let args = vec!["-Xmx512m".to_string(), "-Dname=\u{100}".to_string()];
    let init = starter::win32::jvm::build_jvm_init_args(&args);
    assert_eq!(
        init,
        Some(InitArgs {
            version: 0x0001_0008,
            options: vec![b"-Xmx512m\0".to_vec(), b"-Dname=\xC4\x80\0".to_vec()],
            ignore_unrecognized: 0,
        })
    );
    assert_eq!(starter::win32::jvm::build_jvm_init_args(&vec!["a\0b".to_string()]), None);
}

#[test]
fn init_args_are_the_same_on_both_platforms() {
    let args = vec!["-Djava.class.path=C:\\clash\\a.jar".to_string(), "é".to_string()];
    assert_eq!(
        starter::win32::jvm::build_jvm_init_args(&args),
        starter::linux::jvm::build_jvm_init_args(&args)
    );
    assert_eq!(starter::jvm::build_init_args(&args), starter::linux::jvm::build_jvm_init_args(&args));
}

#[test]
fn windows_text_is_utf16_closed_by_zero() {
    assert_eq!("Error".to_win32_utf16(), vec![69, 114, 114, 111, 114, 0]);
    assert_eq!("".to_win32_utf16(), vec![0]);
    assert_eq!("😀".to_string().to_win32_utf16(), vec![0xD83D, 0xDE00, 0]);
    let expected: Vec<u16> = "C:\\Program Files\\Ünïcode".encode_utf16().chain(Some(0)).collect();
    assert_eq!("C:\\Program Files\\Ünïcode".to_win32_utf16(), expected);
}

#[test]
fn windows_streams_have_their_handle_numbers() {
    assert_eq!(StandardInputOutput::Output.handle_id(), (-11i32) as u32);
    assert_eq!(StandardInputOutput::Error.handle_id(), (-12i32) as u32);
    assert_eq!(
        starter::win32::redirect::set_standard_input_output(StandardInputOutput::Output),
        Substitution { flag_mask: 1, flag_value: 1, std_handle: 4294967285 }
    );
    assert_eq!(
        starter::win32::redirect::set_standard_input_output(StandardInputOutput::Error),
        Substitution { flag_mask: 1, flag_value: 1, std_handle: 4294967284 }
    );
}

#[test]
fn windows_calls_report_success_as_truth_value() {
    assert!(console_allocated(1));
    assert!(!console_allocated(0));
    assert!(!console_allocated(2));
    assert!(call_failed(0));
    assert!(!call_failed(1));
    assert!(!call_failed(-1));
}
