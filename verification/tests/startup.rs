use starter::dirs::{current_app_dir, default_base_dir, default_base_dir_in};
use starter::metadata::Metadata;
use starter::options::Options;
use starter::startup::{
    constructor_name, found, string_class_name, JavaObjectRequest, JavaValue, StartupParameters,
};
use starter::utils::errors::{LaunchError, Missing};
use starter::utils::utf16::decode_utf16;

fn strings(items: &[&str]) -> Vec<String> {
    items.iter().map(|s| s.to_string()).collect()
}

fn units(text: &str) -> Vec<u16> {
    text.encode_utf16().collect()
}

#[test]
fn options_default_to_nothing_asked() {
    let options = Options::default();
    assert_eq!(
        options,
        Options { base_directory: String::new(), no_shortcut: false, hide_window: false }
    );
    assert_eq!(options.clone(), options);
}

#[test]
fn app_dir_is_the_directory_of_the_launcher() {
    assert_eq!(current_app_dir("/opt/clash/starter"), Ok("/opt/clash".to_string()));
    assert_eq!(current_app_dir("/starter"), Ok("/".to_string()));
    assert_eq!(current_app_dir("/"), Err(LaunchError::AppDirNotFound));
    assert_eq!(current_app_dir(""), Err(LaunchError::AppDirNotFound));
}

#[test]
fn default_base_dir_is_named_after_the_variant() {
    let community = Metadata { is_premium: false };
    let premium = Metadata { is_premium: true };
    assert_eq!(
        default_base_dir_in("/home/kr328/.config", &community),
        "/home/kr328/.config/clash-multiplatform-foss"
    );
    assert_eq!(
        default_base_dir_in("/home/kr328/.config", &premium),
        "/home/kr328/.config/clash-multiplatform"
    );
    assert_eq!(default_base_dir_in("", &community), "clash-multiplatform-foss");
}

#[test]
fn default_base_dir_of_the_current_user() {
    let community = Metadata { is_premium: false };
    match home::home_dir() {
        Some(home) => {
            let expected =
                format!("{}/clash-multiplatform-foss", home.join(".config").to_string_lossy());
            assert_eq!(default_base_dir(&community), Ok(expected));
        }
        None => assert_eq!(default_base_dir(&community), Err(LaunchError::HomeNotFound)),
    }
}

#[test]
fn empty_options_resolve_the_community_directory() {
    let options = Options { base_directory: String::new(), no_shortcut: false, hide_window: false };
    let metadata = Metadata { is_premium: false };
    let result = StartupParameters::new(&options, &metadata, "/opt/clash/starter", &strings(&["starter"]));
    match home::home_dir() {
        Some(_) => {
            let parameters = result.unwrap();
            assert!(!parameters.base_directory.is_empty());
            assert!(parameters.base_directory.ends_with("clash-multiplatform-foss"));
            assert!(!parameters.base_directory.ends_with("clash-multiplatform"));
            assert!(!parameters.no_shortcut);
            assert!(!parameters.hide_window);
        }
        None => assert_eq!(result, Err(LaunchError::HomeNotFound)),
    }
}

#[test]
fn named_base_directory_is_taken_as_it_is() {
    let options =
        Options { base_directory: " /data/my clash ".to_string(), no_shortcut: true, hide_window: false };
    let metadata = Metadata { is_premium: true };
    let argv = strings(&["/opt/clash/starter", "--base-directory", " /data/my clash ", "--no-shortcut"]);
    let parameters =
        StartupParameters::new(&options, &metadata, "/opt/clash/starter", &argv).unwrap();
    assert_eq!(
        parameters,
        StartupParameters {
            base_directory: " /data/my clash ".to_string(),
            no_shortcut: true,
            hide_window: false,
            starter: "/opt/clash/starter".to_string(),
            starter_arguments: strings(&["--base-directory", " /data/my clash ", "--no-shortcut"]),
        }
    );
}

#[test]
fn parameters_leave_out_the_programs_name() {
    let options = Options::default();
    let parameters = StartupParameters::with_base_directory(
        "/data".to_string(),
        &options,
        "\\\\?\\C:\\clash\\starter.exe",
        &strings(&["starter.exe", "a", "b"]),
    );
    assert_eq!(parameters.starter, "C:\\clash\\starter.exe");
    assert_eq!(parameters.starter_arguments, strings(&["a", "b"]));
    let parameters =
        StartupParameters::with_base_directory("/data".to_string(), &options, "s", &strings(&["s"]));
    assert_eq!(parameters.starter_arguments, Vec::<String>::new());
    let parameters =
        StartupParameters::with_base_directory("/data".to_string(), &options, "s", &Vec::new());
    assert_eq!(parameters.starter_arguments, Vec::<String>::new());
}

#[test]
fn marshalling_keeps_order_and_text_of_the_arguments() {
    let options = Options { base_directory: "/data".to_string(), no_shortcut: false, hide_window: false };
    let metadata = Metadata { is_premium: false };
    let argv = strings(&["starter", "--flag", "value", "extra"]);
    let parameters = StartupParameters::new(&options, &metadata, "/opt/starter", &argv).unwrap();
    assert_eq!(parameters.starter_arguments, strings(&["--flag", "value", "extra"]));
    let request = parameters.new_java_object();
    match &request.arguments[4] {
        JavaValue::TextArray(array) => {
            assert_eq!(array.len(), 3);
            assert_eq!(array, &vec![units("--flag"), units("value"), units("extra")]);
            let back: Vec<String> = array.iter().map(|u| decode_utf16(u).unwrap()).collect();
            assert_eq!(back, strings(&["--flag", "value", "extra"]));
            let bytes: Vec<Vec<u8>> = back.iter().map(|s| s.as_bytes().to_vec()).collect();
            assert_eq!(bytes, vec![b"--flag".to_vec(), b"value".to_vec(), b"extra".to_vec()]);
        }
        other => panic!("not an array: {:?}", other),
    }
}

#[test]
fn java_object_is_requested_with_five_arguments() {
    let parameters = StartupParameters {
        base_directory: "/data/cläsh".to_string(),
        no_shortcut: true,
        hide_window: false,
        starter: "/opt/clash/starter".to_string(),
        starter_arguments: strings(&["  spaced  ", "", "\"quoted\"", "😀"]),
    };
    assert_eq!(
        parameters.new_java_object(),
        JavaObjectRequest {
            class_name: "com/github/kr328/clash/StartupParameters",
            constructor_signature: "(Ljava/lang/String;ZZLjava/lang/String;[Ljava/lang/String;)V",
            arguments: vec![
                JavaValue::Text(units("/data/cläsh")),
                JavaValue::Boolean(1),
                JavaValue::Boolean(0),
                JavaValue::Text(units("/opt/clash/starter")),
                JavaValue::TextArray(vec![
                    units("  spaced  "),
                    Vec::new(),
                    units("\"quoted\""),
                    vec![0xD83D, 0xDE00],
                ]),
            ],
        }
    );
    assert_eq!(string_class_name(), "java/lang/String");
    assert_eq!(constructor_name(), "<init>");
}

#[test]
fn java_object_without_arguments_has_an_empty_array() {
    let parameters = StartupParameters {
        base_directory: String::new(),
        no_shortcut: false,
        hide_window: true,
        starter: String::new(),
        starter_arguments: Vec::new(),
    };
    let request = parameters.new_java_object();
    assert_eq!(
        request.arguments,
        vec![
            JavaValue::Text(Vec::new()),
            JavaValue::Boolean(0),
            JavaValue::Boolean(1),
            JavaValue::Text(Vec::new()),
            JavaValue::TextArray(Vec::new()),
        ]
    );
}

#[test]
fn resolve_takes_the_default_directory_below_the_users() {
    let options = Options::default();
    let community = Metadata { is_premium: false };
    let premium = Metadata { is_premium: true };
    let argv = strings(&["starter", "x"]);
    let parameters = StartupParameters::resolve(
        &options,
        &community,
        Ok("/home/kr328/.config".to_string()),
        "/opt/clash/starter",
        &argv,
    )
    .unwrap();
    assert_eq!(parameters.base_directory, "/home/kr328/.config/clash-multiplatform-foss");
    assert_eq!(parameters.starter, "/opt/clash/starter");
    assert_eq!(parameters.starter_arguments, strings(&["x"]));
    let parameters = StartupParameters::resolve(
        &options,
        &premium,
        Ok("\\\\?\\C:\\Users\\kr328\\AppData\\Local".to_string()),
        "\\\\?\\C:\\clash\\starter.exe",
        &argv,
    )
    .unwrap();
    assert_eq!(parameters.base_directory, "C:\\Users\\kr328\\AppData\\Local/clash-multiplatform");
    assert_eq!(parameters.starter, "C:\\clash\\starter.exe");
}

#[test]
fn resolve_fails_only_where_the_users_directory_is_needed() {
    let metadata = Metadata { is_premium: false };
    let argv = strings(&["starter"]);
    assert_eq!(
        StartupParameters::resolve(
            &Options::default(),
            &metadata,
            Err(LaunchError::HomeNotFound),
            "/opt/starter",
            &argv
        ),
        Err(LaunchError::HomeNotFound)
    );
    let named = Options { base_directory: "/data".to_string(), no_shortcut: false, hide_window: true };
    let parameters = StartupParameters::resolve(
        &named,
        &metadata,
        Err(LaunchError::Other("no such folder".to_string())),
        "/opt/starter",
        &argv,
    )
    .unwrap();
    assert_eq!(parameters.base_directory, "/data");
    assert!(parameters.hide_window);
    let parameters =
        StartupParameters::resolve(&named, &metadata, Ok("/home/u".to_string()), "/opt/starter", &argv)
            .unwrap();
    assert_eq!(parameters.base_directory, "/data");
}

#[test]
fn zero_handle_means_missing() {
    assert_eq!(found(0, Missing::ParameterClass), Err(Missing::ParameterClass));
    assert_eq!(found(0, Missing::Conversion), Err(Missing::Conversion));
    assert_eq!(found(1, Missing::Constructor), Ok(1));
    assert_eq!(found(usize::MAX, Missing::Class), Ok(usize::MAX));
}
