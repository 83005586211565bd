//! The parameters that the application is started with, and the form in
//! which they are handed to it.

use vstd::prelude::*;
use vstd::string::*;
use crate::dirs::{default_base_dir_below, default_base_dir_in};
use crate::linux::dirs::{config_directory_of, current_user_config_directory, is_path_result};
use crate::metadata::Metadata;
use crate::options::Options;
use crate::utils::errors::{LaunchError, Missing};
use crate::utils::java::{java_boolean, java_boolean_of, JStringExt};
use crate::utils::strings::{without_extended_length_mark, PathExt};
use crate::utils::utf16::{lemma_utf16_round_trip, utf16, utf16_text};

verus! {

/// What the application is told when it starts. The parameters are made once
/// and not changed afterwards.
#[derive(Debug, PartialEq, Eq)]
pub struct StartupParameters {
    /// Where the application keeps its data.
    pub base_directory: String,
    /// Whether the application is kept from creating a shortcut.
    pub no_shortcut: bool,
    /// Whether the application starts without showing its window.
    pub hide_window: bool,
    /// The launcher's own file.
    pub starter: String,
    /// The arguments of the command line after the program's name, in order.
    pub starter_arguments: Vec<String>,
}

/// The parameters as plain values.
pub ghost struct StartupView {
    pub base_directory: Seq<char>,
    pub no_shortcut: bool,
    pub hide_window: bool,
    pub starter: Seq<char>,
    pub starter_arguments: Seq<Seq<char>>,
}

impl View for StartupParameters {
    type V = StartupView;

    open spec fn view(&self) -> StartupView {
        StartupView {
            base_directory: self.base_directory@,
            no_shortcut: self.no_shortcut,
            hide_window: self.hide_window,
            starter: self.starter@,
            starter_arguments: self.starter_arguments.deep_view(),
        }
    }
}

/// The command line without the program's name.
pub open spec fn arguments_after_program(argv: Seq<Seq<char>>) -> Seq<Seq<char>> {
    if argv.len() == 0 {
        Seq::empty()
    } else {
        argv.skip(1)
    }
}

/// The parameters for a data directory that is settled: the flags are those of
/// the options, the launcher's path loses the extended-length mark, and the
/// arguments are those of the command line after the program's name.
pub open spec fn startup_of(
    base_directory: Seq<char>,
    options: Options,
    current_exe: Seq<char>,
    argv: Seq<Seq<char>>,
) -> StartupView {
    StartupView {
        base_directory,
        no_shortcut: options.no_shortcut,
        hide_window: options.hide_window,
        starter: without_extended_length_mark(current_exe),
        starter_arguments: arguments_after_program(argv),
    }
}

/// A directory or the reason why there is none, as plain values.
pub open spec fn path_result_text(result: Result<String, LaunchError>) -> Result<
    Seq<char>,
    LaunchError,
> {
    match result {
        Ok(path) => Ok(path@),
        Err(cause) => Err(cause),
    }
}

/// The parameters that the options come to for a user whose directory for
/// application data is `user_directory`. A data directory that the options
/// name is taken as it is, whatever the user's directory. Where they name
/// none, the data directory is the default one below the user's directory,
/// without the extended-length mark, and there are no parameters where the
/// user's directory was not found.
pub open spec fn resolved(
    options: Options,
    is_premium: bool,
    user_directory: Result<Seq<char>, LaunchError>,
    current_exe: Seq<char>,
    argv: Seq<Seq<char>>,
) -> Result<StartupView, LaunchError> {
    if options.base_directory@.len() > 0 {
        Ok(startup_of(options.base_directory@, options, current_exe, argv))
    } else {
        match user_directory {
            Ok(directory) => Ok(
                startup_of(
                    without_extended_length_mark(default_base_dir_below(directory, is_premium)),
                    options,
                    current_exe,
                    argv,
                ),
            ),
            Err(cause) => Err(cause),
        }
    }
}

/// Whether `result` stands for `expected`: the same parameters, or the same
/// error.
pub open spec fn is_startup_result(
    result: Result<StartupParameters, LaunchError>,
    expected: Result<StartupView, LaunchError>,
) -> bool {
    match (result, expected) {
        (Ok(parameters), Ok(view)) => parameters@ == view,
        (Err(error), Err(cause)) => error == cause,
        _ => false,
    }
}

/// Tells a handle that a lookup in the runtime has returned from a missing
/// one: zero stands for "not there", and `what` says what was looked for.
pub fn found(handle: usize, what: Missing) -> (result: Result<usize, Missing>)
    ensures
        result == if handle == 0 {
            Err::<usize, Missing>(what)
        } else {
            Ok::<usize, Missing>(handle)
        },
{
    if handle == 0 {
        Err(what)
    } else {
        Ok(handle)
    }
}

/// A value in the form in which it is handed to Java.
#[derive(Debug, PartialEq, Eq)]
pub enum JavaValue {
    /// A string, as UTF-16.
    Text(Vec<u16>),
    /// A boolean, as a number.
    Boolean(u8),
    /// An array of strings.
    TextArray(Vec<Vec<u16>>),
}

/// A `JavaValue` as plain values.
pub ghost enum JavaValueView {
    Text(Seq<u16>),
    Boolean(u8),
    TextArray(Seq<Seq<u16>>),
}

impl View for JavaValue {
    type V = JavaValueView;

    open spec fn view(&self) -> JavaValueView {
        match self {
            JavaValue::Text(units) => JavaValueView::Text(units@),
            JavaValue::Boolean(value) => JavaValueView::Boolean(*value),
            JavaValue::TextArray(items) => JavaValueView::TextArray(items.deep_view()),
        }
    }
}

/// The request to create one Java object: the class, the signature of the
/// constructor, and the constructor's arguments in order.
#[derive(Debug, PartialEq, Eq)]
pub struct JavaObjectRequest {
    pub class_name: &'static str,
    pub constructor_signature: &'static str,
    pub arguments: Vec<JavaValue>,
}

/// The arguments of a request as plain values.
pub open spec fn argument_views(arguments: Seq<JavaValue>) -> Seq<JavaValueView> {
    Seq::new(arguments.len(), |i: int| arguments[i]@)
}

/// What the constructor of the application's parameter class is called with:
/// the data directory, the two flags, the launcher's path and the array of
/// arguments, each text as UTF-16, the arguments in their order.
pub open spec fn constructor_arguments(parameters: StartupView) -> Seq<JavaValueView> {
    seq![
        JavaValueView::Text(utf16(parameters.base_directory)),
        JavaValueView::Boolean(java_boolean_of(parameters.no_shortcut)),
        JavaValueView::Boolean(java_boolean_of(parameters.hide_window)),
        JavaValueView::Text(utf16(parameters.starter)),
        JavaValueView::TextArray(
            Seq::new(
                parameters.starter_arguments.len(),
                |i: int| utf16(parameters.starter_arguments[i]),
            ),
        ),
    ]
}

/// Name of the class of Java strings, the element class of the array of
/// arguments.
pub fn string_class_name() -> (name: &'static str)
    ensures
        name@ == "java/lang/String"@,
{
    "java/lang/String"
}

/// Name under which Java knows a constructor.
pub fn constructor_name() -> (name: &'static str)
    ensures
        name@ == "<init>"@,
{
    "<init>"
}

impl StartupParameters {
    /// The parameters for the data directory `base_directory`: `startup_of`.
    pub fn with_base_directory(
        base_directory: String,
        options: &Options,
        current_exe: &str,
        argv: &Vec<String>,
    ) -> (parameters: StartupParameters)
        ensures
            parameters@ == startup_of(base_directory@, *options, current_exe@, argv.deep_view()),
    {
        let mut starter_arguments: Vec<String> = Vec::new();
        let mut i: usize = 1;
        while i < argv.len()
            invariant
                1 <= i,
                argv.len() >= 1 ==> i <= argv.len(),
                starter_arguments.len() == if i <= argv.len() {
                    i - 1
                } else {
                    0
                },
                i <= argv.len() ==> forall|j: int|
                    0 <= j < i - 1 ==> (#[trigger] starter_arguments[j])@ == argv[j + 1]@,
            decreases argv.len() - i,
        {
            starter_arguments.push(argv[i].clone());
            i = i + 1;
        }
        proof {
            let wanted = arguments_after_program(argv.deep_view());
            assert(starter_arguments.deep_view().len() == wanted.len());
            assert forall|j: int| 0 <= j < wanted.len() implies starter_arguments.deep_view()[j]
                == wanted[j] by {
                assert(starter_arguments.deep_view()[j] == starter_arguments[j]@);
                assert(wanted[j] == argv.deep_view()[j + 1]);
                assert(argv.deep_view()[j + 1] == argv[j + 1]@);
            }
            assert(starter_arguments.deep_view() =~= wanted);
        }
        StartupParameters {
            base_directory,
            no_shortcut: options.no_shortcut,
            hide_window: options.hide_window,
            starter: current_exe.to_string_without_extend_length_mark(),
            starter_arguments,
        }
    }

    /// The parameters for a launcher whose own file is at `current_exe` and
    /// whose command line is `argv`, for a user whose directory for
    /// application data is `user_directory`. The data directory is the one
    /// that the options name. Where they name none it is the default
    /// directory below the user's, without the extended-length mark, and the
    /// parameters cannot be made where the user's directory was not found.
    pub fn resolve(
        options: &Options,
        metadata: &Metadata,
        user_directory: Result<String, LaunchError>,
        current_exe: &str,
        argv: &Vec<String>,
    ) -> (result: Result<StartupParameters, LaunchError>)
        ensures
            is_startup_result(
                result,
                resolved(
                    *options,
                    metadata.is_premium,
                    path_result_text(user_directory),
                    current_exe@,
                    argv.deep_view(),
                ),
            ),
    {
        if options.base_directory.as_str().is_empty() {
            match user_directory {
                Ok(directory) => {
                    let dir = default_base_dir_in(directory.as_str(), metadata);
                    let shown = dir.as_str().to_string_without_extend_length_mark();
                    Ok(StartupParameters::with_base_directory(shown, options, current_exe, argv))
                },
                Err(cause) => Err(cause),
            }
        } else {
            Ok(
                StartupParameters::with_base_directory(
                    options.base_directory.clone(),
                    options,
                    current_exe,
                    argv,
                ),
            )
        }
    }

    /// The parameters for a launcher whose own file is at `current_exe` and
    /// whose command line is `argv`: `resolve`, for the configuration
    /// directory of the current user, whatever the home directory is.
    pub fn new(options: &Options, metadata: &Metadata, current_exe: &str, argv: &Vec<String>) -> (result:
        Result<StartupParameters, LaunchError>)
        ensures
            exists|home: Option<Seq<char>>|
                is_startup_result(
                    result,
                    #[trigger] resolved(
                        *options,
                        metadata.is_premium,
                        config_directory_of(home),
                        current_exe@,
                        argv.deep_view(),
                    ),
                ),
    {
        let directory = current_user_config_directory();
        let ghost home = choose|home: Option<Seq<char>>|
            is_path_result(directory, #[trigger] config_directory_of(home));
        proof {
            assert(path_result_text(directory) == config_directory_of(home));
        }
        StartupParameters::resolve(options, metadata, directory, current_exe, argv)
    }

    /// The request that creates the Java object which carries these
    /// parameters into the application: `constructor_arguments`, for the
    /// constructor of `com/github/kr328/clash/StartupParameters` that takes a
    /// string, two booleans, a string and an array of strings.
    pub fn new_java_object(&self) -> (request: JavaObjectRequest)
        ensures
            request.class_name@ == "com/github/kr328/clash/StartupParameters"@,
            request.constructor_signature@
                == "(Ljava/lang/String;ZZLjava/lang/String;[Ljava/lang/String;)V"@,
            argument_views(request.arguments@) == constructor_arguments(self@),
    {
        let mut array: Vec<Vec<u16>> = Vec::new();
        let mut i: usize = 0;
        while i < self.starter_arguments.len()
            invariant
                i <= self.starter_arguments.len(),
                array.len() == i,
                forall|j: int| 0 <= j < i ==> (#[trigger] array[j])@ == utf16(
                    self.starter_arguments[j]@,
                ),
            decreases self.starter_arguments.len() - i,
        {
            array.push(self.starter_arguments[i].to_java_string());
            i = i + 1;
        }
        let mut arguments: Vec<JavaValue> = Vec::new();
        arguments.push(JavaValue::Text(self.base_directory.to_java_string()));
        arguments.push(JavaValue::Boolean(java_boolean(self.no_shortcut)));
        arguments.push(JavaValue::Boolean(java_boolean(self.hide_window)));
        arguments.push(JavaValue::Text(self.starter.to_java_string()));
        proof {
            let wanted = Seq::new(
                self@.starter_arguments.len(),
                |i: int| utf16(self@.starter_arguments[i]),
            );
            assert forall|j: int| 0 <= j < wanted.len() implies array.deep_view()[j]
                == wanted[j] by {
                assert(array.deep_view()[j] == array[j]@);
                assert(self@.starter_arguments[j] == self.starter_arguments[j]@);
            }
            assert(array.deep_view() =~= wanted);
        }
        arguments.push(JavaValue::TextArray(array));
        assert(argument_views(arguments@) =~= constructor_arguments(self@));
        JavaObjectRequest {
            class_name: "com/github/kr328/clash/StartupParameters",
            constructor_signature: "(Ljava/lang/String;ZZLjava/lang/String;[Ljava/lang/String;)V",
            arguments,
        }
    }
}

/// Nothing is lost on the way into the application. The array that the
/// constructor is called with has one string for each argument, in the
/// arguments' order, and each string decodes to its argument, character for
/// character; the same holds of the data directory and of the launcher's
/// path.
pub proof fn lemma_marshalling_keeps_text(parameters: StartupView)
    ensures
        ({
            let handed = constructor_arguments(parameters);
            &&& handed.len() == 5
            &&& handed[0] matches JavaValueView::Text(units) && utf16_text(units) == Some(
                parameters.base_directory,
            )
            &&& handed[3] matches JavaValueView::Text(units) && utf16_text(units) == Some(
                parameters.starter,
            )
            &&& handed[4] matches JavaValueView::TextArray(array) && array.len()
                == parameters.starter_arguments.len() && forall|i: int|
                0 <= i < array.len() ==> utf16_text(#[trigger] array[i]) == Some(
                    parameters.starter_arguments[i],
                )
        }),
{
    lemma_utf16_round_trip(parameters.base_directory);
    lemma_utf16_round_trip(parameters.starter);
    let array = Seq::new(
        parameters.starter_arguments.len(),
        |i: int| utf16(parameters.starter_arguments[i]),
    );
    assert forall|i: int| 0 <= i < array.len() implies utf16_text(#[trigger] array[i]) == Some(
        parameters.starter_arguments[i],
    ) by {
        lemma_utf16_round_trip(parameters.starter_arguments[i]);
    }
}

} // verus!
