//! From raw options to a resolved configuration.
use crate::error::{Arity, ConfigError, OperationKind};
use crate::opts::Opts;
use crate::path::{path_from_string, path_of, push_component, pushed};
use std::path::PathBuf;
use vstd::prelude::*;
use vstd::std_specs::cmp::PartialEqSpecImpl;
use vstd::std_specs::convert::TryFromSpecImpl;

verus! {

/// What the invocation asks of the store.
#[derive(Debug)]
pub enum Operation {
    /// Print the value of one key, or every pair where no key is given.
    Print(Option<String>),
    /// Insert a key with a value, overwriting what the key held.
    Add(String, String),
    /// Delete a key.
    Remove(String),
}

/// An operation as text: the same three forms over character sequences.
pub enum OperationView {
    Print(Option<Seq<char>>),
    Add(Seq<char>, Seq<char>),
    Remove(Seq<char>),
}

impl View for Operation {
    type V = OperationView;

    open spec fn view(&self) -> OperationView {
        match *self {
            Operation::Print(None) => OperationView::Print(None),
            Operation::Print(Some(key)) => OperationView::Print(Some(key@)),
            Operation::Add(key, value) => OperationView::Add(key@, value@),
            Operation::Remove(key) => OperationView::Remove(key@),
        }
    }
}

impl PartialEqSpecImpl for Operation {
    open spec fn obeys_eq_spec() -> bool {
        true
    }

    open spec fn eq_spec(&self, other: &Operation) -> bool {
        self@ == other@
    }
}

impl PartialEq for Operation {
    /// Two operations are equal where they have the same form and the same
    /// text in every place.
    fn eq(&self, other: &Operation) -> (equal: bool) {
        match (self, other) {
            (Operation::Print(None), Operation::Print(None)) => true,
            (Operation::Print(Some(key)), Operation::Print(Some(other_key))) => *key == *other_key,
            (Operation::Add(key, value), Operation::Add(other_key, other_value)) => {
                *key == *other_key && *value == *other_value
            },
            (Operation::Remove(key), Operation::Remove(other_key)) => *key == *other_key,
            _ => false,
        }
    }
}

/// The operation that a token sequence stands for.
///
/// No token at all prints everything. Otherwise the first token selects the
/// kind, and the number of tokens after it must fit: two for `add` (key,
/// then value), one for `remove` (the key), none for the print form, whose
/// first token is itself the key. A sequence that does not fit is a
/// mismatch that reports the number of tokens after the first.
pub open spec fn classify(tokens: Seq<String>) -> Result<Operation, ConfigError> {
    if tokens.len() == 0 {
        Ok(Operation::Print(None))
    } else {
        match OperationKind::of_verb(tokens[0]@) {
            OperationKind::Add => if tokens.len() == 3 {
                Ok(Operation::Add(tokens[1], tokens[2]))
            } else {
                Err(ConfigError::spec_mismatch(OperationKind::Add, tokens.len() - 1))
            },
            OperationKind::Remove => if tokens.len() == 2 {
                Ok(Operation::Remove(tokens[1]))
            } else {
                Err(ConfigError::spec_mismatch(OperationKind::Remove, tokens.len() - 1))
            },
            OperationKind::Print => if tokens.len() == 1 {
                Ok(Operation::Print(Some(tokens[0])))
            } else {
                Err(ConfigError::spec_mismatch(OperationKind::Print, tokens.len() - 1))
            },
        }
    }
}

/// No token at all asks for every pair to be printed.
pub proof fn lemma_no_token_prints_all(tokens: Vec<String>)
    requires
        tokens@.len() == 0,
    ensures
        classify(tokens@) == Ok::<Operation, ConfigError>(Operation::Print(None)),
{
}

/// A single token that is neither verb is the key to print.
pub proof fn lemma_single_token_prints_key(tokens: Vec<String>)
    requires
        tokens@.len() == 1,
        tokens@[0]@ != "add"@,
        tokens@[0]@ != "remove"@,
    ensures
        classify(tokens@) == Ok::<Operation, ConfigError>(Operation::Print(Some(tokens@[0]))),
{
}

/// The verb `add` followed by two tokens adds the first as key with the
/// second as value, whatever the two tokens are.
pub proof fn lemma_add_takes_key_and_value(tokens: Vec<String>)
    requires
        tokens@.len() == 3,
        tokens@[0]@ == "add"@,
    ensures
        classify(tokens@) == Ok::<Operation, ConfigError>(Operation::Add(tokens@[1], tokens@[2])),
{
}

/// The verb `add` followed by any other number of tokens is a mismatch
/// that expects two arguments and reports the number that followed.
pub proof fn lemma_add_miscounted(tokens: Vec<String>)
    requires
        tokens@.len() >= 1,
        tokens@.len() != 3,
        tokens@[0]@ == "add"@,
    ensures
        classify(tokens@) == Err::<Operation, ConfigError>(
            ConfigError::ArgumentCountMismatch {
                operation: OperationKind::Add,
                expected: Arity { least: 2, most: 2 },
                actual: (tokens@.len() - 1) as usize,
            },
        ),
{
}

/// The verb `remove` followed by one token removes that key.
pub proof fn lemma_remove_takes_key(tokens: Vec<String>)
    requires
        tokens@.len() == 2,
        tokens@[0]@ == "remove"@,
    ensures
        classify(tokens@) == Ok::<Operation, ConfigError>(Operation::Remove(tokens@[1])),
{
    lemma_verbs_differ();
}

/// The verb `remove` followed by any other number of tokens is a mismatch
/// that expects one argument and reports the number that followed.
pub proof fn lemma_remove_miscounted(tokens: Vec<String>)
    requires
        tokens@.len() >= 1,
        tokens@.len() != 2,
        tokens@[0]@ == "remove"@,
    ensures
        classify(tokens@) == Err::<Operation, ConfigError>(
            ConfigError::ArgumentCountMismatch {
                operation: OperationKind::Remove,
                expected: Arity { least: 1, most: 1 },
                actual: (tokens@.len() - 1) as usize,
            },
        ),
{
    lemma_verbs_differ();
}

/// Several tokens of which the first is neither verb are a mismatch of the
/// print form, which expects at most one argument and reports the number of
/// tokens after the first.
pub proof fn lemma_print_miscounted(tokens: Vec<String>)
    requires
        tokens@.len() > 1,
        tokens@[0]@ != "add"@,
        tokens@[0]@ != "remove"@,
    ensures
        classify(tokens@) == Err::<Operation, ConfigError>(
            ConfigError::ArgumentCountMismatch {
                operation: OperationKind::Print,
                expected: Arity { least: 0, most: 1 },
                actual: (tokens@.len() - 1) as usize,
            },
        ),
{
}

/// The two verbs are different words.
pub proof fn lemma_verbs_differ()
    ensures
        "add"@ != "remove"@,
{
    reveal_strlit("add");
    reveal_strlit("remove");
    assert("add"@.len() == 3);
    assert("remove"@.len() == 6);
}

/// Whether two token sequences read the same: as many tokens, with the same
/// text in each place.
pub open spec fn same_tokens(first: Seq<String>, second: Seq<String>) -> bool {
    &&& first.len() == second.len()
    &&& forall|i: int| 0 <= i < first.len() ==> (#[trigger] first[i])@ == second[i]@
}

/// Whether two outcomes of classification read the same: equal operations,
/// or the same error.
pub open spec fn same_operation(
    first: Result<Operation, ConfigError>,
    second: Result<Operation, ConfigError>,
) -> bool {
    match (first, second) {
        (Ok(first), Ok(second)) => first@ == second@,
        (Err(first), Err(second)) => first == second,
        _ => false,
    }
}

/// Classification is decided by the text of the tokens alone: token
/// sequences that read the same are classified the same.
pub proof fn lemma_classification_is_deterministic(first: Vec<String>, second: Vec<String>)
    requires
        same_tokens(first@, second@),
    ensures
        same_operation(classify(first@), classify(second@)),
{
    if first@.len() > 0 {
        assert(first@[0]@ == second@[0]@);
    }
    if first@.len() > 1 {
        assert(first@[1]@ == second@[1]@);
    }
    if first@.len() > 2 {
        assert(first@[2]@ == second@[2]@);
    }
}

impl TryFromSpecImpl<Vec<String>> for Operation {
    open spec fn obeys_try_from_spec() -> bool {
        true
    }

    open spec fn try_from_spec(value: Vec<String>) -> Result<Operation, ConfigError> {
        classify(value@)
    }
}

impl TryFrom<Vec<String>> for Operation {
    type Error = ConfigError;

    /// Classifies the positional tokens of a command line. The strings of
    /// the operation are the very tokens handed in, moved and not copied.
    fn try_from(value: Vec<String>) -> (result: Result<Operation, ConfigError>)
        ensures
            result == classify(value@),
    {
        let mut value = value;
        let count = value.len();
        if count == 0 {
            return Ok(Operation::Print(None));
        }
        let kind = OperationKind::from_verb(&value[0]);
        let supplied = count - 1;
        match kind {
            OperationKind::Add => {
                if count != 3 {
                    return Err(ConfigError::mismatch(kind, supplied));
                }
                let new_value = value.pop().unwrap();
                let key = value.pop().unwrap();
                Ok(Operation::Add(key, new_value))
            },
            OperationKind::Remove => {
                if count != 2 {
                    return Err(ConfigError::mismatch(kind, supplied));
                }
                let key = value.pop().unwrap();
                Ok(Operation::Remove(key))
            },
            OperationKind::Print => {
                if count != 1 {
                    return Err(ConfigError::mismatch(kind, supplied));
                }
                let key = value.pop().unwrap();
                Ok(Operation::Print(Some(key)))
            },
        }
    }
}

/// What the process environment offers to fall back on, read once by the
/// caller and handed in as plain values.
#[derive(Debug)]
pub struct Environment {
    /// The value of the variable `HOME`, where it is set and readable.
    pub home: Option<String>,
    /// The current directory of the process, where it can be told.
    pub current_dir: Option<PathBuf>,
}

/// A command line resolved: the operation, the directory it runs in, and
/// the file that holds the store.
#[derive(Debug)]
pub struct Config {
    pub operation: Operation,
    pub pwd: PathBuf,
    pub config: PathBuf,
}

/// The variable that holds the directory under which the default store
/// lives.
pub const HOME_VARIABLE: &'static str = "HOME";

/// The default path of the store for a home directory:
/// `.config`, `projector` and `projector.json` pushed onto it in turn.
pub open spec fn default_config_path(home: Seq<char>) -> PathBuf {
    pushed(pushed(pushed(path_of(home), ".config"@), "projector"@), "projector.json"@)
}

/// The path of the store: the explicit one as it was given, else the
/// default beneath the home directory, else an error that names the
/// variable that was missing.
pub open spec fn config_path(explicit: Option<PathBuf>, home: Option<String>) -> Result<
    PathBuf,
    ConfigError,
> {
    match explicit {
        Some(path) => Ok(path),
        None => match home {
            Some(home) => Ok(default_config_path(home@)),
            None => Err(ConfigError::MissingEnvironmentVariable { name: HOME_VARIABLE }),
        },
    }
}

/// The working directory: the explicit one as it was given, else the
/// current directory of the process, else an error.
pub open spec fn working_directory(
    explicit: Option<PathBuf>,
    current_dir: Option<PathBuf>,
) -> Result<PathBuf, ConfigError> {
    match explicit {
        Some(path) => Ok(path),
        None => match current_dir {
            Some(path) => Ok(path),
            None => Err(ConfigError::WorkingDirectoryUnavailable),
        },
    }
}

/// The outcome of resolving raw options against an environment. The three
/// parts are settled in the order operation, store, working directory, and
/// the first failure is the outcome.
pub open spec fn resolve(opts: Opts, environment: Environment) -> Result<Config, ConfigError> {
    match classify(opts.args@) {
        Err(error) => Err(error),
        Ok(operation) => match config_path(opts.config, environment.home) {
            Err(error) => Err(error),
            Ok(config) => match working_directory(opts.pwd, environment.current_dir) {
                Err(error) => Err(error),
                Ok(pwd) => Ok(Config { operation, pwd, config }),
            },
        },
    }
}

/// Whether two captured command lines read the same: the same tokens and
/// the same explicit paths.
pub open spec fn same_options(first: Opts, second: Opts) -> bool {
    &&& same_tokens(first.args@, second.args@)
    &&& first.config == second.config
    &&& first.pwd == second.pwd
}

/// Whether two environments offer the same: the same text for the home
/// directory, or none in both, and the same current directory.
pub open spec fn same_environment(first: Environment, second: Environment) -> bool {
    &&& match (first.home, second.home) {
        (Some(first), Some(second)) => first@ == second@,
        (None, None) => true,
        _ => false,
    }
    &&& first.current_dir == second.current_dir
}

/// Whether two outcomes of resolution read the same: equal operations with
/// the same two paths, or the same error.
pub open spec fn same_outcome(
    first: Result<Config, ConfigError>,
    second: Result<Config, ConfigError>,
) -> bool {
    match (first, second) {
        (Ok(first), Ok(second)) => {
            &&& first.operation@ == second.operation@
            &&& first.pwd == second.pwd
            &&& first.config == second.config
        },
        (Err(first), Err(second)) => first == second,
        _ => false,
    }
}

/// Resolution is decided by what its inputs read alone: the same command
/// line in the same environment resolves to the same configuration, or
/// fails with the same error.
pub proof fn lemma_resolution_is_deterministic(
    first: Opts,
    first_environment: Environment,
    second: Opts,
    second_environment: Environment,
)
    requires
        same_options(first, second),
        same_environment(first_environment, second_environment),
    ensures
        same_outcome(resolve(first, first_environment), resolve(second, second_environment)),
{
    lemma_classification_is_deterministic(first.args, second.args);
}

/// Settles the path of the store.
pub fn get_config(config: Option<PathBuf>, home: Option<String>) -> (result: Result<
    PathBuf,
    ConfigError,
>)
    ensures
        result == config_path(config, home),
{
    if let Some(path) = config {
        return Ok(path);
    }
    match home {
        Some(home) => {
            let mut location = path_from_string(home);
            push_component(&mut location, ".config");
            push_component(&mut location, "projector");
            push_component(&mut location, "projector.json");
            Ok(location)
        },
        None => Err(ConfigError::MissingEnvironmentVariable { name: HOME_VARIABLE }),
    }
}

/// Settles the working directory.
pub fn get_pwd(pwd: Option<PathBuf>, current_dir: Option<PathBuf>) -> (result: Result<
    PathBuf,
    ConfigError,
>)
    ensures
        result == working_directory(pwd, current_dir),
{
    if let Some(path) = pwd {
        return Ok(path);
    }
    match current_dir {
        Some(path) => Ok(path),
        None => Err(ConfigError::WorkingDirectoryUnavailable),
    }
}

impl Config {
    /// Resolves raw options against what the environment offers.
    pub fn try_from(value: Opts, environment: Environment) -> (result: Result<Config, ConfigError>)
        ensures
            result == resolve(value, environment),
    {
        let operation = match Operation::try_from(value.args) {
            Ok(operation) => operation,
            Err(error) => return Err(error),
        };
        let config = match get_config(value.config, environment.home) {
            Ok(config) => config,
            Err(error) => return Err(error),
        };
        let pwd = match get_pwd(value.pwd, environment.current_dir) {
            Ok(pwd) => pwd,
            Err(error) => return Err(error),
        };
        Ok(Config { operation, pwd, config })
    }
}

} // verus!
