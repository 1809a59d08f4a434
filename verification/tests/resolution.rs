use projector_rust::config::{get_config, get_pwd, Config, Environment, Operation, HOME_VARIABLE};
use projector_rust::error::{Arity, ConfigError, OperationKind};
use projector_rust::opts::Opts;
use std::path::PathBuf;

fn environment() -> Environment {
    Environment {
        home: Some(String::from("/home/user")),
        current_dir: Some(PathBuf::from("/work")),
    }
}

#[test]
fn test_print_all() -> Result<(), ConfigError> {
    let opts: Config = Config::try_from(
        Opts {
            args: vec![],
            pwd: None,
            config: None,
        },
        environment(),
    )?;

    assert_eq!(opts.operation, Operation::Print(None));
    Ok(())
}

#[test]
fn test_print_key() -> Result<(), ConfigError> {
    let opts: Config = Config::try_from(
        Opts {
            args: vec!["foo".to_string()],
            pwd: None,
            config: None,
        },
        environment(),
    )?;

    assert_eq!(opts.operation, Operation::Print(Some(String::from("foo"))));
    Ok(())
}

#[test]
fn test_add_key_value() -> Result<(), ConfigError> {
    let opts: Config = Config::try_from(
        Opts {
            args: vec!["add".to_string(), "foo".to_string(), String::from("bar")],
            pwd: None,
            config: None,
        },
        environment(),
    )?;

    assert_eq!(
        opts.operation,
        Operation::Add(String::from("foo"), String::from("bar"),)
    );
    Ok(())
}

#[test]
fn test_remove_key() -> Result<(), ConfigError> {
    let opts: Config = Config::try_from(
        Opts {
            args: vec!["remove".to_string(), "foo".to_string()],
            pwd: None,
            config: None,
        },
        environment(),
    )?;

    assert_eq!(opts.operation, Operation::Remove(String::from("foo")));
    Ok(())
}

fn options(words: &[&str], config: Option<&str>, pwd: Option<&str>) -> Opts {
    Opts {
        args: words.iter().map(|word| word.to_string()).collect(),
        config: config.map(PathBuf::from),
        pwd: pwd.map(PathBuf::from),
    }
}

#[test]
fn default_store_lies_beneath_the_home_directory() {
    assert_eq!(
        get_config(None, Some(String::from("/home/user"))),
        Ok(PathBuf::from("/home/user/.config/projector/projector.json"))
    );
}

#[test]
fn default_store_is_built_by_pushing_components() {
    let mut expected = PathBuf::from("relative/home/");
    expected.push(".config");
    expected.push("projector");
    expected.push("projector.json");
    assert_eq!(
        get_config(None, Some(String::from("relative/home/"))),
        Ok(expected)
    );
    assert_eq!(
        get_config(None, Some(String::new())),
        Ok(PathBuf::from(".config/projector/projector.json"))
    );
}

#[test]
fn explicit_store_is_used_as_given() {
    assert_eq!(
        get_config(
            Some(PathBuf::from("some/../where.json")),
            Some(String::from("/home/user"))
        ),
        Ok(PathBuf::from("some/../where.json"))
    );
    assert_eq!(
        get_config(Some(PathBuf::from("where.json")), None),
        Ok(PathBuf::from("where.json"))
    );
}

#[test]
fn missing_home_without_explicit_store_is_an_error() {
    assert_eq!(
        get_config(None, None),
        Err(ConfigError::MissingEnvironmentVariable { name: "HOME" })
    );
    assert_eq!(HOME_VARIABLE, "HOME");
}

#[test]
fn explicit_working_directory_is_used_as_given() {
    assert_eq!(
        get_pwd(Some(PathBuf::from("./here")), Some(PathBuf::from("/work"))),
        Ok(PathBuf::from("./here"))
    );
    assert_eq!(
        get_pwd(Some(PathBuf::from("./here")), None),
        Ok(PathBuf::from("./here"))
    );
}

#[test]
fn working_directory_falls_back_to_the_current_one() {
    assert_eq!(
        get_pwd(None, Some(PathBuf::from("/work"))),
        Ok(PathBuf::from("/work"))
    );
}

#[test]
fn unavailable_current_directory_is_an_error() {
    assert_eq!(
        get_pwd(None, None),
        Err(ConfigError::WorkingDirectoryUnavailable)
    );
}

#[test]
fn resolution_fills_all_three_parts() {
    let config = Config::try_from(options(&["add", "foo", "bar"], None, None), environment())
        .expect("resolves");
    assert_eq!(
        config.operation,
        Operation::Add(String::from("foo"), String::from("bar"))
    );
    assert_eq!(
        config.config,
        PathBuf::from("/home/user/.config/projector/projector.json")
    );
    assert_eq!(config.pwd, PathBuf::from("/work"));
}

#[test]
fn explicit_paths_win_over_the_environment() {
    let config = Config::try_from(
        options(&["foo"], Some("/etc/store.json"), Some("/srv")),
        environment(),
    )
    .expect("resolves");
    assert_eq!(config.operation, Operation::Print(Some(String::from("foo"))));
    assert_eq!(config.config, PathBuf::from("/etc/store.json"));
    assert_eq!(config.pwd, PathBuf::from("/srv"));
}

#[test]
fn explicit_paths_need_no_environment() {
    let nothing = Environment {
        home: None,
        current_dir: None,
    };
    let config = Config::try_from(options(&[], Some("store.json"), Some(".")), nothing)
        .expect("resolves");
    assert_eq!(config.operation, Operation::Print(None));
    assert_eq!(config.config, PathBuf::from("store.json"));
    assert_eq!(config.pwd, PathBuf::from("."));
}

#[test]
fn unset_home_fails_resolution() {
    let without_home = Environment {
        home: None,
        current_dir: Some(PathBuf::from("/work")),
    };
    let error = Config::try_from(options(&["foo"], None, None), without_home)
        .expect_err("fails");
    assert_eq!(error, ConfigError::MissingEnvironmentVariable { name: "HOME" });
}

#[test]
fn unavailable_directory_fails_resolution() {
    let without_directory = Environment {
        home: Some(String::from("/home/user")),
        current_dir: None,
    };
    let error = Config::try_from(options(&["foo"], None, None), without_directory)
        .expect_err("fails");
    assert_eq!(error, ConfigError::WorkingDirectoryUnavailable);
}

#[test]
fn first_failure_in_order_is_reported() {
    let nothing = Environment {
        home: None,
        current_dir: None,
    };
    let error =
        Config::try_from(options(&["add", "foo"], None, None), nothing).expect_err("fails");
    assert_eq!(
        error,
        ConfigError::ArgumentCountMismatch {
            operation: OperationKind::Add,
            expected: Arity { least: 2, most: 2 },
            actual: 1,
        }
    );
    let nothing = Environment {
        home: None,
        current_dir: None,
    };
    let error = Config::try_from(options(&["foo"], None, None), nothing).expect_err("fails");
    assert_eq!(error, ConfigError::MissingEnvironmentVariable { name: "HOME" });
}

#[test]
fn same_inputs_resolve_the_same() {
    let first = Config::try_from(options(&["remove", "foo"], None, Some("/srv")), environment())
        .expect("resolves");
    let second = Config::try_from(options(&["remove", "foo"], None, Some("/srv")), environment())
        .expect("resolves");
    assert_eq!(first.operation, second.operation);
    assert_eq!(first.config, second.config);
    assert_eq!(first.pwd, second.pwd);
}
