use diskdestroyer::buffer::DataType;
use diskdestroyer::config::{is_valid_int, Config, ConfigError, DEFAULT_BLOCK_SIZE};

fn targets(names: &[&str]) -> Vec<String> {
    names.iter().map(|s| s.to_string()).collect()
}

#[test]
fn valid_ints_are_accepted() {
    assert_eq!(is_valid_int("0"), Ok(()));
    assert_eq!(is_valid_int("1024"), Ok(()));
    assert_eq!(is_valid_int("+8"), Ok(()));
    assert_eq!(is_valid_int("18446744073709551615"), Ok(()));
}

#[test]
fn invalid_ints_are_refused() {
    for s in ["", "+", "-1", "abc", "12a", " 4", "4 ", "1_000", "18446744073709551616"] {
        assert!(is_valid_int(s).is_err(), "{} should be refused", s);
    }
    assert!(!is_valid_int("x").unwrap_err().is_empty());
}

#[test]
fn defaults_are_applied() {
    let c = Config::resolve(false, None, None, 6, targets(&["/dev/a"])).unwrap();
    assert_eq!(c.data_type, DataType::Random);
    assert_eq!(c.block_size, 1024);
    assert_eq!(DEFAULT_BLOCK_SIZE, 1024);
    assert_eq!(c.threads, 6);
    assert_eq!(c.targets, targets(&["/dev/a"]));
}

#[test]
fn given_values_are_used() {
    let c = Config::resolve(true, Some("3"), Some("4096"), 6, targets(&["a", "b"])).unwrap();
    assert_eq!(c.data_type, DataType::Zeroes);
    assert_eq!(c.block_size, 4096);
    assert_eq!(c.threads, 3);
    assert_eq!(c.targets, targets(&["a", "b"]));
}

#[test]
fn each_config_error_has_its_input() {
    assert_eq!(
        Config::resolve(false, None, None, 2, Vec::new()).err(),
        Some(ConfigError::NoTargets)
    );
    assert!(matches!(
        Config::resolve(false, Some("two"), None, 2, targets(&["a"])),
        Err(ConfigError::InvalidThreads(_))
    ));
    assert_eq!(
        Config::resolve(false, Some("0"), None, 2, targets(&["a"])).err(),
        Some(ConfigError::ZeroThreads)
    );
    assert_eq!(
        Config::resolve(false, None, None, 0, targets(&["a"])).err(),
        Some(ConfigError::ZeroThreads)
    );
    assert!(matches!(
        Config::resolve(false, Some("2"), Some("1k"), 2, targets(&["a"])),
        Err(ConfigError::InvalidBlockSize(_))
    ));
}

#[test]
fn host_default_has_at_least_one_thread() {
    let c = Config::from_args(false, None, None, targets(&["a"])).unwrap();
    assert!(c.threads >= 1);
    assert_eq!(c.block_size, 1024);
}
