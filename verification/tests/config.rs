//! Configuration: the store, the `$`-expansion, the file grammar, and
//! quantities with units.

use gnunet::configuration::Cfg;
use gnunet::configuration::CfgExpandDollarError;
use gnunet::configuration::CfgGetIntError;
use gnunet::util::config::classify_line;
use gnunet::util::config::Config;
use gnunet::util::config::ConfigExpandDollarError;
use gnunet::util::config::ConfigLine;
use gnunet::util::strings::parse_quantity_with_units;
use gnunet::util::strings::ParseQuantityWithUnitsError;
use gnunet::util::time::Absolute;
use gnunet::util::time::Relative;
use std::str::FromStr;

#[test]
fn test_expand_dollar() {
    let mut cfg = Cfg::empty();

    let res = cfg.set_string("PATHS", "IN_PATHS", String::from("in_paths"));
    assert!(res.is_none());
    cfg.set_env_var("IN_ENV", String::from("in_env"));

    let unexpanded = "foo $IN_PATHS $IN_ENV ${NOT_ANYWHERE:-${IN_ENV}_wub}_blah";
    let expanded = cfg.expand_dollar(unexpanded).unwrap();
    assert_eq!(expanded, "foo in_paths in_env in_env_wub_blah");
}

#[test]
fn config_test_expand_dollar() {
    let mut cfg = Config::empty();

    let res = cfg.set_string("PATHS", "IN_PATHS", String::from("in_paths"));
    assert!(res.is_none());
    cfg.set_env_var("IN_ENV", String::from("in_env"));

    let unexpanded = "foo $IN_PATHS $IN_ENV ${NOT_ANYWHERE:-${IN_ENV}_wub}_blah";
    let expanded = cfg.expand_dollar(unexpanded).unwrap();
    assert_eq!(expanded, "foo in_paths in_env in_env_wub_blah");
}

#[test]
fn expansion_errors() {
    let cfg = Config::empty();
    match cfg.expand_dollar("tail $") {
        Err(ConfigExpandDollarError::Syntax { pos }) => assert_eq!(pos, 6),
        _ => panic!("a trailing dollar is a syntax error"),
    }
    match cfg.expand_dollar("${NAME") {
        Err(ConfigExpandDollarError::UnclosedBraces) => {}
        _ => panic!("an unclosed brace must be reported"),
    }
    match cfg.expand_dollar("$NOPE") {
        Err(ConfigExpandDollarError::UnknownVariable { var_name }) => {
            assert_eq!(var_name, "NOPE")
        }
        _ => panic!("an undefined variable must be reported"),
    }
    let mut cyclic = Config::empty();
    cyclic.set_string("PATHS", "A", String::from("$A"));
    match cyclic.expand_dollar("$A") {
        Err(ConfigExpandDollarError::ExpansionDepth) => {}
        _ => panic!("a cyclic definition must hit the depth limit"),
    }
}

#[test]
fn expansion_defaults() {
    let mut cfg = Config::empty();
    cfg.set_string("PATHS", "HOME_DIR", String::from("/home/u"));
    assert_eq!(cfg.expand_dollar("${HOME_DIR:-/tmp}/x").unwrap(), "/home/u/x");
    assert_eq!(cfg.expand_dollar("${NOWHERE:-/tmp}/x").unwrap(), "/tmp/x");
    assert_eq!(cfg.expand_dollar("plain text").unwrap(), "plain text");
}

#[test]
fn store_and_get() {
    let mut cfg = Config::empty();
    assert!(cfg.set_string("gns", "PORT", String::from("2086")).is_none());
    let prev = cfg.set_string("gns", "PORT", String::from("2087"));
    assert_eq!(prev, Some(String::from("2086")));
    assert_eq!(cfg.get_int("gns", "PORT").unwrap(), 2087);
    match cfg.get_int("dht", "PORT") {
        Err(gnunet::util::config::ConfigGetIntError::NoSection) => {}
        _ => panic!("an unknown section must be reported as such"),
    }
    match cfg.get_int("gns", "NOPE") {
        Err(gnunet::util::config::ConfigGetIntError::NoKey) => {}
        _ => panic!("an unknown key must be reported as such"),
    }
    cfg.set_string("gns", "BAD", String::from("many"));
    assert!(matches!(
        cfg.get_int("gns", "BAD"),
        Err(gnunet::util::config::ConfigGetIntError::Parse { .. })
    ));
}

#[test]
fn cfg_mirrors_config() {
    let mut cfg = Cfg::empty();
    cfg.set_string("transport", "TIMEOUT", String::from("3 min 10 s"));
    let t = cfg.get_relative_time("transport", "TIMEOUT").unwrap();
    assert_eq!(t.as_micros(), 190_000_000);
    match cfg.get_int("transport", "TIMEOUT") {
        Err(CfgGetIntError::Parse { .. }) => {}
        _ => panic!("a quantity with units is not an integer"),
    }
    cfg.set_string("gns", "UNIXPATH", String::from("$NOPE"));
    match cfg.get_filename("gns", "UNIXPATH") {
        Err(gnunet::configuration::CfgGetFilenameError::ExpandDollar {
            source: CfgExpandDollarError::UnknownVariable { .. },
        }) => {}
        _ => panic!("an unexpandable path must be reported"),
    }
}

#[test]
fn filename_expansion() {
    let mut cfg = Config::empty();
    cfg.set_string("PATHS", "RUNDIR", String::from("/run/user"));
    cfg.set_string("gns", "UNIXPATH", String::from("${RUNDIR}/gns.sock"));
    assert_eq!(cfg.get_filename("gns", "UNIXPATH").unwrap(), "/run/user/gns.sock");
}

#[test]
fn merge_prefers_the_newer_value() {
    let mut base = Config::empty();
    base.set_string("gns", "PORT", String::from("1"));
    base.set_string("gns", "KEEP", String::from("yes"));
    let mut over = Config::empty();
    over.set_string("gns", "PORT", String::from("2"));
    over.set_string("dht", "PORT", String::from("3"));
    base.merge(over);
    assert_eq!(base.get_int("gns", "PORT").unwrap(), 2);
    assert_eq!(base.get_int("dht", "PORT").unwrap(), 3);
    assert_eq!(base.get("gns", "KEEP"), Some(&String::from("yes")));
}

#[test]
fn line_grammar() {
    assert!(matches!(classify_line("   "), ConfigLine::Blank));
    assert!(matches!(classify_line("# note"), ConfigLine::Comment));
    assert!(matches!(classify_line("% note"), ConfigLine::Comment));
    match classify_line(" [gns] ") {
        ConfigLine::Section { name } => assert_eq!(name, "gns"),
        _ => panic!("a bracketed line opens a section"),
    }
    match classify_line("PORT = 2086 ") {
        ConfigLine::KeyValue { key, value } => {
            assert_eq!(key, "PORT");
            assert_eq!(value, "2086");
        }
        _ => panic!("a line with an equals sign stores an entry"),
    }
    match classify_line("A=b=c") {
        ConfigLine::KeyValue { key, value } => {
            assert_eq!(key, "A=b");
            assert_eq!(value, "c");
        }
        _ => panic!("the split is at the last equals sign"),
    }
    match classify_line("@INLINE@ other.conf") {
        ConfigLine::Inline { filename } => assert_eq!(filename, "other.conf"),
        _ => panic!("the inline directive names a file"),
    }
    assert!(matches!(classify_line("no entry here"), ConfigLine::Bad));
    assert!(matches!(classify_line("=value"), ConfigLine::Bad));
}

#[test]
fn from_str_works() {
    let r = Relative::from_str(" 3   min  10 s   ");
    assert_eq!(r.unwrap().as_micros(), 190_000_000);
}

#[test]
#[should_panic]
fn parse_invalid_unit() {
    Relative::from_str("3 balls").unwrap();
}

#[test]
#[should_panic]
fn parse_no_unit() {
    Relative::from_str("12").unwrap();
}

#[test]
#[should_panic]
fn parse_empty_string() {
    Relative::from_str("").unwrap();
}

#[test]
#[should_panic]
fn empty_string() {
    Relative::from_str("").unwrap();
}

#[test]
#[should_panic]
fn parse_no_coefficient() {
    Relative::from_str("days").unwrap();
}

#[test]
fn quantity_error_variants() {
    let units: Vec<(&str, u64)> = vec![("s", 1_000_000), ("ms", 1000)];
    assert_eq!(parse_quantity_with_units("2 s 5 ms", &units).unwrap(), 2_005_000);
    assert!(matches!(
        parse_quantity_with_units("   ", &units),
        Err(ParseQuantityWithUnitsError::EmptyString)
    ));
    // Any all-whitespace input counts as empty, tabs included.
    assert!(matches!(
        parse_quantity_with_units("\t \t", &units),
        Err(ParseQuantityWithUnitsError::EmptyString)
    ));
    assert!(matches!(
        parse_quantity_with_units("x s", &units),
        Err(ParseQuantityWithUnitsError::ParseInt { .. })
    ));
    assert!(matches!(
        parse_quantity_with_units("5", &units),
        Err(ParseQuantityWithUnitsError::MissingUnit)
    ));
    match parse_quantity_with_units("5 parsecs", &units) {
        Err(ParseQuantityWithUnitsError::NoSuchUnit { unit }) => assert_eq!(unit, "parsecs"),
        _ => panic!("an unknown unit must be named"),
    }
}

#[test]
fn decimal_parsing() {
    let mut cfg = Config::empty();
    cfg.set_string("n", "A", String::from("123"));
    cfg.set_string("n", "B", String::from("+42"));
    cfg.set_string("n", "C", String::from("abc"));
    cfg.set_string("n", "D", String::from(""));
    cfg.set_string("n", "E", String::from("99999999999999999999"));
    assert_eq!(cfg.get_int("n", "A").unwrap(), 123);
    assert_eq!(cfg.get_int("n", "B").unwrap(), 42);
    assert!(cfg.get_int("n", "C").is_err());
    assert!(cfg.get_int("n", "D").is_err());
    assert!(cfg.get_int("n", "E").is_err());
}

#[test]
fn absolute_time() {
    assert!(Absolute::forever().is_forever());
    assert!(!Absolute::from_micros(5).is_forever());
    assert_eq!(Absolute::from_micros(5).micros(), 5);
}
