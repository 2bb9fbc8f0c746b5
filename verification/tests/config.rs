use yprox::cli::{address_text, parse_target, Target};
use yprox::config::{
    auto_name, backends_from, entries_from, parse, split_backend, Args, Backends, Config,
    ConfigError, Plan,
};
use yprox::endpoint::Endpoint;
use yprox::text::{chars_of, decimal_digits, find, slice};

fn addr(port: u16) -> Endpoint {
    Endpoint::v4(0x7f00_0001, port)
}

fn listing(config: &Config) -> Vec<(String, Endpoint)> {
    config.backends().into_iter().collect()
}

#[test]
fn text_is_taken_apart_by_characters() {
    assert_eq!(chars_of("a=b"), vec!['a', '=', 'b']);
    assert_eq!(chars_of(""), Vec::<char>::new());
    assert_eq!(chars_of("é=ü"), vec!['é', '=', 'ü']);
    assert_eq!(find(&chars_of("a=b=c"), '='), 1);
    assert_eq!(find(&chars_of("abc"), '='), 3);
    assert_eq!(find(&chars_of(""), '='), 0);
    assert_eq!(slice(&chars_of("hello"), 1, 3), vec!['e', 'l']);
    assert_eq!(slice(&chars_of("hello"), 2, 2), Vec::<char>::new());
}

#[test]
fn numbers_are_written_in_decimal() {
    assert_eq!(decimal_digits(0), vec!['0']);
    assert_eq!(decimal_digits(7), vec!['7']);
    assert_eq!(decimal_digits(10), vec!['1', '0']);
    assert_eq!(decimal_digits(1234567890), chars_of("1234567890"));
    assert_eq!(decimal_digits(usize::MAX), chars_of(&usize::MAX.to_string()));
}

#[test]
fn backends_without_a_name_are_named_by_position() {
    assert_eq!(auto_name(0), "backend1");
    assert_eq!(auto_name(1), "backend2");
    assert_eq!(auto_name(9), "backend10");
    assert_eq!(auto_name(98), "backend99");
}

#[test]
fn a_backend_is_split_at_its_first_equals_sign() {
    let named = split_backend("main=127.0.0.1:8081");
    assert_eq!(named.name, Some("main".to_string()));
    assert_eq!(named.addr, "127.0.0.1:8081");
    let anon = split_backend("127.0.0.1:8081");
    assert_eq!(anon.name, None);
    assert_eq!(anon.addr, "127.0.0.1:8081");
    let twice = split_backend("a=b=c");
    assert_eq!(twice.name, Some("a".to_string()));
    assert_eq!(twice.addr, "b=c");
    let empty_name = split_backend("=x");
    assert_eq!(empty_name.name, Some(String::new()));
    assert_eq!(empty_name.addr, "x");
    let empty_addr = split_backend("x=");
    assert_eq!(empty_addr.name, Some("x".to_string()));
    assert_eq!(empty_addr.addr, "");
    let nothing = split_backend("");
    assert_eq!(nothing.name, None);
    assert_eq!(nothing.addr, "");
}

#[test]
fn entries_hold_each_name_and_address() {
    let backends = vec![
        "main=127.0.0.1:1".to_string(),
        "127.0.0.1:2".to_string(),
        "a=b=c".to_string(),
        "=x".to_string(),
    ];
    let addrs = vec![addr(1), addr(2), addr(3), addr(4)];
    assert_eq!(
        entries_from(&backends, &addrs),
        vec![
            (Some("main".to_string()), addr(1)),
            (None, addr(2)),
            (Some("a".to_string()), addr(3)),
            (Some(String::new()), addr(4)),
        ]
    );
    assert!(entries_from(&vec![], &vec![]).is_empty());
}

#[test]
fn backends_without_names_stay_anonymous() {
    match backends_from(vec![(None, addr(1)), (None, addr(2))]) {
        Ok(Backends::Anon(addrs)) => assert_eq!(addrs, vec![addr(1), addr(2)]),
        _ => panic!("expected anonymous backends"),
    }
    match backends_from(vec![]) {
        Ok(Backends::Anon(addrs)) => assert!(addrs.is_empty()),
        _ => panic!("expected anonymous backends"),
    }
}

#[test]
fn one_name_makes_all_backends_named() {
    let entries = vec![
        (None, addr(1)),
        (Some("main".to_string()), addr(2)),
        (None, addr(3)),
    ];
    match backends_from(entries) {
        Ok(Backends::Named(map)) => {
            let list: Vec<(String, Endpoint)> = map.into_iter().collect();
            assert_eq!(
                list,
                vec![
                    ("backend1".to_string(), addr(1)),
                    ("main".to_string(), addr(2)),
                    ("backend3".to_string(), addr(3)),
                ]
            );
        }
        _ => panic!("expected named backends"),
    }
}

#[test]
fn a_name_that_occurs_twice_is_an_error() {
    let twice = vec![
        (Some("a".to_string()), addr(1)),
        (Some("b".to_string()), addr(2)),
        (Some("a".to_string()), addr(3)),
    ];
    match backends_from(twice) {
        Err(ConfigError::DuplicateBackend(name)) => assert_eq!(name, "a"),
        _ => panic!("expected a duplicate"),
    }
    let collides_with_position = vec![(Some("backend2".to_string()), addr(1)), (None, addr(2))];
    match backends_from(collides_with_position) {
        Err(ConfigError::DuplicateBackend(name)) => assert_eq!(name, "backend2"),
        _ => panic!("expected a duplicate"),
    }
}

#[test]
fn a_configuration_file_wins_over_everything() {
    let args = Args {
        config: Some("my.toml".to_string()),
        bind: Some(addr(1)),
        backend: Some(vec!["127.0.0.1:2".to_string()]),
        default: None,
    };
    match parse(args, true) {
        Ok(Plan::Load(path)) => assert_eq!(path, "my.toml"),
        other => panic!("unexpected: {:?}", other),
    }
}

#[test]
fn the_default_file_is_used_when_nothing_else_is_given() {
    let args = Args { config: None, bind: None, backend: None, default: None };
    match parse(args, true) {
        Ok(Plan::Load(path)) => assert_eq!(path, "yprox.toml"),
        other => panic!("unexpected: {:?}", other),
    }
    let args = Args { config: None, bind: None, backend: None, default: None };
    assert!(matches!(parse(args, false), Err(ConfigError::MissingBackends)));
}

#[test]
fn backends_on_the_command_line_need_a_bind_address() {
    let args = Args {
        config: None,
        bind: None,
        backend: Some(vec!["127.0.0.1:2".to_string()]),
        default: None,
    };
    assert!(matches!(parse(args, true), Err(ConfigError::MissingBind)));
    let args = Args {
        config: None,
        bind: Some(addr(1)),
        backend: Some(vec!["a=127.0.0.1:2".to_string(), "127.0.0.1:3".to_string()]),
        default: Some("a".to_string()),
    };
    match parse(args, true) {
        Ok(Plan::Build { bind, backends, default }) => {
            assert_eq!(bind, addr(1));
            assert_eq!(backends, vec!["a=127.0.0.1:2".to_string(), "127.0.0.1:3".to_string()]);
            assert_eq!(default, Some("a".to_string()));
        }
        other => panic!("unexpected: {:?}", other),
    }
}

#[test]
fn anonymous_backends_are_listed_under_their_positions() {
    let config = Config::from_args(addr(1), vec![(None, addr(2)), (None, addr(3))], None)
        .ok()
        .expect("a configuration");
    assert_eq!(config.bind, addr(1));
    assert!(config.scripts.is_empty());
    assert_eq!(
        listing(&config),
        vec![("backend1".to_string(), addr(2)), ("backend2".to_string(), addr(3))]
    );
    assert_eq!(config.targets(), listing(&config));
    assert_eq!(config.designated(), Some("backend1".to_string()));
}

#[test]
fn named_backends_keep_their_order() {
    let entries = vec![
        (Some("zeta".to_string()), addr(2)),
        (Some("alpha".to_string()), addr(3)),
        (None, addr(4)),
    ];
    let config = Config::from_args(addr(1), entries, None).ok().expect("a configuration");
    let expected = vec![
        ("zeta".to_string(), addr(2)),
        ("alpha".to_string(), addr(3)),
        ("backend3".to_string(), addr(4)),
    ];
    assert_eq!(listing(&config), expected);
    assert_eq!(config.targets(), expected);
    assert_eq!(config.designated(), Some("zeta".to_string()));
}

#[test]
fn the_designated_target_is_the_one_that_is_named() {
    let entries = vec![(Some("a".to_string()), addr(2)), (Some("b".to_string()), addr(3))];
    let config =
        Config::from_args(addr(1), entries, Some("b".to_string())).ok().expect("a configuration");
    assert_eq!(config.designated(), Some("b".to_string()));
    let none = Config::from_args(addr(1), vec![], None).ok().expect("a configuration");
    assert_eq!(none.designated(), None);
    assert!(none.targets().is_empty());
}

#[test]
fn a_configuration_with_a_duplicate_is_refused() {
    let entries = vec![(Some("a".to_string()), addr(2)), (Some("a".to_string()), addr(3))];
    match Config::from_args(addr(1), entries, None) {
        Err(ConfigError::DuplicateBackend(name)) => assert_eq!(name, "a"),
        _ => panic!("expected a duplicate"),
    }
}

#[test]
fn a_target_is_read_with_or_without_a_name() {
    assert_eq!(address_text("main=127.0.0.1:80"), "127.0.0.1:80");
    assert_eq!(address_text("127.0.0.1:80"), "127.0.0.1:80");
    match parse_target("main=127.0.0.1:80", Some(addr(80))) {
        Ok(Target::Named(name, a)) => {
            assert_eq!(name, "main");
            assert_eq!(a, addr(80));
        }
        other => panic!("unexpected: {:?}", other),
    }
    match parse_target("127.0.0.1:80", Some(addr(80))) {
        Ok(Target::Anon(a)) => assert_eq!(a, addr(80)),
        other => panic!("unexpected: {:?}", other),
    }
    assert_eq!(
        parse_target("main=nowhere", None).err(),
        Some("Invalid SocketAddr: nowhere".to_string())
    );
    assert_eq!(parse_target("nowhere", None).err(), Some("Invalid SocketAddr: nowhere".to_string()));
}

#[test]
fn a_target_tells_what_it_is() {
    let anon = Target::Anon(addr(1));
    let named = Target::Named("n".to_string(), addr(2));
    assert!(anon.is_anon());
    assert!(!anon.is_named());
    assert!(named.is_named());
    assert!(!named.is_anon());
    assert_eq!(anon.as_anon(), Some(addr(1)));
    assert_eq!(anon.as_named(), None);
    assert_eq!(named.as_anon(), None);
    assert_eq!(named.as_named(), Some(("n".to_string(), addr(2))));
    assert_eq!(named.clone().as_named(), named.as_named());
}
