use reactor::error::{InvalidInput, IoError};
use reactor::fs::Folder;
use reactor::macros::args::{same_text, ArgsError, MainArgs};
use reactor::net::tcp_listener::TcpListener;
use reactor::net::utils::{parse_sockaddr, SocketAddrV4};
use reactor::utils::text::split;

fn refused(reason: InvalidInput) -> Result<SocketAddrV4, IoError> {
    Err(IoError::InvalidInput(reason))
}

#[test]
fn parses_plain_addresses() {
    assert_eq!(parse_sockaddr("127.0.0.1:0"), Ok(SocketAddrV4::new([127, 0, 0, 1], 0)));
    assert_eq!(parse_sockaddr("192.168.1.20:8080"), Ok(SocketAddrV4::new([192, 168, 1, 20], 8080)));
    assert_eq!(parse_sockaddr("0.0.0.0:65535"), Ok(SocketAddrV4::new([0, 0, 0, 0], 65535)));
    assert_eq!(parse_sockaddr("255.255.255.255:1"), Ok(SocketAddrV4::new([255; 4], 1)));
}

#[test]
fn accepts_what_the_integer_parser_accepts() {
    assert_eq!(parse_sockaddr("+1.02.003.4:+80"), Ok(SocketAddrV4::new([1, 2, 3, 4], 80)));
    assert_eq!(parse_sockaddr("1.2.3.4:00080"), Ok(SocketAddrV4::new([1, 2, 3, 4], 80)));
}

#[test]
fn agrees_with_the_standard_parser_on_numbers() {
    for text in ["0", "7", "255", "256", "+5", "+", "", "-1", "1a", " 1", "0255", "99999", "65535", "65536", "++1"] {
        let address = format!("1.2.3.4:{}", text);
        let expected = text.parse::<u16>().ok();
        assert_eq!(parse_sockaddr(&address).ok().map(|parsed| parsed.port), expected, "{:?}", text);
        let address = format!("{}.2.3.4:1", text);
        let expected = text.parse::<u8>().ok();
        assert_eq!(parse_sockaddr(&address).ok().map(|parsed| parsed.octets[0]), expected, "{:?}", text);
    }
}

#[test]
fn refuses_malformed_addresses() {
    assert_eq!(parse_sockaddr(""), refused(InvalidInput::InvalidAddress));
    assert_eq!(parse_sockaddr("127.0.0.1"), refused(InvalidInput::InvalidAddress));
    assert_eq!(parse_sockaddr("127.0.0.1:"), refused(InvalidInput::InvalidPort));
    assert_eq!(parse_sockaddr("127.0.0.1:http"), refused(InvalidInput::InvalidPort));
    assert_eq!(parse_sockaddr("127.0.0.1:65536"), refused(InvalidInput::InvalidPort));
    assert_eq!(parse_sockaddr("1.2.3.4:5:6"), refused(InvalidInput::InvalidIpv4Octet));
    assert_eq!(parse_sockaddr("127.0.1:80"), refused(InvalidInput::InvalidIpv4Address));
    assert_eq!(parse_sockaddr("1.2.3.4.5:80"), refused(InvalidInput::InvalidIpv4Address));
    assert_eq!(parse_sockaddr(":80"), refused(InvalidInput::InvalidIpv4Address));
    assert_eq!(parse_sockaddr("localhost:80"), refused(InvalidInput::InvalidIpv4Address));
    assert_eq!(parse_sockaddr("1.2.3.256:80"), refused(InvalidInput::InvalidIpv4Octet));
    assert_eq!(parse_sockaddr("1..3.4:80"), refused(InvalidInput::InvalidIpv4Octet));
    assert_eq!(parse_sockaddr("a.b.c.d:80"), refused(InvalidInput::InvalidIpv4Octet));
    assert_eq!(parse_sockaddr("1.2.3.4 :80"), refused(InvalidInput::InvalidIpv4Octet));
    // The port is checked before the host.
    assert_eq!(parse_sockaddr("x:y"), refused(InvalidInput::InvalidPort));
    assert_eq!(InvalidInput::InvalidAddress.message(), "invalid address");
    assert_eq!(InvalidInput::InvalidPort.message(), "invalid port");
    assert_eq!(InvalidInput::InvalidIpv4Address.message(), "invalid IPv4 address");
    assert_eq!(InvalidInput::InvalidIpv4Octet.message(), "invalid IPv4 octet");
}

#[test]
fn split_cuts_at_every_separator() {
    let text = b"a..bc.";
    assert_eq!(split(text, text.len(), b'.'), vec![(0, 1), (2, 2), (3, 5), (6, 6)]);
    assert_eq!(split(text, 0, b'.'), vec![(0, 0)]);
    assert_eq!(split(text, 4, b'.'), vec![(0, 1), (2, 2), (3, 4)]);
    assert_eq!(split(b"abc", 3, b'/'), vec![(0, 3)]);
}

#[test]
fn bind_parses_before_it_calls() {
    let bound = TcpListener::bind("127.0.0.1:0", |address, backlog| {
        assert_eq!(address, SocketAddrV4::new([127, 0, 0, 1], 0));
        assert_eq!(backlog, 128);
        (9, 0)
    });
    assert_eq!(bound, Ok(TcpListener::new(9)));
    let failed = TcpListener::bind("127.0.0.1:80", |_, _| (-1, 13));
    assert_eq!(failed, Err(IoError::Os(13)));
    let refused = TcpListener::bind("nonsense", |_, _| -> (i32, i32) { panic!("a call was made") });
    assert_eq!(refused, Err(IoError::InvalidInput(InvalidInput::InvalidAddress)));
    let listener = TcpListener::new(9);
    assert_eq!(listener.local_addr(0, 0, 0x7F00_0001, 4242), Ok(SocketAddrV4::new([127, 0, 0, 1], 4242)));
    assert_eq!(listener.local_addr(-1, 9, 0, 0), Err(IoError::Os(9)));
}

fn dirs(path: &str) -> (Vec<String>, Option<InvalidInput>) {
    let plan = Folder::create_all(path).unwrap();
    let names = plan.dirs.iter().map(|dir| String::from_utf8(dir.clone()).unwrap()).collect();
    (names, plan.refusal)
}

#[test]
fn folder_create_all_nested_and_idempotent() {
    let (names, refusal) = dirs("/tmp/a/b/c");
    assert_eq!(names, vec!["/tmp", "/tmp/a", "/tmp/a/b", "/tmp/a/b/c"]);
    assert_eq!(refusal, None);
    let (again, _) = dirs("/tmp/a/b/c");
    assert_eq!(again, names);
    // A directory that is there already is no failure; anything else is.
    assert_eq!(Folder::made_with(0, 0, 17), Ok(()));
    assert_eq!(Folder::made_with(-1, 17, 17), Ok(()));
    assert_eq!(Folder::made_with(-1, 13, 17), Err(IoError::Os(13)));
    assert_eq!(Folder::made(0, 13), Ok(()));
    assert_eq!(Folder::new("/tmp/a/b/c").path(), "/tmp/a/b/c");
}

#[test]
fn folder_plan_follows_path_components() {
    assert_eq!(dirs("a/b").0, vec!["a", "a/b"]);
    assert_eq!(dirs("a//b/").0, vec!["a", "a/b"]);
    assert_eq!(dirs("./a/./b/.").0, vec!["a", "a/b"]);
    assert_eq!(dirs("/").0, Vec::<String>::new());
    assert_eq!(dirs("//x").0, vec!["/x"]);
    assert_eq!(dirs(".").0, Vec::<String>::new());
    assert_eq!(dirs("...").0, vec!["..."]);
    assert_eq!(dirs("a/../b"), (vec!["a".to_string()], Some(InvalidInput::ParentDir)));
    assert_eq!(dirs(".."), (Vec::new(), Some(InvalidInput::ParentDir)));
    assert_eq!(dirs("a/b\0/c"), (vec!["a".to_string()], Some(InvalidInput::NulInPath)));
}

#[test]
fn folder_plan_agrees_with_std_components() {
    for path in ["a", "/a", "a/b/c", "/a//b/./c/", "./x/y", "x/./y/.", "//", "a/.b/c..", "/.hidden/x"] {
        let mut expected = Vec::new();
        let mut so_far = std::path::PathBuf::new();
        if std::path::Path::new(path).is_absolute() {
            so_far.push("/");
        }
        for component in std::path::Path::new(path).components() {
            if let std::path::Component::Normal(name) = component {
                so_far.push(name);
                expected.push(so_far.to_string_lossy().into_owned());
            }
        }
        assert_eq!(dirs(path).0, expected, "{:?}", path);
    }
}

#[test]
fn folder_create_all_refuses_the_empty_path() {
    assert!(matches!(
        Folder::create_all(""),
        Err(IoError::InvalidInput(InvalidInput::EmptyPath))
    ));
    assert_eq!(InvalidInput::EmptyPath.message(), "empty path");
    assert_eq!(InvalidInput::ParentDir.message(), "parent directory (..) not supported");
}

#[test]
fn entry_arguments() {
    assert_eq!(MainArgs::parse(None), Ok(MainArgs { worker_threads: 1 }));
    assert_eq!(MainArgs::parse(Some(("worker_threads", 4))), Ok(MainArgs { worker_threads: 4 }));
    assert_eq!(MainArgs::parse(Some(("worker_threads", 0))), Err(ArgsError::ZeroWorkers));
    assert_eq!(MainArgs::parse(Some(("workers", 4))), Err(ArgsError::UnknownArgument));
    assert_eq!(MainArgs::parse(Some(("workers", 0))), Err(ArgsError::UnknownArgument));
    assert_eq!(MainArgs::parse(Some(("worker_thread", 2))), Err(ArgsError::UnknownArgument));
    assert_eq!(ArgsError::UnknownArgument.message(), "expected `worker_threads`");
    assert_eq!(ArgsError::ZeroWorkers.message(), "worker_threads must be greater than 0");
    assert!(same_text("", ""));
    assert!(!same_text("a", "b"));
    assert!(!same_text("a", "ab"));
}
