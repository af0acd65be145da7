use reactor::error::{InvalidInput, IoError};
use reactor::executor::builder::Builder;
use reactor::fs::file::{has_nul, File, OpenCall};
use reactor::fs::Folder;
use reactor::net::utils::{sockaddr_to_socketaddr, SocketAddrV4};
use reactor::poll::Poll;
use reactor::reactor::dispatch::Reactor;
use reactor::reactor::event::{Change, Event, Filter};
use reactor::reactor::io::{Connexion, ConnexionState, OUT_MAX_BYTES};
use reactor::reactor::syscall::Outcome;
use reactor::timer::{next_timer_remaining, process_timers, sleep, TimerDriver};

#[test]
fn ip_bits_round_trip() {
    let address = SocketAddrV4::new([127, 0, 0, 1], 8080);
    assert_eq!(address.ip_bits(), 0x7F00_0001);
    assert_eq!(SocketAddrV4::from_ip_bits(0x7F00_0001, 8080), address);
    assert_eq!(sockaddr_to_socketaddr(0xC0A8_0102, 80), SocketAddrV4::new([192, 168, 1, 2], 80));
    assert_eq!(SocketAddrV4::new([1, 2, 3, 4], 0).ip_bits(), 0x0102_0304);
}

#[test]
fn file_read_write_roundtrip() {
    // create, write_all(b"hello world"), reopen, read 11 bytes
    let mut reactor: Reactor<u8> = Reactor::new(0);
    let mut seen: Option<OpenCall> = None;
    let created = File::open_with("/tmp/roundtrip.txt", 0x241, 0x40, |call| {
        seen = Some(call);
        (5, 0)
    });
    assert_eq!(created, Ok(File::new(5)));
    assert_eq!(seen, Some(OpenCall { flags: 0x241, mode: Some(0o644) }));
    let file = created.unwrap();
    let mut op = file.write_all(11);
    assert!(matches!(
        op.poll(Outcome::Done(11), &mut reactor, 1).step,
        reactor::reactor::future::WriteAllStep::Ready(Ok(()))
    ));

    let reopened = File::open_with("/tmp/roundtrip.txt", 0, 0x40, |call| {
        assert_eq!(call, OpenCall { flags: 0, mode: None });
        (6, 0)
    })
    .unwrap();
    let mut read = reopened.read();
    assert!(matches!(read.poll(Outcome::Done(11), &mut reactor, 1).poll, Poll::Ready(Ok(11))));
    let mut write = reopened.write();
    assert!(matches!(write.poll(Outcome::Failed(9), &mut reactor, 1).poll, Poll::Ready(Err(IoError::Os(9)))));
}

#[test]
fn open_refuses_a_path_with_a_zero_byte() {
    assert!(has_nul("a\0b"));
    assert!(!has_nul("a/b"));
    assert!(!has_nul(""));
    let refused = File::open("bad\0path", |_| -> (i32, i32) { panic!("open was called") });
    assert_eq!(refused, Err(IoError::InvalidInput(InvalidInput::NulInPath)));
    let refused = File::create("bad\0path", |_| -> (i32, i32) { panic!("open was called") });
    assert_eq!(refused, Err(IoError::InvalidInput(InvalidInput::NulInPath)));
    assert_eq!(InvalidInput::NulInPath.message(), "path contains null byte");
}

#[test]
fn open_passes_the_error_number_on() {
    let failed = File::open("/nonexistent", |_| (-1, 2));
    assert_eq!(failed, Err(IoError::Os(2)));
    let opened = File::open_with_flags("/tmp/x", 0, |call| {
        assert_eq!(call.flags, 0);
        (3, 0)
    });
    assert_eq!(opened, Ok(File::new(3)));
}

#[test]
fn create_asks_for_permission_bits() {
    let mut mode = None;
    let created = File::create("/tmp/new", |call| {
        mode = call.mode;
        (4, 0)
    });
    assert_eq!(created, Ok(File::new(4)));
    assert_eq!(mode, Some(0o644));
    let mut mode = Some(1);
    File::open("/tmp/new", |call| {
        mode = call.mode;
        (4, 0)
    })
    .unwrap();
    assert_eq!(mode, None);
}

#[test]
fn folder_create_single() {
    let mut asked = None;
    let folder = Folder::create("/tmp/single", |path, mode| {
        asked = Some((path.to_string(), mode));
        (0, 0)
    });
    assert_eq!(asked, Some(("/tmp/single".to_string(), 0o755)));
    assert_eq!(folder.ok().map(|folder| folder.path().to_string()), Some("/tmp/single".to_string()));
}

#[test]
fn folder_create_fails_when_exists() {
    let failed = Folder::create("/tmp/existing", |_, _| (-1, 17));
    assert!(matches!(failed, Err(IoError::Os(17))));
    let refused = Folder::create("nul\0", |_, _| -> (i32, i32) { panic!("mkdir was called") });
    assert!(matches!(refused, Err(IoError::InvalidInput(InvalidInput::NulInPath))));
}

#[test]
fn echo_connection_reads_then_writes() {
    let mut connexion = Connexion::new();
    assert_eq!(connexion.state, ConnexionState::Reading);
    assert!(!connexion.handle_read(Outcome::WouldBlock, &[]));
    assert!(!connexion.handle_read(Outcome::Done(4), b"ping"));
    assert_eq!(connexion.state, ConnexionState::Writing);
    assert_eq!(connexion.out, b"ping".to_vec());

    let written = connexion.handle_write(9, Outcome::WouldBlock);
    assert!(!written.close && written.disarm.is_none());
    let written = connexion.handle_write(9, Outcome::Done(1));
    assert!(!written.close && written.disarm.is_none());
    assert_eq!(connexion.out, b"ing".to_vec());
    assert_eq!(connexion.state, ConnexionState::Writing);
    let written = connexion.handle_write(9, Outcome::Done(3));
    assert!(!written.close);
    assert_eq!(
        written.disarm,
        Some(Event { ident: 9, filter: Filter::Write, change: Change::Delete, data: 0 })
    );
    assert_eq!(connexion.state, ConnexionState::Reading);
    assert!(connexion.out.is_empty());
}

#[test]
fn echo_connection_closes_on_end_and_errors() {
    let mut connexion = Connexion::new();
    assert!(connexion.handle_read(Outcome::Done(0), &[]));
    assert!(connexion.handle_read(Outcome::Failed(104), &[]));
    assert!(connexion.handle_write(9, Outcome::Failed(32)).close);
    connexion.out = vec![0u8; OUT_MAX_BYTES];
    assert!(connexion.handle_read(Outcome::Done(1), &[1]));
    assert_eq!(connexion.out.len(), OUT_MAX_BYTES);
}

#[test]
fn timer_driver_fires_what_is_due() {
    let mut driver: TimerDriver<&str> = TimerDriver::new();
    assert_eq!(driver.next_remaining(0), None);
    driver.register(300, "late");
    driver.register(100, "early");
    driver.register(200, "middle");
    driver.register(100, "twin");
    assert_eq!(next_timer_remaining(&driver, 40), Some(60));
    assert_eq!(driver.next_remaining(150), Some(0));

    let fired = driver.fire_expired(99);
    assert!(fired.wake.is_empty());
    assert!(fired.pending);
    let fired = process_timers(&mut driver, 200);
    assert_eq!(fired.wake, vec!["early", "middle", "twin"]);
    assert!(fired.pending);
    assert_eq!(driver.next_remaining(250), Some(50));
    let fired = driver.fire_expired(300);
    assert_eq!(fired.wake, vec!["late"]);
    assert!(!fired.pending);
    assert_eq!(driver.next_remaining(300), None);
}

#[test]
fn deadline_sleep_registers_once() {
    let mut driver: TimerDriver<&str> = TimerDriver::new();
    let mut pause = sleep(50, 1000);
    assert_eq!(pause.deadline, 1050);
    assert!(pause.poll(1000, &mut driver, "a").is_pending());
    assert!(pause.poll(1020, &mut driver, "b").is_pending());
    let fired = driver.fire_expired(1050);
    assert_eq!(fired.wake, vec!["a"]);
    assert!(pause.poll(1050, &mut driver, "c").is_ready());
    let mut done = reactor::timer::Sleep::new(0, 5);
    assert!(done.poll(5, &mut driver, "d").is_ready());
    assert_eq!(driver.next_remaining(0), None);
}

#[test]
fn minimal_executor_is_built() {
    let built = Builder::default().worker_threads(4).build();
    assert_eq!(built, Ok(reactor::executor::runtime::Runtime::default()));
    assert_eq!(Builder::default().worker_threads, 1);
    assert_eq!(Builder::default().worker_threads(4).worker_threads, 4);
    assert_eq!(reactor::executor::runtime::Runtime::builder().worker_threads, 1);
}
