use mc_remote::command::Action;
use mc_remote::server::Admission;
use mc_remote::server::McRemoteServer;
use mc_remote::server::BIND_ADDR;
use mc_remote::server::CANCEL_BACKLOG;
use mc_remote::session::Directive;
use mc_remote::session::Event;
use mc_remote::task::TaskHandle;

fn runtime() -> tokio::runtime::Runtime {
    tokio::runtime::Builder::new_current_thread().build().unwrap()
}

fn handle(rt: &tokio::runtime::Runtime, id: u64) -> TaskHandle {
    let (_child, maybe_proc) = tokio::sync::oneshot::channel::<tokio::process::Child>();
    TaskHandle { id, handle: rt.spawn(async { Ok(()) }), maybe_proc }
}

fn notifier() -> tokio::sync::mpsc::Sender<u64> {
    tokio::sync::mpsc::channel::<u64>(CANCEL_BACKLOG).0
}

#[test]
fn the_server_has_its_address_and_backlog() {
    assert_eq!(BIND_ADDR, "127.0.0.1:4086");
    assert_eq!(CANCEL_BACKLOG, 15);
}

#[test]
fn an_invalid_byte_is_refused_and_nothing_is_registered() {
    let mut server = McRemoteServer::new();
    match server.handle_connection(&[9], notifier()) {
        Admission::Refuse(text) => assert_eq!(text, "Invalid option"),
        Admission::Launch(..) => panic!("byte 9 selects no command"),
    }
    assert_eq!(server.tasks().issued(), 0);
    assert_eq!(server.tasks().len(), 0);
}

#[test]
fn a_connection_that_sends_nothing_is_refused() {
    let mut server = McRemoteServer::new();
    match server.handle_connection(&[], notifier()) {
        Admission::Refuse(text) => assert_eq!(text, "empty message"),
        Admission::Launch(..) => panic!("no byte selects no command"),
    }
    assert_eq!(server.tasks().issued(), 0);
}

#[test]
fn a_command_byte_launches_a_registered_task() {
    let mut server = McRemoteServer::new();
    match server.handle_connection(&[2], notifier()) {
        Admission::Launch(task, command) => {
            assert_eq!(task.id(), 0);
            assert_eq!(*command.get(), Action::Start);
        },
        Admission::Refuse(text) => panic!("{}", text),
    }
    assert_eq!(server.tasks().issued(), 1);
    match server.handle_connection(&[3], notifier()) {
        Admission::Launch(task, command) => {
            assert_eq!(task.id(), 1);
            assert_eq!(*command.get(), Action::Stop);
        },
        Admission::Refuse(text) => panic!("{}", text),
    }
    assert_eq!(server.tasks().issued(), 2);
}

#[test]
fn a_refusal_between_launches_uses_no_id() {
    let mut server = McRemoteServer::new();
    assert!(matches!(server.handle_connection(&[4], notifier()), Admission::Launch(..)));
    assert!(matches!(server.handle_connection(&[77], notifier()), Admission::Refuse(_)));
    match server.handle_connection(&[1], notifier()) {
        Admission::Launch(task, _) => assert_eq!(task.id(), 1),
        Admission::Refuse(text) => panic!("{}", text),
    }
}

#[test]
fn two_connections_run_apart_from_each_other() {
    let rt = runtime();
    let mut server = McRemoteServer::new();
    let (slow, start) = match server.handle_connection(&[2], notifier()) {
        Admission::Launch(task, command) => (task, command),
        Admission::Refuse(text) => panic!("{}", text),
    };
    let (fast, stop) = match server.handle_connection(&[3], notifier()) {
        Admission::Launch(task, command) => (task, command),
        Admission::Refuse(text) => panic!("{}", text),
    };
    let (mut slow_session, _) = slow.run(start);
    let (mut fast_session, _) = fast.run(stop);
    server.store(handle(&rt, slow_session.id()));
    server.store(handle(&rt, fast_session.id()));
    slow_session.step(Event::Begin);
    fast_session.step(Event::Begin);
    let reply = fast_session.step(Event::Captured { stdout: vec![], stderr: b"stopped".to_vec() });
    assert_eq!(reply, Directive::Reply(b"stopped".to_vec()));
    assert_eq!(fast_session.step(Event::Replied), Directive::Close);
    let reply = slow_session.step(Event::Captured { stdout: vec![], stderr: b"started".to_vec() });
    assert_eq!(reply, Directive::Reply(b"started".to_vec()));
    assert_eq!(slow_session.step(Event::Replied), Directive::Close);
    assert!(server.tasks().is_live(0) && server.tasks().is_live(1));
}

#[test]
fn a_cancelled_session_is_torn_down_by_its_id() {
    let rt = runtime();
    let (tx, mut rx) = tokio::sync::mpsc::channel::<u64>(CANCEL_BACKLOG);
    let mut server = McRemoteServer::new();
    assert!(matches!(server.handle_connection(&[3], tx.clone()), Admission::Launch(..)));
    let (task, command) = match server.handle_connection(&[0], tx.clone()) {
        Admission::Launch(task, command) => (task, command),
        Admission::Refuse(text) => panic!("{}", text),
    };
    let (mut session, ctrl_c) = task.run(command);
    server.store(handle(&rt, 0));
    server.store(handle(&rt, session.id()));
    session.step(Event::Begin);
    session.step(Event::Spawned);
    session.step(Event::Delivered);
    match session.step(Event::ClientByte { count: 1, byte: 255 }) {
        Directive::Notify(id) => ctrl_c.try_send(id).unwrap(),
        other => panic!("{:?}", other),
    }
    let id = rx.try_recv().unwrap();
    assert_eq!(id, 1);
    let removed = server.cancel(id).unwrap();
    assert_eq!(removed.id, 1);
    assert!(server.tasks().is_live(0));
    assert!(!server.tasks().is_live(1));
    assert!(server.cancel(id).is_none());
    assert!(server.tasks().is_live(0));
}

#[test]
fn cancelling_an_unknown_id_changes_nothing() {
    let rt = runtime();
    let mut server = McRemoteServer::new();
    assert!(server.cancel(0).is_none());
    server.store(handle(&rt, 0));
    assert!(server.cancel(1).is_none());
    assert!(server.cancel(u64::MAX).is_none());
    assert!(server.tasks().is_live(0));
    assert_eq!(server.tasks().len(), 1);
}
