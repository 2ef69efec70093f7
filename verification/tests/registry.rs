use mc_remote::registry::TaskDb;
use mc_remote::task::Task;
use mc_remote::task::TaskHandle;

fn runtime() -> tokio::runtime::Runtime {
    tokio::runtime::Builder::new_current_thread().build().unwrap()
}

fn handle(rt: &tokio::runtime::Runtime, id: u64) -> TaskHandle {
    let (_child, maybe_proc) = tokio::sync::oneshot::channel::<tokio::process::Child>();
    TaskHandle { id, handle: rt.spawn(async { Ok(()) }), maybe_proc }
}

fn notifier() -> tokio::sync::mpsc::Sender<u64> {
    tokio::sync::mpsc::channel::<u64>(15).0
}

#[test]
fn a_new_registry_is_empty() {
    let db = TaskDb::new();
    assert_eq!(db.len(), 0);
    assert_eq!(db.issued(), 0);
    assert!(!db.is_live(0));
}

#[test]
fn register_issues_ids_in_order() {
    let mut db = TaskDb::new();
    for expected in 0u64..5 {
        let task = db.register(notifier());
        assert_eq!(task.id(), expected);
    }
    assert_eq!(db.issued(), 5);
    assert_eq!(db.len(), 0);
}

#[test]
fn register_binds_the_task_to_the_notifier() {
    let (tx, mut rx) = tokio::sync::mpsc::channel::<u64>(15);
    let mut db = TaskDb::new();
    let task = db.register(tx);
    let (session, ctrl_c) = task.run(mc_remote::command::Action::Stop.into_command());
    assert_eq!(session.id(), 0);
    ctrl_c.try_send(session.id()).unwrap();
    assert_eq!(rx.try_recv().unwrap(), 0);
}

#[test]
fn task_new_keeps_its_id() {
    let task = Task::new(41, notifier());
    assert_eq!(task.id(), 41);
}

#[test]
fn store_grows_the_table_to_the_id() {
    let rt = runtime();
    let mut db = TaskDb::new();
    db.store(handle(&rt, 3));
    assert_eq!(db.len(), 4);
    assert!(db.is_live(3));
    assert!(!db.is_live(0));
    assert!(!db.is_live(1));
    assert!(!db.is_live(2));
    assert!(!db.is_live(4));
}

#[test]
fn store_out_of_order_keeps_what_was_stored() {
    let rt = runtime();
    let mut db = TaskDb::new();
    db.store(handle(&rt, 2));
    db.store(handle(&rt, 0));
    assert_eq!(db.len(), 3);
    assert!(db.is_live(0));
    assert!(!db.is_live(1));
    assert!(db.is_live(2));
    db.store(handle(&rt, 1));
    assert_eq!(db.len(), 3);
    assert!(db.is_live(0) && db.is_live(1) && db.is_live(2));
}

#[test]
fn store_does_not_move_the_counter() {
    let rt = runtime();
    let mut db = TaskDb::new();
    let task = db.register(notifier());
    db.store(handle(&rt, task.id()));
    assert_eq!(db.issued(), 1);
    assert_eq!(db.len(), 1);
}

#[test]
fn delete_gives_out_the_handle_of_the_id() {
    let rt = runtime();
    let mut db = TaskDb::new();
    db.store(handle(&rt, 0));
    db.store(handle(&rt, 1));
    let removed = db.delete(1).unwrap();
    assert_eq!(removed.id, 1);
    assert!(db.is_live(0));
    assert!(!db.is_live(1));
    assert_eq!(db.len(), 2);
}

#[test]
fn delete_twice_is_delete_once() {
    let rt = runtime();
    let mut db = TaskDb::new();
    let k = 4u64;
    for _ in 0..k {
        let task = db.register(notifier());
        db.store(handle(&rt, task.id()));
    }
    let j = 2u64;
    assert!(db.delete(j).is_some());
    let after_first: Vec<bool> = (0..k).map(|id| db.is_live(id)).collect();
    let (len, issued) = (db.len(), db.issued());
    assert!(db.delete(j).is_none());
    let after_second: Vec<bool> = (0..k).map(|id| db.is_live(id)).collect();
    assert_eq!(after_first, vec![true, true, false, true]);
    assert_eq!(after_second, after_first);
    assert_eq!(db.len(), len);
    assert_eq!(db.issued(), issued);
}

#[test]
fn delete_of_an_id_never_stored_changes_nothing() {
    let rt = runtime();
    let mut db = TaskDb::new();
    assert!(db.delete(0).is_none());
    assert_eq!(db.len(), 0);
    db.store(handle(&rt, 1));
    assert!(db.delete(0).is_none());
    assert!(db.delete(2).is_none());
    assert!(db.delete(1_000_000_000_000).is_none());
    assert!(db.delete(u64::MAX).is_none());
    assert_eq!(db.len(), 2);
    assert!(db.is_live(1));
    assert_eq!(db.issued(), 0);
}

#[test]
fn ids_are_not_reused_after_deletion() {
    let rt = runtime();
    let mut db = TaskDb::new();
    let first = db.register(notifier());
    db.store(handle(&rt, first.id()));
    assert!(db.delete(first.id()).is_some());
    let second = db.register(notifier());
    assert_eq!(first.id(), 0);
    assert_eq!(second.id(), 1);
}

#[test]
fn storing_again_under_an_id_replaces_the_handle() {
    let rt = runtime();
    let mut db = TaskDb::new();
    db.store(handle(&rt, 0));
    db.store(handle(&rt, 0));
    assert_eq!(db.len(), 1);
    assert!(db.delete(0).is_some());
    assert!(db.delete(0).is_none());
}
