use std::sync::atomic::{AtomicU32, Ordering};
use std::sync::{Arc, Mutex};

use wcdb::database::{
    CipherConfig, CipherConfigBuilder, CipherVersion, ConfigHook, ConfigPriority, Core, Database,
    OnClosedCallback,
};
use wcdb::error::Error;
use wcdb::handle::Handle;

struct CountingHook {
    count: Arc<AtomicU32>,
    ok: bool,
}

impl ConfigHook for CountingHook {
    fn invoke(&self, _handle: Handle) -> bool {
        self.count.fetch_add(1, Ordering::SeqCst);
        self.ok
    }
}

struct LoggingHook {
    log: Arc<Mutex<Vec<String>>>,
    name: &'static str,
}

impl ConfigHook for LoggingHook {
    fn invoke(&self, _handle: Handle) -> bool {
        self.log.lock().unwrap().push(self.name.to_string());
        true
    }
}

struct NoopHook;

impl ConfigHook for NoopHook {
    fn invoke(&self, _handle: Handle) -> bool {
        true
    }
}

struct CloseProbe {
    fired: Arc<AtomicU32>,
}

impl OnClosedCallback for CloseProbe {
    fn on_closed(&self, database: &Database, core: &Core) {
        assert!(database.is_blockaded(core));
        assert!(!database.is_opened(core));
        self.fired.fetch_add(1, Ordering::SeqCst);
    }
}

#[test]
fn shared_tag_across_wrappers() {
    let mut core = Core::new();
    let db1 = Database::create(&mut core, "/tmp/shared.db").unwrap();
    let db2 = Database::create(&mut core, "/tmp/shared.db").unwrap();
    assert_eq!(db1.get_tag(&core), None);
    db1.set_tag(&mut core, Some(42));
    assert_eq!(db2.get_tag(&core), Some(42));
    db2.set_tag(&mut core, None);
    assert_eq!(db1.get_tag(&core), None);
    // tag 0 is the "unset" sentinel and round-trips to None
    db1.set_tag(&mut core, Some(0));
    assert_eq!(db2.get_tag(&core), None);
    // a different path is a different identity
    let other = Database::create(&mut core, "/tmp/other.db").unwrap();
    db1.set_tag(&mut core, Some(7));
    assert_eq!(other.get_tag(&core), None);
}

#[test]
fn path_and_open_state() {
    let mut core = Core::new();
    let db = Database::create(&mut core, "/tmp/state.db").unwrap();
    assert_eq!(db.get_path(&core), "/tmp/state.db");
    assert!(!db.is_opened(&core));
    assert!(db.can_open(&mut core, 1));
    assert!(db.is_opened(&core));
    let h = db.get_handle(&mut core, 1).unwrap();
    assert!(db.is_opened(&core));
    h.release(&mut core);
    db.close(&mut core);
    assert!(!db.is_opened(&core));
}

#[test]
fn nul_in_path_is_rejected() {
    let mut core = Core::new();
    let r = Database::create(&mut core, "/tmp/bad\0path.db");
    assert!(matches!(r, Err(Error::NulError)));
    let db = Database::create(&mut core, "/tmp/good.db").unwrap();
    let r = db.set_config(
        &mut core,
        "bad\0name",
        Box::new(NoopHook),
        Box::new(NoopHook),
        ConfigPriority::Default,
    );
    assert!(matches!(r, Err(Error::NulError)));
}

#[test]
fn close_yields_fresh_connection() {
    let mut core = Core::new();
    let db = Database::create(&mut core, "/tmp/fresh.db").unwrap();
    let invoked = Arc::new(AtomicU32::new(0));
    db.set_config(
        &mut core,
        "probe",
        Box::new(CountingHook { count: invoked.clone(), ok: true }),
        Box::new(NoopHook),
        ConfigPriority::Default,
    )
    .unwrap();

    let h1 = db.get_handle(&mut core, 1).unwrap();
    let first_raw = h1.raw();
    assert_eq!(invoked.load(Ordering::SeqCst), 1);
    h1.release(&mut core);
    db.close(&mut core);

    let h2 = db.get_handle(&mut core, 1).unwrap();
    // the connection is freshly materialized, never the one from before
    assert_ne!(h2.raw(), first_raw);
    // the registered invocation hook re-ran exactly once for it
    assert_eq!(invoked.load(Ordering::SeqCst), 2);
    h2.release(&mut core);
}

#[test]
fn same_thread_shares_one_connection() {
    let mut core = Core::new();
    let db = Database::create(&mut core, "/tmp/share.db").unwrap();
    let invoked = Arc::new(AtomicU32::new(0));
    db.set_config(
        &mut core,
        "probe",
        Box::new(CountingHook { count: invoked.clone(), ok: true }),
        Box::new(NoopHook),
        ConfigPriority::Default,
    )
    .unwrap();
    let h1 = db.get_handle(&mut core, 9).unwrap();
    let h2 = db.get_handle(&mut core, 9).unwrap();
    assert_eq!(h1.raw(), h2.raw());
    assert_eq!(invoked.load(Ordering::SeqCst), 1);
    let h3 = db.get_handle(&mut core, 10).unwrap();
    assert_ne!(h3.raw(), h1.raw());
    assert_eq!(invoked.load(Ordering::SeqCst), 2);
    h1.release(&mut core);
    h2.release(&mut core);
    h3.release(&mut core);
}

#[test]
fn config_order_and_replacement() {
    let mut core = Core::new();
    let db = Database::create(&mut core, "/tmp/order.db").unwrap();
    let log = Arc::new(Mutex::new(Vec::new()));
    // "a" at priority -100 runs before "b" at priority 100
    db.set_config(
        &mut core,
        "b",
        Box::new(LoggingHook { log: log.clone(), name: "b" }),
        Box::new(NoopHook),
        ConfigPriority::Low,
    )
    .unwrap();
    db.set_config(
        &mut core,
        "a",
        Box::new(LoggingHook { log: log.clone(), name: "a" }),
        Box::new(NoopHook),
        ConfigPriority::High,
    )
    .unwrap();
    let h = db.get_handle(&mut core, 1).unwrap();
    assert_eq!(*log.lock().unwrap(), vec!["a".to_string(), "b".to_string()]);
    h.release(&mut core);
    db.close(&mut core);

    // registering another entry named "a" replaces it without duplication
    log.lock().unwrap().clear();
    db.set_config(
        &mut core,
        "a",
        Box::new(LoggingHook { log: log.clone(), name: "a2" }),
        Box::new(NoopHook),
        ConfigPriority::High,
    )
    .unwrap();
    let h = db.get_handle(&mut core, 1).unwrap();
    assert_eq!(*log.lock().unwrap(), vec!["a2".to_string(), "b".to_string()]);
    h.release(&mut core);
}

#[test]
fn blockade_withholds_handles() {
    let mut core = Core::new();
    let db = Database::create(&mut core, "/tmp/block.db").unwrap();
    assert!(!db.is_blockaded(&core));
    db.blockade(&mut core);
    assert!(db.is_blockaded(&core));
    // a blocked caller polls and gets nothing until the blockade lifts
    assert!(db.try_get_handle(&mut core, 2, false).is_none());
    assert!(db.try_get_handle(&mut core, 2, false).is_none());
    db.unblockade(&mut core);
    assert!(!db.is_blockaded(&core));
    let h = db.try_get_handle(&mut core, 2, false).unwrap().unwrap();
    h.release(&mut core);
}

#[test]
fn close_callback_runs_once_while_blockaded() {
    let mut core = Core::new();
    let db = Database::create(&mut core, "/tmp/cb.db").unwrap();
    let h = db.get_handle(&mut core, 1).unwrap();
    h.release(&mut core);
    let fired = Arc::new(AtomicU32::new(0));
    db.close_with_callback(&mut core, Box::new(CloseProbe { fired: fired.clone() }));
    assert_eq!(fired.load(Ordering::SeqCst), 1);
    assert!(!db.is_blockaded(&core));
    assert!(!db.is_opened(&core));
}

#[test]
fn manual_blockade_survives_close() {
    let mut core = Core::new();
    let db = Database::create(&mut core, "/tmp/manual.db").unwrap();
    db.blockade(&mut core);
    db.close(&mut core);
    // the caller blockaded by hand, so close leaves the blockade in place
    assert!(db.is_blockaded(&core));
    db.unblockade(&mut core);
    assert!(!db.is_blockaded(&core));
}

#[test]
fn failing_config_aborts_handle_creation() {
    let mut core = Core::new();
    let db = Database::create(&mut core, "/tmp/fail.db").unwrap();
    let invoked = Arc::new(AtomicU32::new(0));
    db.set_config(
        &mut core,
        "broken",
        Box::new(CountingHook { count: invoked.clone(), ok: false }),
        Box::new(NoopHook),
        ConfigPriority::Default,
    )
    .unwrap();
    let r = db.get_handle(&mut core, 1);
    assert!(r.is_err());
    assert!(!db.is_opened(&core));
    match db.error(&core) {
        Error::WCDBError(e) => {
            assert_eq!(e.message.as_deref(), Some("broken"));
        }
        other => panic!("unexpected error variant: {:?}", other),
    }
    assert!(!db.can_open(&mut core, 1));
}

#[test]
fn cipher_parameters_apply_to_new_connections() {
    let mut core = Core::new();
    let db = Database::create(&mut core, "/tmp/cipher.db").unwrap();
    // disabling first, then configuring a key: the last setting wins
    db.set_cipher(&mut core, CipherConfig { key: None, page_size: 4096, cipher_version: CipherVersion::DefaultVersion });
    let config = CipherConfigBuilder::new()
        .key(b"k")
        .page_size(8192)
        .cipher_version(CipherVersion::Version4)
        .build();
    db.set_cipher(&mut core, config);
    let h = db.get_handle(&mut core, 1).unwrap();
    let (key, page_size, version) = db.connection_cipher(&core, h.raw()).unwrap();
    assert_eq!(key, b"k".to_vec());
    assert_eq!(page_size, 8192);
    assert_eq!(version, CipherVersion::Version4);
    h.release(&mut core);
}

#[test]
fn default_cipher_version_resolves_sentinel() {
    let mut core = Core::new();
    Database::set_default_cipher(&mut core, CipherVersion::Version3);
    let db = Database::create(&mut core, "/tmp/defcipher.db").unwrap();
    db.set_cipher(&mut core, CipherConfig { key: Some(b"secret"), page_size: 4096, cipher_version: CipherVersion::DefaultVersion });
    let h = db.get_handle(&mut core, 1).unwrap();
    let (_, _, version) = db.connection_cipher(&core, h.raw()).unwrap();
    assert_eq!(version, CipherVersion::Version3);
    h.release(&mut core);
    // without a key there is no cipher on the connection
    let db2 = Database::create(&mut core, "/tmp/nocipher.db").unwrap();
    let h2 = db2.get_handle(&mut core, 1).unwrap();
    assert!(db2.connection_cipher(&core, h2.raw()).is_none());
    h2.release(&mut core);
}

#[test]
fn purge_respects_live_handles() {
    let mut core = Core::new();
    let db = Database::create(&mut core, "/tmp/purge.db").unwrap();
    let busy = db.get_handle(&mut core, 1).unwrap();
    let idle = db.get_handle(&mut core, 2).unwrap();
    idle.release(&mut core);
    assert!(db.is_opened(&core));
    // one connection is in use: purging must not close the database
    db.purge(&mut core);
    assert!(db.is_opened(&core));
    busy.release(&mut core);
    // now everything is idle and purging releases it all
    db.purge(&mut core);
    assert!(!db.is_opened(&core));
}

#[test]
fn purge_all_spares_databases_in_use() {
    let mut core = Core::new();
    let a = Database::create(&mut core, "/tmp/pa.db").unwrap();
    let b = Database::create(&mut core, "/tmp/pb.db").unwrap();
    let ha = a.get_handle(&mut core, 1).unwrap();
    let hb = b.get_handle(&mut core, 1).unwrap();
    hb.release(&mut core);
    Database::purge_all(&mut core);
    assert!(a.is_opened(&core));
    assert!(!b.is_opened(&core));
    ha.release(&mut core);
}

#[test]
fn cipher_builder_collects_parameters() {
    let config = CipherConfigBuilder::new().build();
    assert!(config.key.is_none());
    assert_eq!(config.page_size, 4096);
    assert_eq!(config.cipher_version, CipherVersion::DefaultVersion);
    let config = CipherConfigBuilder::new()
        .key(b"abc")
        .page_size(1024)
        .cipher_version(CipherVersion::Version2)
        .build();
    assert_eq!(config.key, Some(&b"abc"[..]));
    assert_eq!(config.page_size, 1024);
    assert_eq!(config.cipher_version, CipherVersion::Version2);
}

#[test]
fn config_priority_values() {
    assert_eq!(ConfigPriority::Highest.value(), i32::MIN);
    assert_eq!(ConfigPriority::High.value(), -100);
    assert_eq!(ConfigPriority::Default.value(), 0);
    assert_eq!(ConfigPriority::Low.value(), 100);
}

#[test]
fn borrowed_handles_release_nothing() {
    let mut core = Core::new();
    let db = Database::create(&mut core, "/tmp/borrow.db").unwrap();
    let owned = db.get_handle(&mut core, 1).unwrap();
    let raw = owned.raw();
    let borrowed = Handle::reference(raw, db.clone());
    borrowed.release(&mut core);
    // the connection still counts the owned handle and survives a purge
    db.purge(&mut core);
    assert!(db.is_opened(&core));
    owned.release(&mut core);
    db.purge(&mut core);
    assert!(!db.is_opened(&core));
}

#[test]
fn highest_priority_runs_first() {
    let mut core = Core::new();
    let db = Database::create(&mut core, "/tmp/highest.db").unwrap();
    let log = Arc::new(Mutex::new(Vec::new()));
    db.set_config(
        &mut core,
        "user",
        Box::new(LoggingHook { log: log.clone(), name: "user" }),
        Box::new(NoopHook),
        ConfigPriority::High,
    )
    .unwrap();
    // the reserved highest bucket precedes every user entry, as cipher
    // setup must
    db.set_config(
        &mut core,
        "cipher",
        Box::new(LoggingHook { log: log.clone(), name: "cipher" }),
        Box::new(NoopHook),
        ConfigPriority::Highest,
    )
    .unwrap();
    let h = db.get_handle(&mut core, 1).unwrap();
    assert_eq!(*log.lock().unwrap(), vec!["cipher".to_string(), "user".to_string()]);
    h.release(&mut core);
}
