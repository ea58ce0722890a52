use vstd::prelude::*;

use crate::error::{Error, WCDBError, WCDBErrorCode, WCDBErrorLevel, WCDBExtraInfoValue};
use crate::handle::Handle;
use crate::Tag;

verus! {

// ------------------------------------------------------------------
// User-implemented callbacks
// ------------------------------------------------------------------

/// A configuration hook, implemented by users of the library and run by the
/// engine against connections of the database it is registered on.
///
/// A hook must report failure through its return value — `false` aborts the
/// creation of the connection it runs against — and must never unwind
/// across the callback boundary: the engine treats a panic escaping a hook
/// as fatal to the process. Hooks run from whichever worker thread
/// materializes a connection, so they are `Send` and `Sync`.
pub trait ConfigHook: Send + Sync {
    /// Runs the hook against the connection `handle` refers to; `false`
    /// reports failure.
    ///
    /// The engine lends the connection for the duration of the call: the
    /// handle is borrowed, so dropping it releases nothing.
    fn invoke(&self, handle: Handle) -> bool
        requires
            !handle.is_owned(),
    ;
}

/// The completion callback of [`Database::close_with_callback`],
/// implemented by users of the library.
pub trait OnClosedCallback: Send + Sync {
    /// Runs exactly once, after the database has been torn down and before
    /// the close call returns.
    ///
    /// The callback observes the database still blockaded and with no live
    /// connection left; it must not try to acquire a handle of, or close,
    /// the same database again from the calling thread.
    fn on_closed(&self, database: &Database, core: &Core)
        requires
            database.wf(core),
            database.entry_view(core).blockaded,
            database.entry_view(core).conns.len() == 0,
    ;
}

// ------------------------------------------------------------------
// Specification-level views of the engine state
// ------------------------------------------------------------------

/// The view of one registered configuration entry: its name, its priority
/// and its registration stamp. The hooks themselves are opaque callables;
/// the stamp is what identifies them at the specification level — every
/// successful registration carries a fresh stamp, so replacing an entry
/// observably installs a new registration.
pub struct ConfigView {
    pub name: Seq<char>,
    pub priority: i32,
    /// The registration stamp, fresh at each successful registration.
    pub reg: u64,
}

/// The view of cipher parameters: key bytes, page size and version.
pub struct CipherView {
    pub key: Seq<u8>,
    pub page_size: i32,
    pub version: CipherVersion,
}

/// The view of one live connection.
pub struct ConnView {
    /// The process-unique identity of the connection.
    pub id: u64,
    /// The thread the connection is assigned to.
    pub thread: u64,
    /// How many owned handles over this connection are outstanding; `0`
    /// means the connection is idle and merely cached.
    pub users: u64,
    /// The names of the configuration entries whose invocation hook ran on
    /// this connection, in invocation order.
    pub applied: Seq<Seq<char>>,
    /// The registration stamps of those entries, in the same order: they
    /// identify exactly which registrations' hooks ran.
    pub applied_regs: Seq<u64>,
    /// The cipher parameters the connection was opened with, if any.
    pub cipher: Option<CipherView>,
    /// The advisory write hint the connection was requested with.
    pub write_hint: bool,
}

/// The view of one registry entry: the state shared by every [`Database`]
/// value that refers to the same canonical path.
pub struct DbView {
    pub path: Seq<char>,
    /// The shared tag; `0` means unset.
    pub tag: i64,
    pub blockaded: bool,
    /// The configuration chain, kept sorted by ascending priority with ties
    /// in registration order.
    pub configs: Seq<ConfigView>,
    /// The live connections, idle ones included.
    pub conns: Seq<ConnView>,
    /// The pending cipher parameters; `None` means encryption is off.
    pub cipher: Option<CipherView>,
    /// The error most recently recorded against this database identity.
    pub last_error: Option<WCDBError>,
}

/// The view of the whole engine state.
pub struct CoreView {
    pub dbs: Seq<DbView>,
    /// The process-wide default cipher version.
    pub default_cipher: CipherVersion,
    /// The next fresh connection identity; every identity ever handed out
    /// is below it.
    pub next_conn: u64,
    /// The next fresh registration stamp; every stamp ever issued is below
    /// it.
    pub next_config: u64,
}

// ------------------------------------------------------------------
// Engine state
// ------------------------------------------------------------------

/// Owned cipher parameters.
struct Cipher {
    key: Vec<u8>,
    page_size: i32,
    version: CipherVersion,
}

impl View for Cipher {
    type V = CipherView;

    closed spec fn view(&self) -> CipherView {
        CipherView { key: self.key@, page_size: self.page_size, version: self.version }
    }
}

/// One registered configuration entry.
struct ConfigEntry {
    name: String,
    priority: i32,
    reg: u64,
    invocation: Box<dyn ConfigHook>,
    uninvocation: Box<dyn ConfigHook>,
}

impl View for ConfigEntry {
    type V = ConfigView;

    closed spec fn view(&self) -> ConfigView {
        ConfigView { name: self.name@, priority: self.priority, reg: self.reg }
    }
}

/// One live connection of a database.
struct Connection {
    id: u64,
    thread: u64,
    users: u64,
    applied: Vec<String>,
    applied_regs: Vec<u64>,
    cipher: Option<Cipher>,
    write_hint: bool,
}

impl View for Connection {
    type V = ConnView;

    closed spec fn view(&self) -> ConnView {
        ConnView {
            id: self.id,
            thread: self.thread,
            users: self.users,
            applied: self.applied.deep_view(),
            applied_regs: self.applied_regs@,
            cipher: spec_cipher_opt(&self.cipher),
            write_hint: self.write_hint,
        }
    }
}

/// One registry entry: the shared state of one logical database.
struct DbEntry {
    path: String,
    tag: i64,
    blockaded: bool,
    configs: Vec<ConfigEntry>,
    conns: Vec<Connection>,
    cipher: Option<Cipher>,
    last_error: Option<WCDBError>,
}

impl View for DbEntry {
    type V = DbView;

    closed spec fn view(&self) -> DbView {
        DbView {
            path: self.path@,
            tag: self.tag,
            blockaded: self.blockaded,
            configs: cfg_views(self.configs@),
            conns: conn_views(self.conns@),
            cipher: spec_cipher_opt(&self.cipher),
            last_error: self.last_error,
        }
    }
}

/// The process-wide state of the storage engine: the registry of logical
/// databases and the process-level defaults.
///
/// The engine keeps this state behind its own synchronization; this model
/// holds it in one explicit value, so a program that shares it between
/// threads wraps it in a lock and passes it to each call.
pub struct Core {
    dbs: Vec<DbEntry>,
    default_cipher: CipherVersion,
    next_conn: u64,
    next_config: u64,
}

impl View for Core {
    type V = CoreView;

    closed spec fn view(&self) -> CoreView {
        CoreView {
            dbs: db_views(self.dbs@),
            default_cipher: self.default_cipher,
            next_conn: self.next_conn,
            next_config: self.next_config,
        }
    }
}

// ------------------------------------------------------------------
// Specification helpers
// ------------------------------------------------------------------

/// The view of an optional cipher setting.
closed spec fn spec_cipher_opt(c: &Option<Cipher>) -> Option<CipherView> {
    match c {
        Some(x) => Some(x@),
        None => None,
    }
}

/// The views of a sequence of configuration entries.
closed spec fn cfg_views(s: Seq<ConfigEntry>) -> Seq<ConfigView> {
    s.map_values(|c: ConfigEntry| c@)
}

/// The views of a sequence of connections.
closed spec fn conn_views(s: Seq<Connection>) -> Seq<ConnView> {
    s.map_values(|c: Connection| c@)
}

/// The views of the registry entries.
closed spec fn db_views(s: Seq<DbEntry>) -> Seq<DbView> {
    s.map_values(|d: DbEntry| d@)
}

/// Whether `s` holds an interior NUL character, which no path or name may
/// carry across the storage boundary.
pub open spec fn contains_nul(s: Seq<char>) -> bool {
    exists|i: int| 0 <= i < s.len() && s[i] == '\0'
}

/// The names of a configuration chain, in chain order.
pub open spec fn config_names(c: Seq<ConfigView>) -> Seq<Seq<char>> {
    c.map_values(|e: ConfigView| e.name)
}

/// The registration stamps of a configuration chain, in chain order.
pub open spec fn config_regs(c: Seq<ConfigView>) -> Seq<u64> {
    c.map_values(|e: ConfigView| e.reg)
}

/// Whether every stamp of a chain was issued (is below the next fresh
/// stamp) and no two entries share one.
pub open spec fn chain_regs_wf(c: Seq<ConfigView>, next_config: u64) -> bool {
    &&& forall|k: int| 0 <= k < c.len() ==> (#[trigger] c[k]).reg < next_config
    &&& forall|k: int, l: int|
        0 <= k < l < c.len() ==> (#[trigger] c[k]).reg != (#[trigger] c[l]).reg
}

/// Whether the priorities of a chain are non-decreasing, so that lower
/// priorities run first and ties keep registration order.
pub open spec fn chain_sorted(c: Seq<ConfigView>) -> bool {
    forall|i: int, j: int|
        0 <= i < j < c.len() ==> #[trigger] c[i].priority <= #[trigger] c[j].priority
}

/// Whether the names of a chain are pairwise distinct.
pub open spec fn chain_names_unique(c: Seq<ConfigView>) -> bool {
    forall|i: int, j: int| 0 <= i < j < c.len() ==> (#[trigger] c[i].name) != (#[trigger] c[j].name)
}

/// The chain `c` with every entry named `name` removed.
pub open spec fn chain_without(c: Seq<ConfigView>, name: Seq<char>) -> Seq<ConfigView>
    decreases c.len(),
{
    if c.len() == 0 {
        Seq::empty()
    } else if c[0].name == name {
        chain_without(c.drop_first(), name)
    } else {
        seq![c[0]] + chain_without(c.drop_first(), name)
    }
}

/// Where an entry of priority `p` is placed in the sorted chain `c`: after
/// every entry whose priority is not greater, so ties break in
/// registration order.
pub open spec fn chain_insert_pos(c: Seq<ConfigView>, p: i32) -> int
    decreases c.len(),
{
    if c.len() == 0 {
        0
    } else if c[0].priority > p {
        0
    } else {
        1 + chain_insert_pos(c.drop_first(), p)
    }
}

/// The chain `c` after registering `e`: any previous entry under `e`'s name
/// is removed and `e` is placed after every entry whose priority is not
/// greater, so ties break in registration order.
pub open spec fn chain_register(c: Seq<ConfigView>, e: ConfigView) -> Seq<ConfigView> {
    let w = chain_without(c, e.name);
    w.insert(chain_insert_pos(w, e.priority), e)
}

/// The connections that survive a purge: exactly those still in use.
pub open spec fn retained_conns(s: Seq<ConnView>) -> Seq<ConnView>
    decreases s.len(),
{
    if s.len() == 0 {
        Seq::empty()
    } else if s[0].users > 0 {
        seq![s[0]] + retained_conns(s.drop_first())
    } else {
        retained_conns(s.drop_first())
    }
}

/// The cipher parameters a fresh connection of `d` is opened with: the
/// pending parameters, with `DefaultVersion` resolved against the
/// process-wide default.
pub open spec fn effective_cipher(d: DbView, default_cipher: CipherVersion) -> Option<CipherView> {
    match d.cipher {
        None => None,
        Some(c) => Some(
            CipherView {
                version: if c.version == CipherVersion::DefaultVersion {
                    default_cipher
                } else {
                    c.version
                },
                ..c
            },
        ),
    }
}

/// The view of a connection freshly materialized for `d`.
pub open spec fn fresh_conn(
    next_conn: u64,
    d: DbView,
    default_cipher: CipherVersion,
    thread: u64,
    write_hint: bool,
) -> ConnView {
    ConnView {
        id: next_conn,
        thread,
        users: 1,
        applied: config_names(d.configs),
        applied_regs: config_regs(d.configs),
        cipher: effective_cipher(d, default_cipher),
        write_hint,
    }
}

/// The view of a registry entry fresh from [`Database::create`].
pub open spec fn new_db_view(path: Seq<char>) -> DbView {
    DbView {
        path,
        tag: 0,
        blockaded: false,
        configs: Seq::empty(),
        conns: Seq::empty(),
        cipher: None,
        last_error: None,
    }
}

/// The view of a registry entry after the close protocol tore every
/// connection down and recorded `last_error`.
pub open spec fn closed_db(d: DbView, last_error: Option<WCDBError>) -> DbView {
    DbView { conns: Seq::empty(), last_error, ..d }
}

/// Whether the registry holds an entry for `path`.
pub open spec fn has_db(v: CoreView, path: Seq<char>) -> bool {
    exists|i: int| 0 <= i < v.dbs.len() && (#[trigger] v.dbs[i]).path == path
}

/// The well-formedness of one registry entry against the identity bound
/// `next_conn`.
pub open spec fn db_wf(d: DbView, next_conn: u64) -> bool {
    &&& forall|k: int| 0 <= k < d.conns.len() ==> (#[trigger] d.conns[k]).id < next_conn
    &&& forall|k: int, l: int|
        0 <= k < l < d.conns.len() ==> (#[trigger] d.conns[k]).id != (#[trigger] d.conns[l]).id
    &&& forall|k: int, l: int|
        0 <= k < l < d.conns.len() ==> (#[trigger] d.conns[k]).thread != (
        #[trigger] d.conns[l]).thread
    &&& chain_sorted(d.configs)
    &&& chain_names_unique(d.configs)
}

impl Core {
    /// The well-formedness of the whole engine state: paths are unique, so
    /// one path names one shared entry; connection identities are unique
    /// and below `next_conn`; each database holds at most one connection
    /// per thread; and every configuration chain is sorted with distinct
    /// names.
    pub open spec fn wf(&self) -> bool {
        &&& forall|i: int, j: int|
            0 <= i < j < self@.dbs.len() ==> (#[trigger] self@.dbs[i]).path != (
            #[trigger] self@.dbs[j]).path
        &&& forall|i: int|
            0 <= i < self@.dbs.len() ==> db_wf(#[trigger] self@.dbs[i], self@.next_conn)
        &&& forall|i: int|
            0 <= i < self@.dbs.len() ==> chain_regs_wf(
                (#[trigger] self@.dbs[i]).configs,
                self@.next_config,
            )
    }

    /// A fresh engine state: no databases, the default cipher version, and
    /// no connection identity handed out yet.
    pub fn new() -> (core: Core)
        ensures
            core.wf(),
            core@.dbs.len() == 0,
            core@.default_cipher == CipherVersion::DefaultVersion,
            core@.next_conn == 0,
            core@.next_config == 0,
    {
        Core {
            dbs: Vec::new(),
            default_cipher: CipherVersion::DefaultVersion,
            next_conn: 0,
            next_config: 0,
        }
    }
}

// ------------------------------------------------------------------
// Cipher configuration
// ------------------------------------------------------------------

/// The cipher versions the engine knows; `DefaultVersion` defers to the
/// process-wide default set by [`Database::set_default_cipher`].
#[derive(Debug, Clone, Copy, PartialEq, Eq, Structural, Hash)]
pub enum CipherVersion {
    DefaultVersion,
    Version1,
    Version2,
    Version3,
    Version4,
}

/// Encryption-at-rest parameters for one database: a raw key — absence
/// disables encryption — a page size, and a cipher version.
pub struct CipherConfig<'a> {
    pub key: Option<&'a [u8]>,
    pub page_size: i32,
    pub cipher_version: CipherVersion,
}

impl<'a> Default for CipherConfig<'a> {
    /// No key, page size 4096, default cipher version.
    fn default() -> (r: CipherConfig<'a>)
        ensures
            r.key is None,
            r.page_size == 4096,
            r.cipher_version == CipherVersion::DefaultVersion,
    {
        CipherConfig { key: None, page_size: 4096, cipher_version: CipherVersion::DefaultVersion }
    }
}

/// A builder for [`CipherConfig`].
pub struct CipherConfigBuilder<'a>(CipherConfig<'a>);

impl<'a> CipherConfigBuilder<'a> {
    /// The parameters collected so far, for specifications.
    pub closed spec fn current(&self) -> CipherConfig<'a> {
        self.0
    }

    /// Starts from the default parameters.
    pub fn new() -> (b: Self)
        ensures
            b.current().key is None,
            b.current().page_size == 4096,
            b.current().cipher_version == CipherVersion::DefaultVersion,
    {
        CipherConfigBuilder(CipherConfig::default())
    }

    /// Sets the raw key.
    pub fn key(self, key: &'a [u8]) -> (b: Self)
        ensures
            b.current() == (CipherConfig { key: Some(key), ..self.current() }),
    {
        let CipherConfigBuilder(c) = self;
        CipherConfigBuilder(CipherConfig { key: Some(key), ..c })
    }

    /// Sets the page size.
    pub fn page_size(self, page_size: i32) -> (b: Self)
        ensures
            b.current() == (CipherConfig { page_size, ..self.current() }),
    {
        let CipherConfigBuilder(c) = self;
        CipherConfigBuilder(CipherConfig { page_size, ..c })
    }

    /// Sets the cipher version.
    pub fn cipher_version(self, cipher_version: CipherVersion) -> (b: Self)
        ensures
            b.current() == (CipherConfig { cipher_version, ..self.current() }),
    {
        let CipherConfigBuilder(c) = self;
        CipherConfigBuilder(CipherConfig { cipher_version, ..c })
    }

    /// The collected parameters.
    pub fn build(self) -> (c: CipherConfig<'a>)
        ensures
            c == self.current(),
    {
        let CipherConfigBuilder(c) = self;
        c
    }
}

/// Conventional priority buckets for configuration entries; lower runs
/// first. `Highest` is reserved for cipher setup, so that it always
/// precedes user configuration.
#[derive(Debug, Clone, Copy, PartialEq, Eq, Structural, Hash)]
pub enum ConfigPriority {
    Highest,
    High,
    Default,
    Low,
}

impl ConfigPriority {
    /// The numeric priority of this bucket, for specifications.
    pub open spec fn priority_value(self) -> i32 {
        match self {
            ConfigPriority::Highest => i32::MIN,
            ConfigPriority::High => (-100) as i32,
            ConfigPriority::Default => 0 as i32,
            ConfigPriority::Low => 100 as i32,
        }
    }

    /// The numeric priority of this bucket.
    pub fn value(self) -> (r: i32)
        ensures
            r == self.priority_value(),
    {
        match self {
            ConfigPriority::Highest => i32::MIN,
            ConfigPriority::High => -100,
            ConfigPriority::Default => 0,
            ConfigPriority::Low => 100,
        }
    }
}

// ------------------------------------------------------------------
// Small executable helpers
// ------------------------------------------------------------------

/// Whether `s` holds an interior NUL character.
fn has_nul(s: &str) -> (r: bool)
    ensures
        r == contains_nul(s@),
{
    let n = s.unicode_len();
    let mut i: usize = 0;
    while i < n
        invariant
            n == s@.len(),
            i <= n,
            forall|j: int| 0 <= j < i ==> s@[j] != '\0',
        decreases n - i,
    {
        if s.get_char(i) == '\0' {
            return true;
        }
        i = i + 1;
    }
    false
}

/// Whether two string slices hold the same characters.
fn str_eq(a: &str, b: &str) -> (r: bool)
    ensures
        r == (a@ == b@),
{
    let x = a.to_owned();
    let y = b.to_owned();
    x == y
}

/// Replacing the entry at `i` by first removing it and inserting the new
/// value back at the same place leaves an update of the original sequence.
proof fn lemma_remove_insert<T>(s: Seq<T>, i: int, x: T)
    requires
        0 <= i < s.len(),
    ensures
        s.remove(i).insert(i, x) =~= s.update(i, x),
{
}

// ------------------------------------------------------------------
// Database
// ------------------------------------------------------------------

/// A cheap reference to one logical database.
///
/// Every value created for the same canonical path refers to the same
/// shared registry entry inside [`Core`]: all of them observe one tag, one
/// blockade flag and one configuration chain. Cloning a `Database` never
/// copies any engine state.
#[derive(Debug, Clone, Copy)]
pub struct Database {
    index: usize,
}

impl Database {
    /// The registry entry this value refers to, for specifications.
    pub closed spec fn id(&self) -> int {
        self.index as int
    }

    /// Whether this value refers to an entry of `core`'s registry.
    pub open spec fn wf(&self, core: &Core) -> bool {
        0 <= self.id() < core@.dbs.len()
    }

    /// The registry entry this value refers to, for specifications.
    pub open spec fn entry_view(&self, core: &Core) -> DbView {
        core@.dbs[self.id()]
    }

    /// Opens the database at `path`, creating the registry entry on first
    /// use; a later `create` for the same path returns a reference to the
    /// same entry. Never fails for an unreachable database — connections
    /// are materialized lazily — only for a path holding an interior NUL.
    pub fn create(core: &mut Core, path: &str) -> (r: Result<Database, Error>)
        requires
            old(core).wf(),
        ensures
            final(core).wf(),
            final(core)@.default_cipher == old(core)@.default_cipher,
            final(core)@.next_conn == old(core)@.next_conn,
            final(core)@.next_config == old(core)@.next_config,
            contains_nul(path@) ==> r is Err && final(core)@ == old(core)@,
            !contains_nul(path@) ==> r is Ok,
            r matches Err(e) ==> e is NulError,
            r matches Ok(db) ==> {
                &&& db.wf(final(core))
                &&& final(core)@.dbs[db.id()].path == path@
                &&& if has_db(old(core)@, path@) {
                    final(core)@ == old(core)@
                } else {
                    &&& db.id() == old(core)@.dbs.len()
                    &&& final(core)@.dbs == old(core)@.dbs.push(new_db_view(path@))
                }
            },
    {
        if has_nul(path) {
            return Err(Error::NulError);
        }
        let ghost pre = core@;
        let mut i: usize = 0;
        while i < core.dbs.len()
            invariant
                core == old(core),
                core.wf(),
                !contains_nul(path@),
                i <= core@.dbs.len(),
                forall|j: int| 0 <= j < i ==> (#[trigger] core@.dbs[j]).path != path@,
            decreases core@.dbs.len() - i,
        {
            assert(core@.dbs[i as int] == core.dbs@[i as int]@);
            if str_eq(core.dbs[i].path.as_str(), path) {
                proof {
                    assert(core@.dbs[i as int].path == path@);
                    assert(has_db(old(core)@, path@));
                }
                return Ok(Database { index: i });
            }
            i = i + 1;
        }
        let entry = DbEntry {
            path: path.to_owned(),
            tag: 0,
            blockaded: false,
            configs: Vec::new(),
            conns: Vec::new(),
            cipher: None,
            last_error: None,
        };
        let ghost esnap = entry;
        let index = core.dbs.len();
        core.dbs.push(entry);
        proof {
            assert(cfg_views(Seq::<ConfigEntry>::empty()) =~= Seq::<ConfigView>::empty());
            assert(conn_views(Seq::<Connection>::empty()) =~= Seq::<ConnView>::empty());
            assert(esnap@ == new_db_view(path@));
            assert forall|j: int|
                0 <= j < core.dbs@.len() implies #[trigger] db_views(core.dbs@)[j] == pre.dbs.push(
                new_db_view(path@),
            )[j] by {
                if j < pre.dbs.len() {
                    assert(core.dbs@[j] == old(core).dbs@[j]);
                } else {
                    assert(core.dbs@[j] == esnap);
                }
            }
            assert(core@.dbs =~= pre.dbs.push(new_db_view(path@)));
            assert forall|k: int| 0 <= k < pre.dbs.len() implies (#[trigger] pre.dbs[k]).path
                != path@ by {}
            assert(!has_db(pre, path@));
            assert forall|a: int, b: int|
                0 <= a < b < core@.dbs.len() implies (#[trigger] core@.dbs[a]).path != (
            #[trigger] core@.dbs[b]).path by {
                if b < pre.dbs.len() {
                } else {
                    assert(core@.dbs[a] == pre.dbs[a]);
                }
            }
            assert forall|k: int| 0 <= k < core@.dbs.len() implies db_wf(
                #[trigger] core@.dbs[k],
                core@.next_conn,
            ) && chain_regs_wf(core@.dbs[k].configs, core@.next_config) by {
                if k < pre.dbs.len() {
                    assert(core@.dbs[k] == pre.dbs[k]);
                    assert(chain_regs_wf(pre.dbs[k].configs, pre.next_config));
                }
            }
        }
        Ok(Database { index })
    }

    /// The index of the shared registry entry this value refers to: the
    /// model's analogue of the raw engine reference.
    pub fn as_ptr(&self) -> (r: usize)
        ensures
            r == self.id(),
    {
        self.index
    }

    /// The canonical path of this database. The engine may normalize the
    /// path it was opened with; this model registers the given path as
    /// already canonical.
    pub fn get_path(&self, core: &Core) -> (r: String)
        requires
            self.wf(core),
        ensures
            r@ == self.entry_view(core).path,
    {
        proof {
            assert(self.entry_view(core) == core.dbs@[self.id()]@);
        }
        let s: &String = &core.dbs[self.index].path;
        s.clone()
    }

    /// The shared tag of this database; `None` until one is set. Every
    /// `Database` value for the same path observes the same tag.
    pub fn get_tag(&self, core: &Core) -> (r: Option<Tag>)
        requires
            self.wf(core),
        ensures
            r == spec_tag_opt(self.entry_view(core).tag),
    {
        proof {
            assert(self.entry_view(core) == core.dbs@[self.id()]@);
        }
        let tag = core.dbs[self.index].tag;
        if tag == 0 {
            None
        } else {
            Some(#[verifier::truncate] (tag as i32))
        }
    }

    /// Sets (or, with `None`, unsets) the shared tag of this database.
    pub fn set_tag(&self, core: &mut Core, tag: Option<Tag>)
        requires
            old(core).wf(),
            self.wf(old(core)),
        ensures
            final(core).wf(),
            final(core)@ == (CoreView {
                dbs: old(core)@.dbs.update(
                    self.id(),
                    DbView { tag: spec_tag_raw(tag), ..self.entry_view(old(core)) },
                ),
                ..old(core)@
            }),
    {
        let t: i64 = match tag {
            Some(v) => v as i64,
            None => 0,
        };
        let mut d = take_entry(core, self.index);
        d.tag = t;
        put_entry(core, self.index, d);
        proof {
            lemma_remove_insert(old(core)@.dbs, self.id(), core@.dbs[self.id()]);
            lemma_wf_update(old(core)@, core@, self.id());
        }
    }

    /// Whether this database is blockaded.
    pub fn is_blockaded(&self, core: &Core) -> (r: bool)
        requires
            self.wf(core),
        ensures
            r == self.entry_view(core).blockaded,
    {
        proof {
            assert(self.entry_view(core) == core.dbs@[self.id()]@);
        }
        core.dbs[self.index].blockaded
    }

    /// Blockades this database: new connection acquisition halts until
    /// [`Database::unblockade`], while existing connections stay alive.
    pub fn blockade(&self, core: &mut Core)
        requires
            old(core).wf(),
            self.wf(old(core)),
        ensures
            final(core).wf(),
            final(core)@ == (CoreView {
                dbs: old(core)@.dbs.update(
                    self.id(),
                    DbView { blockaded: true, ..self.entry_view(old(core)) },
                ),
                ..old(core)@
            }),
    {
        let mut d = take_entry(core, self.index);
        d.blockaded = true;
        put_entry(core, self.index, d);
        proof {
            lemma_remove_insert(old(core)@.dbs, self.id(), core@.dbs[self.id()]);
            lemma_wf_update(old(core)@, core@, self.id());
        }
    }

    /// Lifts the blockade, resuming connection acquisition.
    pub fn unblockade(&self, core: &mut Core)
        requires
            old(core).wf(),
            self.wf(old(core)),
        ensures
            final(core).wf(),
            final(core)@ == (CoreView {
                dbs: old(core)@.dbs.update(
                    self.id(),
                    DbView { blockaded: false, ..self.entry_view(old(core)) },
                ),
                ..old(core)@
            }),
    {
        let mut d = take_entry(core, self.index);
        d.blockaded = false;
        put_entry(core, self.index, d);
        proof {
            lemma_remove_insert(old(core)@.dbs, self.id(), core@.dbs[self.id()]);
            lemma_wf_update(old(core)@, core@, self.id());
        }
    }

    /// Whether at least one live underlying connection exists for this
    /// database, idle cached ones included.
    pub fn is_opened(&self, core: &Core) -> (r: bool)
        requires
            self.wf(core),
        ensures
            r == (self.entry_view(core).conns.len() > 0),
    {
        proof {
            assert(self.entry_view(core) == core.dbs@[self.id()]@);
        }
        core.dbs[self.index].conns.len() > 0
    }

    /// Configures encryption-at-rest for this database. Without a key,
    /// encryption is switched off and the remaining parameters are
    /// ignored. The parameters apply to connections materialized from now
    /// on; combine with close and reopen to re-key existing ones.
    pub fn set_cipher(&self, core: &mut Core, config: CipherConfig<'_>)
        requires
            old(core).wf(),
            self.wf(old(core)),
        ensures
            final(core).wf(),
            final(core)@ == (CoreView {
                dbs: old(core)@.dbs.update(
                    self.id(),
                    DbView { cipher: spec_cipher_config(config), ..self.entry_view(old(core)) },
                ),
                ..old(core)@
            }),
    {
        let cipher: Option<Cipher> = match config.key {
            Some(k) => Some(
                Cipher {
                    key: vstd::slice::slice_to_vec(k),
                    page_size: config.page_size,
                    version: config.cipher_version,
                },
            ),
            None => None,
        };
        let mut d = take_entry(core, self.index);
        d.cipher = cipher;
        put_entry(core, self.index, d);
        proof {
            lemma_remove_insert(old(core)@.dbs, self.id(), core@.dbs[self.id()]);
            lemma_wf_update(old(core)@, core@, self.id());
        }
    }

    /// Sets the process-wide default cipher version, used by databases
    /// whose own parameters leave the version at `DefaultVersion`.
    pub fn set_default_cipher(core: &mut Core, version: CipherVersion)
        requires
            old(core).wf(),
        ensures
            final(core).wf(),
            final(core)@ == (CoreView { default_cipher: version, ..old(core)@ }),
    {
        core.default_cipher = version;
    }

    /// The error most recently recorded against this database identity; an
    /// empty record if none was.
    pub fn error(&self, core: &Core) -> (r: Error)
        requires
            self.wf(core),
        ensures
            r matches Error::WCDBError(b) && error_matches_opt(*b, self.entry_view(core).last_error),
    {
        proof {
            assert(self.entry_view(core) == core.dbs@[self.id()]@);
        }
        let e = match &core.dbs[self.index].last_error {
            Some(stored) => clone_error(stored),
            None => WCDBError::default(),
        };
        Error::WCDBError(Box::new(e))
    }
}

/// The raw shared tag a caller-supplied optional tag stores: `0` for
/// `None`.
pub open spec fn spec_tag_raw(tag: Option<Tag>) -> i64 {
    match tag {
        Some(v) => v as i64,
        None => 0,
    }
}

/// The optional tag a raw shared tag reads back as: `0` means unset.
pub open spec fn spec_tag_opt(raw: i64) -> Option<Tag> {
    if raw == 0 {
        None
    } else {
        Some(raw as i32)
    }
}

/// The pending cipher parameters a [`CipherConfig`] stores: nothing without
/// a key.
pub open spec fn spec_cipher_config(config: CipherConfig<'_>) -> Option<CipherView> {
    match config.key {
        Some(k) => Some(
            CipherView { key: k@, page_size: config.page_size, version: config.cipher_version },
        ),
        None => None,
    }
}

/// Whether two extra-info values carry the same content.
pub open spec fn same_extra_value(x: WCDBExtraInfoValue, y: WCDBExtraInfoValue) -> bool {
    match (x, y) {
        (WCDBExtraInfoValue::Int(a), WCDBExtraInfoValue::Int(b)) => a == b,
        (WCDBExtraInfoValue::Double(a), WCDBExtraInfoValue::Double(b)) => a == b,
        (WCDBExtraInfoValue::Text(s), WCDBExtraInfoValue::Text(t)) => s@ == t@,
        _ => false,
    }
}

/// Whether the error record `a` reproduces `b` field by field.
pub open spec fn error_matches(a: WCDBError, b: WCDBError) -> bool {
    &&& a.level == b.level
    &&& a.code == b.code
    &&& a.tag == b.tag
    &&& a.extended_code == b.extended_code
    &&& a.message.deep_view() == b.message.deep_view()
    &&& a.source.deep_view() == b.source.deep_view()
    &&& a.sql.deep_view() == b.sql.deep_view()
    &&& a.path.deep_view() == b.path.deep_view()
    &&& a.extra_info@.len() == b.extra_info@.len()
    &&& forall|j: int|
        0 <= j < a.extra_info@.len() ==> (#[trigger] a.extra_info@[j]).0@ == b.extra_info@[j].0@
            && same_extra_value(a.extra_info@[j].1, b.extra_info@[j].1)
}

/// Whether the error record `a` reproduces the stored record, or is the
/// empty record if nothing is stored.
pub open spec fn error_matches_opt(a: WCDBError, stored: Option<WCDBError>) -> bool {
    match stored {
        Some(b) => error_matches(a, b),
        None => {
            &&& a.level == WCDBErrorLevel::Error
            &&& a.code == WCDBErrorCode::OK
            &&& a.tag is None
            &&& a.extended_code is None
            &&& a.message is None
            &&& a.source is None
            &&& a.sql is None
            &&& a.path is None
            &&& a.extra_info@.len() == 0
        },
    }
}

/// Clones a stored error record field by field.
fn clone_error(e: &WCDBError) -> (r: WCDBError)
    ensures
        error_matches(r, *e),
{
    let message = clone_opt_string(&e.message);
    let source = clone_opt_string(&e.source);
    let sql = clone_opt_string(&e.sql);
    let path = clone_opt_string(&e.path);
    let mut extra_info: Vec<(String, WCDBExtraInfoValue)> = Vec::new();
    let mut i: usize = 0;
    while i < e.extra_info.len()
        invariant
            i <= e.extra_info@.len(),
            extra_info@.len() == i,
            forall|j: int|
                0 <= j < i ==> (#[trigger] extra_info@[j]).0@ == e.extra_info@[j].0@
                    && same_extra_value(extra_info@[j].1, e.extra_info@[j].1),
        decreases e.extra_info@.len() - i,
    {
        let pair = &e.extra_info[i];
        let value = match &pair.1 {
            WCDBExtraInfoValue::Int(v) => WCDBExtraInfoValue::Int(*v),
            WCDBExtraInfoValue::Double(b) => WCDBExtraInfoValue::Double(*b),
            WCDBExtraInfoValue::Text(s) => WCDBExtraInfoValue::Text(s.clone()),
        };
        extra_info.push((pair.0.clone(), value));
        i = i + 1;
    }
    WCDBError {
        level: e.level,
        code: e.code,
        tag: e.tag,
        extended_code: e.extended_code,
        message,
        source,
        sql,
        path,
        extra_info,
    }
}

/// Clones an optional string.
fn clone_opt_string(o: &Option<String>) -> (r: Option<String>)
    ensures
        r.deep_view() == o.deep_view(),
{
    match o {
        Some(s) => Some(s.clone()),
        None => None,
    }
}

// ------------------------------------------------------------------
// View bookkeeping lemmas
// ------------------------------------------------------------------

/// Takes the registry entry at `i` out for modification; [`put_entry`]
/// puts it back.
fn take_entry(core: &mut Core, i: usize) -> (d: DbEntry)
    requires
        i < old(core)@.dbs.len(),
    ensures
        d@ == old(core)@.dbs[i as int],
        final(core)@.dbs =~= old(core)@.dbs.remove(i as int),
        final(core)@.default_cipher == old(core)@.default_cipher,
        final(core)@.next_conn == old(core)@.next_conn,
        final(core)@.next_config == old(core)@.next_config,
{
    let d = core.dbs.remove(i);
    proof {
        assert(core@.dbs =~= old(core)@.dbs.remove(i as int));
    }
    d
}

/// Puts a registry entry back at `i`.
fn put_entry(core: &mut Core, i: usize, d: DbEntry)
    requires
        i <= old(core)@.dbs.len(),
    ensures
        final(core)@.dbs =~= old(core)@.dbs.insert(i as int, d@),
        final(core)@.default_cipher == old(core)@.default_cipher,
        final(core)@.next_conn == old(core)@.next_conn,
        final(core)@.next_config == old(core)@.next_config,
{
    core.dbs.insert(i, d);
    proof {
        assert(core@.dbs =~= old(core)@.dbs.insert(i as int, d@));
    }
}

/// A registry whose entries changed only at `i`, keeping that entry's
/// connection identities and chain well-formed, stays well-formed.
proof fn lemma_wf_update(pre: CoreView, now: CoreView, i: int)
    requires
        0 <= i < pre.dbs.len(),
        now.dbs.len() == pre.dbs.len(),
        now.next_conn == pre.next_conn,
        now.next_config == pre.next_config,
        forall|j: int| 0 <= j < pre.dbs.len() && j != i ==> now.dbs[j] == pre.dbs[j],
        now.dbs[i].path == pre.dbs[i].path,
        now.dbs[i].configs == pre.dbs[i].configs,
        now.dbs[i].conns == pre.dbs[i].conns,
        forall|j: int, k: int|
            0 <= j < k < pre.dbs.len() ==> (#[trigger] pre.dbs[j]).path != (
            #[trigger] pre.dbs[k]).path,
        forall|j: int| 0 <= j < pre.dbs.len() ==> db_wf(#[trigger] pre.dbs[j], pre.next_conn),
        forall|j: int|
            0 <= j < pre.dbs.len() ==> chain_regs_wf(
                (#[trigger] pre.dbs[j]).configs,
                pre.next_config,
            ),
    ensures
        forall|j: int, k: int|
            0 <= j < k < now.dbs.len() ==> (#[trigger] now.dbs[j]).path != (
            #[trigger] now.dbs[k]).path,
        forall|j: int| 0 <= j < now.dbs.len() ==> db_wf(#[trigger] now.dbs[j], now.next_conn),
        forall|j: int|
            0 <= j < now.dbs.len() ==> chain_regs_wf(
                (#[trigger] now.dbs[j]).configs,
                now.next_config,
            ),
{
    assert forall|j: int| 0 <= j < now.dbs.len() implies db_wf(
        #[trigger] now.dbs[j],
        now.next_conn,
    ) && chain_regs_wf(now.dbs[j].configs, now.next_config) by {
        assert(db_wf(pre.dbs[j], pre.next_conn));
        assert(chain_regs_wf(pre.dbs[j].configs, pre.next_config));
        if j == i {
            assert(now.dbs[i].conns == pre.dbs[i].conns);
            assert(now.dbs[i].configs == pre.dbs[i].configs);
        }
    }
}


// ------------------------------------------------------------------
// Configuration-chain lemmas
// ------------------------------------------------------------------

/// The insertion position is within bounds, every entry before it has a
/// priority not above `p`, and the entry at it (if any) has a greater one.
pub proof fn lemma_chain_insert_pos(c: Seq<ConfigView>, p: i32)
    ensures
        0 <= chain_insert_pos(c, p) <= c.len(),
        forall|j: int| 0 <= j < chain_insert_pos(c, p) ==> (#[trigger] c[j]).priority <= p,
        chain_insert_pos(c, p) < c.len() ==> c[chain_insert_pos(c, p)].priority > p,
    decreases c.len(),
{
    if c.len() == 0 {
    } else if c[0].priority > p {
    } else {
        lemma_chain_insert_pos(c.drop_first(), p);
        assert forall|j: int| 0 <= j < chain_insert_pos(c, p) implies (#[trigger] c[j]).priority
            <= p by {
            if j > 0 {
                assert(c.drop_first()[j - 1] == c[j]);
            }
        }
        if chain_insert_pos(c, p) < c.len() {
            assert(c.drop_first()[chain_insert_pos(c.drop_first(), p)] == c[chain_insert_pos(
                c,
                p,
            )]);
        }
    }
}

/// Any position with the properties of [`lemma_chain_insert_pos`] is the
/// insertion position.
pub proof fn lemma_chain_insert_pos_unique(c: Seq<ConfigView>, p: i32, k: int)
    requires
        0 <= k <= c.len(),
        forall|j: int| 0 <= j < k ==> (#[trigger] c[j]).priority <= p,
        k < c.len() ==> c[k].priority > p,
    ensures
        k == chain_insert_pos(c, p),
    decreases c.len(),
{
    if c.len() == 0 {
    } else if c[0].priority > p {
        assert(k == 0) by {
            if k > 0 {
                assert(c[0].priority <= p);
            }
        }
    } else {
        assert(k > 0) by {
            if k == 0 {
                assert(c[0].priority > p);
            }
        }
        assert forall|j: int| 0 <= j < k - 1 implies (#[trigger] c.drop_first()[j]).priority
            <= p by {
            assert(c.drop_first()[j] == c[j + 1]);
        }
        if k - 1 < c.drop_first().len() {
            assert(c.drop_first()[k - 1] == c[k]);
        }
        lemma_chain_insert_pos_unique(c.drop_first(), p, k - 1);
    }
}

/// Removing a name keeps every other entry, in order, and keeps the chain
/// sorted and its names unique.
pub proof fn lemma_chain_without(c: Seq<ConfigView>, n: Seq<char>)
    ensures
        chain_without(c, n).len() <= c.len(),
        forall|x: ConfigView| #[trigger]
            chain_without(c, n).contains(x) ==> c.contains(x) && x.name != n,
        chain_sorted(c) ==> chain_sorted(chain_without(c, n)),
        chain_names_unique(c) ==> chain_names_unique(chain_without(c, n)),
    decreases c.len(),
{
    if c.len() == 0 {
    } else {
        let rest = c.drop_first();
        let w = chain_without(rest, n);
        lemma_chain_without(rest, n);
        assert(forall|j: int| 0 <= j < rest.len() ==> #[trigger] rest[j] == c[j + 1]);
        assert(chain_sorted(c) ==> chain_sorted(rest));
        assert(chain_names_unique(c) ==> chain_names_unique(rest));
        assert forall|x: ConfigView| #[trigger] chain_without(c, n).contains(x) implies c.contains(
            x,
        ) && x.name != n by {
            if c[0].name == n {
                assert(w.contains(x));
                let i = choose|i: int| 0 <= i < rest.len() && rest[i] == x;
                assert(c[i + 1] == x);
            } else {
                let full = seq![c[0]] + w;
                let i = choose|i: int| 0 <= i < full.len() && full[i] == x;
                if i == 0 {
                    assert(c[0] == x);
                } else {
                    assert(w.contains(x));
                    let j = choose|j: int| 0 <= j < rest.len() && rest[j] == x;
                    assert(c[j + 1] == x);
                }
            }
        }
        if c[0].name != n {
            let full = seq![c[0]] + w;
            if chain_sorted(c) {
                assert forall|i: int, j: int| 0 <= i < j < full.len() implies (
                #[trigger] full[i]).priority <= (#[trigger] full[j]).priority by {
                    if i == 0 {
                        assert(w.contains(full[j]));
                        let k = choose|k: int| 0 <= k < rest.len() && rest[k] == full[j];
                        assert(c[k + 1] == full[j]);
                        assert(c[0].priority <= c[k + 1].priority);
                    } else {
                        assert(full[i] == w[i - 1] && full[j] == w[j - 1]);
                    }
                }
            }
            if chain_names_unique(c) {
                assert forall|i: int, j: int| 0 <= i < j < full.len() implies (
                #[trigger] full[i]).name != (#[trigger] full[j]).name by {
                    if i == 0 {
                        assert(w.contains(full[j]));
                        let k = choose|k: int| 0 <= k < rest.len() && rest[k] == full[j];
                        assert(c[k + 1] == full[j]);
                        assert(c[0].name != c[k + 1].name);
                    } else {
                        assert(full[i] == w[i - 1] && full[j] == w[j - 1]);
                    }
                }
            }
        }
    }
}

/// Registering an entry on a sorted chain with unique names leaves a sorted
/// chain with unique names, holding exactly one entry under the new name.
pub proof fn lemma_chain_register_wf(c: Seq<ConfigView>, e: ConfigView)
    requires
        chain_sorted(c),
        chain_names_unique(c),
    ensures
        chain_sorted(chain_register(c, e)),
        chain_names_unique(chain_register(c, e)),
        chain_register(c, e).contains(e),
        forall|x: ConfigView| #[trigger]
            chain_register(c, e).contains(x) ==> x == e || (c.contains(x) && x.name != e.name),
{
    let w = chain_without(c, e.name);
    let pos = chain_insert_pos(w, e.priority);
    let r = chain_register(c, e);
    lemma_chain_without(c, e.name);
    lemma_chain_insert_pos(w, e.priority);
    w.insert_ensures(pos, e);
    assert(r[pos] == e);
    assert(r.contains(e));
    assert forall|x: ConfigView| #[trigger] r.contains(x) implies x == e || (c.contains(x)
        && x.name != e.name) by {
        let i = choose|i: int| 0 <= i < r.len() && r[i] == x;
        if i < pos {
            assert(w[i] == x);
            assert(w.contains(x));
        } else if i == pos {
        } else {
            assert(r[(i - 1) + 1] == w[i - 1]);
            assert(w.contains(x));
        }
    }
    assert forall|i: int, j: int| 0 <= i < j < r.len() implies (#[trigger] r[i]).priority <= (
    #[trigger] r[j]).priority by {
        chain_register_index_facts(w, e, pos, i);
        chain_register_index_facts(w, e, pos, j);
        if i < pos && j == pos {
            assert(w[i].priority <= e.priority);
        } else if i == pos && j > pos {
            assert(chain_sorted(w));
            if pos < w.len() {
                assert(w[pos].priority > e.priority);
                assert(w[pos].priority <= w[j - 1].priority);
            }
        }
    }
    assert forall|i: int, j: int| 0 <= i < j < r.len() implies (#[trigger] r[i]).name != (
    #[trigger] r[j]).name by {
        chain_register_index_facts(w, e, pos, i);
        chain_register_index_facts(w, e, pos, j);
        if i == pos {
            assert(w.contains(w[j - 1]));
        } else if j == pos {
            assert(w.contains(w[i]));
        }
    }
}

/// Registering an entry carrying the next fresh stamp keeps every stamp
/// issued and pairwise distinct under the bumped counter.
pub proof fn lemma_chain_register_regs(c: Seq<ConfigView>, e: ConfigView)
    requires
        chain_sorted(c),
        chain_names_unique(c),
        chain_regs_wf(c, e.reg),
        e.reg < u64::MAX,
    ensures
        chain_regs_wf(chain_register(c, e), (e.reg + 1) as u64),
{
    lemma_chain_register_wf(c, e);
    let r = chain_register(c, e);
    assert forall|k: int| 0 <= k < r.len() implies (#[trigger] r[k]).reg < (e.reg + 1) as u64 by {
        assert(r.contains(r[k]));
        if r[k] != e {
            assert(c.contains(r[k]));
            let i = choose|i: int| 0 <= i < c.len() && c[i] == r[k];
            assert(c[i].reg < e.reg);
        }
    }
    assert forall|k: int, l: int| 0 <= k < l < r.len() implies (#[trigger] r[k]).reg != (
    #[trigger] r[l]).reg by {
        assert(r[k].name != r[l].name);
        assert(r.contains(r[k]));
        assert(r.contains(r[l]));
        if r[k] == e {
            assert(c.contains(r[l]));
            let i = choose|i: int| 0 <= i < c.len() && c[i] == r[l];
            assert(c[i].reg < e.reg);
        } else if r[l] == e {
            assert(c.contains(r[k]));
            let i = choose|i: int| 0 <= i < c.len() && c[i] == r[k];
            assert(c[i].reg < e.reg);
        } else {
            assert(c.contains(r[k]));
            assert(c.contains(r[l]));
            let i = choose|i: int| 0 <= i < c.len() && c[i] == r[k];
            let j = choose|j: int| 0 <= j < c.len() && c[j] == r[l];
            assert(i != j) by {
                if i == j {
                    assert(r[k] == r[l]);
                }
            }
            if i < j {
                assert(c[i].reg != c[j].reg);
            } else {
                assert(c[j].reg != c[i].reg);
            }
        }
    }
}

/// What stands at index `i` of a chain after the insertion.
proof fn chain_register_index_facts(w: Seq<ConfigView>, e: ConfigView, pos: int, i: int)
    requires
        pos == chain_insert_pos(w, e.priority),
        0 <= i < w.insert(pos, e).len(),
    ensures
        i < pos ==> w.insert(pos, e)[i] == w[i] && w[i].priority <= e.priority,
        i == pos ==> w.insert(pos, e)[i] == e,
        i > pos ==> w.insert(pos, e)[i] == w[i - 1],
{
    lemma_chain_insert_pos(w, e.priority);
    w.insert_ensures(pos, e);
}

// ------------------------------------------------------------------
// Configuration registration
// ------------------------------------------------------------------

/// Rebuilds a configuration list with every entry named `name` removed.
fn strip_name(configs: Vec<ConfigEntry>, name: &str) -> (r: Vec<ConfigEntry>)
    ensures
        cfg_views(r@) =~= chain_without(cfg_views(configs@), name@),
{
    let ghost orig = cfg_views(configs@);
    let mut src = configs;
    let mut out: Vec<ConfigEntry> = Vec::new();
    while src.len() > 0
        invariant
            chain_without(orig, name@) =~= cfg_views(out@) + chain_without(
                cfg_views(src@),
                name@,
            ),
        decreases src.len(),
    {
        let ghost pre_src = cfg_views(src@);
        let ghost pre_out = cfg_views(out@);
        let c = src.remove(0);
        proof {
            assert(pre_src[0] == c@);
            assert(cfg_views(src@) =~= pre_src.drop_first());
        }
        if str_eq(c.name.as_str(), name) {
            proof {
                assert(chain_without(pre_src, name@) == chain_without(pre_src.drop_first(), name@));
            }
        } else {
            out.push(c);
            proof {
                assert(cfg_views(out@) =~= pre_out.push(c@));
                assert(chain_without(pre_src, name@) == seq![c@] + chain_without(
                    pre_src.drop_first(),
                    name@,
                ));
                assert(pre_out + (seq![c@] + chain_without(pre_src.drop_first(), name@))
                    =~= pre_out.push(c@) + chain_without(pre_src.drop_first(), name@));
            }
        }
    }
    proof {
        assert(chain_without(cfg_views(src@), name@) =~= Seq::<ConfigView>::empty());
        assert(cfg_views(out@) + Seq::<ConfigView>::empty() =~= cfg_views(out@));
    }
    out
}


/// The position where an entry of priority `p` is inserted into the
/// stripped chain.
fn find_insert_pos(configs: &Vec<ConfigEntry>, p: i32) -> (pos: usize)
    ensures
        pos as int == chain_insert_pos(cfg_views(configs@), p),
        pos <= configs@.len(),
{
    let ghost w = cfg_views(configs@);
    let mut pos: usize = 0;
    while pos < configs.len()
        invariant
            pos <= w.len(),
            w == cfg_views(configs@),
            forall|j: int| 0 <= j < pos ==> (#[trigger] w[j]).priority <= p,
        decreases w.len() - pos,
    {
        proof {
            assert(w[pos as int] == configs@[pos as int]@);
        }
        if configs[pos].priority > p {
            proof {
                lemma_chain_insert_pos_unique(w, p, pos as int);
            }
            return pos;
        }
        pos = pos + 1;
    }
    proof {
        lemma_chain_insert_pos_unique(w, p, pos as int);
    }
    pos
}

impl Database {
    /// Registers, or replaces, the named configuration entry on this
    /// database.
    ///
    /// The invocation hook runs against every connection materialized from
    /// now on, after all entries of lower priority and before all entries
    /// of greater priority, ties running in registration order; the
    /// uninvocation hook runs when a connection is torn down. Registering
    /// under an existing name replaces that entry — hooks are stateless,
    /// so the replaced entry's earlier invocations are irrelevant — and
    /// every successful registration carries a fresh stamp, so the
    /// replacement observably installs the new hooks. Fails only for a
    /// name holding an interior NUL.
    pub fn set_config(
        &self,
        core: &mut Core,
        name: &str,
        invocation: Box<dyn ConfigHook>,
        uninvocation: Box<dyn ConfigHook>,
        priority: ConfigPriority,
    ) -> (r: Result<(), Error>)
        requires
            old(core).wf(),
            self.wf(old(core)),
            old(core)@.next_config < u64::MAX,
        ensures
            final(core).wf(),
            contains_nul(name@) ==> r is Err && final(core)@ == old(core)@,
            !contains_nul(name@) ==> r is Ok,
            r matches Err(e) ==> e is NulError,
            !contains_nul(name@) ==> final(core)@ == (CoreView {
                dbs: old(core)@.dbs.update(
                    self.id(),
                    DbView {
                        configs: chain_register(
                            self.entry_view(old(core)).configs,
                            ConfigView {
                                name: name@,
                                priority: priority.priority_value(),
                                reg: old(core)@.next_config,
                            },
                        ),
                        ..self.entry_view(old(core))
                    },
                ),
                next_config: (old(core)@.next_config + 1) as u64,
                ..old(core)@
            }),
    {
        if has_nul(name) {
            return Err(Error::NulError);
        }
        let reg = core.next_config;
        core.next_config = core.next_config + 1;
        let ghost ev = ConfigView { name: name@, priority: priority.priority_value(), reg };
        let mut d = take_entry(core, self.index);
        let ghost pre_cfgs = cfg_views(d.configs@);
        let configs = d.configs;
        d.configs = Vec::new();
        let mut stripped = strip_name(configs, name);
        let entry = ConfigEntry {
            name: name.to_owned(),
            priority: priority.value(),
            reg,
            invocation,
            uninvocation,
        };
        let ghost w = chain_without(pre_cfgs, ev.name);
        let pos = find_insert_pos(&stripped, entry.priority);
        proof {
            assert(pos as int == chain_insert_pos(w, ev.priority));
        }
        let ghost before = stripped@;
        let ghost esnap = entry;
        stripped.insert(pos, entry);
        d.configs = stripped;
        proof {
            assert(esnap@ == ev);
            before.insert_ensures(pos as int, esnap);
            w.insert_ensures(pos as int, ev);
            assert forall|j: int|
                0 <= j < cfg_views(d.configs@).len() implies #[trigger] cfg_views(d.configs@)[j]
                == w.insert(pos as int, ev)[j] by {
                assert(d.configs@ == before.insert(pos as int, esnap));
                if j < pos as int {
                    assert(d.configs@[j] == before[j]);
                    assert(cfg_views(before)[j] == w[j]);
                } else if j == pos as int {
                    assert(d.configs@[j] == esnap);
                } else {
                    assert(d.configs@[j] == before[j - 1]);
                    assert(cfg_views(before)[j - 1] == w[j - 1]);
                }
            }
            assert(cfg_views(d.configs@) =~= w.insert(pos as int, ev));
        }
        put_entry(core, self.index, d);
        proof {
            lemma_remove_insert(old(core)@.dbs, self.id(), final(core)@.dbs[self.id()]);
            lemma_chain_without(pre_cfgs, ev.name);
            lemma_chain_register_wf(pre_cfgs, ev);
            assert(chain_regs_wf(pre_cfgs, ev.reg));
            lemma_chain_register_regs(pre_cfgs, ev);
            lemma_wf_update_configs(old(core)@, final(core)@, self.id());
        }
        Ok(())
    }
}

/// A registry whose entries changed only at `i`, keeping that entry's
/// connections and path and leaving its chain sorted with unique names,
/// stays well-formed.
proof fn lemma_wf_update_configs(pre: CoreView, now: CoreView, i: int)
    requires
        0 <= i < pre.dbs.len(),
        now.dbs.len() == pre.dbs.len(),
        now.next_conn == pre.next_conn,
        now.next_config >= pre.next_config,
        forall|j: int| 0 <= j < pre.dbs.len() && j != i ==> now.dbs[j] == pre.dbs[j],
        now.dbs[i].path == pre.dbs[i].path,
        now.dbs[i].conns == pre.dbs[i].conns,
        chain_sorted(now.dbs[i].configs),
        chain_names_unique(now.dbs[i].configs),
        chain_regs_wf(now.dbs[i].configs, now.next_config),
        forall|j: int, k: int|
            0 <= j < k < pre.dbs.len() ==> (#[trigger] pre.dbs[j]).path != (
            #[trigger] pre.dbs[k]).path,
        forall|j: int| 0 <= j < pre.dbs.len() ==> db_wf(#[trigger] pre.dbs[j], pre.next_conn),
        forall|j: int|
            0 <= j < pre.dbs.len() ==> chain_regs_wf(
                (#[trigger] pre.dbs[j]).configs,
                pre.next_config,
            ),
    ensures
        forall|j: int, k: int|
            0 <= j < k < now.dbs.len() ==> (#[trigger] now.dbs[j]).path != (
            #[trigger] now.dbs[k]).path,
        forall|j: int| 0 <= j < now.dbs.len() ==> db_wf(#[trigger] now.dbs[j], now.next_conn),
        forall|j: int|
            0 <= j < now.dbs.len() ==> chain_regs_wf(
                (#[trigger] now.dbs[j]).configs,
                now.next_config,
            ),
{
    assert forall|j: int| 0 <= j < now.dbs.len() implies db_wf(
        #[trigger] now.dbs[j],
        now.next_conn,
    ) && chain_regs_wf(now.dbs[j].configs, now.next_config) by {
        assert(db_wf(pre.dbs[j], pre.next_conn));
        assert(chain_regs_wf(pre.dbs[j].configs, pre.next_config));
        if j == i {
            assert(now.dbs[i].conns == pre.dbs[i].conns);
        }
    }
}


// ------------------------------------------------------------------
// Connections: acquisition, release, close, purge
// ------------------------------------------------------------------

/// Whether some connection of `d` is assigned to `thread`.
pub open spec fn has_thread_conn(d: DbView, thread: u64) -> bool {
    exists|k: int| 0 <= k < d.conns.len() && (#[trigger] d.conns[k]).thread == thread
}

/// Whether some connection of `d` is idle (cached with no outstanding
/// handle).
pub open spec fn has_idle_conn(d: DbView) -> bool {
    exists|k: int| 0 <= k < d.conns.len() && (#[trigger] d.conns[k]).users == 0
}

/// Whether every connection of `d` is idle: no handle is outstanding.
pub open spec fn all_idle(d: DbView) -> bool {
    forall|k: int| 0 <= k < d.conns.len() ==> (#[trigger] d.conns[k]).users == 0
}

/// Whether every connection of `d` can take one more outstanding handle.
pub open spec fn users_below_max(d: DbView) -> bool {
    forall|k: int| 0 <= k < d.conns.len() ==> (#[trigger] d.conns[k]).users < u64::MAX
}

/// Whether the identity-bearing parts of a registry entry are unchanged.
pub open spec fn same_db_basics(pre: DbView, post: DbView) -> bool {
    &&& post.path == pre.path
    &&& post.tag == pre.tag
    &&& post.blockaded == pre.blockaded
    &&& post.configs == pre.configs
    &&& post.cipher == pre.cipher
}

/// Whether everything outside registry entry `i` is unchanged.
pub open spec fn frame_except(pre: CoreView, post: CoreView, i: int) -> bool {
    &&& post.dbs.len() == pre.dbs.len()
    &&& forall|j: int| 0 <= j < pre.dbs.len() && j != i ==> post.dbs[j] == pre.dbs[j]
    &&& post.default_cipher == pre.default_cipher
    &&& post.next_config == pre.next_config
}

/// How a successful handle acquisition changed the entry: the calling
/// thread's connection was reused, else the first idle cached one was
/// adopted, else a fresh connection was materialized and the whole
/// configuration chain ran on it.
pub open spec fn acquired_conn(
    pre: DbView,
    post: DbView,
    next_pre: u64,
    next_post: u64,
    default_cipher: CipherVersion,
    thread: u64,
    write_hint: bool,
    conn_id: u64,
) -> bool {
    if has_thread_conn(pre, thread) {
        &&& next_post == next_pre
        &&& exists|k: int|
            {
                &&& 0 <= k < pre.conns.len()
                &&& (#[trigger] pre.conns[k]).thread == thread
                &&& conn_id == pre.conns[k].id
                &&& post.conns == pre.conns.update(
                    k,
                    ConnView { users: (pre.conns[k].users + 1) as u64, ..pre.conns[k] },
                )
            }
    } else if has_idle_conn(pre) {
        &&& next_post == next_pre
        &&& exists|k: int|
            {
                &&& 0 <= k < pre.conns.len()
                &&& (#[trigger] pre.conns[k]).users == 0
                &&& (forall|j: int| 0 <= j < k ==> (#[trigger] pre.conns[j]).users > 0)
                &&& conn_id == pre.conns[k].id
                &&& post.conns == pre.conns.update(
                    k,
                    ConnView { thread, users: 1, ..pre.conns[k] },
                )
            }
    } else {
        &&& next_post == next_pre + 1
        &&& conn_id == next_pre
        &&& post.conns == pre.conns.push(
            fresh_conn(next_pre, pre, default_cipher, thread, write_hint),
        )
    }
}

/// Whether `post` records a configuration-hook failure of `pre`'s chain:
/// the database error names the failing entry.
pub open spec fn config_failure_recorded(pre: DbView, post: DbView) -> bool {
    post.last_error matches Some(e) && {
        &&& e.level == WCDBErrorLevel::Error
        &&& e.code == WCDBErrorCode::Error
        &&& exists|k: int|
            0 <= k < pre.configs.len() && e.message.deep_view() == Some(
                (#[trigger] pre.configs[k]).name,
            )
    }
}

/// How a failed materialization left the entry: only possible when a fresh
/// connection was needed and the chain is nonempty; no connection is
/// retained and the failure is recorded.
pub open spec fn acquire_failed(pre: DbView, post: DbView, thread: u64) -> bool {
    &&& !has_thread_conn(pre, thread)
    &&& !has_idle_conn(pre)
    &&& pre.configs.len() > 0
    &&& post.conns == pre.conns
    &&& config_failure_recorded(pre, post)
}

/// The complete observable effect of one handle acquisition on the engine
/// state.
pub open spec fn get_handle_post(
    pre: CoreView,
    post: CoreView,
    dbi: int,
    thread: u64,
    write_hint: bool,
    r: Result<Handle, Error>,
) -> bool {
    &&& frame_except(pre, post, dbi)
    &&& same_db_basics(pre.dbs[dbi], post.dbs[dbi])
    &&& (has_thread_conn(pre.dbs[dbi], thread) || has_idle_conn(pre.dbs[dbi])
        || pre.dbs[dbi].configs.len() == 0 ==> r is Ok)
    &&& (r matches Ok(h) ==> {
        &&& h.is_owned()
        &&& h.db_id() == dbi
        &&& acquired_conn(
            pre.dbs[dbi],
            post.dbs[dbi],
            pre.next_conn,
            post.next_conn,
            pre.default_cipher,
            thread,
            write_hint,
            h.raw_id(),
        )
        &&& post.dbs[dbi].last_error == pre.dbs[dbi].last_error
    })
    &&& (r is Err ==> acquire_failed(pre.dbs[dbi], post.dbs[dbi], thread) && post.next_conn
        == pre.next_conn + 1)
    &&& (r matches Err(e) ==> e matches Error::WCDBError(b) && error_matches_opt(
        *b,
        post.dbs[dbi].last_error,
    ))
}

/// Takes the connection at `i` out for modification; [`put_conn`] puts it
/// back.
fn take_conn(v: &mut Vec<Connection>, i: usize) -> (c: Connection)
    requires
        i < old(v)@.len(),
    ensures
        c@ == conn_views(old(v)@)[i as int],
        conn_views(final(v)@) =~= conn_views(old(v)@).remove(i as int),
{
    let c = v.remove(i);
    proof {
        assert(conn_views(v@) =~= conn_views(old(v)@).remove(i as int));
    }
    c
}

/// Puts a connection back at `i`.
fn put_conn(v: &mut Vec<Connection>, i: usize, c: Connection)
    requires
        i <= old(v)@.len(),
    ensures
        conn_views(final(v)@) =~= conn_views(old(v)@).insert(i as int, c@),
{
    v.insert(i, c);
    proof {
        assert(conn_views(v@) =~= conn_views(old(v)@).insert(i as int, c@));
    }
}

/// Entries of other databases stay well-formed under a larger identity
/// bound, so replacing one entry preserves well-formedness when the new
/// entry is itself well-formed.
proof fn lemma_wf_replace(pre: CoreView, now: CoreView, i: int)
    requires
        0 <= i < pre.dbs.len(),
        now.dbs.len() == pre.dbs.len(),
        now.next_conn >= pre.next_conn,
        now.next_config == pre.next_config,
        forall|j: int| 0 <= j < pre.dbs.len() && j != i ==> now.dbs[j] == pre.dbs[j],
        now.dbs[i].path == pre.dbs[i].path,
        now.dbs[i].configs == pre.dbs[i].configs,
        chain_sorted(now.dbs[i].configs),
        chain_names_unique(now.dbs[i].configs),
        forall|k: int|
            0 <= k < now.dbs[i].conns.len() ==> (#[trigger] now.dbs[i].conns[k]).id
                < now.next_conn,
        forall|k: int, l: int|
            0 <= k < l < now.dbs[i].conns.len() ==> (#[trigger] now.dbs[i].conns[k]).id != (
            #[trigger] now.dbs[i].conns[l]).id,
        forall|k: int, l: int|
            0 <= k < l < now.dbs[i].conns.len() ==> (#[trigger] now.dbs[i].conns[k]).thread != (
            #[trigger] now.dbs[i].conns[l]).thread,
        forall|j: int, k: int|
            0 <= j < k < pre.dbs.len() ==> (#[trigger] pre.dbs[j]).path != (
            #[trigger] pre.dbs[k]).path,
        forall|j: int| 0 <= j < pre.dbs.len() ==> db_wf(#[trigger] pre.dbs[j], pre.next_conn),
        forall|j: int|
            0 <= j < pre.dbs.len() ==> chain_regs_wf(
                (#[trigger] pre.dbs[j]).configs,
                pre.next_config,
            ),
    ensures
        forall|j: int, k: int|
            0 <= j < k < now.dbs.len() ==> (#[trigger] now.dbs[j]).path != (
            #[trigger] now.dbs[k]).path,
        forall|j: int| 0 <= j < now.dbs.len() ==> db_wf(#[trigger] now.dbs[j], now.next_conn),
        forall|j: int|
            0 <= j < now.dbs.len() ==> chain_regs_wf(
                (#[trigger] now.dbs[j]).configs,
                now.next_config,
            ),
{
    assert forall|j: int| 0 <= j < now.dbs.len() implies db_wf(
        #[trigger] now.dbs[j],
        now.next_conn,
    ) && chain_regs_wf(now.dbs[j].configs, now.next_config) by {
        assert(db_wf(pre.dbs[j], pre.next_conn));
        assert(chain_regs_wf(pre.dbs[j].configs, pre.next_config));
    }
}

/// Materializes one fresh connection for the entry `d`, running the whole
/// configuration chain against it; consumes one connection identity even
/// when a hook fails.
fn materialize_conn(
    db: &Database,
    core: &mut Core,
    d: &mut DbEntry,
    thread: u64,
    write_hint: bool,
    users: u64,
) -> (res: Option<u64>)
    requires
        old(core)@.next_conn < u64::MAX,
    ensures
        final(core)@.dbs == old(core)@.dbs,
        final(core)@.default_cipher == old(core)@.default_cipher,
        final(core)@.next_conn == old(core)@.next_conn + 1,
        final(core)@.next_config == old(core)@.next_config,
        old(d)@.configs.len() == 0 ==> res is Some,
        res matches Some(id) ==> {
            &&& id == old(core)@.next_conn
            &&& final(d)@ == (DbView {
                conns: old(d)@.conns.push(
                    ConnView {
                        id: old(core)@.next_conn,
                        thread,
                        users,
                        applied: config_names(old(d)@.configs),
                        applied_regs: config_regs(old(d)@.configs),
                        cipher: effective_cipher(old(d)@, old(core)@.default_cipher),
                        write_hint,
                    },
                ),
                ..old(d)@
            })
        },
        res is None ==> {
            &&& old(d)@.configs.len() > 0
            &&& final(d)@ == (DbView {
                last_error: final(d)@.last_error,
                ..old(d)@
            })
            &&& config_failure_recorded(old(d)@, final(d)@)
        },
{
    let conn_id = core.next_conn;
    core.next_conn = core.next_conn + 1;
    let cipher: Option<Cipher> = match &d.cipher {
        Some(c) => {
            let version = if c.version == CipherVersion::DefaultVersion {
                core.default_cipher
            } else {
                c.version
            };
            Some(
                Cipher {
                    key: vstd::slice::slice_to_vec(c.key.as_slice()),
                    page_size: c.page_size,
                    version,
                },
            )
        },
        None => None,
    };
    proof {
        assert(spec_cipher_opt(&cipher) == effective_cipher(d@, old(core)@.default_cipher));
    }
    let ghost names = config_names(cfg_views(d.configs@));
    let ghost regs = config_regs(cfg_views(d.configs@));
    let mut applied: Vec<String> = Vec::new();
    let mut applied_regs: Vec<u64> = Vec::new();
    let mut j: usize = 0;
    while j < d.configs.len()
        invariant
            j <= d.configs@.len(),
            d == old(d),
            core@.dbs == old(core)@.dbs,
            core@.default_cipher == old(core)@.default_cipher,
            core@.next_conn == old(core)@.next_conn + 1,
            core@.next_config == old(core)@.next_config,
            old(core)@.next_conn < u64::MAX,
            conn_id == old(core)@.next_conn,
            spec_cipher_opt(&cipher) == effective_cipher(old(d)@, old(core)@.default_cipher),
            names == config_names(cfg_views(d.configs@)),
            regs == config_regs(cfg_views(d.configs@)),
            applied.deep_view() =~= names.take(j as int),
            applied_regs@ =~= regs.take(j as int),
        decreases d.configs@.len() - j,
    {
        proof {
            assert(cfg_views(d.configs@)[j as int] == d.configs@[j as int]@);
            assert(names.take(j + 1int).drop_last() =~= names.take(j as int));
            assert(regs.take(j + 1int).drop_last() =~= regs.take(j as int));
        }
        applied.push(d.configs[j].name.clone());
        applied_regs.push(d.configs[j].reg);
        proof {
            assert(applied.deep_view() =~= names.take(j + 1int));
            assert(applied_regs@ =~= regs.take(j + 1int));
        }
        let h = Handle::reference(conn_id, db.clone());
        if !d.configs[j].invocation.invoke(h) {
            let failed = d.configs[j].name.clone();
            let record = WCDBError {
                level: WCDBErrorLevel::Error,
                code: WCDBErrorCode::Error,
                tag: None,
                extended_code: None,
                message: Some(failed),
                source: None,
                sql: None,
                path: None,
                extra_info: Vec::new(),
            };
            d.last_error = Some(record);
            proof {
                assert(config_failure_recorded(old(d)@, d@));
            }
            return None;
        }
        j = j + 1;
    }
    proof {
        assert(names.take(names.len() as int) =~= names);
        assert(regs.take(regs.len() as int) =~= regs);
    }
    let conn = Connection { id: conn_id, thread, users, applied, applied_regs, cipher, write_hint };
    let ghost csnap = conn;
    d.conns.push(conn);
    proof {
        assert(conn_views(d.conns@) =~= conn_views(old(d).conns@).push(csnap@));
    }
    Some(conn_id)
}

impl Database {
    /// Obtains a handle for this database, materializing a connection
    /// lazily: a connection already assigned to `thread` is shared, an
    /// idle cached connection is adopted, and otherwise a fresh connection
    /// is opened with the whole configuration chain run against it. The
    /// write hint is advisory and never affects correctness. Fails only
    /// when a configuration invocation hook reports failure on a fresh
    /// connection; the details are also retrievable through
    /// [`Database::error`]. While the database is blockaded the engine
    /// blocks the caller instead; the blocked call is excluded here by
    /// precondition, and [`Database::try_get_handle`] polls without
    /// blocking.
    pub fn get_handle_with_hint(&self, core: &mut Core, thread: u64, write_hint: bool) -> (r:
        Result<Handle, Error>)
        requires
            old(core).wf(),
            self.wf(old(core)),
            !self.entry_view(old(core)).blockaded,
            old(core)@.next_conn < u64::MAX,
            users_below_max(self.entry_view(old(core))),
        ensures
            final(core).wf(),
            self.wf(final(core)),
            get_handle_post(old(core)@, final(core)@, self.id(), thread, write_hint, r),
    {
        let ghost prev = old(core)@;
        let ghost pre_entry = self.entry_view(old(core));
        let mut d = take_entry(core, self.index);
        let ghost pre_conns = conn_views(d.conns@);

        // Reuse the calling thread's connection if it has one.
        let mut k: usize = 0;
        while k < d.conns.len()
            invariant
                k <= d.conns@.len(),
                prev == old(core)@,
                pre_entry == prev.dbs[self.id()],
                old(core).wf(),
                self.wf(old(core)),
                users_below_max(prev.dbs[self.id()]),
                core@.dbs == prev.dbs.remove(self.id()),
                core@.default_cipher == prev.default_cipher,
                core@.next_conn == prev.next_conn,
                core@.next_config == prev.next_config,
                d@ == prev.dbs[self.id()],
                pre_conns == conn_views(d.conns@),
                forall|j: int| 0 <= j < k ==> (#[trigger] pre_conns[j]).thread != thread,
            decreases d.conns@.len() - k,
        {
            proof {
                assert(pre_conns[k as int] == d.conns@[k as int]@);
            }
            if d.conns[k].thread == thread {
                let mut c = take_conn(&mut d.conns, k);
                proof {
                    assert(db_wf(prev.dbs[self.id()], prev.next_conn));
                    assert(pre_conns[k as int].users < u64::MAX);
                }
                c.users = c.users + 1;
                let id = c.id;
                put_conn(&mut d.conns, k, c);
                proof {
                    lemma_remove_insert(
                        pre_conns,
                        k as int,
                        ConnView {
                            users: (pre_conns[k as int].users + 1) as u64,
                            ..pre_conns[k as int]
                        },
                    );
                }
                put_entry(core, self.index, d);
                proof {
                    lemma_remove_insert(prev.dbs, self.id(), core@.dbs[self.id()]);
                    assert(pre_entry == prev.dbs[self.id()]);
                    assert(pre_entry.conns == pre_conns);
                    assert(pre_entry.conns[k as int].thread == thread);
                    assert(has_thread_conn(pre_entry, thread));
                    lemma_wf_replace(prev, core@, self.id());
                }
                return Ok(Handle::owned(id, self.clone()));
            }
            k = k + 1;
        }

        // Adopt the first idle cached connection.
        let mut k2: usize = 0;
        while k2 < d.conns.len()
            invariant
                k2 <= d.conns@.len(),
                prev == old(core)@,
                pre_entry == prev.dbs[self.id()],
                old(core).wf(),
                self.wf(old(core)),
                core@.dbs == prev.dbs.remove(self.id()),
                core@.default_cipher == prev.default_cipher,
                core@.next_conn == prev.next_conn,
                core@.next_config == prev.next_config,
                d@ == prev.dbs[self.id()],
                pre_conns == conn_views(d.conns@),
                forall|j: int| 0 <= j < pre_conns.len() ==> (#[trigger] pre_conns[j]).thread
                    != thread,
                forall|j: int| 0 <= j < k2 ==> (#[trigger] pre_conns[j]).users > 0,
            decreases d.conns@.len() - k2,
        {
            proof {
                assert(pre_conns[k2 as int] == d.conns@[k2 as int]@);
            }
            if d.conns[k2].users == 0 {
                let mut c = take_conn(&mut d.conns, k2);
                c.users = 1;
                c.thread = thread;
                let id = c.id;
                put_conn(&mut d.conns, k2, c);
                proof {
                    lemma_remove_insert(
                        pre_conns,
                        k2 as int,
                        ConnView { thread, users: 1, ..pre_conns[k2 as int] },
                    );
                }
                put_entry(core, self.index, d);
                proof {
                    lemma_remove_insert(prev.dbs, self.id(), core@.dbs[self.id()]);
                    assert(pre_entry == prev.dbs[self.id()]);
                    assert(pre_entry.conns == pre_conns);
                    assert forall|j: int|
                        0 <= j < pre_entry.conns.len() implies (
                    #[trigger] pre_entry.conns[j]).thread != thread by {
                        assert(pre_conns[j].thread != thread);
                    }
                    assert(!has_thread_conn(pre_entry, thread));
                    assert(pre_entry.conns[k2 as int].users == 0);
                    assert(has_idle_conn(pre_entry));
                    lemma_wf_replace(prev, core@, self.id());
                }
                return Ok(Handle::owned(id, self.clone()));
            }
            k2 = k2 + 1;
        }

        // Materialize a fresh connection.
        proof {
            assert(pre_entry == prev.dbs[self.id()]);
            assert(pre_entry.conns == pre_conns);
            assert forall|j: int|
                0 <= j < pre_entry.conns.len() implies (#[trigger] pre_entry.conns[j]).thread
                != thread && (#[trigger] pre_entry.conns[j]).users > 0 by {
                assert(pre_conns[j].thread != thread);
                assert(pre_conns[j].users > 0);
            }
            assert(!has_thread_conn(pre_entry, thread));
            assert(!has_idle_conn(pre_entry));
        }
        let res = materialize_conn(self, core, &mut d, thread, write_hint, 1);
        match res {
            Some(id) => {
                put_entry(core, self.index, d);
                proof {
                    lemma_remove_insert(prev.dbs, self.id(), core@.dbs[self.id()]);
                    assert(db_wf(prev.dbs[self.id()], prev.next_conn));
                    lemma_wf_replace(prev, core@, self.id());
                }
                Ok(Handle::owned(id, self.clone()))
            },
            None => {
                let err = match &d.last_error {
                    Some(stored) => clone_error(stored),
                    None => WCDBError::default(),
                };
                put_entry(core, self.index, d);
                proof {
                    lemma_remove_insert(prev.dbs, self.id(), core@.dbs[self.id()]);
                    lemma_wf_replace(prev, core@, self.id());
                }
                Err(Error::WCDBError(Box::new(err)))
            },
        }
    }

    /// Obtains a handle for this database without a write hint; see
    /// [`Database::get_handle_with_hint`].
    pub fn get_handle(&self, core: &mut Core, thread: u64) -> (r: Result<Handle, Error>)
        requires
            old(core).wf(),
            self.wf(old(core)),
            !self.entry_view(old(core)).blockaded,
            old(core)@.next_conn < u64::MAX,
            users_below_max(self.entry_view(old(core))),
        ensures
            final(core).wf(),
            self.wf(final(core)),
            get_handle_post(old(core)@, final(core)@, self.id(), thread, false, r),
    {
        self.get_handle_with_hint(core, thread, false)
    }

    /// Polls for a handle without blocking: while the database is
    /// blockaded no handle is handed out and `None` is returned, so a
    /// caller that would block retries once the blockade is lifted.
    pub fn try_get_handle(&self, core: &mut Core, thread: u64, write_hint: bool) -> (r: Option<
        Result<Handle, Error>,
    >)
        requires
            old(core).wf(),
            self.wf(old(core)),
            old(core)@.next_conn < u64::MAX,
            users_below_max(self.entry_view(old(core))),
        ensures
            final(core).wf(),
            self.wf(final(core)),
            self.entry_view(old(core)).blockaded ==> r is None && final(core)@ == old(core)@,
            !self.entry_view(old(core)).blockaded ==> (r matches Some(inner) && get_handle_post(
                old(core)@,
                final(core)@,
                self.id(),
                thread,
                write_hint,
                inner,
            )),
    {
        if self.is_blockaded(core) {
            return None;
        }
        Some(self.get_handle_with_hint(core, thread, write_hint))
    }

    /// Checks that a first connection can be initialized, without
    /// retaining a handle: the connection stays cached. Returns `false` if
    /// a configuration hook fails during initialization; the details are
    /// retrievable through [`Database::error`].
    pub fn can_open(&self, core: &mut Core, thread: u64) -> (r: bool)
        requires
            old(core).wf(),
            self.wf(old(core)),
            !self.entry_view(old(core)).blockaded,
            old(core)@.next_conn < u64::MAX,
        ensures
            final(core).wf(),
            self.wf(final(core)),
            frame_except(old(core)@, final(core)@, self.id()),
            same_db_basics(self.entry_view(old(core)), self.entry_view(final(core))),
            self.entry_view(old(core)).conns.len() > 0 ==> r && final(core)@ == old(core)@,
            self.entry_view(old(core)).conns.len() == 0 && self.entry_view(
                old(core),
            ).configs.len() == 0 ==> r,
            self.entry_view(old(core)).conns.len() == 0 && r ==> {
                &&& final(core)@.next_conn == old(core)@.next_conn + 1
                &&& self.entry_view(final(core)).conns == seq![
                    ConnView {
                        id: old(core)@.next_conn,
                        thread,
                        users: 0,
                        applied: config_names(self.entry_view(old(core)).configs),
                        applied_regs: config_regs(self.entry_view(old(core)).configs),
                        cipher: effective_cipher(
                            self.entry_view(old(core)),
                            old(core)@.default_cipher,
                        ),
                        write_hint: false,
                    },
                ]
                &&& self.entry_view(final(core)).last_error == self.entry_view(
                    old(core),
                ).last_error
            },
            self.entry_view(old(core)).conns.len() == 0 && !r ==> {
                &&& final(core)@.next_conn == old(core)@.next_conn + 1
                &&& self.entry_view(final(core)).conns.len() == 0
                &&& config_failure_recorded(
                    self.entry_view(old(core)),
                    self.entry_view(final(core)),
                )
            },
    {
        let ghost prev = old(core)@;
        if self.is_opened(core) {
            return true;
        }
        let mut d = take_entry(core, self.index);
        proof {
            assert(conn_views(d.conns@).len() == 0);
        }
        let res = materialize_conn(self, core, &mut d, thread, false, 0);
        let ok = res.is_some();
        put_entry(core, self.index, d);
        proof {
            lemma_remove_insert(prev.dbs, self.id(), core@.dbs[self.id()]);
            assert(db_wf(prev.dbs[self.id()], prev.next_conn));
            lemma_wf_replace(prev, core@, self.id());
            if ok {
                assert(self.entry_view(core).conns =~= seq![
                    ConnView {
                        id: prev.next_conn,
                        thread,
                        users: 0,
                        applied: config_names(prev.dbs[self.id()].configs),
                        applied_regs: config_regs(prev.dbs[self.id()].configs),
                        cipher: effective_cipher(prev.dbs[self.id()], prev.default_cipher),
                        write_hint: false,
                    },
                ]);
            }
        }
        ok
    }
}



/// The live connection of `d` carrying identity `id`, if any.
pub open spec fn conn_by_id(d: DbView, id: u64) -> Option<ConnView> {
    if exists|k: int| 0 <= k < d.conns.len() && (#[trigger] d.conns[k]).id == id {
        let k = choose|k: int| 0 <= k < d.conns.len() && (#[trigger] d.conns[k]).id == id;
        Some(d.conns[k])
    } else {
        None
    }
}

/// With pairwise-distinct identities, the connection found at `k` is the
/// one `conn_by_id` names.
pub proof fn lemma_conn_by_id_unique(d: DbView, id: u64, k: int)
    requires
        0 <= k < d.conns.len(),
        d.conns[k].id == id,
        forall|a: int, b: int|
            0 <= a < b < d.conns.len() ==> (#[trigger] d.conns[a]).id != (
            #[trigger] d.conns[b]).id,
    ensures
        conn_by_id(d, id) == Some(d.conns[k]),
{
    let c = choose|c: int| 0 <= c < d.conns.len() && (#[trigger] d.conns[c]).id == id;
    if c < k {
        assert(d.conns[c].id != d.conns[k].id);
    } else if k < c {
        assert(d.conns[k].id != d.conns[c].id);
    }
}

// ------------------------------------------------------------------
// Release
// ------------------------------------------------------------------

/// How releasing the handle `h` changed the engine state: an owned handle
/// over a live connection gives one unit of use back; everything else is a
/// no-op.
pub open spec fn released(pre: CoreView, post: CoreView, h: Handle) -> bool {
    if h.is_owned() && 0 <= h.db_id() < pre.dbs.len() {
        &&& frame_except(pre, post, h.db_id())
        &&& post.next_conn == pre.next_conn
        &&& same_db_basics(pre.dbs[h.db_id()], post.dbs[h.db_id()])
        &&& post.dbs[h.db_id()].last_error == pre.dbs[h.db_id()].last_error
        &&& released_entry(pre.dbs[h.db_id()], post.dbs[h.db_id()], h.raw_id())
    } else {
        post == pre
    }
}

/// How releasing one unit of use over connection `id` changed the entry's
/// connections; the connection stays cached for reuse.
pub open spec fn released_entry(pre: DbView, post: DbView, id: u64) -> bool {
    if exists|k: int|
        0 <= k < pre.conns.len() && (#[trigger] pre.conns[k]).id == id && pre.conns[k].users > 0 {
        exists|k: int|
            {
                &&& 0 <= k < pre.conns.len()
                &&& (#[trigger] pre.conns[k]).id == id
                &&& pre.conns[k].users > 0
                &&& post.conns == pre.conns.update(
                    k,
                    ConnView { users: (pre.conns[k].users - 1) as u64, ..pre.conns[k] },
                )
            }
    } else {
        post.conns == pre.conns
    }
}

impl Handle {
    /// Gives an owned handle's unit of use back to its connection, which
    /// stays cached for reuse until purged or closed. Releasing a borrowed
    /// handle, or one whose connection is gone, changes nothing. The close
    /// protocol waits for every unit of use to come back, so a handle must
    /// not be kept across a close of its own database on the same thread.
    pub fn release(self, core: &mut Core)
        requires
            old(core).wf(),
        ensures
            final(core).wf(),
            released(old(core)@, final(core)@, self),
    {
        let ghost prev = old(core)@;
        if !self.owns() {
            return ;
        }
        let index = self.database().as_ptr();
        if index >= core.dbs.len() {
            return ;
        }
        let id = self.raw();
        let mut d = take_entry(core, index);
        let ghost pre_conns = conn_views(d.conns@);
        let mut k: usize = 0;
        while k < d.conns.len()
            invariant
                k <= d.conns@.len(),
                prev == old(core)@,
                old(core).wf(),
                self.is_owned(),
                index == self.db_id(),
                id == self.raw_id(),
                0 <= self.db_id() < prev.dbs.len(),
                core@.dbs == prev.dbs.remove(self.db_id()),
                core@.default_cipher == prev.default_cipher,
                core@.next_conn == prev.next_conn,
                core@.next_config == prev.next_config,
                d@ == prev.dbs[self.db_id()],
                pre_conns == conn_views(d.conns@),
                forall|j: int| 0 <= j < k ==> (#[trigger] pre_conns[j]).id != id,
            decreases d.conns@.len() - k,
        {
            proof {
                assert(pre_conns[k as int] == d.conns@[k as int]@);
            }
            if d.conns[k].id == id {
                if d.conns[k].users > 0 {
                    let mut c = take_conn(&mut d.conns, k);
                    c.users = c.users - 1;
                    put_conn(&mut d.conns, k, c);
                    proof {
                        lemma_remove_insert(
                            pre_conns,
                            k as int,
                            ConnView {
                                users: (pre_conns[k as int].users - 1) as u64,
                                ..pre_conns[k as int]
                            },
                        );
                    }
                    put_entry(core, index, d);
                    proof {
                        lemma_remove_insert(prev.dbs, self.db_id(), core@.dbs[self.db_id()]);
                        assert(prev.dbs[self.db_id()].conns[k as int].id == id);
                        lemma_wf_replace(prev, core@, self.db_id());
                    }
                } else {
                    put_entry(core, index, d);
                    proof {
                        lemma_remove_insert(prev.dbs, self.db_id(), core@.dbs[self.db_id()]);
                        assert(core@.dbs =~= prev.dbs);
                        assert(core@ == prev);
                        let pre_d = prev.dbs[self.db_id()];
                        assert(pre_conns == pre_d.conns);
                        assert forall|jj: int|
                            0 <= jj < pre_d.conns.len() implies !((#[trigger] pre_d.conns[jj]).id
                            == id && pre_d.conns[jj].users > 0) by {
                            assert(pre_d.conns[jj] == pre_conns[jj]);
                            if jj == k as int {
                                assert(pre_conns[k as int].users == 0);
                            } else if jj > k as int {
                                assert(db_wf(pre_d, prev.next_conn));
                                assert(pre_d.conns[k as int].id != pre_d.conns[jj].id);
                            }
                        }
                        assert(released_entry(pre_d, core@.dbs[self.db_id()], id));
                    }
                }
                return ;
            }
            k = k + 1;
        }
        put_entry(core, index, d);
        proof {
            lemma_remove_insert(prev.dbs, self.db_id(), core@.dbs[self.db_id()]);
            assert(core@.dbs =~= prev.dbs);
            assert(core@ == prev);
        }
    }

}

// ------------------------------------------------------------------
// Close protocol
// ------------------------------------------------------------------

/// Whether `post` carries `pre`'s error unchanged or records a hook
/// failure from `pre`'s chain.
pub open spec fn close_error_ok(pre: DbView, post: DbView) -> bool {
    post.last_error == pre.last_error || config_failure_recorded(pre, post)
}

impl Database {
    /// Whether some handle of this database is still outstanding: a close
    /// would have to wait for it to be released.
    pub fn has_outstanding_handles(&self, core: &Core) -> (r: bool)
        requires
            self.wf(core),
        ensures
            r == !all_idle(self.entry_view(core)),
    {
        proof {
            assert(self.entry_view(core) == core.dbs@[self.id()]@);
        }
        let d = &core.dbs[self.index];
        let ghost dv = self.entry_view(core);
        let mut k: usize = 0;
        while k < d.conns.len()
            invariant
                k <= d.conns@.len(),
                self.wf(core),
                dv == d@,
                dv == self.entry_view(core),
                forall|j: int| 0 <= j < k ==> (#[trigger] dv.conns[j]).users == 0,
            decreases d.conns@.len() - k,
        {
            proof {
                assert(dv.conns[k as int] == d.conns@[k as int]@);
            }
            if d.conns[k].users > 0 {
                return true;
            }
            k = k + 1;
        }
        false
    }

    /// Tears down every connection of this database, running the
    /// uninvocation hooks, and leaves the entry blockaded.
    fn teardown(&self, core: &mut Core)
        requires
            old(core).wf(),
            self.wf(old(core)),
            all_idle(self.entry_view(old(core))),
        ensures
            final(core).wf(),
            self.wf(final(core)),
            frame_except(old(core)@, final(core)@, self.id()),
            final(core)@.next_conn == old(core)@.next_conn,
            self.entry_view(final(core)) == (DbView {
                blockaded: true,
                conns: Seq::empty(),
                last_error: self.entry_view(final(core)).last_error,
                ..self.entry_view(old(core))
            }),
            close_error_ok(self.entry_view(old(core)), self.entry_view(final(core))),
    {
        let ghost prev = old(core)@;
        let mut d = take_entry(core, self.index);
        d.blockaded = true;
        let mut conns = d.conns;
        d.conns = Vec::new();
        proof {
            assert(conn_views(d.conns@) =~= Seq::<ConnView>::empty());
        }
        let mut fail: Option<String> = None;
        while conns.len() > 0
            invariant
                prev == old(core)@,
                old(core).wf(),
                self.wf(old(core)),
                core@.dbs == prev.dbs.remove(self.id()),
                core@.default_cipher == prev.default_cipher,
                core@.next_conn == prev.next_conn,
                core@.next_config == prev.next_config,
                d@ == (DbView {
                    blockaded: true,
                    conns: Seq::empty(),
                    ..prev.dbs[self.id()]
                }),
                fail matches Some(nm) ==> exists|x: int|
                    0 <= x < d@.configs.len() && nm@ == (#[trigger] d@.configs[x]).name,
            decreases conns@.len(),
        {
            let c = conns.remove(0);
            let mut j: usize = 0;
            while j < d.configs.len()
                invariant
                    j <= d.configs@.len(),
                    prev == old(core)@,
                    old(core).wf(),
                    self.wf(old(core)),
                    core@.dbs == prev.dbs.remove(self.id()),
                    core@.default_cipher == prev.default_cipher,
                    core@.next_conn == prev.next_conn,
                core@.next_config == prev.next_config,
                    d@ == (DbView {
                        blockaded: true,
                        conns: Seq::empty(),
                        ..prev.dbs[self.id()]
                    }),
                    fail matches Some(nm) ==> exists|x: int|
                        0 <= x < d@.configs.len() && nm@ == (#[trigger] d@.configs[x]).name,
                decreases d.configs@.len() - j,
            {
                let h = Handle::reference(c.id, self.clone());
                if !d.configs[j].uninvocation.invoke(h) {
                    let nm = d.configs[j].name.clone();
                    proof {
                        assert(cfg_views(d.configs@)[j as int] == d.configs@[j as int]@);
                        assert(nm@ == d@.configs[j as int].name);
                    }
                    fail = Some(nm);
                }
                j = j + 1;
            }
        }
        match fail {
            Some(nm) => {
                d.last_error = Some(
                    WCDBError {
                        level: WCDBErrorLevel::Error,
                        code: WCDBErrorCode::Error,
                        tag: None,
                        extended_code: None,
                        message: Some(nm),
                        source: None,
                        sql: None,
                        path: None,
                        extra_info: Vec::new(),
                    },
                );
            },
            None => {},
        }
        put_entry(core, self.index, d);
        proof {
            lemma_remove_insert(prev.dbs, self.id(), core@.dbs[self.id()]);
            assert(db_wf(prev.dbs[self.id()], prev.next_conn));
            lemma_wf_replace(prev, core@, self.id());
        }
    }

    /// Closes the database: blockades it, waits out and tears down every
    /// connection — running the uninvocation hooks — and lifts the
    /// blockade again unless the caller had blockaded the database
    /// manually. A failing uninvocation hook does not prevent the
    /// teardown; the last failure is recorded as the database error.
    ///
    /// The engine waits here until every outstanding handle is released,
    /// so a caller must release the handles it holds on this database
    /// before closing it — closing with a handle still outstanding on the
    /// calling thread deadlocks, which this model excludes by
    /// precondition.
    pub fn close(&self, core: &mut Core)
        requires
            old(core).wf(),
            self.wf(old(core)),
            all_idle(self.entry_view(old(core))),
        ensures
            final(core).wf(),
            self.wf(final(core)),
            frame_except(old(core)@, final(core)@, self.id()),
            final(core)@.next_conn == old(core)@.next_conn,
            self.entry_view(final(core)) == (DbView {
                conns: Seq::empty(),
                last_error: self.entry_view(final(core)).last_error,
                ..self.entry_view(old(core))
            }),
            close_error_ok(self.entry_view(old(core)), self.entry_view(final(core))),
    {
        let was_blockaded = self.is_blockaded(core);
        self.teardown(core);
        if !was_blockaded {
            self.unblockade(core);
        }
    }

    /// Closes the database as [`Database::close`] does and runs
    /// `on_closed` exactly once, after every connection is torn down and
    /// strictly while the database is still blockaded, before this call
    /// returns.
    pub fn close_with_callback(&self, core: &mut Core, on_closed: Box<dyn OnClosedCallback>)
        requires
            old(core).wf(),
            self.wf(old(core)),
            all_idle(self.entry_view(old(core))),
        ensures
            final(core).wf(),
            self.wf(final(core)),
            frame_except(old(core)@, final(core)@, self.id()),
            final(core)@.next_conn == old(core)@.next_conn,
            self.entry_view(final(core)) == (DbView {
                conns: Seq::empty(),
                last_error: self.entry_view(final(core)).last_error,
                ..self.entry_view(old(core))
            }),
            close_error_ok(self.entry_view(old(core)), self.entry_view(final(core))),
    {
        let was_blockaded = self.is_blockaded(core);
        self.teardown(core);
        on_closed.on_closed(self, core);
        if !was_blockaded {
            self.unblockade(core);
        }
    }
}

// ------------------------------------------------------------------
// Purge
// ------------------------------------------------------------------

/// The retained connections are exactly the in-use ones of `s`, in order;
/// retention preserves distinct identities and threads.
pub proof fn lemma_retained(s: Seq<ConnView>)
    ensures
        retained_conns(s).len() <= s.len(),
        forall|x: ConnView| #[trigger]
            retained_conns(s).contains(x) ==> s.contains(x) && x.users > 0,
        forall|k: int|
            0 <= k < s.len() && (#[trigger] s[k]).users > 0 ==> retained_conns(s).contains(s[k]),
    decreases s.len(),
{
    if s.len() == 0 {
    } else {
        let rest = s.drop_first();
        lemma_retained(rest);
        assert(forall|j: int| 0 <= j < rest.len() ==> #[trigger] rest[j] == s[j + 1]);
        let r = retained_conns(s);
        assert forall|x: ConnView| #[trigger] r.contains(x) implies s.contains(x) && x.users
            > 0 by {
            if s[0].users > 0 {
                let full = seq![s[0]] + retained_conns(rest);
                let i = choose|i: int| 0 <= i < full.len() && full[i] == x;
                if i == 0 {
                    assert(s[0] == x);
                } else {
                    assert(retained_conns(rest).contains(x));
                    let j = choose|j: int| 0 <= j < rest.len() && rest[j] == x;
                    assert(s[j + 1] == x);
                }
            } else {
                assert(retained_conns(rest).contains(x));
                let j = choose|j: int| 0 <= j < rest.len() && rest[j] == x;
                assert(s[j + 1] == x);
            }
        }
        assert forall|k: int|
            0 <= k < s.len() && (#[trigger] s[k]).users > 0 implies r.contains(s[k]) by {
            if k == 0 {
                assert(r[0] == s[0]);
            } else {
                assert(rest[k - 1] == s[k]);
                assert(retained_conns(rest).contains(s[k]));
                let j = choose|j: int|
                    0 <= j < retained_conns(rest).len() && retained_conns(rest)[j] == s[k];
                if s[0].users > 0 {
                    assert(r[j + 1] == s[k]);
                }
            }
        }
    }
}

/// Retention keeps connection identities and threads pairwise distinct and
/// below the identity bound.
pub proof fn lemma_retained_wf(s: Seq<ConnView>, next_conn: u64)
    requires
        forall|k: int| 0 <= k < s.len() ==> (#[trigger] s[k]).id < next_conn,
        forall|k: int, l: int|
            0 <= k < l < s.len() ==> (#[trigger] s[k]).id != (#[trigger] s[l]).id,
        forall|k: int, l: int|
            0 <= k < l < s.len() ==> (#[trigger] s[k]).thread != (#[trigger] s[l]).thread,
    ensures
        forall|k: int|
            0 <= k < retained_conns(s).len() ==> (#[trigger] retained_conns(s)[k]).id < next_conn,
        forall|k: int, l: int|
            0 <= k < l < retained_conns(s).len() ==> (#[trigger] retained_conns(s)[k]).id != (
            #[trigger] retained_conns(s)[l]).id,
        forall|k: int, l: int|
            0 <= k < l < retained_conns(s).len() ==> (#[trigger] retained_conns(s)[k]).thread != (
            #[trigger] retained_conns(s)[l]).thread,
    decreases s.len(),
{
    if s.len() == 0 {
    } else {
        let rest = s.drop_first();
        assert(forall|j: int| 0 <= j < rest.len() ==> #[trigger] rest[j] == s[j + 1]);
        lemma_retained_wf(rest, next_conn);
        lemma_retained(rest);
        let r = retained_conns(s);
        assert forall|k: int| 0 <= k < r.len() implies (#[trigger] r[k]).id < next_conn by {
            lemma_retained(s);
            assert(r.contains(r[k]));
            let i = choose|i: int| 0 <= i < s.len() && s[i] == r[k];
        }
        if s[0].users > 0 {
            let tail = retained_conns(rest);
            assert forall|k: int, l: int| 0 <= k < l < r.len() implies (#[trigger] r[k]).id != (
            #[trigger] r[l]).id && (#[trigger] r[k]).thread != (#[trigger] r[l]).thread by {
                if k == 0 {
                    assert(r[l] == tail[l - 1]);
                    assert(tail.contains(r[l]));
                    let j = choose|j: int| 0 <= j < rest.len() && rest[j] == r[l];
                    assert(s[j + 1] == r[l]);
                    assert(s[0].id != s[j + 1].id);
                    assert(s[0].thread != s[j + 1].thread);
                } else {
                    assert(r[k] == tail[k - 1] && r[l] == tail[l - 1]);
                }
            }
        }
    }
}

/// Keeps exactly the in-use connections.
fn retain_in_use(conns: Vec<Connection>) -> (r: Vec<Connection>)
    ensures
        conn_views(r@) =~= retained_conns(conn_views(conns@)),
{
    let ghost orig = conn_views(conns@);
    let mut src = conns;
    let mut out: Vec<Connection> = Vec::new();
    while src.len() > 0
        invariant
            retained_conns(orig) =~= conn_views(out@) + retained_conns(conn_views(src@)),
        decreases src@.len(),
    {
        let ghost pre_src = conn_views(src@);
        let ghost pre_out = conn_views(out@);
        let c = src.remove(0);
        proof {
            assert(pre_src[0] == c@);
            assert(conn_views(src@) =~= pre_src.drop_first());
        }
        if c.users > 0 {
            out.push(c);
            proof {
                assert(conn_views(out@) =~= pre_out.push(pre_src[0]));
                assert(retained_conns(pre_src) == seq![pre_src[0]] + retained_conns(
                    pre_src.drop_first(),
                ));
                assert(pre_out + (seq![pre_src[0]] + retained_conns(pre_src.drop_first()))
                    =~= pre_out.push(pre_src[0]) + retained_conns(pre_src.drop_first()));
            }
        } else {
            proof {
                assert(retained_conns(pre_src) == retained_conns(pre_src.drop_first()));
            }
        }
    }
    proof {
        assert(retained_conns(conn_views(src@)) =~= Seq::<ConnView>::empty());
        assert(conn_views(out@) + Seq::<ConnView>::empty() =~= conn_views(out@));
    }
    out
}

impl Database {
    /// The cipher parameters the connection `raw` of this database was
    /// opened with, if the connection is live: key bytes, page size and
    /// resolved version. A diagnostic view into the model's state.
    pub fn connection_cipher(&self, core: &Core, raw: u64) -> (r: Option<(Vec<u8>, i32, CipherVersion)>)
        requires
            core.wf(),
            self.wf(core),
        ensures
            match conn_by_id(self.entry_view(core), raw) {
                Some(c) => match c.cipher {
                    Some(cv) => r matches Some(t) && t.0@ == cv.key && t.1 == cv.page_size && t.2
                        == cv.version,
                    None => r is None,
                },
                None => r is None,
            },
    {
        proof {
            assert(self.entry_view(core) == core.dbs@[self.id()]@);
        }
        let d = &core.dbs[self.index];
        let ghost dv = self.entry_view(core);
        let mut k: usize = 0;
        while k < d.conns.len()
            invariant
                k <= d.conns@.len(),
                core.wf(),
                self.wf(core),
                dv == d@,
                dv == self.entry_view(core),
                forall|j: int| 0 <= j < k ==> (#[trigger] dv.conns[j]).id != raw,
            decreases d.conns@.len() - k,
        {
            proof {
                assert(dv.conns[k as int] == d.conns@[k as int]@);
            }
            if d.conns[k].id == raw {
                proof {
                    assert(db_wf(dv, core@.next_conn));
                    lemma_conn_by_id_unique(dv, raw, k as int);
                }
                return match &d.conns[k].cipher {
                    Some(c) => Some((vstd::slice::slice_to_vec(c.key.as_slice()), c.page_size, c.version)),
                    None => None,
                };
            }
            k = k + 1;
        }
        proof {
            assert(conn_by_id(dv, raw) is None) by {
                if exists|j: int| 0 <= j < dv.conns.len() && (#[trigger] dv.conns[j]).id == raw {
                    let j = choose|j: int|
                        0 <= j < dv.conns.len() && (#[trigger] dv.conns[j]).id == raw;
                    assert(dv.conns[j].id != raw);
                }
            }
        }
        None
    }

    /// Releases this database's idle cached connections; in-use
    /// connections are untouched, so this is purely a memory-pressure
    /// measure with no correctness effect.
    pub fn purge(&self, core: &mut Core)
        requires
            old(core).wf(),
            self.wf(old(core)),
        ensures
            final(core).wf(),
            self.wf(final(core)),
            final(core)@ == (CoreView {
                dbs: old(core)@.dbs.update(
                    self.id(),
                    DbView {
                        conns: retained_conns(self.entry_view(old(core)).conns),
                        ..self.entry_view(old(core))
                    },
                ),
                ..old(core)@
            }),
    {
        let ghost prev = old(core)@;
        let mut d = take_entry(core, self.index);
        let conns = d.conns;
        d.conns = retain_in_use(conns);
        put_entry(core, self.index, d);
        proof {
            lemma_remove_insert(prev.dbs, self.id(), core@.dbs[self.id()]);
            assert(db_wf(prev.dbs[self.id()], prev.next_conn));
            lemma_retained_wf(prev.dbs[self.id()].conns, prev.next_conn);
            lemma_wf_replace(prev, core@, self.id());
        }
    }

    /// Releases the idle cached connections of every open database; see
    /// [`Database::purge`].
    pub fn purge_all(core: &mut Core)
        requires
            old(core).wf(),
        ensures
            final(core).wf(),
            final(core)@.dbs.len() == old(core)@.dbs.len(),
            final(core)@.default_cipher == old(core)@.default_cipher,
            final(core)@.next_conn == old(core)@.next_conn,
            final(core)@.next_config == old(core)@.next_config,
            forall|j: int|
                0 <= j < old(core)@.dbs.len() ==> final(core)@.dbs[j] == (DbView {
                    conns: retained_conns((#[trigger] old(core)@.dbs[j]).conns),
                    ..old(core)@.dbs[j]
                }),
    {
        let ghost prev = old(core)@;
        let mut i: usize = 0;
        while i < core.dbs.len()
            invariant
                prev == old(core)@,
                old(core).wf(),
                i <= core@.dbs.len(),
                core.wf(),
                core@.dbs.len() == prev.dbs.len(),
                core@.default_cipher == prev.default_cipher,
                core@.next_conn == prev.next_conn,
                core@.next_config == prev.next_config,
                core@.next_config == prev.next_config,
                forall|j: int|
                    0 <= j < i ==> core@.dbs[j] == (DbView {
                        conns: retained_conns((#[trigger] prev.dbs[j]).conns),
                        ..prev.dbs[j]
                    }),
                forall|j: int| i <= j < prev.dbs.len() ==> core@.dbs[j] == prev.dbs[j],
            decreases core@.dbs.len() - i,
        {
            let ghost mid = core@;
            let db = Database { index: i };
            db.purge(core);
            proof {
                assert(core@.dbs =~= mid.dbs.update(
                    i as int,
                    DbView { conns: retained_conns(mid.dbs[i as int].conns), ..mid.dbs[i as int] },
                ));
            }
            i = i + 1;
        }
    }
}


// ------------------------------------------------------------------
// Laws
// ------------------------------------------------------------------

/// Identity sharing: two `Database` values referring to entries with the
/// same canonical path in a well-formed registry refer to one entry, and
/// so observe the same tag after either sets it.
pub proof fn law_identity_sharing(core: Core, d1: Database, d2: Database)
    requires
        core.wf(),
        d1.wf(&core),
        d2.wf(&core),
        d1.entry_view(&core).path == d2.entry_view(&core).path,
    ensures
        d1.id() == d2.id(),
        spec_tag_opt(d1.entry_view(&core).tag) == spec_tag_opt(d2.entry_view(&core).tag),
{
    if d1.id() < d2.id() {
        assert(core@.dbs[d1.id()].path != core@.dbs[d2.id()].path);
    } else if d2.id() < d1.id() {
        assert(core@.dbs[d2.id()].path != core@.dbs[d1.id()].path);
    }
}

/// No stale connections leak across a close: a connection materialized
/// after the close protocol tore the database down carries an identity
/// unseen before the close, and the whole configuration chain has re-run
/// on it, each entry exactly once.
pub proof fn law_close_then_fresh(
    d: DbView,
    next_conn: u64,
    default_cipher: CipherVersion,
    thread: u64,
    write_hint: bool,
    last_error: Option<WCDBError>,
)
    requires
        forall|k: int| 0 <= k < d.conns.len() ==> (#[trigger] d.conns[k]).id < next_conn,
        chain_names_unique(d.configs),
    ensures
        ({
            let c = fresh_conn(
                next_conn,
                closed_db(d, last_error),
                default_cipher,
                thread,
                write_hint,
            );
            &&& forall|k: int| 0 <= k < d.conns.len() ==> c.id != (#[trigger] d.conns[k]).id
            &&& c.applied == config_names(d.configs)
            &&& c.applied_regs == config_regs(d.configs)
            &&& c.applied.len() == d.configs.len()
            &&& forall|i: int, j: int|
                0 <= i < j < c.applied.len() ==> c.applied[i] != c.applied[j]
        }),
{
    let c = fresh_conn(next_conn, closed_db(d, last_error), default_cipher, thread, write_hint);
    assert forall|i: int, j: int| 0 <= i < j < c.applied.len() implies c.applied[i]
        != c.applied[j] by {
        assert(c.applied[i] == d.configs[i].name);
        assert(c.applied[j] == d.configs[j].name);
    }
}

/// Registration keeps the chain ordered by priority with unique names and
/// never duplicates an entry: the result holds exactly one entry under the
/// new name, and every other surviving entry comes from the old chain.
pub proof fn law_config_registration(c: Seq<ConfigView>, e: ConfigView)
    requires
        chain_sorted(c),
        chain_names_unique(c),
    ensures
        chain_sorted(chain_register(c, e)),
        chain_names_unique(chain_register(c, e)),
        chain_register(c, e).contains(e),
        forall|x: ConfigView| #[trigger]
            chain_register(c, e).contains(x) ==> x == e || (c.contains(x) && x.name != e.name),
{
    lemma_chain_register_wf(c, e);
}

/// The invocation-order scenario: on a fresh database, an entry of lower
/// priority stands before one of greater priority, so its hook runs
/// first; re-registering under the first entry's name replaces it in
/// place, without duplicating its invocation.
pub proof fn law_config_order_scenario(a: ConfigView, b: ConfigView, a2: ConfigView)
    requires
        a.priority < b.priority,
        b.name != a.name,
        a2.name == a.name,
        a2.priority == a.priority,
    ensures
        chain_register(chain_register(Seq::empty(), a), b) == seq![a, b],
        chain_register(chain_register(chain_register(Seq::empty(), a), b), a2) == seq![a2, b],
{
    let e0 = Seq::<ConfigView>::empty();
    assert(chain_without(e0, a.name) == e0);
    assert(chain_register(e0, a) =~= seq![a]);
    let s1 = seq![a];
    assert(chain_register(e0, a) == s1);
    assert(s1.drop_first() =~= e0);
    assert(chain_without(s1, b.name) =~= seq![a] + chain_without(e0, b.name));
    assert(chain_without(s1, b.name) =~= s1);
    assert(chain_insert_pos(s1, b.priority) == 1 + chain_insert_pos(e0, b.priority));
    assert(chain_register(s1, b) =~= seq![a, b]);
    let s2 = seq![a, b];
    assert(chain_register(s1, b) == s2);
    assert(s2.drop_first() =~= seq![b]);
    assert(chain_without(seq![b], a2.name) =~= seq![b] + chain_without(
        seq![b].drop_first(),
        a2.name,
    ));
    assert(seq![b].drop_first() =~= e0);
    assert(chain_without(seq![b], a2.name) =~= seq![b]);
    assert(chain_without(s2, a2.name) == chain_without(s2.drop_first(), a2.name));
    assert(chain_without(s2, a2.name) =~= seq![b]);
    assert(chain_insert_pos(seq![b], a2.priority) == 0);
    assert(chain_register(s2, a2) =~= seq![a2, b]);
}

/// Re-registration installs the new hooks: after registering `e` over a
/// chain that held `x` under the same name, the chain carries `e`'s fresh
/// registration stamp and no longer carries `x`'s — and a connection
/// materialized afterwards applies exactly the chain's stamps, so the
/// replaced registration's hooks never run again.
pub proof fn law_replacement_installs_new_hooks(
    c: Seq<ConfigView>,
    e: ConfigView,
    x: ConfigView,
    d: DbView,
    next_conn: u64,
    default_cipher: CipherVersion,
    thread: u64,
    write_hint: bool,
)
    requires
        chain_sorted(c),
        chain_names_unique(c),
        chain_regs_wf(c, e.reg),
        c.contains(x),
        x.name == e.name,
        d.configs == chain_register(c, e),
    ensures
        config_regs(d.configs).contains(e.reg),
        !config_regs(d.configs).contains(x.reg),
        fresh_conn(next_conn, d, default_cipher, thread, write_hint).applied_regs == config_regs(
            d.configs,
        ),
{
    lemma_chain_register_wf(c, e);
    let r = chain_register(c, e);
    let i = choose|i: int| 0 <= i < r.len() && r[i] == e;
    assert(config_regs(r)[i] == e.reg);
    assert(config_regs(r).contains(e.reg));
    let xi = choose|xi: int| 0 <= xi < c.len() && c[xi] == x;
    assert(x.reg < e.reg);
    assert forall|k: int| 0 <= k < r.len() implies (#[trigger] r[k]).reg != x.reg by {
        assert(r.contains(r[k]));
        if r[k] != e {
            assert(c.contains(r[k]));
            assert(r[k].name != e.name);
            let j = choose|j: int| 0 <= j < c.len() && c[j] == r[k];
            assert(j != xi) by {
                if j == xi {
                    assert(r[k] == x);
                }
            }
            if j < xi {
                assert(c[j].reg != c[xi].reg);
            } else {
                assert(c[xi].reg != c[j].reg);
            }
        }
    }
    if config_regs(r).contains(x.reg) {
        let k = choose|k: int| 0 <= k < config_regs(r).len() && config_regs(r)[k] == x.reg;
        assert(config_regs(r)[k] == r[k].reg);
        assert(false);
    }
}

/// The cipher parameters most recently set are the ones a fresh connection
/// is opened with, the `DefaultVersion` sentinel resolving to the
/// process-wide default.
pub proof fn law_cipher_applied(
    d: DbView,
    key: Seq<u8>,
    page_size: i32,
    version: CipherVersion,
    next_conn: u64,
    default_cipher: CipherVersion,
    thread: u64,
    write_hint: bool,
)
    ensures
        ({
            let configured = DbView { cipher: Some(CipherView { key, page_size, version }), ..d };
            let c = fresh_conn(next_conn, configured, default_cipher, thread, write_hint);
            c.cipher matches Some(cv) && cv.key == key && cv.page_size == page_size && cv.version
                == (if version == CipherVersion::DefaultVersion {
                default_cipher
            } else {
                version
            })
        }),
{
}

/// The write hint is advisory: two connections materialized under
/// different hints differ in nothing but the recorded hint itself.
pub proof fn law_write_hint_advisory(
    d: DbView,
    next_conn: u64,
    default_cipher: CipherVersion,
    thread: u64,
)
    ensures
        fresh_conn(next_conn, d, default_cipher, thread, true) == (ConnView {
            write_hint: true,
            ..fresh_conn(next_conn, d, default_cipher, thread, false)
        }),
{
}

/// Purging releases only idle connections, so it never changes whether a
/// database with at least one connection in use is opened; a database
/// whose connections are all idle is fully released.
pub proof fn law_purge_keeps_open(d: DbView)
    ensures
        retained_conns(d.conns).len() <= d.conns.len(),
        (exists|k: int| 0 <= k < d.conns.len() && (#[trigger] d.conns[k]).users > 0)
            ==> retained_conns(d.conns).len() > 0,
        all_idle(d) ==> retained_conns(d.conns).len() == 0,
{
    lemma_retained(d.conns);
    if exists|k: int| 0 <= k < d.conns.len() && (#[trigger] d.conns[k]).users > 0 {
        let k = choose|k: int| 0 <= k < d.conns.len() && (#[trigger] d.conns[k]).users > 0;
        assert(retained_conns(d.conns).contains(d.conns[k]));
    }
    if all_idle(d) && retained_conns(d.conns).len() > 0 {
        assert(retained_conns(d.conns).contains(retained_conns(d.conns)[0]));
    }
}

} // verus!
