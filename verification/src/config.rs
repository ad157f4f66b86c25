//! Builder, immutable dispatcher, and the install-once registration model.
//!
//! [`Femme`] is the fluent builder: render mode, default threshold, and
//! per-target overrides. [`Femme::build`] finalizes it into an immutable
//! [`Dispatcher`] whose published ceiling equals the most permissive of the
//! default and every override. [`Registry`] models the process-wide
//! registration point: at most one dispatcher is ever installed, and a second
//! attempt fails without replacing the first.

use vstd::prelude::*;
use vstd::string::StringExecFns;

use crate::level::{
    filter_max, level_passes, max_filter, passes, Level, LevelFilter,
};
use crate::record::{Record, RecordView};
use crate::render::{human_line, machine_line, write_ndjson, write_pretty};
use crate::table::{
    lemma_table_get_at, table_ceiling, table_get, table_has, table_index, unique_keys,
};
use crate::target::{first_segment, first_segment_of};

verus! {

/// Render mode of the dispatcher.
#[derive(Clone, Copy, PartialEq, Eq, Structural, Debug)]
pub enum Logger {
    /// Colorized, human-readable form.
    Pretty,
    /// Single-line machine-readable form.
    NDJson,
    /// Platform-default form; renders as the human form here, where no
    /// platform console of its own exists.
    Wasm,
}

impl Default for Logger {
    /// The platform default mode.
    fn default() -> (r: Self)
        ensures
            r == Logger::Pretty,
    {
        Logger::Pretty
    }
}

/// The ceiling of a configuration: the most permissive of the default
/// threshold and every per-target override.
pub open spec fn config_ceiling(default: LevelFilter, targets: Seq<(String, LevelFilter)>) -> LevelFilter {
    filter_max(default, table_ceiling(targets))
}

/// Builder of a logging configuration: render mode, default threshold,
/// and per-target overrides.
pub struct Femme {
    logger: Logger,
    level: LevelFilter,
    targets: Vec<(String, LevelFilter)>,
}

impl Femme {
    /// The configured render mode.
    pub closed spec fn spec_logger(&self) -> Logger {
        self.logger
    }

    /// The configured default threshold.
    pub closed spec fn spec_level(&self) -> LevelFilter {
        self.level
    }

    /// The per-target overrides, in insertion order.
    pub closed spec fn spec_targets(&self) -> Seq<(String, LevelFilter)> {
        self.targets@
    }

    /// Well-formedness: override keys are pairwise distinct.
    pub open spec fn wf(&self) -> bool {
        unique_keys(self.spec_targets())
    }

    /// The most permissive threshold this configuration can ever emit under.
    pub open spec fn spec_ceiling(&self) -> LevelFilter {
        config_ceiling(self.spec_level(), self.spec_targets())
    }

    /// The effective threshold for a target name: the override stored under
    /// the target's first segment, or the default threshold.
    pub open spec fn spec_module_level(&self, t: Seq<char>) -> LevelFilter {
        if table_has(self.spec_targets(), first_segment(t)) {
            table_get(self.spec_targets(), first_segment(t))
        } else {
            self.spec_level()
        }
    }

    /// Sets the render mode.
    pub fn logger(self, logger: Logger) -> (r: Self)
        ensures
            r.spec_logger() == logger,
            r.spec_level() == self.spec_level(),
            r.spec_targets() == self.spec_targets(),
    {
        Femme { logger, ..self }
    }

    /// Sets the default threshold.
    pub fn level(self, level: LevelFilter) -> (r: Self)
        ensures
            r.spec_logger() == self.spec_logger(),
            r.spec_level() == level,
            r.spec_targets() == self.spec_targets(),
    {
        Femme { level, ..self }
    }

    /// Sets the threshold for one target: replaces an existing override of
    /// the same key, appends a fresh one otherwise.
    pub fn level_for(self, module: String, level: LevelFilter) -> (r: Self)
        requires
            self.wf(),
        ensures
            r.wf(),
            r.spec_logger() == self.spec_logger(),
            r.spec_level() == self.spec_level(),
            table_has(r.spec_targets(), module@),
            table_get(r.spec_targets(), module@) == level,
            forall|k: Seq<char>|
                k != module@ ==> table_has(r.spec_targets(), k) == table_has(
                    self.spec_targets(),
                    k,
                ),
            forall|k: Seq<char>|
                k != module@ && table_has(self.spec_targets(), k) ==> table_get(
                    r.spec_targets(),
                    k,
                ) == table_get(self.spec_targets(), k),
            !table_has(self.spec_targets(), module@) ==> r.spec_targets() == self.spec_targets()
                .push((module, level)),
    {
        let ghost orig = self.targets@;
        let mut s = self;
        let n = s.targets.len();
        let mut i: usize = 0;
        while i < n
            invariant
                i <= n,
                n == orig.len(),
                s == self,
                orig == self.spec_targets(),
                unique_keys(orig),
                forall|j: int| 0 <= j < i ==> orig[j].0@ != module@,
            decreases n - i,
        {
            if s.targets[i].0 == module {
                let entry = s.targets.remove(i);
                s.targets.insert(i, (entry.0, level));
                proof {
                    assert(s.targets@ =~= orig.update(i as int, (orig[i as int].0, level)));
                    lemma_level_for_update(orig, s.targets@, module@, level, i as int);
                }
                return s;
            }
            i += 1;
        }
        s.targets.push((module, level));
        proof {
            assert(unique_keys(s.targets@));
            assert(!table_has(orig, module@));
            assert(s.targets@ =~= orig.push((module, level)));
            lemma_table_get_at(s.targets@, module@, orig.len() as int);
            assert forall|k: Seq<char>| k != module@ implies table_has(s.targets@, k) == table_has(
                orig,
                k,
            ) by {
                lemma_push_has(orig, (module, level), k);
            }
            assert forall|k: Seq<char>| k != module@ && table_has(orig, k) implies table_get(
                s.targets@,
                k,
            ) == table_get(orig, k) by {
                let j = table_index(orig, k);
                lemma_table_get_at(s.targets@, k, j);
            }
        }
        s
    }

    /// The effective threshold for a record: the override stored under the
    /// first segment of its target, or the default threshold.
    pub fn module_level(&self, record: &Record) -> (r: LevelFilter)
        requires
            self.wf(),
        ensures
            r == self.spec_module_level(record.target@),
    {
        let seg = first_segment_of(record.target.as_str());
        let seg_string = String::from_str(seg);
        let n = self.targets.len();
        let mut i: usize = 0;
        while i < n
            invariant
                i <= n,
                n == self.targets.len(),
                self.wf(),
                seg_string@ == first_segment(record.target@),
                forall|j: int| 0 <= j < i ==> self.targets@[j].0@ != seg_string@,
            decreases n - i,
        {
            if self.targets[i].0 == seg_string {
                proof {
                    lemma_table_get_at(self.targets@, seg_string@, i as int);
                }
                return self.targets[i].1;
            }
            i += 1;
        }
        assert(!table_has(self.targets@, first_segment(record.target@)));
        self.level
    }

    /// Finalizes the builder: computes the ceiling and freezes the
    /// configuration into an immutable dispatcher.
    pub fn build(self) -> (d: Dispatcher)
        requires
            self.wf(),
        ensures
            d.wf(),
            d.spec_config() == self,
            d.spec_max_level() == self.spec_ceiling(),
    {
        let mut acc = LevelFilter::Off;
        let n = self.targets.len();
        assert(self.targets@.take(0) =~= Seq::<(String, LevelFilter)>::empty());
        let mut i: usize = 0;
        while i < n
            invariant
                i <= n,
                n == self.targets.len(),
                acc == table_ceiling(self.targets@.take(i as int)),
            decreases n - i,
        {
            acc = max_filter(acc, self.targets[i].1);
            proof {
                assert(self.targets@.take(i + 1).drop_last() =~= self.targets@.take(i as int));
            }
            i += 1;
        }
        assert(self.targets@.take(n as int) =~= self.targets@);
        let max_level = max_filter(self.level, acc);
        Dispatcher { config: self, max_level }
    }

    /// Finalizes the builder and installs the dispatcher at the registration
    /// point; fails, leaving the registry unchanged, when a dispatcher is
    /// already installed.
    pub fn finish(self, registry: &mut Registry) -> (r: Result<(), SetLoggerError>)
        requires
            self.wf(),
        ensures
            old(registry).spec_installed() is None ==> r is Ok && (final(registry).spec_installed()
                matches Some(d) && d.wf() && d.spec_config() == self && d.spec_max_level()
                == self.spec_ceiling()),
            old(registry).spec_installed() is Some ==> r is Err && *final(registry) == *old(registry),
    {
        let d = self.build();
        registry.install(d)
    }
}

impl Default for Femme {
    /// The default configuration: platform-default mode, default threshold
    /// `Info`, no overrides.
    fn default() -> (r: Self)
        ensures
            r.wf(),
            r.spec_logger() == Logger::Pretty,
            r.spec_level() == LevelFilter::Info,
            r.spec_targets() == Seq::<(String, LevelFilter)>::empty(),
    {
        let r = Femme { logger: Logger::default(), level: LevelFilter::Info, targets: Vec::new() };
        proof {
            assert(r.spec_targets() =~= Seq::<(String, LevelFilter)>::empty());
        }
        r
    }
}

/// Keys other than the pushed one are found exactly as before.
proof fn lemma_push_has(s: Seq<(String, LevelFilter)>, p: (String, LevelFilter), k: Seq<char>)
    requires
        k != p.0@,
    ensures
        table_has(s.push(p), k) == table_has(s, k),
{
    if table_has(s.push(p), k) {
        let i = choose|i: int| 0 <= i < s.push(p).len() && s.push(p)[i].0@ == k;
        assert(i < s.len() && s[i].0@ == k);
    }
    if table_has(s, k) {
        let i = choose|i: int| 0 <= i < s.len() && s[i].0@ == k;
        assert(s.push(p)[i].0@ == k);
    }
}

/// Replacing the threshold at the index of `key` keeps every key, gives
/// `key` the new threshold, and leaves every other entry as it was.
proof fn lemma_level_for_update(
    orig: Seq<(String, LevelFilter)>,
    upd: Seq<(String, LevelFilter)>,
    key: Seq<char>,
    level: LevelFilter,
    i: int,
)
    requires
        unique_keys(orig),
        0 <= i < orig.len(),
        orig[i].0@ == key,
        upd == orig.update(i, (orig[i].0, level)),
    ensures
        unique_keys(upd),
        table_has(upd, key),
        table_get(upd, key) == level,
        forall|k: Seq<char>| k != key ==> table_has(upd, k) == table_has(orig, k),
        forall|k: Seq<char>|
            k != key && table_has(orig, k) ==> table_get(upd, k) == table_get(orig, k),
{
    assert(forall|j: int| 0 <= j < upd.len() ==> upd[j].0@ == orig[j].0@);
    lemma_table_get_at(upd, key, i);
    assert forall|k: Seq<char>| k != key implies table_has(upd, k) == table_has(orig, k) by {
        if table_has(upd, k) {
            let j = table_index(upd, k);
            assert(orig[j].0@ == k);
        }
        if table_has(orig, k) {
            let j = table_index(orig, k);
            assert(upd[j].0@ == k);
        }
    }
    assert forall|k: Seq<char>| k != key && table_has(orig, k) implies table_get(upd, k)
        == table_get(orig, k) by {
        let j = table_index(orig, k);
        assert(orig[j].0@ == k && 0 <= j < orig.len());
        assert(j != i);
        lemma_table_get_at(upd, k, j);
    }
}

/// The immutable, installed form of a configuration: the configuration plus
/// its published ceiling.
pub struct Dispatcher {
    config: Femme,
    max_level: LevelFilter,
}

impl Dispatcher {
    /// The frozen configuration.
    pub closed spec fn spec_config(&self) -> Femme {
        self.config
    }

    /// The published ceiling.
    pub closed spec fn spec_max_level(&self) -> LevelFilter {
        self.max_level
    }

    /// Well-formedness: the configuration is well formed and the published
    /// ceiling is exactly its most permissive threshold.
    pub open spec fn wf(&self) -> bool {
        self.spec_config().wf() && self.spec_max_level() == self.spec_config().spec_ceiling()
    }

    /// What the dispatcher renders for a record under its mode, with the
    /// given timestamp (the timestamp only shows in the machine form).
    pub open spec fn spec_rendered(&self, r: RecordView, now_ms: u64) -> Seq<char> {
        match self.spec_config().spec_logger() {
            Logger::Pretty => human_line(r),
            Logger::NDJson => machine_line(r, now_ms),
            Logger::Wasm => human_line(r),
        }
    }

    /// The published ceiling, for the facade's fast pre-filter.
    pub fn max_level(&self) -> (r: LevelFilter)
        ensures
            r == self.spec_max_level(),
    {
        self.max_level
    }

    /// The configured render mode.
    pub fn mode(&self) -> (r: Logger)
        ensures
            r == self.spec_config().spec_logger(),
    {
        self.config.logger
    }

    /// The cheap pre-filter: whether a record at `level` can clear any
    /// effective threshold of this configuration. A pure function of the
    /// stored ceiling and the level alone: two calls on the same arguments
    /// return the same boolean, and nothing is mutated.
    pub fn enabled(&self, level: Level) -> (r: bool)
        ensures
            r == level_passes(level, self.spec_max_level()),
    {
        passes(level, self.max_level)
    }

    /// The per-record decision and rendering, with an injected timestamp:
    /// returns the rendered entry exactly when the record's level clears the
    /// effective threshold of its target, and nothing otherwise.
    pub fn log_at(&self, record: &Record, now_ms: u64) -> (r: Option<String>)
        requires
            self.wf(),
        ensures
            r is Some <==> level_passes(
                record@.level,
                self.spec_config().spec_module_level(record@.target),
            ),
            r matches Some(s) ==> s@ == self.spec_rendered(record@, now_ms),
    {
        let threshold = self.config.module_level(record);
        if passes(record.level, threshold) {
            let mut out = String::new();
            match self.config.logger {
                Logger::Pretty => write_pretty(&mut out, record),
                Logger::NDJson => write_ndjson(&mut out, record, now_ms),
                Logger::Wasm => write_pretty(&mut out, record),
            }
            Some(out)
        } else {
            None
        }
    }

    /// The per-record decision and rendering, stamped with the wall clock:
    /// returns the rendered entry exactly when the record's level clears the
    /// effective threshold of its target. The caller writes the returned
    /// entry to the sink in one exclusive access.
    pub fn log(&self, record: &Record) -> (r: Option<String>)
        requires
            self.wf(),
        ensures
            r is Some <==> level_passes(
                record@.level,
                self.spec_config().spec_module_level(record@.target),
            ),
            r matches Some(s) ==> exists|now_ms: u64| s@ == self.spec_rendered(record@, now_ms),
    {
        let now_ms = now_unix_ms();
        let r = self.log_at(record, now_ms);
        proof {
            if r is Some {
                assert(r->Some_0@ == self.spec_rendered(record@, now_ms));
            }
        }
        r
    }

    /// Flushing is a no-op: the sink is unbuffered from this core's view.
    pub fn flush(&self) {
    }
}

/// Error of the registration step: a dispatcher was already installed.
pub struct SetLoggerError;

/// The process-wide registration point, modeled as a value: it accepts at
/// most one dispatcher for its lifetime.
pub struct Registry {
    installed: Option<Dispatcher>,
}

impl Registry {
    /// The installed dispatcher, if any.
    pub closed spec fn spec_installed(&self) -> Option<Dispatcher> {
        self.installed
    }

    /// A registration point with nothing installed.
    pub fn new() -> (r: Registry)
        ensures
            r.spec_installed() is None,
    {
        Registry { installed: None }
    }

    /// Installs a dispatcher exactly once: the first call succeeds and
    /// stores it; any later call fails and leaves the first installation
    /// untouched.
    pub fn install(&mut self, dispatcher: Dispatcher) -> (r: Result<(), SetLoggerError>)
        ensures
            old(self).spec_installed() is None ==> r is Ok && final(self).spec_installed()
                == Some(dispatcher),
            old(self).spec_installed() is Some ==> r is Err && *final(self) == *old(self),
    {
        if self.installed.is_some() {
            Err(SetLoggerError)
        } else {
            self.installed = Some(dispatcher);
            Ok(())
        }
    }

    /// The installed dispatcher, if any.
    pub fn installed(&self) -> (r: &Option<Dispatcher>)
        ensures
            *r == self.spec_installed(),
    {
        &self.installed
    }
}

/// Relies on `std::time::UNIX_EPOCH.elapsed` (the system wall clock) for the
/// milliseconds since the Unix epoch, 0 where the clock reads before the
/// epoch. Nothing is promised of the value: it depends on the clock alone.
#[verifier::external_body]
fn now_unix_ms() -> u64 {
    match std::time::UNIX_EPOCH.elapsed() {
        Ok(d) => d.as_millis() as u64,
        Err(_) => 0,
    }
}

/// Builds a configuration in the human-readable mode.
pub fn pretty() -> (f: Femme)
    ensures
        f.wf(),
        f.spec_logger() == Logger::Pretty,
        f.spec_level() == LevelFilter::Info,
        f.spec_targets() == Seq::<(String, LevelFilter)>::empty(),
{
    Femme::default().logger(Logger::Pretty)
}

/// Builds a configuration in the machine-readable mode.
pub fn ndjson() -> (f: Femme)
    ensures
        f.wf(),
        f.spec_logger() == Logger::NDJson,
        f.spec_level() == LevelFilter::Info,
        f.spec_targets() == Seq::<(String, LevelFilter)>::empty(),
{
    Femme::default().logger(Logger::NDJson)
}

/// Builds a configuration in the platform-default mode.
pub fn wasm() -> (f: Femme)
    ensures
        f.wf(),
        f.spec_logger() == Logger::Wasm,
        f.spec_level() == LevelFilter::Info,
        f.spec_targets() == Seq::<(String, LevelFilter)>::empty(),
{
    Femme::default().logger(Logger::Wasm)
}

/// Installs a default configuration with the given default threshold at the
/// registration point, which must still be empty.
pub fn with_level(level: LevelFilter, registry: &mut Registry)
    requires
        old(registry).spec_installed() is None,
    ensures
        final(registry).spec_installed() matches Some(d) && d.wf() && d.spec_config().spec_logger()
            == Logger::Pretty && d.spec_config().spec_level() == level
            && d.spec_config().spec_targets() == Seq::<(String, LevelFilter)>::empty(),
{
    let f = Femme::default().level(level);
    let _ = f.finish(registry);
}

/// Installs the default configuration (threshold `Info`) at the registration
/// point, which must still be empty.
pub fn start(registry: &mut Registry)
    requires
        old(registry).spec_installed() is None,
    ensures
        final(registry).spec_installed() matches Some(d) && d.wf() && d.spec_config().spec_logger()
            == Logger::Pretty && d.spec_config().spec_level() == LevelFilter::Info
            && d.spec_config().spec_targets() == Seq::<(String, LevelFilter)>::empty(),
{
    with_level(LevelFilter::Info, registry)
}

} // verus!
