//! The watcher: one synchronous build at startup, then — in continuous mode —
//! a background recompile after every detected source change, debounced by a
//! quiet period. Every successful compile is delivered to the one consumer
//! exactly once; a failed one is reported and leaves the last good snapshot
//! in effect, and the watcher keeps running.
//!
//! The compiles themselves and the filesystem notifications happen outside
//! the library; these are the watcher's decisions, driven by plain events.

use vstd::prelude::*;

use crate::registry::{CompileError, ModuleRegistry};

verus! {

/// The two concurrency policies: build once and never watch again, or keep an
/// independent thread of control recompiling on every change.
#[derive(Clone, Copy, PartialEq, Eq, Structural)]
pub enum WatchMode {
    OneShot,
    Continuous,
}

/// What a finished background compile amounts to: deliver the new snapshot —
/// exactly once — or keep the last good one and surface the diagnostic.
pub enum WatchStep {
    /// Hand this snapshot to the consumer.
    Reload(ModuleRegistry),
    /// Report the diagnostic; the previous snapshot stays in effect.
    KeepLastGood(CompileError),
}

/// The watcher's whole state between events.
pub struct Watcher {
    pub mode: WatchMode,
    /// The most recent successful snapshot: what the consumer last got. Held
    /// in ghost only — the consumer owns the real value — so that the
    /// contracts can say when it does and does not change.
    pub current: Ghost<ModuleRegistry>,
    /// A source change awaits its recompile.
    pub pending_change: bool,
    /// When the latest change was seen; meaningful while one is pending.
    pub last_change: u64,
    /// The minimum quiet time after an edit before a recompile starts, so
    /// rapid successive edits collapse into one build.
    pub quiet_period: u64,
    /// A background compile is in flight.
    pub compiling: bool,
    /// How many snapshots have been delivered so far.
    pub reloads: u64,
}

impl Watcher {
    /// May a recompile start at time `now`? Only with a change pending, none
    /// in flight, and the quiet period over.
    pub open spec fn spec_ready_to_compile(self, now: u64) -> bool {
        &&& self.mode is Continuous
        &&& self.pending_change
        &&& !self.compiling
        &&& now >= self.last_change + self.quiet_period
    }

    /// Take up watching after the initial synchronous build, handing the
    /// initial snapshot back for the consumer's first pipeline. A failure
    /// here is fatal in either mode: there is no last good snapshot to keep.
    pub fn start(
        initial: Result<ModuleRegistry, CompileError>,
        mode: WatchMode,
        quiet_period: u64,
    ) -> (r: Result<(Watcher, ModuleRegistry), CompileError>)
        ensures
            r is Ok <==> initial is Ok,
            r matches Ok(p) ==> {
                &&& initial matches Ok(reg) && p.1 == reg && p.0.current@ == reg
                &&& p.0.mode == mode
                &&& !p.0.pending_change
                &&& !p.0.compiling
                &&& p.0.quiet_period == quiet_period
                &&& p.0.reloads == 0
            },
            r matches Err(e) ==> initial matches Err(e0) && e == e0,
    {
        match initial {
            Ok(registry) => {
                let w = Watcher {
                    mode,
                    current: Ghost(registry),
                    pending_change: false,
                    last_change: 0,
                    quiet_period,
                    compiling: false,
                    reloads: 0,
                };
                Ok((w, registry))
            },
            Err(e) => Err(e),
        }
    }

    /// A source modification was detected at time `now`. In one-shot mode it
    /// is ignored; in continuous mode it marks a recompile due and restarts
    /// the quiet period. The current snapshot is untouched either way.
    pub fn on_source_change(&mut self, now: u64)
        ensures
            old(self).mode is OneShot ==> *final(self) == *old(self),
            old(self).mode is Continuous ==> *final(self) == (Watcher {
                pending_change: true,
                last_change: now,
                ..*old(self)
            }),
    {
        match self.mode {
            WatchMode::OneShot => {},
            WatchMode::Continuous => {
                self.pending_change = true;
                self.last_change = now;
            },
        }
    }

    /// Is it time to start a recompile?
    pub fn ready_to_compile(&self, now: u64) -> (r: bool)
        ensures
            r == self.spec_ready_to_compile(now),
    {
        match self.mode {
            WatchMode::Continuous => self.pending_change && !self.compiling && now
                >= self.last_change && now - self.last_change >= self.quiet_period,
            WatchMode::OneShot => false,
        }
    }

    /// A recompile starts: the pending change is being consumed by it.
    pub fn begin_compile(&mut self, now: u64)
        requires
            old(self).spec_ready_to_compile(now),
        ensures
            *final(self) == (Watcher { pending_change: false, compiling: true, ..*old(self) }),
    {
        self.pending_change = false;
        self.compiling = true;
    }

    /// The in-flight compile finished.
    ///
    /// On success the new snapshot becomes current and is handed out to be
    /// delivered, exactly once. On failure nothing is delivered, the last
    /// good snapshot stays current, and the watcher goes on watching — a
    /// broken shader must never take the running program down.
    pub fn on_compile_finished(&mut self, result: Result<ModuleRegistry, CompileError>) -> (step:
        WatchStep)
        requires
            old(self).compiling,
            old(self).reloads < u64::MAX,
        ensures
            !final(self).compiling,
            final(self).mode == old(self).mode,
            final(self).pending_change == old(self).pending_change,
            final(self).last_change == old(self).last_change,
            final(self).quiet_period == old(self).quiet_period,
            result matches Ok(reg) ==> {
                &&& step == WatchStep::Reload(reg)
                &&& final(self).current@ == reg
                &&& final(self).reloads == old(self).reloads + 1
            },
            result matches Err(e) ==> {
                &&& step == WatchStep::KeepLastGood(e)
                &&& final(self).current == old(self).current
                &&& final(self).reloads == old(self).reloads
            },
    {
        self.compiling = false;
        match result {
            Ok(registry) => {
                self.current = Ghost(registry);
                self.reloads = self.reloads + 1;
                WatchStep::Reload(registry)
            },
            Err(e) => WatchStep::KeepLastGood(e),
        }
    }
}

} // verus!
