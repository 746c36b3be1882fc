//! The watch loop as a state machine. Whoever runs the loop wakes the
//! watcher, loads the sources where the watcher says so, hands it what was
//! loaded, reports a failure to the observers, and sleeps.

use vstd::prelude::*;

use crate::config::Config;
use crate::error::ConfigError;
use crate::merge::merged;
use crate::tree::{Tree, TreeView};
use crate::typed::{read_from, FromTree};
use crate::watch_handle::WatchSignal;

verus! {

/// Where a watch stands. `Cancelled` is final.
#[derive(Clone, Copy, PartialEq, Eq, Structural, Debug)]
pub enum WatchState {
    Running,
    Cancelled,
}

/// What the loop does after a wake.
#[derive(Clone, Copy, PartialEq, Eq, Structural, Debug)]
pub enum WatchAction {
    /// Load the sources anew and hand the outcome to `observe`.
    Reload,
    /// End the loop.
    Stop,
}

/// What came of one observation.
#[derive(Debug)]
pub enum WatchOutcome {
    /// The watch was called off: nothing was looked at.
    Stopped,
    /// The sources gave the tree that was seen last.
    Unchanged,
    /// The sources gave another tree and the configuration holds it now.
    Updated,
    /// Loading failed, or the new tree does not fit the type. The
    /// configuration is as it was, and the error goes to every observer.
    Failed(ConfigError),
}

/// The state of one watch.
pub struct Watcher {
    state: WatchState,
    last: Option<Tree>,
    signal: WatchSignal,
    poll_millis: u64,
}

impl Watcher {
    /// Whether the watch goes on.
    pub closed spec fn is_running(&self) -> bool {
        self.state == WatchState::Running
    }

    /// The tree that the configuration took from this watch last.
    pub closed spec fn last_seen(&self) -> Option<TreeView> {
        match self.last {
            Some(tree) => Some(tree@),
            None => None,
        }
    }

    /// The time between two wakes, in milliseconds.
    pub closed spec fn poll_millis(&self) -> u64 {
        self.poll_millis
    }

    /// The signal that each wake looks at.
    pub closed spec fn signal(&self) -> WatchSignal {
        self.signal
    }

    /// A running watch that has seen nothing yet.
    pub fn new(signal: WatchSignal, poll_millis: u64) -> (watcher: Watcher)
        ensures
            watcher.is_running(),
            watcher.last_seen() is None,
            watcher.poll_millis() == poll_millis,
            watcher.signal() == signal,
    {
        Watcher { state: WatchState::Running, last: None, signal, poll_millis }
    }

    /// The time to sleep between two wakes, in milliseconds.
    pub fn poll_interval(&self) -> (millis: u64)
        ensures
            millis == self.poll_millis(),
    {
        self.poll_millis
    }

    /// Where the watch stands.
    pub fn state(&self) -> (state: WatchState)
        ensures
            (state == WatchState::Running) == self.is_running(),
    {
        self.state
    }

    /// The first step of each round, given whether the watch was called off.
    /// A watch that was called off never runs again.
    pub fn wake_on(&mut self, released: bool) -> (action: WatchAction)
        ensures
            final(self).is_running() == (old(self).is_running() && !released),
            (action == WatchAction::Reload) == final(self).is_running(),
            final(self).last_seen() == old(self).last_seen(),
            final(self).poll_millis() == old(self).poll_millis(),
            final(self).signal() == old(self).signal(),
    {
        if released {
            self.state = WatchState::Cancelled;
        }
        match self.state {
            WatchState::Running => WatchAction::Reload,
            WatchState::Cancelled => WatchAction::Stop,
        }
    }

    /// The first step of each round: reads the signal and goes on only if the
    /// flag was not found set.
    pub fn wake(&mut self) -> (action: WatchAction)
        ensures
            exists|released: bool| #[trigger]
                old(self).signal().reads(released) && final(self).is_running() == (old(self).is_running() && !released),
            (action == WatchAction::Reload) == final(self).is_running(),
            final(self).last_seen() == old(self).last_seen(),
            final(self).poll_millis() == old(self).poll_millis(),
            final(self).signal() == old(self).signal(),
    {
        let released = self.signal.is_set();
        self.wake_on(released)
    }

    /// Whether `tree` differs from the tree that was seen last.
    pub fn is_news(&self, tree: &Tree) -> (news: bool)
        ensures
            news == (self.last_seen() != Some(tree@)),
    {
        match &self.last {
            Some(seen) => !seen.same(tree),
            None => true,
        }
    }

    /// Nothing was taken: the configuration is as it was, and so is the tree
    /// that was seen last.
    pub open spec fn kept<T>(&self, before: &Watcher, config: &Config<T>, was: &Config<T>) -> bool {
        config.unchanged(was) && self.last_seen() == before.last_seen()
    }

    /// The second step of each round, given what loading the sources gave.
    ///
    /// A tree that differs from the one seen last replaces the tree of the
    /// sources in `config`; once that has succeeded it is the tree seen
    /// last. A failure, of the load or of the replacement, leaves `config`
    /// and the watcher as they were, and so does a watch that was called off.
    pub fn observe<T: FromTree>(
        &mut self,
        config: &mut Config<T>,
        loaded: Result<Tree, ConfigError>,
    ) -> (outcome: WatchOutcome)
        ensures
            final(self).is_running() == old(self).is_running(),
            final(self).poll_millis() == old(self).poll_millis(),
            final(self).signal() == old(self).signal(),
            final(config).overlay_view() == old(config).overlay_view(),
            !old(self).is_running() ==> outcome is Stopped && final(self).kept(
                old(self),
                final(config),
                old(config),
            ),
            old(self).is_running() ==> match loaded {
                Err(error) => outcome == WatchOutcome::Failed(error) && final(self).kept(
                    old(self),
                    final(config),
                    old(config),
                ),
                Ok(tree) => if old(self).last_seen() == Some(tree@) {
                    outcome is Unchanged && final(self).kept(old(self), final(config), old(config))
                } else {
                    exists|read: Result<T, String>| #[trigger]
                        read_from::<T>(merged(tree@, old(config).overlay_view()), read)
                            && match read {
                            Ok(value) => outcome is Updated && final(config).raw_view() == tree@
                                && final(config).value() == value && final(config).in_sync()
                                && final(self).last_seen() == Some(tree@),
                            Err(why) => outcome == WatchOutcome::Failed(
                                ConfigError::Deserialize(why),
                            ) && final(self).kept(old(self), final(config), old(config)),
                        }
                },
            },
    {
        match self.state {
            WatchState::Cancelled => {
                return WatchOutcome::Stopped;
            },
            WatchState::Running => {},
        }
        match loaded {
            Err(error) => WatchOutcome::Failed(error),
            Ok(tree) => {
                if !self.is_news(&tree) {
                    return WatchOutcome::Unchanged;
                }
                let seen = tree.clone();
                match config.replace_raw(tree) {
                    Ok(()) => {
                        self.last = Some(seen);
                        WatchOutcome::Updated
                    },
                    Err(error) => WatchOutcome::Failed(error),
                }
            },
        }
    }
}

} // verus!
