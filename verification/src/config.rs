//! The shared installation configuration.
//!
//! One authoritative configuration exists per process, loaded from a
//! persistent key-value store at start. Operations work on a private
//! snapshot and write results back afterwards; the authoritative copy is
//! replaced from durable storage after any operation that may have
//! persisted changes out of band. Absence of a persisted record is a
//! valid "unset" state, never an error. The mutual-exclusion guard around
//! the authoritative copy lives with the caller; a broken guard is
//! reported as [`StoreError::StateCorrupted`], never as stale data.

use vstd::prelude::*;
use vstd::string::*;
use crate::paths::{is_normalized, normalize_spec, normalize_install_path,
    lemma_normalize_result_normalized};

verus! {

/// The installer-owned configuration record.
pub struct InstallationConfig {
    /// Installation root path; empty means not yet chosen.
    pub install_path: String,
    /// Whether the portable environment finished its one-time setup.
    pub environment_setup_completed: bool,
}

/// Mathematical image of a configuration record.
pub struct ConfigView {
    pub install_path: Seq<char>,
    pub environment_setup_completed: bool,
}

impl View for InstallationConfig {
    type V = ConfigView;

    open spec fn view(&self) -> ConfigView {
        ConfigView {
            install_path: self.install_path@,
            environment_setup_completed: self.environment_setup_completed,
        }
    }
}

/// A configuration is well formed when its path is either unset or
/// already ends in the canonical product folder.
pub open spec fn config_wf(c: ConfigView) -> bool {
    c.install_path.len() == 0 || is_normalized(c.install_path)
}

impl InstallationConfig {
    /// The fresh configuration used when no prior state was persisted.
    pub fn fresh() -> (c: InstallationConfig)
        ensures
            c@.install_path.len() == 0,
            !c@.environment_setup_completed,
            config_wf(c@),
    {
        InstallationConfig { install_path: String::new(), environment_setup_completed: false }
    }

    /// An independent copy with the same contents.
    pub fn duplicate(&self) -> (c: InstallationConfig)
        ensures
            c@ == self@,
    {
        InstallationConfig {
            install_path: self.install_path.clone(),
            environment_setup_completed: self.environment_setup_completed,
        }
    }
}

/// Mathematical image of the configuration store: the authoritative
/// in-memory copy and the durably persisted record, if any.
pub struct StoreView {
    pub current: ConfigView,
    pub stored: Option<ConfigView>,
}

/// The store after durably saving a normalized path: the persisted record
/// matches the in-memory copy, whose path is the normalized input and
/// whose setup flag is untouched.
pub open spec fn set_path_transition(pre: StoreView, post: StoreView, path: Seq<char>) -> bool {
    &&& post.current.install_path == normalize_spec(path)
    &&& post.current.environment_setup_completed == pre.current.environment_setup_completed
    &&& post.stored == Some(post.current)
}

/// The in-memory configuration backed by the persistent key-value store.
pub struct ConfigurationStore {
    current: InstallationConfig,
    stored: Option<InstallationConfig>,
}

impl View for ConfigurationStore {
    type V = StoreView;

    closed spec fn view(&self) -> StoreView {
        StoreView {
            current: self.current@,
            stored: match self.stored {
                Some(c) => Some(c@),
                None => None,
            },
        }
    }
}

impl ConfigurationStore {
    /// Both copies the store holds are well formed.
    pub open spec fn wf(&self) -> bool {
        &&& config_wf(self@.current)
        &&& (self@.stored matches Some(c) ==> config_wf(c))
    }

    /// Loads the configuration from the persisted record. Absence of a
    /// record is the valid first-run state: empty path, setup not done.
    pub fn load(stored: Option<InstallationConfig>) -> (s: ConfigurationStore)
        requires
            stored matches Some(c) ==> config_wf(c@),
        ensures
            s.wf(),
            stored matches Some(c) ==> s@.current == c@ && s@.stored == Some(c@),
            stored is None ==> s@.current.install_path.len() == 0
                && !s@.current.environment_setup_completed
                && s@.stored is None,
    {
        match stored {
            Some(c) => {
                let cur = c.duplicate();
                ConfigurationStore { current: cur, stored: Some(c) }
            },
            None => ConfigurationStore { current: InstallationConfig::fresh(), stored: None },
        }
    }

    /// An independent snapshot of the authoritative copy, for a caller to
    /// mutate without holding any guard across long-running work.
    pub fn snapshot(&self) -> (c: InstallationConfig)
        ensures
            c@ == self@.current,
    {
        self.current.duplicate()
    }

    /// Normalizes the path, persists it, and updates the in-memory copy.
    pub fn set_install_path(&mut self, path: &str)
        ensures
            set_path_transition(old(self)@, final(self)@, path@),
            final(self).wf(),
    {
        let normalized = normalize_install_path(path);
        proof {
            lemma_normalize_result_normalized(path@);
        }
        let flag = self.current.environment_setup_completed;
        self.current = InstallationConfig {
            install_path: normalized,
            environment_setup_completed: flag,
        };
        self.stored = Some(self.current.duplicate());
    }

    /// Sets the path only when none was chosen yet; otherwise leaves the
    /// store untouched.
    pub fn adopt_install_path_if_unset(&mut self, path: &str)
        requires
            old(self).wf(),
        ensures
            final(self).wf(),
            old(self)@.current.install_path.len() == 0 ==> set_path_transition(
                old(self)@,
                final(self)@,
                path@,
            ),
            old(self)@.current.install_path.len() > 0 ==> final(self)@ == old(self)@,
    {
        if self.current.install_path.as_str().is_empty() {
            self.set_install_path(path);
        }
    }

    /// Replaces the authoritative copy from durable storage; when the
    /// re-read failed, falls back to the caller's own mutated snapshot so
    /// that its changes are not lost, leaving the persisted record alone.
    pub fn reload(&mut self, from_disk: Option<InstallationConfig>, fallback: InstallationConfig)
        requires
            old(self).wf(),
            from_disk matches Some(c) ==> config_wf(c@),
            config_wf(fallback@),
        ensures
            final(self).wf(),
            from_disk matches Some(c) ==> final(self)@.current == c@
                && final(self)@.stored == Some(c@),
            from_disk is None ==> final(self)@.current == fallback@
                && final(self)@.stored == old(self)@.stored,
    {
        match from_disk {
            Some(c) => {
                self.current = c.duplicate();
                self.stored = Some(c);
            },
            None => {
                self.current = fallback;
            },
        }
    }

    /// Forgets both the in-memory and the persisted configuration, as
    /// after a complete uninstall.
    pub fn reset(&mut self)
        ensures
            final(self).wf(),
            final(self)@.current.install_path.len() == 0,
            !final(self)@.current.environment_setup_completed,
            final(self)@.stored is None,
    {
        self.current = InstallationConfig::fresh();
        self.stored = None;
    }
}

/// Law: persisting a path and then persisting its already-normalized form
/// again results in an identical persisted state.
pub proof fn lemma_set_install_path_idempotent(
    s0: StoreView,
    s1: StoreView,
    s2: StoreView,
    path: Seq<char>,
)
    requires
        set_path_transition(s0, s1, path),
        set_path_transition(s1, s2, normalize_spec(path)),
    ensures
        s2 == s1,
{
    crate::paths::lemma_normalize_idempotent(path);
}

/// Failure modes of the configuration store.
pub enum StoreError {
    /// The mutual-exclusion guard around the authoritative copy is broken
    /// (a prior holder gave up while mutating); the state may be stale.
    StateCorrupted,
}

impl StoreError {
    /// The message shown to the caller for this failure.
    pub fn message(&self) -> (m: String)
        ensures
            m@ == "State poisoned"@,
    {
        "State poisoned".to_owned()
    }
}

} // verus!
