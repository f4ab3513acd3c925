use vstd::prelude::*;

use crate::settings_inherit::{fallback_config, fallback_text, inherit_config, inherited_text};
use crate::text::same_text;

verus! {

/// Configuration files that inherit the official installation's file of the
/// same name.
pub open spec fn inheritable_name(name: Seq<char>) -> bool {
    ||| name == "settings.json"@
    ||| name == "global_settings.json"@
    ||| name == "keymap.json"@
    ||| name == "tasks.json"@
    ||| name == "debug.json"@
}

/// Whether a configuration file inherits the official file of the same
/// name, and if so whether it is the keymap (whose bindings are
/// concatenated rather than merged). Only the known files directly in the
/// editor's own configuration directory inherit.
pub fn inherited_config_file(file_name: &str, in_config_dir: bool) -> (r: Option<bool>)
    ensures
        r is Some <==> in_config_dir && inheritable_name(file_name@),
        r is Some ==> (r->0 <==> file_name@ == "keymap.json"@),
{
    if !in_config_dir {
        return None;
    }
    let keymap = same_text(file_name, "keymap.json");
    if keymap || same_text(file_name, "settings.json") || same_text(file_name, "global_settings.json")
        || same_text(file_name, "tasks.json") || same_text(file_name, "debug.json") {
        Some(keymap)
    } else {
        None
    }
}

/// The two texts that an inherited configuration is built from.
pub struct ConfigInheritance {
    /// The official file's text.
    pub base: String,
    /// The editor's own file's text.
    pub own: String,
    /// Whether the file is the keymap.
    pub keymap: bool,
}

impl ConfigInheritance {
    /// A change arrived for one of the two files: it replaces that file's
    /// text and leaves the other.
    pub fn apply_change(&mut self, official: bool, content: String)
        ensures
            official ==> final(self).base == content && final(self).own == old(self).own,
            !official ==> final(self).own == content && final(self).base == old(self).base,
            final(self).keymap == old(self).keymap,
    {
        if official {
            self.base = content;
        } else {
            self.own = content;
        }
    }

    /// What is handed on when the two texts cannot be combined.
    pub fn fallback(&self) -> (r: String)
        ensures
            r@ == fallback_text(self.base@, self.own@),
    {
        fallback_config(self.base.as_str(), self.own.as_str())
    }

    /// What the watcher hands on for the current texts: the inherited
    /// configuration when the texts combine, the fallback text when they
    /// do not.
    pub fn contents(&self) -> (r: String)
        ensures
            r@ == match inherited_text(self.base@, self.own@, self.keymap) {
                Some(t) => t,
                None => fallback_text(self.base@, self.own@),
            },
    {
        match inherit_config(self.base.as_str(), self.own.as_str(), self.keymap) {
            Ok(content) => content,
            Err(_) => self.fallback(),
        }
    }
}

/// What a watched file's change yields: its new contents when they could be
/// loaded; empty contents when it is known to be gone; otherwise nothing
/// (the change is skipped).
pub fn reloaded_contents(loaded: Option<String>, known_missing: bool) -> (r: Option<String>)
    ensures
        loaded is Some ==> r == loaded,
        loaded is None && known_missing ==> r is Some && r->0@ == Seq::<char>::empty(),
        loaded is None && !known_missing ==> r is None,
{
    match loaded {
        Some(contents) => Some(contents),
        None => {
            if known_missing {
                Some(String::new())
            } else {
                None
            }
        },
    }
}

/// The kinds of file-system events a watched configuration directory reports.
#[derive(Debug, Clone, Copy, PartialEq, Eq)]
pub enum PathEventKind {
    Removed,
    Created,
    Changed,
    Rescan,
}

/// What a watched configuration directory does with one event.
#[derive(Debug, Clone, Copy, PartialEq, Eq)]
pub enum DirEventAction {
    /// Nothing.
    Ignore,
    /// The watched file was removed: hand on empty contents.
    SendEmpty,
    /// Load the event's file and hand on its contents.
    ReloadFile,
    /// Load every watched file and hand on their contents.
    ReloadAll,
}

/// Decides what an event in a watched configuration directory does.
/// `watched_file`: the event's path is one of the watched files; `is_dir`: it is
/// the watched directory itself.
pub fn dir_event_action(watched_file: bool, is_dir: bool, kind: Option<PathEventKind>) -> (r:
    DirEventAction)
    ensures
        r == if watched_file {
            match kind {
                Some(PathEventKind::Removed) => DirEventAction::SendEmpty,
                Some(PathEventKind::Created) | Some(PathEventKind::Changed) => DirEventAction::ReloadFile,
                Some(PathEventKind::Rescan) => DirEventAction::ReloadAll,
                None => DirEventAction::Ignore,
            }
        } else if kind == Some(PathEventKind::Rescan) && is_dir {
            DirEventAction::ReloadAll
        } else {
            DirEventAction::Ignore
        },
{
    if watched_file {
        match kind {
            Some(PathEventKind::Removed) => DirEventAction::SendEmpty,
            Some(PathEventKind::Created) | Some(PathEventKind::Changed) => DirEventAction::ReloadFile,
            Some(PathEventKind::Rescan) => DirEventAction::ReloadAll,
            None => DirEventAction::Ignore,
        }
    } else {
        match kind {
            Some(PathEventKind::Rescan) => {
                if is_dir {
                    DirEventAction::ReloadAll
                } else {
                    DirEventAction::Ignore
                }
            },
            _ => DirEventAction::Ignore,
        }
    }
}

} // verus!
