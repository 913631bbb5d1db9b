//! Taking up changes to the files of plugins while the bot runs.
use vstd::prelude::*;

use crate::paths::{
    extension, file_name, is_name_of, is_plugin_file, is_portable, names_no_file,
};
use crate::wasm::loader::PluginManager;

verus! {

/// How long the files have to be left alone before changes are taken up, in
/// nanoseconds: a file that is being written is reported many times.
pub const RELOAD_DEBOUNCE_NANOS: u128 = 300_000_000;

/// What came while changes were being collected.
pub enum WatchEvent {
    /// A file changed.
    Changed(u64),
    /// Nobody watches the files any more.
    Closed,
    /// Nothing came until the deadline.
    Silence,
}

/// What is done about a file that changed.
pub enum FileAction {
    /// Load the plugin in the file anew.
    Reload,
    /// Take the plugin of this name out of service.
    Unload(String),
    Ignore,
}

/// The files that changed in one go, each by a number that stands for its path,
/// and when to stop waiting for more. Times are in nanoseconds, from a start that
/// does not matter.
pub struct Round {
    files: Vec<u64>,
    deadline: u128,
}

/// The files that changed, with one more.
pub open spec fn with_file(files: Seq<u64>, file: u64) -> Seq<u64> {
    if files.contains(file) {
        files
    } else {
        files.push(file)
    }
}

/// The files that changed, from the reports of changes in order.
pub open spec fn collected(reports: Seq<u64>) -> Seq<u64>
    decreases reports.len(),
{
    if reports.len() == 0 {
        Seq::empty()
    } else {
        with_file(collected(reports.drop_last()), reports.last())
    }
}

/// How long to go on waiting.
pub open spec fn time_left(deadline: u128, now: u128) -> u128 {
    if now < deadline {
        (deadline - now) as u128
    } else {
        0
    }
}

impl Round {
    /// The files that changed so far, in the order of the first report of each.
    pub closed spec fn files(&self) -> Seq<u64> {
        self.files@
    }

    /// When to stop waiting.
    pub closed spec fn deadline(&self) -> u128 {
        self.deadline
    }

    /// A round that begins with a change.
    pub fn new(file: u64, now: u128) -> (r: Round)
        requires
            now + RELOAD_DEBOUNCE_NANOS <= u128::MAX,
        ensures
            r.files() == collected(seq![file]),
            r.deadline() == now + RELOAD_DEBOUNCE_NANOS,
    {
        let mut files: Vec<u64> = Vec::new();
        files.push(file);
        proof {
            reveal_with_fuel(collected, 2);
            assert(seq![file].drop_last() == Seq::<u64>::empty());
            assert(files@ == seq![file]);
            assert(collected(seq![file]) == seq![file]);
        }
        Round { files, deadline: now + RELOAD_DEBOUNCE_NANOS }
    }

    /// How long to go on waiting; the round is over when nothing is left.
    pub fn remaining(&self, now: u128) -> (r: u128)
        ensures
            r == time_left(self.deadline(), now),
    {
        if now < self.deadline {
            self.deadline - now
        } else {
            0
        }
    }

    fn holds(&self, file: u64) -> (r: bool)
        ensures
            r == self.files().contains(file),
    {
        let mut i: usize = 0;
        while i < self.files.len()
            invariant
                i <= self.files@.len(),
                forall|j: int| 0 <= j < i ==> #[trigger] self.files@[j] != file,
            decreases self.files@.len() - i,
        {
            if self.files[i] == file {
                assert(self.files()[i as int] == file);
                return true;
            }
            i += 1;
        }
        false
    }

    /// Takes note of what came, and says whether to go on waiting. A change moves
    /// the deadline.
    pub fn next(&mut self, event: WatchEvent, now: u128) -> (r: bool)
        requires
            now + RELOAD_DEBOUNCE_NANOS <= u128::MAX,
        ensures
            match event {
                WatchEvent::Changed(file) => {
                    &&& r
                    &&& final(self).files() == with_file(old(self).files(), file)
                    &&& final(self).deadline() == now + RELOAD_DEBOUNCE_NANOS
                },
                _ => {
                    &&& !r
                    &&& final(self).files() == old(self).files()
                    &&& final(self).deadline() == old(self).deadline()
                },
            },
    {
        match event {
            WatchEvent::Changed(file) => {
                if !self.holds(file) {
                    self.files.push(file);
                }
                self.deadline = now + RELOAD_DEBOUNCE_NANOS;
                true
            },
            WatchEvent::Closed => false,
            WatchEvent::Silence => false,
        }
    }

    /// The files that changed.
    pub fn finish(self) -> (r: Vec<u64>)
        ensures
            r@ == self.files(),
    {
        self.files
    }
}

/// The file that a report of the watcher is about: the first that it names, where
/// that one holds a plugin.
pub fn reported_file(paths: &Vec<String>) -> (r: Option<String>)
    ensures
        paths@.len() == 0 ==> r is None,
        r matches Some(p) ==> paths@.len() > 0 && p@ == paths@[0]@,
        paths@.len() > 0 && is_portable(paths@[0]@) ==> (r is Some <==> extension(
            file_name(paths@[0]@),
        ) == Some("wasm"@)),
        paths@.len() > 0 && names_no_file(paths@[0]@) ==> r is None,
{
    if paths.len() == 0 {
        return None;
    }
    if is_plugin_file(paths[0].as_str()) {
        Some(paths[0].clone())
    } else {
        None
    }
}

/// What is done about a file that changed. `exists` says whether it is still
/// there.
pub fn handle_file_event<S, V>(manager: &PluginManager<S, V>, path: &str, exists: bool) -> (r:
    FileAction)
    requires
        manager.wf(),
    ensures
        match r {
            FileAction::Reload => exists,
            FileAction::Unload(name) => !exists && is_name_of(name@, path@)
                && manager.plugins().contains_key(name@),
            FileAction::Ignore => !exists && exists|unloaded: Seq<char>| #[trigger]
                is_name_of(unloaded, path@) && !manager.plugins().contains_key(unloaded),
        },
{
    if exists {
        return FileAction::Reload;
    }
    let name = PluginManager::<S, V>::plugin_name(path);
    if manager.is_loaded(name.as_str()) {
        FileAction::Unload(name)
    } else {
        FileAction::Ignore
    }
}

/// However often changes to files are reported in one go, each file is taken up
/// once, and no other file is.
pub proof fn law_each_file_once(reports: Seq<u64>)
    ensures
        collected(reports).no_duplicates(),
        collected(reports).to_set() == reports.to_set(),
    decreases reports.len(),
{
    if reports.len() > 0 {
        let before = reports.drop_last();
        law_each_file_once(before);
        let c = collected(before);
        let n = collected(reports);
        assert forall|p: u64| n.contains(p) == reports.contains(p) by {
            assert(c.contains(p) == c.to_set().contains(p));
            assert(before.contains(p) == before.to_set().contains(p));
            assert(before.contains(p) == c.contains(p));
            if n.contains(p) {
                let i = choose|i: int| 0 <= i < n.len() && n[i] == p;
                if i < c.len() {
                    assert(c[i] == p);
                    let j = choose|j: int| 0 <= j < before.len() && before[j] == p;
                    assert(reports[j] == p);
                } else {
                    assert(reports[reports.len() - 1] == p);
                }
            }
            if reports.contains(p) {
                let i = choose|i: int| 0 <= i < reports.len() && reports[i] == p;
                if i < before.len() {
                    assert(before[i] == p);
                    let j = choose|j: int| 0 <= j < c.len() && c[j] == p;
                    assert(n[j] == p);
                } else if !c.contains(p) {
                    assert(n[n.len() - 1] == p);
                }
            }
        }
        assert(n.to_set() =~= reports.to_set());
    }
}

/// Changes are taken up only when the files were left alone for as long as they
/// have to be: a round whose last change came at `last` is over at `now` exactly
/// if that long has passed.
pub proof fn law_files_are_left_alone(last: u128, now: u128)
    requires
        last + RELOAD_DEBOUNCE_NANOS <= u128::MAX,
    ensures
        time_left((last + RELOAD_DEBOUNCE_NANOS) as u128, now) == 0 <==> now >= last
            + RELOAD_DEBOUNCE_NANOS,
{
}

} // verus!
