//! The plugin registry: the plugins that are known, and the events that each
//! has subscribed to.
use crate::text::same_text;
use vstd::prelude::*;

verus! {

/// A path of the file system, carried but never looked into.
#[verifier::external_type_specification]
#[verifier::external_body]
pub struct ExPathBuf(std::path::PathBuf);

/// `PathBuf::clone`: a copy of the path. Nothing is claimed of it.
pub assume_specification[ <std::path::PathBuf as Clone>::clone ](
    path: &std::path::PathBuf,
) -> std::path::PathBuf;

#[derive(Debug, Clone, PartialEq)]
pub enum HookEvent {
    SessionStart,
    SessionEnd,
    LineOutput(String),
    TitleChange(String),
    DirectoryChange(String),
    Bell,
}

#[derive(Debug, Clone)]
pub struct PluginInfo {
    pub name: String,
    pub version: String,
    pub description: String,
    pub path: std::path::PathBuf,
    pub enabled: bool,
}

/// The subscriptions to one event: the indices of the plugins, in the order
/// in which they subscribed.
pub struct Hook {
    pub event: String,
    pub plugins: Vec<usize>,
}

pub struct PluginManager {
    pub plugins: Vec<PluginInfo>,
    /// The subscriptions, one entry for each event that has any.
    pub hooks: Vec<Hook>,
}

/// The plugins with the indices `indices`, in that order, without those that
/// are not registered or not enabled.
pub open spec fn enabled_of(plugins: Seq<PluginInfo>, indices: Seq<usize>) -> Seq<PluginInfo>
    decreases indices.len(),
{
    if indices.len() == 0 {
        Seq::empty()
    } else {
        let before = enabled_of(plugins, indices.drop_last());
        let i = indices.last();
        if i < plugins.len() && plugins[i as int].enabled {
            before.push(plugins[i as int])
        } else {
            before
        }
    }
}

impl PluginManager {
    /// No event has two entries.
    pub open spec fn wf(&self) -> bool {
        forall|i: int, j: int|
            0 <= i < j < self.hooks@.len() ==> (#[trigger] self.hooks@[i]).event@
                != (#[trigger] self.hooks@[j]).event@
    }

    /// The indices of the plugins that subscribed to `event`, in the order
    /// in which they did.
    pub open spec fn subscribed(&self, event: Seq<char>) -> Seq<usize> {
        if exists|i: int| 0 <= i < self.hooks@.len() && self.hooks@[i].event@ == event {
            let i = choose|i: int| 0 <= i < self.hooks@.len() && self.hooks@[i].event@ == event;
            self.hooks@[i].plugins@
        } else {
            Seq::empty()
        }
    }

    pub fn new() -> (m: PluginManager)
        ensures
            m.wf(),
            m.plugins@.len() == 0,
            m.hooks@.len() == 0,
    {
        PluginManager { plugins: Vec::new(), hooks: Vec::new() }
    }

    /// Register a plugin.
    pub fn register(&mut self, info: PluginInfo) -> (idx: usize)
        ensures
            idx == old(self).plugins@.len(),
            final(self).plugins@ == old(self).plugins@.push(info),
            final(self).hooks == old(self).hooks,
    {
        let idx = self.plugins.len();
        self.plugins.push(info);
        idx
    }

    fn find_hook(&self, event: &str) -> (r: Option<usize>)
        requires
            self.wf(),
        ensures
            r matches Some(i) ==> i < self.hooks@.len() && self.hooks@[i as int].event@ == event@
                && self.subscribed(event@) == self.hooks@[i as int].plugins@,
            r is None ==> (forall|i: int|
                0 <= i < self.hooks@.len() ==> (#[trigger] self.hooks@[i]).event@ != event@)
                && self.subscribed(event@) == Seq::<usize>::empty(),
    {
        let mut i: usize = 0;
        while i < self.hooks.len()
            invariant
                i <= self.hooks@.len(),
                self.wf(),
                forall|j: int| 0 <= j < i ==> (#[trigger] self.hooks@[j]).event@ != event@,
            decreases self.hooks.len() - i,
        {
            if same_text(self.hooks[i].event.as_str(), event) {
                proof {
                    let k = choose|k: int|
                        0 <= k < self.hooks@.len() && self.hooks@[k].event@ == event@;
                    if k < i {
                        assert(self.hooks@[k].event@ != event@);
                    }
                    if i < k {
                        assert(self.hooks@[i as int].event@ != self.hooks@[k].event@);
                    }
                }
                return Some(i);
            }
            i += 1;
        }
        None
    }

    /// Subscribe a plugin to an event.
    pub fn subscribe(&mut self, plugin_idx: usize, event: &str)
        requires
            old(self).wf(),
        ensures
            final(self).wf(),
            final(self).plugins == old(self).plugins,
            final(self).subscribed(event@) == old(self).subscribed(event@).push(plugin_idx),
            forall|other: Seq<char>|
                other != event@ ==> final(self).subscribed(other) == old(self).subscribed(other),
    {
        match self.find_hook(event) {
            Some(i) => {
                self.hooks[i].plugins.push(plugin_idx);
                assert forall|a: int, b: int| 0 <= a < b < self.hooks@.len() implies (
                #[trigger] self.hooks@[a]).event@ != (#[trigger] self.hooks@[b]).event@ by {
                    assert(self.hooks@[a].event@ == old(self).hooks@[a].event@);
                    assert(self.hooks@[b].event@ == old(self).hooks@[b].event@);
                }
                assert forall|other: Seq<char>|
                    true implies #[trigger] self.subscribed(other) == (if other == event@ {
                    old(self).subscribed(event@).push(plugin_idx)
                } else {
                    old(self).subscribed(other)
                }) by {
                    self.lemma_subscribed_at(other);
                    old(self).lemma_subscribed_at(other);
                    self.lemma_subscribed_at(event@);
                    assert forall|k: int| 0 <= k < self.hooks@.len() implies self.hooks@[k].event@
                        == old(self).hooks@[k].event@ by {}
                }
            },
            None => {
                let mut plugins: Vec<usize> = Vec::new();
                plugins.push(plugin_idx);
                self.hooks.push(Hook { event: event.to_owned(), plugins });
                let ghost last = old(self).hooks@.len() as int;
                assert(self.hooks@[last].plugins@ =~= Seq::<usize>::empty().push(plugin_idx));
                assert(self.hooks@[last].event@ == event@);
                assert forall|k: int| 0 <= k < last implies #[trigger] self.hooks@[k] == old(
                    self,
                ).hooks@[k] by {}
                assert(self.wf()) by {
                    assert forall|a: int, b: int| 0 <= a < b < self.hooks@.len() implies (
                    #[trigger] self.hooks@[a]).event@ != (#[trigger] self.hooks@[b]).event@ by {
                        assert(self.hooks@[a] == old(self).hooks@[a]);
                        if b < last {
                            assert(self.hooks@[b] == old(self).hooks@[b]);
                        }
                    }
                }
                assert forall|other: Seq<char>|
                    true implies #[trigger] self.subscribed(other) == (if other == event@ {
                    old(self).subscribed(event@).push(plugin_idx)
                } else {
                    old(self).subscribed(other)
                }) by {
                    self.lemma_subscribed_at(other);
                    old(self).lemma_subscribed_at(other);
                    if other == event@ {
                        assert(self.subscribed(other) == self.hooks@[last].plugins@);
                    } else if exists|i: int|
                        0 <= i < last && old(self).hooks@[i].event@ == other {
                        let i = choose|i: int| 0 <= i < last && old(self).hooks@[i].event@ == other;
                        assert(self.hooks@[i] == old(self).hooks@[i]);
                    } else {
                        assert forall|i: int| 0 <= i < self.hooks@.len() implies (
                        #[trigger] self.hooks@[i]).event@ != other by {
                            if i < last {
                                assert(self.hooks@[i] == old(self).hooks@[i]);
                            }
                        }
                    }
                }
            },
        }
    }

    /// Where an event has an entry, its subscribers are that entry's.
    proof fn lemma_subscribed_at(&self, event: Seq<char>)
        requires
            self.wf(),
        ensures
            forall|i: int|
                0 <= i < self.hooks@.len() && (#[trigger] self.hooks@[i]).event@ == event
                    ==> self.subscribed(event) == self.hooks@[i].plugins@,
            (forall|i: int| 0 <= i < self.hooks@.len() ==> (#[trigger] self.hooks@[i]).event@
                != event) ==> self.subscribed(event) == Seq::<usize>::empty(),
    {
        assert forall|i: int|
            0 <= i < self.hooks@.len() && (#[trigger] self.hooks@[i]).event@
                == event implies self.subscribed(event) == self.hooks@[i].plugins@ by {
            let k = choose|k: int| 0 <= k < self.hooks@.len() && self.hooks@[k].event@ == event;
            if k < i {
                assert(self.hooks@[k].event@ != self.hooks@[i].event@);
            }
            if i < k {
                assert(self.hooks@[i].event@ != self.hooks@[k].event@);
            }
        }
    }

    /// Get plugins subscribed to an event: those that are enabled, in the
    /// order in which they subscribed.
    pub fn subscribers(&self, event: &str) -> (out: Vec<&PluginInfo>)
        requires
            self.wf(),
        ensures
            out@.len() == enabled_of(self.plugins@, self.subscribed(event@)).len(),
            forall|i: int|
                0 <= i < out@.len() ==> *#[trigger] out@[i] == enabled_of(
                    self.plugins@,
                    self.subscribed(event@),
                )[i],
    {
        let mut out: Vec<&PluginInfo> = Vec::new();
        match self.find_hook(event) {
            Some(h) => {
                let indices = &self.hooks[h].plugins;
                let mut k: usize = 0;
                assert(indices@.take(0) =~= Seq::<usize>::empty());
                while k < indices.len()
                    invariant
                        k <= indices@.len(),
                        out@.len() == enabled_of(self.plugins@, indices@.take(k as int)).len(),
                        forall|i: int|
                            0 <= i < out@.len() ==> *#[trigger] out@[i] == enabled_of(
                                self.plugins@,
                                indices@.take(k as int),
                            )[i],
                    decreases indices.len() - k,
                {
                    assert(indices@.take(k + 1).drop_last() =~= indices@.take(k as int));
                    let i = indices[k];
                    if i < self.plugins.len() && self.plugins[i].enabled {
                        out.push(&self.plugins[i]);
                    }
                    k += 1;
                }
                assert(indices@.take(indices.len() as int) =~= indices@);
            },
            None => {},
        }
        out
    }

    /// List all registered plugins.
    pub fn list(&self) -> (l: &[PluginInfo])
        ensures
            l@ == self.plugins@,
    {
        self.plugins.as_slice()
    }

    /// Enable/disable a plugin by index.
    pub fn set_enabled(&mut self, idx: usize, enabled: bool)
        ensures
            final(self).hooks == old(self).hooks,
            final(self).plugins@.len() == old(self).plugins@.len(),
            forall|i: int|
                0 <= i < old(self).plugins@.len() && i != idx ==> #[trigger] final(self).plugins@[i]
                    == old(self).plugins@[i],
            idx < old(self).plugins@.len() ==> final(self).plugins@[idx as int] == (PluginInfo {
                enabled,
                ..old(self).plugins@[idx as int]
            }),
    {
        if idx < self.plugins.len() {
            self.plugins[idx].enabled = enabled;
        }
    }
}

} // verus!
