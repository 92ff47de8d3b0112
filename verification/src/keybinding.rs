//! Key bindings: which action a key with its modifiers stands for.
use crate::text::{chars_of, same_text, string_from_chars};
use vstd::prelude::*;

verus! {

#[derive(Debug, Clone, Copy, PartialEq, Eq, Hash, Structural)]
pub enum Modifier {
    /// Cmd on macOS, Ctrl on Linux
    Super,
    Ctrl,
    Alt,
    Shift,
}

#[derive(Debug, Clone, PartialEq, Eq, Hash)]
pub struct KeyBinding {
    pub modifiers: Vec<Modifier>,
    pub key: String,
}

#[derive(Debug, Clone, PartialEq, Eq, Hash)]
pub enum Action {
    Copy,
    Paste,
    NewTab,
    CloseTab,
    NextTab,
    PrevTab,
    SplitVertical,
    SplitHorizontal,
    ClosePane,
    NextPane,
    IncreaseFontSize,
    DecreaseFontSize,
    ResetFontSize,
    SearchOpen,
    SearchNext,
    SearchPrev,
    ScrollUp,
    ScrollDown,
    ScrollToTop,
    ScrollToBottom,
    PrevPrompt,
    NextPrompt,
    ClearScreen,
    Custom(String),
}

#[derive(Debug, Clone, Copy, PartialEq, Eq, Structural)]
pub enum Platform {
    MacOS,
    Linux,
}

/// The mathematical value of a [`KeyBinding`].
pub struct BindingView {
    pub modifiers: Seq<Modifier>,
    pub key: Seq<char>,
}

impl View for KeyBinding {
    type V = BindingView;

    open spec fn view(&self) -> BindingView {
        BindingView { modifiers: self.modifiers@, key: self.key@ }
    }
}

/// The mathematical value of an [`Action`]: its place among the actions, and
/// the name of a custom one.
pub struct ActionId {
    pub code: int,
    pub custom: Seq<char>,
}

impl View for Action {
    type V = ActionId;

    open spec fn view(&self) -> ActionId {
        match *self {
            Action::Copy => ActionId { code: 0, custom: Seq::empty() },
            Action::Paste => ActionId { code: 1, custom: Seq::empty() },
            Action::NewTab => ActionId { code: 2, custom: Seq::empty() },
            Action::CloseTab => ActionId { code: 3, custom: Seq::empty() },
            Action::NextTab => ActionId { code: 4, custom: Seq::empty() },
            Action::PrevTab => ActionId { code: 5, custom: Seq::empty() },
            Action::SplitVertical => ActionId { code: 6, custom: Seq::empty() },
            Action::SplitHorizontal => ActionId { code: 7, custom: Seq::empty() },
            Action::ClosePane => ActionId { code: 8, custom: Seq::empty() },
            Action::NextPane => ActionId { code: 9, custom: Seq::empty() },
            Action::IncreaseFontSize => ActionId { code: 10, custom: Seq::empty() },
            Action::DecreaseFontSize => ActionId { code: 11, custom: Seq::empty() },
            Action::ResetFontSize => ActionId { code: 12, custom: Seq::empty() },
            Action::SearchOpen => ActionId { code: 13, custom: Seq::empty() },
            Action::SearchNext => ActionId { code: 14, custom: Seq::empty() },
            Action::SearchPrev => ActionId { code: 15, custom: Seq::empty() },
            Action::ScrollUp => ActionId { code: 16, custom: Seq::empty() },
            Action::ScrollDown => ActionId { code: 17, custom: Seq::empty() },
            Action::ScrollToTop => ActionId { code: 18, custom: Seq::empty() },
            Action::ScrollToBottom => ActionId { code: 19, custom: Seq::empty() },
            Action::PrevPrompt => ActionId { code: 20, custom: Seq::empty() },
            Action::NextPrompt => ActionId { code: 21, custom: Seq::empty() },
            Action::ClearScreen => ActionId { code: 22, custom: Seq::empty() },
            Action::Custom(name) => ActionId { code: 23, custom: name@ },
        }
    }
}

impl Action {
    fn code(&self) -> (c: u8)
        ensures
            c == self@.code,
    {
        match self {
            Action::Copy => 0,
            Action::Paste => 1,
            Action::NewTab => 2,
            Action::CloseTab => 3,
            Action::NextTab => 4,
            Action::PrevTab => 5,
            Action::SplitVertical => 6,
            Action::SplitHorizontal => 7,
            Action::ClosePane => 8,
            Action::NextPane => 9,
            Action::IncreaseFontSize => 10,
            Action::DecreaseFontSize => 11,
            Action::ResetFontSize => 12,
            Action::SearchOpen => 13,
            Action::SearchNext => 14,
            Action::SearchPrev => 15,
            Action::ScrollUp => 16,
            Action::ScrollDown => 17,
            Action::ScrollToTop => 18,
            Action::ScrollToBottom => 19,
            Action::PrevPrompt => 20,
            Action::NextPrompt => 21,
            Action::ClearScreen => 22,
            Action::Custom(_) => 23,
        }
    }

    /// Whether the two actions are the same.
    pub fn same(&self, other: &Action) -> (b: bool)
        ensures
            b == (self@ == other@),
    {
        if self.code() != other.code() {
            return false;
        }
        match (self, other) {
            (Action::Custom(a), Action::Custom(b)) => same_text(a.as_str(), b.as_str()),
            _ => true,
        }
    }
}

impl KeyBinding {
    /// Whether the two bindings name the same key with the same modifiers,
    /// in the same order.
    pub fn same(&self, other: &KeyBinding) -> (b: bool)
        ensures
            b == (self@ == other@),
    {
        if self.modifiers.len() != other.modifiers.len() {
            return false;
        }
        let mut i: usize = 0;
        while i < self.modifiers.len()
            invariant
                i <= self.modifiers@.len(),
                self.modifiers@.len() == other.modifiers@.len(),
                forall|j: int| 0 <= j < i ==> self.modifiers@[j] == other.modifiers@[j],
            decreases self.modifiers.len() - i,
        {
            if self.modifiers[i] != other.modifiers[i] {
                return false;
            }
            i += 1;
        }
        assert(self.modifiers@ =~= other.modifiers@);
        same_text(self.key.as_str(), other.key.as_str())
    }
}

/// A key binding and the action bound to it.
pub struct Bound {
    pub binding: KeyBinding,
    pub action: Action,
}

pub struct KeybindingManager {
    /// The bindings, in the order in which their keys were first bound.
    pub bindings: Vec<Bound>,
    pub platform: Platform,
}

/// The index of the entry of `binding`, from `from` on.
pub open spec fn index_of(list: Seq<(BindingView, ActionId)>, binding: BindingView, from: int)
    -> Option<int>
    decreases list.len() - from,
{
    if from < 0 || from >= list.len() {
        None
    } else if list[from].0 == binding {
        Some(from)
    } else {
        index_of(list, binding, from + 1)
    }
}

/// The list with `binding` bound to `action`: in place where the binding has
/// an entry, at the end where it has none.
pub open spec fn bound(list: Seq<(BindingView, ActionId)>, binding: BindingView, action: ActionId)
    -> Seq<(BindingView, ActionId)> {
    match index_of(list, binding, 0) {
        Some(i) => list.update(i, (binding, action)),
        None => list.push((binding, action)),
    }
}

/// The list without the entry of `binding`.
pub open spec fn unbound(list: Seq<(BindingView, ActionId)>, binding: BindingView) -> Seq<
    (BindingView, ActionId),
> {
    match index_of(list, binding, 0) {
        Some(i) => list.remove(i),
        None => list,
    }
}

/// The bindings of the first `count` entries whose action is `action`.
pub open spec fn bindings_of(list: Seq<(BindingView, ActionId)>, action: ActionId, count: int)
    -> Seq<BindingView>
    decreases count,
{
    if count <= 0 {
        Seq::empty()
    } else {
        let before = bindings_of(list, action, count - 1);
        if list[count - 1].1 == action {
            before.push(list[count - 1].0)
        } else {
            before
        }
    }
}

/// A default binding: the key `key` with Super, and with Shift where
/// `shift` holds.
pub open spec fn default_key(shift: bool, key: Seq<char>) -> BindingView {
    BindingView {
        modifiers: if shift {
            seq![Modifier::Super, Modifier::Shift]
        } else {
            seq![Modifier::Super]
        },
        key,
    }
}

pub open spec fn plain(code: int) -> ActionId {
    ActionId { code, custom: Seq::empty() }
}

/// The bindings that a new manager has.
pub open spec fn default_bindings() -> Seq<(BindingView, ActionId)> {
    seq![
        (default_key(false, seq!['c']), plain(0)),
        (default_key(false, seq!['v']), plain(1)),
        (default_key(false, seq!['t']), plain(2)),
        (default_key(false, seq!['w']), plain(3)),
        (default_key(true, seq![']']), plain(4)),
        (default_key(true, seq!['[']), plain(5)),
        (default_key(false, seq!['d']), plain(6)),
        (default_key(true, seq!['d']), plain(7)),
        (default_key(false, seq!['=']), plain(10)),
        (default_key(false, seq!['-']), plain(11)),
        (default_key(false, seq!['0']), plain(12)),
        (default_key(false, seq!['f']), plain(13)),
        (default_key(false, seq!['g']), plain(14)),
        (default_key(true, seq!['g']), plain(15)),
        (default_key(false, seq!['k']), plain(22)),
        (default_key(true, seq!['U', 'p']), plain(20)),
        (default_key(true, seq!['D', 'o', 'w', 'n']), plain(21)),
    ]
}

/// How a modifier is shown on a platform.
pub open spec fn modifier_label(m: Modifier, platform: Platform) -> Seq<char> {
    match (m, platform) {
        (Modifier::Super, Platform::MacOS) => seq!['\u{2318}'],
        (Modifier::Super, Platform::Linux) => seq!['C', 't', 'r', 'l'],
        (Modifier::Ctrl, _) => seq!['C', 't', 'r', 'l'],
        (Modifier::Alt, Platform::MacOS) => seq!['\u{2325}'],
        (Modifier::Alt, Platform::Linux) => seq!['A', 'l', 't'],
        (Modifier::Shift, _) => seq!['\u{21e7}'],
    }
}

/// The labels of the first `count` modifiers, each followed by `+`.
pub open spec fn labels(modifiers: Seq<Modifier>, platform: Platform, count: int) -> Seq<char>
    decreases count,
{
    if count <= 0 {
        Seq::empty()
    } else {
        labels(modifiers, platform, count - 1) + modifier_label(modifiers[count - 1], platform)
            + seq!['+']
    }
}

fn make_default(shift: bool, key: &str) -> (b: KeyBinding)
    ensures
        b@ == default_key(shift, key@),
{
    let mut modifiers: Vec<Modifier> = Vec::new();
    modifiers.push(Modifier::Super);
    if shift {
        modifiers.push(Modifier::Shift);
    }
    assert(modifiers@ =~= default_key(shift, key@).modifiers);
    KeyBinding { modifiers, key: key.to_owned() }
}

impl KeybindingManager {
    /// The bindings with their actions, as values.
    pub open spec fn entries(&self) -> Seq<(BindingView, ActionId)> {
        Seq::new(self.bindings@.len(), |i: int| (self.bindings@[i].binding@, self.bindings@[i].action@))
    }

    /// No key is bound twice.
    pub open spec fn wf(&self) -> bool {
        forall|i: int, j: int|
            0 <= i < j < self.bindings@.len() ==> (#[trigger] self.bindings@[i]).binding@
                != (#[trigger] self.bindings@[j]).binding@
    }

    /// A manager with the default bindings.
    pub fn new(platform: Platform) -> (m: KeybindingManager)
        ensures
            m.wf(),
            m.platform == platform,
            m.entries() == default_bindings(),
    {
        let mut mgr = KeybindingManager { bindings: Vec::new(), platform };
        mgr.load_defaults();
        mgr
    }

    fn push_default(&mut self, shift: bool, key: &str, action: Action)
        ensures
            final(self).platform == old(self).platform,
            final(self).entries() == old(self).entries().push(
                (default_key(shift, key@), action@),
            ),
    {
        self.bindings.push(Bound { binding: make_default(shift, key), action });
        assert(self.entries() =~= old(self).entries().push((default_key(shift, key@), action@)));
    }

    fn load_defaults(&mut self)
        requires
            old(self).bindings@.len() == 0,
        ensures
            final(self).wf(),
            final(self).platform == old(self).platform,
            final(self).entries() == default_bindings(),
    {
        proof {
            reveal_strlit("c");
            reveal_strlit("v");
            reveal_strlit("t");
            reveal_strlit("w");
            reveal_strlit("]");
            reveal_strlit("[");
            reveal_strlit("d");
            reveal_strlit("=");
            reveal_strlit("-");
            reveal_strlit("0");
            reveal_strlit("f");
            reveal_strlit("g");
            reveal_strlit("k");
            reveal_strlit("Up");
            reveal_strlit("Down");
        }
        assert(self.entries() =~= Seq::<(BindingView, ActionId)>::empty());
        self.push_default(false, "c", Action::Copy);
        self.push_default(false, "v", Action::Paste);
        self.push_default(false, "t", Action::NewTab);
        self.push_default(false, "w", Action::CloseTab);
        self.push_default(true, "]", Action::NextTab);
        self.push_default(true, "[", Action::PrevTab);
        self.push_default(false, "d", Action::SplitVertical);
        self.push_default(true, "d", Action::SplitHorizontal);
        self.push_default(false, "=", Action::IncreaseFontSize);
        self.push_default(false, "-", Action::DecreaseFontSize);
        self.push_default(false, "0", Action::ResetFontSize);
        self.push_default(false, "f", Action::SearchOpen);
        self.push_default(false, "g", Action::SearchNext);
        self.push_default(true, "g", Action::SearchPrev);
        self.push_default(false, "k", Action::ClearScreen);
        self.push_default(true, "Up", Action::PrevPrompt);
        self.push_default(true, "Down", Action::NextPrompt);
        assert(self.entries() =~= default_bindings()) by {
            assert("c"@ =~= seq!['c']);
            assert("v"@ =~= seq!['v']);
            assert("t"@ =~= seq!['t']);
            assert("w"@ =~= seq!['w']);
            assert("]"@ =~= seq![']']);
            assert("["@ =~= seq!['[']);
            assert("d"@ =~= seq!['d']);
            assert("="@ =~= seq!['=']);
            assert("-"@ =~= seq!['-']);
            assert("0"@ =~= seq!['0']);
            assert("f"@ =~= seq!['f']);
            assert("g"@ =~= seq!['g']);
            assert("k"@ =~= seq!['k']);
            assert("Up"@ =~= seq!['U', 'p']);
            assert("Down"@ =~= seq!['D', 'o', 'w', 'n']);
        }
        proof {
            lemma_defaults_distinct();
            assert forall|i: int, j: int| 0 <= i < j < self.bindings@.len() implies (
            #[trigger] self.bindings@[i]).binding@ != (#[trigger] self.bindings@[j]).binding@ by {
                assert(self.entries()[i].0 == self.bindings@[i].binding@);
                assert(self.entries()[j].0 == self.bindings@[j].binding@);
            }
        }
    }

    fn find(&self, binding: &KeyBinding) -> (r: Option<usize>)
        ensures
            r matches Some(i) ==> index_of(self.entries(), binding@, 0) == Some(i as int) && i
                < self.bindings@.len() && self.bindings@[i as int].binding@ == binding@,
            r is None ==> index_of(self.entries(), binding@, 0) is None && forall|i: int|
                0 <= i < self.bindings@.len() ==> (#[trigger] self.bindings@[i]).binding@
                    != binding@,
    {
        let mut i: usize = 0;
        while i < self.bindings.len()
            invariant
                i <= self.bindings@.len(),
                index_of(self.entries(), binding@, i as int) == index_of(
                    self.entries(),
                    binding@,
                    0,
                ),
                forall|j: int| 0 <= j < i ==> (#[trigger] self.bindings@[j]).binding@ != binding@,
            decreases self.bindings.len() - i,
        {
            assert(self.entries()[i as int].0 == self.bindings@[i as int].binding@);
            if self.bindings[i].binding.same(binding) {
                return Some(i);
            }
            i += 1;
        }
        None
    }

    /// Add or override a keybinding.
    pub fn bind(&mut self, binding: KeyBinding, action: Action)
        requires
            old(self).wf(),
        ensures
            final(self).wf(),
            final(self).platform == old(self).platform,
            final(self).entries() == bound(old(self).entries(), binding@, action@),
    {
        match self.find(&binding) {
            Some(i) => {
                self.bindings[i] = Bound { binding, action };
                assert(self.entries() =~= bound(old(self).entries(), binding@, action@));
                assert forall|a: int, b: int| 0 <= a < b < self.bindings@.len() implies (
                #[trigger] self.bindings@[a]).binding@ != (#[trigger] self.bindings@[b]).binding@ by {
                    assert(self.bindings@[a].binding@ == old(self).bindings@[a].binding@);
                    assert(self.bindings@[b].binding@ == old(self).bindings@[b].binding@);
                }
            },
            None => {
                self.bindings.push(Bound { binding, action });
                assert(self.entries() =~= bound(old(self).entries(), binding@, action@));
                assert forall|a: int, b: int| 0 <= a < b < self.bindings@.len() implies (
                #[trigger] self.bindings@[a]).binding@ != (#[trigger] self.bindings@[b]).binding@ by {
                    assert(self.bindings@[a] == old(self).bindings@[a]);
                    if b < old(self).bindings@.len() {
                        assert(self.bindings@[b] == old(self).bindings@[b]);
                    }
                }
            },
        }
    }

    /// Remove a keybinding.
    pub fn unbind(&mut self, binding: &KeyBinding)
        requires
            old(self).wf(),
        ensures
            final(self).wf(),
            final(self).platform == old(self).platform,
            final(self).entries() == unbound(old(self).entries(), binding@),
    {
        match self.find(binding) {
            Some(i) => {
                let _ = self.bindings.remove(i);
                assert(self.entries() =~= unbound(old(self).entries(), binding@));
                assert forall|a: int, b: int| 0 <= a < b < self.bindings@.len() implies (
                #[trigger] self.bindings@[a]).binding@ != (#[trigger] self.bindings@[b]).binding@ by {
                    let oa = if a < i {
                        a
                    } else {
                        a + 1
                    };
                    let ob = if b < i {
                        b
                    } else {
                        b + 1
                    };
                    assert(self.bindings@[a] == old(self).bindings@[oa]);
                    assert(self.bindings@[b] == old(self).bindings@[ob]);
                }
            },
            None => {},
        }
    }

    /// Look up action for a key event.
    pub fn lookup(&self, binding: &KeyBinding) -> (r: Option<&Action>)
        ensures
            r is Some <==> index_of(self.entries(), binding@, 0) is Some,
            r matches Some(action) ==> action@ == self.entries()[index_of(
                self.entries(),
                binding@,
                0,
            )->0].1,
    {
        match self.find(binding) {
            Some(i) => {
                assert(self.entries()[i as int].1 == self.bindings@[i as int].action@);
                Some(&self.bindings[i].action)
            },
            None => None,
        }
    }

    /// Get all bindings for an action, in the order in which their keys were
    /// first bound.
    pub fn bindings_for(&self, action: &Action) -> (out: Vec<&KeyBinding>)
        ensures
            out@.len() == bindings_of(self.entries(), action@, self.bindings@.len() as int).len(),
            forall|i: int|
                0 <= i < out@.len() ==> (#[trigger] out@[i])@ == bindings_of(
                    self.entries(),
                    action@,
                    self.bindings@.len() as int,
                )[i],
    {
        let mut out: Vec<&KeyBinding> = Vec::new();
        let mut k: usize = 0;
        while k < self.bindings.len()
            invariant
                k <= self.bindings@.len(),
                out@.len() == bindings_of(self.entries(), action@, k as int).len(),
                forall|i: int|
                    0 <= i < out@.len() ==> (#[trigger] out@[i])@ == bindings_of(
                        self.entries(),
                        action@,
                        k as int,
                    )[i],
            decreases self.bindings.len() - k,
        {
            assert(self.entries()[k as int] == (
                self.bindings@[k as int].binding@,
                self.bindings@[k as int].action@,
            ));
            if self.bindings[k].action.same(action) {
                out.push(&self.bindings[k].binding);
            }
            k += 1;
        }
        out
    }

    /// Get display string for a keybinding (platform-aware): the labels of
    /// the modifiers and the key, joined by `+`.
    pub fn display(&self, binding: &KeyBinding) -> (s: String)
        ensures
            s@ == labels(binding@.modifiers, self.platform, binding@.modifiers.len() as int)
                + binding@.key,
    {
        let mut out: Vec<char> = Vec::new();
        let mut i: usize = 0;
        while i < binding.modifiers.len()
            invariant
                i <= binding.modifiers@.len(),
                out@ == labels(binding@.modifiers, self.platform, i as int),
            decreases binding.modifiers.len() - i,
        {
            let ghost before = out@;
            match (binding.modifiers[i], self.platform) {
                (Modifier::Super, Platform::MacOS) => {
                    out.push('\u{2318}');
                },
                (Modifier::Super, Platform::Linux) | (Modifier::Ctrl, _) => {
                    out.push('C');
                    out.push('t');
                    out.push('r');
                    out.push('l');
                },
                (Modifier::Alt, Platform::MacOS) => {
                    out.push('\u{2325}');
                },
                (Modifier::Alt, Platform::Linux) => {
                    out.push('A');
                    out.push('l');
                    out.push('t');
                },
                (Modifier::Shift, _) => {
                    out.push('\u{21e7}');
                },
            }
            out.push('+');
            assert(out@ =~= before + modifier_label(binding@.modifiers[i as int], self.platform)
                + seq!['+']);
            i += 1;
        }
        let key = chars_of(binding.key.as_str());
        let ghost head = out@;
        let mut k: usize = 0;
        while k < key.len()
            invariant
                k <= key@.len(),
                out@ == head + key@.take(k as int),
            decreases key.len() - k,
        {
            out.push(key[k]);
            assert(out@ =~= head + key@.take(k + 1));
            k += 1;
        }
        assert(key@.take(key.len() as int) =~= key@);
        string_from_chars(&out)
    }
}

/// The default bindings bind no key twice.
proof fn lemma_defaults_distinct()
    ensures
        forall|i: int, j: int|
            0 <= i < j < default_bindings().len() ==> (#[trigger] default_bindings()[i]).0 != (
            #[trigger] default_bindings()[j]).0,
{
    let d = default_bindings();
    assert forall|i: int, j: int| 0 <= i < j < d.len() implies (#[trigger] d[i]).0 != (
    #[trigger] d[j]).0 by {
        let a = d[i].0;
        let b = d[j].0;
        if a.modifiers.len() == b.modifiers.len() {
            assert(a.key.len() != b.key.len() || a.key[0] != b.key[0]);
        }
    }
}

} // verus!
