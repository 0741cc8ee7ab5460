use vstd::prelude::*;

use crate::action::{command_action, command_to_action, Action, Command};
use crate::keys::KeyEvent;
use crate::keytext::{keys_text, keys_to_string};
use crate::mode::Mode;

verus! {

/// One configured binding: a key sequence in a mode and the command it names.
#[derive(Clone, Debug, PartialEq, Eq)]
pub struct Binding {
    pub mode: Mode,
    pub keys: Vec<KeyEvent>,
    pub command: Command,
}

/// The command bound to `keys` in `mode` by the first entry of `s` that binds them.
pub open spec fn lookup_in(s: Seq<Binding>, mode: Mode, keys: Seq<KeyEvent>) -> Option<Command>
    decreases s.len(),
{
    if s.len() == 0 {
        None
    } else {
        let b = s.last();
        match lookup_in(s.drop_last(), mode, keys) {
            Some(c) => Some(c),
            None => if b.mode == mode && b.keys@ == keys {
                Some(b.command)
            } else {
                None
            },
        }
    }
}

/// The table from (mode, key sequence) to command, built once from configuration.
#[derive(Clone, Debug)]
pub struct KeyBindings {
    entries: Vec<Binding>,
}

/// A copy of a key sequence.
fn copy_keys(k: &[KeyEvent]) -> (r: Vec<KeyEvent>)
    ensures
        r@ == k@,
{
    let mut r: Vec<KeyEvent> = Vec::new();
    let mut i: usize = 0;
    while i < k.len()
        invariant
            i <= k@.len(),
            r@ == k@.take(i as int),
        decreases k@.len() - i,
    {
        r.push(k[i]);
        i += 1;
        assert(r@ =~= k@.take(i as int));
    }
    assert(k@.take(i as int) =~= k@);
    r
}

/// Whether `b` is the entry for `mode` and `keys`.
fn binds(b: &Binding, mode: Mode, keys: &[KeyEvent], start: usize) -> (r: bool)
    requires
        start <= keys@.len(),
    ensures
        r == (b.mode == mode && b.keys@ == keys@.subrange(start as int, keys@.len() as int)),
{
    let n = keys.len();
    if b.mode != mode || b.keys.len() != n - start {
        return false;
    }
    let mut i: usize = 0;
    while i < b.keys.len()
        invariant
            n == keys@.len(),
            start <= keys@.len(),
            b.keys@.len() == keys@.len() - start,
            i <= b.keys@.len(),
            forall|j: int| 0 <= j < i ==> b.keys@[j] == keys@[start + j],
        decreases b.keys@.len() - i,
    {
        if b.keys[i] != keys[start + i] {
            return false;
        }
        i += 1;
    }
    assert(b.keys@ =~= keys@.subrange(start as int, keys@.len() as int));
    true
}

/// The command that the longest suffix of `keys` with a binding in `mode` names;
/// the empty sequence names nothing.
pub open spec fn resolve_in(b: KeyBindings, mode: Mode, keys: Seq<KeyEvent>) -> Option<Command>
    decreases keys.len(),
{
    if keys.len() == 0 {
        None
    } else {
        match b.lookup(mode, keys) {
            Some(c) => Some(c),
            None => resolve_in(b, mode, keys.subrange(1, keys.len() as int)),
        }
    }
}

/// What a buffer of pressed keys resolves to in `mode`, falling back to the
/// mode-independent table.
pub open spec fn resolve(b: KeyBindings, mode: Mode, keys: Seq<KeyEvent>) -> Option<Command> {
    match resolve_in(b, mode, keys) {
        Some(c) => Some(c),
        None => resolve_in(b, Mode::Common, keys),
    }
}

impl KeyBindings {
    /// The command bound to exactly `keys` in `mode`, if any.
    pub closed spec fn lookup(self, mode: Mode, keys: Seq<KeyEvent>) -> Option<Command> {
        lookup_in(self.entries@, mode, keys)
    }

    /// A table with no bindings.
    pub fn new() -> (r: KeyBindings)
        ensures
            forall|m: Mode, k: Seq<KeyEvent>| r.lookup(m, k) == None::<Command>,
    {
        KeyBindings { entries: Vec::new() }
    }

    /// Binds `key_events` in `mode` to `command`, replacing an earlier binding
    /// of the same sequence; every other binding is kept.
    pub fn insert(&mut self, mode: Mode, key_events: &[KeyEvent], command: Command)
        ensures
            forall|m: Mode, k: Seq<KeyEvent>|
                #[trigger] final(self).lookup(m, k) == if m == mode && k == key_events@ {
                    Some(command)
                } else {
                    old(self).lookup(m, k)
                },
    {
        let ghost old_entries = self.entries@;
        let mut i: usize = 0;
        let mut found = false;
        while i < self.entries.len()
            invariant_except_break
                !found,
            invariant
                self.entries@ == old_entries,
                i <= self.entries@.len(),
                lookup_in(self.entries@.take(i as int), mode, key_events@) == None::<Command>,
            ensures
                self.entries@ == old_entries,
                i <= self.entries@.len(),
                lookup_in(self.entries@.take(i as int), mode, key_events@) == None::<Command>,
                found ==> i < self.entries@.len() && self.entries@[i as int].mode == mode
                    && self.entries@[i as int].keys@ == key_events@,
                !found ==> i == self.entries@.len(),
            decreases self.entries@.len() - i,
        {
            assert(key_events@.subrange(0, key_events@.len() as int) =~= key_events@);
            if binds(&self.entries[i], mode, key_events, 0) {
                found = true;
                break;
            }
            assert(self.entries@.take(i + 1).drop_last() =~= self.entries@.take(i as int));
            i += 1;
        }
        let b = Binding { mode, keys: copy_keys(key_events), command };
        if found {
            self.entries.set(i, b);
            proof {
                lemma_replace_first(old_entries, i as int, b, mode, key_events@);
                assert(self.entries@ == old_entries.update(i as int, b));
                assert forall|m: Mode, k: Seq<KeyEvent>| #[trigger]
                    self.lookup(m, k) == if m == mode && k == key_events@ {
                        Some(command)
                    } else {
                        lookup_in(old_entries, m, k)
                    } by {
                    assert(lookup_in(old_entries.update(i as int, b), m, k) == if m == mode && k
                        == key_events@ {
                        Some(command)
                    } else {
                        lookup_in(old_entries, m, k)
                    });
                }
            }
        } else {
            self.entries.push(b);
            proof {
                assert(self.entries@.drop_last() =~= old_entries);
                assert(old_entries.take(old_entries.len() as int) =~= old_entries);
                assert forall|m: Mode, k: Seq<KeyEvent>| #[trigger]
                    self.lookup(m, k) == if m == mode && k == key_events@ {
                        Some(command)
                    } else {
                        lookup_in(old_entries, m, k)
                    } by {
                    assert(self.entries@.drop_last() =~= old_entries);
                }
            }
        }
    }

    /// The command bound to exactly `key_events[start..]` in `mode`.
    fn lookup_suffix(&self, mode: Mode, key_events: &[KeyEvent], start: usize) -> (r: Option<Command>)
        requires
            start <= key_events@.len(),
        ensures
            r == self.lookup(mode, key_events@.subrange(start as int, key_events@.len() as int)),
    {
        let ghost k = key_events@.subrange(start as int, key_events@.len() as int);
        let mut i: usize = 0;
        while i < self.entries.len()
            invariant
                i <= self.entries@.len(),
                start <= key_events@.len(),
                k == key_events@.subrange(start as int, key_events@.len() as int),
                lookup_in(self.entries@.take(i as int), mode, k) == None::<Command>,
            decreases self.entries@.len() - i,
        {
            assert(self.entries@.take(i + 1).drop_last() =~= self.entries@.take(i as int));
            if binds(&self.entries[i], mode, key_events, start) {
                let c = self.entries[i].command;
                proof {
                    lemma_lookup_prefix(self.entries@, i + 1, mode, k);
                }
                return Some(c);
            }
            i += 1;
        }
        assert(self.entries@.take(i as int) =~= self.entries@);
        None
    }

    /// Resolves a buffer of key presses in `mode`: the longest suffix that has
    /// a binding decides; an empty buffer resolves to nothing.
    pub fn event_to_command(&self, mode: Mode, key_events: &[KeyEvent]) -> (r: Option<Command>)
        ensures
            r == resolve_in(*self, mode, key_events@),
    {
        let mut start: usize = 0;
        assert(key_events@.subrange(0, key_events@.len() as int) =~= key_events@);
        while start < key_events.len()
            invariant
                start <= key_events@.len(),
                resolve_in(*self, mode, key_events@) == resolve_in(
                    *self,
                    mode,
                    key_events@.subrange(start as int, key_events@.len() as int),
                ),
            decreases key_events@.len() - start,
        {
            let ghost k = key_events@.subrange(start as int, key_events@.len() as int);
            let found = self.lookup_suffix(mode, key_events, start);
            if found.is_some() {
                return found;
            }
            assert(k.subrange(1, k.len() as int) =~= key_events@.subrange(
                start + 1,
                key_events@.len() as int,
            ));
            start += 1;
        }
        None
    }

    /// Converts a command into the action it stands for.
    pub fn command_to_action(&self, command: Command) -> (r: Action)
        ensures
            r == command_action(command),
    {
        command_to_action(command)
    }

    /// Whether one of the first `n` entries binds `keys` in `mode`.
    fn bound_before(&self, mode: Mode, keys: &[KeyEvent], n: usize) -> (r: bool)
        requires
            n <= self.entries@.len(),
        ensures
            r == (lookup_in(self.entries@.take(n as int), mode, keys@) is Some),
    {
        let mut j: usize = 0;
        assert(keys@.subrange(0, keys@.len() as int) =~= keys@);
        while j < n
            invariant
                j <= n <= self.entries@.len(),
                keys@.subrange(0, keys@.len() as int) == keys@,
                lookup_in(self.entries@.take(j as int), mode, keys@) is None,
            decreases n - j,
        {
            assert(self.entries@.take(j + 1).drop_last() =~= self.entries@.take(j as int));
            if binds(&self.entries[j], mode, keys, 0) {
                proof {
                    let t = self.entries@.take(n as int);
                    assert(t.take(j + 1) =~= self.entries@.take(j + 1));
                    lemma_lookup_prefix(t, j + 1, mode, keys@);
                }
                return true;
            }
            j += 1;
        }
        false
    }

    /// Every key sequence bound to `command` in `mode`, each once.
    pub fn get_keybindings_for_command(&self, mode: Mode, command: Command) -> (r: Vec<Vec<KeyEvent>>)
        ensures
            forall|j: int| 0 <= j < r@.len() ==> self.lookup(mode, #[trigger] r@[j]@) == Some(command),
            forall|k: Seq<KeyEvent>|
                #[trigger] self.lookup(mode, k) == Some(command) ==> exists|j: int|
                    0 <= j < r@.len() && r@[j]@ == k,
            forall|a: int, b: int| 0 <= a < b < r@.len() ==> r@[a]@ != r@[b]@,
    {
        let mut r: Vec<Vec<KeyEvent>> = Vec::new();
        let mut i: usize = 0;
        while i < self.entries.len()
            invariant
                i <= self.entries@.len(),
                forall|j: int| 0 <= j < r@.len() ==> self.lookup(mode, #[trigger] r@[j]@) == Some(command),
                forall|j: int|
                    0 <= j < r@.len() ==> lookup_in(self.entries@.take(i as int), mode, #[trigger] r@[j]@) is Some,
                forall|k: Seq<KeyEvent>|
                    #[trigger] lookup_in(self.entries@.take(i as int), mode, k) == Some(command)
                        ==> exists|j: int| 0 <= j < r@.len() && r@[j]@ == k,
                forall|a: int, b: int| 0 <= a < b < r@.len() ==> r@[a]@ != r@[b]@,
            decreases self.entries@.len() - i,
        {
            let ghost prev = self.entries@.take(i as int);
            let ghost next = self.entries@.take(i + 1);
            assert(next.drop_last() =~= prev);
            let b = &self.entries[i];
            if b.mode == mode && b.command == command && !self.bound_before(mode, b.keys.as_slice(), i) {
                let ghost old_r = r@;
                r.push(copy_keys(b.keys.as_slice()));
                proof {
                    assert(r@[old_r.len() as int]@ == b.keys@);
                    assert(lookup_in(next, mode, b.keys@) == Some(command));
                    lemma_lookup_prefix(self.entries@, i + 1, mode, b.keys@);
                    assert forall|j: int| 0 <= j < r@.len() implies self.lookup(
                        mode,
                        #[trigger] r@[j]@,
                    ) == Some(command) by {
                        if j < old_r.len() {
                            assert(r@[j] == old_r[j]);
                        }
                    }
                    assert forall|j: int| 0 <= j < r@.len() implies lookup_in(next, mode, #[trigger] r@[j]@) is Some by {
                        if j < old_r.len() {
                            assert(r@[j] == old_r[j]);
                            assert(lookup_in(prev, mode, old_r[j]@) is Some);
                        }
                    }
                    assert forall|k: Seq<KeyEvent>| #[trigger]
                        lookup_in(next, mode, k) == Some(command) implies exists|j: int|
                        0 <= j < r@.len() && r@[j]@ == k by {
                        if lookup_in(prev, mode, k) == Some(command) {
                            let j = choose|j: int| 0 <= j < old_r.len() && old_r[j]@ == k;
                            assert(r@[j] == old_r[j]);
                        } else {
                            assert(r@[old_r.len() as int]@ == k);
                        }
                    }
                    assert forall|a: int, c: int| 0 <= a < c < r@.len() implies r@[a]@ != r@[c]@ by {
                        assert(r@[a] == old_r[a]);
                        if c < old_r.len() {
                            assert(r@[c] == old_r[c]);
                        } else {
                            assert(lookup_in(prev, mode, old_r[a]@) is Some);
                        }
                    }
                }
            } else {
                proof {
                    assert forall|k: Seq<KeyEvent>| #[trigger]
                        lookup_in(next, mode, k) == Some(command) implies exists|j: int|
                        0 <= j < r@.len() && r@[j]@ == k by {
                        if lookup_in(prev, mode, k) is None {
                            assert(b.keys@ == k);
                        }
                    }
                    assert forall|j: int| 0 <= j < r@.len() implies lookup_in(next, mode, #[trigger] r@[j]@) is Some by {
                        assert(lookup_in(prev, mode, r@[j]@) is Some);
                    }
                }
            }
            i += 1;
        }
        assert(self.entries@.take(i as int) =~= self.entries@);
        r
    }
}

impl KeyBindings {
    /// Every key sequence bound to `command` in `mode`, as text.
    pub fn get_config_for_command(&self, mode: Mode, command: Command) -> (r: Vec<String>)
        ensures
            exists|ks: Seq<Seq<KeyEvent>>| #[trigger] self.shown_as(mode, command, ks, r@),
    {
        let bound = self.get_keybindings_for_command(mode, command);
        let ghost ks = bound@.map_values(|v: Vec<KeyEvent>| v@);
        let mut r: Vec<String> = Vec::new();
        let mut i: usize = 0;
        while i < bound.len()
            invariant
                i <= bound@.len(),
                r@.len() == i,
                ks == bound@.map_values(|v: Vec<KeyEvent>| v@),
                forall|j: int| 0 <= j < i ==> #[trigger] r@[j]@ == keys_text(ks[j]),
            decreases bound@.len() - i,
        {
            r.push(keys_to_string(&bound[i]));
            i += 1;
        }
        proof {
            assert forall|j: int| 0 <= j < ks.len() implies self.lookup(mode, #[trigger] ks[j]) == Some(command) by {
                assert(ks[j] == bound@[j]@);
            }
            assert forall|k: Seq<KeyEvent>| #[trigger] self.lookup(mode, k) == Some(command) implies exists|j: int|
                0 <= j < ks.len() && ks[j] == k by {
                let j = choose|j: int| 0 <= j < bound@.len() && bound@[j]@ == k;
                assert(ks[j] == k);
            }
            assert(self.shown_as(mode, command, ks, r@));
        }
        r
    }

    /// `texts` shows the key sequences `ks`, one for one, and `ks` are exactly
    /// the sequences bound to `command` in `mode`.
    pub open spec fn shown_as(self, mode: Mode, command: Command, ks: Seq<Seq<KeyEvent>>, texts: Seq<String>) -> bool {
        &&& ks.len() == texts.len()
        &&& forall|j: int| 0 <= j < ks.len() ==> #[trigger] texts[j]@ == keys_text(ks[j])
        &&& forall|j: int| 0 <= j < ks.len() ==> self.lookup(mode, #[trigger] ks[j]) == Some(command)
        &&& forall|k: Seq<KeyEvent>| #[trigger] self.lookup(mode, k) == Some(command) ==> exists|j: int|
            0 <= j < ks.len() && ks[j] == k
    }
}

impl Default for KeyBindings {
    fn default() -> (r: KeyBindings)
        ensures
            forall|m: Mode, k: Seq<KeyEvent>| r.lookup(m, k) == None::<Command>,
    {
        KeyBindings::new()
    }
}

/// A binding found in a prefix is still what the whole sequence finds.
proof fn lemma_lookup_prefix(s: Seq<Binding>, n: int, mode: Mode, keys: Seq<KeyEvent>)
    requires
        0 <= n <= s.len(),
        lookup_in(s.take(n), mode, keys) is Some,
    ensures
        lookup_in(s, mode, keys) == lookup_in(s.take(n), mode, keys),
    decreases s.len() - n,
{
    if n < s.len() {
        assert(s.take(n + 1).drop_last() =~= s.take(n));
        lemma_lookup_prefix(s, n + 1, mode, keys);
    } else {
        assert(s.take(n) =~= s);
    }
}

/// Replacing the first entry that binds `keys` in `mode` changes only that lookup.
proof fn lemma_replace_first(s: Seq<Binding>, i: int, b: Binding, mode: Mode, keys: Seq<KeyEvent>)
    requires
        0 <= i < s.len(),
        s[i].mode == mode,
        s[i].keys@ == keys,
        b.mode == mode,
        b.keys@ == keys,
        lookup_in(s.take(i), mode, keys) == None::<Command>,
    ensures
        forall|m: Mode, k: Seq<KeyEvent>|
            #[trigger] lookup_in(s.update(i, b), m, k) == if m == mode && k == keys {
                Some(b.command)
            } else {
                lookup_in(s, m, k)
            },
    decreases s.len(),
{
    let t = s.update(i, b);
    assert forall|m: Mode, k: Seq<KeyEvent>| #[trigger]
        lookup_in(t, m, k) == if m == mode && k == keys {
            Some(b.command)
        } else {
            lookup_in(s, m, k)
        } by {
        lemma_replace_at(s, i, b, m, k, mode, keys);
    }
}

proof fn lemma_replace_at(
    s: Seq<Binding>,
    i: int,
    b: Binding,
    m: Mode,
    k: Seq<KeyEvent>,
    mode: Mode,
    keys: Seq<KeyEvent>,
)
    requires
        0 <= i < s.len(),
        s[i].mode == mode,
        s[i].keys@ == keys,
        b.mode == mode,
        b.keys@ == keys,
        lookup_in(s.take(i), mode, keys) == None::<Command>,
    ensures
        lookup_in(s.update(i, b), m, k) == if m == mode && k == keys {
            Some(b.command)
        } else {
            lookup_in(s, m, k)
        },
    decreases s.len(),
{
    let t = s.update(i, b);
    if s.len() == i + 1 {
        assert(t.drop_last() =~= s.drop_last());
        assert(s.take(i) =~= s.drop_last());
    } else {
        assert(t.drop_last() =~= s.drop_last().update(i, b));
        assert(s.drop_last().take(i) =~= s.take(i));
        lemma_replace_at(s.drop_last(), i, b, m, k, mode, keys);
        if m == mode && k == keys {
            lemma_take_some(s.drop_last(), i, m, k);
        }
    }
}

proof fn lemma_take_some(s: Seq<Binding>, i: int, m: Mode, k: Seq<KeyEvent>)
    requires
        0 <= i < s.len(),
        s[i].mode == m,
        s[i].keys@ == k,
    ensures
        lookup_in(s, m, k) is Some,
    decreases s.len(),
{
    if i == s.len() - 1 {
    } else {
        lemma_take_some(s.drop_last(), i, m, k);
    }
}

/// The keys pressed since the last resolution or refresh, and their resolution.
#[derive(Clone, Debug)]
pub struct KeyResolver {
    pending: Vec<KeyEvent>,
}

/// What feeding `key` does to a buffer `buf` in `mode`: the new buffer and the
/// action produced, if any. A match empties the buffer; otherwise the key stays
/// in it for a chord that may complete later.
pub open spec fn feed_step(b: KeyBindings, mode: Mode, buf: Seq<KeyEvent>, key: KeyEvent) -> (
    Seq<KeyEvent>,
    Option<Action>,
) {
    let keys = buf.push(key);
    match resolve(b, mode, keys) {
        Some(c) => (Seq::empty(), Some(command_action(c))),
        None => (keys, None),
    }
}

impl KeyResolver {
    pub closed spec fn pending(self) -> Seq<KeyEvent> {
        self.pending@
    }

    pub fn new() -> (r: KeyResolver)
        ensures
            r.pending() == Seq::<KeyEvent>::empty(),
    {
        KeyResolver { pending: Vec::new() }
    }

    /// The keys held so far.
    pub fn pending_keys(&self) -> (r: &Vec<KeyEvent>)
        ensures
            r@ == self.pending(),
    {
        &self.pending
    }

    /// Adds a key press to the buffer and resolves it.
    pub fn feed(&mut self, bindings: &KeyBindings, mode: Mode, key: KeyEvent) -> (r: Option<Action>)
        ensures
            (final(self).pending(), r) == feed_step(*bindings, mode, old(self).pending(), key),
    {
        self.pending.push(key);
        let found = match bindings.event_to_command(mode, self.pending.as_slice()) {
            Some(c) => Some(c),
            None => bindings.event_to_command(Mode::Common, self.pending.as_slice()),
        };
        match found {
            Some(c) => {
                self.pending.clear();
                Some(command_to_action(c))
            },
            None => None,
        }
    }

    /// Forgets a partial chord: the key-refresh tick.
    pub fn refresh(&mut self)
        ensures
            final(self).pending() == Seq::<KeyEvent>::empty(),
    {
        self.pending.clear();
    }
}

impl Default for KeyResolver {
    fn default() -> (r: KeyResolver)
        ensures
            r.pending() == Seq::<KeyEvent>::empty(),
    {
        KeyResolver::new()
    }
}

/// A two-key chord completes: the first key alone produces nothing and stays
/// buffered, and the second key then produces the bound action and empties the
/// buffer. A different second key with no binding of its own produces nothing.
pub proof fn lemma_chord_accumulation(
    b: KeyBindings,
    mode: Mode,
    first: KeyEvent,
    second: KeyEvent,
    other: KeyEvent,
    c: Command,
)
    requires
        b.lookup(mode, seq![first, second]) == Some(c),
        b.lookup(mode, seq![first]) is None,
        b.lookup(Mode::Common, seq![first]) is None,
        b.lookup(mode, seq![first, other]) is None,
        b.lookup(Mode::Common, seq![first, other]) is None,
        b.lookup(mode, seq![other]) is None,
        b.lookup(Mode::Common, seq![other]) is None,
    ensures
        feed_step(b, mode, Seq::empty(), first) == (seq![first], None::<Action>),
        feed_step(b, mode, seq![first], second) == (Seq::<KeyEvent>::empty(), Some(command_action(c))),
        feed_step(b, mode, seq![first], other) == (seq![first, other], None::<Action>),
{
    assert(Seq::<KeyEvent>::empty().push(first) =~= seq![first]);
    assert(seq![first].push(second) =~= seq![first, second]);
    assert(seq![first].push(other) =~= seq![first, other]);
    assert(seq![first].subrange(1, 1) =~= Seq::<KeyEvent>::empty());
    assert(seq![first, other].subrange(1, 2) =~= seq![other]);
    assert(seq![other].subrange(1, 1) =~= Seq::<KeyEvent>::empty());
    reveal_with_fuel(resolve_in, 3);
}

/// After a refresh empties the buffer, the second key of a chord alone does
/// not complete it: with no binding of its own it produces nothing.
pub proof fn lemma_refresh_breaks_chord(b: KeyBindings, mode: Mode, second: KeyEvent)
    requires
        b.lookup(mode, seq![second]) is None,
        b.lookup(Mode::Common, seq![second]) is None,
    ensures
        feed_step(b, mode, Seq::empty(), second) == (seq![second], None::<Action>),
{
    assert(Seq::<KeyEvent>::empty().push(second) =~= seq![second]);
    assert(seq![second].subrange(1, 1) =~= Seq::<KeyEvent>::empty());
    reveal_with_fuel(resolve_in, 2);
}

} // verus!
