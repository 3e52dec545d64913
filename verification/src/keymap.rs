//! Key bindings and the resolver that turns key presses into actions.
//!
//! A binding on a single key always wins. Any other key is added to the
//! pending keys, and the pending keys as a whole are looked up. Whatever is
//! pending is dropped at the next tick, so a sequence of several keys has to
//! be typed within one tick.

use vstd::prelude::*;
use crate::action::{Action, ActionView};
use crate::key::{keys_match, same_keys, KeyEvent};

verus! {

/// One binding: a sequence of key presses and the action it stands for.
pub struct Binding {
    pub keys: Vec<KeyEvent>,
    pub action: Action,
}

/// The bindings of one mode. Every bound sequence has at least one key.
pub struct Keymap {
    bindings: Vec<Binding>,
}

/// The action of the first of `bindings` whose keys are `keys`.
pub open spec fn first_bound(bindings: Seq<Binding>, keys: Seq<KeyEvent>) -> Option<ActionView>
    decreases bindings.len(),
{
    if bindings.len() == 0 {
        None
    } else if same_keys(bindings[0].keys@, keys) {
        Some(bindings[0].action@)
    } else {
        first_bound(bindings.drop_first(), keys)
    }
}

/// What the resolver answers to `key` when `pending` keys wait, and the
/// keys that wait afterwards.
pub open spec fn resolved(keymap: Keymap, pending: Seq<KeyEvent>, key: KeyEvent) -> (
    Option<ActionView>,
    Seq<KeyEvent>,
) {
    match keymap.bound(seq![key]) {
        Some(action) => (Some(action), pending),
        None => match keymap.bound(pending.push(key)) {
            Some(action) => (Some(action), Seq::<KeyEvent>::empty()),
            None => (None, pending.push(key)),
        },
    }
}

/// The keys that wait after `keys` have been fed one by one, starting with
/// `pending` waiting.
pub open spec fn pending_after(keymap: Keymap, pending: Seq<KeyEvent>, keys: Seq<KeyEvent>) -> Seq<
    KeyEvent,
>
    decreases keys.len(),
{
    if keys.len() == 0 {
        pending
    } else {
        resolved(keymap, pending_after(keymap, pending, keys.drop_last()), keys.last()).1
    }
}

/// The answer to the last of `keys` when they are fed one by one, starting
/// with `pending` waiting; `None` for no keys.
pub open spec fn answer_after(keymap: Keymap, pending: Seq<KeyEvent>, keys: Seq<KeyEvent>) -> Option<
    ActionView,
> {
    if keys.len() == 0 {
        None
    } else {
        resolved(keymap, pending_after(keymap, pending, keys.drop_last()), keys.last()).0
    }
}

impl Keymap {
    /// The bindings, oldest first.
    pub closed spec fn bindings(self) -> Seq<Binding> {
        self.bindings@
    }

    /// Every bound sequence has at least one key, and no sequence is bound
    /// twice.
    pub open spec fn wf(self) -> bool {
        &&& forall|i: int|
            0 <= i < self.bindings().len() ==> (#[trigger] self.bindings()[i]).keys@.len() >= 1
        &&& forall|i: int, j: int|
            0 <= i < j < self.bindings().len() ==> !same_keys(
                (#[trigger] self.bindings()[i]).keys@,
                (#[trigger] self.bindings()[j]).keys@,
            )
    }

    /// The action bound to `keys`, if there is one.
    pub open spec fn bound(self, keys: Seq<KeyEvent>) -> Option<ActionView> {
        first_bound(self.bindings(), keys)
    }

    /// A keymap without bindings.
    pub fn new() -> (keymap: Keymap)
        ensures
            keymap.wf(),
            keymap.bindings().len() == 0,
            forall|keys: Seq<KeyEvent>| keymap.bound(keys) is None,
    {
        Keymap { bindings: Vec::new() }
    }

    /// The number of bindings.
    pub fn len(&self) -> (n: usize)
        ensures
            n == self.bindings().len(),
    {
        self.bindings.len()
    }

    fn position(&self, keys: &Vec<KeyEvent>) -> (found: Option<usize>)
        ensures
            match found {
                Some(i) => i < self.bindings().len() && same_keys(self.bindings()[i as int].keys@, keys@)
                    && self.bound(keys@) == Some(self.bindings()[i as int].action@)
                    && forall|j: int|
                    0 <= j < i ==> !same_keys(#[trigger] self.bindings()[j].keys@, keys@),
                None => self.bound(keys@) is None && forall|j: int|
                    0 <= j < self.bindings().len() ==> !same_keys(
                        #[trigger] self.bindings()[j].keys@,
                        keys@,
                    ),
            },
    {
        let mut i: usize = 0;
        assert(self.bindings@.skip(0) =~= self.bindings@);
        while i < self.bindings.len()
            invariant
                i <= self.bindings.len(),
                self.bound(keys@) == first_bound(self.bindings@.skip(i as int), keys@),
                forall|j: int| 0 <= j < i ==> !same_keys(#[trigger] self.bindings@[j].keys@, keys@),
            decreases self.bindings.len() - i,
        {
            let ghost rest = self.bindings@.skip(i as int);
            proof {
                assert(rest[0] == self.bindings@[i as int]);
                assert(rest.drop_first() =~= self.bindings@.skip(i + 1));
            }
            if keys_match(&self.bindings[i].keys, keys) {
                return Some(i);
            }
            i = i + 1;
        }
        assert(self.bindings@.skip(i as int).len() == 0);
        None
    }

    /// Looks up the action bound to `keys`.
    pub fn get(&self, keys: &Vec<KeyEvent>) -> (action: Option<Action>)
        ensures
            match action {
                Some(a) => self.bound(keys@) == Some(a@),
                None => self.bound(keys@) is None,
            },
    {
        match self.position(keys) {
            Some(i) => Some(self.bindings[i].action.clone()),
            None => None,
        }
    }

    /// Binds `keys` to `action`, in place of what they were bound to before.
    /// A sequence without keys cannot be bound: the keymap is then left as
    /// it is and `false` is returned.
    pub fn insert(&mut self, keys: Vec<KeyEvent>, action: Action) -> (bound: bool)
        ensures
            old(self).wf() ==> final(self).wf(),
            bound == (keys@.len() >= 1),
            !bound ==> final(self).bindings() == old(self).bindings(),
            bound ==> forall|other: Seq<KeyEvent>| #[trigger]
                final(self).bound(other) == if same_keys(keys@, other) {
                    Some(action@)
                } else {
                    old(self).bound(other)
                },
    {
        if keys.len() == 0 {
            return false;
        }
        let ghost before = self.bindings@;
        let ghost added = Binding { keys, action };
        match self.position(&keys) {
            Some(i) => {
                self.bindings.set(i, Binding { keys, action });
                proof {
                    if old(self).wf() {
                        assert forall|a: int, b: int|
                            0 <= a < b < self.bindings@.len() implies !same_keys(
                            (#[trigger] self.bindings@[a]).keys@,
                            (#[trigger] self.bindings@[b]).keys@,
                        ) by {
                            lemma_same_keys_shared(before[i as int].keys@, added.keys@, before[a].keys@);
                            lemma_same_keys_shared(before[i as int].keys@, added.keys@, before[b].keys@);
                            if a != i {
                                assert(self.bindings@[a] == before[a]);
                                lemma_same_keys_shared(before[a].keys@, before[a].keys@, added.keys@);
                            }
                            if b != i {
                                assert(self.bindings@[b] == before[b]);
                            }
                        }
                    }
                    assert forall|other: Seq<KeyEvent>| #[trigger]
                        first_bound(self.bindings@, other) == if same_keys(added.keys@, other) {
                            Some(added.action@)
                        } else {
                            first_bound(before, other)
                        } by {
                        lemma_same_keys_shared(before[i as int].keys@, added.keys@, other);
                        lemma_replace(before, i as int, added, other);
                    }
                }
            },
            None => {
                self.bindings.push(Binding { keys, action });
                proof {
                    if old(self).wf() {
                        assert forall|a: int, b: int|
                            0 <= a < b < self.bindings@.len() implies !same_keys(
                            (#[trigger] self.bindings@[a]).keys@,
                            (#[trigger] self.bindings@[b]).keys@,
                        ) by {
                            if b == before.len() {
                                assert(self.bindings@[a] == before[a]);
                                assert(!same_keys(before[a].keys@, added.keys@));
                            } else {
                                assert(self.bindings@[a] == before[a]);
                                assert(self.bindings@[b] == before[b]);
                            }
                        }
                    }
                    assert forall|other: Seq<KeyEvent>| #[trigger]
                        first_bound(self.bindings@, other) == if same_keys(added.keys@, other) {
                            Some(added.action@)
                        } else {
                            first_bound(before, other)
                        } by {
                        lemma_append(before, added, other);
                        if same_keys(added.keys@, other) && first_bound(before, other) is Some {
                            lemma_bound_means_same(before, other, added.keys@);
                        }
                    }
                }
            },
        }
        true
    }
}

/// Resolves one key press. A binding on `key` alone wins and leaves the
/// pending keys as they are. Otherwise `key` joins the pending keys; if they
/// are bound as a whole, their action is returned and nothing stays pending.
pub fn resolve(keymap: &Keymap, pending: &mut Vec<KeyEvent>, key: KeyEvent) -> (action: Option<
    Action,
>)
    ensures
        match action {
            Some(a) => resolved(*keymap, old(pending)@, key).0 == Some(a@),
            None => resolved(*keymap, old(pending)@, key).0 is None,
        },
        final(pending)@ == resolved(*keymap, old(pending)@, key).1,
{
    let mut single: Vec<KeyEvent> = Vec::new();
    single.push(key);
    assert(single@ =~= seq![key]);
    match keymap.get(&single) {
        Some(action) => Some(action),
        None => {
            pending.push(key);
            match keymap.get(pending) {
                Some(action) => {
                    pending.clear();
                    Some(action)
                },
                None => None,
            }
        },
    }
}

/// Every binding of a well-formed keymap is found under its own keys.
pub proof fn lemma_binding_is_bound(keymap: Keymap, i: int)
    requires
        keymap.wf(),
        0 <= i < keymap.bindings().len(),
    ensures
        keymap.bound(keymap.bindings()[i].keys@) == Some(keymap.bindings()[i].action@),
{
    lemma_first_bound_at(keymap.bindings(), i);
}

proof fn lemma_first_bound_at(bindings: Seq<Binding>, i: int)
    requires
        0 <= i < bindings.len(),
        forall|a: int, b: int|
            0 <= a < b < bindings.len() ==> !same_keys(
                (#[trigger] bindings[a]).keys@,
                (#[trigger] bindings[b]).keys@,
            ),
    ensures
        first_bound(bindings, bindings[i].keys@) == Some(bindings[i].action@),
    decreases bindings.len(),
{
    let keys = bindings[i].keys@;
    assert(same_keys(keys, keys));
    if i > 0 {
        assert(!same_keys(bindings[0].keys@, bindings[i].keys@));
        let rest = bindings.drop_first();
        assert forall|a: int, b: int| 0 <= a < b < rest.len() implies !same_keys(
            (#[trigger] rest[a]).keys@,
            (#[trigger] rest[b]).keys@,
        ) by {
            assert(rest[a] == bindings[a + 1]);
            assert(rest[b] == bindings[b + 1]);
        }
        assert(rest[i - 1] == bindings[i]);
        lemma_first_bound_at(rest, i - 1);
    }
}

/// The same keys are bound to the same action: what a sequence is bound to
/// does not change when a capital letter is written as the letter with
/// Shift.
pub proof fn lemma_bound_by_same_keys(keymap: Keymap, a: Seq<KeyEvent>, b: Seq<KeyEvent>)
    requires
        same_keys(a, b),
    ensures
        keymap.bound(a) == keymap.bound(b),
{
    lemma_first_bound_by_same_keys(keymap.bindings(), a, b);
}

proof fn lemma_first_bound_by_same_keys(bindings: Seq<Binding>, a: Seq<KeyEvent>, b: Seq<KeyEvent>)
    requires
        same_keys(a, b),
    ensures
        first_bound(bindings, a) == first_bound(bindings, b),
    decreases bindings.len(),
{
    if bindings.len() > 0 {
        lemma_same_keys_shared(a, b, bindings[0].keys@);
        if same_keys(bindings[0].keys@, a) {
            lemma_same_keys_shared(bindings[0].keys@, a, b);
        }
        if same_keys(bindings[0].keys@, b) {
            lemma_same_keys_shared(bindings[0].keys@, b, a);
        }
        lemma_first_bound_by_same_keys(bindings.drop_first(), a, b);
    }
}

/// A key that is bound on its own resolves to its action at the first press,
/// whatever keys were pending, and leaves them pending.
pub proof fn lemma_single_key_resolves(
    keymap: Keymap,
    pending: Seq<KeyEvent>,
    key: KeyEvent,
    action: ActionView,
)
    requires
        keymap.bound(seq![key]) == Some(action),
    ensures
        resolved(keymap, pending, key) == (Some(action), pending),
{
}

/// Every binding of a single key resolves at the first press of that key:
/// the resolver answers with the bound action, whatever keys were pending.
pub proof fn lemma_single_key_binding_resolves(keymap: Keymap, i: int, pending: Seq<KeyEvent>)
    requires
        keymap.wf(),
        0 <= i < keymap.bindings().len(),
        keymap.bindings()[i].keys@.len() == 1,
    ensures
        resolved(keymap, pending, keymap.bindings()[i].keys@[0]) == (
            Some(keymap.bindings()[i].action@),
            pending,
        ),
{
    let keys = keymap.bindings()[i].keys@;
    lemma_binding_is_bound(keymap, i);
    assert(seq![keys[0]] =~= keys);
}

/// A bound sequence of several keys, typed from the start, gives nothing
/// until its last key and then its action, after which nothing is pending.
/// This holds where no key of the sequence is bound on its own and no
/// shorter beginning of the sequence is bound.
pub proof fn lemma_sequence_resolves(keymap: Keymap, keys: Seq<KeyEvent>, action: ActionView)
    requires
        keys.len() > 1,
        keymap.bound(keys) == Some(action),
        forall|i: int| 0 <= i < keys.len() ==> keymap.bound(seq![#[trigger] keys[i]]) is None,
        forall|m: int| 0 < m < keys.len() ==> keymap.bound(#[trigger] keys.take(m)) is None,
    ensures
        forall|m: int|
            0 < m < keys.len() ==> answer_after(
                keymap,
                Seq::<KeyEvent>::empty(),
                #[trigger] keys.take(m),
            ) is None,
        forall|m: int|
            0 < m < keys.len() ==> pending_after(
                keymap,
                Seq::<KeyEvent>::empty(),
                #[trigger] keys.take(m),
            ) == keys.take(m),
        answer_after(keymap, Seq::<KeyEvent>::empty(), keys) == Some(action),
        pending_after(keymap, Seq::<KeyEvent>::empty(), keys) == Seq::<KeyEvent>::empty(),
{
    let none = Seq::<KeyEvent>::empty();
    assert forall|m: int| 0 < m < keys.len() implies answer_after(
        keymap,
        none,
        #[trigger] keys.take(m),
    ) is None && pending_after(keymap, none, keys.take(m)) == keys.take(m) by {
        lemma_prefix_pends(keymap, keys, m);
    }
    let last = keys.len() - 1;
    lemma_prefix_pends(keymap, keys, last);
    assert(keys.drop_last() =~= keys.take(last));
    assert(keys.take(last).push(keys.last()) =~= keys);
    assert(keymap.bound(seq![keys[last]]) is None);
}

proof fn lemma_prefix_pends(keymap: Keymap, keys: Seq<KeyEvent>, m: int)
    requires
        0 <= m < keys.len(),
        forall|i: int| 0 <= i < keys.len() ==> keymap.bound(seq![#[trigger] keys[i]]) is None,
        forall|k: int| 0 < k < keys.len() ==> keymap.bound(#[trigger] keys.take(k)) is None,
    ensures
        pending_after(keymap, Seq::<KeyEvent>::empty(), keys.take(m)) == keys.take(m),
        answer_after(keymap, Seq::<KeyEvent>::empty(), keys.take(m)) is None,
    decreases m,
{
    if m > 0 {
        lemma_prefix_pends(keymap, keys, m - 1);
        let shorter = keys.take(m - 1);
        let prefix = keys.take(m);
        assert(prefix.drop_last() =~= shorter);
        assert(prefix.last() == keys[m - 1]);
        assert(shorter.push(keys[m - 1]) =~= prefix);
        assert(keymap.bound(seq![keys[m - 1]]) is None);
        assert(keymap.bound(prefix) is None);
    } else {
        assert(keys.take(0) =~= Seq::<KeyEvent>::empty());
    }
}

/// Being the same key sequence is symmetric and transitive.
pub proof fn lemma_same_keys_shared(a: Seq<KeyEvent>, b: Seq<KeyEvent>, c: Seq<KeyEvent>)
    requires
        same_keys(a, b),
    ensures
        same_keys(b, a),
        same_keys(a, c) == same_keys(b, c),
{
    assert(same_keys(b, a)) by {
        assert forall|i: int| 0 <= i < b.len() implies (#[trigger] b[i]).same_key(a[i]) by {
            assert(a[i].same_key(b[i]));
        }
    }
    if same_keys(a, c) {
        assert forall|i: int| 0 <= i < b.len() implies (#[trigger] b[i]).same_key(c[i]) by {
            assert(a[i].same_key(b[i]));
            assert(a[i].same_key(c[i]));
        }
    }
    if same_keys(b, c) {
        assert forall|i: int| 0 <= i < a.len() implies (#[trigger] a[i]).same_key(c[i]) by {
            assert(a[i].same_key(b[i]));
            assert(b[i].same_key(c[i]));
        }
    }
}

proof fn lemma_replace(bindings: Seq<Binding>, at: int, added: Binding, other: Seq<KeyEvent>)
    requires
        0 <= at < bindings.len(),
        same_keys(bindings[at].keys@, other) == same_keys(added.keys@, other),
        first_bound(bindings, added.keys@) == Some(bindings[at].action@),
        same_keys(bindings[at].keys@, added.keys@),
        forall|j: int| 0 <= j < at ==> !same_keys(#[trigger] bindings[j].keys@, added.keys@),
    ensures
        first_bound(bindings.update(at, added), other) == if same_keys(added.keys@, other) {
            Some(added.action@)
        } else {
            first_bound(bindings, other)
        },
    decreases bindings.len(),
{
    let updated = bindings.update(at, added);
    if at == 0 {
        assert(updated.drop_first() =~= bindings.drop_first());
    } else {
        assert(updated.drop_first() =~= bindings.drop_first().update(at - 1, added));
        assert(!same_keys(bindings[0].keys@, added.keys@));
        if same_keys(bindings[0].keys@, other) {
            if same_keys(added.keys@, other) {
                lemma_same_keys_shared(added.keys@, other, bindings[0].keys@);
                lemma_same_keys_shared(bindings[0].keys@, other, added.keys@);
            }
        } else {
            assert forall|j: int| 0 <= j < at - 1 implies !same_keys(
                #[trigger] bindings.drop_first()[j].keys@,
                added.keys@,
            ) by {
                assert(bindings.drop_first()[j] == bindings[j + 1]);
            }
            lemma_replace(bindings.drop_first(), at - 1, added, other);
        }
    }
}

proof fn lemma_append(bindings: Seq<Binding>, added: Binding, other: Seq<KeyEvent>)
    ensures
        first_bound(bindings.push(added), other) == match first_bound(bindings, other) {
            Some(action) => Some(action),
            None => if same_keys(added.keys@, other) {
                Some(added.action@)
            } else {
                None
            },
        },
    decreases bindings.len(),
{
    let longer = bindings.push(added);
    if bindings.len() == 0 {
        assert(longer.drop_first() =~= Seq::<Binding>::empty());
    } else {
        assert(longer.drop_first() =~= bindings.drop_first().push(added));
        assert(longer[0] == bindings[0]);
        lemma_append(bindings.drop_first(), added, other);
    }
}

proof fn lemma_bound_means_same(bindings: Seq<Binding>, other: Seq<KeyEvent>, keys: Seq<KeyEvent>)
    requires
        first_bound(bindings, other) is Some,
        same_keys(keys, other),
    ensures
        first_bound(bindings, keys) is Some,
    decreases bindings.len(),
{
    if bindings.len() > 0 {
        if same_keys(bindings[0].keys@, other) {
            lemma_same_keys_shared(keys, other, bindings[0].keys@);
            lemma_same_keys_shared(bindings[0].keys@, other, keys);
        } else {
            lemma_bound_means_same(bindings.drop_first(), other, keys);
            if same_keys(bindings[0].keys@, keys) {
            }
        }
    }
}

} // verus!
