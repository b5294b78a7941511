//! The type registry and dispatch table.
//!
//! A registry maps each registered message type's key to its inbound queue.
//! It is populated once during setup — registering the same key twice fails
//! loudly, never overwrites — and read continuously afterwards: the per-tick
//! pump pushes each decoded message onto the queue of its own type, and the
//! publication step drains whole queues. Entries keep registration order,
//! keys are unique, and a queue only ever holds messages of its own type.

use vstd::prelude::*;

use crate::message::{guest_key_of, GuestMessageEnum, TypeKey};
use crate::ExtensionError;

verus! {

/// The abstract state of a registry: each registered key with its queued
/// messages, in registration order.
pub type RegistryView = Seq<(TypeKey, Seq<GuestMessageEnum>)>;

/// Whether a key is registered.
pub open spec fn reg_has(v: RegistryView, k: TypeKey) -> bool {
    exists|i: int| 0 <= i < v.len() && (#[trigger] v[i]).0 == k
}

/// The queue registered under a key, or the empty sequence where the key is
/// not registered.
pub open spec fn queue_of(v: RegistryView, k: TypeKey) -> Seq<GuestMessageEnum>
    decreases v.len(),
{
    if v.len() == 0 {
        Seq::empty()
    } else if v[0].0 == k {
        v[0].1
    } else {
        queue_of(v.drop_first(), k)
    }
}

/// A registry after one message is routed: the message is appended to the
/// queue registered under its own type key; with no such queue the registry
/// is unchanged (the message is dropped).
pub open spec fn route_msg(v: RegistryView, m: GuestMessageEnum) -> RegistryView
    decreases v.len(),
{
    if v.len() == 0 {
        v
    } else if v[0].0 == guest_key_of(m) {
        seq![(v[0].0, v[0].1.push(m))] + v.drop_first()
    } else {
        seq![v[0]] + route_msg(v.drop_first(), m)
    }
}

/// A registry after one queue is drained: the queue registered under the key
/// becomes empty; the rest is unchanged.
pub open spec fn clear_key(v: RegistryView, k: TypeKey) -> RegistryView
    decreases v.len(),
{
    if v.len() == 0 {
        v
    } else if v[0].0 == k {
        seq![(v[0].0, Seq::<GuestMessageEnum>::empty())] + v.drop_first()
    } else {
        seq![v[0]] + clear_key(v.drop_first(), k)
    }
}

/// The well-formedness of a registry: keys are unique, and every queued
/// message carries the key of its own queue.
pub open spec fn reg_wf(v: RegistryView) -> bool {
    &&& forall|i: int, j: int| 0 <= i < j < v.len() ==> (#[trigger] v[i]).0 != (#[trigger] v[j]).0
    &&& forall|i: int, j: int|
        0 <= i < v.len() && 0 <= j < v[i].1.len() ==> guest_key_of(#[trigger] v[i].1[j]) == v[i].0
}

/// Routing keeps the length and every key of a registry, and rewrites only
/// the queue under the message's own key, appending the message to it.
pub proof fn lemma_route_msg(v: RegistryView, m: GuestMessageEnum)
    requires
        forall|i: int, j: int| 0 <= i < j < v.len() ==> (#[trigger] v[i]).0 != (#[trigger] v[j]).0,
    ensures
        route_msg(v, m).len() == v.len(),
        forall|i: int| 0 <= i < v.len() ==> (#[trigger] route_msg(v, m)[i]).0 == v[i].0,
        forall|i: int|
            0 <= i < v.len() && v[i].0 != guest_key_of(m) ==> (#[trigger] route_msg(v, m)[i]).1
                == v[i].1,
        forall|i: int|
            0 <= i < v.len() && v[i].0 == guest_key_of(m) ==> (#[trigger] route_msg(v, m)[i]).1
                == v[i].1.push(m),
    decreases v.len(),
{
    if v.len() > 0 {
        assert(forall|i: int| 1 <= i < v.len() ==> #[trigger] v[i] == v.drop_first()[i - 1]);
        if v[0].0 != guest_key_of(m) {
            lemma_route_msg(v.drop_first(), m);
            assert(forall|i: int|
                1 <= i < v.len() ==> route_msg(v, m)[i] == #[trigger] route_msg(
                    v.drop_first(),
                    m,
                )[i - 1]);
        } else {
            assert(forall|i: int|
                1 <= i < v.len() ==> #[trigger] route_msg(v, m)[i] == v.drop_first()[i - 1]);
            assert(forall|i: int| 1 <= i < v.len() ==> (#[trigger] v[i]).0 != guest_key_of(m));
        }
    }
}

/// Routing a message whose type key is not registered leaves the registry
/// unchanged.
pub proof fn lemma_route_msg_unregistered(v: RegistryView, m: GuestMessageEnum)
    requires
        !reg_has(v, guest_key_of(m)),
    ensures
        route_msg(v, m) == v,
    decreases v.len(),
{
    if v.len() > 0 {
        assert(v[0].0 != guest_key_of(m));
        assert(!reg_has(v.drop_first(), guest_key_of(m))) by {
            if reg_has(v.drop_first(), guest_key_of(m)) {
                let i = choose|i: int|
                    0 <= i < v.drop_first().len() && (#[trigger] v.drop_first()[i]).0
                        == guest_key_of(m);
                assert(v[i + 1].0 == guest_key_of(m));
            }
        }
        lemma_route_msg_unregistered(v.drop_first(), m);
        assert(route_msg(v, m) =~= v);
    }
}

/// The queue under a key, read through `route_msg`: the routed message's own
/// queue grows by that message, every other queue is untouched.
pub proof fn lemma_queue_of_route(v: RegistryView, m: GuestMessageEnum, k: TypeKey)
    ensures
        queue_of(route_msg(v, m), k) == if k == guest_key_of(m) && reg_has(v, k) {
            queue_of(v, k).push(m)
        } else {
            queue_of(v, k)
        },
    decreases v.len(),
{
    if v.len() > 0 {
        assert(v.drop_first().len() == v.len() - 1);
        assert(forall|i: int| 0 <= i < v.len() - 1 ==> #[trigger] v.drop_first()[i] == v[i + 1]);
        if v[0].0 == guest_key_of(m) {
            let r = route_msg(v, m);
            assert(r == seq![(v[0].0, v[0].1.push(m))] + v.drop_first());
            assert(r[0] == (v[0].0, v[0].1.push(m)));
            assert(r.drop_first() =~= v.drop_first());
            if k == v[0].0 {
                assert(reg_has(v, k)) by {
                    assert(v[0].0 == k);
                }
            } else {
                assert(queue_of(r, k) == queue_of(v.drop_first(), k));
            }
        } else {
            let r = route_msg(v, m);
            assert(r == seq![v[0]] + route_msg(v.drop_first(), m));
            assert(r[0] == v[0]);
            assert(r.drop_first() =~= route_msg(v.drop_first(), m));
            lemma_queue_of_route(v.drop_first(), m, k);
            if k == guest_key_of(m) {
                assert(reg_has(v, k) == reg_has(v.drop_first(), k)) by {
                    if reg_has(v, k) {
                        let i = choose|i: int| 0 <= i < v.len() && (#[trigger] v[i]).0 == k;
                        assert(i != 0);
                        assert(v.drop_first()[i - 1].0 == k);
                    }
                    if reg_has(v.drop_first(), k) {
                        let i = choose|i: int|
                            0 <= i < v.drop_first().len() && (#[trigger] v.drop_first()[i]).0 == k;
                        assert(v[i + 1].0 == k);
                    }
                }
            }
        }
    }
}

/// A registry of registered message types, each with its inbound queue.
pub struct MessageRegistry {
    entries: Vec<(TypeKey, Vec<GuestMessageEnum>)>,
}

impl View for MessageRegistry {
    type V = RegistryView;

    closed spec fn view(&self) -> RegistryView {
        Seq::new(self.entries@.len(), |i: int| (self.entries@[i].0, self.entries@[i].1@))
    }
}

impl MessageRegistry {
    /// The registry's own well-formedness.
    pub open spec fn wf(&self) -> bool {
        reg_wf(self@)
    }

    /// Creates an empty registry.
    pub fn new() -> (r: MessageRegistry)
        ensures
            r.wf(),
            r@ == Seq::<(TypeKey, Seq<GuestMessageEnum>)>::empty(),
    {
        let r = MessageRegistry { entries: Vec::new() };
        proof {
            assert(r@ =~= Seq::<(TypeKey, Seq<GuestMessageEnum>)>::empty());
        }
        r
    }

    /// Whether a key is registered.
    pub fn contains_key(&self, key: TypeKey) -> (r: bool)
        ensures
            r == reg_has(self@, key),
    {
        let n = self.entries.len();
        let mut i: usize = 0;
        while i < n
            invariant
                0 <= i <= n,
                n == self@.len(),
                forall|j: int| 0 <= j < i ==> (#[trigger] self@[j]).0 != key,
            decreases n - i,
        {
            if self.entries[i].0 == key {
                assert(self@[i as int].0 == key);
                return true;
            }
            i += 1;
        }
        false
    }

    /// Registers a key with a fresh, empty queue, keeping registration
    /// order. Registering a key twice is a programming error: it fails
    /// loudly and changes nothing, never overwrites.
    pub fn register(&mut self, key: TypeKey) -> (r: Result<(), ExtensionError>)
        requires
            old(self).wf(),
        ensures
            final(self).wf(),
            reg_has(old(self)@, key) ==> r == Result::<(), ExtensionError>::Err(
                ExtensionError::DuplicateRegistration,
            ) && final(self)@ == old(self)@,
            !reg_has(old(self)@, key) ==> r == Result::<(), ExtensionError>::Ok(())
                && final(self)@ == old(self)@.push((key, Seq::<GuestMessageEnum>::empty())),
    {
        if self.contains_key(key) {
            return Err(ExtensionError::DuplicateRegistration);
        }
        self.entries.push((key, Vec::new()));
        proof {
            assert(self@ =~= old(self)@.push((key, Seq::<GuestMessageEnum>::empty())));
        }
        Ok(())
    }

    /// Routes one decoded message to the queue registered under its own type
    /// key, appending it; with no queue registered for that key the message
    /// is dropped and the registry is unchanged. Returns whether the message
    /// was delivered.
    #[verifier::loop_isolation(false)]
    pub fn route(&mut self, m: GuestMessageEnum) -> (delivered: bool)
        requires
            old(self).wf(),
        ensures
            final(self).wf(),
            final(self)@ == route_msg(old(self)@, m),
            delivered == reg_has(old(self)@, guest_key_of(m)),
    {
        let key = m.type_id();
        let n = self.entries.len();
        let mut i: usize = 0;
        while i < n
            invariant
                0 <= i <= n,
                *self == *old(self),
                forall|j: int| 0 <= j < i ==> (#[trigger] self@[j]).0 != key,
            decreases n - i,
        {
            if self.entries[i].0 == key {
                assert(self@[i as int].0 == key);
                let mut pair = self.entries.remove(i);
                pair.1.push(m);
                self.entries.insert(i, pair);
                proof {
                    lemma_route_msg(old(self)@, m);
                    assert(self@ =~= route_msg(old(self)@, m)) by {
                        assert(forall|j: int|
                            0 <= j < old(self)@.len() && j != i ==> self@[j] == old(self)@[j]);
                        assert(self@[i as int] == (
                            old(self)@[i as int].0,
                            old(self)@[i as int].1.push(m),
                        ));
                    }
                }
                return true;
            }
            i += 1;
        }
        proof {
            lemma_route_msg_unregistered(self@, m);
        }
        false
    }

    /// Pops every queued message of a key, in arrival order, leaving that
    /// queue empty and every other queue untouched. An unregistered key
    /// yields nothing and changes nothing.
    #[verifier::loop_isolation(false)]
    pub fn drain(&mut self, key: TypeKey) -> (r: Vec<GuestMessageEnum>)
        requires
            old(self).wf(),
        ensures
            final(self).wf(),
            r@ == queue_of(old(self)@, key),
            final(self)@ == clear_key(old(self)@, key),
            forall|i: int| 0 <= i < r@.len() ==> guest_key_of(#[trigger] r@[i]) == key,
    {
        let n = self.entries.len();
        let mut i: usize = 0;
        while i < n
            invariant
                0 <= i <= n,
                *self == *old(self),
                forall|j: int| 0 <= j < i ==> (#[trigger] self@[j]).0 != key,
            decreases n - i,
        {
            if self.entries[i].0 == key {
                assert(self@[i as int].0 == key);
                let mut pair = self.entries.remove(i);
                let mut taken: Vec<GuestMessageEnum> = Vec::new();
                core::mem::swap(&mut taken, &mut pair.1);
                self.entries.insert(i, pair);
                proof {
                    lemma_clear_key(old(self)@, key);
                    lemma_queue_of_at(old(self)@, key, i as int);
                    assert(self@ =~= clear_key(old(self)@, key)) by {
                        assert(forall|j: int|
                            0 <= j < old(self)@.len() && j != i ==> self@[j] == old(self)@[j]);
                        assert(self@[i as int] == (
                            old(self)@[i as int].0,
                            Seq::<GuestMessageEnum>::empty(),
                        ));
                    }
                }
                return taken;
            }
            i += 1;
        }
        proof {
            lemma_clear_key(self@, key);
            lemma_queue_of_unregistered(self@, key);
            assert(clear_key(self@, key) =~= self@);
        }
        Vec::new()
    }

}

/// Clearing keeps the length and every key of a registry, and rewrites only
/// the queue under the cleared key, emptying it.
pub proof fn lemma_clear_key(v: RegistryView, k: TypeKey)
    requires
        forall|i: int, j: int| 0 <= i < j < v.len() ==> (#[trigger] v[i]).0 != (#[trigger] v[j]).0,
    ensures
        clear_key(v, k).len() == v.len(),
        forall|i: int| 0 <= i < v.len() ==> (#[trigger] clear_key(v, k)[i]).0 == v[i].0,
        forall|i: int|
            0 <= i < v.len() && v[i].0 != k ==> (#[trigger] clear_key(v, k)[i]).1 == v[i].1,
        forall|i: int|
            0 <= i < v.len() && v[i].0 == k ==> (#[trigger] clear_key(v, k)[i]).1
                == Seq::<GuestMessageEnum>::empty(),
    decreases v.len(),
{
    if v.len() > 0 {
        assert(forall|i: int| 1 <= i < v.len() ==> #[trigger] v[i] == v.drop_first()[i - 1]);
        if v[0].0 != k {
            lemma_clear_key(v.drop_first(), k);
            assert(forall|i: int|
                1 <= i < v.len() ==> clear_key(v, k)[i] == #[trigger] clear_key(
                    v.drop_first(),
                    k,
                )[i - 1]);
        } else {
            assert(forall|i: int|
                1 <= i < v.len() ==> #[trigger] clear_key(v, k)[i] == v.drop_first()[i - 1]);
            assert(forall|i: int| 1 <= i < v.len() ==> (#[trigger] v[i]).0 != k);
        }
    }
}

/// The queue under a key is the one at the first entry carrying that key.
pub proof fn lemma_queue_of_at(v: RegistryView, k: TypeKey, i: int)
    requires
        0 <= i < v.len(),
        v[i].0 == k,
        forall|j: int| 0 <= j < i ==> (#[trigger] v[j]).0 != k,
    ensures
        queue_of(v, k) == v[i].1,
    decreases v.len(),
{
    if i > 0 {
        assert(forall|j: int| 0 <= j < v.len() - 1 ==> #[trigger] v.drop_first()[j] == v[j + 1]);
        lemma_queue_of_at(v.drop_first(), k, i - 1);
    }
}

/// The queue under an unregistered key is empty.
pub proof fn lemma_queue_of_unregistered(v: RegistryView, k: TypeKey)
    requires
        !reg_has(v, k),
    ensures
        queue_of(v, k) == Seq::<GuestMessageEnum>::empty(),
    decreases v.len(),
{
    if v.len() > 0 {
        assert(v[0].0 != k);
        assert(!reg_has(v.drop_first(), k)) by {
            if reg_has(v.drop_first(), k) {
                let i = choose|i: int|
                    0 <= i < v.drop_first().len() && (#[trigger] v.drop_first()[i]).0 == k;
                assert(v[i + 1].0 == k);
            }
        }
        lemma_queue_of_unregistered(v.drop_first(), k);
    }
}

} // verus!
