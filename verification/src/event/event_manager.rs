//! A table of callbacks by event key.

use std::collections::HashMap;
use std::hash::Hash;
use vstd::prelude::*;
use vstd::std_specs::hash::obeys_key_model;

verus! {

/// Callbacks registered under keys. The callbacks of a key are called in the
/// order in which they were registered.
pub struct EventManager<K: Eq + Hash, T, F: Fn(&T)> {
    events: HashMap<K, Vec<F>>,
    marker: core::marker::PhantomData<T>,
}

impl<K: Eq + Hash, T, F: Fn(&T)> EventManager<K, T, F> {
    /// The callbacks registered under each key that has any.
    pub closed spec fn callbacks(&self) -> Map<K, Seq<F>> {
        self.events@.map_values(|list: Vec<F>| list@)
    }

    /// The callbacks registered under `key`, in the order of registration.
    pub open spec fn callbacks_of(&self, key: K) -> Seq<F> {
        if self.callbacks().contains_key(key) {
            self.callbacks()[key]
        } else {
            Seq::empty()
        }
    }

    /// Every registered callback can be called on every value.
    pub open spec fn wf(&self) -> bool {
        forall|key: K, i: int, value: T|
            #![trigger call_requires(self.callbacks_of(key)[i], (&value,))]
            0 <= i < self.callbacks_of(key).len() ==> call_requires(
                self.callbacks_of(key)[i],
                (&value,),
            )
    }

    /// A manager with no callback.
    pub fn new() -> (manager: Self)
        ensures
            manager.callbacks() == Map::<K, Seq<F>>::empty(),
            manager.wf(),
    {
        let manager = EventManager { events: HashMap::new(), marker: core::marker::PhantomData };
        assert(manager.callbacks() =~= Map::<K, Seq<F>>::empty());
        manager
    }

    /// Registers `func` as the last callback of `key`.
    pub fn on(&mut self, key: K, func: F)
        requires
            obeys_key_model::<K>(),
            old(self).wf(),
            forall|value: T| call_requires(func, (&value,)),
        ensures
            final(self).callbacks() == old(self).callbacks().insert(
                key,
                old(self).callbacks_of(key).push(func),
            ),
            final(self).wf(),
    {
        broadcast use vstd::std_specs::hash::group_hash_axioms;

        match self.events.remove(&key) {
            Some(mut list) => {
                list.push(func);
                self.events.insert(key, list);
            },
            None => {
                let mut list = Vec::new();
                list.push(func);
                self.events.insert(key, list);
            },
        }
        proof {
            assert(self.callbacks() =~= old(self).callbacks().insert(
                key,
                old(self).callbacks_of(key).push(func),
            ));
            assert forall|other: K, i: int, value: T|
                #![trigger call_requires(self.callbacks_of(other)[i], (&value,))]
                0 <= i < self.callbacks_of(other).len() implies call_requires(
                self.callbacks_of(other)[i],
                (&value,),
            ) by {
                if other == key {
                    if i < old(self).callbacks_of(key).len() {
                        assert(call_requires(old(self).callbacks_of(key)[i], (&value,)));
                    }
                } else {
                    assert(self.callbacks_of(other) == old(self).callbacks_of(other));
                    assert(call_requires(old(self).callbacks_of(other)[i], (&value,)));
                }
            }
        }
    }

    /// Calls each callback of `key` on `value`, in the order of registration.
    pub fn emit(&self, key: K, value: T)
        requires
            obeys_key_model::<K>(),
            self.wf(),
        ensures
            forall|i: int|
                0 <= i < self.callbacks_of(key).len() ==> call_ensures(
                    #[trigger] self.callbacks_of(key)[i],
                    (&value,),
                    (),
                ),
    {
        broadcast use vstd::std_specs::hash::group_hash_axioms;

        match self.events.get(&key) {
            Some(list) => {
                proof {
                    assert(self.callbacks_of(key) == list@);
                    assert forall|k: int, v: T|
                        #![trigger call_requires(list@[k], (&v,))]
                        0 <= k < list.len() implies call_requires(list@[k], (&v,)) by {
                        assert(call_requires(self.callbacks_of(key)[k], (&v,)));
                    }
                }
                let mut i: usize = 0;
                while i < list.len()
                    invariant
                        i <= list.len(),
                        forall|k: int, v: T|
                            #![trigger call_requires(list@[k], (&v,))]
                            0 <= k < list.len() ==> call_requires(list@[k], (&v,)),
                        forall|k: int|
                            0 <= k < i ==> call_ensures(#[trigger] list@[k], (&value,), ()),
                    decreases list.len() - i,
                {
                    let callback = &list[i];
                    callback(&value);
                    i += 1;
                }
            },
            None => {},
        }
    }
}

} // verus!
