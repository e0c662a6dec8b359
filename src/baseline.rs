//! Identity of a per-(service, model, metric) baseline.
use vstd::prelude::*;
use vstd::string::StringExecFns;
use crate::types::{ModelId, ServiceId};
use crate::keyed::{
    keyed_map, keys_unique, lemma_keyed_contains, lemma_keyed_len, lemma_keyed_remove,
    lemma_keyed_update, lemma_keyed_value, KeyedEntry,
};
use crate::window::{window_push, RollingWindow};

verus! {

/// Key of one baseline: service, model and metric name.
#[derive(Debug, Clone, PartialEq, Eq, Hash)]
pub struct BaselineKey {
    pub service: ServiceId,
    pub model: ModelId,
    pub metric: String,
}

/// Mathematical value of a [`BaselineKey`]: service, model and metric texts.
pub struct BaselineKeyView {
    pub service: Seq<char>,
    pub model: Seq<char>,
    pub metric: Seq<char>,
}

impl View for BaselineKey {
    type V = BaselineKeyView;

    open spec fn view(&self) -> BaselineKeyView {
        BaselineKeyView { service: self.service@, model: self.model@, metric: self.metric@ }
    }
}

impl BaselineKey {
    /// Two keys name the same baseline when all three parts agree.
    pub fn same_key(&self, other: &BaselineKey) -> (r: bool)
        ensures
            r == (self@ == other@),
    {
        self.service.same_as(&other.service) && self.model.same_as(&other.model) && self.metric
            == other.metric
    }

    pub fn new(service: ServiceId, model: ModelId, metric: &str) -> (r: BaselineKey)
        ensures
            r.service == service,
            r.model == model,
            r.metric@ == metric@,
    {
        BaselineKey { service, model, metric: String::from_str(metric) }
    }

    /// Key of the request latency, in milliseconds.
    pub fn latency(service: ServiceId, model: ModelId) -> (r: BaselineKey)
        ensures
            r.service == service,
            r.model == model,
            r.metric@ == "latency_ms"@,
    {
        BaselineKey::new(service, model, "latency_ms")
    }

    /// Key of the total token count.
    pub fn tokens(service: ServiceId, model: ModelId) -> (r: BaselineKey)
        ensures
            r.service == service,
            r.model == model,
            r.metric@ == "total_tokens"@,
    {
        BaselineKey::new(service, model, "total_tokens")
    }

    /// Key of the request cost, in US dollars.
    pub fn cost(service: ServiceId, model: ModelId) -> (r: BaselineKey)
        ensures
            r.service == service,
            r.model == model,
            r.metric@ == "cost_usd"@,
    {
        BaselineKey::new(service, model, "cost_usd")
    }

    /// Key of the error rate.
    pub fn error_rate(service: ServiceId, model: ModelId) -> (r: BaselineKey)
        ensures
            r.service == service,
            r.model == model,
            r.metric@ == "error_rate"@,
    {
        BaselineKey::new(service, model, "error_rate")
    }
}

/// Contents recorded for one key: the window's values and the latest snapshot.
pub struct SlotView<T, S> {
    pub key: BaselineKeyView,
    pub values: Seq<T>,
    pub snapshot: Option<S>,
}

impl<T, S> KeyedEntry for SlotView<T, S> {
    type Key = BaselineKeyView;

    open spec fn key(&self) -> BaselineKeyView {
        self.key
    }
}

struct Slot<T, S> {
    key: BaselineKey,
    window: RollingWindow<T>,
    snapshot: Option<S>,
}

impl<T, S> Slot<T, S> {
    closed spec fn view(&self) -> SlotView<T, S> {
        SlotView { key: self.key@, values: self.window@, snapshot: self.snapshot }
    }
}

/// Per-key rolling windows with the latest snapshot derived from each. Values of
/// one key keep their arrival order; keys never share a window.
pub struct BaselineStore<T, S> {
    slots: Vec<Slot<T, S>>,
    window_size: usize,
}

impl<T, S> View for BaselineStore<T, S> {
    type V = Map<BaselineKeyView, SlotView<T, S>>;

    closed spec fn view(&self) -> Map<BaselineKeyView, SlotView<T, S>> {
        keyed_map(self.slot_list())
    }
}

impl<T, S> BaselineStore<T, S> {
    closed spec fn slot_list(&self) -> Seq<SlotView<T, S>> {
        self.slots@.map_values(|s: Slot<T, S>| s.view())
    }

    /// Capacity of every window.
    pub closed spec fn spec_window_size(&self) -> nat {
        self.window_size as nat
    }

    /// Keys are distinct and every window is well formed with the common capacity.
    pub closed spec fn wf(&self) -> bool {
        &&& self.window_size > 0
        &&& keys_unique(self.slot_list())
        &&& forall|i: int|
            0 <= i < self.slots@.len() ==> #[trigger] self.slots@[i].window.wf()
                && self.slots@[i].window.cap() == self.window_size
    }

    pub fn new(window_size: usize) -> (r: BaselineStore<T, S>)
        requires
            window_size > 0,
        ensures
            r.wf(),
            r.spec_window_size() == window_size,
            r@ == Map::<BaselineKeyView, SlotView<T, S>>::empty(),
    {
        let r = BaselineStore { slots: Vec::new(), window_size };
        assert(r.slot_list() =~= Seq::<SlotView<T, S>>::empty());
        r
    }

    pub fn window_size(&self) -> (r: usize)
        ensures
            r == self.spec_window_size(),
    {
        self.window_size
    }

    fn find(&self, key: &BaselineKey) -> (r: Option<usize>)
        requires
            self.wf(),
        ensures
            r.is_none() ==> !self@.contains_key(key@),
            r.is_some() ==> r.unwrap() < self.slots@.len() && self.slot_list()[r.unwrap() as int].key
                == key@ && self@.contains_key(key@) && self@[key@] == self.slot_list()[r.unwrap() as int],
    {
        let mut i: usize = 0;
        while i < self.slots.len()
            invariant
                self.wf(),
                i <= self.slots@.len(),
                forall|j: int| 0 <= j < i ==> self.slot_list()[j].key != key@,
            decreases self.slots@.len() - i,
        {
            if self.slots[i].key.same_key(key) {
                proof {
                    lemma_keyed_value(self.slot_list(), i as int);
                }
                return Some(i);
            }
            i += 1;
        }
        proof {
            lemma_keyed_contains(self.slot_list(), key@);
        }
        None
    }

    /// Appends `value` to the window of `key` (created empty if new), dropping the
    /// window's oldest value when it is full. Returns whether the window is full
    /// afterwards, that is whether its snapshot is due for recomputation. The
    /// snapshot itself is left as it was.
    pub fn push(&mut self, key: BaselineKey, value: T) -> (full: bool)
        requires
            old(self).wf(),
        ensures
            final(self).wf(),
            final(self).spec_window_size() == old(self).spec_window_size(),
            ({
                let before = if old(self)@.contains_key(key@) {
                    old(self)@[key@].values
                } else {
                    Seq::<T>::empty()
                };
                let snap = if old(self)@.contains_key(key@) {
                    old(self)@[key@].snapshot
                } else {
                    None
                };
                let after = window_push(before, value, old(self).spec_window_size());
                &&& final(self)@ == old(self)@.insert(
                    key@,
                    SlotView { key: key@, values: after, snapshot: snap },
                )
                &&& full == (after.len() >= old(self).spec_window_size())
            }),
    {
        let ghost l = self.slot_list();
        let ghost v0 = self.slots@;
        match self.find(&key) {
            Some(i) => {
                let mut slot = self.slots.remove(i);
                assert(slot == v0[i as int]);
                assert(slot.window.wf());
                slot.window.push(value);
                let full = slot.window.is_full();
                let ghost e = slot.view();
                let ghost g = slot;
                self.slots.insert(i, slot);
                proof {
                    assert(self.slots@ =~= v0.update(i as int, g));
                    assert(self.slot_list() =~= l.update(i as int, e));
                    lemma_keyed_update(l, i as int, e);
                    assert forall|j: int| 0 <= j < self.slots@.len() implies #[trigger] self.slots@[j].window.wf()
                        && self.slots@[j].window.cap() == self.window_size by {
                        if j != i {
                            assert(self.slots@[j] == v0[j]);
                        }
                    }
                }
                full
            },
            None => {
                let mut window = RollingWindow::new(self.window_size);
                window.push(value);
                let full = window.is_full();
                let slot = Slot { key, window, snapshot: None };
                let ghost e = slot.view();
                let ghost g = slot;
                self.slots.push(slot);
                proof {
                    assert(self.slots@ =~= v0.push(g));
                    assert(self.slot_list() =~= l.push(e));
                    assert(self.slot_list().drop_last() =~= l);
                    assert forall|j: int| 0 <= j < l.len() implies l[j].key != e.key by {
                        lemma_keyed_contains(l, e.key);
                    }
                    assert(keys_unique(self.slot_list()));
                    assert forall|j: int| 0 <= j < self.slots@.len() implies #[trigger] self.slots@[j].window.wf()
                        && self.slots@[j].window.cap() == self.window_size by {
                        if j < l.len() {
                            assert(self.slots@[j] == v0[j]);
                        } else {
                            assert(self.slots@[j] == g);
                        }
                    }
                }
                full
            },
        }
    }

    /// Replaces the snapshot of `key`; does nothing for an unknown key.
    pub fn set_snapshot(&mut self, key: &BaselineKey, snapshot: S)
        requires
            old(self).wf(),
        ensures
            final(self).wf(),
            final(self).spec_window_size() == old(self).spec_window_size(),
            old(self)@.contains_key(key@) ==> final(self)@ == old(self)@.insert(
                key@,
                SlotView { snapshot: Some(snapshot), ..old(self)@[key@] },
            ),
            !old(self)@.contains_key(key@) ==> final(self)@ == old(self)@,
    {
        let ghost l = self.slot_list();
        let ghost v0 = self.slots@;
        if let Some(i) = self.find(key) {
            let mut slot = self.slots.remove(i);
            assert(slot == v0[i as int]);
            slot.snapshot = Some(snapshot);
            let ghost e = slot.view();
            let ghost g = slot;
            self.slots.insert(i, slot);
            proof {
                assert(self.slots@ =~= v0.update(i as int, g));
                assert(self.slot_list() =~= l.update(i as int, e));
                lemma_keyed_update(l, i as int, e);
                assert forall|j: int| 0 <= j < self.slots@.len() implies #[trigger] self.slots@[j].window.wf()
                    && self.slots@[j].window.cap() == self.window_size by {
                    assert(v0[j].window.wf() && v0[j].window.cap() == self.window_size);
                    if j != i {
                        assert(self.slots@[j] == v0[j]);
                    } else {
                        assert(self.slots@[j].window == v0[j].window);
                    }
                }
            }
        }
    }

    /// The latest snapshot of `key`, if any.
    pub fn get(&self, key: &BaselineKey) -> (r: Option<&S>)
        requires
            self.wf(),
        ensures
            r.is_some() <==> (self@.contains_key(key@) && self@[key@].snapshot.is_some()),
            r.is_some() ==> *r.unwrap() == self@[key@].snapshot.unwrap(),
    {
        match self.find(key) {
            Some(i) => match &self.slots[i].snapshot {
                Some(s) => Some(s),
                None => None,
            },
            None => None,
        }
    }

    /// The values of the window of `key`, oldest first; empty for an unknown key.
    pub fn values(&self, key: &BaselineKey) -> (r: &[T])
        requires
            self.wf(),
        ensures
            self@.contains_key(key@) ==> r@ == self@[key@].values,
            !self@.contains_key(key@) ==> r@.len() == 0,
    {
        match self.find(key) {
            Some(i) => self.slots[i].window.data(),
            None => &[],
        }
    }

    /// Number of keys with a window.
    pub fn len(&self) -> (r: usize)
        requires
            self.wf(),
        ensures
            r == self@.len(),
    {
        proof {
            lemma_keyed_len(self.slot_list());
        }
        self.slots.len()
    }

    /// Forgets the window and snapshot of `key`.
    pub fn clear(&mut self, key: &BaselineKey)
        requires
            old(self).wf(),
        ensures
            final(self).wf(),
            final(self).spec_window_size() == old(self).spec_window_size(),
            final(self)@ == old(self)@.remove(key@),
    {
        let ghost l = self.slot_list();
        let ghost v0 = self.slots@;
        match self.find(key) {
            Some(i) => {
                self.slots.remove(i);
                proof {
                    assert(self.slots@ =~= v0.remove(i as int));
                    assert(self.slot_list() =~= l.remove(i as int));
                    lemma_keyed_remove(l, i as int);
                    assert forall|j: int| 0 <= j < self.slots@.len() implies #[trigger] self.slots@[j].window.wf()
                        && self.slots@[j].window.cap() == self.window_size by {
                        let jj = if j < i { j } else { j + 1 };
                        assert(0 <= jj < v0.len());
                        assert(self.slots@[j] == v0[jj]);
                        assert(old(self).slots@[jj].window.wf());
                        assert(v0[jj].window.wf() && v0[jj].window.cap() == self.window_size);
                    }
                }
            },
            None => {
                assert(old(self)@.remove(key@) =~= old(self)@);
            },
        }
    }

    /// Forgets every key.
    pub fn clear_all(&mut self)
        requires
            old(self).wf(),
        ensures
            final(self).wf(),
            final(self).spec_window_size() == old(self).spec_window_size(),
            final(self)@ == Map::<BaselineKeyView, SlotView<T, S>>::empty(),
    {
        self.slots = Vec::new();
        assert(self.slot_list() =~= Seq::<SlotView<T, S>>::empty());
    }
}

/// After a value is pushed for a key, it is the newest value of that key's window,
/// so the next snapshot derived from the window takes it into account.
pub proof fn lemma_pushed_value_is_newest<T>(before: Seq<T>, value: T, cap: nat)
    requires
        cap > 0,
    ensures
        window_push(before, value, cap).len() > 0,
        window_push(before, value, cap).last() == value,
{
}

/// Summary of a baseline store.
#[derive(Debug, Clone, Copy, PartialEq, Eq)]
pub struct BaselineManagerStats {
    /// Keys with a window.
    pub total_baselines: usize,
    /// Keys whose snapshot has enough samples.
    pub valid_baselines: usize,
    /// Capacity of every window.
    pub window_size: usize,
}

} // verus!
