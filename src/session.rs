//! The state a session keeps between messages: the symbol handle cache, the
//! table of outstanding calls keyed by correlation id, and the table of
//! active notification subscriptions.
use crate::error::{AdsError, ClientError};
use crate::types::PlcTypes;
use std::collections::HashMap;
use vstd::prelude::*;

verus! {

broadcast use vstd::std_specs::hash::group_hash_axioms;

/// A resolved variable: the handle the device assigned, and its type.
#[derive(Debug, Clone, Copy, PartialEq, Eq, Structural)]
pub struct SymbolHandle {
    pub handle: u32,
    pub plc_type: PlcTypes,
}

/// The map that a list of name entries describes; a later entry for a name
/// replaces an earlier one.
pub open spec fn entries_map<T>(s: Seq<(Seq<char>, T)>) -> Map<Seq<char>, T>
    decreases s.len(),
{
    if s.len() == 0 {
        Map::empty()
    } else {
        entries_map(s.drop_last()).insert(s.last().0, s.last().1)
    }
}

/// A table from variable names to values.
pub struct NameTable<T> {
    entries: Vec<(String, T)>,
}

impl<T> NameTable<T> {
    pub closed spec fn entries_view(&self) -> Seq<(Seq<char>, T)> {
        self.entries@.map_values(|e: (String, T)| (e.0@, e.1))
    }

    pub closed spec fn view(&self) -> Map<Seq<char>, T> {
        entries_map(self.entries_view())
    }
}

impl<T: Copy> NameTable<T> {
    pub fn new() -> (r: Self)
        ensures
            r.view() == Map::<Seq<char>, T>::empty(),
    {
        let r = NameTable { entries: Vec::new() };
        assert(r.entries_view() =~= Seq::<(Seq<char>, T)>::empty());
        r
    }

    /// The value stored for `name`.
    pub fn get(&self, name: &String) -> (r: Option<T>)
        ensures
            r == (if self.view().contains_key(name@) {
                Some(self.view()[name@])
            } else {
                None
            }),
    {
        let ghost s = self.entries_view();
        let mut i: usize = self.entries.len();
        assert(s.subrange(0, i as int) =~= s);
        while i > 0
            invariant
                i <= self.entries@.len(),
                s == self.entries_view(),
                entries_map(s).contains_key(name@) ==> entries_map(s)[name@] == entries_map(
                    s.subrange(0, i as int),
                )[name@],
                entries_map(s).contains_key(name@) <==> entries_map(
                    s.subrange(0, i as int),
                ).contains_key(name@),
            decreases i,
        {
            let k = i - 1;
            assert(s.subrange(0, i as int).drop_last() =~= s.subrange(0, k as int));
            assert(s[k as int] == (self.entries@[k as int].0@, self.entries@[k as int].1));
            if self.entries[k].0 == *name {
                return Some(self.entries[k].1);
            }
            i = k;
        }
        assert(s.subrange(0, 0) =~= Seq::<(Seq<char>, T)>::empty());
        None
    }

    /// Stores `value` for `name`, replacing what was there.
    pub fn insert(&mut self, name: &String, value: T)
        ensures
            final(self).view() == old(self).view().insert(name@, value),
    {
        let ghost s = self.entries_view();
        self.entries.push((name.clone(), value));
        assert(self.entries_view().drop_last() =~= s);
    }

    /// Removes every entry.
    pub fn clear(&mut self)
        ensures
            final(self).view() == Map::<Seq<char>, T>::empty(),
    {
        self.entries.clear();
        assert(self.entries_view() =~= Seq::<(Seq<char>, T)>::empty());
    }

    /// Removes the entry for `name`.
    pub fn remove(&mut self, name: &String)
        ensures
            final(self).view() == old(self).view().remove(name@),
    {
        let ghost s = self.entries_view();
        let mut kept: Vec<(String, T)> = Vec::new();
        let n = self.entries.len();
        let mut i: usize = 0;
        while i < n
            invariant
                n == self.entries@.len(),
                s == self.entries_view(),
                i <= n,
                entries_map(kept@.map_values(|e: (String, T)| (e.0@, e.1))) == entries_map(
                    s.subrange(0, i as int),
                ).remove(name@),
            decreases n - i,
        {
            let ghost before = kept@.map_values(|e: (String, T)| (e.0@, e.1));
            assert(s.subrange(0, i + 1).drop_last() =~= s.subrange(0, i as int));
            assert(s[i as int] == (self.entries@[i as int].0@, self.entries@[i as int].1));
            if !(self.entries[i].0 == *name) {
                let e = (self.entries[i].0.clone(), self.entries[i].1);
                kept.push(e);
                assert(kept@.map_values(|e: (String, T)| (e.0@, e.1)).drop_last() =~= before);
                assert(entries_map(kept@.map_values(|e: (String, T)| (e.0@, e.1))) =~= entries_map(
                    s.subrange(0, i + 1),
                ).remove(name@));
            } else {
                assert(entries_map(kept@.map_values(|e: (String, T)| (e.0@, e.1))) =~= entries_map(
                    s.subrange(0, i + 1),
                ).remove(name@));
            }
            i = i + 1;
        }
        assert(s.subrange(0, n as int) =~= s);
        self.entries = kept;
    }
}

/// The symbol handle cache: variable names to handles.
pub struct SymbolCache {
    handles: NameTable<SymbolHandle>,
}

impl SymbolCache {
    pub closed spec fn view(&self) -> Map<Seq<char>, SymbolHandle> {
        self.handles.view()
    }

    pub fn new() -> (r: Self)
        ensures
            r.view() == Map::<Seq<char>, SymbolHandle>::empty(),
    {
        SymbolCache { handles: NameTable::new() }
    }

    /// The cached handle of `name`, if any.
    pub fn lookup(&self, name: &String) -> (r: Option<SymbolHandle>)
        ensures
            r == cache_lookup(self.view(), name@),
    {
        self.handles.get(name)
    }

    /// Caches `handle` for `name`.
    pub fn insert(&mut self, name: &String, handle: SymbolHandle)
        ensures
            final(self).view() == old(self).view().insert(name@, handle),
    {
        self.handles.insert(name, handle);
    }

    /// Forgets every cached handle.
    pub fn invalidate_all(&mut self)
        ensures
            final(self).view() == Map::<Seq<char>, SymbolHandle>::empty(),
    {
        self.handles.clear();
    }

    /// Inspects a result code from the device: the code that reports a
    /// changed symbol version clears the cache; any other leaves it. Returns
    /// whether the cache was cleared.
    pub fn observe_result(&mut self, code: AdsError) -> (r: bool)
        ensures
            r == invalidates_handles(code),
            final(self).view() == after_result(old(self).view(), code),
    {
        if code.as_u32() == AdsError::AdsErrDeviceSymbolVersionInvalid.as_u32() {
            self.invalidate_all();
            true
        } else {
            false
        }
    }
}

/// Whether a result code means the device's symbol table was reloaded, so
/// that every handle it issued may be stale.
pub open spec fn invalidates_handles(code: AdsError) -> bool {
    code.code() == AdsError::AdsErrDeviceSymbolVersionInvalid.code()
}

/// The cache after a result code has been observed.
pub open spec fn after_result(cache: Map<Seq<char>, SymbolHandle>, code: AdsError) -> Map<
    Seq<char>,
    SymbolHandle,
> {
    if invalidates_handles(code) {
        Map::empty()
    } else {
        cache
    }
}

/// What a lookup in the cache answers; `None` means that the handle must be
/// fetched from the device.
pub open spec fn cache_lookup(cache: Map<Seq<char>, SymbolHandle>, name: Seq<char>) -> Option<
    SymbolHandle,
> {
    if cache.contains_key(name) {
        Some(cache[name])
    } else {
        None
    }
}

/// Once a name has been resolved and cached, looking it up again is
/// answered from the cache with the same handle, without asking the device;
/// once the cache has been invalidated, the next lookup asks the device
/// again.
pub proof fn lemma_cache_correctness(
    cache: Map<Seq<char>, SymbolHandle>,
    name: Seq<char>,
    h: SymbolHandle,
)
    ensures
        cache_lookup(cache.insert(name, h), name) == Some(h),
        cache_lookup(after_result(cache.insert(name, h), AdsError::AdsErrDeviceSymbolVersionInvalid), name)
            is None,
        cache_lookup(Map::<Seq<char>, SymbolHandle>::empty(), name) is None,
{
}

/// Outstanding calls keyed by correlation id, each with what waits for its
/// answer.
pub struct CallTable<V> {
    calls: HashMap<u32, V>,
}

impl<V> CallTable<V> {
    pub closed spec fn view(&self) -> Map<u32, V> {
        self.calls@
    }

    pub fn new() -> (r: Self)
        ensures
            r.view() == Map::<u32, V>::empty(),
    {
        CallTable { calls: HashMap::new() }
    }

    /// Registers a waiter under `invoke_id`, unless a call with that id is
    /// still outstanding: ids are unique among outstanding calls.
    pub fn register(&mut self, invoke_id: u32, waiter: V) -> (r: Result<(), ClientError>)
        ensures
            r is Ok <==> !old(self).view().contains_key(invoke_id),
            r is Ok ==> final(self).view() == old(self).view().insert(invoke_id, waiter),
            r is Err ==> r == Err::<(), ClientError>(ClientError::DuplicateInvokeId)
                && final(self).view() == old(self).view(),
    {
        if self.calls.contains_key(&invoke_id) {
            return Err(ClientError::DuplicateInvokeId);
        }
        self.calls.insert(invoke_id, waiter);
        Ok(())
    }

    /// Takes the waiter of the call that an answer with `invoke_id` belongs
    /// to; an id with no outstanding call gives `None`.
    pub fn take(&mut self, invoke_id: u32) -> (r: Option<V>)
        ensures
            r == take_waiter(old(self).view(), invoke_id),
            final(self).view() == old(self).view().remove(invoke_id),
    {
        self.calls.remove(&invoke_id)
    }

    /// Whether a call with `invoke_id` is outstanding.
    pub fn contains(&self, invoke_id: u32) -> (r: bool)
        ensures
            r == self.view().contains_key(invoke_id),
    {
        self.calls.contains_key(&invoke_id)
    }

    /// Takes every waiter at teardown, leaving the table empty.
    pub fn take_all(&mut self) -> (r: HashMap<u32, V>)
        ensures
            r@ == old(self).view(),
            final(self).view() == Map::<u32, V>::empty(),
    {
        let mut empty: HashMap<u32, V> = HashMap::new();
        std::mem::swap(&mut self.calls, &mut empty);
        empty
    }
}

/// The waiter that an answer with `invoke_id` is handed to.
pub open spec fn take_waiter<V>(table: Map<u32, V>, invoke_id: u32) -> Option<V> {
    if table.contains_key(invoke_id) {
        Some(table[invoke_id])
    } else {
        None
    }
}

/// Answers are matched to calls by correlation id alone: whichever other
/// outstanding calls are answered first, and in whatever order, an answer
/// still reaches the waiter registered under its own id.
pub proof fn lemma_answers_match_own_call<V>(table: Map<u32, V>, answered: Set<u32>, invoke_id: u32)
    requires
        !answered.contains(invoke_id),
    ensures
        take_waiter(table.remove_keys(answered), invoke_id) == take_waiter(table, invoke_id),
{
}

/// Active notification subscriptions: pushes are routed by notification
/// handle, and each variable name holds the handle of its subscription.
pub struct Subscriptions<V> {
    channels: HashMap<u32, V>,
    by_name: NameTable<u32>,
}

impl<V> Subscriptions<V> {
    /// Notification handles to delivery channels.
    pub closed spec fn channels(&self) -> Map<u32, V> {
        self.channels@
    }

    /// Variable names to notification handles.
    pub closed spec fn handles(&self) -> Map<Seq<char>, u32> {
        self.by_name.view()
    }

    pub fn new() -> (r: Self)
        ensures
            r.channels() == Map::<u32, V>::empty(),
            r.handles() == Map::<Seq<char>, u32>::empty(),
    {
        Subscriptions { channels: HashMap::new(), by_name: NameTable::new() }
    }

    /// Makes a subscription active once the device has assigned its handle.
    pub fn activate(&mut self, name: &String, notification_handle: u32, channel: V)
        ensures
            final(self).channels() == old(self).channels().insert(notification_handle, channel),
            final(self).handles() == old(self).handles().insert(name@, notification_handle),
    {
        self.channels.insert(notification_handle, channel);
        self.by_name.insert(name, notification_handle);
    }

    /// The handle to send in a delete request for `name`; without an active
    /// subscription nothing is to be sent.
    pub fn handle_of(&self, name: &String) -> (r: Result<u32, ClientError>)
        ensures
            self.handles().contains_key(name@) ==> r == Ok::<u32, ClientError>(
                self.handles()[name@],
            ),
            !self.handles().contains_key(name@) ==> r == Err::<u32, ClientError>(
                ClientError::NoSuchSubscription,
            ),
    {
        match self.by_name.get(name) {
            Some(h) => Ok(h),
            None => Err(ClientError::NoSuchSubscription),
        }
    }

    /// Closes the subscription of `name` once the device confirmed its end;
    /// the other subscriptions are left as they are.
    pub fn close(&mut self, name: &String) -> (r: Option<V>)
        ensures
            old(self).handles().contains_key(name@) ==> {
                let h = old(self).handles()[name@];
                &&& final(self).channels() == old(self).channels().remove(h)
                &&& r == take_waiter(old(self).channels(), h)
            },
            !old(self).handles().contains_key(name@) ==> final(self).channels() == old(
                self,
            ).channels() && r is None,
            final(self).handles() == old(self).handles().remove(name@),
    {
        match self.by_name.get(name) {
            Some(h) => {
                self.by_name.remove(name);
                self.channels.remove(&h)
            },
            None => {
                self.by_name.remove(name);
                None
            },
        }
    }

    /// The channel that pushes for `notification_handle` go to.
    pub fn channel(&self, notification_handle: u32) -> (r: Option<&V>)
        ensures
            r matches Some(v) ==> self.channels().contains_key(notification_handle)
                && *v == self.channels()[notification_handle],
            r is None ==> !self.channels().contains_key(notification_handle),
    {
        self.channels.get(&notification_handle)
    }

    /// Every active channel, by notification handle.
    pub fn all_channels(&self) -> (r: &HashMap<u32, V>)
        ensures
            r@ == self.channels(),
    {
        &self.channels
    }

    /// Takes every channel at teardown, leaving no subscription.
    pub fn take_all(&mut self) -> (r: HashMap<u32, V>)
        ensures
            r@ == old(self).channels(),
            final(self).channels() == Map::<u32, V>::empty(),
            final(self).handles() == Map::<Seq<char>, u32>::empty(),
    {
        let mut empty: HashMap<u32, V> = HashMap::new();
        std::mem::swap(&mut self.channels, &mut empty);
        self.by_name.clear();
        empty
    }
}

} // verus!
