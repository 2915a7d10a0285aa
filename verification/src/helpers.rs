use vstd::prelude::*;

use std::collections::BTreeMap;

use crate::result_map::{
    ResultMap, no_results, result_map_contains_key, result_map_entries, result_map_get,
    result_map_insert, result_map_new,
};

verus! {

/// The number of results that a `ResultContainer` holds at most.
pub const RESULT_CAPACITY: usize = 32;

/// Make a syscall with self-contained arguments.
pub trait MakeSyscall {
    /// Syscall number
    const NR: i32;

    /// Make a syscall with arguments and previous syscall results.
    fn call(&self, results: &ResultContainer) -> isize;
}

/// Make a syscall with self-contained arguments.
/// The arguments may be modified to receive data from the syscall.
pub trait MakeSyscallMut {
    /// Syscall number
    const NR: i32;

    /// Make a syscall with arguments and previous syscall results.
    /// The arguments may be modified to receive data from the syscall.
    fn call(&mut self, results: &ResultContainer) -> isize;
}

/// What a pointer argument points at: a raw address, or some data that
/// the argument holds.
pub enum PtrTarget<'a, T> {
    Address(usize),
    Data(&'a T),
}

/// What a mutable pointer argument points at: a raw address, or some data
/// that the argument holds and lends for writing.
pub enum PtrTargetMut<'a, T> {
    Address(usize),
    Data(&'a mut T),
}

/// Convert to a pointer.
pub trait AsPtr<T> {
    fn as_ptr(&self) -> PtrTarget<'_, T>;
}

/// Convert to a mutable pointer.
pub trait AsMutPtr<T> {
    fn as_mut_ptr(&mut self) -> PtrTargetMut<'_, T>;
}

impl<'b, T> AsPtr<T> for &'b T {
    fn as_ptr(&self) -> (res: PtrTarget<'_, T>)
        ensures
            res == PtrTarget::Data(*self),
    {
        PtrTarget::Data(*self)
    }
}

impl<'b, T> AsMutPtr<T> for &'b mut T {
    fn as_mut_ptr(&mut self) -> (res: PtrTargetMut<'_, T>)
        ensures
            res matches PtrTargetMut::Data(r) && *r == **old(self) && **final(self) == *final(r),
    {
        PtrTargetMut::Data(&mut **self)
    }
}

/// A wrapper for pointers, holding either a raw address or some owned data
pub enum Pointer<T> {
    /// Raw address
    Addr(usize),
    /// Owned data
    Data(T),
}

impl<T> Pointer<T> {
    /// The position of the variant in the declaration: `Addr` is 0, `Data`
    /// is 1.
    pub fn enum_index(&self) -> (res: usize)
        ensures
            res == (match self {
                Pointer::Addr(_) => 0usize,
                Pointer::Data(_) => 1usize,
            }),
    {
        match self {
            Pointer::Addr(_) => 0,
            Pointer::Data(_) => 1,
        }
    }
}

impl<T> AsPtr<T> for Pointer<T> {
    fn as_ptr(&self) -> (res: PtrTarget<'_, T>)
        ensures
            res == (match self {
                Pointer::Addr(a) => PtrTarget::Address(*a),
                Pointer::Data(d) => PtrTarget::Data(d),
            }),
    {
        match self {
            Pointer::Addr(addr) => PtrTarget::Address(*addr),
            Pointer::Data(data) => PtrTarget::Data(data),
        }
    }
}

impl<T> AsMutPtr<T> for Pointer<T> {
    fn as_mut_ptr(&mut self) -> (res: PtrTargetMut<'_, T>)
        ensures
            match *old(self) {
                Pointer::Addr(a) => res == PtrTargetMut::<T>::Address(a) && *final(self) == *old(self),
                Pointer::Data(d) => res matches PtrTargetMut::Data(r) && *r == d
                    && *final(self) == Pointer::<T>::Data(*final(r)),
            },
    {
        match self {
            Pointer::Addr(addr) => PtrTargetMut::Address(*addr),
            Pointer::Data(data) => PtrTargetMut::Data(data),
        }
    }
}

/// Result of a syscall, holding either a reference to some syscall result
/// or a specified value.
pub enum SyscallResult {
    /// Reference to a syscall result, by the id that names it
    Ref(u128),
    /// Specified value
    Value(u64),
}

impl SyscallResult {
    /// The position of the variant in the declaration: `Ref` is 0, `Value`
    /// is 1.
    pub fn enum_index(&self) -> (res: usize)
        ensures
            res == (match self {
                SyscallResult::Ref(_) => 0usize,
                SyscallResult::Value(_) => 1usize,
            }),
    {
        match self {
            SyscallResult::Ref(_) => 0,
            SyscallResult::Value(_) => 1,
        }
    }
}

/// The result stored under `key`, if any.
pub open spec fn lookup(results: Map<u128, usize>, key: u128) -> Option<usize> {
    if results.contains_key(key) {
        Some(results[key])
    } else {
        None
    }
}

/// A result that is inserted is what a later lookup of its key gives; the
/// other keys keep their results.
pub proof fn law_lookup_after_insert(results: Map<u128, usize>, key: u128, value: usize, other: u128)
    ensures
        lookup(results.insert(key, value), key) == Some(value),
        other != key ==> lookup(results.insert(key, value), other) == lookup(results, other),
{
}

/// A key is present exactly when a lookup of it gives a result.
pub proof fn law_contains_iff_lookup(results: Map<u128, usize>, key: u128)
    ensures
        results.contains_key(key) <==> lookup(results, key) is Some,
{
}

/// Inserting under a key that is present replaces its result and keeps
/// the number of entries, so it is allowed even when the container is
/// full.
pub proof fn law_insert_present_key_keeps_size(results: Map<u128, usize>, key: u128, value: usize)
    requires
        results.dom().finite(),
        results.contains_key(key),
    ensures
        results.insert(key, value).len() == results.len(),
{
    assert(results.insert(key, value).dom() =~= results.dom());
}

/// The results after inserting each `(key, value)` pair of `inserts`, in
/// order, into `results`.
pub open spec fn insert_all(results: Map<u128, usize>, inserts: Seq<(u128, usize)>) -> Map<u128, usize>
    decreases inserts.len(),
{
    if inserts.len() == 0 {
        results
    } else {
        insert_all(results, inserts.drop_last()).insert(inserts.last().0, inserts.last().1)
    }
}

/// The value of the last pair of `inserts` whose key is `key`, if any.
pub open spec fn last_inserted(inserts: Seq<(u128, usize)>, key: u128) -> Option<usize>
    decreases inserts.len(),
{
    if inserts.len() == 0 {
        None
    } else if inserts.last().0 == key {
        Some(inserts.last().1)
    } else {
        last_inserted(inserts.drop_last(), key)
    }
}

/// After a sequence of inserts, a lookup of a key gives the value of the
/// last insert under that key; a key that no insert named keeps its
/// earlier result.
pub proof fn law_lookup_after_inserts(results: Map<u128, usize>, inserts: Seq<(u128, usize)>, key: u128)
    ensures
        lookup(insert_all(results, inserts), key) == (match last_inserted(inserts, key) {
            Some(v) => Some(v),
            None => lookup(results, key),
        }),
    decreases inserts.len(),
{
    if inserts.len() > 0 {
        law_lookup_after_inserts(results, inserts.drop_last(), key);
    }
}

/// Store syscall results to be used by later syscalls.
/// This is a fixed-size map of `RESULT_CAPACITY` entries, keyed by the
/// ids (as 128-bit integers) that the fuzzer assigns to results.
pub struct ResultContainer {
    data: ResultMap,
}

impl View for ResultContainer {
    type V = Map<u128, usize>;

    closed spec fn view(&self) -> Map<u128, usize> {
        result_map_entries(self.data)
    }
}

impl ResultContainer {
    /// The container holds finitely many results, at most `RESULT_CAPACITY`.
    #[verifier::type_invariant]
    spec fn within_capacity(self) -> bool {
        &&& result_map_entries(self.data).dom().finite()
        &&& result_map_entries(self.data).len() <= RESULT_CAPACITY
    }

    /// Create a new result container.
    pub fn new() -> (res: Self)
        ensures
            res@ == no_results(),
    {
        let data = result_map_new();
        assert(result_map_entries(data).dom() =~= Set::<u128>::empty());
        ResultContainer { data }
    }

    /// Insert a result: a later `get` of `key` gives `value`.
    pub fn insert(&mut self, key: u128, value: usize)
        requires
            old(self)@.contains_key(key) || old(self)@.len() < RESULT_CAPACITY,
        ensures
            final(self)@ == old(self)@.insert(key, value),
            final(self)@.len() <= RESULT_CAPACITY,
    {
        proof {
            use_type_invariant(&*self);
        }
        let mut data = result_map_new();
        assert(result_map_entries(data).dom() =~= Set::<u128>::empty());
        std::mem::swap(&mut data, &mut self.data);
        match result_map_insert(&mut data, key, value) {
            Ok(_) => {},
            Err(_) => {
                assert(false);
            },
        }
        proof {
            if old(self)@.contains_key(key) {
                assert(result_map_entries(data).dom() =~= result_map_entries(old(self).data).dom());
            } else {
                assert(result_map_entries(data).dom() =~= result_map_entries(old(self).data).dom().insert(key));
            }
        }
        self.data = data;
    }

    /// Check if a result is present.
    pub fn contains_key(&self, key: &u128) -> (res: bool)
        ensures
            res == self@.contains_key(*key),
    {
        result_map_contains_key(&self.data, key)
    }

    /// Get a result.
    pub fn get(&self, key: &u128) -> (res: Option<usize>)
        ensures
            res == lookup(self@, *key),
    {
        result_map_get(&self.data, key)
    }
}

/// Store syscall results to be used by later syscalls, with no bound on
/// their number: an ordered map (`BTreeMap`) keyed by the ids of the
/// results, for harnesses that can allocate.
pub struct UnboundedResultContainer {
    data: BTreeMap<u128, usize>,
}

impl View for UnboundedResultContainer {
    type V = Map<u128, usize>;

    closed spec fn view(&self) -> Map<u128, usize> {
        self.data@
    }
}

impl UnboundedResultContainer {
    /// Create a new result container.
    pub fn new() -> (res: Self)
        ensures
            res@ == no_results(),
    {
        UnboundedResultContainer { data: BTreeMap::new() }
    }

    /// Insert a result: a later `get` of `key` gives `value`.
    pub fn insert(&mut self, key: u128, value: usize)
        ensures
            final(self)@ == old(self)@.insert(key, value),
    {
        broadcast use vstd::laws_cmp::group_laws_cmp;
        self.data.insert(key, value);
    }

    /// Check if a result is present.
    pub fn contains_key(&self, key: &u128) -> (res: bool)
        ensures
            res == self@.contains_key(*key),
    {
        broadcast use vstd::laws_cmp::group_laws_cmp;
        broadcast use vstd::std_specs::btree::group_btree_axioms;
        self.data.contains_key(key)
    }

    /// Get a result.
    pub fn get(&self, key: &u128) -> (res: Option<usize>)
        ensures
            res == lookup(self@, *key),
    {
        broadcast use vstd::laws_cmp::group_laws_cmp;
        broadcast use vstd::std_specs::btree::group_btree_axioms;
        match self.data.get(key) {
            Some(v) => Some(*v),
            None => None,
        }
    }
}

} // verus!
