//! A task's address space, seen as a table from virtual page numbers to the
//! permission bits of the page mapped there.
use std::collections::HashMap;
use vstd::prelude::*;

use crate::config::PAGE_SIZE;

verus! {

broadcast use vstd::std_specs::hash::group_hash_axioms;

/// The page number that holds address `a`.
pub open spec fn page_floor(a: int) -> int {
    a / (PAGE_SIZE as int)
}

/// The first page number at or above address `a`.
pub open spec fn page_ceil(a: int) -> int {
    if a == 0 {
        0
    } else {
        (a - 1) / (PAGE_SIZE as int) + 1
    }
}

/// `m` with every page of `[start, end)` mapped with `perm`.
pub open spec fn pages_mapped(m: Map<usize, u8>, start: int, end: int, perm: u8) -> Map<usize, u8> {
    m.union_prefer_right(Map::new(|v: usize| start <= v < end, |v: usize| perm))
}

/// `m` with every page of `[start, end)` removed.
pub open spec fn pages_unmapped(m: Map<usize, u8>, start: int, end: int) -> Map<usize, u8> {
    m.remove_keys(Set::new(|v: usize| start <= v < end))
}

/// No page of `[start, end)` is mapped in `m`.
pub open spec fn range_free(m: Map<usize, u8>, start: int, end: int) -> bool {
    forall|v: usize| start <= v < end ==> !#[trigger] m.contains_key(v)
}

/// Every page of `[start, end)` is mapped in `m`.
pub open spec fn range_full(m: Map<usize, u8>, start: int, end: int) -> bool {
    forall|v: usize| start <= v < end ==> #[trigger] m.contains_key(v)
}

/// Page table of one address space.
pub struct MemorySet {
    token: usize,
    pages: HashMap<usize, u8>,
}

impl View for MemorySet {
    type V = Map<usize, u8>;

    closed spec fn view(&self) -> Map<usize, u8> {
        self.pages@
    }
}

impl MemorySet {
    /// Identifier of the page-table root, handed to the trap layer.
    pub closed spec fn spec_token(&self) -> usize {
        self.token
    }

    /// An address space with no page mapped, whose root is `token`.
    pub fn new(token: usize) -> (r: MemorySet)
        ensures
            r@ == Map::<usize, u8>::empty(),
            r.spec_token() == token,
    {
        MemorySet { token, pages: HashMap::new() }
    }

    pub fn token(&self) -> (r: usize)
        ensures
            r == self.spec_token(),
    {
        self.token
    }

    /// The permission bits of page `vpn`, if it is mapped.
    pub fn translate(&self, vpn: usize) -> (r: Option<u8>)
        ensures
            r == (if self@.contains_key(vpn) { Some(self@[vpn]) } else { None::<u8> }),
    {
        match self.pages.get(&vpn) {
            Some(p) => Some(*p),
            None => None,
        }
    }

    /// Whether no page of `[start_vpn, end_vpn)` is mapped.
    pub fn is_range_free(&self, start_vpn: usize, end_vpn: usize) -> (r: bool)
        ensures
            r == range_free(self@, start_vpn as int, end_vpn as int),
    {
        let mut vpn: usize = start_vpn;
        while vpn < end_vpn
            invariant
                start_vpn <= vpn,
                vpn <= end_vpn || vpn == start_vpn,
                range_free(self@, start_vpn as int, vpn as int),
            decreases end_vpn - vpn,
        {
            if self.translate(vpn).is_some() {
                assert(self@.contains_key(vpn));
                return false;
            }
            vpn = vpn + 1;
        }
        true
    }

    /// Whether every page of `[start_vpn, end_vpn)` is mapped.
    pub fn is_range_full(&self, start_vpn: usize, end_vpn: usize) -> (r: bool)
        ensures
            r == range_full(self@, start_vpn as int, end_vpn as int),
    {
        let mut vpn: usize = start_vpn;
        while vpn < end_vpn
            invariant
                start_vpn <= vpn,
                vpn <= end_vpn || vpn == start_vpn,
                range_full(self@, start_vpn as int, vpn as int),
            decreases end_vpn - vpn,
        {
            if self.translate(vpn).is_none() {
                assert(!self@.contains_key(vpn));
                return false;
            }
            vpn = vpn + 1;
        }
        true
    }

    /// Maps every page of `[start_vpn, end_vpn)` with `perm`.
    pub fn insert_framed_area(&mut self, start_vpn: usize, end_vpn: usize, perm: u8)
        ensures
            final(self)@ == pages_mapped(old(self)@, start_vpn as int, end_vpn as int, perm),
            final(self).spec_token() == old(self).spec_token(),
    {
        let mut vpn: usize = start_vpn;
        while vpn < end_vpn
            invariant
                start_vpn <= vpn,
                vpn <= end_vpn || vpn == start_vpn,
                self@ == pages_mapped(old(self)@, start_vpn as int, vpn as int, perm),
                self.spec_token() == old(self).spec_token(),
            decreases end_vpn - vpn,
        {
            self.pages.insert(vpn, perm);
            vpn = vpn + 1;
            assert(self@ =~= pages_mapped(old(self)@, start_vpn as int, vpn as int, perm));
        }
        assert(self@ =~= pages_mapped(old(self)@, start_vpn as int, end_vpn as int, perm));
    }

    /// Removes every page of `[start_vpn, end_vpn)`.
    pub fn unmap(&mut self, start_vpn: usize, end_vpn: usize)
        ensures
            final(self)@ == pages_unmapped(old(self)@, start_vpn as int, end_vpn as int),
            final(self).spec_token() == old(self).spec_token(),
    {
        let mut vpn: usize = start_vpn;
        while vpn < end_vpn
            invariant
                start_vpn <= vpn,
                vpn <= end_vpn || vpn == start_vpn,
                self@ == pages_unmapped(old(self)@, start_vpn as int, vpn as int),
                self.spec_token() == old(self).spec_token(),
            decreases end_vpn - vpn,
        {
            self.pages.remove(&vpn);
            vpn = vpn + 1;
            assert(self@ =~= pages_unmapped(old(self)@, start_vpn as int, vpn as int));
        }
        assert(self@ =~= pages_unmapped(old(self)@, start_vpn as int, end_vpn as int));
    }
}

} // verus!
