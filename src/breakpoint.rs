//! A set of program-counter addresses at which execution should pause.
use std::collections::HashSet;
use vstd::prelude::*;

verus! {

broadcast use vstd::std_specs::hash::group_hash_axioms;

/// An unordered set of 16-bit breakpoint addresses.
pub struct BreakpointManager {
    breakpoints: HashSet<u16>,
}

impl View for BreakpointManager {
    type V = Set<u16>;

    closed spec fn view(&self) -> Set<u16> {
        self.breakpoints@
    }
}

impl Default for BreakpointManager {
    fn default() -> (r: Self)
        ensures
            r@ == Set::<u16>::empty(),
    {
        BreakpointManager::new()
    }
}

impl BreakpointManager {
    /// An empty set of breakpoints.
    pub fn new() -> (r: Self)
        ensures
            r@ == Set::<u16>::empty(),
    {
        BreakpointManager { breakpoints: HashSet::new() }
    }

    pub fn add_breakpoint(&mut self, address: u16)
        ensures
            final(self)@ == old(self)@.insert(address),
    {
        self.breakpoints.insert(address);
    }

    pub fn remove_breakpoint(&mut self, address: u16)
        ensures
            final(self)@ == old(self)@.remove(address),
    {
        self.breakpoints.remove(&address);
    }

    pub fn has_breakpoint(&self, address: u16) -> (r: bool)
        ensures
            r == self@.contains(address),
    {
        self.breakpoints.contains(&address)
    }

    pub fn len(&self) -> (r: usize)
        ensures
            r == self@.len(),
    {
        self.breakpoints.len()
    }

    pub fn clear(&mut self)
        ensures
            final(self)@ == Set::<u16>::empty(),
    {
        self.breakpoints.clear();
    }
}

} // verus!
