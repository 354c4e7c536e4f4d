//! The run-wide dedup state: three independent membership sets of URLs.
//!
//! Entries are only ever added, never removed; each check-and-insert is one
//! operation, so a URL is classified as new by at most one caller.

use vstd::hash_set::StringHashSet;
use vstd::prelude::*;

verus! {

/// The abstract value of the dedup state: three independent sets.
#[verifier::ext_equal]
pub struct StateModel {
    pub visited: Set<Seq<char>>,
    pub js: Set<Seq<char>>,
    pub fuzz: Set<Seq<char>>,
}

/// What the insert-check operation reports for `u` against `s`: true exactly
/// when `u` was not yet a member.
pub open spec fn spec_insert_is_new(s: Set<Seq<char>>, u: Seq<char>) -> bool {
    !s.contains(u)
}

/// The set after the insert-check operation.
pub open spec fn spec_after_insert(s: Set<Seq<char>>, u: Seq<char>) -> Set<Seq<char>> {
    s.insert(u)
}

/// The dedup state shared by every fetch of a run.
pub struct State {
    visited_urls: StringHashSet,
    js_urls: StringHashSet,
    fuzz_urls: StringHashSet,
}

impl View for State {
    type V = StateModel;

    closed spec fn view(&self) -> StateModel {
        StateModel { visited: self.visited_urls@, js: self.js_urls@, fuzz: self.fuzz_urls@ }
    }
}

impl State {
    /// Fresh state: every set empty.
    pub fn new() -> (r: State)
        ensures
            r@.visited == Set::<Seq<char>>::empty(),
            r@.js == Set::<Seq<char>>::empty(),
            r@.fuzz == Set::<Seq<char>>::empty(),
    {
        State {
            visited_urls: StringHashSet::new(),
            js_urls: StringHashSet::new(),
            fuzz_urls: StringHashSet::new(),
        }
    }

    /// Check-and-insert on the visited set: true exactly when `url` is new.
    pub fn add_visited_url(&mut self, url: String) -> (r: bool)
        ensures
            r == spec_insert_is_new(old(self)@.visited, url@),
            final(self)@.visited == spec_after_insert(old(self)@.visited, url@),
            final(self)@.js == old(self)@.js,
            final(self)@.fuzz == old(self)@.fuzz,
    {
        self.visited_urls.insert(url)
    }

    /// Membership in the visited set.
    pub fn is_visited(&self, url: &str) -> (r: bool)
        ensures
            r == self@.visited.contains(url@),
    {
        self.visited_urls.contains(url)
    }

    /// Check-and-insert on the JS set: true exactly when `url` is new.
    pub fn add_js_url(&mut self, url: String) -> (r: bool)
        ensures
            r == spec_insert_is_new(old(self)@.js, url@),
            final(self)@.js == spec_after_insert(old(self)@.js, url@),
            final(self)@.visited == old(self)@.visited,
            final(self)@.fuzz == old(self)@.fuzz,
    {
        self.js_urls.insert(url)
    }

    /// Membership in the JS set.
    pub fn is_js_visited(&self, url: &str) -> (r: bool)
        ensures
            r == self@.js.contains(url@),
    {
        self.js_urls.contains(url)
    }

    /// Check-and-insert on the fuzz set: true exactly when `url` is new.
    pub fn add_fuzz_url(&mut self, url: String) -> (r: bool)
        ensures
            r == spec_insert_is_new(old(self)@.fuzz, url@),
            final(self)@.fuzz == spec_after_insert(old(self)@.fuzz, url@),
            final(self)@.visited == old(self)@.visited,
            final(self)@.js == old(self)@.js,
    {
        self.fuzz_urls.insert(url)
    }

    /// Membership in the fuzz set.
    pub fn is_fuzz_visited(&self, url: &str) -> (r: bool)
        ensures
            r == self@.fuzz.contains(url@),
    {
        self.fuzz_urls.contains(url)
    }

    /// The number of distinct visited URLs.
    pub fn get_visited_count(&self) -> (r: usize)
        ensures
            r == self@.visited.len(),
    {
        self.visited_urls.len()
    }

    /// The number of distinct JS URLs.
    pub fn get_js_count(&self) -> (r: usize)
        ensures
            r == self@.js.len(),
    {
        self.js_urls.len()
    }

    /// The number of distinct fuzz URLs.
    pub fn get_fuzz_count(&self) -> (r: usize)
        ensures
            r == self@.fuzz.len(),
    {
        self.fuzz_urls.len()
    }
}

/// Dedup idempotence: once `u` is inserted, a second insert-check of `u`
/// reports it seen, leaves the set unchanged, and `u` is a member after
/// either call.
pub proof fn lemma_dedup_idempotent(s: Set<Seq<char>>, u: Seq<char>)
    ensures
        spec_insert_is_new(spec_after_insert(s, u), u) == false,
        spec_after_insert(s, u).contains(u),
        spec_after_insert(spec_after_insert(s, u), u) =~= spec_after_insert(s, u),
{
}

/// The JS-set transition of the state, in the abstract.
pub open spec fn spec_after_add_js(m: StateModel, u: Seq<char>) -> StateModel {
    StateModel { js: spec_after_insert(m.js, u), ..m }
}

/// Set independence: inserting `u` into the JS set changes neither the
/// visited set nor membership of any URL in it.
pub proof fn lemma_set_independence(m: StateModel, u: Seq<char>, w: Seq<char>)
    ensures
        spec_after_add_js(m, u).visited == m.visited,
        spec_after_add_js(m, u).visited.contains(w) == m.visited.contains(w),
        spec_after_add_js(m, u).fuzz == m.fuzz,
{
}

} // verus!
