//! The orchestrator: decides which classified discoveries are net-new
//! against the dedup state and, when a fuzz mode is active, extends them
//! with fuzz candidates filtered the same way.

use vstd::prelude::*;
use vstd::string::*;

use crate::crawler::CrawlResult;
use crate::crawler::CrawlResultModel;
use crate::fuzz::spec_dedup;
use crate::fuzz::spec_product;
use crate::js_fuzz::JsFuzzer;
use crate::js_fuzz::spec_js_fuzz_bases;
use crate::state::State;
use crate::state::StateModel;
use crate::url_fuzz::UrlFuzzer;
use crate::url_fuzz::spec_url_fuzz_bases;
use crate::urlparse::url_ok;

verus! {

/// The set after every item was offered to the insert-check operation.
pub open spec fn spec_set_after(items: Seq<Seq<char>>, s: Set<Seq<char>>) -> Set<Seq<char>>
    decreases items.len(),
{
    if items.len() == 0 {
        s
    } else {
        spec_set_after(items.drop_last(), s).insert(items.last())
    }
}

/// The items the insert-check operation reports as new, in order: each item
/// kept exactly when neither the starting set nor an earlier item already
/// holds it.
pub open spec fn spec_new_items(items: Seq<Seq<char>>, s: Set<Seq<char>>) -> Seq<Seq<char>>
    decreases items.len(),
{
    if items.len() == 0 {
        Seq::empty()
    } else {
        let rest = spec_new_items(items.drop_last(), s);
        if spec_set_after(items.drop_last(), s).contains(items.last()) {
            rest
        } else {
            rest.push(items.last())
        }
    }
}

/// Offers every item to the visited set; the new ones go to `out` in order.
fn take_new_pages(state: &mut State, items: &Vec<String>, out: &mut Vec<String>)
    ensures
        final(state)@.visited == spec_set_after(items.deep_view(), old(state)@.visited),
        final(state)@.js == old(state)@.js,
        final(state)@.fuzz == old(state)@.fuzz,
        final(out).deep_view() == old(out).deep_view() + spec_new_items(
            items.deep_view(),
            old(state)@.visited,
        ),
{
    let ghost s0 = state@.visited;
    let ghost base = out.deep_view();
    let n = items.len();
    let mut i: usize = 0;
    proof {
        assert(items.deep_view().subrange(0, 0) =~= Seq::<Seq<char>>::empty());
        assert(base + spec_new_items(items.deep_view().subrange(0, 0), s0) =~= base);
    }
    while i < n
        invariant
            i <= n,
            n == items.len(),
            state@.visited == spec_set_after(items.deep_view().subrange(0, i as int), s0),
            state@.js == old(state)@.js,
            state@.fuzz == old(state)@.fuzz,
            out.deep_view() == base + spec_new_items(items.deep_view().subrange(0, i as int), s0),
        decreases n - i,
    {
        proof {
            assert(items.deep_view().subrange(0, i + 1).drop_last() =~= items.deep_view().subrange(
                0,
                i as int,
            ));
            assert(items.deep_view()[i as int] == items@[i as int]@);
        }
        let item = &items[i];
        let ghost pre = out.deep_view();
        if state.add_visited_url(item.clone()) {
            out.push(item.clone());
            proof {
                assert(out.deep_view() =~= pre.push(items.deep_view()[i as int]));
            }
        }
        proof {
            assert(out.deep_view() =~= base + spec_new_items(
                items.deep_view().subrange(0, i + 1),
                s0,
            ));
        }
        i = i + 1;
    }
    proof {
        assert(items.deep_view().subrange(0, n as int) =~= items.deep_view());
    }
}

/// Offers every item to the JS set; the new ones go to `out` in order.
fn take_new_js(state: &mut State, items: &Vec<String>, out: &mut Vec<String>)
    ensures
        final(state)@.js == spec_set_after(items.deep_view(), old(state)@.js),
        final(state)@.visited == old(state)@.visited,
        final(state)@.fuzz == old(state)@.fuzz,
        final(out).deep_view() == old(out).deep_view() + spec_new_items(
            items.deep_view(),
            old(state)@.js,
        ),
{
    let ghost s0 = state@.js;
    let ghost base = out.deep_view();
    let n = items.len();
    let mut i: usize = 0;
    proof {
        assert(items.deep_view().subrange(0, 0) =~= Seq::<Seq<char>>::empty());
        assert(base + spec_new_items(items.deep_view().subrange(0, 0), s0) =~= base);
    }
    while i < n
        invariant
            i <= n,
            n == items.len(),
            state@.js == spec_set_after(items.deep_view().subrange(0, i as int), s0),
            state@.visited == old(state)@.visited,
            state@.fuzz == old(state)@.fuzz,
            out.deep_view() == base + spec_new_items(items.deep_view().subrange(0, i as int), s0),
        decreases n - i,
    {
        proof {
            assert(items.deep_view().subrange(0, i + 1).drop_last() =~= items.deep_view().subrange(
                0,
                i as int,
            ));
            assert(items.deep_view()[i as int] == items@[i as int]@);
        }
        let item = &items[i];
        let ghost pre = out.deep_view();
        if state.add_js_url(item.clone()) {
            out.push(item.clone());
            proof {
                assert(out.deep_view() =~= pre.push(items.deep_view()[i as int]));
            }
        }
        proof {
            assert(out.deep_view() =~= base + spec_new_items(
                items.deep_view().subrange(0, i + 1),
                s0,
            ));
        }
        i = i + 1;
    }
    proof {
        assert(items.deep_view().subrange(0, n as int) =~= items.deep_view());
    }
}

/// Offers every item to the fuzz set; the new ones go to `out` in order.
fn take_new_fuzz(state: &mut State, items: &Vec<String>, out: &mut Vec<String>)
    ensures
        final(state)@.fuzz == spec_set_after(items.deep_view(), old(state)@.fuzz),
        final(state)@.visited == old(state)@.visited,
        final(state)@.js == old(state)@.js,
        final(out).deep_view() == old(out).deep_view() + spec_new_items(
            items.deep_view(),
            old(state)@.fuzz,
        ),
{
    let ghost s0 = state@.fuzz;
    let ghost base = out.deep_view();
    let n = items.len();
    let mut i: usize = 0;
    proof {
        assert(items.deep_view().subrange(0, 0) =~= Seq::<Seq<char>>::empty());
        assert(base + spec_new_items(items.deep_view().subrange(0, 0), s0) =~= base);
    }
    while i < n
        invariant
            i <= n,
            n == items.len(),
            state@.fuzz == spec_set_after(items.deep_view().subrange(0, i as int), s0),
            state@.visited == old(state)@.visited,
            state@.js == old(state)@.js,
            out.deep_view() == base + spec_new_items(items.deep_view().subrange(0, i as int), s0),
        decreases n - i,
    {
        proof {
            assert(items.deep_view().subrange(0, i + 1).drop_last() =~= items.deep_view().subrange(
                0,
                i as int,
            ));
            assert(items.deep_view()[i as int] == items@[i as int]@);
        }
        let item = &items[i];
        let ghost pre = out.deep_view();
        if state.add_fuzz_url(item.clone()) {
            out.push(item.clone());
            proof {
                assert(out.deep_view() =~= pre.push(items.deep_view()[i as int]));
            }
        }
        proof {
            assert(out.deep_view() =~= base + spec_new_items(
                items.deep_view().subrange(0, i + 1),
                s0,
            ));
        }
        i = i + 1;
    }
    proof {
        assert(items.deep_view().subrange(0, n as int) =~= items.deep_view());
    }
}

/// What the URL fuzzer yields for one result, fallback target the result's
/// own URL and no fallback domain.
pub open spec fn spec_url_fuzz_candidates(r: CrawlResultModel, paths: Seq<Seq<char>>) -> Seq<
    Seq<char>,
> {
    if !url_ok(r.url) {
        Seq::empty()
    } else {
        spec_product(spec_dedup(spec_url_fuzz_bases(seq![r])), paths)
    }
}

/// What the JS fuzzer yields for one result.
pub open spec fn spec_js_fuzz_candidates(r: CrawlResultModel, paths: Seq<Seq<char>>) -> Seq<
    Seq<char>,
> {
    spec_product(spec_dedup(spec_js_fuzz_bases(seq![r])), paths)
}

/// Whether the URL-fuzz step runs: a URL fuzz mode is active and the fetch
/// came back 404.
pub open spec fn spec_url_fuzz_active(fuzz_mode: Option<u8>, status: u16) -> bool {
    (fuzz_mode == Some(1u8) || fuzz_mode == Some(3u8)) && status == 404
}

/// Whether the JS-fuzz step runs: a JS fuzz mode is active, regardless of
/// status.
pub open spec fn spec_js_fuzz_active(fuzz_mode: Option<u8>) -> bool {
    fuzz_mode == Some(2u8) || fuzz_mode == Some(3u8)
}

/// The orchestration in the abstract: which URLs one processed result emits,
/// and the dedup state afterwards.  The result's own URL is marked visited
/// first; page URLs count from mode 1 up, JS URLs from mode 2 up; the
/// URL-fuzz step is gated on status 404, the JS-fuzz step is not.
pub open spec fn spec_process(
    m0: StateModel,
    r: CrawlResultModel,
    mode: u8,
    fuzz_mode: Option<u8>,
    url_paths: Seq<Seq<char>>,
    js_paths: Seq<Seq<char>>,
) -> (Seq<Seq<char>>, StateModel) {
    let v0 = m0.visited.insert(r.url);
    let page_items = if 1 <= mode && mode <= 3 {
        r.urls
    } else {
        Seq::empty()
    };
    let js_items = if 2 <= mode && mode <= 3 {
        r.js_urls
    } else {
        Seq::empty()
    };
    let url_cands = if spec_url_fuzz_active(fuzz_mode, r.status) {
        spec_url_fuzz_candidates(r, url_paths)
    } else {
        Seq::empty()
    };
    let js_cands = if spec_js_fuzz_active(fuzz_mode) {
        spec_js_fuzz_candidates(r, js_paths)
    } else {
        Seq::empty()
    };
    let f1 = spec_set_after(url_cands, m0.fuzz);
    let out = spec_new_items(page_items, v0) + spec_new_items(js_items, m0.js) + spec_new_items(
        url_cands,
        m0.fuzz,
    ) + spec_new_items(js_cands, f1);
    let m1 = StateModel {
        visited: spec_set_after(page_items, v0),
        js: spec_set_after(js_items, m0.js),
        fuzz: spec_set_after(js_cands, f1),
    };
    (out, m1)
}

/// Fuzz gating: under the URL-only fuzz mode, a status other than 404 runs
/// no fuzz step at all — the fuzz set is untouched and the output is exactly
/// what processing without any fuzz mode emits.
pub proof fn lemma_fuzz_gating(
    m0: StateModel,
    r: CrawlResultModel,
    mode: u8,
    url_paths: Seq<Seq<char>>,
    js_paths: Seq<Seq<char>>,
)
    requires
        r.status != 404,
    ensures
        spec_process(m0, r, mode, Some(1u8), url_paths, js_paths).1.fuzz == m0.fuzz,
        spec_process(m0, r, mode, Some(1u8), url_paths, js_paths).0 == spec_process(
            m0,
            r,
            mode,
            None,
            url_paths,
            js_paths,
        ).0,
        spec_process(m0, r, mode, Some(1u8), url_paths, js_paths).1 == spec_process(
            m0,
            r,
            mode,
            None,
            url_paths,
            js_paths,
        ).1,
{
    assert(!spec_url_fuzz_active(Some(1u8), r.status));
    assert(!spec_js_fuzz_active(Some(1u8)));
    assert(spec_process(m0, r, mode, Some(1u8), url_paths, js_paths).0 =~= spec_process(
        m0,
        r,
        mode,
        None,
        url_paths,
        js_paths,
    ).0);
    assert(spec_process(m0, r, mode, Some(1u8), url_paths, js_paths).1 =~= spec_process(
        m0,
        r,
        mode,
        None,
        url_paths,
        js_paths,
    ).1);
}

/// The orchestrator: owns the dedup state and the two fuzz generators.
pub struct Mode {
    state: State,
    js_fuzzer: JsFuzzer,
    url_fuzzer: UrlFuzzer,
}

impl Mode {
    /// The current dedup state, in the abstract.
    pub closed spec fn spec_state(&self) -> StateModel {
        self.state@
    }

    /// The configured URL fuzz path suffixes.
    pub closed spec fn spec_url_paths(&self) -> Seq<Seq<char>> {
        self.url_fuzzer.spec_fuzz_paths()
    }

    /// The configured JS fuzz path suffixes.
    pub closed spec fn spec_js_paths(&self) -> Seq<Seq<char>> {
        self.js_fuzzer.spec_fuzz_paths()
    }

    /// Wires the orchestrator up from its parts.
    pub fn new(state: State, js_fuzzer: JsFuzzer, url_fuzzer: UrlFuzzer) -> (r: Mode)
        ensures
            r.spec_state() == state@,
            r.spec_js_paths() == js_fuzzer.spec_fuzz_paths(),
            r.spec_url_paths() == url_fuzzer.spec_fuzz_paths(),
    {
        Mode { state, js_fuzzer, url_fuzzer }
    }

    /// Whether this result carries sensitive findings worth notifying about:
    /// only the deepest mode extracts them, and only a non-empty list counts.
    pub fn has_findings(result: &CrawlResult, mode: u8) -> (r: bool)
        ensures
            r == (mode == 3 && result@.sensitive_info.len() > 0),
    {
        mode == 3 && result.sensitive_info.len() > 0
    }

    /// Processes one classified result: marks its URL visited, emits the
    /// net-new discoveries for the active mode, and, under an active fuzz
    /// mode, the net-new fuzz candidates.
    pub fn process(&mut self, result: &CrawlResult, mode: u8, fuzz_mode: Option<u8>) -> (r: Vec<
        String,
    >)
        ensures
            r.deep_view() == spec_process(
                old(self).spec_state(),
                result@,
                mode,
                fuzz_mode,
                old(self).spec_url_paths(),
                old(self).spec_js_paths(),
            ).0,
            final(self).spec_state() == spec_process(
                old(self).spec_state(),
                result@,
                mode,
                fuzz_mode,
                old(self).spec_url_paths(),
                old(self).spec_js_paths(),
            ).1,
            final(self).spec_url_paths() == old(self).spec_url_paths(),
            final(self).spec_js_paths() == old(self).spec_js_paths(),
    {
        let ghost m0 = self.state@;
        let mut out: Vec<String> = Vec::new();
        let empty_items: Vec<String> = Vec::new();
        proof {
            assert(out.deep_view() =~= Seq::<Seq<char>>::empty());
            assert(empty_items.deep_view() =~= Seq::<Seq<char>>::empty());
        }
        self.state.add_visited_url(result.url.clone());
        if 1 <= mode && mode <= 3 {
            take_new_pages(&mut self.state, &result.urls, &mut out);
        } else {
            take_new_pages(&mut self.state, &empty_items, &mut out);
        }
        if 2 <= mode && mode <= 3 {
            take_new_js(&mut self.state, &result.js_urls, &mut out);
        } else {
            take_new_js(&mut self.state, &empty_items, &mut out);
        }
        let url_fuzz_on = match fuzz_mode {
            Some(f) => (f == 1 || f == 3) && result.status == 404,
            None => false,
        };
        if url_fuzz_on {
            let one = vec![result.duplicate()];
            proof {
                assert(one.deep_view() =~= seq![result@]);
            }
            let cands = self.url_fuzzer.fuzz(one.as_slice(), result.url.as_str(), None);
            proof {
                assert(cands.deep_view() == spec_url_fuzz_candidates(
                    result@,
                    self.url_fuzzer.spec_fuzz_paths(),
                ));
            }
            take_new_fuzz(&mut self.state, &cands, &mut out);
        } else {
            take_new_fuzz(&mut self.state, &empty_items, &mut out);
        }
        let js_fuzz_on = match fuzz_mode {
            Some(f) => f == 2 || f == 3,
            None => false,
        };
        if js_fuzz_on {
            let one = vec![result.duplicate()];
            proof {
                assert(one.deep_view() =~= seq![result@]);
            }
            let cands = self.js_fuzzer.fuzz(one.as_slice());
            take_new_fuzz(&mut self.state, &cands, &mut out);
        } else {
            take_new_fuzz(&mut self.state, &empty_items, &mut out);
        }
        proof {
            let spec_out = spec_process(
                m0,
                result@,
                mode,
                fuzz_mode,
                self.url_fuzzer.spec_fuzz_paths(),
                self.js_fuzzer.spec_fuzz_paths(),
            ).0;
            assert(out.deep_view() =~= spec_out);
            assert(self.state@ =~= spec_process(
                m0,
                result@,
                mode,
                fuzz_mode,
                self.url_fuzzer.spec_fuzz_paths(),
                self.js_fuzzer.spec_fuzz_paths(),
            ).1);
        }
        out
    }
}

} // verus!
