//! Filter criteria for port listings: free-text search, an inclusive port
//! range, process-type membership, and the favorites / watched restrictions,
//! composed into an order-preserving `filter_ports` pipeline.

use std::collections::HashSet;

use vstd::prelude::*;
use vstd::string::*;

use crate::port_info::PortInfo;
use crate::port_info::ProcessType;
use crate::port_info::WatchedPort;
use crate::port_info::spec_classify;
use crate::port_info::spec_matches_search;
use crate::port_info::watched_contains_port;

verus! {

broadcast use vstd::std_specs::hash::group_hash_axioms;

/// The set of process types a filter admits. Both the empty set and the full
/// set mean "no restriction": the default is the full set, and `matches`
/// treats emptiness as completeness.
#[derive(Clone, Copy, PartialEq, Eq, Structural, Debug)]
pub struct ProcessTypeSet {
    pub web_server: bool,
    pub database: bool,
    pub language_runtime: bool,
    pub unknown: bool,
}

impl ProcessTypeSet {
    pub open spec fn spec_contains(self, t: ProcessType) -> bool {
        match t {
            ProcessType::WebServer => self.web_server,
            ProcessType::Database => self.database,
            ProcessType::LanguageRuntime => self.language_runtime,
            ProcessType::Unknown => self.unknown,
        }
    }

    pub open spec fn spec_is_empty(self) -> bool {
        !self.web_server && !self.database && !self.language_runtime && !self.unknown
    }

    pub open spec fn spec_is_full(self) -> bool {
        self.web_server && self.database && self.language_runtime && self.unknown
    }

    /// The set admitting no process type.
    pub fn empty() -> (r: Self)
        ensures
            r.spec_is_empty(),
            forall|t: ProcessType| !r.spec_contains(t),
    {
        ProcessTypeSet { web_server: false, database: false, language_runtime: false, unknown: false }
    }

    /// The set admitting every process type.
    pub fn full() -> (r: Self)
        ensures
            r.spec_is_full(),
            forall|t: ProcessType| r.spec_contains(t),
    {
        ProcessTypeSet { web_server: true, database: true, language_runtime: true, unknown: true }
    }

    pub fn contains(&self, t: ProcessType) -> (r: bool)
        ensures
            r == self.spec_contains(t),
    {
        match t {
            ProcessType::WebServer => self.web_server,
            ProcessType::Database => self.database,
            ProcessType::LanguageRuntime => self.language_runtime,
            ProcessType::Unknown => self.unknown,
        }
    }

    pub fn insert(&mut self, t: ProcessType)
        ensures
            final(self).spec_contains(t),
            forall|u: ProcessType| u != t ==> final(self).spec_contains(u) == old(
                self,
            ).spec_contains(u),
    {
        match t {
            ProcessType::WebServer => self.web_server = true,
            ProcessType::Database => self.database = true,
            ProcessType::LanguageRuntime => self.language_runtime = true,
            ProcessType::Unknown => self.unknown = true,
        }
    }

    pub fn is_empty(&self) -> (r: bool)
        ensures
            r == self.spec_is_empty(),
    {
        !self.web_server && !self.database && !self.language_runtime && !self.unknown
    }

    pub fn is_full(&self) -> (r: bool)
        ensures
            r == self.spec_is_full(),
    {
        self.web_server && self.database && self.language_runtime && self.unknown
    }
}

/// The full set of known process types, the default restriction (meaning: no
/// restriction).
pub fn all_process_types() -> (r: ProcessTypeSet)
    ensures
        r.spec_is_full(),
{
    ProcessTypeSet::full()
}

/// Filter criteria for port listings. Every mutator returns a new value;
/// a filter is immutable-by-replacement and reusable across tables.
pub struct PortFilter {
    /// Text to search across port info fields; empty means no text filter.
    pub search_text: String,
    /// Minimum port number, inclusive.
    pub min_port: Option<u16>,
    /// Maximum port number, inclusive.
    pub max_port: Option<u16>,
    /// Process types to include; the empty set and the full set both admit
    /// every record.
    pub process_types: ProcessTypeSet,
    /// Only show favorite ports.
    pub show_only_favorites: bool,
    /// Only show watched ports.
    pub show_only_watched: bool,
}

/// The zero-value default: no text, no bounds, the full type set, no
/// favorites or watched restriction.
pub open spec fn is_default_filter(f: PortFilter) -> bool {
    &&& f.search_text@ == Seq::<char>::empty()
    &&& f.min_port is None
    &&& f.max_port is None
    &&& f.process_types.spec_is_full()
    &&& !f.show_only_favorites
    &&& !f.show_only_watched
}

/// A filter is active when any field deviates from the default.
pub open spec fn spec_is_active(f: PortFilter) -> bool {
    ||| f.search_text@.len() > 0
    ||| f.min_port is Some
    ||| f.max_port is Some
    ||| !f.process_types.spec_is_full()
    ||| f.show_only_favorites
    ||| f.show_only_watched
}

/// A record passes the filter when every criterion admits it: search text,
/// minimum bound, maximum bound, type membership, favorites, watched.
pub open spec fn spec_matches(
    f: PortFilter,
    p: PortInfo,
    favorites: Set<u16>,
    watched: Seq<WatchedPort>,
) -> bool {
    &&& (f.search_text@.len() > 0 ==> spec_matches_search(p, f.search_text@))
    &&& (f.min_port matches Some(m) ==> p.port >= m)
    &&& (f.max_port matches Some(m) ==> p.port <= m)
    &&& (!f.process_types.spec_is_empty() ==> f.process_types.spec_contains(
        spec_classify(p.process_name@),
    ))
    &&& (f.show_only_favorites ==> favorites.contains(p.port))
    &&& (f.show_only_watched ==> watched_contains_port(watched, p.port))
}

impl Default for PortFilter {
    fn default() -> (r: Self)
        ensures
            is_default_filter(r),
    {
        PortFilter {
            search_text: String::new(),
            min_port: None,
            max_port: None,
            process_types: ProcessTypeSet::full(),
            show_only_favorites: false,
            show_only_watched: false,
        }
    }
}

impl PortFilter {
    /// Create a new filter with default settings (no filtering).
    pub fn new() -> (r: Self)
        ensures
            is_default_filter(r),
    {
        Self::default()
    }

    /// Check if the filter has any active conditions.
    pub fn is_active(&self) -> (r: bool)
        ensures
            r == spec_is_active(*self),
    {
        !self.search_text.as_str().is_empty() || self.min_port.is_some() || self.max_port.is_some()
            || !self.process_types.is_full() || self.show_only_favorites || self.show_only_watched
    }

    /// Check if a port matches all filter criteria.
    pub fn matches(&self, port: &PortInfo, favorites: &HashSet<u16>, watched: &[WatchedPort]) -> (r:
        bool)
        ensures
            r == spec_matches(*self, *port, favorites@, watched@),
    {
        if !self.search_text.as_str().is_empty() && !port.matches_search(
            self.search_text.as_str(),
        ) {
            return false;
        }
        match self.min_port {
            Some(min) => {
                if port.port < min {
                    return false;
                }
            },
            None => {},
        }
        match self.max_port {
            Some(max) => {
                if port.port > max {
                    return false;
                }
            },
            None => {},
        }
        if !self.process_types.is_empty() && !self.process_types.contains(port.process_type()) {
            return false;
        }
        if self.show_only_favorites && !favorites.contains(&port.port) {
            return false;
        }
        if self.show_only_watched && !watched_slice_contains(watched, port.port) {
            return false;
        }
        true
    }

    /// Reset all filter criteria to defaults.
    pub fn reset(&mut self)
        ensures
            is_default_filter(*final(self)),
    {
        *self = Self::default();
    }

    /// Set the search text.
    pub fn with_search(self, text: &str) -> (r: Self)
        ensures
            r.search_text@ == text@,
            r.min_port == self.min_port,
            r.max_port == self.max_port,
            r.process_types == self.process_types,
            r.show_only_favorites == self.show_only_favorites,
            r.show_only_watched == self.show_only_watched,
    {
        PortFilter { search_text: text.to_owned(), ..self }
    }

    /// Set the port range.
    pub fn with_port_range(self, min: Option<u16>, max: Option<u16>) -> (r: Self)
        ensures
            r.search_text == self.search_text,
            r.min_port == min,
            r.max_port == max,
            r.process_types == self.process_types,
            r.show_only_favorites == self.show_only_favorites,
            r.show_only_watched == self.show_only_watched,
    {
        PortFilter { min_port: min, max_port: max, ..self }
    }

    /// Set the allowed process types.
    pub fn with_process_types(self, types: &[ProcessType]) -> (r: Self)
        ensures
            r.search_text == self.search_text,
            r.min_port == self.min_port,
            r.max_port == self.max_port,
            forall|t: ProcessType|
                r.process_types.spec_contains(t) == exists|i: int|
                    0 <= i < types@.len() && types@[i] == t,
            r.show_only_favorites == self.show_only_favorites,
            r.show_only_watched == self.show_only_watched,
    {
        let mut set = ProcessTypeSet::empty();
        let mut i: usize = 0;
        while i < types.len()
            invariant
                i <= types@.len(),
                forall|t: ProcessType|
                    set.spec_contains(t) == exists|j: int| 0 <= j < i && types@[j] == t,
            decreases types@.len() - i,
        {
            set.insert(types[i]);
            i += 1;
        }
        PortFilter { process_types: set, ..self }
    }

    /// Enable/disable favorites-only mode.
    pub fn with_favorites_only(self, enabled: bool) -> (r: Self)
        ensures
            r.search_text == self.search_text,
            r.min_port == self.min_port,
            r.max_port == self.max_port,
            r.process_types == self.process_types,
            r.show_only_favorites == enabled,
            r.show_only_watched == self.show_only_watched,
    {
        PortFilter { show_only_favorites: enabled, ..self }
    }

    /// Enable/disable watched-only mode.
    pub fn with_watched_only(self, enabled: bool) -> (r: Self)
        ensures
            r.search_text == self.search_text,
            r.min_port == self.min_port,
            r.max_port == self.max_port,
            r.process_types == self.process_types,
            r.show_only_favorites == self.show_only_favorites,
            r.show_only_watched == enabled,
    {
        PortFilter { show_only_watched: enabled, ..self }
    }
}

/// Some record of the slice watches `port`.
pub fn watched_slice_contains(watched: &[WatchedPort], port: u16) -> (r: bool)
    ensures
        r == watched_contains_port(watched@, port),
{
    let mut i: usize = 0;
    while i < watched.len()
        invariant
            i <= watched@.len(),
            forall|j: int| 0 <= j < i ==> watched@[j].port != port,
        decreases watched@.len() - i,
    {
        if watched[i].port == port {
            return true;
        }
        i += 1;
    }
    false
}

/// Apply a filter to a list of ports: the matching subset, in the table's
/// original order.
pub fn filter_ports(
    ports: &[PortInfo],
    filter: &PortFilter,
    favorites: &HashSet<u16>,
    watched: &[WatchedPort],
) -> (r: Vec<PortInfo>)
    ensures
        r@ == ports@.filter(
            (|p: PortInfo| spec_matches(*filter, p, favorites@, watched@)),
        ),
{
    let ghost pred = |p: PortInfo| spec_matches(*filter, p, favorites@, watched@);
    let mut out: Vec<PortInfo> = Vec::new();
    let mut i: usize = 0;
    while i < ports.len()
        invariant
            i <= ports@.len(),
            out@ == ports@.subrange(0, i as int).filter(pred),
            pred == (|p: PortInfo| spec_matches(*filter, p, favorites@, watched@)),
        decreases ports@.len() - i,
    {
        let ghost prefix = ports@.subrange(0, i as int);
        if filter.matches(&ports[i], favorites, watched) {
            out.push(ports[i].clone());
        }
        proof {
            lemma_filter_push(prefix, pred, ports@[i as int]);
            assert(ports@.subrange(0, i + 1) =~= prefix.push(ports@[i as int]));
        }
        i += 1;
    }
    proof {
        assert(ports@.subrange(0, ports@.len() as int) =~= ports@);
    }
    out
}

/// Filtering a sequence extended by one element keeps the old result and
/// appends the element exactly when it passes the predicate.
pub proof fn lemma_filter_push<A>(s: Seq<A>, pred: spec_fn(A) -> bool, x: A)
    ensures
        s.push(x).filter(pred) == if pred(x) {
            s.filter(pred).push(x)
        } else {
            s.filter(pred)
        },
{
    reveal(Seq::filter);
    let e = s.push(x);
    assert(e.drop_last() =~= s);
    assert(e.last() == x);
}

/// The default filter rejects nothing: every record matches it, whatever the
/// favorite and watched snapshots hold.
pub proof fn lemma_default_filter_matches_all(
    f: PortFilter,
    p: PortInfo,
    favorites: Set<u16>,
    watched: Seq<WatchedPort>,
)
    requires
        is_default_filter(f),
    ensures
        spec_matches(f, p, favorites, watched),
{
}

/// A filter equal to the zero-value default — as any filter is after
/// `reset`, however it was built — has no active conditions.
pub proof fn lemma_default_filter_inactive(f: PortFilter)
    requires
        is_default_filter(f),
    ensures
        !spec_is_active(f),
{
}

/// `idx` maps each position of the filtered result back to a strictly
/// increasing list of positions of the input holding the same records.
pub open spec fn is_order_witness(
    s: Seq<PortInfo>,
    pred: spec_fn(PortInfo) -> bool,
    idx: Seq<int>,
) -> bool {
    &&& idx.len() == s.filter(pred).len()
    &&& (forall|k: int|
        0 <= k < idx.len() ==> 0 <= #[trigger] idx[k] < s.len() && s[idx[k]] == s.filter(pred)[k])
    &&& (forall|k: int| 0 <= k < idx.len() - 1 ==> #[trigger] idx[k] < idx[k + 1])
}

/// Filtering is sound and order-preserving: every record of the result
/// passes the predicate, and the result lists records at strictly increasing
/// positions of the input — the relative order of the input is kept.
pub proof fn lemma_filter_preserves_order(s: Seq<PortInfo>, pred: spec_fn(PortInfo) -> bool)
    ensures
        forall|k: int| 0 <= k < s.filter(pred).len() ==> pred(#[trigger] s.filter(pred)[k]),
        exists|idx: Seq<int>| is_order_witness(s, pred, idx),
    decreases s.len(),
{
    reveal(Seq::filter);
    assert forall|k: int| 0 <= k < s.filter(pred).len() implies pred(#[trigger] s.filter(pred)[k]) by {
        s.lemma_filter_pred(pred, k);
    }
    if s.len() == 0 {
        let idx = Seq::<int>::empty();
        assert(is_order_witness(s, pred, idx));
    } else {
        let t = s.drop_last();
        lemma_filter_preserves_order(t, pred);
        let idx0 = choose|idx: Seq<int>| is_order_witness(t, pred, idx);
        lemma_filter_push(t, pred, s.last());
        assert(t.push(s.last()) =~= s);
        if pred(s.last()) {
            let idx1 = idx0.push(s.len() - 1);
            assert(s.filter(pred) == t.filter(pred).push(s.last()));
            assert(is_order_witness(s, pred, idx1)) by {
                assert(forall|k: int|
                    0 <= k < idx0.len() ==> 0 <= #[trigger] idx0[k] < t.len() && s[idx0[k]]
                        == t[idx0[k]]);
                assert(forall|k: int|
                    0 <= k < idx0.len() ==> #[trigger] s.filter(pred)[k] == t.filter(pred)[k]);
                assert(idx1[idx1.len() - 1] == s.len() - 1);
                assert(s.filter(pred)[idx1.len() - 1] == s.last());
            }
        } else {
            assert(s.filter(pred) == t.filter(pred));
            assert(is_order_witness(s, pred, idx0)) by {
                assert(forall|k: int|
                    0 <= k < idx0.len() ==> 0 <= #[trigger] idx0[k] < t.len() && s[idx0[k]]
                        == t[idx0[k]]);
            }
        }
    }
}

} // verus!
