//! The interactive session aggregate: the last-scanned port table, snapshots
//! of the favorite and watched port sets, the selection cursor over the
//! filtered view, search-mode state, and the ephemeral status message with
//! pull-based expiry.
//!
//! The aggregate has a single owner; every transition is one method call.
//! The collaborators that scan ports, signal processes and persist
//! configuration run outside this type: their results are handed in as plain
//! values, and every decision taken on those values is verified here.

use std::collections::HashSet;

use vstd::prelude::*;
use vstd::string::*;

use crate::error::Error;
use crate::error::error_text;
use crate::killer::PLATFORM_PID_MAX;
use crate::killer::ProcessKiller;
use crate::killer::SignalOutcome;
use crate::killer::graceful_result_matches;
use crate::port_info::PortInfo;
use crate::port_info::WatchedPort;
use crate::port_info::spec_matches_search;
use crate::port_info::watched_contains_port;
use crate::port_filter::lemma_filter_push;
use crate::text::dec_digits;
use crate::text::is_substring_of;
use crate::text::matches_at;
use crate::text::pop_char;
use crate::text::push_char;
use crate::text::u64_to_string;

verus! {

broadcast use vstd::std_specs::hash::group_hash_axioms;

/// How long a status message stays visible, in milliseconds.
pub const STATUS_VISIBLE_MS: u64 = 3000;

/// How old the table may grow before `should_refresh` asks for a re-scan,
/// in milliseconds.
pub const REFRESH_INTERVAL_MS: u64 = 5000;

/// A record passes the session's free-text filter when the query is empty or
/// the record matches it.
pub open spec fn query_matches(p: PortInfo, q: Seq<char>) -> bool {
    q.len() == 0 || spec_matches_search(p, q)
}

/// The subset of `ports` passing the query, in table order.
pub open spec fn filtered_view(ports: Seq<PortInfo>, q: Seq<char>) -> Seq<PortInfo> {
    ports.filter(|p: PortInfo| query_matches(p, q))
}

/// Status text after a successful kill.
pub open spec fn killed_text(name: Seq<char>, port: u16) -> Seq<char> {
    "Killed "@ + name + " on port "@ + dec_digits(port as nat)
}

/// Status text after attempting to kill a process that was already gone.
pub open spec fn already_terminated_text(pid: u32) -> Seq<char> {
    "Process "@ + dec_digits(pid as nat) + " already terminated"@
}

/// Status text after a failed kill.
pub open spec fn kill_failed_text(e: Error) -> Seq<char> {
    "Failed to kill: "@ + error_text(e)
}

/// Status text after adding a favorite.
pub open spec fn added_favorite_text(port: u16) -> Seq<char> {
    "Added "@ + dec_digits(port as nat) + " to favorites"@
}

/// Status text after removing a favorite.
pub open spec fn removed_favorite_text(port: u16) -> Seq<char> {
    "Removed "@ + dec_digits(port as nat) + " from favorites"@
}

/// Status text after starting to watch a port.
pub open spec fn now_watching_text(port: u16) -> Seq<char> {
    "Now watching "@ + dec_digits(port as nat)
}

/// Status text after stopping watching a port.
pub open spec fn stopped_watching_text(port: u16) -> Seq<char> {
    "Stopped watching "@ + dec_digits(port as nat)
}

/// The watched ports of a snapshot list, as a set keyed by port number.
pub fn watched_ports_set(list: &[WatchedPort]) -> (r: HashSet<u16>)
    ensures
        forall|p: u16| r@.contains(p) <==> watched_contains_port(list@, p),
{
    let mut s: HashSet<u16> = HashSet::new();
    let mut i: usize = 0;
    while i < list.len()
        invariant
            i <= list@.len(),
            forall|p: u16| s@.contains(p) <==> exists|j: int| 0 <= j < i && list@[j].port == p,
        decreases list@.len() - i,
    {
        s.insert(list[i].port);
        proof {
            assert(forall|p: u16|
                s@.contains(p) <==> exists|j: int| 0 <= j < i + 1 && list@[j].port == p) by {
                assert(forall|p: u16| #[trigger] s@.contains(p) ==> p == list@[i as int].port
                    || exists|j: int| 0 <= j < i && list@[j].port == p);
                assert(list@[i as int].port == list@[i as int].port);
            }
        }
        i += 1;
    }
    s
}

/// The interactive session aggregate.
pub struct App {
    /// The last scan result, the full table.
    pub ports: Vec<PortInfo>,
    /// Snapshot of the favorite port numbers.
    pub favorites: HashSet<u16>,
    /// Snapshot of the watched port numbers.
    pub watched: HashSet<u16>,
    /// Selection cursor, an index into the filtered view.
    pub selected: usize,
    /// The active free-text search query.
    pub search_query: String,
    /// Whether search text entry mode is active.
    pub searching: bool,
    /// The ephemeral status message and the time it was set, in milliseconds.
    pub status_message: Option<(String, u64)>,
    /// When the table was last refreshed, in milliseconds.
    pub last_refresh: u64,
}

impl App {
    /// The filtered view the cursor ranges over.
    pub open spec fn filtered(self) -> Seq<PortInfo> {
        filtered_view(self.ports@, self.search_query@)
    }

    /// The length of the filtered view.
    pub open spec fn flen(self) -> nat {
        self.filtered().len()
    }

    /// The selection cursor is in range, or pinned to zero when the view is
    /// empty: it is never out of bounds of a non-empty view.
    pub open spec fn wf(self) -> bool {
        if self.flen() == 0 {
            self.selected == 0
        } else {
            (self.selected as nat) < self.flen()
        }
    }

    /// The status message holds exactly `text`, set at time `t`.
    pub open spec fn status_is(self, text: Seq<char>, t: u64) -> bool {
        self.status_message matches Some(p) && p.0@ == text && p.1 == t
    }

    /// Everything but the selection cursor is unchanged.
    pub open spec fn only_selection_differs(self, new: App) -> bool {
        &&& new.ports == self.ports
        &&& new.favorites == self.favorites
        &&& new.watched == self.watched
        &&& new.search_query == self.search_query
        &&& new.searching == self.searching
        &&& new.status_message == self.status_message
        &&& new.last_refresh == self.last_refresh
    }

    /// Everything but the status message is unchanged.
    pub open spec fn only_status_differs(self, new: App) -> bool {
        &&& new.ports == self.ports
        &&& new.favorites == self.favorites
        &&& new.watched == self.watched
        &&& new.selected == self.selected
        &&& new.search_query == self.search_query
        &&& new.searching == self.searching
        &&& new.last_refresh == self.last_refresh
    }

    /// Builds a session around an initial scan and initial config snapshots.
    pub fn new(
        ports: Vec<PortInfo>,
        favorites: HashSet<u16>,
        watched_list: &[WatchedPort],
        now_ms: u64,
    ) -> (r: App)
        ensures
            r.wf(),
            r.ports == ports,
            r.favorites == favorites,
            forall|p: u16| r.watched@.contains(p) <==> watched_contains_port(watched_list@, p),
            r.selected == 0,
            r.search_query@ == Seq::<char>::empty(),
            !r.searching,
            r.status_message is None,
            r.last_refresh == now_ms,
    {
        let watched = watched_ports_set(watched_list);
        App {
            ports,
            favorites,
            watched,
            selected: 0,
            search_query: String::new(),
            searching: false,
            status_message: None,
            last_refresh: now_ms,
        }
    }

    /// The filtered view, computed on demand: every record passing the
    /// current query, in table order.
    pub fn filtered_ports(&self) -> (r: Vec<PortInfo>)
        ensures
            r@ == self.filtered(),
    {
        let ghost q = self.search_query@;
        let ghost pred = |p: PortInfo| query_matches(p, q);
        let empty = self.search_query.as_str().is_empty();
        let mut out: Vec<PortInfo> = Vec::new();
        let mut i: usize = 0;
        while i < self.ports.len()
            invariant
                i <= self.ports@.len(),
                q == self.search_query@,
                pred == (|p: PortInfo| query_matches(p, q)),
                empty == (q.len() == 0),
                out@ == self.ports@.subrange(0, i as int).filter(pred),
            decreases self.ports@.len() - i,
        {
            let ghost prefix = self.ports@.subrange(0, i as int);
            let keep = if empty {
                true
            } else {
                self.ports[i].matches_search(self.search_query.as_str())
            };
            proof {
                assert(keep == pred(self.ports@[i as int]));
            }
            if keep {
                out.push(self.ports[i].clone());
            }
            proof {
                lemma_filter_push(prefix, pred, self.ports@[i as int]);
                assert(self.ports@.subrange(0, i + 1) =~= prefix.push(self.ports@[i as int]));
            }
            i += 1;
        }
        proof {
            assert(self.ports@.subrange(0, self.ports@.len() as int) =~= self.ports@);
        }
        out
    }

    /// The currently selected record of the filtered view, if any.
    pub fn selected_port(&self) -> (r: Option<PortInfo>)
        requires
            self.wf(),
        ensures
            self.flen() == 0 ==> r is None,
            self.flen() > 0 ==> r == Some(self.filtered()[self.selected as int]),
    {
        let filtered = self.filtered_ports();
        if self.selected < filtered.len() {
            Some(filtered[self.selected].clone())
        } else {
            None
        }
    }

    /// Advance the selection, wrapping past the last record to the first;
    /// a no-op on an empty view.
    pub fn next(&mut self)
        requires
            old(self).wf(),
        ensures
            final(self).wf(),
            old(self).only_selection_differs(*final(self)),
            old(self).flen() == 0 ==> final(self).selected == old(self).selected,
            old(self).flen() > 0 ==> final(self).selected as nat == next_selection(
                old(self).selected as nat,
                old(self).flen(),
            ),
    {
        let len = self.filtered_ports().len();
        if len > 0 {
            self.selected = (self.selected + 1) % len;
        }
    }

    /// Retreat the selection, wrapping past the first record to the last;
    /// a no-op on an empty view.
    pub fn previous(&mut self)
        requires
            old(self).wf(),
        ensures
            final(self).wf(),
            old(self).only_selection_differs(*final(self)),
            old(self).flen() == 0 ==> final(self).selected == old(self).selected,
            old(self).flen() > 0 ==> final(self).selected as int == (if old(self).selected == 0 {
                old(self).flen() - 1
            } else {
                old(self).selected - 1
            }),
    {
        let len = self.filtered_ports().len();
        if len > 0 {
            self.selected = if self.selected == 0 {
                len - 1
            } else {
                self.selected - 1
            };
        }
    }

    /// Select the first record of the view.
    pub fn first(&mut self)
        requires
            old(self).wf(),
        ensures
            final(self).wf(),
            old(self).only_selection_differs(*final(self)),
            final(self).selected == 0,
    {
        self.selected = 0;
    }

    /// Select the last record of the view; a no-op on an empty view.
    pub fn last(&mut self)
        requires
            old(self).wf(),
        ensures
            final(self).wf(),
            old(self).only_selection_differs(*final(self)),
            old(self).flen() == 0 ==> final(self).selected == old(self).selected,
            old(self).flen() > 0 ==> final(self).selected as int == old(self).flen() - 1,
    {
        let len = self.filtered_ports().len();
        if len > 0 {
            self.selected = len - 1;
        }
    }

    fn set_status(&mut self, msg: String, now_ms: u64)
        ensures
            old(self).only_status_differs(*final(self)),
            final(self).status_message matches Some(p) && p.0 == msg && p.1 == now_ms,
    {
        self.status_message = Some((msg, now_ms));
    }

    /// Replace the table and the config snapshots, clamp the selection back
    /// into the (possibly reshaped) filtered view, record the refresh time
    /// and report it: out-of-range selections move to the new last record,
    /// or to zero when the view became empty.
    pub fn refresh(
        &mut self,
        ports: Vec<PortInfo>,
        favorites: HashSet<u16>,
        watched_list: &[WatchedPort],
        now_ms: u64,
    )
        requires
            old(self).wf(),
        ensures
            final(self).wf(),
            final(self).ports == ports,
            final(self).favorites == favorites,
            forall|p: u16|
                final(self).watched@.contains(p) <==> watched_contains_port(watched_list@, p),
            final(self).search_query == old(self).search_query,
            final(self).searching == old(self).searching,
            final(self).last_refresh == now_ms,
            final(self).status_is("Refreshed"@, now_ms),
            ({
                let l = filtered_view(ports@, old(self).search_query@).len();
                &&& ((old(self).selected as nat) < l ==> final(self).selected == old(
                    self,
                ).selected)
                &&& ((old(self).selected as nat) >= l && l > 0 ==> final(self).selected as int == l
                    - 1)
                &&& ((old(self).selected as nat) >= l && l == 0 ==> final(self).selected == 0)
            }),
    {
        self.ports = ports;
        self.favorites = favorites;
        self.watched = watched_ports_set(watched_list);
        self.last_refresh = now_ms;
        let len = self.filtered_ports().len();
        if self.selected >= len {
            self.selected = if len > 0 {
                len - 1
            } else {
                0
            };
        }
        self.set_status(String::from_str("Refreshed"), now_ms);
    }

    /// The table is stale once the refresh interval has elapsed; the driving
    /// loop polls this and calls `refresh` when it answers true.
    pub fn should_refresh(&self, now_ms: u64) -> (r: bool)
        requires
            now_ms >= self.last_refresh,
        ensures
            r == (now_ms - self.last_refresh > REFRESH_INTERVAL_MS),
    {
        now_ms - self.last_refresh > REFRESH_INTERVAL_MS
    }

    /// Enter search text entry mode, clearing any prior query.
    pub fn start_search(&mut self)
        requires
            old(self).wf(),
        ensures
            final(self).wf(),
            final(self).searching,
            final(self).search_query@ == Seq::<char>::empty(),
            final(self).ports == old(self).ports,
            final(self).favorites == old(self).favorites,
            final(self).watched == old(self).watched,
            final(self).selected == old(self).selected,
            final(self).status_message == old(self).status_message,
            final(self).last_refresh == old(self).last_refresh,
    {
        self.searching = true;
        self.search_query = String::new();
        proof {
            let pred = |p: PortInfo| query_matches(p, self.search_query@);
            lemma_filter_all(self.ports@, pred);
            if old(self).flen() > 0 {
                old(self).ports@.lemma_filter_len(
                    |p: PortInfo| query_matches(p, old(self).search_query@),
                );
            }
        }
    }

    /// Leave text entry mode; the query stays active as a filter.
    pub fn end_search(&mut self)
        requires
            old(self).wf(),
        ensures
            final(self).wf(),
            !final(self).searching,
            final(self).ports == old(self).ports,
            final(self).favorites == old(self).favorites,
            final(self).watched == old(self).watched,
            final(self).selected == old(self).selected,
            final(self).search_query == old(self).search_query,
            final(self).status_message == old(self).status_message,
            final(self).last_refresh == old(self).last_refresh,
    {
        self.searching = false;
    }

    /// Whether search text entry mode is active.
    pub fn is_searching(&self) -> (r: bool)
        ensures
            r == self.searching,
    {
        self.searching
    }

    /// Append one character to the query and reset the selection, since the
    /// filtered view is about to change shape.
    pub fn search_input(&mut self, c: char)
        requires
            old(self).wf(),
        ensures
            final(self).wf(),
            final(self).search_query@ == old(self).search_query@.push(c),
            final(self).selected == 0,
            final(self).ports == old(self).ports,
            final(self).favorites == old(self).favorites,
            final(self).watched == old(self).watched,
            final(self).searching == old(self).searching,
            final(self).status_message == old(self).status_message,
            final(self).last_refresh == old(self).last_refresh,
    {
        push_char(&mut self.search_query, c);
        self.selected = 0;
    }

    /// Remove the last character of the query (if any) and reset the
    /// selection.
    pub fn search_backspace(&mut self)
        requires
            old(self).wf(),
        ensures
            final(self).wf(),
            old(self).search_query@.len() == 0 ==> final(self).search_query@ == old(
                self,
            ).search_query@,
            old(self).search_query@.len() > 0 ==> final(self).search_query@ == old(
                self,
            ).search_query@.drop_last(),
            final(self).selected == 0,
            final(self).ports == old(self).ports,
            final(self).favorites == old(self).favorites,
            final(self).watched == old(self).watched,
            final(self).searching == old(self).searching,
            final(self).status_message == old(self).status_message,
            final(self).last_refresh == old(self).last_refresh,
    {
        let _ = pop_char(&mut self.search_query);
        self.selected = 0;
    }

    /// The visible status text: the message set within the visibility window
    /// before `now_ms`, absent once it has expired (pull-based expiry; no
    /// timer dismisses it).
    pub fn get_status(&self, now_ms: u64) -> (r: Option<&str>)
        requires
            self.status_message matches Some(p) ==> now_ms >= p.1,
        ensures
            match self.status_message {
                Some(p) => {
                    if now_ms - p.1 < STATUS_VISIBLE_MS {
                        r matches Some(m) && m@ == p.0@
                    } else {
                        r is None
                    }
                },
                None => r is None,
            },
    {
        match &self.status_message {
            Some((msg, t)) => {
                if now_ms - *t < STATUS_VISIBLE_MS {
                    Some(msg.as_str())
                } else {
                    None
                }
            },
            None => None,
        }
    }

    /// The intent behind toggling the favorite state of the selection:
    /// the selected port and whether it is to be added (true) or removed
    /// (false) — `None` when nothing is selected. The caller forwards the
    /// intent to the config store and then applies it.
    pub fn favorite_toggle_plan(&self) -> (r: Option<(u16, bool)>)
        requires
            self.wf(),
        ensures
            self.flen() == 0 ==> r is None,
            self.flen() > 0 ==> ({
                let p = self.filtered()[self.selected as int];
                r == Some((p.port, !self.favorites@.contains(p.port)))
            }),
    {
        match self.selected_port() {
            Some(p) => {
                let add = !self.favorites.contains(&p.port);
                Some((p.port, add))
            },
            None => None,
        }
    }

    /// Apply an acknowledged favorite toggle to the local snapshot and
    /// report it.
    pub fn apply_favorite_toggle(&mut self, port: u16, added: bool, now_ms: u64)
        requires
            old(self).wf(),
        ensures
            final(self).wf(),
            added ==> final(self).favorites@ == old(self).favorites@.insert(port),
            !added ==> final(self).favorites@ == old(self).favorites@.remove(port),
            added ==> final(self).status_is(added_favorite_text(port), now_ms),
            !added ==> final(self).status_is(removed_favorite_text(port), now_ms),
            final(self).ports == old(self).ports,
            final(self).watched == old(self).watched,
            final(self).selected == old(self).selected,
            final(self).search_query == old(self).search_query,
            final(self).searching == old(self).searching,
            final(self).last_refresh == old(self).last_refresh,
    {
        if added {
            self.favorites.insert(port);
            let mut m = String::from_str("Added ");
            m.append(u64_to_string(port as u64).as_str());
            m.append(" to favorites");
            proof {
                assert(m@ =~= added_favorite_text(port));
            }
            self.set_status(m, now_ms);
        } else {
            self.favorites.remove(&port);
            let mut m = String::from_str("Removed ");
            m.append(u64_to_string(port as u64).as_str());
            m.append(" from favorites");
            proof {
                assert(m@ =~= removed_favorite_text(port));
            }
            self.set_status(m, now_ms);
        }
    }

    /// The intent behind toggling the watched state of the selection, as for
    /// [`Self::favorite_toggle_plan`].
    pub fn watch_toggle_plan(&self) -> (r: Option<(u16, bool)>)
        requires
            self.wf(),
        ensures
            self.flen() == 0 ==> r is None,
            self.flen() > 0 ==> ({
                let p = self.filtered()[self.selected as int];
                r == Some((p.port, !self.watched@.contains(p.port)))
            }),
    {
        match self.selected_port() {
            Some(p) => {
                let add = !self.watched.contains(&p.port);
                Some((p.port, add))
            },
            None => None,
        }
    }

    /// Apply an acknowledged watch toggle to the local snapshot and report
    /// it.
    pub fn apply_watch_toggle(&mut self, port: u16, added: bool, now_ms: u64)
        requires
            old(self).wf(),
        ensures
            final(self).wf(),
            added ==> final(self).watched@ == old(self).watched@.insert(port),
            !added ==> final(self).watched@ == old(self).watched@.remove(port),
            added ==> final(self).status_is(now_watching_text(port), now_ms),
            !added ==> final(self).status_is(stopped_watching_text(port), now_ms),
            final(self).ports == old(self).ports,
            final(self).favorites == old(self).favorites,
            final(self).selected == old(self).selected,
            final(self).search_query == old(self).search_query,
            final(self).searching == old(self).searching,
            final(self).last_refresh == old(self).last_refresh,
    {
        if added {
            self.watched.insert(port);
            let mut m = String::from_str("Now watching ");
            m.append(u64_to_string(port as u64).as_str());
            proof {
                assert(m@ =~= now_watching_text(port));
            }
            self.set_status(m, now_ms);
        } else {
            self.watched.remove(&port);
            let mut m = String::from_str("Stopped watching ");
            m.append(u64_to_string(port as u64).as_str());
            proof {
                assert(m@ =~= stopped_watching_text(port));
            }
            self.set_status(m, now_ms);
        }
    }

    /// Kill the currently selected record's process gracefully: a no-op when
    /// nothing is selected; otherwise the two-stage protocol runs against
    /// the record's pid and the outcome is recorded as a status message — a
    /// kill failure is never fatal to the session. A pid beyond the
    /// platform's signed pid range could not name a single process, so it is
    /// recorded as a kill failure without signalling. Returns whether the
    /// caller should converge the view with a refresh (only after a
    /// success).
    pub fn kill_selected(&mut self, killer: &ProcessKiller, now_ms: u64) -> (refresh_needed: bool)
        requires
            old(self).wf(),
        ensures
            final(self).wf(),
            old(self).flen() == 0 ==> *final(self) == *old(self) && !refresh_needed,
            old(self).flen() > 0 ==> old(self).only_status_differs(*final(self)) && ({
                let p = old(self).filtered()[old(self).selected as int];
                exists|res: Result<bool, Error>|
                    {
                        &&& (exists|o1: SignalOutcome, o2: SignalOutcome|
                            graceful_result_matches(o1, o2, p.pid, res))
                        &&& kill_status_recorded(*final(self), res, p, now_ms)
                        &&& refresh_needed == (res == Ok::<bool, Error>(true))
                    }
            }),
    {
        match self.selected_port() {
            Some(p) => {
                let outcome = if p.pid <= PLATFORM_PID_MAX {
                    killer.kill_gracefully(p.pid)
                } else {
                    let reason = String::from_str(
                        "process id exceeds the platform's process-identifier range",
                    );
                    let ghost failure = SignalOutcome::Failed(reason);
                    let r: Result<bool, Error> = Err(
                        Error::KillFailed { pid: p.pid, reason },
                    );
                    proof {
                        assert(graceful_result_matches(
                            failure,
                            SignalOutcome::Delivered,
                            p.pid,
                            r,
                        ));
                    }
                    r
                };
                let ghost res = outcome;
                let r = self.apply_kill_outcome(
                    outcome,
                    p.process_name.as_str(),
                    p.port,
                    p.pid,
                    now_ms,
                );
                proof {
                    assert(kill_status_recorded(*self, res, p, now_ms));
                }
                r
            },
            None => false,
        }
    }

    /// Record the outcome of a graceful kill of the selected record: success
    /// and absence each set their message, a failure becomes a status
    /// message rather than a session failure. Returns whether the caller
    /// should converge the view with a refresh (only after a success).
    pub fn apply_kill_outcome(
        &mut self,
        outcome: Result<bool, Error>,
        name: &str,
        port_num: u16,
        pid: u32,
        now_ms: u64,
    ) -> (refresh_needed: bool)
        requires
            old(self).wf(),
        ensures
            final(self).wf(),
            old(self).only_status_differs(*final(self)),
            outcome == Ok::<bool, Error>(true) ==> final(self).status_is(
                killed_text(name@, port_num),
                now_ms,
            ) && refresh_needed,
            outcome == Ok::<bool, Error>(false) ==> final(self).status_is(
                already_terminated_text(pid),
                now_ms,
            ) && !refresh_needed,
            (outcome matches Err(e) ==> final(self).status_is(kill_failed_text(e), now_ms)
                && !refresh_needed),
    {
        match outcome {
            Ok(true) => {
                let mut m = String::from_str("Killed ");
                m.append(name);
                m.append(" on port ");
                m.append(u64_to_string(port_num as u64).as_str());
                proof {
                    assert(m@ =~= killed_text(name@, port_num));
                }
                self.set_status(m, now_ms);
                true
            },
            Ok(false) => {
                let mut m = String::from_str("Process ");
                m.append(u64_to_string(pid as u64).as_str());
                m.append(" already terminated");
                proof {
                    assert(m@ =~= already_terminated_text(pid));
                }
                self.set_status(m, now_ms);
                false
            },
            Err(e) => {
                let mut m = String::from_str("Failed to kill: ");
                m.append(e.message().as_str());
                proof {
                    assert(m@ =~= kill_failed_text(e));
                }
                self.set_status(m, now_ms);
                false
            },
        }
    }
}

/// How the session records a graceful-kill result for record `p`: success,
/// absence and failure each leave their status text.
pub open spec fn kill_status_recorded(
    a: App,
    res: Result<bool, Error>,
    p: PortInfo,
    now_ms: u64,
) -> bool {
    match res {
        Ok(killed) => if killed {
            a.status_is(killed_text(p.process_name@, p.port), now_ms)
        } else {
            a.status_is(already_terminated_text(p.pid), now_ms)
        },
        Err(e) => a.status_is(kill_failed_text(e), now_ms),
    }
}

/// Filtering keeps a sequence whole when every element passes the predicate.
proof fn lemma_filter_all(s: Seq<PortInfo>, pred: spec_fn(PortInfo) -> bool)
    requires
        forall|i: int| 0 <= i < s.len() ==> pred(s[i]),
    ensures
        s.filter(pred) == s,
    decreases s.len(),
{
    reveal(Seq::filter);
    if s.len() == 0 {
        assert(s.filter(pred) =~= s);
    } else {
        assert(forall|i: int| 0 <= i < s.drop_last().len() ==> pred(s.drop_last()[i]));
        lemma_filter_all(s.drop_last(), pred);
        assert(pred(s.last()));
        assert(s.filter(pred) =~= s);
    }
}

/// One step of circular forward navigation over a view of length `len`.
pub open spec fn next_selection(sel: nat, len: nat) -> nat
    recommends
        len > 0,
{
    (((sel + 1) as int) % (len as int)) as nat
}

/// The selection after `k` forward steps.
pub open spec fn iterate_next(sel: nat, len: nat, k: nat) -> nat
    decreases k,
{
    if k == 0 {
        sel
    } else {
        next_selection(iterate_next(sel, len, (k - 1) as nat), len)
    }
}

proof fn lemma_iterate_next_mod(sel: nat, len: nat, k: nat)
    requires
        len > 0,
        sel < len,
    ensures
        iterate_next(sel, len, k) as int == ((sel + k) as int) % (len as int),
    decreases k,
{
    broadcast use vstd::arithmetic::div_mod::lemma_add_mod_noop;
    broadcast use vstd::arithmetic::div_mod::lemma_mod_self_0;
    broadcast use vstd::arithmetic::div_mod::lemma_mod_twice;

    if k == 0 {
        vstd::arithmetic::div_mod::lemma_small_mod(sel, len);
    } else {
        lemma_iterate_next_mod(sel, len, (k - 1) as nat);
        let prev = iterate_next(sel, len, (k - 1) as nat);
        let l = len as int;
        assert(prev as int == (sel + k - 1) as int % l);
        assert((prev as int % l + 1int % l) % l == ((sel + k - 1) as int % l % l + 1int % l) % l);
        assert(((sel + k - 1) as int % l % l + 1int % l) % l == ((sel + k - 1) as int + 1) % l);
    }
}

/// Circularity of forward navigation: starting from any valid selection,
/// as many `next` steps as the filtered view has records return the
/// selection to its starting value.
pub proof fn lemma_next_full_cycle(sel: nat, len: nat)
    requires
        len > 0,
        sel < len,
    ensures
        iterate_next(sel, len, len) == sel,
{
    broadcast use vstd::arithmetic::div_mod::lemma_add_mod_noop;
    broadcast use vstd::arithmetic::div_mod::lemma_mod_self_0;

    lemma_iterate_next_mod(sel, len, len);
    let l = len as int;
    assert((sel + len) as int % l == (sel as int % l + l % l) % l);
    vstd::arithmetic::div_mod::lemma_small_mod(sel, len);
}

/// The status text set after an attempt on an already-gone process really
/// mentions the "already terminated" wording.
pub proof fn lemma_already_terminated_wording(pid: u32)
    ensures
        is_substring_of("already terminated"@, already_terminated_text(pid)),
{
    reveal_strlit("already terminated");
    reveal_strlit(" already terminated");
    let tail = " already terminated"@;
    let needle = "already terminated"@;
    let text = already_terminated_text(pid);
    let off = "Process "@.len() as int + dec_digits(pid as nat).len() as int + 1;
    assert(text.subrange(off, off + needle.len() as int) =~= needle);
    assert(matches_at(needle, text, off));
}

} // verus!
