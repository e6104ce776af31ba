//! Decisions taken between polls of an instance: waiting for a torrent's
//! status, collecting search results, and announcing finished torrents.
use vstd::prelude::*;
use crate::json::{Json, jstr, entry};
use crate::text::{owned, cat, cat3, same};
use crate::models::{SearchResult, SearchResultsResponse};
use crate::server::mcp::{McpState, str_member};

verus! {

/// What one look at a torrent tells a wait for a status.
#[derive(Debug)]
pub enum WaitCheck {
    /// The torrent has the status waited for.
    Reached,
    /// No torrent has the hash.
    NotFound,
    /// The torrent has another status, given here.
    Pending(String),
}

/// Looks at the torrents found for a hash (their states, in the order the
/// instance gave them): the first one decides.
pub fn check_wait(target: &str, states: &Vec<String>) -> (r: WaitCheck)
    ensures
        match r {
            WaitCheck::Reached => states@.len() > 0 && states@[0]@ == target@,
            WaitCheck::NotFound => states@.len() == 0,
            WaitCheck::Pending(s) => states@.len() > 0 && states@[0]@ != target@ && s@ == states@[0]@,
        },
{
    if states.len() == 0 {
        WaitCheck::NotFound
    } else if same(states[0].as_str(), target) {
        WaitCheck::Reached
    } else {
        WaitCheck::Pending(owned(states[0].as_str()))
    }
}

/// Whether a wait goes on: fewer whole seconds have passed than the timeout.
pub fn keep_waiting(elapsed_secs: u64, timeout_secs: i64) -> (r: bool)
    requires
        timeout_secs >= 0,
    ensures
        r == (elapsed_secs < timeout_secs),
{
    elapsed_secs < timeout_secs as u64
}

/// The reply once the torrent reached the status.
pub fn reached_text(target: &str) -> (r: String)
    ensures
        r@ == "Torrent reached target status: "@ + target@,
{
    cat("Torrent reached target status: ", target)
}

/// The error when no torrent has the hash.
pub fn not_found_text(hash: &str) -> (r: String)
    ensures
        r@ == "Torrent not found: "@ + hash@,
{
    cat("Torrent not found: ", hash)
}

/// The reply when the wait timed out.
pub fn timeout_text(target: &str) -> (r: String)
    ensures
        r@ == "Timed out waiting for status "@ + target@,
{
    cat("Timed out waiting for status ", target)
}

/// The reply when the wait timed out, with the status last seen.
pub fn timeout_text_with_status(target: &str, current: &str) -> (r: String)
    ensures
        r@ == "Timed out waiting for status "@ + target@ + ". Current status: "@ + current@,
{
    let mut s = cat3("Timed out waiting for status ", target, ". Current status: ");
    s.append(current);
    s
}

/// How many times the results of a search are polled, a second apart.
pub open spec fn search_polls() -> nat {
    5
}

/// The number of polls of a search's results.
pub fn search_poll_count() -> (r: usize)
    ensures
        r == search_polls(),
{
    5
}

/// The results of a search after one more poll: the results of a poll that
/// answered replace those kept so far, and polling stops once the search
/// has stopped; a poll that failed keeps them and polling goes on.
pub fn after_search_poll(kept: Vec<SearchResult>, response: Option<SearchResultsResponse>) -> (r: (Vec<SearchResult>, bool))
    ensures
        match response {
            Some(resp) => r.0@ == resp.results@,
            None => r.0@ == kept@,
        },
        r.1 == found_stopped(response),
{
    match response {
        Some(resp) => {
            let stopped = same(resp.status.as_str(), "Stopped");
            (resp.results, stopped)
        },
        None => (kept, false),
    }
}

/// The results a search reports after a sequence of polls, each `None` when
/// the poll failed: those of the last poll that answered, up to the first
/// one that found the search stopped.
pub open spec fn reported_results(polls: Seq<Option<SearchResultsResponse>>) -> Seq<SearchResult>
    decreases polls.len(),
{
    if polls.len() == 0 {
        Seq::empty()
    } else {
        let earlier = polls.drop_last();
        if stopped_within(earlier) {
            reported_results(earlier)
        } else {
            match polls.last() {
                Some(resp) => resp.results@,
                None => reported_results(earlier),
            }
        }
    }
}

/// Whether a poll answered that the search has stopped.
pub open spec fn found_stopped(poll: Option<SearchResultsResponse>) -> bool {
    match poll {
        Some(resp) => resp.status@ == "Stopped"@,
        None => false,
    }
}

/// Whether one of the polls found the search stopped.
pub open spec fn stopped_within(polls: Seq<Option<SearchResultsResponse>>) -> bool {
    exists|i: int| 0 <= i < polls.len() && found_stopped(#[trigger] polls[i])
}

/// Folding the polls one at a time with `after_search_poll`, stopping when
/// it says so, reports `reported_results`.
pub proof fn search_polls_report(polls: Seq<Option<SearchResultsResponse>>, kept: Seq<SearchResult>, k: int)
    requires
        0 <= k < polls.len(),
        !stopped_within(polls.take(k)),
        kept == reported_results(polls.take(k)),
    ensures
        reported_results(polls.take(k + 1)) == match polls[k] {
            Some(resp) => resp.results@,
            None => kept,
        },
        stopped_within(polls.take(k + 1)) == found_stopped(polls[k]),
{
    let p = polls.take(k + 1);
    assert(p.drop_last() =~= polls.take(k));
    assert(p.last() == polls[k]);
    if stopped_within(p) {
        let i = choose|i: int| 0 <= i < p.len() && found_stopped(#[trigger] p[i]);
        if i < k {
            assert(polls.take(k)[i] == p[i]);
        }
    }
    if found_stopped(polls[k]) {
        assert(p[k] == polls[k]);
    }
}

/// A torrent as the instance last reported it, for deciding whether it has
/// finished downloading. Whether its progress reached 1.0 is read where the
/// progress, a float, is.
#[derive(Debug)]
pub struct TorrentUpdate {
    pub hash: String,
    pub name: Option<String>,
    pub state: Option<String>,
    pub progress_complete: bool,
}

/// Whether a torrent has finished downloading: its progress is complete or
/// its state is one of seeding (`uploading`, `stalledUP`, `queuedUP`,
/// `forcedUP`).
pub open spec fn is_finished(t: TorrentUpdate) -> bool {
    t.progress_complete || match t.state {
        Some(s) => s@ == "uploading"@ || s@ == "stalledUP"@ || s@ == "queuedUP"@ || s@ == "forcedUP"@,
        None => false,
    }
}

/// The name to announce a torrent by: its name, else its hash.
pub open spec fn display_name(t: TorrentUpdate) -> Seq<char> {
    match t.name {
        Some(n) => n@,
        None => t.hash@,
    }
}

/// The torrents to announce as finished, as (hash, name) pairs in order,
/// and the hashes announced afterwards, given those announced before: each
/// finished torrent not announced yet.
pub open spec fn announcements(ts: Seq<TorrentUpdate>, before: Set<Seq<char>>) -> (Seq<(Seq<char>, Seq<char>)>, Set<Seq<char>>)
    decreases ts.len(),
{
    if ts.len() == 0 {
        (Seq::empty(), before)
    } else {
        let (a, s) = announcements(ts.drop_last(), before);
        let t = ts.last();
        if is_finished(t) && !s.contains(t.hash@) {
            (a.push((t.hash@, display_name(t))), s.insert(t.hash@))
        } else {
            (a, s)
        }
    }
}

/// The finished torrents of one instance, and the last response id seen.
#[derive(Debug)]
pub struct FinishWatch {
    pub last_rid: i64,
    pub notified: Vec<String>,
}

/// The hashes announced so far.
pub open spec fn announced_set(w: FinishWatch) -> Set<Seq<char>> {
    Set::new(|h: Seq<char>| exists|i: int| 0 <= i < w.notified@.len() && (#[trigger] w.notified@[i])@ == h)
}

/// The instance and torrent of a finished-torrent notification.
pub open spec fn finished_params(j: Json) -> Option<(Seq<char>, Seq<char>, Seq<char>)> {
    match (str_member(j, "instance"@), str_member(j, "hash"@), str_member(j, "name"@)) {
        (Some(i), Some(h), Some(n)) => Some((i, h, n)),
        _ => None,
    }
}

/// The torrent list resource of an instance.
pub open spec fn torrents_uri(instance: Seq<char>) -> Seq<char> {
    "qbittorrent://"@ + instance + "/torrents"@
}

/// Whether the notifications `ns` announce the finished torrents `a` of
/// `instance`: for each, the torrent finished, then its instance's torrent
/// list changed.
pub open spec fn announces(ns: Seq<crate::server::mcp::Notification>, instance: Seq<char>, a: Seq<(Seq<char>, Seq<char>)>) -> bool {
    &&& ns.len() == 2 * a.len()
    &&& forall|k: int| 0 <= k < a.len() ==> {
        &&& (#[trigger] ns[2 * k]).method@ == "notifications/torrent_finished"@
        &&& ns[2 * k].params matches Some(p) && finished_params(p) == Some((instance, a[k].0, a[k].1))
        &&& ns[2 * k + 1].method@ == "notifications/resources/updated"@
        &&& ns[2 * k + 1].params matches Some(p) && str_member(p, "uri"@) == Some(torrents_uri(instance))
    }
}

proof fn lemma_notice_keys()
    ensures
        "instance"@ != "hash"@,
        "instance"@ != "name"@,
        "hash"@ != "name"@,
{
    reveal_strlit("instance");
    reveal_strlit("hash");
    reveal_strlit("name");
    assert("instance"@[0] != "hash"@[0]);
    assert("instance"@[0] != "name"@[0]);
    assert("hash"@[0] != "name"@[0]);
}

fn finished_notice(instance: &str, hash: &str, name: &str) -> (r: Json)
    ensures
        finished_params(r) == Some((instance@, hash@, name@)),
{
    proof {
        lemma_notice_keys();
        reveal_with_fuel(crate::json::entry_value, 4);
    }
    let mut e: Vec<(String, Json)> = Vec::new();
    e.push(entry("instance", jstr(instance)));
    e.push(entry("hash", jstr(hash)));
    e.push(entry("name", jstr(name)));
    Json::Obj(e)
}

fn updated_notice(instance: &str) -> (r: Json)
    ensures
        str_member(r, "uri"@) == Some(torrents_uri(instance@)),
{
    proof {
        reveal_with_fuel(crate::json::entry_value, 2);
    }
    let mut e: Vec<(String, Json)> = Vec::new();
    e.push(entry("uri", Json::Str(cat3("qbittorrent://", instance, "/torrents"))));
    Json::Obj(e)
}

impl FinishWatch {
    /// A watch that has announced nothing, before the first poll.
    pub fn new() -> (r: FinishWatch)
        ensures
            r.last_rid == 0,
            r.notified@.len() == 0,
            announced_set(r) == Set::<Seq<char>>::empty(),
    {
        let r = FinishWatch { last_rid: 0, notified: Vec::new() };
        assert(announced_set(r) =~= Set::<Seq<char>>::empty());
        r
    }

    fn was_announced(&self, hash: &str) -> (r: bool)
        ensures
            r == announced_set(*self).contains(hash@),
    {
        let mut i: usize = 0;
        while i < self.notified.len()
            invariant
                i <= self.notified.len(),
                forall|j: int| 0 <= j < i ==> self.notified@[j]@ != hash@,
            decreases self.notified.len() - i,
        {
            if same(self.notified[i].as_str(), hash) {
                assert(announced_set(*self).contains(hash@)) by {
                    assert(self.notified@[i as int]@ == hash@);
                }
                return true;
            }
            i = i + 1;
        }
        false
    }

    /// Takes a poll of `instance` that answered with response id `rid` and
    /// the torrents that changed: each finished torrent not announced yet is
    /// announced, once, by two notifications queued on `state`.
    pub fn observe(&mut self, state: &mut McpState, instance: &str, rid: i64, torrents: &Vec<TorrentUpdate>)
        ensures
            final(self).last_rid == rid,
            announced_set(*final(self)) == announcements(torrents@, announced_set(*old(self))).1,
            final(state).notification_queue@.take(old(state).notification_queue@.len() as int) == old(state).notification_queue@,
            announces(
                final(state).notification_queue@.skip(old(state).notification_queue@.len() as int),
                instance@,
                announcements(torrents@, announced_set(*old(self))).0,
            ),
            final(state).lazy_mode == old(state).lazy_mode,
            final(state).tools_loaded == old(state).tools_loaded,
            final(state).should_notify == old(state).should_notify,
    {
        self.last_rid = rid;
        let ghost before = announced_set(*old(self));
        let ghost q0 = state.notification_queue@;
        let mut i: usize = 0;
        while i < torrents.len()
            invariant
                i <= torrents.len(),
                self.last_rid == rid,
                announcements(torrents@.take(i as int), before).1 == announced_set(*self),
                state.notification_queue@.take(q0.len() as int) == q0,
                q0.len() <= state.notification_queue@.len(),
                announces(state.notification_queue@.skip(q0.len() as int), instance@, announcements(torrents@.take(i as int), before).0),
                state.lazy_mode == old(state).lazy_mode,
                state.tools_loaded == old(state).tools_loaded,
                state.should_notify == old(state).should_notify,
            decreases torrents.len() - i,
        {
            let t = &torrents[i];
            let ghost prefix = torrents@.take(i as int);
            let ghost next = torrents@.take(i + 1);
            assert(next.drop_last() =~= prefix);
            assert(next.last() == torrents@[i as int]);
            let ghost prev = announcements(prefix, before);
            let finished_state = match &t.state {
                Some(s) => same(s.as_str(), "uploading") || same(s.as_str(), "stalledUP")
                    || same(s.as_str(), "queuedUP") || same(s.as_str(), "forcedUP"),
                None => false,
            };
            if (t.progress_complete || finished_state) && !self.was_announced(t.hash.as_str()) {
                let name = match &t.name {
                    Some(n) => n.as_str(),
                    None => t.hash.as_str(),
                };
                let ghost ns0 = state.notification_queue@;
                state.push_notification("notifications/torrent_finished", finished_notice(instance, t.hash.as_str(), name));
                state.push_notification("notifications/resources/updated", updated_notice(instance));
                let ghost w0 = self.notified@;
                let recorded = owned(t.hash.as_str());
                self.notified.push(recorded);
                proof {
                    let ns = state.notification_queue@;
                    assert(ns.take(q0.len() as int) =~= q0) by {
                        assert(ns.take(ns0.len() as int) =~= ns0);
                        assert(ns0.take(q0.len() as int) == q0);
                    }
                    let tail = ns.skip(q0.len() as int);
                    let tail0 = ns0.skip(q0.len() as int);
                    let a = announcements(next, before).0;
                    assert(a == prev.0.push((t.hash@, display_name(*t))));
                    assert(tail.len() == tail0.len() + 2);
                    assert forall|k: int| 0 <= k < a.len() implies {
                        &&& (#[trigger] tail[2 * k]).method@ == "notifications/torrent_finished"@
                        &&& tail[2 * k].params matches Some(p) && finished_params(p) == Some((instance@, a[k].0, a[k].1))
                        &&& tail[2 * k + 1].method@ == "notifications/resources/updated"@
                        &&& tail[2 * k + 1].params matches Some(p) && str_member(p, "uri"@) == Some(torrents_uri(instance@))
                    } by {
                        if k < prev.0.len() {
                            assert(tail[2 * k] == tail0[2 * k]);
                            assert(tail[2 * k + 1] == tail0[2 * k + 1]);
                        } else {
                            assert(tail[2 * k] == ns[ns0.len() as int]);
                            assert(tail[2 * k + 1] == ns[ns0.len() as int + 1]);
                        }
                    }
                    assert(announced_set(*self) =~= prev.1.insert(t.hash@)) by {
                        assert(self.notified@ == w0.push(recorded));
                        assert forall|h: Seq<char>| announced_set(*self).contains(h) implies prev.1.insert(t.hash@).contains(h) by {
                            let j = choose|j: int| 0 <= j < self.notified@.len() && (#[trigger] self.notified@[j])@ == h;
                            if j < w0.len() {
                                assert(w0[j]@ == h);
                            }
                        }
                        assert forall|h: Seq<char>| prev.1.insert(t.hash@).contains(h) implies announced_set(*self).contains(h) by {
                            if h == t.hash@ {
                                assert(self.notified@[w0.len() as int]@ == h);
                            } else {
                                let j = choose|j: int| 0 <= j < w0.len() && (#[trigger] w0[j])@ == h;
                                assert(self.notified@[j]@ == h);
                            }
                        }
                    }
                }
            } else {
                proof {
                    assert(announcements(next, before) == prev);
                }
            }
            i = i + 1;
        }
        assert(torrents@.take(torrents@.len() as int) =~= torrents@);
    }
}

/// A finished torrent is announced at most once by a watch: what one poll
/// announces, no later poll announces again.
pub proof fn finished_torrents_announced_once(first: Seq<TorrentUpdate>, second: Seq<TorrentUpdate>, before: Set<Seq<char>>)
    ensures
        forall|i: int, j: int|
            0 <= i < announcements(first, before).0.len() && 0 <= j < announcements(second, announcements(first, before).1).0.len()
            ==> (#[trigger] announcements(first, before).0[i]).0 != (#[trigger] announcements(second, announcements(first, before).1).0[j]).0,
{
    let after = announcements(first, before).1;
    lemma_announced_are_recorded(first, before);
    lemma_announced_were_new(second, after);
}

proof fn lemma_announced_are_recorded(ts: Seq<TorrentUpdate>, before: Set<Seq<char>>)
    ensures
        forall|i: int| 0 <= i < announcements(ts, before).0.len() ==> announcements(ts, before).1.contains((#[trigger] announcements(ts, before).0[i]).0),
        before.subset_of(announcements(ts, before).1),
    decreases ts.len(),
{
    if ts.len() > 0 {
        lemma_announced_are_recorded(ts.drop_last(), before);
    }
}

proof fn lemma_announced_were_new(ts: Seq<TorrentUpdate>, before: Set<Seq<char>>)
    ensures
        forall|i: int| 0 <= i < announcements(ts, before).0.len() ==> !before.contains((#[trigger] announcements(ts, before).0[i]).0),
    decreases ts.len(),
{
    if ts.len() > 0 {
        lemma_announced_were_new(ts.drop_last(), before);
        lemma_announced_are_recorded(ts.drop_last(), before);
    }
}

} // verus!
