//! The crawl orchestrator: one session's state machine.
//!
//! A session runs `Idle -> Active -> Done`. Start clears the item list
//! and the dedup history and marks the session active; the discovery
//! loop then picks a strategy per round, filters and deduplicates
//! candidates, and publishes every accepted item followed by a status
//! snapshot; the session ends with one final log line and one final
//! status with `running == false`.
//!
//! The surrounding process drives the loop (it fetches text, sleeps
//! between steps, and runs the classifier); every decision the loop
//! takes is made here.

use vstd::prelude::*;
use crate::events::{AppEvent, EventModel, Source, SourceModel};
use crate::bus::{Bus, Subscriber, poll_start};
use crate::text::{seq_contains, contains_str, decimal_of, u64_to_string};
use crate::support::{url_encoded, encode_component, now_hms};
use crate::csv::csv_export_spec;

verus! {

/// The items carried by the `Found` events of a log, in publish order.
pub open spec fn found_sources(es: Seq<EventModel>) -> Seq<SourceModel>
    decreases es.len(),
{
    if es.len() == 0 {
        Seq::empty()
    } else {
        let rest = found_sources(es.drop_last());
        match es.last() {
            EventModel::Found(s) => rest.push(s),
            _ => rest,
        }
    }
}

/// How many final snapshots (`Status` with `running == false`) a log
/// holds.
pub open spec fn finale_count(es: Seq<EventModel>) -> int
    decreases es.len(),
{
    if es.len() == 0 {
        0
    } else {
        finale_count(es.drop_last()) + (match es.last() {
            EventModel::Status { running, .. } => if !running {
                1int
            } else {
                0int
            },
            _ => 0int,
        })
    }
}

/// Every status snapshot reports exactly the number of items found
/// before it was published.
pub open spec fn statuses_consistent(es: Seq<EventModel>) -> bool {
    forall|k: int|
        0 <= k < es.len() ==> match #[trigger] es[k] {
            EventModel::Status { count, .. } => count as int == found_sources(es.take(k)).len(),
            _ => true,
        }
}

proof fn lemma_found_push(es: Seq<EventModel>, e: EventModel)
    ensures
        found_sources(es.push(e)) == (match e {
            EventModel::Found(s) => found_sources(es).push(s),
            _ => found_sources(es),
        }),
        finale_count(es.push(e)) == finale_count(es) + (match e {
            EventModel::Status { running, .. } => if !running {
                1int
            } else {
                0int
            },
            _ => 0int,
        }),
{
    assert(es.push(e).drop_last() =~= es);
    assert(es.push(e).last() == e);
}

/// Every item event is immediately followed by another event, and
/// that event is a status snapshot.
pub open spec fn founds_paired(es: Seq<EventModel>) -> bool {
    forall|k: int|
        0 <= k < es.len() && (#[trigger] es[k]) is Found ==> k + 1 < es.len() && es[k + 1]
            is Status
}

proof fn lemma_paired_push(es: Seq<EventModel>, e: EventModel)
    requires
        founds_paired(es),
        !(e is Found),
    ensures
        founds_paired(es.push(e)),
{
    let es2 = es.push(e);
    assert forall|k: int|
        0 <= k < es2.len() && (#[trigger] es2[k]) is Found implies k + 1 < es2.len() && es2[k
        + 1] is Status by {
        assert(es2[k] == es[k]);
        assert(k + 1 < es.len());
        assert(es2[k + 1] == es[k + 1]);
    }
}

proof fn lemma_statuses_push(es: Seq<EventModel>, e: EventModel)
    requires
        statuses_consistent(es),
        match e {
            EventModel::Status { count, .. } => count as int == found_sources(es).len(),
            _ => true,
        },
    ensures
        statuses_consistent(es.push(e)),
{
    let es2 = es.push(e);
    assert forall|k: int| 0 <= k < es2.len() implies match #[trigger] es2[k] {
        EventModel::Status { count, .. } => count as int == found_sources(es2.take(k)).len(),
        _ => true,
    } by {
        if k < es.len() {
            assert(es2[k] == es[k]);
            assert(es2.take(k) =~= es.take(k));
        } else {
            assert(es2[k] == e);
            assert(es2.take(k) =~= es);
        }
    }
}

proof fn lemma_skip_push(b: Seq<EventModel>, start: int, e: EventModel)
    requires
        0 <= start <= b.len(),
    ensures
        b.push(e).skip(start) == b.skip(start).push(e),
{
    assert(b.push(e).skip(start) =~= b.skip(start).push(e));
}

/// Where a session stands: never started, the background task alive
/// (covering both the seeding and the discovering legs of the loop),
/// or finished (terminally for this session; a new start begins fresh).
#[derive(Clone, Copy, PartialEq, Eq, Debug)]
pub enum Phase {
    Idle,
    Active,
    Done,
}

/// What the orchestrator says about one extracted candidate: stop the
/// round, skip this candidate, or accept it for classification.
#[derive(Clone, Copy, PartialEq, Eq, Structural, Debug)]
pub enum Decision {
    Halt,
    Skip,
    Accept,
}

/// No two of these URLs are the same.
pub open spec fn distinct_seq(s: Seq<Seq<char>>) -> bool {
    forall|i: int, j: int| 0 <= i < j < s.len() ==> s[i] != s[j]
}

/// Every item's URL is recorded in the history.
pub open spec fn urls_covered(items: Seq<SourceModel>, hist: Seq<Seq<char>>) -> bool {
    forall|i: int| 0 <= i < items.len() ==> hist.contains(#[trigger] items[i].url)
}

/// No two items carry the same URL.
pub open spec fn distinct_urls(items: Seq<SourceModel>) -> bool {
    forall|i: int, j: int| 0 <= i < j < items.len() ==> items[i].url != items[j].url
}

/// Candidates that are navigational or self-referential noise: the
/// search provider's own domain, the hosting platform of the index
/// documents, or implausibly short strings.
pub open spec fn is_noise(u: Seq<char>) -> bool {
    seq_contains(u, "duckduckgo"@) || seq_contains(u, "github.com"@) || u.len() < 20
}

/// The orchestration engine: all shared state of one crawl agent.
pub struct Engine {
    /// The run flag: true while a session is active and not stopped.
    pub running: bool,
    /// Where the current session stands.
    pub phase: Phase,
    /// The discovered items of the current session, in accept order.
    pub items: Vec<Source>,
    /// Every URL accepted this session, for dedup.
    pub history: Vec<String>,
    /// The stop threshold: the session ends once this many items exist.
    pub target: u32,
    /// Caller-supplied topics; non-empty overrides the built-in
    /// strategies, consumed round-robin.
    pub custom_topics: Vec<String>,
    /// Round-robin cursor over `custom_topics`.
    pub topic_idx: usize,
    /// Cursor over the master repository list; never wraps.
    pub repo_idx: usize,
    /// The event bus all observers read.
    pub bus: Bus,
    /// Where in the bus log the current session began.
    pub session_start: Ghost<int>,
}

impl Engine {
    pub open spec fn item_models(self) -> Seq<SourceModel> {
        self.items@.map_values(|s: Source| s@)
    }

    pub open spec fn history_urls(self) -> Seq<Seq<char>> {
        self.history@.map_values(|s: String| s@)
    }

    /// The events published since the current session began.
    pub open spec fn session_events(self) -> Seq<EventModel> {
        self.bus@.skip(self.session_start@)
    }

    /// The engine's invariant: the session's event log agrees with the
    /// item list, every item URL is in the history, URLs are unique,
    /// status counts match, and exactly one finale exists once done.
    pub open spec fn inv(self) -> bool {
        &&& self.bus.capacity >= 1
        &&& 0 <= self.session_start@ <= self.bus@.len()
        &&& self.items@.len() <= u32::MAX
        &&& distinct_seq(self.history_urls())
        &&& urls_covered(self.item_models(), self.history_urls())
        &&& distinct_urls(self.item_models())
        &&& found_sources(self.session_events()) == self.item_models()
        &&& statuses_consistent(self.session_events())
        &&& founds_paired(self.session_events())
        &&& finale_count(self.session_events()) == (if self.phase is Done {
            1int
        } else {
            0int
        })
        &&& (self.running ==> self.phase is Active)
    }

    /// A fresh, idle engine; the default target is ten items.
    pub fn new(capacity: usize) -> (e: Engine)
        ensures
            e.inv(),
            !e.running,
            e.phase is Idle,
            e.item_models() == Seq::<SourceModel>::empty(),
            e.history_urls() == Seq::<Seq<char>>::empty(),
            e.target == 10,
            e.custom_topics@ == Seq::<String>::empty(),
            e.bus@ == Seq::<EventModel>::empty(),
    {
        let cap = if capacity == 0 {
            1
        } else {
            capacity
        };
        let e = Engine {
            running: false,
            phase: Phase::Idle,
            items: Vec::new(),
            history: Vec::new(),
            target: 10,
            custom_topics: Vec::new(),
            topic_idx: 0,
            repo_idx: 0,
            bus: Bus::new(cap),
            session_start: Ghost(0int),
        };
        proof {
            assert(e.item_models() =~= Seq::<SourceModel>::empty());
            assert(e.history_urls() =~= Seq::<Seq<char>>::empty());
            assert(e.session_events() =~= Seq::<EventModel>::empty());
        }
        e
    }

    fn history_contains(&self, url: &String) -> (r: bool)
        ensures
            r == self.history_urls().contains(url@),
    {
        let mut i: usize = 0;
        while i < self.history.len()
            invariant
                i <= self.history@.len(),
                forall|k: int| 0 <= k < i ==> self.history_urls()[k] != url@,
            decreases self.history@.len() - i,
        {
            let h = &self.history[i];
            if h.eq(url) {
                assert(self.history_urls()[i as int] == url@);
                return true;
            }
            i += 1;
        }
        assert(!self.history_urls().contains(url@));
        false
    }

    /// Whether a session is currently running.
    pub fn is_running(&self) -> (r: bool)
        ensures
            r == self.running,
    {
        self.running
    }

    /// Whether the stop threshold has been reached.
    pub fn is_target_met(&self) -> (r: bool)
        ensures
            r == (self.items@.len() >= self.target),
    {
        self.items.len() >= self.target as usize
    }

    /// Whether the discovery loop should run another round.
    pub fn should_continue(&self) -> (r: bool)
        ensures
            r == (self.running && self.items@.len() < self.target),
    {
        self.running && self.items.len() < self.target as usize
    }

    /// Begin a session if idle. Returns whether a background task must
    /// be spawned: true exactly when the engine was not already
    /// running, so a second consecutive start spawns nothing.
    pub fn start(&mut self) -> (spawned: bool)
        requires
            old(self).inv(),
        ensures
            final(self).inv(),
            spawned == !old(self).running,
            !spawned ==> *final(self) == *old(self),
            spawned ==> {
                &&& final(self).running
                &&& final(self).phase is Active
                &&& final(self).item_models() == Seq::<SourceModel>::empty()
                &&& final(self).history_urls() == Seq::<Seq<char>>::empty()
                &&& final(self).bus == old(self).bus
                &&& final(self).session_events() == Seq::<EventModel>::empty()
                &&& final(self).target == old(self).target
                &&& final(self).custom_topics@ == old(self).custom_topics@
                &&& final(self).topic_idx == 0
                &&& final(self).repo_idx == 0
            },
    {
        if self.running {
            return false;
        }
        self.running = true;
        self.phase = Phase::Active;
        self.items = Vec::new();
        self.history = Vec::new();
        self.topic_idx = 0;
        self.repo_idx = 0;
        let len = self.bus.events.len();
        self.session_start = Ghost(len as int);
        proof {
            assert(self.session_events() =~= Seq::<EventModel>::empty());
            assert(self.item_models() =~= Seq::<SourceModel>::empty());
            assert(self.history_urls() =~= Seq::<Seq<char>>::empty());
        }
        true
    }

    /// Signal the active session to stop: safe to issue repeatedly and
    /// while idle, where it changes nothing.
    pub fn stop(&mut self)
        requires
            old(self).inv(),
        ensures
            final(self).inv(),
            !final(self).running,
            !old(self).running ==> *final(self) == *old(self),
            final(self).phase == old(self).phase,
            final(self).items@ == old(self).items@,
            final(self).history@ == old(self).history@,
            final(self).bus == old(self).bus,
            final(self).target == old(self).target,
            final(self).custom_topics@ == old(self).custom_topics@,
            final(self).topic_idx == old(self).topic_idx,
            final(self).repo_idx == old(self).repo_idx,
            final(self).session_start == old(self).session_start,
    {
        self.running = false;
    }

    /// Set the stop threshold; takes effect at the loop's next check.
    pub fn set_target(&mut self, target: u32)
        requires
            old(self).inv(),
        ensures
            final(self).inv(),
            final(self).target == target,
            final(self).running == old(self).running,
            final(self).phase == old(self).phase,
            final(self).items@ == old(self).items@,
            final(self).history@ == old(self).history@,
            final(self).bus == old(self).bus,
            final(self).custom_topics@ == old(self).custom_topics@,
            final(self).topic_idx == old(self).topic_idx,
            final(self).repo_idx == old(self).repo_idx,
            final(self).session_start == old(self).session_start,
    {
        self.target = target;
    }

    fn publish(&mut self, e: AppEvent)
        requires
            old(self).inv(),
            match e@ {
                EventModel::Status { running, count, .. } => count as int == old(
                    self,
                ).item_models().len() && running && old(self).phase is Active,
                EventModel::Found(_) => false,
                EventModel::Log { .. } => true,
            },
        ensures
            final(self).inv(),
            final(self).bus@ == old(self).bus@.push(e@),
            final(self).session_events() == old(self).session_events().push(e@),
            final(self).bus.capacity == old(self).bus.capacity,
            final(self).running == old(self).running,
            final(self).phase == old(self).phase,
            final(self).items@ == old(self).items@,
            final(self).history@ == old(self).history@,
            final(self).target == old(self).target,
            final(self).custom_topics@ == old(self).custom_topics@,
            final(self).topic_idx == old(self).topic_idx,
            final(self).repo_idx == old(self).repo_idx,
            final(self).session_start == old(self).session_start,
    {
        let ghost pre = *self;
        self.bus.publish(e);
        proof {
            lemma_skip_push(pre.bus@, pre.session_start@, e@);
            lemma_found_push(pre.session_events(), e@);
            lemma_statuses_push(pre.session_events(), e@);
            lemma_paired_push(pre.session_events(), e@);
        }
    }

    /// Publish one advisory log line.
    pub fn log(&mut self, level: &str, msg: String, time: String)
        requires
            old(self).inv(),
        ensures
            final(self).inv(),
            final(self).session_events() == old(self).session_events().push(
                EventModel::Log { time: time@, msg: msg@, level: level@ },
            ),
            final(self).bus@ == old(self).bus@.push(
                EventModel::Log { time: time@, msg: msg@, level: level@ },
            ),
            final(self).running == old(self).running,
            final(self).phase == old(self).phase,
            final(self).items@ == old(self).items@,
            final(self).history@ == old(self).history@,
            final(self).target == old(self).target,
            final(self).custom_topics@ == old(self).custom_topics@,
            final(self).topic_idx == old(self).topic_idx,
            final(self).repo_idx == old(self).repo_idx,
            final(self).session_start == old(self).session_start,
            final(self).bus.capacity == old(self).bus.capacity,
    {
        let e = AppEvent::Log { time, msg, level: String::from_str(level) };
        self.publish(e);
    }

    /// Publish one advisory log line stamped with the clock's time.
    pub fn log_now(&mut self, level: &str, msg: String)
        requires
            old(self).inv(),
        ensures
            final(self).inv(),
            exists|t: Seq<char>|
                final(self).session_events() == old(self).session_events().push(
                    EventModel::Log { time: t, msg: msg@, level: level@ },
                ),
            final(self).running == old(self).running,
            final(self).phase == old(self).phase,
            final(self).items@ == old(self).items@,
            final(self).history@ == old(self).history@,
            final(self).target == old(self).target,
            final(self).custom_topics@ == old(self).custom_topics@,
            final(self).topic_idx == old(self).topic_idx,
            final(self).repo_idx == old(self).repo_idx,
            final(self).session_start == old(self).session_start,
            final(self).bus.capacity == old(self).bus.capacity,
    {
        let time = now_hms();
        let ghost t = time@;
        self.log(level, msg, time);
        proof {
            assert(self.session_events() == old(self).session_events().push(
                EventModel::Log { time: t, msg: msg@, level: level@ },
            ));
        }
    }

    /// Accept one discovered item: append it, record its URL in the
    /// history, and publish `Found` followed by a status snapshot.
    /// Refuses (and changes nothing) when no session runs, when the
    /// target is already met, or when the URL was already seen — so no
    /// session ever carries two items with the same URL and no item is
    /// added past the target.
    pub fn add_source(&mut self, source: Source) -> (added: bool)
        requires
            old(self).inv(),
        ensures
            final(self).inv(),
            added == (old(self).running && old(self).items@.len() < old(self).target && !old(
                self,
            ).history_urls().contains(source@.url)),
            !added ==> *final(self) == *old(self),
            added ==> {
                &&& final(self).item_models() == old(self).item_models().push(source@)
                &&& final(self).history_urls() == old(self).history_urls().push(source@.url)
                &&& final(self).session_events() == old(self).session_events() + seq![
                    EventModel::Found(source@),
                    EventModel::Status {
                        running: true,
                        count: (old(self).items@.len() + 1) as u32,
                        target: old(self).target,
                        has_custom_topics: old(self).custom_topics@.len() > 0,
                    },
                ]
                &&& final(self).running == old(self).running
                &&& final(self).phase == old(self).phase
                &&& final(self).target == old(self).target
                &&& final(self).custom_topics@ == old(self).custom_topics@
                &&& final(self).topic_idx == old(self).topic_idx
                &&& final(self).repo_idx == old(self).repo_idx
                &&& final(self).session_start == old(self).session_start
                &&& final(self).bus.capacity == old(self).bus.capacity
            },
    {
        if !self.running {
            return false;
        }
        if self.items.len() >= self.target as usize {
            return false;
        }
        if self.history_contains(&source.url) {
            return false;
        }
        let ghost pre = *self;
        self.history.push(source.url.clone());
        self.items.push(source.clone());
        proof {
            assert(self.history_urls() =~= pre.history_urls().push(source@.url));
            assert(self.item_models() =~= pre.item_models().push(source@));
        }
        let ghost mid = *self;
        let found = AppEvent::Found(source);
        let ghost fm = found@;
        self.bus.publish(found);
        proof {
            lemma_skip_push(mid.bus@, mid.session_start@, fm);
            lemma_found_push(mid.session_events(), fm);
            lemma_statuses_push(mid.session_events(), fm);
        }
        let ghost mid2 = *self;
        let count = self.items.len() as u32;
        let status = AppEvent::Status {
            running: true,
            count,
            target: self.target,
            has_custom_topics: self.custom_topics.len() > 0,
        };
        let ghost sm = status@;
        self.bus.publish(status);
        proof {
            lemma_skip_push(mid2.bus@, mid2.session_start@, sm);
            lemma_found_push(mid2.session_events(), sm);
            lemma_statuses_push(mid2.session_events(), sm);
            assert(self.session_events() =~= pre.session_events() + seq![fm, sm]);
            assert forall|k: int|
                0 <= k < self.session_events().len() && (#[trigger] self.session_events()[k])
                    is Found implies k + 1 < self.session_events().len()
                && self.session_events()[k + 1] is Status by {
                let es0 = pre.session_events();
                let es2 = self.session_events();
                if k < es0.len() {
                    assert(es2[k] == es0[k]);
                    assert(k + 1 < es0.len());
                    assert(es2[k + 1] == es0[k + 1]);
                } else if k == es0.len() {
                    assert(es2[k + 1] == sm);
                } else {
                    assert(es2[k] == sm);
                }
            }
            assert forall|i: int|
                0 <= i < self.item_models().len() implies self.history_urls().contains(
                #[trigger] self.item_models()[i].url,
            ) by {
                if i < pre.item_models().len() {
                    let u = pre.item_models()[i].url;
                    let w = choose|k: int|
                        0 <= k < pre.history_urls().len() && pre.history_urls()[k] == u;
                    assert(self.history_urls()[w] == u);
                } else {
                    assert(self.history_urls()[pre.history_urls().len() as int] == source@.url);
                }
            }
        }
        true
    }
}

/// The search endpoint a topic query is sent to.
pub open spec fn search_prefix() -> Seq<char> {
    "https://html.duckduckgo.com/html/?q="@
}

/// The query text built for one custom topic.
pub open spec fn query_model(t: Seq<char>) -> Seq<char> {
    "datasets "@ + t + " csv open data"@
}

/// The fixed fallback search once every other strategy is exhausted.
pub open spec fn generic_search_url() -> Seq<char> {
    "https://html.duckduckgo.com/html/?q=open+data+portal+directory+csv"@
}

/// The fixed, ordered list of master repository index documents.
pub open spec fn master_repo_url(i: int) -> Seq<char> {
    if i == 0 {
        "https://raw.githubusercontent.com/awesomedata/awesome-public-datasets/master/README.md"@
    } else if i == 1 {
        "https://raw.githubusercontent.com/datasets/awesome-data/master/README.md"@
    } else {
        "https://raw.githubusercontent.com/onurakpolat/awesome-bigdata/master/README.md"@
    }
}

/// The log line reported when the topic list is replaced.
pub open spec fn topics_loaded_msg(n: int) -> Seq<char> {
    "Cargadas "@ + decimal_of(n) + " tematicas personalizadas."@
}

/// The count a status snapshot reports.
pub open spec fn status_count(ev: EventModel) -> int {
    match ev {
        EventModel::Status { count, .. } => count as int,
        _ => 0,
    }
}

/// The item a `Found` event carries.
pub open spec fn found_source_of(ev: EventModel) -> SourceModel {
    match ev {
        EventModel::Found(s) => s,
        _ => SourceModel { url: Seq::empty(), topic: Seq::empty(), description: Seq::empty() },
    }
}

impl Engine {
    /// Replace the custom topic list and report how many were loaded.
    pub fn set_topics(&mut self, topics: Vec<String>, time: String)
        requires
            old(self).inv(),
        ensures
            final(self).inv(),
            final(self).custom_topics@ == topics@,
            final(self).session_events() == old(self).session_events().push(
                EventModel::Log {
                    time: time@,
                    msg: topics_loaded_msg(topics@.len() as int),
                    level: "SUCCESS"@,
                },
            ),
            final(self).running == old(self).running,
            final(self).phase == old(self).phase,
            final(self).items@ == old(self).items@,
            final(self).history@ == old(self).history@,
            final(self).target == old(self).target,
            final(self).session_start == old(self).session_start,
            final(self).bus.capacity == old(self).bus.capacity,
    {
        let n = topics.len();
        self.custom_topics = topics;
        let mut msg = String::from_str("Cargadas ");
        let num = u64_to_string(n as u64);
        msg.append(num.as_str());
        msg.append(" tematicas personalizadas.");
        self.log("SUCCESS", msg, time);
    }

    /// The topic the next custom-topic round will use.
    pub open spec fn round_topic(self) -> Seq<char>
        recommends
            self.custom_topics@.len() > 0,
    {
        self.custom_topics@[(self.topic_idx as int) % (self.custom_topics@.len() as int)]@
    }

    /// The resource the next round fetches, by strategy priority:
    /// custom-topic search, then unexhausted master repositories, then
    /// the generic fallback search.
    pub open spec fn round_url_model(self) -> Seq<char> {
        if self.custom_topics@.len() > 0 {
            search_prefix() + url_encoded(query_model(self.round_topic()))
        } else if self.repo_idx < 3 {
            master_repo_url(self.repo_idx as int)
        } else {
            generic_search_url()
        }
    }

    /// The log line the next round announces itself with.
    pub open spec fn round_log_msg(self) -> Seq<char> {
        if self.custom_topics@.len() > 0 {
            "Buscando tematica CSV: "@ + self.round_topic()
        } else if self.repo_idx < 3 {
            "Escaneando repositorio maestro #"@ + decimal_of(self.repo_idx + 1) + "..."@
        } else {
            "Generando busqueda web generica..."@
        }
    }

    pub open spec fn round_log_level(self) -> Seq<char> {
        if self.custom_topics@.len() == 0 && self.repo_idx < 3 {
            "WARN"@
        } else {
            "INFO"@
        }
    }

    /// Pick the strategy for one discovery round: log it, advance the
    /// chosen strategy's cursor (the topic cursor wraps, the repository
    /// cursor does not), and return the URL whose text the round reads.
    pub fn begin_round(&mut self, time: String) -> (url: String)
        requires
            old(self).inv(),
        ensures
            final(self).inv(),
            url@ == old(self).round_url_model(),
            final(self).session_events() == old(self).session_events().push(
                EventModel::Log {
                    time: time@,
                    msg: old(self).round_log_msg(),
                    level: old(self).round_log_level(),
                },
            ),
            old(self).custom_topics@.len() > 0 ==> final(self).topic_idx == (
            (old(self).topic_idx as int) % (old(self).custom_topics@.len() as int) + 1) % (
            old(self).custom_topics@.len() as int) && final(self).repo_idx == old(self).repo_idx,
            old(self).custom_topics@.len() == 0 && old(self).repo_idx < 3
                ==> final(self).repo_idx == old(self).repo_idx + 1
                && final(self).topic_idx == old(self).topic_idx,
            old(self).custom_topics@.len() == 0 && old(self).repo_idx >= 3
                ==> final(self).repo_idx == old(self).repo_idx
                && final(self).topic_idx == old(self).topic_idx,
            final(self).running == old(self).running,
            final(self).phase == old(self).phase,
            final(self).items@ == old(self).items@,
            final(self).history@ == old(self).history@,
            final(self).target == old(self).target,
            final(self).custom_topics@ == old(self).custom_topics@,
            final(self).session_start == old(self).session_start,
            final(self).bus.capacity == old(self).bus.capacity,
    {
        if self.custom_topics.len() > 0 {
            let idx = self.topic_idx % self.custom_topics.len();
            let t = self.custom_topics[idx].clone();
            let mut msg = String::from_str("Buscando tematica CSV: ");
            msg.append(t.as_str());
            let mut query = String::from_str("datasets ");
            query.append(t.as_str());
            query.append(" csv open data");
            let enc = encode_component(query.as_str());
            let mut u = String::from_str("https://html.duckduckgo.com/html/?q=");
            u.append(enc.as_str());
            self.topic_idx = (idx + 1) % self.custom_topics.len();
            self.log("INFO", msg, time);
            u
        } else if self.repo_idx < 3 {
            let mut msg = String::from_str("Escaneando repositorio maestro #");
            let num = u64_to_string((self.repo_idx + 1) as u64);
            msg.append(num.as_str());
            msg.append("...");
            let u = if self.repo_idx == 0 {
                String::from_str(
                    "https://raw.githubusercontent.com/awesomedata/awesome-public-datasets/master/README.md",
                )
            } else if self.repo_idx == 1 {
                String::from_str(
                    "https://raw.githubusercontent.com/datasets/awesome-data/master/README.md",
                )
            } else {
                String::from_str(
                    "https://raw.githubusercontent.com/onurakpolat/awesome-bigdata/master/README.md",
                )
            };
            self.repo_idx = self.repo_idx + 1;
            self.log("WARN", msg, time);
            u
        } else {
            self.log("INFO", String::from_str("Generando busqueda web generica..."), time);
            String::from_str("https://html.duckduckgo.com/html/?q=open+data+portal+directory+csv")
        }
    }

    /// What the round does with one extracted candidate.
    pub open spec fn decision_model(self, u: Seq<char>) -> Decision {
        if !self.running || self.items@.len() >= self.target {
            Decision::Halt
        } else if is_noise(u) || self.history_urls().contains(u) {
            Decision::Skip
        } else {
            Decision::Accept
        }
    }

    /// Judge one candidate: halt the round once the run flag fell or
    /// the target is met; skip noise and URLs already seen; accept the
    /// rest for classification.
    pub fn candidate_decision(&self, url: &String) -> (d: Decision)
        ensures
            d == self.decision_model(url@),
    {
        if !self.running || self.items.len() >= self.target as usize {
            Decision::Halt
        } else if contains_str(url.as_str(), "duckduckgo") || contains_str(
            url.as_str(),
            "github.com",
        ) || url.as_str().unicode_len() < 20 {
            Decision::Skip
        } else if self.history_contains(url) {
            Decision::Skip
        } else {
            Decision::Accept
        }
    }

    /// End the active session: publish the final summary log and the
    /// final status snapshot (with `running == false`), then clear the
    /// run flag. A no-op unless a session is active, so each session
    /// gets exactly one finale.
    pub fn finish(&mut self, time: String)
        requires
            old(self).inv(),
        ensures
            final(self).inv(),
            !(old(self).phase is Active) ==> *final(self) == *old(self),
            old(self).phase is Active ==> {
                &&& !final(self).running
                &&& final(self).phase is Done
                &&& final(self).session_events() == old(self).session_events() + seq![
                    EventModel::Log {
                        time: time@,
                        msg: "Caza finalizada."@,
                        level: "SUCCESS"@,
                    },
                    EventModel::Status {
                        running: false,
                        count: old(self).items@.len() as u32,
                        target: old(self).target,
                        has_custom_topics: old(self).custom_topics@.len() > 0,
                    },
                ]
                &&& final(self).items@ == old(self).items@
                &&& final(self).history@ == old(self).history@
                &&& final(self).target == old(self).target
                &&& final(self).custom_topics@ == old(self).custom_topics@
                &&& final(self).topic_idx == old(self).topic_idx
                &&& final(self).repo_idx == old(self).repo_idx
                &&& final(self).session_start == old(self).session_start
                &&& final(self).bus.capacity == old(self).bus.capacity
            },
    {
        match self.phase {
            Phase::Active => {},
            _ => {
                return ;
            },
        }
        let ghost pre = *self;
        self.log("SUCCESS", String::from_str("Caza finalizada."), time);
        let ghost mid = *self;
        let count = self.items.len() as u32;
        let status = AppEvent::Status {
            running: false,
            count,
            target: self.target,
            has_custom_topics: self.custom_topics.len() > 0,
        };
        let ghost sm = status@;
        self.bus.publish(status);
        self.running = false;
        self.phase = Phase::Done;
        proof {
            lemma_skip_push(mid.bus@, mid.session_start@, sm);
            lemma_found_push(mid.session_events(), sm);
            lemma_statuses_push(mid.session_events(), sm);
            lemma_paired_push(mid.session_events(), sm);
            assert(self.session_events() =~= pre.session_events() + seq![
                EventModel::Log { time: time@, msg: "Caza finalizada."@, level: "SUCCESS"@ },
                sm,
            ]);
        }
    }

    /// The built-in seed items, published at the start of every
    /// session through the normal accept path.
    pub fn seed_list() -> (r: Vec<Source>)
        ensures
            r@.map_values(|s: Source| s@) == seed_models(),
    {
        let mut v: Vec<Source> = Vec::new();
        v.push(
            Source {
                url: String::from_str("https://www.kaggle.com/datasets"),
                topic: String::from_str("CIENCIA DE DATOS"),
                description: String::from_str("Repositorio masivo para Machine Learning."),
            },
        );
        v.push(
            Source {
                url: String::from_str("https://data.worldbank.org/"),
                topic: String::from_str("ECONOMIA"),
                description: String::from_str("Banco Mundial Open Data."),
            },
        );
        v.push(
            Source {
                url: String::from_str("https://archive.ics.uci.edu/"),
                topic: String::from_str("ACADEMIA"),
                description: String::from_str("UCI Machine Learning Library."),
            },
        );
        v.push(
            Source {
                url: String::from_str("https://github.com/awesomedata/awesome-public-datasets"),
                topic: String::from_str("GENERAL"),
                description: String::from_str("Indice maestro de datasets publicos."),
            },
        );
        proof {
            assert(v@.map_values(|s: Source| s@) =~= seed_models());
        }
        v
    }

    /// A fresh bus handle that sees only events published from now on.
    pub fn subscribe(&self) -> (s: Subscriber)
        ensures
            s.cursor == self.bus@.len(),
    {
        self.bus.subscribe()
    }

    /// The next bus event for this subscriber, if any; a handle that
    /// lagged behind more than the bus capacity skips forward.
    pub fn next_event<'a>(&'a self, sub: &mut Subscriber) -> (r: Option<&'a AppEvent>)
        requires
            self.inv(),
        ensures
            ({
                let start = poll_start(
                    self.bus@.len() as int,
                    self.bus.capacity as int,
                    old(sub).cursor as int,
                );
                match r {
                    Option::None => {
                        &&& final(sub).cursor == old(sub).cursor
                        &&& old(sub).cursor >= self.bus@.len()
                    },
                    Option::Some(e) => {
                        &&& old(sub).cursor < self.bus@.len()
                        &&& start < self.bus@.len()
                        &&& e@ == self.bus@[start]
                        &&& final(sub).cursor == start + 1
                        &&& final(sub).cursor > old(sub).cursor
                    },
                }
            }),
    {
        self.bus.poll(sub)
    }

    /// The current item list as the downloadable CSV document.
    pub fn export_csv(&self) -> (r: String)
        ensures
            r@ == csv_export_spec(self.item_models()),
    {
        crate::csv::export_csv(&self.items)
    }

    /// How many items the session has discovered.
    pub fn count(&self) -> (r: u32)
        requires
            self.inv(),
        ensures
            r == self.items@.len(),
    {
        self.items.len() as u32
    }

    /// Whether caller-supplied topics override the built-in strategies.
    pub fn has_custom_topics(&self) -> (r: bool)
        ensures
            r == (self.custom_topics@.len() > 0),
    {
        self.custom_topics.len() > 0
    }
}

/// The built-in seed items as values.
pub open spec fn seed_models() -> Seq<SourceModel> {
    seq![
        SourceModel {
            url: "https://www.kaggle.com/datasets"@,
            topic: "CIENCIA DE DATOS"@,
            description: "Repositorio masivo para Machine Learning."@,
        },
        SourceModel {
            url: "https://data.worldbank.org/"@,
            topic: "ECONOMIA"@,
            description: "Banco Mundial Open Data."@,
        },
        SourceModel {
            url: "https://archive.ics.uci.edu/"@,
            topic: "ACADEMIA"@,
            description: "UCI Machine Learning Library."@,
        },
        SourceModel {
            url: "https://github.com/awesomedata/awesome-public-datasets"@,
            topic: "GENERAL"@,
            description: "Indice maestro de datasets publicos."@,
        },
    ]
}

proof fn lemma_founds_take_succ(es: Seq<EventModel>, k: int)
    requires
        0 <= k < es.len(),
    ensures
        found_sources(es.take(k + 1)) == (match es[k] {
            EventModel::Found(s) => found_sources(es.take(k)).push(s),
            _ => found_sources(es.take(k)),
        }),
{
    assert(es.take(k + 1).drop_last() =~= es.take(k));
    assert(es.take(k + 1).last() == es[k]);
}

proof fn lemma_founds_monotone(es: Seq<EventModel>, i: int, j: int)
    requires
        0 <= i <= j <= es.len(),
    ensures
        found_sources(es.take(i)).len() <= found_sources(es.take(j)).len(),
    decreases j - i,
{
    if i < j {
        lemma_founds_monotone(es, i, j - 1);
        lemma_founds_take_succ(es, j - 1);
    }
}

proof fn lemma_found_prefix_of(es: Seq<EventModel>, k: int)
    requires
        0 <= k <= es.len(),
    ensures
        found_sources(es.take(k)).len() <= found_sources(es).len(),
        forall|p: int|
            0 <= p < found_sources(es.take(k)).len() ==> found_sources(es.take(k))[p]
                == found_sources(es)[p],
    decreases es.len() - k,
{
    if k == es.len() {
        assert(es.take(k) =~= es);
    } else {
        lemma_found_prefix_of(es, k + 1);
        lemma_founds_take_succ(es, k);
    }
}

proof fn lemma_found_event_index(es: Seq<EventModel>, k: int)
    requires
        0 <= k < es.len(),
        es[k] is Found,
    ensures
        found_sources(es.take(k)).len() < found_sources(es).len(),
        found_sources(es)[found_sources(es.take(k)).len() as int] == found_source_of(es[k]),
{
    lemma_founds_take_succ(es, k);
    lemma_found_prefix_of(es, k + 1);
}

/// Dedup law: within one session, no two `Found` events carry the
/// same URL.
pub proof fn lemma_session_dedup(e: Engine, i: int, j: int)
    requires
        e.inv(),
        0 <= i < j < e.session_events().len(),
        e.session_events()[i] is Found,
        e.session_events()[j] is Found,
    ensures
        found_source_of(e.session_events()[i]).url != found_source_of(e.session_events()[j]).url,
{
    let es = e.session_events();
    lemma_found_event_index(es, i);
    lemma_found_event_index(es, j);
    lemma_founds_take_succ(es, i);
    lemma_founds_monotone(es, i + 1, j);
    let fi = found_sources(es.take(i)).len() as int;
    let fj = found_sources(es.take(j)).len() as int;
    assert(fi < fj);
    assert(found_sources(es) == e.item_models());
    assert(e.item_models()[fi].url != e.item_models()[fj].url);
}

/// Monotonic-count law: across successive status snapshots of one
/// session the reported count never decreases.
pub proof fn lemma_status_monotone(e: Engine, i: int, j: int)
    requires
        e.inv(),
        0 <= i <= j < e.session_events().len(),
        e.session_events()[i] is Status,
        e.session_events()[j] is Status,
    ensures
        status_count(e.session_events()[i]) <= status_count(e.session_events()[j]),
{
    let es = e.session_events();
    lemma_founds_monotone(es, i, j);
}

/// Bus-invariant law: every item event of a session is immediately
/// followed by a status snapshot whose count equals the number of
/// items found up to and including that item.
pub proof fn lemma_found_pairing(e: Engine, k: int)
    requires
        e.inv(),
        0 <= k < e.session_events().len(),
        e.session_events()[k] is Found,
    ensures
        k + 1 < e.session_events().len(),
        e.session_events()[k + 1] is Status,
        status_count(e.session_events()[k + 1]) == found_sources(
            e.session_events().take(k + 1),
        ).len(),
{
}

/// Stop-convergence law, acceptance half: once the target is no
/// greater than the current count, every candidate is refused
/// (`add_source` likewise refuses, so no further item event can be
/// published for the session until the target is raised).
pub proof fn lemma_stop_convergence(e: Engine, u: Seq<char>)
    requires
        e.items@.len() >= e.target,
    ensures
        e.decision_model(u) == Decision::Halt,
{
}

/// Stop-convergence law, finale half: a session's log holds exactly
/// one final status (`running == false`) once the session is done, and
/// none before that.
pub proof fn lemma_single_finale(e: Engine)
    requires
        e.inv(),
    ensures
        finale_count(e.session_events()) == (if e.phase is Done {
            1int
        } else {
            0int
        }),
{
}

} // verus!
