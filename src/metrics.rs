//! The registry of connections: admission, the slot table of open
//! connections, and the totals of the connections that have closed.
use vstd::prelude::*;
use crate::export::{export_text, population, render};
use crate::stats::{
    add_sample, combine, elapsed_spec, max_u64, min_u64, elapsed_seconds, empty_aggregate, Aggregate, Client, ClientMetrics,
};

verus! {

/// Handle of one open connection: the index of its slot.
#[derive(Clone, Copy, Debug, PartialEq, Eq)]
pub struct Token {
    pub uid: usize,
}

/// Why a token does not name an open connection.
#[derive(Clone, Copy, Debug, PartialEq, Eq)]
pub enum ClientError {
    /// The slot exists but its connection has closed.
    AlreadyDisconnected,
    /// No slot of that index was ever allocated.
    InvalidToken,
}

impl ClientError {
    /// A short text for logs.
    pub fn message(&self) -> (r: &'static str)
        ensures
            r@ == match self {
                ClientError::AlreadyDisconnected => "Already Disconnected"@,
                ClientError::InvalidToken => "Invalid Token"@,
            },
    {
        match self {
            ClientError::AlreadyDisconnected => "Already Disconnected",
            ClientError::InvalidToken => "Invalid Token",
        }
    }
}

/// The counter that an event on a connection bumps.
#[derive(Clone, Copy, Debug, PartialEq, Eq)]
pub enum Event {
    Chunk,
    Easteregg,
    Banner,
}

/// Number of occupied slots.
pub open spec fn occupied(s: Seq<Option<Client>>) -> nat
    decreases s.len(),
{
    if s.len() == 0 {
        0
    } else {
        occupied(s.drop_last()) + if s.last() is Some {
            1nat
        } else {
            0nat
        }
    }
}

/// `i` is the first free slot of `s`, or `s.len()` when every slot is taken.
pub open spec fn is_first_free(s: Seq<Option<Client>>, i: int) -> bool {
    &&& 0 <= i <= s.len()
    &&& forall|j: int| 0 <= j < i ==> #[trigger] s[j] is Some
    &&& i < s.len() ==> s[i] is None
}

/// `s` with `x` stored at slot `i`, which is either a slot of `s` or the next one.
pub open spec fn place(s: Seq<Option<Client>>, i: int, x: Option<Client>) -> Seq<Option<Client>> {
    if i < s.len() {
        s.update(i, x)
    } else {
        s.push(x)
    }
}

/// What a token names in the slot table: the open connection, or why there is none.
pub open spec fn lookup(s: Seq<Option<Client>>, uid: usize) -> Result<Client, ClientError> {
    if uid >= s.len() {
        Err(ClientError::InvalidToken)
    } else {
        match s[uid as int] {
            Some(c) => Ok(c),
            None => Err(ClientError::AlreadyDisconnected),
        }
    }
}

/// A fresh connection record.
pub open spec fn fresh(start: u64) -> Client {
    Client { start, sent_chunks: 0, sent_eastereggs: 0, sent_banners: 0 }
}

/// `c` after one event of kind `e`; counters stop at `u64::MAX`.
pub open spec fn bump(c: Client, e: Event) -> Client {
    match e {
        Event::Chunk => Client {
            sent_chunks: if c.sent_chunks < u64::MAX { (c.sent_chunks + 1) as u64 } else { u64::MAX },
            ..c
        },
        Event::Easteregg => Client {
            sent_eastereggs: if c.sent_eastereggs < u64::MAX {
                (c.sent_eastereggs + 1) as u64
            } else {
                u64::MAX
            },
            ..c
        },
        Event::Banner => Client {
            sent_banners: if c.sent_banners < u64::MAX { (c.sent_banners + 1) as u64 } else { u64::MAX },
            ..c
        },
    }
}

/// Wrapping successor, as an atomic counter counts.
pub open spec fn wrapping_inc(n: nat) -> nat {
    if n >= usize::MAX {
        0
    } else {
        n + 1
    }
}

/// The totals of the connections that are open at `now`, each with its
/// elapsed time at `now`.
pub open spec fn live_aggregate(s: Seq<Option<Client>>, now: u64) -> Aggregate
    decreases s.len(),
{
    if s.len() == 0 {
        empty_aggregate()
    } else {
        let a = live_aggregate(s.drop_last(), now);
        match s.last() {
            Some(c) => add_sample(a, elapsed_spec(c.start, now), c),
            None => a,
        }
    }
}

/// Registry `v` after an event of kind `e` on the connection in slot `uid`.
pub open spec fn after_event(v: MetricsView, uid: usize, e: Event) -> MetricsView {
    match lookup(v.clients, uid) {
        Err(_) => v,
        Ok(c) => MetricsView { clients: v.clients.update(uid as int, Some(bump(c, e))), ..v },
    }
}

/// What recording an event on slot `uid` of `v` returns.
pub open spec fn event_result(v: MetricsView, uid: usize) -> Result<(), ClientError> {
    match lookup(v.clients, uid) {
        Err(e) => Err(e),
        Ok(_) => Ok(()),
    }
}

/// Registry `v` after the connection in slot `uid` closes at `now`: its
/// elapsed time and counters go into the former totals and its slot is freed.
pub open spec fn after_disconnect(v: MetricsView, uid: usize, now: u64) -> MetricsView {
    match lookup(v.clients, uid) {
        Err(_) => v,
        Ok(c) => MetricsView {
            clients: v.clients.update(uid as int, None),
            former: add_sample(v.former, elapsed_spec(c.start, now), c),
            count: (v.count - 1) as nat,
            ..v
        },
    }
}

/// What closing slot `uid` of `v` at `now` returns: the new live count and
/// the elapsed whole seconds.
pub open spec fn disconnect_result(v: MetricsView, uid: usize, now: u64) -> Result<
    (usize, u64),
    ClientError,
> {
    match lookup(v.clients, uid) {
        Err(e) => Err(e),
        Ok(c) => Ok(((v.count - 1) as usize, elapsed_spec(c.start, now))),
    }
}

/// The snapshot of registry `v` taken at `now` (milliseconds).
pub open spec fn export_view(v: MetricsView, now: u64) -> Seq<char> {
    export_text(
        elapsed_spec(v.startup, now) as nat,
        v.count,
        v.total,
        live_aggregate(v.clients, now),
        v.former,
    )
}

/// The registry as plain values.
pub ghost struct MetricsView {
    /// Start of the process, in milliseconds of a monotonic clock.
    pub startup: u64,
    pub clients: Seq<Option<Client>>,
    /// Totals of the connections that have closed.
    pub former: Aggregate,
    /// Connections open now.
    pub count: nat,
    /// Connections attempted since startup, admitted or not.
    pub total: nat,
}

/// The registry of connections, owned by the server and shared by its sessions.
pub struct Metrics {
    startup: u64,
    clients: Vec<Option<Client>>,
    former_metrics: ClientMetrics,
    connections_count: usize,
    connections_total: usize,
}

impl View for Metrics {
    type V = MetricsView;

    closed spec fn view(&self) -> MetricsView {
        MetricsView {
            startup: self.startup,
            clients: self.clients@,
            former: self.former_metrics@,
            count: self.connections_count as nat,
            total: self.connections_total as nat,
        }
    }
}

proof fn lemma_occupied_bound(s: Seq<Option<Client>>)
    ensures
        occupied(s) <= s.len(),
    decreases s.len(),
{
    if s.len() > 0 {
        lemma_occupied_bound(s.drop_last());
    }
}

proof fn lemma_occupied_update(s: Seq<Option<Client>>, i: int, x: Option<Client>)
    requires
        0 <= i < s.len(),
    ensures
        occupied(s.update(i, x)) + (if s[i] is Some { 1int } else { 0int }) == occupied(s) + (
        if x is Some {
            1int
        } else {
            0int
        }),
    decreases s.len(),
{
    let t = s.update(i, x);
    if i == s.len() - 1 {
        assert(t.drop_last() =~= s.drop_last());
    } else {
        assert(t.drop_last() =~= s.drop_last().update(i, x));
        lemma_occupied_update(s.drop_last(), i, x);
    }
}

proof fn lemma_occupied_push(s: Seq<Option<Client>>, x: Option<Client>)
    ensures
        occupied(s.push(x)) == occupied(s) + if x is Some {
            1nat
        } else {
            0nat
        },
{
    assert(s.push(x).drop_last() =~= s);
}

/// Index of the first free slot of `v`, or its length when every slot is taken.
fn first_free(v: &Vec<Option<Client>>) -> (r: usize)
    ensures
        is_first_free(v@, r as int),
{
    let mut i: usize = 0;
    while i < v.len()
        invariant
            i <= v.len(),
            forall|j: int| 0 <= j < i ==> #[trigger] v@[j] is Some,
        ensures
            i <= v.len(),
            forall|j: int| 0 <= j < i ==> #[trigger] v@[j] is Some,
            i < v.len() ==> v@[i as int] is None,
        decreases v.len() - i,
    {
        if v[i].is_none() {
            break;
        }
        i = i + 1;
    }
    i
}

impl Metrics {
    /// The registry is consistent: the live count is the number of occupied slots.
    pub closed spec fn wf(&self) -> bool {
        self.connections_count as nat == occupied(self.clients@)
    }

    /// An empty registry for a process started at `startup` (milliseconds).
    pub fn new(startup: u64) -> (r: Self)
        ensures
            r.wf(),
            r@ == (MetricsView {
                startup,
                clients: Seq::empty(),
                former: empty_aggregate(),
                count: 0,
                total: 0,
            }),
    {
        let r = Metrics {
            startup,
            clients: Vec::new(),
            former_metrics: ClientMetrics::new(),
            connections_count: 0,
            connections_total: 0,
        };
        assert(r@.clients =~= Seq::<Option<Client>>::empty());
        r
    }

    /// Number of connections open now.
    pub fn connections(&self) -> (r: usize)
        ensures
            r == self@.count,
    {
        self.connections_count
    }

    /// Number of connections attempted since startup.
    pub fn connections_total(&self) -> (r: usize)
        ensures
            r == self@.total,
    {
        self.connections_total
    }

    /// Number of slots in the table; it never shrinks.
    pub fn table_len(&self) -> (r: usize)
        ensures
            r == self@.clients.len(),
    {
        self.clients.len()
    }

    /// The totals of the connections that have closed.
    pub fn former(&self) -> (r: ClientMetrics)
        ensures
            r@ == self@.former,
    {
        self.former_metrics
    }

    /// The record of the connection that `token` names.
    pub fn client(&self, token: &Token) -> (r: Result<Client, ClientError>)
        ensures
            r == lookup(self@.clients, token.uid),
    {
        if token.uid < self.clients.len() {
            match self.clients[token.uid] {
                Some(c) => Ok(c),
                None => Err(ClientError::AlreadyDisconnected),
            }
        } else {
            Err(ClientError::InvalidToken)
        }
    }

    /// Admits a connection that started at `start` unless `max_clients`
    /// connections are open already. Every call counts as an attempt. On
    /// admission the connection takes the first free slot, or a new slot at
    /// the end, and the result is the new live count with the token; on
    /// rejection it is the count that the connection would have made.
    pub fn connect(&mut self, max_clients: usize, start: u64) -> (r: Result<(usize, Token), usize>)
        requires
            old(self).wf(),
            old(self)@.clients.len() < usize::MAX,
        ensures
            final(self).wf(),
            final(self)@.startup == old(self)@.startup,
            final(self)@.former == old(self)@.former,
            final(self)@.total == wrapping_inc(old(self)@.total),
            r is Err <==> old(self)@.count >= max_clients,
            final(self)@.clients.len() >= old(self)@.clients.len(),
            final(self)@.count <= max_clients || final(self)@.count == old(self)@.count,
            match r {
                Err(n) => {
                    &&& n == old(self)@.count + 1
                    &&& final(self)@.count == old(self)@.count
                    &&& final(self)@.clients == old(self)@.clients
                },
                Ok((n, t)) => {
                    &&& n == old(self)@.count + 1
                    &&& final(self)@.count == n
                    &&& is_first_free(old(self)@.clients, t.uid as int)
                    &&& final(self)@.clients == place(
                        old(self)@.clients,
                        t.uid as int,
                        Some(fresh(start)),
                    )
                },
            },
    {
        self.connections_total = if self.connections_total == usize::MAX {
            0
        } else {
            self.connections_total + 1
        };
        proof {
            lemma_occupied_bound(self.clients@);
        }
        let connected = self.connections_count + 1;
        if self.connections_count >= max_clients {
            return Err(connected);
        }
        let client = Client { start, sent_chunks: 0, sent_eastereggs: 0, sent_banners: 0 };
        let i = first_free(&self.clients);
        let ghost before = self.clients@;
        if i < self.clients.len() {
            self.clients.set(i, Some(client));
            proof {
                lemma_occupied_update(before, i as int, Some(client));
            }
        } else {
            self.clients.push(Some(client));
            proof {
                lemma_occupied_push(before, Some(client));
            }
        }
        self.connections_count = connected;
        Ok((connected, Token { uid: i }))
    }

    /// Closes the connection that `token` names at `now` (milliseconds): its
    /// elapsed time and counters go into the totals of former connections and
    /// its slot is freed. The result is the new live count and the elapsed
    /// whole seconds. A token that names no open connection changes nothing.
    pub fn disconnect(&mut self, token: Token, now: u64) -> (r: Result<(usize, u64), ClientError>)
        requires
            old(self).wf(),
        ensures
            final(self).wf(),
            final(self)@.clients.len() == old(self)@.clients.len(),
            r == disconnect_result(old(self)@, token.uid, now),
            final(self)@ == after_disconnect(old(self)@, token.uid, now),
    {
        if token.uid >= self.clients.len() {
            return Err(ClientError::InvalidToken);
        }
        match self.clients[token.uid] {
            None => Err(ClientError::AlreadyDisconnected),
            Some(c) => {
                let d = elapsed_seconds(c.start, now);
                self.former_metrics.add(d, &c);
                let ghost before = self.clients@;
                self.clients.set(token.uid, None);
                proof {
                    lemma_occupied_update(before, token.uid as int, None);
                }
                self.connections_count = self.connections_count - 1;
                Ok((self.connections_count, d))
            },
        }
    }

    /// Bumps the counter of kind `event` of the connection that `token` names.
    /// A token that names no open connection changes nothing.
    pub fn in_client(&mut self, token: &Token, event: Event) -> (r: Result<(), ClientError>)
        requires
            old(self).wf(),
        ensures
            final(self).wf(),
            r == event_result(old(self)@, token.uid),
            final(self)@ == after_event(old(self)@, token.uid, event),
    {
        if token.uid >= self.clients.len() {
            return Err(ClientError::InvalidToken);
        }
        match self.clients[token.uid] {
            None => Err(ClientError::AlreadyDisconnected),
            Some(c) => {
                let mut n = c;
                match event {
                    Event::Chunk => n.sent_chunks = c.sent_chunks.saturating_add(1),
                    Event::Easteregg => n.sent_eastereggs = c.sent_eastereggs.saturating_add(1),
                    Event::Banner => n.sent_banners = c.sent_banners.saturating_add(1),
                }
                let ghost before = self.clients@;
                self.clients.set(token.uid, Some(n));
                proof {
                    lemma_occupied_update(before, token.uid as int, Some(n));
                }
                assert(self.clients@ =~= before.update(token.uid as int, Some(bump(c, event))));
                Ok(())
            },
        }
    }

    /// Counts one chunk sent on the connection that `token` names.
    pub fn sent_chunk(&mut self, token: &Token) -> (r: Result<(), ClientError>)
        requires
            old(self).wf(),
        ensures
            final(self).wf(),
            r == event_result(old(self)@, token.uid),
            final(self)@ == after_event(old(self)@, token.uid, Event::Chunk),
    {
        self.in_client(token, Event::Chunk)
    }

    /// Counts one easter-egg payload sent on the connection that `token` names.
    pub fn sent_easteregg(&mut self, token: &Token) -> (r: Result<(), ClientError>)
        requires
            old(self).wf(),
        ensures
            final(self).wf(),
            r == event_result(old(self)@, token.uid),
            final(self)@ == after_event(old(self)@, token.uid, Event::Easteregg),
    {
        self.in_client(token, Event::Easteregg)
    }

    /// Counts one banner sent on the connection that `token` names.
    pub fn sent_banner(&mut self, token: &Token) -> (r: Result<(), ClientError>)
        requires
            old(self).wf(),
        ensures
            final(self).wf(),
            r == event_result(old(self)@, token.uid),
            final(self)@ == after_event(old(self)@, token.uid, Event::Banner),
    {
        self.in_client(token, Event::Banner)
    }
    /// The totals of the open connections, each with its elapsed time at `now`.
    pub fn live_metrics(&self, now: u64) -> (r: ClientMetrics)
        ensures
            r@ == live_aggregate(self@.clients, now),
    {
        let mut acc = ClientMetrics::new();
        let mut i: usize = 0;
        while i < self.clients.len()
            invariant
                i <= self.clients.len(),
                acc@ == live_aggregate(self.clients@.take(i as int), now),
            decreases self.clients.len() - i,
        {
            match self.clients[i] {
                Some(c) => {
                    let d = elapsed_seconds(c.start, now);
                    acc.add(d, &c);
                },
                None => {},
            }
            assert(self.clients@.take(i + 1).drop_last() =~= self.clients@.take(i as int));
            i = i + 1;
        }
        assert(self.clients@.take(i as int) =~= self.clients@);
        acc
    }

    /// The text snapshot of the registry at `now` (milliseconds). It changes
    /// nothing; the elapsed times of open connections are taken at `now`.
    pub fn export(&self, now: u64) -> (r: String)
        ensures
            r@ == export_view(self@, now),
    {
        let live = self.live_metrics(now);
        render(
            elapsed_seconds(self.startup, now),
            self.connections_count,
            self.connections_total,
            &live,
            &self.former_metrics,
        )
    }
}

proof fn lemma_live_same_durations(s: Seq<Option<Client>>, now1: u64, now2: u64)
    requires
        forall|i: int|
            0 <= i < s.len() && #[trigger] s[i] is Some ==> elapsed_spec(s[i]->0.start, now1)
                == elapsed_spec(s[i]->0.start, now2),
    ensures
        live_aggregate(s, now1) == live_aggregate(s, now2),
    decreases s.len(),
{
    if s.len() > 0 {
        let t = s.drop_last();
        assert forall|i: int|
            0 <= i < t.len() && #[trigger] t[i] is Some implies elapsed_spec(t[i]->0.start, now1)
            == elapsed_spec(t[i]->0.start, now2) by {
            assert(t[i] == s[i]);
        }
        lemma_live_same_durations(t, now1, now2);
        assert(s.last() == s[s.len() - 1]);
    }
}

/// A snapshot changes nothing and depends on the registry and the time only:
/// two snapshots of the same registry are the same text whenever the uptime
/// and the elapsed seconds of each open connection agree at the two instants.
pub proof fn lemma_export_repeatable(v: MetricsView, now1: u64, now2: u64)
    requires
        elapsed_spec(v.startup, now1) == elapsed_spec(v.startup, now2),
        forall|i: int|
            0 <= i < v.clients.len() && #[trigger] v.clients[i] is Some ==> elapsed_spec(
                v.clients[i]->0.start,
                now1,
            ) == elapsed_spec(v.clients[i]->0.start, now2),
    ensures
        export_view(v, now1) == export_view(v, now2),
{
    lemma_live_same_durations(v.clients, now1, now2);
}

/// The snapshot ends with the totals over all connections, and each of them
/// joins the totals of the open connections and of the closed ones: every sum
/// and every histogram bucket is the sum of the two parts (while that fits in
/// `u64`; past it the total stays at `u64::MAX`), the longest connection is
/// the longer of the two and the shortest the shorter.
pub proof fn lemma_total_consistency(v: MetricsView, now: u64)
    ensures
        ({
            let live = live_aggregate(v.clients, now);
            let f = v.former;
            let t = combine(live, f);
            &&& exists|head: Seq<char>|
                export_view(v, now) == head + population("total"@, "overall."@, "overall."@, t)
            &&& live.sent_chunks_sum + f.sent_chunks_sum <= u64::MAX ==> t.sent_chunks_sum
                == live.sent_chunks_sum + f.sent_chunks_sum
            &&& live.sent_eastereggs_sum + f.sent_eastereggs_sum <= u64::MAX
                ==> t.sent_eastereggs_sum == live.sent_eastereggs_sum + f.sent_eastereggs_sum
            &&& live.sent_banners_sum + f.sent_banners_sum <= u64::MAX ==> t.sent_banners_sum
                == live.sent_banners_sum + f.sent_banners_sum
            &&& live.connection_time + f.connection_time <= u64::MAX ==> t.connection_time
                == live.connection_time + f.connection_time
            &&& forall|i: int|
                0 <= i < 32 && live.connection_time_till[i] + f.connection_time_till[i]
                    <= u64::MAX ==> #[trigger] t.connection_time_till[i]
                    == live.connection_time_till[i] + f.connection_time_till[i]
            &&& t.maximum_connection_time == max_u64(
                live.maximum_connection_time,
                f.maximum_connection_time,
            )
            &&& t.minimum_connection_time == min_u64(
                live.minimum_connection_time,
                f.minimum_connection_time,
            )
        }),
{
    let live = live_aggregate(v.clients, now);
    let t = combine(live, v.former);
    let text = export_view(v, now);
    let pop = population("total"@, "overall."@, "overall."@, t);
    let head = text.subrange(0, text.len() - pop.len());
    assert(text == head + pop);
}

} // verus!
