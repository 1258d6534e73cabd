//! The replication client: routes events to backend workers, batches the
//! startup burst, keeps the slot-status lane in order, and decides what a
//! failed write becomes.
//!
//! The client performs no I/O. Each submission returns the writes that the
//! caller must carry out, in order, each on the worker or lane it names.
use vstd::prelude::*;
use vstd::utf8::encode_utf8;
use std::ops::Deref;

verus! {

/// Workers when the configuration names none.
pub const DEFAULT_THREADS: usize = 10;

/// Startup batch capacity when the configuration names none.
pub const DEFAULT_BATCH_SIZE: usize = 10;

/// Local retries of a transient failure when the configuration names none.
pub const DEFAULT_MAX_RETRIES: u32 = 3;

/// Pause before the first retry, in milliseconds, when the configuration
/// names none; each further retry waits that much longer again.
pub const DEFAULT_RETRY_DELAY_MS: u32 = 100;

/// An update of one account.
pub struct AccountEvent {
    /// Address of the account.
    pub pubkey: String,
    /// Address of the account's owner.
    pub owner: String,
    /// Slot of the update.
    pub slot: u64,
    /// The account's contents, opaque here.
    pub payload: Vec<u8>,
    /// The update belongs to the startup replay.
    pub is_startup: bool,
}

/// The state a slot has reached.
#[derive(Clone, Copy, Debug, PartialEq, Eq, Structural)]
pub enum SlotStatus {
    Processed,
    Confirmed,
    Rooted,
}

/// A change of a slot's status.
#[derive(Clone, Copy, Debug, PartialEq, Eq, Structural)]
pub struct SlotEvent {
    pub slot: u64,
    pub parent: Option<u64>,
    pub status: SlotStatus,
}

/// A transaction.
pub struct TransactionEvent {
    /// The transaction is a vote.
    pub is_vote: bool,
    /// The addresses the transaction mentions, in order.
    pub mentions: Vec<String>,
    pub slot: u64,
    /// The transaction itself, opaque here.
    pub payload: Vec<u8>,
}

/// Metadata of a block.
pub struct BlockEvent {
    pub slot: u64,
    /// The metadata, opaque here.
    pub payload: Vec<u8>,
}

/// One write for the caller to carry out against the backend.
pub enum Write {
    /// Account updates, to be written in order by the worker `worker`.
    Accounts { worker: usize, events: Vec<AccountEvent> },
    /// A slot status, on the slot-status lane.
    Slot(SlotEvent),
    /// A transaction.
    Transaction(TransactionEvent),
    /// Block metadata.
    Block(BlockEvent),
}

/// The write `w` hands the account updates `events` to the worker `worker`.
pub open spec fn is_account_write(w: Write, worker: int, events: Seq<AccountEvent>) -> bool {
    match w {
        Write::Accounts { worker: k, events: e } => k == worker && e@ == events,
        _ => false,
    }
}

/// How a backend write failed.
#[derive(Debug)]
pub enum WriteFailure {
    /// Worth retrying: a timeout, a store that is briefly unavailable.
    Transient { msg: String },
    /// Not worth retrying: the store rejected the data.
    Permanent { msg: String },
}

/// What the caller does after a failed attempt.
#[derive(Debug)]
pub enum RetryStep {
    /// Wait `delay_ms` milliseconds and try the same write again.
    Retry { delay_ms: u64 },
    /// Give up on the write and report the failure.
    Surface(WriteFailure),
}

/// The life of a client.
#[derive(Clone, Copy, Debug, PartialEq, Eq, Structural)]
pub enum ClientPhase {
    /// The connection pool is live and takes submissions.
    Connected,
    /// Drained and released; takes nothing more.
    Closed,
}

/// Why a submission was not taken.
#[derive(Debug)]
pub enum ClientError {
    /// The client is closed.
    ConnectionAbsent,
}

/// The worker pool settings of a client.
#[derive(Clone, Copy, Debug)]
pub struct ClientSettings {
    pub threads: usize,
    pub batch_size: usize,
    pub max_retries: u32,
    pub retry_delay_ms: u32,
}

/// Hash of the bytes `b` into `n` buckets: a base-31 polynomial, reduced
/// after each byte.
pub open spec fn route_hash(b: Seq<u8>, n: nat) -> nat
    decreases b.len(),
{
    if b.len() == 0 || n == 0 {
        0
    } else {
        ((route_hash(b.drop_last(), n) * 31 + b.last()) % (n as int)) as nat
    }
}

/// The worker that handles the account at `address` among `n` workers.
pub open spec fn worker_of(address: Seq<char>, n: nat) -> nat {
    route_hash(encode_utf8(address), n)
}

/// The worker, among `n`, that handles the account at `address`: the same
/// address always goes to the same worker.
pub fn route(address: &String, n: usize) -> (r: usize)
    requires
        n > 0,
    ensures
        r == worker_of(address@, n as nat),
        r < n,
{
    let b: &[u8] = address.deref().as_bytes();
    let ghost bs = b@;
    let mut h: u128 = 0;
    let mut i: usize = 0;
    while i < b.len()
        invariant
            i <= b.len(),
            b@ == bs,
            bs == encode_utf8(address@),
            n > 0,
            h < n,
            h == route_hash(bs.subrange(0, i as int), n as nat),
        decreases b.len() - i,
    {
        assert(bs.subrange(0, i + 1).drop_last() =~= bs.subrange(0, i as int));
        assert(h * 31 + 255 < 0x1_0000_0000_0000_0000_0000_0000u128) by (nonlinear_arith)
            requires
                h < n,
                n <= usize::MAX,
        ;
        h = (h * 31 + b[i] as u128) % (n as u128);
        i = i + 1;
    }
    assert(bs.subrange(0, bs.len() as int) =~= bs);
    h as usize
}

/// The pause before retry number `attempt + 1`.
pub open spec fn backoff(delay_ms: u32, attempt: u32) -> int {
    delay_ms * (attempt + 1)
}

/// The replication client.
pub struct ReplicationClient {
    phase: ClientPhase,
    settings: ClientSettings,
    panic_on_db_errors: bool,
    /// Startup account updates waiting, one buffer per worker.
    buffers: Vec<Vec<AccountEvent>>,
    /// Every slot status handed to the slot-status lane, in order.
    slot_lane: Ghost<Seq<SlotEvent>>,
}

impl ReplicationClient {
    /// The state is consistent: one buffer per worker, none above capacity.
    pub closed spec fn wf(&self) -> bool {
        &&& self.settings.threads > 0
        &&& self.settings.batch_size > 0
        &&& self.buffers@.len() == self.settings.threads
        &&& forall|w: int|
            0 <= w < self.buffers@.len() ==> #[trigger] self.buffers@[w]@.len()
                <= self.settings.batch_size
    }

    pub closed spec fn phase(&self) -> ClientPhase {
        self.phase
    }

    pub closed spec fn threads(&self) -> nat {
        self.settings.threads as nat
    }

    pub closed spec fn batch_size(&self) -> nat {
        self.settings.batch_size as nat
    }

    pub closed spec fn max_retries(&self) -> u32 {
        self.settings.max_retries
    }

    pub closed spec fn retry_delay_ms(&self) -> u32 {
        self.settings.retry_delay_ms
    }

    pub closed spec fn fatal(&self) -> bool {
        self.panic_on_db_errors
    }

    /// The startup updates that worker `w` holds, oldest first.
    pub closed spec fn buffered(&self, w: int) -> Seq<AccountEvent> {
        self.buffers@[w]@
    }

    /// The slot statuses handed out so far, in order.
    pub closed spec fn slot_lane(&self) -> Seq<SlotEvent> {
        self.slot_lane@
    }

    /// Every worker's buffer is empty.
    pub open spec fn drained(&self) -> bool {
        forall|w: int| 0 <= w < self.threads() ==> #[trigger] self.buffered(w).len() == 0
    }

    /// A connected client over a live pool with the given settings, and
    /// whether a failed write is fatal.
    pub fn new(settings: ClientSettings, panic_on_db_errors: bool) -> (r: ReplicationClient)
        requires
            settings.threads > 0,
            settings.batch_size > 0,
        ensures
            r.wf(),
            r.phase() == ClientPhase::Connected,
            r.threads() == settings.threads,
            r.batch_size() == settings.batch_size,
            r.max_retries() == settings.max_retries,
            r.retry_delay_ms() == settings.retry_delay_ms,
            r.fatal() == panic_on_db_errors,
            r.drained(),
            r.slot_lane() == Seq::<SlotEvent>::empty(),
    {
        let mut buffers: Vec<Vec<AccountEvent>> = Vec::new();
        let mut i: usize = 0;
        while i < settings.threads
            invariant
                i <= settings.threads,
                buffers@.len() == i,
                forall|w: int| 0 <= w < i ==> #[trigger] buffers@[w]@.len() == 0,
            decreases settings.threads - i,
        {
            buffers.push(Vec::new());
            i = i + 1;
        }
        ReplicationClient {
            phase: ClientPhase::Connected,
            settings,
            panic_on_db_errors,
            buffers,
            slot_lane: Ghost(Seq::empty()),
        }
    }

    /// Whether a failed write ends the process rather than being reported.
    pub fn is_fatal(&self) -> (r: bool)
        ensures
            r == self.fatal(),
    {
        self.panic_on_db_errors
    }

    /// Whether the client takes submissions.
    pub fn is_connected(&self) -> (r: bool)
        ensures
            r == (self.phase() == ClientPhase::Connected),
    {
        self.phase == ClientPhase::Connected
    }

    /// Takes worker `w`'s buffer, leaving it empty.
    fn take_buffer(&mut self, w: usize) -> (r: Vec<AccountEvent>)
        requires
            old(self).wf(),
            w < old(self).threads(),
        ensures
            final(self).wf(),
            r@ == old(self).buffered(w as int),
            final(self).buffered(w as int).len() == 0,
            forall|k: int|
                0 <= k < old(self).threads() && k != w ==> #[trigger] final(self).buffered(k)
                    == old(self).buffered(k),
            final(self).phase() == old(self).phase(),
            final(self).settings == old(self).settings,
            final(self).fatal() == old(self).fatal(),
            final(self).slot_lane() == old(self).slot_lane(),
    {
        let mut r: Vec<AccountEvent> = Vec::new();
        std::mem::swap(&mut r, &mut self.buffers[w]);
        r
    }

    /// `next` is this client with, at most, worker `w`'s buffer changed.
    pub open spec fn same_but_worker(&self, next: &ReplicationClient, w: int) -> bool {
        &&& next.wf()
        &&& next.phase() == self.phase()
        &&& next.threads() == self.threads()
        &&& next.batch_size() == self.batch_size()
        &&& next.max_retries() == self.max_retries()
        &&& next.retry_delay_ms() == self.retry_delay_ms()
        &&& next.fatal() == self.fatal()
        &&& next.slot_lane() == self.slot_lane()
        &&& forall|k: int|
            0 <= k < self.threads() && k != w ==> #[trigger] next.buffered(k) == self.buffered(k)
    }

    /// `next` and `writes` are what taking the account update `event` gives:
    /// an update outside startup is written at once, after whatever its
    /// worker still buffers; a startup update joins its worker's buffer, and a
    /// full buffer is written first.
    pub open spec fn account_submitted(
        &self,
        next: &ReplicationClient,
        event: AccountEvent,
        writes: Seq<Write>,
    ) -> bool {
        let w = worker_of(event.pubkey@, self.threads()) as int;
        let b = self.buffered(w);
        &&& self.same_but_worker(next, w)
        &&& !event.is_startup ==> {
            &&& next.buffered(w).len() == 0
            &&& b.len() == 0 ==> writes.len() == 1 && is_account_write(writes[0], w, seq![event])
            &&& b.len() > 0 ==> writes.len() == 2 && is_account_write(writes[0], w, b)
                && is_account_write(writes[1], w, seq![event])
        }
        &&& event.is_startup && b.len() < self.batch_size() ==> {
            &&& writes.len() == 0
            &&& next.buffered(w) == b.push(event)
        }
        &&& event.is_startup && b.len() >= self.batch_size() ==> {
            &&& writes.len() == 1
            &&& is_account_write(writes[0], w, b)
            &&& next.buffered(w) == seq![event]
        }
    }

    /// `next` and `writes` are what taking the slot status `event` gives: it
    /// is handed to the slot-status lane at once, and nothing else changes.
    pub open spec fn slot_submitted(&self, next: &ReplicationClient, event: SlotEvent, writes: Seq<
        Write,
    >) -> bool {
        &&& writes == seq![Write::Slot(event)]
        &&& next.slot_lane() == self.slot_lane().push(event)
        &&& next.wf()
        &&& next.phase() == self.phase()
        &&& next.threads() == self.threads()
        &&& next.batch_size() == self.batch_size()
        &&& next.max_retries() == self.max_retries()
        &&& next.retry_delay_ms() == self.retry_delay_ms()
        &&& next.fatal() == self.fatal()
        &&& forall|k: int| 0 <= k < self.threads() ==> #[trigger] next.buffered(k) == self.buffered(k)
    }

    /// `next` and `writes` are what the end of startup gives: every buffer is
    /// handed out and emptied, and nothing else changes.
    pub open spec fn startup_ended(&self, next: &ReplicationClient, writes: Seq<Write>) -> bool {
        &&& next.wf()
        &&& next.drained()
        &&& self.flushes(writes)
        &&& next.phase() == self.phase()
        &&& next.threads() == self.threads()
        &&& next.batch_size() == self.batch_size()
        &&& next.max_retries() == self.max_retries()
        &&& next.retry_delay_ms() == self.retry_delay_ms()
        &&& next.fatal() == self.fatal()
        &&& next.slot_lane() == self.slot_lane()
    }

    /// Takes an account update. An update outside startup is written at once,
    /// after whatever its worker still buffers. A startup update joins its
    /// worker's buffer; a full buffer is written first.
    pub fn submit_account(&mut self, event: AccountEvent) -> (r: Result<Vec<Write>, ClientError>)
        requires
            old(self).wf(),
        ensures
            final(self).wf(),
            old(self).phase() == ClientPhase::Closed <==> r is Err,
            r is Err ==> *final(self) == *old(self),
            r is Ok ==> old(self).account_submitted(final(self), event, r->Ok_0@),
    {
        if self.phase == ClientPhase::Closed {
            return Err(ClientError::ConnectionAbsent);
        }
        let ghost e = event;
        let ghost orig = *self;
        let w = route(&event.pubkey, self.settings.threads);
        let mut writes: Vec<Write> = Vec::new();
        if !event.is_startup {
            if self.buffers[w].len() > 0 {
                let pending = self.take_buffer(w);
                writes.push(Write::Accounts { worker: w, events: pending });
            }
            let mut one: Vec<AccountEvent> = Vec::new();
            one.push(event);
            assert(one@ =~= seq![e]);
            writes.push(Write::Accounts { worker: w, events: one });
            return Ok(writes);
        }
        if self.buffers[w].len() >= self.settings.batch_size {
            let pending = self.take_buffer(w);
            writes.push(Write::Accounts { worker: w, events: pending });
        }
        let ghost before = self.buffers@[w as int]@;
        let ghost all_before = self.buffers@;
        let ghost mid = *self;
        self.buffers[w].push(event);
        proof {
            assert(self.buffers@[w as int]@ == before.push(e));
            assert forall|k: int| 0 <= k < self.buffers@.len() && k != w implies #[trigger] self.buffers@[k]
                == all_before[k] by {}
            assert forall|k: int| 0 <= k < self.buffers@.len() implies #[trigger] self.buffers@[k]@.len()
                <= self.settings.batch_size by {
                if k != w {
                    assert(self.buffers@[k] == all_before[k]);
                }
            }
            if writes@.len() > 0 {
                assert(before.push(e) =~= seq![e]);
            }
            assert forall|k: int| 0 <= k < orig.threads() && k != w implies #[trigger] self.buffered(k)
                == orig.buffered(k) by {
                assert(self.buffered(k) == mid.buffered(k));
                assert(mid.buffered(k) == orig.buffered(k));
            }
        }
        Ok(writes)
    }

    /// Takes a slot status and hands it straight to the slot-status lane.
    pub fn submit_slot_status(&mut self, event: SlotEvent) -> (r: Result<Vec<Write>, ClientError>)
        requires
            old(self).wf(),
        ensures
            final(self).wf(),
            old(self).phase() == ClientPhase::Closed <==> r is Err,
            r is Err ==> *final(self) == *old(self),
            r is Ok ==> old(self).slot_submitted(final(self), event, r->Ok_0@),
    {
        if self.phase == ClientPhase::Closed {
            return Err(ClientError::ConnectionAbsent);
        }
        self.slot_lane = Ghost(self.slot_lane@.push(event));
        let mut writes: Vec<Write> = Vec::new();
        writes.push(Write::Slot(event));
        assert(writes@ =~= seq![Write::Slot(event)]);
        Ok(writes)
    }

    /// Takes a transaction; it is written at once.
    pub fn submit_transaction(&self, event: TransactionEvent) -> (r: Result<Vec<Write>, ClientError>)
        ensures
            self.phase() == ClientPhase::Closed <==> r is Err,
            r is Ok ==> r->Ok_0@ == seq![Write::Transaction(event)],
    {
        if self.phase == ClientPhase::Closed {
            return Err(ClientError::ConnectionAbsent);
        }
        let ghost e = event;
        let mut writes: Vec<Write> = Vec::new();
        writes.push(Write::Transaction(event));
        assert(writes@ =~= seq![Write::Transaction(e)]);
        Ok(writes)
    }

    /// Takes block metadata; it is written at once.
    pub fn submit_block_metadata(&self, event: BlockEvent) -> (r: Result<Vec<Write>, ClientError>)
        ensures
            self.phase() == ClientPhase::Closed <==> r is Err,
            r is Ok ==> r->Ok_0@ == seq![Write::Block(event)],
    {
        if self.phase == ClientPhase::Closed {
            return Err(ClientError::ConnectionAbsent);
        }
        let ghost e = event;
        let mut writes: Vec<Write> = Vec::new();
        writes.push(Write::Block(event));
        assert(writes@ =~= seq![Write::Block(e)]);
        Ok(writes)
    }

    /// The workers below `n` whose buffers hold something, in ascending order.
    pub open spec fn pending_workers(&self, n: int) -> Seq<int>
        decreases n,
    {
        if n <= 0 {
            Seq::empty()
        } else if self.buffered(n - 1).len() > 0 {
            self.pending_workers(n - 1).push(n - 1)
        } else {
            self.pending_workers(n - 1)
        }
    }

    /// The writes `writes` carry exactly the non-empty buffers of `self`, one
    /// write per worker, in the order of the workers.
    pub open spec fn flushes(&self, writes: Seq<Write>) -> bool {
        let p = self.pending_workers(self.threads() as int);
        &&& writes.len() == p.len()
        &&& forall|i: int|
            0 <= i < writes.len() ==> #[trigger] is_account_write(
                writes[i],
                p[i],
                self.buffered(p[i]),
            )
    }

    /// Empties every buffer into writes.
    fn flush_all(&mut self) -> (r: Vec<Write>)
        requires
            old(self).wf(),
        ensures
            final(self).wf(),
            final(self).drained(),
            old(self).flushes(r@),
            final(self).phase() == old(self).phase(),
            final(self).threads() == old(self).threads(),
            final(self).batch_size() == old(self).batch_size(),
            final(self).max_retries() == old(self).max_retries(),
            final(self).retry_delay_ms() == old(self).retry_delay_ms(),
            final(self).fatal() == old(self).fatal(),
            final(self).slot_lane() == old(self).slot_lane(),
    {
        let ghost start = *self;
        let mut writes: Vec<Write> = Vec::new();
        let mut w: usize = 0;
        while w < self.settings.threads
            invariant
                self.wf(),
                w <= self.settings.threads,
                self.settings == start.settings,
                self.phase == start.phase,
                self.panic_on_db_errors == start.panic_on_db_errors,
                self.slot_lane@ == start.slot_lane@,
                forall|k: int| 0 <= k < w ==> #[trigger] self.buffered(k).len() == 0,
                forall|k: int|
                    w <= k < self.settings.threads ==> #[trigger] self.buffered(k)
                        == start.buffered(k),
                writes@.len() == start.pending_workers(w as int).len(),
                forall|i: int|
                    0 <= i < writes@.len() ==> #[trigger] is_account_write(
                        writes@[i],
                        start.pending_workers(w as int)[i],
                        start.buffered(start.pending_workers(w as int)[i]),
                    ),
            decreases self.settings.threads - w,
        {
            assert(self.buffered(w as int) == start.buffered(w as int));
            let ghost old_writes = writes@;
            let ghost pending_before = start.pending_workers(w as int);
            if self.buffers[w].len() > 0 {
                let pending = self.take_buffer(w);
                writes.push(Write::Accounts { worker: w, events: pending });
                proof {
                    let pending_after = start.pending_workers(w + 1);
                    assert(pending_after == pending_before.push(w as int));
                    assert forall|i: int| 0 <= i < writes@.len() implies #[trigger] is_account_write(
                        writes@[i],
                        pending_after[i],
                        start.buffered(pending_after[i]),
                    ) by {
                        if i < old_writes.len() {
                            assert(writes@[i] == old_writes[i]);
                            assert(pending_after[i] == pending_before[i]);
                            assert(is_account_write(old_writes[i], pending_before[i], start.buffered(pending_before[i])));
                        }
                    }
                }
            } else {
                assert(start.pending_workers(w + 1) == pending_before);
            }
            w = w + 1;
        }
        writes
    }

    /// Waits for the end of startup: every buffered update is handed out, and
    /// no buffer holds anything afterwards.
    pub fn notify_end_of_startup(&mut self) -> (r: Result<Vec<Write>, ClientError>)
        requires
            old(self).wf(),
        ensures
            final(self).wf(),
            old(self).phase() == ClientPhase::Closed <==> r is Err,
            r is Err ==> *final(self) == *old(self),
            r is Ok ==> old(self).startup_ended(final(self), r->Ok_0@),
    {
        if self.phase == ClientPhase::Closed {
            return Err(ClientError::ConnectionAbsent);
        }
        Ok(self.flush_all())
    }

    /// Stops taking submissions and hands out what is still buffered. A
    /// second call does nothing.
    pub fn drain_and_close(&mut self) -> (r: Vec<Write>)
        requires
            old(self).wf(),
        ensures
            final(self).wf(),
            final(self).phase() == ClientPhase::Closed,
            old(self).phase() == ClientPhase::Closed ==> *final(self) == *old(self) && r@.len()
                == 0,
            old(self).phase() == ClientPhase::Connected ==> final(self).drained()
                && old(self).flushes(r@),
    {
        if self.phase == ClientPhase::Closed {
            return Vec::new();
        }
        let writes = self.flush_all();
        let ghost flushed = *self;
        self.phase = ClientPhase::Closed;
        assert forall|w: int| 0 <= w < self.threads() implies #[trigger] self.buffered(w).len() == 0 by {
            assert(self.buffered(w) == flushed.buffered(w));
        }
        writes
    }

    /// What to do after attempt number `attempt` (counted from zero) of a
    /// write failed with `failure`: a transient failure is retried, after a
    /// pause that grows with each attempt, until the retries are used up;
    /// any other failure is reported at once.
    pub fn after_failure(&self, attempt: u32, failure: WriteFailure) -> (r: RetryStep)
        ensures
            (failure is Transient && attempt < self.max_retries()) ==> r == (RetryStep::Retry {
                delay_ms: backoff(self.retry_delay_ms(), attempt) as u64,
            }),
            !(failure is Transient && attempt < self.max_retries()) ==> r == RetryStep::Surface(
                failure,
            ),
    {
        match failure {
            WriteFailure::Transient { .. } => {
                if attempt < self.settings.max_retries {
                    let d = self.settings.retry_delay_ms as u64;
                    let n = attempt as u64 + 1;
                    assert(d * n <= u64::MAX) by (nonlinear_arith)
                        requires
                            d <= u32::MAX,
                            n <= u32::MAX + 1,
                    ;
                    return RetryStep::Retry { delay_ms: d * n };
                }
                RetryStep::Surface(failure)
            },
            WriteFailure::Permanent { .. } => RetryStep::Surface(failure),
        }
    }
}

/// With a batch size of three, three startup updates for one worker are
/// buffered without any write; the fourth first hands the three out, in order,
/// and is then buffered alone.
pub proof fn lemma_startup_batch_of_three(
    c0: ReplicationClient,
    c1: ReplicationClient,
    c2: ReplicationClient,
    c3: ReplicationClient,
    c4: ReplicationClient,
    e1: AccountEvent,
    e2: AccountEvent,
    e3: AccountEvent,
    e4: AccountEvent,
    w1: Seq<Write>,
    w2: Seq<Write>,
    w3: Seq<Write>,
    w4: Seq<Write>,
)
    requires
        c0.wf(),
        c0.batch_size() == 3,
        e1.is_startup && e2.is_startup && e3.is_startup && e4.is_startup,
        worker_of(e2.pubkey@, c0.threads()) == worker_of(e1.pubkey@, c0.threads()),
        worker_of(e3.pubkey@, c0.threads()) == worker_of(e1.pubkey@, c0.threads()),
        worker_of(e4.pubkey@, c0.threads()) == worker_of(e1.pubkey@, c0.threads()),
        c0.buffered(worker_of(e1.pubkey@, c0.threads()) as int).len() == 0,
        c0.account_submitted(&c1, e1, w1),
        c1.account_submitted(&c2, e2, w2),
        c2.account_submitted(&c3, e3, w3),
        c3.account_submitted(&c4, e4, w4),
    ensures
        w1.len() == 0 && w2.len() == 0 && w3.len() == 0,
        c3.buffered(worker_of(e1.pubkey@, c0.threads()) as int) == seq![e1, e2, e3],
        w4.len() == 1,
        is_account_write(w4[0], worker_of(e1.pubkey@, c0.threads()) as int, seq![e1, e2, e3]),
        c4.buffered(worker_of(e1.pubkey@, c0.threads()) as int) == seq![e4],
{
    let w = worker_of(e1.pubkey@, c0.threads()) as int;
    assert(c0.buffered(w) =~= Seq::<AccountEvent>::empty());
    assert(c1.buffered(w) =~= seq![e1]);
    assert(c2.buffered(w) =~= seq![e1, e2]);
    assert(c3.buffered(w) =~= seq![e1, e2, e3]);
}

/// After the end of startup no worker holds a buffered update, and every
/// update that was buffered has been handed out.
pub proof fn lemma_end_of_startup_flushes_everything(
    c: ReplicationClient,
    next: ReplicationClient,
    writes: Seq<Write>,
    w: int,
)
    requires
        c.wf(),
        c.startup_ended(&next, writes),
        0 <= w < c.threads(),
    ensures
        next.buffered(w).len() == 0,
        c.buffered(w).len() > 0 ==> exists|i: int|
            0 <= i < writes.len() && #[trigger] is_account_write(writes[i], w, c.buffered(w)),
{
    if c.buffered(w).len() > 0 {
        lemma_pending_workers_has(c, c.threads() as int, w);
        let p = c.pending_workers(c.threads() as int);
        let i = choose|i: int| 0 <= i < p.len() && p[i] == w;
        assert(is_account_write(writes[i], p[i], c.buffered(p[i])));
    }
}

/// A worker below `n` with a non-empty buffer is among the pending workers.
proof fn lemma_pending_workers_has(c: ReplicationClient, n: int, w: int)
    requires
        0 <= w < n,
        c.buffered(w).len() > 0,
    ensures
        exists|i: int| 0 <= i < c.pending_workers(n).len() && c.pending_workers(n)[i] == w,
    decreases n,
{
    let p = c.pending_workers(n - 1);
    if w == n - 1 {
        assert(c.pending_workers(n)[p.len() as int] == w);
    } else {
        lemma_pending_workers_has(c, n - 1, w);
        let i = choose|i: int| 0 <= i < p.len() && p[i] == w;
        assert(c.pending_workers(n)[i] == w);
    }
}

/// Slot statuses reach the slot-status lane in the order they were submitted.
pub proof fn lemma_slot_lane_keeps_order(
    c0: ReplicationClient,
    c1: ReplicationClient,
    c2: ReplicationClient,
    c3: ReplicationClient,
    e1: SlotEvent,
    e2: SlotEvent,
    e3: SlotEvent,
    w1: Seq<Write>,
    w2: Seq<Write>,
    w3: Seq<Write>,
)
    requires
        e1.slot < e2.slot < e3.slot,
        c0.slot_submitted(&c1, e1, w1),
        c1.slot_submitted(&c2, e2, w2),
        c2.slot_submitted(&c3, e3, w3),
    ensures
        c3.slot_lane() == c0.slot_lane() + seq![e1, e2, e3],
        w1 == seq![Write::Slot(e1)] && w2 == seq![Write::Slot(e2)] && w3 == seq![Write::Slot(e3)],
{
    assert(c3.slot_lane() =~= c0.slot_lane() + seq![e1, e2, e3]);
}

} // verus!
