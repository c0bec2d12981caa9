use vstd::prelude::*;

verus! {

/// How an entry is kept fresh once it has been bootstrapped.
#[derive(Clone, Copy, Debug, PartialEq, Eq, Structural)]
pub enum RefreshPolicy {
    /// A background loop recomputes the entry every `ttl`, whether or not it is read.
    Eager,
    /// A read that finds the entry older than `ttl` starts one recomputation.
    Lazy,
}

/// The tunable knobs of one entry.
#[derive(Clone, Copy, Debug, PartialEq, Eq, Structural)]
pub struct EntryConfig {
    pub ttl: u64,
    pub policy: RefreshPolicy,
}

/// Why a computation of a cached value failed.
#[derive(Debug)]
pub struct ComputeError {
    pub message: String,
}

/// What became of one refresh attempt.
#[derive(Debug)]
pub enum RefreshOutcome {
    /// The new value replaced the old one.
    Completed,
    /// The computation failed; the previous value stays in place.
    Failed(ComputeError),
}

/// The abstract state of a cache entry.
pub struct EntryView<V> {
    pub value: V,
    pub computed_at: nat,
    pub refreshing: bool,
    pub generation: nat,
    pub ttl: nat,
    pub policy: RefreshPolicy,
}

impl<V> EntryView<V> {
    /// An entry whose first value was computed at `now`.
    pub open spec fn bootstrapped(value: V, now: nat, config: EntryConfig) -> Self {
        EntryView {
            value,
            computed_at: now,
            refreshing: false,
            generation: 1,
            ttl: config.ttl as nat,
            policy: config.policy,
        }
    }

    /// The entry is older than its time to live at `now`.
    pub open spec fn is_stale(self, now: int) -> bool {
        now - self.computed_at > self.ttl
    }

    /// The refresh token has been taken.
    pub open spec fn begun(self) -> Self {
        EntryView { refreshing: true, ..self }
    }

    /// A new value, computed at `now`, has replaced the old one.
    pub open spec fn completed(self, value: V, now: nat) -> Self {
        EntryView {
            value,
            computed_at: now,
            refreshing: false,
            generation: self.generation + 1,
            ..self
        }
    }

    /// The refresh token has been released, everything else kept.
    pub open spec fn aborted(self) -> Self {
        EntryView { refreshing: false, ..self }
    }

    /// A read at `now` is the one that must start a refresh.
    pub open spec fn read_starts_refresh(self, now: int) -> bool {
        self.policy == RefreshPolicy::Lazy && self.is_stale(now) && !self.refreshing
    }

    /// The entry after a read at `now`.
    pub open spec fn after_read(self, now: int) -> Self {
        if self.read_starts_refresh(now) {
            self.begun()
        } else {
            self
        }
    }

    /// The entry after a refresh attempt ended at `now` with `result` (`None` for a failure).
    pub open spec fn finished(self, result: Option<V>, now: nat) -> Self {
        match result {
            Some(v) => self.completed(v, now),
            None => self.aborted(),
        }
    }
}

/// One cached value with its computation time and refresh state.
pub struct CacheEntry<T> {
    value: T,
    computed_at: u64,
    refreshing: bool,
    generation: u64,
    config: EntryConfig,
}

impl<T: View> View for CacheEntry<T> {
    type V = EntryView<T::V>;

    closed spec fn view(&self) -> EntryView<T::V> {
        EntryView {
            value: self.value@,
            computed_at: self.computed_at as nat,
            refreshing: self.refreshing,
            generation: self.generation as nat,
            ttl: self.config.ttl as nat,
            policy: self.config.policy,
        }
    }
}

/// The success value of a computation, as the entry's model sees it.
pub open spec fn result_view<T: View>(result: Result<T, ComputeError>) -> Option<T::V> {
    match result {
        Ok(v) => Some(v@),
        Err(_) => None,
    }
}

impl<T: View> CacheEntry<T> {
    /// An entry holding its first value, computed at `now`.
    pub fn new(value: T, now: u64, config: EntryConfig) -> (r: Self)
        ensures
            r@ == EntryView::bootstrapped(value@, now as nat, config),
    {
        CacheEntry { value, computed_at: now, refreshing: false, generation: 1, config }
    }

    /// The current value and the time it was computed at.
    pub fn read(&self) -> (r: (&T, u64))
        ensures
            r.0@ == self@.value,
            r.1 == self@.computed_at,
    {
        (&self.value, self.computed_at)
    }

    pub fn value(&self) -> (r: &T)
        ensures
            r@ == self@.value,
    {
        &self.value
    }

    pub fn computed_at(&self) -> (r: u64)
        ensures
            r == self@.computed_at,
    {
        self.computed_at
    }

    pub fn generation(&self) -> (r: u64)
        ensures
            r == self@.generation,
    {
        self.generation
    }

    pub fn is_refreshing(&self) -> (r: bool)
        ensures
            r == self@.refreshing,
    {
        self.refreshing
    }

    pub fn config(&self) -> (r: EntryConfig)
        ensures
            r.ttl == self@.ttl,
            r.policy == self@.policy,
    {
        self.config
    }

    /// Whether the value is older than the time to live at `now`.
    pub fn is_stale(&self, now: u64) -> (r: bool)
        ensures
            r == self@.is_stale(now as int),
    {
        now > self.computed_at && now - self.computed_at > self.config.ttl
    }

    /// Takes the refresh token if nobody holds it; true only for the caller
    /// that is now responsible for the refresh.
    pub fn try_begin_refresh(&mut self) -> (won: bool)
        ensures
            won == !old(self)@.refreshing,
            final(self)@ == old(self)@.begun(),
    {
        let won = !self.refreshing;
        self.refreshing = true;
        won
    }

    /// Replaces the value, stamps it with `now`, counts one more generation
    /// and releases the refresh token.
    pub fn complete_refresh(&mut self, value: T, now: u64)
        requires
            old(self)@.computed_at <= now,
            old(self)@.generation < u64::MAX,
        ensures
            final(self)@ == old(self)@.completed(value@, now as nat),
    {
        self.value = value;
        self.computed_at = now;
        self.generation = self.generation + 1;
        self.refreshing = false;
    }

    /// Releases the refresh token and keeps the value, its time and its generation.
    pub fn abort_refresh(&mut self)
        ensures
            final(self)@ == old(self)@.aborted(),
    {
        self.refreshing = false;
    }

    /// The read path of the entry: under the lazy policy a read that finds the
    /// entry stale tries to take the refresh token. Returns true when this read
    /// must start the refresh.
    pub fn on_read(&mut self, now: u64) -> (start: bool)
        ensures
            start == old(self)@.read_starts_refresh(now as int),
            final(self)@ == old(self)@.after_read(now as int),
    {
        if self.config.policy == RefreshPolicy::Lazy && self.is_stale(now) {
            self.try_begin_refresh()
        } else {
            false
        }
    }

    /// Ends a refresh attempt: a computed value replaces the old one, a failure
    /// leaves value, time and generation as they were. Either way the token is released.
    pub fn finish_refresh(&mut self, result: Result<T, ComputeError>, now: u64) -> (r:
        RefreshOutcome)
        requires
            old(self)@.computed_at <= now,
            old(self)@.generation < u64::MAX,
        ensures
            final(self)@ == old(self)@.finished(result_view(result), now as nat),
            result is Ok <==> r is Completed,
            result is Err ==> r == RefreshOutcome::Failed(result->Err_0),
    {
        match result {
            Ok(v) => {
                self.complete_refresh(v, now);
                RefreshOutcome::Completed
            },
            Err(e) => {
                self.abort_refresh();
                RefreshOutcome::Failed(e)
            },
        }
    }
}

/// One operation on an entry, as the laws below replay them.
pub enum EntryOp<V> {
    /// A read at the given time.
    Read(int),
    /// A call of `try_begin_refresh`.
    Begin,
    /// A call of `complete_refresh` with a value computed at the given time.
    Complete(V, nat),
    /// A call of `abort_refresh`.
    Abort,
}

/// The entry after one operation.
pub open spec fn apply_op<V>(e: EntryView<V>, op: EntryOp<V>) -> EntryView<V> {
    match op {
        EntryOp::Read(now) => e.after_read(now),
        EntryOp::Begin => e.begun(),
        EntryOp::Complete(v, now) => e.completed(v, now),
        EntryOp::Abort => e.aborted(),
    }
}

/// The entry after a sequence of operations, in order.
pub open spec fn apply_ops<V>(e: EntryView<V>, ops: Seq<EntryOp<V>>) -> EntryView<V>
    decreases ops.len(),
{
    if ops.len() == 0 {
        e
    } else {
        apply_op(apply_ops(e, ops.drop_last()), ops.last())
    }
}

/// How many of consecutive reads at the given times start a refresh.
pub open spec fn refreshes_started<V>(e: EntryView<V>, times: Seq<int>) -> nat
    decreases times.len(),
{
    if times.len() == 0 {
        0
    } else {
        (if e.read_starts_refresh(times[0]) {
            1nat
        } else {
            0nat
        }) + refreshes_started(e.after_read(times[0]), times.drop_first())
    }
}

/// The generation never decreases, whatever operations are applied.
pub proof fn lemma_generation_monotone<V>(e: EntryView<V>, ops: Seq<EntryOp<V>>)
    ensures
        apply_ops(e, ops).generation >= e.generation,
    decreases ops.len(),
{
    if ops.len() > 0 {
        lemma_generation_monotone(e, ops.drop_last());
    }
}

/// After a refresh completes with a value, every later read returns that value
/// until the next refresh completes: reads, token grabs and aborts never bring
/// back an older value. The generation of the completed refresh is kept too.
pub proof fn lemma_read_after_complete<V>(
    e: EntryView<V>,
    ops: Seq<EntryOp<V>>,
    k: int,
    v: V,
    now: nat,
)
    requires
        0 <= k < ops.len(),
        ops[k] == EntryOp::Complete(v, now),
        forall|j: int| k < j < ops.len() ==> !(#[trigger] ops[j] is Complete),
    ensures
        apply_ops(e, ops).value == v,
        apply_ops(e, ops).computed_at == now,
        apply_ops(e, ops).generation == apply_ops(e, ops.take(k)).generation + 1,
    decreases ops.len(),
{
    if k == ops.len() - 1 {
        assert(ops.drop_last() =~= ops.take(k));
    } else {
        let prefix = ops.drop_last();
        assert forall|j: int| k < j < prefix.len() implies !(#[trigger] prefix[j] is Complete) by {
            assert(prefix[j] == ops[j]);
        }
        lemma_read_after_complete(e, prefix, k, v, now);
        assert(prefix.take(k) =~= ops.take(k));
        assert(!(ops[ops.len() - 1] is Complete));
    }
}

/// Reads against an entry whose refresh is already in flight start nothing.
pub proof fn lemma_no_refresh_while_in_flight<V>(e: EntryView<V>, times: Seq<int>)
    requires
        e.refreshing,
    ensures
        refreshes_started(e, times) == 0,
    decreases times.len(),
{
    if times.len() > 0 {
        lemma_no_refresh_while_in_flight(e.after_read(times[0]), times.drop_first());
    }
}

/// Single flight: of any number of reads against a stale lazy entry with no
/// refresh in flight, exactly one starts a refresh before that refresh completes.
pub proof fn lemma_single_flight<V>(e: EntryView<V>, times: Seq<int>)
    requires
        e.policy == RefreshPolicy::Lazy,
        !e.refreshing,
        times.len() >= 1,
        forall|i: int| 0 <= i < times.len() ==> e.is_stale(#[trigger] times[i]),
    ensures
        refreshes_started(e, times) == 1,
{
    assert(e.read_starts_refresh(times[0]));
    lemma_no_refresh_while_in_flight(e.begun(), times.drop_first());
}

} // verus!
