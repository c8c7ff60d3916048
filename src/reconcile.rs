use vstd::prelude::*;

use crate::record::{has_id, has_show, ids_of, texts, Show};
use crate::upstream::UpstreamError;

verus! {

/// The identifiers of `requested` that are not in `found`, each once, in the
/// order of their first occurrence in `requested`.
pub open spec fn misses_of(requested: Seq<Seq<char>>, found: Seq<Seq<char>>) -> Seq<Seq<char>>
    decreases requested.len(),
{
    if requested.len() == 0 {
        Seq::empty()
    } else {
        let earlier = misses_of(requested.drop_last(), found);
        let id = requested.last();
        if found.contains(id) || earlier.contains(id) {
            earlier
        } else {
            earlier.push(id)
        }
    }
}

/// Computes the misses of a request: the identifiers requested that no
/// stored row belongs to, each once, in order of first appearance.
pub fn find_misses(requested: &Vec<String>, rows: &Vec<Show>) -> (r: Vec<String>)
    ensures
        texts(r@) == misses_of(texts(requested@), ids_of(rows@)),
        r@.len() <= requested@.len() <= usize::MAX,
{
    let mut misses: Vec<String> = Vec::new();
    let mut i: usize = 0;
    while i < requested.len()
        invariant
            i <= requested@.len(),
            texts(misses@) == misses_of(texts(requested@).take(i as int), ids_of(rows@)),
            misses@.len() <= i,
        decreases requested@.len() - i,
    {
        let id = &requested[i];
        proof {
            let pre = texts(requested@).take(i as int + 1);
            assert(pre.drop_last() =~= texts(requested@).take(i as int));
            assert(pre.last() == id@);
        }
        if !has_show(rows, id) && !has_id(&misses, id) {
            misses.push(id.clone());
            assert(texts(misses@) =~= misses_of(texts(requested@).take(i as int), ids_of(rows@)).push(id@));
        }
        i = i + 1;
    }
    assert(texts(requested@).take(requested@.len() as int) =~= texts(requested@));
    misses
}

} // verus!

verus! {

/// Why a whole request failed.
#[derive(Debug, PartialEq, Eq)]
pub enum ResolveError {
    /// No identifier was requested.
    InvalidRequest,
    /// The store could not be read or written; carries the store's message.
    StorageError(String),
}

/// What a reconciliation waits for next.
#[derive(Debug, Clone, Copy, PartialEq, Eq, Structural)]
pub enum Phase {
    /// The rows of the bulk lookup.
    AwaitStore,
    /// The answer of the upstream service for the next miss.
    AwaitFetch,
    /// The outcome of writing one fetched record back to the store.
    AwaitInsert,
    /// Nothing: the result has been handed out.
    Finished,
    /// Nothing: the request failed.
    Failed,
}

/// What the caller must do next on behalf of a reconciliation.
#[derive(Debug)]
pub enum Action {
    /// Ask the upstream service for the records of this identifier.
    Fetch(String),
    /// Write this record to the store.
    Insert(Show),
    /// Answer the request with these records.
    Finish(Vec<Show>),
    /// Answer the request with this error.
    Fail(ResolveError),
}

/// The records of a sequence of fetch outcomes, one after another.
pub open spec fn flatten(outcomes: Seq<Seq<Show>>) -> Seq<Show>
    decreases outcomes.len(),
{
    if outcomes.len() == 0 {
        Seq::empty()
    } else {
        flatten(outcomes.drop_last()) + outcomes.last()
    }
}

/// The records that an upstream answer contributes: all it returned, none
/// on failure.
pub open spec fn records_of(result: Result<Vec<Show>, UpstreamError>) -> Seq<Show> {
    match result {
        Ok(v) => v@,
        Err(_) => Seq::empty(),
    }
}

/// Whether `a` asks for the records of `id` upstream.
pub open spec fn fetches(a: Action, id: Seq<char>) -> bool {
    match a {
        Action::Fetch(x) => x@ == id,
        _ => false,
    }
}

/// Whether `a` asks to write `row` to the store.
pub open spec fn inserts(a: Action, row: Show) -> bool {
    match a {
        Action::Insert(r) => r == row,
        _ => false,
    }
}

/// Whether `a` answers the request with exactly `rows`.
pub open spec fn finishes_with(a: Action, rows: Seq<Show>) -> bool {
    match a {
        Action::Finish(out) => out@ == rows,
        _ => false,
    }
}

/// Whether `a` fails the request with the store's message `msg`.
pub open spec fn fails_in_store(a: Action, msg: String) -> bool {
    match a {
        Action::Fail(ResolveError::StorageError(m)) => m == msg,
        _ => false,
    }
}

/// The state of a reconciliation, as a mathematical value.
pub struct ReconcilerView {
    pub phase: Phase,
    /// The identifiers requested, in request order.
    pub requested: Seq<Seq<char>>,
    /// The rows the bulk lookup returned.
    pub hits: Seq<Show>,
    /// The identifiers to fetch upstream, in the order they are fetched.
    pub misses: Seq<Seq<char>>,
    /// What each upstream fetch so far contributed, one entry per miss.
    pub outcomes: Seq<Seq<Show>>,
    /// The fetched records already written back in full, per show.
    pub fetched: Seq<Show>,
    /// The records of the latest fetch that are being written back.
    pub pending: Seq<Show>,
    /// How many records of `pending` have been written.
    pub written: nat,
    /// Every record written to the store so far, in order.
    pub inserted: Seq<Show>,
}

/// The invariant of a reconciliation's state.
pub open spec fn consistent(v: ReconcilerView) -> bool {
    &&& v.requested.len() > 0
    &&& v.phase == Phase::AwaitStore ==> {
        &&& v.hits.len() == 0
        &&& v.outcomes.len() == 0
        &&& v.fetched.len() == 0
        &&& v.pending.len() == 0
        &&& v.inserted.len() == 0
    }
    &&& (v.phase == Phase::AwaitFetch || v.phase == Phase::AwaitInsert || v.phase
        == Phase::Finished) ==> v.misses == misses_of(v.requested, ids_of(v.hits))
    &&& v.phase == Phase::AwaitFetch ==> {
        &&& v.outcomes.len() < v.misses.len()
        &&& v.fetched == flatten(v.outcomes)
        &&& v.pending.len() == 0
        &&& v.inserted == v.fetched
    }
    &&& v.phase == Phase::AwaitInsert ==> {
        &&& 0 < v.outcomes.len() <= v.misses.len()
        &&& v.pending == v.outcomes.last()
        &&& v.fetched == flatten(v.outcomes.drop_last())
        &&& v.written < v.pending.len()
        &&& v.inserted == v.fetched + v.pending.take(v.written as int)
    }
    &&& v.phase == Phase::Finished ==> {
        &&& v.outcomes.len() == v.misses.len()
        &&& v.fetched == flatten(v.outcomes)
        &&& v.pending.len() == 0
        &&& v.inserted == v.fetched
    }
}

/// After the latest fetch has been dealt with: fetch the next miss, or
/// answer with the store rows followed by everything fetched.
pub open spec fn moves_on(v: ReconcilerView, a: Action) -> bool {
    if v.outcomes.len() < v.misses.len() {
        v.phase == Phase::AwaitFetch && fetches(a, v.misses[v.outcomes.len() as int])
    } else {
        v.phase == Phase::Finished && finishes_with(a, v.hits + v.fetched)
    }
}

/// The decisions of one read-through request: which identifiers to fetch
/// upstream, which records to write back, and what to answer.
///
/// The caller performs each returned [`Action`] and reports its outcome back.
pub struct Reconciler {
    requested: Vec<String>,
    hits: Vec<Show>,
    misses: Vec<String>,
    fetched: Vec<Show>,
    pending: Vec<Show>,
    written: usize,
    next_miss: usize,
    phase: Phase,
    outcomes: Ghost<Seq<Seq<Show>>>,
    inserted: Ghost<Seq<Show>>,
}

impl View for Reconciler {
    type V = ReconcilerView;

    closed spec fn view(&self) -> ReconcilerView {
        ReconcilerView {
            phase: self.phase,
            requested: texts(self.requested@),
            hits: self.hits@,
            misses: texts(self.misses@),
            outcomes: self.outcomes@,
            fetched: self.fetched@,
            pending: self.pending@,
            written: self.written as nat,
            inserted: self.inserted@,
        }
    }
}

/// The records of `a` followed by those of `b`.
fn concat_rows(a: &Vec<Show>, b: &Vec<Show>) -> (r: Vec<Show>)
    ensures
        r@ == a@ + b@,
{
    let mut out: Vec<Show> = Vec::new();
    let mut i: usize = 0;
    while i < a.len()
        invariant
            i <= a@.len(),
            out@ == a@.take(i as int),
        decreases a@.len() - i,
    {
        out.push(a[i].clone());
        assert(out@ =~= a@.take(i as int + 1));
        i = i + 1;
    }
    let mut j: usize = 0;
    while j < b.len()
        invariant
            j <= b@.len(),
            out@ == a@ + b@.take(j as int),
        decreases b@.len() - j,
    {
        out.push(b[j].clone());
        assert(out@ =~= a@ + b@.take(j as int + 1));
        j = j + 1;
    }
    assert(a@.take(a@.len() as int) =~= a@);
    assert(b@.take(b@.len() as int) =~= b@);
    out
}

impl Reconciler {
    /// The invariant, with how the fields stand to the view.
    pub closed spec fn wf(&self) -> bool {
        &&& consistent(self@)
        &&& self.misses@.len() <= usize::MAX
        &&& self.pending@.len() <= usize::MAX
        &&& (self.phase == Phase::AwaitFetch || self.phase == Phase::Finished) ==> self.next_miss
            == self.outcomes@.len()
        &&& self.phase == Phase::AwaitInsert ==> self.next_miss + 1 == self.outcomes@.len()
    }

    /// A well-formed reconciliation's state satisfies [`consistent`].
    pub proof fn lemma_consistent(&self)
        requires
            self.wf(),
        ensures
            consistent(self@),
    {
    }

    /// Starts the reconciliation of a request; fails with `InvalidRequest`
    /// exactly when no identifier is requested.
    pub fn new(ids: Vec<String>) -> (r: Result<Reconciler, ResolveError>)
        ensures
            ids@.len() == 0 <==> r is Err,
            r is Err ==> r == Err::<Reconciler, ResolveError>(ResolveError::InvalidRequest),
            r is Ok ==> {
                let v = r->Ok_0@;
                &&& r->Ok_0.wf()
                &&& v.phase == Phase::AwaitStore
                &&& v.requested == texts(ids@)
                &&& v.misses.len() == 0
                &&& v.hits.len() == 0
                &&& v.outcomes.len() == 0
                &&& v.fetched.len() == 0
                &&& v.pending.len() == 0
                &&& v.inserted.len() == 0
            },
    {
        if ids.len() == 0 {
            return Err(ResolveError::InvalidRequest);
        }
        Ok(Reconciler {
            requested: ids,
            hits: Vec::new(),
            misses: Vec::new(),
            fetched: Vec::new(),
            pending: Vec::new(),
            written: 0,
            next_miss: 0,
            phase: Phase::AwaitStore,
            outcomes: Ghost(Seq::empty()),
            inserted: Ghost(Seq::empty()),
        })
    }

    /// What the reconciliation waits for.
    pub fn phase(&self) -> (r: Phase)
        ensures
            r == self@.phase,
    {
        self.phase
    }

    /// The identifiers to look up in the store, all in one bulk query.
    pub fn store_query(&self) -> (r: Vec<String>)
        ensures
            texts(r@) == self@.requested,
    {
        let mut out: Vec<String> = Vec::new();
        let mut i: usize = 0;
        while i < self.requested.len()
            invariant
                i <= self.requested@.len(),
                out@ == self.requested@.take(i as int),
            decreases self.requested@.len() - i,
        {
            out.push(self.requested[i].clone());
            assert(out@ =~= self.requested@.take(i as int + 1));
            i = i + 1;
        }
        assert(out@ =~= self.requested@);
        out
    }

    /// Fetches the next miss, or finishes once every miss was dealt with.
    fn move_on(&mut self) -> (a: Action)
        requires
            old(self)@.requested.len() > 0,
            old(self)@.misses == misses_of(old(self)@.requested, ids_of(old(self)@.hits)),
            old(self).next_miss == old(self)@.outcomes.len() <= old(self)@.misses.len(),
            old(self)@.fetched == flatten(old(self)@.outcomes),
            old(self)@.pending.len() == 0,
            old(self)@.inserted == old(self)@.fetched,
            old(self).misses@.len() <= usize::MAX,
        ensures
            final(self).wf(),
            final(self)@ == (ReconcilerView { phase: final(self)@.phase, ..old(self)@ }),
            moves_on(final(self)@, a),
    {
        if self.next_miss < self.misses.len() {
            self.phase = Phase::AwaitFetch;
            Action::Fetch(self.misses[self.next_miss].clone())
        } else {
            self.phase = Phase::Finished;
            Action::Finish(concat_rows(&self.hits, &self.fetched))
        }
    }

    /// Takes the rows of the bulk lookup, or the store's failure.
    pub fn on_store_rows(&mut self, rows: Result<Vec<Show>, String>) -> (a: Action)
        requires
            old(self).wf(),
            old(self)@.phase == Phase::AwaitStore,
        ensures
            final(self).wf(),
            final(self)@.requested == old(self)@.requested,
            match rows {
                Err(e) => {
                    &&& final(self)@ == (ReconcilerView { phase: Phase::Failed, ..old(self)@ })
                    &&& fails_in_store(a, e)
                },
                Ok(v) => {
                    &&& final(self)@.hits == v@
                    &&& final(self)@.misses == misses_of(old(self)@.requested, ids_of(v@))
                    &&& final(self)@.outcomes.len() == 0
                    &&& final(self)@.fetched.len() == 0
                    &&& final(self)@.pending.len() == 0
                    &&& final(self)@.inserted.len() == 0
                    &&& moves_on(final(self)@, a)
                },
            },
    {
        match rows {
            Err(e) => {
                self.phase = Phase::Failed;
                Action::Fail(ResolveError::StorageError(e))
            },
            Ok(v) => {
                self.misses = find_misses(&self.requested, &v);
                self.hits = v;
                self.next_miss = 0;
                assert(self.outcomes@.len() == 0);
                assert(flatten(self.outcomes@) =~= self.fetched@);
                assert(self.inserted@ =~= self.fetched@);
                self.move_on()
            },
        }
    }

    /// Takes the upstream answer for the miss last asked for. A failed or
    /// empty answer contributes nothing and never fails the request; every
    /// record of a successful answer is written back and returned, whatever
    /// its fields hold.
    pub fn on_fetched(&mut self, result: Result<Vec<Show>, UpstreamError>) -> (a: Action)
        requires
            old(self).wf(),
            old(self)@.phase == Phase::AwaitFetch,
        ensures
            final(self).wf(),
            final(self)@.requested == old(self)@.requested,
            final(self)@.hits == old(self)@.hits,
            final(self)@.misses == old(self)@.misses,
            final(self)@.outcomes == old(self)@.outcomes.push(records_of(result)),
            final(self)@.fetched == old(self)@.fetched,
            final(self)@.inserted == old(self)@.inserted,
            final(self)@.written == 0,
            records_of(result).len() > 0 ==> {
                &&& final(self)@.phase == Phase::AwaitInsert
                &&& final(self)@.pending == records_of(result)
                &&& inserts(a, records_of(result)[0])
            },
            records_of(result).len() == 0 ==> {
                &&& final(self)@.pending.len() == 0
                &&& moves_on(final(self)@, a)
            },
    {
        let got = match result {
            Ok(v) => v,
            Err(_) => Vec::new(),
        };
        assert(got@ == records_of(result)) by {
            if result is Err {
                assert(got@ =~= Seq::<Show>::empty());
            }
        }
        proof {
            let outs = self.outcomes@.push(got@);
            assert(outs.drop_last() =~= self.outcomes@);
            self.outcomes = Ghost(outs);
        }
        if got.len() > 0 {
            self.pending = got;
            self.written = 0;
            self.phase = Phase::AwaitInsert;
            assert(self@.pending.take(0) =~= Seq::<Show>::empty());
            assert(self@.fetched + Seq::<Show>::empty() =~= self@.fetched);
            Action::Insert(self.pending[0].clone())
        } else {
            assert(self.outcomes@.drop_last() =~= old(self)@.outcomes);
            assert(flatten(self.outcomes@) == flatten(old(self)@.outcomes) + got@);
            assert(self@.fetched + got@ =~= self@.fetched);
            self.next_miss = self.next_miss + 1;
            self.written = 0;
            self.move_on()
        }
    }

    /// Takes the outcome of writing the record last handed out. A failed
    /// write fails the whole request.
    pub fn on_inserted(&mut self, result: Result<(), String>) -> (a: Action)
        requires
            old(self).wf(),
            old(self)@.phase == Phase::AwaitInsert,
        ensures
            final(self).wf(),
            match result {
                Err(e) => {
                    &&& final(self)@ == (ReconcilerView { phase: Phase::Failed, ..old(self)@ })
                    &&& fails_in_store(a, e)
                },
                Ok(_) => {
                    let old_v = old(self)@;
                    let v = final(self)@;
                    &&& v.requested == old_v.requested
                    &&& v.hits == old_v.hits
                    &&& v.misses == old_v.misses
                    &&& v.outcomes == old_v.outcomes
                    &&& v.inserted == old_v.inserted.push(old_v.pending[old_v.written as int])
                    &&& old_v.written + 1 < old_v.pending.len() ==> {
                        &&& v.phase == Phase::AwaitInsert
                        &&& v.pending == old_v.pending
                        &&& v.written == old_v.written + 1
                        &&& v.fetched == old_v.fetched
                        &&& inserts(a, old_v.pending[old_v.written + 1int])
                    }
                    &&& old_v.written + 1 >= old_v.pending.len() ==> {
                        &&& v.fetched == old_v.fetched + old_v.pending
                        &&& v.pending.len() == 0
                        &&& v.written == 0
                        &&& moves_on(v, a)
                    }
                },
            },
    {
        match result {
            Err(e) => {
                self.phase = Phase::Failed;
                Action::Fail(ResolveError::StorageError(e))
            },
            Ok(_) => {
                let ghost old_v = self@;
                proof {
                    let ins = self.inserted@.push(self.pending@[self.written as int]);
                    assert(ins =~= self.fetched@ + self.pending@.take(self.written as int + 1));
                    self.inserted = Ghost(ins);
                }
                self.written = self.written + 1;
                if self.written < self.pending.len() {
                    Action::Insert(self.pending[self.written].clone())
                } else {
                    proof {
                        assert(self.pending@.take(self.written as int) =~= self.pending@);
                        assert(old_v.outcomes =~= old_v.outcomes.drop_last().push(old_v.outcomes.last()));
                        assert(flatten(old_v.outcomes) == flatten(old_v.outcomes.drop_last()) + old_v.outcomes.last());
                    }
                    self.fetched.append(&mut self.pending);
                    self.written = 0;
                    self.next_miss = self.next_miss + 1;
                    self.move_on()
                }
            },
        }
    }
}

} // verus!
