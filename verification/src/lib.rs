//! A verified reconciliation core for a cluster operator that keeps a managed
//! resource (a `Cat` custom resource) in agreement with the authoritative
//! record held by a remote service.
//!
//! The library holds the decision logic: the create/update/no-op state
//! comparison, the finalizer lifecycle, the status and condition bookkeeping,
//! and the bounded conflict-retry discipline for status writes. Network I/O is
//! reached only through the narrow `ClusterPort` and `CatsApi` interfaces, so
//! the logic is proved for every behaviour those interfaces allow.
//!
//! Reconciliation is driven by an external trigger that serializes calls per
//! resource; within one call the reconciler owns its resource's status and
//! finalizer state exclusively.

pub mod apis;
pub mod cats;
pub mod cats_api;
pub mod cluster;
pub mod converters;
pub mod errors;
pub mod json;
pub mod models;
pub mod render;
pub mod types;

use crate::cluster::{
    write_outcome, ClusterError, ClusterEvent, ClusterPort, MergePatch, MergePatchView,
    WriteOutcome,
};
use crate::errors::OperatorError;
use crate::types::{Cat, CatStatusView, CatView, Condition};
use vstd::prelude::*;

verus! {

/// The finalizer token this operator owns on its managed resources.
pub open spec fn finalizer_view() -> Seq<char> {
    "finalizers.example.com"@
}

/// The finalizer token, as written into `metadata.finalizers`.
pub fn finalizer() -> (s: String)
    ensures
        s@ == finalizer_view(),
{
    String::from_str("finalizers.example.com")
}

/// The field-manager identity stamped on cluster writes.
pub fn field_manager() -> (s: String)
    ensures
        s@ == "operator"@,
{
    String::from_str("operator")
}

/// A missing `metadata.finalizers` field reads as the empty token list.
pub open spec fn norm_finalizers(f: Option<Seq<Seq<char>>>) -> Seq<Seq<char>> {
    match f {
        Some(l) => l,
        None => Seq::empty(),
    }
}

/// Whether the operator's token is in the list.
pub open spec fn has_finalizer(l: Seq<Seq<char>>) -> bool {
    l.contains(finalizer_view())
}

/// The list after an idempotent add of the operator's token.
pub open spec fn with_finalizer(l: Seq<Seq<char>>) -> Seq<Seq<char>> {
    if has_finalizer(l) {
        l
    } else {
        l.push(finalizer_view())
    }
}

/// The list after removing every occurrence of the operator's token.
pub open spec fn without_finalizer(l: Seq<Seq<char>>) -> Seq<Seq<char>> {
    l.filter(|f: Seq<char>| f != finalizer_view())
}

/// The cluster writes an `add_finalizer` call issues on a named resource:
/// one merge-patch carrying `with_finalizer(l0)` when the token is absent,
/// none when it is already present.
pub open spec fn fin_delta(pre: CatView, ok: bool) -> Seq<ClusterEvent> {
    let l0 = norm_finalizers(pre.metadata.finalizers);
    if has_finalizer(l0) {
        Seq::empty()
    } else {
        seq![
            ClusterEvent::Patch {
                name: pre.metadata.name->Some_0,
                patch: MergePatchView::Finalizers(with_finalizer(l0)),
                ok,
            },
        ]
    }
}

/// Everything of the resource but `metadata.finalizers` is untouched.
pub open spec fn only_finalizers_changed(pre: CatView, post: CatView) -> bool {
    &&& post.metadata.name == pre.metadata.name
    &&& post.metadata.generation == pre.metadata.generation
    &&& post.metadata.deletion_timestamp == pre.metadata.deletion_timestamp
    &&& post.spec == pre.spec
    &&& post.status == pre.status
}

/// Everything one `remove_finalizer` call can do: nothing and
/// `InvalidResourceState` without a name; one merge-patch removing the token
/// when it is present; and a successful no-op otherwise.
pub open spec fn remove_finalizer_post(
    pre: CatView,
    post: CatView,
    k0: Seq<ClusterEvent>,
    kf: Seq<ClusterEvent>,
    r: Result<(), OperatorError>,
) -> bool {
    if pre.metadata.name is None {
        &&& post == pre
        &&& kf == k0
        &&& r matches Err(OperatorError::InvalidResourceState(_))
    } else {
        let nm = pre.metadata.name->Some_0;
        let l0 = norm_finalizers(pre.metadata.finalizers);
        if has_finalizer(l0) {
            &&& only_finalizers_changed(pre, post)
            &&& post.metadata.finalizers == Some(without_finalizer(l0))
            &&& kf == k0.push(
                ClusterEvent::Patch {
                    name: nm,
                    patch: MergePatchView::Finalizers(without_finalizer(l0)),
                    ok: r is Ok,
                },
            )
            &&& (r is Ok || r matches Err(OperatorError::FailedToPatchResource(_)))
        } else {
            &&& post == pre
            &&& kf == k0
            &&& r is Ok
        }
    }
}

/// The journal trace of one status-write attempt: the patch itself, preceded
/// by a one-second backoff for every attempt but the first — the backoff sits
/// strictly between attempts, never after the last one.
pub open spec fn one_status_attempt(
    name: Seq<char>,
    st: Option<CatStatusView>,
    o: WriteOutcome,
    first: bool,
) -> Seq<ClusterEvent> {
    if first {
        seq![ClusterEvent::PatchStatus { name, status: st, outcome: o }]
    } else {
        seq![
            ClusterEvent::Sleep { seconds: 1 },
            ClusterEvent::PatchStatus { name, status: st, outcome: o },
        ]
    }
}

/// The journal trace of a whole `update_status` call, given how the cluster
/// answered each attempt.
pub open spec fn status_attempt_events(
    name: Seq<char>,
    st: Option<CatStatusView>,
    outcomes: Seq<WriteOutcome>,
) -> Seq<ClusterEvent>
    decreases outcomes.len(),
{
    if outcomes.len() == 0 {
        Seq::empty()
    } else {
        status_attempt_events(name, st, outcomes.drop_last()) + one_status_attempt(
            name,
            st,
            outcomes.last(),
            outcomes.len() == 1,
        )
    }
}

/// The attempt sequences `update_status` can produce: at most three attempts,
/// only conflicts are retried, and only a third conflict ends the loop.
pub open spec fn valid_status_attempts(outcomes: Seq<WriteOutcome>) -> bool {
    &&& 1 <= outcomes.len() <= 3
    &&& forall|i: int| 0 <= i < outcomes.len() - 1 ==> outcomes[i] is Conflict
    &&& (outcomes.last() is Conflict ==> outcomes.len() == 3)
}

/// The whole observable effect of one `update_status` call on a named
/// resource: between one and three attempts, with the result `r` classified
/// by how the last attempt went.
pub open spec fn status_write_tail(
    k_pre: Seq<ClusterEvent>,
    k_post: Seq<ClusterEvent>,
    nm: Seq<char>,
    st: Option<CatStatusView>,
    r: Result<(), OperatorError>,
) -> bool {
    exists|outcomes: Seq<WriteOutcome>|
        {
            &&& #[trigger] valid_status_attempts(outcomes)
            &&& k_post == k_pre + status_attempt_events(nm, st, outcomes)
            &&& (r is Ok <==> outcomes.last() is Accepted)
            &&& (outcomes.last() is Conflict ==> r == Err::<(), OperatorError>(
                OperatorError::FailedToUpdateStatus(ClusterError::Conflict),
            ))
            &&& (outcomes.last() is Rejected ==> r matches Err(
                OperatorError::FailedToUpdateStatus(ClusterError::Other(_)),
            ))
        }
}

/// A best-effort `update_status` happened: between one and three attempts,
/// with no claim on who looked at the result.
pub open spec fn status_write_attempted(
    k_pre: Seq<ClusterEvent>,
    k_post: Seq<ClusterEvent>,
    nm: Seq<char>,
    st: Option<CatStatusView>,
) -> bool {
    exists|outcomes: Seq<WriteOutcome>|
        {
            &&& #[trigger] valid_status_attempts(outcomes)
            &&& k_post == k_pre + status_attempt_events(nm, st, outcomes)
        }
}

/// How many merge-patches of the main resource (finalizer writes) a stretch
/// of journal holds.
pub open spec fn patch_count(events: Seq<ClusterEvent>) -> int
    decreases events.len(),
{
    if events.len() == 0 {
        0
    } else {
        patch_count(events.drop_last()) + if events.last() is Patch {
            1int
        } else {
            0int
        }
    }
}

/// How many status patches a stretch of journal holds.
pub open spec fn patch_status_count(events: Seq<ClusterEvent>) -> int
    decreases events.len(),
{
    if events.len() == 0 {
        0
    } else {
        patch_status_count(events.drop_last()) + if events.last() is PatchStatus {
            1int
        } else {
            0int
        }
    }
}

/// How many full-object replaces a stretch of journal holds.
pub open spec fn replace_count(events: Seq<ClusterEvent>) -> int
    decreases events.len(),
{
    if events.len() == 0 {
        0
    } else {
        replace_count(events.drop_last()) + if events.last() is Replace {
            1int
        } else {
            0int
        }
    }
}

/// How many backoff pauses a stretch of journal holds.
pub open spec fn sleep_count(events: Seq<ClusterEvent>) -> int
    decreases events.len(),
{
    if events.len() == 0 {
        0
    } else {
        sleep_count(events.drop_last()) + if events.last() is Sleep {
            1int
        } else {
            0int
        }
    }
}

/// The four counters are additive over concatenation.
pub proof fn lemma_counts_add(a: Seq<ClusterEvent>, b: Seq<ClusterEvent>)
    ensures
        patch_count(a + b) == patch_count(a) + patch_count(b),
        patch_status_count(a + b) == patch_status_count(a) + patch_status_count(b),
        replace_count(a + b) == replace_count(a) + replace_count(b),
        sleep_count(a + b) == sleep_count(a) + sleep_count(b),
    decreases b.len(),
{
    if b.len() == 0 {
        assert(a + b =~= a);
    } else {
        assert((a + b).drop_last() =~= a + b.drop_last());
        assert((a + b).last() == b.last());
        lemma_counts_add(a, b.drop_last());
    }
}

/// The counters on a one-event stretch of journal.
pub proof fn lemma_single_event_counts(e: ClusterEvent)
    ensures
        patch_count(seq![e]) == if e is Patch {
            1int
        } else {
            0int
        },
        patch_status_count(seq![e]) == if e is PatchStatus {
            1int
        } else {
            0int
        },
        replace_count(seq![e]) == if e is Replace {
            1int
        } else {
            0int
        },
        sleep_count(seq![e]) == if e is Sleep {
            1int
        } else {
            0int
        },
{
    reveal_with_fuel(patch_count, 2);
    reveal_with_fuel(patch_status_count, 2);
    reveal_with_fuel(replace_count, 2);
    reveal_with_fuel(sleep_count, 2);
    assert(seq![e].drop_last() =~= Seq::empty());
}

proof fn lemma_attempt_event_counts(
    name: Seq<char>,
    st: Option<CatStatusView>,
    outcomes: Seq<WriteOutcome>,
)
    ensures
        patch_count(status_attempt_events(name, st, outcomes)) == 0,
        patch_status_count(status_attempt_events(name, st, outcomes)) == outcomes.len(),
        replace_count(status_attempt_events(name, st, outcomes)) == 0,
        sleep_count(status_attempt_events(name, st, outcomes)) == if outcomes.len() == 0 {
            0int
        } else {
            outcomes.len() - 1
        },
    decreases outcomes.len(),
{
    if outcomes.len() > 0 {
        lemma_attempt_event_counts(name, st, outcomes.drop_last());
        lemma_counts_add(
            status_attempt_events(name, st, outcomes.drop_last()),
            one_status_attempt(name, st, outcomes.last(), outcomes.len() == 1),
        );
        let one = one_status_attempt(name, st, outcomes.last(), outcomes.len() == 1);
        let ps = seq![ClusterEvent::PatchStatus { name, status: st, outcome: outcomes.last() }];
        assert(ps.drop_last() =~= Seq::empty());
        reveal_with_fuel(patch_count, 3);
        reveal_with_fuel(patch_status_count, 3);
        reveal_with_fuel(replace_count, 3);
        reveal_with_fuel(sleep_count, 3);
        if outcomes.len() == 1 {
            assert(one =~= ps);
            assert(patch_status_count(one) == 1);
            assert(sleep_count(one) == 0);
            assert(replace_count(one) == 0);
            assert(patch_count(one) == 0);
        } else {
            assert(one.drop_last() =~= seq![ClusterEvent::Sleep { seconds: 1 }]);
            assert(seq![ClusterEvent::Sleep { seconds: 1 }].drop_last() =~= Seq::empty());
            assert(patch_status_count(one) == 1);
            assert(sleep_count(one) == 1);
            assert(replace_count(one) == 0);
            assert(patch_count(one) == 0);
        }
    }
}

/// The status-conflict retry discipline, as counts over the journal: one
/// `update_status` call issues between one and three status patches and no
/// other cluster write; the one-second backoffs sit strictly between the
/// attempts, one fewer than the patches, so at most two seconds of latency
/// are ever added; a persistent conflict issues exactly three patches and two
/// backoffs and fails with `FailedToUpdateStatus`.
pub proof fn lemma_status_retry_bound(
    k0: Seq<ClusterEvent>,
    kf: Seq<ClusterEvent>,
    nm: Seq<char>,
    st: Option<CatStatusView>,
    r: Result<(), OperatorError>,
)
    requires
        status_write_tail(k0, kf, nm, st, r),
    ensures
        kf.len() > k0.len(),
        kf.take(k0.len() as int) == k0,
        1 <= patch_status_count(kf.skip(k0.len() as int)) <= 3,
        replace_count(kf.skip(k0.len() as int)) == 0,
        patch_count(kf.skip(k0.len() as int)) == 0,
        sleep_count(kf.skip(k0.len() as int)) == patch_status_count(kf.skip(k0.len() as int)) - 1,
        sleep_count(kf.skip(k0.len() as int)) <= 2,
        r == Err::<(), OperatorError>(OperatorError::FailedToUpdateStatus(ClusterError::Conflict))
            ==> patch_status_count(kf.skip(k0.len() as int)) == 3 && sleep_count(
            kf.skip(k0.len() as int),
        ) == 2,
{
    let outcomes = choose|outcomes: Seq<WriteOutcome>|
        {
            &&& #[trigger] valid_status_attempts(outcomes)
            &&& kf == k0 + status_attempt_events(nm, st, outcomes)
            &&& (r is Ok <==> outcomes.last() is Accepted)
            &&& (outcomes.last() is Conflict ==> r == Err::<(), OperatorError>(
                OperatorError::FailedToUpdateStatus(ClusterError::Conflict),
            ))
            &&& (outcomes.last() is Rejected ==> r matches Err(
                OperatorError::FailedToUpdateStatus(ClusterError::Other(_)),
            ))
        };
    let sae = status_attempt_events(nm, st, outcomes);
    assert(sae.len() > 0);
    assert(kf.skip(k0.len() as int) =~= sae);
    assert(kf.take(k0.len() as int) =~= k0);
    lemma_attempt_event_counts(nm, st, outcomes);
}

/// Adding the operator's finalizer is idempotent: a first add on a list
/// without the token appends it (one merge-patch is issued, per
/// `add_finalizer`'s contract), and the resulting list already has the token,
/// so a second add leaves the list as it is and issues no patch; the final
/// list holds the token exactly once.
pub proof fn lemma_add_finalizer_idempotent(l: Seq<Seq<char>>)
    requires
        !has_finalizer(l),
    ensures
        has_finalizer(with_finalizer(l)),
        with_finalizer(with_finalizer(l)) == with_finalizer(l),
        with_finalizer(l).filter(|f: Seq<char>| f == finalizer_view()).len() == 1,
{
    let w = with_finalizer(l);
    assert(w.last() == finalizer_view());
    assert(w.contains(finalizer_view()));
    lemma_no_token_filter_empty(l);
    reveal(Seq::filter);
    assert(w.drop_last() =~= l);
    assert(w.filter(|f: Seq<char>| f == finalizer_view()) =~= l.filter(
        |f: Seq<char>| f == finalizer_view(),
    ).push(finalizer_view()));
}

proof fn lemma_no_token_filter_empty(l: Seq<Seq<char>>)
    requires
        !has_finalizer(l),
    ensures
        l.filter(|f: Seq<char>| f == finalizer_view()).len() == 0,
    decreases l.len(),
{
    reveal(Seq::filter);
    if l.len() > 0 {
        assert(l.drop_last().contains(l.drop_last()[0]) ==> l.contains(
            l.drop_last()[0],
        ));
        assert(forall|i: int| 0 <= i < l.len() ==> l[i] != finalizer_view()) by {
            assert(forall|i: int| 0 <= i < l.len() ==> l.contains(#[trigger] l[i]));
        }
        assert(!has_finalizer(l.drop_last())) by {
            if has_finalizer(l.drop_last()) {
                let j = choose|j: int|
                    0 <= j < l.drop_last().len() && l.drop_last()[j] == finalizer_view();
                assert(l[j] == finalizer_view());
            }
        }
        lemma_no_token_filter_empty(l.drop_last());
    }
}

/// A `status_write_tail` is in particular a `status_write_attempted`.
pub proof fn lemma_tail_implies_attempted(
    k_pre: Seq<ClusterEvent>,
    k_post: Seq<ClusterEvent>,
    nm: Seq<char>,
    st: Option<CatStatusView>,
    r: Result<(), OperatorError>,
)
    requires
        status_write_tail(k_pre, k_post, nm, st, r),
    ensures
        status_write_attempted(k_pre, k_post, nm, st),
{
}

proof fn lemma_status_attempt_events_push(
    name: Seq<char>,
    st: Option<CatStatusView>,
    outcomes: Seq<WriteOutcome>,
    o: WriteOutcome,
)
    ensures
        status_attempt_events(name, st, outcomes.push(o)) == status_attempt_events(
            name,
            st,
            outcomes,
        ) + one_status_attempt(name, st, o, outcomes.len() == 0),
{
    assert(outcomes.push(o).drop_last() =~= outcomes);
    assert(outcomes.push(o).last() == o);
}

/// Whether the token list `v` contains `s`.
fn contains_string(v: &Vec<String>, s: &String) -> (b: bool)
    ensures
        b == v.deep_view().contains(s@),
{
    let mut i: usize = 0;
    while i < v.len()
        invariant
            i <= v.len(),
            forall|j: int| 0 <= j < i ==> v.deep_view()[j] != s@,
        decreases v.len() - i,
    {
        if v[i].eq(s) {
            assert(v.deep_view()[i as int] == s@);
            return true;
        }
        i += 1;
    }
    false
}

/// An element-wise copy of a token list.
fn clone_string_vec(v: &Vec<String>) -> (r: Vec<String>)
    ensures
        r.deep_view() == v.deep_view(),
{
    let mut r: Vec<String> = Vec::new();
    let mut i: usize = 0;
    while i < v.len()
        invariant
            i <= v.len(),
            r@.len() == i,
            forall|j: int| 0 <= j < i ==> r.deep_view()[j] == v.deep_view()[j],
        decreases v.len() - i,
    {
        let s = v[i].clone();
        assert(s@ == v.deep_view()[i as int]);
        r.push(s);
        assert(forall|j: int|
            0 <= j < i ==> #[trigger] r.deep_view()[j] == v.deep_view()[j]);
        i += 1;
    }
    assert(r.deep_view() =~= v.deep_view());
    r
}

/// The cluster resource gateway: finalizer lifecycle, status writes with a
/// bounded conflict retry, full-object replace, and condition construction.
///
/// Every implementation journals its cluster interactions, so callers can
/// state exactly which network writes happen. Nothing is promised about the
/// cluster's answers: every contract holds for every outcome.
pub trait KubeApi: Sized {
    /// All cluster interactions performed so far, oldest first.
    spec fn events(&self) -> Seq<ClusterEvent>;

    /// Idempotently add the operator's finalizer token to `resource` and
    /// merge-patch `metadata.finalizers`; no write if the token was present.
    fn add_finalizer(&mut self, resource: &mut Cat) -> (r: Result<(), OperatorError>)
        ensures
            old(resource)@.metadata.name is None ==> {
                &&& r matches Err(OperatorError::InvalidResourceState(_))
                &&& *final(resource) == *old(resource)
                &&& final(self).events() == old(self).events()
            },
            old(resource)@.metadata.name matches Some(nm) ==> {
                let l0 = norm_finalizers(old(resource)@.metadata.finalizers);
                &&& only_finalizers_changed(old(resource)@, final(resource)@)
                &&& final(resource)@.metadata.finalizers == Some(with_finalizer(l0))
                &&& if !has_finalizer(l0) {
                    &&& final(self).events() == old(self).events().push(
                        ClusterEvent::Patch {
                            name: nm,
                            patch: MergePatchView::Finalizers(with_finalizer(l0)),
                            ok: r is Ok,
                        },
                    )
                    &&& (r is Ok || r matches Err(OperatorError::FailedToPatchResource(_)))
                } else {
                    &&& final(self).events() == old(self).events()
                    &&& r is Ok
                }
            },
    ;

    /// Idempotently remove the operator's finalizer token from `resource` and
    /// merge-patch `metadata.finalizers`; no write if the token was absent.
    fn remove_finalizer(&mut self, resource: &mut Cat) -> (r: Result<(), OperatorError>)
        ensures
            remove_finalizer_post(
                old(resource)@,
                final(resource)@,
                old(self).events(),
                final(self).events(),
                r,
            ),
    ;

    /// Merge-patch the status subresource of `status`, retrying a write
    /// conflict up to three attempts with a one-second backoff in between;
    /// any non-conflict failure aborts immediately.
    fn update_status(&mut self, status: &Cat) -> (r: Result<(), OperatorError>)
        ensures
            status@.metadata.name is None ==> {
                &&& r matches Err(OperatorError::InvalidResourceState(_))
                &&& final(self).events() == old(self).events()
            },
            status@.metadata.name matches Some(nm) ==> status_write_tail(
                old(self).events(),
                final(self).events(),
                nm,
                status@.status,
                r,
            ),
    ;

    /// Replace the whole resource on the cluster, returning the server's
    /// resulting snapshot; no retry.
    fn replace(&mut self, name: &String, resource: &Cat) -> (r: Result<Cat, OperatorError>)
        ensures
            final(self).events() == old(self).events().push(
                ClusterEvent::Replace {
                    name: name@,
                    resource: resource@,
                    result: match r {
                        Ok(c) => Some(c@),
                        Err(_) => None,
                    },
                },
            ),
            r matches Err(e) ==> e matches OperatorError::FailedToUpdateResource(_),
    ;

    /// Build a condition from its parts, stamping the current time. Pure
    /// bookkeeping: no cluster interaction.
    fn create_condition(
        &mut self,
        status: &str,
        type_: &str,
        reason: &str,
        message: &str,
        observed_generation: Option<i64>,
    ) -> (c: Condition)
        ensures
            final(self).events() == old(self).events(),
            c@.status == status@,
            c@.type_ == type_@,
            c@.reason == reason@,
            c@.message == message@,
            c@.observed_generation == observed_generation,
            c@.last_transition_time >= 0,
    ;
}

/// The cluster resource gateway over a concrete cluster port.
pub struct KubeApiClient<P: ClusterPort> {
    /// The client used to reach the cluster API.
    pub client: P,
}

impl<P: ClusterPort> KubeApiClient<P> {
    /// A gateway over the given port.
    pub fn new(client: P) -> (g: KubeApiClient<P>)
        ensures
            g.events() == client.events(),
    {
        KubeApiClient { client }
    }

    /// The underlying cluster port.
    pub fn get_client(&self) -> (c: &P)
        ensures
            c.events() == self.events(),
    {
        &self.client
    }

    /// Swap the underlying cluster port.
    pub fn set_client(&mut self, client: P)
        ensures
            final(self).events() == client.events(),
    {
        self.client = client;
    }
}

impl<P: ClusterPort> KubeApi for KubeApiClient<P> {
    open spec fn events(&self) -> Seq<ClusterEvent> {
        self.client.events()
    }

    fn add_finalizer(&mut self, resource: &mut Cat) -> (r: Result<(), OperatorError>) {
        let name = match &resource.metadata.name {
            Some(n) => n.clone(),
            None => {
                return Err(
                    OperatorError::InvalidResourceState(
                        String::from_str("Resource name is missing."),
                    ),
                );
            },
        };
        let fin = finalizer();
        let mut list: Vec<String> = match resource.metadata.finalizers.take() {
            Some(l) => l,
            None => Vec::new(),
        };
        if contains_string(&list, &fin) {
            resource.metadata.finalizers = Some(list);
            return Ok(());
        }
        list.push(fin);
        let patch_list = clone_string_vec(&list);
        proof {
            assert(list.deep_view() =~= with_finalizer(
                norm_finalizers(old(resource)@.metadata.finalizers),
            ));
        }
        resource.metadata.finalizers = Some(list);
        let patch = MergePatch::Finalizers(patch_list);
        match self.client.patch(&name, &patch) {
            Ok(_) => Ok(()),
            Err(e) => Err(OperatorError::FailedToPatchResource(e)),
        }
    }

    fn remove_finalizer(&mut self, resource: &mut Cat) -> (r: Result<(), OperatorError>) {
        let name = match &resource.metadata.name {
            Some(n) => n.clone(),
            None => {
                return Err(
                    OperatorError::InvalidResourceState(
                        String::from_str("Resource name is missing."),
                    ),
                );
            },
        };
        let fin = finalizer();
        let list: Vec<String> = match resource.metadata.finalizers.take() {
            Some(l) => l,
            None => {
                return Ok(());
            },
        };
        if !contains_string(&list, &fin) {
            resource.metadata.finalizers = Some(list);
            return Ok(());
        }
        let mut kept: Vec<String> = Vec::new();
        let mut i: usize = 0;
        while i < list.len()
            invariant
                i <= list.len(),
                kept.deep_view() == list.deep_view().subrange(0, i as int).filter(
                    |f: Seq<char>| f != finalizer_view(),
                ),
                fin@ == finalizer_view(),
            decreases list.len() - i,
        {
            let ghost pred = |f: Seq<char>| f != finalizer_view();
            let ghost prefix = list.deep_view().subrange(0, i as int);
            let ghost kept0 = kept.deep_view();
            proof {
                reveal(Seq::filter);
                assert(list.deep_view().subrange(0, i + 1 as int).drop_last() =~= prefix);
                assert(list.deep_view().subrange(0, i + 1 as int).last() == list.deep_view()[i as int]);
            }
            if !list[i].eq(&fin) {
                let s = list[i].clone();
                assert(s@ == list.deep_view()[i as int]);
                kept.push(s);
                proof {
                    assert(kept.deep_view() =~= kept0.push(list.deep_view()[i as int]));
                    assert(kept.deep_view() =~= list.deep_view().subrange(0, i + 1 as int).filter(
                        pred,
                    ));
                }
            } else {
                proof {
                    assert(kept.deep_view() =~= list.deep_view().subrange(0, i + 1 as int).filter(
                        pred,
                    ));
                }
            }
            i += 1;
        }
        proof {
            assert(list.deep_view().subrange(0, list.len() as int) =~= list.deep_view());
            assert(kept.deep_view() == without_finalizer(list.deep_view()));
        }
        let patch_list = clone_string_vec(&kept);
        resource.metadata.finalizers = Some(kept);
        let patch = MergePatch::Finalizers(patch_list);
        match self.client.patch(&name, &patch) {
            Ok(_) => Ok(()),
            Err(e) => Err(OperatorError::FailedToPatchResource(e)),
        }
    }

    fn update_status(&mut self, status: &Cat) -> (r: Result<(), OperatorError>) {
        let name = match &status.metadata.name {
            Some(n) => n.clone(),
            None => {
                return Err(
                    OperatorError::InvalidResourceState(
                        String::from_str("Resource name is missing."),
                    ),
                );
            },
        };
        let ghost nm: Seq<char> = name@;
        let ghost st: Option<CatStatusView> = status@.status;
        let ghost mut outcomes: Seq<WriteOutcome> = Seq::empty();
        let mut attempt: u64 = 0;
        while attempt < 3
            invariant
                attempt <= 3,
                outcomes.len() == attempt,
                forall|i: int| 0 <= i < outcomes.len() ==> outcomes[i] is Conflict,
                self.client.events() == old(self).client.events() + status_attempt_events(
                    nm,
                    st,
                    outcomes,
                ),
                nm == name@,
                st == status@.status,
                status@.metadata.name == Some(nm),
            decreases 3 - attempt,
        {
            if attempt > 0 {
                // back off between attempts only; a conflict that ends the
                // loop is not followed by a pause
                self.client.sleep_seconds(1);
            }
            let ghost prev = outcomes;
            let res = self.client.patch_status(&name, &status.status);
            proof {
                outcomes = outcomes.push(write_outcome(res));
                lemma_status_attempt_events_push(nm, st, prev, write_outcome(res));
            }
            match res {
                Ok(_) => {
                    proof {
                        assert(valid_status_attempts(outcomes));
                        assert(self.client.events() =~= old(self).client.events()
                            + status_attempt_events(nm, st, outcomes));
                    }
                    return Ok(());
                },
                Err(ClusterError::Conflict) => {
                    proof {
                        assert(self.client.events() =~= old(self).client.events()
                            + status_attempt_events(nm, st, outcomes));
                    }
                },
                Err(ClusterError::Other(m)) => {
                    proof {
                        assert(valid_status_attempts(outcomes));
                        assert(self.client.events() =~= old(self).client.events()
                            + status_attempt_events(nm, st, outcomes));
                    }
                    return Err(OperatorError::FailedToUpdateStatus(ClusterError::Other(m)));
                },
            }
            attempt += 1;
        }
        proof {
            assert(outcomes.last() is Conflict);
            assert(valid_status_attempts(outcomes));
        }
        Err(OperatorError::FailedToUpdateStatus(ClusterError::Conflict))
    }

    fn replace(&mut self, name: &String, resource: &Cat) -> (r: Result<Cat, OperatorError>) {
        match self.client.replace(name, resource) {
            Ok(c) => Ok(c),
            Err(e) => Err(OperatorError::FailedToUpdateResource(e)),
        }
    }

    fn create_condition(
        &mut self,
        status: &str,
        type_: &str,
        reason: &str,
        message: &str,
        observed_generation: Option<i64>,
    ) -> (c: Condition) {
        let now = self.client.now_epoch_seconds();
        Condition {
            type_: String::from_str(type_),
            status: String::from_str(status),
            reason: String::from_str(reason),
            message: String::from_str(message),
            last_transition_time: now,
            observed_generation,
        }
    }
}

} // verus!

