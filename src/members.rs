use vstd::prelude::*;
use crate::error::{classify_failure, failure_error, ApiFailure, ControllerError, Operation};

verus! {

/// What the caller is to do next while member details are fetched.
#[derive(Debug)]
pub enum MembersAction<M> {
    /// Fetch the detail of member `member_id` of network `network_id`.
    Fetch { network_id: String, member_id: String },
    /// The fetch is over: every member in listing order, or the first failure.
    Finish(Result<Vec<M>, ControllerError>),
}

/// The member ids of a listing, as texts.
pub open spec fn id_texts(ids: Seq<String>) -> Seq<Seq<char>> {
    ids.map_values(|s: String| s@)
}

/// No member id occurs twice.
pub open spec fn distinct(ids: Seq<Seq<char>>) -> bool {
    forall|i: int, j: int| 0 <= i < j < ids.len() ==> ids[i] != ids[j]
}

/// Whether some member id occurs twice in a listing.
pub fn has_duplicate(ids: &Vec<String>) -> (r: bool)
    ensures
        r == !distinct(id_texts(ids@)),
{
    let n = ids.len();
    let mut i: usize = 0;
    while i < n
        invariant
            n == ids@.len(),
            i <= n,
            forall|a: int, b: int| 0 <= a < b < n && a < i ==> ids@[a]@ != ids@[b]@,
        decreases n - i,
    {
        let mut j: usize = i + 1;
        while j < n
            invariant
                n == ids@.len(),
                i < n,
                i + 1 <= j <= n,
                forall|a: int, b: int| 0 <= a < b < n && a < i ==> ids@[a]@ != ids@[b]@,
                forall|b: int| i < b < j ==> ids@[i as int]@ != ids@[b]@,
            decreases n - j,
        {
            if ids[i] == ids[j] {
                assert(id_texts(ids@)[i as int] == id_texts(ids@)[j as int]);
                return true;
            }
            j = j + 1;
        }
        i = i + 1;
    }
    assert forall|a: int, b: int| 0 <= a < b < id_texts(ids@).len() implies id_texts(
        ids@,
    )[a] != id_texts(ids@)[b] by {
        assert(ids@[a]@ != ids@[b]@);
    }
    false
}

/// A member hydration as plain values.
pub struct HydrationState<M> {
    pub network_id: Seq<char>,
    pub ids: Seq<Seq<char>>,
    pub members: Seq<M>,
    pub done: bool,
}

/// An action as plain values.
pub enum StepView<M> {
    Fetch { network_id: Seq<char>, member_id: Seq<char> },
    Finish(Result<Seq<M>, ControllerError>),
}

impl<M> View for MembersAction<M> {
    type V = StepView<M>;

    open spec fn view(&self) -> StepView<M> {
        match self {
            MembersAction::Fetch { network_id, member_id } => StepView::Fetch {
                network_id: network_id@,
                member_id: member_id@,
            },
            MembersAction::Finish(Ok(v)) => StepView::Finish(Ok(v@)),
            MembersAction::Finish(Err(e)) => StepView::Finish(Err(*e)),
        }
    }
}

/// While requests are outstanding, the member fetched next is the one at
/// the position of the members gathered so far.
pub open spec fn state_wf<M>(s: HydrationState<M>) -> bool {
    !s.done ==> s.members.len() < s.ids.len()
}

/// One answer to the outstanding detail request: a failure ends the fetch
/// with its error; a member is kept, and either the next id is requested
/// or, after the last, every member is handed out.
pub open spec fn next_state<M>(s: HydrationState<M>, reply: Result<M, ApiFailure>) -> (
    HydrationState<M>,
    StepView<M>,
) {
    match reply {
        Err(f) => (HydrationState { done: true, ..s }, StepView::Finish(Err(failure_error(Operation::GetMember, f)))),
        Ok(m) => {
            let ms = s.members.push(m);
            if ms.len() == s.ids.len() {
                (
                    HydrationState { members: Seq::empty(), done: true, ..s },
                    StepView::Finish(Ok(ms)),
                )
            } else {
                (
                    HydrationState { members: ms, ..s },
                    StepView::Fetch { network_id: s.network_id, member_id: s.ids[ms.len() as int] },
                )
            }
        },
    }
}

/// Feeds the replies in turn while requests are outstanding: the member ids
/// requested on the way, and the outcome if the fetch ended.
pub open spec fn run<M>(s: HydrationState<M>, replies: Seq<Result<M, ApiFailure>>) -> (
    Seq<Seq<char>>,
    Option<Result<Seq<M>, ControllerError>>,
)
    decreases replies.len(),
{
    if replies.len() == 0 || s.done {
        (Seq::empty(), None)
    } else {
        let (s2, a) = next_state(s, replies[0]);
        match a {
            StepView::Finish(r) => (Seq::empty(), Some(r)),
            StepView::Fetch { network_id, member_id } => {
                let (rq, o) = run(s2, replies.drop_first());
                (seq![member_id] + rq, o)
            },
        }
    }
}

/// The members that a run of successful replies carries.
pub open spec fn members_of<M>(replies: Seq<Result<M, ApiFailure>>) -> Seq<M> {
    replies.map_values(|r: Result<M, ApiFailure>| r->Ok_0)
}

/// After the first request, a successful reply to every outstanding request
/// has each remaining id requested once, in listing order, and ends with
/// every member gathered, in the order of the requests.
pub proof fn lemma_members_fetched_in_full<M>(
    s: HydrationState<M>,
    replies: Seq<Result<M, ApiFailure>>,
)
    requires
        state_wf(s),
        !s.done,
        s.members.len() + replies.len() == s.ids.len(),
        forall|i: int| 0 <= i < replies.len() ==> #[trigger] replies[i] is Ok,
    ensures
        run(s, replies) == (
            s.ids.subrange(s.members.len() + 1 as int, s.ids.len() as int),
            Some(Ok::<Seq<M>, ControllerError>(s.members + members_of(replies))),
        ),
    decreases replies.len(),
{
    let k = s.members.len() as int;
    let n = s.ids.len() as int;
    let m = replies[0]->Ok_0;
    let ms = s.members.push(m);
    if ms.len() == n {
        assert(replies.len() == 1);
        assert(s.ids.subrange(k + 1, n as int) =~= Seq::<Seq<char>>::empty());
        assert(s.members + members_of(replies) =~= ms);
    } else {
        let s2 = HydrationState { members: ms, ..s };
        let rest = replies.drop_first();
        assert forall|i: int| 0 <= i < rest.len() implies #[trigger] rest[i] is Ok by {
            assert(rest[i] == replies[i + 1]);
        }
        lemma_members_fetched_in_full(s2, rest);
        assert(seq![s.ids[k + 1]] + s.ids.subrange(k + 2, n as int) =~= s.ids.subrange(
            k + 1,
            n as int,
        ));
        assert(ms + members_of(rest) =~= s.members + members_of(replies));
    }
}

/// The state in which a listing of distinct ids starts: nothing gathered,
/// the first id requested.
pub open spec fn fresh<M>(network_id: Seq<char>, ids: Seq<Seq<char>>) -> HydrationState<M> {
    HydrationState { network_id, ids, members: Seq::empty(), done: false }
}

/// Fetching the members of a listing issues one detail request per listed
/// id, in listing order (the first by `begin`, the rest by the replies), and
/// successful replies to all of them yield every member.
pub proof fn lemma_listing_fetched_in_full<M>(
    network_id: Seq<char>,
    ids: Seq<Seq<char>>,
    replies: Seq<Result<M, ApiFailure>>,
)
    requires
        ids.len() > 0,
        distinct(ids),
        replies.len() == ids.len(),
        forall|i: int| 0 <= i < replies.len() ==> #[trigger] replies[i] is Ok,
    ensures
        seq![ids[0]] + run(fresh(network_id, ids), replies).0 == ids,
        run(fresh(network_id, ids), replies).1 == Some(
            Ok::<Seq<M>, ControllerError>(members_of(replies)),
        ),
{
    let s = fresh(network_id, ids);
    lemma_members_fetched_in_full(s, replies);
    assert(seq![ids[0]] + ids.subrange(1, ids.len() as int) =~= ids);
    assert(s.members + members_of(replies) =~= members_of(replies));
}

/// A failed detail request ends the fetch with that request's error, and
/// nothing is requested after it: no partial result is handed out.
pub proof fn lemma_members_fail_fast<M>(
    s: HydrationState<M>,
    replies: Seq<Result<M, ApiFailure>>,
    k: int,
)
    requires
        state_wf(s),
        !s.done,
        0 <= k < replies.len(),
        s.members.len() + k < s.ids.len(),
        forall|i: int| 0 <= i < k ==> #[trigger] replies[i] is Ok,
        replies[k] is Err,
    ensures
        run(s, replies).1 == Some(Err::<Seq<M>, ControllerError>(failure_error(Operation::GetMember, replies[k]->Err_0))),
        run(s, replies).0.len() == k,
    decreases k,
{
    if k > 0 {
        let m = replies[0]->Ok_0;
        let s2 = HydrationState { members: s.members.push(m), ..s };
        let rest = replies.drop_first();
        assert forall|i: int| 0 <= i < k - 1 implies #[trigger] rest[i] is Ok by {
            assert(rest[i] == replies[i + 1]);
        }
        assert(rest[k - 1] == replies[k]);
        lemma_members_fail_fast(s2, rest, k - 1);
    }
}

/// The decisions of fetching every member of a network in detail: one
/// request per listed id, in listing order, stopping at the first failure.
#[derive(Debug)]
pub struct MemberHydration<M> {
    pub network_id: String,
    pub ids: Vec<String>,
    pub members: Vec<M>,
    pub done: bool,
}

impl<M> View for MemberHydration<M> {
    type V = HydrationState<M>;

    open spec fn view(&self) -> HydrationState<M> {
        HydrationState {
            network_id: self.network_id@,
            ids: id_texts(self.ids@),
            members: self.members@,
            done: self.done,
        }
    }
}

impl<M> MemberHydration<M> {
    /// Starts from the daemon's listing of the network's member ids. A
    /// listing that names some id twice is not deduplicated but rejected,
    /// with a decode error of `ListMembers`; an empty listing is done at once
    /// with no members; otherwise the first id is requested.
    pub fn begin(network_id: String, listing: Result<Vec<String>, ApiFailure>) -> (r: (
        MemberHydration<M>,
        MembersAction<M>,
    ))
        ensures
            state_wf(r.0@),
            r.0@.network_id == network_id@,
            r.0@.members.len() == 0,
            match listing {
                Err(f) => r.0@.done && r.1@ == StepView::<M>::Finish(Err(failure_error(Operation::ListMembers, f))),
                Ok(ids) => if !distinct(id_texts(ids@)) {
                    r.0@.done && r.1 is Finish && r.1->Finish_0 is Err
                        && r.1->Finish_0->Err_0 is Decode
                        && r.1->Finish_0->Err_0->operation == Operation::ListMembers
                } else if ids@.len() == 0 {
                    r.0@.done && r.1@ == StepView::<M>::Finish(Ok(Seq::<M>::empty()))
                } else {
                    r.0@ == fresh::<M>(network_id@, id_texts(ids@)) && r.1@ == (StepView::<M>::Fetch {
                        network_id: network_id@,
                        member_id: ids@[0]@,
                    })
                },
            },
    {
        match listing {
            Err(f) => (
                MemberHydration { network_id, ids: Vec::new(), members: Vec::new(), done: true },
                MembersAction::Finish(Err(classify_failure(Operation::ListMembers, f))),
            ),
            Ok(ids) => {
                if has_duplicate(&ids) {
                    (
                        MemberHydration { network_id, ids, members: Vec::new(), done: true },
                        MembersAction::Finish(
                            Err(
                                ControllerError::Decode {
                                    operation: Operation::ListMembers,
                                    detail: String::from_str("a member id is listed twice"),
                                },
                            ),
                        ),
                    )
                } else if ids.len() == 0 {
                    let none: Vec<M> = Vec::new();
                    proof {
                        assert(none@ =~= Seq::<M>::empty());
                    }
                    (
                        MemberHydration { network_id, ids, members: Vec::new(), done: true },
                        MembersAction::Finish(Ok(none)),
                    )
                } else {
                    let first = ids[0].clone();
                    let nid = network_id.clone();
                    (
                        MemberHydration { network_id, ids, members: Vec::new(), done: false },
                        MembersAction::Fetch { network_id: nid, member_id: first },
                    )
                }
            },
        }
    }

    /// Whether the fetch is over.
    pub fn is_done(&self) -> (r: bool)
        ensures
            r == self@.done,
    {
        self.done
    }

    /// Takes the answer to the outstanding detail request.
    pub fn step(&mut self, reply: Result<M, ApiFailure>) -> (a: MembersAction<M>)
        requires
            state_wf(old(self)@),
            !old(self)@.done,
        ensures
            state_wf(final(self)@),
            (final(self)@, a@) == next_state(old(self)@, reply),
    {
        match reply {
            Err(f) => {
                self.done = true;
                MembersAction::Finish(Err(classify_failure(Operation::GetMember, f)))
            },
            Ok(m) => {
                self.members.push(m);
                if self.members.len() == self.ids.len() {
                    self.done = true;
                    let mut out: Vec<M> = Vec::new();
                    std::mem::swap(&mut out, &mut self.members);
                    proof {
                        assert(self.members@ =~= Seq::<M>::empty());
                    }
                    MembersAction::Finish(Ok(out))
                } else {
                    let k = self.members.len();
                    MembersAction::Fetch {
                        network_id: self.network_id.clone(),
                        member_id: self.ids[k].clone(),
                    }
                }
            },
        }
    }
}

} // verus!
