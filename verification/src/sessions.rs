//! Session-table rules: counting sessions by status, finding sessions,
//! admission of new sessions, and the choice of the session that an
//! accepted session displaces.

use vstd::prelude::*;

use crate::model::{before, AcceptancePolicy, QueuePolicy, SessionDescriptor, SessionPriority, SessionStatus};

verus! {

/// Groups of session statuses that the receiver counts or looks for.
#[derive(Clone, Copy, Debug, PartialEq, Eq, Structural)]
pub enum StatusGroup {
    /// Pending or queued: waiting to be shown.
    Waiting,
    Active,
    Stopped,
    /// Active or pending: holding one of the policy's session slots.
    Occupying,
}

pub open spec fn in_group(g: StatusGroup, st: SessionStatus) -> bool {
    match g {
        StatusGroup::Waiting => st == SessionStatus::Pending || st == SessionStatus::Queued,
        StatusGroup::Active => st == SessionStatus::Active,
        StatusGroup::Stopped => st == SessionStatus::Stopped,
        StatusGroup::Occupying => st == SessionStatus::Active || st == SessionStatus::Pending,
    }
}

/// Whether `st` is in group `g`.
pub fn status_in_group(g: StatusGroup, st: SessionStatus) -> (r: bool)
    ensures
        r == in_group(g, st),
{
    match g {
        StatusGroup::Waiting => st == SessionStatus::Pending || st == SessionStatus::Queued,
        StatusGroup::Active => st == SessionStatus::Active,
        StatusGroup::Stopped => st == SessionStatus::Stopped,
        StatusGroup::Occupying => st == SessionStatus::Active || st == SessionStatus::Pending,
    }
}

/// The number of sessions of `s` whose status is in group `g`.
pub open spec fn count_in(s: Seq<SessionDescriptor>, g: StatusGroup) -> nat
    decreases s.len(),
{
    if s.len() == 0 {
        0
    } else {
        count_in(s.drop_last(), g) + if in_group(g, s.last().status) {
            1nat
        } else {
            0nat
        }
    }
}

/// No two sessions share an id.
pub open spec fn ids_unique(s: Seq<SessionDescriptor>) -> bool {
    forall|i: int, j: int| 0 <= i < s.len() && 0 <= j < s.len() && i != j ==> s[i].id != s[j].id
}

/// Some session of `s` has id `id`.
pub open spec fn has_id(s: Seq<SessionDescriptor>, id: u128) -> bool {
    exists|i: int| 0 <= i < s.len() && #[trigger] s[i].id == id
}

/// `i` is the first position of `s` whose status is in group `g`.
pub open spec fn first_in(s: Seq<SessionDescriptor>, g: StatusGroup, i: int) -> bool {
    &&& 0 <= i < s.len()
    &&& in_group(g, s[i].status)
    &&& forall|j: int| 0 <= j < i ==> !in_group(g, #[trigger] s[j].status)
}

/// No session of `s` has its status in group `g`.
pub open spec fn none_in(s: Seq<SessionDescriptor>, g: StatusGroup) -> bool {
    forall|j: int| 0 <= j < s.len() ==> !in_group(g, #[trigger] s[j].status)
}

/// The status a new session gets: active under automatic acceptance and
/// pending under the other acceptance policies.
pub open spec fn admission_status(acceptance: AcceptancePolicy) -> SessionStatus {
    match acceptance {
        AcceptancePolicy::Auto => SessionStatus::Active,
        AcceptancePolicy::Ask => SessionStatus::Pending,
        AcceptancePolicy::TrustedOnly => SessionStatus::Pending,
    }
}

/// How strongly an active session holds its slot under queue policy `q`:
/// the session with the lowest weight (then the oldest) is displaced.
pub open spec fn hold_weight(q: QueuePolicy, p: SessionPriority) -> nat {
    match q {
        QueuePolicy::FirstIn => 0,
        QueuePolicy::TeacherPriority => match p {
            SessionPriority::AdminOverride => 2,
            SessionPriority::Teacher => 1,
            SessionPriority::Normal => 0,
        },
        QueuePolicy::AdminOverride => match p {
            SessionPriority::AdminOverride => 3,
            SessionPriority::Teacher => 2,
            SessionPriority::Normal => 1,
        },
    }
}

/// `a` is displaced before `b`: lower weight, or equal weight and created
/// earlier.
pub open spec fn displaced_before(q: QueuePolicy, a: SessionDescriptor, b: SessionDescriptor) -> bool {
    hold_weight(q, a.priority) < hold_weight(q, b.priority) || (hold_weight(q, a.priority)
        == hold_weight(q, b.priority) && before(a.created_at, b.created_at))
}

/// `v` is the active session that is displaced first under `q`: no active
/// session is displaced before it, and of those that tie with it, it comes
/// first in `s`.
pub open spec fn handoff_choice(s: Seq<SessionDescriptor>, q: QueuePolicy, v: int) -> bool {
    &&& 0 <= v < s.len()
    &&& s[v].status == SessionStatus::Active
    &&& forall|j: int|
        0 <= j < s.len() && (#[trigger] s[j]).status == SessionStatus::Active ==> !displaced_before(
            q,
            s[j],
            s[v],
        )
    &&& forall|j: int|
        0 <= j < v && (#[trigger] s[j]).status == SessionStatus::Active ==> displaced_before(
            q,
            s[v],
            s[j],
        )
}


/// Counting after one session is replaced: the old one leaves the count of
/// its group, the new one joins the count of its own.
pub proof fn lemma_count_update(s: Seq<SessionDescriptor>, g: StatusGroup, i: int, x: SessionDescriptor)
    requires
        0 <= i < s.len(),
    ensures
        count_in(s.update(i, x), g) + (if in_group(g, s[i].status) {
            1int
        } else {
            0int
        }) == count_in(s, g) + (if in_group(g, x.status) {
            1int
        } else {
            0int
        }),
    decreases s.len(),
{
    if i == s.len() - 1 {
        assert(s.update(i, x).drop_last() == s.drop_last());
    } else {
        lemma_count_update(s.drop_last(), g, i, x);
        assert(s.update(i, x).drop_last() == s.drop_last().update(i, x));
    }
}

/// Counting after a session is appended.
pub proof fn lemma_count_push(s: Seq<SessionDescriptor>, g: StatusGroup, x: SessionDescriptor)
    ensures
        count_in(s.push(x), g) == count_in(s, g) + if in_group(g, x.status) {
            1nat
        } else {
            0nat
        },
{
    assert(s.push(x).drop_last() == s);
}

/// A group that holds no session of `s` counts zero.
pub proof fn lemma_count_none(s: Seq<SessionDescriptor>, g: StatusGroup)
    requires
        none_in(s, g),
    ensures
        count_in(s, g) == 0,
    decreases s.len(),
{
    if s.len() > 0 {
        lemma_count_none(s.drop_last(), g);
    }
}

/// Every session is waiting, active or stopped, so the three counts add up
/// to the number of sessions.
pub proof fn lemma_status_counts_cover(s: Seq<SessionDescriptor>)
    ensures
        count_in(s, StatusGroup::Waiting) + count_in(s, StatusGroup::Active) + count_in(
            s,
            StatusGroup::Stopped,
        ) == s.len(),
    decreases s.len(),
{
    if s.len() > 0 {
        lemma_status_counts_cover(s.drop_last());
    }
}

/// A count never exceeds the number of sessions.
pub proof fn lemma_count_bounded(s: Seq<SessionDescriptor>, g: StatusGroup)
    ensures
        count_in(s, g) <= s.len(),
    decreases s.len(),
{
    if s.len() > 0 {
        lemma_count_bounded(s.drop_last(), g);
    }
}


/// When some session is active, one of them is the displaced one.
pub proof fn lemma_handoff_exists(s: Seq<SessionDescriptor>, q: QueuePolicy)
    requires
        !none_in(s, StatusGroup::Active),
    ensures
        exists|v: int| handoff_choice(s, q, v),
    decreases s.len(),
{
    let n = s.len() - 1;
    let p = s.drop_last();
    if none_in(p, StatusGroup::Active) {
        assert(s[n].status == SessionStatus::Active) by {
            let k = choose|k: int| 0 <= k < s.len() && in_group(StatusGroup::Active, #[trigger] s[k].status);
            if k < n {
                assert(p[k] == s[k]);
            }
        }
        assert forall|j: int| 0 <= j < n implies (#[trigger] s[j]).status != SessionStatus::Active by {
            assert(p[j] == s[j]);
            assert(!in_group(StatusGroup::Active, p[j].status));
        }
        assert(handoff_choice(s, q, n));
    } else {
        lemma_handoff_exists(p, q);
        let w = choose|v: int| handoff_choice(p, q, v);
        assert forall|j: int| 0 <= j < n implies #[trigger] s[j] == p[j] by {}
        if s[n].status == SessionStatus::Active && displaced_before(q, s[n], s[w]) {
            assert(handoff_choice(s, q, n));
        } else {
            assert(handoff_choice(s, q, w));
        }
    }
}

/// The number of sessions whose status is in group `g`.
pub fn count_sessions(s: &Vec<SessionDescriptor>, g: StatusGroup) -> (r: usize)
    ensures
        r == count_in(s@, g),
{
    let mut n: usize = 0;
    let mut i: usize = 0;
    while i < s.len()
        invariant
            i <= s.len(),
            n == count_in(s@.take(i as int), g),
            n <= i,
        decreases s.len() - i,
    {
        assert(s@.take(i + 1).drop_last() == s@.take(i as int));
        if status_in_group(g, s[i].status) {
            n = n + 1;
        }
        i = i + 1;
    }
    assert(s@.take(s.len() as int) == s@);
    n
}

/// The position of the first session whose status is in group `g`.
pub fn find_first(s: &Vec<SessionDescriptor>, g: StatusGroup) -> (r: Option<usize>)
    ensures
        match r {
            Some(i) => first_in(s@, g, i as int),
            None => none_in(s@, g),
        },
{
    let mut i: usize = 0;
    while i < s.len()
        invariant
            i <= s.len(),
            forall|j: int| 0 <= j < i ==> !in_group(g, #[trigger] s@[j].status),
        decreases s.len() - i,
    {
        if status_in_group(g, s[i].status) {
            return Some(i);
        }
        i = i + 1;
    }
    None
}

/// The position of the session with id `id`.
pub fn position_of(s: &Vec<SessionDescriptor>, id: u128) -> (r: Option<usize>)
    ensures
        match r {
            Some(i) => i < s@.len() && s@[i as int].id == id,
            None => !has_id(s@, id),
        },
{
    let mut i: usize = 0;
    while i < s.len()
        invariant
            i <= s.len(),
            forall|j: int| 0 <= j < i ==> #[trigger] s@[j].id != id,
        decreases s.len() - i,
    {
        if s[i].id == id {
            return Some(i);
        }
        i = i + 1;
    }
    None
}

/// The weight with which a session holds its slot.
pub fn hold_weight_of(q: QueuePolicy, p: SessionPriority) -> (r: u8)
    ensures
        r as nat == hold_weight(q, p),
{
    match q {
        QueuePolicy::FirstIn => 0,
        QueuePolicy::TeacherPriority => match p {
            SessionPriority::AdminOverride => 2,
            SessionPriority::Teacher => 1,
            SessionPriority::Normal => 0,
        },
        QueuePolicy::AdminOverride => match p {
            SessionPriority::AdminOverride => 3,
            SessionPriority::Teacher => 2,
            SessionPriority::Normal => 1,
        },
    }
}

fn is_displaced_before(q: QueuePolicy, a: &SessionDescriptor, b: &SessionDescriptor) -> (r: bool)
    ensures
        r == displaced_before(q, *a, *b),
{
    let wa = hold_weight_of(q, a.priority);
    let wb = hold_weight_of(q, b.priority);
    wa < wb || (wa == wb && a.created_at.is_before(&b.created_at))
}

/// The active session that gives up its slot, if any session is active.
pub fn choose_handoff(s: &Vec<SessionDescriptor>, q: QueuePolicy) -> (r: Option<usize>)
    ensures
        match r {
            Some(v) => handoff_choice(s@, q, v as int),
            None => none_in(s@, StatusGroup::Active),
        },
{
    let mut best: Option<usize> = None;
    let mut i: usize = 0;
    while i < s.len()
        invariant
            i <= s.len(),
            match best {
                Some(v) => {
                    &&& v < i
                    &&& s@[v as int].status == SessionStatus::Active
                    &&& forall|j: int|
                        0 <= j < i && (#[trigger] s@[j]).status == SessionStatus::Active
                            ==> !displaced_before(q, s@[j], s@[v as int])
                    &&& forall|j: int|
                        0 <= j < v && (#[trigger] s@[j]).status == SessionStatus::Active
                            ==> displaced_before(q, s@[v as int], s@[j])
                },
                None => forall|j: int| 0 <= j < i ==> !in_group(StatusGroup::Active, #[trigger] s@[j].status),
            },
        decreases s.len() - i,
    {
        if s[i].status == SessionStatus::Active {
            match best {
                None => {
                    best = Some(i);
                },
                Some(v) => {
                    if is_displaced_before(q, &s[i], &s[v]) {
                        best = Some(i);
                    }
                },
            }
        }
        i = i + 1;
    }
    best
}

} // verus!
