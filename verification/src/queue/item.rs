//! Queue items and the order in which they leave a queue.

use std::cmp::Ordering;
use vstd::multiset::Multiset;
use vstd::prelude::*;
use crate::clock::Timestamp;
use crate::models::shared::{clone_marker, Priority, Role};
use crate::text::{
    lemma_name_lt_transitive, lemma_name_lt_trichotomy, name_before, name_lt,
};

verus! {

/// An entry of either queue.
///
/// In the jobs queue an item is an open role on a film: `film_name`, `role`
/// and `priority` are meaningful. In the wait queue it is a student who
/// asked for work: `student_slack_id`, `role`, `msg_ts` and `channel` are
/// meaningful and `priority` is unset.
#[derive(Debug, PartialEq, Eq)]
pub struct QueueItem {
    pub id: u128,
    pub student_slack_id: String,
    pub film_name: String,
    pub role: Role,
    pub priority: Option<Priority>,
    pub msg_ts: Option<String>,
    pub channel: Option<String>,
    pub created_at: Timestamp,
}

/// `a` leaves a queue strictly before `b`.
///
/// Higher priority first, where both items have one; then the older item;
/// then the smaller film name.
pub open spec fn precedes(a: QueueItem, b: QueueItem) -> bool {
    if a.priority is Some && b.priority is Some && a.priority != b.priority {
        a.priority.unwrap().rank() > b.priority.unwrap().rank()
    } else if a.created_at != b.created_at {
        a.created_at.earlier(b.created_at)
    } else {
        name_lt(a.film_name@, b.film_name@)
    }
}

/// Both items carry a priority, or neither does.
pub open spec fn same_kind(a: QueueItem, b: QueueItem) -> bool {
    a.priority is Some <==> b.priority is Some
}

/// The two items agree in all that the order looks at.
pub open spec fn same_rank(a: QueueItem, b: QueueItem) -> bool {
    &&& a.priority is Some && b.priority is Some ==> a.priority == b.priority
    &&& a.created_at == b.created_at
    &&& a.film_name@ == b.film_name@
}

/// Every two items of the collection are of the same kind.
pub open spec fn uniform(items: Multiset<QueueItem>) -> bool {
    forall|a: QueueItem, b: QueueItem|
        items.contains(a) && items.contains(b) ==> #[trigger] same_kind(a, b)
}

/// No item leaves before itself, and no two items leave before each other.
pub proof fn lemma_precedes_asymmetric(a: QueueItem, b: QueueItem)
    ensures
        !precedes(a, a),
        !(precedes(a, b) && precedes(b, a)),
{
    lemma_name_lt_trichotomy(a.film_name@, b.film_name@);
    lemma_name_lt_trichotomy(a.film_name@, a.film_name@);
}

/// Among items of one kind, leaving before is transitive.
pub proof fn lemma_precedes_transitive(a: QueueItem, b: QueueItem, c: QueueItem)
    requires
        same_kind(a, b),
        same_kind(b, c),
        precedes(a, b),
        precedes(b, c),
    ensures
        precedes(a, c),
{
    if a.created_at == b.created_at && b.created_at == c.created_at && name_lt(
        a.film_name@,
        b.film_name@,
    ) && name_lt(b.film_name@, c.film_name@) {
        lemma_name_lt_transitive(a.film_name@, b.film_name@, c.film_name@);
    }
}

/// Of two items one leaves before the other, unless they agree in priority,
/// age and film name.
pub proof fn lemma_precedes_total(a: QueueItem, b: QueueItem)
    ensures
        precedes(a, b) || precedes(b, a) || same_rank(a, b),
        same_rank(a, b) ==> !precedes(a, b) && !precedes(b, a),
{
    lemma_name_lt_trichotomy(a.film_name@, b.film_name@);
}

/// The order in which items of one kind leave a queue is a strict total
/// order on (priority, age, film name): high priority before low, older
/// before newer within a priority, and the smaller film name first among
/// items of the same priority and age.
pub proof fn lemma_pop_order_is_total(a: QueueItem, b: QueueItem, c: QueueItem)
    requires
        same_kind(a, b),
        same_kind(b, c),
    ensures
        !precedes(a, a),
        !(precedes(a, b) && precedes(b, a)),
        precedes(a, b) && precedes(b, c) ==> precedes(a, c),
        precedes(a, b) || precedes(b, a) || same_rank(a, b),
        a.priority == Some(Priority::High) && b.priority == Some(Priority::Low) ==> precedes(a, b),
        a.priority == b.priority && a.created_at.earlier(b.created_at) ==> precedes(a, b),
        a.priority == b.priority && a.created_at == b.created_at && name_lt(
            a.film_name@,
            b.film_name@,
        ) ==> precedes(a, b),
{
    lemma_precedes_asymmetric(a, b);
    lemma_precedes_total(a, b);
    if precedes(a, b) && precedes(b, c) {
        lemma_precedes_transitive(a, b, c);
    }
}

impl QueueItem {
    /// Whether `self` leaves a queue strictly before `other`.
    pub fn outranks(&self, other: &QueueItem) -> (before: bool)
        ensures
            before == precedes(*self, *other),
    {
        match (self.priority, other.priority) {
            (Some(Priority::High), Some(Priority::Low)) => {
                return true;
            },
            (Some(Priority::Low), Some(Priority::High)) => {
                return false;
            },
            _ => {},
        }
        if self.created_at != other.created_at {
            return self.created_at.is_before(&other.created_at);
        }
        name_before(self.film_name.as_str(), other.film_name.as_str())
    }

    /// Compares two items as a max-heap would: the greater item leaves first.
    pub fn cmp(&self, other: &QueueItem) -> (ord: Ordering)
        ensures
            ord == Ordering::Greater <==> precedes(*self, *other),
            ord == Ordering::Less <==> precedes(*other, *self),
    {
        proof {
            lemma_precedes_asymmetric(*self, *other);
        }
        if self.outranks(other) {
            Ordering::Greater
        } else if other.outranks(self) {
            Ordering::Less
        } else {
            Ordering::Equal
        }
    }

    /// As `cmp`; the order is defined on every pair.
    pub fn partial_cmp(&self, other: &QueueItem) -> (ord: Option<Ordering>)
        ensures
            ord is Some,
            ord == Some(Ordering::Greater) <==> precedes(*self, *other),
            ord == Some(Ordering::Less) <==> precedes(*other, *self),
    {
        Some(self.cmp(other))
    }
}

impl Clone for QueueItem {
    fn clone(&self) -> (copy: Self)
        ensures
            copy == *self,
    {
        QueueItem {
            id: self.id,
            student_slack_id: self.student_slack_id.clone(),
            film_name: self.film_name.clone(),
            role: self.role,
            priority: self.priority,
            msg_ts: clone_marker(&self.msg_ts),
            channel: clone_marker(&self.channel),
            created_at: self.created_at,
        }
    }
}

} // verus!
