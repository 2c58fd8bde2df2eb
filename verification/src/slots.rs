//! Price slots in order: what a supplier publishes, sorted and without repetition.
use crate::utc::UtcTime;
use vstd::prelude::*;

verus! {

/// A slot of prices.
pub trait Timed: Sized + Copy {
    spec fn starts(self) -> UtcTime;

    /// When the slot starts.
    fn start(self) -> (r: UtcTime)
        ensures
            r == self.starts(),
    ;
}

/// The slot lies in the range from one instant up to, not including, another.
pub open spec fn is_in_range<T: Timed>(slot: T, start: UtcTime, end: UtcTime) -> bool {
    start.rank() <= slot.starts().rank() < end.rank()
}

/// The slot at a place is the first that starts when it does.
pub open spec fn is_first<T: Timed>(slots: Seq<T>, k: int) -> bool {
    forall|j: int|
        0 <= j < k ==> (#[trigger] slots[j]).starts().rank() != slots[k].starts().rank()
}

/// The slot was published, and before any other that starts when it does.
pub open spec fn stems<T: Timed>(slot: T, published: Seq<T>) -> bool {
    exists|k: int|
        0 <= k < published.len() && (#[trigger] published[k]) == slot && is_first(published, k)
}

/// Some slot of a list starts when this one does.
pub open spec fn lists<T: Timed>(list: Seq<T>, slot: T) -> bool {
    exists|i: int|
        0 <= i < list.len() && (#[trigger] list[i]).starts().rank() == slot.starts().rank()
}

/// Every slot starts after the one before it.
pub open spec fn is_sorted<T: Timed>(slots: Seq<T>) -> bool {
    forall|i: int, j: int|
        0 <= i < j < slots.len() ==> (#[trigger] slots[i]).starts().rank() < (
        #[trigger] slots[j]).starts().rank()
}

/// The slots of a range, sorted by start: of those that start together the first published
/// is kept, and nothing is invented or left out.
pub open spec fn is_tidy<T: Timed>(
    tidy: Seq<T>,
    published: Seq<T>,
    start: UtcTime,
    end: UtcTime,
) -> bool {
    &&& is_sorted(tidy)
    &&& forall|i: int|
        0 <= i < tidy.len() ==> #[trigger] stems(tidy[i], published) && is_in_range(
            tidy[i],
            start,
            end,
        )
    &&& forall|k: int|
        0 <= k < published.len() && is_in_range(published[k], start, end) ==> #[trigger] lists(
            tidy,
            published[k],
        )
}

/// No slot lies in the range.
pub open spec fn is_barren<T: Timed>(published: Seq<T>, start: UtcTime, end: UtcTime) -> bool {
    forall|k: int|
        0 <= k < published.len() ==> !is_in_range(#[trigger] published[k], start, end)
}

/// The place in sorted slots before which all start earlier.
fn place_of<T: Timed>(slots: &Vec<T>, at: UtcTime) -> (place: usize)
    ensures
        place <= slots@.len(),
        forall|j: int| 0 <= j < place ==> (#[trigger] slots@[j]).starts().rank() < at.rank(),
        place < slots@.len() ==> at.rank() <= slots@[place as int].starts().rank(),
{
    let mut i: usize = 0;
    while i < slots.len() && slots[i].start().before(at)
        invariant
            i <= slots@.len(),
            forall|j: int| 0 <= j < i ==> (#[trigger] slots@[j]).starts().rank() < at.rank(),
        decreases slots@.len() - i,
    {
        i += 1;
    }
    i
}

/// The slots of a range, sorted, of each start the first.
pub fn tidy<T: Timed>(published: &Vec<T>, start: UtcTime, end: UtcTime) -> (tidy: Vec<T>)
    ensures
        is_tidy(tidy@, published@, start, end),
        tidy@.len() == 0 <==> is_barren(published@, start, end),
{
    let mut tidy: Vec<T> = Vec::new();
    let mut k: usize = 0;
    while k < published.len()
        invariant
            k <= published@.len(),
            is_tidy(tidy@, published@.take(k as int), start, end),
        decreases published@.len() - k,
    {
        let slot = published[k];
        let at = slot.start();
        let ghost before = tidy@;
        let inside = !at.before(start) && at.before(end);
        let place: usize = place_of(&tidy, at);
        let known = place < tidy.len() && !at.before(tidy[place].start());
        if inside && !known {
            tidy.insert(place, slot);
        }
        proof {
            lemma_one_more(
                before,
                tidy@,
                published@.take(k as int),
                slot,
                place as int,
                start,
                end,
            );
            assert(published@.take(k + 1) =~= published@.take(k as int).push(slot));
        }
        k += 1;
    }
    assert(published@.take(k as int) =~= published@);
    proof {
        if tidy@.len() > 0 {
            assert(stems(tidy@[0], published@));
            let j = choose|j: int|
                0 <= j < published@.len() && (#[trigger] published@[j]) == tidy@[0] && is_first(
                    published@,
                    j,
                );
            assert(is_in_range(published@[j], start, end));
        } else {
            assert forall|j: int| 0 <= j < published@.len() implies !is_in_range(
                #[trigger] published@[j],
                start,
                end,
            ) by {
                if is_in_range(published@[j], start, end) {
                    assert(lists(tidy@, published@[j]));
                }
            }
        }
    }
    tidy
}

/// The slots of a longer publication: `last` stands behind those of before, and enters the
/// tidy ones at its place if it is in range and none of them starts with it.
spec fn takes_in<T: Timed>(
    before: Seq<T>,
    after: Seq<T>,
    last: T,
    place: int,
    start: UtcTime,
    end: UtcTime,
) -> bool {
    &&& 0 <= place <= before.len()
    &&& forall|j: int|
        0 <= j < place ==> (#[trigger] before[j]).starts().rank() < last.starts().rank()
    &&& place < before.len() ==> last.starts().rank() <= before[place].starts().rank()
    &&& after == if is_entered(before, last, place, start, end) {
        before.insert(place, last)
    } else {
        before
    }
}

spec fn is_entered<T: Timed>(
    before: Seq<T>,
    last: T,
    place: int,
    start: UtcTime,
    end: UtcTime,
) -> bool {
    is_in_range(last, start, end) && !(place < before.len() && before[place].starts().rank()
        <= last.starts().rank())
}

proof fn lemma_stays_sorted<T: Timed>(
    before: Seq<T>,
    after: Seq<T>,
    last: T,
    place: int,
    start: UtcTime,
    end: UtcTime,
)
    requires
        is_sorted(before),
        takes_in(before, after, last, place, start, end),
    ensures
        is_sorted(after),
{
    if is_entered(before, last, place, start, end) {
        assert forall|i: int, j: int| 0 <= i < j < after.len() implies (
        #[trigger] after[i]).starts().rank() < (#[trigger] after[j]).starts().rank() by {
            if i == place && j - 1 > place {
                assert(before[place].starts().rank() < before[j - 1].starts().rank());
            }
        }
    }
}

proof fn lemma_is_first<T: Timed>(
    before: Seq<T>,
    published: Seq<T>,
    last: T,
    place: int,
    start: UtcTime,
    end: UtcTime,
)
    requires
        is_tidy(before, published, start, end),
        takes_in(before, before.insert(place, last), last, place, start, end),
        is_entered(before, last, place, start, end),
    ensures
        is_first(published.push(last), published.len() as int),
{
    let more = published.push(last);
    let n = published.len() as int;
    assert forall|j: int| 0 <= j < n implies (#[trigger] more[j]).starts().rank()
        != more[n].starts().rank() by {
        if more[j].starts().rank() == last.starts().rank() {
            assert(published[j] == more[j]);
            assert(lists(before, published[j]));
            let i = choose|i: int|
                0 <= i < before.len() && (#[trigger] before[i]).starts().rank()
                    == published[j].starts().rank();
            if i > place {
                assert(before[place].starts().rank() < before[i].starts().rank());
            }
        }
    }
}

proof fn lemma_still_stems<T: Timed>(slot: T, published: Seq<T>, last: T)
    requires
        stems(slot, published),
    ensures
        stems(slot, published.push(last)),
{
    let more = published.push(last);
    let k = choose|k: int|
        0 <= k < published.len() && (#[trigger] published[k]) == slot && is_first(published, k);
    assert(more[k] == published[k]);
    assert forall|j: int| 0 <= j < k implies (#[trigger] more[j]).starts().rank()
        != more[k].starts().rank() by {
        assert(more[j] == published[j]);
    }
    assert(is_first(more, k));
}

proof fn lemma_one_more<T: Timed>(
    before: Seq<T>,
    after: Seq<T>,
    published: Seq<T>,
    last: T,
    place: int,
    start: UtcTime,
    end: UtcTime,
)
    requires
        is_tidy(before, published, start, end),
        takes_in(before, after, last, place, start, end),
    ensures
        is_tidy(after, published.push(last), start, end),
{
    let more = published.push(last);
    let n = published.len() as int;
    let entered = is_entered(before, last, place, start, end);
    lemma_stays_sorted(before, after, last, place, start, end);
    if entered {
        lemma_is_first(before, published, last, place, start, end);
        assert(more[n] == last);
        assert(stems(last, more));
    }
    assert forall|i: int| 0 <= i < after.len() implies #[trigger] stems(after[i], more)
        && is_in_range(after[i], start, end) by {
        if !entered || i != place {
            let a = if entered && i > place {
                i - 1
            } else {
                i
            };
            assert(after[i] == before[a]);
            assert(stems(before[a], published));
            lemma_still_stems(before[a], published, last);
        }
    }
    assert forall|k: int| 0 <= k < more.len() && is_in_range(more[k], start, end) implies #[trigger] lists(
        after,
        more[k],
    ) by {
        if k < n {
            assert(more[k] == published[k]);
            assert(lists(before, published[k]));
            let a = choose|a: int|
                0 <= a < before.len() && (#[trigger] before[a]).starts().rank()
                    == published[k].starts().rank();
            let i = if entered && a >= place {
                a + 1
            } else {
                a
            };
            assert(after[i] == before[a]);
        } else {
            assert(after[place].starts().rank() == last.starts().rank());
        }
    }
}

/// Two tidy selections from the same slots are the same: what is published decides what is
/// returned.
pub proof fn law_tidy_slots_are_determined<T: Timed>(
    a: Seq<T>,
    b: Seq<T>,
    published: Seq<T>,
    start: UtcTime,
    end: UtcTime,
)
    requires
        is_tidy(a, published, start, end),
        is_tidy(b, published, start, end),
    ensures
        a == b,
{
    lemma_no_longer(a, b, published, start, end, a.len() as int);
    lemma_no_longer(b, a, published, start, end, b.len() as int);
    assert(a =~= b);
}

/// The slots of one tidy selection stand at the same places of the other.
proof fn lemma_no_longer<T: Timed>(
    a: Seq<T>,
    b: Seq<T>,
    published: Seq<T>,
    start: UtcTime,
    end: UtcTime,
    n: int,
)
    requires
        is_tidy(a, published, start, end),
        is_tidy(b, published, start, end),
        0 <= n <= a.len(),
    ensures
        n <= b.len(),
        forall|i: int| 0 <= i < n ==> a[i] == b[i],
    decreases n,
{
    if n > 0 {
        lemma_no_longer(a, b, published, start, end, n - 1);
        let m = n - 1;
        let i = lemma_counterpart(a, b, published, start, end, m);
        assert(i >= m) by {
            if i < m {
                assert(a[i] == b[i]);
                assert(a[i].starts().rank() < a[m].starts().rank());
            }
        }
        if i > m {
            let j = lemma_counterpart(b, a, published, start, end, m);
            assert(b[m].starts().rank() < b[i].starts().rank());
            if j < m {
                assert(a[j] == b[j]);
                assert(b[j].starts().rank() < b[m].starts().rank());
            } else if j > m {
                assert(a[m].starts().rank() < a[j].starts().rank());
            }
            assert(false);
        }
    }
}

proof fn lemma_counterpart<T: Timed>(
    a: Seq<T>,
    b: Seq<T>,
    published: Seq<T>,
    start: UtcTime,
    end: UtcTime,
    m: int,
) -> (i: int)
    requires
        is_tidy(a, published, start, end),
        is_tidy(b, published, start, end),
        0 <= m < a.len(),
    ensures
        0 <= i < b.len(),
        b[i] == a[m],
{
    assert(stems(a[m], published));
    let k = choose|k: int|
        0 <= k < published.len() && (#[trigger] published[k]) == a[m] && is_first(published, k);
    assert(lists(b, published[k]));
    let i = choose|i: int|
        0 <= i < b.len() && (#[trigger] b[i]).starts().rank() == published[k].starts().rank();
    assert(stems(b[i], published));
    let l = choose|l: int|
        0 <= l < published.len() && (#[trigger] published[l]) == b[i] && is_first(published, l);
    if l < k {
        assert(published[l].starts().rank() != published[k].starts().rank());
    } else if k < l {
        assert(published[k].starts().rank() != published[l].starts().rank());
    }
    i
}

/// The place at which a slot of a range was published.
pub proof fn lemma_slot_was_published<T: Timed>(
    tidy: Seq<T>,
    published: Seq<T>,
    start: UtcTime,
    end: UtcTime,
    i: int,
) -> (k: int)
    requires
        is_tidy(tidy, published, start, end),
        0 <= i < tidy.len(),
    ensures
        0 <= k < published.len(),
        published[k] == tidy[i],
        start.rank() <= published[k].starts().rank() < end.rank(),
{
    assert(stems(tidy[i], published));
    choose|k: int|
        0 <= k < published.len() && (#[trigger] published[k]) == tidy[i] && is_first(published, k)
}

} // verus!
