//! One subscriber's list of watched courses: kept sorted and free of
//! repetitions, edited by the commands and thinned by the scheduler.

use vstd::prelude::*;
use vstd::string::StringExecFns;
use crate::text::{chars_of, is_digit, join, joined, views};

verus! {

/// `a` stands before `b` in the order of the dictionary, character by
/// character and by code point: the order in which strings sort.
pub open spec fn precedes(a: Seq<char>, b: Seq<char>) -> bool
    decreases a.len(),
{
    if b.len() == 0 {
        false
    } else if a.len() == 0 {
        true
    } else if a[0] != b[0] {
        a[0] < b[0]
    } else {
        precedes(a.drop_first(), b.drop_first())
    }
}

/// Each item stands before all that follow it: sorted, and nothing twice.
pub open spec fn strictly_sorted(items: Seq<Seq<char>>) -> bool {
    forall|i: int, j: int| 0 <= i < j < items.len() ==> precedes(items[i], items[j])
}

/// `sorted` with `x` put in its place, unless it is there already.
pub open spec fn inserted(sorted: Seq<Seq<char>>, x: Seq<char>) -> Seq<Seq<char>>
    decreases sorted.len(),
{
    if sorted.len() == 0 {
        seq![x]
    } else if sorted.last() == x {
        sorted
    } else if precedes(sorted.last(), x) {
        sorted.push(x)
    } else {
        inserted(sorted.drop_last(), x).push(sorted.last())
    }
}

/// The items in order, each once.
pub open spec fn normalized(items: Seq<Seq<char>>) -> Seq<Seq<char>>
    decreases items.len(),
{
    if items.len() == 0 {
        Seq::empty()
    } else {
        inserted(normalized(items.drop_last()), items.last())
    }
}

/// The list after a course was added to it.
pub open spec fn spec_with_course(current: Seq<Seq<char>>, course: Seq<char>) -> Seq<Seq<char>> {
    normalized(current.push(course))
}

/// `current` without the items that occur in `gone`, the others in their
/// order.
pub open spec fn without(current: Seq<Seq<char>>, gone: Seq<Seq<char>>) -> Seq<Seq<char>>
    decreases current.len(),
{
    if current.len() == 0 {
        Seq::empty()
    } else if gone.contains(current.last()) {
        without(current.drop_last(), gone)
    } else {
        without(current.drop_last(), gone).push(current.last())
    }
}

/// The list after a course was removed from it.
pub open spec fn spec_without_course(current: Seq<Seq<char>>, course: Seq<char>) -> Seq<Seq<char>> {
    without(current, seq![course])
}

/// A course identifier is made of decimal digits and nothing else.
pub open spec fn is_course_id(text: Seq<char>) -> bool {
    crate::text::all_digits(text)
}

/// No string stands before itself.
pub proof fn lemma_precedes_irreflexive(a: Seq<char>)
    ensures
        !precedes(a, a),
    decreases a.len(),
{
    if a.len() > 0 {
        lemma_precedes_irreflexive(a.drop_first());
    }
}

/// Of two different strings one stands before the other.
pub proof fn lemma_precedes_total(a: Seq<char>, b: Seq<char>)
    ensures
        a == b || precedes(a, b) || precedes(b, a),
    decreases a.len(),
{
    if a.len() > 0 && b.len() > 0 && a[0] == b[0] {
        lemma_precedes_total(a.drop_first(), b.drop_first());
        if a.drop_first() == b.drop_first() {
            assert(a =~= seq![a[0]] + a.drop_first());
            assert(b =~= seq![b[0]] + b.drop_first());
        }
    } else if a.len() == 0 && b.len() == 0 {
        assert(a =~= b);
    }
}

/// What stands before a string stands before all that the string stands
/// before.
pub proof fn lemma_precedes_transitive(a: Seq<char>, b: Seq<char>, c: Seq<char>)
    requires
        precedes(a, b),
        precedes(b, c),
    ensures
        precedes(a, c),
    decreases a.len(),
{
    if a.len() > 0 && a[0] == b[0] && b[0] == c[0] {
        lemma_precedes_transitive(a.drop_first(), b.drop_first(), c.drop_first());
    }
}

/// No two strings stand before each other.
pub proof fn lemma_precedes_asymmetric(a: Seq<char>, b: Seq<char>)
    requires
        precedes(a, b),
    ensures
        !precedes(b, a),
{
    if precedes(b, a) {
        lemma_precedes_transitive(a, b, a);
        lemma_precedes_irreflexive(a);
    }
}

/// Whether `a` stands before `b` in the order in which strings sort.
pub fn str_precedes(a: &str, b: &str) -> (r: bool)
    ensures
        r == precedes(a@, b@),
{
    let x = chars_of(a);
    let y = chars_of(b);
    let mut i: usize = 0;
    proof {
        assert(a@.skip(0) =~= a@);
        assert(b@.skip(0) =~= b@);
    }
    loop
        invariant
            x@ == a@,
            y@ == b@,
            i <= x.len(),
            i <= y.len(),
            precedes(a@, b@) == precedes(a@.skip(i as int), b@.skip(i as int)),
        decreases x.len() - i,
    {
        let ghost p = a@.skip(i as int);
        let ghost q = b@.skip(i as int);
        if i == y.len() {
            return false;
        }
        if i == x.len() {
            return true;
        }
        proof {
            assert(p[0] == x@[i as int] && q[0] == y@[i as int]);
            assert(p.drop_first() =~= a@.skip(i + 1));
            assert(q.drop_first() =~= b@.skip(i + 1));
        }
        if x[i] != y[i] {
            return x[i] < y[i];
        }
        i += 1;
    }
}

/// Puts `x` in its place in a sorted list, unless it is there already.
pub fn insert(sorted: Vec<String>, x: String) -> (out: Vec<String>)
    ensures
        views(out@) == inserted(views(sorted@), x@),
{
    let mut out = sorted;
    let ghost all = views(out@);
    let mut i: usize = out.len();
    let mut present = false;
    proof {
        assert(all.take(i as int) =~= all);
        assert(inserted(all, x@) + all.skip(i as int) =~= inserted(all, x@));
    }
    while i > 0
        invariant_except_break
            !present,
        invariant
            i <= out.len(),
            all == views(out@),
            inserted(all, x@) == inserted(all.take(i as int), x@) + all.skip(i as int),
        ensures
            i <= out.len(),
            all == views(out@),
            inserted(all, x@) == inserted(all.take(i as int), x@) + all.skip(i as int),
            present ==> i > 0 && all[i - 1] == x@,
            !present ==> i == 0 || (all[i - 1] != x@ && precedes(all[i - 1], x@)),
        decreases i,
    {
        let ghost head = all.take(i as int);
        proof {
            assert(head.last() == out@[i - 1]@);
            assert(head.drop_last() =~= all.take(i - 1));
        }
        if out[i - 1] == x {
            present = true;
            break ;
        }
        if str_precedes(out[i - 1].as_str(), x.as_str()) {
            break ;
        }
        proof {
            assert(inserted(head, x@) == inserted(all.take(i - 1), x@).push(head.last()));
            assert(inserted(all.take(i - 1), x@).push(head.last()) + all.skip(i as int)
                =~= inserted(all.take(i - 1), x@) + all.skip(i - 1));
        }
        i -= 1;
    }
    let ghost head = all.take(i as int);
    if present {
        proof {
            assert(head.last() == all[i - 1]);
            assert(inserted(head, x@) == head);
            assert(head + all.skip(i as int) =~= all);
        }
        return out;
    }
    proof {
        if i > 0 {
            assert(head.last() == all[i - 1]);
            assert(inserted(head, x@) == head.push(x@));
        } else {
            assert(inserted(head, x@) =~= seq![x@]);
        }
        assert(views(out@.insert(i as int, x)) =~= inserted(head, x@) + all.skip(i as int));
    }
    out.insert(i, x);
    out
}

/// Adds a course to a subscriber's list: the list comes back sorted and
/// without repetitions, with the course in it.
pub fn with_course(current: Vec<String>, course_id: String) -> (out: Vec<String>)
    ensures
        views(out@) == spec_with_course(views(current@), course_id@),
{
    let ghost all = views(current@).push(course_id@);
    let mut out: Vec<String> = Vec::new();
    let mut i: usize = 0;
    proof {
        assert(views(out@) =~= normalized(all.take(0)));
    }
    while i < current.len()
        invariant
            i <= current.len(),
            all == views(current@).push(course_id@),
            views(out@) == normalized(all.take(i as int)),
        decreases current.len() - i,
    {
        proof {
            let next = all.take(i + 1);
            assert(next.drop_last() =~= all.take(i as int));
            assert(next.last() == current@[i as int]@);
        }
        out = insert(out, current[i].clone());
        i += 1;
    }
    proof {
        assert(all.drop_last() =~= all.take(i as int));
        assert(all.last() == course_id@);
    }
    insert(out, course_id)
}

fn holds(list: &Vec<String>, item: &String) -> (r: bool)
    ensures
        r == views(list@).contains(item@),
{
    let mut i: usize = 0;
    while i < list.len()
        invariant
            i <= list.len(),
            forall|j: int| 0 <= j < i ==> views(list@)[j] != item@,
        decreases list.len() - i,
    {
        if list[i] == *item {
            proof {
                assert(views(list@)[i as int] == item@);
            }
            return true;
        }
        i += 1;
    }
    false
}

/// Takes the courses in `gone` out of a list, leaving the others in their
/// order.
pub fn strike(current: &Vec<String>, gone: &Vec<String>) -> (out: Vec<String>)
    ensures
        views(out@) == without(views(current@), views(gone@)),
{
    let ghost all = views(current@);
    let mut out: Vec<String> = Vec::new();
    let mut i: usize = 0;
    proof {
        assert(views(out@) =~= without(all.take(0), views(gone@)));
    }
    while i < current.len()
        invariant
            i <= current.len(),
            all == views(current@),
            views(out@) == without(all.take(i as int), views(gone@)),
        decreases current.len() - i,
    {
        let ghost before = views(out@);
        proof {
            let next = all.take(i + 1);
            assert(next.drop_last() =~= all.take(i as int));
            assert(next.last() == current@[i as int]@);
        }
        if !holds(gone, &current[i]) {
            out.push(current[i].clone());
            proof {
                assert(views(out@) =~= before.push(current@[i as int]@));
            }
        }
        i += 1;
    }
    proof {
        assert(all.take(i as int) =~= all);
    }
    out
}

/// Removes a course from a subscriber's list; a list without it comes back
/// as it was.
pub fn without_course(current: Vec<String>, course_id: String) -> (out: Vec<String>)
    ensures
        views(out@) == spec_without_course(views(current@), course_id@),
{
    let mut gone: Vec<String> = Vec::new();
    gone.push(course_id);
    proof {
        assert(views(gone@) =~= seq![course_id@]);
    }
    strike(&current, &gone)
}

/// Whether a text can be a course identifier: decimal digits only.
pub fn is_valid_course_id(text: &str) -> (r: bool)
    ensures
        r == is_course_id(text@),
{
    let cs = chars_of(text);
    let mut i: usize = 0;
    while i < cs.len()
        invariant
            cs@ == text@,
            i <= cs.len(),
            forall|j: int| 0 <= j < i ==> is_digit(#[trigger] cs@[j]),
        decreases cs.len() - i,
    {
        if !('0' <= cs[i] && cs[i] <= '9') {
            return false;
        }
        i += 1;
    }
    true
}

/// What a subscriber is told about the list.
pub open spec fn spec_list_course(list: Seq<Seq<char>>) -> Seq<char> {
    if list.len() > 0 {
        "Current registered courses:\n"@ + joined(list, "\n"@)
    } else {
        "No course registered!"@
    }
}

/// Words a subscriber's list for the subscriber.
pub fn list_course(list: &Vec<String>) -> (message: String)
    ensures
        message@ == spec_list_course(views(list@)),
{
    if list.len() > 0 {
        let mut message = String::from_str("Current registered courses:\n");
        message.append(join(list, "\n").as_str());
        message
    } else {
        String::from_str("No course registered!")
    }
}

/// Putting an item in its place adds the item and nothing else.
pub proof fn lemma_inserted_holds(items: Seq<Seq<char>>, x: Seq<char>, e: Seq<char>)
    ensures
        inserted(items, x).contains(e) <==> (items.contains(e) || e == x),
    decreases items.len(),
{
    let out = inserted(items, x);
    if items.len() == 0 {
        assert(out[0] == x);
        if out.contains(e) {
            let k = choose|k: int| 0 <= k < out.len() && out[k] == e;
            assert(e == x);
        }
    } else if items.last() == x {
        assert(items[items.len() - 1] == x);
    } else {
        let front = items.drop_last();
        let last = items.last();
        assert(items[items.len() - 1] == last);
        if items.contains(e) {
            let k = choose|k: int| 0 <= k < items.len() && items[k] == e;
            if k < front.len() {
                assert(front[k] == e);
            }
        }
        if front.contains(e) {
            let k = choose|k: int| 0 <= k < front.len() && front[k] == e;
            assert(items[k] == e);
        }
        assert(items.contains(e) <==> (front.contains(e) || e == last));
        if precedes(last, x) {
            assert(out == items.push(x));
            assert(out[items.len() as int] == x);
            if out.contains(e) {
                let k = choose|k: int| 0 <= k < out.len() && out[k] == e;
                if k < items.len() {
                    assert(items[k] == e);
                }
            }
            if items.contains(e) {
                let k = choose|k: int| 0 <= k < items.len() && items[k] == e;
                assert(out[k] == e);
            }
        } else {
            let mid = inserted(front, x);
            assert(out == mid.push(last));
            lemma_inserted_holds(front, x, e);
            assert(out[mid.len() as int] == last);
            if out.contains(e) {
                let k = choose|k: int| 0 <= k < out.len() && out[k] == e;
                if k < mid.len() {
                    assert(mid[k] == e);
                }
            }
            if mid.contains(e) {
                let k = choose|k: int| 0 <= k < mid.len() && mid[k] == e;
                assert(out[k] == e);
            }
            assert(out.contains(e) <==> (mid.contains(e) || e == last));
        }
    }
}

/// Putting an item in its place keeps a list sorted and free of
/// repetitions.
pub proof fn lemma_inserted(sorted: Seq<Seq<char>>, x: Seq<char>)
    requires
        strictly_sorted(sorted),
    ensures
        strictly_sorted(inserted(sorted, x)),
    decreases sorted.len(),
{
    let out = inserted(sorted, x);
    if sorted.len() == 0 {
    } else if sorted.last() == x {
    } else if precedes(sorted.last(), x) {
        assert forall|i: int, j: int| 0 <= i < j < out.len() implies precedes(out[i], out[j]) by {
            if j == sorted.len() && i < sorted.len() - 1 {
                lemma_precedes_transitive(sorted[i], sorted.last(), x);
            }
        }
    } else {
        let front = sorted.drop_last();
        let last = sorted.last();
        let mid = inserted(front, x);
        assert(out == mid.push(last));
        lemma_precedes_total(last, x);
        assert forall|i: int, j: int| 0 <= i < j < front.len() implies precedes(
            front[i],
            front[j],
        ) by {
            assert(front[i] == sorted[i] && front[j] == sorted[j]);
        }
        lemma_inserted(front, x);
        assert forall|i: int, j: int| 0 <= i < j < out.len() implies precedes(out[i], out[j]) by {
            if j == mid.len() {
                assert(out[j] == last);
                assert(out[i] == mid[i]);
                assert(mid.contains(mid[i]));
                lemma_inserted_holds(front, x, mid[i]);
                if mid[i] != x {
                    let k = choose|k: int| 0 <= k < front.len() && front[k] == mid[i];
                    assert(sorted[k] == mid[i]);
                    assert(precedes(sorted[k], sorted[sorted.len() - 1]));
                }
            } else {
                assert(out[i] == mid[i] && out[j] == mid[j]);
            }
        }
    }
}

/// A normalized list holds what the list held that it was made from.
pub proof fn lemma_normalized_holds(items: Seq<Seq<char>>, e: Seq<char>)
    ensures
        normalized(items).contains(e) <==> items.contains(e),
    decreases items.len(),
{
    if items.len() == 0 {
        if normalized(items).contains(e) {
            let k = choose|k: int| 0 <= k < normalized(items).len() && normalized(items)[k] == e;
        }
    } else {
        let front = items.drop_last();
        lemma_normalized_holds(front, e);
        lemma_inserted_holds(normalized(front), items.last(), e);
        assert(items[items.len() - 1] == items.last());
        if items.contains(e) {
            let k = choose|k: int| 0 <= k < items.len() && items[k] == e;
            if k < front.len() {
                assert(front[k] == e);
            }
        }
        if front.contains(e) {
            let k = choose|k: int| 0 <= k < front.len() && front[k] == e;
            assert(items[k] == e);
        }
    }
}

/// A normalized list is sorted and holds nothing twice.
pub proof fn lemma_normalized(items: Seq<Seq<char>>)
    ensures
        strictly_sorted(normalized(items)),
    decreases items.len(),
{
    if items.len() > 0 {
        lemma_normalized(items.drop_last());
        lemma_inserted(normalized(items.drop_last()), items.last());
    }
}

/// An item that a sorted list holds already has its place in it.
pub proof fn lemma_inserted_present(sorted: Seq<Seq<char>>, x: Seq<char>)
    requires
        strictly_sorted(sorted),
        sorted.contains(x),
    ensures
        inserted(sorted, x) == sorted,
    decreases sorted.len(),
{
    let k = choose|k: int| 0 <= k < sorted.len() && sorted[k] == x;
    if sorted.last() != x {
        let front = sorted.drop_last();
        assert(k < sorted.len() - 1);
        assert(precedes(x, sorted.last()));
        lemma_precedes_asymmetric(x, sorted.last());
        assert(front[k] == x);
        assert forall|i: int, j: int| 0 <= i < j < front.len() implies precedes(
            front[i],
            front[j],
        ) by {
            assert(front[i] == sorted[i] && front[j] == sorted[j]);
        }
        lemma_inserted_present(front, x);
        assert(front.push(sorted.last()) =~= sorted);
    }
}

/// A list that is sorted and holds nothing twice is its own normal form.
pub proof fn lemma_normalized_fixed(sorted: Seq<Seq<char>>)
    requires
        strictly_sorted(sorted),
    ensures
        normalized(sorted) == sorted,
    decreases sorted.len(),
{
    if sorted.len() == 0 {
        assert(sorted =~= Seq::empty());
    } else {
        let front = sorted.drop_last();
        assert forall|i: int, j: int| 0 <= i < j < front.len() implies precedes(
            front[i],
            front[j],
        ) by {
            assert(front[i] == sorted[i] && front[j] == sorted[j]);
        }
        lemma_normalized_fixed(front);
        if front.len() > 0 {
            assert(front.last() == sorted[sorted.len() - 2]);
            assert(precedes(front.last(), sorted.last()));
            lemma_precedes_irreflexive(sorted.last());
        }
        assert(front.push(sorted.last()) =~= sorted);
    }
}

/// After a course was added the list is sorted, holds nothing twice, and
/// holds the course beside what it held before.
pub proof fn lemma_with_course(current: Seq<Seq<char>>, course: Seq<char>)
    ensures
        strictly_sorted(spec_with_course(current, course)),
        spec_with_course(current, course).contains(course),
        forall|e: Seq<char>|
            spec_with_course(current, course).contains(e) <==> (current.contains(e) || e == course),
{
    let all = current.push(course);
    lemma_normalized(all);
    assert(all[current.len() as int] == course);
    assert(all.contains(course));
    lemma_normalized_holds(all, course);
    assert forall|e: Seq<char>|
        spec_with_course(current, course).contains(e) <==> (current.contains(e) || e == course) by {
        lemma_normalized_holds(all, e);
        if all.contains(e) {
            let k = choose|k: int| 0 <= k < all.len() && all[k] == e;
            if k < current.len() {
                assert(current[k] == e);
            }
        }
        if current.contains(e) {
            let k = choose|k: int| 0 <= k < current.len() && current[k] == e;
            assert(all[k] == e);
        }
    }
}

/// Adding a course a second time changes nothing.
pub proof fn lemma_with_course_idempotent(current: Seq<Seq<char>>, course: Seq<char>)
    ensures
        spec_with_course(spec_with_course(current, course), course) == spec_with_course(
            current,
            course,
        ),
{
    let once = spec_with_course(current, course);
    lemma_with_course(current, course);
    assert(once.push(course).drop_last() =~= once);
    lemma_normalized_fixed(once);
    lemma_inserted_present(once, course);
}

/// A course added twice to an empty list stands in it once.
pub proof fn lemma_with_course_twice(course: Seq<char>)
    ensures
        spec_with_course(spec_with_course(Seq::empty(), course), course) == seq![course],
{
    lemma_with_course_idempotent(Seq::empty(), course);
    let one = Seq::<Seq<char>>::empty().push(course);
    assert(one.drop_last() =~= Seq::empty());
    assert(normalized(one.drop_last()) =~= Seq::empty());
    assert(normalized(one) =~= seq![course]);
}

/// Removing a course that the list does not hold changes nothing.
pub proof fn lemma_without_absent(current: Seq<Seq<char>>, course: Seq<char>)
    requires
        !current.contains(course),
    ensures
        spec_without_course(current, course) == current,
    decreases current.len(),
{
    let gone = seq![course];
    if current.len() == 0 {
        assert(current =~= Seq::empty());
    } else {
        let front = current.drop_last();
        assert(!front.contains(course)) by {
            if front.contains(course) {
                let k = choose|k: int| 0 <= k < front.len() && front[k] == course;
                assert(current[k] == course);
            }
        }
        lemma_without_absent(front, course);
        assert(current[current.len() - 1] == current.last());
        assert(!gone.contains(current.last())) by {
            if gone.contains(current.last()) {
                let k = choose|k: int| 0 <= k < gone.len() && gone[k] == current.last();
                assert(gone[0] == course);
            }
        }
        assert(front.push(current.last()) =~= current);
    }
}

/// What is left after striking holds what the list held and `gone` does
/// not.
pub proof fn lemma_without_holds(current: Seq<Seq<char>>, gone: Seq<Seq<char>>, e: Seq<char>)
    ensures
        without(current, gone).contains(e) <==> (current.contains(e) && !gone.contains(e)),
    decreases current.len(),
{
    let out = without(current, gone);
    if current.len() == 0 {
        if out.contains(e) {
            let k = choose|k: int| 0 <= k < out.len() && out[k] == e;
        }
    } else {
        let front = current.drop_last();
        let last = current.last();
        let rest = without(front, gone);
        lemma_without_holds(front, gone, e);
        assert(current[current.len() - 1] == last);
        if current.contains(e) {
            let k = choose|k: int| 0 <= k < current.len() && current[k] == e;
            if k < front.len() {
                assert(front[k] == e);
            }
        }
        if front.contains(e) {
            let k = choose|k: int| 0 <= k < front.len() && front[k] == e;
            assert(current[k] == e);
        }
        if !gone.contains(last) {
            assert(out == rest.push(last));
            assert(out[rest.len() as int] == last);
            if out.contains(e) {
                let k = choose|k: int| 0 <= k < out.len() && out[k] == e;
                if k < rest.len() {
                    assert(rest[k] == e);
                }
            }
            if rest.contains(e) {
                let k = choose|k: int| 0 <= k < rest.len() && rest[k] == e;
                assert(out[k] == e);
            }
        }
    }
}

/// The item at `at` of a sorted list is not among the items before it.
proof fn lemma_front_lacks(sorted: Seq<Seq<char>>, at: int)
    requires
        strictly_sorted(sorted),
        0 <= at < sorted.len(),
    ensures
        !sorted.take(at).contains(sorted[at]),
{
    let front = sorted.take(at);
    if front.contains(sorted[at]) {
        let k = choose|k: int| 0 <= k < front.len() && front[k] == sorted[at];
        assert(sorted[k] == front[k]);
        assert(precedes(sorted[k], sorted[at]));
        lemma_precedes_irreflexive(sorted[at]);
    }
}

/// A list is pinned down by being sorted, holding nothing twice, and by what
/// it holds: two such lists with the same items are one list.
pub proof fn lemma_sorted_is_unique(a: Seq<Seq<char>>, b: Seq<Seq<char>>)
    requires
        strictly_sorted(a),
        strictly_sorted(b),
        forall|e: Seq<char>| a.contains(e) <==> b.contains(e),
    ensures
        a == b,
    decreases a.len(),
{
    if a.len() == 0 {
        if b.len() > 0 {
            assert(b.contains(b[0]));
            let k = choose|k: int| 0 <= k < a.len() && a[k] == b[0];
        }
        assert(a =~= b);
    } else {
        let top = a.last();
        assert(a[a.len() - 1] == top);
        assert(a.contains(top));
        assert(b.contains(top));
        let k = choose|k: int| 0 <= k < b.len() && b[k] == top;
        assert(b.contains(b[b.len() - 1]));
        assert(a.contains(b.last()));
        let m = choose|m: int| 0 <= m < a.len() && a[m] == b.last();
        if top != b.last() {
            assert(precedes(b[k], b[b.len() - 1]));
            assert(precedes(a[m], a[a.len() - 1]));
            lemma_precedes_asymmetric(top, b.last());
        }
        let a0 = a.drop_last();
        let b0 = b.drop_last();
        assert(a0 =~= a.take(a.len() - 1));
        assert(b0 =~= b.take(b.len() - 1));
        lemma_front_lacks(a, a.len() - 1);
        lemma_front_lacks(b, b.len() - 1);
        assert forall|i: int, j: int| 0 <= i < j < a0.len() implies precedes(a0[i], a0[j]) by {
            assert(a0[i] == a[i] && a0[j] == a[j]);
        }
        assert forall|i: int, j: int| 0 <= i < j < b0.len() implies precedes(b0[i], b0[j]) by {
            assert(b0[i] == b[i] && b0[j] == b[j]);
        }
        assert forall|e: Seq<char>| a0.contains(e) <==> b0.contains(e) by {
            if a0.contains(e) {
                let i = choose|i: int| 0 <= i < a0.len() && a0[i] == e;
                assert(a[i] == e);
                assert(a.contains(e));
                assert(b.contains(e));
                let j = choose|j: int| 0 <= j < b.len() && b[j] == e;
                assert(e != top);
                assert(b0[j] == e);
            }
            if b0.contains(e) {
                let i = choose|i: int| 0 <= i < b0.len() && b0[i] == e;
                assert(b[i] == e);
                assert(b.contains(e));
                assert(a.contains(e));
                let j = choose|j: int| 0 <= j < a.len() && a[j] == e;
                assert(e != top);
                assert(a0[j] == e);
            }
        }
        lemma_sorted_is_unique(a0, b0);
        assert(a =~= a0.push(top));
        assert(b =~= b0.push(top));
    }
}

/// What `with_course` gives is the one sorted list without repetitions that
/// holds the course and what the list held before.
pub proof fn lemma_with_course_is_pinned(
    current: Seq<Seq<char>>,
    course: Seq<char>,
    other: Seq<Seq<char>>,
)
    requires
        strictly_sorted(other),
        forall|e: Seq<char>| other.contains(e) <==> (current.contains(e) || e == course),
    ensures
        other == spec_with_course(current, course),
{
    lemma_with_course(current, course);
    lemma_sorted_is_unique(other, spec_with_course(current, course));
}

/// What a command on a subscriber's list comes to.
#[derive(Clone, Debug, PartialEq, Eq)]
pub enum Edit {
    /// The course identifier was refused: nothing is written, and the
    /// subscriber is told so.
    Refused { reply: String },
    /// The list is written as `courses`, and the subscriber is told so.
    Accepted { courses: Vec<String>, reply: String },
}

/// [`Edit`] over sequences.
pub enum EditView {
    Refused { reply: Seq<char> },
    Accepted { courses: Seq<Seq<char>>, reply: Seq<char> },
}

impl View for Edit {
    type V = EditView;

    open spec fn view(&self) -> EditView {
        match self {
            Edit::Refused { reply } => EditView::Refused { reply: reply@ },
            Edit::Accepted { courses, reply } => EditView::Accepted {
                courses: views(courses@),
                reply: reply@,
            },
        }
    }
}

/// What the store holds for the subscriber once the command is done.
pub open spec fn stored_after(current: Seq<Seq<char>>, edit: EditView) -> Seq<Seq<char>> {
    match edit {
        EditView::Refused { .. } => current,
        EditView::Accepted { courses, .. } => courses,
    }
}

/// What a subscriber is told whose course identifier was refused.
pub open spec fn refusal(course: Seq<char>) -> Seq<char> {
    "Course ID consists only by decimal digits! `"@ + course + "` is not a valid one"@
}

/// The command that adds a course: a text that is no course identifier is
/// refused, and the reply names it; otherwise the course goes into the
/// list.
pub open spec fn spec_add_course(current: Seq<Seq<char>>, course: Seq<char>) -> EditView {
    if is_course_id(course) {
        EditView::Accepted {
            courses: spec_with_course(current, course),
            reply: "Course added for "@ + course + "."@,
        }
    } else {
        EditView::Refused { reply: refusal(course) }
    }
}

/// The command that removes a course: a text that is no course identifier
/// is refused, and the reply names it; otherwise the course leaves the
/// list.
pub open spec fn spec_remove_course(current: Seq<Seq<char>>, course: Seq<char>) -> EditView {
    if is_course_id(course) {
        EditView::Accepted {
            courses: spec_without_course(current, course),
            reply: "Course removed for "@ + course + "."@,
        }
    } else {
        EditView::Refused { reply: refusal(course) }
    }
}

fn refuse(course_id: &str) -> (edit: Edit)
    ensures
        edit@ == (EditView::Refused { reply: refusal(course_id@) }),
{
    let mut reply = String::from_str("Course ID consists only by decimal digits! `");
    reply.append(course_id);
    reply.append("` is not a valid one");
    Edit::Refused { reply }
}

/// Decides the command that adds a course to a subscriber's list.
///
/// The command is refused exactly when the text is no course identifier,
/// and then nothing is to be written.
pub fn add_course(current: Vec<String>, course_id: &str) -> (edit: Edit)
    ensures
        edit@ == spec_add_course(views(current@), course_id@),
        edit is Refused <==> !is_course_id(course_id@),
        edit is Refused ==> stored_after(views(current@), edit@) == views(current@),
{
    if !is_valid_course_id(course_id) {
        return refuse(course_id);
    }
    let mut reply = String::from_str("Course added for ");
    reply.append(course_id);
    reply.append(".");
    Edit::Accepted { courses: with_course(current, course_id.to_owned()), reply }
}

/// Decides the command that removes a course from a subscriber's list.
///
/// The command is refused exactly when the text is no course identifier,
/// and then nothing is to be written.
pub fn remove_course(current: Vec<String>, course_id: &str) -> (edit: Edit)
    ensures
        edit@ == spec_remove_course(views(current@), course_id@),
        edit is Refused <==> !is_course_id(course_id@),
        edit is Refused ==> stored_after(views(current@), edit@) == views(current@),
{
    if !is_valid_course_id(course_id) {
        return refuse(course_id);
    }
    let mut reply = String::from_str("Course removed for ");
    reply.append(course_id);
    reply.append(".");
    Edit::Accepted { courses: without_course(current, course_id.to_owned()), reply }
}

/// Adding is idempotent: the same command given twice leaves the store as
/// the command given once, whether the course is accepted or refused.
pub proof fn lemma_add_course_idempotent(current: Seq<Seq<char>>, course: Seq<char>)
    ensures
        ({
            let once = stored_after(current, spec_add_course(current, course));
            stored_after(once, spec_add_course(once, course)) == once
        }),
{
    if is_course_id(course) {
        lemma_with_course_idempotent(current, course);
    }
}

/// Removing a course that the list does not hold leaves the store as it
/// was.
pub proof fn lemma_remove_absent(current: Seq<Seq<char>>, course: Seq<char>)
    requires
        !current.contains(course),
    ensures
        stored_after(current, spec_remove_course(current, course)) == current,
{
    lemma_without_absent(current, course);
}

/// A refused command leaves the store as it was and names what it refused.
pub proof fn lemma_refusal_writes_nothing(current: Seq<Seq<char>>, course: Seq<char>)
    requires
        !is_course_id(course),
    ensures
        stored_after(current, spec_add_course(current, course)) == current,
        stored_after(current, spec_remove_course(current, course)) == current,
        spec_add_course(current, course) == (EditView::Refused { reply: refusal(course) }),
        spec_remove_course(current, course) == (EditView::Refused { reply: refusal(course) }),
{
}

} // verus!
