use std::collections::HashMap;
use vstd::prelude::*;

verus! {

/// Whether `s` is in ascending order.
pub open spec fn ascending(s: Seq<u128>) -> bool {
    forall|i: int, j: int| 0 <= i <= j < s.len() ==> s[i] <= s[j]
}

/// Sorts a slice in place with the standard library's stable
/// `slice::sort`: afterwards the slice holds the same values, each as
/// often as before, in ascending order.
#[verifier::external_body]
fn sort_ascending(numbers: &mut [u128])
    ensures
        final(numbers)@.to_multiset() == old(numbers)@.to_multiset(),
        final(numbers)@.len() == old(numbers)@.len(),
        ascending(final(numbers)@),
{
    numbers.sort();
}

/// Sorts `numbers` and returns the element at the middle position
/// (the upper of the two middle elements when the length is even).
pub fn median(numbers: &mut [u128]) -> (m: u128)
    requires
        old(numbers)@.len() > 0,
    ensures
        final(numbers)@.to_multiset() == old(numbers)@.to_multiset(),
        final(numbers)@.len() == old(numbers)@.len(),
        ascending(final(numbers)@),
        m == final(numbers)@[final(numbers)@.len() as int / 2],
{
    sort_ascending(numbers);
    let mid: usize = numbers.len() / 2;
    numbers[mid]
}

/// How often `v` occurs in `s`.
pub open spec fn occurrences(s: Seq<u128>, v: u128) -> nat
    decreases s.len(),
{
    if s.len() == 0 {
        0
    } else {
        occurrences(s.drop_last(), v) + if s.last() == v {
            1nat
        } else {
            0nat
        }
    }
}

/// A value occurs at most as often as the sequence is long, and it occurs
/// at all exactly if it stands somewhere in the sequence.
pub proof fn lemma_occurrences(s: Seq<u128>, v: u128)
    ensures
        occurrences(s, v) <= s.len(),
        occurrences(s, v) > 0 <==> s.contains(v),
    decreases s.len(),
{
    if s.len() > 0 {
        lemma_occurrences(s.drop_last(), v);
        if s.last() == v {
            assert(s[s.len() - 1] == v);
        } else if s.contains(v) {
            let i = choose|i: int| 0 <= i < s.len() && s[i] == v;
            assert(s.drop_last()[i] == v);
        } else if s.drop_last().contains(v) {
            let i = choose|i: int| 0 <= i < s.drop_last().len() && s.drop_last()[i] == v;
            assert(s[i] == v);
        }
    }
}

/// Returns a value that occurs most often in `numbers`. Where several
/// values share the first place, any of them may come back.
pub fn mode(numbers: &[u128]) -> (m: u128)
    requires
        numbers@.len() > 0,
    ensures
        numbers@.contains(m),
        forall|v: u128| occurrences(numbers@, v) <= occurrences(numbers@, m),
{
    let n = numbers.len();
    let mut counts: HashMap<u128, usize> = HashMap::new();
    let mut i: usize = 0;
    while i < n
        invariant
            n == numbers@.len(),
            i <= n,
            forall|v: u128| counts@.contains_key(v) <==> occurrences(numbers@.take(i as int), v) > 0,
            forall|v: u128| counts@.contains_key(v) ==> counts@[v] == occurrences(
                numbers@.take(i as int),
                v,
            ),
        decreases n - i,
    {
        let value = numbers[i];
        let seen: usize = match counts.get(&value) {
            Some(count) => *count,
            None => 0,
        };
        proof {
            let before = numbers@.take(i as int);
            let after = numbers@.take(i + 1);
            assert(after.drop_last() == before);
            assert(after.last() == value);
            lemma_occurrences(before, value);
        }
        counts.insert(value, seen + 1);
        i = i + 1;
    }
    assert(numbers@.take(n as int) == numbers@);
    let mut best: u128 = numbers[0];
    let mut best_count: usize = 0;
    let mut j: usize = 0;
    while j < n
        invariant
            n == numbers@.len(),
            n > 0,
            j <= n,
            forall|v: u128| counts@.contains_key(v) <==> occurrences(numbers@, v) > 0,
            forall|v: u128| counts@.contains_key(v) ==> counts@[v] == occurrences(numbers@, v),
            numbers@.contains(best),
            j > 0 ==> best_count == occurrences(numbers@, best),
            forall|k: int| 0 <= k < j ==> occurrences(numbers@, numbers@[k]) <= best_count,
        decreases n - j,
    {
        let value = numbers[j];
        proof {
            assert(numbers@[j as int] == value);
            lemma_occurrences(numbers@, value);
        }
        let count: usize = match counts.get(&value) {
            Some(count) => *count,
            None => 0,
        };
        if j == 0 || count > best_count {
            best = value;
            best_count = count;
        }
        j = j + 1;
    }
    proof {
        assert forall|v: u128| occurrences(numbers@, v) <= occurrences(numbers@, best) by {
            lemma_occurrences(numbers@, v);
            if numbers@.contains(v) {
                let k = choose|k: int| 0 <= k < numbers@.len() && numbers@[k] == v;
                assert(occurrences(numbers@, numbers@[k]) <= best_count);
            }
        }
    }
    best
}

} // verus!
