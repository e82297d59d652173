//! Which directory entries are games, and the order they are listed in.

use crate::text::{lower_chars, lower_of, spells};
use vstd::prelude::*;

verus! {

/// Whether a file with this extension is a game.
pub fn has_rom_extension(extension: &str) -> (r: bool)
    ensures
        r == (lower_chars(extension@) == "nes"@),
{
    spells(&lower_of(extension), "nes")
}

/// Whether `a` comes before `b` from their `i`th characters on, character by
/// character, a prefix first.
pub open spec fn comes_before(a: Seq<char>, b: Seq<char>, i: int) -> bool
    decreases b.len() - i,
{
    if i < 0 || i >= b.len() {
        false
    } else if i >= a.len() {
        true
    } else if a[i] != b[i] {
        a[i] < b[i]
    } else {
        comes_before(a, b, i + 1)
    }
}

/// The key of entry `i`: its name with ASCII letters lower-cased.
pub open spec fn key(names: Seq<String>, i: int) -> Seq<char> {
    lower_chars(names[i]@)
}

/// Entry `i` is listed before entry `j`: by key, then in the given order.
pub open spec fn listed_before(names: Seq<String>, i: int, j: int) -> bool {
    comes_before(key(names, i), key(names, j), 0) || (key(names, i) == key(names, j) && i < j)
}

proof fn lemma_equal_from(a: Seq<char>, b: Seq<char>, i: int)
    requires
        0 <= i <= a.len(),
        i <= b.len(),
        forall|k: int| 0 <= k < i ==> a[k] == b[k],
        !comes_before(a, b, i),
        !comes_before(b, a, i),
    ensures
        a == b,
    decreases a.len() - i,
{
    if i < a.len() && i < b.len() {
        lemma_equal_from(a, b, i + 1);
    } else {
        assert(a =~= b);
    }
}

/// Two different keys are ordered one way or the other.
pub proof fn keys_are_ordered(a: Seq<char>, b: Seq<char>)
    ensures
        a == b || comes_before(a, b, 0) || comes_before(b, a, 0),
{
    if !comes_before(a, b, 0) && !comes_before(b, a, 0) {
        lemma_equal_from(a, b, 0);
    }
}

proof fn lemma_before_is_transitive(a: Seq<char>, b: Seq<char>, c: Seq<char>, i: int)
    requires
        0 <= i,
        comes_before(a, b, i),
        comes_before(b, c, i),
    ensures
        comes_before(a, c, i),
    decreases c.len() - i,
{
    if i < a.len() && i < b.len() && i < c.len() && a[i] == b[i] && b[i] == c[i] {
        lemma_before_is_transitive(a, b, c, i + 1);
    }
}

proof fn lemma_before_is_strict(a: Seq<char>, b: Seq<char>, i: int)
    requires
        0 <= i,
        comes_before(a, b, i),
    ensures
        !comes_before(b, a, i),
        a != b,
    decreases b.len() - i,
{
    if i < a.len() && i < b.len() && a[i] == b[i] {
        lemma_before_is_strict(a, b, i + 1);
    }
}

fn is_before(a: &Vec<char>, b: &Vec<char>) -> (r: bool)
    ensures
        r == comes_before(a@, b@, 0),
{
    let mut i: usize = 0;
    while i < b.len()
        invariant
            i <= b@.len(),
            i <= a@.len(),
            comes_before(a@, b@, i as int) == comes_before(a@, b@, 0),
        decreases b.len() - i,
    {
        if i >= a.len() {
            return true;
        }
        if a[i] != b[i] {
            return a[i] < b[i];
        }
        i += 1;
    }
    false
}

/// A listing of the first `n` entries: each once, in order.
pub open spec fn is_listing(names: Seq<String>, order: Seq<usize>, n: int) -> bool {
    &&& order.len() == n
    &&& forall|i: int| 0 <= i < n ==> #[trigger] order[i] < n
    &&& forall|i: int, j: int|
        0 <= i < j < n ==> listed_before(names, #[trigger] order[i] as int, #[trigger] order[j] as int)
}

/// A longer listing, made by inserting the next entry at its place.
proof fn lemma_insertion(names: Seq<String>, order: Seq<usize>, n: usize, at: int)
    requires
        is_listing(names, order, n as int),
        n < usize::MAX,
        0 <= at <= n,
        forall|j: int|
            at <= j < n ==> comes_before(key(names, n as int), key(names, #[trigger] order[j] as int), 0),
        at > 0 ==> !comes_before(key(names, n as int), key(names, order[at - 1] as int), 0),
    ensures
        is_listing(names, order.insert(at, n), n + 1),
{
    let longer = order.insert(at, n);
    assert forall|i: int, j: int| 0 <= i < j < n + 1 implies listed_before(
        names,
        #[trigger] longer[i] as int,
        #[trigger] longer[j] as int,
    ) by {
        let one = if i < at {
            i
        } else {
            i - 1
        };
        let other = if j < at {
            j
        } else {
            j - 1
        };
        if j == at {
            assert(longer[j] == n);
            assert(longer[i] == order[i]);
            let last = order[at - 1] as int;
            keys_are_ordered(key(names, n as int), key(names, last));
            if i < at - 1 {
                assert(listed_before(names, order[i] as int, last));
                if comes_before(key(names, order[i] as int), key(names, last), 0)
                    && comes_before(key(names, last), key(names, n as int), 0) {
                    lemma_before_is_transitive(
                        key(names, order[i] as int),
                        key(names, last),
                        key(names, n as int),
                        0,
                    );
                }
            }
        } else if i == at {
            assert(longer[i] == n);
            assert(longer[j] == order[other]);
        } else {
            assert(longer[i] == order[one]);
            assert(longer[j] == order[other]);
        }
    }
}

/// The order in which entries with these names are listed.
pub fn name_order(names: &Vec<String>) -> (r: Vec<usize>)
    ensures
        is_listing(names@, r@, names@.len() as int),
{
    let mut keys: Vec<Vec<char>> = Vec::new();
    let mut order: Vec<usize> = Vec::new();
    let len: usize = names.len();
    let mut n: usize = 0;
    while n < len
        invariant
            n <= len,
            len == names@.len(),
            keys@.len() == n,
            forall|i: int| 0 <= i < n ==> (#[trigger] keys@[i])@ == key(names@, i),
            is_listing(names@, order@, n as int),
        decreases len - n,
    {
        let mine = lower_of(names[n].as_str());
        let mut at: usize = n;
        while at > 0 && is_before(&mine, &keys[order[at - 1]])
            invariant
                at <= n,
                n < len,
                len == names@.len(),
                mine@ == key(names@, n as int),
                keys@.len() == n,
                forall|i: int| 0 <= i < n ==> (#[trigger] keys@[i])@ == key(names@, i),
                is_listing(names@, order@, n as int),
                forall|j: int|
                    at <= j < n ==> comes_before(
                        mine@,
                        key(names@, #[trigger] order@[j] as int),
                        0,
                    ),
            decreases at,
        {
            at -= 1;
        }
        proof {
            lemma_insertion(names@, order@, n, at as int);
        }
        order.insert(at, n);
        keys.push(mine);
        n += 1;
    }
    order
}

/// There is only one such listing: the order of the names decides everything.
pub proof fn a_listing_is_unique(names: Seq<String>, i: int, j: int)
    requires
        i != j,
    ensures
        listed_before(names, i, j) != listed_before(names, j, i),
{
    keys_are_ordered(key(names, i), key(names, j));
    if comes_before(key(names, i), key(names, j), 0) {
        lemma_before_is_strict(key(names, i), key(names, j), 0);
    }
    if comes_before(key(names, j), key(names, i), 0) {
        lemma_before_is_strict(key(names, j), key(names, i), 0);
    }
}

/// The keys of all entries, as given.
pub open spec fn given_keys(names: Seq<String>, n: int) -> Seq<Seq<char>> {
    Seq::new(n as nat, |i: int| key(names, i))
}

/// The keys of a listing, from top to bottom.
pub open spec fn listed_keys(names: Seq<String>, order: Seq<usize>) -> Seq<Seq<char>> {
    Seq::new(order.len(), |i: int| key(names, order[i] as int))
}

proof fn lemma_listing_does_not_repeat(names: Seq<String>, order: Seq<usize>, n: int)
    requires
        is_listing(names, order, n),
    ensures
        forall|i: int, j: int| 0 <= i < j < n ==> order[i] != order[j],
{
    assert forall|i: int, j: int| 0 <= i < j < n implies order[i] != order[j] by {
        assert(listed_before(names, order[i] as int, order[j] as int));
        if order[i] == order[j] {
            lemma_before_is_strict(
                key(names, order[i] as int),
                key(names, order[j] as int),
                0,
            );
        }
    }
}

/// Every entry is in the listing.
proof fn lemma_listing_holds(names: Seq<String>, order: Seq<usize>, n: int, entry: int) -> (at: int)
    requires
        is_listing(names, order, n),
        0 <= entry < n,
    ensures
        0 <= at < n,
        order[at] == entry,
{
    let numbers = Seq::new(n as nat, |i: int| order[i] as int);
    let range = vstd::set_lib::set_int_range(0, n);
    lemma_listing_does_not_repeat(names, order, n);
    assert(numbers.no_duplicates());
    numbers.unique_seq_to_set();
    vstd::set_lib::lemma_int_range(0, n);
    assert(numbers.to_set().subset_of(range));
    vstd::seq_lib::seq_to_set_is_finite(numbers);
    vstd::set_lib::lemma_subset_equality(numbers.to_set(), range);
    assert(range.contains(entry));
    let at = choose|at: int| 0 <= at < numbers.len() && numbers[at] == entry;
    assert(numbers.contains(entry));
    at
}

proof fn lemma_listing_keeps_the_keys(names: Seq<String>, order: Seq<usize>, n: int)
    requires
        is_listing(names, order, n),
        0 <= n,
    ensures
        listed_keys(names, order).to_multiset() == given_keys(names, n).to_multiset(),
    decreases n,
{
    let listed = listed_keys(names, order);
    let given = given_keys(names, n);
    if n == 0 {
        assert(listed =~= given);
    } else {
        let at = lemma_listing_holds(names, order, n, n - 1);
        let last = key(names, n - 1);
        let shorter = order.remove(at);
        lemma_listing_does_not_repeat(names, order, n);
        assert(is_listing(names, shorter, n - 1)) by {
            assert forall|i: int| 0 <= i < n - 1 implies #[trigger] shorter[i] < n - 1 by {
                let from = if i < at {
                    i
                } else {
                    i + 1
                };
                assert(shorter[i] == order[from]);
            }
            assert forall|i: int, j: int| 0 <= i < j < n - 1 implies listed_before(
                names,
                #[trigger] shorter[i] as int,
                #[trigger] shorter[j] as int,
            ) by {
                let one = if i < at {
                    i
                } else {
                    i + 1
                };
                let other = if j < at {
                    j
                } else {
                    j + 1
                };
                assert(shorter[i] == order[one]);
                assert(shorter[j] == order[other]);
            }
        }
        lemma_listing_keeps_the_keys(names, shorter, n - 1);
        assert(listed_keys(names, shorter) =~= listed.remove(at));
        vstd::seq_lib::to_multiset_remove(listed, at);
        assert(given =~= given_keys(names, n - 1).push(last));
        vstd::seq_lib::to_multiset_build(given_keys(names, n - 1), last);
        assert(listed[at] == last);
        vstd::seq_lib::to_multiset_contains(listed, last);
        assert(listed.to_multiset() =~= listed.to_multiset().remove(last).insert(last));
    }
}

/// Whether `a` is `b` or comes before it.
pub open spec fn not_after() -> spec_fn(Seq<char>, Seq<char>) -> bool {
    |a: Seq<char>, b: Seq<char>| a == b || comes_before(a, b, 0)
}

proof fn lemma_keys_are_totally_ordered()
    ensures
        vstd::relations::total_ordering(not_after()),
{
    let r = not_after();
    assert forall|x: Seq<char>, y: Seq<char>| #[trigger] r(x, y) && #[trigger] r(y, x) implies x
        == y by {
        if x != y {
            lemma_before_is_strict(x, y, 0);
        }
    }
    assert forall|x: Seq<char>, y: Seq<char>, z: Seq<char>| #[trigger] r(x, y) && #[trigger] r(
        y,
        z,
    ) implies r(x, z) by {
        if x != y && y != z {
            lemma_before_is_transitive(x, y, z, 0);
        }
    }
    assert forall|x: Seq<char>, y: Seq<char>| #[trigger] r(x, y) || #[trigger] r(y, x) by {
        keys_are_ordered(x, y);
    }
}

proof fn lemma_listing_is_sorted(names: Seq<String>, order: Seq<usize>, n: int)
    requires
        is_listing(names, order, n),
        0 <= n,
    ensures
        vstd::relations::sorted_by(listed_keys(names, order), not_after()),
{
    let listed = listed_keys(names, order);
    assert forall|i: int, j: int| 0 <= i < j < listed.len() implies #[trigger] not_after()(
        listed[i],
        listed[j],
    ) by {
        assert(listed_before(names, order[i] as int, order[j] as int));
    }
}

/// The list does not depend on the order in which its entries are found: where
/// the same names are given in another order, the same keys are listed from top
/// to bottom.
pub proof fn the_list_does_not_depend_on_the_directory(
    names: Seq<String>,
    order: Seq<usize>,
    shuffled: Seq<String>,
    other: Seq<usize>,
)
    requires
        is_listing(names, order, names.len() as int),
        is_listing(shuffled, other, shuffled.len() as int),
        given_keys(names, names.len() as int).to_multiset() == given_keys(
            shuffled,
            shuffled.len() as int,
        ).to_multiset(),
    ensures
        listed_keys(names, order) == listed_keys(shuffled, other),
{
    lemma_listing_keeps_the_keys(names, order, names.len() as int);
    lemma_listing_keeps_the_keys(shuffled, other, shuffled.len() as int);
    lemma_listing_is_sorted(names, order, names.len() as int);
    lemma_listing_is_sorted(shuffled, other, shuffled.len() as int);
    lemma_keys_are_totally_ordered();
    vstd::seq_lib::lemma_sorted_unique(
        listed_keys(names, order),
        listed_keys(shuffled, other),
        not_after(),
    );
}

} // verus!
