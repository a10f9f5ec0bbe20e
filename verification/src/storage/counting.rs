//! Counting along a list of keys: which of the keys seen so far meet a
//! condition, and how many they are.

use vstd::prelude::*;

verus! {

/// Whether `keys` lists each member of `all` once.
pub open spec fn lists_keys(keys: Seq<Seq<char>>, all: Set<Seq<char>>) -> bool {
    &&& forall|i: int| 0 <= i < keys.len() ==> all.contains(#[trigger] keys[i])
    &&& forall|key: Seq<char>| #[trigger]
        all.contains(key) ==> exists|i: int| 0 <= i < keys.len() && keys[i] == key
    &&& forall|i: int, j: int| 0 <= i < j < keys.len() ==> #[trigger] keys[i] != #[trigger] keys[j]
}

/// Those among the first `n` keys that meet `pick`.
pub open spec fn picked(keys: Seq<Seq<char>>, pick: spec_fn(Seq<char>) -> bool, n: nat) -> Set<
    Seq<char>,
>
    decreases n,
{
    if n == 0 {
        Set::empty()
    } else {
        let before = picked(keys, pick, (n - 1) as nat);
        if pick(keys[n - 1]) {
            before.insert(keys[n - 1])
        } else {
            before
        }
    }
}

/// The picked keys are finitely many, at most `n`, and a key is among them
/// exactly when it meets `pick` and stands at one of the first `n` places.
pub proof fn lemma_picked(keys: Seq<Seq<char>>, pick: spec_fn(Seq<char>) -> bool, n: nat)
    requires
        n <= keys.len(),
    ensures
        picked(keys, pick, n).finite(),
        picked(keys, pick, n).len() <= n,
        forall|key: Seq<char>| #[trigger]
            picked(keys, pick, n).contains(key) <==> pick(key) && exists|j: int|
                0 <= j < n && #[trigger] keys[j] == key,
    decreases n,
{
    if n > 0 {
        lemma_picked(keys, pick, (n - 1) as nat);
        let before = picked(keys, pick, (n - 1) as nat);
        assert forall|key: Seq<char>| #[trigger]
            picked(keys, pick, n).contains(key) implies pick(key) && exists|j: int|
            0 <= j < n && #[trigger] keys[j] == key by {
            if before.contains(key) {
                let j = choose|j: int| 0 <= j < n - 1 && #[trigger] keys[j] == key;
                assert(0 <= j < n && keys[j] == key);
            } else {
                assert(keys[n - 1] == key);
            }
        }
        assert forall|key: Seq<char>|
            pick(key) && (exists|j: int| 0 <= j < n && #[trigger] keys[j] == key) implies #[trigger]
            picked(keys, pick, n).contains(key) by {
            let j = choose|j: int| 0 <= j < n && #[trigger] keys[j] == key;
            if j < n - 1 {
                assert(before.contains(key));
            }
        }
    }
}

/// Looking at one more key of a list without repeats: the key was not
/// picked before, so picking it makes the picked keys one more.
pub proof fn lemma_picked_step(
    keys: Seq<Seq<char>>,
    pick: spec_fn(Seq<char>) -> bool,
    all: Set<Seq<char>>,
    n: nat,
)
    requires
        lists_keys(keys, all),
        n < keys.len(),
    ensures
        picked(keys, pick, n).finite(),
        picked(keys, pick, n).len() <= n,
        !picked(keys, pick, n).contains(keys[n as int]),
        pick(keys[n as int]) ==> picked(keys, pick, n + 1).len() == picked(keys, pick, n).len() + 1,
        !pick(keys[n as int]) ==> picked(keys, pick, n + 1) == picked(keys, pick, n),
{
    lemma_picked(keys, pick, n);
    if picked(keys, pick, n).contains(keys[n as int]) {
        let j = choose|j: int| 0 <= j < n && #[trigger] keys[j] == keys[n as int];
        assert(keys[j] != keys[n as int]);
    }
}

/// Over the whole list, the picked keys are the members of `all` that meet
/// `pick`.
pub proof fn lemma_picked_all(
    keys: Seq<Seq<char>>,
    pick: spec_fn(Seq<char>) -> bool,
    all: Set<Seq<char>>,
)
    requires
        lists_keys(keys, all),
    ensures
        picked(keys, pick, keys.len()) == Set::new(|key: Seq<char>| all.contains(key) && pick(key)),
        picked(keys, pick, keys.len()).finite(),
{
    lemma_picked(keys, pick, keys.len());
    let got = picked(keys, pick, keys.len());
    let want = Set::new(|key: Seq<char>| all.contains(key) && pick(key));
    assert forall|key: Seq<char>| got.contains(key) <==> want.contains(key) by {
        if got.contains(key) {
            let j = choose|j: int| 0 <= j < keys.len() && #[trigger] keys[j] == key;
            assert(all.contains(keys[j]));
        }
        if want.contains(key) {
            let j = choose|j: int| 0 <= j < keys.len() && keys[j] == key;
            assert(keys[j] == key);
        }
    }
    assert(got =~= want);
}

} // verus!
