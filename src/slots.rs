//! A table of records keyed by address, seen as a map.
use crate::key::Pubkey;
use vstd::prelude::*;

verus! {

/// A record together with the address it is stored at.
pub struct Slot<T> {
    pub address: Pubkey,
    pub record: T,
}

/// No two slots share an address.
pub open spec fn unique_addresses<T>(s: Seq<Slot<T>>) -> bool {
    forall|i: int, j: int|
        0 <= i < s.len() && 0 <= j < s.len() && i != j ==> s[i].address@ != s[j].address@
}

/// Whether some slot stands at address `a`.
pub open spec fn has_address<T>(s: Seq<Slot<T>>, a: Seq<u8>) -> bool {
    exists|i: int| 0 <= i < s.len() && s[i].address@ == a
}

/// The map from each address to the view of the record stored there.
pub open spec fn slots_map<T: View>(s: Seq<Slot<T>>) -> Map<Seq<u8>, T::V> {
    Map::new(
        |a: Seq<u8>| has_address(s, a),
        |a: Seq<u8>| s[choose|i: int| 0 <= i < s.len() && s[i].address@ == a].record@,
    )
}

/// The slot at index `i` is what the map holds at its address.
pub proof fn lemma_slot_in_map<T: View>(s: Seq<Slot<T>>, i: int)
    requires
        unique_addresses(s),
        0 <= i < s.len(),
    ensures
        slots_map(s).contains_key(s[i].address@),
        slots_map(s)[s[i].address@] == s[i].record@,
{
    let a = s[i].address@;
    assert(has_address(s, a));
    let j = choose|j: int| 0 <= j < s.len() && s[j].address@ == a;
    assert(j == i);
}

/// Adding a slot at a new address adds one entry to the map.
pub proof fn lemma_push<T: View>(s: Seq<Slot<T>>, x: Slot<T>)
    requires
        unique_addresses(s),
        !has_address(s, x.address@),
    ensures
        unique_addresses(s.push(x)),
        slots_map(s.push(x)) == slots_map(s).insert(x.address@, x.record@),
{
    let t = s.push(x);
    assert(forall|i: int| 0 <= i < s.len() ==> t[i] == s[i]);
    assert(unique_addresses(t));
    assert forall|a: Seq<u8>| #[trigger] has_address(t, a) == (has_address(s, a) || a == x.address@) by {
        if has_address(s, a) {
            let i = choose|i: int| 0 <= i < s.len() && s[i].address@ == a;
            assert(t[i].address@ == a);
        }
        if a == x.address@ {
            assert(t[s.len() as int].address@ == a);
        }
    }
    assert forall|a: Seq<u8>| slots_map(t).contains_key(a) implies slots_map(t)[a]
        == slots_map(s).insert(x.address@, x.record@)[a] by {
        if a == x.address@ {
            lemma_slot_in_map(t, s.len() as int);
        } else {
            let i = choose|i: int| 0 <= i < s.len() && s[i].address@ == a;
            lemma_slot_in_map(t, i);
            lemma_slot_in_map(s, i);
        }
    }
    assert(slots_map(t) =~= slots_map(s).insert(x.address@, x.record@));
}

/// Replacing the record of the slot at index `i` changes the map at its
/// address only.
pub proof fn lemma_update<T: View>(s: Seq<Slot<T>>, i: int, x: Slot<T>)
    requires
        unique_addresses(s),
        0 <= i < s.len(),
        x.address@ == s[i].address@,
    ensures
        unique_addresses(s.update(i, x)),
        slots_map(s.update(i, x)) == slots_map(s).insert(x.address@, x.record@),
{
    let t = s.update(i, x);
    assert(unique_addresses(t));
    assert forall|a: Seq<u8>| #[trigger] has_address(t, a) == has_address(s, a) by {
        if has_address(s, a) {
            let j = choose|j: int| 0 <= j < s.len() && s[j].address@ == a;
            assert(t[j].address@ == a);
        }
        if has_address(t, a) {
            let j = choose|j: int| 0 <= j < t.len() && t[j].address@ == a;
            assert(s[j].address@ == a);
        }
    }
    lemma_slot_in_map(s, i);
    assert forall|a: Seq<u8>| slots_map(t).contains_key(a) implies slots_map(t)[a]
        == slots_map(s).insert(x.address@, x.record@)[a] by {
        let j = choose|j: int| 0 <= j < t.len() && t[j].address@ == a;
        lemma_slot_in_map(t, j);
        if j != i {
            lemma_slot_in_map(s, j);
        }
    }
    assert(slots_map(t) =~= slots_map(s).insert(x.address@, x.record@));
}

/// Removing the slot at index `i` removes its address from the map.
pub proof fn lemma_remove<T: View>(s: Seq<Slot<T>>, i: int)
    requires
        unique_addresses(s),
        0 <= i < s.len(),
    ensures
        unique_addresses(s.remove(i)),
        slots_map(s.remove(i)) == slots_map(s).remove(s[i].address@),
{
    let t = s.remove(i);
    let r = s[i].address@;
    assert(forall|j: int| 0 <= j < i ==> t[j] == s[j]);
    assert(forall|j: int| i <= j < t.len() ==> t[j] == s[j + 1]);
    assert(unique_addresses(t));
    assert forall|a: Seq<u8>| #[trigger] has_address(t, a) == (has_address(s, a) && a != r) by {
        if has_address(s, a) && a != r {
            let j = choose|j: int| 0 <= j < s.len() && s[j].address@ == a;
            if j < i {
                assert(t[j].address@ == a);
            } else {
                assert(t[j - 1].address@ == a);
            }
        }
        if has_address(t, a) {
            let j = choose|j: int| 0 <= j < t.len() && t[j].address@ == a;
            if j < i {
                assert(s[j].address@ == a);
            } else {
                assert(s[j + 1].address@ == a);
            }
        }
    }
    assert forall|a: Seq<u8>| slots_map(t).contains_key(a) implies slots_map(t)[a]
        == slots_map(s).remove(r)[a] by {
        let j = choose|j: int| 0 <= j < t.len() && t[j].address@ == a;
        lemma_slot_in_map(t, j);
        if j < i {
            lemma_slot_in_map(s, j);
        } else {
            lemma_slot_in_map(s, j + 1);
        }
    }
    assert(slots_map(t) =~= slots_map(s).remove(r));
}

/// Finds the index of the slot at address `a`, if there is one.
pub fn find_slot<T: View>(slots: &Vec<Slot<T>>, a: &Pubkey) -> (r: Option<usize>)
    requires
        unique_addresses(slots@),
    ensures
        match r {
            Some(i) => i < slots@.len() && slots@[i as int].address@ == a@,
            None => !has_address(slots@, a@),
        },
        r is None <==> !slots_map(slots@).contains_key(a@),
{
    let mut i: usize = 0;
    while i < slots.len()
        invariant
            0 <= i <= slots@.len(),
            forall|j: int| 0 <= j < i ==> slots@[j].address@ != a@,
        decreases slots@.len() - i,
    {
        if slots[i].address.same_as(a) {
            return Some(i);
        }
        i = i + 1;
    }
    None
}

} // verus!
