//! Statistics derived from a snapshot for the locally controlled participant. The
//! participant's full record is found by identity in the roster on each use, never stored.
use crate::records::Item;
use vstd::prelude::*;

verus! {

/// Whether some entry of `riot_ids` is `own_id`.
pub open spec fn listed(riot_ids: Seq<String>, own_id: Seq<char>) -> bool {
    exists|i: int| 0 <= i < riot_ids.len() && riot_ids[i]@ == own_id
}

/// Finds the roster entry of the participant whose identity is `own_id`: the first entry
/// that carries it, or `None` when no entry does, in which case nothing may be derived
/// from the roster for that participant.
pub fn find_player(riot_ids: &Vec<String>, own_id: &String) -> (r: Option<usize>)
    ensures
        r is None <==> !listed(riot_ids@, own_id@),
        r matches Some(i) ==> i < riot_ids@.len() && riot_ids@[i as int]@ == own_id@ && forall|
            j: int,
        | 0 <= j < i ==> riot_ids@[j]@ != own_id@,
{
    let mut i: usize = 0;
    while i < riot_ids.len()
        invariant
            i <= riot_ids@.len(),
            forall|j: int| 0 <= j < i ==> riot_ids@[j]@ != own_id@,
        decreases riot_ids@.len() - i,
    {
        if riot_ids[i] == *own_id {
            return Some(i);
        }
        i = i + 1;
    }
    None
}

/// Total price of `items`.
pub open spec fn price_total(items: Seq<Item>) -> int
    decreases items.len(),
{
    if items.len() == 0 {
        0
    } else {
        price_total(items.drop_last()) + items.last().price
    }
}

/// Gold spent on `items`: the sum of their prices.
pub fn item_gold(items: &Vec<Item>) -> (r: u64)
    requires
        items@.len() <= u32::MAX,
    ensures
        r == price_total(items@),
{
    let mut sum: u64 = 0;
    let mut i: usize = 0;
    while i < items.len()
        invariant
            i <= items@.len() <= u32::MAX,
            sum == price_total(items@.take(i as int)),
            sum <= i * (u32::MAX as int),
        decreases items@.len() - i,
    {
        assert(items@.take(i + 1 as int).drop_last() =~= items@.take(i as int));
        assert(sum + items@[i as int].price <= (i + 1) * (u32::MAX as int)) by (nonlinear_arith)
            requires
                sum <= i * (u32::MAX as int),
                items@[i as int].price <= u32::MAX,
        ;
        sum = sum + items[i].price as u64;
        i = i + 1;
    }
    assert(items@.take(i as int) =~= items@);
    sum
}

/// Number of characters of `id` before its first '#' (all of them if there is none).
pub open spec fn tag_start(id: Seq<char>) -> nat
    decreases id.len(),
{
    if id.len() == 0 || id[0] == '#' {
        0
    } else {
        1 + tag_start(id.subrange(1, id.len() as int))
    }
}

/// The name shown for a participant: its identity up to the '#' that starts the tag line.
pub fn player_name(riot_id: &str) -> (r: String)
    ensures
        r@ == riot_id@.take(tag_start(riot_id@) as int),
{
    let n = riot_id.unicode_len();
    let mut i: usize = 0;
    assert(riot_id@.subrange(0, n as int) =~= riot_id@);
    while i < n && riot_id.get_char(i) != '#'
        invariant
            n == riot_id@.len(),
            i <= n,
            tag_start(riot_id@) == i + tag_start(riot_id@.subrange(i as int, n as int)),
        decreases n - i,
    {
        assert(riot_id@.subrange(i as int, n as int).subrange(1, (n - i) as int) =~= riot_id@.subrange(
            i + 1,
            n as int,
        ));
        i = i + 1;
    }
    riot_id.substring_char(0, i).to_owned()
}

} // verus!
