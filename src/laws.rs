use vstd::prelude::*;
use crate::cqrs::{
    new_product, release_effect, reserve_effect, reserved_minus_one, reserved_plus_one, valid_create,
    CreateProductCommand,
};
use crate::domain::ProductView;
use crate::repositories::{has_id, lemma_lookup_unique, lemma_replace, lookup, replace_by_id, unique_ids};

verus! {

/// A product created from a valid request can be read back under its
/// identifier, and carries the request's name, price and description with
/// nothing available or reserved.
pub proof fn lemma_created_product_is_found(
    ps: Seq<ProductView>,
    c: CreateProductCommand,
    id: Seq<char>,
    now: i64,
)
    requires
        valid_create(c),
        unique_ids(ps.push(new_product(c, id, now))),
    ensures
        has_id(ps.push(new_product(c, id, now)), id),
        lookup(ps.push(new_product(c, id, now)), id) == new_product(c, id, now),
        lookup(ps.push(new_product(c, id, now)), id).name == c.name@,
        lookup(ps.push(new_product(c, id, now)), id).price_cents == c.price_cents,
        lookup(ps.push(new_product(c, id, now)), id).description == c.description@,
        lookup(ps.push(new_product(c, id, now)), id).available_inventory == 0,
        lookup(ps.push(new_product(c, id, now)), id).reserved_inventory == 0,
{
    lemma_lookup_unique(ps.push(new_product(c, id, now)), ps.len() as int);
}

/// Reserving a unit of a product and then releasing one leaves the store
/// exactly as it was; the release cannot be refused for want of a reserved unit.
pub proof fn lemma_reserve_then_release(ps: Seq<ProductView>, id: Seq<char>)
    requires
        unique_ids(ps),
        has_id(ps, id),
        lookup(ps, id).reserved_inventory < u32::MAX,
    ensures
        unique_ids(replace_by_id(ps, reserved_plus_one(lookup(ps, id)))),
        has_id(replace_by_id(ps, reserved_plus_one(lookup(ps, id))), id),
        lookup(replace_by_id(ps, reserved_plus_one(lookup(ps, id))), id).reserved_inventory > 0,
        forall|ps2: Seq<ProductView>|
            release_effect(
                replace_by_id(ps, reserved_plus_one(lookup(ps, id))),
                ps2,
                id,
                true,
            ) ==> ps2 == ps,
{
    let l = lookup(ps, id);
    let k0 = choose|k: int| 0 <= k < ps.len() && #[trigger] ps[k].id == id;
    lemma_lookup_unique(ps, k0);
    let up = reserved_plus_one(l);
    let ps1 = replace_by_id(ps, up);
    lemma_replace(ps, up);
    assert(reserved_minus_one(up) == l);
    let ps2 = replace_by_id(ps1, reserved_minus_one(lookup(ps1, id)));
    assert forall|k: int| 0 <= k < ps.len() implies #[trigger] ps2[k] == ps[k] by {
        if ps[k].id == id {
            lemma_lookup_unique(ps, k);
        }
    }
    assert(ps2 =~= ps);
}

/// `p` with exactly `n` units reserved.
pub open spec fn with_reserved(p: ProductView, n: nat) -> ProductView {
    ProductView { reserved_inventory: n, ..p }
}

/// Replacing the product under one identifier twice leaves the second.
proof fn lemma_replace_twice(ps: Seq<ProductView>, a: ProductView, b: ProductView)
    requires
        a.id == b.id,
    ensures
        replace_by_id(replace_by_id(ps, a), b) == replace_by_id(ps, b),
{
    assert(replace_by_id(replace_by_id(ps, a), b) =~= replace_by_id(ps, b));
}

/// Writing back the product found under an identifier changes nothing.
proof fn lemma_replace_with_found(ps: Seq<ProductView>, id: Seq<char>)
    requires
        unique_ids(ps),
        has_id(ps, id),
    ensures
        replace_by_id(ps, lookup(ps, id)) == ps,
{
    let k0 = choose|k: int| 0 <= k < ps.len() && #[trigger] ps[k].id == id;
    lemma_lookup_unique(ps, k0);
    assert forall|k: int| 0 <= k < ps.len() implies #[trigger] replace_by_id(ps, lookup(ps, id))[k]
        == ps[k] by {
        if ps[k].id == id {
            lemma_lookup_unique(ps, k);
        }
    }
    assert(replace_by_id(ps, lookup(ps, id)) =~= ps);
}

/// The reserved count after `i` steps of `k` reservations followed by `k` releases.
pub open spec fn reserved_level(start: nat, k: nat, i: nat) -> nat {
    if i <= k {
        start + i
    } else {
        (start + 2 * k - i) as nat
    }
}

/// Each store state of the chain differs from the first only in the reserved
/// count of the product under `id`.
proof fn lemma_chain_level(states: Seq<Seq<ProductView>>, id: Seq<char>, k: nat, i: nat)
    requires
        states.len() == 2 * k + 1,
        unique_ids(states[0]),
        has_id(states[0], id),
        forall|j: int| 0 <= j < k ==> reserve_effect(#[trigger] states[j], states[j + 1], id, true),
        forall|j: int|
            k <= j < 2 * k ==> release_effect(#[trigger] states[j], states[j + 1], id, true),
        i <= 2 * k,
    ensures
        states[i as int] == replace_by_id(
            states[0],
            with_reserved(
                lookup(states[0], id),
                reserved_level(lookup(states[0], id).reserved_inventory, k, i),
            ),
        ),
    decreases i,
{
    let s0 = states[0];
    let l = lookup(s0, id);
    let k0 = choose|j: int| 0 <= j < s0.len() && #[trigger] s0[j].id == id;
    lemma_lookup_unique(s0, k0);
    if i == 0 {
        assert(with_reserved(l, l.reserved_inventory) == l);
        lemma_replace_with_found(s0, id);
    } else {
        let prev = (i - 1) as nat;
        lemma_chain_level(states, id, k, prev);
        let n = reserved_level(l.reserved_inventory, k, prev);
        let w = with_reserved(l, n);
        lemma_replace(s0, w);
        if prev < k {
            assert(reserve_effect(states[prev as int], states[i as int], id, true));
            assert(reserved_plus_one(w) == with_reserved(l, n + 1));
            lemma_replace_twice(s0, w, with_reserved(l, n + 1));
        } else {
            assert(release_effect(states[prev as int], states[i as int], id, true));
            assert(reserved_minus_one(w) == with_reserved(l, (n - 1) as nat));
            lemma_replace_twice(s0, w, with_reserved(l, (n - 1) as nat));
        }
    }
}

/// Reserving `k` units of a product one at a time and then releasing `k` one
/// at a time, every step succeeding, leaves the store exactly as it was.
pub proof fn lemma_reservations_cancel(states: Seq<Seq<ProductView>>, id: Seq<char>, k: nat)
    requires
        states.len() == 2 * k + 1,
        unique_ids(states[0]),
        has_id(states[0], id),
        forall|j: int| 0 <= j < k ==> reserve_effect(#[trigger] states[j], states[j + 1], id, true),
        forall|j: int|
            k <= j < 2 * k ==> release_effect(#[trigger] states[j], states[j + 1], id, true),
    ensures
        states[2 * k as int] == states[0],
{
    lemma_chain_level(states, id, k, 2 * k);
    let l = lookup(states[0], id);
    assert(with_reserved(l, l.reserved_inventory) == l);
    lemma_replace_with_found(states[0], id);
}

} // verus!
