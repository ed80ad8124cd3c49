use vstd::prelude::*;
use crate::entities::{BrickStatus, BrickType};

verus! {

/// The positions, in order, of the bricks of `bricks` still standing.
pub open spec fn standing_positions(bricks: Seq<BrickStatus>) -> Seq<int>
    decreases bricks.len(),
{
    if bricks.len() == 0 {
        seq![]
    } else if !bricks.last().is_destroyed {
        standing_positions(bricks.drop_last()).push(bricks.len() - 1)
    } else {
        standing_positions(bricks.drop_last())
    }
}

/// The bricks a saved custom level keeps: the positions, in order, of those
/// still standing.
pub fn bricks_to_save(bricks: &[BrickStatus]) -> (kept: Vec<usize>)
    ensures
        kept@.len() == standing_positions(bricks@).len(),
        forall|k: int| 0 <= k < kept@.len() ==> kept@[k] == standing_positions(bricks@)[k],
{
    let mut kept: Vec<usize> = Vec::new();
    let mut i: usize = 0;
    while i < bricks.len()
        invariant
            i <= bricks@.len(),
            kept@.len() == standing_positions(bricks@.take(i as int)).len(),
            forall|k: int|
                0 <= k < kept@.len() ==> kept@[k] == standing_positions(bricks@.take(i as int))[k],
        decreases bricks@.len() - i,
    {
        assert(bricks@.take(i + 1).drop_last() =~= bricks@.take(i as int));
        if !bricks[i].is_destroyed {
            kept.push(i);
        }
        i = i + 1;
    }
    assert(bricks@.take(bricks@.len() as int) =~= bricks@);
    kept
}

/// The bricks of a loaded custom level: brick `i` is a fresh brick with id
/// `i` of the kind its saved sprite name reads as (unknown names read as red
/// bricks).
pub fn custom_level_bricks(names: &[String]) -> (bricks: Vec<BrickStatus>)
    ensures
        bricks@.len() == names@.len(),
        forall|i: int|
            0 <= i < names@.len() ==> #[trigger] bricks@[i] == BrickStatus::fresh(
                i as usize,
                BrickType::named(names@[i]@),
            ),
{
    let mut bricks: Vec<BrickStatus> = Vec::new();
    let mut i: usize = 0;
    while i < names.len()
        invariant
            i <= names@.len(),
            bricks@.len() == i,
            forall|k: int|
                0 <= k < i ==> #[trigger] bricks@[k] == BrickStatus::fresh(
                    k as usize,
                    BrickType::named(names@[k]@),
                ),
        decreases names@.len() - i,
    {
        let t = BrickType::from_sprite_name(names[i].as_str());
        bricks.push(BrickStatus::new(i, t));
        i = i + 1;
    }
    bricks
}

/// The bricks a saved level keeps are exactly those still standing, in
/// their order: each kept position holds a standing brick, positions
/// increase, and every standing brick is kept.
pub proof fn lemma_save_keeps_exactly_standing(bricks: Seq<BrickStatus>)
    ensures
        forall|k: int|
            0 <= k < standing_positions(bricks).len() ==> {
                &&& 0 <= #[trigger] standing_positions(bricks)[k] < bricks.len()
                &&& !bricks[standing_positions(bricks)[k]].is_destroyed
            },
        forall|k1: int, k2: int|
            0 <= k1 < k2 < standing_positions(bricks).len() ==> #[trigger] standing_positions(
                bricks,
            )[k1] < #[trigger] standing_positions(bricks)[k2],
        forall|i: int|
            0 <= i < bricks.len() && !(#[trigger] bricks[i]).is_destroyed ==> standing_positions(
                bricks,
            ).contains(i),
    decreases bricks.len(),
{
    if bricks.len() > 0 {
        let rest = bricks.drop_last();
        lemma_save_keeps_exactly_standing(rest);
        let sp = standing_positions(rest);
        assert forall|k: int| 0 <= k < sp.len() implies 0 <= #[trigger] sp[k] < rest.len() by {}
        assert forall|i: int|
            0 <= i < bricks.len() && !(#[trigger] bricks[i]).is_destroyed implies standing_positions(
            bricks,
        ).contains(i) by {
            if i < bricks.len() - 1 {
                assert(rest[i] == bricks[i]);
                assert(rest[i].is_destroyed == false);
                assert(sp.contains(i));
                let w = choose|w: int| 0 <= w < sp.len() && sp[w] == i;
                assert(standing_positions(bricks)[w] == i);
            } else {
                assert(standing_positions(bricks)[sp.len() as int] == i);
            }
        }
    }
}

/// Saving a level and loading it back keeps every standing brick's kind, in
/// order: the sprite name saved for each reads back as the same kind.
pub proof fn lemma_saved_level_reloads_kinds(bricks: Seq<BrickStatus>)
    ensures
        forall|k: int|
            0 <= k < standing_positions(bricks).len() ==> BrickType::named(
                bricks[#[trigger] standing_positions(bricks)[k]].brick_type.sprite_file()@,
            ) == bricks[standing_positions(bricks)[k]].brick_type,
{
    assert forall|k: int| 0 <= k < standing_positions(bricks).len() implies BrickType::named(
        bricks[#[trigger] standing_positions(bricks)[k]].brick_type.sprite_file()@,
    ) == bricks[standing_positions(bricks)[k]].brick_type by {
        crate::entities::lemma_sprite_name_round_trip(
            bricks[standing_positions(bricks)[k]].brick_type,
        );
    }
}

} // verus!
