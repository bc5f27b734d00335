use vstd::prelude::*;

use rand::rngs::ThreadRng;
use rand::Rng;

use crate::board::{other_player, Player};

verus! {

#[verifier::external_type_specification]
#[verifier::external_body]
pub struct ExThreadRng(ThreadRng);

/// Relies on rand's `Rng::gen_range`: on the non-empty range `0..2` it
/// returns a value inside the range, chosen at random.
#[verifier::external_body]
fn coin_flip(rng: &mut ThreadRng) -> (r: u32)
    ensures
        r < 2,
{
    rng.gen_range(0..2u32)
}

/// The player who moves first when the coin shows `coin`: `PlayerA` on 0,
/// `PlayerB` otherwise.
pub fn first_player_for(coin: u32) -> (p: Player)
    ensures
        coin == 0 ==> p == Player::PlayerA,
        coin != 0 ==> p == Player::PlayerB,
{
    if coin == 0 {
        Player::PlayerA
    } else {
        Player::PlayerB
    }
}

/// Picks the first player by a fair coin flip from `rng`.
pub fn set_first_player(rng: &mut ThreadRng) -> (p: Player) {
    let coin = coin_flip(rng);
    first_player_for(coin)
}

/// Hands the turn to the other player.
pub fn change_player(current: &mut Player)
    ensures
        *final(current) == other_player(*old(current)),
{
    match *current {
        Player::PlayerA => *current = Player::PlayerB,
        Player::PlayerB => *current = Player::PlayerA,
    }
}

/// Handing the turn over twice gives it back to the same player.
pub proof fn lemma_change_player_twice(p: Player)
    ensures
        other_player(other_player(p)) == p,
{
}

} // verus!
