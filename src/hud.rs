use vstd::prelude::*;
use crate::player_ship::{Ship, START_LIFE};

verus! {

/// Marker of the score text.
#[derive(Debug, Clone, Copy, PartialEq, Eq, Structural)]
pub struct UiScore;

/// A life icon; it shows while the ship has at least `min` lives.
#[derive(Debug, Clone, Copy, PartialEq, Eq, Structural)]
pub struct UiLife {
    pub min: u32,
}

/// The character of a decimal digit.
pub open spec fn digit_char(d: nat) -> char {
    if d == 0 {
        '0'
    } else if d == 1 {
        '1'
    } else if d == 2 {
        '2'
    } else if d == 3 {
        '3'
    } else if d == 4 {
        '4'
    } else if d == 5 {
        '5'
    } else if d == 6 {
        '6'
    } else if d == 7 {
        '7'
    } else if d == 8 {
        '8'
    } else {
        '9'
    }
}

/// The decimal notation of a number, without sign or leading zeros.
pub open spec fn decimal(n: nat) -> Seq<char>
    decreases n,
{
    if n < 10 {
        seq![digit_char(n)]
    } else {
        decimal(n / 10).push(digit_char(n % 10))
    }
}

/// Relies on `ToString::to_string` for `u32`, which writes the number in
/// decimal through its `Display` impl.
#[verifier::external_body]
fn decimal_string(n: u32) -> (r: String)
    ensures
        r@ == decimal(n as nat),
{
    n.to_string()
}

/// The life icons of the HUD, one for each starting life, from 1 up.
pub fn hud_spawn() -> (r: Vec<UiLife>)
    ensures
        r@.len() == START_LIFE,
        forall|i: int| 0 <= i < r@.len() ==> #[trigger] r@[i].min == i + 1,
{
    let mut icons: Vec<UiLife> = Vec::new();
    let mut i: u32 = 1;
    while i <= START_LIFE
        invariant
            1 <= i <= START_LIFE + 1,
            icons@.len() == i - 1,
            forall|j: int| 0 <= j < icons@.len() ==> #[trigger] icons@[j].min == j + 1,
        decreases START_LIFE + 1 - i,
    {
        icons.push(UiLife { min: i });
        i = i + 1;
    }
    icons
}

/// The text of the score display.
pub fn hud_score_system(score: u32) -> (r: String)
    ensures
        r@ == decimal(score as nat),
{
    decimal_string(score)
}

/// The lives shown: those of the last ship of player one among the given
/// ships, or none when there is no such ship.
pub open spec fn shown_life(ships: Seq<Ship>) -> u32
    decreases ships.len(),
{
    if ships.len() == 0 {
        0
    } else if ships.last().player_id == 1 {
        ships.last().life
    } else {
        shown_life(ships.drop_last())
    }
}

/// Which life icons are visible: those whose threshold the shown life reaches.
pub fn hud_life_system(ships: &Vec<Ship>, icons: &Vec<UiLife>) -> (r: Vec<bool>)
    ensures
        r@.len() == icons@.len(),
        forall|i: int|
            0 <= i < icons@.len() ==> #[trigger] r@[i] == (shown_life(ships@) >= icons@[i].min),
{
    let mut life: u32 = 0;
    let mut k: usize = 0;
    while k < ships.len()
        invariant
            0 <= k <= ships@.len(),
            life == shown_life(ships@.subrange(0, k as int)),
        decreases ships@.len() - k,
    {
        proof {
            assert(ships@.subrange(0, k + 1).drop_last() =~= ships@.subrange(0, k as int));
        }
        if ships[k].player_id == 1 {
            life = ships[k].life;
        }
        k = k + 1;
    }
    proof {
        assert(ships@.subrange(0, ships@.len() as int) =~= ships@);
    }
    let mut visible: Vec<bool> = Vec::new();
    let mut i: usize = 0;
    while i < icons.len()
        invariant
            0 <= i <= icons@.len(),
            life == shown_life(ships@),
            visible@.len() == i,
            forall|j: int| 0 <= j < i ==> #[trigger] visible@[j] == (life >= icons@[j].min),
        decreases icons@.len() - i,
    {
        visible.push(life >= icons[i].min);
        i = i + 1;
    }
    visible
}

} // verus!
