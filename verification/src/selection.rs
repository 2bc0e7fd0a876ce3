//! Choosing a move set from what the dex tells about one creature.

use crate::chance::random_index;
use crate::pokemon::MoveSet;
use crate::pokemon::PokemonResponse;
use crate::pokemon::Strategy;
use crate::sequence::lemma_filtered_is_contained;
use crate::text::str_eq;
use vstd::prelude::*;
use vstd::string::*;

verus! {

/// The format asked for, as text.
pub open spec fn wanted(format: Option<String>) -> Option<Seq<char>> {
    match format {
        Some(f) => Some(f@),
        None => None,
    }
}

/// Whether a strategy belongs to the format asked for. Without a format
/// every strategy does.
pub open spec fn plays_in(strategy: Strategy, format: Option<Seq<char>>) -> bool {
    match format {
        Some(f) => strategy.format@ == f,
        None => true,
    }
}

/// The strategies that belong to the format asked for, in their order.
pub open spec fn eligible(strategies: Seq<Strategy>, format: Option<Seq<char>>) -> Seq<Strategy> {
    strategies.filter(|s: Strategy| plays_in(s, format))
}

/// The format and move set found at two positions: that of a strategy
/// among the eligible ones, and that of a move set within it. Positions
/// that name nothing give nothing.
pub open spec fn selection(
    strategies: Seq<Strategy>,
    format: Option<Seq<char>>,
    strategy_pick: int,
    set_pick: int,
) -> Option<(String, MoveSet)> {
    let among = eligible(strategies, format);
    if 0 <= strategy_pick < among.len() && 0 <= set_pick < among[strategy_pick].move_sets@.len() {
        Some((among[strategy_pick].format, among[strategy_pick].move_sets@[set_pick]))
    } else {
        None
    }
}

/// Whether a draw finds a move set whatever it picks: some strategy
/// belongs to the format asked for, and each that does has a move set.
pub open spec fn offers_every_time(strategies: Seq<Strategy>, format: Option<Seq<char>>) -> bool {
    &&& eligible(strategies, format).len() > 0
    &&& forall|k: int|
        0 <= k < eligible(strategies, format).len() ==> (#[trigger] eligible(
            strategies,
            format,
        )[k]).move_sets@.len() > 0
}

/// Whether a draw finds nothing whatever it picks: no strategy that
/// belongs to the format asked for has a move set.
pub open spec fn offers_nothing(strategies: Seq<Strategy>, format: Option<Seq<char>>) -> bool {
    forall|k: int|
        0 <= k < eligible(strategies, format).len() ==> (#[trigger] eligible(
            strategies,
            format,
        )[k]).move_sets@.len() == 0
}

/// Whether two positions can come out of a draw: the first names one of
/// the eligible strategies, the second one of its move sets if it has any.
/// With no eligible strategy nothing is drawn, and any positions will do.
pub open spec fn can_be_drawn(
    strategies: Seq<Strategy>,
    format: Option<Seq<char>>,
    strategy_pick: int,
    set_pick: int,
) -> bool {
    let among = eligible(strategies, format);
    among.len() > 0 ==> {
        &&& 0 <= strategy_pick < among.len()
        &&& among[strategy_pick].move_sets@.len() > 0 ==> 0 <= set_pick
            < among[strategy_pick].move_sets@.len()
    }
}

/// Whether a strategy belongs to the format asked for.
fn plays_in_format(strategy: &Strategy, format: &Option<String>) -> (plays: bool)
    ensures
        plays == plays_in(*strategy, wanted(*format)),
{
    match format {
        Some(f) => str_eq(strategy.format.as_str(), f.as_str()),
        None => true,
    }
}

/// Where the eligible strategies stand among all of them.
fn eligible_positions(strategies: &Vec<Strategy>, format: &Option<String>) -> (positions: Vec<
    usize,
>)
    ensures
        positions@.len() == eligible(strategies@, wanted(*format)).len(),
        forall|k: int|
            #![trigger positions@[k]]
            0 <= k < positions@.len() ==> positions@[k] < strategies@.len()
                && strategies@[positions@[k] as int] == eligible(strategies@, wanted(*format))[k],
{
    let mut positions: Vec<usize> = Vec::new();
    let mut i: usize = 0;
    while i < strategies.len()
        invariant
            i <= strategies.len(),
            positions@.len() == eligible(strategies@.take(i as int), wanted(*format)).len(),
            forall|k: int|
                #![trigger positions@[k]]
                0 <= k < positions@.len() ==> positions@[k] < i && strategies@[positions@[k] as int]
                    == eligible(strategies@.take(i as int), wanted(*format))[k],
        decreases strategies.len() - i,
    {
        let ghost before = eligible(strategies@.take(i as int), wanted(*format));
        let ghost after = eligible(strategies@.take(i + 1), wanted(*format));
        let ghost earlier = positions@;
        proof {
            reveal(Seq::filter);
            assert(strategies@.take(i + 1).drop_last() =~= strategies@.take(i as int));
            assert(strategies@.take(i + 1).last() == strategies@[i as int]);
        }
        if plays_in_format(&strategies[i], format) {
            positions.push(i);
            assert(after =~= before.push(strategies@[i as int]));
        } else {
            assert(after =~= before);
        }
        i += 1;
        assert forall|k: int| 0 <= k < positions@.len() implies #[trigger] positions@[k] < i
            && strategies@[positions@[k] as int] == after[k] by {
            if k < earlier.len() {
                assert(positions@[k] == earlier[k]);
                assert(before[k] == after[k]);
            }
        }
    }
    assert(strategies@.take(strategies.len() as int) =~= strategies@);
    positions
}

/// Takes from a detail the move set at two given positions, with the
/// format of its strategy: `strategy_pick` counts among the strategies of
/// the format asked for, `set_pick` among the move sets of that strategy.
pub fn select_move_set_at(
    detail: PokemonResponse,
    format: &Option<String>,
    strategy_pick: usize,
    set_pick: usize,
) -> (found: Option<(String, MoveSet)>)
    ensures
        found == selection(detail.strategies@, wanted(*format), strategy_pick as int, set_pick as int),
{
    let positions = eligible_positions(&detail.strategies, format);
    if strategy_pick >= positions.len() {
        return None;
    }
    let mut strategies = detail.strategies;
    let strategy = strategies.swap_remove(positions[strategy_pick]);
    if set_pick >= strategy.move_sets.len() {
        return None;
    }
    let mut move_sets = strategy.move_sets;
    let move_set = move_sets.swap_remove(set_pick);
    Some((strategy.format, move_set))
}

/// Draws a strategy of the format asked for, and a move set of it.
///
/// Nothing is found when no strategy belongs to the format, or when the
/// strategy drawn has no move set. Otherwise what is found stands at the
/// positions drawn.
pub fn select_move_set(detail: PokemonResponse, format: &Option<String>) -> (found: Option<
    (String, MoveSet),
>)
    ensures
        exists|strategy_pick: int, set_pick: int|
            can_be_drawn(detail.strategies@, wanted(*format), strategy_pick, set_pick) && found
                == #[trigger] selection(
                detail.strategies@,
                wanted(*format),
                strategy_pick,
                set_pick,
            ),
        offers_every_time(detail.strategies@, wanted(*format)) ==> found is Some,
        offers_nothing(detail.strategies@, wanted(*format)) ==> found is None,
{
    let ghost among = eligible(detail.strategies@, wanted(*format));
    let positions = eligible_positions(&detail.strategies, format);
    if positions.len() == 0 {
        assert(can_be_drawn(detail.strategies@, wanted(*format), 0, 0));
        assert(selection(detail.strategies@, wanted(*format), 0, 0) is None);
        return None;
    }
    let strategy_pick = random_index(positions.len());
    let sets = detail.strategies[positions[strategy_pick]].move_sets.len();
    assert(among[strategy_pick as int].move_sets@.len() == sets);
    if sets == 0 {
        assert(can_be_drawn(detail.strategies@, wanted(*format), strategy_pick as int, 0));
        assert(selection(detail.strategies@, wanted(*format), strategy_pick as int, 0) is None);
        return None;
    }
    let set_pick = random_index(sets);
    assert(can_be_drawn(
        detail.strategies@,
        wanted(*format),
        strategy_pick as int,
        set_pick as int,
    ));
    select_move_set_at(detail, format, strategy_pick, set_pick)
}

/// Whatever is selected comes from a strategy of the detail that belongs
/// to the format asked for, and carries that strategy's format.
pub proof fn lemma_selection_keeps_to_format(
    strategies: Seq<Strategy>,
    format: Option<Seq<char>>,
    strategy_pick: int,
    set_pick: int,
)
    requires
        selection(strategies, format, strategy_pick, set_pick) is Some,
    ensures
        ({
            let found = selection(strategies, format, strategy_pick, set_pick)->0;
            &&& exists|k: int|
                0 <= k < strategies.len() && plays_in(#[trigger] strategies[k], format)
                    && strategies[k].format == found.0 && strategies[k].move_sets@.contains(
                    found.1,
                )
            &&& format matches Some(f) ==> found.0@ == f
        }),
{
    let belongs = |s: Strategy| plays_in(s, format);
    let among = eligible(strategies, format);
    let chosen = among[strategy_pick];
    strategies.lemma_filter_pred(belongs, strategy_pick);
    lemma_filtered_is_contained(strategies, belongs, strategy_pick);
    let k = choose|k: int| 0 <= k < strategies.len() && strategies[k] == chosen;
    assert(plays_in(strategies[k], format));
    let found = selection(strategies, format, strategy_pick, set_pick)->0;
    assert(chosen.move_sets@[set_pick] == found.1);
}

} // verus!
