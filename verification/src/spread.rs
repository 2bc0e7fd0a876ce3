//! Stat spreads and their short notation, which shows only the stats that
//! differ from a default.

use crate::text::decimal;
use crate::text::join;
use crate::text::joined;
use crate::text::push_decimal;
use vstd::prelude::*;
use vstd::string::*;

verus! {

/// One value for each of the six stats.
///
/// The same shape serves effort values, where a stat left alone is 0, and
/// individual values, where it is 31: which of the two is meant is said by
/// the default handed to the compression, never read off the values.
#[derive(Copy, Clone, Debug, PartialEq, Eq)]
pub struct StatSpread {
    pub hp: u8,
    pub atk: u8,
    pub def: u8,
    pub spa: u8,
    pub spd: u8,
    pub spe: u8,
}

/// The value that stands for an effort value left alone.
pub const EV_DEFAULT: u8 = 0;

/// The value that stands for an individual value left alone.
pub const IV_DEFAULT: u8 = 31;

impl StatSpread {
    /// The six values in the order in which they are written.
    pub open spec fn values(self) -> Seq<u8> {
        seq![self.hp, self.atk, self.def, self.spa, self.spd, self.spe]
    }
}

/// The short name of the stat at a position.
pub open spec fn label(position: int) -> Seq<char> {
    if position == 0 {
        "HP"@
    } else if position == 1 {
        "Atk"@
    } else if position == 2 {
        "Def"@
    } else if position == 3 {
        "SpA"@
    } else if position == 4 {
        "SpD"@
    } else {
        "Spe"@
    }
}

/// A value followed by a space and the short name of its stat.
pub open spec fn token(value: u8, position: int) -> Seq<char> {
    decimal(value as nat) + " "@ + label(position)
}

/// The tokens of those among the first `count` stats that differ from the
/// default, in the order of the stats.
pub open spec fn tokens(values: Seq<u8>, default: u8, count: int) -> Seq<Seq<char>>
    decreases count,
{
    if count <= 0 {
        Seq::empty()
    } else if values[count - 1] != default {
        tokens(values, default, count - 1).push(token(values[count - 1], count - 1))
    } else {
        tokens(values, default, count - 1)
    }
}

/// The short notation of one spread.
pub open spec fn compressed(spread: StatSpread, default: u8) -> Seq<char> {
    joined(tokens(spread.values(), default, 6), " / "@)
}

/// The short notation of each spread, in order.
pub open spec fn each_compressed(spreads: Seq<StatSpread>, default: u8) -> Seq<Seq<char>> {
    Seq::new(spreads.len(), |i: int| compressed(spreads[i], default))
}

/// The short notation of several alternative spreads. A spread that shows
/// nothing still takes its place between the bars.
pub open spec fn compressed_all(spreads: Seq<StatSpread>, default: u8) -> Seq<char> {
    joined(each_compressed(spreads, default), " | "@)
}

/// Adds the token of one stat unless its value is the default.
fn push_token(parts: &mut Vec<String>, value: u8, default: u8, name: &str, Ghost(position): Ghost<int>)
    requires
        name@ == label(position),
    ensures
        value != default ==> final(parts).deep_view() == old(parts).deep_view().push(
            token(value, position),
        ),
        value == default ==> final(parts).deep_view() == old(parts).deep_view(),
{
    if value != default {
        let mut text = String::new();
        push_decimal(&mut text, value);
        text.append(" ");
        text.append(name);
        assert(text@ =~= token(value, position));
        parts.push(text);
        assert(parts.deep_view() =~= old(parts).deep_view().push(token(value, position)));
    }
}

/// Writes one spread in short notation: the stats that differ from the
/// default, in the order HP, Atk, Def, SpA, SpD, Spe, with `" / "` between
/// them.
pub fn compress_spread(spread: StatSpread, default: u8) -> (out: String)
    ensures
        out@ == compressed(spread, default),
{
    let mut parts: Vec<String> = Vec::with_capacity(6);
    let ghost values = spread.values();
    assert(parts.deep_view() =~= tokens(values, default, 0));
    push_token(&mut parts, spread.hp, default, "HP", Ghost(0));
    assert(parts.deep_view() == tokens(values, default, 1));
    push_token(&mut parts, spread.atk, default, "Atk", Ghost(1));
    assert(parts.deep_view() == tokens(values, default, 2));
    push_token(&mut parts, spread.def, default, "Def", Ghost(2));
    assert(parts.deep_view() == tokens(values, default, 3));
    push_token(&mut parts, spread.spa, default, "SpA", Ghost(3));
    assert(parts.deep_view() == tokens(values, default, 4));
    push_token(&mut parts, spread.spd, default, "SpD", Ghost(4));
    assert(parts.deep_view() == tokens(values, default, 5));
    push_token(&mut parts, spread.spe, default, "Spe", Ghost(5));
    assert(parts.deep_view() == tokens(values, default, 6));
    join(&parts, " / ")
}

/// Writes several alternative spreads in short notation, with `" | "`
/// between them.
pub fn compress_spreads(spreads: &Vec<StatSpread>, default: u8) -> (out: String)
    ensures
        out@ == compressed_all(spreads@, default),
{
    let mut parts: Vec<String> = Vec::new();
    let mut i: usize = 0;
    while i < spreads.len()
        invariant
            i <= spreads.len(),
            parts.deep_view() == each_compressed(spreads@.take(i as int), default),
        decreases spreads.len() - i,
    {
        let text = compress_spread(spreads[i], default);
        let ghost before = parts.deep_view();
        parts.push(text);
        i += 1;
        proof {
            assert(parts.deep_view() =~= before.push(text@));
            assert(spreads@.take(i as int).drop_last() =~= spreads@.take(i - 1));
            assert(before.push(text@) =~= each_compressed(spreads@.take(i as int), default));
        }
    }
    assert(spreads@.take(spreads.len() as int) =~= spreads@);
    join(&parts, " | ")
}

/// A spread in which every stat has the default is written as nothing.
pub proof fn lemma_default_spread_is_empty(spread: StatSpread, default: u8)
    requires
        forall|i: int| 0 <= i < 6 ==> spread.values()[i] == default,
    ensures
        compressed(spread, default) == Seq::<char>::empty(),
{
    lemma_tokens_all_default(spread.values(), default, 6);
}

/// A spread in which exactly one stat differs from the default is written
/// as the token of that stat alone.
pub proof fn lemma_single_stat_is_one_token(spread: StatSpread, default: u8, position: int)
    requires
        0 <= position < 6,
        spread.values()[position] != default,
        forall|i: int| 0 <= i < 6 && i != position ==> spread.values()[i] == default,
    ensures
        tokens(spread.values(), default, 6) == seq![token(spread.values()[position], position)],
        compressed(spread, default) == token(spread.values()[position], position),
{
    let values = spread.values();
    lemma_tokens_all_default(values, default, position);
    lemma_tokens_unchanged_by_defaults(values, default, position + 1, 6);
    assert(tokens(values, default, position + 1) =~= seq![token(values[position], position)]);
}

/// The number of stats before a position that differ from the default.
pub open spec fn rank(values: Seq<u8>, default: u8, position: int) -> int {
    tokens(values, default, position).len() as int
}

/// Every stat that differs from the default has its token in the notation,
/// at the place given by the number of such stats before it.
pub proof fn lemma_token_at_rank(values: Seq<u8>, default: u8, position: int, count: int)
    requires
        0 <= position < count,
        values[position] != default,
    ensures
        0 <= rank(values, default, position) < tokens(values, default, count).len(),
        tokens(values, default, count)[rank(values, default, position)] == token(
            values[position],
            position,
        ),
    decreases count,
{
    if count - 1 == position {
    } else {
        lemma_token_at_rank(values, default, position, count - 1);
    }
}

/// The tokens stand in the order of the stats: HP, Atk, Def, SpA, SpD, Spe.
pub proof fn lemma_tokens_in_stat_order(spread: StatSpread, default: u8, first: int, second: int)
    requires
        0 <= first < second < 6,
        spread.values()[first] != default,
        spread.values()[second] != default,
    ensures
        0 <= rank(spread.values(), default, first) < rank(spread.values(), default, second)
            < tokens(spread.values(), default, 6).len(),
        tokens(spread.values(), default, 6)[rank(spread.values(), default, first)] == token(
            spread.values()[first],
            first,
        ),
        tokens(spread.values(), default, 6)[rank(spread.values(), default, second)] == token(
            spread.values()[second],
            second,
        ),
{
    let values = spread.values();
    lemma_token_at_rank(values, default, first, second);
    lemma_token_at_rank(values, default, first, 6);
    lemma_token_at_rank(values, default, second, 6);
}

proof fn lemma_tokens_all_default(values: Seq<u8>, default: u8, count: int)
    requires
        forall|i: int| 0 <= i < count ==> values[i] == default,
    ensures
        tokens(values, default, count) == Seq::<Seq<char>>::empty(),
    decreases count,
{
    if count > 0 {
        lemma_tokens_all_default(values, default, count - 1);
    }
}

proof fn lemma_tokens_unchanged_by_defaults(values: Seq<u8>, default: u8, from: int, to: int)
    requires
        0 <= from <= to,
        forall|i: int| from <= i < to ==> values[i] == default,
    ensures
        tokens(values, default, to) == tokens(values, default, from),
    decreases to - from,
{
    if from < to {
        lemma_tokens_unchanged_by_defaults(values, default, from, to - 1);
    }
}

} // verus!
