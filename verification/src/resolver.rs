//! Finding a build to show: a standard creature is drawn from the listing,
//! its detail is asked for, and a strategy and a move set are drawn from
//! the detail. The asking itself is done by the caller; what to ask for
//! next, and when to stop, is decided here.

use crate::alias::alias_of;
use crate::alias::alias_text;
use crate::alias::strip_mega;
use crate::alias::without_mega;
use crate::basics::BasicsPokemon;
use crate::basics::BasicsResponse;
use crate::chance::random_index;
use crate::error::StratDexError;
use crate::generation::Generation;
use crate::pokemon::MoveSet;
use crate::pokemon::PokemonResponse;
use crate::selection::can_be_drawn;
use crate::selection::lemma_selection_keeps_to_format;
use crate::selection::offers_every_time;
use crate::selection::offers_nothing;
use crate::selection::select_move_set;
use crate::selection::select_move_set_at;
use crate::selection::selection;
use crate::selection::wanted;
use crate::sequence::lemma_filtered_is_contained;
use vstd::prelude::*;
use vstd::string::*;

verus! {

/// What is kept from one draw to the next.
#[derive(Debug)]
pub struct Resolver {
    /// The generation whose dex is asked.
    pub generation: Generation,
    /// The format whose strategies are wanted, if only one is.
    pub format: Option<String>,
    /// How many creatures may still be drawn.
    pub attempts_left: usize,
}

/// A question that is out: the detail of one creature, under one alias.
#[derive(Debug)]
pub struct Lookup {
    /// What is kept for the draws that may follow.
    pub resolver: Resolver,
    /// The alias asked for.
    pub alias: String,
    /// Whether this is the second question about the same creature.
    pub fallback: bool,
}

/// Where the search stands, and so what the caller does next.
#[derive(Debug)]
pub enum Step {
    /// Draw a creature.
    Draw(Resolver),
    /// Ask the dex for the detail under the alias, and report the answer.
    Fetch(Lookup),
    /// A build was found: its format and the move set.
    Done(String, MoveSet),
    /// The search is given up.
    Failed(StratDexError),
}

impl Resolver {
    /// The same search with one draw fewer left.
    pub open spec fn spent(self) -> Resolver {
        Resolver {
            generation: self.generation,
            format: self.format,
            attempts_left: (self.attempts_left - 1) as usize,
        }
    }

    /// What drawing a given creature leads to: its detail is asked for
    /// under its alias, and one draw is spent. With no draw left the search
    /// is exhausted.
    pub open spec fn aims(self, creature: BasicsPokemon, after: Step) -> bool {
        if self.attempts_left == 0 {
            after == Step::Failed(StratDexError::ResolutionExhausted)
        } else {
            &&& after matches Step::Fetch(lookup)
            &&& lookup.resolver == self.spent()
            &&& lookup.alias@ == alias_text(creature.name@)
            &&& !lookup.fallback
        }
    }

    /// What a draw from a listing may lead to. With no draw left the search
    /// is exhausted; with no standard creature in the listing there is
    /// nothing to draw from; else some standard creature is drawn.
    pub open spec fn draws(self, listing: BasicsResponse, after: Step) -> bool {
        if self.attempts_left == 0 {
            after == Step::Failed(StratDexError::ResolutionExhausted)
        } else if listing.spec_standard().len() == 0 {
            after == Step::Failed(StratDexError::EmptyUniverse)
        } else {
            exists|pick: int|
                0 <= pick < listing.spec_standard().len() && self.aims(
                    #[trigger] listing.spec_standard()[pick],
                    after,
                )
        }
    }

    /// A search that may draw up to `max_attempts` creatures.
    pub fn new(generation: Generation, format: Option<String>, max_attempts: usize) -> (resolver:
        Resolver)
        ensures
            resolver.generation == generation,
            resolver.format == format,
            resolver.attempts_left == max_attempts,
    {
        Resolver { generation, format, attempts_left: max_attempts }
    }

    /// Takes a given creature as the one drawn.
    pub fn aim(self, creature: &BasicsPokemon) -> (after: Step)
        ensures
            self.aims(*creature, after),
    {
        if self.attempts_left == 0 {
            return Step::Failed(StratDexError::ResolutionExhausted);
        }
        let alias = alias_of(creature.name.as_str());
        let resolver = Resolver {
            generation: self.generation,
            format: self.format,
            attempts_left: self.attempts_left - 1,
        };
        Step::Fetch(Lookup { resolver, alias, fallback: false })
    }

    /// Draws a standard creature of the listing.
    pub fn draw(self, listing: &BasicsResponse) -> (after: Step)
        ensures
            self.draws(*listing, after),
    {
        if self.attempts_left == 0 {
            return Step::Failed(StratDexError::ResolutionExhausted);
        }
        let standard = listing.standard();
        if standard.len() == 0 {
            return Step::Failed(StratDexError::EmptyUniverse);
        }
        let pick = random_index(standard.len());
        let creature = standard[pick];
        assert(*creature == listing.spec_standard()[pick as int]);
        self.aim(creature)
    }
}

impl Lookup {
    /// What a detail leads to when a strategy and a move set are taken at
    /// given positions: the build found there, or another draw.
    pub open spec fn settles(self, detail: PokemonResponse, strategy_pick: int, set_pick: int) -> Step {
        match selection(detail.strategies@, wanted(self.resolver.format), strategy_pick, set_pick) {
            Some(found) => Step::Done(found.0, found.1),
            None => Step::Draw(self.resolver),
        }
    }

    /// What a failed question leads to: the first time, a second question
    /// under the alias without `"-mega"`; the second time, the failure
    /// itself.
    pub open spec fn gives_up(self, error: reqwest::Error, after: Step) -> bool {
        if self.fallback {
            after == Step::Failed(StratDexError::FetchError(error))
        } else {
            &&& after matches Step::Fetch(lookup)
            &&& lookup.resolver == self.resolver
            &&& lookup.alias@ == without_mega(self.alias@)
            &&& lookup.fallback
        }
    }

    /// What an answer of the dex may lead to: the build at some positions
    /// that can be drawn, or another draw.
    pub open spec fn finds(self, detail: PokemonResponse, after: Step) -> bool {
        exists|strategy_pick: int, set_pick: int|
            can_be_drawn(
                detail.strategies@,
                wanted(self.resolver.format),
                strategy_pick,
                set_pick,
            ) && after == #[trigger] self.settles(detail, strategy_pick, set_pick)
    }

    /// What a reply of the dex may lead to, be it an answer or a failure.
    pub open spec fn answers(self, reply: Result<PokemonResponse, reqwest::Error>, after: Step) -> bool {
        match reply {
            Ok(detail) => self.finds(detail, after),
            Err(error) => self.gives_up(error, after),
        }
    }

    /// Takes the answer of the dex, with the strategy and the move set at
    /// given positions as the ones drawn.
    pub fn fetched_at(self, detail: PokemonResponse, strategy_pick: usize, set_pick: usize) -> (after:
        Step)
        ensures
            after == self.settles(detail, strategy_pick as int, set_pick as int),
    {
        match select_move_set_at(detail, &self.resolver.format, strategy_pick, set_pick) {
            Some(found) => Step::Done(found.0, found.1),
            None => Step::Draw(self.resolver),
        }
    }

    /// Takes the answer of the dex and draws a strategy and a move set.
    ///
    /// A build is found whenever some strategy belongs to the format asked
    /// for and each that does has a move set; another draw follows whenever
    /// none that does has one.
    pub fn fetched(self, detail: PokemonResponse) -> (after: Step)
        ensures
            self.finds(detail, after),
            offers_every_time(detail.strategies@, wanted(self.resolver.format)) ==> after is Done,
            offers_nothing(detail.strategies@, wanted(self.resolver.format)) ==> after
                == Step::Draw(self.resolver),
    {
        let ghost strategies = detail.strategies@;
        let ghost format = wanted(self.resolver.format);
        let found = select_move_set(detail, &self.resolver.format);
        proof {
            let (strategy_pick, set_pick) = choose|strategy_pick: int, set_pick: int|
                can_be_drawn(strategies, format, strategy_pick, set_pick) && found
                    == #[trigger] selection(strategies, format, strategy_pick, set_pick);
            assert(self.settles(detail, strategy_pick, set_pick) == match found {
                Some(f) => Step::Done(f.0, f.1),
                None => Step::Draw(self.resolver),
            });
        }
        match found {
            Some(f) => Step::Done(f.0, f.1),
            None => Step::Draw(self.resolver),
        }
    }

    /// Takes the failure of the question.
    pub fn failed(self, error: reqwest::Error) -> (after: Step)
        ensures
            self.gives_up(error, after),
    {
        if self.fallback {
            Step::Failed(StratDexError::FetchError(error))
        } else {
            let alias = strip_mega(self.alias.as_str());
            Step::Fetch(Lookup { resolver: self.resolver, alias, fallback: true })
        }
    }

    /// Takes the reply of the dex, be it an answer or a failure.
    pub fn answered(self, reply: Result<PokemonResponse, reqwest::Error>) -> (after: Step)
        ensures
            self.answers(reply, after),
    {
        match reply {
            Ok(detail) => self.fetched(detail),
            Err(error) => self.failed(error),
        }
    }
}

impl Step {
    /// Whether the search is over.
    pub open spec fn is_final(self) -> bool {
        self is Done || self is Failed
    }

    /// The most steps that can still follow.
    pub open spec fn budget(self) -> int {
        match self {
            Step::Draw(resolver) => 3 * resolver.attempts_left + 1,
            Step::Fetch(lookup) => 3 * lookup.resolver.attempts_left + if lookup.fallback {
                2int
            } else {
                3int
            },
            _ => 0,
        }
    }

    /// The fewest steps after which the search can be exhausted.
    pub open spec fn floor(self) -> int {
        match self {
            Step::Draw(resolver) => 2 * resolver.attempts_left + 1,
            Step::Fetch(lookup) => 2 * lookup.resolver.attempts_left + 2,
            _ => 0,
        }
    }

    /// Whether a search that is still on looks for the given format.
    pub open spec fn searches_for(self, format: Option<String>) -> bool {
        match self {
            Step::Draw(resolver) => resolver.format == format,
            Step::Fetch(lookup) => lookup.resolver.format == format,
            _ => false,
        }
    }
}

/// Whether one step can follow another. After `Draw` nothing is asked, and
/// a draw follows; after `Fetch` the dex replies, and what the reply leads
/// to follows. Nothing follows `Done` or `Failed`.
pub open spec fn follows(
    before: Step,
    reply: Option<Result<PokemonResponse, reqwest::Error>>,
    after: Step,
    listing: BasicsResponse,
) -> bool {
    match before {
        Step::Draw(resolver) => reply is None && resolver.draws(listing, after),
        Step::Fetch(lookup) => reply matches Some(r) && lookup.answers(r, after),
        _ => false,
    }
}

/// A search as it went: the steps, and between each two of them what the
/// dex replied, if it was asked.
pub struct Run {
    pub steps: Seq<Step>,
    pub replies: Seq<Option<Result<PokemonResponse, reqwest::Error>>>,
}

impl Run {
    /// Whether each step follows the one before.
    pub open spec fn is_on(self, listing: BasicsResponse) -> bool {
        &&& self.steps.len() == self.replies.len() + 1
        &&& forall|i: int|
            0 <= i < self.replies.len() ==> follows(
                #[trigger] self.steps[i],
                self.replies[i],
                self.steps[i + 1],
                listing,
            )
    }

    /// Whether the search came to its end.
    pub open spec fn is_over(self) -> bool {
        self.steps.last().is_final()
    }

    /// Whether the dex answered every question.
    pub open spec fn never_fails(self) -> bool {
        forall|i: int|
            0 <= i < self.replies.len() ==> !(#[trigger] self.replies[i] matches Some(Err(_)))
    }

    /// Whether every answer of the dex offers a move set whatever is drawn
    /// from it.
    pub open spec fn always_offers(self, format: Option<Seq<char>>) -> bool {
        forall|i: int|
            0 <= i < self.replies.len() ==> (#[trigger] self.replies[i] matches Some(Ok(detail))
                ==> offers_every_time(detail.strategies@, format))
    }

    /// Whether no answer of the dex offers a move set.
    pub open spec fn never_offers(self, format: Option<Seq<char>>) -> bool {
        forall|i: int|
            0 <= i < self.replies.len() ==> (#[trigger] self.replies[i] matches Some(Ok(detail))
                ==> offers_nothing(detail.strategies@, format))
    }
}

/// Every creature that can be drawn is one of the listing and is marked as
/// standard.
pub proof fn lemma_drawn_creature_is_standard(listing: BasicsResponse, pick: int)
    requires
        0 <= pick < listing.spec_standard().len(),
    ensures
        listing.spec_standard()[pick].spec_is_standard(),
        listing.pokemon@.contains(listing.spec_standard()[pick]),
{
    let marked = |p: BasicsPokemon| p.spec_is_standard();
    listing.pokemon@.lemma_filter_pred(marked, pick);
    lemma_filtered_is_contained(listing.pokemon@, marked, pick);
}

/// Each step uses up some of the budget, keeps the format that is searched
/// for, and brings exhaustion nearer by one step at most.
pub proof fn lemma_step_spends_budget(
    before: Step,
    reply: Option<Result<PokemonResponse, reqwest::Error>>,
    after: Step,
    listing: BasicsResponse,
)
    requires
        follows(before, reply, after, listing),
    ensures
        0 <= after.budget() < before.budget(),
        after.floor() + 1 >= before.floor() || after is Done || (after matches Step::Failed(e)
            && !(e is ResolutionExhausted)),
        !after.is_final() ==> forall|format: Option<String>|
            before.searches_for(format) ==> after.searches_for(format),
{
}

/// How a search can end. A build that is found has the format asked for;
/// the search is exhausted only when no draw is left; the universe is
/// empty only when the listing has no standard creature; a failure of the
/// dex ends the search only on the second question about a creature.
pub proof fn lemma_last_step(
    before: Step,
    reply: Option<Result<PokemonResponse, reqwest::Error>>,
    after: Step,
    listing: BasicsResponse,
)
    requires
        follows(before, reply, after, listing),
        after.is_final(),
    ensures
        match after {
            Step::Done(format, move_set) => {
                &&& before matches Step::Fetch(lookup)
                &&& reply matches Some(Ok(detail))
                &&& exists|strategy_pick: int, set_pick: int|
                    #[trigger] selection(
                        detail.strategies@,
                        wanted(lookup.resolver.format),
                        strategy_pick,
                        set_pick,
                    ) == Some((format, move_set))
                &&& wanted(lookup.resolver.format) matches Some(f) ==> format@ == f
            },
            Step::Failed(StratDexError::ResolutionExhausted) => {
                &&& before matches Step::Draw(resolver)
                &&& resolver.attempts_left == 0
            },
            Step::Failed(StratDexError::EmptyUniverse) => {
                &&& before matches Step::Draw(resolver)
                &&& resolver.attempts_left > 0
                &&& listing.spec_standard().len() == 0
            },
            Step::Failed(StratDexError::FetchError(error)) => {
                &&& before matches Step::Fetch(lookup)
                &&& lookup.fallback
                &&& reply == Some(Err::<PokemonResponse, reqwest::Error>(error))
            },
            _ => false,
        },
{
    match before {
        Step::Fetch(lookup) => {
            if after is Done {
                let detail = reply->0->Ok_0;
                let (strategy_pick, set_pick) = choose|strategy_pick: int, set_pick: int|
                    can_be_drawn(
                        detail.strategies@,
                        wanted(lookup.resolver.format),
                        strategy_pick,
                        set_pick,
                    ) && after == #[trigger] lookup.settles(detail, strategy_pick, set_pick);
                lemma_selection_keeps_to_format(
                    detail.strategies@,
                    wanted(lookup.resolver.format),
                    strategy_pick,
                    set_pick,
                );
                let found = selection(
                    detail.strategies@,
                    wanted(lookup.resolver.format),
                    strategy_pick,
                    set_pick,
                )->0;
                assert(selection(
                    detail.strategies@,
                    wanted(lookup.resolver.format),
                    strategy_pick,
                    set_pick,
                ) == Some((found.0, found.1)));
            }
        },
        _ => {},
    }
}

/// A search that starts with a draw and has come to its end took no more
/// than three steps for each draw allowed. If it was exhausted, it took
/// two steps for each draw allowed at the least: every draw was made. If
/// it found a build, the build has the format asked for.
pub proof fn lemma_run_outcome(run: Run, listing: BasicsResponse, resolver: Resolver)
    requires
        run.is_on(listing),
        run.is_over(),
        run.steps[0] == Step::Draw(resolver),
    ensures
        run.replies.len() <= 3 * resolver.attempts_left + 1,
        match run.steps.last() {
            Step::Done(format, move_set) => wanted(resolver.format) matches Some(f) ==> format@
                == f,
            Step::Failed(StratDexError::ResolutionExhausted) => run.replies.len() >= 2
                * resolver.attempts_left + 1,
            Step::Failed(StratDexError::EmptyUniverse) => listing.spec_standard().len() == 0,
            Step::Failed(StratDexError::FetchError(_)) => !run.never_fails(),
            _ => false,
        },
{
    lemma_rest_of_run(run, listing, resolver.format, 0);
}

/// A search in which the dex answers every question, and every answer
/// offers a move set whatever is drawn from it, finds a build with its
/// first draw, if the listing has a standard creature and a draw is
/// allowed.
pub proof fn lemma_run_finds_what_is_offered(run: Run, listing: BasicsResponse, resolver: Resolver)
    requires
        run.is_on(listing),
        run.is_over(),
        run.steps[0] == Step::Draw(resolver),
        resolver.attempts_left > 0,
        listing.spec_standard().len() > 0,
        run.never_fails(),
        run.always_offers(wanted(resolver.format)),
    ensures
        run.steps.len() == 3,
        run.steps[1] is Fetch,
        run.steps[2] is Done,
{
    assert(follows(run.steps[0], run.replies[0], run.steps[1], listing));
    assert(run.steps[1] is Fetch);
    assert(follows(run.steps[1], run.replies[1], run.steps[2], listing));
    assert(!(run.replies[1] matches Some(Err(_))));
    assert(run.steps[2] is Done);
    if run.steps.len() > 3 {
        assert(follows(run.steps[2], run.replies[2], run.steps[3], listing));
    }
}

/// A search in which the dex answers every question, and no answer offers
/// a move set, makes every draw allowed and is then exhausted, if the
/// listing has a standard creature.
pub proof fn lemma_run_exhausted_when_nothing_is_offered(
    run: Run,
    listing: BasicsResponse,
    resolver: Resolver,
)
    requires
        run.is_on(listing),
        run.is_over(),
        run.steps[0] == Step::Draw(resolver),
        listing.spec_standard().len() > 0,
        run.never_fails(),
        run.never_offers(wanted(resolver.format)),
    ensures
        run.steps.last() == Step::Failed(StratDexError::ResolutionExhausted),
        run.replies.len() == 2 * resolver.attempts_left + 1,
{
    lemma_rest_is_exhausted(run, listing, resolver.format, 0);
}

proof fn lemma_rest_of_run(run: Run, listing: BasicsResponse, format: Option<String>, i: int)
    requires
        run.is_on(listing),
        run.is_over(),
        0 <= i < run.replies.len(),
        run.steps[i].searches_for(format),
    ensures
        run.replies.len() - i <= run.steps[i].budget(),
        match run.steps.last() {
            Step::Done(found, move_set) => wanted(format) matches Some(f) ==> found@ == f,
            Step::Failed(StratDexError::ResolutionExhausted) => run.replies.len() - i
                >= run.steps[i].floor(),
            Step::Failed(StratDexError::EmptyUniverse) => listing.spec_standard().len() == 0,
            Step::Failed(StratDexError::FetchError(_)) => !run.never_fails(),
            _ => false,
        },
    decreases run.replies.len() - i,
{
    assert(follows(run.steps[i], run.replies[i], run.steps[i + 1], listing));
    lemma_step_spends_budget(run.steps[i], run.replies[i], run.steps[i + 1], listing);
    if i + 1 == run.replies.len() {
        lemma_last_step(run.steps[i], run.replies[i], run.steps[i + 1], listing);
    } else {
        assert(follows(run.steps[i + 1], run.replies[i + 1], run.steps[i + 2], listing));
        lemma_rest_of_run(run, listing, format, i + 1);
    }
}

proof fn lemma_rest_is_exhausted(run: Run, listing: BasicsResponse, format: Option<String>, i: int)
    requires
        run.is_on(listing),
        run.is_over(),
        0 <= i < run.replies.len(),
        run.steps[i].searches_for(format),
        listing.spec_standard().len() > 0,
        run.never_fails(),
        run.never_offers(wanted(format)),
    ensures
        run.steps.last() == Step::Failed(StratDexError::ResolutionExhausted),
        run.replies.len() - i == run.steps[i].floor(),
    decreases run.replies.len() - i,
{
    assert(follows(run.steps[i], run.replies[i], run.steps[i + 1], listing));
    assert(!(run.replies[i] matches Some(Err(_))));
    if i + 1 < run.replies.len() {
        assert(follows(run.steps[i + 1], run.replies[i + 1], run.steps[i + 2], listing));
        lemma_rest_is_exhausted(run, listing, format, i + 1);
    }
}

} // verus!
