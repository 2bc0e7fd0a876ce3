//! What the dex tells about one creature: its strategies, their move sets,
//! and the export text of a move set.

use crate::generation::Generation;
use crate::spread::compress_spreads;
use crate::spread::compressed_all;
use crate::spread::each_compressed;
use crate::spread::StatSpread;
use crate::spread::EV_DEFAULT;
use crate::spread::IV_DEFAULT;
use crate::text::join;
use crate::text::joined;
use vstd::prelude::*;
use vstd::string::*;

verus! {

/// The question put to the dex about one creature.
#[derive(Copy, Clone, Debug)]
pub struct PokemonRequest<'a> {
    pub gen: Generation,
    pub alias: &'a str,
    pub language: &'static str,
}

/// The answer of the dex about one creature.
#[derive(Clone, Debug)]
pub struct PokemonResponse {
    pub languages: Vec<String>,
    pub learnset: Vec<String>,
    pub strategies: Vec<Strategy>,
}

/// The recommended ways to play a creature in one format.
#[derive(Clone, Debug)]
pub struct Strategy {
    pub format: String,
    pub overview: String,
    pub comments: String,
    pub move_sets: Vec<MoveSet>,
    pub credits: Credits,
}

/// One recommended build: items, abilities, spreads, natures and moves.
#[derive(Clone, Debug, PartialEq)]
pub struct MoveSet {
    pub name: String,
    pub pokemon: String,
    pub shiny: bool,
    pub gender: String,
    pub description: String,
    pub abilities: Vec<String>,
    pub items: Vec<String>,
    pub tera_types: Vec<String>,
    pub move_slots: Vec<Vec<MoveSlot>>,
    pub ev_configs: Vec<EvConfig>,
    pub iv_configs: Vec<IvConfig>,
    pub natures: Vec<String>,
}

/// One of the moves that may fill a slot, with the type it takes on if that
/// is open.
#[derive(Clone, Debug, PartialEq)]
pub struct MoveSlot {
    pub move_name: String,
    pub move_type: Option<String>,
}

/// Effort values: a stat left alone has 0.
#[derive(Debug, Copy, Clone, PartialEq)]
pub struct EvConfig {
    pub hp: u8,
    pub atk: u8,
    pub def: u8,
    pub spa: u8,
    pub spd: u8,
    pub spe: u8,
}

/// Individual values: a stat left alone has 31.
#[derive(Debug, Copy, Clone, PartialEq)]
pub struct IvConfig {
    pub hp: u8,
    pub atk: u8,
    pub def: u8,
    pub spa: u8,
    pub spd: u8,
    pub spe: u8,
}

/// Who wrote a strategy and who checked it.
#[derive(Clone, Debug)]
pub struct Credits {
    pub teams: Vec<Team>,
    pub written_by: Vec<Member>,
}

/// A named group of contributors.
#[derive(Clone, Debug)]
pub struct Team {
    pub name: String,
    pub members: Vec<Member>,
}

/// One contributor.
#[derive(Clone, Debug)]
pub struct Member {
    pub user_id: Option<usize>,
    pub username: String,
}

impl EvConfig {
    /// The six values as a spread.
    pub open spec fn spec_spread(self) -> StatSpread {
        StatSpread {
            hp: self.hp,
            atk: self.atk,
            def: self.def,
            spa: self.spa,
            spd: self.spd,
            spe: self.spe,
        }
    }

    /// The six values as a spread.
    pub fn spread(&self) -> (spread: StatSpread)
        ensures
            spread == self.spec_spread(),
    {
        StatSpread {
            hp: self.hp,
            atk: self.atk,
            def: self.def,
            spa: self.spa,
            spd: self.spd,
            spe: self.spe,
        }
    }
}

impl IvConfig {
    /// The six values as a spread.
    pub open spec fn spec_spread(self) -> StatSpread {
        StatSpread {
            hp: self.hp,
            atk: self.atk,
            def: self.def,
            spa: self.spa,
            spd: self.spd,
            spe: self.spe,
        }
    }

    /// The six values as a spread.
    pub fn spread(&self) -> (spread: StatSpread)
        ensures
            spread == self.spec_spread(),
    {
        StatSpread {
            hp: self.hp,
            atk: self.atk,
            def: self.def,
            spa: self.spa,
            spd: self.spd,
            spe: self.spe,
        }
    }
}

/// What a move slot entry says, as plain text.
pub struct MoveSlotView {
    pub move_name: Seq<char>,
    pub move_type: Option<Seq<char>>,
}

impl View for MoveSlot {
    type V = MoveSlotView;

    open spec fn view(&self) -> MoveSlotView {
        MoveSlotView {
            move_name: self.move_name@,
            move_type: match self.move_type {
                Some(t) => Some(t@),
                None => None,
            },
        }
    }
}

impl DeepView for MoveSlot {
    type V = MoveSlotView;

    open spec fn deep_view(&self) -> MoveSlotView {
        self@
    }
}

/// What a move set says, as plain text and numbers.
pub struct MoveSetView {
    pub name: Seq<char>,
    pub pokemon: Seq<char>,
    pub shiny: bool,
    pub gender: Seq<char>,
    pub description: Seq<char>,
    pub abilities: Seq<Seq<char>>,
    pub items: Seq<Seq<char>>,
    pub tera_types: Seq<Seq<char>>,
    pub move_slots: Seq<Seq<MoveSlotView>>,
    pub ev_configs: Seq<StatSpread>,
    pub iv_configs: Seq<StatSpread>,
    pub natures: Seq<Seq<char>>,
}

impl View for MoveSet {
    type V = MoveSetView;

    open spec fn view(&self) -> MoveSetView {
        MoveSetView {
            name: self.name@,
            pokemon: self.pokemon@,
            shiny: self.shiny,
            gender: self.gender@,
            description: self.description@,
            abilities: self.abilities.deep_view(),
            items: self.items.deep_view(),
            tera_types: self.tera_types.deep_view(),
            move_slots: self.move_slots.deep_view(),
            ev_configs: Seq::new(
                self.ev_configs@.len(),
                |i: int| self.ev_configs@[i].spec_spread(),
            ),
            iv_configs: Seq::new(
                self.iv_configs@.len(),
                |i: int| self.iv_configs@[i].spec_spread(),
            ),
            natures: self.natures.deep_view(),
        }
    }
}

impl DeepView for MoveSet {
    type V = MoveSetView;

    open spec fn deep_view(&self) -> MoveSetView {
        self@
    }
}

impl MoveSlotView {
    /// The name of the move, followed by a space and its type if it has one.
    pub open spec fn text(self) -> Seq<char> {
        match self.move_type {
            Some(t) => self.move_name + " "@ + t,
            None => self.move_name,
        }
    }
}

/// The text of each alternative of one slot.
pub open spec fn slot_texts(group: Seq<MoveSlotView>) -> Seq<Seq<char>> {
    Seq::new(group.len(), |i: int| group[i].text())
}

/// The line of one slot: its alternatives with `" / "` between them.
pub open spec fn slot_line(group: Seq<MoveSlotView>) -> Seq<char> {
    "- "@ + joined(slot_texts(group), " / "@) + "\n"@
}

/// The lines of the slots, one after another.
pub open spec fn slot_lines(groups: Seq<Seq<MoveSlotView>>) -> Seq<char>
    decreases groups.len(),
{
    if groups.len() == 0 {
        Seq::empty()
    } else {
        slot_lines(groups.drop_last()) + slot_line(groups.last())
    }
}

impl MoveSetView {
    /// The first line: the creature and what it holds. It is written even
    /// when it holds nothing.
    pub open spec fn header(self) -> Seq<char> {
        self.pokemon + " @ "@ + joined(self.items, " / "@) + "\n"@
    }

    /// The effort values in short notation.
    pub open spec fn ev_text(self) -> Seq<char> {
        compressed_all(self.ev_configs, EV_DEFAULT)
    }

    /// The individual values in short notation.
    pub open spec fn iv_text(self) -> Seq<char> {
        compressed_all(self.iv_configs, IV_DEFAULT)
    }

    /// The line of the abilities, with `" / "` between them; nothing when
    /// there is none.
    pub open spec fn ability_line(self) -> Seq<char> {
        if self.abilities.len() == 0 {
            Seq::empty()
        } else {
            "Ability: "@ + joined(self.abilities, " / "@) + "\n"@
        }
    }

    /// The line of the tera types, with `" / "` between them; nothing when
    /// there is none.
    pub open spec fn tera_line(self) -> Seq<char> {
        if self.tera_types.len() == 0 {
            Seq::empty()
        } else {
            "Tera Type: "@ + joined(self.tera_types, " / "@) + "\n"@
        }
    }

    /// The line of the effort values; nothing when their short notation is
    /// empty.
    pub open spec fn ev_line(self) -> Seq<char> {
        if self.ev_text().len() == 0 {
            Seq::empty()
        } else {
            "EVs: "@ + self.ev_text() + "\n"@
        }
    }

    /// The line of the individual values; nothing when their short notation
    /// is empty.
    pub open spec fn iv_line(self) -> Seq<char> {
        if self.iv_text().len() == 0 {
            Seq::empty()
        } else {
            "IVs: "@ + self.iv_text() + "\n"@
        }
    }

    /// The line of the natures, with `" / "` between them; nothing when
    /// there is none.
    pub open spec fn nature_line(self) -> Seq<char> {
        if self.natures.len() == 0 {
            Seq::empty()
        } else {
            joined(self.natures, " / "@) + " Nature"@ + "\n"@
        }
    }

    /// The export text of the move set: the header, the lines of what there
    /// is, and a line for each move slot.
    pub open spec fn rendered(self) -> Seq<char> {
        self.header() + self.ability_line() + self.tera_line() + self.ev_line() + self.iv_line()
            + self.nature_line() + slot_lines(self.move_slots)
    }
}

/// The export text is settled by the creature, the items, the abilities,
/// the tera types, the spreads, the natures and the move slots: two move
/// sets that agree in these are written alike, whatever else they hold.
pub proof fn lemma_rendered_reads_the_build_alone(a: MoveSet, b: MoveSet)
    requires
        a@.pokemon == b@.pokemon,
        a@.items == b@.items,
        a@.abilities == b@.abilities,
        a@.tera_types == b@.tera_types,
        a@.ev_configs == b@.ev_configs,
        a@.iv_configs == b@.iv_configs,
        a@.natures == b@.natures,
        a@.move_slots == b@.move_slots,
    ensures
        a@.rendered() == b@.rendered(),
{
}

/// A move set without abilities, tera types, spreads and natures is
/// written as its header and the lines of its move slots, nothing between.
pub proof fn lemma_bare_build_is_header_and_slots(build: MoveSetView)
    requires
        build.abilities.len() == 0,
        build.tera_types.len() == 0,
        build.ev_configs.len() == 0,
        build.iv_configs.len() == 0,
        build.natures.len() == 0,
    ensures
        build.rendered() == build.header() + slot_lines(build.move_slots),
{
    assert(each_compressed(build.ev_configs, EV_DEFAULT) =~= Seq::<Seq<char>>::empty());
    assert(each_compressed(build.iv_configs, IV_DEFAULT) =~= Seq::<Seq<char>>::empty());
    assert(build.ev_text() =~= Seq::<char>::empty());
    assert(build.iv_text() =~= Seq::<char>::empty());
    assert(build.rendered() =~= build.header() + slot_lines(build.move_slots));
}

/// Writes one alternative of a slot.
fn slot_text(slot: &MoveSlot) -> (out: String)
    ensures
        out@ == slot@.text(),
{
    let mut out = slot.move_name.clone();
    match &slot.move_type {
        Some(t) => {
            out.append(" ");
            out.append(t.as_str());
        },
        None => {},
    }
    out
}

/// Appends the line of one slot.
fn push_slot_line(out: &mut String, group: &Vec<MoveSlot>)
    ensures
        final(out)@ == old(out)@ + slot_line(group.deep_view()),
{
    let mut texts: Vec<String> = Vec::new();
    let mut i: usize = 0;
    while i < group.len()
        invariant
            i <= group.len(),
            texts.deep_view() == slot_texts(group.deep_view().take(i as int)),
        decreases group.len() - i,
    {
        let text = slot_text(&group[i]);
        let ghost before = texts.deep_view();
        texts.push(text);
        i += 1;
        proof {
            assert(texts.deep_view() =~= before.push(text@));
            assert(group.deep_view().take(i as int).drop_last() =~= group.deep_view().take(i - 1));
            assert(before.push(text@) =~= slot_texts(group.deep_view().take(i as int)));
        }
    }
    assert(group.deep_view().take(group.len() as int) =~= group.deep_view());
    let line = join(&texts, " / ");
    let ghost start = out@;
    out.append("- ");
    out.append(line.as_str());
    out.append("\n");
    assert(out@ =~= start + slot_line(group.deep_view()));
}

/// Appends a line made of a label, a body and an ending, unless it is to
/// be left out.
fn push_line(out: &mut String, label: &str, body: &str, ending: &str, present: bool)
    ensures
        present ==> final(out)@ == old(out)@ + (label@ + body@ + ending@ + "\n"@),
        !present ==> final(out)@ == old(out)@,
{
    let ghost start = out@;
    if present {
        out.append(label);
        out.append(body);
        out.append(ending);
        out.append("\n");
        assert(out@ =~= start + (label@ + body@ + ending@ + "\n"@));
    }
}

impl MoveSet {
    /// The effort values as spreads.
    fn ev_spreads(&self) -> (spreads: Vec<StatSpread>)
        ensures
            spreads@ == self@.ev_configs,
    {
        let mut spreads: Vec<StatSpread> = Vec::new();
        let mut i: usize = 0;
        while i < self.ev_configs.len()
            invariant
                i <= self.ev_configs.len(),
                spreads@ == self@.ev_configs.take(i as int),
            decreases self.ev_configs.len() - i,
        {
            spreads.push(self.ev_configs[i].spread());
            i += 1;
            assert(spreads@ =~= self@.ev_configs.take(i as int));
        }
        assert(self@.ev_configs.take(self.ev_configs.len() as int) =~= self@.ev_configs);
        spreads
    }

    /// The individual values as spreads.
    fn iv_spreads(&self) -> (spreads: Vec<StatSpread>)
        ensures
            spreads@ == self@.iv_configs,
    {
        let mut spreads: Vec<StatSpread> = Vec::new();
        let mut i: usize = 0;
        while i < self.iv_configs.len()
            invariant
                i <= self.iv_configs.len(),
                spreads@ == self@.iv_configs.take(i as int),
            decreases self.iv_configs.len() - i,
        {
            spreads.push(self.iv_configs[i].spread());
            i += 1;
            assert(spreads@ =~= self@.iv_configs.take(i as int));
        }
        assert(self@.iv_configs.take(self.iv_configs.len() as int) =~= self@.iv_configs);
        spreads
    }

    /// The effort values in short notation: of each spread the stats that
    /// are not 0, and `" | "` between the spreads.
    pub fn get_ev_configs(&self) -> (out: String)
        ensures
            out@ == self@.ev_text(),
    {
        let spreads = self.ev_spreads();
        compress_spreads(&spreads, EV_DEFAULT)
    }

    /// The individual values in short notation: of each spread the stats
    /// that are not 31, and `" | "` between the spreads.
    pub fn get_iv_configs(&self) -> (out: String)
        ensures
            out@ == self@.iv_text(),
    {
        let spreads = self.iv_spreads();
        compress_spreads(&spreads, IV_DEFAULT)
    }

    /// The export text of the move set: the header, then a line each for
    /// abilities, tera types, effort values, individual values and natures
    /// where there are any, then a line for each move slot.
    pub fn render(&self) -> (out: String)
        ensures
            out@ == self@.rendered(),
    {
        proof {
            reveal_strlit("");
            assert(""@ =~= Seq::<char>::empty());
        }
        let mut out = self.pokemon.clone();
        out.append(" @ ");
        let items = join(&self.items, " / ");
        out.append(items.as_str());
        out.append("\n");
        assert(out@ =~= self@.header());

        let abilities = join(&self.abilities, " / ");
        push_line(&mut out, "Ability: ", abilities.as_str(), "", self.abilities.len() > 0);
        assert(out@ =~= self@.header() + self@.ability_line());

        let tera_types = join(&self.tera_types, " / ");
        push_line(&mut out, "Tera Type: ", tera_types.as_str(), "", self.tera_types.len() > 0);
        assert(out@ =~= self@.header() + self@.ability_line() + self@.tera_line());

        let evs = self.get_ev_configs();
        push_line(&mut out, "EVs: ", evs.as_str(), "", !evs.as_str().is_empty());
        assert(out@ =~= self@.header() + self@.ability_line() + self@.tera_line()
            + self@.ev_line());

        let ivs = self.get_iv_configs();
        push_line(&mut out, "IVs: ", ivs.as_str(), "", !ivs.as_str().is_empty());
        assert(out@ =~= self@.header() + self@.ability_line() + self@.tera_line() + self@.ev_line()
            + self@.iv_line());

        let natures = join(&self.natures, " / ");
        push_line(&mut out, "", natures.as_str(), " Nature", self.natures.len() > 0);
        assert(out@ =~= self@.header() + self@.ability_line() + self@.tera_line() + self@.ev_line()
            + self@.iv_line() + self@.nature_line());

        let ghost head = out@;
        let mut i: usize = 0;
        while i < self.move_slots.len()
            invariant
                i <= self.move_slots.len(),
                out@ == head + slot_lines(self@.move_slots.take(i as int)),
            decreases self.move_slots.len() - i,
        {
            push_slot_line(&mut out, &self.move_slots[i]);
            i += 1;
            proof {
                let shown = self@.move_slots.take(i as int);
                assert(shown.drop_last() =~= self@.move_slots.take(i - 1));
                assert(shown.last() == self.move_slots[i - 1].deep_view());
                assert(out@ =~= head + slot_lines(shown));
            }
        }
        assert(self@.move_slots.take(self.move_slots.len() as int) =~= self@.move_slots);
        out
    }
}

} // verus!
