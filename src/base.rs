use vstd::prelude::*;
use crate::behavior::{Behavior, ProductionChange};
use crate::card::Card;
use crate::card_registry::{CardRegistry, card_index, lemma_card_index_none};
use crate::card_type::CardType;
use crate::ids::text;
use crate::tags::Tag;

verus! {

/// A production change of one resource only.
pub open spec fn only_change(mc: Option<i32>, steel: Option<i32>, heat: Option<i32>, energy: Option<
    i32,
>) -> ProductionChange {
    ProductionChange { megacredits: mc, steel, titanium: None, plants: None, energy, heat }
}

/// `c` is the automated card `id` named `name` with this cost and tags,
/// whose only effect is the production change `p`.
pub open spec fn production_card(
    c: Card,
    id: Seq<char>,
    name: Seq<char>,
    cost: u32,
    tags: Seq<Tag>,
    p: ProductionChange,
) -> bool {
    &&& c.id@ == id
    &&& c.name@ == name
    &&& c.cost == Some(cost)
    &&& c.tags@ == tags
    &&& c.card_type == CardType::Automated
    &&& c.resource_type is None
    &&& c.victory_points is None
    &&& c.requirements is None
    &&& c.behavior matches Some(b) && b.production == Some(p) && b.stock is None
        && b.standard_resource is None && b.add_resources is None && b.tr is None && b.global is None
        && b.city is None && b.greenery is None && b.ocean is None && b.tile is None
        && b.draw_cards is None && b.titanium_value is None && b.steel_value is None
}

/// Registers an automated card whose only effect is a production change.
fn register_production_card(
    registry: &mut CardRegistry,
    id: &str,
    name: &str,
    cost: u32,
    tags: Vec<Tag>,
    production: ProductionChange,
)
    ensures
        card_index(old(registry).entries(), id@) is None ==> final(registry).entries().len()
            == old(registry).entries().len() + 1 && final(registry).entries().drop_last() == old(
            registry,
        ).entries() && production_card(
            final(registry).entries().last(),
            id@,
            name@,
            cost,
            tags@,
            production,
        ),
        card_index(final(registry).entries(), id@) is Some,
        forall|x: Seq<char>|
            card_index(old(registry).entries(), x) is Some ==> #[trigger] card_index(
                final(registry).entries(),
                x,
            ) is Some,
{
    let mut behavior = Behavior::default();
    behavior.production = Some(production);
    let card = Card::new(text(id), text(name), CardType::Automated).with_cost(cost).with_tags(
        tags,
    ).with_behavior(behavior);
    registry.register(card);
    proof {
        if card_index(old(registry).entries(), id@) is None {
            assert(registry.entries().drop_last() =~= old(registry).entries());
        }
    }
}

fn energy(n: i32) -> (r: ProductionChange)
    ensures
        r == only_change(None, None, None, Some(n)),
{
    let mut c = ProductionChange::default();
    c.energy = Some(n);
    c
}

/// Registers the base game's simple automated cards. Into an empty
/// registry it puts exactly these seven, in this order.
pub fn register_base_game_automated_cards(registry: &mut CardRegistry)
    ensures
        card_index(final(registry).entries(), "power_plant"@) is Some,
        card_index(final(registry).entries(), "mining_area"@) is Some,
        card_index(final(registry).entries(), "building_industries"@) is Some,
        card_index(final(registry).entries(), "acquired_company"@) is Some,
        card_index(final(registry).entries(), "insulation"@) is Some,
        card_index(final(registry).entries(), "deep_well_heating"@) is Some,
        card_index(final(registry).entries(), "tectonic_stress_power"@) is Some,
        old(registry).entries().len() == 0 ==> {
            let e = final(registry).entries();
            &&& e.len() == 7
            &&& production_card(
                e[0],
                "power_plant"@,
                "Power Plant"@,
                4,
                seq![Tag::Building, Tag::Power],
                only_change(None, None, None, Some(1)),
            )
            &&& production_card(
                e[1],
                "mining_area"@,
                "Mining Area"@,
                4,
                seq![Tag::Building],
                only_change(None, Some(1), None, None),
            )
            &&& production_card(
                e[2],
                "building_industries"@,
                "Building Industries"@,
                6,
                seq![Tag::Building],
                only_change(None, Some(2), None, None),
            )
            &&& production_card(
                e[3],
                "acquired_company"@,
                "Acquired Company"@,
                10,
                seq![Tag::Earth],
                only_change(Some(3), None, None, None),
            )
            &&& production_card(
                e[4],
                "insulation"@,
                "Insulation"@,
                2,
                seq![Tag::Building],
                only_change(None, None, Some(2), None),
            )
            &&& production_card(
                e[5],
                "deep_well_heating"@,
                "Deep Well Heating"@,
                13,
                seq![Tag::Building, Tag::Power],
                only_change(None, None, None, Some(1)),
            )
            &&& production_card(
                e[6],
                "tectonic_stress_power"@,
                "Tectonic Stress Power"@,
                18,
                seq![Tag::Building, Tag::Power],
                only_change(None, None, None, Some(1)),
            )
        },
{
    proof {
        reveal_strlit("power_plant");
        reveal_strlit("mining_area");
        reveal_strlit("building_industries");
        reveal_strlit("acquired_company");
        reveal_strlit("insulation");
        reveal_strlit("deep_well_heating");
        reveal_strlit("tectonic_stress_power");
    }
    let ghost empty = registry.entries().len() == 0;
    proof {
        if empty {
            lemma_card_index_none(registry.entries(), "power_plant"@);
        }
    }
    register_production_card(
        registry,
        "power_plant",
        "Power Plant",
        4,
        vec![Tag::Building, Tag::Power],
        energy(1),
    );
    let ghost e1 = registry.entries();
    proof {
        if empty {
            assert(registry.entries().len() == 1);
            assert(registry.entries()[0].id@ == "power_plant"@);
            assert forall|j: int| 0 <= j < registry.entries().len() implies (#[trigger] registry.entries()[j]).id@ != "mining_area"@ by {
                assert(registry.entries()[j].id@[0] != "mining_area"@[0]);
            }
            lemma_card_index_none(registry.entries(), "mining_area"@);
        }
    }
    register_production_card(
        registry,
        "mining_area",
        "Mining Area",
        4,
        vec![Tag::Building],
        steel_change(1),
    );
    let ghost e2 = registry.entries();
    proof {
        if empty {
            assert(e2[0] == e1[0]);
            assert(registry.entries().len() == 2);
            assert(registry.entries()[0].id@ == "power_plant"@);
            assert(registry.entries()[1].id@ == "mining_area"@);
            assert forall|j: int| 0 <= j < registry.entries().len() implies (#[trigger] registry.entries()[j]).id@ != "building_industries"@ by {
                assert(registry.entries()[j].id@[0] != "building_industries"@[0]);
            }
            lemma_card_index_none(registry.entries(), "building_industries"@);
        }
    }
    register_production_card(
        registry,
        "building_industries",
        "Building Industries",
        6,
        vec![Tag::Building],
        steel_change(2),
    );
    let ghost e3 = registry.entries();
    proof {
        if empty {
            assert(e3[0] == e2[0] && e3[1] == e2[1]);
            assert(registry.entries().len() == 3);
            assert(registry.entries()[0].id@ == "power_plant"@);
            assert(registry.entries()[1].id@ == "mining_area"@);
            assert(registry.entries()[2].id@ == "building_industries"@);
            assert forall|j: int| 0 <= j < registry.entries().len() implies (#[trigger] registry.entries()[j]).id@ != "acquired_company"@ by {
                assert(registry.entries()[j].id@[0] != "acquired_company"@[0]);
            }
            lemma_card_index_none(registry.entries(), "acquired_company"@);
        }
    }
    let mut mc3 = ProductionChange::default();
    mc3.megacredits = Some(3);
    register_production_card(
        registry,
        "acquired_company",
        "Acquired Company",
        10,
        vec![Tag::Earth],
        mc3,
    );
    let ghost e4 = registry.entries();
    proof {
        if empty {
            assert(e4[0] == e3[0] && e4[1] == e3[1] && e4[2] == e3[2]);
            assert(registry.entries().len() == 4);
            assert(registry.entries()[0].id@ == "power_plant"@);
            assert(registry.entries()[1].id@ == "mining_area"@);
            assert(registry.entries()[2].id@ == "building_industries"@);
            assert(registry.entries()[3].id@ == "acquired_company"@);
            assert forall|j: int| 0 <= j < registry.entries().len() implies (#[trigger] registry.entries()[j]).id@ != "insulation"@ by {
                assert(registry.entries()[j].id@[0] != "insulation"@[0]);
            }
            lemma_card_index_none(registry.entries(), "insulation"@);
        }
    }
    let mut heat2 = ProductionChange::default();
    heat2.heat = Some(2);
    register_production_card(registry, "insulation", "Insulation", 2, vec![Tag::Building], heat2);
    let ghost e5 = registry.entries();
    proof {
        if empty {
            assert(e5[0] == e4[0] && e5[1] == e4[1] && e5[2] == e4[2] && e5[3] == e4[3]);
            assert(registry.entries().len() == 5);
            assert(registry.entries()[0].id@ == "power_plant"@);
            assert(registry.entries()[1].id@ == "mining_area"@);
            assert(registry.entries()[2].id@ == "building_industries"@);
            assert(registry.entries()[3].id@ == "acquired_company"@);
            assert(registry.entries()[4].id@ == "insulation"@);
            assert forall|j: int| 0 <= j < registry.entries().len() implies (#[trigger] registry.entries()[j]).id@ != "deep_well_heating"@ by {
                assert(registry.entries()[j].id@[0] != "deep_well_heating"@[0]);
            }
            lemma_card_index_none(registry.entries(), "deep_well_heating"@);
        }
    }
    register_production_card(
        registry,
        "deep_well_heating",
        "Deep Well Heating",
        13,
        vec![Tag::Building, Tag::Power],
        energy(1),
    );
    let ghost e6 = registry.entries();
    proof {
        if empty {
            assert(e6[0] == e5[0] && e6[1] == e5[1] && e6[2] == e5[2] && e6[3] == e5[3] && e6[4]
                == e5[4]);
            assert(registry.entries().len() == 6);
            assert(registry.entries()[0].id@ == "power_plant"@);
            assert(registry.entries()[1].id@ == "mining_area"@);
            assert(registry.entries()[2].id@ == "building_industries"@);
            assert(registry.entries()[3].id@ == "acquired_company"@);
            assert(registry.entries()[4].id@ == "insulation"@);
            assert(registry.entries()[5].id@ == "deep_well_heating"@);
            assert forall|j: int| 0 <= j < registry.entries().len() implies (#[trigger] registry.entries()[j]).id@ != "tectonic_stress_power"@ by {
                assert(registry.entries()[j].id@[0] != "tectonic_stress_power"@[0]);
            }
            lemma_card_index_none(registry.entries(), "tectonic_stress_power"@);
        }
    }
    register_production_card(
        registry,
        "tectonic_stress_power",
        "Tectonic Stress Power",
        18,
        vec![Tag::Building, Tag::Power],
        energy(1),
    );
    let ghost e7 = registry.entries();
    proof {
        if empty {
            assert(e7[0] == e6[0] && e7[1] == e6[1] && e7[2] == e6[2] && e7[3] == e6[3] && e7[4]
                == e6[4] && e7[5] == e6[5]);
            assert(e1.len() == 1);
            assert(e1[0] == e1.last());
            assert(e2.len() == 2);
            assert(e2[1] == e2.last());
            assert(e3.len() == 3);
            assert(e3[2] == e3.last());
            assert(e4.len() == 4);
            assert(e4[3] == e4.last());
            assert(e5.len() == 5);
            assert(e5[4] == e5.last());
            assert(e6.len() == 6);
            assert(e6[5] == e6.last());
            assert(e7.len() == 7);
            assert(e7[6] == e7.last());
            assert(e7[0] == e1[0]);
            assert(e7[1] == e2[1]);
            assert(e7[2] == e3[2]);
            assert(e7[3] == e4[3]);
            assert(e7[4] == e5[4]);
            assert(production_card(e1[0], "power_plant"@, "Power Plant"@, 4, seq![Tag::Building, Tag::Power], only_change(None, None, None, Some(1))));
            assert(e2.len() == 2);
            assert(e2[1] == e2.last());
            assert(e2[1].id@ == "mining_area"@);
            assert(e2[1].tags@ == seq![Tag::Building]);
            assert(e2[1].cost == Some(4u32));
            assert(e2[1].behavior.unwrap().production == Some(only_change(None, Some(1), None, None)));
            assert(production_card(e2[1], "mining_area"@, "Mining Area"@, 4, seq![Tag::Building], only_change(None, Some(1), None, None)));
            assert(e4[3].id@ == "acquired_company"@);
            assert(e4[3].name@ == "Acquired Company"@);
            assert(e4[3].tags@ == seq![Tag::Earth]);
            assert(e4[3].cost == Some(10u32));
            assert(e4[3].behavior.unwrap().production == Some(only_change(Some(3), None, None, None)));
            assert(production_card(e4[3], "acquired_company"@, "Acquired Company"@, 10, seq![Tag::Earth], only_change(Some(3), None, None, None)));
            assert(production_card(e5[4], "insulation"@, "Insulation"@, 2, seq![Tag::Building], only_change(None, None, Some(2), None)));
        }
    }
}

fn steel_change(n: i32) -> (r: ProductionChange)
    ensures
        r == only_change(None, Some(n), None, None),
{
    let mut c = ProductionChange::default();
    c.steel = Some(n);
    c
}

} // verus!
