use vstd::prelude::*;
use crate::action::Action;
use crate::awards::{AwardData, FundedAward};
use crate::error::GameError;
use crate::game::Game;
use crate::global_params::{GlobalParameter, Levels};
use crate::action::{StandardProjectParams, StandardProjectType};
use crate::ids::{contains_text, first_index, holds_text, text};
use crate::milestones::{ClaimedMilestone, MilestoneData};
use crate::payment::{Payment, PaymentMethod, PaymentReserve, methods_worth};
use crate::player::Player;
use crate::resources::{Resource, Resources, cap_u32, sub_floor};
use crate::standard_actions::{StandardActions, after_convert_heat, after_convert_plants};
use crate::standard_projects::{
    StandardProjectEffect,
    StandardProjects,
    project_applied,
    project_check,
    project_result,
    project_cost,
    project_effect,
};

verus! {

/// The reserve leaves enough of every reserved resource.
pub open spec fn reserve_ok(reserve: PaymentReserve, r: Resources) -> bool {
    &&& r.megacredits >= reserve.megacredits
    &&& r.steel >= reserve.steel
    &&& r.titanium >= reserve.titanium
    &&& r.heat >= reserve.heat
    &&& r.plants >= reserve.plants
}

/// The check of one payment method against the stock above the reserve.
pub open spec fn method_check(
    m: PaymentMethod,
    reserve: PaymentReserve,
    r: Resources,
    is_building_tag: bool,
    is_space_tag: bool,
) -> Result<(), GameError> {
    match m {
        PaymentMethod::MegaCredits(a) => if sub_floor(r.megacredits as int, reserve.megacredits as int)
            < a {
            Err(GameError::InsufficientResource)
        } else {
            Ok(())
        },
        PaymentMethod::Steel(a) => if !is_building_tag {
            Err(GameError::InvalidPayment)
        } else if sub_floor(r.steel as int, reserve.steel as int) < a {
            Err(GameError::InsufficientResource)
        } else {
            Ok(())
        },
        PaymentMethod::Titanium(a) => if !is_space_tag {
            Err(GameError::InvalidPayment)
        } else if sub_floor(r.titanium as int, reserve.titanium as int) < a {
            Err(GameError::InsufficientResource)
        } else {
            Ok(())
        },
        PaymentMethod::Heat(a) => if sub_floor(r.heat as int, reserve.heat as int) < a {
            Err(GameError::InsufficientResource)
        } else {
            Ok(())
        },
        PaymentMethod::Plants(a) => if !is_building_tag {
            Err(GameError::InvalidPayment)
        } else if sub_floor(r.plants as int, reserve.plants as int) < a {
            Err(GameError::InsufficientResource)
        } else {
            Ok(())
        },
    }
}

/// The first failing method check, in order.
pub open spec fn methods_check(
    ms: Seq<PaymentMethod>,
    reserve: PaymentReserve,
    r: Resources,
    is_building_tag: bool,
    is_space_tag: bool,
) -> Result<(), GameError>
    decreases ms.len(),
{
    if ms.len() == 0 {
        Ok(())
    } else {
        match methods_check(ms.drop_last(), reserve, r, is_building_tag, is_space_tag) {
            Err(e) => Err(e),
            Ok(_) => method_check(ms.last(), reserve, r, is_building_tag, is_space_tag),
        }
    }
}

/// The validation of a payment against a stock.
pub open spec fn payment_check(p: Payment, r: Resources, is_building_tag: bool, is_space_tag: bool) -> Result<
    (),
    GameError,
> {
    if !reserve_ok(p.reserve, r) {
        Err(GameError::InsufficientResource)
    } else {
        methods_check(p.methods@, p.reserve, r, is_building_tag, is_space_tag)
    }
}

/// The validation of a payment that must be worth at least `required`.
pub open spec fn cost_check(
    p: Payment,
    r: Resources,
    required: int,
    is_building_tag: bool,
    is_space_tag: bool,
) -> Result<(), GameError> {
    if cap_u32(methods_worth(p.methods@, is_building_tag, is_space_tag)) < required {
        Err(GameError::InsufficientResource)
    } else {
        payment_check(p, r, is_building_tag, is_space_tag)
    }
}

/// The stock after paying with `ms`.
pub open spec fn paid(r: Resources, ms: Seq<PaymentMethod>, is_building_tag: bool, is_space_tag: bool) -> Resources
    decreases ms.len(),
{
    if ms.len() == 0 {
        r
    } else {
        let before = paid(r, ms.drop_last(), is_building_tag, is_space_tag);
        match ms.last() {
            PaymentMethod::MegaCredits(a) => before.subtracted(Resource::Megacredits, a as int),
            PaymentMethod::Steel(a) => if is_building_tag {
                before.subtracted(Resource::Steel, a as int)
            } else {
                before
            },
            PaymentMethod::Titanium(a) => if is_space_tag {
                before.subtracted(Resource::Titanium, a as int)
            } else {
                before
            },
            PaymentMethod::Heat(a) => before.subtracted(Resource::Heat, a as int),
            PaymentMethod::Plants(a) => if is_building_tag {
                before.subtracted(Resource::Plants, a as int)
            } else {
                before
            },
        }
    }
}

/// A cost read as currency: negative costs count as zero.
pub open spec fn cost_amount(c: i32) -> int {
    if c < 0 {
        0
    } else {
        c as int
    }
}

/// The first award named `name`.
pub open spec fn award_index(awards: Seq<AwardData>, name: Seq<char>) -> Option<int> {
    if exists|i: int| 0 <= i < awards.len() && (#[trigger] awards[i]).name@ == name {
        Some(
            choose|i: int|
                0 <= i < awards.len() && (#[trigger] awards[i]).name@ == name && forall|j: int|
                    0 <= j < i ==> (#[trigger] awards[j]).name@ != name,
        )
    } else {
        None
    }
}

/// The first milestone named `name`.
pub open spec fn milestone_index(ms: Seq<MilestoneData>, name: Seq<char>) -> Option<int> {
    if exists|i: int| 0 <= i < ms.len() && (#[trigger] ms[i]).name@ == name {
        Some(
            choose|i: int|
                0 <= i < ms.len() && (#[trigger] ms[i]).name@ == name && forall|j: int|
                    0 <= j < i ==> (#[trigger] ms[j]).name@ != name,
        )
    } else {
        None
    }
}

pub open spec fn award_funded(g: Game, name: Seq<char>) -> bool {
    exists|i: int|
        0 <= i < g.funded_awards@.len() && (#[trigger] g.funded_awards@[i]).award_name@ == name
}

pub open spec fn milestone_claimed(g: Game, name: Seq<char>) -> bool {
    exists|i: int|
        0 <= i < g.claimed_milestones@.len() && (#[trigger] g.claimed_milestones@[i]).milestone_name@
            == name
}

/// The check of playing card `card_id` with `payment`.
pub open spec fn play_card_check(p: Player, card_id: String, payment: Payment) -> Result<(), GameError> {
    if !holds_text(p.cards_in_hand@, card_id@) {
        Err(GameError::NotFound)
    } else {
        payment_check(payment, p.resources, false, false)
    }
}

/// Whether `action` may be executed by the player with id `pid` in `g`.
pub open spec fn action_check(action: Action, g: Game, pid: Seq<char>) -> Result<(), GameError> {
    match g.seat_of(pid) {
        None => Err(GameError::NotFound),
        Some(i) => {
            let p = g.players@[i];
            match action {
                Action::PlayCard { card_id, payment } => play_card_check(p, card_id, payment),
                Action::StandardProject { project_type, payment, params } => match project_check(
                    project_type,
                    p,
                    params,
                ) {
                    Err(e) => Err(e),
                    Ok(_) => if project_result(project_type, p, params) is Err {
                        Err(GameError::InvalidSelection)
                    } else {
                        cost_check(
                        payment,
                        p.resources,
                            project_cost(project_type) as int,
                            false,
                            false,
                        )
                    },
                },
                Action::Pass => Ok(()),
                Action::ConvertPlants => if p.resources.plants >= 8 {
                    Ok(())
                } else {
                    Err(GameError::InsufficientResource)
                },
                Action::ConvertHeat => if p.resources.heat >= 8 {
                    Ok(())
                } else {
                    Err(GameError::InsufficientResource)
                },
                Action::FundAward { award_id, payment } => match award_index(
                    g.awards@,
                    award_id@,
                ) {
                    None => Err(GameError::NotFound),
                    Some(k) => if award_funded(g, award_id@) {
                        Err(GameError::AlreadyFunded)
                    } else {
                        cost_check(
                            payment,
                            p.resources,
                            cost_amount(g.awards@[k].funding_cost),
                            false,
                            false,
                        )
                    },
                },
                Action::ClaimMilestone { milestone_id, payment } => match milestone_index(
                    g.milestones@,
                    milestone_id@,
                ) {
                    None => Err(GameError::NotFound),
                    Some(k) => if milestone_claimed(g, milestone_id@) {
                        Err(GameError::AlreadyClaimed)
                    } else {
                        cost_check(
                            payment,
                            p.resources,
                            cost_amount(g.milestones@[k].cost),
                            false,
                            false,
                        )
                    },
                },
            }
        },
    }
}

/// `g1` is `g0` with the player in seat `i` replaced by `q` and, possibly,
/// the global parameters changed.
pub open spec fn only_player_and_params(g0: Game, g1: Game, i: int, q: Player) -> bool {
    &&& g1 == (Game { players: g1.players, global_parameters: g1.global_parameters, ..g0 })
    &&& g1.players@ == g0.players@.update(i, q)
}

/// Playing card `card_id` by the player in seat `i`: the payment leaves
/// the stock, the card moves from hand to the played cards.
pub open spec fn play_card_applied(card_id: String, payment: Payment, g0: Game, i: int, g1: Game) -> bool {
    let p = g0.players@[i];
    let q = g1.players@[i];
    &&& only_player_and_params(g0, g1, i, q)
    &&& g1.global_parameters@ == g0.global_parameters@
    &&& q == (Player {
        resources: paid(p.resources, payment.methods@, false, false),
        cards_in_hand: q.cards_in_hand,
        played_cards: q.played_cards,
        ..p
    })
    &&& q.cards_in_hand@ == p.cards_in_hand@.remove(first_index(p.cards_in_hand@, card_id@).unwrap())
    &&& q.played_cards@ == p.played_cards@.push(card_id)
}

/// The global parameters after a standard project's effect.
pub open spec fn params_after_effect(l: Levels, e: StandardProjectEffect) -> Levels {
    match e {
        StandardProjectEffect::RaiseTemperature { steps } => l.increased(
            GlobalParameter::Temperature,
            steps as nat,
        ),
        StandardProjectEffect::PlaceOcean => l.increased(GlobalParameter::Oceans, 1),
        StandardProjectEffect::PlaceGreenery => l.increased(GlobalParameter::Oxygen, 1),
        _ => l,
    }
}

/// A standard project by the player in seat `i`: the payment leaves the
/// stock, the project changes the player, and its effect the parameters.
pub open spec fn project_applied_to_game(
    t: StandardProjectType,
    payment: Payment,
    sp: StandardProjectParams,
    g0: Game,
    i: int,
    g1: Game,
) -> bool {
    let p = g0.players@[i];
    let q = g1.players@[i];
    &&& only_player_and_params(g0, g1, i, q)
    &&& project_applied(
        t,
        Player { resources: paid(p.resources, payment.methods@, false, false), ..p },
        sp,
        q,
    )
    &&& g1.global_parameters@ == params_after_effect(g0.global_parameters@, project_effect(t))
}

/// Convert Plants (`plants`) or Convert Heat by the player in seat `i`.
pub open spec fn conversion_applied(g0: Game, i: int, g1: Game, plants: bool) -> bool {
    let p = g0.players@[i];
    if plants {
        &&& only_player_and_params(g0, g1, i, after_convert_plants(p))
        &&& g1.global_parameters@ == g0.global_parameters@.increased(GlobalParameter::Oxygen, 1)
    } else {
        &&& only_player_and_params(g0, g1, i, after_convert_heat(p))
        &&& g1.global_parameters@ == g0.global_parameters@
    }
}

/// Funding award `award_id` by the player in seat `i`.
pub open spec fn fund_applied(award_id: String, payment: Payment, g0: Game, i: int, g1: Game) -> bool {
    let p = g0.players@[i];
    &&& g1 == (Game { players: g1.players, funded_awards: g1.funded_awards, ..g0 })
    &&& g1.players@ == g0.players@.update(
        i,
        Player { resources: paid(p.resources, payment.methods@, false, false), ..p },
    )
    &&& g1.funded_awards@.len() == g0.funded_awards@.len() + 1
    &&& g1.funded_awards@.drop_last() == g0.funded_awards@
    &&& g1.funded_awards@.last().player_id@ == p.id@
    &&& g1.funded_awards@.last().award_name == award_id
}

/// Claiming milestone `milestone_id` by the player in seat `i`.
pub open spec fn claim_applied(milestone_id: String, payment: Payment, g0: Game, i: int, g1: Game) -> bool {
    let p = g0.players@[i];
    &&& g1 == (Game { players: g1.players, claimed_milestones: g1.claimed_milestones, ..g0 })
    &&& g1.players@ == g0.players@.update(
        i,
        Player { resources: paid(p.resources, payment.methods@, false, false), ..p },
    )
    &&& g1.claimed_milestones@.len() == g0.claimed_milestones@.len() + 1
    &&& g1.claimed_milestones@.drop_last() == g0.claimed_milestones@
    &&& g1.claimed_milestones@.last().player_id@ == p.id@
    &&& g1.claimed_milestones@.last().milestone_name == milestone_id
}

/// How a checked `action` by the player in seat `i` turns `g0` into `g1`.
pub open spec fn action_applied(action: Action, g0: Game, i: int, g1: Game) -> bool {
    match action {
        Action::PlayCard { card_id, payment } => play_card_applied(card_id, payment, g0, i, g1),
        Action::StandardProject { project_type, payment, params: sp } => project_applied_to_game(
            project_type,
            payment,
            sp,
            g0,
            i,
            g1,
        ),
        Action::Pass => g1 == g0,
        Action::ConvertPlants => conversion_applied(g0, i, g1, true),
        Action::ConvertHeat => conversion_applied(g0, i, g1, false),
        Action::FundAward { award_id, payment } => fund_applied(award_id, payment, g0, i, g1),
        Action::ClaimMilestone { milestone_id, payment } => claim_applied(
            milestone_id,
            payment,
            g0,
            i,
            g1,
        ),
    }
}

fn check_method(
    m: PaymentMethod,
    reserve: &PaymentReserve,
    res: &Resources,
    is_building_tag: bool,
    is_space_tag: bool,
) -> (r: Result<(), GameError>)
    ensures
        r == method_check(m, *reserve, *res, is_building_tag, is_space_tag),
{
    match m {
        PaymentMethod::MegaCredits(a) => {
            if res.megacredits.saturating_sub(reserve.megacredits) < a {
                Err(GameError::InsufficientResource)
            } else {
                Ok(())
            }
        },
        PaymentMethod::Steel(a) => {
            if !is_building_tag {
                Err(GameError::InvalidPayment)
            } else if res.steel.saturating_sub(reserve.steel) < a {
                Err(GameError::InsufficientResource)
            } else {
                Ok(())
            }
        },
        PaymentMethod::Titanium(a) => {
            if !is_space_tag {
                Err(GameError::InvalidPayment)
            } else if res.titanium.saturating_sub(reserve.titanium) < a {
                Err(GameError::InsufficientResource)
            } else {
                Ok(())
            }
        },
        PaymentMethod::Heat(a) => {
            if res.heat.saturating_sub(reserve.heat) < a {
                Err(GameError::InsufficientResource)
            } else {
                Ok(())
            }
        },
        PaymentMethod::Plants(a) => {
            if !is_building_tag {
                Err(GameError::InvalidPayment)
            } else if res.plants.saturating_sub(reserve.plants) < a {
                Err(GameError::InsufficientResource)
            } else {
                Ok(())
            }
        },
    }
}

/// Validates and executes player actions.
pub struct ActionExecutor;

impl ActionExecutor {
    fn find_award(game: &Game, award_id: &String) -> (r: Option<usize>)
        ensures
            r matches Some(k) ==> award_index(game.awards@, award_id@) == Some(k as int) && k
                < game.awards@.len(),
            r is None ==> award_index(game.awards@, award_id@) is None,
    {
        let mut k: usize = 0;
        while k < game.awards.len()
            invariant
                k <= game.awards.len(),
                forall|j: int| 0 <= j < k ==> (#[trigger] game.awards@[j]).name@ != award_id@,
            decreases game.awards.len() - k,
        {
            if game.awards[k].name == *award_id {
                proof {
                    let c = award_index(game.awards@, award_id@).unwrap();
                    if c < k as int {
                        assert(game.awards@[c].name@ != award_id@);
                    }
                    if c > k as int {
                        assert(game.awards@[k as int].name@ == award_id@);
                    }
                }
                return Some(k);
            }
            k = k + 1;
        }
        None
    }

    fn find_milestone(game: &Game, milestone_id: &String) -> (r: Option<usize>)
        ensures
            r matches Some(k) ==> milestone_index(game.milestones@, milestone_id@) == Some(k as int)
                && k < game.milestones@.len(),
            r is None ==> milestone_index(game.milestones@, milestone_id@) is None,
    {
        let mut k: usize = 0;
        while k < game.milestones.len()
            invariant
                k <= game.milestones.len(),
                forall|j: int|
                    0 <= j < k ==> (#[trigger] game.milestones@[j]).name@ != milestone_id@,
            decreases game.milestones.len() - k,
        {
            if game.milestones[k].name == *milestone_id {
                proof {
                    let c = milestone_index(game.milestones@, milestone_id@).unwrap();
                    if c < k as int {
                        assert(game.milestones@[c].name@ != milestone_id@);
                    }
                    if c > k as int {
                        assert(game.milestones@[k as int].name@ == milestone_id@);
                    }
                }
                return Some(k);
            }
            k = k + 1;
        }
        None
    }

    fn is_award_funded(game: &Game, award_id: &String) -> (r: bool)
        ensures
            r == award_funded(*game, award_id@),
    {
        let mut k: usize = 0;
        while k < game.funded_awards.len()
            invariant
                k <= game.funded_awards.len(),
                forall|j: int|
                    0 <= j < k ==> (#[trigger] game.funded_awards@[j]).award_name@ != award_id@,
            decreases game.funded_awards.len() - k,
        {
            if game.funded_awards[k].award_name == *award_id {
                return true;
            }
            k = k + 1;
        }
        false
    }

    fn is_milestone_claimed(game: &Game, milestone_id: &String) -> (r: bool)
        ensures
            r == milestone_claimed(*game, milestone_id@),
    {
        let mut k: usize = 0;
        while k < game.claimed_milestones.len()
            invariant
                k <= game.claimed_milestones.len(),
                forall|j: int|
                    0 <= j < k ==> (#[trigger] game.claimed_milestones@[j]).milestone_name@
                        != milestone_id@,
            decreases game.claimed_milestones.len() - k,
        {
            if game.claimed_milestones[k].milestone_name == *milestone_id {
                return true;
            }
            k = k + 1;
        }
        false
    }

    fn check_play_card(player: &Player, card_id: &String, payment: &Payment) -> (r: Result<
        (),
        GameError,
    >)
        ensures
            r == play_card_check(*player, *card_id, *payment),
    {
        if !contains_text(&player.cards_in_hand, card_id) {
            return Err(GameError::NotFound);
        }
        Self::validate_payment(payment, player, false, false)
    }

    fn cost_of(c: i32) -> (r: u32)
        ensures
            r == cost_amount(c),
    {
        if c < 0 {
            0
        } else {
            c as u32
        }
    }

    /// Checks, without changing anything, whether the player with id
    /// `player_id` may execute `action` now.
    pub fn can_execute(action: &Action, game: &Game, player_id: &str) -> (r: Result<(), GameError>)
        ensures
            r == action_check(*action, *game, player_id@),
    {
        let pid = text(player_id);
        let i = match game.find_player(&pid) {
            Some(i) => i,
            None => {
                return Err(GameError::NotFound);
            },
        };
        let player = &game.players[i];
        match action {
            Action::PlayCard { card_id, payment } => {
                Self::check_play_card(player, card_id, payment)
            },
            Action::StandardProject { project_type, payment, params } => {
                match StandardProjects::can_execute(*project_type, player, params) {
                    Err(e) => {
                        return Err(e);
                    },
                    Ok(_) => {},
                }
                if !StandardProjects::sell_patents_removable(*project_type, player, params) {
                    return Err(GameError::InvalidSelection);
                }
                let cost = StandardProjects::cost(*project_type);
                Self::validate_payment_cost(payment, player, cost, false, false)
            },
            Action::Pass => Ok(()),
            Action::ConvertPlants => StandardActions::can_convert_plants(player),
            Action::ConvertHeat => StandardActions::can_convert_heat(player),
            Action::FundAward { award_id, payment } => {
                let k = match Self::find_award(game, award_id) {
                    Some(k) => k,
                    None => {
                        return Err(GameError::NotFound);
                    },
                };
                if Self::is_award_funded(game, award_id) {
                    return Err(GameError::AlreadyFunded);
                }
                let cost = Self::cost_of(game.awards[k].funding_cost);
                Self::validate_payment_cost(payment, player, cost, false, false)
            },
            Action::ClaimMilestone { milestone_id, payment } => {
                let k = match Self::find_milestone(game, milestone_id) {
                    Some(k) => k,
                    None => {
                        return Err(GameError::NotFound);
                    },
                };
                if Self::is_milestone_claimed(game, milestone_id) {
                    return Err(GameError::AlreadyClaimed);
                }
                let cost = Self::cost_of(game.milestones[k].cost);
                Self::validate_payment_cost(payment, player, cost, false, false)
            },
        }
    }

    /// Validates `action` for the player with id `player_id`, then applies
    /// it. Validation fully precedes mutation: on failure nothing changes.
    pub fn execute(action: &Action, game: &mut Game, player_id: &str) -> (r: Result<(), GameError>)
        ensures
            r == action_check(*action, *old(game), player_id@),
            r is Err ==> *final(game) == *old(game),
            r is Ok ==> action_applied(
                *action,
                *old(game),
                old(game).seat_of(player_id@).unwrap(),
                *final(game),
            ),
    {
        match Self::can_execute(action, game, player_id) {
            Err(e) => {
                return Err(e);
            },
            Ok(_) => {},
        }
        let pid = text(player_id);
        let i = match game.find_player(&pid) {
            Some(i) => i,
            None => {
                return Err(GameError::NotFound);
            },
        };
        match action {
            Action::PlayCard { card_id, payment } => {
                Self::exec_play_card(game, i, card_id, payment);
            },
            Action::StandardProject { project_type, payment, params } => {
                Self::exec_project(game, i, *project_type, payment, params);
            },
            Action::Pass => {},
            Action::ConvertPlants => {
                let _ = StandardActions::convert_plants(&mut game.players[i]);
                game.global_parameters.increase(GlobalParameter::Oxygen, 1);
            },
            Action::ConvertHeat => {
                let _ = StandardActions::convert_heat(&mut game.players[i]);
            },
            Action::FundAward { award_id, payment } => {
                Self::exec_fund(game, i, pid, award_id, payment);
            },
            Action::ClaimMilestone { milestone_id, payment } => {
                Self::exec_claim(game, i, pid, milestone_id, payment);
            },
        }
        Ok(())
    }

    fn exec_play_card(game: &mut Game, i: usize, card_id: &String, payment: &Payment)
        requires
            i < old(game).players@.len(),
            play_card_check(old(game).players@[i as int], *card_id, *payment) is Ok,
        ensures
            play_card_applied(*card_id, *payment, *old(game), i as int, *final(game)),
    {
        let ghost p = old(game).players@[i as int];
        proof {
            crate::ids::lemma_first_index(p.cards_in_hand@, card_id@);
        }
        let ghost g0 = *game;
        let _ = Self::apply_payment(payment, &mut game.players[i], false, false);
        let _ = game.players[i].remove_card_from_hand(card_id.as_str());
        game.players[i].add_played_card(card_id.clone());
        proof {
            assert(game.players@ =~= g0.players@.update(i as int, game.players@[i as int]));
        }
    }

    fn exec_project(
        game: &mut Game,
        i: usize,
        project_type: StandardProjectType,
        payment: &Payment,
        params: &StandardProjectParams,
    )
        requires
            i < old(game).players@.len(),
            project_result(project_type, old(game).players@[i as int], *params) is Ok,
            payment_check(*payment, old(game).players@[i as int].resources, false, false) is Ok,
        ensures
            project_applied_to_game(
                project_type,
                *payment,
                *params,
                *old(game),
                i as int,
                *final(game),
            ),
    {
        let ghost g0 = *game;
        let _ = Self::apply_payment(payment, &mut game.players[i], false, false);
        let effect = StandardProjects::execute(project_type, &mut game.players[i], params);
        proof {
            assert(game.players@ =~= g0.players@.update(i as int, game.players@[i as int]));
        }
        match effect {
            Ok(e) => Self::apply_standard_project_effect(e, game),
            Err(_) => {},
        }
    }

    /// Applies a standard project's effect on the global parameters; tile
    /// placement itself belongs to the board.
    fn apply_standard_project_effect(effect: StandardProjectEffect, game: &mut Game)
        ensures
            *final(game) == (Game { global_parameters: final(game).global_parameters, ..*old(game) }),
            final(game).global_parameters@ == params_after_effect(
                old(game).global_parameters@,
                effect,
            ),
    {
        match effect {
            StandardProjectEffect::RaiseTemperature { steps } => {
                game.global_parameters.increase(GlobalParameter::Temperature, steps);
            },
            StandardProjectEffect::PlaceOcean => {
                game.global_parameters.increase(GlobalParameter::Oceans, 1);
            },
            StandardProjectEffect::PlaceGreenery => {
                game.global_parameters.increase(GlobalParameter::Oxygen, 1);
            },
            _ => {},
        }
    }

    fn exec_fund(game: &mut Game, i: usize, pid: String, award_id: &String, payment: &Payment)
        requires
            i < old(game).players@.len(),
            pid@ == old(game).players@[i as int].id@,
            payment_check(*payment, old(game).players@[i as int].resources, false, false) is Ok,
        ensures
            fund_applied(*award_id, *payment, *old(game), i as int, *final(game)),
    {
        let ghost g0 = *game;
        let _ = Self::apply_payment(payment, &mut game.players[i], false, false);
        proof {
            assert(game.players@ =~= g0.players@.update(i as int, game.players@[i as int]));
        }
        game.funded_awards.push(FundedAward { player_id: pid, award_name: award_id.clone() });
        proof {
            assert(game.funded_awards@.drop_last() =~= g0.funded_awards@);
        }
    }

    fn exec_claim(game: &mut Game, i: usize, pid: String, milestone_id: &String, payment: &Payment)
        requires
            i < old(game).players@.len(),
            pid@ == old(game).players@[i as int].id@,
            payment_check(*payment, old(game).players@[i as int].resources, false, false) is Ok,
        ensures
            claim_applied(*milestone_id, *payment, *old(game), i as int, *final(game)),
    {
        let ghost g0 = *game;
        let _ = Self::apply_payment(payment, &mut game.players[i], false, false);
        proof {
            assert(game.players@ =~= g0.players@.update(i as int, game.players@[i as int]));
        }
        game.claimed_milestones.push(
            ClaimedMilestone { player_id: pid, milestone_name: milestone_id.clone() },
        );
        proof {
            assert(game.claimed_milestones@.drop_last() =~= g0.claimed_milestones@);
        }
    }

    /// Checks a payment against the player's stock: every reserve must be
    /// held, each method must fit the stock above its reserve, and steel,
    /// titanium and plants pay only for items with the matching tag.
    pub fn validate_payment(
        payment: &Payment,
        player: &Player,
        is_building_tag: bool,
        is_space_tag: bool,
    ) -> (r: Result<(), GameError>)
        ensures
            r == payment_check(*payment, player.resources, is_building_tag, is_space_tag),
    {
        let res = &player.resources;
        let reserve = &payment.reserve;
        if res.megacredits < reserve.megacredits || res.steel < reserve.steel || res.titanium
            < reserve.titanium || res.heat < reserve.heat || res.plants < reserve.plants {
            return Err(GameError::InsufficientResource);
        }
        let mut i: usize = 0;
        while i < payment.methods.len()
            invariant
                i <= payment.methods.len(),
                *res == player.resources,
                *reserve == payment.reserve,
                reserve_ok(payment.reserve, player.resources),
                methods_check(
                    payment.methods@.take(i as int),
                    payment.reserve,
                    player.resources,
                    is_building_tag,
                    is_space_tag,
                ) is Ok,
            decreases payment.methods.len() - i,
        {
            proof {
                assert(payment.methods@.take(i as int + 1).drop_last() =~= payment.methods@.take(
                    i as int,
                ));
                assert(payment.methods@.take(i as int + 1).last() == payment.methods@[i as int]);
            }
            let failure = check_method(payment.methods[i], reserve, res, is_building_tag, is_space_tag);
            proof {
                let t = payment.methods@.take(i as int + 1);
                assert(t.len() > 0);
                assert(t.drop_last() == payment.methods@.take(i as int));
                assert(methods_check(t, payment.reserve, player.resources, is_building_tag, is_space_tag)
                    == method_check(t.last(), payment.reserve, player.resources, is_building_tag, is_space_tag));

            }
            match failure {
                Err(e) => {
                    proof {
                        lemma_methods_check_err(
                            payment.methods@,
                            payment.reserve,
                            player.resources,
                            is_building_tag,
                            is_space_tag,
                            i as int + 1,
                        );
                    }
                    return Err(e);
                },
                Ok(_) => {},
            }
            i = i + 1;
        }
        proof {
            assert(payment.methods@.take(payment.methods.len() as int) =~= payment.methods@);
        }
        Ok(())
    }

    /// Checks that a payment is worth at least `required_mc`, then validates it.
    pub fn validate_payment_cost(
        payment: &Payment,
        player: &Player,
        required_mc: u32,
        is_building_tag: bool,
        is_space_tag: bool,
    ) -> (r: Result<(), GameError>)
        ensures
            r == cost_check(
                *payment,
                player.resources,
                required_mc as int,
                is_building_tag,
                is_space_tag,
            ),
    {
        let total_paid = payment.total_cost_mc(is_building_tag, is_space_tag);
        if total_paid < required_mc {
            return Err(GameError::InsufficientResource);
        }
        Self::validate_payment(payment, player, is_building_tag, is_space_tag)
    }

    /// Validates a payment and takes it from the player's stock; changes
    /// nothing when the validation fails.
    pub fn apply_payment(
        payment: &Payment,
        player: &mut Player,
        is_building_tag: bool,
        is_space_tag: bool,
    ) -> (r: Result<(), GameError>)
        ensures
            r == payment_check(*payment, old(player).resources, is_building_tag, is_space_tag),
            r is Err ==> *final(player) == *old(player),
            r is Ok ==> *final(player) == (Player {
                resources: paid(old(player).resources, payment.methods@, is_building_tag, is_space_tag),
                ..*old(player)
            }),
    {
        match Self::validate_payment(payment, player, is_building_tag, is_space_tag) {
            Err(e) => {
                return Err(e);
            },
            Ok(_) => {},
        }
        let ghost p0 = *player;
        let mut i: usize = 0;
        proof {
            assert(payment.methods@.take(0) =~= Seq::<PaymentMethod>::empty());
        }
        while i < payment.methods.len()
            invariant
                i <= payment.methods.len(),
                *player == (Player {
                    resources: paid(p0.resources, payment.methods@.take(i as int), is_building_tag, is_space_tag),
                    ..p0
                }),
            decreases payment.methods.len() - i,
        {
            proof {
                assert(payment.methods@.take(i as int + 1).drop_last() =~= payment.methods@.take(
                    i as int,
                ));
                assert(payment.methods@.take(i as int + 1).last() == payment.methods@[i as int]);
            }
            match payment.methods[i] {
                PaymentMethod::MegaCredits(a) => {
                    player.resources.subtract(Resource::Megacredits, a);
                },
                PaymentMethod::Steel(a) => {
                    if is_building_tag {
                        player.resources.subtract(Resource::Steel, a);
                    }
                },
                PaymentMethod::Titanium(a) => {
                    if is_space_tag {
                        player.resources.subtract(Resource::Titanium, a);
                    }
                },
                PaymentMethod::Heat(a) => {
                    player.resources.subtract(Resource::Heat, a);
                },
                PaymentMethod::Plants(a) => {
                    if is_building_tag {
                        player.resources.subtract(Resource::Plants, a);
                    }
                },
            }
            i = i + 1;
        }
        proof {
            assert(payment.methods@.take(payment.methods.len() as int) =~= payment.methods@);
        }
        Ok(())
    }
}

/// Once a prefix of the methods fails its check, the whole sequence fails
/// with the same error.
proof fn lemma_methods_check_err(
    ms: Seq<PaymentMethod>,
    reserve: PaymentReserve,
    r: Resources,
    b: bool,
    s: bool,
    k: int,
)
    requires
        0 <= k <= ms.len(),
        methods_check(ms.take(k), reserve, r, b, s) is Err,
    ensures
        methods_check(ms, reserve, r, b, s) == methods_check(ms.take(k), reserve, r, b, s),
    decreases ms.len() - k,
{
    if k < ms.len() {
        assert(ms.take(k + 1).drop_last() =~= ms.take(k));
        lemma_methods_check_err(ms, reserve, r, b, s, k + 1);
    } else {
        assert(ms.take(k) =~= ms);
    }
}

/// Validation is a function of the session: two validations of the same
/// action against an unchanged session give the same result (and
/// `can_execute` reads the session through a shared reference only).
pub proof fn lemma_validation_repeatable(
    action: Action,
    g: Game,
    pid: Seq<char>,
    first: Result<(), GameError>,
    second: Result<(), GameError>,
)
    requires
        first == action_check(action, g, pid),
        second == action_check(action, g, pid),
    ensures
        first == second,
{
}

} // verus!
