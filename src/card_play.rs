use vstd::prelude::*;
use crate::action_executor::{ActionExecutor, payment_check, paid};
use crate::behavior_executor::{BehaviorExecutor, behavior_on_game, behavior_on_player};
use crate::card::Card;
use crate::card_registry::{CardRegistry, card_index};
use crate::error::GameError;
use crate::game::Game;
use crate::ids::{contains_text, first_index, holds_text, text};
use crate::payment::{Payment, methods_worth};
use crate::player::Player;
use crate::requirements::requirement_met;
use crate::resources::cap_u32;
use crate::tags::{Tag, tag_slot};

verus! {

/// Tag counts after adding one of each of `tags`, in order.
pub open spec fn counts_with(s: Seq<u32>, tags: Seq<Tag>) -> Seq<u32>
    decreases tags.len(),
{
    if tags.len() == 0 {
        s
    } else {
        let before = counts_with(s, tags.drop_last());
        before.update(tag_slot(tags.last()), cap_u32(before[tag_slot(tags.last())] + 1) as u32)
    }
}

/// Whether the card's requirements hold for the player in the session.
pub open spec fn requirements_met(card: Card, p: Player, g: Game) -> bool {
    match card.requirements {
        Some(req) => forall|i: int|
            0 <= i < req.requirements@.len() ==> requirement_met(
                #[trigger] req.requirements@[i],
                p,
                g,
            ),
        None => true,
    }
}

/// The check of playing `card` with `payment`.
pub open spec fn card_play_check(card: Card, p: Player, g: Game, payment: Payment) -> Result<
    (),
    GameError,
> {
    let b = card.tags@.contains(Tag::Building);
    let s = card.tags@.contains(Tag::Space);
    let cost = match card.cost {
        Some(c) => c as int,
        None => 0,
    };
    if !holds_text(p.cards_in_hand@, card.id@) {
        Err(GameError::NotFound)
    } else if !requirements_met(card, p, g) {
        Err(GameError::RequirementNotMet)
    } else if cap_u32(methods_worth(payment.methods@, b, s)) < cost {
        Err(GameError::InsufficientResource)
    } else {
        payment_check(payment, p.resources, b, s)
    }
}

/// Playing a card from the hand through the card system.
pub struct CardPlay;

impl CardPlay {
    /// Plays `card` from the player's hand: checks the hand, requirements,
    /// cost and payment; then pays, moves the card to the played cards, adds
    /// its tags and applies its behavior. Nothing changes on failure.
    pub fn play_card(card: &Card, player: &mut Player, game: &mut Game, payment: &Payment) -> (r:
        Result<(), GameError>)
        ensures
            r == card_play_check(*card, *old(player), *old(game), *payment),
            r is Err ==> *final(player) == *old(player) && *final(game) == *old(game),
            r is Ok ==> {
                let p = *old(player);
                let b = card.tags@.contains(Tag::Building);
                let s = card.tags@.contains(Tag::Space);
                let q = *final(player);
                let base = Player {
                    resources: paid(p.resources, payment.methods@, b, s),
                    cards_in_hand: q.cards_in_hand,
                    played_cards: q.played_cards,
                    tags: q.tags,
                    ..p
                };
                &&& q.cards_in_hand@ == p.cards_in_hand@.remove(
                    first_index(p.cards_in_hand@, card.id@).unwrap(),
                )
                &&& q.played_cards@ == p.played_cards@.push(card.id)
                &&& q.tags@ == counts_with(p.tags@, card.tags@)
                &&& match card.behavior {
                    Some(bh) => q == behavior_on_player(bh, base) && behavior_on_game(
                        bh,
                        *old(game),
                        *final(game),
                    ),
                    None => q == base && *final(game) == *old(game),
                }
            },
    {
        if !contains_text(&player.cards_in_hand, &card.id) {
            return Err(GameError::NotFound);
        }
        match &card.requirements {
            Some(req) => {
                match req.satisfies(player, game) {
                    Err(e) => {
                        return Err(e);
                    },
                    Ok(_) => {},
                }
            },
            None => {},
        }
        let card_cost = card.get_cost();
        let is_building_tag = card.has_tag(Tag::Building);
        let is_space_tag = card.has_tag(Tag::Space);
        let total_paid = payment.total_cost_mc(is_building_tag, is_space_tag);
        if total_paid < card_cost {
            return Err(GameError::InsufficientResource);
        }
        match ActionExecutor::validate_payment(payment, player, is_building_tag, is_space_tag) {
            Err(e) => {
                return Err(e);
            },
            Ok(_) => {},
        }
        proof {
            crate::ids::lemma_first_index(old(player).cards_in_hand@, card.id@);
        }
        let _ = ActionExecutor::apply_payment(payment, player, is_building_tag, is_space_tag);
        let _ = player.remove_card_from_hand(card.id.as_str());
        player.add_played_card(card.id.clone());
        let ghost p1 = *player;
        let mut k: usize = 0;
        proof {
            assert(card.tags@.take(0) =~= Seq::<Tag>::empty());
        }
        while k < card.tags.len()
            invariant
                k <= card.tags.len(),
                *player == (Player { tags: player.tags, ..p1 }),
                player.tags@ == counts_with(p1.tags@, card.tags@.take(k as int)),
            decreases card.tags.len() - k,
        {
            proof {
                assert(card.tags@.take(k as int + 1).drop_last() =~= card.tags@.take(k as int));
                assert(card.tags@.take(k as int + 1).last() == card.tags@[k as int]);
            }
            player.tags.add(card.tags[k], 1);
            k = k + 1;
        }
        proof {
            assert(card.tags@.take(card.tags.len() as int) =~= card.tags@);
        }
        match &card.behavior {
            Some(b) => {
                let _ = BehaviorExecutor::execute(b, player, game);
            },
            None => {},
        }
        Ok(())
    }

    /// Looks the card up in the registry, then plays it.
    pub fn play_card_by_id(
        card_id: &str,
        registry: &CardRegistry,
        player: &mut Player,
        game: &mut Game,
        payment: &Payment,
    ) -> (r: Result<(), GameError>)
        ensures
            card_index(registry.entries(), card_id@) is None ==> r == Err::<(), GameError>(
                GameError::NotFound,
            ) && *final(player) == *old(player) && *final(game) == *old(game),
            card_index(registry.entries(), card_id@) matches Some(i) ==> r == card_play_check(
                registry.entries()[i],
                *old(player),
                *old(game),
                *payment,
            ),
    {
        let key = text(card_id);
        match registry.get(&key) {
            Some(card) => Self::play_card(card, player, game, payment),
            None => Err(GameError::NotFound),
        }
    }
}

} // verus!
