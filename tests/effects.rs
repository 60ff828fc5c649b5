use tcg_rules::effects::{Effects, ToxicityRed, TriggerKind};
use tcg_rules::game::{CombatSteps, Game};
use tcg_rules::objects::{CardClass, CardClassTypes, GameObject, HeroBundle, Objects};
use tcg_rules::stack::{ChainLink, GameEvent};

fn game_with_toxicity(class: CardClassTypes) -> (Game, u32) {
    let mut objects = Objects::new();
    let mut attack = ToxicityRed::card();
    attack.class = Some(CardClass::DualClass(CardClassTypes::Generic, class));
    let card = objects.spawn(GameObject::Card(attack));
    objects.spawn(GameObject::Hero(HeroBundle::named("Ann")));
    objects.spawn(GameObject::Hero(HeroBundle::named("Bo")));
    (Game::new(objects, vec![1, 2]), card)
}

#[test]
fn toxicity_arms_on_play_and_bites_on_hit() {
    let (mut game, card) = game_with_toxicity(CardClassTypes::Assassin);
    let mut effects = Effects::new();
    assert_eq!(ToxicityRed::card_id(), "OUT165");
    ToxicityRed::play(&mut effects, game.objects.card(card));
    assert_eq!(effects.triggers.len(), 1);
    assert_eq!(effects.triggers[0].kind, TriggerKind::OnAttack);
    game.attack_layer.0 = Some(GameEvent { target: Some(2), card, actor: 1, attack: true });
    ToxicityRed::on_attack(&mut effects, &game);
    assert_eq!(effects.triggers.len(), 1);
    assert_eq!(effects.triggers[0].kind, TriggerKind::OnHit);
    let mut link = ChainLink::attack(2, 1, card);
    link.hit = true;
    game.chain.add_chain_link(link);
    game.combat = Some(CombatSteps::DamageStep);
    ToxicityRed::on_hit(&mut effects, &mut game, true);
    assert!(effects.triggers.is_empty());
    assert_eq!(game.objects.hero(2).unwrap().health, 37);
}

#[test]
fn toxicity_needs_an_assassin_or_ranger_attack() {
    let (mut game, card) = game_with_toxicity(CardClassTypes::Generic);
    let mut effects = Effects::new();
    ToxicityRed::play(&mut effects, game.objects.card(card));
    game.attack_layer.0 = Some(GameEvent { target: Some(2), card, actor: 1, attack: true });
    ToxicityRed::on_attack(&mut effects, &game);
    assert_eq!(effects.triggers[0].kind, TriggerKind::OnAttack);
}
