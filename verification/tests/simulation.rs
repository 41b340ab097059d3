use periodicity::g_properties::{
    get_spell_data, get_spelldata_from_string, Actions, Allegiances, GPAction, GPDebuff,
    GPMortality, GPStats, Spells,
};
use periodicity::game::{get_scale, scaled, Game, StartupError};
use periodicity::systems::{
    combat_text_at, get_color_from_type, resolve_bar, resolve_damage, Damage,
};
use periodicity::update_game::advance_queue;

fn world() -> (Game, u32, u32) {
    let mut game = Game::new();
    game.init_game();
    let player = game.gem.player_id.expect("the player exists");
    let enemy = game.gem.get_enemy().expect("the enemy exists");
    (game, player, enemy)
}

fn set_health(game: &mut Game, id: u32, max: u32, curr: u32) {
    let stats = game.gem.stats.get_mut(&id).expect("stats");
    stats.health_max = max;
    stats.health_curr = curr;
}

fn health(game: &Game, id: u32) -> u32 {
    game.gem.stats.get(&id).expect("stats").health_curr
}

fn hit(amt: u32, target: u32, damager: u32) -> Damage {
    Damage { amt, target, damager, damage_type: "infernum".to_string() }
}

fn cast(id: u32, tag: &str, ms: u32) -> GPAction {
    GPAction {
        id,
        action: Actions::CastingSpell,
        action_tag: tag.to_string(),
        time_action_takes: ms,
        time_remaining: ms,
        spell: None,
    }
}

fn debuff(name: &str, time_left: u32) -> GPDebuff {
    GPDebuff {
        id: 0,
        name: name.to_string(),
        total_duration: time_left,
        time_left,
        stacks: 1,
        pending_damage: 0,
    }
}

#[test]
fn world_has_player_and_enemy() {
    let (game, player, enemy) = world();
    assert_eq!(player, 0);
    assert_eq!(enemy, 1);
    assert_eq!(game.gem.gids[&player].tag, "player");
    assert_eq!(game.gem.gids[&enemy].tag, "alpine_terror");
    assert_eq!(game.gem.allegiances[&player].allegiance, Allegiances::Player);
    assert_eq!(game.gem.allegiances[&enemy].allegiance, Allegiances::Enemy);
    assert_eq!(game.gem.stats[&player].health_max, 100);
    assert_eq!(game.gem.stats[&player].health_curr, 80);
    assert_eq!(game.gem.stats[&enemy].health_max, 400);
    assert_eq!(game.gem.stats[&enemy].health_curr, 400);
    assert_eq!(game.gem.stats[&enemy].solidity, 4);
    assert_eq!(game.gem.levels[&player].curr_level, 5);
    assert_eq!(game.gem.levels[&enemy].curr_level, 2);
    assert!(game.gem.mortalities[&enemy].is_alive);
    assert!(game.gem.debuffbars[&enemy].debuffs.is_empty());
    assert!(game.gem.actionqueue[&player].queue.is_empty());
    assert_eq!(game.gem.game_entity_id_counter, 2);
    assert_eq!(game.gem.game_property_id_counter, 16);
    assert_eq!(game.gem.entity_for_texture("Alpe"), Some(enemy));
    assert_eq!(game.gem.entity_for_texture("alpe"), None);
}

#[test]
fn entity_ids_are_never_reused() {
    let mut game = Game::new();
    let a = game.gem.add_entity(None);
    let b = game.gem.add_entity(Some("b".to_string()));
    game.gem.gids.remove(&a);
    let c = game.gem.add_entity(None);
    assert_eq!((a, b, c), (0, 1, 2));
    assert_eq!(game.gem.gids[&b].tag, "b");
    assert_eq!(game.gem.gids[&c].tag, "entity_2");
    assert_eq!(game.gem.next_pid(), 0);
    assert_eq!(game.gem.next_pid(), 1);
    assert_eq!(game.gem.next_eid(), 3);
}

#[test]
fn default_tag_is_the_decimal_id() {
    let mut game = Game::new();
    game.gem.game_entity_id_counter = 4_000_000_123;
    let id = game.gem.add_entity(None);
    assert_eq!(id, 4_000_000_123);
    assert_eq!(game.gem.gids[&id].tag, "entity_4000000123");
}

#[test]
fn lookup_by_name_prefers_the_lowest_id_and_creates_when_missing() {
    let mut game = Game::new();
    let a = game.gem.add_entity(Some("twin".to_string()));
    let _b = game.gem.add_entity(Some("twin".to_string()));
    assert_eq!(game.gem.get_entity_id_from_name("twin".to_string()), a);
    assert_eq!(game.gem.gids.len(), 2);
    let c = game.gem.get_entity_id_from_name("fresh".to_string());
    assert_eq!(c, 2);
    assert_eq!(game.gem.gids[&c].tag, "fresh");
    assert_eq!(game.gem.find_entity(&"nobody".to_string()), None);
}

#[test]
fn enemies_come_in_ascending_order() {
    let (mut game, _player, enemy) = world();
    for _ in 0..5 {
        game.create_enemy();
    }
    let all = game.gem.get_all_enemies();
    assert_eq!(all, vec![1, 2, 3, 4, 5, 6]);
    assert_eq!(game.gem.get_enemy(), Some(enemy));
    let mut alone = Game::new();
    alone.create_player();
    assert_eq!(alone.gem.get_enemy(), None);
    assert!(alone.gem.get_all_enemies().is_empty());
}

#[test]
fn catalog_entries() {
    let miasma = get_spell_data(Spells::Miasma).expect("miasma");
    assert_eq!(miasma.icon, "miasma");
    assert_eq!(miasma.colors.fill, (125, 185, 112));
    assert_eq!(miasma.colors.outline, Some((24, 26, 28)));
    assert_eq!(
        (miasma.upfront_dam, miasma.coefficient, miasma.dps, miasma.duration),
        (0, 3, 5, 5)
    );
    let infernum = get_spell_data(Spells::Infernum).expect("infernum");
    assert_eq!(infernum.icon, "infernum");
    assert_eq!(infernum.colors.fill, (233, 103, 6));
    assert_eq!(
        (infernum.upfront_dam, infernum.coefficient, infernum.dps, infernum.duration),
        (5, 2, 1, 10)
    );
    assert!(get_spell_data(Spells::UmbraMortis).is_none());
    assert_eq!(get_spelldata_from_string(&"Miasma".to_string()), Some(miasma));
    assert_eq!(get_spelldata_from_string(&"infernum".to_string()), Some(infernum));
    assert!(get_spelldata_from_string(&"MIASMA".to_string()).is_none());
    assert!(get_spelldata_from_string(&"".to_string()).is_none());
}

#[test]
fn damage_type_colors() {
    let c = get_color_from_type("miasma".to_string()).expect("color");
    assert_eq!((c.r, c.g, c.b, c.a), (1, 255, 150, 255));
    let c = get_color_from_type("infernum".to_string()).expect("color");
    assert_eq!((c.r, c.g, c.b, c.a), (255, 125, 10, 255));
    let c = get_color_from_type("umbra_mortis".to_string()).expect("color");
    assert_eq!((c.r, c.g, c.b, c.a), (148, 114, 201, 255));
    assert!(get_color_from_type("frost".to_string()).is_none());
}

#[test]
fn scale_of_the_layout() {
    assert_eq!(get_scale(), 2);
    assert_eq!(scaled(2, 1403), 2806);
    assert_eq!(scaled(3, 0), 0);
    assert_eq!(periodicity::game::scale_for(1920, 1080), 1);
    assert_eq!(periodicity::game::scale_for(800, 600), 1);
    assert_eq!(periodicity::game::scale_for(5760, 2160), 2);
    assert_eq!(periodicity::game::scale_for(7680, 4320), 4);
}

#[test]
fn fractions_are_carried() {
    assert_eq!(resolve_damage(0, 5, 3, 16), (0, 240));
    assert_eq!(resolve_damage(240, 5, 3, 16), (0, 480));
    assert_eq!(resolve_damage(960, 5, 3, 16), (1, 200));
    assert_eq!(resolve_damage(0, 1, 2, 1000), (2, 0));
    assert_eq!(resolve_damage(999, 0, 7, 1000), (0, 999));
    assert_eq!(resolve_damage(0, u32::MAX, u32::MAX, u32::MAX), (u32::MAX, 375));
}

fn dealt_over(name: &str, dts: &[u32]) -> (u64, u32) {
    let mut bar = vec![debuff(name, u32::MAX)];
    let mut total: u64 = 0;
    for dt in dts {
        let mut queue = Vec::new();
        resolve_bar(&mut bar, true, 1, 0, *dt, &mut queue);
        assert_eq!(queue.len(), 1);
        total += queue[0].amt as u64;
    }
    (total, bar[0].pending_damage)
}

#[test]
fn total_damage_does_not_depend_on_the_split() {
    // Miasma earns 15 points per second: 4 seconds are 60 points.
    assert_eq!(dealt_over("miasma", &[4000]), (60, 0));
    assert_eq!(dealt_over("miasma", &[16; 250]), (60, 0));
    assert_eq!(dealt_over("miasma", &[1; 4000]), (60, 0));
    assert_eq!(dealt_over("miasma", &[3999, 1]), (60, 0));
    // 1234 ms of Infernum at 2 points per second: 2.468 points.
    assert_eq!(dealt_over("infernum", &[1234]), (2, 468));
    assert_eq!(dealt_over("infernum", &[617, 617]), (2, 468));
    assert_eq!(dealt_over("infernum", &[1000, 200, 30, 4]), (2, 468));
    assert_eq!(dealt_over("infernum", &[1; 1234]), (2, 468));
}

#[test]
fn bar_drops_expired_and_ticks_the_rest() {
    let mut bar = vec![debuff("miasma", 0), debuff("miasma", 30), debuff("unknown", 500)];
    bar[1].id = 7;
    bar[2].pending_damage = 5;
    let mut queue = vec![hit(9, 9, 9)];
    resolve_bar(&mut bar, true, 4, 2, 100, &mut queue);
    assert_eq!(bar.len(), 2);
    assert_eq!(bar[0].id, 7);
    assert_eq!(bar[0].time_left, 0);
    assert_eq!(bar[0].pending_damage, 500);
    assert_eq!(bar[1].name, "unknown");
    assert_eq!(bar[1].time_left, 400);
    assert_eq!(bar[1].pending_damage, 5);
    assert_eq!(queue.len(), 2);
    assert_eq!(queue[0], hit(9, 9, 9));
    assert_eq!(
        queue[1],
        Damage { amt: 1, target: 4, damager: 2, damage_type: "miasma".to_string() }
    );
    resolve_bar(&mut bar, true, 4, 2, 100, &mut queue);
    assert_eq!(bar.len(), 1);
    assert_eq!(bar[0].name, "unknown");
}

#[test]
fn debuffs_without_stats_only_count_down() {
    let mut bar = vec![debuff("miasma", 1000)];
    let mut queue = Vec::new();
    resolve_bar(&mut bar, false, 4, 2, 400, &mut queue);
    assert!(queue.is_empty());
    assert_eq!(bar[0].time_left, 600);
    assert_eq!(bar[0].pending_damage, 0);
}

#[test]
fn zero_damage_events_are_raised_and_harmless() {
    let (mut game, _player, enemy) = world();
    game.gem.debuffbars.get_mut(&enemy).unwrap().debuffs.push(debuff("infernum", 5000));
    game.delta_time_ms = 16;
    game.resolve_debuffs();
    assert_eq!(game.damage_queue.len(), 1);
    assert_eq!(game.damage_queue[0].amt, 0);
    game.s_damage();
    assert!(game.damage_queue.is_empty());
    assert!(game.floating_texts.is_empty());
    assert_eq!(health(&game, enemy), 400);
}

#[test]
fn scenario_infernum_on_two_hundred_health() {
    let (mut game, player, enemy) = world();
    set_health(&mut game, enemy, 200, 200);
    game.pending_effects.push(Spells::Infernum);
    game.tick(1000, None, false);
    assert_eq!(health(&game, enemy), 195);
    let bar = &game.gem.debuffbars[&enemy].debuffs;
    assert_eq!(bar.len(), 1);
    assert_eq!(bar[0].name, "infernum");
    assert_eq!(bar[0].total_duration, 10000);
    assert_eq!(bar[0].time_left, 10000);
    assert_eq!(bar[0].pending_damage, 0);
    assert!(game.pending_effects.is_empty());
    assert!(game.damage_queue.is_empty());
    for step in 1..=10u32 {
        game.tick(1000, None, false);
        assert_eq!(health(&game, enemy), 195 - 2 * step);
    }
    assert_eq!(health(&game, enemy), 175);
    assert_eq!(game.gem.debuffbars[&enemy].debuffs[0].time_left, 0);
    game.tick(1000, None, false);
    assert!(game.gem.debuffbars[&enemy].debuffs.is_empty());
    assert_eq!(health(&game, enemy), 175);
    assert_eq!(health(&game, player), 80);
    assert!(game.damage_queue.is_empty());
}

#[test]
fn a_new_debuff_waits_for_the_next_tick() {
    let (mut game, player, enemy) = world();
    game.gem.debuffbars.get_mut(&enemy).unwrap().debuffs.push(debuff("miasma", 3000));
    game.pending_effects.push(Spells::Infernum);
    game.delta_time_ms = 1000;
    game.s_debuffs();
    assert_eq!(
        game.damage_queue,
        vec![
            Damage { amt: 15, target: enemy, damager: player, damage_type: "miasma".to_string() },
            Damage { amt: 5, target: enemy, damager: player, damage_type: "infernum".to_string() },
        ]
    );
    let bar = &game.gem.debuffbars[&enemy].debuffs;
    assert_eq!(bar.len(), 2);
    assert_eq!((bar[0].name.as_str(), bar[0].time_left), ("miasma", 2000));
    assert_eq!((bar[1].name.as_str(), bar[1].time_left, bar[1].pending_damage), ("infernum", 10000, 0));
    game.s_damage();
    assert_eq!(health(&game, enemy), 380);
    game.s_debuffs();
    game.s_damage();
    assert_eq!(health(&game, enemy), 380 - 15 - 2);
}

#[test]
fn scenario_two_hits_in_one_tick() {
    let (mut game, player, enemy) = world();
    set_health(&mut game, enemy, 10, 10);
    game.damage_queue.push(hit(5, enemy, player));
    game.damage_queue.push(hit(3, enemy, player));
    game.s_damage();
    assert_eq!(health(&game, enemy), 2);
    assert!(game.damage_queue.is_empty());
    assert_eq!(game.floating_texts.len(), 2);
    assert_eq!(game.floating_texts[0].value, "5");
    assert_eq!(game.floating_texts[1].value, "3");
}

#[test]
fn scenario_cast_of_four_seconds_in_ticks_of_sixteen() {
    let (mut game, player, _enemy) = world();
    game.gem.actionqueue.get_mut(&player).unwrap().queue.push(cast(1, "miasma", 4000));
    game.delta_time_ms = 16;
    for _ in 0..249 {
        game.advance_action_queues();
        assert_eq!(game.gem.actionqueue[&player].queue.len(), 1);
        assert!(game.pending_effects.is_empty());
    }
    assert_eq!(game.gem.actionqueue[&player].queue[0].time_remaining, 16);
    game.advance_action_queues();
    assert!(game.gem.actionqueue[&player].queue.is_empty());
    assert_eq!(game.pending_effects, vec![Spells::Miasma]);
    for _ in 0..10 {
        game.advance_action_queues();
    }
    assert!(game.gem.actionqueue[&player].queue.is_empty());
    assert_eq!(game.pending_effects, vec![Spells::Miasma]);
}

#[test]
fn only_the_front_action_runs() {
    let mut queue = vec![cast(1, "infernum", 30), cast(2, "miasma", 20), cast(3, "walk", 5)];
    assert_eq!(advance_queue(&mut queue, 10), None);
    assert_eq!(queue[0].time_remaining, 20);
    assert_eq!(queue[0].time_action_takes, 30);
    assert_eq!(queue[1].time_remaining, 20);
    assert_eq!(advance_queue(&mut queue, 25), Some(Spells::Infernum));
    assert_eq!(queue.len(), 2);
    assert_eq!(queue[0].id, 2);
    assert_eq!(queue[0].time_remaining, 20);
    assert_eq!(advance_queue(&mut queue, 20), Some(Spells::Miasma));
    assert_eq!(advance_queue(&mut queue, 4), None);
    assert_eq!(queue[0].time_remaining, 1);
    assert_eq!(advance_queue(&mut queue, u32::MAX), None);
    assert!(queue.is_empty());
    assert_eq!(advance_queue(&mut queue, 7), None);
    assert!(queue.is_empty());
}

#[test]
fn queue_drains_in_order_once_time_is_up() {
    let mut queue = vec![cast(1, "miasma", 32), cast(2, "infernum", 48), cast(3, "Miasma", 16)];
    let mut fired = Vec::new();
    for _ in 0..6 {
        if let Some(effect) = advance_queue(&mut queue, 16) {
            fired.push(effect);
        }
    }
    assert!(queue.is_empty());
    assert_eq!(fired, vec![Spells::Miasma, Spells::Infernum, Spells::Miasma]);
}

#[test]
fn time_beyond_a_completion_is_not_passed_on() {
    let mut queue = vec![cast(1, "miasma", 10), cast(2, "miasma", 10)];
    assert_eq!(advance_queue(&mut queue, 19), Some(Spells::Miasma));
    assert_eq!(advance_queue(&mut queue, 1), None);
    assert_eq!(queue.len(), 1);
    assert_eq!(queue[0].time_remaining, 9);
}

#[test]
fn drain_empties_the_queue_whatever_its_size() {
    let (mut game, player, enemy) = world();
    game.s_damage();
    assert!(game.damage_queue.is_empty());
    for i in 0..100 {
        game.damage_queue.push(hit(i % 3, enemy, player));
    }
    game.damage_queue.push(hit(1, 77, player));
    game.s_damage();
    assert!(game.damage_queue.is_empty());
    assert_eq!(health(&game, enemy), 400 - 99);
    game.s_damage();
    assert!(game.damage_queue.is_empty());
    assert_eq!(health(&game, enemy), 400 - 99);
}

#[test]
fn health_stops_at_zero() {
    let (mut game, player, enemy) = world();
    set_health(&mut game, enemy, 10, 10);
    game.damage_queue.push(hit(u32::MAX, enemy, player));
    game.damage_queue.push(hit(4, enemy, player));
    game.s_damage();
    assert_eq!(health(&game, enemy), 0);
    set_health(&mut game, enemy, 10, 7);
    game.damage_queue.push(hit(7, enemy, player));
    game.s_damage();
    assert_eq!(health(&game, enemy), 0);
    game.damage_queue.push(hit(1, enemy, player));
    game.s_damage();
    assert_eq!(health(&game, enemy), 0);
}

#[test]
fn the_dead_stay_dead() {
    let (mut game, player, enemy) = world();
    game.s_mortality();
    assert!(game.gem.mortalities[&enemy].is_alive);
    set_health(&mut game, enemy, 400, 0);
    game.s_mortality();
    assert_eq!(game.gem.mortalities[&enemy].is_alive, false);
    assert!(game.gem.mortalities[&player].is_alive);
    set_health(&mut game, enemy, 400, 400);
    for _ in 0..5 {
        game.tick(16, None, false);
        assert_eq!(game.gem.mortalities[&enemy].is_alive, false);
    }
    let pid = game.gem.mortalities[&enemy].id;
    assert_eq!(game.gem.mortalities[&enemy], GPMortality { id: pid, is_alive: false });
}

#[test]
fn mortality_lags_one_tick_behind_the_kill() {
    let (mut game, player, enemy) = world();
    set_health(&mut game, enemy, 5, 5);
    game.damage_queue.push(hit(5, enemy, player));
    game.tick(16, None, false);
    assert_eq!(health(&game, enemy), 0);
    assert!(game.gem.mortalities[&enemy].is_alive);
    game.tick(16, None, false);
    assert_eq!(game.gem.mortalities[&enemy].is_alive, false);
}

#[test]
fn stats_without_mortality_are_skipped() {
    let mut game = Game::new();
    game.gem.stats.insert(
        9,
        GPStats {
            id: 0,
            health_max: 1,
            health_curr: 0,
            chaos: 0,
            solidity: 0,
            vitality: 0,
            haste: 0,
            will: 0,
            volatility: 0,
        },
    );
    game.s_mortality();
    assert!(game.gem.mortalities.is_empty());
}

#[test]
fn miasma_puts_a_debuff_and_its_icon_on_the_enemy() {
    let (mut game, _player, enemy) = world();
    game.miasma();
    game.miasma();
    let bar = &game.gem.debuffbars[&enemy].debuffs;
    assert_eq!(bar.len(), 2);
    assert_eq!(bar[0].id, 16);
    assert_eq!(bar[1].id, 17);
    assert_eq!(bar[0].name, "miasma");
    assert_eq!((bar[0].total_duration, bar[0].time_left, bar[0].stacks), (4000, 4000, 1));
    assert_eq!(bar[0].pending_damage, 0);
    assert_eq!(game.anim_requests.len(), 2);
    match &game.anim_requests[1] {
        periodicity::animation::AnimationRequest::Spawn(icon) => {
            assert_eq!(icon.texture_id, "miasma");
            assert_eq!(icon.position, (2806 + 128, 1294));
            assert_eq!(icon.frame_time, Some(5_000_000));
            assert_eq!(icon.lifetime, Some(5_000_000));
            assert_eq!(icon.desired_width, Some(128));
            assert!(icon.inanimate);
        }
        other => panic!("unexpected request {:?}", other),
    }
    assert!(game.damage_queue.is_empty());
}

#[test]
fn effects_without_a_target_are_skipped() {
    let mut game = Game::new();
    game.create_player();
    game.pending_effects.push(Spells::Miasma);
    game.pending_effects.push(Spells::Infernum);
    game.pending_effects.push(Spells::UmbraMortis);
    game.tick(16, None, false);
    assert!(game.pending_effects.is_empty());
    assert!(game.anim_requests.is_empty());
    assert!(game.damage_queue.is_empty());
    assert_eq!(game.gem.game_property_id_counter, 8);
}

#[test]
fn effects_fire_in_the_order_of_completion() {
    let (mut game, player, enemy) = world();
    game.pending_effects.push(Spells::Infernum);
    game.pending_effects.push(Spells::Miasma);
    game.delta_time_ms = 16;
    game.state_checker();
    let bar = &game.gem.debuffbars[&enemy].debuffs;
    assert_eq!(bar.len(), 2);
    assert_eq!(bar[0].name, "infernum");
    assert_eq!(bar[1].name, "miasma");
    assert_eq!(
        game.damage_queue,
        vec![Damage { amt: 5, target: enemy, damager: player, damage_type: "infernum".to_string() }]
    );
    assert!(game.pending_effects.is_empty());
}

#[test]
fn combat_text_appears_in_its_box() {
    let (mut game, _player, _enemy) = world();
    for _ in 0..50 {
        game.floating_combat_text(1234, "miasma".to_string());
    }
    game.floating_combat_text(0, "miasma".to_string());
    game.floating_combat_text(7, "frost".to_string());
    assert_eq!(game.floating_texts.len(), 51);
    for text in &game.floating_texts[..50] {
        assert_eq!(text.value, "1234");
        assert!(2800 <= text.position.0 && text.position.0 < 3600);
        assert!(400 <= text.position.1 && text.position.1 < 800);
        assert_eq!(text.velocity, (0, -30));
        assert_eq!(text.scale, 100);
        assert_eq!((text.color.r, text.color.g, text.color.b), (1, 255, 150));
        assert_eq!((text.outline.r, text.outline.g, text.outline.b), (0, 0, 0));
        assert_eq!(text.lifetime, 1000);
    }
    let last = &game.floating_texts[50];
    assert_eq!(last.value, "7");
    assert_eq!((last.color.r, last.color.g, last.color.b), (255, 255, 255));
}

#[test]
fn clock_covers_at_least_a_millisecond_and_stops_at_the_top() {
    let (mut game, _player, _enemy) = world();
    game.tick(0, None, false);
    assert_eq!(game.delta_time_ms, 1);
    assert_eq!(game.time_elapsed_ms, 1);
    game.tick(40, None, false);
    assert_eq!(game.delta_time_ms, 40);
    assert_eq!(game.time_elapsed_ms, 41);
    game.tick(u32::MAX, None, false);
    assert_eq!(game.time_elapsed_ms, u32::MAX);
    assert!(game.ready_to_tick());
    assert!(!Game::new().ready_to_tick());
}

#[test]
fn a_full_cast_of_miasma() {
    let (mut game, player, enemy) = world();
    assert!(game.request_cast(player, Spells::Miasma));
    assert_eq!(game.gem.targets[&player].target_entity, Some(enemy));
    assert_eq!(game.gem.actionqueue[&player].queue.len(), 1);
    assert_eq!(game.gem.actions[&player], game.gem.actionqueue[&player].queue[0]);
    assert_eq!(game.gem.actionqueue[&player].queue[0].action_tag, "miasma");
    assert_eq!(game.gem.actionqueue[&player].queue[0].spell, Some(Spells::Miasma));
    assert_eq!(game.anim_requests.len(), 3);
    // Two seconds of casting.
    for _ in 0..125 {
        game.tick(16, None, false);
    }
    assert!(game.gem.actionqueue[&player].queue.is_empty());
    assert_eq!(game.pending_effects, vec![Spells::Miasma]);
    assert_eq!(health(&game, enemy), 400);
    // The effect fires on the next tick, and the debuff starts with all its time.
    game.tick(16, None, false);
    assert!(game.pending_effects.is_empty());
    assert_eq!(game.gem.debuffbars[&enemy].debuffs[0].time_left, 4000);
    assert_eq!(health(&game, enemy), 400);
    // Four seconds of Miasma at 15 points per second.
    for _ in 0..250 {
        game.tick(16, None, false);
    }
    assert_eq!(health(&game, enemy), 340);
    assert_eq!(game.gem.debuffbars[&enemy].debuffs[0].time_left, 0);
    game.tick(16, None, false);
    assert!(game.gem.debuffbars[&enemy].debuffs.is_empty());
    assert_eq!(health(&game, enemy), 340);
}

#[test]
fn nobody_to_cast_at() {
    let mut game = Game::new();
    game.create_player();
    let player = game.gem.player_id.unwrap();
    assert!(!game.request_cast(player, Spells::Infernum));
    assert!(game.gem.actionqueue[&player].queue.is_empty());
    assert!(game.anim_requests.is_empty());
    assert_eq!(game.gem.game_property_id_counter, 8);
}

#[test]
fn every_debuff_bar_ticks() {
    let (mut game, player, enemy) = world();
    game.gem.debuffbars.get_mut(&enemy).unwrap().debuffs.push(debuff("infernum", 5000));
    game.gem.debuffbars.get_mut(&player).unwrap().debuffs.push(debuff("miasma", 500));
    game.delta_time_ms = 1000;
    game.resolve_debuffs();
    assert_eq!(
        game.damage_queue,
        vec![
            Damage { amt: 15, target: player, damager: player, damage_type: "miasma".to_string() },
            Damage { amt: 2, target: enemy, damager: player, damage_type: "infernum".to_string() },
        ]
    );
    assert_eq!(game.gem.debuffbars[&player].debuffs[0].time_left, 0);
    assert_eq!(game.gem.debuffbars[&enemy].debuffs[0].time_left, 4000);
    game.s_damage();
    assert_eq!(health(&game, player), 65);
    assert_eq!(health(&game, enemy), 398);
}

#[test]
fn startup_is_checked() {
    let mut game = Game::new();
    assert_eq!(game.startup_check(), Err(StartupError::MissingPlayer));
    game.init_game();
    assert_eq!(game.startup_check(), Ok(0));
    game.gem.stats.remove(&0);
    assert_eq!(game.startup_check(), Err(StartupError::PlayerWithoutStats));
}

#[test]
fn combat_text_stands_at_the_drawn_point() {
    let text = combat_text_at(42, "infernum".to_string(), 2, (7, 9));
    assert_eq!(text.value, "42");
    assert_eq!(text.position, (2807, 409));
    assert_eq!(text.velocity, (0, -30));
    assert_eq!(text.scale, 100);
    assert_eq!((text.color.r, text.color.g, text.color.b, text.color.a), (255, 125, 10, 255));
    assert_eq!((text.outline.r, text.outline.g, text.outline.b), (0, 0, 0));
    assert_eq!(text.lifetime, 1000);
    let text = combat_text_at(0, "frost".to_string(), 1, (0, 0));
    assert_eq!(text.value, "0");
    assert_eq!(text.position, (1400, 200));
    assert_eq!(text.scale, 50);
    assert_eq!((text.color.r, text.color.g, text.color.b), (255, 255, 255));
}
