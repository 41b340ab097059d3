use periodicity::animation::AnimationRequest;
use periodicity::color::Color;
use periodicity::entities::EntityManager;
use periodicity::g_properties::Spells;
use periodicity::game::Game;
use periodicity::helpers::{get_stat, get_stat_color, random_point_in_rect, to_rgb, LineWrapper};
use periodicity::properties::{ClickAction, ColorPair, PropertiesEnum};
use periodicity::render_pipeline::{rect_colors, DrawableItem, Fill};
use periodicity::user_input::{cache_coordinate, InputEvent, InputSlot};

fn first_screen() -> Game {
    let mut game = Game::new();
    assert!(game.ready_for_first_screen());
    game.init_main_entry();
    game
}

fn click_at(game: &mut Game, x: i32, y: i32) {
    assert!(game.ready_for_input());
    game.user_input_main_entry(&vec![InputEvent::MouseMoved { x, y }, InputEvent::LeftPressed]);
    assert!(game.ready_for_input());
    game.user_input_main_entry(&vec![InputEvent::LeftReleased]);
}

fn tag_id(em: &EntityManager, tag: &str) -> u32 {
    em.find_entity(tag).expect("the entity exists")
}

#[test]
fn presentation_ids_are_never_reused() {
    let mut em = EntityManager::new();
    let a = em.add_entity(None);
    let b = em.add_entity(Some("named".to_string()));
    em.purge_entity_by_tag("named");
    let c = em.add_entity(None);
    assert_eq!((a, b, c), (0, 1, 2));
    assert_eq!(em.ids[&a].tag, "entity_0");
    assert_eq!(em.ids[&c].tag, "entity_2");
    assert!(!em.ids.contains_key(&b));
    assert_eq!(em.next_pid(), 0);
    assert_eq!(em.next_pid(), 1);
}

#[test]
fn default_components() {
    let mut em = EntityManager::new();
    let id = em.add_entity(Some("thing".to_string()));
    em.add_property_to_entity(PropertiesEnum::Rect, id);
    em.add_property_to_entity(PropertiesEnum::Rect, id);
    em.add_property_to_entity(PropertiesEnum::Text, id);
    em.add_property_to_entity(PropertiesEnum::Healthbar, id);
    em.add_property_to_entity(PropertiesEnum::Castbar, id);
    em.add_property_to_entity(PropertiesEnum::State, id);
    em.add_property_to_entity(PropertiesEnum::TooltipData, id);
    em.add_property_to_entity(PropertiesEnum::Clickable, id);
    let rects = em.get_prects_non_mut(id).expect("rects");
    assert_eq!(rects.len(), 2);
    assert_eq!((rects[0].id, rects[1].id), (0, 1));
    assert_eq!((rects[0].x, rects[0].y, rects[0].width, rects[0].height), (10, 10, 10, 10));
    assert_eq!(rects[0].colors.fill, (19, 81, 150));
    assert!(!rects[0].draw);
    let texts = em.get_ptexts_non_mut(id).expect("texts");
    assert_eq!(texts.len(), 1);
    assert_eq!(texts[0].id, 2);
    assert_eq!(texts[0].text, "Run Code");
    assert_eq!((texts[0].x, texts[0].y, texts[0].scale), (50, 50, 1));
    let hb = em.get_phealthbar_non_mut(id).expect("healthbar");
    assert_eq!((hb.id, hb.strata, hb.draw, hb.gem_entity_id), (3, 20, true, None));
    let cb = em.get_pcastbar_non_mut(id).expect("castbar");
    assert_eq!((cb.id, cb.cast_progress), (4, 0));
    assert_eq!(cb.icon_name, "miasma");
    let st = em.get_pstate_non_mut(id).expect("state");
    assert_eq!(st.id, 5);
    assert_eq!(st.state_vec, vec![0; 500]);
    let tt = em.get_tooltip_data_non_mut(id).expect("tooltip");
    assert_eq!((tt.id, tt.header.as_str(), tt.body.as_str()), (6, "asd", "asd"));
    let cl = em.get_pclickable_non_mut(id).expect("clickable");
    assert_eq!((cl.id, cl.clickable, cl.rect_reference_id), (7, true, None));
    assert_eq!(cl.action, ClickAction::RunButton);
    assert_eq!(em.get_pid_non_mut(id).expect("id").tag, "thing");
    assert!(em.get_prects_non_mut(99).is_none());
    assert!(em.get_ptexts_non_mut(99).is_none());
    assert_eq!(em.property_id_counter, 8);
}

#[test]
fn components_change_in_place() {
    let mut em = EntityManager::new();
    let id = em.create_button(Some("knob".to_string()));
    em.get_prects_mut(id).expect("rects")[0].x = 77;
    em.get_ptexts_mut(id).expect("texts")[0].text = "Go".to_string();
    em.get_tooltip_data_mut(id).expect("tooltip").header = "Head".to_string();
    em.get_pclickable_mut(id).expect("clickable").rect_reference_id = Some(0);
    em.get_pid_mut(id).expect("id").tag = "dial".to_string();
    assert!(em.get_phealthbar_mut(id).is_none());
    assert!(em.get_pcastbar_mut(id).is_none());
    assert!(em.get_pstate_mut(id).is_none());
    assert_eq!(em.get_prects_non_mut(id).unwrap()[0].x, 77);
    assert_eq!(em.get_ptexts_non_mut(id).unwrap()[0].text, "Go");
    assert_eq!(em.get_tooltip_data_non_mut(id).unwrap().header, "Head");
    assert_eq!(em.find_entity("dial"), Some(id));
    assert_eq!(em.find_entity("knob"), None);
    em.get_button_rect_mut(id).expect("button rect").y = 5;
    assert_eq!(em.get_button_rect_non_mut(id).expect("button rect").y, 5);
    em.get_prects_mut_by_tag("dial").expect("rects")[0].width = 3;
    assert_eq!(em.get_prects_by_name("dial").expect("rects")[0].width, 3);
    assert!(em.get_prects_mut_by_tag("knob").is_none());
    assert_eq!(em.get_all_buttons(), vec![id]);
}

#[test]
fn purge_removes_every_component_of_the_tagged() {
    let mut em = EntityManager::new();
    let keep = em.create_button(Some("keep".to_string()));
    let gone = em.create_button(Some("gone".to_string()));
    let gone_too = em.create_button(Some("gone".to_string()));
    em.add_property_to_entity(PropertiesEnum::Healthbar, gone);
    em.purge_entity_by_tag("gone");
    assert_eq!(em.get_all_buttons(), vec![keep]);
    for id in [gone, gone_too] {
        assert!(!em.ids.contains_key(&id));
        assert!(!em.rectangles.contains_key(&id));
        assert!(!em.texts.contains_key(&id));
        assert!(!em.tooltip_data.contains_key(&id));
        assert!(!em.clickables.contains_key(&id));
        assert!(!em.healthbars.contains_key(&id));
    }
    assert_eq!(em.entity_id_counter, 3);
    assert_eq!(em.property_id_counter, 13);
}

#[test]
fn first_screen_has_its_buttons_and_regions() {
    let game = first_screen();
    let em = &game.em;
    let run = tag_id(em, "run_button");
    let a = tag_id(em, "a_button");
    let d = tag_id(em, "d_button");
    assert_eq!(em.get_all_buttons(), vec![0, 1, 2, 3, 4]);
    assert_eq!((run, a, d), (0, 1, 4));
    let rect = em.get_button_rect_non_mut(run).expect("run rect");
    assert_eq!((rect.x, rect.y, rect.width, rect.height), (20, 100, 400, 100));
    assert_eq!(rect.colors, ColorPair { fill: (4, 66, 137), outline: Some((24, 26, 28)) });
    assert_eq!(rect.pressed_color.unwrap().fill, (127, 184, 251));
    assert_eq!(rect.hovered_color.unwrap().fill, (0, 92, 197));
    assert_eq!((rect.draw, rect.hovered, rect.strata), (true, Some(false), 10));
    assert_eq!(em.texts[&run][0].text, "Run Code");
    assert_eq!((em.texts[&run][0].x, em.texts[&run][0].scale), (30, 2));
    assert_eq!(em.tooltip_data[&run].header, "Run Code Button");
    assert_eq!(em.clickables[&run].action, ClickAction::RunButton);
    assert_eq!(em.clickables[&run].rect_reference_id, Some(rect.id));
    let rect = em.get_button_rect_non_mut(a).expect("a rect");
    assert_eq!((rect.x, rect.y, rect.width, rect.height), (440, 100, 200, 100));
    assert_eq!(rect.colors.fill, (243, 88, 2));
    assert_eq!(em.texts[&a][0].text, "A");
    assert_eq!((em.texts[&a][0].x, em.texts[&a][0].scale), (450, 1));
    assert_eq!(em.tooltip_data[&a].body, "A button functionality.");
    assert_eq!(em.clickables[&a].action, ClickAction::A);
    let rect = em.get_button_rect_non_mut(d).expect("d rect");
    assert_eq!(rect.x, 1040);
    assert_eq!(em.clickables[&d].action, ClickAction::D);
    let textbox = tag_id(em, "textbox_encap");
    let r = &em.rectangles[&textbox][0];
    assert_eq!((r.x, r.y, r.width, r.height, r.strata), (20, 240, 1220, 1600, 10));
    let landscape = tag_id(em, "landscape");
    let r = &em.rectangles[&landscape][0];
    assert_eq!((r.x, r.y, r.width, r.height, r.strata), (1732, 20, 2088, 1064, 5));
    let tooltip = tag_id(em, "tooltip");
    let r = &em.rectangles[&tooltip][0];
    assert_eq!((r.x, r.y, r.width, r.height), (1732, 1564, 1034, 400));
    let enemy = tag_id(em, "enemy_info_region");
    let r = &em.rectangles[&enemy][0];
    assert_eq!((r.x, r.y, r.width, r.height), (2796, 1104, 1024, 400));
    assert_eq!(em.texts[&enemy][0].text, "Alpine Terror");
    assert_eq!((em.texts[&enemy][0].x, em.texts[&enemy][0].y), (2800, 1104));
    let hb = &em.healthbars[&enemy];
    assert_eq!((hb.x, hb.y, hb.width, hb.height), (2806, 1184, 1004, 100));
    assert_eq!(hb.gem_entity_id, game.gem.find_entity(&"alpine_terror".to_string()));
    assert_eq!(hb.gem_entity_id, Some(1));
}

#[test]
fn first_screen_shows_the_player() {
    let game = first_screen();
    let em = &game.em;
    let player = em.get_player_id().expect("the player is shown");
    assert_eq!(player, 5);
    let r = &em.rectangles[&player][0];
    assert_eq!((r.x, r.y, r.width, r.height, r.draw), (1732, 1104, 1034, 400, true));
    assert_eq!(em.texts[&player][0].text, "Player Info");
    assert_eq!((em.texts[&player][0].x, em.texts[&player][0].y), (1736, 1104));
    let hb = &em.healthbars[&player];
    assert_eq!((hb.x, hb.y, hb.width, hb.height, hb.strata), (1746, 1184, 1004, 100, 30));
    assert_eq!(hb.gem_entity_id, game.gem.player_id);
    assert_eq!(hb.base_colors.fill, (64, 64, 64));
    assert_eq!(hb.inner_colors.fill, (255, 100, 100));
    let cb = &em.castbars[&player];
    assert_eq!((cb.x, cb.y, cb.width, cb.height), (1746, 1304, 904, 100));
    assert_eq!(cb.cast_progress, 800);
    assert_eq!(cb.inner_colors.fill, (100, 100, 255));
    let tt = &em.tooltip_data[&player];
    assert_eq!(tt.header, "Miasma");
    assert!(tt.body.starts_with("    A contagious metaphysical impurity. \nSpreads"));
    assert_eq!(tt.icon, Some("miasma".to_string()));
    assert_eq!((tt.x, tt.y, tt.width, tt.height), (1746, 1304, 1004, 100));
    assert_eq!(em.state_vecs[&player].state_vec.len(), 500);
    let names: Vec<String> = game
        .anim_requests
        .iter()
        .map(|r| match r {
            AnimationRequest::Spawn(s) => s.texture_id.clone(),
            AnimationRequest::RemoveByTexture(t) => format!("-{}", t),
        })
        .collect();
    assert_eq!(names, vec!["my_warlock", "rainier_background_2", "Alpe", "ground_overlay3"]);
    match &game.anim_requests[2] {
        AnimationRequest::Spawn(s) => {
            assert_eq!(s.position, (3000, 414));
            assert_eq!((s.desired_width, s.desired_height), (Some(512), Some(512)));
            assert_eq!(s.frame_time, Some(9_999_000_000));
            assert!(s.finished && s.inanimate && !s.play_once);
        }
        other => panic!("unexpected request {:?}", other),
    }
    assert_eq!(game.gem.gids.len(), 2);
    assert_eq!(game.gem.gids[&0].tag, "player");
    assert_eq!(game.gem.gids[&1].tag, "alpine_terror");
    assert_eq!(game.em_gem_link.len(), 1);
    assert_eq!(game.em_gem_link.get(&player), game.gem.player_id.as_ref());
    assert_eq!(game.em_gem_link[&5], 0);
}

#[test]
fn input_slots() {
    assert_eq!(InputSlot::count(), 4);
    assert_eq!(InputSlot::MouseX.index(), 0);
    assert_eq!(InputSlot::MouseY.index(), 1);
    assert_eq!(InputSlot::LMBCurr.index(), 2);
    assert_eq!(InputSlot::LMBPrev.index(), 3);
    assert_eq!(InputSlot::Count.index(), InputSlot::count());
    assert_eq!(cache_coordinate(0), 0);
    assert_eq!(cache_coordinate(i32::MAX), 2147483647);
    assert_eq!(cache_coordinate(-1), u32::MAX);
    assert_eq!(cache_coordinate(i32::MIN), 2147483648);
}

#[test]
fn events_are_cached() {
    let mut game = first_screen();
    game.cache_user_input(&vec![
        InputEvent::MouseMoved { x: 3, y: 4 },
        InputEvent::Other,
        InputEvent::LeftPressed,
        InputEvent::MouseMoved { x: 30, y: -2 },
    ]);
    assert_eq!(game.user_input_cache, [30, u32::MAX - 1, 1, 0]);
    assert!(game.window_open);
    game.cache_user_input(&vec![InputEvent::LeftReleased, InputEvent::Closed, InputEvent::Other]);
    assert_eq!(game.user_input_cache, [30, u32::MAX - 1, 0, 0]);
    assert!(!game.window_open);
    game.cache_user_input(&vec![]);
    assert!(!game.window_open);
}

#[test]
fn hover_marks_what_the_pointer_is_in() {
    let mut game = first_screen();
    game.user_input_cache = [420, 200, 0, 0];
    game.set_hovered_flags();
    let run = tag_id(&game.em, "run_button");
    let a = tag_id(&game.em, "a_button");
    let tooltip = tag_id(&game.em, "tooltip");
    assert_eq!(game.em.rectangles[&run][0].hovered, Some(true));
    assert_eq!(game.em.rectangles[&a][0].hovered, None);
    assert_eq!(game.em.rectangles[&tooltip][0].hovered, None);
    game.user_input_cache = [421, 200, 0, 0];
    game.set_hovered_flags();
    assert_eq!(game.em.rectangles[&run][0].hovered, None);
    game.user_input_cache = [u32::MAX, u32::MAX, 0, 0];
    game.em.rectangles.get_mut(&run).unwrap()[0].x = u32::MAX;
    game.set_hovered_flags();
    assert_eq!(game.em.rectangles[&run][0].hovered, None);
}

#[test]
fn a_click_on_a_casts_miasma() {
    let mut game = first_screen();
    let player = game.gem.player_id.unwrap();
    let requests = game.anim_requests.len();
    game.user_input_main_entry(&vec![InputEvent::MouseMoved { x: 500, y: 150 }, InputEvent::LeftPressed]);
    let a = tag_id(&game.em, "a_button");
    assert_eq!(game.em.rectangles[&a][0].pressed, Some(true));
    assert_eq!(game.em.rectangles[&a][0].hovered, Some(true));
    assert_eq!(game.user_input_cache, [500, 150, 1, 1]);
    assert_eq!(game.gem.actionqueue[&player].queue.len(), 1);
    assert_eq!(game.gem.actionqueue[&player].queue[0].spell, Some(Spells::Miasma));
    assert_eq!(game.gem.actionqueue[&player].queue[0].time_remaining, 2000);
    assert_eq!(game.gem.targets[&player].target_entity, Some(1));
    assert_eq!(game.anim_requests.len(), requests + 3);
    assert_eq!(game.anim_requests[requests], AnimationRequest::RemoveByTexture("my_warlock".to_string()));
    match &game.anim_requests[requests + 2] {
        AnimationRequest::Spawn(s) => {
            assert_eq!(s.texture_id, "Miasma_anim2");
            assert_eq!(s.total_frames, 12);
            assert_eq!(s.frame_time, Some(166_666));
            assert_eq!(s.position, (2000, 414));
        }
        other => panic!("unexpected request {:?}", other),
    }
    // Holding the button down is no second click.
    game.user_input_main_entry(&vec![InputEvent::Other]);
    assert_eq!(game.gem.actionqueue[&player].queue.len(), 1);
    game.user_input_main_entry(&vec![InputEvent::LeftReleased]);
    assert_eq!(game.em.rectangles[&a][0].pressed, Some(false));
    assert_eq!(game.user_input_cache, [500, 150, 0, 0]);
    let landscape = tag_id(&game.em, "landscape");
    assert_eq!(game.em.rectangles[&landscape][0].pressed, None);
}

#[test]
fn a_click_on_b_casts_infernum_and_c_hurts_the_terror() {
    let mut game = first_screen();
    let player = game.gem.player_id.unwrap();
    click_at(&mut game, 700, 100);
    assert_eq!(game.gem.actionqueue[&player].queue[0].action_tag, "infernum");
    click_at(&mut game, 900, 180);
    assert_eq!(game.gem.stats[&1].health_curr, 395);
    for _ in 0..100 {
        click_at(&mut game, 900, 180);
    }
    assert_eq!(game.gem.stats[&1].health_curr, 0);
    let before = game.clone();
    click_at(&mut game, 1100, 150);
    assert_eq!(game.gem, before.gem);
    assert_eq!(game.anim_requests, before.anim_requests);
    click_at(&mut game, 3000, 2000);
    assert_eq!(game.gem, before.gem);
}

#[test]
fn clicks_dispatch_by_action() {
    let mut game = first_screen();
    game.branch_from_click(ClickAction::RunButton);
    let run = tag_id(&game.em, "run_button");
    assert_eq!(game.em.rectangles[&run][0].pressed, Some(true));
    let before = game.clone();
    for action in [ClickAction::OtherButton, ClickAction::D, ClickAction::E, ClickAction::F] {
        game.branch_from_click(action);
    }
    assert_eq!(game.em, before.em);
    assert_eq!(game.gem, before.gem);
    game.branch_from_click(ClickAction::H);
    assert_eq!(game.em, before.em);
    game.branch_from_click(ClickAction::B);
    assert_eq!(game.gem.actionqueue[&0].queue.len(), 1);
}

#[test]
fn the_stats_panel_opens_and_closes() {
    let mut game = first_screen();
    let entities = game.em.ids.len();
    let requests = game.anim_requests.len();
    game.handle_g_button();
    assert!(game.stats_panel_open);
    assert_eq!(game.em.ids.len(), entities + 11);
    for i in 1..=6u32 {
        let frame = tag_id(&game.em, &format!("encap_{}", i));
        let r = &game.em.rectangles[&frame][0];
        assert_eq!((r.x, r.y, r.width, r.height), (20, 240 * i, 1220, 240));
        assert_eq!(r.colors.fill, if i == 1 { (29, 33, 37) } else { (36, 41, 46) });
        assert!(r.draw);
    }
    assert_eq!(game.em.find_entity("encap_icon_1"), None);
    let label = tag_id(&game.em, "encap_icon_2");
    let t = &game.em.texts[&label][0];
    assert_eq!(t.text, "chaos: 1");
    assert_eq!((t.x, t.y, t.scale, t.strata), (280, 540, 6, 21));
    assert_eq!(t.colors.fill, (112, 36, 163));
    let label = tag_id(&game.em, "encap_icon_6");
    assert_eq!(game.em.texts[&label][0].text, "will: 1");
    assert_eq!(game.anim_requests.len(), requests + 5);
    match &game.anim_requests[requests + 1] {
        AnimationRequest::Spawn(s) => {
            assert_eq!(s.texture_id, "solidity");
            assert_eq!(s.position, (20, 720));
            assert_eq!(s.frame_time, None);
            assert_eq!(s.desired_width, Some(240));
        }
        other => panic!("unexpected request {:?}", other),
    }
    game.handle_g_button();
    assert!(!game.stats_panel_open);
    assert_eq!(game.em.ids.len(), entities);
    assert_eq!(game.em.find_entity("encap_3"), None);
    assert_eq!(game.em.find_entity("encap_icon_3"), None);
    assert_eq!(game.anim_requests.len(), requests + 10);
    assert_eq!(
        game.anim_requests[requests + 9],
        AnimationRequest::RemoveByTexture("will".to_string())
    );
    game.branch_from_click(ClickAction::G);
    assert!(game.stats_panel_open);
}

#[test]
fn stat_rows() {
    assert_eq!(get_stat(2), Some("chaos".to_string()));
    assert_eq!(get_stat(3), Some("solidity".to_string()));
    assert_eq!(get_stat(4), Some("vitality".to_string()));
    assert_eq!(get_stat(5), Some("haste".to_string()));
    assert_eq!(get_stat(6), Some("will".to_string()));
    assert_eq!(get_stat(1), None);
    assert_eq!(get_stat(7), None);
    assert_eq!(get_stat_color(2), Some((112, 36, 163)));
    assert_eq!(get_stat_color(3), Some((122, 122, 115)));
    assert_eq!(get_stat_color(4), Some((224, 65, 52)));
    assert_eq!(get_stat_color(5), Some((240, 190, 88)));
    assert_eq!(get_stat_color(6), Some((198, 38, 65)));
    assert_eq!(get_stat_color(0), None);
    assert_eq!(to_rgb(Color::rgba(1, 2, 3, 4)), (1, 2, 3));
    let mut game = first_screen();
    game.gem.stats.get_mut(&0).unwrap().vitality = 9;
    assert_eq!(game.get_player_stats(4), Some(9));
    assert_eq!(game.get_player_stats(2), Some(1));
    assert_eq!(game.get_player_stats(7), None);
    assert_eq!(Game::new().get_player_stats(4), None);
}

#[test]
fn random_points_lie_in_the_rectangle() {
    let mut seen_x = [false; 3];
    let mut seen_y = [false; 2];
    for _ in 0..200 {
        let (x, y) = random_point_in_rect(3, 2);
        assert!(x < 3 && y < 2);
        seen_x[x as usize] = true;
        seen_y[y as usize] = true;
    }
    assert!(seen_x.iter().all(|s| *s));
    assert!(seen_y.iter().all(|s| *s));
    assert_eq!(random_point_in_rect(1, 1), (0, 0));
}

#[test]
fn a_rectangle_shows_its_state() {
    let mut game = first_screen();
    let run = tag_id(&game.em, "run_button");
    let own = ((4, 66, 137), Some((24, 26, 28)));
    let rect = game.em.rectangles[&run][0];
    assert_eq!(rect_colors(&rect), own);
    game.user_input_cache = [30, 110, 0, 0];
    game.set_hovered_flags();
    assert_eq!(rect_colors(&game.em.rectangles[&run][0]).0, (0, 92, 197));
    game.handle_run_button();
    assert_eq!(rect_colors(&game.em.rectangles[&run][0]).0, (127, 184, 251));
    let mut bare = game.em.rectangles[&run][0];
    bare.pressed_color = None;
    assert_eq!(rect_colors(&bare), own);
    bare.pressed = Some(false);
    bare.hovered_color = None;
    assert_eq!(rect_colors(&bare), own);
}

#[test]
fn bars_read_the_game() {
    let mut game = first_screen();
    let enemy_panel = tag_id(&game.em, "enemy_info_region");
    let hb = game.em.healthbars[&enemy_panel];
    assert_eq!(game.healthbar_fill(&hb), Fill { part: 400, whole: 400 });
    game.gem.stats.get_mut(&1).unwrap().health_curr = 100;
    assert_eq!(game.healthbar_fill(&hb), Fill { part: 100, whole: 400 });
    game.gem.stats.get_mut(&1).unwrap().health_max = 0;
    assert_eq!(game.healthbar_fill(&hb), Fill { part: 100, whole: 1 });
    let mut unbound = hb;
    unbound.gem_entity_id = None;
    assert_eq!(game.healthbar_fill(&unbound), Fill { part: 1, whole: 1 });
    unbound.gem_entity_id = Some(77);
    assert_eq!(game.healthbar_fill(&unbound), Fill { part: 1, whole: 1 });

    assert_eq!(game.cast_reading(), None);
    game.request_cast(0, Spells::Infernum);
    game.tick(500, None, false);
    let reading = game.cast_reading().expect("a cast is shown");
    assert_eq!(reading.progress, Fill { part: 500, whole: 2000 });
    assert_eq!(reading.fill, (233, 103, 6));
    assert_eq!(reading.icon, "infernum");
    game.tick(1500, None, false);
    assert_eq!(game.cast_reading(), None);

    assert_eq!(game.xp_reading(), Some((5, 502)));
    game.gem.levels.get_mut(&0).unwrap().curr_xp = 10;
    assert_eq!(game.xp_reading(), Some((5, 100)));
    game.gem.levels.get_mut(&0).unwrap().curr_xp = 0;
    assert_eq!(game.xp_reading(), None);
    game.gem.levels.get_mut(&0).unwrap().curr_xp = 101;
    assert_eq!(game.xp_reading(), None);
}

#[test]
fn dead_sprites_are_known() {
    let mut game = first_screen();
    assert!(game.sprite_is_alive("Alpe"));
    assert!(game.sprite_is_alive("my_warlock"));
    game.gem.stats.get_mut(&1).unwrap().health_curr = 0;
    game.s_mortality();
    assert!(!game.sprite_is_alive("Alpe"));
    assert!(game.sprite_is_alive("my_warlock"));
    game.gem.texture_to_entity.push(("Alpe".to_string(), 0));
    assert!(game.sprite_is_alive("Alpe"));
}

#[test]
fn tooltips_under_the_pointer() {
    let mut game = first_screen();
    game.user_input_cache = [1746, 1304, 0, 0];
    assert_eq!(game.hovered_tooltips(), vec![5]);
    game.user_input_cache = [20, 100, 0, 0];
    assert_eq!(game.hovered_tooltips(), vec![0]);
    game.user_input_cache = [440, 200, 0, 0];
    assert_eq!(game.hovered_tooltips(), vec![1]);
    game.user_input_cache = [0, 0, 0, 0];
    assert!(game.hovered_tooltips().is_empty());
}

#[test]
fn draw_list_is_in_drawing_order() {
    let game = first_screen();
    let list = game.render_construct_draw_list();
    let strata: Vec<u8> = list.iter().map(|(s, _)| *s).collect();
    let mut sorted = strata.clone();
    sorted.sort();
    assert_eq!(strata, sorted);
    assert_eq!(list.len(), 10 + 7 + 2);
    match &list[0].1 {
        DrawableItem::Rect(r) => assert_eq!((r.strata, r.width), (5, 2088)),
        other => panic!("unexpected item {:?}", other),
    }
    // Within a stratum: rectangles in ascending order of their entities, then texts.
    let tens: Vec<String> = list
        .iter()
        .filter(|(s, _)| *s == 10)
        .map(|(_, item)| match item {
            DrawableItem::Rect(r) => format!("rect {}", r.x),
            DrawableItem::Text(t) => format!("text {}", t.text),
            DrawableItem::Healthbar(h) => format!("bar {}", h.x),
        })
        .collect();
    assert_eq!(
        tens,
        vec![
            "rect 20", "rect 440", "rect 640", "rect 840", "rect 1040", "rect 1732", "rect 20",
            "rect 2796", "rect 1732", "text Player Info", "text Alpine Terror"
        ]
    );
    assert!(matches!(list[list.len() - 1].1, DrawableItem::Healthbar(_)));
    let hidden = Game::new();
    assert!(hidden.render_construct_draw_list().is_empty());
}

#[test]
fn words_wrap_where_the_line_is_full() {
    let fits = |line: &str| line.len() <= 11;
    let mut wrapper = LineWrapper::new();
    for word in "the quick brown fox jumps over the lazy dog".split_whitespace() {
        let try_line = wrapper.candidate(word);
        wrapper.place(word, fits(&try_line));
    }
    assert_eq!(wrapper.finish(), "the quick\nbrown fox\njumps over\nthe lazy\ndog");
    let mut wrapper = LineWrapper::new();
    assert_eq!(wrapper.candidate("unbreakable"), "unbreakable");
    wrapper.place("unbreakable", false);
    wrapper.place("too", false);
    assert_eq!(wrapper.candidate("b"), "too b");
    assert_eq!(wrapper.finish(), "unbreakable\ntoo");
    assert_eq!(LineWrapper::new().finish(), "");
}
