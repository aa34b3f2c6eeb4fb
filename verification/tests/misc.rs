use hall_signals::asset_loading::{check_asset_loading, AssetLoaderState};
use hall_signals::audio::{
    may_play, pressure_plate_pressed_audio, pressure_plate_released_audio,
    PressurePlateSoundCooldown,
};
use hall_signals::command::Command;
use hall_signals::crosshair::{
    display_interaction_state, toggle_aim_state, CrosshairState, Prompt, Reticle,
};
use hall_signals::distance::{collider_distance_system, rigid_body_distance_system, LayerChange};
use hall_signals::entity_set::EntitySet;
use hall_signals::glow::{despawn_tween_on_finish, restart_glow, Glow, Part};
use hall_signals::inert::inert_direct_signal;
use hall_signals::interaction::{Interactable, Interactions, RayHit};
use hall_signals::player::Held;

#[test]
fn loading_ends_when_all_assets_arrived() {
    assert_eq!(check_asset_loading(&vec![true, false, true]), AssetLoaderState::Loading);
    assert_eq!(check_asset_loading(&vec![false]), AssetLoaderState::Loading);
    assert_eq!(check_asset_loading(&vec![true, true]), AssetLoaderState::Postprocess);
    assert_eq!(check_asset_loading(&vec![]), AssetLoaderState::Postprocess);
}

#[test]
fn menu_key_toggles_crosshair() {
    assert_eq!(toggle_aim_state(Some(CrosshairState::Shown)), Some(CrosshairState::Hidden));
    assert_eq!(toggle_aim_state(Some(CrosshairState::Hidden)), Some(CrosshairState::Shown));
    assert_eq!(toggle_aim_state(None), None);
}

#[test]
fn crosshair_names_what_can_be_done() {
    let press = Some(RayHit { entity: 1, interactable: Some(Interactable::new(Interactions::Press)) });
    let pick = Some(RayHit { entity: 1, interactable: Some(Interactable::new(Interactions::PickUp)) });
    let wall = Some(RayHit { entity: 1, interactable: None });
    assert_eq!(display_interaction_state(press, None), Reticle { lit: true, prompt: Prompt::Press });
    assert_eq!(display_interaction_state(pick, None), Reticle { lit: true, prompt: Prompt::PickUp });
    assert_eq!(
        display_interaction_state(press, Some(Held { can_release: true })),
        Reticle { lit: true, prompt: Prompt::Press }
    );
    assert_eq!(
        display_interaction_state(pick, Some(Held { can_release: true })),
        Reticle { lit: false, prompt: Prompt::Release }
    );
    assert_eq!(
        display_interaction_state(pick, Some(Held { can_release: false })),
        Reticle { lit: false, prompt: Prompt::Nothing }
    );
    assert_eq!(display_interaction_state(wall, None), Reticle { lit: false, prompt: Prompt::Nothing });
    assert_eq!(
        display_interaction_state(None, Some(Held { can_release: true })),
        Reticle { lit: false, prompt: Prompt::Release }
    );
    assert_eq!(display_interaction_state(None, None), Reticle { lit: false, prompt: Prompt::Nothing });
}

#[test]
fn prompt_words() {
    assert_eq!(Prompt::Press.text(), "Press");
    assert_eq!(Prompt::PickUp.text(), "Pick Up");
    assert_eq!(Prompt::Release.text(), "Release");
    assert_eq!(Prompt::Nothing.text(), "");
}

#[test]
fn sound_cooldown_keeps_sounds_apart() {
    assert!(may_play(None, 0, 100));
    assert!(!may_play(Some(1_000), 1_099, 100));
    assert!(may_play(Some(1_000), 1_100, 100));
    assert!(!may_play(Some(1_000), 500, 100));
    assert!(may_play(Some(1_000), 500, 0));
}

#[test]
fn plate_sounds_have_separate_cooldowns() {
    let mut cooldown = PressurePlateSoundCooldown::new();
    assert_eq!(cooldown.cooldown_duration, 100_000_000);
    assert!(pressure_plate_pressed_audio(&mut cooldown, 1_000_000_000, true));
    assert_eq!(cooldown.last_down_time, Some(1_000_000_000));
    assert!(!pressure_plate_pressed_audio(&mut cooldown, 1_050_000_000, true));
    assert_eq!(cooldown.last_down_time, Some(1_000_000_000));
    assert!(pressure_plate_released_audio(&mut cooldown, 1_050_000_000, true));
    assert_eq!(cooldown.last_up_time, Some(1_050_000_000));
    assert!(pressure_plate_pressed_audio(&mut cooldown, 1_100_000_000, true));
    assert!(!pressure_plate_released_audio(&mut cooldown, 1_100_000_000, true));
}

#[test]
fn plate_without_a_place_makes_no_sound() {
    let mut cooldown = PressurePlateSoundCooldown::new();
    assert!(!pressure_plate_pressed_audio(&mut cooldown, 5, false));
    assert_eq!(cooldown.last_down_time, None);
    assert!(!pressure_plate_released_audio(&mut cooldown, 5, false));
    assert_eq!(cooldown.last_up_time, None);
}

#[test]
fn bodies_rest_far_away_and_wake_nearby() {
    assert_eq!(rigid_body_distance_system(1, true, true, false), vec![Command::EnableBody(1)]);
    assert_eq!(rigid_body_distance_system(1, false, false, true), vec![Command::DisableBody(1)]);
    assert_eq!(rigid_body_distance_system(1, false, false, false), vec![]);
    assert_eq!(rigid_body_distance_system(1, true, false, true), vec![]);
    assert_eq!(rigid_body_distance_system(1, true, false, false), vec![]);
    assert_eq!(rigid_body_distance_system(1, false, true, false), vec![]);
    assert_eq!(rigid_body_distance_system(1, false, true, true), vec![]);
    assert_eq!(rigid_body_distance_system(1, true, true, true), vec![Command::EnableBody(1)]);
}

#[test]
fn colliders_lose_layers_far_away() {
    assert_eq!(collider_distance_system(true, true, false, false), LayerChange::Restore);
    assert_eq!(collider_distance_system(false, false, true, false), LayerChange::Disable);
    assert_eq!(collider_distance_system(false, false, true, true), LayerChange::Keep);
    assert_eq!(collider_distance_system(true, false, true, false), LayerChange::Keep);
    assert_eq!(collider_distance_system(false, true, false, false), LayerChange::Keep);
    assert_eq!(collider_distance_system(false, false, false, false), LayerChange::Keep);
    assert_eq!(collider_distance_system(true, true, true, true), LayerChange::Restore);
}

#[test]
fn glow_restarts_part_by_part() {
    let animations = EntitySet::from_vec(&vec![90, 91, 92]);
    let parts = vec![
        Part { entity: 10, children: vec![90, 5, 91], has_material: true },
        Part { entity: 11, children: vec![92], has_material: false },
        Part { entity: 12, children: vec![], has_material: true },
    ];
    assert_eq!(
        restart_glow(&parts, &animations, Glow::Up),
        vec![
            Command::Despawn(90),
            Command::Despawn(91),
            Command::GlowUp(10),
            Command::Despawn(92),
            Command::GlowUp(12)
        ]
    );
    assert_eq!(
        restart_glow(&parts, &EntitySet::new(), Glow::Flash),
        vec![Command::Flash(10), Command::Flash(12)]
    );
    assert_eq!(restart_glow(&vec![], &animations, Glow::Down), vec![]);
}

#[test]
fn ended_animation_is_cleared_but_for_colliders() {
    let colliders = EntitySet::from_vec(&vec![2]);
    assert_eq!(
        despawn_tween_on_finish(&vec![1, 2, 3], &colliders),
        vec![Command::Despawn(1), Command::Despawn(3)]
    );
    assert_eq!(despawn_tween_on_finish(&vec![], &colliders), vec![]);
}

#[test]
fn inert_device_flares_on_signal() {
    let inert = EntitySet::from_vec(&vec![1]);
    let lit = EntitySet::from_vec(&vec![11]);
    assert_eq!(inert_direct_signal(1, &inert, &vec![10, 11], &lit), vec![Command::FlareOut(11)]);
    assert_eq!(inert_direct_signal(2, &inert, &vec![10, 11], &lit), vec![]);
}
