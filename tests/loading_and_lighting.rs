use dungeon_scene::app_state::{start_game, wait_for_scene_to_load, AppState, SetupProgress, Transition};
use dungeon_scene::assets::{AssetsLoading, LoadState};
use dungeon_scene::lighting::{
    fix_scene_emissive_materials, fix_scene_point_lights, fix_scene_torches, is_torch, Emissive,
};

fn tracker(n: usize) -> AssetsLoading {
    let mut t = AssetsLoading::new();
    for i in 0..n {
        assert_eq!(t.register(), i);
    }
    t
}

#[test]
fn tracker_fails_whatever_the_completion_order() {
    let orders: [[usize; 3]; 3] = [[0, 1, 2], [2, 1, 0], [1, 2, 0]];
    for order in orders.iter() {
        let mut t = tracker(3);
        for (step, &h) in order.iter().enumerate() {
            let state = if h == 1 { LoadState::Failed } else { LoadState::Loaded };
            t.report(h, state);
            if order[..=step].contains(&1) {
                assert_eq!(t.aggregate_status(), LoadState::Failed);
            } else {
                assert_eq!(t.aggregate_status(), LoadState::Pending);
            }
        }
        assert_eq!(t.aggregate_status(), LoadState::Failed);
    }
}

#[test]
fn tracker_loaded_only_when_all_loaded() {
    let mut t = tracker(2);
    assert_eq!(t.aggregate_status(), LoadState::Pending);
    t.report(0, LoadState::Loaded);
    assert_eq!(t.aggregate_status(), LoadState::Pending);
    t.report(1, LoadState::Loaded);
    assert_eq!(t.aggregate_status(), LoadState::Loaded);
    assert_eq!(t.len(), 2);
    assert_eq!(t.state(1), LoadState::Loaded);
    assert_eq!(AssetsLoading::new().aggregate_status(), LoadState::Loaded);
}

#[test]
fn phases_move_forward() {
    assert_eq!(AppState::default(), AppState::LoadingAssets);
    let mut progress = SetupProgress::new();
    let s = AppState::LoadingAssets;
    assert_eq!(s.step(LoadState::Pending, &progress), Transition::Stay);
    assert_eq!(s.step(LoadState::Failed, &progress), Transition::Exit);
    let t = s.step(LoadState::Loaded, &progress);
    assert_eq!(t, Transition::Enter(AppState::SettingUpScene));
    let s = s.apply(t);
    assert_eq!(s, AppState::SettingUpScene);
    assert_eq!(s.step(LoadState::Loaded, &progress), Transition::Stay);
    assert!(progress.begin_physics());
    assert!(!progress.begin_physics());
    assert_eq!(start_game(&progress), Transition::Stay);
    assert!(progress.begin_lighting());
    assert!(!progress.begin_lighting());
    assert!(progress.is_complete());
    let t = s.step(LoadState::Pending, &progress);
    assert_eq!(t, Transition::Enter(AppState::InGame));
    let s = s.apply(t);
    assert_eq!(s, AppState::InGame);
    assert_eq!(s.step(LoadState::Failed, &progress), Transition::Stay);
    assert_eq!(s.apply(Transition::Exit), AppState::InGame);
}

#[test]
fn loading_decisions() {
    assert_eq!(wait_for_scene_to_load(LoadState::Loaded), Transition::Enter(AppState::SettingUpScene));
    assert_eq!(wait_for_scene_to_load(LoadState::Failed), Transition::Exit);
    assert_eq!(wait_for_scene_to_load(LoadState::Pending), Transition::Stay);
}

#[test]
fn every_light_casts_shadows_after_fixup() {
    let mut lights = vec![true, false, false, true];
    assert_eq!(fix_scene_point_lights(&mut lights), 2);
    assert_eq!(lights, vec![true; 4]);
    assert_eq!(fix_scene_point_lights(&mut lights), 0);
    let mut none: Vec<bool> = Vec::new();
    assert_eq!(fix_scene_point_lights(&mut none), 0);
}

#[test]
fn torches_are_marked() {
    let names = vec![
        String::from("TorchCylinder.003"),
        String::from("Torch"),
        String::from("WallTorchCylinder"),
        String::from("TorchCylinder"),
    ];
    assert_eq!(fix_scene_torches(&names), vec![true, false, false, true]);
    assert!(is_torch("TorchCylinder"));
    assert!(!is_torch(""));
}

#[test]
fn emissive_black_untouched_and_lit_scaled() {
    let mut mats = vec![
        Emissive { r: 0, g: 0, b: 0 },
        Emissive { r: 100_000, g: 0, b: 50_000 },
        Emissive { r: 0, g: -3, b: 0 },
    ];
    assert_eq!(fix_scene_emissive_materials(&mut mats, 10_000_000), 2);
    assert_eq!(mats[0], Emissive { r: 0, g: 0, b: 0 });
    assert_eq!(mats[1], Emissive { r: 1_000_000, g: 0, b: 500_000 });
    assert_eq!(mats[2], Emissive { r: 0, g: -30, b: 0 });
}

#[test]
fn emissive_scaling_rounds_down_and_saturates() {
    let mut mats = vec![Emissive { r: 3, g: -3, b: i64::MAX }];
    assert_eq!(fix_scene_emissive_materials(&mut mats, 500_000), 1);
    assert_eq!(mats[0], Emissive { r: 1, g: -2, b: i64::MAX / 2 });
    let mut big = vec![Emissive { r: i64::MAX, g: i64::MIN, b: 1 }];
    fix_scene_emissive_materials(&mut big, 2_000_000);
    assert_eq!(big[0], Emissive { r: i64::MAX, g: i64::MIN, b: 2 });
}
