use animation_playground::animation::LAYER_COUNT;
use animation_playground::clips::{
    aim_stops, idle_clip, jog_clips, jump_clips, locomotion_rings, retarget_group, walk_clips,
    AnimationAsset, CharacterLibrary, RepeatMode,
};

#[test]
fn locomotion_blend_layout() {
    let idle = idle_clip();
    assert_eq!((idle.library, idle.name), (CharacterLibrary::Ual1, "Idle_Loop"));
    let walk: Vec<&str> = walk_clips().iter().map(|c| c.name).collect();
    assert_eq!(
        walk,
        ["Walk_Fwd_Loop", "Walk_Fwd_R_Loop", "Walk_R_Loop", "Walk_Bwd_R_Loop", "Walk_Bwd_Loop",
            "Walk_Bwd_L_Loop", "Walk_L_Loop", "Walk_Fwd_L"]
    );
    assert!(walk_clips().iter().all(|c| c.library == CharacterLibrary::Ual2));
    let jog: Vec<&str> = jog_clips().iter().map(|c| c.name).collect();
    assert_eq!(
        jog,
        ["Jog_Fwd_Loop", "Jog_Fwd_R_Loop", "Jog_Right_Loop", "Jog_Bwd_R_Loop", "Jog_Bwd_Loop",
            "Jog_Bwd_L_Loop", "Jog_Left_Loop", "Jog_Fwd_L_Loop"]
    );
    assert!(jog_clips().iter().all(|c| c.library == CharacterLibrary::Ual1));
    let rings = locomotion_rings();
    assert_eq!(rings.len(), 2);
    assert_eq!((rings[0].radius, rings[1].radius), (1, 2));
    assert_eq!(rings[0].clips.len(), 8);
    assert_eq!(rings[1].clips[2].name, "Jog_Right_Loop");
}

#[test]
fn jump_and_aim_clips() {
    let (start, lp, land) = jump_clips();
    assert_eq!((start.name, lp.name, land.name), ("Jump_Start", "Jump_Loop", "Jump_Land"));
    let stops: Vec<(&str, i8)> = aim_stops().iter().map(|s| (s.clip.name, s.time)).collect();
    assert_eq!(
        stops,
        [("Pistol_Aim_Down", -1), ("Pistol_Aim_Neutral", 0), ("Pistol_Aim_Up", 1)]
    );
}

#[test]
fn retarget_groups_per_layer() {
    assert_eq!(
        retarget_group(0),
        vec![
            (AnimationAsset::LocomotionBlend, RepeatMode::Forever),
            (AnimationAsset::JumpStart, RepeatMode::Never),
            (AnimationAsset::JumpLoop, RepeatMode::Forever),
            (AnimationAsset::JumpLand, RepeatMode::Never),
        ]
    );
    assert_eq!(retarget_group(1), vec![(AnimationAsset::AimBlend, RepeatMode::Forever)]);
    assert!(retarget_group(LAYER_COUNT).is_empty());
}
