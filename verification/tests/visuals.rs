use scene_flow::visuals::{
    choose_profile, scaled_count, smoke_plume_count, viscera_counts, DilemmaVisualSelection,
    DEFAULT_VISUAL_PROFILE,
};

#[test]
fn unknown_profiles_fall_back_to_the_default() {
    let ids = vec![
        String::from("apocalypse"),
        String::from(DEFAULT_VISUAL_PROFILE),
        String::from("apocalypse"),
    ];
    assert_eq!(choose_profile(&ids, "apocalypse"), Some(0));
    assert_eq!(choose_profile(&ids, "unknown"), Some(1));
    assert_eq!(choose_profile(&vec![String::from("city")], "unknown"), None);
    assert_eq!(choose_profile(&vec![], DEFAULT_VISUAL_PROFILE), None);
    let selection = DilemmaVisualSelection::default();
    assert_eq!(selection.profile, "desert_default");
    assert_eq!(selection.intensity, 0);
}

#[test]
fn ambient_counts_scale_with_intensity() {
    assert_eq!(scaled_count(2, 3, 4), 14);
    assert_eq!(scaled_count(usize::MAX - 1, 1, 5), usize::MAX);
    assert_eq!(smoke_plume_count(true, 0, 2, 0), None);
    assert_eq!(smoke_plume_count(true, 0, 2, 3), Some(6));
    assert_eq!(smoke_plume_count(false, 5, 2, 3), None);
    assert_eq!(viscera_counts(true, 0, 1, 0, 2, 0), None);
    assert_eq!(viscera_counts(true, 0, 1, 0, 2, 70), Some((70, 140)));
    assert_eq!(viscera_counts(true, 3, 0, 0, 0, 9), Some((3, 0)));
    assert_eq!(viscera_counts(false, 3, 0, 0, 0, 9), None);
}
