use path_tracer::config::{parse_scene, resolve_dimensions, resolve_scene_name, SceneKind};

#[test]
fn every_known_scene_name_parses() {
    assert_eq!(parse_scene(&"default".to_string()), Some(SceneKind::Standard));
    assert_eq!(parse_scene(&"spheres".to_string()), Some(SceneKind::Spheres));
    assert_eq!(parse_scene(&"motion".to_string()), Some(SceneKind::Motion));
    assert_eq!(parse_scene(&"textures".to_string()), Some(SceneKind::Textures));
    assert_eq!(parse_scene(&"perlin".to_string()), Some(SceneKind::Perlin));
}

#[test]
fn unknown_scene_names_parse_to_none() {
    assert_eq!(parse_scene(&"".to_string()), None);
    assert_eq!(parse_scene(&"foo".to_string()), None);
    assert_eq!(parse_scene(&"Default".to_string()), None);
    assert_eq!(parse_scene(&"perlin ".to_string()), None);
}

#[test]
fn missing_dimensions_default_to_200_by_100() {
    assert_eq!(resolve_dimensions(None), (200, 100));
}

#[test]
fn given_dimensions_are_kept() {
    assert_eq!(resolve_dimensions(Some((640, 480))), (640, 480));
    assert_eq!(resolve_dimensions(Some((1, 1))), (1, 1));
}

#[test]
fn missing_scene_defaults_to_default() {
    assert_eq!(resolve_scene_name(None), "default".to_string());
}

#[test]
fn given_scene_name_is_kept() {
    assert_eq!(resolve_scene_name(Some("motion".to_string())), "motion".to_string());
}
