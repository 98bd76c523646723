use gxengine::cli::{next_scene_arg, scene_path, ArgStep};
use gxengine::game::scene::library::{SceneEntry, SceneLibrary};
use gxengine::game::scene::outline::{
    EnemyOutline, EntityOutline, InteractionOutline, MaterialOutline, MeshOutline, MeshSourceKind,
    PhysicsOutline, SceneOutline, SurfaceOutline,
};
use gxengine::game::scene::structure::structure_cells;
use gxengine::game::scene::SurfacePreset;

fn mesh(name: &str, source: MeshSourceKind) -> MeshOutline {
    MeshOutline { name: name.to_string(), source }
}

fn material(name: &str) -> MaterialOutline {
    MaterialOutline { name: name.to_string(), values_finite: true }
}

fn entity(name: Option<&str>, mesh: &str, material: &str) -> EntityOutline {
    EntityOutline {
        name: name.map(|n| n.to_string()),
        mesh: mesh.to_string(),
        material: material.to_string(),
        transform_finite: true,
        has_zero_scale_axis: false,
        physics: None,
        interaction: None,
    }
}

fn empty_scene() -> SceneOutline {
    SceneOutline {
        player_valid: true,
        meshes: Vec::new(),
        materials: Vec::new(),
        light_valid: Vec::new(),
        entities: Vec::new(),
        enemies: None,
    }
}

#[test]
fn validation_reports_missing_references_without_rejecting_scene() {
    // {"meshes":[{"name":"cube","source":"cube"}], "materials":[], "entities":[{"name":"bad prop",
    //  "mesh":"missing","material":"missing","transform":{"position":[0,0,0],"scale":[1,0,1]}}]}
    let mut bad = entity(Some("bad prop"), "missing", "missing");
    bad.has_zero_scale_axis = true;
    let scene = SceneOutline {
        meshes: vec![mesh("cube", MeshSourceKind::Cube)],
        entities: vec![bad],
        ..empty_scene()
    };
    let warnings = scene.validation_warnings();
    assert!(warnings.iter().any(|warning| warning.contains("missing mesh")));
    assert!(warnings.iter().any(|warning| warning.contains("missing material")));
    assert!(warnings.iter().any(|warning| warning.contains("zero scale")));
}

#[test]
fn validation_messages_are_exact_and_ordered() {
    let mut door = entity(Some("door"), "cube", "wood");
    door.interaction = Some(InteractionOutline::Door { params_valid: false });
    let mut puck = entity(None, "puck", "$gltf");
    puck.physics = Some(PhysicsOutline { values_finite: true, surface: SurfaceOutline::Custom { params_valid: false } });
    let scene = SceneOutline {
        player_valid: false,
        meshes: vec![
            mesh("cube", MeshSourceKind::Cube),
            mesh("cube", MeshSourceKind::Sphere { segments: 2, rings: 8 }),
            mesh("puck", MeshSourceKind::Cylinder { segments: 8 }),
        ],
        materials: vec![material("wood"), MaterialOutline { name: "wood".to_string(), values_finite: false }],
        light_valid: vec![true, false],
        entities: vec![door, puck, entity(Some("door"), "cube", "wood")],
        enemies: Some(EnemyOutline { spawn_count: 3, route_count: 2, coords_finite: false }),
    };
    assert_eq!(
        scene.validation_warnings(),
        vec![
            "player configuration contains invalid values",
            "duplicate mesh name `cube`",
            "mesh `cube` has too few sphere segments/rings",
            "duplicate material name `wood`",
            "material `wood` contains non-finite values",
            "light #1 contains invalid values",
            "entity #0 `door` is interactive but has no physics body",
            "entity #0 `door` has invalid interaction parameters",
            "entity #1 `unnamed` requests `$gltf` on a procedural mesh",
            "entity #1 `unnamed` has invalid surface parameters",
            "duplicate entity name `door`",
            "enemy route count (2) does not match spawn count (3)",
            "enemy layout contains non-finite coordinates",
        ]
    );
}

#[test]
fn a_clean_scene_has_no_warnings() {
    let mut prop = entity(Some("crate"), "model", "$gltf");
    prop.physics = Some(PhysicsOutline { values_finite: true, surface: SurfaceOutline::Preset(SurfacePreset::Ice) });
    prop.interaction = Some(InteractionOutline::Explosive { params_valid: true });
    let scene = SceneOutline {
        meshes: vec![
            mesh("model", MeshSourceKind::Gltf { path: "a.glb".to_string(), primitive: 0 }),
            mesh("floor", MeshSourceKind::Plane { size_usable: true, subdivisions: 4 }),
        ],
        materials: vec![material("box")],
        light_valid: vec![true],
        entities: vec![prop, entity(None, "floor", "box"), entity(None, "floor", "box")],
        enemies: Some(EnemyOutline { spawn_count: 2, route_count: 0, coords_finite: true }),
        ..empty_scene()
    };
    assert!(scene.validation_warnings().is_empty());
}

#[test]
fn library_keeps_json_scenes_sorted_by_name() {
    let lib = SceneLibrary::from_paths(vec![
        "assets/scenes/sandbox.json".to_string(),
        "assets/scenes/notes.txt".to_string(),
        "assets/scenes/dust2.json".to_string(),
        "assets/scenes/arena.json".to_string(),
    ]);
    let names: Vec<&str> = lib.0.iter().map(|e| e.name.as_str()).collect();
    assert_eq!(names, vec!["arena", "dust2", "sandbox"]);
    assert_eq!(lib.0[1].path, "assets/scenes/dust2.json");
    assert_eq!(lib.index_of("elsewhere/dust2.json"), Some(1));
    assert_eq!(lib.index_of("assets/scenes/missing.json"), None);
    assert_eq!(lib.position_of_name("sandbox"), Some(2));
}

#[test]
fn library_sort_is_stable_for_equal_names() {
    let entries = vec![
        SceneEntry { name: "b".to_string(), path: "1".to_string() },
        SceneEntry { name: "a".to_string(), path: "2".to_string() },
        SceneEntry { name: "b".to_string(), path: "3".to_string() },
        SceneEntry { name: "ab".to_string(), path: "4".to_string() },
    ];
    let lib = SceneLibrary::from_entries(entries);
    let paths: Vec<&str> = lib.0.iter().map(|e| e.path.as_str()).collect();
    assert_eq!(paths, vec!["2", "4", "1", "3"]);
}

#[test]
fn structures_keep_perimeter_blocks_when_hollow() {
    let solid = structure_cells([2, 1, 2], false);
    assert_eq!(solid, vec![(0, 0, 0), (0, 0, 1), (1, 0, 0), (1, 0, 1)]);
    let hollow = structure_cells([3, 2, 3], true);
    assert_eq!(hollow.len(), 16);
    assert!(!hollow.contains(&(1, 0, 1)));
    assert!(!hollow.contains(&(1, 1, 1)));
    assert_eq!(structure_cells([0, 0, 0], true), vec![(0, 0, 0)]);
    assert_eq!(structure_cells([100, 1, 1], false).len(), 24);
}

#[test]
fn scene_argument_forms_are_recognised() {
    let args: Vec<String> = ["--scene", "dust2", "--scene=maps/x.json", "--scene=-x", "--verbose", "--scene"]
        .iter()
        .map(|s| s.to_string())
        .collect();
    let (step, i) = next_scene_arg(&args, 0);
    assert!(matches!(step, ArgStep::Scene(ref v) if v == "dust2"));
    assert_eq!(i, 2);
    let (step, i) = next_scene_arg(&args, i);
    assert!(matches!(step, ArgStep::Scene(ref v) if v == "maps/x.json"));
    let (step, i) = next_scene_arg(&args, i);
    assert!(matches!(step, ArgStep::Invalid(ref v) if v == "-x"));
    let (step, i) = next_scene_arg(&args, i);
    assert!(matches!(step, ArgStep::Unknown(ref v) if v == "--verbose"));
    let (step, i) = next_scene_arg(&args, i);
    assert!(matches!(step, ArgStep::MissingValue));
    let (step, _) = next_scene_arg(&args, i);
    assert!(matches!(step, ArgStep::Done));
    let empty = vec!["--scene=".to_string()];
    assert!(matches!(next_scene_arg(&empty, 0).0, ArgStep::Invalid(ref v) if v.is_empty()));
}

#[test]
fn bare_scene_names_resolve_under_the_scene_folder() {
    assert_eq!(scene_path("dust2"), "assets/scenes/dust2.json");
    assert_eq!(scene_path("maps/dust2"), "maps/dust2");
    assert_eq!(scene_path("level.json"), "level.json");
}
