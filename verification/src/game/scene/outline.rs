//! What scene validation reads of a parsed scene: names, references, counts
//! and the outcome of each numeric check, as plain values.

use crate::text::decimal;
use vstd::prelude::*;

verus! {

/// Named physics surface presets.
#[derive(Debug, Clone, Copy, PartialEq, Eq, Structural, Default)]
pub enum SurfacePreset {
    #[default]
    Default,
    Ice,
    Rubber,
    Metal,
}

/// The generator behind a named mesh, with the parameters validation reads.
#[derive(Debug, Clone)]
pub enum MeshSourceKind {
    Cube,
    Sphere { segments: u32, rings: u32 },
    Cylinder { segments: u32 },
    /// `size_usable`: the authored size is finite and positive.
    Plane { size_usable: bool, subdivisions: u32 },
    Rifle,
    Wedge,
    Humanoid,
    Gltf { path: String, primitive: usize },
}

/// A declared mesh.
#[derive(Debug, Clone)]
pub struct MeshOutline {
    pub name: String,
    pub source: MeshSourceKind,
}

/// A declared material; `values_finite` holds when every color, alpha,
/// roughness, metallic and emissive factor is finite.
#[derive(Debug, Clone)]
pub struct MaterialOutline {
    pub name: String,
    pub values_finite: bool,
}

/// The surface of a physics body: a preset, or custom friction and
/// restitution (`params_valid`: friction finite and non-negative, restitution
/// finite and within 0..=1).
#[derive(Debug, Clone, Copy)]
pub enum SurfaceOutline {
    Preset(SurfacePreset),
    Custom { params_valid: bool },
}

/// A physics body; `values_finite` holds when mass and initial impulse are
/// finite.
#[derive(Debug, Clone, Copy)]
pub struct PhysicsOutline {
    pub values_finite: bool,
    pub surface: SurfaceOutline,
}

/// An interaction; `params_valid` holds when its numbers are finite and
/// positive (door rotation, hinge and speed; explosive radius and impulse).
#[derive(Debug, Clone, Copy)]
pub enum InteractionOutline {
    Door { params_valid: bool },
    Explosive { params_valid: bool },
}

/// A placed entity.
#[derive(Debug, Clone)]
pub struct EntityOutline {
    pub name: Option<String>,
    pub mesh: String,
    pub material: String,
    /// Position, rotation and scale are all finite.
    pub transform_finite: bool,
    /// Some scale axis has magnitude below 0.0001.
    pub has_zero_scale_axis: bool,
    pub physics: Option<PhysicsOutline>,
    pub interaction: Option<InteractionOutline>,
}

/// The enemy layout: how many spawn points and routes, and whether every
/// spawn, waypoint and route coordinate is finite.
#[derive(Debug, Clone, Copy)]
pub struct EnemyOutline {
    pub spawn_count: usize,
    pub route_count: usize,
    pub coords_finite: bool,
}

/// Everything scene validation reads.
#[derive(Debug, Clone)]
pub struct SceneOutline {
    /// Player position, height, speed and sensitivity are finite and positive.
    pub player_valid: bool,
    pub meshes: Vec<MeshOutline>,
    pub materials: Vec<MaterialOutline>,
    /// Per light, in order: whether its values are usable.
    pub light_valid: Vec<bool>,
    pub entities: Vec<EntityOutline>,
    pub enemies: Option<EnemyOutline>,
}

// ---- the warnings, as text --------------------------------------------------

pub open spec fn one(line: Seq<char>) -> Seq<Seq<char>> {
    seq![line]
}

pub open spec fn none() -> Seq<Seq<char>> {
    Seq::empty()
}

pub open spec fn player_section(player_valid: bool) -> Seq<Seq<char>> {
    if player_valid { none() } else { one("player configuration contains invalid values"@) }
}

/// An earlier mesh carries the same name as mesh `i`.
pub open spec fn mesh_listed_before(meshes: Seq<MeshOutline>, i: int) -> bool {
    exists|j: int| 0 <= j < i && (#[trigger] meshes[j]).name@ == meshes[i].name@
}

pub open spec fn mesh_params_warning(mesh: MeshOutline) -> Seq<Seq<char>> {
    match mesh.source {
        MeshSourceKind::Sphere { segments, rings } => if segments < 3 || rings < 2 {
            one("mesh `"@ + mesh.name@ + "` has too few sphere segments/rings"@)
        } else {
            none()
        },
        MeshSourceKind::Cylinder { segments } => if segments < 3 {
            one("mesh `"@ + mesh.name@ + "` has too few cylinder segments"@)
        } else {
            none()
        },
        MeshSourceKind::Plane { size_usable, subdivisions } => if !size_usable || subdivisions
            == 0 {
            one("mesh `"@ + mesh.name@ + "` has invalid plane parameters"@)
        } else {
            none()
        },
        _ => none(),
    }
}

pub open spec fn mesh_warnings(meshes: Seq<MeshOutline>, i: int) -> Seq<Seq<char>> {
    (if mesh_listed_before(meshes, i) {
        one("duplicate mesh name `"@ + meshes[i].name@ + "`"@)
    } else {
        none()
    }) + mesh_params_warning(meshes[i])
}

/// Warnings of the first `n` meshes, in order.
pub open spec fn mesh_section(meshes: Seq<MeshOutline>, n: nat) -> Seq<Seq<char>>
    decreases n,
{
    if n == 0 {
        none()
    } else {
        mesh_section(meshes, (n - 1) as nat) + mesh_warnings(meshes, n - 1)
    }
}

pub open spec fn material_listed_before(materials: Seq<MaterialOutline>, i: int) -> bool {
    exists|j: int| 0 <= j < i && (#[trigger] materials[j]).name@ == materials[i].name@
}

pub open spec fn material_warnings(materials: Seq<MaterialOutline>, i: int) -> Seq<Seq<char>> {
    (if material_listed_before(materials, i) {
        one("duplicate material name `"@ + materials[i].name@ + "`"@)
    } else {
        none()
    }) + (if materials[i].values_finite {
        none()
    } else {
        one("material `"@ + materials[i].name@ + "` contains non-finite values"@)
    })
}

pub open spec fn material_section(materials: Seq<MaterialOutline>, n: nat) -> Seq<Seq<char>>
    decreases n,
{
    if n == 0 {
        none()
    } else {
        material_section(materials, (n - 1) as nat) + material_warnings(materials, n - 1)
    }
}

pub open spec fn light_section(valid: Seq<bool>, n: nat) -> Seq<Seq<char>>
    decreases n,
{
    if n == 0 {
        none()
    } else {
        light_section(valid, (n - 1) as nat) + (if valid[n - 1] {
            none()
        } else {
            one("light #"@ + decimal((n - 1) as nat) + " contains invalid values"@)
        })
    }
}

/// Whether the mesh that `name` resolves to is imported from glTF; the last
/// declaration of a name wins. `None` when no mesh of that name is declared.
pub open spec fn mesh_is_gltf(meshes: Seq<MeshOutline>, name: Seq<char>, n: nat) -> Option<bool>
    decreases n,
{
    if n == 0 {
        None
    } else if meshes[n - 1].name@ == name {
        Some(meshes[n - 1].source is Gltf)
    } else {
        mesh_is_gltf(meshes, name, (n - 1) as nat)
    }
}

pub open spec fn material_declared(materials: Seq<MaterialOutline>, name: Seq<char>) -> bool {
    exists|j: int| 0 <= j < materials.len() && (#[trigger] materials[j]).name@ == name
}

pub open spec fn bears_name(entity: EntityOutline, name: Seq<char>) -> bool {
    entity.name matches Some(n) && n@ == name
}

pub open spec fn entity_label(entity: EntityOutline) -> Seq<char> {
    match entity.name {
        Some(n) => n@,
        None => "unnamed"@,
    }
}

/// The common start of an entity's warnings: its index and label.
pub open spec fn entity_prefix(index: nat, label: Seq<char>) -> Seq<char> {
    "entity #"@ + decimal(index) + " `"@ + label + "` "@
}

pub open spec fn duplicate_entity_warning(entities: Seq<EntityOutline>, i: int) -> Seq<Seq<char>> {
    match entities[i].name {
        Some(n) => if exists|j: int| 0 <= j < i && bears_name(#[trigger] entities[j], n@) {
            one("duplicate entity name `"@ + n@ + "`"@)
        } else {
            none()
        },
        None => none(),
    }
}

pub open spec fn reference_warnings(o: SceneOutline, i: int) -> Seq<Seq<char>> {
    let e = o.entities@[i];
    let p = entity_prefix(i as nat, entity_label(e));
    let gltf = mesh_is_gltf(o.meshes@, e.mesh@, o.meshes@.len());
    (if gltf is None {
        one(p + "references missing mesh `"@ + e.mesh@ + "`"@)
    } else {
        none()
    }) + (if e.material@ == "$gltf"@ {
        if gltf == Some(false) {
            one(p + "requests `$gltf` on a procedural mesh"@)
        } else {
            none()
        }
    } else if !material_declared(o.materials@, e.material@) {
        one(p + "references missing material `"@ + e.material@ + "`"@)
    } else {
        none()
    })
}

pub open spec fn body_warnings(e: EntityOutline, p: Seq<char>) -> Seq<Seq<char>> {
    (if e.transform_finite {
        none()
    } else {
        one(p + "has a non-finite transform"@)
    }) + (if e.has_zero_scale_axis {
        one(p + "has a zero scale axis"@)
    } else {
        none()
    }) + match e.physics {
        Some(ph) => (if ph.values_finite {
            none()
        } else {
            one(p + "has invalid physics values"@)
        }) + (if ph.surface matches SurfaceOutline::Custom { params_valid } && !params_valid {
            one(p + "has invalid surface parameters"@)
        } else {
            none()
        }),
        None => none(),
    } + match e.interaction {
        Some(it) => (if e.physics is None {
            one(p + "is interactive but has no physics body"@)
        } else {
            none()
        }) + (if interaction_valid(it) {
            none()
        } else {
            one(p + "has invalid interaction parameters"@)
        }),
        None => none(),
    }
}

pub open spec fn interaction_valid(it: InteractionOutline) -> bool {
    match it {
        InteractionOutline::Door { params_valid } => params_valid,
        InteractionOutline::Explosive { params_valid } => params_valid,
    }
}

pub open spec fn entity_warnings(o: SceneOutline, i: int) -> Seq<Seq<char>> {
    let e = o.entities@[i];
    duplicate_entity_warning(o.entities@, i) + reference_warnings(o, i) + body_warnings(
        e,
        entity_prefix(i as nat, entity_label(e)),
    )
}

pub open spec fn entity_section(o: SceneOutline, n: nat) -> Seq<Seq<char>>
    decreases n,
{
    if n == 0 {
        none()
    } else {
        entity_section(o, (n - 1) as nat) + entity_warnings(o, n - 1)
    }
}

pub open spec fn enemy_section(enemies: Option<EnemyOutline>) -> Seq<Seq<char>> {
    match enemies {
        Some(en) => (if en.route_count != 0 && en.route_count != en.spawn_count {
            one(
                "enemy route count ("@ + decimal(en.route_count as nat) + ") does not match spawn count ("@
                    + decimal(en.spawn_count as nat) + ")"@,
            )
        } else {
            none()
        }) + (if en.coords_finite {
            none()
        } else {
            one("enemy layout contains non-finite coordinates"@)
        }),
        None => none(),
    }
}

/// Every authoring warning of a scene, in the order they are reported.
pub open spec fn scene_warnings(o: SceneOutline) -> Seq<Seq<char>> {
    player_section(o.player_valid) + mesh_section(o.meshes@, o.meshes@.len()) + material_section(
        o.materials@,
        o.materials@.len(),
    ) + light_section(o.light_valid@, o.light_valid@.len()) + entity_section(
        o,
        o.entities@.len(),
    ) + enemy_section(o.enemies)
}

} // verus!
