//! Non-fatal authoring diagnostics: loading stays forgiving, but mistakes are
//! reported with entity context.

use super::outline::{
    body_warnings, duplicate_entity_warning, entity_label, entity_prefix, entity_section, entity_warnings,
    light_section, material_declared, material_listed_before, material_section, material_warnings,
    mesh_is_gltf, mesh_listed_before, mesh_section, mesh_warnings, none, one, reference_warnings,
    scene_warnings, bears_name, EntityOutline, InteractionOutline, MaterialOutline, MeshOutline,
    MeshSourceKind, SceneOutline, SurfaceOutline,
};
use crate::text::{join3, lemma_texts_add, lemma_texts_push, push_decimal, texts};
use vstd::prelude::*;
use vstd::string::StringExecFns;

verus! {

/// `prefix` followed by `suffix`, as a new string.
fn with_suffix(prefix: &String, suffix: &str) -> (s: String)
    ensures
        s@ == prefix@ + suffix@,
{
    let mut s = prefix.clone();
    s.append(suffix);
    s
}

/// Push `line` when `cond` holds; the texts grow by exactly that line.
fn push_if(out: &mut Vec<String>, cond: bool, line: String)
    ensures
        texts(final(out)@) == texts(old(out)@) + (if cond { one(line@) } else { none() }),
{
    proof {
        lemma_texts_push(out@, line);
    }
    if cond {
        out.push(line);
    }
    assert(texts(final(out)@) =~= texts(old(out)@) + (if cond { one(line@) } else { none() }));
}

fn mesh_listed_before_exec(meshes: &Vec<MeshOutline>, i: usize) -> (b: bool)
    requires
        i < meshes@.len(),
    ensures
        b == mesh_listed_before(meshes@, i as int),
{
    let mut j: usize = 0;
    while j < i
        invariant
            j <= i < meshes@.len(),
            forall|k: int| 0 <= k < j ==> (#[trigger] meshes@[k]).name@ != meshes@[i as int].name@,
        decreases i - j,
    {
        if meshes[j].name == meshes[i].name {
            return true;
        }
        j = j + 1;
    }
    false
}

fn mesh_warnings_exec(meshes: &Vec<MeshOutline>, i: usize) -> (r: Vec<String>)
    requires
        i < meshes@.len(),
    ensures
        texts(r@) == mesh_warnings(meshes@, i as int),
{
    let mesh = &meshes[i];
    let name = mesh.name.as_str();
    let mut r: Vec<String> = Vec::new();
    assert(texts(r@) =~= none());
    let dup = mesh_listed_before_exec(meshes, i);
    push_if(&mut r, dup, join3("duplicate mesh name `", name, "`"));
    match &mesh.source {
        MeshSourceKind::Sphere { segments, rings } => {
            push_if(
                &mut r,
                *segments < 3 || *rings < 2,
                join3("mesh `", name, "` has too few sphere segments/rings"),
            );
        },
        MeshSourceKind::Cylinder { segments } => {
            push_if(&mut r, *segments < 3, join3("mesh `", name, "` has too few cylinder segments"));
        },
        MeshSourceKind::Plane { size_usable, subdivisions } => {
            push_if(
                &mut r,
                !*size_usable || *subdivisions == 0,
                join3("mesh `", name, "` has invalid plane parameters"),
            );
        },
        _ => {
            assert(texts(r@) =~= texts(r@) + none());
        },
    }
    r
}

fn material_listed_before_exec(materials: &Vec<MaterialOutline>, i: usize) -> (b: bool)
    requires
        i < materials@.len(),
    ensures
        b == material_listed_before(materials@, i as int),
{
    let mut j: usize = 0;
    while j < i
        invariant
            j <= i < materials@.len(),
            forall|k: int|
                0 <= k < j ==> (#[trigger] materials@[k]).name@ != materials@[i as int].name@,
        decreases i - j,
    {
        if materials[j].name == materials[i].name {
            return true;
        }
        j = j + 1;
    }
    false
}

fn material_warnings_exec(materials: &Vec<MaterialOutline>, i: usize) -> (r: Vec<String>)
    requires
        i < materials@.len(),
    ensures
        texts(r@) == material_warnings(materials@, i as int),
{
    let material = &materials[i];
    let name = material.name.as_str();
    let mut r: Vec<String> = Vec::new();
    assert(texts(r@) =~= none());
    let dup = material_listed_before_exec(materials, i);
    push_if(&mut r, dup, join3("duplicate material name `", name, "`"));
    push_if(
        &mut r,
        !material.values_finite,
        join3("material `", name, "` contains non-finite values"),
    );
    r
}

fn mesh_is_gltf_exec(meshes: &Vec<MeshOutline>, name: &String) -> (g: Option<bool>)
    ensures
        g == mesh_is_gltf(meshes@, name@, meshes@.len()),
{
    let mut found: Option<bool> = None;
    let mut j: usize = 0;
    while j < meshes.len()
        invariant
            j <= meshes@.len(),
            found == mesh_is_gltf(meshes@, name@, j as nat),
        decreases meshes@.len() - j,
    {
        if meshes[j].name == *name {
            found = Some(matches!(meshes[j].source, MeshSourceKind::Gltf { .. }));
        }
        j = j + 1;
    }
    found
}

fn material_declared_exec(materials: &Vec<MaterialOutline>, name: &String) -> (b: bool)
    ensures
        b == material_declared(materials@, name@),
{
    let mut j: usize = 0;
    while j < materials.len()
        invariant
            j <= materials@.len(),
            forall|k: int| 0 <= k < j ==> (#[trigger] materials@[k]).name@ != name@,
        decreases materials@.len() - j,
    {
        if materials[j].name == *name {
            return true;
        }
        j = j + 1;
    }
    false
}

fn entity_prefix_exec(index: usize, label: &str) -> (s: String)
    ensures
        s@ == entity_prefix(index as nat, label@),
{
    let mut s = String::from_str("entity #");
    push_decimal(&mut s, index as u64);
    s.append(" `");
    s.append(label);
    s.append("` ");
    s
}

fn duplicate_entity_exec(entities: &Vec<EntityOutline>, i: usize) -> (r: Vec<String>)
    requires
        i < entities@.len(),
    ensures
        texts(r@) == duplicate_entity_warning(entities@, i as int),
{
    let mut r: Vec<String> = Vec::new();
    assert(texts(r@) =~= none());
    match &entities[i].name {
        Some(n) => {
            let mut seen = false;
            let mut j: usize = 0;
            while j < i
                invariant
                    j <= i < entities@.len(),
                    entities@[i as int].name == Some(*n),
                    seen == exists|k: int| 0 <= k < j && bears_name(#[trigger] entities@[k], n@),
                decreases i - j,
            {
                let ghost before = seen;
                match &entities[j].name {
                    Some(m) => {
                        if *m == *n {
                            seen = true;
                        }
                    },
                    None => {},
                }
                proof {
                    if seen && !before {
                        assert(bears_name(entities@[j as int], n@));
                    }
                    if !seen {
                        assert forall|k: int| 0 <= k < j + 1 implies !bears_name(
                            #[trigger] entities@[k],
                            n@,
                        ) by {
                            if k < j {
                            }
                        }
                    }
                }
                j = j + 1;
            }
            push_if(&mut r, seen, join3("duplicate entity name `", n.as_str(), "`"));
        },
        None => {},
    }
    r
}

fn reference_exec(o: &SceneOutline, i: usize) -> (r: Vec<String>)
    requires
        i < o.entities@.len(),
    ensures
        texts(r@) == reference_warnings(*o, i as int),
{
    let e = &o.entities[i];
    let label = match &e.name {
        Some(n) => n.as_str(),
        None => "unnamed",
    };
    assert(label@ == entity_label(*e));
    let p = entity_prefix_exec(i, label);
    let gltf = mesh_is_gltf_exec(&o.meshes, &e.mesh);
    let mut r: Vec<String> = Vec::new();
    assert(texts(r@) =~= none());
    let mut missing_mesh = with_suffix(&p, "references missing mesh `");
    missing_mesh.append(e.mesh.as_str());
    missing_mesh.append("`");
    push_if(&mut r, gltf.is_none(), missing_mesh);
    let tag = String::from_str("$gltf");
    if e.material == tag {
        push_if(&mut r, gltf == Some(false), with_suffix(&p, "requests `$gltf` on a procedural mesh"));
    } else {
        let declared = material_declared_exec(&o.materials, &e.material);
        let mut missing = with_suffix(&p, "references missing material `");
        missing.append(e.material.as_str());
        missing.append("`");
        push_if(&mut r, !declared, missing);
    }
    r
}

fn body_exec(e: &EntityOutline, p: &String) -> (r: Vec<String>)
    ensures
        texts(r@) == body_warnings(*e, p@),
{
    let mut r: Vec<String> = Vec::new();
    assert(texts(r@) =~= none());
    push_if(&mut r, !e.transform_finite, with_suffix(p, "has a non-finite transform"));
    push_if(&mut r, e.has_zero_scale_axis, with_suffix(p, "has a zero scale axis"));
    let ghost after_transform = texts(r@);
    match &e.physics {
        Some(ph) => {
            push_if(&mut r, !ph.values_finite, with_suffix(p, "has invalid physics values"));
            let bad_surface = match ph.surface {
                SurfaceOutline::Custom { params_valid } => !params_valid,
                SurfaceOutline::Preset(_) => false,
            };
            push_if(&mut r, bad_surface, with_suffix(p, "has invalid surface parameters"));
        },
        None => {},
    }
    let ghost after_physics = texts(r@);
    match &e.interaction {
        Some(it) => {
            push_if(
                &mut r,
                e.physics.is_none(),
                with_suffix(p, "is interactive but has no physics body"),
            );
            let valid = match it {
                InteractionOutline::Door { params_valid } => *params_valid,
                InteractionOutline::Explosive { params_valid } => *params_valid,
            };
            push_if(&mut r, !valid, with_suffix(p, "has invalid interaction parameters"));
        },
        None => {},
    }
    r
}

fn entity_warnings_exec(o: &SceneOutline, i: usize) -> (r: Vec<String>)
    requires
        i < o.entities@.len(),
    ensures
        texts(r@) == entity_warnings(*o, i as int),
{
    let mut r = duplicate_entity_exec(&o.entities, i);
    let mut refs = reference_exec(o, i);
    let e = &o.entities[i];
    let label = match &e.name {
        Some(n) => n.as_str(),
        None => "unnamed",
    };
    let p = entity_prefix_exec(i, label);
    let mut body = body_exec(e, &p);
    proof {
        lemma_texts_add(r@, refs@);
        lemma_texts_add(r@ + refs@, body@);
    }
    r.append(&mut refs);
    r.append(&mut body);
    r
}

impl SceneOutline {
    /// Every authoring warning of the scene, in report order: player, meshes,
    /// materials, lights, entities, enemies. The scene is never rejected.
    pub fn validation_warnings(&self) -> (warnings: Vec<String>)
        ensures
            texts(warnings@) == scene_warnings(*self),
    {
        let mut out: Vec<String> = Vec::new();
        assert(texts(out@) =~= none());
        push_if(&mut out, !self.player_valid, String::from_str("player configuration contains invalid values"));
        let ghost start = texts(out@);
        let mut i: usize = 0;
        while i < self.meshes.len()
            invariant
                i <= self.meshes@.len(),
                texts(out@) == start + mesh_section(self.meshes@, i as nat),
            decreases self.meshes@.len() - i,
        {
            let mut w = mesh_warnings_exec(&self.meshes, i);
            proof {
                lemma_texts_add(out@, w@);
            }
            out.append(&mut w);
            assert(texts(out@) =~= start + mesh_section(self.meshes@, (i + 1) as nat));
            i = i + 1;
        }
        let ghost start = texts(out@);
        let mut i: usize = 0;
        while i < self.materials.len()
            invariant
                i <= self.materials@.len(),
                texts(out@) == start + material_section(self.materials@, i as nat),
            decreases self.materials@.len() - i,
        {
            let mut w = material_warnings_exec(&self.materials, i);
            proof {
                lemma_texts_add(out@, w@);
            }
            out.append(&mut w);
            assert(texts(out@) =~= start + material_section(self.materials@, (i + 1) as nat));
            i = i + 1;
        }
        let ghost start = texts(out@);
        let mut i: usize = 0;
        while i < self.light_valid.len()
            invariant
                i <= self.light_valid@.len(),
                texts(out@) == start + light_section(self.light_valid@, i as nat),
            decreases self.light_valid@.len() - i,
        {
            let mut line = String::from_str("light #");
            push_decimal(&mut line, i as u64);
            line.append(" contains invalid values");
            push_if(&mut out, !self.light_valid[i], line);
            assert(texts(out@) =~= start + light_section(self.light_valid@, (i + 1) as nat));
            i = i + 1;
        }
        let ghost start = texts(out@);
        let mut i: usize = 0;
        while i < self.entities.len()
            invariant
                i <= self.entities@.len(),
                texts(out@) == start + entity_section(*self, i as nat),
            decreases self.entities@.len() - i,
        {
            let mut w = entity_warnings_exec(self, i);
            proof {
                lemma_texts_add(out@, w@);
            }
            out.append(&mut w);
            assert(texts(out@) =~= start + entity_section(*self, (i + 1) as nat));
            i = i + 1;
        }
        match &self.enemies {
            Some(en) => {
                let mut line = String::from_str("enemy route count (");
                push_decimal(&mut line, en.route_count as u64);
                line.append(") does not match spawn count (");
                push_decimal(&mut line, en.spawn_count as u64);
                line.append(")");
                push_if(&mut out, en.route_count != 0 && en.route_count != en.spawn_count, line);
                push_if(
                    &mut out,
                    !en.coords_finite,
                    String::from_str("enemy layout contains non-finite coordinates"),
                );
            },
            None => {},
        }
        assert(texts(out@) =~= scene_warnings(*self));
        out
    }
}

} // verus!
