use gxengine::asset::gltf_loader::ImagePixels;
use gxengine::asset::texture::is_color_texture;
use gxengine::asset::procedural::{
    safe_cylinder_segments, safe_plane_subdivisions, safe_sphere_rings, safe_sphere_segments,
};
use gxengine::asset::{AssetStore, GltfLoader, Handle, MeshTopology, ProceduralGenerator, Texture, TextureFormat};

/// A material as the renderer keeps it; only what these tests look at.
struct TestMaterial {
    name: String,
    albedo_factor: [f32; 4],
}

fn solid_material(name: &str, color: [f32; 3]) -> TestMaterial {
    TestMaterial { name: name.to_string(), albedo_factor: [color[0], color[1], color[2], 1.0] }
}

fn assert_renderable(mesh: &MeshTopology) {
    assert!(mesh.vertex_count > 0);
    assert!(!mesh.indices.is_empty());
    assert_eq!(mesh.indices.len() % 3, 0);
    assert!(mesh.indices.iter().all(|&i| i < mesh.vertex_count));
}

#[test]
fn tessellation_parameters_are_bounded() {
    assert_eq!(safe_plane_subdivisions(0), 1);
    assert_eq!(safe_plane_subdivisions(u32::MAX), 512);
    assert_eq!(safe_sphere_segments(0), 3);
    assert_eq!(safe_sphere_segments(u32::MAX), 256);
    assert_eq!(safe_sphere_rings(0), 2);
    assert_eq!(safe_sphere_rings(u32::MAX), 128);
    assert_eq!(safe_cylinder_segments(0), 3);
    assert_eq!(safe_cylinder_segments(u32::MAX), 256);
}

#[test]
fn missing_mesh_gets_a_real_fallback_handle() {
    let mut meshes: AssetStore<MeshTopology> = AssetStore::new();

    let handle = meshes.get_or_insert_with(None, ProceduralGenerator::create_cube);

    let mesh = meshes.get(handle).expect("fallback mesh must exist");
    assert_eq!(mesh.name, "Cube");
    assert!(mesh.vertex_count > 0);
    assert!(!mesh.indices.is_empty());
}

#[test]
fn dangling_mesh_handle_is_replaced() {
    let mut meshes: AssetStore<MeshTopology> = AssetStore::new();

    let handle = meshes.get_or_insert_with(Some(Handle::new(99)), || ProceduralGenerator::create_sphere(8, 4));

    assert_ne!(handle.id, 99);
    assert!(meshes.get(handle).is_some());
}

#[test]
fn missing_material_gets_a_real_fallback_handle() {
    let mut materials: AssetStore<TestMaterial> = AssetStore::new();

    let handle = materials.get_or_insert_with(None, || solid_material("Fallback Box", [0.5, 0.3, 0.1]));

    let material = materials.get(handle).expect("fallback material must exist");
    assert_eq!(material.name, "Fallback Box");
    assert!(material.albedo_factor.iter().all(|value| value.is_finite()));
}

#[test]
fn existing_asset_handles_are_preserved() {
    let mut meshes: AssetStore<MeshTopology> = AssetStore::new();
    let mut materials: AssetStore<TestMaterial> = AssetStore::new();
    let existing_mesh = meshes.insert(ProceduralGenerator::create_cube());
    let existing_material = materials.insert(solid_material("Gray", [0.5, 0.5, 0.5]));

    let mesh = meshes.get_or_insert_with(Some(existing_mesh), || panic!("mesh fallback must not run"));
    let material =
        materials.get_or_insert_with(Some(existing_material), || panic!("material fallback must not run"));

    assert_eq!(mesh.id, existing_mesh.id);
    assert_eq!(material.id, existing_material.id);
}

#[test]
fn store_reads_back_inserted_assets_and_forgets_removed_ones() {
    let mut store: AssetStore<u32> = AssetStore::new();
    assert!(store.is_empty());
    let a = store.insert(7);
    let b = store.insert(9);
    assert_eq!((a.id, b.id), (0, 1));
    assert_eq!(store.get(a), Some(&7));
    assert_eq!(store.get(b), Some(&9));
    assert_eq!(store.len(), 2, "each insert adds one asset");
    if let Some(v) = store.get_mut(a) {
        *v = 70;
    }
    assert_eq!(store.get(a), Some(&70));
    assert_eq!(store.remove(a), Some(70));
    assert_eq!(store.remove(a), None);
    assert_eq!(store.get(a), None);
    let c = store.insert(11);
    assert_eq!(c.id, 2, "removed ids are never handed out again");
    let mut all: Vec<(u64, u32)> = store.get_all().into_iter().map(|(id, v)| (id, *v)).collect();
    all.sort();
    assert_eq!(all, vec![(1, 9), (2, 11)]);
}

#[test]
fn handle_defaults_to_id_zero() {
    let h: Handle<u8> = Handle::default();
    assert_eq!(h.id, 0);
    let copy = h;
    assert_eq!(copy.id, h.id);
}

#[test]
fn procedural_topologies_have_exact_sizes() {
    let cube = ProceduralGenerator::create_cube();
    assert_eq!((cube.vertex_count, cube.indices.len()), (24, 36));
    assert_eq!(&cube.indices[0..6], &[0, 1, 2, 2, 3, 0]);
    assert_renderable(&cube);

    let plane = ProceduralGenerator::create_plane(0);
    assert_eq!((plane.vertex_count, plane.indices.len()), (4, 6));
    assert_renderable(&plane);
    let plane = ProceduralGenerator::create_plane(3);
    assert_eq!((plane.vertex_count, plane.indices.len()), (16, 54));

    let sphere = ProceduralGenerator::create_sphere(0, 0);
    assert_eq!((sphere.vertex_count, sphere.indices.len()), (12, 36));
    assert_renderable(&sphere);
    let sphere = ProceduralGenerator::create_sphere(16, 8);
    assert_eq!((sphere.vertex_count, sphere.indices.len()), (153, 768));
    assert_eq!(sphere.name, "Sphere");

    let cylinder = ProceduralGenerator::create_cylinder(0);
    assert_eq!((cylinder.vertex_count, cylinder.indices.len()), (18, 36));
    assert_renderable(&cylinder);
}

#[test]
fn rgb_pixels_gain_an_opaque_alpha() {
    let rgba = GltfLoader::rgb_to_rgba(&[1, 2, 3, 4, 5, 6, 7]);
    assert_eq!(rgba, vec![1, 2, 3, 255, 4, 5, 6, 255]);
    assert!(GltfLoader::rgb_to_rgba(&[]).is_empty());
}

#[test]
fn flipping_winding_twice_restores_the_triangles() {
    let original = vec![0, 1, 2, 3, 4, 5, 6];
    let mut indices = original.clone();
    GltfLoader::flip_winding(&mut indices);
    assert_eq!(indices, vec![0, 2, 1, 3, 5, 4, 6]);
    GltfLoader::flip_winding(&mut indices);
    assert_eq!(indices, original);
}

#[test]
fn primitives_without_indices_use_sequential_ones() {
    assert_eq!(GltfLoader::sequential_indices(4), vec![0, 1, 2, 3]);
    assert_eq!(GltfLoader::rgba_conversion(ImagePixels::Rgb8), Some(true));
    assert_eq!(GltfLoader::rgba_conversion(ImagePixels::Rgba8), Some(false));
    assert_eq!(GltfLoader::rgba_conversion(ImagePixels::Unsupported), None);
}

#[test]
fn textures_keep_their_pixels() {
    let t = Texture::from_rgba8("white", 1, 1, vec![255, 255, 255, 255]);
    assert_eq!(t.name, "white");
    assert_eq!((t.width, t.height), (1, 1));
    assert_eq!(t.data, vec![255, 255, 255, 255]);
    assert_eq!(t.format, TextureFormat::Rgba8);
}

#[test]
fn data_maps_are_not_uploaded_as_srgb() {
    let maps = vec![(Some(3), None), (None, Some(5)), (None, None)];
    assert!(!is_color_texture(3, &maps));
    assert!(!is_color_texture(5, &maps));
    assert!(is_color_texture(4, &maps));
    assert!(is_color_texture(4, &Vec::new()));
}
