use vstd::prelude::*;
use vstd::string::StringExecFns;

verus! {

#[derive(Debug, Clone, Copy, PartialEq, Eq, Structural)]
pub enum TextureFormat {
    Rgba8,
}

/// CPU-side image: `width` x `height` pixels in `format`.
#[derive(Debug)]
pub struct Texture {
    pub name: String,
    pub width: u32,
    pub height: u32,
    pub data: Vec<u8>,
    pub format: TextureFormat,
}

impl Texture {
    pub fn new(name: &str, width: u32, height: u32, data: Vec<u8>, format: TextureFormat) -> (t: Self)
        ensures
            t.name@ == name@,
            t.width == width,
            t.height == height,
            t.data@ == data@,
            t.format == format,
    {
        Texture { name: String::from_str(name), width, height, data, format }
    }

    pub fn from_rgba8(name: &str, width: u32, height: u32, data: Vec<u8>) -> (t: Self)
        ensures
            t.name@ == name@,
            t.width == width,
            t.height == height,
            t.data@ == data@,
            t.format == TextureFormat::Rgba8,
    {
        Self::new(name, width, height, data, TextureFormat::Rgba8)
    }
}

/// A texture holds colour (and may be uploaded as sRGB) unless some material
/// uses it as its normal map or metallic-roughness map, which hold linear
/// data; data use wins when a texture is used both ways.
pub open spec fn spec_is_color_texture(texture_id: u64, material_maps: Seq<(Option<u64>, Option<u64>)>) -> bool {
    !exists|i: int|
        0 <= i < material_maps.len() && ((#[trigger] material_maps[i]).0 == Some(texture_id)
            || material_maps[i].1 == Some(texture_id))
}

/// Whether texture `texture_id` is uploaded as sRGB, given each material's
/// (normal map, metallic-roughness map) texture ids.
pub fn is_color_texture(texture_id: u64, material_maps: &Vec<(Option<u64>, Option<u64>)>) -> (b: bool)
    ensures
        b == spec_is_color_texture(texture_id, material_maps@),
{
    let mut i: usize = 0;
    while i < material_maps.len()
        invariant
            i <= material_maps@.len(),
            forall|k: int|
                0 <= k < i ==> (#[trigger] material_maps@[k]).0 != Some(texture_id)
                    && material_maps@[k].1 != Some(texture_id),
        decreases material_maps@.len() - i,
    {
        let (normal, metallic_roughness) = material_maps[i];
        if normal == Some(texture_id) || metallic_roughness == Some(texture_id) {
            assert(material_maps@[i as int].0 == Some(texture_id) || material_maps@[i as int].1 == Some(texture_id));
            return false;
        }
        i = i + 1;
    }
    true
}

} // verus!
