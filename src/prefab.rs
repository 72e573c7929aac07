//! The catalog of named texture regions and the sprites made from them.
use vstd::prelude::*;
use crate::sprite::{LAYER_COUNT, Sprite};

verus! {

/// A named rectangle of the texture atlas, with the vertical offset of its
/// ground anchor.
#[derive(Clone, Copy, Debug, PartialEq, Eq)]
pub struct TextureData {
    pub top_left_tex_pos: (u32, u32),
    pub size: (u32, u32),
    pub origin_offset: u32,
}

/// The region that the built-in catalog registers under `name`, if any.
pub open spec fn builtin_region(name: Seq<char>) -> Option<TextureData> {
    if name == "char_main"@ {
        Some(TextureData { top_left_tex_pos: (0, 0), size: (32, 32), origin_offset: 32 })
    } else if name == "char_alt"@ {
        Some(TextureData { top_left_tex_pos: (0, 32), size: (32, 32), origin_offset: 32 })
    } else if name == "bg_tile"@ {
        Some(TextureData { top_left_tex_pos: (32, 0), size: (32, 32), origin_offset: 16 })
    } else if name == "spot"@ {
        Some(TextureData { top_left_tex_pos: (32, 32), size: (32, 32), origin_offset: 32 })
    } else {
        None
    }
}

/// The first region of `entries` registered under `name`.
pub open spec fn find_region(entries: Seq<(String, TextureData)>, name: Seq<char>) -> Option<
    TextureData,
>
    decreases entries.len(),
{
    if entries.len() == 0 {
        None
    } else if entries[0].0@ == name {
        Some(entries[0].1)
    } else {
        find_region(entries.drop_first(), name)
    }
}

/// The sprite that shows `region` with its top-left corner at `position` on
/// coarse layer `layer`.
pub open spec fn sprite_of(region: TextureData, position: (i32, i32), layer: nat) -> Sprite {
    Sprite {
        top_left_x: position.0,
        top_left_y: position.1,
        tex_top_left_x: region.top_left_tex_pos.0,
        tex_top_left_y: region.top_left_tex_pos.1,
        width: region.size.0,
        height: region.size.1,
        layer: layer as u8,
        origin_offset_y: region.origin_offset,
    }
}

/// The fixed catalog of texture regions, looked up by name.
pub struct Prefab {
    entries: Vec<(String, TextureData)>,
}

impl Prefab {
    /// The region registered under `name`, if any.
    pub closed spec fn region_of(&self, name: Seq<char>) -> Option<TextureData> {
        find_region(self.entries@, name)
    }

    /// The built-in catalog.
    pub fn new() -> (r: Prefab)
        ensures
            forall|name: Seq<char>| r.region_of(name) == builtin_region(name),
    {
        let mut entries: Vec<(String, TextureData)> = Vec::new();
        entries.push(
            (
                String::from_str("char_main"),
                TextureData { top_left_tex_pos: (0, 0), size: (32, 32), origin_offset: 32 },
            ),
        );
        entries.push(
            (
                String::from_str("char_alt"),
                TextureData { top_left_tex_pos: (0, 32), size: (32, 32), origin_offset: 32 },
            ),
        );
        entries.push(
            (
                String::from_str("bg_tile"),
                TextureData { top_left_tex_pos: (32, 0), size: (32, 32), origin_offset: 16 },
            ),
        );
        entries.push(
            (
                String::from_str("spot"),
                TextureData { top_left_tex_pos: (32, 32), size: (32, 32), origin_offset: 32 },
            ),
        );
        let r = Prefab { entries };
        proof {
            let e = r.entries@;
            assert(e.drop_first().drop_first().drop_first().drop_first().len() == 0);
            assert forall|name: Seq<char>| r.region_of(name) == builtin_region(name) by {
                reveal_with_fuel(find_region, 5);
                assert(e.drop_first()[0] == e[1]);
                assert(e.drop_first().drop_first()[0] == e[2]);
                assert(e.drop_first().drop_first().drop_first()[0] == e[3]);
            }
        }
        r
    }

    /// The region registered under `name`, if any.
    pub fn region(&self, name: &str) -> (r: Option<TextureData>)
        ensures
            r == self.region_of(name@),
    {
        let key = name.to_owned();
        let mut i: usize = 0;
        proof {
            assert(self.entries@.skip(0) =~= self.entries@);
        }
        while i < self.entries.len()
            invariant
                key@ == name@,
                i <= self.entries@.len(),
                find_region(self.entries@, name@) == find_region(
                    self.entries@.skip(i as int),
                    name@,
                ),
            decreases self.entries@.len() - i,
        {
            let ghost rest = self.entries@.skip(i as int);
            proof {
                assert(rest[0] == self.entries@[i as int]);
                assert(rest.drop_first() =~= self.entries@.skip(i + 1));
            }
            if self.entries[i].0 == key {
                return Some(self.entries[i].1);
            }
            i = i + 1;
        }
        proof {
            assert(self.entries@.skip(i as int).len() == 0);
        }
        None
    }

    /// The sprite that shows the region registered under `name` with its
    /// top-left corner at `position`, on coarse layer `layer` (0 to 3).
    pub fn gen(&self, name: &str, position: (i32, i32), layer: usize) -> (r: Sprite)
        requires
            self.region_of(name@) is Some,
            layer < LAYER_COUNT,
        ensures
            r == sprite_of(self.region_of(name@)->Some_0, position, layer as nat),
    {
        let tex_data = self.region(name).unwrap();
        Sprite {
            top_left_x: position.0,
            top_left_y: position.1,
            tex_top_left_x: tex_data.top_left_tex_pos.0,
            tex_top_left_y: tex_data.top_left_tex_pos.1,
            width: tex_data.size.0,
            height: tex_data.size.1,
            layer: layer as u8,
            origin_offset_y: tex_data.origin_offset,
        }
    }
}

} // verus!
