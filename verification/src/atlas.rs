use vstd::prelude::*;
use crate::entities::text_eq;

verus! {

/// Where a sprite sits on the sheet, in pixels.
#[derive(Debug, Clone, Copy, PartialEq, Eq, Structural)]
pub struct AtlasFrameRect {
    pub x: i32,
    pub y: i32,
    pub w: u32,
    pub h: u32,
}

/// The size of the sprite sheet, in pixels.
#[derive(Debug, Clone, Copy, PartialEq, Eq, Structural)]
pub struct AtlasSize {
    pub w: u32,
    pub h: u32,
}

/// One sprite of the sheet. (The atlas file may also give a pivot point;
/// nothing in the game reads it.)
#[derive(Debug, Clone, Copy, PartialEq, Eq, Structural)]
pub struct AtlasFrame {
    pub frame: AtlasFrameRect,
    pub rotated: bool,
    pub trimmed: bool,
}

/// The sprite sheet's image file and size.
pub struct AtlasMeta {
    pub image: String,
    pub size: AtlasSize,
}

/// A sprite atlas: each sprite's name with its frame, and the sheet.
pub struct AtlasData {
    pub frames: Vec<(String, AtlasFrame)>,
    pub meta: AtlasMeta,
}

/// No two sprites of `frames` share a name.
pub open spec fn names_unique(frames: Seq<(String, AtlasFrame)>) -> bool {
    forall|i: int, j: int|
        0 <= i < j < frames.len() ==> #[trigger] frames[i].0@ != #[trigger] frames[j].0@
}

/// The game's sprite atlas. As in the atlas file, whose frames are keyed by
/// name, no two sprites share a name.
pub struct SpriteAtlas {
    data: AtlasData,
}

impl SpriteAtlas {
    #[verifier::type_invariant]
    spec fn frames_keyed_by_name(self) -> bool {
        names_unique(self.data.frames@)
    }

    /// The sprites, each with its name.
    pub closed spec fn frames(self) -> Seq<(String, AtlasFrame)> {
        self.data.frames@
    }

    /// The sprite sheet's image file name.
    pub closed spec fn image(self) -> Seq<char> {
        self.data.meta.image@
    }

    /// The sprite sheet's size.
    pub closed spec fn sheet_size(self) -> AtlasSize {
        self.data.meta.size
    }

    /// The atlas of `data`, or none when two of its sprites share a name.
    pub fn from_data(data: AtlasData) -> (r: Option<SpriteAtlas>)
        ensures
            r is Some <==> names_unique(data.frames@),
            r matches Some(a) ==> a.frames() == data.frames@ && a.image() == data.meta.image@
                && a.sheet_size() == data.meta.size,
    {
        let n = data.frames.len();
        let mut i: usize = 0;
        while i < n
            invariant
                n == data.frames@.len(),
                i <= n,
                forall|a: int, b: int|
                    0 <= a < i && a < b < n ==> #[trigger] data.frames@[a].0@
                        != #[trigger] data.frames@[b].0@,
            decreases n - i,
        {
            let mut j: usize = i + 1;
            while j < n
                invariant
                    n == data.frames@.len(),
                    i < n,
                    i + 1 <= j <= n,
                    forall|a: int, b: int|
                        0 <= a < i && a < b < n ==> #[trigger] data.frames@[a].0@
                            != #[trigger] data.frames@[b].0@,
                    forall|b: int| i < b < j ==> data.frames@[i as int].0@ != #[trigger] data.frames@[b].0@,
                decreases n - j,
            {
                if text_eq(&data.frames[i].0, data.frames[j].0.as_str()) {
                    return None;
                }
                j = j + 1;
            }
            i = i + 1;
        }
        Some(SpriteAtlas { data })
    }

    /// The atlas's data.
    pub fn data(&self) -> (r: &AtlasData)
        ensures
            r.frames@ == self.frames(),
            r.meta.image@ == self.image(),
            r.meta.size == self.sheet_size(),
    {
        &self.data
    }

    /// The frame of the sprite named `name`, or none when no sprite has the
    /// name. (Names are unique, so the frame is that of the one sprite with
    /// the name.)
    pub fn get_frame(&self, name: &str) -> (r: Option<&AtlasFrame>)
        ensures
            names_unique(self.frames()),
            match r {
                Some(f) => exists|i: int|
                    0 <= i < self.frames().len() && #[trigger] self.frames()[i].0@ == name@ && *f
                        == self.frames()[i].1,
                None => forall|i: int|
                    0 <= i < self.frames().len() ==> #[trigger] self.frames()[i].0@ != name@,
            },
    {
        proof {
            use_type_invariant(self);
        }
        let mut i: usize = 0;
        while i < self.data.frames.len()
            invariant
                i <= self.data.frames@.len(),
                names_unique(self.data.frames@),
                forall|j: int| 0 <= j < i ==> #[trigger] self.data.frames@[j].0@ != name@,
            decreases self.data.frames@.len() - i,
        {
            if text_eq(&self.data.frames[i].0, name) {
                assert(self.frames()[i as int].0@ == name@);
                return Some(&self.data.frames[i].1);
            }
            i = i + 1;
        }
        None
    }
}

} // verus!
