//! The registry of named sprites on the sprite sheet: their frames on the sheet
//! and the outlines their colliders are built from. Reading the sheet's files is
//! left to the caller, which registers what it read here.
use crate::geometry::Vec2;
use vstd::prelude::*;

verus! {

/// Largest coordinate or size on a sprite sheet, in pixels.
pub const SHEET_LIMIT: i64 = 1_000_000;

/// A sprite's frame on the sheet, in sheet pixels.
#[derive(Clone, Debug)]
pub struct Sprite {
    pub name: String,
    pub x: i64,
    pub y: i64,
    pub width: i64,
    pub height: i64,
}

impl Sprite {
    pub open spec fn wf(&self) -> bool {
        &&& 0 <= self.x <= SHEET_LIMIT
        &&& 0 <= self.y <= SHEET_LIMIT
        &&& 0 <= self.width <= SHEET_LIMIT
        &&& 0 <= self.height <= SHEET_LIMIT
    }

    /// Half the width, rounded down.
    pub fn half_width(&self) -> (r: i64)
        requires
            self.wf(),
        ensures
            r == self.width / 2,
    {
        self.width / 2
    }

    /// Half the height, rounded down.
    pub fn half_height(&self) -> (r: i64)
        requires
            self.wf(),
        ensures
            r == self.height / 2,
    {
        self.height / 2
    }
}

/// One convex outline of a sprite's collider, in sheet pixels.
#[derive(Clone, Debug)]
pub struct Shape {
    pub name: String,
    pub points: Vec<Vec2>,
}

/// A sheet point moved into the sprite's own frame: origin at the sprite's centre,
/// y pointing up.
pub open spec fn to_sprite_origin(p: Vec2, sprite: Sprite) -> (int, int) {
    (p.x - sprite.x - sprite.width / 2, -p.y + sprite.y + sprite.height / 2)
}

impl Shape {
    /// The outline's points, as they are on the sheet or moved into the sprite's own
    /// frame when `to_origin` is set.
    pub fn get_points(&self, sprite: &Sprite, to_origin: bool) -> (r: Vec<Vec2>)
        requires
            sprite.wf(),
            forall|i: int|
                0 <= i < self.points@.len() ==> -SHEET_LIMIT <= (#[trigger] self.points@[i]).x
                    <= SHEET_LIMIT && -SHEET_LIMIT <= self.points@[i].y <= SHEET_LIMIT,
        ensures
            r@.len() == self.points@.len(),
            !to_origin ==> r@ == self.points@,
            to_origin ==> forall|i: int|
                0 <= i < r@.len() ==> (#[trigger] r@[i]).x == to_sprite_origin(
                    self.points@[i],
                    *sprite,
                ).0 && r@[i].y == to_sprite_origin(self.points@[i], *sprite).1,
    {
        let mut r: Vec<Vec2> = Vec::with_capacity(self.points.len());
        let mut i: usize = 0;
        let hw = sprite.half_width();
        let hh = sprite.half_height();
        while i < self.points.len()
            invariant
                i <= self.points@.len(),
                r@.len() == i,
                sprite.wf(),
                hw == sprite.width / 2,
                hh == sprite.height / 2,
                forall|k: int|
                    0 <= k < self.points@.len() ==> -SHEET_LIMIT <= (
                    #[trigger] self.points@[k]).x <= SHEET_LIMIT && -SHEET_LIMIT
                        <= self.points@[k].y <= SHEET_LIMIT,
                !to_origin ==> forall|k: int| 0 <= k < i ==> #[trigger] r@[k] == self.points@[k],
                to_origin ==> forall|k: int|
                    0 <= k < i ==> (#[trigger] r@[k]).x == to_sprite_origin(
                        self.points@[k],
                        *sprite,
                    ).0 && r@[k].y == to_sprite_origin(self.points@[k], *sprite).1,
            decreases self.points@.len() - i,
        {
            let p = self.points[i];
            if to_origin {
                r.push(Vec2 { x: p.x - sprite.x - hw, y: -p.y + sprite.y + hh });
            } else {
                r.push(p);
            }
            i = i + 1;
        }
        if !to_origin {
            assert(r@ =~= self.points@);
        }
        r
    }
}

/// A sprite name that has no registered sprite: the game cannot start without it.
#[derive(Clone, Debug, PartialEq, Eq)]
pub struct MissingAsset {
    pub name: String,
}

/// The sprites of one sprite sheet, by name; no two share a name.
#[derive(Clone, Debug)]
pub struct XMLSpriteSheetLoader {
    pub file: String,
    map: Vec<Sprite>,
}

/// Index of the sprite named `name` among `sprites`, if there is one.
pub open spec fn sprite_index(sprites: Seq<Sprite>, name: Seq<char>) -> Option<int> {
    if exists|i: int| 0 <= i < sprites.len() && (#[trigger] sprites[i]).name@ == name {
        Some(choose|i: int| 0 <= i < sprites.len() && (#[trigger] sprites[i]).name@ == name)
    } else {
        None
    }
}

impl XMLSpriteSheetLoader {
    /// The registered sprites, in the order they were registered.
    pub closed spec fn sprites(&self) -> Seq<Sprite> {
        self.map@
    }

    /// Name of the sheet image.
    pub closed spec fn file_name(&self) -> Seq<char> {
        self.file@
    }

    /// Names are unique, and every sprite's frame lies within the sheet bounds.
    pub open spec fn wf(&self) -> bool {
        &&& forall|i: int, j: int|
            0 <= i < j < self.sprites().len() ==> (#[trigger] self.sprites()[i]).name@ != (
            #[trigger] self.sprites()[j]).name@
        &&& forall|i: int| 0 <= i < self.sprites().len() ==> (#[trigger] self.sprites()[i]).wf()
    }

    /// An empty registry for the sheet image `file`.
    pub fn new(file: &str) -> (r: XMLSpriteSheetLoader)
        ensures
            r.wf(),
            r.file_name() == file@,
            r.sprites().len() == 0,
    {
        XMLSpriteSheetLoader { file: file.to_owned(), map: Vec::new() }
    }

    /// Position of the sprite named `name`.
    fn position_of(&self, name: &String) -> (r: Option<usize>)
        requires
            self.wf(),
        ensures
            r.is_some() ==> r.unwrap() < self.sprites().len() && self.sprites()[r.unwrap() as int].name@
                == name@,
            r.is_none() ==> sprite_index(self.sprites(), name@).is_none(),
            r.is_some() ==> sprite_index(self.sprites(), name@) == Some(r.unwrap() as int),
    {
        let mut i: usize = 0;
        while i < self.map.len()
            invariant
                i <= self.map@.len(),
                self.wf(),
                forall|k: int| 0 <= k < i ==> (#[trigger] self.map@[k]).name@ != name@,
            decreases self.map@.len() - i,
        {
            if self.map[i].name == *name {
                proof {
                    lemma_index_of_unique(self.sprites(), name@, i as int);
                }
                return Some(i);
            }
            i = i + 1;
        }
        None
    }

    /// Registers a sprite, replacing any registered under the same name; a new
    /// name goes last.
    pub fn insert_sprite(&mut self, sprite: Sprite)
        requires
            old(self).wf(),
            sprite.wf(),
        ensures
            final(self).wf(),
            final(self).file_name() == old(self).file_name(),
            match sprite_index(old(self).sprites(), sprite.name@) {
                Some(i) => final(self).sprites() == old(self).sprites().update(i, sprite),
                None => final(self).sprites() == old(self).sprites().push(sprite),
            },
            sprite_index(final(self).sprites(), sprite.name@).is_some(),
            final(self).sprites()[sprite_index(final(self).sprites(), sprite.name@).unwrap()]
                == sprite,
    {
        let key = sprite.name.clone();
        let ghost name = sprite.name@;
        match self.position_of(&key) {
            Some(i) => {
                self.map.set(i, sprite);
                proof {
                    assert(forall|k: int|
                        0 <= k < self.sprites().len() && k != i ==> #[trigger] self.sprites()[k]
                            == old(self).sprites()[k]);
                    lemma_index_of_unique(self.sprites(), name, i as int);
                }
            },
            None => {
                self.map.push(sprite);
                proof {
                    let last = self.sprites().len() - 1;
                    assert(forall|k: int|
                        0 <= k < last ==> #[trigger] self.sprites()[k] == old(self).sprites()[k]);
                    assert forall|a: int, b: int|
                        0 <= a < b < self.sprites().len() implies (
                        #[trigger] self.sprites()[a]).name@ != (#[trigger] self.sprites()[b]).name@ by {
                        if b == last {
                            assert(old(self).sprites()[a].name@ != name);
                        }
                    }
                    lemma_index_of_unique(self.sprites(), name, last);
                }
            },
        }
    }

    /// The sprite registered under `sprite_name`, if any.
    pub fn get_sprite(&self, sprite_name: &str) -> (r: Option<&Sprite>)
        requires
            self.wf(),
        ensures
            r.is_some() == sprite_index(self.sprites(), sprite_name@).is_some(),
            r.is_some() ==> *r.unwrap() == self.sprites()[sprite_index(
                self.sprites(),
                sprite_name@,
            ).unwrap()],
    {
        let key = sprite_name.to_owned();
        match self.position_of(&key) {
            Some(i) => Some(&self.map[i]),
            None => None,
        }
    }

    /// The sprite registered under `sprite_name`, or the missing-asset error that
    /// stops the game from starting.
    pub fn require_sprite(&self, sprite_name: &str) -> (r: Result<&Sprite, MissingAsset>)
        requires
            self.wf(),
        ensures
            r.is_ok() == sprite_index(self.sprites(), sprite_name@).is_some(),
            r.is_ok() ==> *r.unwrap() == self.sprites()[sprite_index(
                self.sprites(),
                sprite_name@,
            ).unwrap()],
            r.is_err() ==> r.unwrap_err().name@ == sprite_name@,
    {
        match self.get_sprite(sprite_name) {
            Some(s) => Ok(s),
            None => Err(MissingAsset { name: sprite_name.to_owned() }),
        }
    }
}

/// In a sequence of uniquely named sprites, the one at `i` is the one found by its name.
pub proof fn lemma_index_of_unique(sprites: Seq<Sprite>, name: Seq<char>, i: int)
    requires
        0 <= i < sprites.len(),
        sprites[i].name@ == name,
        forall|a: int, b: int|
            0 <= a < b < sprites.len() ==> (#[trigger] sprites[a]).name@ != (
            #[trigger] sprites[b]).name@,
    ensures
        sprite_index(sprites, name) == Some(i),
{
    let j = choose|j: int| 0 <= j < sprites.len() && (#[trigger] sprites[j]).name@ == name;
    if j < i {
        assert(sprites[j].name@ != sprites[i].name@);
    } else if j > i {
        assert(sprites[i].name@ != sprites[j].name@);
    }
}

} // verus!
