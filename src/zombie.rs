use vstd::prelude::*;
use crate::orientation::{Orientation, Stance};

verus! {

/// Pixels of padding between two frames of a sprite sheet.
pub const SPRITE_OFFSET: u32 = 2;

/// Idle frames come first in the living rows: eight directions of four frames.
pub const ZOMBIE_STILL_SPRITE_OFFSET: usize = 32;

/// Critical-death frames come first in the death rows: eight directions of
/// eight frames; normal-death frames follow them.
pub const NORMAL_DEATH_SPRITE_OFFSET: usize = 64;

/// Frames per direction of each animation.
pub const STILL_FRAMES: usize = 4;
pub const WALKING_FRAMES: usize = 8;
pub const NORMAL_DEATH_FRAMES: usize = 6;
pub const CRITICAL_DEATH_FRAMES: usize = 8;

/// Row of the atlas that sprite frames are read from.
pub const SPRITE_ROW: u32 = 2;

/// Pixel rectangle of one frame in the zombie sprite sheet.
#[derive(Clone, Copy, Debug, PartialEq, Eq, Structural)]
pub struct CritterData {
    pub x: u32,
    pub y: u32,
    pub width: u32,
    pub height: u32,
}

/// Base frame indices of one zombie variant, for the living and the dead rows.
#[derive(Clone, Copy, Debug, PartialEq, Eq, Structural)]
pub struct ZombieSprite {
    pub zombie_idx: usize,
    pub zombie_death_idx: usize,
}

/// The frame of the atlas to draw. The column divisor of the atlas is
/// `sheet_width / frame_span`, kept as an exact fraction.
#[derive(Clone, Copy, Debug, PartialEq, Eq, Structural)]
pub struct CharacterSheet {
    pub sheet_width: u32,
    pub frame_span: u64,
    pub y_div: u32,
    pub row_idx: u32,
    pub index: usize,
}

/// Animation state of one zombie: the facing of this frame's input, the last
/// facing it was seen moving in, and its stance.
#[derive(Clone, Copy, Debug, PartialEq, Eq, Structural)]
pub struct ZombieDrawable {
    pub orientation: Orientation,
    pub direction: Orientation,
    pub stance: Stance,
}

/// Sprite side of the zombie renderer: the frame table of the zombie sheet
/// and the sheet's width in pixels.
pub struct ZombieDrawSystem {
    pub data: Vec<CritterData>,
    pub total_width: u32,
}

impl ZombieDrawable {
    /// State after this frame's input facing is `o`; the committed direction
    /// follows it only while the actor moves.
    pub open spec fn oriented(self, o: Orientation) -> ZombieDrawable {
        ZombieDrawable {
            orientation: o,
            direction: if o == Orientation::Still { self.direction } else { o },
            stance: self.stance,
        }
    }

    /// Death stance taken on a hit: the random draw picks one of the two.
    pub open spec fn death_stance(normal_death: bool) -> Stance {
        if normal_death { Stance::NormalDeath } else { Stance::CriticalDeath }
    }

    /// State after the overlap flags of this frame's projectiles: a living
    /// actor that overlaps any of them dies; a dead one stays as it is.
    pub open spec fn after_hits(self, overlaps: Seq<bool>, normal_death: bool) -> ZombieDrawable {
        if !self.stance.spec_is_dead() && exists|i: int| 0 <= i < overlaps.len() && overlaps[i] {
            ZombieDrawable { stance: Self::death_stance(normal_death), ..self }
        } else {
            self
        }
    }

    /// Flat atlas index that the frame-selection rules give, first match wins.
    pub open spec fn sprite_index(self, z: ZombieSprite) -> int {
        let d = self.direction.spec_ordinal() as int;
        if self.stance == Stance::Still {
            d * STILL_FRAMES + z.zombie_idx
        } else if self.orientation != Orientation::Still && self.stance == Stance::Walking {
            d * WALKING_FRAMES + z.zombie_idx + ZOMBIE_STILL_SPRITE_OFFSET
        } else if self.orientation != Orientation::Still && self.stance == Stance::NormalDeath {
            d * NORMAL_DEATH_FRAMES + z.zombie_death_idx + NORMAL_DEATH_SPRITE_OFFSET
        } else if self.orientation != Orientation::Still && self.stance == Stance::CriticalDeath {
            d * CRITICAL_DEATH_FRAMES + z.zombie_death_idx
        } else {
            d * STILL_FRAMES + z.zombie_idx
        }
    }

    /// A zombie at spawn: idle, facing left.
    pub fn new() -> (r: ZombieDrawable)
        ensures
            r.orientation == Orientation::Left,
            r.direction == Orientation::Left,
            r.stance == Stance::Still,
    {
        ZombieDrawable {
            orientation: Orientation::Left,
            direction: Orientation::Left,
            stance: Stance::Still,
        }
    }

    /// Records the facing derived from this frame's movement.
    pub fn set_orientation(&mut self, o: Orientation)
        ensures
            *final(self) == old(self).oriented(o),
    {
        self.orientation = o;
        if !o.is_still() {
            self.direction = o;
        }
    }

    /// Applies this frame's projectile overlaps (one flag per projectile);
    /// `normal_death` is the random draw that picks the death stance.
    pub fn update(&mut self, overlaps: &Vec<bool>, normal_death: bool)
        ensures
            *final(self) == old(self).after_hits(overlaps@, normal_death),
    {
        let ghost start = *self;
        let mut i: usize = 0;
        while i < overlaps.len()
            invariant
                0 <= i <= overlaps@.len(),
                self.orientation == start.orientation,
                self.direction == start.direction,
                start.stance.spec_is_dead() ==> *self == start,
                !start.stance.spec_is_dead() && (exists|k: int| 0 <= k < i && overlaps@[k])
                    ==> self.stance == Self::death_stance(normal_death),
                !(exists|k: int| 0 <= k < i && overlaps@[k]) ==> *self == start,
            decreases overlaps@.len() - i,
        {
            if overlaps[i] && !self.stance.is_dead() {
                self.stance = if normal_death { Stance::NormalDeath } else { Stance::CriticalDeath };
            }
            i += 1;
        }
    }
}

impl ZombieDrawSystem {
    pub fn new(data: Vec<CritterData>, total_width: u32) -> (r: ZombieDrawSystem)
        ensures
            r.data@ == data@,
            r.total_width == total_width,
    {
        ZombieDrawSystem { data, total_width }
    }

    /// Resolves the frame to draw for `drawable`, a zombie of variant `zombie`.
    pub fn get_next_sprite(&self, zombie: &ZombieSprite, drawable: &ZombieDrawable) -> (r: CharacterSheet)
        requires
            drawable.sprite_index(*zombie) < self.data@.len(),
        ensures
            r.index as int == drawable.sprite_index(*zombie),
            r.sheet_width == self.total_width,
            r.frame_span == self.data@[r.index as int].width + SPRITE_OFFSET,
            r.y_div == (if drawable.stance.spec_is_dead() { 0u32 } else { 1u32 }),
            r.row_idx == SPRITE_ROW,
    {
        let (base, death) = Self::frame_base(drawable);
        let idx = if death { zombie.zombie_death_idx } else { zombie.zombie_idx };
        let n = self.data.len();
        assert(base + idx == drawable.sprite_index(*zombie) < n);
        let sprite_idx = base + idx;
        let y_div: u32 = if drawable.stance.is_dead() { 0 } else { 1 };
        CharacterSheet {
            sheet_width: self.total_width,
            frame_span: self.data[sprite_idx].width as u64 + SPRITE_OFFSET as u64,
            y_div,
            row_idx: SPRITE_ROW,
            index: sprite_idx,
        }
    }

    /// The frame-selection rules, first match wins: the index of the picked
    /// animation's first frame for this facing, and whether the variant's
    /// death base index (rather than its living one) is added to it.
    fn frame_base(drawable: &ZombieDrawable) -> (r: (usize, bool))
        ensures
            r.0 <= 128,
            forall|z: ZombieSprite| #[trigger] drawable.sprite_index(z) == r.0 + if r.1 {
                z.zombie_death_idx as int
            } else {
                z.zombie_idx as int
            },
    {
        let d = drawable.direction.ordinal();
        let still = drawable.orientation.is_still();
        if drawable.stance == Stance::Still {
            (d * STILL_FRAMES, false)
        } else if !still && drawable.stance == Stance::Walking {
            (d * WALKING_FRAMES + ZOMBIE_STILL_SPRITE_OFFSET, false)
        } else if !still && drawable.stance == Stance::NormalDeath {
            (d * NORMAL_DEATH_FRAMES + NORMAL_DEATH_SPRITE_OFFSET, true)
        } else if !still && drawable.stance == Stance::CriticalDeath {
            (d * CRITICAL_DEATH_FRAMES, true)
        } else {
            (d * STILL_FRAMES, false)
        }
    }

    /// The frame to draw, or `None` when the rules pick an index past the end
    /// of the frame table.
    pub fn try_next_sprite(&self, zombie: &ZombieSprite, drawable: &ZombieDrawable) -> (r: Option<CharacterSheet>)
        ensures
            r is Some <==> drawable.sprite_index(*zombie) < self.data@.len(),
            r is Some ==> {
                let s = r->Some_0;
                &&& s.index as int == drawable.sprite_index(*zombie)
                &&& s.sheet_width == self.total_width
                &&& s.frame_span == self.data@[s.index as int].width + SPRITE_OFFSET
                &&& s.y_div == (if drawable.stance.spec_is_dead() { 0u32 } else { 1u32 })
                &&& s.row_idx == SPRITE_ROW
            },
    {
        let (base, death) = Self::frame_base(drawable);
        let idx = if death { zombie.zombie_death_idx } else { zombie.zombie_idx };
        let n = self.data.len();
        if base <= n && idx < n - base {
            Some(self.get_next_sprite(zombie, drawable))
        } else {
            None
        }
    }
}

/// An idle actor shows the idle frame of its committed facing, whatever the
/// facing of this frame's input is.
pub proof fn lemma_idle_frame_follows_committed(d: ZombieDrawable, z: ZombieSprite)
    requires
        d.stance == Stance::Still,
    ensures
        d.sprite_index(z) == d.direction.spec_ordinal() * STILL_FRAMES + z.zombie_idx,
        d.oriented(Orientation::Still).sprite_index(z) == d.sprite_index(z),
{
}

/// A walking actor whose input stops keeps the facing it last moved in, once
/// and for all further still frames, and is served the idle frame of it.
pub proof fn lemma_stop_keeps_facing(d: ZombieDrawable, o: Orientation, z: ZombieSprite)
    requires
        d.stance == Stance::Walking,
        o != Orientation::Still,
    ensures
        d.oriented(o).direction == o,
        d.oriented(o).oriented(Orientation::Still).direction == o,
        d.oriented(o).oriented(Orientation::Still).oriented(Orientation::Still)
            == d.oriented(o).oriented(Orientation::Still),
        d.oriented(o).oriented(Orientation::Still).sprite_index(z)
            == o.spec_ordinal() * STILL_FRAMES + z.zombie_idx,
{
}

/// A death stance is terminal: no projectile overlap changes it.
pub proof fn lemma_death_is_terminal(d: ZombieDrawable, overlaps: Seq<bool>, normal_death: bool)
    requires
        d.stance.spec_is_dead(),
    ensures
        d.after_hits(overlaps, normal_death) == d,
{
}

/// A living actor that overlaps a projectile goes straight to exactly one of
/// the two death stances, the one the random draw picks, keeping its facing.
pub proof fn lemma_hit_kills(d: ZombieDrawable, overlaps: Seq<bool>, normal_death: bool, i: int)
    requires
        !d.stance.spec_is_dead(),
        0 <= i < overlaps.len(),
        overlaps[i],
    ensures
        d.after_hits(overlaps, normal_death).stance.spec_is_dead(),
        normal_death ==> d.after_hits(overlaps, normal_death).stance == Stance::NormalDeath,
        !normal_death ==> d.after_hits(overlaps, normal_death).stance == Stance::CriticalDeath,
        d.after_hits(overlaps, normal_death).orientation == d.orientation,
        d.after_hits(overlaps, normal_death).direction == d.direction,
{
}

/// Per-frame system that feeds each zombie its camera and input state.
pub struct PreDrawSystem;

impl PreDrawSystem {
    pub fn new() -> PreDrawSystem {
        PreDrawSystem
    }
}

} // verus!
