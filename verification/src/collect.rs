//! Collectibles: coins and power-ups, with whole-pixel positions and a
//! monotonic collected flag that latches on the first pickup.

use vstd::prelude::*;

use crate::body::Collectible;
use crate::body::Entity;
use crate::body::cl;
use crate::body::clamp_i64;
use crate::geom::PhysRect;
use crate::geom::Point;
use crate::geom::rect_of_shape;
use crate::geom::rect_wf;
use crate::geom::shape_set_x;
use crate::geom::shape_set_y;
use crate::types::PowerType;

verus! {

/// The hitbox shape aligned to a whole-pixel position.
pub open spec fn aligned_px(hb: crate::geom::RectShape, x: int, y: int) -> crate::geom::RectShape {
    shape_set_y(shape_set_x(hb, x), y)
}

/// A coin the player can pick up for its value.  The fields are public
/// so that specifications can speak of whole values; the operations
/// require and preserve the hitbox invariant.
#[derive(Clone, Copy, Debug)]
pub struct Coin {
    /// Whole-pixel position, the source of truth the hitbox follows.
    pub pos: (i32, i32),
    /// The oriented hitbox.
    pub hitbox: PhysRect,
    /// The score this coin is worth.
    pub value: i32,
    /// Latched once collected, never reset.
    pub collected: bool,
}

impl Coin {
    /// A new, uncollected coin at its hitbox's position.
    pub fn new(hitbox: PhysRect, value: i32) -> (r: Coin)
        requires
            rect_wf(hitbox@),
        ensures
            r.e_wf(),
            r.pos.0 == hitbox@.x && r.pos.1 == hitbox@.y,
            r.hitbox == hitbox,
            r.value == value,
            r.collected == false,
    {
        let x = hitbox.x();
        let y = hitbox.y();
        Coin { pos: (x, y), hitbox, value, collected: false }
    }

    /// The score this coin is worth.
    pub fn value(&self) -> (r: i32)
        ensures
            r == self.value,
    {
        self.value
    }

    /// Shifts the coin left with the terrain.
    pub fn travel_update(&mut self, travel_adj: i32)
        requires
            old(self).e_wf(),
        ensures
            *final(self) == (Coin {
                pos: (
                    cl(old(self).pos.0 - travel_adj, i32::MIN as int, i32::MAX as int) as i32,
                    old(self).pos.1,
                ),
                ..*old(self)
            }),
            final(self).e_wf(),
    {
        let np = clamp_i64(self.pos.0 as i64 - travel_adj as i64, i32::MIN as i64, i32::MAX as i64);
        self.pos = (np as i32, self.pos.1);
    }
}

impl Entity for Coin {
    open spec fn e_hitbox(&self) -> crate::geom::RectShape {
        self.hitbox@
    }

    open spec fn e_wf(&self) -> bool {
        rect_wf(self.hitbox@)
    }

    open spec fn spec_aligned(&self) -> Coin {
        Coin { hitbox: rect_of_shape(aligned_px(self.hitbox@, self.pos.0 as int, self.pos.1 as int)), ..*self }
    }

    open spec fn spec_camera_adj(&self, x_adj: int, y_adj: int) -> Coin {
        let np = (
            cl(self.pos.0 + x_adj, i32::MIN as int, i32::MAX as int) as i32,
            cl(self.pos.1 + y_adj, i32::MIN as int, i32::MAX as int) as i32,
        );
        Coin {
            pos: np,
            hitbox: rect_of_shape(aligned_px(self.hitbox@, np.0 as int, np.1 as int)),
            ..*self
        }
    }

    fn hitbox(&self) -> (r: PhysRect) {
        self.hitbox
    }

    fn x(&self) -> (r: i32) {
        self.hitbox.x()
    }

    fn y(&self) -> (r: i32) {
        self.hitbox.y()
    }

    fn center(&self) -> (r: Point) {
        self.hitbox.center()
    }

    fn align_hitbox_to_pos(&mut self) {
        self.hitbox.set_x(self.pos.0);
        self.hitbox.set_y(self.pos.1);
        proof {
            crate::geom::lemma_rect_view_injective(
                self.hitbox,
                rect_of_shape(
                    aligned_px(old(self).hitbox@, old(self).pos.0 as int, old(self).pos.1 as int),
                ),
            );
        }
    }

    fn camera_adj(&mut self, x_adj: i32, y_adj: i32) {
        let nx = clamp_i64(self.pos.0 as i64 + x_adj as i64, i32::MIN as i64, i32::MAX as i64);
        let ny = clamp_i64(self.pos.1 as i64 + y_adj as i64, i32::MIN as i64, i32::MAX as i64);
        self.pos = (nx as i32, ny as i32);
        self.align_hitbox_to_pos();
    }
}

impl Collectible for Coin {
    open spec fn c_pos(&self) -> (int, int) {
        (self.pos.0 as int, self.pos.1 as int)
    }

    open spec fn c_collected(&self) -> bool {
        self.collected
    }

    open spec fn spec_update_pos(&self, x: int, y: int) -> Coin {
        Coin { pos: (x as i32, y as i32), ..*self }
    }

    fn update_pos(&mut self, x: i32, y: i32) {
        self.pos = (x, y);
    }

    fn collect(&mut self) {
        self.collected = true;
    }

    fn collected(&self) -> (r: bool) {
        self.collected
    }
}

/// A power-up waiting on the ground.  The fields are public so that
/// specifications can speak of whole values; the operations require and
/// preserve the hitbox invariant.
#[derive(Clone, Copy, Debug)]
pub struct Power {
    /// Whole-pixel position, the source of truth the hitbox follows.
    pub pos: (i32, i32),
    /// The oriented hitbox.
    pub hitbox: PhysRect,
    /// Which power-up this grants.
    pub power_type: PowerType,
    /// Latched once collected, never reset.
    pub collected: bool,
}

impl Power {
    /// A new, uncollected power-up at its hitbox's position.
    pub fn new(hitbox: PhysRect, power_type: PowerType) -> (r: Power)
        requires
            rect_wf(hitbox@),
        ensures
            r.e_wf(),
            r.pos.0 == hitbox@.x && r.pos.1 == hitbox@.y,
            r.hitbox == hitbox,
            r.power_type == power_type,
            r.collected == false,
    {
        let x = hitbox.x();
        let y = hitbox.y();
        Power { pos: (x, y), hitbox, power_type, collected: false }
    }

    /// Which power-up this grants.
    pub fn power_type(&self) -> (r: PowerType)
        ensures
            r == self.power_type,
    {
        self.power_type
    }

    /// Shifts the power-up left with the terrain.
    pub fn travel_update(&mut self, travel_adj: i32)
        requires
            old(self).e_wf(),
        ensures
            *final(self) == (Power {
                pos: (
                    cl(old(self).pos.0 - travel_adj, i32::MIN as int, i32::MAX as int) as i32,
                    old(self).pos.1,
                ),
                ..*old(self)
            }),
            final(self).e_wf(),
    {
        let np = clamp_i64(self.pos.0 as i64 - travel_adj as i64, i32::MIN as i64, i32::MAX as i64);
        self.pos = (np as i32, self.pos.1);
    }
}

impl Entity for Power {
    open spec fn e_hitbox(&self) -> crate::geom::RectShape {
        self.hitbox@
    }

    open spec fn e_wf(&self) -> bool {
        rect_wf(self.hitbox@)
    }

    open spec fn spec_aligned(&self) -> Power {
        Power { hitbox: rect_of_shape(aligned_px(self.hitbox@, self.pos.0 as int, self.pos.1 as int)), ..*self }
    }

    open spec fn spec_camera_adj(&self, x_adj: int, y_adj: int) -> Power {
        let np = (
            cl(self.pos.0 + x_adj, i32::MIN as int, i32::MAX as int) as i32,
            cl(self.pos.1 + y_adj, i32::MIN as int, i32::MAX as int) as i32,
        );
        Power {
            pos: np,
            hitbox: rect_of_shape(aligned_px(self.hitbox@, np.0 as int, np.1 as int)),
            ..*self
        }
    }

    fn hitbox(&self) -> (r: PhysRect) {
        self.hitbox
    }

    fn x(&self) -> (r: i32) {
        self.hitbox.x()
    }

    fn y(&self) -> (r: i32) {
        self.hitbox.y()
    }

    fn center(&self) -> (r: Point) {
        self.hitbox.center()
    }

    fn align_hitbox_to_pos(&mut self) {
        self.hitbox.set_x(self.pos.0);
        self.hitbox.set_y(self.pos.1);
        proof {
            crate::geom::lemma_rect_view_injective(
                self.hitbox,
                rect_of_shape(
                    aligned_px(old(self).hitbox@, old(self).pos.0 as int, old(self).pos.1 as int),
                ),
            );
        }
    }

    fn camera_adj(&mut self, x_adj: i32, y_adj: i32) {
        let nx = clamp_i64(self.pos.0 as i64 + x_adj as i64, i32::MIN as i64, i32::MAX as i64);
        let ny = clamp_i64(self.pos.1 as i64 + y_adj as i64, i32::MIN as i64, i32::MAX as i64);
        self.pos = (nx as i32, ny as i32);
        self.align_hitbox_to_pos();
    }
}

impl Collectible for Power {
    open spec fn c_pos(&self) -> (int, int) {
        (self.pos.0 as int, self.pos.1 as int)
    }

    open spec fn c_collected(&self) -> bool {
        self.collected
    }

    open spec fn spec_update_pos(&self, x: int, y: int) -> Power {
        Power { pos: (x as i32, y as i32), ..*self }
    }

    fn update_pos(&mut self, x: i32, y: i32) {
        self.pos = (x, y);
    }

    fn collect(&mut self) {
        self.collected = true;
    }

    fn collected(&self) -> (r: bool) {
        self.collected
    }
}

} // verus!
