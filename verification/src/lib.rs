//! Physics and collision core of a 2D side-scrolling runner game.
//!
//! The library owns the rotated-rectangle geometry, the force/velocity/position
//! integration model, the per-frame body update contract, and the collision
//! response rules for player, obstacles and collectibles.  All continuous
//! quantities (positions, velocities, masses, angles) are fixed-point integers
//! in units of one thousandth, so every operation is exact, total and free of
//! overflow; the rendering, input and window layers around the core hand it
//! plain values and read plain values back.

pub mod body;
pub mod collect;
pub mod fixed;
pub mod geom;
pub mod obstacle;
pub mod physics;
pub mod player;
pub mod power;
pub mod types;

pub use body::Body;
pub use body::Collectible;
pub use body::Entity;
pub use collect::Coin;
pub use collect::Power;
pub use fixed::FP_ONE;
pub use geom::PhysRect;
pub use geom::Point;
pub use obstacle::Obstacle;
pub use physics::Physics;
pub use player::Player;
pub use power::PowerState;
pub use types::ObstacleType;
pub use types::PowerType;
pub use types::TerrainType;
