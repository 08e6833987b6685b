//! Positions on isometric grids, with neighbors given by compass direction.
pub mod diamond;
