//! Positions on hexagonal grids: axial and cube coordinates, the four offset coordinate
//! systems, and the six neighboring directions.
pub mod axial;
pub mod cube;
pub mod neighbors;
pub mod offset;
