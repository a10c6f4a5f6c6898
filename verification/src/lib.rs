pub mod block;
pub mod dwarfing;
pub mod player;
pub mod rowgen;
pub mod score;
pub mod shape;
