pub mod heading;
pub mod world;
