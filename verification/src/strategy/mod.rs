pub mod bounds;
pub mod dynagrid;
pub mod types;
