pub mod screenshot;
