pub mod analyze;
