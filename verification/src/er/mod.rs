pub mod travel;
