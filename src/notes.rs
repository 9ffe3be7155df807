pub mod writer;
