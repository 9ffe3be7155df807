pub mod end_writer;
pub mod start_parser;
