pub mod parser;
