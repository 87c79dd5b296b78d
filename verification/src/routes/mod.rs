pub mod quote;
