pub mod calculator;
