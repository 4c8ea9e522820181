pub mod parameters;
pub mod clk_out;
pub mod output;
pub mod menu;
pub mod output_core;
