pub mod attack;
pub mod fighter;
pub mod gui;
pub mod input;
pub mod text;
