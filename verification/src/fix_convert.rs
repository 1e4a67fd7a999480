pub mod broker;
