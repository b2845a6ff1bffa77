pub mod key;
