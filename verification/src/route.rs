pub mod db;
pub mod hash;
pub mod key;
pub mod list;
pub mod terminal;
