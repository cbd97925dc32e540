//! The nodes that the address space of a server is made of.

pub mod access_level;
pub mod address_space;
pub mod base;
pub mod data_type;
pub mod node;
pub mod object;
pub mod reference_type;
pub mod references;
pub mod variable;
pub mod variable_type;
pub mod view;
