pub mod validate_level;
pub mod error;
pub mod text;
pub mod names;
pub mod tree;
pub mod access;
pub mod usage;
pub mod modifiedwritevalues;
pub mod readaction;
pub mod protection;
pub mod endian;
pub mod bitrange;
pub mod writeconstraint;
pub mod enumeratedvalue;
pub mod registerproperties;
pub mod fieldinfo;
pub mod dimelement;
pub mod device;
pub mod cpu;
pub mod interrupt;
pub mod register;
pub mod registerinfo;
pub mod peripheral;
pub mod number;
pub mod encode;
pub mod parse;
