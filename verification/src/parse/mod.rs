pub mod error;
pub mod elementext;
pub mod leaf;
pub mod interrupt;
pub mod registerproperties;
pub mod bitrange;
pub mod dimelement;
pub mod writeconstraint;
pub mod enumeratedvalue;
pub mod field;
pub mod register;
