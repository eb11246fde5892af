//! A harness core for running compiled stack-machine bytecode in a virtual
//! machine sandbox: it wraps runtime code in deployable bootstrap code,
//! decodes the cheat-code protocol spoken to a reserved address, and reduces
//! the machine's raw outcome to a test result.

pub mod bootstrap;
pub mod cheats;
pub mod decimal;
pub mod decorator;
pub mod hex;
pub mod inspector;
pub mod runner;
