//! Bit timing register values (CNF3, CNF2, CNF1, in address order) for common oscillator
//! frequencies and bit rates
pub mod clock_16mhz;
pub mod clock_20mhz;
pub mod clock_8mhz;
