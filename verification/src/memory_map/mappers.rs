//! The concrete mappers a cartridge can be placed by.

pub mod nrom;

pub use self::nrom::NROMMemoryMap;
