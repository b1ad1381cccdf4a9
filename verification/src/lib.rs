//! Turns scraped game metadata into a single-language description record and
//! an installable package descriptor for the platform the game belongs to.

pub mod conf;
pub mod emulationstation;
pub mod jeuinfos;
pub mod name;
pub mod package;
pub mod profile;
pub mod provider;
pub mod resolve;
pub mod screenscraper;
pub mod text;
