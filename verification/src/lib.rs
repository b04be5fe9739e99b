//! Reading and writing the Minecraft network protocol and the data it
//! carries: packets and their fields, NBT tags, chat components, recorded
//! packets, region file headers, and the configuration of the tool that
//! records and replays them.
pub mod bytes;
pub mod chat;
pub mod chunk;
pub mod config;
pub mod data_gen;
pub mod disk;
pub mod enchantments;
pub mod item;
pub mod launchers;
pub mod maps;
pub mod nbt;
pub mod protocol;
pub mod record;
pub mod region;
pub mod text;
