//! Helpers shared by the generators: id factories, table compression and
//! code printing.

pub mod compress;
pub mod id_util;
pub mod str_util;
pub mod to_btree;
pub mod unique_id_factory;
