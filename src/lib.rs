//! Flat, caller-owned export forms of game-asset values, with the paired
//! release calls that reclaim them.

#![allow(non_camel_case_types)]

pub mod buffer;
pub mod common;
pub mod dic;
pub mod exd;
pub mod exh;
pub mod existing_dirs;
pub mod exl;
pub mod hwc;
pub mod index;
pub mod layer;
pub mod logging;
pub mod model;
pub mod mtrl;
pub mod patchlist;
pub mod pbd;
pub mod release;
pub mod repository;
pub mod scn;
pub mod shpk;
pub mod skeleton;
pub mod tera;
pub mod tex;
pub mod tmb;
