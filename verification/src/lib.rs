//! Verified core of a small colony simulation: item and resource bookkeeping,
//! countdown timers, production scheduling, work rosters, creature task
//! queues and the text shown for the in-game clock.

pub mod common;
pub mod items;
pub mod resources;
pub mod crafting_progress;
pub mod entity;
pub mod countdown_heap;
pub mod plants;
pub mod jobs;
pub mod datetime;
pub mod building;
pub mod tasks;
pub mod carrier;
pub mod resource_gathering;
pub mod planned_work;
pub mod skills;
