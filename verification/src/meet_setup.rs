//! Decoders for the `meetsetup.xml` meet-configuration format.

pub mod age_group;
pub mod australian_rank;
pub mod australian_world_record;
pub mod award;
pub mod class;
pub mod competition_type;
pub mod distance;
pub mod document;
pub mod error;
pub mod event;
pub mod gender_class;
pub mod gender_group;
pub mod handicap;
pub mod individual_distance;
pub mod junior;
pub mod meet;
pub mod meet_info;
pub mod person;
pub mod pool_category;
pub mod pool_length;
pub mod primitives;
pub mod qualification;
pub mod qualification_set;
pub mod round;
pub mod session;
pub mod sorting;
pub mod style;
pub mod team_distance;
pub mod touch_pad_set;
