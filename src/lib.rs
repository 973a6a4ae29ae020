//! Attendance tracking for teams: admin identity, team and membership
//! registry, and per-member attendance sessions over an in-memory
//! relational store.
//!
//! Every operation keeps the store well formed (`StoreView::wf`): rows have
//! serial identifiers, every member points at an existing team, every
//! session at an existing member and team, and each member has at most one
//! open session. A team's owning admin is recorded as given: teams are
//! created for an admin the caller has already resolved. Beyond that, three choices are made
//! where older designs left room:
//! - team names are unique, and so is a platform identity within a team, so
//!   that commands can name teams and members without ambiguity;
//! - a member row belongs to one team, so checking out closes the open
//!   session of that membership only;
//! - session tokens are valid for one hour, whichever surface issues them.

pub mod time;
pub mod model;
pub mod store;
pub mod attendance_repository;
pub mod team_repository;
pub mod user_repository;
pub mod auth;
pub mod attendance_service;
pub mod team_service;
pub mod commands;
pub mod handlers;
pub mod laws;
