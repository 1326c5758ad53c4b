//! Membership management for capacity-bounded student circles.
//!
//! The crate holds the circle aggregate with its value objects and rules,
//! the contracts of the collaborators that persist circles, an in-memory
//! store that meets them, and the use cases that tie the two together.
pub mod text;
pub mod error;
pub mod grade;
pub mod major;
pub mod circle_id;
pub mod member_id;
pub mod member;
pub mod circle;
pub mod member_data;
pub mod circle_data;
pub mod db;
pub mod interface;
pub mod circle_repository;
pub mod create_circle;
pub mod fetch_circle;
pub mod fetch_all_circle;
pub mod update_circle;
pub mod handler;
