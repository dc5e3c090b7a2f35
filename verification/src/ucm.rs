//! The campus services: courses, the dining hall, the library, the academic
//! calendar and the food trucks.

pub mod calendar;
pub mod course_models;
pub mod courses;
pub mod courses_db;
pub mod courses_db_models;
pub mod foodtrucks;
pub mod libcal_models;
pub mod library;
pub mod page;
pub mod pav_models;
pub mod pavilion;
pub mod professors;
pub mod reminders;
