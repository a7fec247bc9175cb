//! Point-of-sale business rules: pricing, promotions, loyalty, tenders,
//! permissions, shift cash reconciliation, purchasing and backup policy.

pub mod text;
pub mod pricing;
pub mod models;
pub mod sale;
pub mod security;
pub mod shifts;
pub mod devices;
pub mod hardware;
pub mod backup;
pub mod health;
pub mod registers;
pub mod purchasing;
pub mod reports;
pub mod customers;
pub mod catalog;
pub mod settings;
pub mod applog;
pub mod txns;
pub mod demo;
pub mod audit;
