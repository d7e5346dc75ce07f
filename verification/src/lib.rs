//! Core of a school-administration backend: a stateless bearer-token
//! authentication layer and the small pure helpers around it.
//!
//! The verified surface covers the signed token codec (issue / verify),
//! the route exemption policy, the request gate that every request passes
//! through, the guest-token and login flows, and the uniform response
//! envelope. Database access, HTTP plumbing and file uploads are left to
//! the surrounding application.

pub mod app_dto;
pub mod app_service;
pub mod codec;
pub mod errors;
pub mod helper;
pub mod jwt_service;
pub mod middleware;
pub mod policy;
pub mod response;
pub mod users;
