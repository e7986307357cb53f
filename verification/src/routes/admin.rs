//! The pages behind the login: the dashboard, the change of password,
//! and logging out.

pub mod dashboard;
pub mod logout;
pub mod password;
