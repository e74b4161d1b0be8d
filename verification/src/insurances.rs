//! Insurance policies that employment law requires of the employer.

pub mod work_accidents;
