//! Logic of a small command-line weather client: reading the stored
//! credentials, choosing the city, building the request address and turning
//! the provider's answer into the lines that are shown.

pub mod city;
pub mod config;
pub mod icon;
pub mod report;
pub mod request;
pub mod text;
