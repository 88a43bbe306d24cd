pub mod model;
pub mod derive;
pub mod routes;
pub mod bus;
pub mod device;
pub mod devices;
pub mod app;
pub mod ioaccess;
pub mod middleware;
