pub mod booker;
pub mod conqueror;
pub mod dh;
pub mod dismantler;
pub mod handyman;
pub mod house_keeper;
pub mod puller;
pub mod remote_upgrader;
pub mod scout;
pub mod trader;
pub mod upgrader;
