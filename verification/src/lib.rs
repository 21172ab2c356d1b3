pub mod battery;
pub mod ble;
pub mod ble_laws;
pub mod bounded;
pub mod brushless;
pub mod bus_laws;
pub mod commands;
pub mod console_laws;
pub mod control;
pub mod display;
pub mod display_laws;
pub mod drive_laws;
pub mod http_laws;
pub mod http_server;
pub mod rest_laws;
pub mod route_laws;
pub mod serial_cmd;
pub mod serial_laws;
pub mod st3215;
pub mod text;
pub mod text_laws;
pub mod wifi;
pub mod wifi_config;
pub mod wifi_laws;
