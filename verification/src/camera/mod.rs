pub mod view_port;
