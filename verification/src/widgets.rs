pub mod net_image;
