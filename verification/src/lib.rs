//! The logic of a virtio-fs file server, with its behaviour stated in contracts and proved.

pub mod laws;
pub mod passthrough;
pub mod read_dir;
pub mod soft_idmap;
pub mod util;
pub mod vhost_user;
