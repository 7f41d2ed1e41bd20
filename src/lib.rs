//! Plan, execute and revert steps that change the state of a host, with the
//! decisions of each step stated and proved.

pub mod action;
pub mod delete_user;
pub mod encrypt_apfs_volume;
pub mod provision_nix;
