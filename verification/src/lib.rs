//! Weak reference proxies of a Python object system.
//!
//! A weak proxy stands for another object, its referent, without keeping that
//! object alive. While the referent lives, every operation on the proxy is
//! carried out on the referent; once it is gone, every operation but the
//! textual representation raises `ReferenceError`. A proxy can never be hashed.

pub mod laws;
pub mod object;
pub mod protocol;
pub mod proxy;
pub mod text;
pub mod vm;
pub mod weakcallableproxy;
pub mod weakproxy;
