//! Typed message dispatch for an Objective-C style runtime.
//!
//! Host code sends a message by picking a return-kind-specific send
//! operation, a receiver (an object handle or a class name), a selector
//! (text or an interned token) and an argument bundle; the bundle's type
//! selects, at compile time, the one foreign trampoline that marshals that
//! exact call shape. The foreign catalog itself is an injected capability,
//! so the whole dispatch layer is verified against a recording catalog.
#![allow(non_camel_case_types)]
#![allow(non_snake_case)]

pub mod appkit;
pub mod base;
pub mod recording;
