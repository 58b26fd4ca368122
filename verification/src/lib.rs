//! Bindings for writing an audio server plug-in: a driver that the audio
//! server of the host loads to offer audio devices.
//!
//! The library holds what such a driver decides: how the host's status codes
//! are read, how typed properties go through untyped memory, how a property is
//! found in a tree of audio objects, how a driver is made, counted and
//! initialized, and what goes into the bundle that the driver is loaded from.
//! Pointers never come in here: memory is a slice together with its address,
//! and a call into the host is a closure.
pub mod audio_object;
pub mod audio_object_laws;
pub mod bundle;
pub mod caplug;
pub mod interface_id;
pub mod manifest;
pub mod os_err;
pub mod plugin_driver_interface;
pub mod property;
pub mod property_laws;
pub mod raw_plugin_driver_interface;
pub mod value;
