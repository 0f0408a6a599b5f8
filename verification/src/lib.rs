//! A client library for the Pixelflut protocol: many clients draw single
//! pixels onto one shared canvas by sending short ASCII lines to a server.

pub mod canvas;
pub mod codec;
pub mod dispatcher;
pub mod endpoint;
pub mod fps_counter;
pub mod protocol;
pub mod shuffle_and_loop;
pub mod wire;
pub mod worker;
