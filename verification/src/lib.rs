//! Core logic of the Samaritan kernel: the key-value tables that the node
//! keeps on disk, the hashing and naming of its files, the cache of app
//! table addresses, the request protocol of the network actor and the
//! command protocol of the websocket front end.

pub mod table;
pub mod text;
pub mod hash;
pub mod json;
pub mod random;
pub mod kernel;
pub mod utility;
pub mod step;
pub mod network;
pub mod chain;
pub mod laws;
