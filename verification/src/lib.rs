//! A verified model of a one-endpoint HTTP responder: a GET request at the
//! root path is answered with status 200 and the fixed JSON body
//! `{"success":"true"}`; every other request is left to the host framework's
//! default handling.

pub mod endpoint;
pub mod json;
