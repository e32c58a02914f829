//! Value objects: each holds one piece of validated data and can be built
//! only through the factory that validates it.

pub mod auth_token;
pub mod description;
pub mod email;
pub mod geopoint;
pub mod id;
pub mod name;
pub mod password;
pub mod phone;
pub mod photo;
pub mod tax_id;
pub mod temporal;
pub mod url;
