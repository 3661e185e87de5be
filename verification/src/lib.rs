//! A typed client library for the Systembolaget product-catalog REST API.
//!
//! The verified core consists of the fixed-format date codec, the domain
//! records, the search-query builder with its field-level serialization, and
//! the tri-state response classifier. The HTTP transport itself lives outside
//! the library; callers hand response bodies in as plain strings.

pub mod client;
pub mod date;
pub mod decode;
pub mod jsonio;
pub mod num;
pub mod records;
pub mod search;
pub mod text;
