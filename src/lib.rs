pub mod decode;
pub mod lines;
pub mod model;
pub mod tail;
pub mod tx;
