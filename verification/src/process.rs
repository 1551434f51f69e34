//! The operations behind each command.

pub mod b64;
pub mod bytes;
pub mod csv;
pub mod gen_pass;
pub mod http_serve;
pub mod primitives;
pub mod text;

pub use b64::process_decode;
pub use b64::process_encode;
pub use csv::process_csv;
pub use gen_pass::process_genpass;
pub use text::process_genkey;
pub use text::process_sign;
pub use text::process_verify;
