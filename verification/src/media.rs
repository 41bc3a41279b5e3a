pub mod metadata;
pub mod name_parser;

pub use metadata::MediaMetadata;
pub use name_parser::NameParser;
pub use name_parser::ParsedName;
