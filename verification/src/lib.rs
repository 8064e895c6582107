//! Naming, tagging and filing of captured Ogg Vorbis tracks.
//!
//! A track that finished playing stands as `capture_<id>.ogg` below an output root. This library
//! decides what the file is tagged with ([`tag::build_tag`], [`file::retag`]), where it goes
//! ([`layout::organized_destination`]) and which step follows which
//! ([`organize::tag_and_organize`]). The caller performs the steps.

pub mod cover;
pub mod destination;
pub mod file;
pub mod layout;
pub mod moves;
pub mod naming;
pub mod organize;
pub mod path;
pub mod request;
pub mod run;
pub mod tag;
pub mod text;
