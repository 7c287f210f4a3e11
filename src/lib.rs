//! Digital Object Identifier (DOI) handling: the identifier itself, the
//! resolver URL built from it, the requests sent to the resolver service and
//! the rules that settle its replies, and the bibliographic record decoded
//! from its JSON metadata.

mod doc_type;
mod error;
mod exchange;
mod identifier;
mod json;
mod metadata;
mod text;

pub use doc_type::{
    lemma_misc_round_trip, lemma_named_type_round_trip, named_type, parsed_from, type_tag,
    DoiMetadataType,
};
pub use error::DoiError;
pub use exchange::{
    fetch_accepts, lemma_teapot_resolves, media_type, resolution_accepts, settle_fetch,
    settle_resolution, Answer, MetadataFormat, Method, Request,
};
pub use identifier::{
    lemma_doi_equality, lemma_get_returns_stored_doi, lower_of, proxy_url_accepted, required,
    resolver_url, same_doi, text_result, Doi, DoiBuilder,
};
pub use json::{array_member, field_of, member, text_member, Json};
pub use metadata::{
    authors_read_from, doc_type_read_from, metadata_read_from, name_parts, person_read_from,
    present, space_joined, text_of, DoiMetadata, DoiMetadataPerson,
};
