use vstd::prelude::*;

use crate::doc_type::{parsed_from, DoiMetadataType};
use crate::error::DoiError;
use crate::json::{array_member, text_member, Json};

verus! {

/// A person named in a document's metadata. Each part of the name is
/// optional.
#[derive(Debug, Clone, Default, PartialEq, Eq)]
pub struct DoiMetadataPerson {
    pub given: Option<String>,
    pub family: Option<String>,
    pub suffix: Option<String>,
}

/// The text of an optional string, as a one-element or empty sequence.
pub open spec fn present(part: Option<String>) -> Seq<Seq<char>> {
    match part {
        Some(s) => seq![s@],
        None => Seq::empty(),
    }
}

/// The parts of a person's name that are present, in the order given name,
/// family name, suffix.
pub open spec fn name_parts(p: DoiMetadataPerson) -> Seq<Seq<char>> {
    present(p.given) + present(p.family) + present(p.suffix)
}

/// The parts joined by single spaces.
pub open spec fn space_joined(parts: Seq<Seq<char>>) -> Seq<char>
    decreases parts.len(),
{
    if parts.len() == 0 {
        Seq::empty()
    } else if parts.len() == 1 {
        parts[0]
    } else {
        space_joined(parts.drop_last()) + " "@ + parts.last()
    }
}

/// Appends `part` to `out`, after a space when `out` already holds a part.
fn append_part(out: &mut String, parts: Ghost<Seq<Seq<char>>>, started: bool, part: &String)
    requires
        old(out)@ == space_joined(parts@),
        started == (parts@.len() > 0),
    ensures
        final(out)@ == space_joined(parts@.push(part@)),
{
    if started {
        out.append(" ");
    }
    out.append(part.as_str());
    assert(parts@.push(part@).drop_last() =~= parts@);
}

impl DoiMetadataPerson {
    /// The full name: the parts that are present, joined by single spaces in
    /// the order given name, family name, suffix. A person with no part of a
    /// name has none.
    pub fn full_name(&self) -> (r: Result<String, DoiError>)
        ensures
            name_parts(*self).len() == 0 ==> r == Err::<String, DoiError>(DoiError::EmptyName),
            name_parts(*self).len() > 0 ==> (r matches Ok(name) && name@ == space_joined(
                name_parts(*self),
            )),
    {
        let mut out = String::new();
        let ghost mut parts: Seq<Seq<char>> = Seq::empty();
        let mut any = false;
        if let Some(given) = &self.given {
            append_part(&mut out, Ghost(parts), any, given);
            proof {
                parts = parts.push(given@);
            }
            any = true;
        }
        if let Some(family) = &self.family {
            append_part(&mut out, Ghost(parts), any, family);
            proof {
                parts = parts.push(family@);
            }
            any = true;
        }
        if let Some(suffix) = &self.suffix {
            append_part(&mut out, Ghost(parts), any, suffix);
            proof {
                parts = parts.push(suffix@);
            }
            any = true;
        }
        assert(parts =~= name_parts(*self));
        if any {
            Ok(out)
        } else {
            Err(DoiError::EmptyName)
        }
    }
}

/// Metadata of a document, after the citation-style-language schema.
#[derive(Debug, Clone, Default)]
pub struct DoiMetadata {
    /// The DOI the metadata belongs to.
    pub doi: String,
    /// Title of the document.
    pub title: Option<String>,
    /// Author(s) of the document.
    pub authors: Option<Vec<DoiMetadataPerson>>,
    /// Type of the document (journal article, conference paper, ...).
    pub doc_type: Option<DoiMetadataType>,
}

/// The text of an optional string.
pub open spec fn text_of(s: Option<String>) -> Option<Seq<char>> {
    match s {
        Some(t) => Some(t@),
        None => None,
    }
}

/// `p` holds the string members `given`, `family` and `suffix` of `j`; a
/// member that is missing or is no string gives no part.
pub open spec fn person_read_from(p: DoiMetadataPerson, j: Json) -> bool {
    &&& text_of(p.given) == text_member(j, "given"@)
    &&& text_of(p.family) == text_member(j, "family"@)
    &&& text_of(p.suffix) == text_member(j, "suffix"@)
}

/// `authors` holds one person per element of the array member `author` of
/// `j`, in order, and nothing when that member is missing or is no array.
pub open spec fn authors_read_from(authors: Option<Vec<DoiMetadataPerson>>, j: Json) -> bool {
    match array_member(j, "author"@) {
        None => authors is None,
        Some(items) => authors matches Some(people) && people@.len() == items.len() && forall|
            i: int,
        |
            0 <= i < items.len() ==> person_read_from(#[trigger] people@[i], items[i]),
    }
}

/// `t` is the document type read from the string member `type` of `j`, and
/// nothing when that member is missing or is no string.
pub open spec fn doc_type_read_from(t: Option<DoiMetadataType>, j: Json) -> bool {
    match text_member(j, "type"@) {
        None => t is None,
        Some(s) => t matches Some(x) && parsed_from(x, s),
    }
}

/// `m` is the metadata that the JSON document `j` gives for the DOI `doi`.
pub open spec fn metadata_read_from(m: DoiMetadata, doi: Seq<char>, j: Json) -> bool {
    &&& m.doi@ == doi
    &&& text_of(m.title) == text_member(j, "title"@)
    &&& authors_read_from(m.authors, j)
    &&& doc_type_read_from(m.doc_type, j)
}

/// The person described by the JSON value `item`.
fn person_from_json(item: &Json) -> (r: DoiMetadataPerson)
    ensures
        person_read_from(r, *item),
{
    DoiMetadataPerson {
        given: item.text_member("given"),
        family: item.text_member("family"),
        suffix: item.text_member("suffix"),
    }
}

impl DoiMetadata {
    /// Metadata for `doi` with no field known yet.
    pub fn new(doi: String) -> (r: Self)
        ensures
            r.doi == doi,
            r.title is None,
            r.authors is None,
            r.doc_type is None,
    {
        DoiMetadata { doi, title: None, authors: None, doc_type: None }
    }

    /// Reads the metadata of `doi` from the JSON document `json`. Reading
    /// never fails: a member that is missing or of the wrong kind leaves its
    /// field empty.
    pub fn from_json(doi: String, json: &Json) -> (r: Self)
        ensures
            r.doi == doi,
            metadata_read_from(r, doi@, *json),
    {
        let mut metadata = DoiMetadata::new(doi);
        metadata.title = json.text_member("title");
        if let Some(Json::Array(items)) = json.get("author") {
            let mut people: Vec<DoiMetadataPerson> = Vec::new();
            let mut i: usize = 0;
            while i < items.len()
                invariant
                    i <= items@.len(),
                    people@.len() == i,
                    forall|k: int| 0 <= k < i ==> person_read_from(#[trigger] people@[k], items@[k]),
                decreases items.len() - i,
            {
                people.push(person_from_json(&items[i]));
                i += 1;
            }
            metadata.authors = Some(people);
        }
        if let Some(tag) = json.text_member("type") {
            metadata.doc_type = Some(DoiMetadataType::new(tag.as_str()));
        }
        metadata
    }
}

} // verus!
