//! The evidence record: metadata of one stored proof-of-delivery image.

use vstd::prelude::*;

verus! {

/// Metadata of one image attached to a tracking number. `file_path` is the
/// location on disk and is never part of an external response.
#[derive(Debug, Clone)]
pub struct EvidenceRecord {
    pub id: String,
    pub tracking_number: String,
    pub filename: String,
    pub original_name: String,
    pub size: u64,
    pub mime_type: String,
    pub uploaded_at: String,
    pub description: String,
    pub location: String,
    pub url: String,
    pub file_path: String,
}

/// The mathematical value of an [`EvidenceRecord`].
pub struct EvidenceView {
    pub id: Seq<char>,
    pub tracking_number: Seq<char>,
    pub filename: Seq<char>,
    pub original_name: Seq<char>,
    pub size: nat,
    pub mime_type: Seq<char>,
    pub uploaded_at: Seq<char>,
    pub description: Seq<char>,
    pub location: Seq<char>,
    pub url: Seq<char>,
    pub file_path: Seq<char>,
}

impl View for EvidenceRecord {
    type V = EvidenceView;

    open spec fn view(&self) -> EvidenceView {
        EvidenceView {
            id: self.id@,
            tracking_number: self.tracking_number@,
            filename: self.filename@,
            original_name: self.original_name@,
            size: self.size as nat,
            mime_type: self.mime_type@,
            uploaded_at: self.uploaded_at@,
            description: self.description@,
            location: self.location@,
            url: self.url@,
            file_path: self.file_path@,
        }
    }
}

/// The views of a sequence of records.
pub open spec fn views_of(records: Seq<EvidenceRecord>) -> Seq<EvidenceView> {
    records.map_values(|r: EvidenceRecord| r@)
}

/// Directory under which the evidence of a tracking number is stored.
pub open spec fn evidence_dir(tracking_number: Seq<char>) -> Seq<char> {
    "uploads/evidence/"@ + tracking_number
}

/// Name under which an image is stored: its id, a dot, its extension.
pub open spec fn stored_filename(id: Seq<char>, extension: Seq<char>) -> Seq<char> {
    id + "."@ + extension
}

/// Location on disk of a stored image.
pub open spec fn stored_path(tracking_number: Seq<char>, filename: Seq<char>) -> Seq<char> {
    evidence_dir(tracking_number) + "/"@ + filename
}

/// Public path at which a stored image is served.
pub open spec fn served_url(tracking_number: Seq<char>, filename: Seq<char>) -> Seq<char> {
    "/"@ + stored_path(tracking_number, filename)
}

impl EvidenceRecord {
    /// A copy of the record, field by field.
    pub fn duplicate(&self) -> (r: EvidenceRecord)
        ensures
            r@ == self@,
    {
        EvidenceRecord {
            id: self.id.clone(),
            tracking_number: self.tracking_number.clone(),
            filename: self.filename.clone(),
            original_name: self.original_name.clone(),
            size: self.size,
            mime_type: self.mime_type.clone(),
            uploaded_at: self.uploaded_at.clone(),
            description: self.description.clone(),
            location: self.location.clone(),
            url: self.url.clone(),
            file_path: self.file_path.clone(),
        }
    }
}

/// Builds the directory in which the evidence of `tracking_number` is stored.
pub fn evidence_dir_of(tracking_number: &str) -> (r: String)
    ensures
        r@ == evidence_dir(tracking_number@),
{
    let mut dir = String::from_str("uploads/evidence/");
    dir.append(tracking_number);
    dir
}

/// Builds the on-disk location and the public url of a stored file.
pub fn stored_locations(tracking_number: &str, filename: &str) -> (r: (String, String))
    ensures
        r.0@ == stored_path(tracking_number@, filename@),
        r.1@ == served_url(tracking_number@, filename@),
{
    let mut path = evidence_dir_of(tracking_number);
    path.append("/");
    path.append(filename);
    let mut url = String::from_str("/");
    url.append(path.as_str());
    assert(url@ == "/"@ + (evidence_dir(tracking_number@) + "/"@ + filename@));
    (path, url)
}

/// Whether two strings hold the same characters.
pub(crate) fn same_text(a: &str, b: &str) -> (r: bool)
    ensures
        r == (a@ == b@),
{
    String::from_str(a) == String::from_str(b)
}

} // verus!
