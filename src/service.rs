//! The evidence operations: upload, list and delete, each checking the
//! tracking number against its syntax and the catalog before touching the
//! index.

use vstd::prelude::*;

use crate::deps::{
    file_extension, no_slash, now_rfc3339, path_extension, random_uuid_string, uuid_shaped,
};
use crate::error::EvidenceError;
use crate::record::{
    served_url, stored_filename, stored_locations, stored_path, views_of, EvidenceRecord,
    EvidenceView,
};
use crate::store::{has_id, holds_at, records_for, unique_ids, EvidenceStore};
use crate::tracking_number::{is_valid_tracking_number, valid_tracking_number};
use crate::upload::{
    form_accepted, form_error, form_of, parse_upload, part_views, FormPart, UploadForm,
    UploadFormView,
};

verus! {

/// The tracking numbers that have a shipment record.
pub struct TrackingCatalog {
    numbers: Vec<String>,
}

/// The views of a sequence of strings.
pub open spec fn texts_of(v: Seq<String>) -> Seq<Seq<char>> {
    v.map_values(|s: String| s@)
}

impl View for TrackingCatalog {
    type V = Seq<Seq<char>>;

    closed spec fn view(&self) -> Seq<Seq<char>> {
        texts_of(self.numbers@)
    }
}

impl TrackingCatalog {
    /// A catalog of the given tracking numbers.
    pub fn new(numbers: Vec<String>) -> (r: TrackingCatalog)
        ensures
            r@ == texts_of(numbers@),
    {
        TrackingCatalog { numbers }
    }

    /// Whether `tracking_number` has a shipment record.
    pub fn contains(&self, tracking_number: &str) -> (r: bool)
        ensures
            r == self@.contains(tracking_number@),
    {
        let mut i: usize = 0;
        while i < self.numbers.len()
            invariant
                i <= self@.len(),
                self@.len() == self.numbers@.len(),
                forall|k: int| 0 <= k < i ==> #[trigger] self@[k] != tracking_number@,
            decreases self@.len() - i,
        {
            if self.numbers[i] == String::from_str(tracking_number) {
                assert(self@[i as int] == tracking_number@);
                return true;
            }
            i = i + 1;
        }
        false
    }
}

/// The error, if any, a tracking number is refused with: a malformed one
/// first, then one the catalog does not hold.
pub open spec fn tracking_refusal(catalog: Seq<Seq<char>>, tracking_number: Seq<char>) -> Option<
    EvidenceError,
> {
    if !valid_tracking_number(tracking_number) {
        Some(EvidenceError::InvalidIdentifier)
    } else if !catalog.contains(tracking_number) {
        Some(EvidenceError::UnknownTracking)
    } else {
        None
    }
}

/// Accepts a well-formed tracking number that the catalog holds.
pub fn check_tracking(catalog: &TrackingCatalog, tracking_number: &str) -> (r: Result<
    (),
    EvidenceError,
>)
    ensures
        match tracking_refusal(catalog@, tracking_number@) {
            Some(e) => r == Err::<(), EvidenceError>(e),
            None => r is Ok,
        },
{
    if !is_valid_tracking_number(tracking_number) {
        return Err(EvidenceError::InvalidIdentifier);
    }
    if !catalog.contains(tracking_number) {
        return Err(EvidenceError::UnknownTracking);
    }
    Ok(())
}

/// The extension an image is stored under: that of the client's file name,
/// or `png` where it has none.
pub open spec fn stored_extension(original_name: Seq<char>) -> Seq<char> {
    match path_extension(original_name) {
        Some(e) => e,
        None => "png"@,
    }
}

/// The record that an accepted form `f` for `tracking_number` becomes, given
/// its id and the time it was accepted.
pub open spec fn record_of(
    tracking_number: Seq<char>,
    f: UploadFormView,
    id: Seq<char>,
    uploaded_at: Seq<char>,
) -> EvidenceView {
    let filename = stored_filename(id, stored_extension(f.original_name));
    EvidenceView {
        id: id,
        tracking_number: tracking_number,
        filename: filename,
        original_name: f.original_name,
        size: f.data.len(),
        mime_type: f.content_type,
        uploaded_at: uploaded_at,
        description: f.description,
        location: f.location,
        url: served_url(tracking_number, filename),
        file_path: stored_path(tracking_number, filename),
    }
}

/// An accepted upload, ready to be written: its record and the image bytes to
/// store at the record's `file_path`.
#[derive(Debug, Clone)]
pub struct PreparedUpload {
    pub record: EvidenceRecord,
    pub data: Vec<u8>,
}

/// Builds the record of an accepted form, stored under `id` plus the
/// extension of the client's file name.
pub fn build_record(tracking_number: &str, form: UploadForm, id: String, uploaded_at: String) -> (r:
    PreparedUpload)
    ensures
        r.record@ == record_of(tracking_number@, form@, id@, uploaded_at@),
        r.data@ == form@.data,
        no_slash(id@) ==> no_slash(r.record@.filename),
{
    let extension = match file_extension(form.original_name.as_str()) {
        Some(e) => e,
        None => String::from_str("png"),
    };
    proof {
        reveal_strlit("png");
        reveal_strlit(".");
    }
    assert(no_slash(extension@));
    let mut filename = id.clone();
    filename.append(".");
    filename.append(extension.as_str());
    assert(no_slash(id@) ==> no_slash(filename@)) by {
        if no_slash(id@) {
            assert forall|i: int| 0 <= i < filename@.len() implies #[trigger] filename@[i]
                != '/' by {
                if i < id@.len() {
                    assert(filename@[i] == id@[i]);
                } else if i > id@.len() {
                    assert(filename@[i] == extension@[i - id@.len() - 1]);
                }
            }
        }
    }
    let (file_path, url) = stored_locations(tracking_number, filename.as_str());
    let size = form.data.len() as u64;
    let record = EvidenceRecord {
        id,
        tracking_number: String::from_str(tracking_number),
        filename,
        original_name: form.original_name,
        size,
        mime_type: form.content_type,
        uploaded_at,
        description: form.description,
        location: form.location,
        url,
        file_path,
    };
    PreparedUpload { record, data: form.data }
}

/// The outcome of an upload of the form `f` to `tracking_number` under `id`
/// at `uploaded_at`: the tracking number is checked first, then the form; an
/// accepted upload gives its record and exactly the uploaded image bytes.
pub open spec fn upload_result(
    catalog: Seq<Seq<char>>,
    tracking_number: Seq<char>,
    f: UploadFormView,
    id: Seq<char>,
    uploaded_at: Seq<char>,
    r: Result<PreparedUpload, EvidenceError>,
) -> bool {
    match tracking_refusal(catalog, tracking_number) {
        Some(e) => r == Err::<PreparedUpload, EvidenceError>(e),
        None => if form_accepted(f) {
            r matches Ok(p) && p.record@ == record_of(tracking_number, f, id, uploaded_at)
                && p.data@ == f.data
        } else {
            r matches Err(e) && form_error(f, e)
        },
    }
}

/// Checks an upload and builds the record it would add, under the given id
/// and time. Nothing is written and the index is not touched.
pub fn prepare_upload(
    catalog: &TrackingCatalog,
    tracking_number: &str,
    parts: &Vec<FormPart>,
    id: String,
    uploaded_at: String,
) -> (r: Result<PreparedUpload, EvidenceError>)
    ensures
        upload_result(catalog@, tracking_number@, form_of(part_views(parts@)), id@, uploaded_at@, r),
{
    check_tracking(catalog, tracking_number)?;
    let form = parse_upload(parts)?;
    Ok(build_record(tracking_number, form, id, uploaded_at))
}

/// Checks an upload and builds the record it would add, under a freshly drawn
/// random id and the current time. A drawn id that is already indexed fails
/// the upload with `PersistenceFailure`, which can therefore only happen where
/// the index already holds a UUID-shaped id; into any other index an upload
/// that passes the checks succeeds. The stored file name holds no `/`, so the
/// file stays in its tracking number's directory. Nothing is written and the
/// index is not touched.
pub fn begin_upload(
    catalog: &TrackingCatalog,
    store: &EvidenceStore,
    tracking_number: &str,
    parts: &Vec<FormPart>,
) -> (r: Result<PreparedUpload, EvidenceError>)
    ensures
        r matches Ok(p) ==> upload_result(
            catalog@,
            tracking_number@,
            form_of(part_views(parts@)),
            p.record@.id,
            p.record@.uploaded_at,
            r,
        ) && !has_id(store@, p.record@.id) && uuid_shaped(p.record@.id) && no_slash(
            p.record@.filename,
        ),
        r matches Err(EvidenceError::PersistenceFailure) ==> tracking_refusal(
            catalog@,
            tracking_number@,
        ) is None && form_accepted(form_of(part_views(parts@))) && exists|i: int|
            0 <= i < store@.len() && uuid_shaped(#[trigger] store@[i].id),
        tracking_refusal(catalog@, tracking_number@) is None && form_accepted(
            form_of(part_views(parts@)),
        ) && (forall|i: int| 0 <= i < store@.len() ==> !uuid_shaped(#[trigger] store@[i].id))
            ==> r is Ok,
        r matches Err(e) ==> e is PersistenceFailure || upload_result(
            catalog@,
            tracking_number@,
            form_of(part_views(parts@)),
            Seq::empty(),
            Seq::empty(),
            r,
        ),
        tracking_refusal(catalog@, tracking_number@) is Some || !form_accepted(
            form_of(part_views(parts@)),
        ) ==> r is Err && upload_result(
            catalog@,
            tracking_number@,
            form_of(part_views(parts@)),
            Seq::empty(),
            Seq::empty(),
            r,
        ),
{
    check_tracking(catalog, tracking_number)?;
    let form = parse_upload(parts)?;
    let id = random_uuid_string();
    if store.contains_id(id.as_str()) {
        assert(uuid_shaped(id@));
        return Err(EvidenceError::PersistenceFailure);
    }
    assert(no_slash(id@)) by {
        assert forall|i: int| 0 <= i < id@.len() implies #[trigger] id@[i] != '/' by {
            assert(crate::deps::is_uuid_char(id@[i]));
        }
    }
    let uploaded_at = now_rfc3339();
    Ok(build_record(tracking_number, form, id, uploaded_at))
}

/// Indexes a prepared record once its file has been written; `written` tells
/// whether writing succeeded. A failed write, or an id indexed meanwhile,
/// fails with `PersistenceFailure` and leaves the index as it was.
pub fn finish_upload(store: &mut EvidenceStore, record: EvidenceRecord, written: bool) -> (r:
    Result<EvidenceRecord, EvidenceError>)
    ensures
        unique_ids(final(store)@),
        !written || has_id(old(store)@, record@.id) ==> (r matches Err(
            EvidenceError::PersistenceFailure,
        ) && final(store)@ == old(store)@),
        written && !has_id(old(store)@, record@.id) ==> (r matches Ok(c) && c@ == record@
            && final(store)@ == old(store)@.push(record@)),
{
    proof {
        use_type_invariant(&*store);
    }
    if !written {
        return Err(EvidenceError::PersistenceFailure);
    }
    store.insert(record)
}

/// The evidence attached to a tracking number, in the order it was uploaded.
pub fn list_evidence(catalog: &TrackingCatalog, store: &EvidenceStore, tracking_number: &str) -> (r:
    Result<Vec<EvidenceRecord>, EvidenceError>)
    ensures
        match tracking_refusal(catalog@, tracking_number@) {
            Some(e) => r matches Err(x) && x == e,
            None => r matches Ok(v) && views_of(v@) == records_for(store@, tracking_number@),
        },
{
    check_tracking(catalog, tracking_number)?;
    Ok(store.list(tracking_number))
}

/// Removes the evidence `id` of a tracking number from the index and returns
/// its record, whose file the caller then deletes.
pub fn delete_evidence(
    catalog: &TrackingCatalog,
    store: &mut EvidenceStore,
    tracking_number: &str,
    id: &str,
) -> (r: Result<EvidenceRecord, EvidenceError>)
    ensures
        unique_ids(final(store)@),
        match tracking_refusal(catalog@, tracking_number@) {
            Some(e) => r matches Err(x) && x == e && final(store)@ == old(store)@,
            None => if exists|i: int| holds_at(old(store)@, tracking_number@, id@, i) {
                r matches Ok(rec) && exists|i: int|
                    holds_at(old(store)@, tracking_number@, id@, i) && old(store)@[i] == rec@
                        && final(store)@ == old(store)@.remove(i)
            } else {
                r matches Err(x) && x is NotFound && final(store)@ == old(store)@
            },
        },
{
    proof {
        use_type_invariant(&*store);
    }
    check_tracking(catalog, tracking_number)?;
    store.remove(tracking_number, id)
}

} // verus!

verus! {

/// An accepted upload to a catalogued tracking number gives a record whose
/// size is the byte length of the uploaded image, the very bytes to be
/// written, stored at and served from the paths derived from the tracking
/// number and the stored file name.
pub proof fn lemma_upload_size_and_paths(
    catalog: Seq<Seq<char>>,
    tracking_number: Seq<char>,
    f: UploadFormView,
    id: Seq<char>,
    uploaded_at: Seq<char>,
    r: Result<PreparedUpload, EvidenceError>,
)
    requires
        valid_tracking_number(tracking_number),
        catalog.contains(tracking_number),
        form_accepted(f),
        upload_result(catalog, tracking_number, f, id, uploaded_at, r),
    ensures
        r matches Ok(p) && p.record@.size == f.data.len() && p.data@ == f.data
            && p.record@.tracking_number == tracking_number && p.record@.file_path == stored_path(
            tracking_number,
            p.record@.filename,
        ) && p.record@.url == served_url(tracking_number, p.record@.filename),
{
}

/// An upload to a well-formed tracking number that the catalog lacks is
/// refused with `UnknownTracking`, whatever the submission holds, so no
/// record is built for a file to be written from.
pub proof fn lemma_unknown_tracking_refused(
    catalog: Seq<Seq<char>>,
    tracking_number: Seq<char>,
    f: UploadFormView,
    id: Seq<char>,
    uploaded_at: Seq<char>,
    r: Result<PreparedUpload, EvidenceError>,
)
    requires
        valid_tracking_number(tracking_number),
        !catalog.contains(tracking_number),
        upload_result(catalog, tracking_number, f, id, uploaded_at, r),
    ensures
        r matches Err(e) && e is UnknownTracking,
{
}

/// An image over 5 MiB uploaded to a catalogued tracking number is refused
/// with `PayloadTooLarge`, carrying its size, so no record is built.
pub proof fn lemma_oversized_refused(
    catalog: Seq<Seq<char>>,
    tracking_number: Seq<char>,
    f: UploadFormView,
    id: Seq<char>,
    uploaded_at: Seq<char>,
    r: Result<PreparedUpload, EvidenceError>,
)
    requires
        valid_tracking_number(tracking_number),
        catalog.contains(tracking_number),
        f.data.len() > crate::upload::MAX_IMAGE_BYTES,
        upload_result(catalog, tracking_number, f, id, uploaded_at, r),
    ensures
        r matches Err(EvidenceError::PayloadTooLarge { size }) && size == f.data.len(),
{
}

/// An upload with a malformed tracking number is refused with
/// `InvalidIdentifier`, whatever the submission or the index holds; the
/// refusal that listing and deleting report, by their contracts, is that same
/// `InvalidIdentifier`.
pub proof fn lemma_malformed_refused(
    catalog: Seq<Seq<char>>,
    tracking_number: Seq<char>,
    f: UploadFormView,
    id: Seq<char>,
    uploaded_at: Seq<char>,
    r: Result<PreparedUpload, EvidenceError>,
)
    requires
        !valid_tracking_number(tracking_number),
        upload_result(catalog, tracking_number, f, id, uploaded_at, r),
    ensures
        r matches Err(e) && e is InvalidIdentifier,
        tracking_refusal(catalog, tracking_number) == Some(EvidenceError::InvalidIdentifier),
{
}

} // verus!
