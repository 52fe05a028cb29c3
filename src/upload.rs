//! Turning the parts of a multipart submission into a validated upload.

use vstd::prelude::*;

use crate::deps::{decode_text, utf8_lossy};
use crate::error::EvidenceError;
use crate::record::same_text;

verus! {

/// Largest accepted image, in bytes (5 MiB).
pub const MAX_IMAGE_BYTES: usize = 5 * 1024 * 1024;

/// One part of a multipart body, as the transport delivered it.
#[derive(Debug, Clone)]
pub struct FormPart {
    /// The part's name in its content disposition, if it has one.
    pub name: Option<String>,
    /// The client's file name, if the part carries one.
    pub filename: Option<String>,
    /// The content type the client declared for the part, if any.
    pub content_type: Option<String>,
    /// The part's bytes.
    pub data: Vec<u8>,
}

/// The mathematical value of a [`FormPart`].
pub struct FormPartView {
    pub name: Option<Seq<char>>,
    pub filename: Option<Seq<char>>,
    pub content_type: Option<Seq<char>>,
    pub data: Seq<u8>,
}

/// The view of an optional string.
pub open spec fn opt_text(o: Option<String>) -> Option<Seq<char>> {
    match o {
        Some(s) => Some(s@),
        None => None,
    }
}

impl View for FormPart {
    type V = FormPartView;

    open spec fn view(&self) -> FormPartView {
        FormPartView {
            name: opt_text(self.name),
            filename: opt_text(self.filename),
            content_type: opt_text(self.content_type),
            data: self.data@,
        }
    }
}

/// What a submission carries once its parts are gathered.
#[derive(Debug, Clone)]
pub struct UploadForm {
    /// The bytes of every `image` part, in order.
    pub data: Vec<u8>,
    /// The file name of the last `image` part that named one.
    pub original_name: String,
    /// The content type declared beside that file name.
    pub content_type: String,
    /// The text of the `description` parts.
    pub description: String,
    /// The text of the `location` parts.
    pub location: String,
}

/// The mathematical value of an [`UploadForm`].
pub struct UploadFormView {
    pub data: Seq<u8>,
    pub original_name: Seq<char>,
    pub content_type: Seq<char>,
    pub description: Seq<char>,
    pub location: Seq<char>,
}

impl View for UploadForm {
    type V = UploadFormView;

    open spec fn view(&self) -> UploadFormView {
        UploadFormView {
            data: self.data@,
            original_name: self.original_name@,
            content_type: self.content_type@,
            description: self.description@,
            location: self.location@,
        }
    }
}

/// The form before any part is read.
pub open spec fn empty_form() -> UploadFormView {
    UploadFormView {
        data: Seq::empty(),
        original_name: Seq::empty(),
        content_type: Seq::empty(),
        description: Seq::empty(),
        location: Seq::empty(),
    }
}

/// The form after reading one more part. An `image` part adds its bytes, and
/// one with a file name also sets the name and declared type; `description`
/// and `location` parts add their decoded text; other parts change nothing.
pub open spec fn add_part(f: UploadFormView, p: FormPartView) -> UploadFormView {
    if p.name == Some("image"@) {
        UploadFormView {
            data: f.data + p.data,
            original_name: match p.filename {
                Some(n) => n,
                None => f.original_name,
            },
            content_type: match p.filename {
                Some(_) => match p.content_type {
                    Some(c) => c,
                    None => Seq::empty(),
                },
                None => f.content_type,
            },
            description: f.description,
            location: f.location,
        }
    } else if p.name == Some("description"@) {
        UploadFormView {
            data: f.data,
            original_name: f.original_name,
            content_type: f.content_type,
            description: f.description + utf8_lossy(p.data),
            location: f.location,
        }
    } else if p.name == Some("location"@) {
        UploadFormView {
            data: f.data,
            original_name: f.original_name,
            content_type: f.content_type,
            description: f.description,
            location: f.location + utf8_lossy(p.data),
        }
    } else {
        f
    }
}

/// The form that a sequence of parts gathers to, read in order.
pub open spec fn form_of(parts: Seq<FormPartView>) -> UploadFormView
    decreases parts.len(),
{
    if parts.len() == 0 {
        empty_form()
    } else {
        add_part(form_of(parts.drop_last()), parts.last())
    }
}

/// The views of a sequence of parts.
pub open spec fn part_views(parts: Seq<FormPart>) -> Seq<FormPartView> {
    parts.map_values(|p: FormPart| p@)
}

/// The content types accepted for an image.
pub open spec fn allowed_mime_type(t: Seq<char>) -> bool {
    t == "image/jpeg"@ || t == "image/png"@ || t == "image/gif"@ || t == "image/webp"@
}

/// A gathered form is accepted: its image is present, within the ceiling and
/// of an allowed type.
pub open spec fn form_accepted(f: UploadFormView) -> bool {
    0 < f.data.len() <= MAX_IMAGE_BYTES && allowed_mime_type(f.content_type)
}

/// `e` is the error a rejected form `f` is reported with: a missing or empty
/// image, then an image over the ceiling, then a type off the allow-list, in
/// that order.
pub open spec fn form_error(f: UploadFormView, e: EvidenceError) -> bool {
    if f.data.len() == 0 {
        e is MissingFile
    } else if f.data.len() > MAX_IMAGE_BYTES {
        e matches EvidenceError::PayloadTooLarge { size } && size == f.data.len()
    } else {
        e matches EvidenceError::UnsupportedMediaType { content_type } && content_type@
            == f.content_type && !allowed_mime_type(f.content_type)
    }
}

/// The outcome of validating the gathered form `f`: accepted forms come back
/// unchanged, rejected ones with their error.
pub open spec fn validation_of(f: UploadFormView, r: Result<UploadForm, EvidenceError>) -> bool {
    &&& r is Ok <==> form_accepted(f)
    &&& r matches Ok(v) ==> v@ == f
    &&& r matches Err(e) ==> form_error(f, e)
}

/// Appends `src` to the end of `dst`.
fn append_bytes(dst: &mut Vec<u8>, src: &Vec<u8>)
    ensures
        final(dst)@ == old(dst)@ + src@,
{
    let mut i: usize = 0;
    while i < src.len()
        invariant
            i <= src@.len(),
            dst@ == old(dst)@ + src@.subrange(0, i as int),
        decreases src@.len() - i,
    {
        dst.push(src[i]);
        i = i + 1;
        assert(src@.subrange(0, i as int) == src@.subrange(0, i - 1) + seq![src@[i - 1]]);
    }
    assert(src@.subrange(0, src@.len() as int) == src@);
}

/// Reads the parts of a submission in order and gathers what they carry.
pub fn collect_form(parts: &Vec<FormPart>) -> (r: UploadForm)
    ensures
        r@ == form_of(part_views(parts@)),
{
    let mut form = UploadForm {
        data: Vec::new(),
        original_name: String::new(),
        content_type: String::new(),
        description: String::new(),
        location: String::new(),
    };
    let mut i: usize = 0;
    while i < parts.len()
        invariant
            i <= parts@.len(),
            form@ == form_of(part_views(parts@.subrange(0, i as int))),
        decreases parts@.len() - i,
    {
        let part = &parts[i];
        proof {
            let pre = part_views(parts@.subrange(0, i + 1));
            assert(pre.drop_last() == part_views(parts@.subrange(0, i as int)));
            assert(pre.last() == part@);
        }
        match &part.name {
            Some(name) => {
                if same_text(name.as_str(), "image") {
                    match &part.filename {
                        Some(f) => {
                            form.original_name = f.clone();
                            form.content_type = match &part.content_type {
                                Some(c) => c.clone(),
                                None => String::new(),
                            };
                        },
                        None => {},
                    }
                    append_bytes(&mut form.data, &part.data);
                } else if same_text(name.as_str(), "description") {
                    let text = decode_text(&part.data);
                    form.description.append(text.as_str());
                } else if same_text(name.as_str(), "location") {
                    let text = decode_text(&part.data);
                    form.location.append(text.as_str());
                }
            },
            None => {},
        }
        i = i + 1;
    }
    assert(parts@.subrange(0, parts@.len() as int) == parts@);
    form
}

/// Accepts a gathered form whose image is present, within the size ceiling
/// and of an allowed type.
pub fn validate_form(form: UploadForm) -> (r: Result<UploadForm, EvidenceError>)
    ensures
        validation_of(form@, r),
{
    let size = form.data.len();
    if size == 0 {
        return Err(EvidenceError::MissingFile);
    }
    if size > MAX_IMAGE_BYTES {
        return Err(EvidenceError::PayloadTooLarge { size });
    }
    if !is_allowed_mime_type(form.content_type.as_str()) {
        return Err(EvidenceError::UnsupportedMediaType { content_type: form.content_type });
    }
    Ok(form)
}

/// Decides whether `content_type` is one of the accepted image types.
pub fn is_allowed_mime_type(content_type: &str) -> (r: bool)
    ensures
        r == allowed_mime_type(content_type@),
{
    same_text(content_type, "image/jpeg") || same_text(content_type, "image/png")
        || same_text(content_type, "image/gif") || same_text(content_type, "image/webp")
}

/// Gathers and validates a multipart submission.
pub fn parse_upload(parts: &Vec<FormPart>) -> (r: Result<UploadForm, EvidenceError>)
    ensures
        validation_of(form_of(part_views(parts@)), r),
{
    validate_form(collect_form(parts))
}

} // verus!
