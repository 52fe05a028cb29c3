use delivery_evidence::error::EvidenceError;
use delivery_evidence::record::{evidence_dir_of, EvidenceRecord};
use delivery_evidence::service::{
    begin_upload, build_record, check_tracking, delete_evidence, finish_upload, list_evidence,
    prepare_upload, TrackingCatalog,
};
use delivery_evidence::store::EvidenceStore;
use delivery_evidence::tracking_number::is_valid_tracking_number;
use delivery_evidence::upload::{
    collect_form, is_allowed_mime_type, parse_upload, validate_form, FormPart, UploadForm,
    MAX_IMAGE_BYTES,
};

const UPS: &str = "1Z999AA1234567890";
const FEDEX: &str = "FDX123456789012";

fn catalog() -> TrackingCatalog {
    TrackingCatalog::new(vec![UPS.to_string(), FEDEX.to_string()])
}

fn image_part(filename: Option<&str>, content_type: Option<&str>, data: Vec<u8>) -> FormPart {
    FormPart {
        name: Some("image".to_string()),
        filename: filename.map(|s| s.to_string()),
        content_type: content_type.map(|s| s.to_string()),
        data,
    }
}

fn text_part(name: &str, text: &str) -> FormPart {
    FormPart {
        name: Some(name.to_string()),
        filename: None,
        content_type: None,
        data: text.as_bytes().to_vec(),
    }
}

fn png_upload(len: usize) -> Vec<FormPart> {
    vec![image_part(Some("photo.png"), Some("image/png"), vec![7u8; len])]
}

fn stored(store: &mut EvidenceStore, tracking: &str, id: &str) -> EvidenceRecord {
    let rec = prepare_upload(
        &catalog(),
        tracking,
        &png_upload(10),
        id.to_string(),
        "2025-08-28T13:45:00+00:00".to_string(),
    )
    .unwrap()
    .record;
    finish_upload(store, rec, true).unwrap()
}

#[test]
fn tracking_numbers_of_allowed_shape_are_valid() {
    assert!(is_valid_tracking_number(UPS));
    assert!(is_valid_tracking_number(FEDEX));
    assert!(is_valid_tracking_number("ABCDEFGHIJ"));
    assert!(is_valid_tracking_number("01234567890123456789"));
}

#[test]
fn tracking_numbers_of_other_shape_are_invalid() {
    assert!(!is_valid_tracking_number(""));
    assert!(!is_valid_tracking_number("BAD_ID!"));
    assert!(!is_valid_tracking_number("ABCDEFGHI"));
    assert!(!is_valid_tracking_number("012345678901234567890"));
    assert!(!is_valid_tracking_number("1z999aa1234567890"));
    assert!(!is_valid_tracking_number("1Z999AA12345 7890"));
    assert!(!is_valid_tracking_number("ÄZ999AA1234567890"));
    assert!(!is_valid_tracking_number("1Z999AA1234567890\n"));
}

#[test]
fn concrete_upload_list_delete_round() {
    let cat = catalog();
    let mut store = EvidenceStore::new();
    let parts = vec![
        image_part(Some("photo.png"), Some("image/png"), vec![1u8; 10]),
        text_part("description", "left at door"),
    ];
    let prepared = prepare_upload(&cat, UPS, &parts, "e1".to_string(), "t0".to_string()).unwrap();
    assert_eq!(prepared.data, vec![1u8; 10]);
    let rec = prepared.record;
    assert_eq!(rec.mime_type, "image/png");
    assert_eq!(rec.size, 10);
    assert_eq!(rec.description, "left at door");
    assert_eq!(rec.location, "");
    assert_eq!(rec.original_name, "photo.png");
    assert_eq!(rec.filename, "e1.png");
    assert_eq!(rec.url, "/uploads/evidence/1Z999AA1234567890/e1.png");
    assert_eq!(rec.file_path, "uploads/evidence/1Z999AA1234567890/e1.png");
    let added = finish_upload(&mut store, rec, true).unwrap();
    assert_eq!(added.id, "e1");
    let listed = list_evidence(&cat, &store, UPS).unwrap();
    assert_eq!(listed.len(), 1);
    assert_eq!(listed[0].id, "e1");
    assert_eq!(listed[0].size, 10);
    let removed = delete_evidence(&cat, &mut store, UPS, "e1").unwrap();
    assert_eq!(removed.id, "e1");
    assert_eq!(list_evidence(&cat, &store, UPS).unwrap().len(), 0);
}

#[test]
fn malformed_tracking_number_refused_everywhere() {
    let cat = catalog();
    let mut store = EvidenceStore::new();
    let up = prepare_upload(&cat, "BAD_ID!", &png_upload(10), "x".to_string(), "t".to_string());
    let e = up.unwrap_err();
    assert!(matches!(e, EvidenceError::InvalidIdentifier));
    assert_eq!(e.status_code(), 400);
    assert_eq!(e.error_code(), "invalid_tracking_number");
    let empty: Vec<FormPart> = Vec::new();
    assert!(matches!(
        begin_upload(&cat, &store, "BAD_ID!", &empty),
        Err(EvidenceError::InvalidIdentifier)
    ));
    assert!(matches!(list_evidence(&cat, &store, "BAD_ID!"), Err(EvidenceError::InvalidIdentifier)));
    assert!(matches!(
        delete_evidence(&cat, &mut store, "BAD_ID!", "x"),
        Err(EvidenceError::InvalidIdentifier)
    ));
    assert!(matches!(check_tracking(&cat, "BAD_ID!"), Err(EvidenceError::InvalidIdentifier)));
}

#[test]
fn unknown_tracking_number_refused_without_change() {
    let cat = catalog();
    let mut store = EvidenceStore::new();
    stored(&mut store, UPS, "a");
    let e = prepare_upload(&cat, "ABCDEFGHIJ12", &png_upload(10), "x".to_string(), "t".to_string())
        .unwrap_err();
    assert!(matches!(e, EvidenceError::UnknownTracking));
    assert_eq!(e.status_code(), 404);
    assert_eq!(e.error_code(), "tracking_not_found");
    assert!(matches!(
        begin_upload(&cat, &store, "ABCDEFGHIJ12", &png_upload(10)),
        Err(EvidenceError::UnknownTracking)
    ));
    assert!(matches!(
        delete_evidence(&cat, &mut store, "ABCDEFGHIJ12", "a"),
        Err(EvidenceError::UnknownTracking)
    ));
    assert!(matches!(list_evidence(&cat, &store, "ABCDEFGHIJ12"), Err(EvidenceError::UnknownTracking)));
    assert_eq!(store.len(), 1);
}

#[test]
fn two_uploads_both_listed_in_order() {
    let cat = catalog();
    let mut store = EvidenceStore::new();
    stored(&mut store, UPS, "first");
    stored(&mut store, FEDEX, "other");
    stored(&mut store, UPS, "second");
    let listed = list_evidence(&cat, &store, UPS).unwrap();
    let ids: Vec<&str> = listed.iter().map(|r| r.id.as_str()).collect();
    assert_eq!(ids, vec!["first", "second"]);
    let fedex = list_evidence(&cat, &store, FEDEX).unwrap();
    assert_eq!(fedex.len(), 1);
    assert_eq!(fedex[0].tracking_number, FEDEX);
}

#[test]
fn delete_removes_only_that_record() {
    let cat = catalog();
    let mut store = EvidenceStore::new();
    stored(&mut store, UPS, "a");
    stored(&mut store, UPS, "b");
    stored(&mut store, UPS, "c");
    delete_evidence(&cat, &mut store, UPS, "b").unwrap();
    let ids: Vec<String> = list_evidence(&cat, &store, UPS).unwrap().into_iter().map(|r| r.id).collect();
    assert_eq!(ids, vec!["a".to_string(), "c".to_string()]);
}

#[test]
fn delete_unknown_id_reports_not_found() {
    let cat = catalog();
    let mut store = EvidenceStore::new();
    stored(&mut store, UPS, "a");
    let e = delete_evidence(&cat, &mut store, UPS, "zzz").unwrap_err();
    assert!(matches!(e, EvidenceError::NotFound));
    assert_eq!(e.status_code(), 404);
    assert_eq!(e.error_code(), "evidence_not_found");
    // the id exists, but under another tracking number
    assert!(matches!(delete_evidence(&cat, &mut store, FEDEX, "a"), Err(EvidenceError::NotFound)));
    assert_eq!(list_evidence(&cat, &store, UPS).unwrap().len(), 1);
    assert_eq!(store.len(), 1);
}

#[test]
fn oversized_image_refused() {
    let cat = catalog();
    let e = prepare_upload(&cat, UPS, &png_upload(MAX_IMAGE_BYTES + 1), "x".to_string(), "t".to_string())
        .unwrap_err();
    match e {
        EvidenceError::PayloadTooLarge { size } => assert_eq!(size, 5 * 1024 * 1024 + 1),
        _ => panic!("expected PayloadTooLarge"),
    }
    assert_eq!(e.status_code(), 413);
    assert_eq!(e.error_code(), "file_too_large");
}

#[test]
fn image_at_ceiling_accepted() {
    let cat = catalog();
    let prepared = prepare_upload(&cat, UPS, &png_upload(MAX_IMAGE_BYTES), "x".to_string(), "t".to_string())
        .unwrap();
    assert_eq!(prepared.record.size, 5 * 1024 * 1024);
    assert_eq!(prepared.data.len(), MAX_IMAGE_BYTES);
}

#[test]
fn missing_or_empty_image_refused() {
    let only_text = vec![text_part("description", "nothing attached")];
    let e = parse_upload(&only_text).unwrap_err();
    assert!(matches!(e, EvidenceError::MissingFile));
    assert_eq!(e.status_code(), 400);
    assert_eq!(e.error_code(), "missing_file");
    let empty_image = vec![image_part(Some("a.png"), Some("image/png"), Vec::new())];
    assert!(matches!(parse_upload(&empty_image), Err(EvidenceError::MissingFile)));
    // an empty image is missing whatever its declared type
    let empty_bad = vec![image_part(Some("a.bmp"), Some("image/bmp"), Vec::new())];
    assert!(matches!(parse_upload(&empty_bad), Err(EvidenceError::MissingFile)));
}

#[test]
fn unsupported_type_refused() {
    let bmp = vec![image_part(Some("a.bmp"), Some("image/bmp"), vec![1, 2, 3])];
    let e = parse_upload(&bmp).unwrap_err();
    match &e {
        EvidenceError::UnsupportedMediaType { content_type } => assert_eq!(content_type, "image/bmp"),
        _ => panic!("expected UnsupportedMediaType"),
    }
    assert_eq!(e.status_code(), 400);
    assert_eq!(e.error_code(), "invalid_file");
    let untyped = vec![image_part(Some("a.png"), None, vec![1, 2, 3])];
    assert!(matches!(parse_upload(&untyped), Err(EvidenceError::UnsupportedMediaType { .. })));
    // without a file name the declared type is not taken
    let unnamed = vec![image_part(None, Some("image/png"), vec![1, 2, 3])];
    assert!(matches!(parse_upload(&unnamed), Err(EvidenceError::UnsupportedMediaType { .. })));
}

#[test]
fn allowed_types_are_exactly_four() {
    assert!(is_allowed_mime_type("image/jpeg"));
    assert!(is_allowed_mime_type("image/png"));
    assert!(is_allowed_mime_type("image/gif"));
    assert!(is_allowed_mime_type("image/webp"));
    assert!(!is_allowed_mime_type("image/PNG"));
    assert!(!is_allowed_mime_type("image/svg+xml"));
    assert!(!is_allowed_mime_type(""));
}

#[test]
fn parts_gathered_in_order() {
    let parts = vec![
        FormPart { name: None, filename: None, content_type: None, data: vec![9, 9] },
        image_part(Some("one.jpg"), Some("image/jpeg"), vec![1, 2]),
        text_part("location", "porch"),
        text_part("comment", "ignored"),
        image_part(Some("two.gif"), Some("image/gif"), vec![3]),
        text_part("description", "left "),
        text_part("description", "at door"),
        text_part("location", ", back"),
    ];
    let form = collect_form(&parts);
    assert_eq!(form.data, vec![1, 2, 3]);
    assert_eq!(form.original_name, "two.gif");
    assert_eq!(form.content_type, "image/gif");
    assert_eq!(form.description, "left at door");
    assert_eq!(form.location, "porch, back");
}

#[test]
fn invalid_utf8_text_is_replaced() {
    let parts = vec![FormPart {
        name: Some("description".to_string()),
        filename: None,
        content_type: None,
        data: vec![b'o', b'k', 0xff],
    }];
    let form = collect_form(&parts);
    assert_eq!(form.description, "ok\u{FFFD}");
}

#[test]
fn validate_form_keeps_accepted_form() {
    let form = UploadForm {
        data: vec![4, 5, 6],
        original_name: "x.webp".to_string(),
        content_type: "image/webp".to_string(),
        description: "d".to_string(),
        location: "l".to_string(),
    };
    let ok = validate_form(form).unwrap();
    assert_eq!(ok.data, vec![4, 5, 6]);
    assert_eq!(ok.original_name, "x.webp");
}

fn form_named(name: &str) -> UploadForm {
    UploadForm {
        data: vec![1],
        original_name: name.to_string(),
        content_type: "image/png".to_string(),
        description: String::new(),
        location: String::new(),
    }
}

#[test]
fn stored_name_takes_extension_or_png() {
    assert_eq!(build_record(UPS, form_named("photo.jpeg"), "id".to_string(), "t".to_string()).record.filename, "id.jpeg");
    assert_eq!(build_record(UPS, form_named("archive.tar.gz"), "id".to_string(), "t".to_string()).record.filename, "id.gz");
    assert_eq!(build_record(UPS, form_named("photo"), "id".to_string(), "t".to_string()).record.filename, "id.png");
    assert_eq!(build_record(UPS, form_named(".hidden"), "id".to_string(), "t".to_string()).record.filename, "id.png");
    assert_eq!(build_record(UPS, form_named(""), "id".to_string(), "t".to_string()).record.filename, "id.png");
    assert_eq!(build_record(UPS, form_named("../../etc/x.jpg"), "id".to_string(), "t".to_string()).record.filename, "id.jpg");
}

#[test]
fn begin_upload_draws_fresh_uuid() {
    let cat = catalog();
    let store = EvidenceStore::new();
    let rec = begin_upload(&cat, &store, UPS, &png_upload(10)).unwrap().record;
    assert_eq!(rec.id.len(), 36);
    assert!(rec.id.chars().all(|c| c.is_ascii_hexdigit() || c == '-'));
    assert_eq!(rec.filename, format!("{}.png", rec.id));
    assert_eq!(rec.size, 10);
    assert!(!rec.uploaded_at.is_empty());
    let again = begin_upload(&cat, &store, UPS, &png_upload(10)).unwrap().record;
    assert_ne!(rec.id, again.id);
}

#[test]
fn failed_write_is_not_indexed() {
    let cat = catalog();
    let mut store = EvidenceStore::new();
    let rec = prepare_upload(&cat, UPS, &png_upload(3), "w".to_string(), "t".to_string()).unwrap().record;
    let e = finish_upload(&mut store, rec, false).unwrap_err();
    assert!(matches!(e, EvidenceError::PersistenceFailure));
    assert_eq!(e.status_code(), 500);
    assert_eq!(store.len(), 0);
}

#[test]
fn duplicate_id_is_not_indexed() {
    let cat = catalog();
    let mut store = EvidenceStore::new();
    stored(&mut store, UPS, "same");
    let rec = prepare_upload(&cat, FEDEX, &png_upload(3), "same".to_string(), "t".to_string())
        .unwrap()
        .record;
    assert!(matches!(finish_upload(&mut store, rec, true), Err(EvidenceError::PersistenceFailure)));
    assert_eq!(store.len(), 1);
    assert!(store.contains_id("same"));
    assert!(!store.contains_id("other"));
}

#[test]
fn catalog_membership() {
    let cat = catalog();
    assert!(cat.contains(UPS));
    assert!(!cat.contains("ABCDEFGHIJ"));
    assert!(check_tracking(&cat, FEDEX).is_ok());
}

#[test]
fn evidence_directory_per_tracking_number() {
    assert_eq!(evidence_dir_of(UPS), "uploads/evidence/1Z999AA1234567890");
}

#[test]
fn drawn_id_upload_round_into_empty_index() {
    let cat = catalog();
    let mut store = EvidenceStore::new();
    let parts = vec![
        image_part(Some("photo.png"), Some("image/png"), vec![1u8; 10]),
        text_part("description", "left at door"),
    ];
    let prepared = begin_upload(&cat, &store, UPS, &parts).unwrap();
    assert_eq!(prepared.data.len(), 10);
    let rec = finish_upload(&mut store, prepared.record, true).unwrap();
    assert_eq!(rec.mime_type, "image/png");
    assert_eq!(rec.size, 10);
    assert_eq!(rec.original_name, "photo.png");
    assert_eq!(rec.description, "left at door");
    assert_eq!(rec.location, "");
    assert_eq!(rec.filename, format!("{}.png", rec.id));
    assert!(!rec.filename.contains('/'));
    let listed = list_evidence(&cat, &store, UPS).unwrap();
    assert_eq!(listed.len(), 1);
    assert_eq!(listed[0].id, rec.id);
    delete_evidence(&cat, &mut store, UPS, &rec.id).unwrap();
    assert_eq!(list_evidence(&cat, &store, UPS).unwrap().len(), 0);
}

#[test]
fn two_prepared_uploads_both_land() {
    let cat = catalog();
    let mut store = EvidenceStore::new();
    stored(&mut store, FEDEX, "fedex-one");
    let first = begin_upload(&cat, &store, UPS, &png_upload(4)).unwrap();
    let second = begin_upload(&cat, &store, UPS, &png_upload(6)).unwrap();
    let b = finish_upload(&mut store, second.record, true).unwrap();
    let a = finish_upload(&mut store, first.record, true).unwrap();
    let ids: Vec<String> = list_evidence(&cat, &store, UPS).unwrap().into_iter().map(|r| r.id).collect();
    assert_eq!(ids, vec![b.id, a.id]);
    let fedex = list_evidence(&cat, &store, FEDEX).unwrap();
    assert_eq!(fedex.len(), 1);
    assert_eq!(fedex[0].id, "fedex-one");
}
