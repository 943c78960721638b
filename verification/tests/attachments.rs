use polarion_sync::api_types::get_attachments::Attachment;
use polarion_sync::api_types::get_attachments::ContentLinks;
use polarion_sync::api_types::get_attachments::PaginationLinks;
use polarion_sync::api_types::get_attachments::Response;
use polarion_sync::api_types::patch_attachment;
use polarion_sync::api_types::post_attachments;
use polarion_sync::documents::guess_document_and_name;
use polarion_sync::encoding::percent_encode_path_segment;
use polarion_sync::networking::attachments_collection_path;
use polarion_sync::networking::is_attachment_existing;
use polarion_sync::networking::HttpMethod;
use polarion_sync::networking::PageWalk;
use polarion_sync::sync::confirmation_message;
use polarion_sync::sync::plan_sync;
use polarion_sync::Document;
use polarion_sync::DocumentRegistry;

fn doc(project: &str, space: &str, name: &str) -> Document {
    Document {
        project: project.to_string(),
        space: space.to_string(),
        name: name.to_string(),
    }
}

fn record(id: &str) -> Attachment {
    Attachment {
        type_field: "document_attachments".to_string(),
        id: id.to_string(),
        links: ContentLinks {
            self_field: format!("https://example/self/{}", id),
            content: format!("https://example/content/{}", id),
        },
    }
}

fn page(ids: &[&str], next: Option<&str>) -> Response {
    Response {
        data: ids.iter().map(|id| record(id)).collect(),
        links: Some(PaginationLinks {
            self_field: "https://example/page".to_string(),
            first: "https://example/first".to_string(),
            prev: None,
            next: next.map(|n| n.to_string()),
            last: "https://example/last".to_string(),
        }),
    }
}

#[test]
fn collection_path_names_the_document() {
    let d = doc("P", "S", "D");
    assert_eq!(
        attachments_collection_path(&d),
        "/projects/P/spaces/S/documents/D/attachments"
    );
}

#[test]
fn pagination_accumulates_pages_in_order() {
    let mut walk = PageWalk::start("https://example/page1".to_string());
    assert_eq!(walk.next_url.as_deref(), Some("https://example/page1"));
    walk.absorb(page(&["a", "b"], Some("https://example/page2")));
    assert_eq!(walk.next_url.as_deref(), Some("https://example/page2"));
    walk.absorb(page(&["c", "d"], None));
    assert_eq!(walk.next_url, None);
    let ids: Vec<&str> = walk.records.iter().map(|r| r.id.as_str()).collect();
    assert_eq!(ids, vec!["a", "b", "c", "d"]);
}

#[test]
fn pagination_without_links_object_terminates() {
    let mut walk = PageWalk::start("https://example/page1".to_string());
    walk.absorb(Response { data: vec![record("a")], links: None });
    assert_eq!(walk.next_url, None);
    assert_eq!(walk.records.len(), 1);
}

#[test]
fn exists_matches_exact_identifier_only() {
    let d = doc("P", "S", "D");
    let records = vec![record("P/S/D/other"), record("P/S/D/sub___file.txt")];
    assert!(is_attachment_existing(&d, "sub___file.txt", &records));
    assert!(!is_attachment_existing(&d, "sub", &records));
    assert!(!is_attachment_existing(&d, "SUB___FILE.TXT", &records));
}

#[test]
fn exists_is_false_for_empty_listing() {
    let d = doc("P", "S", "D");
    let records: Vec<Attachment> = vec![];
    assert!(!is_attachment_existing(&d, "anything", &records));
}

#[test]
fn post_resource_json_is_exact() {
    let resource = post_attachments::Resource::create("sub___file.txt");
    assert_eq!(
        resource.to_json(),
        "{\"data\":[{\"type\":\"document_attachments\",\"attributes\":\
         {\"fileName\":\"sub___file.txt\",\"title\":\"sub___file.txt\"}}]}"
    );
}

#[test]
fn patch_resource_json_is_exact() {
    let resource = patch_attachment::Resource::create("P/S/D/n.txt", "n.txt");
    assert_eq!(
        resource.to_json(),
        "{\"data\":{\"type\":\"document_attachments\",\"id\":\"P/S/D/n.txt\",\
         \"attributes\":{\"title\":\"n.txt\"}}}"
    );
}

#[test]
fn json_payload_escapes_special_characters() {
    let resource = post_attachments::Resource::create("a\"b\\c");
    assert_eq!(
        resource.to_json(),
        "{\"data\":[{\"type\":\"document_attachments\",\"attributes\":\
         {\"fileName\":\"a\\\"b\\\\c\",\"title\":\"a\\\"b\\\\c\"}}]}"
    );
}

#[test]
fn json_payload_escapes_control_characters() {
    let resource = patch_attachment::Resource::create("id", "a\nb\u{1f}c");
    assert_eq!(
        resource.to_json(),
        "{\"data\":{\"type\":\"document_attachments\",\"id\":\"id\",\
         \"attributes\":{\"title\":\"a\\nb\\u001fc\"}}}"
    );
}

#[test]
fn percent_encoding_escapes_path_set() {
    assert_eq!(percent_encode_path_segment("a b#c"), "a%20b%23c");
    assert_eq!(percent_encode_path_segment("plain-name.txt"), "plain-name.txt");
    assert_eq!(percent_encode_path_segment("a/b?c"), "a%2Fb%3Fc");
}

#[test]
fn percent_encoding_escapes_non_ascii_bytes() {
    assert_eq!(percent_encode_path_segment("é"), "%C3%A9");
}

#[test]
fn replace_url_encodes_only_the_name_segment() {
    let d = doc("proj", "space", "doc");
    let request = plan_sync(&d, "a b#c", true);
    assert_eq!(request.method, HttpMethod::Patch);
    assert_eq!(
        request.url_path,
        "/projects/proj/spaces/space/documents/doc/attachments/a%20b%23c"
    );
}

#[test]
fn confirmation_message_names_operation() {
    let d = doc("P", "S", "D");
    assert_eq!(
        confirmation_message(&d, "n.txt", true),
        "Attachment n.txt already exists in P/S/D. Hit <Enter> to overwrite it."
    );
    assert_eq!(
        confirmation_message(&d, "n.txt", false),
        "Attachment n.txt doesn't exist in P/S/D. Hit <Enter> to upload it."
    );
}

#[test]
fn end_to_end_create_when_absent() {
    let mut registry = DocumentRegistry::new();
    registry.insert("specs".to_string(), doc("P", "S", "D"));
    let components: Vec<String> =
        ["/", "home", "user", "specs", "sub", "file.txt"].iter().map(|p| p.to_string()).collect();
    let repo_roots = vec![false; components.len()];
    let (document, name) =
        guess_document_and_name(&components, &repo_roots, &registry).expect("should resolve");
    assert_eq!(document.prefix(), "P/S/D");
    assert_eq!(name, "sub___file.txt");

    let listing = vec![record("P/S/D/unrelated")];
    let existing = is_attachment_existing(document, &name, &listing);
    assert!(!existing);
    let request = plan_sync(document, &name, existing);
    assert_eq!(request.method, HttpMethod::Post);
    assert_eq!(request.url_path, "/projects/P/spaces/S/documents/D/attachments");
    assert_eq!(
        request.resource_json,
        "{\"data\":[{\"type\":\"document_attachments\",\"attributes\":\
         {\"fileName\":\"sub___file.txt\",\"title\":\"sub___file.txt\"}}]}"
    );
    assert_eq!(request.upload_file_name, "sub___file.txt");
}

#[test]
fn end_to_end_replace_when_present() {
    let mut registry = DocumentRegistry::new();
    registry.insert("specs".to_string(), doc("P", "S", "D"));
    let components: Vec<String> =
        ["/", "home", "user", "specs", "sub", "file.txt"].iter().map(|p| p.to_string()).collect();
    let repo_roots = vec![false; components.len()];
    let (document, name) =
        guess_document_and_name(&components, &repo_roots, &registry).expect("should resolve");

    let listing = vec![record("P/S/D/sub___file.txt")];
    let existing = is_attachment_existing(document, &name, &listing);
    assert!(existing);
    let request = plan_sync(document, &name, existing);
    assert_eq!(request.method, HttpMethod::Patch);
    assert_eq!(
        request.url_path,
        "/projects/P/spaces/S/documents/D/attachments/sub___file.txt"
    );
    assert_eq!(
        request.resource_json,
        "{\"data\":{\"type\":\"document_attachments\",\"id\":\"P/S/D/sub___file.txt\",\
         \"attributes\":{\"title\":\"sub___file.txt\"}}}"
    );
    assert_eq!(request.upload_file_name, "sub___file.txt");
}
