use file_relay::fields::field_value;
use file_relay::record::{decimal_text, public_url, record_for, record_key, FileDescriptor};
use file_relay::registration::{register, RegistrationError};
use file_relay::retrieval::{
    content_disposition, origin_url, plan_retrieval, relay_head, unmatched_reply, RetrievalError,
};

const BASE: &str = "http://127.0.0.1:3030/files/";

fn pdf_descriptor() -> FileDescriptor {
    FileDescriptor {
        id: "abc".to_string(),
        unique_id: "u1".to_string(),
        name: Some("report.pdf".to_string()),
        mime: Some("application/pdf".to_string()),
        size: 1024,
        token: "tok".to_string(),
    }
}

fn pairs(list: &[(&str, &str)]) -> Vec<(String, String)> {
    list.iter().map(|(n, v)| (n.to_string(), v.to_string())).collect()
}

#[test]
fn scenario_register_then_retrieve_pdf() {
    let reg = register(&pdf_descriptor(), "docs/report.pdf", BASE);
    assert_eq!(reg.key, "file_u1");
    assert_eq!(reg.url, "http://127.0.0.1:3030/files/u1");
    assert_eq!(
        reg.fields,
        pairs(&[
            ("path", "docs/report.pdf"),
            ("mime", "application/pdf"),
            ("name", "report.pdf"),
            ("token", "tok"),
            ("size", "1024"),
        ])
    );
    let plan = match plan_retrieval(&reg.fields) {
        Ok(p) => p,
        Err(e) => panic!("unexpected {:?}", e),
    };
    assert_eq!(plan.origin_url, "https://api.telegram.org/file/bottok/docs/report.pdf");
    let head = relay_head(&plan, 200);
    assert_eq!(head.status, 200);
    assert_eq!(head.content_type, "application/pdf");
    assert_eq!(head.content_disposition, "attachment; filename=\"report.pdf\"");
}

#[test]
fn scenario_reregister_without_mime_gives_generic_type() {
    let first = register(&pdf_descriptor(), "docs/report.pdf", BASE);
    let mut desc = pdf_descriptor();
    desc.mime = None;
    let second = register(&desc, "docs/report.pdf", BASE);
    assert_eq!(second.key, first.key);
    let plan = plan_retrieval(&second.fields).ok().expect("record is complete");
    let head = relay_head(&plan, 200);
    assert_eq!(head.content_type, "application/octet-stream");
    assert_ne!(head.content_type, "application/pdf");
}

#[test]
fn overwrite_leaves_nothing_of_first_registration() {
    let first = register(&pdf_descriptor(), "docs/report.pdf", BASE);
    let desc = FileDescriptor {
        id: "xyz".to_string(),
        unique_id: "u1".to_string(),
        name: Some("other.txt".to_string()),
        mime: Some("text/plain".to_string()),
        size: 7,
        token: "tok2".to_string(),
    };
    let second = register(&desc, "docs/other.txt", BASE);
    assert_eq!(first.key, second.key);
    for (name, _) in first.fields.iter() {
        let old = field_value(&first.fields, name);
        let new = field_value(&second.fields, name);
        assert!(new.is_some());
        assert_ne!(old, new);
    }
}

#[test]
fn defaults_for_missing_mime_and_name() {
    let desc = FileDescriptor {
        id: "abc".to_string(),
        unique_id: "u2".to_string(),
        name: None,
        mime: None,
        size: 0,
        token: "tok".to_string(),
    };
    let rec = record_for(&desc, "p");
    assert_eq!(rec.mime, "application/octet-stream");
    assert_eq!(rec.name, "unnamed");
    assert_eq!(rec.path, "p");
    assert_eq!(rec.size, 0);
    let reg = register(&desc, "p", BASE);
    assert_eq!(field_value(&reg.fields, "size"), Some("0".to_string()));
    let plan = plan_retrieval(&reg.fields).ok().expect("record is complete");
    assert_eq!(plan.content_disposition, "attachment; filename=\"unnamed\"");
}

#[test]
fn unknown_identifier_on_empty_store() {
    let empty: Vec<(String, String)> = Vec::new();
    assert_eq!(plan_retrieval(&empty).err(), Some(RetrievalError::RecordNotFound));
}

#[test]
fn missing_fields_are_malformed() {
    let no_token = pairs(&[("path", "a"), ("mime", "m"), ("name", "n")]);
    assert_eq!(plan_retrieval(&no_token).err(), Some(RetrievalError::MalformedRecord));
    let no_path = pairs(&[("token", "t"), ("mime", "m"), ("name", "n")]);
    assert_eq!(plan_retrieval(&no_path).err(), Some(RetrievalError::MalformedRecord));
    let no_mime = pairs(&[("path", "a"), ("token", "t"), ("name", "n")]);
    assert_eq!(plan_retrieval(&no_mime).err(), Some(RetrievalError::MalformedRecord));
    let no_name = pairs(&[("path", "a"), ("token", "t"), ("mime", "m")]);
    assert_eq!(plan_retrieval(&no_name).err(), Some(RetrievalError::MalformedRecord));
}

#[test]
fn repeated_retrievals_agree() {
    let reg = register(&pdf_descriptor(), "docs/report.pdf", BASE);
    for _ in 0..8 {
        let plan = plan_retrieval(&reg.fields).ok().expect("record is complete");
        assert_eq!(plan.origin_url, "https://api.telegram.org/file/bottok/docs/report.pdf");
        assert_eq!(plan.content_type, "application/pdf");
        assert_eq!(plan.content_disposition, "attachment; filename=\"report.pdf\"");
    }
}

#[test]
fn origin_status_passes_through() {
    let reg = register(&pdf_descriptor(), "docs/report.pdf", BASE);
    let plan = plan_retrieval(&reg.fields).ok().expect("record is complete");
    assert_eq!(relay_head(&plan, 404).status, 404);
    assert_eq!(relay_head(&plan, 206).status, 206);
}

#[test]
fn field_lookup_takes_first_match() {
    let f = pairs(&[("a", "1"), ("b", "2"), ("a", "3")]);
    assert_eq!(field_value(&f, "a"), Some("1".to_string()));
    assert_eq!(field_value(&f, "b"), Some("2".to_string()));
    assert_eq!(field_value(&f, "c"), None);
}

#[test]
fn keys_urls_and_headers() {
    assert_eq!(record_key("AgADxyz"), "file_AgADxyz");
    assert_eq!(record_key(""), "file_");
    assert_eq!(public_url("https://x.test/f/", "u9"), "https://x.test/f/u9");
    assert_eq!(origin_url("T", "videos/v.mp4"), "https://api.telegram.org/file/botT/videos/v.mp4");
    assert_eq!(content_disposition("a \"b\".txt"), "attachment; filename=\"a \"b\".txt\"");
}

#[test]
fn decimal_sizes() {
    assert_eq!(decimal_text(0), "0");
    assert_eq!(decimal_text(7), "7");
    assert_eq!(decimal_text(10), "10");
    assert_eq!(decimal_text(1024), "1024");
    assert_eq!(decimal_text(u32::MAX), "4294967295");
}

#[test]
fn error_replies() {
    let nf = RetrievalError::RecordNotFound.reply();
    assert_eq!((nf.status, nf.body.as_str()), (404, "file not found"));
    let mal = RetrievalError::MalformedRecord.reply();
    assert_eq!((mal.status, mal.body.as_str()), (404, "file not found"));
    let st = RetrievalError::StoreUnavailable.reply();
    assert_eq!((st.status, st.body.as_str()), (500, "server error: db connection failed"));
    let up = RetrievalError::UpstreamFetch.reply();
    assert_eq!((up.status, up.body.as_str()), (502, "server error: upstream request failed"));
    assert_eq!(up.content_type, "text/plain; charset=utf-8");
    let un = unmatched_reply();
    assert_eq!((un.status, un.body.as_str()), (404, "nothing here"));
}

#[test]
fn registration_messages() {
    assert_eq!(RegistrationError::NotAFile.message(), "not a file! send me a file.");
    assert_eq!(RegistrationError::StoreUnavailable.message(), "server error!");
}
