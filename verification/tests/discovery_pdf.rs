//! Environment discovery parsing and aggregation, and the PDF item
//! helpers, run against the real outside crates.

use wsl_kernel::discovery::{
    collect_specs, distro_list_args, kernelspec_list_args, parse_distro_list, specs_from_outcome,
    EnvQueryOutcome, KernelSpecDecl,
};
use wsl_kernel::pdf_store::{
    compose_fallback_text, extension_is_pdf, extract_page_text, is_pdf_path, load_pdf_metadata,
    page_missing_text, PdfId, PdfIdAllocator, PdfStore,
};

fn decl(argv: Vec<&str>) -> KernelSpecDecl {
    KernelSpecDecl {
        argv: argv.into_iter().map(|s| s.to_string()).collect(),
        env: None,
        display_name: "a kernel".to_string(),
    }
}

#[test]
fn query_argument_shapes() {
    assert_eq!(distro_list_args(), vec!["-l".to_string(), "-q".to_string()]);
    assert_eq!(
        kernelspec_list_args("Ubuntu"),
        vec![
            "-d".to_string(),
            "Ubuntu".to_string(),
            "jupyter".to_string(),
            "kernelspec".to_string(),
            "list".to_string(),
            "--json".to_string(),
        ]
    );
}

#[test]
fn distro_list_parses_utf8_output() {
    let stdout = b"Ubuntu\nDebian\n\n".to_vec();
    let names = parse_distro_list(&stdout);
    assert_eq!(names, vec!["Ubuntu".to_string(), "Debian".to_string()]);
}

#[test]
fn distro_list_parses_utf16le_output() {
    let text = "Ubuntu\r\nDebian\r\n";
    let mut stdout: Vec<u8> = Vec::new();
    for u in text.encode_utf16() {
        stdout.extend_from_slice(&u.to_le_bytes());
    }
    assert_eq!(stdout[1], 0);
    let names = parse_distro_list(&stdout);
    assert_eq!(names, vec!["Ubuntu".to_string(), "Debian".to_string()]);
}

#[test]
fn empty_output_yields_no_distros() {
    let names = parse_distro_list(&Vec::new());
    assert!(names.is_empty());
}

#[test]
fn failed_environment_contributes_nothing() {
    let good = EnvQueryOutcome {
        distro: "Ubuntu".to_string(),
        parsed: Some(vec![("python3".to_string(), decl(vec!["python3"]))]),
    };
    let bad = EnvQueryOutcome {
        distro: "Broken".to_string(),
        parsed: None,
    };
    let also_good = EnvQueryOutcome {
        distro: "Debian".to_string(),
        parsed: Some(vec![
            ("rust".to_string(), decl(vec!["evcxr"])),
            ("julia".to_string(), decl(vec!["julia"])),
        ]),
    };
    let lists = vec![
        specs_from_outcome(good),
        specs_from_outcome(bad),
        specs_from_outcome(also_good),
    ];
    let specs = collect_specs(lists);
    assert_eq!(specs.len(), 3);
    assert!(specs.len() > 0);
    assert_eq!(specs[0].name, "python3");
    assert_eq!(specs[0].distro, "Ubuntu");
    assert_eq!(specs[1].name, "rust");
    assert_eq!(specs[1].distro, "Debian");
    assert_eq!(specs[2].name, "julia");
    assert_eq!(specs[2].distro, "Debian");
    assert!(!specs.iter().any(|s| s.distro == "Broken"));
}

#[test]
fn pdf_ids_mint_fresh_and_round_trip() {
    let mut ids = PdfIdAllocator::new();
    let a = PdfId::new(&mut ids);
    let b = PdfId::new(&mut ids);
    assert_ne!(a, b);
    assert_eq!(a.to_proto(), 1);
    assert_eq!(b.to_proto(), 2);
    assert_eq!(PdfId::from_proto(42).to_proto(), 42);
    assert_eq!(PdfId::from_proto(a.to_proto()), a);
}

#[test]
fn extension_checks() {
    assert!(extension_is_pdf("pdf"));
    assert!(extension_is_pdf("PDF"));
    assert!(extension_is_pdf("Pdf"));
    assert!(!extension_is_pdf("pdfa"));
    assert!(!extension_is_pdf("txt"));
    assert!(is_pdf_path(Some("pdf".to_string()), None));
    assert!(is_pdf_path(None, Some("PDF".to_string())));
    assert!(!is_pdf_path(Some("txt".to_string()), Some("pdf".to_string())));
    assert!(!is_pdf_path(None, None));
}

#[test]
fn store_returns_newest_binding() {
    let mut store = PdfStore::new();
    let path = "src/paper.pdf".to_string();
    assert_eq!(store.get_by_path(&path), None);
    store.register(path.clone(), PdfId::from_proto(1));
    store.register("other.pdf".to_string(), PdfId::from_proto(2));
    store.register(path.clone(), PdfId::from_proto(3));
    assert_eq!(store.get_by_path(&path), Some(PdfId::from_proto(3)));
    assert_eq!(
        store.get_by_path(&"other.pdf".to_string()),
        Some(PdfId::from_proto(2))
    );
    assert_eq!(store.get_by_path(&"missing.pdf".to_string()), None);
}

fn one_page_pdf() -> Vec<u8> {
    let mut doc = lopdf::Document::with_version("1.5");
    let pages_id = doc.new_object_id();
    let mut page = lopdf::Dictionary::new();
    page.set("Type", lopdf::Object::Name(b"Page".to_vec()));
    page.set("Parent", lopdf::Object::Reference(pages_id));
    let page_id = doc.add_object(lopdf::Object::Dictionary(page));
    let mut pages = lopdf::Dictionary::new();
    pages.set("Type", lopdf::Object::Name(b"Pages".to_vec()));
    pages.set("Kids", lopdf::Object::Array(vec![lopdf::Object::Reference(page_id)]));
    pages.set("Count", lopdf::Object::Integer(1));
    doc.objects.insert(pages_id, lopdf::Object::Dictionary(pages));
    let mut catalog = lopdf::Dictionary::new();
    catalog.set("Type", lopdf::Object::Name(b"Catalog".to_vec()));
    catalog.set("Pages", lopdf::Object::Reference(pages_id));
    let catalog_id = doc.add_object(lopdf::Object::Dictionary(catalog));
    doc.trailer.set("Root", lopdf::Object::Reference(catalog_id));
    let mut bytes = Vec::new();
    doc.save_to(&mut bytes).expect("writing the PDF");
    bytes
}

#[test]
fn metadata_keeps_bytes_and_counts_pages() {
    let bytes = one_page_pdf();
    let m = load_pdf_metadata(bytes.clone()).expect("a readable PDF");
    assert_eq!(m.page_count, 1);
    assert_eq!(m.bytes, bytes);
}

#[test]
fn unreadable_bytes_fail_to_load() {
    let r = load_pdf_metadata(b"not a pdf at all".to_vec());
    match r {
        Err(e) => assert!(!e.message.is_empty()),
        Ok(_) => panic!("garbage must not parse"),
    }
}

#[test]
fn extraction_fails_exactly_when_parsing_fails() {
    let r = extract_page_text(&b"still not a pdf".to_vec(), 0);
    assert!(r.is_err());
    let bytes = one_page_pdf();
    assert!(extract_page_text(&bytes, 0).is_ok());
    assert!(extract_page_text(&bytes, 9).is_ok());
}

#[test]
fn page_beyond_end_gets_a_placeholder() {
    let bytes = one_page_pdf();
    let text = extract_page_text(&bytes, 5).expect("a readable PDF");
    assert_eq!(text, "[Page 6 does not exist]");
    assert_eq!(page_missing_text(5), "[Page 6 does not exist]");
}

#[test]
fn extraction_on_an_empty_page_falls_back() {
    let bytes = one_page_pdf();
    let text = extract_page_text(&bytes, 0).expect("a readable PDF");
    // The page has no text stream: the cascade lands on one of the two
    // fallback notices, never on raw empty text.
    assert!(text.starts_with("[Page 1 of 1 - No text content found]")
        || text.starts_with("[Could not extract text from page 1]"));
}

#[test]
fn fallback_composition_is_exact() {
    assert_eq!(
        compose_fallback_text(0, 3, Ok("  the whole text  ".to_string())),
        "[Showing full document text]\n\nPage 1 of 3\n\n  the whole text  "
    );
    assert_eq!(
        compose_fallback_text(1, 3, Ok(" \n\t ".to_string())),
        "[Page 2 of 3 - No text content found]\n\nThis page may contain only images or be scanned."
    );
    assert_eq!(
        compose_fallback_text(2, 3, Err("bad stream".to_string())),
        "[Could not extract text from page 3]\n\nError: bad stream"
    );
}
