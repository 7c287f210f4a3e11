use doi::{DoiError, DoiMetadata, DoiMetadataPerson, DoiMetadataType, Json};

fn text(s: &str) -> Json {
    Json::Text(s.to_string())
}

fn object(members: Vec<(&str, Json)>) -> Json {
    Json::Object(members.into_iter().map(|(k, v)| (k.to_string(), v)).collect())
}

fn person(given: Option<&str>, family: Option<&str>, suffix: Option<&str>) -> DoiMetadataPerson {
    DoiMetadataPerson {
        given: given.map(|s| s.to_string()),
        family: family.map(|s| s.to_string()),
        suffix: suffix.map(|s| s.to_string()),
    }
}

#[test]
fn type_from_known_tag() {
    assert_eq!(DoiMetadataType::new("article"), DoiMetadataType::Article);
    assert_eq!(DoiMetadataType::new("article-journal"), DoiMetadataType::ArticleJournal);
    assert_eq!(DoiMetadataType::new("legal_case"), DoiMetadataType::LegalCase);
    assert_eq!(DoiMetadataType::new("map"), DoiMetadataType::GeographicMap);
    assert_eq!(DoiMetadataType::new("webpage"), DoiMetadataType::Webpage);
}

#[test]
fn type_round_trips_through_tag() {
    assert_eq!(DoiMetadataType::new("article-journal").as_str(), "article-journal");
    let tags = [
        "article", "article-journal", "article-magazine", "article-newspaper", "bill", "book",
        "broadcast", "chapter", "classic", "collection", "dataset", "document", "entry",
        "entry-dictionary", "entry-encyclopedia", "event", "figure", "graphic", "hearing",
        "interview", "legal_case", "legislation", "manuscript", "map", "motion_picture",
        "musical_score", "pamphlet", "paper-conference", "patent", "performance", "periodical",
        "personal_communication", "post", "post-weblog", "regulation", "report", "review",
        "review-book", "software", "song", "speech", "standard", "thesis", "treaty", "webpage",
    ];
    for tag in tags {
        let t = DoiMetadataType::new(tag);
        assert!(!matches!(t, DoiMetadataType::MISC(_)), "{}", tag);
        assert_eq!(t.as_str(), tag);
        assert_eq!(DoiMetadataType::new(t.as_str()), t);
    }
}

#[test]
fn type_unknown_tag_kept_verbatim() {
    let t = DoiMetadataType::new("nonsense-tag");
    assert_eq!(t, DoiMetadataType::MISC("nonsense-tag".to_string()));
    assert_eq!(t.as_str(), "nonsense-tag");
    assert_eq!(DoiMetadataType::new("unknown"), DoiMetadataType::MISC("unknown".to_string()));
}

#[test]
fn type_lookup_is_case_sensitive_and_exact() {
    assert_eq!(DoiMetadataType::new("Article"), DoiMetadataType::MISC("Article".to_string()));
    assert_eq!(
        DoiMetadataType::new("legal-case"),
        DoiMetadataType::MISC("legal-case".to_string())
    );
    assert_eq!(DoiMetadataType::new(" book"), DoiMetadataType::MISC(" book".to_string()));
    assert_eq!(DoiMetadataType::new(""), DoiMetadataType::MISC(String::new()));
}

#[test]
fn full_name_joins_all_parts() {
    let p = person(Some("Teddy"), Some("Jerry"), Some("Jr."));
    assert_eq!(p.full_name().unwrap(), "Teddy Jerry Jr.".to_string());
}

#[test]
fn full_name_skips_missing_parts() {
    assert_eq!(person(Some("Teddy"), Some("Jerry"), None).full_name().unwrap(), "Teddy Jerry");
    assert_eq!(person(Some("Teddy"), None, Some("Jr.")).full_name().unwrap(), "Teddy Jr.");
    assert_eq!(person(Some("Teddy"), None, None).full_name().unwrap(), "Teddy");
    assert_eq!(person(None, Some("Jerry"), Some("Jr.")).full_name().unwrap(), "Jerry Jr.");
    assert_eq!(person(None, Some("Jerry"), None).full_name().unwrap(), "Jerry");
    assert_eq!(person(None, None, Some("Jr.")).full_name().unwrap(), "Jr.");
}

#[test]
fn full_name_keeps_empty_parts() {
    assert_eq!(person(Some(""), Some("Jerry"), None).full_name().unwrap(), " Jerry");
    assert_eq!(person(Some(""), None, None).full_name().unwrap(), "");
}

#[test]
fn full_name_of_nobody_fails() {
    assert_eq!(DoiMetadataPerson::default().full_name(), Err(DoiError::EmptyName));
}

#[test]
fn metadata_new_is_empty() {
    let m = DoiMetadata::new("10.1/x".to_string());
    assert_eq!(m.doi, "10.1/x");
    assert!(m.title.is_none() && m.authors.is_none() && m.doc_type.is_none());
}

#[test]
fn metadata_reads_all_fields() {
    let json = object(vec![
        ("title", text("Flexible High-Level Synthesis Library for Linear Transformations")),
        (
            "author",
            Json::Array(vec![
                object(vec![("given", text("Teddy")), ("family", text("Jerry"))]),
                object(vec![("family", text("Tom")), ("suffix", text("Sr."))]),
            ]),
        ),
        ("type", text("article-journal")),
        ("volume", Json::Number("71".to_string())),
    ]);
    let m = DoiMetadata::from_json("10.1109/TCSII.2024.3366282".to_string(), &json);
    assert_eq!(m.doi, "10.1109/TCSII.2024.3366282");
    assert_eq!(
        m.title,
        Some("Flexible High-Level Synthesis Library for Linear Transformations".to_string())
    );
    let authors = m.authors.unwrap();
    assert_eq!(authors, vec![person(Some("Teddy"), Some("Jerry"), None), person(None, Some("Tom"), Some("Sr."))]);
    assert_eq!(authors[0].full_name().unwrap(), "Teddy Jerry");
    assert_eq!(m.doc_type, Some(DoiMetadataType::ArticleJournal));
}

#[test]
fn metadata_without_author_has_no_authors() {
    let json = object(vec![("title", text("T")), ("type", text("book"))]);
    let m = DoiMetadata::from_json("10.1/x".to_string(), &json);
    assert!(m.authors.is_none());
    assert_eq!(m.title, Some("T".to_string()));
    assert_eq!(m.doc_type, Some(DoiMetadataType::Book));
}

#[test]
fn metadata_ignores_members_of_wrong_kind() {
    let json = object(vec![
        ("title", Json::Number("3".to_string())),
        ("author", text("Teddy Jerry")),
        ("type", Json::Bool(true)),
    ]);
    let m = DoiMetadata::from_json("10.1/x".to_string(), &json);
    assert!(m.title.is_none());
    assert!(m.authors.is_none());
    assert!(m.doc_type.is_none());
}

#[test]
fn metadata_reads_malformed_authors_defensively() {
    let json = object(vec![(
        "author",
        Json::Array(vec![
            text("not an object"),
            object(vec![("given", Json::Null), ("family", text("Jerry")), ("suffix", Json::Array(vec![]))]),
            Json::Null,
        ]),
    )]);
    let m = DoiMetadata::from_json("10.1/x".to_string(), &json);
    let authors = m.authors.unwrap();
    assert_eq!(authors.len(), 3);
    assert_eq!(authors[0], DoiMetadataPerson::default());
    assert_eq!(authors[1], person(None, Some("Jerry"), None));
    assert_eq!(authors[2], DoiMetadataPerson::default());
    assert_eq!(authors[0].full_name(), Err(DoiError::EmptyName));
}

#[test]
fn metadata_of_empty_author_array_is_empty_list() {
    let json = object(vec![("author", Json::Array(vec![]))]);
    let m = DoiMetadata::from_json("10.1/x".to_string(), &json);
    assert_eq!(m.authors, Some(vec![]));
}

#[test]
fn metadata_unknown_type_kept() {
    let json = object(vec![("type", text("journal-issue"))]);
    let m = DoiMetadata::from_json("10.1/x".to_string(), &json);
    assert_eq!(m.doc_type, Some(DoiMetadataType::MISC("journal-issue".to_string())));
}

#[test]
fn metadata_of_non_object_is_empty() {
    let m = DoiMetadata::from_json("10.1/x".to_string(), &Json::Array(vec![text("title")]));
    assert!(m.title.is_none() && m.authors.is_none() && m.doc_type.is_none());
    assert_eq!(m.doi, "10.1/x");
}

#[test]
fn json_get_takes_first_member_with_key() {
    let json = object(vec![("title", text("first")), ("title", text("second"))]);
    assert_eq!(json.text_member("title"), Some("first".to_string()));
    assert!(json.get("missing").is_none());
    assert!(text("title").get("title").is_none());
}
