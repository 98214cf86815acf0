use openlibrary_provider::dates::OlDate;
use openlibrary_provider::decode::{
    genres_from_subjects, decode_author_ref, decode_description, OpenlibraryAuthorDetails,
    OpenlibraryAuthorResponse, OpenlibraryDescription, OpenlibraryEdition, OpenlibrarySearchDoc,
    OpenlibraryWork,
};
use openlibrary_provider::get_key;
use openlibrary_provider::models::{
    MediaSpecifics, MetadataImageLot, MetadataLot, MetadataSource, ProviderError, StoredUrl,
};
use openlibrary_provider::normalize::{average_pages, collect_images, first_release_date};
use openlibrary_provider::provider::{next_page, search_offset, OpenlibraryService};
use openlibrary_provider::retry::{backoff_delay_ms, run_transport, should_retry, TransportPolicy};
use openlibrary_provider::scrape::extract_suggestions;
use openlibrary_provider::text::{i64_to_string, split_subject_exec, title_before_by, trim_str};

fn edition(date: Option<&str>, pages: Option<i32>, covers: Option<Vec<i64>>) -> OpenlibraryEdition {
    OpenlibraryEdition {
        publish_date: date.map(|s| s.to_string()),
        number_of_pages: pages,
        covers,
    }
}

fn service() -> OpenlibraryService {
    OpenlibraryService::new("M", 20)
}

#[test]
fn key_is_last_segment() {
    assert_eq!(get_key("/works/OL1234W"), "OL1234W");
    assert_eq!(get_key("/a/b/c/d/OL99M"), "OL99M");
    assert_eq!(get_key("OL5W"), "OL5W");
    assert_eq!(get_key("/authors/OL23919A"), "OL23919A");
    assert_eq!(get_key("trailing/"), "");
}

#[test]
fn average_pages_truncated_mean() {
    let eds = vec![
        edition(None, Some(300), None),
        edition(None, Some(320), None),
        edition(None, None, None),
    ];
    assert_eq!(average_pages(&eds), 310);
    let odd = vec![edition(None, Some(1), None), edition(None, Some(2), None)];
    assert_eq!(average_pages(&odd), 1);
}

#[test]
fn average_pages_empty_is_zero() {
    let eds = vec![edition(Some("1999"), None, None)];
    assert_eq!(average_pages(&eds), 0);
    assert_eq!(average_pages(&Vec::new()), 0);
}

#[test]
fn average_pages_truncates_toward_zero() {
    let eds = vec![edition(None, Some(-3), None), edition(None, Some(-4), None)];
    assert_eq!(average_pages(&eds), -3);
}

#[test]
fn parse_date_first_matching_format() {
    assert_eq!(
        OpenlibraryService::parse_date("Jan 1, 1950"),
        Some(OlDate { year: 1950, month: 1, day: 1 })
    );
    assert_eq!(
        OpenlibraryService::parse_date("Mar 15, 2007"),
        Some(OlDate { year: 2007, month: 3, day: 15 })
    );
    assert_eq!(OpenlibraryService::parse_date("not a date"), None);
}

#[test]
fn first_release_date_minimum_ignores_unparsable() {
    let eds = vec![
        edition(Some("Jan 1, 1950"), None, None),
        edition(Some("1951"), None, None),
        edition(Some("garbage"), None, None),
        edition(None, None, None),
        edition(Some("Mar 5, 1949"), None, None),
    ];
    assert_eq!(first_release_date(&eds), Some(OlDate { year: 1949, month: 3, day: 5 }));
    let none = vec![edition(Some("????"), None, None), edition(None, None, None)];
    assert_eq!(first_release_date(&none), None);
}

#[test]
fn image_list_deduplicated_in_first_seen_order() {
    let eds = vec![edition(None, None, Some(vec![5, 9]))];
    let covers = Some(vec![7, -1, 5, 0, 7]);
    let images = collect_images(&covers, &eds, "https://covers.openlibrary.org", "M");
    let urls: Vec<String> = images
        .iter()
        .map(|m| match &m.url {
            StoredUrl::Url(u) => u.clone(),
        })
        .collect();
    assert_eq!(
        urls,
        vec![
            "https://covers.openlibrary.org/b/id/7-M.jpg?default=false".to_string(),
            "https://covers.openlibrary.org/b/id/5-M.jpg?default=false".to_string(),
            "https://covers.openlibrary.org/b/id/9-M.jpg?default=false".to_string(),
        ]
    );
    assert!(images.iter().all(|m| m.lot == MetadataImageLot::Poster));
}

#[test]
fn cover_image_url_conventions() {
    let s = service();
    assert_eq!(
        s.get_book_cover_image_url(99),
        "https://covers.openlibrary.org/b/id/99-M.jpg?default=false"
    );
    assert_eq!(
        s.get_author_cover_image_url(12),
        "https://covers.openlibrary.org/a/id/12-M.jpg?default=false"
    );
}

#[test]
fn decimal_rendering() {
    assert_eq!(i64_to_string(0), "0");
    assert_eq!(i64_to_string(120534), "120534");
    assert_eq!(i64_to_string(-7), "-7");
}

#[test]
fn pagination_next_page() {
    assert_eq!(next_page(45, 2, 20), Some(3));
    assert_eq!(next_page(40, 2, 20), None);
    assert_eq!(next_page(1, 1, 20), None);
    assert_eq!(next_page(21, 1, 20), Some(2));
    assert_eq!(next_page(0, 1, 20), None);
}

#[test]
fn search_normalization_scenario() {
    let s = service();
    let docs = vec![
        OpenlibrarySearchDoc {
            key: "/works/OL1W".to_string(),
            title: "First".to_string(),
            author_name: Some(vec!["Someone".to_string()]),
            cover_i: Some(9),
            first_publish_year: Some(1999),
        },
        OpenlibrarySearchDoc {
            key: "/works/OL2W".to_string(),
            title: "Second".to_string(),
            author_name: None,
            cover_i: None,
            first_publish_year: None,
        },
    ];
    let r = s.search_results_from_docs(&docs, 45, Some(2));
    assert_eq!(r.details.total, 45);
    assert_eq!(r.details.next_page, Some(3));
    assert_eq!(r.items.len(), 2);
    assert_eq!(r.items[0].identifier, "OL1W");
    assert_eq!(r.items[0].title, "First");
    assert_eq!(
        r.items[0].image,
        Some("https://covers.openlibrary.org/b/id/9-M.jpg?default=false".to_string())
    );
    assert_eq!(r.items[0].publish_year, Some(1999));
    assert_eq!(r.items[1].identifier, "OL2W");
    assert_eq!(r.items[1].image, None);
    assert_eq!(r.items[1].publish_year, None);

    let exhausted = s.search_results_from_docs(&docs, 40, Some(2));
    assert_eq!(exhausted.details.next_page, None);

    let default_page = s.search_results_from_docs(&docs, 21, None);
    assert_eq!(default_page.details.next_page, Some(2));
}

#[test]
fn author_reference_shapes() {
    let flat = OpenlibraryAuthorResponse::Flat { key: "/authors/OL1A".to_string() };
    assert_eq!(decode_author_ref(&flat), ("/authors/OL1A".to_string(), "Author".to_string()));
    let with_role = OpenlibraryAuthorResponse::Nested {
        key: "/authors/OL2A".to_string(),
        role: Some("Editor".to_string()),
    };
    assert_eq!(decode_author_ref(&with_role), ("/authors/OL2A".to_string(), "Editor".to_string()));
    let without_role = OpenlibraryAuthorResponse::Nested { key: "/authors/OL3A".to_string(), role: None };
    assert_eq!(
        decode_author_ref(&without_role),
        ("/authors/OL3A".to_string(), "Author".to_string())
    );
}

#[test]
fn description_shapes() {
    let plain = OpenlibraryDescription::Text("plain".to_string());
    assert_eq!(decode_description(&plain), "plain");
    let nested = OpenlibraryDescription::Nested {
        tag: "/type/text".to_string(),
        value: "nested".to_string(),
    };
    assert_eq!(decode_description(&nested), "nested");
}

#[test]
fn genres_split_and_title_cased() {
    let subjects = vec!["science fiction, horror".to_string(), "mystery".to_string()];
    let genres = genres_from_subjects(&subjects);
    assert_eq!(
        genres,
        vec!["Science Fiction".to_string(), "Horror".to_string(), "Mystery".to_string()]
    );
}

#[test]
fn subject_splitting() {
    assert_eq!(split_subject_exec("a, b, c"), vec!["a", "b", "c"]);
    assert_eq!(split_subject_exec("single"), vec!["single"]);
    assert_eq!(split_subject_exec(""), vec![""]);
}

#[test]
fn title_text_rules() {
    assert_eq!(title_before_by("A Title by Someone"), "A Title");
    assert_eq!(title_before_by("No Separator"), "No Separator");
    assert_eq!(trim_str("  padded  "), "padded");
}

#[test]
fn creators_preserve_order_and_roles() {
    let s = service();
    let authors = vec![
        OpenlibraryAuthorResponse::Flat { key: "/authors/OL1A".to_string() },
        OpenlibraryAuthorResponse::Nested {
            key: "/authors/OL2A".to_string(),
            role: Some("Illustrator".to_string()),
        },
    ];
    let resolved = vec![
        OpenlibraryAuthorDetails { name: "First Author".to_string(), photos: Some(vec![-2, 8, 3]) },
        OpenlibraryAuthorDetails { name: "Second Author".to_string(), photos: None },
    ];
    let creators = s.build_creators(&authors, &resolved);
    assert_eq!(creators.len(), 2);
    assert_eq!(creators[0].name, "First Author");
    assert_eq!(creators[0].role, "Author");
    assert_eq!(
        creators[0].image,
        Some("https://covers.openlibrary.org/a/id/8-M.jpg?default=false".to_string())
    );
    assert_eq!(creators[1].name, "Second Author");
    assert_eq!(creators[1].role, "Illustrator");
    assert_eq!(creators[1].image, None);
}

#[test]
fn isbn_lookup_miss_is_not_an_error() {
    assert_eq!(
        OpenlibraryService::id_from_isbn_works(&vec!["/works/OL1234W".to_string()]),
        Some("OL1234W".to_string())
    );
    assert_eq!(OpenlibraryService::id_from_isbn_works(&Vec::new()), None);
}

#[test]
fn language_metadata() {
    assert_eq!(OpenlibraryService::supported_languages(), vec!["us".to_string()]);
    assert_eq!(OpenlibraryService::default_language(), "us");
}

#[test]
fn extraction_empty_fragment_yields_no_suggestions() {
    let out = extract_suggestions("<div><p>nothing matches here</p></div>");
    assert!(out.is_empty());
    let out = extract_suggestions("");
    assert!(out.is_empty());
}

#[test]
fn extraction_skips_only_unreadable_items() {
    let mut html = String::new();
    html.push_str("<div>");
    html.push_str("<div class=\"book carousel__item\">");
    html.push_str("<a href=\"/works/OL1W\">");
    html.push_str("<img class=\"bookcover\" alt=\" The Hobbit by J. R. R. Tolkien\" ");
    html.push_str("src=\"//covers.openlibrary.org/b/id/1-M.jpg\">");
    html.push_str("</a></div>");
    html.push_str("<div class=\"book carousel__item\"><a href=\"/works/OL2W\">no image tag</a></div>");
    html.push_str("<div class=\"book carousel__item\">");
    html.push_str("<a href=\"/works/OL3W\"><img class=\"bookcover\" alt=\"Lone Title\"></a>");
    html.push_str("</div>");
    html.push_str("</div>");
    let out = extract_suggestions(&html);
    assert_eq!(out.len(), 2);
    assert_eq!(out[0].identifier, "OL1W");
    assert_eq!(out[0].title, "The Hobbit");
    assert_eq!(out[0].image, Some("//covers.openlibrary.org/b/id/1-M.jpg".to_string()));
    assert_eq!(out[0].lot, MetadataLot::Book);
    assert_eq!(out[0].source, MetadataSource::Openlibrary);
    assert_eq!(out[1].identifier, "OL3W");
    assert_eq!(out[1].title, "Lone Title");
    assert_eq!(out[1].image, None);
}

#[test]
fn details_scenario_pages_and_year() {
    let s = service();
    let work = OpenlibraryWork {
        key: "/works/OL1234W".to_string(),
        title: "The Example".to_string(),
        description: Some(OpenlibraryDescription::Text("About something.".to_string())),
        covers: Some(vec![77]),
        authors: Some(vec![OpenlibraryAuthorResponse::Flat { key: "/authors/OL1A".to_string() }]),
        subjects: Some(vec!["science fiction, horror".to_string()]),
    };
    let editions = vec![
        edition(Some("Jan 1, 1950"), Some(300), None),
        edition(Some("1951"), Some(320), Some(vec![77, 78])),
    ];
    let resolved = vec![OpenlibraryAuthorDetails { name: "An Author".to_string(), photos: None }];
    let details = s.details_from_parts(&work, &editions, &resolved, None);
    assert_eq!(details.identifier, "OL1234W");
    assert_eq!(details.title, "The Example");
    assert_eq!(details.production_status, "Released");
    assert_eq!(details.description, Some("About something.".to_string()));
    assert_eq!(details.lot, MetadataLot::Book);
    assert_eq!(details.source, MetadataSource::Openlibrary);
    assert_eq!(details.publish_year, Some(1950));
    assert_eq!(details.publish_date, None);
    match &details.specifics {
        MediaSpecifics::Book(b) => assert_eq!(b.pages, Some(310)),
    }
    assert_eq!(details.creators.len(), 1);
    assert_eq!(details.creators[0].name, "An Author");
    assert_eq!(details.creators[0].role, "Author");
    assert_eq!(
        details.genres,
        vec!["Science Fiction".to_string(), "Horror".to_string()]
    );
    let urls: Vec<String> = details
        .images
        .iter()
        .map(|m| match &m.url {
            StoredUrl::Url(u) => u.clone(),
        })
        .collect();
    assert_eq!(
        urls,
        vec![
            "https://covers.openlibrary.org/b/id/77-M.jpg?default=false".to_string(),
            "https://covers.openlibrary.org/b/id/78-M.jpg?default=false".to_string(),
        ]
    );
    assert!(details.suggestions.is_empty());
    assert_eq!(details.provider_rating, None);
    assert!(details.videos.is_empty());
    assert!(details.groups.is_empty());
    assert_eq!(details.is_nsfw, None);
}

#[test]
fn search_offset_counts_earlier_pages() {
    assert_eq!(search_offset(1, 20), 0);
    assert_eq!(search_offset(3, 20), 40);
}

#[test]
fn details_scenario_with_suggestions() {
    let s = service();
    let work = OpenlibraryWork {
        key: "/works/OL7W".to_string(),
        title: "With Friends".to_string(),
        description: None,
        covers: None,
        authors: None,
        subjects: None,
    };
    let mut html = String::new();
    html.push_str("<div class=\"book carousel__item\"><a href=\"/works/OL8W\">");
    html.push_str("<img class=\"bookcover\" alt=\"Related Work by Its Author\" src=\"/b/8.jpg\">");
    html.push_str("</a></div>");
    let details = s.details_from_parts(&work, &Vec::new(), &Vec::new(), Some(&html));
    assert_eq!(details.identifier, "OL7W");
    assert_eq!(details.description, None);
    assert_eq!(details.publish_year, None);
    match &details.specifics {
        MediaSpecifics::Book(b) => assert_eq!(b.pages, Some(0)),
    }
    assert!(details.creators.is_empty());
    assert!(details.genres.is_empty());
    assert!(details.images.is_empty());
    assert_eq!(details.suggestions.len(), 1);
    assert_eq!(details.suggestions[0].identifier, "OL8W");
    assert_eq!(details.suggestions[0].title, "Related Work");
    assert_eq!(details.suggestions[0].image, Some("/b/8.jpg".to_string()));
}

#[test]
fn guarded_retries_bounded_then_transport_failure() {
    let guarded = TransportPolicy::Guarded { max_retries: 3, rate_per_second: 1 };
    let always_failing = vec![false; 10];
    let run = run_transport(&guarded, &always_failing);
    assert_eq!(run.attempts, 4);
    match run.outcome {
        Err(ProviderError::Transport { context }) => {
            assert_eq!(context, "retry budget exhausted")
        },
        other => panic!("expected a transport failure, got {:?}", other),
    }

    let eventually_ok = vec![false, true];
    let run = run_transport(&guarded, &eventually_ok);
    assert_eq!(run.attempts, 2);
    assert!(run.outcome.is_ok());
}

#[test]
fn plain_calls_are_never_retried() {
    let plain = TransportPolicy::Plain;
    let always_failing = vec![false; 10];
    let run = run_transport(&plain, &always_failing);
    assert_eq!(run.attempts, 1);
    assert!(run.outcome.is_err());
    assert!(!should_retry(&plain, 0, true));
    let guarded = TransportPolicy::Guarded { max_retries: 3, rate_per_second: 1 };
    assert!(should_retry(&guarded, 2, true));
    assert!(!should_retry(&guarded, 3, true));
    assert!(!should_retry(&guarded, 0, false));
}

#[test]
fn backoff_grows_exponentially_and_saturates() {
    assert_eq!(backoff_delay_ms(100, 0), 100);
    assert_eq!(backoff_delay_ms(100, 1), 200);
    assert_eq!(backoff_delay_ms(100, 3), 800);
    assert_eq!(backoff_delay_ms(u64::MAX, 2), u64::MAX);
    assert_eq!(backoff_delay_ms(0, 5), 0);
}
