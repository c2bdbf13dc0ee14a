use wikipedia_cli::schema::{normalize, request_url, Page, Query, Title, ToStrVec, WikiResponse};

fn page(id: Option<usize>, title: &str, extract: Option<&str>, missing: Option<bool>) -> Page {
    Page {
        page_id: id,
        title: title.to_string(),
        extract: extract.map(|e| e.to_string()),
        missing,
    }
}

#[test]
fn normalize_replaces_spaces() {
    assert_eq!(normalize("Pet Door"), "Pet_Door");
    assert_eq!(normalize(""), "");
    assert_eq!(normalize("  a b "), "__a_b_");
    assert_eq!(normalize("Zürich See"), "Zürich_See");
}

#[test]
fn normalize_is_idempotent() {
    for s in ["Pet Door", "", "a_b c", "no-spaces", " "] {
        let once = normalize(s);
        assert_eq!(normalize(&once), once);
    }
}

#[test]
fn title_normalize_marks_and_replaces() {
    let t = Title::new("Pet Door");
    assert_eq!(vec![t].to_str_vec(), vec!["Pet_Door".to_string()]);
    let n = Title::new("A B C").normalize();
    assert_eq!(n.to_request_text(), "A_B_C");
    assert_eq!(n.normalize().to_request_text(), "A_B_C");
}

#[test]
fn request_url_joins_titles() {
    let titles = vec![Title::new("Pet Door"), Title::new("Anesthetic")];
    let url = request_url("https://a/w/api.php?action=query", &titles);
    assert_eq!(url, "https://a/w/api.php?action=query&titles=Pet_Door%7CAnesthetic");
    assert!(url.ends_with("&titles=Pet_Door%7CAnesthetic"));
}

#[test]
fn request_url_with_no_or_one_title() {
    assert_eq!(request_url("u", &Vec::new()), "u&titles=");
    assert_eq!(request_url("u", &vec![Title::new("One Two").normalize()]), "u&titles=One_Two");
}

#[test]
fn wiki_url_of_page() {
    let p = page(Some(1), "Pet Door", Some("x"), None);
    assert_eq!(p.get_wiki_url("https://simple.wikipedia.org"), "https://simple.wikipedia.org/wiki/Pet_Door");
}

#[test]
fn pages_keep_response_order() {
    let response = WikiResponse {
        query: Query {
            pages: vec![
                page(Some(7), "B", Some("b"), None),
                page(None, "A", None, Some(true)),
            ],
        },
    };
    let pages = response.pages();
    assert_eq!(pages.len(), 2);
    assert_eq!(pages[0].title, "B");
    assert_eq!(pages[0].page_id, Some(7));
    assert_eq!(pages[1].title, "A");
    assert_eq!(pages[1].missing, Some(true));
}

#[test]
fn missing_flag_counts_only_when_true() {
    assert!(page(None, "A", None, Some(true)).missing_page());
    assert!(!page(Some(1), "A", Some("a"), Some(false)).missing_page());
    assert!(!page(Some(1), "A", Some("a"), None).missing_page());
    assert!(!page(None, "A", None, Some(false)).is_well_formed());
    assert!(page(Some(3), "A", None, Some(true)).is_well_formed());
}
