use wikipedia_cli::urlbuilder::{Format, FormatVersion, Prop, QueryParams, ToURL, WikiSubdomain, WikiURL};

#[test]
fn wikiurl_to_url_works() {
    let wikiurl = WikiURL::default()
        .with_subdomain(WikiSubdomain::Host(String::from("a")))
        .with_props(QueryParams {
            format: Format::NoOutput,
            formatversion: FormatVersion::BackwardsCompatible,
            redirects: false,
            prop: Prop::Revisions,
        });

    assert_eq!(
        "https://a/w/api.php?action=query&format=none&formatversion=1&prop=revisions",
        wikiurl.to_url()
    )
}

#[test]
fn query_to_url_works() {
    let sample_query = QueryParams {
        format: Format::JSON,
        formatversion: FormatVersion::Modern,
        redirects: true,
        prop: Prop::Extracts {
            intro_only: true,
            plaintext: true,
        },
    }
    .to_url();

    assert_eq!(
        "action=query&format=json&formatversion=2&prop=extracts&exintro=1&explaintext=1&redirects=1",
        sample_query
    )
}

#[test]
fn format_to_url_works() {
    assert_eq!(Format::JSON.to_url(), "format=json");
    assert_eq!(Format::PHP.to_url(), "format=php");
    assert_eq!(Format::XML.to_url(), "format=xml");
    assert_eq!(Format::Debug.to_url(), "format=rawfm");
    assert_eq!(Format::NoOutput.to_url(), "format=none");
}

#[test]
fn formatver_to_url_works() {
    assert_eq!(FormatVersion::BackwardsCompatible.to_url(), "formatversion=1");
    assert_eq!(FormatVersion::Modern.to_url(), "formatversion=2");
}

#[test]
fn props_to_url_works() {
    let extracts = |intro_only, plaintext| Prop::Extracts { intro_only, plaintext };
    assert_eq!(extracts(false, false).to_url(), "prop=extracts");
    assert_eq!(extracts(true, false).to_url(), "prop=extracts&exintro=1");
    assert_eq!(extracts(false, true).to_url(), "prop=extracts&explaintext=1");
    assert_eq!(extracts(true, true).to_url(), "prop=extracts&exintro=1&explaintext=1");
    assert_eq!(Prop::Revisions.to_url(), "prop=revisions");
}

#[test]
fn default_url_asks_for_plain_intro_extracts() {
    assert_eq!(
        WikiURL::new().to_url(),
        "https://simple.wikipedia.org/w/api.php?action=query&format=json&formatversion=2&prop=extracts&exintro=1&explaintext=1&redirects=1"
    );
}

#[test]
fn root_uri_follows_subdomain() {
    assert_eq!(WikiURL::new().get_root_uri(), "https://simple.wikipedia.org");
    let en = WikiURL::new().with_subdomain(WikiSubdomain::Wikipedia);
    assert_eq!(en.get_root_uri(), "https://en.wikipedia.org");
}

#[test]
fn subdomain_names_select_wikis() {
    assert_eq!(WikiSubdomain::from_name("en"), Some(WikiSubdomain::Wikipedia));
    assert_eq!(WikiSubdomain::from_name("simple"), Some(WikiSubdomain::SimpleWikipedia));
    assert_eq!(WikiSubdomain::from_name("e"), None);
    assert_eq!(WikiSubdomain::from_name(""), None);
    assert_eq!(WikiSubdomain::from_name("simplex"), None);
    assert_eq!(WikiSubdomain::Host(String::from("a")).to_string(), "a");
    assert_eq!(WikiSubdomain::Wikipedia.to_string(), "en.wikipedia.org");
}

#[test]
fn redirects_come_after_prop_flags() {
    for intro_only in [false, true] {
        for plaintext in [false, true] {
            let url = QueryParams {
                format: Format::XML,
                formatversion: FormatVersion::Modern,
                redirects: true,
                prop: Prop::Extracts { intro_only, plaintext },
            }
            .to_url();
            let prop = url.find("prop=extracts").unwrap();
            let redirects = url.find("redirects=1").unwrap();
            assert!(prop < redirects);
            assert!(url.ends_with("&redirects=1"));
            if let (Some(i), Some(p)) = (url.find("exintro=1"), url.find("explaintext=1")) {
                assert!(prop < i && i < p && p < redirects);
            }
        }
    }
}
