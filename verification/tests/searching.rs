use mangalib_parser::mangalib::search::{next_page, Manga, Query, Response};
use mangalib_parser::mangalib::MangaPreview;

fn manga(name: &str, rus: Option<&str>, eng: Option<&str>, slug: &str) -> Manga {
    Manga {
        name: name.to_string(),
        rus_name: rus.map(|s| s.to_string()),
        eng_name: eng.map(|s| s.to_string()),
        slug: slug.to_string(),
        slug_url: format!("{slug}-url"),
        cover_default: format!("https://covers.test/{slug}.jpg"),
        type_label: "manga".to_string(),
    }
}

#[test]
fn the_page_query_renders_as_key_value_pairs() {
    let query = Query::new_only_page(3);
    let pairs: Vec<(String, String)> = query.to_reqwest_format();
    assert_eq!(
        pairs,
        vec![
            ("fields[]".to_string(), "rate".to_string()),
            ("fields[]".to_string(), "rate_avg".to_string()),
            ("fields[]".to_string(), "userBookmark".to_string()),
            ("site_id[]".to_string(), "1".to_string()),
            ("page".to_string(), "3".to_string()),
        ]
    );
}

#[test]
fn the_preview_name_prefers_russian_then_english_then_plain() {
    let p = MangaPreview::from_manga(manga("plain", Some("rus"), Some("eng"), "s1"));
    assert_eq!(p.name, "rus");
    let p = MangaPreview::from_manga(manga("plain", None, Some("eng"), "s2"));
    assert_eq!(p.name, "eng");
    let p = MangaPreview::from_manga(manga("plain", None, None, "s3"));
    assert_eq!(p.name, "plain");
}

#[test]
fn the_preview_url_is_built_from_the_slug_url() {
    let p = MangaPreview::from_manga(manga("n", None, None, "some-manga"));
    assert_eq!(p.url, "https://mangalib.me/some-manga-url");
    assert_eq!(p.slug, "some-manga");
    assert_eq!(p.image_url, "https://covers.test/some-manga.jpg");
    assert_eq!(p.manga_type, "manga");
}

#[test]
fn a_response_page_converts_in_order() {
    let response = Response {
        data: vec![
            manga("a", None, None, "a"),
            manga("b", None, None, "b"),
        ],
    };
    let previews = response.into_previews();
    assert_eq!(previews.len(), 2);
    assert_eq!(previews[0].slug, "a");
    assert_eq!(previews[1].slug, "b");
}

#[test]
fn paging_stops_at_an_empty_page_and_advances_otherwise() {
    assert_eq!(next_page(4, 0), None);
    assert_eq!(next_page(4, 60), Some(5));
}
