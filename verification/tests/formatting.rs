use mangalib_parser::decimal::{u16_to_dec_string, u32_to_dec_string, u64_to_dec_string};
use mangalib_parser::mangalib::{chapters_from_parts, HeadlessBrowserClient, MangaChapter};
use mangalib_parser::server::{route_not_found_message, AppConfig, AppState};

#[test]
fn decimal_rendering_matches_the_usual_notation() {
    assert_eq!(u64_to_dec_string(0), "0");
    assert_eq!(u64_to_dec_string(7), "7");
    assert_eq!(u64_to_dec_string(42), "42");
    assert_eq!(u64_to_dec_string(1000), "1000");
    assert_eq!(u64_to_dec_string(u64::MAX), "18446744073709551615");
    assert_eq!(u32_to_dec_string(123456), "123456");
    assert_eq!(u16_to_dec_string(65535), "65535");
}

#[test]
fn the_server_address_binds_every_interface_at_the_port() {
    let config = AppConfig::new(8000, 16);
    assert_eq!(config.address(), "0.0.0.0:8000");
    let state = AppState::new(config);
    assert_eq!(state.config, config);
}

#[test]
fn unmatched_routes_are_reported_with_their_path() {
    assert_eq!(
        route_not_found_message("/scrap-mango"),
        "Route /scrap-mango not found"
    );
}

#[test]
fn the_default_client_points_at_the_upstream_api() {
    let client = HeadlessBrowserClient::builder().build();
    assert_eq!(
        client.chapters_url("test-manga"),
        "https://api.mangalib.me/api/manga/test-manga/chapters"
    );
    let chapter = MangaChapter::new("2".to_string(), "14".to_string());
    assert_eq!(
        client.chapter_images_url("test-manga", &chapter),
        "https://api.mangalib.me/api/manga/test-manga/chapter?number=14&volume=2"
    );
}

#[test]
fn builder_overrides_replace_the_defaults() {
    let client = HeadlessBrowserClient::builder()
        .user_agent("agent")
        .accept_language("lv")
        .platform("plan9")
        .image_server_prefix("https://img.test")
        .base_url("https://api.test")
        .build();
    assert_eq!(client.user_agent, "agent");
    assert_eq!(client.accept_language, "lv");
    assert_eq!(client.platform, "plan9");
    assert_eq!(client.image_server_prefix, "https://img.test");
    assert_eq!(client.base_url, "https://api.test");
}

#[test]
fn relative_image_paths_get_the_server_prefix() {
    let client = HeadlessBrowserClient::builder().build();
    let pages = vec!["/a/1.jpg".to_string(), "/a/2.jpg".to_string()];
    assert_eq!(
        client.image_urls(&pages),
        vec![
            "https://img33.imgslib.link/a/1.jpg".to_string(),
            "https://img33.imgslib.link/a/2.jpg".to_string(),
        ]
    );
}

#[test]
fn chapter_identities_come_from_volume_number_pairs() {
    let parts = vec![
        ("1".to_string(), "1".to_string()),
        ("1".to_string(), "2".to_string()),
    ];
    let chapters = chapters_from_parts(parts);
    assert_eq!(chapters.len(), 2);
    assert_eq!(chapters[0].chapter_volume, "1");
    assert_eq!(chapters[0].chapter_number, "1");
    assert_eq!(chapters[1].chapter_number, "2");
    assert_eq!(chapters[0], MangaChapter::new("1".to_string(), "1".to_string()));
    assert_ne!(chapters[0], chapters[1]);
}
