use std::cell::{Cell, RefCell};
use std::collections::HashMap;

use mangalib_parser::mangalib::{Client, Error as MangalibError, MangaChapter};
use mangalib_parser::processing::{
    get_manga_urls, prepare_manga_for_publish, Error, MangaScrappingParamsDto,
};

fn chapter(volume: &str, number: &str) -> MangaChapter {
    MangaChapter::new(volume.to_string(), number.to_string())
}

/// A chapter source driven by a script: a fixed chapter list, a number of
/// failures to serve per chapter before succeeding, and counters for the
/// calls made and for how many calls were live at once.
struct ScriptedClient {
    chapters: Vec<MangaChapter>,
    chapters_fail: bool,
    failures_before_success: RefCell<HashMap<(String, String), usize>>,
    image_calls: RefCell<Vec<(String, String, String, usize, usize)>>,
    live: Cell<usize>,
    max_live: Cell<usize>,
}

impl ScriptedClient {
    fn new(chapters: Vec<MangaChapter>) -> Self {
        ScriptedClient {
            chapters,
            chapters_fail: false,
            failures_before_success: RefCell::new(HashMap::new()),
            image_calls: RefCell::new(Vec::new()),
            live: Cell::new(0),
            max_live: Cell::new(0),
        }
    }

    fn failing_first(mut self, volume: &str, number: &str, failures: usize) -> Self {
        self.failures_before_success
            .borrow_mut()
            .insert((volume.to_string(), number.to_string()), failures);
        self
    }

    fn image_url(volume: &str, number: &str) -> String {
        format!("https://images.test/{volume}/{number}.jpg")
    }
}

impl Client for ScriptedClient {
    fn get_manga_chapter_images(
        &self,
        slug: &str,
        manga_chapter: &MangaChapter,
        chapter_index: usize,
        total_chapters: usize,
    ) -> Result<Vec<String>, MangalibError> {
        self.live.set(self.live.get() + 1);
        if self.live.get() > self.max_live.get() {
            self.max_live.set(self.live.get());
        }
        self.image_calls.borrow_mut().push((
            slug.to_string(),
            manga_chapter.chapter_volume.clone(),
            manga_chapter.chapter_number.clone(),
            chapter_index,
            total_chapters,
        ));
        let key = (
            manga_chapter.chapter_volume.clone(),
            manga_chapter.chapter_number.clone(),
        );
        let mut failures = self.failures_before_success.borrow_mut();
        let result = match failures.get_mut(&key) {
            Some(left) if *left > 0 => {
                *left -= 1;
                Err(MangalibError::BrowserGetContent("scripted failure".to_string()))
            }
            _ => Ok(vec![Self::image_url(&key.0, &key.1)]),
        };
        self.live.set(self.live.get() - 1);
        result
    }

    fn get_manga_chapters(&self, _slug: &str) -> Result<Vec<MangaChapter>, MangalibError> {
        if self.chapters_fail {
            Err(MangalibError::BrowserNavigate("scripted failure".to_string()))
        } else {
            Ok(self
                .chapters
                .iter()
                .map(|c| chapter(&c.chapter_volume, &c.chapter_number))
                .collect())
        }
    }
}

fn dto(slug: &str, after_chapter: Option<&str>, after_volume: Option<&str>) -> MangaScrappingParamsDto {
    MangaScrappingParamsDto {
        slug: slug.to_string(),
        after_chapter: after_chapter.map(|s| s.to_string()),
        after_volume: after_volume.map(|s| s.to_string()),
    }
}

fn four_chapters() -> Vec<MangaChapter> {
    vec![
        chapter("1", "1"),
        chapter("1", "2"),
        chapter("1", "3"),
        chapter("1", "4"),
    ]
}

#[test]
fn resume_processes_exactly_the_chapters_after_the_cursor() {
    let client = ScriptedClient::new(four_chapters());
    let result = get_manga_urls(&client, &dto("test-manga", Some("3"), Some("1")), 16).unwrap();

    let calls = client.image_calls.borrow();
    assert_eq!(calls.len(), 1);
    assert_eq!(
        calls[0],
        (
            "test-manga".to_string(),
            "1".to_string(),
            "4".to_string(),
            1,
            1
        )
    );

    assert_eq!(result.slug, "test-manga");
    assert_eq!(result.chapters.len(), 1);
    assert_eq!(result.chapters[0].chapter, "4");
    assert_eq!(result.chapters[0].volume, "1");
    assert_eq!(result.chapters[0].url, None);
    assert_eq!(
        result.chapters[0].images_urls,
        vec![ScriptedClient::image_url("1", "4")]
    );
}

#[test]
fn a_cursor_not_in_the_list_fails_the_job_with_zero_fetches() {
    let client = ScriptedClient::new(four_chapters());
    let result = get_manga_urls(&client, &dto("test-manga", Some("7"), Some("2")), 16);

    assert!(matches!(
        result,
        Err(Error::ChapterNotFoundForFilter { .. })
    ));
    assert_eq!(client.image_calls.borrow().len(), 0);
}

#[test]
fn an_upstream_chapter_list_failure_fails_the_job() {
    let mut client = ScriptedClient::new(four_chapters());
    client.chapters_fail = true;
    let result = get_manga_urls(&client, &dto("test-manga", None, None), 16);

    assert!(matches!(result, Err(Error::Mangalib(_))));
    assert_eq!(client.image_calls.borrow().len(), 0);
}

#[test]
fn transient_fetch_failures_are_retried_to_success() {
    let client = ScriptedClient::new(four_chapters()).failing_first("1", "2", 3);
    let result = get_manga_urls(&client, &dto("test-manga", None, None), 16).unwrap();

    assert_eq!(result.chapters.len(), 4);
    // One call for each of the other chapters, four for the flaky one.
    assert_eq!(client.image_calls.borrow().len(), 7);
}

#[test]
fn a_chapter_failing_every_attempt_fails_the_job_after_five_tries() {
    let client = ScriptedClient::new(four_chapters()).failing_first("1", "2", 9);
    let result = get_manga_urls(&client, &dto("test-manga", None, None), 16);

    assert!(matches!(result, Err(Error::Mangalib(_))));
    let calls = client.image_calls.borrow();
    let flaky_calls = calls.iter().filter(|c| c.2 == "2").count();
    assert_eq!(flaky_calls, 5);
}

#[test]
fn live_fetches_never_exceed_the_concurrency_bound() {
    let client = ScriptedClient::new(four_chapters());
    get_manga_urls(&client, &dto("test-manga", None, None), 2).unwrap();
    assert!(client.max_live.get() <= 2);
    assert!(client.image_calls.borrow().len() > 2);
}

#[test]
fn chapters_are_numbered_against_the_filtered_total() {
    let client = ScriptedClient::new(four_chapters());
    get_manga_urls(&client, &dto("test-manga", Some("1"), Some("1")), 16).unwrap();
    let calls = client.image_calls.borrow();
    assert_eq!(calls.len(), 3);
    for (i, call) in calls.iter().enumerate() {
        assert_eq!(call.3, i + 1);
        assert_eq!(call.4, 3);
    }
}

#[test]
fn aggregation_restores_canonical_order_whatever_the_completion_order() {
    let chapters = four_chapters();
    // The store is position-indexed; fill it as if the fetches finished in
    // reverse order.
    let mut images: Vec<Option<Vec<String>>> = vec![None, None, None, None];
    for k in [3usize, 2, 1, 0] {
        images[k] = Some(vec![format!("https://images.test/{k}.jpg")]);
    }
    let manga = prepare_manga_for_publish("slug", &chapters, &images).unwrap();
    let numbers: Vec<&str> = manga.chapters.iter().map(|c| c.chapter.as_str()).collect();
    assert_eq!(numbers, vec!["1", "2", "3", "4"]);
    for (k, entry) in manga.chapters.iter().enumerate() {
        assert_eq!(entry.images_urls, vec![format!("https://images.test/{k}.jpg")]);
    }
}

#[test]
fn a_hole_in_the_store_is_an_internal_error_naming_the_first_missing_chapter() {
    let chapters = four_chapters();
    let images: Vec<Option<Vec<String>>> = vec![
        Some(vec!["https://images.test/0.jpg".to_string()]),
        None,
        Some(vec!["https://images.test/2.jpg".to_string()]),
        None,
    ];
    let result = prepare_manga_for_publish("slug", &chapters, &images);
    match result {
        Err(Error::ChapterNotFound { chapter }) => {
            assert_eq!(chapter.chapter_number, "2");
            assert_eq!(chapter.chapter_volume, "1");
        }
        other => panic!("expected ChapterNotFound, got {other:?}"),
    }
}
