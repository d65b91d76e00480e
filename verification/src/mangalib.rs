//! Chapter identity and the upstream-source interface.

pub mod builder;
pub mod search;

use vstd::prelude::*;
use vstd::string::StringExecFns;

verus! {

/// Failures of the upstream chapter source. The browser-backed client that
/// produces them lives outside the library and reports each failure as the
/// variant's message text.
#[derive(Debug, Clone)]
pub enum Error {
    SerdeParse(String),
    BrowserCreate(String),
    BrowserCreateBuilder(String),
    BrowserTabCreate(String),
    BrowserNavigate(String),
    SetUserAgent(String),
    BrowserWaitNavigateTooLong(String),
    BrowserWaitElementTooLong(String),
    BrowserGetContent(String),
}

/// The `(volume, number)` string pair identifying one chapter within a manga.
/// Numeric identifiers from the upstream are normalized to decimal strings
/// before they reach the library.
#[derive(Debug, Clone)]
pub struct MangaChapter {
    pub chapter_volume: String,
    pub chapter_number: String,
}

/// The mathematical value of a [`MangaChapter`]: both identifying strings as
/// character sequences.
pub struct ChapterView {
    pub volume: Seq<char>,
    pub number: Seq<char>,
}

impl View for MangaChapter {
    type V = ChapterView;

    open spec fn view(&self) -> ChapterView {
        ChapterView { volume: self.chapter_volume@, number: self.chapter_number@ }
    }
}

impl MangaChapter {
    /// Builds the chapter identity from its two decimal-string components.
    pub fn new(volume: String, number: String) -> (c: Self)
        ensures
            c@.volume == volume@,
            c@.number == number@,
    {
        Self { chapter_volume: volume, chapter_number: number }
    }
}

impl PartialEq for MangaChapter {
    /// Two chapters are equal exactly when both identifying strings are equal.
    fn eq(&self, other: &Self) -> (r: bool) {
        self.chapter_volume == other.chapter_volume && self.chapter_number == other.chapter_number
    }
}

impl vstd::std_specs::cmp::PartialEqSpecImpl for MangaChapter {
    open spec fn obeys_eq_spec() -> bool {
        true
    }

    open spec fn eq_spec(&self, other: &Self) -> bool {
        self@ == other@
    }
}

impl Eq for MangaChapter {

}

/// A manga as the catalogue search lists it.
#[derive(Debug, Clone)]
pub struct MangaPreview {
    pub manga_type: String,
    pub name: String,
    pub url: String,
    pub slug: String,
    pub image_url: String,
}

impl MangaPreview {
    /// Builds a preview entry from its five descriptive strings.
    pub fn new(
        manga_type: String,
        name: String,
        url: String,
        slug: String,
        image_url: String,
    ) -> (p: Self)
        ensures
            p.manga_type@ == manga_type@,
            p.name@ == name@,
            p.url@ == url@,
            p.slug@ == slug@,
            p.image_url@ == image_url@,
    {
        Self { manga_type, name, url, slug, image_url }
    }
}

/// Configuration of the browser-backed upstream client. The navigation and
/// scraping driven by this configuration happen outside the library; the
/// library only decides which URLs are visited and how raw results are
/// assembled.
#[derive(Debug, Clone)]
pub struct HeadlessBrowserClient {
    pub user_agent: String,
    pub accept_language: String,
    pub platform: String,
    pub image_server_prefix: String,
    pub base_url: String,
}

impl HeadlessBrowserClient {
    /// Starts a configuration with no overrides set.
    pub fn builder() -> (b: builder::Builder)
        ensures
            b@ == builder::BuilderView::empty(),
    {
        builder::Builder::default()
    }

    /// The API URL that lists one manga's chapters.
    pub fn chapters_url(&self, slug: &str) -> (r: String)
        ensures
            r@ == self.base_url@ + "/api/manga/"@ + slug@ + "/chapters"@,
    {
        self.base_url.clone().concat("/api/manga/").concat(slug).concat("/chapters")
    }

    /// The API URL that lists one chapter's images.
    pub fn chapter_images_url(&self, slug: &str, manga_chapter: &MangaChapter) -> (r: String)
        ensures
            r@ == self.base_url@ + "/api/manga/"@ + slug@ + "/chapter?number="@
                + manga_chapter@.number + "&volume="@ + manga_chapter@.volume,
    {
        self.base_url
            .clone()
            .concat("/api/manga/")
            .concat(slug)
            .concat("/chapter?number=")
            .concat(self.chapter_number_part(manga_chapter))
            .concat("&volume=")
            .concat(self.chapter_volume_part(manga_chapter))
    }

    fn chapter_number_part<'a>(&self, manga_chapter: &'a MangaChapter) -> (r: &'a str)
        ensures
            r@ == manga_chapter@.number,
    {
        manga_chapter.chapter_number.as_str()
    }

    fn chapter_volume_part<'a>(&self, manga_chapter: &'a MangaChapter) -> (r: &'a str)
        ensures
            r@ == manga_chapter@.volume,
    {
        manga_chapter.chapter_volume.as_str()
    }

    /// Turns the relative image paths of one chapter into absolute URLs by
    /// prepending the configured image-server prefix to each.
    pub fn image_urls(&self, pages: &Vec<String>) -> (r: Vec<String>)
        ensures
            r@.len() == pages@.len(),
            forall|i: int| 0 <= i < pages@.len() ==> r@[i]@ == self.image_server_prefix@ + pages@[i]@,
    {
        let mut out: Vec<String> = Vec::new();
        let mut k: usize = 0;
        while k < pages.len()
            invariant
                k <= pages@.len(),
                out@.len() == k,
                forall|i: int| 0 <= i < k ==> out@[i]@ == self.image_server_prefix@ + pages@[i]@,
            decreases pages@.len() - k,
        {
            out.push(self.image_server_prefix.clone().concat(pages[k].as_str()));
            k += 1;
        }
        out
    }
}

/// Assembles chapter identities from the `(volume, number)` string pairs the
/// upstream chapter listing was reduced to.
pub fn chapters_from_parts(parts: Vec<(String, String)>) -> (r: Vec<MangaChapter>)
    ensures
        r@.len() == parts@.len(),
        forall|i: int| 0 <= i < parts@.len() ==> {
            &&& #[trigger] r@[i]@.volume == parts@[i].0@
            &&& r@[i]@.number == parts@[i].1@
        },
{
    let mut out: Vec<MangaChapter> = Vec::new();
    let mut k: usize = 0;
    while k < parts.len()
        invariant
            k <= parts@.len(),
            out@.len() == k,
            forall|i: int| 0 <= i < k ==> {
                &&& #[trigger] out@[i]@.volume == parts@[i].0@
                &&& out@[i]@.number == parts@[i].1@
            },
        decreases parts@.len() - k,
    {
        let volume = parts[k].0.clone();
        let number = parts[k].1.clone();
        out.push(MangaChapter::new(volume, number));
        k += 1;
    }
    out
}

/// The capability the orchestrator consumes: resolving a manga's chapter
/// list and one chapter's image URLs. The production implementation drives a
/// headless browser and may fail transiently; the library states nothing
/// about these calls beyond their types and handles every outcome.
pub trait Client {
    fn get_manga_chapter_images(
        &self,
        slug: &str,
        manga_chapter: &MangaChapter,
        chapter_index: usize,
        total_chapters: usize,
    ) -> Result<Vec<String>, Error>;

    fn get_manga_chapters(&self, slug: &str) -> Result<Vec<MangaChapter>, Error>;
}

} // verus!
