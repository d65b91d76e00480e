//! The per-job orchestration: resume filtering, permit-bounded fetching
//! with retries, and aggregation of the fetched images in canonical
//! chapter order.

use vstd::prelude::*;
use crate::gate::ConcurrencyGate;
use crate::mangalib;
use crate::mangalib::{Client, MangaChapter};
use crate::retry::MAX_FETCH_ATTEMPTS;

verus! {

/// Failures of one job. `Mangalib` carries an upstream failure that
/// survived every retry; `ChapterNotFoundForFilter` reports a resume cursor
/// that matches no chapter; `ChapterNotFound` reports a hole in the
/// aggregation store, an internal invariant violation. The remaining
/// variants stand for task-plumbing failures of the concurrent driver
/// around the library: a poisoned store lock, a closed permit pool, and a
/// lost worker task.
#[derive(Debug)]
pub enum Error {
    Mangalib(mangalib::Error),
    ChapterNotFound { chapter: MangaChapter },
    ChapterNotFoundForFilter { dto: MangaScrappingParamsDto },
    MutexLock,
    SemaphoreAcquire,
    Handle,
}

/// One job request as it arrives from the queue or the HTTP ingress.
/// `after_chapter` and `after_volume` form the resume cursor when both are
/// present; the filter treats every other combination as "process from the
/// start".
#[derive(Debug)]
pub struct ScrapMangaRequest {
    pub slug: String,
    pub callback_url: String,
    pub after_chapter: Option<String>,
    pub after_volume: Option<String>,
}

impl ScrapMangaRequest {
    /// Strips the callback URL off the request, leaving the parameters the
    /// orchestrator works with.
    pub fn into_dto(self) -> (d: MangaScrappingParamsDto)
        ensures
            d.slug == self.slug,
            d.after_chapter == self.after_chapter,
            d.after_volume == self.after_volume,
    {
        MangaScrappingParamsDto {
            slug: self.slug,
            after_chapter: self.after_chapter,
            after_volume: self.after_volume,
        }
    }
}

/// The scraping parameters of one job: the manga and the optional resume
/// cursor.
#[derive(Debug, Clone)]
pub struct MangaScrappingParamsDto {
    pub slug: String,
    pub after_chapter: Option<String>,
    pub after_volume: Option<String>,
}

/// The resume cursor the parameters carry: the `(number, volume)` pair when
/// both halves are present, nothing otherwise.
pub open spec fn spec_cursor(dto: MangaScrappingParamsDto) -> Option<(Seq<char>, Seq<char>)> {
    match (dto.after_chapter, dto.after_volume) {
        (Some(c), Some(v)) => Some((c@, v@)),
        _ => None,
    }
}

/// Whether a chapter's identity equals the cursor's `(number, volume)`
/// pair, by string equality.
pub open spec fn chapter_matches(c: MangaChapter, number: Seq<char>, volume: Seq<char>) -> bool {
    c@.number == number && c@.volume == volume
}

/// The index of the first chapter matching the cursor, if any.
pub open spec fn cursor_position(
    chapters: Seq<MangaChapter>,
    number: Seq<char>,
    volume: Seq<char>,
) -> Option<int>
    decreases chapters.len(),
{
    if chapters.len() == 0 {
        None
    } else if chapter_matches(chapters[0], number, volume) {
        Some(0)
    } else {
        match cursor_position(chapters.drop_first(), number, volume) {
            None => None,
            Some(i) => Some(i + 1),
        }
    }
}

/// What filtering yields: the whole list when there is no cursor, the
/// suffix strictly after the cursor's first match when there is one, and
/// nothing when a cursor was supplied but matches no chapter. An empty
/// suffix and "no result" are distinct outcomes.
pub open spec fn filter_spec(
    chapters: Seq<MangaChapter>,
    cursor: Option<(Seq<char>, Seq<char>)>,
) -> Option<Seq<MangaChapter>> {
    match cursor {
        None => Some(chapters),
        Some((number, volume)) => match cursor_position(chapters, number, volume) {
            None => None,
            Some(i) => Some(chapters.subrange(i + 1, chapters.len() as int)),
        },
    }
}

/// A first cursor match, where there is one, stands at a valid index and
/// is a match with nothing matching before it.
pub proof fn lemma_cursor_position_is_first_match(
    chapters: Seq<MangaChapter>,
    number: Seq<char>,
    volume: Seq<char>,
)
    ensures
        match cursor_position(chapters, number, volume) {
            Some(i) => {
                &&& 0 <= i < chapters.len()
                &&& chapter_matches(chapters[i], number, volume)
                &&& forall|j: int| 0 <= j < i ==> !chapter_matches(chapters[j], number, volume)
            },
            None => forall|j: int|
                0 <= j < chapters.len() ==> !chapter_matches(chapters[j], number, volume),
        },
    decreases chapters.len(),
{
    if chapters.len() > 0 && !chapter_matches(chapters[0], number, volume) {
        let tail = chapters.drop_first();
        lemma_cursor_position_is_first_match(tail, number, volume);
        assert(forall|j: int| 0 <= j < tail.len() ==> tail[j] == chapters[j + 1]);
        match cursor_position(tail, number, volume) {
            Some(i) => {
                assert forall|j: int| 0 <= j < i + 1 implies !chapter_matches(
                    chapters[j],
                    number,
                    volume,
                ) by {
                    if j > 0 {
                        assert(!chapter_matches(tail[j - 1], number, volume));
                    }
                }
            },
            None => {
                assert forall|j: int| 0 <= j < chapters.len() implies !chapter_matches(
                    chapters[j],
                    number,
                    volume,
                ) by {
                    if j > 0 {
                        assert(!chapter_matches(tail[j - 1], number, volume));
                    }
                }
            },
        }
    }
}

/// The converse: a match at `i` with no match before it pins the cursor
/// position to `i`. Together with the contract of
/// [`filter_chapters`], this is the resume law: for a cursor whose first
/// match stands at index `i`, filtering keeps exactly the chapters after
/// `i`.
pub proof fn lemma_resume_keeps_suffix(
    chapters: Seq<MangaChapter>,
    number: Seq<char>,
    volume: Seq<char>,
    i: int,
)
    requires
        0 <= i < chapters.len(),
        chapter_matches(chapters[i], number, volume),
        forall|j: int| 0 <= j < i ==> !chapter_matches(chapters[j], number, volume),
    ensures
        cursor_position(chapters, number, volume) == Some(i),
        filter_spec(chapters, Some((number, volume))) == Some(
            chapters.subrange(i + 1, chapters.len() as int),
        ),
    decreases i,
{
    if i == 0 {
    } else {
        lemma_resume_keeps_suffix(chapters.drop_first(), number, volume, i - 1);
    }
}

/// A cursor that matches no chapter makes filtering yield nothing at all,
/// never a fallback to the full list: resume is fail-closed.
pub proof fn lemma_resume_fail_closed(
    chapters: Seq<MangaChapter>,
    number: Seq<char>,
    volume: Seq<char>,
)
    requires
        forall|j: int| 0 <= j < chapters.len() ==> !chapter_matches(chapters[j], number, volume),
    ensures
        filter_spec(chapters, Some((number, volume))) is None,
    decreases chapters.len(),
{
    if chapters.len() > 0 {
        lemma_resume_fail_closed(chapters.drop_first(), number, volume);
    }
}

/// Filtering without a cursor keeps the whole chapter list, unchanged.
pub proof fn lemma_no_cursor_passthrough(chapters: Seq<MangaChapter>)
    ensures
        filter_spec(chapters, None) == Some(chapters),
{
}

/// Computes the sublist of chapters still to process. Without a cursor the
/// list passes through unchanged; with one, the chapters strictly after
/// the cursor's first match remain, and a cursor that matches nothing
/// yields `None`.
pub fn filter_chapters(
    chapters: Vec<MangaChapter>,
    dto: &MangaScrappingParamsDto,
) -> (r: Option<Vec<MangaChapter>>)
    ensures
        ({
            let expect = filter_spec(chapters@, spec_cursor(*dto));
            &&& (r is Some <==> expect is Some)
            &&& (r matches Some(cs) ==> expect matches Some(s) && cs@ == s)
        }),
{
    let (chapter_num, volume_num) = match (&dto.after_chapter, &dto.after_volume) {
        (Some(c), Some(v)) => (c, v),
        _ => {
            return Some(chapters);
        },
    };

    let mut remaining = chapters;
    let ghost all = remaining@;
    let mut k: usize = 0;
    while k < remaining.len()
        invariant
            remaining@ == all,
            all == chapters@,
            spec_cursor(*dto) == Some((chapter_num@, volume_num@)),
            k <= all.len(),
            forall|j: int| 0 <= j < k ==> !chapter_matches(all[j], chapter_num@, volume_num@),
        decreases all.len() - k,
    {
        if *chapter_num == remaining[k].chapter_number && *volume_num == remaining[k].chapter_volume {
            proof {
                lemma_resume_keeps_suffix(all, chapter_num@, volume_num@, k as int);
            }
            let rest = remaining.split_off(k + 1);
            return Some(rest);
        }
        k += 1;
    }
    proof {
        lemma_resume_fail_closed(all, chapter_num@, volume_num@);
    }
    None
}

/// The result a job publishes: the manga and one entry per processed
/// chapter, in canonical order.
#[derive(Debug)]
pub struct PublishedManga {
    pub slug: String,
    pub chapters: Vec<PublishedMangaChapter>,
}

/// One chapter in the published result. `url` is reserved for an external
/// publish-link step and stays empty in the primary pipeline.
#[derive(Debug)]
pub struct PublishedMangaChapter {
    pub url: Option<String>,
    pub chapter: String,
    pub volume: String,
    pub images_urls: Vec<String>,
}

/// Whether the position-indexed image store holds an entry for every
/// chapter.
pub open spec fn images_complete(
    chapters: Seq<MangaChapter>,
    images: Seq<Option<Vec<String>>>,
) -> bool {
    forall|i: int| 0 <= i < chapters.len() ==> i < images.len() && images[i] is Some
}

/// Whether one published entry renders `c` with exactly the images `imgs`.
pub open spec fn published_entry_matches(
    p: PublishedMangaChapter,
    c: MangaChapter,
    imgs: Vec<String>,
) -> bool {
    &&& p.url is None
    &&& p.chapter@ == c@.number
    &&& p.volume@ == c@.volume
    &&& p.images_urls.deep_view() == imgs.deep_view()
}

/// Walks the chapter list in canonical order and looks each chapter's
/// images up in the position-indexed store, building the published result
/// in that same order — whatever order the store was filled in. A missing
/// entry is an internal invariant violation and fails the job with
/// `ChapterNotFound` for the first chapter whose images are absent.
pub fn prepare_manga_for_publish(
    slug: &str,
    chapters: &Vec<MangaChapter>,
    images: &Vec<Option<Vec<String>>>,
) -> (r: Result<PublishedManga, Error>)
    ensures
        (r is Ok <==> images_complete(chapters@, images@)),
        (r matches Ok(m) ==> {
            &&& m.slug@ == slug@
            &&& m.chapters@.len() == chapters@.len()
            &&& forall|i: int|
                0 <= i < chapters@.len() ==> (images@[i] matches Some(v)
                    && published_entry_matches(#[trigger] m.chapters@[i], chapters@[i], v))
        }),
        (r matches Err(e) ==> (e matches Error::ChapterNotFound { chapter } && (exists|i: int|
            {
                &&& 0 <= i < chapters@.len()
                &&& !(i < images@.len() && images@[i] is Some)
                &&& forall|j: int| 0 <= j < i ==> j < images@.len() && images@[j] is Some
                &&& chapter@ == chapters@[i]@
            }))),
{
    let mut telegraph_urls: Vec<PublishedMangaChapter> = Vec::new();
    let mut k: usize = 0;
    while k < chapters.len()
        invariant
            k <= chapters@.len(),
            telegraph_urls@.len() == k,
            forall|j: int| 0 <= j < k ==> j < images@.len() && images@[j] is Some,
            forall|i: int|
                0 <= i < k ==> (images@[i] matches Some(v) && published_entry_matches(
                    #[trigger] telegraph_urls@[i],
                    chapters@[i],
                    v,
                )),
        decreases chapters@.len() - k,
    {
        if k >= images.len() {
            return Err(Error::ChapterNotFound { chapter: copy_chapter(&chapters[k]) });
        }
        match &images[k] {
            None => {
                return Err(Error::ChapterNotFound { chapter: copy_chapter(&chapters[k]) });
            },
            Some(url_images) => {
                telegraph_urls.push(
                    PublishedMangaChapter {
                        url: None,
                        chapter: chapters[k].chapter_number.clone(),
                        volume: chapters[k].chapter_volume.clone(),
                        images_urls: clone_strings(url_images),
                    },
                );
            },
        }
        k += 1;
    }

    Ok(PublishedManga { slug: slug.to_owned(), chapters: telegraph_urls })
}

/// A fresh chapter value with the same identity.
fn copy_chapter(c: &MangaChapter) -> (r: MangaChapter)
    ensures
        r@ == c@,
{
    MangaChapter {
        chapter_volume: c.chapter_volume.clone(),
        chapter_number: c.chapter_number.clone(),
    }
}

/// A fresh vector holding the same strings.
fn clone_strings(v: &Vec<String>) -> (r: Vec<String>)
    ensures
        r.deep_view() == v.deep_view(),
{
    let mut out: Vec<String> = Vec::new();
    let mut k: usize = 0;
    while k < v.len()
        invariant
            k <= v@.len(),
            out@.len() == k,
            forall|j: int| 0 <= j < k ==> out@[j]@ == v@[j]@,
        decreases v@.len() - k,
    {
        out.push(v[k].clone());
        k += 1;
    }
    proof {
        assert(out.deep_view() =~~= v.deep_view());
    }
    out
}

/// A fresh copy of the job parameters with the same slug and cursor.
fn copy_params(dto: &MangaScrappingParamsDto) -> (d: MangaScrappingParamsDto)
    ensures
        d.slug@ == dto.slug@,
        spec_cursor(d) == spec_cursor(*dto),
{
    MangaScrappingParamsDto {
        slug: dto.slug.clone(),
        after_chapter: clone_opt_string(&dto.after_chapter),
        after_volume: clone_opt_string(&dto.after_volume),
    }
}

/// A fresh copy of an optional string.
fn clone_opt_string(o: &Option<String>) -> (r: Option<String>)
    ensures
        (r is Some <==> o is Some),
        (r matches Some(s) ==> o matches Some(t) && s@ == t@),
{
    match o {
        Some(s) => Some(s.clone()),
        None => None,
    }
}

/// Runs one job against the given chapter source, sequentially: resolves
/// the chapter list, filters it by the resume cursor, fetches the images
/// of each remaining chapter while holding a gate permit, retrying each
/// fetch up to [`MAX_FETCH_ATTEMPTS`] times, and aggregates the images in
/// canonical chapter order. The first fetch that exhausts its retries
/// fails the whole job.
pub fn get_manga_urls<C: Client>(
    client: &C,
    dto: &MangaScrappingParamsDto,
    chrome_max_count: u16,
) -> (r: Result<PublishedManga, Error>)
    requires
        chrome_max_count >= 1,
    ensures
        (r matches Ok(m) ==> m.slug@ == dto.slug@ && (forall|i: int|
            0 <= i < m.chapters@.len() ==> (#[trigger] m.chapters@[i]).url is None)),
        (r matches Err(e) ==> (e matches Error::Mangalib(_) || (
            e matches Error::ChapterNotFoundForFilter { dto: d } && spec_cursor(d) == spec_cursor(
                *dto,
            ) && d.slug@ == dto.slug@ && spec_cursor(*dto) is Some))),
{
    let chapters = match client.get_manga_chapters(dto.slug.as_str()) {
        Ok(c) => c,
        Err(e) => {
            return Err(Error::Mangalib(e));
        },
    };
    let chapters = match filter_chapters(chapters, dto) {
        None => {
            return Err(Error::ChapterNotFoundForFilter { dto: copy_params(dto) });
        },
        Some(c) => c,
    };

    let mut gate = ConcurrencyGate::new(chrome_max_count as usize);
    let chapters_len = chapters.len();
    let mut images: Vec<Option<Vec<String>>> = Vec::new();
    let mut k: usize = 0;
    while k < chapters_len
        invariant
            chapters_len == chapters@.len(),
            k <= chapters_len,
            images@.len() == k,
            forall|j: int| 0 <= j < k ==> images@[j] is Some,
            gate.wf(),
            gate.capacity() == chrome_max_count as int,
            gate.available() == gate.capacity(),
            chrome_max_count >= 1,
        decreases chapters_len - k,
    {
        gate.acquire();
        let mut outcome = client.get_manga_chapter_images(
            dto.slug.as_str(),
            &chapters[k],
            k + 1,
            chapters_len,
        );
        let mut tries: usize = 1;
        while !outcome.is_ok() && tries < MAX_FETCH_ATTEMPTS
            invariant
                1 <= tries <= MAX_FETCH_ATTEMPTS,
                k < chapters_len == chapters@.len(),
            decreases MAX_FETCH_ATTEMPTS - tries,
        {
            outcome = client.get_manga_chapter_images(
                dto.slug.as_str(),
                &chapters[k],
                k + 1,
                chapters_len,
            );
            tries += 1;
        }
        gate.release();
        match outcome {
            Ok(urls) => {
                images.push(Some(urls));
            },
            Err(e) => {
                return Err(Error::Mangalib(e));
            },
        }
        k += 1;
    }

    prepare_manga_for_publish(dto.slug.as_str(), &chapters, &images)
}

} // verus!
