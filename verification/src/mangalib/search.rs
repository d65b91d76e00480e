//! Catalogue search: the query format, the shape of one result page, and
//! the paging decision. The HTTP requests themselves happen outside the
//! library.

use vstd::prelude::*;
use vstd::string::StringExecFns;
use crate::decimal::{dec_seq, u32_to_dec_string};
use crate::mangalib::MangaPreview;

verus! {

/// One search query: the requested extra fields, the site filter, and the
/// page number.
#[derive(Debug)]
pub struct Query {
    pub fields: Vec<String>,
    pub site_ids: Vec<u32>,
    pub page: u32,
}

/// The key-value pairs [`Query::to_reqwest_format`] renders: one
/// `fields[]` pair per requested field, one `site_id[]` pair per site,
/// and the page number last.
pub open spec fn query_pairs(
    fields: Seq<Seq<char>>,
    site_ids: Seq<u32>,
    page: u32,
) -> Seq<(Seq<char>, Seq<char>)> {
    fields.map(|i: int, f: Seq<char>| ("fields[]"@, f)) + site_ids.map(
        |i: int, s: u32| ("site_id[]"@, dec_seq(s as int)),
    ) + seq![("page"@, dec_seq(page as int))]
}

impl Query {
    /// Renders the query as the key-value pairs the HTTP layer sends.
    pub fn to_reqwest_format(&self) -> (r: Vec<(String, String)>)
        ensures
            r@.len() == self.fields@.len() + self.site_ids@.len() + 1,
            forall|i: int|
                0 <= i < r@.len() ==> {
                    let pairs = query_pairs(self.fields.deep_view(), self.site_ids@, self.page);
                    (#[trigger] r@[i]).0@ == pairs[i].0 && r@[i].1@ == pairs[i].1
                },
    {
        let ghost pairs = query_pairs(self.fields.deep_view(), self.site_ids@, self.page);
        let mut formatted: Vec<(String, String)> = Vec::new();
        let mut k: usize = 0;
        while k < self.fields.len()
            invariant
                k <= self.fields@.len(),
                formatted@.len() == k,
                pairs == query_pairs(self.fields.deep_view(), self.site_ids@, self.page),
                forall|i: int|
                    0 <= i < k ==> (#[trigger] formatted@[i]).0@ == pairs[i].0 && formatted@[i].1@
                        == pairs[i].1,
            decreases self.fields@.len() - k,
        {
            formatted.push(("fields[]".to_owned(), self.fields[k].clone()));
            k += 1;
        }
        let mut k: usize = 0;
        while k < self.site_ids.len()
            invariant
                k <= self.site_ids@.len(),
                formatted@.len() == self.fields@.len() + k,
                pairs == query_pairs(self.fields.deep_view(), self.site_ids@, self.page),
                forall|i: int|
                    0 <= i < formatted@.len() ==> (#[trigger] formatted@[i]).0@ == pairs[i].0
                        && formatted@[i].1@ == pairs[i].1,
            decreases self.site_ids@.len() - k,
        {
            formatted.push(("site_id[]".to_owned(), u32_to_dec_string(self.site_ids[k])));
            k += 1;
        }

        formatted.push(("page".to_owned(), u32_to_dec_string(self.page)));

        formatted
    }

    /// The query the catalogue walk sends for one page: a fixed field and
    /// site selection, and the page number.
    pub fn new_only_page(page: u32) -> (q: Self)
        ensures
            q.fields.deep_view() =~= seq!["rate"@, "rate_avg"@, "userBookmark"@],
            q.site_ids@ =~= seq![1u32],
            q.page == page,
    {
        let mut fields: Vec<String> = Vec::new();
        fields.push("rate".to_owned());
        fields.push("rate_avg".to_owned());
        fields.push("userBookmark".to_owned());
        let mut site_ids: Vec<u32> = Vec::new();
        site_ids.push(1);
        Self { fields, site_ids, page }
    }
}

/// One manga entry of a search response, reduced to the fields the
/// conversion into a [`MangaPreview`] reads.
#[derive(Debug)]
pub struct Manga {
    pub name: String,
    pub rus_name: Option<String>,
    pub eng_name: Option<String>,
    pub slug: String,
    pub slug_url: String,
    pub cover_default: String,
    pub type_label: String,
}

/// The name a preview shows: the Russian name when present, else the
/// English name, else the upstream's plain name.
pub open spec fn preview_name(m: Manga) -> Seq<char> {
    match m.rus_name {
        Some(r) => r@,
        None => match m.eng_name {
            Some(e) => e@,
            None => m.name@,
        },
    }
}

/// Whether one preview renders one search entry: the type label, the
/// display name, the site URL built from the slug, and the default cover.
pub open spec fn preview_matches(p: MangaPreview, m: Manga) -> bool {
    &&& p.manga_type@ == m.type_label@
    &&& p.name@ == preview_name(m)
    &&& p.url@ == "https://mangalib.me/"@ + m.slug_url@
    &&& p.slug@ == m.slug@
    &&& p.image_url@ == m.cover_default@
}

impl MangaPreview {
    /// Reduces one search entry to its preview.
    pub fn from_manga(value: Manga) -> (p: Self)
        ensures
            preview_matches(p, value),
    {
        let url = "https://mangalib.me/".to_owned().concat(value.slug_url.as_str());
        let name = match value.rus_name {
            Some(r) => r,
            None => match value.eng_name {
                Some(e) => e,
                None => value.name,
            },
        };
        MangaPreview {
            manga_type: value.type_label,
            name,
            url,
            slug: value.slug,
            image_url: value.cover_default,
        }
    }
}

/// One page of search results.
#[derive(Debug)]
pub struct Response {
    pub data: Vec<Manga>,
}

impl Response {
    /// Reduces a whole result page to its previews, in page order.
    pub fn into_previews(self) -> (r: Vec<MangaPreview>)
        ensures
            r@.len() == self.data@.len(),
            forall|i: int|
                0 <= i < r@.len() ==> preview_matches(#[trigger] r@[i], self.data@[i]),
    {
        let ghost orig = self.data@;
        let mut data = self.data;
        let mut out: Vec<MangaPreview> = Vec::new();
        while data.len() > 0
            invariant
                out@.len() + data@.len() == orig.len(),
                data@ == orig.subrange(out@.len() as int, orig.len() as int),
                forall|i: int|
                    0 <= i < out@.len() ==> preview_matches(#[trigger] out@[i], orig[i]),
            decreases data@.len(),
        {
            let ghost k = out@.len() as int;
            let m = data.remove(0);
            out.push(MangaPreview::from_manga(m));
            proof {
                assert(data@ =~= orig.subrange(k + 1, orig.len() as int));
            }
        }
        out
    }
}

/// Which page the catalogue walk requests next: none after an empty page
/// (the catalogue is exhausted), the following page otherwise.
pub fn next_page(page: u32, batch_len: usize) -> (r: Option<u32>)
    requires
        page < u32::MAX,
    ensures
        batch_len == 0 ==> r is None,
        batch_len > 0 ==> r == Some((page + 1) as u32),
{
    if batch_len == 0 {
        None
    } else {
        Some(page + 1)
    }
}

} // verus!
