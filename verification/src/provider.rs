//! The provider adapter's decision core: configuration, language metadata,
//! image-URL conventions, pagination, and the normalizers that assemble the
//! canonical record and the search projection from decoded responses. The
//! transport calls around these functions live in the unverified shell.

use vstd::prelude::*;
use crate::dates::{date_triple, triple_le, OlDate};
use crate::decode::{
    author_key_role, description_text, genres_of, genres_from_subjects, decode_author_ref,
    decode_description, OpenlibraryAuthorDetails, OpenlibraryAuthorResponse, OpenlibraryEdition,
    OpenlibrarySearchDoc, OpenlibraryWork,
};
use crate::models::{
    stored_url_text, MediaDetails, MediaSearchItem, MediaSpecifics, MetadataCreator,
    MetadataImageLot, MetadataLot, MetadataSource, PartialMetadata, SearchDetails, SearchResults,
};
use crate::normalize::{
    average_pages, average_pages_spec, book_cover_urls, collect_images, cover_image_url,
    cover_url_spec, dedup_first_seen, edition_cover_ids, first_release_date, image_urls, opt_ids,
    parsed_dates_of, positives,
};
use crate::scrape::{carousel_fragments_of, extract_suggestions, partial_view, suggestions_of};
use crate::text::{get_key, key_of};

verus! {

/// The adapter for the Open Library source: its image origin, the configured
/// cover-size token, and the page size limit.
#[derive(Debug, Clone)]
pub struct OpenlibraryService {
    pub image_url: String,
    pub image_size: String,
    pub page_limit: i32,
}

/// The decoded author references of a work; a work without the field has
/// none.
pub open spec fn opt_authors(a: Option<Vec<OpenlibraryAuthorResponse>>) -> Seq<
    OpenlibraryAuthorResponse,
> {
    match a {
        Some(v) => v@,
        None => Seq::<OpenlibraryAuthorResponse>::empty(),
    }
}

/// The subject texts of a work; a work without the field has none.
pub open spec fn opt_subjects(s: Option<Vec<String>>) -> Seq<Seq<char>> {
    match s {
        Some(v) => v.deep_view(),
        None => Seq::<Seq<char>>::empty(),
    }
}

/// The first strictly positive identifier of a list, if any.
pub open spec fn first_positive(s: Seq<i64>) -> Option<i64>
    decreases s.len(),
{
    if s.len() == 0 {
        None
    } else if s[0] > 0 {
        Some(s[0])
    } else {
        first_positive(s.skip(1))
    }
}

fn first_positive_exec(v: &Vec<i64>) -> (r: Option<i64>)
    ensures
        r == first_positive(v@),
{
    let mut j: usize = 0;
    proof {
        assert(v@.skip(0) =~= v@);
    }
    while j < v.len()
        invariant
            j <= v@.len(),
            first_positive(v@) == first_positive(v@.skip(j as int)),
        decreases v@.len() - j,
    {
        let c = v[j];
        proof {
            assert(v@.skip(j as int)[0] == v@[j as int]);
            assert(v@.skip(j as int).skip(1) =~= v@.skip(j as int + 1));
        }
        if c > 0 {
            return Some(c);
        }
        j += 1;
    }
    proof {
        assert(v@.skip(v@.len() as int) =~= Seq::<i64>::empty());
    }
    None
}

/// The (name, role, image) triple of a creator record.
pub open spec fn creator_view(c: MetadataCreator) -> (Seq<char>, Seq<char>, Option<Seq<char>>) {
    (c.name@, c.role@, c.image.deep_view())
}

/// The creator an author reference and its fetched record normalize to: the
/// fetched display name, the reference's role, and the author-photo URL of
/// the first valid photo identifier.
pub open spec fn creator_of(
    a: OpenlibraryAuthorResponse,
    d: OpenlibraryAuthorDetails,
    base: Seq<char>,
    size: Seq<char>,
) -> (Seq<char>, Seq<char>, Option<Seq<char>>) {
    (
        d.name@,
        author_key_role(a).1,
        match first_positive(opt_ids(d.photos)) {
            Some(c) => Some(cover_url_spec(base, "a"@, c as int, size)),
            None => None::<Seq<char>>,
        },
    )
}

/// The (identifier, title, image, publish year) of a search item.
pub open spec fn search_item_view(it: MediaSearchItem) -> (
    Seq<char>,
    Seq<char>,
    Option<Seq<char>>,
    Option<int>,
) {
    (
        it.identifier@,
        it.title@,
        it.image.deep_view(),
        match it.publish_year {
            Some(y) => Some(y as int),
            None => None::<int>,
        },
    )
}

/// The search item a decoded document normalizes to: canonical identifier,
/// title, the book-cover URL of its cover identifier (search results carry at
/// most the first image), and its first publish year.
pub open spec fn doc_item_view(d: OpenlibrarySearchDoc, base: Seq<char>, size: Seq<char>) -> (
    Seq<char>,
    Seq<char>,
    Option<Seq<char>>,
    Option<int>,
) {
    (
        key_of(d.key@),
        d.title@,
        match d.cover_i {
            Some(c) => Some(cover_url_spec(base, "b"@, c as int, size)),
            None => None::<Seq<char>>,
        },
        match d.first_publish_year {
            Some(y) => Some(y as int),
            None => None::<int>,
        },
    )
}

/// The page a search call works on: the given one, or 1 when absent.
pub open spec fn effective_page(page: Option<i32>) -> int {
    match page {
        Some(p) => p as int,
        None => 1,
    }
}

/// The offset a search call passes to the source: the items of all earlier
/// pages.
pub fn search_offset(page: i32, page_limit: i32) -> (r: i64)
    ensures
        r == (page as int - 1) * (page_limit as int),
{
    proof {
        assert((page as int - 1) * (page_limit as int) <= 0x7000_0000_0000_0000 && (page as int
            - 1) * (page_limit as int) >= -0x7000_0000_0000_0000) by (nonlinear_arith)
            requires
                -0x8000_0000 <= page as int <= 0x7fff_ffff,
                -0x8000_0000 <= page_limit as int <= 0x7fff_ffff,
        ;
    }
    ((page as i64) - 1) * (page_limit as i64)
}

/// Pagination: the next page exists exactly when strictly more unfetched
/// items remain after the current page, by the source-reported total.
pub fn next_page(total: i32, page: i32, page_limit: i32) -> (r: Option<i32>)
    requires
        page < 0x7fff_ffff,
    ensures
        r is Some <==> total - page * page_limit > 0,
        r matches Some(n) ==> n == page + 1,
{
    proof {
        assert((page as int) * (page_limit as int) <= 0x4000_0000_0000_0000 && (page as int) * (
        page_limit as int) >= -0x4000_0000_0000_0000) by (nonlinear_arith)
            requires
                -0x8000_0000 <= page as int <= 0x7fff_ffff,
                -0x8000_0000 <= page_limit as int <= 0x7fff_ffff,
        ;
    }
    let remaining: i64 = (total as i64) - (page as i64) * (page_limit as i64);
    if remaining > 0 {
        Some(page + 1)
    } else {
        None
    }
}

impl OpenlibraryService {
    /// Builds an adapter bound to the source's public image origin, with the
    /// configured cover-size token and page size limit.
    pub fn new(cover_image_size: &str, page_limit: i32) -> (s: Self)
        ensures
            s.image_url@ == "https://covers.openlibrary.org"@,
            s.image_size@ == cover_image_size@,
            s.page_limit == page_limit,
    {
        OpenlibraryService {
            image_url: "https://covers.openlibrary.org".to_owned(),
            image_size: cover_image_size.to_owned(),
            page_limit,
        }
    }

    /// The languages this adapter can serve.
    pub fn supported_languages() -> (r: Vec<String>)
        ensures
            r.deep_view() == seq!["us"@],
    {
        let mut v: Vec<String> = Vec::new();
        v.push("us".to_owned());
        proof {
            assert(v.deep_view() =~= seq!["us"@]);
        }
        v
    }

    /// The language this adapter serves by default.
    pub fn default_language() -> (r: String)
        ensures
            r@ == "us"@,
    {
        "us".to_owned()
    }

    /// The URL an image identifier resolves to under one image-kind
    /// convention.
    pub fn get_cover_image_url(&self, t: &str, c: i64) -> (r: String)
        ensures
            r@ == cover_url_spec(self.image_url@, t@, c as int, self.image_size@),
    {
        cover_image_url(self.image_url.as_str(), t, c, self.image_size.as_str())
    }

    /// The book-cover URL convention.
    pub fn get_book_cover_image_url(&self, c: i64) -> (r: String)
        ensures
            r@ == cover_url_spec(self.image_url@, "b"@, c as int, self.image_size@),
    {
        self.get_cover_image_url("b", c)
    }

    /// The author-photo URL convention.
    pub fn get_author_cover_image_url(&self, c: i64) -> (r: String)
        ensures
            r@ == cover_url_spec(self.image_url@, "a"@, c as int, self.image_size@),
    {
        self.get_cover_image_url("a", c)
    }

    /// Tries the configured date formats in order; an unparseable date is
    /// absent, never an error.
    pub fn parse_date(input: &str) -> (r: Option<OlDate>)
        ensures
            crate::dates::date_opt_triple(r) == crate::dates::spec_parse_date(input@),
    {
        crate::dates::parse_date(input)
    }

    /// The author fetches `details` must make: one per author reference on
    /// the work, in source order, each with the role the reference decodes
    /// to.
    pub fn author_requests(authors: &Vec<OpenlibraryAuthorResponse>) -> (r: Vec<(String, String)>)
        ensures
            r@.len() == authors@.len(),
            forall|i: int|
                0 <= i < r@.len() ==> (#[trigger] r@[i]).0@ == author_key_role(authors@[i]).0
                    && r@[i].1@ == author_key_role(authors@[i]).1,
    {
        let mut out: Vec<(String, String)> = Vec::new();
        let mut i: usize = 0;
        while i < authors.len()
            invariant
                i <= authors@.len(),
                out@.len() == i,
                forall|k: int|
                    0 <= k < i ==> (#[trigger] out@[k]).0@ == author_key_role(authors@[k]).0
                        && out@[k].1@ == author_key_role(authors@[k]).1,
            decreases authors@.len() - i,
        {
            let kr = decode_author_ref(&authors[i]);
            out.push(kr);
            i += 1;
        }
        out
    }

    /// Normalizes the fetched author records into the creator list,
    /// preserving source order and role attribution.
    pub fn build_creators(
        &self,
        authors: &Vec<OpenlibraryAuthorResponse>,
        resolved: &Vec<OpenlibraryAuthorDetails>,
    ) -> (r: Vec<MetadataCreator>)
        requires
            resolved@.len() == authors@.len(),
        ensures
            r@.len() == authors@.len(),
            forall|i: int|
                0 <= i < r@.len() ==> creator_view(#[trigger] r@[i]) == creator_of(
                    authors@[i],
                    resolved@[i],
                    self.image_url@,
                    self.image_size@,
                ),
    {
        let mut out: Vec<MetadataCreator> = Vec::new();
        let mut i: usize = 0;
        while i < authors.len()
            invariant
                i <= authors@.len(),
                resolved@.len() == authors@.len(),
                out@.len() == i,
                forall|k: int|
                    0 <= k < i ==> creator_view(#[trigger] out@[k]) == creator_of(
                        authors@[k],
                        resolved@[k],
                        self.image_url@,
                        self.image_size@,
                    ),
            decreases authors@.len() - i,
        {
            let kr = decode_author_ref(&authors[i]);
            let d = &resolved[i];
            let image: Option<String> = match &d.photos {
                Some(ph) => {
                    match first_positive_exec(ph) {
                        Some(c) => Some(self.get_author_cover_image_url(c)),
                        None => None,
                    }
                },
                None => None,
            };
            out.push(MetadataCreator { name: d.name.clone(), role: kr.1, image });
            i += 1;
        }
        out
    }

    /// The identifier an ISBN reverse lookup yields: the canonical key of the
    /// first associated work; an empty mapping is a valid miss, never an
    /// error.
    pub fn id_from_isbn_works(works: &Vec<String>) -> (r: Option<String>)
        ensures
            match r {
                Some(k) => works@.len() > 0 && k@ == key_of(works.deep_view()[0]),
                None => works@.len() == 0,
            },
    {
        if works.len() == 0 {
            None
        } else {
            proof {
                assert(works.deep_view()[0] == works@[0]@);
            }
            Some(get_key(works[0].as_str()))
        }
    }

    /// Normalizes one decoded search response into the canonical projection:
    /// canonical identifiers, at most one image per item, and the pagination
    /// bookkeeping computed from the reported total.
    pub fn search_results_from_docs(
        &self,
        docs: &Vec<OpenlibrarySearchDoc>,
        num_found: i32,
        page: Option<i32>,
    ) -> (r: SearchResults<MediaSearchItem>)
        requires
            effective_page(page) < 0x7fff_ffff,
        ensures
            r.details.total == num_found,
            r.details.next_page is Some <==> num_found - effective_page(page) * self.page_limit
                > 0,
            r.details.next_page matches Some(n) ==> n == effective_page(page) + 1,
            r.items@.len() == docs@.len(),
            forall|i: int|
                0 <= i < docs@.len() ==> search_item_view(#[trigger] r.items@[i]) == doc_item_view(
                    docs@[i],
                    self.image_url@,
                    self.image_size@,
                ),
    {
        let page_n: i32 = match page {
            Some(p) => p,
            None => 1,
        };
        let mut items: Vec<MediaSearchItem> = Vec::new();
        let mut i: usize = 0;
        while i < docs.len()
            invariant
                i <= docs@.len(),
                items@.len() == i,
                forall|k: int|
                    0 <= k < i ==> search_item_view(#[trigger] items@[k]) == doc_item_view(
                        docs@[k],
                        self.image_url@,
                        self.image_size@,
                    ),
            decreases docs@.len() - i,
        {
            let d = &docs[i];
            let image: Option<String> = match d.cover_i {
                Some(c) => Some(self.get_book_cover_image_url(c)),
                None => None,
            };
            let item = MediaSearchItem {
                identifier: get_key(d.key.as_str()),
                title: d.title.clone(),
                image,
                publish_year: d.first_publish_year,
            };
            items.push(item);
            i += 1;
        }
        SearchResults {
            details: SearchDetails { total: num_found, next_page: next_page(num_found, page_n, self.page_limit) },
            items,
        }
    }

    /// Assembles the canonical record from the decoded work, its editions,
    /// the fetched author records (one per author reference, in order), and
    /// the best-effort related-works fragment (`None` when its fetch failed:
    /// suggestions degrade to empty, never to a failed call).
    pub fn details_from_parts(
        &self,
        work: &OpenlibraryWork,
        editions: &Vec<OpenlibraryEdition>,
        resolved_authors: &Vec<OpenlibraryAuthorDetails>,
        html: Option<&str>,
    ) -> (r: MediaDetails)
        requires
            resolved_authors@.len() == opt_authors(work.authors).len(),
            editions@.len() < 0x1_0000_0000,
        ensures
            r.identifier@ == key_of(work.key@),
            r.title@ == work.title@,
            r.production_status@ == "Released"@,
            r.description.deep_view() == match work.description {
                Some(d) => Some(description_text(d)),
                None => None::<Seq<char>>,
            },
            r.lot == MetadataLot::Book,
            r.source == MetadataSource::Openlibrary,
            r.creators@.len() == opt_authors(work.authors).len(),
            forall|i: int|
                0 <= i < r.creators@.len() ==> creator_view(#[trigger] r.creators@[i])
                    == creator_of(
                    opt_authors(work.authors)[i],
                    resolved_authors@[i],
                    self.image_url@,
                    self.image_size@,
                ),
            r.genres.deep_view() == genres_of(opt_subjects(work.subjects)),
            image_urls(r.images@) == dedup_first_seen(
                book_cover_urls(
                    positives(opt_ids(work.covers) + edition_cover_ids(editions@)),
                    self.image_url@,
                    self.image_size@,
                ),
            ),
            forall|p: int, q: int|
                0 <= p < q < r.images@.len() ==> stored_url_text(r.images@[p].url)
                    != stored_url_text(r.images@[q].url),
            forall|k: int| 0 <= k < r.images@.len() ==> r.images@[k].lot == MetadataImageLot::Poster,
            r.publish_year is Some <==> parsed_dates_of(editions@).len() > 0,
            r.publish_year matches Some(y) ==> exists|t: (int, int, int)|
                #[trigger] parsed_dates_of(editions@).contains(t) && t.0 == y && forall|k: int|
                    0 <= k < parsed_dates_of(editions@).len() ==> triple_le(
                        t,
                        parsed_dates_of(editions@)[k],
                    ),
            r.specifics matches MediaSpecifics::Book(b) && b.pages matches Some(p) && p as int
                == average_pages_spec(editions@),
            match html {
                None => r.suggestions@.len() == 0,
                Some(h) => r.suggestions@.map_values(|p: PartialMetadata| partial_view(p))
                    == suggestions_of(carousel_fragments_of(h@)) && forall|k: int|
                    0 <= k < r.suggestions@.len() ==> (#[trigger] r.suggestions@[k]).lot
                        == MetadataLot::Book && r.suggestions@[k].source
                        == MetadataSource::Openlibrary,
            },
            r.publish_date is None,
            r.provider_rating is None,
            r.videos@.len() == 0,
            r.groups@.len() == 0,
            r.is_nsfw is None,
    {
        let identifier = get_key(work.key.as_str());
        let description: Option<String> = match &work.description {
            Some(d) => Some(decode_description(d)),
            None => None,
        };
        let creators: Vec<MetadataCreator> = match &work.authors {
            Some(authors) => self.build_creators(authors, resolved_authors),
            None => Vec::new(),
        };
        let genres: Vec<String> = match &work.subjects {
            Some(subjects) => genres_from_subjects(subjects),
            None => {
                let g: Vec<String> = Vec::new();
                proof {
                    assert(g.deep_view() =~= Seq::<Seq<char>>::empty());
                    assert(genres_of(Seq::<Seq<char>>::empty()) =~= Seq::<Seq<char>>::empty());
                }
                g
            },
        };
        let images = collect_images(
            &work.covers,
            editions,
            self.image_url.as_str(),
            self.image_size.as_str(),
        );
        let first_date = first_release_date(editions);
        let publish_year: Option<i32> = match first_date {
            Some(d) => Some(d.year),
            None => None,
        };
        let pages = average_pages(editions);
        let suggestions: Vec<PartialMetadata> = match html {
            Some(h) => extract_suggestions(h),
            None => Vec::new(),
        };
        proof {
            if first_date is Some {
                let m = first_date->Some_0;
                assert(parsed_dates_of(editions@).contains(date_triple(m)));
            }
        }
        MediaDetails {
            identifier,
            title: work.title.clone(),
            production_status: "Released".to_owned(),
            description,
            lot: MetadataLot::Book,
            source: MetadataSource::Openlibrary,
            creators,
            genres,
            images,
            publish_year,
            publish_date: None,
            specifics: MediaSpecifics::Book(crate::models::BookSpecifics { pages: Some(pages) }),
            suggestions,
            provider_rating: None,
            videos: Vec::new(),
            groups: Vec::new(),
            is_nsfw: None,
        }
    }
}

} // verus!
