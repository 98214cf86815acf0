//! Pure normalizers: page-count averaging, earliest-release-date selection,
//! image URL synthesis and first-seen deduplication.

use vstd::prelude::*;
use crate::dates::{date_triple, parse_date, date_le, spec_parse_date, triple_le, OlDate};
use crate::decode::OpenlibraryEdition;
use crate::models::{stored_url_text, MetadataImage, MetadataImageLot, StoredUrl};
use crate::text::dec_str;
use vstd::arithmetic::div_mod::{lemma_div_is_ordered, lemma_div_multiples_vanish};

verus! {

/// The page counts reported by a list of editions, in order; editions that
/// report none contribute nothing.
pub open spec fn pages_of(eds: Seq<OpenlibraryEdition>) -> Seq<int>
    decreases eds.len(),
{
    if eds.len() == 0 {
        Seq::<int>::empty()
    } else {
        pages_of(eds.drop_last()) + (match eds.last().number_of_pages {
            Some(p) => seq![p as int],
            None => Seq::<int>::empty(),
        })
    }
}

/// The sum of a sequence of integers.
pub open spec fn sum_of(s: Seq<int>) -> int
    decreases s.len(),
{
    if s.len() == 0 {
        0
    } else {
        sum_of(s.drop_last()) + s.last()
    }
}

/// Integer division truncating toward zero.
pub open spec fn trunc_div(a: int, b: int) -> int {
    if a >= 0 {
        a / b
    } else {
        -((-a) / b)
    }
}

/// The truncated integer mean of the page counts that editions report, and 0
/// when none reports one.
pub open spec fn average_pages_spec(eds: Seq<OpenlibraryEdition>) -> int {
    let ps = pages_of(eds);
    if ps.len() == 0 {
        0
    } else {
        trunc_div(sum_of(ps), ps.len() as int)
    }
}

/// Averages the page counts across the editions that report one, truncating;
/// 0 when no edition reports a page count.
pub fn average_pages(editions: &Vec<OpenlibraryEdition>) -> (r: i32)
    requires
        editions@.len() < 0x1_0000_0000,
    ensures
        r as int == average_pages_spec(editions@),
{
    let n = editions.len();
    let mut sum: i64 = 0;
    let mut count: u64 = 0;
    let mut i: usize = 0;
    proof {
        assert(editions@.take(0) =~= Seq::<OpenlibraryEdition>::empty());
    }
    while i < n
        invariant
            i <= n,
            n == editions@.len() < 0x1_0000_0000,
            count == pages_of(editions@.take(i as int)).len(),
            sum as int == sum_of(pages_of(editions@.take(i as int))),
            count <= i,
            (-0x8000_0000) * (count as int) <= sum as int <= 0x7fff_ffff * (count as int),
        decreases n - i,
    {
        let ghost pre = pages_of(editions@.take(i as int));
        let e = &editions[i];
        proof {
            assert(editions@.take(i as int + 1).drop_last() =~= editions@.take(i as int));
            assert(editions@.take(i as int + 1).last() == editions@[i as int]);
        }
        match e.number_of_pages {
            Some(p) => {
                proof {
                    assert(pages_of(editions@.take(i as int + 1)) =~= pre + seq![p as int]);
                    assert((pre + seq![p as int]).drop_last() =~= pre);
                }
                sum = sum + p as i64;
                count = count + 1;
            },
            None => {
                proof {
                    assert(pages_of(editions@.take(i as int + 1)) =~= pre);
                }
            },
        }
        i += 1;
    }
    proof {
        assert(editions@.take(n as int) =~= editions@);
    }
    if count == 0 {
        0
    } else {
        let ghost s = sum as int;
        let ghost c = count as int;
        if sum >= 0 {
            let q: u64 = (sum as u64) / count;
            proof {
                lemma_div_is_ordered(s, 0x7fff_ffff * c, c);
                lemma_div_multiples_vanish(0x7fff_ffff, c);
            }
            q as i32
        } else {
            let mag: u64 = (-sum) as u64;
            let q: u64 = mag / count;
            proof {
                lemma_div_is_ordered(-s, 0x8000_0000 * c, c);
                lemma_div_multiples_vanish(0x8000_0000, c);
            }
            let neg: i64 = -(q as i64);
            neg as i32
        }
    }
}

/// The dates that successfully parse across a list of editions, in order;
/// absent and unparsable dates contribute nothing.
pub open spec fn parsed_dates_of(eds: Seq<OpenlibraryEdition>) -> Seq<(int, int, int)>
    decreases eds.len(),
{
    if eds.len() == 0 {
        Seq::<(int, int, int)>::empty()
    } else {
        parsed_dates_of(eds.drop_last()) + (match eds.last().publish_date {
            Some(s) => match spec_parse_date(s@) {
                Some(t) => seq![t],
                None => Seq::<(int, int, int)>::empty(),
            },
            None => Seq::<(int, int, int)>::empty(),
        })
    }
}

/// The earliest successfully parsed publish date across the editions;
/// unparsable dates are ignored, never an error.
pub fn first_release_date(editions: &Vec<OpenlibraryEdition>) -> (r: Option<OlDate>)
    ensures
        match r {
            None => parsed_dates_of(editions@).len() == 0,
            Some(m) => parsed_dates_of(editions@).contains(date_triple(m)) && forall|k: int|
                0 <= k < parsed_dates_of(editions@).len() ==> triple_le(
                    date_triple(m),
                    parsed_dates_of(editions@)[k],
                ),
        },
{
    let n = editions.len();
    let mut best: Option<OlDate> = None;
    let mut i: usize = 0;
    proof {
        assert(editions@.take(0) =~= Seq::<OpenlibraryEdition>::empty());
    }
    while i < n
        invariant
            i <= n,
            n == editions@.len(),
            match best {
                None => parsed_dates_of(editions@.take(i as int)).len() == 0,
                Some(m) => parsed_dates_of(editions@.take(i as int)).contains(date_triple(m))
                    && forall|k: int|
                    0 <= k < parsed_dates_of(editions@.take(i as int)).len() ==> triple_le(
                        date_triple(m),
                        parsed_dates_of(editions@.take(i as int))[k],
                    ),
            },
        decreases n - i,
    {
        let ghost pre = parsed_dates_of(editions@.take(i as int));
        let e = &editions[i];
        proof {
            assert(editions@.take(i as int + 1).drop_last() =~= editions@.take(i as int));
            assert(editions@.take(i as int + 1).last() == editions@[i as int]);
        }
        let parsed: Option<OlDate> = match &e.publish_date {
            Some(s) => parse_date(s.as_str()),
            None => None,
        };
        let ghost cur = parsed_dates_of(editions@.take(i as int + 1));
        proof {
            match parsed {
                Some(d) => {
                    assert(cur =~= pre + seq![date_triple(d)]);
                },
                None => {
                    assert(cur =~= pre);
                },
            }
        }
        match parsed {
            Some(d) => {
                match best {
                    None => {
                        best = Some(d);
                        proof {
                            assert(cur[pre.len() as int] == date_triple(d));
                            assert(forall|k: int| 0 <= k < cur.len() ==> cur[k] == date_triple(d));
                        }
                    },
                    Some(b) => {
                        if date_le(&d, &b) {
                            best = Some(d);
                            proof {
                                assert(cur[pre.len() as int] == date_triple(d));
                                assert(forall|k: int|
                                    0 <= k < pre.len() ==> cur[k] == pre[k] && triple_le(
                                        date_triple(b),
                                        pre[k],
                                    ));
                            }
                        } else {
                            proof {
                                let j = choose|j: int|
                                    0 <= j < pre.len() && pre[j] == date_triple(b);
                                assert(cur[j] == date_triple(b));
                                assert(cur[pre.len() as int] == date_triple(d));
                            }
                        }
                    },
                }
            },
            None => {},
        }
        i += 1;
    }
    proof {
        assert(editions@.take(n as int) =~= editions@);
    }
    best
}

/// The URL an image identifier resolves to under the source's storage
/// convention: `{base}/{kind}/id/{id}-{size}.jpg?default=false`.
pub open spec fn cover_url_spec(base: Seq<char>, kind: Seq<char>, id: int, size: Seq<char>) -> Seq<
    char,
> {
    base + "/"@ + kind + "/id/"@ + dec_str(id) + "-"@ + size + ".jpg?default=false"@
}

/// Synthesizes the image URL for one identifier.
pub fn cover_image_url(base: &str, kind: &str, id: i64, size: &str) -> (r: String)
    ensures
        r@ == cover_url_spec(base@, kind@, id as int, size@),
{
    let mut s = base.to_owned();
    s.append("/");
    s.append(kind);
    s.append("/id/");
    let num = crate::text::i64_to_string(id);
    s.append(num.as_str());
    s.append("-");
    s.append(size);
    s.append(".jpg?default=false");
    proof {
        assert(s@ =~= cover_url_spec(base@, kind@, id as int, size@));
    }
    s
}

/// The identifiers of an optional cover list.
pub open spec fn opt_ids(c: Option<Vec<i64>>) -> Seq<i64> {
    match c {
        Some(v) => v@,
        None => Seq::<i64>::empty(),
    }
}

/// The cover identifiers of a list of editions, in order.
pub open spec fn edition_cover_ids(eds: Seq<OpenlibraryEdition>) -> Seq<i64>
    decreases eds.len(),
{
    if eds.len() == 0 {
        Seq::<i64>::empty()
    } else {
        edition_cover_ids(eds.drop_last()) + opt_ids(eds.last().covers)
    }
}

/// The strictly positive identifiers of a list, in order; non-positive ones
/// are invalid and excluded.
pub open spec fn positives(s: Seq<i64>) -> Seq<i64>
    decreases s.len(),
{
    if s.len() == 0 {
        Seq::<i64>::empty()
    } else {
        positives(s.drop_last()) + (if s.last() > 0 {
            seq![s.last()]
        } else {
            Seq::<i64>::empty()
        })
    }
}

/// The book-cover URLs of a list of identifiers, in order.
pub open spec fn book_cover_urls(ids: Seq<i64>, base: Seq<char>, size: Seq<char>) -> Seq<Seq<char>>
    decreases ids.len(),
{
    if ids.len() == 0 {
        Seq::<Seq<char>>::empty()
    } else {
        book_cover_urls(ids.drop_last(), base, size) + seq![
            cover_url_spec(base, "b"@, ids.last() as int, size),
        ]
    }
}

/// Deduplication keeping the first occurrence of each element, in first-seen
/// order.
pub open spec fn dedup_first_seen(s: Seq<Seq<char>>) -> Seq<Seq<char>>
    decreases s.len(),
{
    if s.len() == 0 {
        s
    } else if s.drop_last().contains(s.last()) {
        dedup_first_seen(s.drop_last())
    } else {
        dedup_first_seen(s.drop_last()) + seq![s.last()]
    }
}

/// Deduplication keeps exactly the elements of its input.
pub proof fn lemma_dedup_contains(s: Seq<Seq<char>>, x: Seq<char>)
    ensures
        dedup_first_seen(s).contains(x) == s.contains(x),
    decreases s.len(),
{
    if s.len() == 0 {
    } else {
        let d = s.drop_last();
        lemma_dedup_contains(d, x);
        if s.contains(x) {
            let j = choose|j: int| 0 <= j < s.len() && s[j] == x;
            if j < d.len() {
                assert(d[j] == x);
            }
        }
        if d.contains(x) {
            let j = choose|j: int| 0 <= j < d.len() && d[j] == x;
            assert(s[j] == x);
        }
        if !d.contains(s.last()) {
            let dd = dedup_first_seen(d) + seq![s.last()];
            if dd.contains(x) {
                let j = choose|j: int| 0 <= j < dd.len() && dd[j] == x;
                if j < dedup_first_seen(d).len() {
                    assert(dedup_first_seen(d)[j] == x);
                } else {
                    assert(x == s.last());
                    assert(s[s.len() - 1] == x);
                }
            }
            if x == s.last() {
                assert(dd[dedup_first_seen(d).len() as int] == x);
            }
            if dedup_first_seen(d).contains(x) {
                let j = choose|j: int| 0 <= j < dedup_first_seen(d).len() && dedup_first_seen(
                    d,
                )[j] == x;
                assert(dd[j] == x);
            }
        }
    }
}

/// A deduplicated list holds no element twice.
pub proof fn lemma_dedup_no_dup(s: Seq<Seq<char>>)
    ensures
        forall|p: int, q: int|
            0 <= p < q < dedup_first_seen(s).len() ==> dedup_first_seen(s)[p] != dedup_first_seen(
                s,
            )[q],
    decreases s.len(),
{
    if s.len() == 0 {
    } else {
        let d = s.drop_last();
        lemma_dedup_no_dup(d);
        if !d.contains(s.last()) {
            lemma_dedup_contains(d, s.last());
            let dd = dedup_first_seen(d) + seq![s.last()];
            assert forall|p: int, q: int| 0 <= p < q < dd.len() implies dd[p] != dd[q] by {
                if q < dedup_first_seen(d).len() {
                    assert(dd[p] == dedup_first_seen(d)[p]);
                    assert(dd[q] == dedup_first_seen(d)[q]);
                } else {
                    assert(dd[q] == s.last());
                    assert(dd[p] == dedup_first_seen(d)[p]);
                    assert(dedup_first_seen(d).contains(dedup_first_seen(d)[p]));
                }
            }
        }
    }
}

/// The resolved URL texts of a list of images.
pub open spec fn image_urls(imgs: Seq<MetadataImage>) -> Seq<Seq<char>> {
    imgs.map_values(|m: MetadataImage| stored_url_text(m.url))
}

fn contains_image_url(v: &Vec<MetadataImage>, u: &String) -> (r: bool)
    ensures
        r == image_urls(v@).contains(u@),
{
    let mut j: usize = 0;
    while j < v.len()
        invariant
            j <= v@.len(),
            forall|k: int| 0 <= k < j ==> image_urls(v@)[k] != u@,
        decreases v@.len() - j,
    {
        let item = &v[j];
        proof {
            assert(image_urls(v@)[j as int] == stored_url_text(v@[j as int].url));
        }
        match &item.url {
            StoredUrl::Url(s) => {
                if s.eq(u) {
                    proof {
                        assert(stored_url_text(item.url) == s@);
                        assert(image_urls(v@)[j as int] == u@);
                    }
                    return true;
                }
                proof {
                    assert(stored_url_text(item.url) == s@);
                    assert(image_urls(v@)[j as int] != u@);
                }
            },
        }
        j += 1;
    }
    proof {
        assert(forall|k: int| 0 <= k < v@.len() ==> image_urls(v@)[k] != u@);
    }
    false
}

/// Collects the cover identifiers of the work record and of every edition,
/// excludes non-positive identifiers, resolves each to its URL, and keeps the
/// first occurrence of each resolved URL in first-seen order.
pub fn collect_images(
    work_covers: &Option<Vec<i64>>,
    editions: &Vec<OpenlibraryEdition>,
    base: &str,
    size: &str,
) -> (r: Vec<MetadataImage>)
    ensures
        image_urls(r@) == dedup_first_seen(
            book_cover_urls(
                positives(opt_ids(*work_covers) + edition_cover_ids(editions@)),
                base@,
                size@,
            ),
        ),
        forall|k: int| 0 <= k < r@.len() ==> r@[k].lot == MetadataImageLot::Poster,
        forall|p: int, q: int|
            0 <= p < q < r@.len() ==> stored_url_text(r@[p].url) != stored_url_text(r@[q].url),
{
    let mut ids: Vec<i64> = Vec::new();
    match work_covers {
        Some(v) => {
            let mut i: usize = 0;
            while i < v.len()
                invariant
                    i <= v@.len(),
                    ids@ == v@.take(i as int),
                decreases v@.len() - i,
            {
                ids.push(v[i]);
                proof {
                    assert(ids@ =~= v@.take(i as int + 1));
                }
                i += 1;
            }
            proof {
                assert(v@.take(v@.len() as int) =~= v@);
            }
        },
        None => {},
    }
    proof {
        assert(ids@ =~= opt_ids(*work_covers));
        assert(editions@.take(0) =~= Seq::<OpenlibraryEdition>::empty());
        assert(ids@ =~= opt_ids(*work_covers) + edition_cover_ids(editions@.take(0)));
    }
    let mut i: usize = 0;
    while i < editions.len()
        invariant
            i <= editions@.len(),
            ids@ == opt_ids(*work_covers) + edition_cover_ids(editions@.take(i as int)),
        decreases editions@.len() - i,
    {
        let ghost pre = ids@;
        proof {
            assert(editions@.take(i as int + 1).drop_last() =~= editions@.take(i as int));
            assert(editions@.take(i as int + 1).last() == editions@[i as int]);
        }
        let e = &editions[i];
        match &e.covers {
            Some(cv) => {
                let mut j: usize = 0;
                while j < cv.len()
                    invariant
                        j <= cv@.len(),
                        ids@ == pre + cv@.take(j as int),
                    decreases cv@.len() - j,
                {
                    ids.push(cv[j]);
                    proof {
                        assert(ids@ =~= pre + cv@.take(j as int + 1));
                    }
                    j += 1;
                }
                proof {
                    assert(cv@.take(cv@.len() as int) =~= cv@);
                }
            },
            None => {},
        }
        proof {
            assert(ids@ =~= opt_ids(*work_covers) + edition_cover_ids(editions@.take(i as int + 1)));
        }
        i += 1;
    }
    proof {
        assert(editions@.take(editions@.len() as int) =~= editions@);
    }
    // ids now holds every cover identifier in source order.
    let mut out: Vec<MetadataImage> = Vec::new();
    let mut k: usize = 0;
    proof {
        assert(ids@.take(0) =~= Seq::<i64>::empty());
        assert(image_urls(out@) =~= dedup_first_seen(
            book_cover_urls(positives(ids@.take(0)), base@, size@),
        ));
    }
    while k < ids.len()
        invariant
            k <= ids@.len(),
            image_urls(out@) == dedup_first_seen(
                book_cover_urls(positives(ids@.take(k as int)), base@, size@),
            ),
            forall|t: int| 0 <= t < out@.len() ==> out@[t].lot == MetadataImageLot::Poster,
        decreases ids@.len() - k,
    {
        let c = ids[k];
        let ghost pos_pre = positives(ids@.take(k as int));
        let ghost urls_pre = book_cover_urls(pos_pre, base@, size@);
        proof {
            assert(ids@.take(k as int + 1).drop_last() =~= ids@.take(k as int));
            assert(ids@.take(k as int + 1).last() == ids@[k as int]);
        }
        if c > 0 {
            proof {
                assert(positives(ids@.take(k as int + 1)) =~= pos_pre + seq![c]);
                assert((pos_pre + seq![c]).drop_last() =~= pos_pre);
                assert(book_cover_urls(pos_pre + seq![c], base@, size@) =~= urls_pre + seq![
                    cover_url_spec(base@, "b"@, c as int, size@),
                ]);
                assert((urls_pre + seq![cover_url_spec(base@, "b"@, c as int, size@)]).drop_last()
                    =~= urls_pre);
            }
            let url = cover_image_url(base, "b", c, size);
            if !contains_image_url(&out, &url) {
                proof {
                    lemma_dedup_contains(urls_pre, url@);
                }
                let ghost prev_urls = image_urls(out@);
                out.push(MetadataImage { url: StoredUrl::Url(url), lot: MetadataImageLot::Poster });
                proof {
                    assert(image_urls(out@) =~~= prev_urls.push(
                        cover_url_spec(base@, "b"@, c as int, size@),
                    ));
                }
            } else {
                proof {
                    lemma_dedup_contains(urls_pre, url@);
                }
            }
        } else {
            proof {
                assert(positives(ids@.take(k as int + 1)) =~= pos_pre);
            }
        }
        k += 1;
    }
    proof {
        assert(ids@.take(ids@.len() as int) =~= ids@);
        lemma_dedup_no_dup(book_cover_urls(positives(ids@), base@, size@));
        assert forall|p: int, q: int| 0 <= p < q < out@.len() implies stored_url_text(out@[p].url)
            != stored_url_text(out@[q].url) by {
            assert(image_urls(out@)[p] == stored_url_text(out@[p].url));
            assert(image_urls(out@)[q] == stored_url_text(out@[q].url));
        }
    }
    out
}

} // verus!
