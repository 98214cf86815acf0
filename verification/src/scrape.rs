//! The HTML fallback extractor: a narrow scraper for the source's
//! related-works carousel. The outside HTML queries sit behind trusted
//! wrappers; the per-item rules (skip an unreadable item, derive the title
//! from the alternate text, reduce the link target to the canonical
//! identifier) are verified.

use vstd::prelude::*;
use crate::models::{MetadataLot, MetadataSource, PartialMetadata};
use crate::text::{get_key, key_of, prefix_to_by, title_before_by, trim_spec, trim_str};

verus! {

/// What the outside HTML parser finds in a fragment: the serialized HTML of
/// each `.book.carousel__item` element, in document order.
pub uninterp spec fn carousel_fragments_of(html: Seq<char>) -> Seq<Seq<char>>;

/// Relies on scraper's `Html::parse_document`, `Selector::parse` and
/// `Html::select`: the serialized HTML (`ElementRef::html`) of each
/// `.book.carousel__item` element, in document order. The selector text is a
/// fixed, valid CSS selector, so parsing it cannot fail.
#[verifier::external_body]
fn carousel_fragments(html: &str) -> (r: Vec<String>)
    ensures
        r.deep_view() == carousel_fragments_of(html@),
{
    let doc = scraper::Html::parse_document(html);
    let sel = scraper::Selector::parse(".book.carousel__item").unwrap();
    doc.select(&sel).map(|e| e.html()).collect()
}

/// The link target of the first anchor of a carousel item, if any.
pub uninterp spec fn anchor_href_of(fragment: Seq<char>) -> Option<Seq<char>>;

/// Relies on scraper's `Html::parse_fragment`, `Selector::parse`,
/// `Html::select` and `Element::attr`: the `href` attribute of the first
/// `a[href]` element of the fragment. The selector text is fixed and valid.
#[verifier::external_body]
fn fragment_anchor_href(fragment: &str) -> (r: Option<String>)
    ensures
        r.deep_view() == anchor_href_of(fragment@),
{
    let doc = scraper::Html::parse_fragment(fragment);
    let sel = scraper::Selector::parse("a[href]").unwrap();
    doc.select(&sel).next().and_then(|a| a.value().attr("href")).map(|s| s.to_string())
}

/// The alternate text of the first book-cover image of a carousel item.
pub uninterp spec fn cover_alt_of(fragment: Seq<char>) -> Option<Seq<char>>;

/// Relies on scraper's `Html::parse_fragment`, `Selector::parse`,
/// `Html::select` and `Element::attr`: the `alt` attribute of the first
/// `img.bookcover` element of the fragment. The selector text is fixed and
/// valid.
#[verifier::external_body]
fn fragment_cover_alt(fragment: &str) -> (r: Option<String>)
    ensures
        r.deep_view() == cover_alt_of(fragment@),
{
    let doc = scraper::Html::parse_fragment(fragment);
    let sel = scraper::Selector::parse("img.bookcover").unwrap();
    doc.select(&sel).next().and_then(|img| img.value().attr("alt")).map(|s| s.to_string())
}

/// The image location of the first book-cover image of a carousel item.
pub uninterp spec fn cover_src_of(fragment: Seq<char>) -> Option<Seq<char>>;

/// Relies on scraper's `Html::parse_fragment`, `Selector::parse`,
/// `Html::select` and `Element::attr`: the `src` attribute of the first
/// `img.bookcover` element of the fragment. The selector text is fixed and
/// valid.
#[verifier::external_body]
fn fragment_cover_src(fragment: &str) -> (r: Option<String>)
    ensures
        r.deep_view() == cover_src_of(fragment@),
{
    let doc = scraper::Html::parse_fragment(fragment);
    let sel = scraper::Selector::parse("img.bookcover").unwrap();
    doc.select(&sel).next().and_then(|img| img.value().attr("src")).map(|s| s.to_string())
}

/// The suggestion one carousel item yields: its identifier reduced to
/// canonical form, its title taken from the alternate text before `" by "`
/// and trimmed, and its optional image. An item without an anchor or without
/// an image tag yields nothing and is skipped alone.
pub open spec fn suggestion_of(frag: Seq<char>) -> Option<(Seq<char>, Option<Seq<char>>, Seq<char>)> {
    match (anchor_href_of(frag), cover_alt_of(frag)) {
        (Some(href), Some(alt)) => Some(
            (trim_spec(prefix_to_by(alt)), cover_src_of(frag), key_of(href)),
        ),
        _ => None,
    }
}

/// The suggestions of a list of carousel items, in order; unreadable items
/// contribute nothing.
pub open spec fn suggestions_of(frags: Seq<Seq<char>>) -> Seq<
    (Seq<char>, Option<Seq<char>>, Seq<char>),
>
    decreases frags.len(),
{
    if frags.len() == 0 {
        Seq::<(Seq<char>, Option<Seq<char>>, Seq<char>)>::empty()
    } else {
        suggestions_of(frags.drop_last()) + (match suggestion_of(frags.last()) {
            Some(t) => seq![t],
            None => Seq::<(Seq<char>, Option<Seq<char>>, Seq<char>)>::empty(),
        })
    }
}

/// The (title, image, identifier) triple of a suggestion record.
pub open spec fn partial_view(p: PartialMetadata) -> (Seq<char>, Option<Seq<char>>, Seq<char>) {
    (p.title@, p.image.deep_view(), p.identifier@)
}

/// Extracts related-work suggestions from the carousel fragment. Items whose
/// structure does not match are skipped silently; an empty match set yields
/// an empty list, never an error.
pub fn extract_suggestions(html: &str) -> (r: Vec<PartialMetadata>)
    ensures
        r@.map_values(|p: PartialMetadata| partial_view(p)) == suggestions_of(
            carousel_fragments_of(html@),
        ),
        forall|k: int|
            0 <= k < r@.len() ==> r@[k].lot == MetadataLot::Book && r@[k].source
                == MetadataSource::Openlibrary,
{
    let frags = carousel_fragments(html);
    let mut out: Vec<PartialMetadata> = Vec::new();
    let mut i: usize = 0;
    proof {
        assert(frags.deep_view().take(0) =~= Seq::<Seq<char>>::empty());
        assert(out@.map_values(|p: PartialMetadata| partial_view(p)) =~= suggestions_of(
            frags.deep_view().take(0),
        ));
    }
    while i < frags.len()
        invariant
            i <= frags@.len(),
            frags@.len() == frags.deep_view().len(),
            frags.deep_view() == carousel_fragments_of(html@),
            out@.map_values(|p: PartialMetadata| partial_view(p)) == suggestions_of(
                frags.deep_view().take(i as int),
            ),
            forall|k: int|
                0 <= k < out@.len() ==> out@[k].lot == MetadataLot::Book && out@[k].source
                    == MetadataSource::Openlibrary,
        decreases frags@.len() - i,
    {
        let frag = &frags[i];
        let ghost fv = frags.deep_view()[i as int];
        proof {
            assert(fv == frags@[i as int]@);
            assert(frags.deep_view().take(i as int + 1).drop_last() =~= frags.deep_view().take(
                i as int,
            ));
            assert(frags.deep_view().take(i as int + 1).last() == fv);
        }
        let ghost pre = suggestions_of(frags.deep_view().take(i as int));
        let href = fragment_anchor_href(frag.as_str());
        let alt = fragment_cover_alt(frag.as_str());
        match (href, alt) {
            (Some(h), Some(a)) => {
                let before = title_before_by(a.as_str());
                let title = trim_str(before.as_str()).to_owned();
                let image = fragment_cover_src(frag.as_str());
                let identifier = get_key(h.as_str());
                let ghost prev = out@.map_values(|p: PartialMetadata| partial_view(p));
                out.push(
                    PartialMetadata {
                        title,
                        image,
                        identifier,
                        lot: MetadataLot::Book,
                        source: MetadataSource::Openlibrary,
                    },
                );
                proof {
                    let t = suggestion_of(fv)->Some_0;
                    assert(suggestions_of(frags.deep_view().take(i as int + 1)) =~= pre + seq![t]);
                    assert(out@.map_values(|p: PartialMetadata| partial_view(p)) =~~= prev.push(t));
                }
            },
            _ => {
                proof {
                    assert(suggestions_of(frags.deep_view().take(i as int + 1)) =~= pre);
                }
            },
        }
        i += 1;
    }
    proof {
        assert(frags.deep_view().take(frags.deep_view().len() as int) =~= frags.deep_view());
    }
    out
}

/// Extraction distributes over item concatenation.
pub proof fn lemma_suggestions_append(a: Seq<Seq<char>>, b: Seq<Seq<char>>)
    ensures
        suggestions_of(a + b) == suggestions_of(a) + suggestions_of(b),
    decreases b.len(),
{
    if b.len() == 0 {
        assert(a + b =~= a);
        assert(suggestions_of(a) + suggestions_of(b) =~= suggestions_of(a));
    } else {
        lemma_suggestions_append(a, b.drop_last());
        assert((a + b).drop_last() =~= a + b.drop_last());
        assert((a + b).last() == b.last());
        assert(suggestions_of(a + b) =~= suggestions_of(a) + suggestions_of(b));
    }
}

/// Extraction is tolerant: an empty match set yields no suggestions, and an
/// item the extractor cannot read is skipped alone — the suggestions of the
/// items around it are exactly those it would yield without the bad item.
pub proof fn lemma_extraction_tolerant(a: Seq<Seq<char>>, bad: Seq<char>, b: Seq<Seq<char>>)
    requires
        suggestion_of(bad) is None,
    ensures
        suggestions_of(Seq::<Seq<char>>::empty()) == Seq::<(
            Seq<char>,
            Option<Seq<char>>,
            Seq<char>,
        )>::empty(),
        suggestions_of(a + seq![bad] + b) == suggestions_of(a + b),
{
    lemma_suggestions_append(a + seq![bad], b);
    lemma_suggestions_append(a, seq![bad]);
    lemma_suggestions_append(a, b);
    assert(seq![bad].drop_last() =~= Seq::<Seq<char>>::empty());
    assert(seq![bad].last() == bad);
    assert(suggestions_of(Seq::<Seq<char>>::empty()) =~= Seq::<(
        Seq<char>,
        Option<Seq<char>>,
        Seq<char>,
    )>::empty());
    assert(suggestions_of(seq![bad]) =~= Seq::<(Seq<char>, Option<Seq<char>>, Seq<char>)>::empty());
    assert(suggestions_of(a) + suggestions_of(seq![bad]) =~= suggestions_of(a));
}

} // verus!
