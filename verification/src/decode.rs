//! Response decoders: the intermediate structures one source endpoint can
//! answer with, and the rules that absorb its shape variance (flat or nested
//! author references, plain or nested descriptions, multi-valued subjects)
//! into one internal representation.

use vstd::prelude::*;
use crate::text::{split_subject, split_subject_exec};

verus! {

/// An author reference on a work record: either a bare key, or a structured
/// object carrying a key and an optional role.
#[derive(Debug, Clone, PartialEq, Eq)]
pub enum OpenlibraryAuthorResponse {
    Flat { key: String },
    Nested { key: String, role: Option<String> },
}

/// A work description: either plain text, or an object with a type tag and a
/// value.
#[derive(Debug, Clone, PartialEq, Eq)]
pub enum OpenlibraryDescription {
    Text(String),
    Nested { tag: String, value: String },
}

/// The decoded work record.
#[derive(Debug, Clone, PartialEq, Eq)]
pub struct OpenlibraryWork {
    pub key: String,
    pub title: String,
    pub description: Option<OpenlibraryDescription>,
    pub covers: Option<Vec<i64>>,
    pub authors: Option<Vec<OpenlibraryAuthorResponse>>,
    pub subjects: Option<Vec<String>>,
}

/// One decoded edition of a work.
#[derive(Debug, Clone, PartialEq, Eq)]
pub struct OpenlibraryEdition {
    pub publish_date: Option<String>,
    pub number_of_pages: Option<i32>,
    pub covers: Option<Vec<i64>>,
}

/// The decoded author record fetched per author reference.
#[derive(Debug, Clone, PartialEq, Eq)]
pub struct OpenlibraryAuthorDetails {
    pub name: String,
    pub photos: Option<Vec<i64>>,
}

/// One decoded document of a search response.
#[derive(Debug, Clone, PartialEq, Eq)]
pub struct OpenlibrarySearchDoc {
    pub key: String,
    pub title: String,
    pub author_name: Option<Vec<String>>,
    pub cover_i: Option<i64>,
    pub first_publish_year: Option<i32>,
}

/// The key and role an author reference decodes to: a bare key gets the
/// default role, a structured reference keeps its role when it carries one.
pub open spec fn author_key_role(a: OpenlibraryAuthorResponse) -> (Seq<char>, Seq<char>) {
    match a {
        OpenlibraryAuthorResponse::Flat { key } => (key@, "Author"@),
        OpenlibraryAuthorResponse::Nested { key, role } => (
            key@,
            match role {
                Some(r) => r@,
                None => "Author"@,
            },
        ),
    }
}

/// Decodes an author reference of either known shape to `(key, role)`,
/// defaulting the role to `"Author"` when the source gives none.
pub fn decode_author_ref(a: &OpenlibraryAuthorResponse) -> (r: (String, String))
    ensures
        (r.0@, r.1@) == author_key_role(*a),
{
    match a {
        OpenlibraryAuthorResponse::Flat { key } => (key.clone(), "Author".to_owned()),
        OpenlibraryAuthorResponse::Nested { key, role } => {
            let role_text = match role {
                Some(r) => r.clone(),
                None => "Author".to_owned(),
            };
            (key.clone(), role_text)
        },
    }
}

/// The plain text a description of either known shape decodes to; the type
/// tag of the nested shape is discarded.
pub open spec fn description_text(d: OpenlibraryDescription) -> Seq<char> {
    match d {
        OpenlibraryDescription::Text(s) => s@,
        OpenlibraryDescription::Nested { tag, value } => value@,
    }
}

/// Decodes a description of either known shape to plain text.
pub fn decode_description(d: &OpenlibraryDescription) -> (r: String)
    ensures
        r@ == description_text(*d),
{
    match d {
        OpenlibraryDescription::Text(s) => s.clone(),
        OpenlibraryDescription::Nested { tag: _, value } => value.clone(),
    }
}

/// What the outside case converter returns for a text put in title case.
pub uninterp spec fn title_case_of(s: Seq<char>) -> Seq<char>;

/// Relies on convert_case: `Casing::to_case` with `Case::Title` rewrites a
/// text in title case, and the result depends on the text alone.
#[verifier::external_body]
fn title_case(s: &str) -> (r: String)
    ensures
        r@ == title_case_of(s@),
{
    convert_case::Casing::to_case(&s, convert_case::Case::Title)
}

/// The genres one multi-valued subject text decodes to: its `", "`-separated
/// pieces, each put in title case.
pub open spec fn subject_genres(s: Seq<char>) -> Seq<Seq<char>> {
    split_subject(s).map_values(|p: Seq<char>| title_case_of(p))
}

/// The flattened genre list of a subject list; duplicates are kept.
pub open spec fn genres_of(subjects: Seq<Seq<char>>) -> Seq<Seq<char>>
    decreases subjects.len(),
{
    if subjects.len() == 0 {
        Seq::<Seq<char>>::empty()
    } else {
        genres_of(subjects.drop_last()) + subject_genres(subjects.last())
    }
}

/// Decodes genres from a free-text subject list: splits each subject on its
/// delimiter, title-cases each piece, and flattens, keeping duplicates.
pub fn genres_from_subjects(subjects: &Vec<String>) -> (r: Vec<String>)
    ensures
        r.deep_view() == genres_of(subjects.deep_view()),
{
    let mut out: Vec<String> = Vec::new();
    let mut i: usize = 0;
    proof {
        assert(subjects.deep_view().take(0) =~= Seq::<Seq<char>>::empty());
        assert(out.deep_view() =~= genres_of(subjects.deep_view().take(0)));
    }
    while i < subjects.len()
        invariant
            i <= subjects@.len(),
            subjects@.len() == subjects.deep_view().len(),
            out.deep_view() == genres_of(subjects.deep_view().take(i as int)),
        decreases subjects@.len() - i,
    {
        let pieces = split_subject_exec(subjects[i].as_str());
        let ghost sub = subjects.deep_view()[i as int];
        proof {
            assert(subjects.deep_view()[i as int] == subjects@[i as int]@);
        }
        let mut j: usize = 0;
        while j < pieces.len()
            invariant
                j <= pieces@.len(),
                pieces@.len() == pieces.deep_view().len(),
                pieces.deep_view() == split_subject(sub),
                out.deep_view() == genres_of(subjects.deep_view().take(i as int)) + subject_genres(
                    sub,
                ).take(j as int),
            decreases pieces@.len() - j,
        {
            let cased = title_case(pieces[j].as_str());
            proof {
                assert(pieces.deep_view()[j as int] == pieces@[j as int]@);
                assert(subject_genres(sub)[j as int] == title_case_of(pieces.deep_view()[j as int]));
            }
            let ghost prev = out.deep_view();
            let ghost cased_text = cased@;
            out.push(cased);
            proof {
                assert(out.deep_view() =~~= prev.push(cased_text));
                assert(subject_genres(sub).take(j as int + 1) =~= subject_genres(sub).take(
                    j as int,
                ).push(subject_genres(sub)[j as int]));
                assert(prev.push(cased_text) =~~= genres_of(subjects.deep_view().take(i as int))
                    + subject_genres(sub).take(j as int + 1));
            }
            j += 1;
        }
        i += 1;
        proof {
            assert(subjects.deep_view().take(i as int).drop_last() =~= subjects.deep_view().take(
                i as int - 1,
            ));
            assert(subjects.deep_view().take(i as int).last() == sub);
            assert(subject_genres(sub).take(pieces.deep_view().len() as int) =~= subject_genres(
                sub,
            ));
        }
    }
    proof {
        assert(subjects.deep_view().take(subjects.deep_view().len() as int) =~= subjects.deep_view());
    }
    out
}

} // verus!
