//! The textual encoding of name lists, done by `serde_json`.

use vstd::prelude::*;

verus! {

/// Declares `serde_json::Error`, so that an error of the encoder can be
/// carried to where its words are taken. Nothing is known of what it holds.
#[verifier::external_type_specification]
#[verifier::external_body]
pub struct ExJsonError(serde_json::Error);

/// The text that `serde_json::to_string` gives for a list of names, or `None`
/// where it gives an error.
pub uninterp spec fn json_text(names: Seq<Seq<char>>) -> Option<Seq<char>>;

/// The list of names that `serde_json::from_str` reads from a text, or `None`
/// where it gives an error.
pub uninterp spec fn json_names(text: Seq<char>) -> Option<Seq<Seq<char>>>;

/// Calls `serde_json::to_string` on a vector of strings.
///
/// Believed, not proved: whether a text comes out, and which, depends on the
/// names alone.
#[verifier::external_body]
fn to_json(names: &Vec<String>) -> (r: Result<String, serde_json::Error>)
    ensures
        match r {
            Ok(text) => json_text(names.deep_view()) == Some(text@),
            Err(_) => json_text(names.deep_view()).is_none(),
        },
{
    serde_json::to_string(names)
}

/// Calls `serde_json::from_str` for a vector of strings.
///
/// Believed, not proved: whether names come out, and which, depends on the
/// text alone.
#[verifier::external_body]
fn from_json(text: &str) -> (r: Result<Vec<String>, serde_json::Error>)
    ensures
        match r {
            Ok(names) => json_names(text@) == Some(names.deep_view()),
            Err(_) => json_names(text@).is_none(),
        },
{
    serde_json::from_str(text)
}

/// The words of a `serde_json::Error`, as its `Display` gives them. Nothing is
/// claimed of the text.
#[verifier::external_body]
fn json_error_text(error: &serde_json::Error) -> (text: String) {
    error.to_string()
}

/// The names that a stored text stands for: what the text decodes to, and no
/// names at all where the text is missing or is no list of names.
pub open spec fn names_in(text: Option<Seq<char>>) -> Seq<Seq<char>> {
    match text {
        Some(t) => match json_names(t) {
            Some(names) => names,
            None => Seq::empty(),
        },
        None => Seq::empty(),
    }
}

/// The encoding of a list of names: the text that the encoder gives for it,
/// where that text decodes to the same names in the same order. A list has no
/// encoding where the encoder gives no text, or one that does not read back.
pub open spec fn encoding(names: Seq<Seq<char>>) -> Option<Seq<char>> {
    match json_text(names) {
        Some(text) => if json_names(text) == Some(names) {
            Some(text)
        } else {
            None
        },
        None => None,
    }
}

/// What is said of a text that does not read back as the names it was made
/// from.
pub const NOT_READ_BACK: &'static str = "the encoded names do not read back";

/// The names that were read, or no names where reading failed.
pub fn names_or_empty(parsed: Option<Vec<String>>) -> (names: Vec<String>)
    ensures
        names.deep_view() == match parsed {
            Some(found) => found.deep_view(),
            None => Seq::<Seq<char>>::empty(),
        },
{
    match parsed {
        Some(found) => found,
        None => {
            let names: Vec<String> = Vec::new();
            assert(names.deep_view() =~= Seq::<Seq<char>>::empty());
            names
        },
    }
}

/// Whether two lists hold the same names in the same order.
pub fn same_names(left: &Vec<String>, right: &Vec<String>) -> (same: bool)
    ensures
        same == (left.deep_view() == right.deep_view()),
{
    if left.len() != right.len() {
        assert(left.deep_view().len() != right.deep_view().len());
        return false;
    }
    let mut i: usize = 0;
    while i < left.len()
        invariant
            i <= left.len(),
            left.len() == right.len(),
            forall|j: int| 0 <= j < i ==> (#[trigger] left[j])@ == right[j]@,
        decreases left.len() - i,
    {
        if !(left[i] == right[i]) {
            assert(left.deep_view()[i as int] != right.deep_view()[i as int]);
            return false;
        }
        i += 1;
    }
    assert(left.deep_view() =~= right.deep_view());
    true
}

/// Whether what was read back is the list of names `names`.
pub open spec fn reads_as(read_back: Option<Vec<String>>, names: Seq<Seq<char>>) -> bool {
    match read_back {
        Some(back) => back.deep_view() == names,
        None => false,
    }
}

/// Accepts a text as the encoding of `names` where it was read back as the
/// same names, and refuses it otherwise.
pub fn accept_text(names: &Vec<String>, text: String, read_back: Option<Vec<String>>) -> (r: Result<
    String,
    String,
>)
    ensures
        match r {
            Ok(accepted) => accepted@ == text@ && reads_as(read_back, names.deep_view()),
            Err(words) => words@ == NOT_READ_BACK@ && !reads_as(read_back, names.deep_view()),
        },
{
    match read_back {
        Some(back) => if same_names(&back, names) {
            Ok(text)
        } else {
            Err(NOT_READ_BACK.to_owned())
        },
        None => Err(NOT_READ_BACK.to_owned()),
    }
}

/// Encodes a list of names as text, and makes sure that the text decodes to
/// the same names. The `Err` carries the encoder's words, or says that the
/// text did not read back.
pub fn encode_names(names: &Vec<String>) -> (r: Result<String, String>)
    ensures
        match r {
            Ok(text) => encoding(names.deep_view()) == Some(text@),
            Err(words) => encoding(names.deep_view()).is_none() && (json_text(
                names.deep_view(),
            ).is_some() ==> words@ == NOT_READ_BACK@),
        },
{
    match to_json(names) {
        Ok(text) => {
            let read_back = match from_json(text.as_str()) {
                Ok(back) => Some(back),
                Err(_) => None,
            };
            accept_text(names, text, read_back)
        },
        Err(e) => Err(json_error_text(&e)),
    }
}

/// Decodes a stored text to the names it stands for. A text that is missing or
/// malformed stands for no names: reading never fails.
pub fn decode_names(text: &Option<String>) -> (names: Vec<String>)
    ensures
        names.deep_view() == names_in(
            match *text {
                Some(t) => Some(t@),
                None => None,
            },
        ),
{
    match text {
        Some(t) => match from_json(t.as_str()) {
            Ok(found) => names_or_empty(Some(found)),
            Err(_) => names_or_empty(None),
        },
        None => names_or_empty(None),
    }
}

} // verus!
