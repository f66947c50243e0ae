//! From what a fetch gave to what is shown.
//!
//! Fetching and printing are the caller's. In between stand three steps:
//! a fetched text is read as a joke, a query is answered with the joke that
//! was fetched or with the failure of the fetch, and the outcome decides what
//! is shown.

use crate::error::{viewed, JokeError};
use crate::joke::{full_text, introduction_text, joke_of, notice_of, Joke, JokeView};
use crate::json::{json_parse, parse_json};
use crate::render::ferris_frame;
use vstd::prelude::*;

verus! {

/// What was made of a text.
pub struct Reading {
    /// A remark to print before anything else is done.
    pub notice: Option<String>,
    /// The joke, or why there is none.
    pub joke: Result<Joke, JokeError>,
}

/// What a text gives: the remark, and the joke or why there is none. A text
/// that is no JSON document gives no remark and no joke.
pub open spec fn reading_of(text: Seq<char>) -> (Option<Seq<char>>, Result<JokeView, JokeError>) {
    match json_parse(text) {
        Some(doc) => (notice_of(doc), joke_of(doc)),
        None => (None, Err(JokeError::Malformed)),
    }
}

/// Reads a joke from the text of a JSON document.
pub fn json_to_joke(raw_json: String) -> (reading: Reading)
    ensures
        (reading.notice.deep_view(), viewed(reading.joke)) == reading_of(raw_json@),
{
    match parse_json(raw_json.as_str()) {
        Ok(parsed_json) => {
            let notice = Joke::hidden_type_notice(&parsed_json);
            Reading { notice, joke: Joke::new(parsed_json) }
        },
        Err(e) => Reading { notice: None, joke: Err(e) },
    }
}

/// How a query ended, as plain values.
pub enum OutcomeView {
    Fetched(JokeView),
    Failed(JokeView, Seq<char>),
}

/// How a query ended.
pub enum Outcome {
    /// The joke that was fetched and read.
    Fetched(Joke),
    /// The fetch failed. The joke is a stand-in that is handed along so that
    /// there is always a joke to refer to; it is never shown. The text
    /// describes the failure.
    Failed(Joke, String),
}

impl View for Outcome {
    type V = OutcomeView;

    open spec fn view(&self) -> OutcomeView {
        match self {
            Outcome::Fetched(joke) => OutcomeView::Fetched(joke@),
            Outcome::Failed(stand_in, description) => OutcomeView::Failed(
                stand_in@,
                description@,
            ),
        }
    }
}

/// What a query came to.
pub struct Answer {
    /// A remark to print before anything else is done.
    pub notice: Option<String>,
    /// How the query ended, or why the fetched text gave no joke.
    pub outcome: Result<Outcome, JokeError>,
}

/// What a query comes to, given the text it fetched or the description of
/// the failure: the remark, and how the query ended or why the fetched text
/// gave no joke. A failed fetch gives no remark, and ends with the stand-in
/// joke and the description, whatever the description holds.
pub open spec fn answer_of(fetched: Result<Seq<char>, Seq<char>>) -> (
    Option<Seq<char>>,
    Result<OutcomeView, JokeError>,
) {
    match fetched {
        Ok(text) => (
            reading_of(text).0,
            match reading_of(text).1 {
                Ok(joke) => Ok(OutcomeView::Fetched(joke)),
                Err(e) => Err(e),
            },
        ),
        Err(description) => (None, Ok(OutcomeView::Failed(Joke::empty_view(), description))),
    }
}

/// Answers a query, given the text it fetched or the description of the
/// failure.
pub fn query_answer(fetched: Result<String, String>) -> (answer: Answer)
    ensures
        (answer.notice.deep_view(), viewed(answer.outcome)) == answer_of(
            match fetched {
                Ok(text) => Ok(text@),
                Err(description) => Err(description@),
            },
        ),
{
    match fetched {
        Ok(text) => {
            let reading = json_to_joke(text);
            match reading.joke {
                Ok(joke) => Answer { notice: reading.notice, outcome: Ok(Outcome::Fetched(joke)) },
                Err(e) => Answer { notice: reading.notice, outcome: Err(e) },
            }
        },
        Err(description) => Answer {
            notice: None,
            outcome: Ok(Outcome::Failed(Joke::empty(), description)),
        },
    }
}

/// What is shown, as plain values.
pub enum ShowView {
    Failure(Seq<char>),
    Delivery(Seq<u8>, Seq<u8>),
}

/// What is shown.
pub enum Show {
    /// One line that reports a failed fetch.
    Failure(String),
    /// The two frames that present a joke: the announcement, then the joke
    /// as it is told.
    Delivery(Vec<u8>, Vec<u8>),
}

impl View for Show {
    type V = ShowView;

    open spec fn view(&self) -> ShowView {
        match self {
            Show::Failure(line) => ShowView::Failure(line@),
            Show::Delivery(introduction, joke) => ShowView::Delivery(introduction@, joke@),
        }
    }
}

/// What is shown for the outcome of a query: the two frames of a joke that
/// was fetched, and for a failed fetch the words `Error - ` and the
/// description, with nothing of the stand-in joke.
pub open spec fn show_of(outcome: OutcomeView) -> ShowView {
    match outcome {
        OutcomeView::Fetched(joke) => ShowView::Delivery(
            ferris_frame(introduction_text(joke), introduction_text(joke).len()),
            ferris_frame(full_text(joke.data), full_text(joke.data).len()),
        ),
        OutcomeView::Failed(_, description) => ShowView::Failure("Error - "@ + description),
    }
}

/// Decides what is shown for the outcome of a query.
pub fn present(outcome: &Outcome) -> (show: Show)
    ensures
        show@ == show_of(outcome@),
{
    match outcome {
        Outcome::Fetched(joke) => {
            let (introduction, told) = joke.ferris_delivery();
            Show::Delivery(introduction, told)
        },
        Outcome::Failed(_, description) => {
            let mut line = "Error - ".to_owned();
            line.append(description.as_str());
            Show::Failure(line)
        },
    }
}

/// Every failed fetch, whatever its description, is answered with the
/// stand-in joke and without a remark, and shown as the words `Error - `
/// and the description: no frame is made. The line holds as much after those
/// words as the description holds, so a description that is not empty is
/// shown as one that is not empty.
pub proof fn lemma_failed_fetch_is_reported(description: Seq<char>)
    ensures
        answer_of(Err(description)) == (
            None::<Seq<char>>,
            Ok::<OutcomeView, JokeError>(OutcomeView::Failed(Joke::empty_view(), description)),
        ),
        answer_of(Err(description)).1 matches Ok(outcome) && show_of(outcome)
            == ShowView::Failure("Error - "@ + description),
        ("Error - "@ + description).len() == "Error - "@.len() + description.len(),
        ("Error - "@ + description).subrange(
            "Error - "@.len() as int,
            ("Error - "@ + description).len() as int,
        ) == description,
{
    let line = "Error - "@ + description;
    assert(line.subrange("Error - "@.len() as int, line.len() as int) =~= description);
}

/// The stand-in joke of a failed fetch is never shown: what is shown for a
/// failure does not depend on the joke that came with it.
pub proof fn lemma_stand_in_is_never_shown(first: JokeView, second: JokeView, description: Seq<char>)
    ensures
        show_of(OutcomeView::Failed(first, description)) == show_of(
            OutcomeView::Failed(second, description),
        ),
        show_of(OutcomeView::Failed(first, description)) is Failure,
{
}

/// A joke that was fetched and read is shown in its two frames: no error
/// line is made.
pub proof fn lemma_fetched_joke_is_delivered(text: Seq<char>)
    requires
        reading_of(text).1 is Ok,
    ensures
        answer_of(Ok(text)).1 matches Ok(outcome) && reading_of(text).1 matches Ok(joke)
            && outcome == OutcomeView::Fetched(joke) && show_of(outcome) == ShowView::Delivery(
            ferris_frame(introduction_text(joke), introduction_text(joke).len()),
            ferris_frame(full_text(joke.data), full_text(joke.data).len()),
        ),
{
}

} // verus!
