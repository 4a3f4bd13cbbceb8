//! What comes back from the completion service and the media search, and
//! what the bot makes of it.
//!
//! Whoever talks to the services hands over what the decisions read of an
//! answer; a failed call is handed over as `None` and never reaches a user.

use crate::chance::choose_one;
use crate::replies::{default_gif_url, no_candidates_text, overloaded_text};
use vstd::prelude::*;
use vstd::string::StringExecFns;

verus! {

/// What the decisions read of an answer of the completion service.
#[derive(Clone, Debug, PartialEq, Eq)]
pub struct CompletionReply {
    /// The answer has a list of candidates.
    pub has_candidates: bool,
    /// The text of the first part of the first candidate, if it is there and
    /// is a string.
    pub text: Option<String>,
}

/// The completion that an answer of the service stands for: its text, or a
/// fixed apology where it has no candidates, no text, or a text without a
/// character. What is handed on is never empty.
pub open spec fn completion_text(reply: CompletionReply) -> Seq<char> {
    if !reply.has_candidates {
        no_candidates_text()
    } else {
        match reply.text {
            Some(text) => if text@.len() == 0 {
                overloaded_text()
            } else {
                text@
            },
            None => overloaded_text(),
        }
    }
}

pub fn read_completion(reply: &CompletionReply) -> (text: String)
    ensures
        text@ == completion_text(*reply),
{
    if !reply.has_candidates {
        String::from_str("I couldn't come up with a response. Perhaps the topic was too spicy?")
    } else {
        match &reply.text {
            Some(text) => {
                if text.as_str().is_empty() {
                    String::from_str(
                        "Sorry, the Endpoint is currently overloaded, please try again.",
                    )
                } else {
                    text.clone()
                }
            },
            None => String::from_str(
                "Sorry, the Endpoint is currently overloaded, please try again.",
            ),
        }
    }
}

/// No completion that is handed on is empty.
pub proof fn completion_is_never_empty(reply: CompletionReply)
    ensures
        completion_text(reply).len() > 0,
{
    reveal_strlit("Sorry, the Endpoint is currently overloaded, please try again.");
    reveal_strlit("I couldn't come up with a response. Perhaps the topic was too spicy?");
}

/// The texts of a list of strings.
pub open spec fn texts_of(strings: Seq<String>) -> Seq<Seq<char>> {
    Seq::new(strings.len(), |i: int| strings[i]@)
}

/// The addresses among the results of a media search, in their order: each
/// result contributes its address if it has one.
pub open spec fn present_urls(results: Seq<Option<String>>) -> Seq<Seq<char>>
    decreases results.len(),
{
    if results.len() == 0 {
        Seq::<Seq<char>>::empty()
    } else {
        match results.last() {
            Some(url) => present_urls(results.drop_last()).push(url@),
            None => present_urls(results.drop_last()),
        }
    }
}

/// Collects the addresses that the results of a media search carry.
pub fn gif_urls(results: &Vec<Option<String>>) -> (urls: Vec<String>)
    ensures
        texts_of(urls@) == present_urls(results@),
{
    let mut urls: Vec<String> = Vec::new();
    let mut index: usize = 0;
    assert(results@.take(0) =~= Seq::<Option<String>>::empty());
    assert(texts_of(urls@) =~= present_urls(results@.take(0)));
    while index < results.len()
        invariant
            index <= results@.len(),
            texts_of(urls@) == present_urls(results@.take(index as int)),
        decreases results@.len() - index,
    {
        let ghost seen = results@.take(index + 1);
        assert(seen.drop_last() =~= results@.take(index as int));
        assert(seen.last() == results@[index as int]);
        let ghost before = urls@;
        match &results[index] {
            Some(url) => {
                urls.push(url.clone());
                assert(texts_of(urls@) =~= texts_of(before).push(url@));
            },
            None => {},
        }
        index += 1;
    }
    assert(results@.take(index as int) =~= results@);
    urls
}

/// The address to show: the one picked, or the default where none was.
pub open spec fn gif_shown(pick: Option<String>) -> Seq<char> {
    match pick {
        Some(url) => url@,
        None => default_gif_url(),
    }
}

pub fn gif_or_default(pick: &Option<String>) -> (url: String)
    ensures
        url@ == gif_shown(*pick),
{
    match pick {
        Some(url) => url.clone(),
        None => String::from_str("https://media.tenor.com/YxT1w3VX5BAAAAAM/fox-dance.gif"),
    }
}

/// `pick` is a fair draw from the results of a media search: one of the
/// addresses there, and none only if there is none.
pub open spec fn is_pick_from(pick: Option<String>, results: Seq<Option<String>>) -> bool {
    match pick {
        Some(url) => present_urls(results).contains(url@),
        None => present_urls(results).len() == 0,
    }
}

/// Picks one address at random from the results of a media search.
pub fn pick_gif(results: &Vec<Option<String>>) -> (pick: Option<String>)
    ensures
        is_pick_from(pick, results@),
{
    let urls = gif_urls(results);
    match choose_one(&urls) {
        Some(url) => {
            proof {
                let at = choose|at: int| 0 <= at < urls@.len() && urls@[at] == *url;
                assert(texts_of(urls@)[at] == url@);
            }
            Some(url.clone())
        },
        None => None,
    }
}

} // verus!
