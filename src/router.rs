//! Decisions at the boundary of the broadcast transport: which handler an
//! inbound message goes to, and whether an outbound message is sent.

use vstd::prelude::*;
use vstd::utf8::*;
use crate::content::bytes_equal;

verus! {

broadcast use vstd::utf8::group_utf8_lib;

/// Where an inbound message goes.
#[derive(Clone, Copy, Debug, PartialEq, Eq, Structural)]
pub enum Route {
    Chat,
    Clipboard,
    Ignore,
}

/// What to do with an envelope to broadcast.
#[derive(Clone, Copy, Debug, PartialEq, Eq, Structural)]
pub enum PublishPlan {
    /// No peer is subscribed to the topic: send nothing; this is no error.
    Skip,
    /// Send to the topic, which this many peers are subscribed to.
    Publish(usize),
}

/// What to do with a line of chat typed by the user.
#[derive(Clone, Copy, Debug, PartialEq, Eq, Structural)]
pub enum ChatPlan {
    /// An empty line: nothing.
    Nothing,
    /// Send it on the chat topic.
    Publish,
    /// No peer is connected: show it locally only.
    LocalOnly,
}

/// Equality of two strings.
pub fn same_str(a: &str, b: &str) -> (r: bool)
    ensures
        r == (a@ == b@),
{
    let r = bytes_equal(a.as_bytes(), b.as_bytes());
    proof {
        if encode_utf8(a@) == encode_utf8(b@) {
            assert(decode_utf8(encode_utf8(a@)) == decode_utf8(encode_utf8(b@)));
        }
    }
    r
}

/// Chat messages go to the chat handler; messages on the clipboard topic,
/// when clipboard sync is on, to the applier; anything else is dropped.
pub fn route_message(topic: &str, chat_topic: &str, clipboard_topic: Option<&str>) -> (r: Route)
    ensures
        topic@ == chat_topic@ ==> r == Route::Chat,
        topic@ != chat_topic@ && (clipboard_topic matches Some(c) && topic@ == c@) ==> r
            == Route::Clipboard,
        topic@ != chat_topic@ && !(clipboard_topic matches Some(c) && topic@ == c@) ==> r
            == Route::Ignore,
{
    if same_str(topic, chat_topic) {
        Route::Chat
    } else {
        match clipboard_topic {
            Some(c) => if same_str(topic, c) {
                Route::Clipboard
            } else {
                Route::Ignore
            },
            None => Route::Ignore,
        }
    }
}

/// Whether one peer's topic list holds `topic`.
pub open spec fn subscribed(topics: Seq<String>, topic: Seq<char>) -> bool {
    exists|j: int| 0 <= j < topics.len() && #[trigger] topics[j]@ == topic
}

/// How many of the peers (each given by its topic list) are subscribed to `topic`.
pub open spec fn count_subscribed(peers: Seq<Vec<String>>, topic: Seq<char>) -> nat
    decreases peers.len(),
{
    if peers.len() == 0 {
        0
    } else {
        count_subscribed(peers.drop_last(), topic) + if subscribed(peers.last()@, topic) {
            1nat
        } else {
            0nat
        }
    }
}

proof fn lemma_count_bounded(peers: Seq<Vec<String>>, topic: Seq<char>)
    ensures
        count_subscribed(peers, topic) <= peers.len(),
    decreases peers.len(),
{
    if peers.len() > 0 {
        lemma_count_bounded(peers.drop_last(), topic);
    }
}

fn is_subscribed(topics: &Vec<String>, topic: &str) -> (r: bool)
    ensures
        r == subscribed(topics@, topic@),
{
    let mut j: usize = 0;
    while j < topics.len()
        invariant
            j <= topics@.len(),
            forall|k: int| 0 <= k < j ==> #[trigger] topics@[k]@ != topic@,
        decreases topics@.len() - j,
    {
        if same_str(topics[j].as_str(), topic) {
            return true;
        }
        j = j + 1;
    }
    false
}

/// The number of peers subscribed to `topic`, given each peer's topic list.
pub fn subscribed_peer_count(peer_topics: &Vec<Vec<String>>, topic: &str) -> (r: usize)
    ensures
        r == count_subscribed(peer_topics@, topic@),
{
    let mut n: usize = 0;
    let mut i: usize = 0;
    while i < peer_topics.len()
        invariant
            i <= peer_topics@.len(),
            n == count_subscribed(peer_topics@.subrange(0, i as int), topic@),
        decreases peer_topics@.len() - i,
    {
        proof {
            let pre = peer_topics@.subrange(0, i as int + 1);
            assert(pre.drop_last() =~= peer_topics@.subrange(0, i as int));
            lemma_count_bounded(peer_topics@.subrange(0, i as int), topic@);
        }
        if is_subscribed(&peer_topics[i], topic) {
            n = n + 1;
        }
        i = i + 1;
    }
    assert(peer_topics@.subrange(0, i as int) =~= peer_topics@);
    n
}

/// An envelope is sent only where at least one peer is subscribed to the
/// clipboard topic; with none the send is skipped, which is no error.
pub fn plan_publish(peer_topics: &Vec<Vec<String>>, topic: &str) -> (r: PublishPlan)
    ensures
        count_subscribed(peer_topics@, topic@) == 0 ==> r == PublishPlan::Skip,
        count_subscribed(peer_topics@, topic@) > 0 ==> r == PublishPlan::Publish(
            count_subscribed(peer_topics@, topic@) as usize,
        ),
{
    let n = subscribed_peer_count(peer_topics, topic);
    if n == 0 {
        PublishPlan::Skip
    } else {
        PublishPlan::Publish(n)
    }
}

/// A typed line is sent where any peer is known, shown locally otherwise,
/// and ignored when empty.
pub fn plan_chat(line: &str, peer_count: usize) -> (r: ChatPlan)
    ensures
        line@.len() == 0 ==> r == ChatPlan::Nothing,
        line@.len() > 0 && peer_count > 0 ==> r == ChatPlan::Publish,
        line@.len() > 0 && peer_count == 0 ==> r == ChatPlan::LocalOnly,
{
    if line.is_empty() {
        ChatPlan::Nothing
    } else if peer_count > 0 {
        ChatPlan::Publish
    } else {
        ChatPlan::LocalOnly
    }
}

} // verus!
