//! Topics: the fixed set of subscribed topic filters with its exact-match
//! lookup, and the names of the lifecycle-notification topics.

use vstd::prelude::*;
use vstd::string::StringExecFns;

use crate::text::str_eq;

verus! {

/// The text of each string slice of `topics`, in order.
pub open spec fn texts_of(topics: Seq<&str>) -> Seq<Seq<char>> {
    Seq::new(topics.len(), |i: int| topics[i]@)
}

/// The topic on which a client announces that it started:
/// `iot/`, the client identifier, `/startup`.
pub open spec fn startup_topic_of(client_id: Seq<char>) -> Seq<char> {
    "iot/"@ + client_id + "/startup"@
}

/// The topic on which a client announces that it shuts down:
/// `iot/`, the client identifier, `/shutdown`.
pub open spec fn shutdown_topic_of(client_id: Seq<char>) -> Seq<char> {
    "iot/"@ + client_id + "/shutdown"@
}

/// The startup-notification topic of the client `client_id`.
pub fn startup_topic(client_id: &str) -> (topic: String)
    ensures
        topic@ == startup_topic_of(client_id@),
{
    let mut topic = String::from_str("iot/");
    topic.append(client_id);
    topic.append("/startup");
    topic
}

/// The shutdown-notification topic of the client `client_id`.
pub fn shutdown_topic(client_id: &str) -> (topic: String)
    ensures
        topic@ == shutdown_topic_of(client_id@),
{
    let mut topic = String::from_str("iot/");
    topic.append(client_id);
    topic.append("/shutdown");
    topic
}

/// The topic filters a client subscribes to, in the order they were given.
/// The set is fixed once built. A filter stands for itself only: there are
/// no wildcards.
#[derive(Debug, Clone)]
pub struct SubscriptionSet {
    filters: Vec<String>,
}

impl View for SubscriptionSet {
    type V = Seq<Seq<char>>;

    closed spec fn view(&self) -> Seq<Seq<char>> {
        Seq::new(self.filters@.len(), |i: int| self.filters@[i]@)
    }
}

impl SubscriptionSet {
    /// The set of the given filters, in the given order.
    pub fn new(topics: &[&str]) -> (set: Self)
        ensures
            set@ == texts_of(topics@),
    {
        let mut filters: Vec<String> = Vec::new();
        let mut i: usize = 0;
        while i < topics.len()
            invariant
                i <= topics@.len(),
                filters@.len() == i,
                forall|k: int| 0 <= k < i ==> filters@[k]@ == topics@[k]@,
            decreases topics@.len() - i,
        {
            filters.push(String::from_str(topics[i]));
            i += 1;
        }
        let set = SubscriptionSet { filters };
        assert(set@ =~= texts_of(topics@));
        set
    }

    /// The number of filters.
    pub fn len(&self) -> (n: usize)
        ensures
            n == self@.len(),
    {
        self.filters.len()
    }

    /// The filter at position `i`, or `None` past the end.
    pub fn get(&self, i: usize) -> (filter: Option<&str>)
        ensures
            filter is Some == (i < self@.len()),
            filter is Some ==> filter->0@ == self@[i as int],
    {
        if i < self.filters.len() {
            Some(self.filters[i].as_str())
        } else {
            None
        }
    }

    /// The filter that `topic` matches, or `None`. A topic matches a filter
    /// when the two are the same string.
    pub fn matching_filter(&self, topic: &str) -> (filter: Option<&str>)
        ensures
            filter is Some == self@.contains(topic@),
            filter is Some ==> filter->0@ == topic@,
    {
        let mut i: usize = 0;
        while i < self.filters.len()
            invariant
                i <= self.filters@.len(),
                forall|k: int| 0 <= k < i ==> self.filters@[k]@ != topic@,
            decreases self.filters@.len() - i,
        {
            if str_eq(self.filters[i].as_str(), topic) {
                assert(self@[i as int] == topic@);
                return Some(self.filters[i].as_str());
            }
            i += 1;
        }
        assert(!self@.contains(topic@)) by {
            if self@.contains(topic@) {
                let k = choose|k: int| 0 <= k < self@.len() && self@[k] == topic@;
                assert(self.filters@[k]@ != topic@);
            }
        }
        None
    }

    /// Whether `topic` matches one of the filters.
    pub fn contains(&self, topic: &str) -> (found: bool)
        ensures
            found == self@.contains(topic@),
    {
        self.matching_filter(topic).is_some()
    }
}

} // verus!
