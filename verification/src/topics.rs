//! The three topics of a bridge, all derived from one base topic.

use vstd::prelude::*;
use vstd::string::*;

verus! {

/// The topics a bridge publishes to and subscribes from.
pub struct TopicSet {
    /// Where the discovery record is announced.
    pub config: String,
    /// Where the state of the door is reported.
    pub state: String,
    /// Where commands arrive.
    pub command: String,
}

/// Mathematical model of a [`TopicSet`].
pub struct TopicSetView {
    pub config: Seq<char>,
    pub state: Seq<char>,
    pub command: Seq<char>,
}

impl View for TopicSet {
    type V = TopicSetView;

    open spec fn view(&self) -> TopicSetView {
        TopicSetView { config: self.config@, state: self.state@, command: self.command@ }
    }
}

/// The topics that belong to the base topic `base`: the base, a slash and one
/// of the three suffixes.
pub open spec fn derive_spec(base: Seq<char>) -> TopicSetView {
    TopicSetView {
        config: base + "/config"@,
        state: base + "/state"@,
        command: base + "/command"@,
    }
}

/// `base` followed by `suffix`.
pub fn join(base: &str, suffix: &str) -> (joined: String)
    ensures
        joined@ == base@ + suffix@,
{
    let mut joined = String::from_str(base);
    joined.append(suffix);
    joined
}

/// Derives the topic set of a bridge from its base topic.
pub fn derive(base: &str) -> (topics: TopicSet)
    ensures
        topics@ == derive_spec(base@),
{
    TopicSet {
        config: join(base, "/config"),
        state: join(base, "/state"),
        command: join(base, "/command"),
    }
}

impl TopicSet {
    /// A copy of this topic set.
    pub fn duplicate(&self) -> (copy: TopicSet)
        ensures
            copy@ == self@,
    {
        TopicSet {
            config: self.config.clone(),
            state: self.state.clone(),
            command: self.command.clone(),
        }
    }
}

/// The three topics of one base are pairwise different, and each begins with
/// the base followed by a slash.
pub proof fn lemma_topics_distinct(base: Seq<char>)
    ensures
        derive_spec(base).config != derive_spec(base).state,
        derive_spec(base).config != derive_spec(base).command,
        derive_spec(base).state != derive_spec(base).command,
        derive_spec(base).config.len() == base.len() + 7,
        derive_spec(base).state.len() == base.len() + 6,
        derive_spec(base).command.len() == base.len() + 8,
{
    reveal_strlit("/config");
    reveal_strlit("/state");
    reveal_strlit("/command");
    let t = derive_spec(base);
    assert(t.config.len() == base.len() + 7);
    assert(t.state.len() == base.len() + 6);
    assert(t.command.len() == base.len() + 8);
}

} // verus!
