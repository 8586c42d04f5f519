//! The bot's configuration, as plain values.

use vstd::prelude::*;

verus! {

/// Everything the bot is configured with.
#[derive(Clone, Debug, PartialEq, Eq)]
pub struct Project {
    pub title: String,
    pub discord_config: DiscordConfig,
    pub github_config: GithubConfig,
    pub issue_labels: IssueLabels,
}

/// Access to the chat platform and who may use the bot there.
#[derive(Clone, Debug, PartialEq, Eq)]
pub struct DiscordConfig {
    pub token: String,
    pub guild_id: u64,
    /// The users that may use the bot.
    pub operator_id: Vec<u64>,
}

/// Access to the issue tracker and the repositories on offer.
#[derive(Clone, Debug, PartialEq, Eq)]
pub struct GithubConfig {
    pub token: String,
    pub owner: String,
    /// Display name and repository name of each repository on offer. No
    /// display name occurs twice.
    pub repositories: Vec<(String, String)>,
}

/// The labels on offer.
#[derive(Clone, Debug, PartialEq, Eq)]
pub struct IssueLabels {
    pub issue_types: Vec<String>,
    pub issue_priority: Vec<String>,
}

impl DiscordConfig {
    /// Whether `user` is one of the configured operators.
    pub fn is_operator(&self, user: u64) -> (listed: bool)
        ensures
            listed == self.operator_id@.contains(user),
    {
        let mut i: usize = 0;
        while i < self.operator_id.len()
            invariant
                i <= self.operator_id@.len(),
                forall|k: int| 0 <= k < i ==> self.operator_id@[k] != user,
            decreases self.operator_id@.len() - i,
        {
            if self.operator_id[i] == user {
                return true;
            }
            i += 1;
        }
        false
    }
}

impl GithubConfig {
    /// The display names of the repositories on offer, in order.
    pub open spec fn names(&self) -> Seq<Seq<char>> {
        Seq::new(self.repositories@.len(), |i: int| self.repositories@[i].0@)
    }

    /// No display name occurs twice.
    pub open spec fn well_formed(&self) -> bool {
        self.names().no_duplicates()
    }

    /// Whether no display name occurs twice.
    pub fn is_well_formed(&self) -> (ok: bool)
        ensures
            ok == self.well_formed(),
    {
        let n = self.repositories.len();
        let mut i: usize = 0;
        while i < n
            invariant
                n == self.repositories@.len(),
                i <= n,
                forall|a: int, b: int|
                    0 <= a < i && 0 <= b < n && a != b ==> self.names()[a] != self.names()[b],
            decreases n - i,
        {
            let mut j: usize = 0;
            while j < n
                invariant
                    n == self.repositories@.len(),
                    i < n,
                    j <= n,
                    forall|b: int| 0 <= b < j && b != i ==> self.names()[i as int] != self.names()[b],
                decreases n - j,
            {
                if j != i && self.repositories[i].0 == self.repositories[j].0 {
                    assert(self.names()[i as int] == self.names()[j as int]);
                    return false;
                }
                j += 1;
            }
            i += 1;
        }
        true
    }
}

} // verus!
