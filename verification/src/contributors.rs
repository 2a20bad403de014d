//! Data model of the contributor cache: raw records fetched from the
//! source API, the aggregated per-contributor totals, and the cache's
//! lifecycle state.

use vstd::prelude::*;

verus! {

/// Raw contributor record for one repository, as the source API reports it.
#[derive(Debug, PartialEq)]
pub struct GithubContributor {
    /// The contributor's login, the unique identity records are grouped by.
    pub login: String,
    /// The contributor's avatar (full size).
    pub avatar_url: String,
    /// The commit count of this user in one repository.
    pub contributions: u32,
}

/// Mathematical model of a [`GithubContributor`].
#[verifier::ext_equal]
pub struct GithubContributorModel {
    pub login: Seq<char>,
    pub avatar_url: Seq<char>,
    pub contributions: u32,
}

impl View for GithubContributor {
    type V = GithubContributorModel;

    open spec fn view(&self) -> GithubContributorModel {
        GithubContributorModel {
            login: self.login@,
            avatar_url: self.avatar_url@,
            contributions: self.contributions,
        }
    }
}

impl Clone for GithubContributor {
    fn clone(&self) -> (r: Self)
        ensures
            r@ == self@,
    {
        GithubContributor {
            login: self.login.clone(),
            avatar_url: self.avatar_url.clone(),
            contributions: self.contributions,
        }
    }
}

/// Descriptor of one repository, used only to decide whether the
/// repository takes part in aggregation.
#[derive(Debug, PartialEq)]
pub struct GithubRepository {
    /// The repository name.
    pub name: String,
    /// Whether the repository is a fork.
    pub fork: bool,
    /// Whether the repository is private.
    pub private: bool,
}

/// Mathematical model of a [`GithubRepository`].
#[verifier::ext_equal]
pub struct GithubRepositoryModel {
    pub name: Seq<char>,
    pub fork: bool,
    pub private: bool,
}

impl View for GithubRepository {
    type V = GithubRepositoryModel;

    open spec fn view(&self) -> GithubRepositoryModel {
        GithubRepositoryModel { name: self.name@, fork: self.fork, private: self.private }
    }
}

impl Clone for GithubRepository {
    fn clone(&self) -> (r: Self)
        ensures
            r@ == self@,
    {
        GithubRepository { name: self.name.clone(), fork: self.fork, private: self.private }
    }
}

/// Repository-specific commit count for a user.
#[derive(Debug, PartialEq)]
pub struct RepositoryContributor {
    /// The repository name.
    pub name: String,
    /// The commit count of this user in this repository.
    pub commits: u32,
}

/// Mathematical model of a [`RepositoryContributor`].
#[verifier::ext_equal]
pub struct RepositoryContributorModel {
    pub name: Seq<char>,
    pub commits: u32,
}

impl View for RepositoryContributor {
    type V = RepositoryContributorModel;

    open spec fn view(&self) -> RepositoryContributorModel {
        RepositoryContributorModel { name: self.name@, commits: self.commits }
    }
}

impl Clone for RepositoryContributor {
    fn clone(&self) -> (r: Self)
        ensures
            r@ == self@,
    {
        RepositoryContributor { name: self.name.clone(), commits: self.commits }
    }
}

/// Aggregated totals for one contributor across all aggregated repositories.
#[derive(Debug, PartialEq)]
pub struct Contributor {
    /// The contributor's login.
    pub username: String,
    /// The contributor's avatar (full size).
    pub avatar_url: String,
    /// The commit count of this user across all aggregated repositories.
    pub commits: u32,
    /// The repositories this user committed to,
    /// in decreasing order of commit count per repository.
    pub repositories: Vec<RepositoryContributor>,
}

/// Mathematical model of a [`Contributor`].
#[verifier::ext_equal]
pub struct ContributorModel {
    pub username: Seq<char>,
    pub avatar_url: Seq<char>,
    pub commits: u32,
    pub repositories: Seq<RepositoryContributorModel>,
}

/// The models of a sequence of repository entries.
pub open spec fn repos_view(s: Seq<RepositoryContributor>) -> Seq<RepositoryContributorModel> {
    s.map_values(|r: RepositoryContributor| r@)
}

impl View for Contributor {
    type V = ContributorModel;

    open spec fn view(&self) -> ContributorModel {
        ContributorModel {
            username: self.username@,
            avatar_url: self.avatar_url@,
            commits: self.commits,
            repositories: repos_view(self.repositories@),
        }
    }
}

/// The models of a sequence of contributors.
pub open spec fn contributors_view(s: Seq<Contributor>) -> Seq<ContributorModel> {
    s.map_values(|c: Contributor| c@)
}

fn clone_repositories(v: &Vec<RepositoryContributor>) -> (r: Vec<RepositoryContributor>)
    ensures
        repos_view(r@) == repos_view(v@),
{
    let mut r: Vec<RepositoryContributor> = Vec::new();
    let mut i: usize = 0;
    while i < v.len()
        invariant
            i <= v.len(),
            r@.len() == i as nat,
            forall|j: int| 0 <= j < i ==> r@[j]@ == v@[j]@,
        decreases v.len() - i,
    {
        r.push(v[i].clone());
        i += 1;
    }
    proof {
        assert(repos_view(r@) =~= repos_view(v@));
    }
    r
}

impl Clone for Contributor {
    fn clone(&self) -> (r: Self)
        ensures
            r@ == self@,
    {
        Contributor {
            username: self.username.clone(),
            avatar_url: self.avatar_url.clone(),
            commits: self.commits,
            repositories: clone_repositories(&self.repositories),
        }
    }
}

/// Clones a list of contributors, keeping the model of every element.
pub fn clone_contributors(v: &Vec<Contributor>) -> (r: Vec<Contributor>)
    ensures
        contributors_view(r@) == contributors_view(v@),
{
    let mut r: Vec<Contributor> = Vec::new();
    let mut i: usize = 0;
    while i < v.len()
        invariant
            i <= v.len(),
            r@.len() == i as nat,
            forall|j: int| 0 <= j < i ==> r@[j]@ == v@[j]@,
        decreases v.len() - i,
    {
        r.push(v[i].clone());
        i += 1;
    }
    proof {
        assert(contributors_view(r@) =~= contributors_view(v@));
    }
    r
}

/// Contributors cache state.
///
/// The state is created once as `Populating` and then driven exclusively
/// by the refresh scheduler: once data has been obtained, only the
/// `Fresh`/`Outdated` pair is ever visited again.
#[derive(Debug, PartialEq)]
pub enum ContributorsState {
    /// Data is currently being fetched for the first time, come back later.
    Populating,
    /// First data fetch failed, come back later.
    PopulatingError,
    /// Data exists but is outdated, cache for only a little time.
    Outdated(Vec<Contributor>),
    /// Data exists and is still fresh, cache for full time.
    /// The first field is the timestamp, in seconds, of the successful fetch.
    Fresh(u64, Vec<Contributor>),
}

/// Mathematical model of a [`ContributorsState`].
#[verifier::ext_equal]
pub enum ContributorsStateModel {
    Populating,
    PopulatingError,
    Outdated(Seq<ContributorModel>),
    Fresh(u64, Seq<ContributorModel>),
}

impl View for ContributorsState {
    type V = ContributorsStateModel;

    open spec fn view(&self) -> ContributorsStateModel {
        match self {
            ContributorsState::Populating => ContributorsStateModel::Populating,
            ContributorsState::PopulatingError => ContributorsStateModel::PopulatingError,
            ContributorsState::Outdated(data) => ContributorsStateModel::Outdated(
                contributors_view(data@),
            ),
            ContributorsState::Fresh(at, data) => ContributorsStateModel::Fresh(
                *at,
                contributors_view(data@),
            ),
        }
    }
}

impl Clone for ContributorsState {
    fn clone(&self) -> (r: Self)
        ensures
            r@ == self@,
    {
        match self {
            ContributorsState::Populating => ContributorsState::Populating,
            ContributorsState::PopulatingError => ContributorsState::PopulatingError,
            ContributorsState::Outdated(data) => ContributorsState::Outdated(
                clone_contributors(data),
            ),
            ContributorsState::Fresh(at, data) => ContributorsState::Fresh(
                *at,
                clone_contributors(data),
            ),
        }
    }
}

} // verus!
