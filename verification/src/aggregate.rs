//! Aggregator: merges raw per-repository contributor records into
//! per-contributor totals, removes known automation accounts, and ranks
//! the result in decreasing order of commit count.
//!
//! Everything here is pure: the fetches that produce the raw records run
//! outside the library, and aggregation is a function of their results
//! alone. Totals saturate at `u32::MAX` instead of wrapping.

use vstd::prelude::*;
use crate::contributors::{
    Contributor, ContributorModel, GithubContributor, GithubContributorModel, GithubRepository,
    GithubRepositoryModel, RepositoryContributor, RepositoryContributorModel,
};
use crate::contributors::contributors_view;

verus! {

/// The raw contributor records of one repository, paired with its name.
#[derive(Debug, PartialEq)]
pub struct RepositoryBatch {
    /// The repository these records were fetched for.
    pub repository_name: String,
    /// The repository's raw contributor records.
    pub contributors: Vec<GithubContributor>,
}

/// Mathematical model of a [`RepositoryBatch`].
#[verifier::ext_equal]
pub struct RepositoryBatchModel {
    pub repository_name: Seq<char>,
    pub contributors: Seq<GithubContributorModel>,
}

impl View for RepositoryBatch {
    type V = RepositoryBatchModel;

    open spec fn view(&self) -> RepositoryBatchModel {
        RepositoryBatchModel {
            repository_name: self.repository_name@,
            contributors: self.contributors@.map_values(|g: GithubContributor| g@),
        }
    }
}

/// The models of a sequence of batches.
pub open spec fn batches_view(s: Seq<RepositoryBatch>) -> Seq<RepositoryBatchModel> {
    s.map_values(|b: RepositoryBatch| b@)
}

/// The models of a sequence of repository descriptors.
pub open spec fn repositories_view(s: Seq<GithubRepository>) -> Seq<GithubRepositoryModel> {
    s.map_values(|r: GithubRepository| r@)
}

/// The models of a flat sequence of (repository name, record) pairs.
pub open spec fn pairs_view(s: Seq<(String, GithubContributor)>) -> Seq<
    (Seq<char>, GithubContributorModel),
> {
    s.map_values(|p: (String, GithubContributor)| (p.0@, p.1@))
}

/// One batch flattened into (repository name, record) pairs.
pub open spec fn spec_batch_pairs(b: RepositoryBatchModel) -> Seq<
    (Seq<char>, GithubContributorModel),
> {
    b.contributors.map_values(|g: GithubContributorModel| (b.repository_name, g))
}

/// All batches flattened into (repository name, record) pairs, in batch
/// order and, within a batch, in record order.
pub open spec fn spec_flatten(batches: Seq<RepositoryBatchModel>) -> Seq<
    (Seq<char>, GithubContributorModel),
>
    decreases batches.len(),
{
    if batches.len() == 0 {
        Seq::empty()
    } else {
        spec_flatten(batches.drop_last()) + spec_batch_pairs(batches.last())
    }
}

/// Addition of commit counts, saturating at `u32::MAX`.
pub open spec fn spec_sat_add(a: u32, b: u32) -> u32 {
    if a + b > u32::MAX {
        u32::MAX
    } else {
        (a + b) as u32
    }
}

/// Adds commit counts, saturating at `u32::MAX`.
pub fn sat_add(a: u32, b: u32) -> (r: u32)
    ensures
        r == spec_sat_add(a, b),
{
    if a > u32::MAX - b {
        u32::MAX
    } else {
        a + b
    }
}

/// The first position holding `name` as its username, or the sequence's
/// length where no position does.
pub open spec fn spec_index_of_user(s: Seq<ContributorModel>, name: Seq<char>) -> int
    decreases s.len(),
{
    if s.len() == 0 {
        0
    } else if s[0].username == name {
        0
    } else {
        1 + spec_index_of_user(s.drop_first(), name)
    }
}

proof fn lemma_index_of_user_is(s: Seq<ContributorModel>, name: Seq<char>, i: int)
    requires
        0 <= i <= s.len(),
        forall|j: int| 0 <= j < i ==> s[j].username != name,
        i < s.len() ==> s[i].username == name,
    ensures
        spec_index_of_user(s, name) == i,
    decreases i,
{
    if i == 0 {
    } else {
        assert(s[0].username != name);
        lemma_index_of_user_is(s.drop_first(), name, i - 1);
    }
}

/// Merges one (repository name, record) pair into the accumulated list:
/// a first occurrence of the login starts a new entry, a repeated one adds
/// to the total and appends a per-repository entry.
pub open spec fn spec_merge_pair(
    acc: Seq<ContributorModel>,
    repo: Seq<char>,
    g: GithubContributorModel,
) -> Seq<ContributorModel> {
    let i = spec_index_of_user(acc, g.login);
    let entry = RepositoryContributorModel { name: repo, commits: g.contributions };
    if i < acc.len() {
        acc.update(
            i,
            ContributorModel {
                username: acc[i].username,
                avatar_url: acc[i].avatar_url,
                commits: spec_sat_add(acc[i].commits, g.contributions),
                repositories: acc[i].repositories.push(entry),
            },
        )
    } else {
        acc.push(
            ContributorModel {
                username: g.login,
                avatar_url: g.avatar_url,
                commits: g.contributions,
                repositories: seq![entry],
            },
        )
    }
}

/// All pairs merged in order: the grouping step of aggregation.
pub open spec fn spec_group(pairs: Seq<(Seq<char>, GithubContributorModel)>) -> Seq<
    ContributorModel,
>
    decreases pairs.len(),
{
    if pairs.len() == 0 {
        Seq::empty()
    } else {
        spec_merge_pair(spec_group(pairs.drop_last()), pairs.last().0, pairs.last().1)
    }
}

fn find_user(acc: &Vec<Contributor>, login: &String) -> (i: usize)
    ensures
        i == spec_index_of_user(contributors_view(acc@), login@),
        i <= acc@.len(),
{
    let ghost v = contributors_view(acc@);
    let mut i: usize = 0;
    while i < acc.len()
        invariant
            i <= acc@.len(),
            v == contributors_view(acc@),
            forall|j: int| 0 <= j < i ==> v[j].username != login@,
        decreases acc@.len() - i,
    {
        if acc[i].username == *login {
            proof {
                lemma_index_of_user_is(v, login@, i as int);
            }
            return i;
        }
        i += 1;
    }
    proof {
        lemma_index_of_user_is(v, login@, acc@.len() as int);
    }
    i
}

fn merge_pair(acc: &mut Vec<Contributor>, repo: &String, g: &GithubContributor)
    ensures
        contributors_view(final(acc)@) == spec_merge_pair(
            contributors_view(old(acc)@),
            repo@,
            g@,
        ),
{
    let ghost v0 = contributors_view(old(acc)@);
    let i = find_user(acc, &g.login);
    let entry = RepositoryContributor { name: repo.clone(), commits: g.contributions };
    if i < acc.len() {
        let mut c = acc.remove(i);
        c.commits = sat_add(c.commits, g.contributions);
        c.repositories.push(entry);
        acc.insert(i, c);
        proof {
            assert(contributors_view(acc@) =~~= spec_merge_pair(v0, repo@, g@));
        }
    } else {
        let mut repositories: Vec<RepositoryContributor> = Vec::new();
        repositories.push(entry);
        proof {
            assert(crate::contributors::repos_view(repositories@) =~= seq![
                RepositoryContributorModel { name: repo@, commits: g.contributions },
            ]);
        }
        acc.push(
            Contributor {
                username: g.login.clone(),
                avatar_url: g.avatar_url.clone(),
                commits: g.contributions,
                repositories,
            },
        );
        proof {
            assert(contributors_view(acc@) =~~= spec_merge_pair(v0, repo@, g@));
        }
    }
}

fn flatten_batches(batches: &Vec<RepositoryBatch>) -> (flat: Vec<(String, GithubContributor)>)
    ensures
        pairs_view(flat@) == spec_flatten(batches_view(batches@)),
{
    let ghost bv = batches_view(batches@);
    let mut flat: Vec<(String, GithubContributor)> = Vec::new();
    let mut i: usize = 0;
    while i < batches.len()
        invariant
            i <= batches@.len(),
            bv == batches_view(batches@),
            pairs_view(flat@) == spec_flatten(bv.take(i as int)),
        decreases batches@.len() - i,
    {
        let mut k: usize = 0;
        proof {
            assert(bv[i as int] == batches@[i as int]@);
        }
        while k < batches[i].contributors.len()
            invariant
                i < batches@.len(),
                k <= bv[i as int].contributors.len(),
                bv == batches_view(batches@),
                pairs_view(flat@) == spec_flatten(bv.take(i as int)) + spec_batch_pairs(
                    bv[i as int],
                ).take(k as int),
            decreases bv[i as int].contributors.len() - k,
        {
            let pair = (batches[i].repository_name.clone(), batches[i].contributors[k].clone());
            let ghost prev = pairs_view(flat@);
            let ghost b = spec_batch_pairs(bv[i as int]);
            proof {
                assert((pair.0@, pair.1@) == b[k as int]);
            }
            flat.push(pair);
            proof {
                assert(pairs_view(flat@) =~= prev.push(b[k as int]));
                assert(b.take(k + 1) =~= b.take(k as int).push(b[k as int]));
                assert(spec_flatten(bv.take(i as int)) + b.take(k + 1) =~= (spec_flatten(
                    bv.take(i as int),
                ) + b.take(k as int)).push(b[k as int]));
            }
            k += 1;
        }
        proof {
            assert(bv.take(i + 1).drop_last() =~~= bv.take(i as int));
            assert(spec_batch_pairs(bv[i as int]).take(k as int)
                =~~= spec_batch_pairs(bv.take(i + 1).last()));
        }
        i += 1;
    }
    proof {
        assert(bv.take(batches@.len() as int) =~~= bv);
    }
    flat
}

fn group_pairs(flat: &Vec<(String, GithubContributor)>) -> (acc: Vec<Contributor>)
    ensures
        contributors_view(acc@) == spec_group(pairs_view(flat@)),
{
    let ghost pv = pairs_view(flat@);
    let mut acc: Vec<Contributor> = Vec::new();
    let mut k: usize = 0;
    while k < flat.len()
        invariant
            k <= flat@.len(),
            pv == pairs_view(flat@),
            contributors_view(acc@) == spec_group(pv.take(k as int)),
        decreases flat@.len() - k,
    {
        merge_pair(&mut acc, &flat[k].0, &flat[k].1);
        proof {
            assert(pv.take(k + 1).drop_last() =~~= pv.take(k as int));
            assert(pv.take(k + 1).last() == pv[k as int]);
        }
        k += 1;
    }
    proof {
        assert(pv.take(flat@.len() as int) =~~= pv);
    }
    acc
}

/// The fixed denylist of automation accounts: these never count as
/// contributors, whatever they committed.
pub open spec fn spec_is_bot(name: Seq<char>) -> bool {
    name == "actions-user"@ || name == "crowdin-bot"@
}

/// Whether the login names one of the known automation accounts.
pub fn is_bot(name: &String) -> (r: bool)
    ensures
        r == spec_is_bot(name@),
{
    let actions: String = "actions-user".to_owned();
    let crowdin: String = "crowdin-bot".to_owned();
    *name == actions || *name == crowdin
}

/// The list with every denylisted entry removed, order otherwise kept.
pub open spec fn spec_remove_bots(s: Seq<ContributorModel>) -> Seq<ContributorModel>
    decreases s.len(),
{
    if s.len() == 0 {
        Seq::empty()
    } else if spec_is_bot(s.last().username) {
        spec_remove_bots(s.drop_last())
    } else {
        spec_remove_bots(s.drop_last()).push(s.last())
    }
}

fn remove_bots(v: Vec<Contributor>) -> (r: Vec<Contributor>)
    ensures
        contributors_view(r@) == spec_remove_bots(contributors_view(v@)),
{
    let ghost cv = contributors_view(v@);
    let mut r: Vec<Contributor> = Vec::new();
    let mut i: usize = 0;
    while i < v.len()
        invariant
            i <= v@.len(),
            cv == contributors_view(v@),
            contributors_view(r@) == spec_remove_bots(cv.take(i as int)),
        decreases v@.len() - i,
    {
        proof {
            assert(cv.take(i + 1).drop_last() =~~= cv.take(i as int));
            assert(cv.take(i + 1).last() == cv[i as int]);
        }
        if !is_bot(&v[i].username) {
            r.push(v[i].clone());
            proof {
                assert(contributors_view(r@) =~~= spec_remove_bots(cv.take(i + 1)));
            }
        }
        i += 1;
    }
    proof {
        assert(cv.take(v@.len() as int) =~~= cv);
    }
    r
}

/// One entry placed into an already ranked list: it goes after every entry
/// with at least as many commits and before the first with fewer, so equal
/// counts keep their existing relative order (a stable insertion).
pub open spec fn spec_insert_ranked(s: Seq<ContributorModel>, c: ContributorModel) -> Seq<
    ContributorModel,
>
    decreases s.len(),
{
    if s.len() == 0 {
        seq![c]
    } else if s[0].commits >= c.commits {
        seq![s[0]] + spec_insert_ranked(s.drop_first(), c)
    } else {
        seq![c] + s
    }
}

/// The list ranked in decreasing order of commit count; entries with equal
/// counts keep the order they arrived in.
pub open spec fn spec_rank(s: Seq<ContributorModel>) -> Seq<ContributorModel>
    decreases s.len(),
{
    if s.len() == 0 {
        Seq::empty()
    } else {
        spec_insert_ranked(spec_rank(s.drop_last()), s.last())
    }
}

proof fn lemma_insert_ranked_at(s: Seq<ContributorModel>, c: ContributorModel, k: int)
    requires
        0 <= k <= s.len(),
        forall|j: int| 0 <= j < k ==> s[j].commits >= c.commits,
        k < s.len() ==> s[k].commits < c.commits,
    ensures
        spec_insert_ranked(s, c) =~= s.take(k) + seq![c] + s.skip(k),
    decreases k,
{
    if k == 0 {
    } else {
        lemma_insert_ranked_at(s.drop_first(), c, k - 1);
        assert(s.drop_first().take(k - 1) =~= s.take(k).drop_first());
        assert(s.drop_first().skip(k - 1) =~= s.skip(k));
    }
}

fn insert_ranked(out: &mut Vec<Contributor>, c: Contributor)
    ensures
        contributors_view(final(out)@) == spec_insert_ranked(
            contributors_view(old(out)@),
            c@,
        ),
{
    let ghost v = contributors_view(out@);
    let mut k: usize = 0;
    while k < out.len() && out[k].commits >= c.commits
        invariant
            k <= out@.len(),
            v == contributors_view(out@),
            forall|j: int| 0 <= j < k ==> v[j].commits >= c@.commits,
        decreases out@.len() - k,
    {
        k += 1;
    }
    proof {
        lemma_insert_ranked_at(v, c@, k as int);
    }
    out.insert(k, c);
    proof {
        assert(contributors_view(out@) =~~= v.take(k as int) + seq![c@] + v.skip(k as int));
    }
}

fn rank_contributors(v: Vec<Contributor>) -> (r: Vec<Contributor>)
    ensures
        contributors_view(r@) == spec_rank(contributors_view(v@)),
{
    let ghost cv = contributors_view(v@);
    let mut r: Vec<Contributor> = Vec::new();
    let mut i: usize = 0;
    while i < v.len()
        invariant
            i <= v@.len(),
            cv == contributors_view(v@),
            contributors_view(r@) == spec_rank(cv.take(i as int)),
        decreases v@.len() - i,
    {
        insert_ranked(&mut r, v[i].clone());
        proof {
            assert(cv.take(i + 1).drop_last() =~~= cv.take(i as int));
            assert(cv.take(i + 1).last() == cv[i as int]);
        }
        i += 1;
    }
    proof {
        assert(cv.take(v@.len() as int) =~~= cv);
    }
    r
}

/// Whether commit counts never increase along the list.
pub open spec fn spec_ranked(s: Seq<ContributorModel>) -> bool {
    forall|x: int, y: int| 0 <= x <= y < s.len() ==> s[x].commits >= s[y].commits
}

/// The position a stable insertion puts `c` at: past every entry with at
/// least as many commits.
spec fn spec_rank_pos(s: Seq<ContributorModel>, c: ContributorModel) -> int
    decreases s.len(),
{
    if s.len() == 0 {
        0
    } else if s[0].commits < c.commits {
        0
    } else {
        1 + spec_rank_pos(s.drop_first(), c)
    }
}

proof fn lemma_rank_pos_props(s: Seq<ContributorModel>, c: ContributorModel)
    ensures
        0 <= spec_rank_pos(s, c) <= s.len(),
        forall|j: int| 0 <= j < spec_rank_pos(s, c) ==> s[j].commits >= c.commits,
        spec_rank_pos(s, c) < s.len() ==> s[spec_rank_pos(s, c)].commits < c.commits,
    decreases s.len(),
{
    if s.len() > 0 && s[0].commits >= c.commits {
        lemma_rank_pos_props(s.drop_first(), c);
        assert forall|j: int| 0 <= j < spec_rank_pos(s, c) implies s[j].commits
            >= c.commits by {
            if j > 0 {
                assert(s.drop_first()[j - 1] == s[j]);
            }
        }
    }
}

proof fn lemma_insert_preserves_ranked(s: Seq<ContributorModel>, c: ContributorModel)
    requires
        spec_ranked(s),
    ensures
        spec_ranked(spec_insert_ranked(s, c)),
{
    let k = spec_rank_pos(s, c);
    lemma_rank_pos_props(s, c);
    lemma_insert_ranked_at(s, c, k);
    let r = spec_insert_ranked(s, c);
    assert forall|x: int, y: int| 0 <= x <= y < r.len() implies r[x].commits
        >= r[y].commits by {
        assert(x < k ==> r[x] == s[x]);
        assert(x == k ==> r[x] == c);
        assert(x > k ==> r[x] == s[x - 1]);
        assert(y < k ==> r[y] == s[y]);
        assert(y == k ==> r[y] == c);
        assert(y > k ==> r[y] == s[y - 1]);
    }
}

/// The ranked list really is ranked: commit counts never increase along it.
pub proof fn lemma_rank_is_ranked(s: Seq<ContributorModel>)
    ensures
        spec_ranked(spec_rank(s)),
    decreases s.len(),
{
    if s.len() > 0 {
        lemma_rank_is_ranked(s.drop_last());
        lemma_insert_preserves_ranked(spec_rank(s.drop_last()), s.last());
    }
}

/// Ranking only rearranges: the ranked list holds exactly the entries of
/// its input, each as often as there.
pub proof fn lemma_rank_permutes(s: Seq<ContributorModel>)
    ensures
        spec_rank(s).to_multiset() == s.to_multiset(),
    decreases s.len(),
{
    broadcast use vstd::seq_lib::group_to_multiset_ensures;

    if s.len() > 0 {
        lemma_rank_permutes(s.drop_last());
        lemma_insert_multiset(spec_rank(s.drop_last()), s.last());
        assert(s.drop_last().push(s.last()) =~= s);
    }
}

proof fn lemma_insert_multiset(s: Seq<ContributorModel>, c: ContributorModel)
    ensures
        spec_insert_ranked(s, c).to_multiset() == s.to_multiset().insert(c),
    decreases s.len(),
{
    broadcast use vstd::seq_lib::group_to_multiset_ensures;
    broadcast use vstd::multiset::group_multiset_axioms;

    if s.len() == 0 {
        assert(seq![c] =~= Seq::<ContributorModel>::empty().push(c));
        assert(s =~= Seq::<ContributorModel>::empty());
    } else if s[0].commits >= c.commits {
        let t = s.drop_first();
        lemma_insert_multiset(t, c);
        vstd::seq_lib::lemma_multiset_commutative(seq![s[0]], spec_insert_ranked(t, c));
        vstd::seq_lib::lemma_multiset_commutative(seq![s[0]], t);
        assert(s =~= seq![s[0]] + t);
        assert(spec_insert_ranked(s, c).to_multiset() =~= s.to_multiset().insert(c));
    } else {
        vstd::seq_lib::lemma_multiset_commutative(seq![c], s);
        assert(seq![c] =~= Seq::<ContributorModel>::empty().push(c));
        assert(spec_insert_ranked(s, c).to_multiset() =~= s.to_multiset().insert(c));
    }
}

/// One per-repository entry placed into an already ranked list, stable, as
/// [`spec_insert_ranked`] does for whole contributors.
pub open spec fn spec_insert_repo_ranked(
    s: Seq<RepositoryContributorModel>,
    e: RepositoryContributorModel,
) -> Seq<RepositoryContributorModel>
    decreases s.len(),
{
    if s.len() == 0 {
        seq![e]
    } else if s[0].commits >= e.commits {
        seq![s[0]] + spec_insert_repo_ranked(s.drop_first(), e)
    } else {
        seq![e] + s
    }
}

/// A contributor's per-repository entries ranked in decreasing order of
/// commit count; equal counts keep the order they arrived in.
pub open spec fn spec_rank_repos(s: Seq<RepositoryContributorModel>) -> Seq<
    RepositoryContributorModel,
>
    decreases s.len(),
{
    if s.len() == 0 {
        Seq::empty()
    } else {
        spec_insert_repo_ranked(spec_rank_repos(s.drop_last()), s.last())
    }
}

proof fn lemma_insert_repo_ranked_at(
    s: Seq<RepositoryContributorModel>,
    e: RepositoryContributorModel,
    k: int,
)
    requires
        0 <= k <= s.len(),
        forall|j: int| 0 <= j < k ==> s[j].commits >= e.commits,
        k < s.len() ==> s[k].commits < e.commits,
    ensures
        spec_insert_repo_ranked(s, e) =~= s.take(k) + seq![e] + s.skip(k),
    decreases k,
{
    if k == 0 {
    } else {
        lemma_insert_repo_ranked_at(s.drop_first(), e, k - 1);
        assert(s.drop_first().take(k - 1) =~= s.take(k).drop_first());
        assert(s.drop_first().skip(k - 1) =~= s.skip(k));
    }
}

fn insert_repo_ranked(out: &mut Vec<RepositoryContributor>, e: RepositoryContributor)
    ensures
        crate::contributors::repos_view(final(out)@) == spec_insert_repo_ranked(
            crate::contributors::repos_view(old(out)@),
            e@,
        ),
{
    let ghost v = crate::contributors::repos_view(out@);
    let mut k: usize = 0;
    while k < out.len() && out[k].commits >= e.commits
        invariant
            k <= out@.len(),
            v == crate::contributors::repos_view(out@),
            forall|j: int| 0 <= j < k ==> v[j].commits >= e@.commits,
        decreases out@.len() - k,
    {
        k += 1;
    }
    proof {
        lemma_insert_repo_ranked_at(v, e@, k as int);
    }
    out.insert(k, e);
    proof {
        assert(crate::contributors::repos_view(out@) =~~= v.take(k as int) + seq![e@] + v.skip(
            k as int,
        ));
    }
}

fn rank_repositories(v: &Vec<RepositoryContributor>) -> (r: Vec<RepositoryContributor>)
    ensures
        crate::contributors::repos_view(r@) == spec_rank_repos(
            crate::contributors::repos_view(v@),
        ),
{
    let ghost rv = crate::contributors::repos_view(v@);
    let mut r: Vec<RepositoryContributor> = Vec::new();
    let mut i: usize = 0;
    while i < v.len()
        invariant
            i <= v@.len(),
            rv == crate::contributors::repos_view(v@),
            crate::contributors::repos_view(r@) == spec_rank_repos(rv.take(i as int)),
        decreases v@.len() - i,
    {
        insert_repo_ranked(&mut r, v[i].clone());
        proof {
            assert(rv.take(i + 1).drop_last() =~~= rv.take(i as int));
            assert(rv.take(i + 1).last() == rv[i as int]);
        }
        i += 1;
    }
    proof {
        assert(rv.take(v@.len() as int) =~~= rv);
    }
    r
}

/// Each contributor with its per-repository entries ranked; nothing else
/// about the contributor changes.
pub open spec fn spec_rank_each_repositories(s: Seq<ContributorModel>) -> Seq<ContributorModel> {
    s.map_values(
        |c: ContributorModel|
            ContributorModel {
                username: c.username,
                avatar_url: c.avatar_url,
                commits: c.commits,
                repositories: spec_rank_repos(c.repositories),
            },
    )
}

fn rank_each_repositories(v: Vec<Contributor>) -> (r: Vec<Contributor>)
    ensures
        contributors_view(r@) == spec_rank_each_repositories(contributors_view(v@)),
{
    let ghost cv = contributors_view(v@);
    let mut r: Vec<Contributor> = Vec::new();
    let mut i: usize = 0;
    while i < v.len()
        invariant
            i <= v@.len(),
            cv == contributors_view(v@),
            contributors_view(r@) == spec_rank_each_repositories(cv.take(i as int)),
        decreases v@.len() - i,
    {
        let c = &v[i];
        let ranked = Contributor {
            username: c.username.clone(),
            avatar_url: c.avatar_url.clone(),
            commits: c.commits,
            repositories: rank_repositories(&c.repositories),
        };
        proof {
            assert(c@ == cv[i as int]);
            assert(cv.take(i + 1)[i as int] == cv[i as int]);
            assert(ranked@ == spec_rank_each_repositories(cv.take(i + 1))[i as int]);
        }
        let ghost prev = contributors_view(r@);
        r.push(ranked);
        proof {
            assert(contributors_view(r@) =~= prev.push(
                spec_rank_each_repositories(cv.take(i + 1))[i as int],
            ));
            assert forall|j: int| 0 <= j < i implies spec_rank_each_repositories(
                cv.take(i as int),
            )[j] == spec_rank_each_repositories(cv.take(i + 1))[j] by {
                assert(cv.take(i as int)[j] == cv.take(i + 1)[j]);
            }
            assert(contributors_view(r@) =~= spec_rank_each_repositories(cv.take(i + 1)));
        }
        i += 1;
    }
    proof {
        assert(cv.take(v@.len() as int) =~~= cv);
    }
    r
}

/// The whole aggregation pipeline: flatten the batches, group by login,
/// drop the denylisted automation accounts, rank contributors by total
/// commit count, and rank each contributor's per-repository entries.
pub open spec fn spec_aggregate(batches: Seq<RepositoryBatchModel>) -> Seq<ContributorModel> {
    spec_rank_each_repositories(spec_rank(spec_remove_bots(spec_group(spec_flatten(batches)))))
}

/// Merges raw per-repository contributor records into ranked
/// per-contributor totals.
///
/// Pure and deterministic: the result is a function of the batches alone,
/// pinned exactly by [`spec_aggregate`]. Totals saturate at `u32::MAX`.
pub fn aggregate(batches: &Vec<RepositoryBatch>) -> (r: Vec<Contributor>)
    ensures
        contributors_view(r@) == spec_aggregate(batches_view(batches@)),
{
    let flat = flatten_batches(batches);
    let grouped = group_pairs(&flat);
    let humans = remove_bots(grouped);
    let ranked = rank_contributors(humans);
    rank_each_repositories(ranked)
}

/// Nothing denylisted survives: every entry of the filtered list carries a
/// username off the denylist, however high its commit count was.
pub proof fn lemma_remove_bots_removes_all(s: Seq<ContributorModel>, j: int)
    requires
        0 <= j < spec_remove_bots(s).len(),
    ensures
        !spec_is_bot(spec_remove_bots(s)[j].username),
    decreases s.len(),
{
    if s.len() > 0 {
        if !spec_is_bot(s.last().username) && j == spec_remove_bots(s).len() - 1 {
        } else {
            lemma_remove_bots_removes_all(s.drop_last(), j);
        }
    }
}

/// Nothing human is lost: every entry off the denylist is kept.
pub proof fn lemma_remove_bots_keeps_humans(s: Seq<ContributorModel>, i: int)
    requires
        0 <= i < s.len(),
        !spec_is_bot(s[i].username),
    ensures
        spec_remove_bots(s).contains(s[i]),
    decreases s.len(),
{
    if i == s.len() - 1 {
        assert(spec_remove_bots(s).last() == s.last());
    } else {
        lemma_remove_bots_keeps_humans(s.drop_last(), i);
        let sub = spec_remove_bots(s.drop_last());
        let w = choose|w: int| 0 <= w < sub.len() && sub[w] == s.drop_last()[i];
        if !spec_is_bot(s.last().username) {
            assert(spec_remove_bots(s)[w] == sub[w]);
        }
    }
}

/// Whether a repository takes part in aggregation: neither private, nor a
/// fork, nor the documentation-only repository excluded by name.
pub open spec fn spec_eligible(r: GithubRepositoryModel) -> bool {
    !r.private && !r.fork && r.name != "badges"@
}

/// The repositories that take part in aggregation, in their given order.
pub open spec fn spec_eligible_repositories(s: Seq<GithubRepositoryModel>) -> Seq<
    GithubRepositoryModel,
>
    decreases s.len(),
{
    if s.len() == 0 {
        Seq::empty()
    } else if spec_eligible(s.last()) {
        spec_eligible_repositories(s.drop_last()).push(s.last())
    } else {
        spec_eligible_repositories(s.drop_last())
    }
}

/// Selects the repositories whose contributors are to be fetched and
/// aggregated: private repositories, forks and the excluded name are left
/// out before any fetch, so they contribute no records at all.
pub fn eligible_repositories(repos: &Vec<GithubRepository>) -> (r: Vec<GithubRepository>)
    ensures
        repositories_view(r@) == spec_eligible_repositories(repositories_view(repos@)),
{
    let ghost rv = repositories_view(repos@);
    let excluded: String = "badges".to_owned();
    let mut r: Vec<GithubRepository> = Vec::new();
    let mut i: usize = 0;
    while i < repos.len()
        invariant
            i <= repos@.len(),
            rv == repositories_view(repos@),
            excluded@ == "badges"@,
            repositories_view(r@) == spec_eligible_repositories(rv.take(i as int)),
        decreases repos@.len() - i,
    {
        proof {
            assert(rv.take(i + 1).drop_last() =~~= rv.take(i as int));
            assert(rv.take(i + 1).last() == rv[i as int]);
        }
        if !repos[i].private && !repos[i].fork && !(repos[i].name == excluded) {
            r.push(repos[i].clone());
            proof {
                assert(repositories_view(r@) =~~= spec_eligible_repositories(rv.take(i + 1)));
            }
        }
        i += 1;
    }
    proof {
        assert(rv.take(repos@.len() as int) =~~= rv);
    }
    r
}

/// Private repositories and forks contribute nothing: every selected
/// repository is eligible, so an excluded one is never even fetched.
pub proof fn lemma_eligible_excludes(s: Seq<GithubRepositoryModel>, j: int)
    requires
        0 <= j < spec_eligible_repositories(s).len(),
    ensures
        spec_eligible(spec_eligible_repositories(s)[j]),
        !spec_eligible_repositories(s)[j].private,
        !spec_eligible_repositories(s)[j].fork,
    decreases s.len(),
{
    if s.len() > 0 {
        if spec_eligible(s.last()) && j == spec_eligible_repositories(s).len() - 1 {
        } else {
            lemma_eligible_excludes(s.drop_last(), j);
        }
    }
}

/// No eligible repository is dropped: whatever is neither private, nor a
/// fork, nor excluded by name is selected.
pub proof fn lemma_eligible_keeps(s: Seq<GithubRepositoryModel>, i: int)
    requires
        0 <= i < s.len(),
        spec_eligible(s[i]),
    ensures
        spec_eligible_repositories(s).contains(s[i]),
    decreases s.len(),
{
    if i == s.len() - 1 {
        assert(spec_eligible_repositories(s).last() == s.last());
    } else {
        lemma_eligible_keeps(s.drop_last(), i);
        let sub = spec_eligible_repositories(s.drop_last());
        let w = choose|w: int| 0 <= w < sub.len() && sub[w] == s.drop_last()[i];
        if spec_eligible(s.last()) {
            assert(spec_eligible_repositories(s)[w] == sub[w]);
        }
    }
}

/// No denylisted account ever appears in aggregated output, however high
/// its commit count was.
pub proof fn lemma_aggregate_no_bots(batches: Seq<RepositoryBatchModel>, j: int)
    requires
        0 <= j < spec_aggregate(batches).len(),
    ensures
        !spec_is_bot(spec_aggregate(batches)[j].username),
{
    broadcast use vstd::seq_lib::group_to_multiset_ensures;

    let g = spec_remove_bots(spec_group(spec_flatten(batches)));
    let ranked = spec_rank(g);
    lemma_rank_permutes(g);
    assert(spec_aggregate(batches)[j].username == ranked[j].username);
    assert(ranked.contains(ranked[j]));
    assert(g.to_multiset().count(ranked[j]) > 0);
    assert(g.contains(ranked[j]));
    let l = choose|l: int| 0 <= l < g.len() && g[l] == ranked[j];
    lemma_remove_bots_removes_all(spec_group(spec_flatten(batches)), l);
}

/// Aggregated output is ranked: total commit counts never increase along it.
pub proof fn lemma_aggregate_ranked(batches: Seq<RepositoryBatchModel>)
    ensures
        spec_ranked(spec_aggregate(batches)),
{
    let g = spec_remove_bots(spec_group(spec_flatten(batches)));
    lemma_rank_is_ranked(g);
    let ranked = spec_rank(g);
    assert forall|x: int| 0 <= x < ranked.len() implies spec_rank_each_repositories(
        ranked,
    )[x].commits == ranked[x].commits by {}
}

/// Whether no two entries share a username.
pub open spec fn spec_unique_usernames(s: Seq<ContributorModel>) -> bool {
    forall|i: int, j: int| 0 <= i < j < s.len() ==> s[i].username != s[j].username
}

proof fn lemma_index_of_user_bounds(s: Seq<ContributorModel>, name: Seq<char>)
    ensures
        0 <= spec_index_of_user(s, name) <= s.len(),
        spec_index_of_user(s, name) < s.len() ==> s[spec_index_of_user(s, name)].username
            == name,
        forall|j: int| 0 <= j < spec_index_of_user(s, name) ==> s[j].username != name,
    decreases s.len(),
{
    if s.len() > 0 && s[0].username != name {
        lemma_index_of_user_bounds(s.drop_first(), name);
        assert forall|j: int| 0 <= j < spec_index_of_user(s, name) implies s[j].username
            != name by {
            if j > 0 {
                assert(s.drop_first()[j - 1] == s[j]);
            }
        }
    }
}

proof fn lemma_merge_preserves_unique(
    acc: Seq<ContributorModel>,
    repo: Seq<char>,
    g: GithubContributorModel,
)
    requires
        spec_unique_usernames(acc),
    ensures
        spec_unique_usernames(spec_merge_pair(acc, repo, g)),
{
    lemma_index_of_user_bounds(acc, g.login);
    let i = spec_index_of_user(acc, g.login);
    let r = spec_merge_pair(acc, repo, g);
    if i < acc.len() {
        assert forall|x: int, y: int| 0 <= x < y < r.len() implies r[x].username
            != r[y].username by {
            assert(r[x].username == acc[x].username);
            assert(r[y].username == acc[y].username);
        }
    }
}

/// Grouping keys by login: the grouped list holds at most one entry per
/// username.
pub proof fn lemma_group_unique(pairs: Seq<(Seq<char>, GithubContributorModel)>)
    ensures
        spec_unique_usernames(spec_group(pairs)),
    decreases pairs.len(),
{
    if pairs.len() > 0 {
        lemma_group_unique(pairs.drop_last());
        lemma_merge_preserves_unique(
            spec_group(pairs.drop_last()),
            pairs.last().0,
            pairs.last().1,
        );
    }
}

proof fn lemma_remove_bots_members(s: Seq<ContributorModel>, j: int)
    requires
        0 <= j < spec_remove_bots(s).len(),
    ensures
        s.contains(spec_remove_bots(s)[j]),
    decreases s.len(),
{
    if s.len() > 0 {
        if !spec_is_bot(s.last().username) && j == spec_remove_bots(s).len() - 1 {
            assert(s[s.len() - 1] == spec_remove_bots(s)[j]);
        } else {
            lemma_remove_bots_members(s.drop_last(), j);
            let l = choose|l: int|
                0 <= l < s.drop_last().len() && s.drop_last()[l] == spec_remove_bots(
                    s.drop_last(),
                )[j];
            assert(s[l] == spec_remove_bots(s)[j]);
        }
    }
}

proof fn lemma_remove_bots_unique(s: Seq<ContributorModel>)
    requires
        spec_unique_usernames(s),
    ensures
        spec_unique_usernames(spec_remove_bots(s)),
    decreases s.len(),
{
    if s.len() > 0 {
        assert(spec_unique_usernames(s.drop_last()));
        lemma_remove_bots_unique(s.drop_last());
        let sub = spec_remove_bots(s.drop_last());
        if !spec_is_bot(s.last().username) {
            let r = spec_remove_bots(s);
            assert forall|x: int, y: int| 0 <= x < y < r.len() implies r[x].username
                != r[y].username by {
                if y == r.len() - 1 {
                    lemma_remove_bots_members(s.drop_last(), x);
                    let l = choose|l: int|
                        0 <= l < s.drop_last().len() && s.drop_last()[l] == sub[x];
                    assert(s[l].username != s[s.len() - 1].username);
                }
            }
        }
    }
}

proof fn lemma_unique_permutation(a: Seq<ContributorModel>, b: Seq<ContributorModel>)
    requires
        spec_unique_usernames(a),
        a.to_multiset() == b.to_multiset(),
    ensures
        spec_unique_usernames(b),
{
    broadcast use vstd::seq_lib::group_to_multiset_ensures;

    assert(a.no_duplicates()) by {
        assert forall|i: int, j: int|
            0 <= i < a.len() && 0 <= j < a.len() && i != j implies a[i] != a[j] by {
            if a[i] == a[j] {
                assert(a[i].username == a[j].username);
            }
        }
    }
    a.lemma_multiset_has_no_duplicates();
    b.lemma_multiset_has_no_duplicates_conv();
    assert forall|x: int, y: int| 0 <= x < y < b.len() implies b[x].username
        != b[y].username by {
        assert(b[x] != b[y]);
        assert(b.contains(b[x]));
        assert(b.contains(b[y]));
        assert(a.to_multiset().count(b[x]) > 0);
        assert(a.to_multiset().count(b[y]) > 0);
        assert(a.contains(b[x]));
        assert(a.contains(b[y]));
        let l1 = choose|l: int| 0 <= l < a.len() && a[l] == b[x];
        let l2 = choose|l: int| 0 <= l < a.len() && a[l] == b[y];
        assert(l1 != l2);
        assert(a[l1].username != a[l2].username);
    }
}

/// Usernames are a unique key of aggregated output: no login ever appears
/// twice, however many repositories it committed to.
pub proof fn lemma_aggregate_unique_usernames(batches: Seq<RepositoryBatchModel>)
    ensures
        spec_unique_usernames(spec_aggregate(batches)),
{
    let grouped = spec_group(spec_flatten(batches));
    let humans = spec_remove_bots(grouped);
    let ranked = spec_rank(humans);
    lemma_group_unique(spec_flatten(batches));
    lemma_remove_bots_unique(grouped);
    lemma_rank_permutes(humans);
    lemma_unique_permutation(humans, ranked);
    let r = spec_aggregate(batches);
    assert forall|x: int, y: int| 0 <= x < y < r.len() implies r[x].username
        != r[y].username by {
        assert(r[x].username == ranked[x].username);
        assert(r[y].username == ranked[y].username);
    }
}

/// The saturating sum of a list of per-repository commit counts.
pub open spec fn spec_sat_total(s: Seq<RepositoryContributorModel>) -> u32
    decreases s.len(),
{
    if s.len() == 0 {
        0u32
    } else {
        spec_sat_add(spec_sat_total(s.drop_last()), s.last().commits)
    }
}

proof fn lemma_sat_add_assoc(a: u32, b: u32, c: u32)
    ensures
        spec_sat_add(spec_sat_add(a, b), c) == spec_sat_add(a, spec_sat_add(b, c)),
{
}

proof fn lemma_sat_total_concat(a: Seq<RepositoryContributorModel>, b: Seq<RepositoryContributorModel>)
    ensures
        spec_sat_total(a + b) == spec_sat_add(spec_sat_total(a), spec_sat_total(b)),
    decreases b.len(),
{
    if b.len() == 0 {
        assert(a + b =~= a);
    } else {
        assert((a + b).drop_last() =~= a + b.drop_last());
        assert((a + b).last() == b.last());
        lemma_sat_total_concat(a, b.drop_last());
        lemma_sat_add_assoc(spec_sat_total(a), spec_sat_total(b.drop_last()), b.last().commits);
    }
}

proof fn lemma_insert_repo_total(s: Seq<RepositoryContributorModel>, e: RepositoryContributorModel)
    ensures
        spec_sat_total(spec_insert_repo_ranked(s, e)) == spec_sat_add(
            spec_sat_total(s),
            e.commits,
        ),
    decreases s.len(),
{
    assert(spec_sat_total(Seq::<RepositoryContributorModel>::empty()) == 0u32);
    if s.len() == 0 {
        assert(seq![e].drop_last() =~= Seq::<RepositoryContributorModel>::empty());
    } else if s[0].commits >= e.commits {
        let t = s.drop_first();
        lemma_insert_repo_total(t, e);
        lemma_sat_total_concat(seq![s[0]], spec_insert_repo_ranked(t, e));
        lemma_sat_total_concat(seq![s[0]], t);
        assert(seq![s[0]].drop_last() =~= Seq::<RepositoryContributorModel>::empty());
        assert(s =~= seq![s[0]] + t);
        lemma_sat_add_assoc(s[0].commits, spec_sat_total(t), e.commits);
    } else {
        lemma_sat_total_concat(seq![e], s);
        assert(seq![e].drop_last() =~= Seq::<RepositoryContributorModel>::empty());
    }
}

/// Ranking the per-repository entries leaves their saturating sum as it was.
pub proof fn lemma_rank_repos_total(s: Seq<RepositoryContributorModel>)
    ensures
        spec_sat_total(spec_rank_repos(s)) == spec_sat_total(s),
    decreases s.len(),
{
    if s.len() > 0 {
        lemma_rank_repos_total(s.drop_last());
        lemma_insert_repo_total(spec_rank_repos(s.drop_last()), s.last());
    }
}

/// Whether every entry's total equals the saturating sum of its
/// per-repository counts.
pub open spec fn spec_totals_consistent(s: Seq<ContributorModel>) -> bool {
    forall|k: int|
        0 <= k < s.len() ==> #[trigger] s[k].commits == spec_sat_total(s[k].repositories)
}

proof fn lemma_merge_totals(acc: Seq<ContributorModel>, repo: Seq<char>, g: GithubContributorModel)
    requires
        spec_totals_consistent(acc),
    ensures
        spec_totals_consistent(spec_merge_pair(acc, repo, g)),
{
    lemma_index_of_user_bounds(acc, g.login);
    let i = spec_index_of_user(acc, g.login);
    let entry = RepositoryContributorModel { name: repo, commits: g.contributions };
    let r = spec_merge_pair(acc, repo, g);
    if i < acc.len() {
        assert(acc[i].repositories.push(entry).drop_last() =~= acc[i].repositories);
        assert forall|k: int| 0 <= k < r.len() implies r[k].commits == spec_sat_total(
            r[k].repositories,
        ) by {
            if k != i {
                assert(r[k] == acc[k]);
            }
        }
    } else {
        assert(seq![entry].drop_last() =~= Seq::<RepositoryContributorModel>::empty());
        assert(spec_sat_total(Seq::<RepositoryContributorModel>::empty()) == 0u32);
        assert(spec_sat_total(seq![entry]) == g.contributions);
        assert forall|k: int| 0 <= k < r.len() implies r[k].commits == spec_sat_total(
            r[k].repositories,
        ) by {
            if k < acc.len() {
                assert(r[k] == acc[k]);
            } else {
                assert(r[k].repositories == seq![entry]);
            }
        }
    }
}

proof fn lemma_group_totals(pairs: Seq<(Seq<char>, GithubContributorModel)>)
    ensures
        spec_totals_consistent(spec_group(pairs)),
    decreases pairs.len(),
{
    if pairs.len() > 0 {
        lemma_group_totals(pairs.drop_last());
        lemma_merge_totals(spec_group(pairs.drop_last()), pairs.last().0, pairs.last().1);
    }
}

/// Each aggregated total is what its per-repository entries add up to: for
/// every entry of aggregated output, `commits` equals the saturating sum
/// of its `repositories` counts.
pub proof fn lemma_aggregate_totals_consistent(batches: Seq<RepositoryBatchModel>)
    ensures
        spec_totals_consistent(spec_aggregate(batches)),
{
    broadcast use vstd::seq_lib::group_to_multiset_ensures;

    let grouped = spec_group(spec_flatten(batches));
    let humans = spec_remove_bots(grouped);
    let ranked = spec_rank(humans);
    let r = spec_aggregate(batches);
    lemma_group_totals(spec_flatten(batches));
    lemma_rank_permutes(humans);
    assert(spec_totals_consistent(humans)) by {
        assert forall|k: int| 0 <= k < humans.len() implies humans[k].commits == spec_sat_total(
            humans[k].repositories,
        ) by {
            lemma_remove_bots_members(grouped, k);
            let l = choose|l: int| 0 <= l < grouped.len() && grouped[l] == humans[k];
            assert(grouped[l].commits == spec_sat_total(grouped[l].repositories));
        }
    }
    assert(spec_totals_consistent(ranked)) by {
        assert forall|k: int| 0 <= k < ranked.len() implies ranked[k].commits == spec_sat_total(
            ranked[k].repositories,
        ) by {
            assert(ranked.contains(ranked[k]));
            assert(humans.to_multiset().count(ranked[k]) > 0);
            assert(humans.contains(ranked[k]));
            let l = choose|l: int| 0 <= l < humans.len() && humans[l] == ranked[k];
            assert(humans[l].commits == spec_sat_total(humans[l].repositories));
        }
    }
    assert forall|k: int| 0 <= k < r.len() implies r[k].commits == spec_sat_total(
        r[k].repositories,
    ) by {
        assert(r[k].commits == ranked[k].commits);
        assert(r[k].repositories == spec_rank_repos(ranked[k].repositories));
        lemma_rank_repos_total(ranked[k].repositories);
    }
}

/// Aggregation is a function of its input: the same batches always yield
/// the same (deeply equal) output, so repeating a refresh on unchanged
/// data changes nothing.
pub proof fn lemma_aggregate_deterministic(a: Seq<RepositoryBatchModel>, b: Seq<RepositoryBatchModel>)
    requires
        a == b,
    ensures
        spec_aggregate(a) == spec_aggregate(b),
{
}

} // verus!
