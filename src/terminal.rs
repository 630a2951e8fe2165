use vstd::prelude::*;

use std::path::PathBuf;

use crate::model::{all_models, group_selector, GeneratorModel, ModelGroup};

verus! {

#[verifier::external_type_specification]
#[verifier::external_body]
pub struct ExPathBuf(std::path::PathBuf);

/// What the download command is asked for.
pub struct DownloadArgs {
    /// Models to download.
    pub models: Vec<GeneratorModel>,
    /// A group of models to download besides.
    pub group: Option<ModelGroup>,
    /// Output directory for downloads.
    pub outdir: PathBuf,
}

/// Options shared by every command.
pub struct GlobalOptions {}

/// `s` with each run of equal neighbours cut down to its first element.
pub open spec fn dedup_runs(s: Seq<GeneratorModel>) -> Seq<GeneratorModel>
    decreases s.len(),
{
    if s.len() <= 1 {
        s
    } else {
        let front = dedup_runs(s.drop_last());
        if s.last() == s[s.len() - 2] {
            front
        } else {
            front.push(s.last())
        }
    }
}

/// The models to download: those named, then, with a group, the group's models, with
/// neighbouring repeats removed.
pub open spec fn selection_of(models: Seq<GeneratorModel>, group: Option<ModelGroup>) -> Seq<GeneratorModel> {
    match group {
        Some(g) => dedup_runs(models + all_models().filter(group_selector(g))),
        None => models,
    }
}

impl DownloadArgs {
    /// The models to download, in order.
    pub fn selection(&self) -> (r: Vec<GeneratorModel>)
        ensures
            r@ == selection_of(self.models@, self.group),
    {
        let mut all: Vec<GeneratorModel> = Vec::new();
        let mut i: usize = 0;
        while i < self.models.len()
            invariant
                i <= self.models@.len(),
                all@ == self.models@.take(i as int),
            decreases self.models@.len() - i,
        {
            all.push(self.models[i]);
            i = i + 1;
            assert(all@ =~= self.models@.take(i as int));
        }
        assert(all@ =~= self.models@);
        match self.group {
            Some(g) => {
                let extra = g.to_models();
                let mut j: usize = 0;
                while j < extra.len()
                    invariant
                        j <= extra@.len(),
                        all@ == self.models@ + extra@.take(j as int),
                    decreases extra@.len() - j,
                {
                    all.push(extra[j]);
                    j = j + 1;
                    assert(all@ =~= self.models@ + extra@.take(j as int));
                }
                assert(extra@.take(extra@.len() as int) =~= extra@);
                dedup(&all)
            },
            None => all,
        }
    }
}

/// `v` with each run of equal neighbours cut down to its first element.
fn dedup(v: &Vec<GeneratorModel>) -> (r: Vec<GeneratorModel>)
    ensures
        r@ == dedup_runs(v@),
{
    let mut r: Vec<GeneratorModel> = Vec::new();
    let mut i: usize = 0;
    while i < v.len()
        invariant
            i <= v@.len(),
            r@ == dedup_runs(v@.take(i as int)),
            i > 0 ==> r@.len() > 0 && r@.last() == v@[i - 1],
        decreases v@.len() - i,
    {
        let m = v[i];
        proof {
            let next = v@.take(i + 1);
            assert(next.drop_last() =~= v@.take(i as int));
            if i > 0 {
                assert(next[next.len() - 2] == v@[i - 1]);
            }
            lemma_dedup_runs_last(v@.take(i as int));
        }
        if i == 0 || m != v[i - 1] {
            r.push(m);
        }
        i = i + 1;
    }
    assert(v@.take(v@.len() as int) =~= v@);
    r
}

proof fn lemma_dedup_runs_last(s: Seq<GeneratorModel>)
    ensures
        s.len() > 0 ==> dedup_runs(s).len() > 0 && dedup_runs(s).last() == s.last(),
    decreases s.len(),
{
    if s.len() > 1 {
        lemma_dedup_runs_last(s.drop_last());
    }
}

} // verus!
