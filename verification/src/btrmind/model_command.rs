//! What the model commands of the command line do: the arguments they hand the
//! training script, and when they stop before running it.
use vstd::prelude::*;

use crate::text::{lemma_string_views_push, string_views};

verus! {

/// The training script that the model commands run with `python3`.
pub open spec fn script() -> Seq<char> {
    "scripts/train_fragmentation_model.py"@
}

/// What a model command does.
#[derive(Debug, Clone)]
pub enum ModelPlan {
    /// The input at this path does not exist; nothing runs.
    Missing(String),
    /// A dry run: nothing runs; these are the script's arguments.
    DryRun(Vec<String>),
    /// The script runs with these arguments.
    Run(Vec<String>),
}

/// The arguments of a training run: the data and output paths, then the version when
/// one is given, `--validate` when asked, and `--verbose` for a dry run.
pub open spec fn train_args(
    data: Seq<char>,
    output: Seq<char>,
    version: Option<Seq<char>>,
    validate: bool,
    dry_run: bool,
) -> Seq<Seq<char>> {
    seq![script(), "--data"@, data, "--output"@, output] + match version {
        Some(v) => seq!["--version"@, v],
        None => Seq::empty(),
    } + if validate {
        seq!["--validate"@]
    } else {
        Seq::empty()
    } + if dry_run {
        seq!["--verbose"@]
    } else {
        Seq::empty()
    }
}

/// The arguments that roll the model at `output` back to `backup`.
pub open spec fn rollback_args(backup: Seq<char>, output: Seq<char>) -> Seq<Seq<char>> {
    seq![script(), "--rollback"@, backup, "--output"@, output]
}

/// The arguments that list the backups of the model at `output`.
pub open spec fn list_backups_args(output: Seq<char>) -> Seq<Seq<char>> {
    seq![script(), "--list-backups"@, "--output"@, output]
}

fn push_str(v: &mut Vec<String>, s: &str)
    ensures
        string_views(final(v)@) == string_views(old(v)@).push(s@),
{
    let t = String::from_str(s);
    proof {
        lemma_string_views_push(v@, t);
    }
    v.push(t);
}

/// The plan of `model train`: nothing runs when the training data at `data` is missing;
/// otherwise the script trains on it (see `train_args`), or, in a dry run, does not.
pub fn train_plan(
    data: &str,
    output: &str,
    version: &Option<String>,
    validate: bool,
    data_exists: bool,
    dry_run: bool,
) -> (r: ModelPlan)
    ensures
        !data_exists ==> (r matches ModelPlan::Missing(p) && p@ == data@),
        data_exists && dry_run ==> (r matches ModelPlan::DryRun(a) && string_views(a@) == train_args(
            data@,
            output@,
            match version {
                Some(v) => Some(v@),
                None => None,
            },
            validate,
            true,
        )),
        data_exists && !dry_run ==> (r matches ModelPlan::Run(a) && string_views(a@) == train_args(
            data@,
            output@,
            match version {
                Some(v) => Some(v@),
                None => None,
            },
            validate,
            false,
        )),
{
    if !data_exists {
        return ModelPlan::Missing(String::from_str(data));
    }
    let ghost vv = match version {
        Some(v) => Some(v@),
        None => None::<Seq<char>>,
    };
    let mut a: Vec<String> = Vec::new();
    push_str(&mut a, "scripts/train_fragmentation_model.py");
    push_str(&mut a, "--data");
    push_str(&mut a, data);
    push_str(&mut a, "--output");
    push_str(&mut a, output);
    let ghost base = string_views(a@);
    match version {
        Some(v) => {
            push_str(&mut a, "--version");
            push_str(&mut a, v.as_str());
        },
        None => {},
    }
    let ghost with_version = string_views(a@);
    if validate {
        push_str(&mut a, "--validate");
    }
    let ghost with_validate = string_views(a@);
    if dry_run {
        push_str(&mut a, "--verbose");
    }
    proof {
        reveal_strlit("scripts/train_fragmentation_model.py");
        assert(base =~= seq![script(), "--data"@, data@, "--output"@, output@]);
        assert(with_version =~= base + match vv {
            Some(v) => seq!["--version"@, v],
            None => Seq::empty(),
        });
        assert(with_validate =~= with_version + if validate {
            seq!["--validate"@]
        } else {
            Seq::empty()
        });
        assert(string_views(a@) =~= train_args(data@, output@, vv, validate, dry_run));
    }
    if dry_run {
        ModelPlan::DryRun(a)
    } else {
        ModelPlan::Run(a)
    }
}

/// The plan of `model rollback`: nothing runs when the backup is missing; otherwise
/// the script rolls the model at `output` back to it (see `rollback_args`), or, in a
/// dry run, does not.
pub fn rollback_plan(backup: &str, output: &str, backup_exists: bool, dry_run: bool) -> (r: ModelPlan)
    ensures
        !backup_exists ==> (r matches ModelPlan::Missing(p) && p@ == backup@),
        backup_exists && dry_run ==> (r matches ModelPlan::DryRun(a) && string_views(a@)
            == rollback_args(backup@, output@)),
        backup_exists && !dry_run ==> (r matches ModelPlan::Run(a) && string_views(a@)
            == rollback_args(backup@, output@)),
{
    if !backup_exists {
        return ModelPlan::Missing(String::from_str(backup));
    }
    let mut a: Vec<String> = Vec::new();
    push_str(&mut a, "scripts/train_fragmentation_model.py");
    push_str(&mut a, "--rollback");
    push_str(&mut a, backup);
    push_str(&mut a, "--output");
    push_str(&mut a, output);
    proof {
        reveal_strlit("scripts/train_fragmentation_model.py");
        assert(string_views(a@) =~= rollback_args(backup@, output@));
    }
    if dry_run {
        ModelPlan::DryRun(a)
    } else {
        ModelPlan::Run(a)
    }
}

/// The arguments of `model list-backups` (see `list_backups_args`).
pub fn list_backups_command(output: &str) -> (a: Vec<String>)
    ensures
        string_views(a@) == list_backups_args(output@),
{
    let mut a: Vec<String> = Vec::new();
    push_str(&mut a, "scripts/train_fragmentation_model.py");
    push_str(&mut a, "--list-backups");
    push_str(&mut a, "--output");
    push_str(&mut a, output);
    proof {
        reveal_strlit("scripts/train_fragmentation_model.py");
        assert(string_views(a@) =~= list_backups_args(output@));
    }
    a
}

} // verus!
