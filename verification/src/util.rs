//! Selection of the destination directory.

use vstd::prelude::*;

verus! {

/// The destination that the override policy selects: a directly supplied
/// override first, then the one from the configuration, then the default.
pub open spec fn out_dir_choice(
    cli_out_dir: Option<Seq<char>>,
    cfg_out_dir: Option<Seq<char>>,
    default_name: Seq<char>,
) -> Seq<char> {
    match cli_out_dir {
        Some(dir) => dir,
        None => match cfg_out_dir {
            Some(dir) => dir,
            None => default_name,
        },
    }
}

/// The text of an optional string.
pub open spec fn opt_text(s: Option<String>) -> Option<Seq<char>> {
    match s {
        Some(text) => Some(text@),
        None => None,
    }
}

/// Output directory selection:
/// 1) `cli_out_dir`, if provided,
/// 2) `cfg_out_dir`, if provided,
/// 3) `default_name` (usually the project name).
///
/// Pure string selection: the file system is not consulted.
pub fn resolve_out_dir(
    cli_out_dir: Option<String>,
    cfg_out_dir: Option<String>,
    default_name: &str,
) -> (out: String)
    ensures
        out@ == out_dir_choice(opt_text(cli_out_dir), opt_text(cfg_out_dir), default_name@),
{
    match cli_out_dir {
        Some(dir) => dir,
        None => match cfg_out_dir {
            Some(dir) => dir,
            None => default_name.to_owned(),
        },
    }
}

/// A directly supplied override always wins.
pub proof fn lemma_cli_override_wins(cli: Seq<char>, cfg: Option<Seq<char>>, name: Seq<char>)
    ensures
        out_dir_choice(Some(cli), cfg, name) == cli,
{
}

/// Without a direct override, the override from the configuration wins.
pub proof fn lemma_cfg_override_second(cfg: Seq<char>, name: Seq<char>)
    ensures
        out_dir_choice(None, Some(cfg), name) == cfg,
{
}

/// Without any override the default name is selected.
pub proof fn lemma_default_last(name: Seq<char>)
    ensures
        out_dir_choice(None, None, name) == name,
{
}

/// The selection is always one of its three candidates.
pub proof fn lemma_choice_is_candidate(
    cli: Option<Seq<char>>,
    cfg: Option<Seq<char>>,
    name: Seq<char>,
)
    ensures
        Some(out_dir_choice(cli, cfg, name)) == cli || Some(out_dir_choice(cli, cfg, name)) == cfg
            || out_dir_choice(cli, cfg, name) == name,
{
}

/// Copies an optional string.
pub fn clone_opt_string(s: &Option<String>) -> (copy: Option<String>)
    ensures
        opt_text(copy) == opt_text(*s),
{
    match s {
        Some(text) => Some(text.clone()),
        None => None,
    }
}

} // verus!
