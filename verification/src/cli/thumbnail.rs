use vstd::prelude::*;
use crate::config::types::opt_text;
use crate::config::Config;
use crate::paths::{path_with_extension, with_extension};

verus! {

/// The `thumbnail` subcommands.
#[derive(Clone, Debug)]
pub enum ThumbnailAction {
    Generate { input: String, output: Option<String>, size: Option<String>, grid: Option<String> },
}

/// What a thumbnail is made from and into.
#[derive(Clone, Debug)]
pub struct ThumbnailPlan {
    pub input: String,
    pub output: String,
    pub size: String,
    pub grid: String,
}

/// Decides the files, size and grid of a `thumbnail generate`: the output defaults
/// to the input with a `jpg` extension, the size and grid to the configured ones.
pub fn handle_thumbnail_action(action: ThumbnailAction, config: &Config) -> (p: ThumbnailPlan)
    ensures
        match action {
            ThumbnailAction::Generate { input, output, size, grid } => {
                &&& p.input@ == input@
                &&& p.output@ == match opt_text(output) {
                    Some(o) => o,
                    None => path_with_extension(input@, "jpg"@),
                }
                &&& p.size@ == match opt_text(size) {
                    Some(s) => s,
                    None => match opt_text(config.thumbnail_size) {
                        Some(t) => t,
                        None => "320x180"@,
                    },
                }
                &&& p.grid@ == match opt_text(grid) {
                    Some(g) => g,
                    None => match opt_text(config.thumbnail_grid) {
                        Some(t) => t,
                        None => "3x3"@,
                    },
                }
            },
        },
{
    match action {
        ThumbnailAction::Generate { input, output, size, grid } => {
            let output = match output {
                Some(o) => o,
                None => {
                    proof {
                        reveal_strlit("jpg");
                    }
                    with_extension(input.as_str(), "jpg")
                },
            };
            let size = match size {
                Some(s) => s,
                None => config.get_thumbnail_size(),
            };
            let grid = match grid {
                Some(g) => g,
                None => config.get_thumbnail_grid(),
            };
            ThumbnailPlan { input, output, size, grid }
        },
    }
}

} // verus!
