//! The directory layout under the configuration directory.
use crate::paths::{join_path, spec_join};
use vstd::prelude::*;

verus! {

/// Where templates, themes and hooks live under the configuration
/// directory.
#[derive(Debug, Clone, PartialEq)]
pub struct Directories {
    pub template_dir: String,
    pub theme_dir: String,
    pub hook_dir: String,
}

impl Directories {
    /// The standard layout: `templates`, `themes` and `hooks` under the
    /// configuration directory.
    pub fn new(config_dir: &str) -> (d: Directories)
        ensures
            d.template_dir@ == spec_join(config_dir@, "templates"@),
            d.theme_dir@ == spec_join(config_dir@, "themes"@),
            d.hook_dir@ == spec_join(config_dir@, "hooks"@),
    {
        Directories {
            template_dir: join_path(config_dir, "templates"),
            theme_dir: join_path(config_dir, "themes"),
            hook_dir: join_path(config_dir, "hooks"),
        }
    }
}

} // verus!
