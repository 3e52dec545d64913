//! The configuration of the dashboard and the rules it has to meet.

use vstd::prelude::*;
use crate::app::Mode;
use crate::keymap::Keymap;

verus! {

/// Where the pipelines come from.
#[derive(Debug)]
pub struct CoreConfig {
    /// The address of the server's API.
    pub gitlab_url: String,
    /// The projects that can be watched. At least one is needed.
    pub gitlab_projects: Vec<String>,
}

/// How much is shown.
#[derive(Debug)]
pub struct UIConfig {
    /// How many pipelines are asked for at once. At least 1.
    pub max_page_size: usize,
}

/// The key bindings of one mode.
pub struct ModeBindings {
    pub mode: Mode,
    pub keymap: Keymap,
}

/// The whole configuration.
pub struct Config {
    pub core: CoreConfig,
    pub ui: UIConfig,
    /// The key bindings, mode by mode. Of two entries for one mode the
    /// first counts.
    pub keybindings: Vec<ModeBindings>,
}

/// What is wrong with a configuration. At least one of the two holds.
#[derive(Debug, Clone, Copy, PartialEq, Eq, Structural)]
pub struct ValidationErrors {
    /// No project is listed.
    pub no_projects: bool,
    /// The page size is 0.
    pub page_size_zero: bool,
}

/// The page size that is used where the configuration names none.
pub fn default_max_page_size() -> (size: usize)
    ensures
        size == 25,
{
    25
}

/// The keymap of the first entry of `bindings` for `mode`.
pub open spec fn first_for(bindings: Seq<ModeBindings>, mode: Mode) -> Option<Keymap>
    decreases bindings.len(),
{
    if bindings.len() == 0 {
        None
    } else if bindings[0].mode == mode {
        Some(bindings[0].keymap)
    } else {
        first_for(bindings.drop_first(), mode)
    }
}

impl Config {
    /// The rules: at least one project, and a page size of at least 1.
    pub open spec fn valid(self) -> bool {
        self.core.gitlab_projects@.len() >= 1 && self.ui.max_page_size >= 1
    }

    /// Every keymap is well formed.
    pub open spec fn wf(self) -> bool {
        forall|i: int| 0 <= i < self.keybindings@.len() ==> (#[trigger] self.keybindings@[i]).keymap.wf()
    }

    /// The keymap of `mode`, if the configuration has one.
    pub open spec fn keymap_of(self, mode: Mode) -> Option<Keymap> {
        first_for(self.keybindings@, mode)
    }

    /// Puts a configuration together and holds it to the rules.
    pub fn new(core: CoreConfig, ui: UIConfig, keybindings: Vec<ModeBindings>) -> (made: Result<
        Config,
        ValidationErrors,
    >)
        ensures
            match made {
                Ok(config) => config == (Config { core, ui, keybindings }) && config.valid(),
                Err(errors) => errors.no_projects == (core.gitlab_projects@.len() == 0)
                    && errors.page_size_zero == (ui.max_page_size == 0) && (errors.no_projects
                    || errors.page_size_zero),
            },
    {
        let config = Config { core, ui, keybindings };
        match config.validate() {
            Ok(()) => Ok(config),
            Err(errors) => Err(errors),
        }
    }

    /// Holds the configuration to the rules and says which of them it
    /// breaks.
    pub fn validate(&self) -> (checked: Result<(), ValidationErrors>)
        ensures
            checked is Ok == self.valid(),
            checked matches Err(errors) ==> errors.no_projects == (self.core.gitlab_projects@.len()
                == 0) && errors.page_size_zero == (self.ui.max_page_size == 0),
    {
        let no_projects: bool = self.core.gitlab_projects.len() == 0;
        let page_size_zero: bool = self.ui.max_page_size == 0;
        if no_projects || page_size_zero {
            Err(ValidationErrors { no_projects, page_size_zero })
        } else {
            Ok(())
        }
    }

    /// The keymap of `mode`, if the configuration has one.
    pub fn keymap(&self, mode: Mode) -> (found: Option<&Keymap>)
        ensures
            match found {
                Some(keymap) => self.keymap_of(mode) == Some(*keymap),
                None => self.keymap_of(mode) is None,
            },
            self.wf() && found is Some ==> found->0.wf(),
    {
        let mut i: usize = 0;
        assert(self.keybindings@.skip(0) =~= self.keybindings@);
        while i < self.keybindings.len()
            invariant
                i <= self.keybindings.len(),
                self.keymap_of(mode) == first_for(self.keybindings@.skip(i as int), mode),
            decreases self.keybindings.len() - i,
        {
            let ghost rest = self.keybindings@.skip(i as int);
            proof {
                assert(rest[0] == self.keybindings@[i as int]);
                assert(rest.drop_first() =~= self.keybindings@.skip(i + 1));
            }
            if self.keybindings[i].mode == mode {
                return Some(&self.keybindings[i].keymap);
            }
            i = i + 1;
        }
        assert(self.keybindings@.skip(i as int).len() == 0);
        None
    }
}

impl Default for Config {
    /// A configuration without server, projects or bindings, with the
    /// default page size. It breaks the rule that asks for a project.
    fn default() -> (config: Config)
        ensures
            config.core.gitlab_url@ == Seq::<char>::empty(),
            config.core.gitlab_projects@.len() == 0,
            config.ui.max_page_size == 25,
            config.keybindings@.len() == 0,
            config.wf(),
    {
        Config {
            core: CoreConfig { gitlab_url: String::new(), gitlab_projects: Vec::new() },
            ui: UIConfig { max_page_size: default_max_page_size() },
            keybindings: Vec::new(),
        }
    }
}

} // verus!
