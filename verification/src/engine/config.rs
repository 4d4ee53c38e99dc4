//! The configuration of the interpreter.

use vstd::prelude::*;

verus! {

/// The colours of the front end.
#[derive(Debug, Clone)]
pub struct ThemeConfig {
    pub prompt_color: String,
    pub success_color: String,
    pub error_color: String,
}

/// The configuration of the interpreter.
#[derive(Debug, Clone)]
pub struct ShellConfig {
    /// The prompt of the front end.
    pub prompt: String,
    /// The aliases, each a prefix of a line and what stands in its place.
    /// Where several fit a line, the first in this list is taken.
    pub aliases: Vec<(String, String)>,
    /// The names of the commands that may run; all may where this is empty.
    pub enabled_commands: Vec<String>,
    /// The file in which the front end keeps its history.
    pub history_file: String,
    pub theme: ThemeConfig,
}

/// The prompt that is used where none is configured.
pub fn default_prompt() -> (prompt: String)
    ensures
        prompt@ == "shellflow> "@,
{
    "shellflow> ".to_owned()
}

/// The history file that is used where none is configured.
pub fn default_history_file() -> (file: String)
    ensures
        file@ == "shellflow_history.txt"@,
{
    "shellflow_history.txt".to_owned()
}

/// The colour of the prompt where none is configured.
pub fn default_prompt_color() -> (color: String)
    ensures
        color@ == "green"@,
{
    "green".to_owned()
}

/// The colour of a success where none is configured.
pub fn default_success_color() -> (color: String)
    ensures
        color@ == "cyan"@,
{
    "cyan".to_owned()
}

/// The colour of an error where none is configured.
pub fn default_error_color() -> (color: String)
    ensures
        color@ == "red"@,
{
    "red".to_owned()
}

impl Default for ThemeConfig {
    fn default() -> (theme: Self)
        ensures
            theme.prompt_color@ == "green"@,
            theme.success_color@ == "cyan"@,
            theme.error_color@ == "red"@,
    {
        ThemeConfig {
            prompt_color: default_prompt_color(),
            success_color: default_success_color(),
            error_color: default_error_color(),
        }
    }
}

impl Default for ShellConfig {
    /// The configuration without aliases, in which every command may run.
    fn default() -> (config: Self)
        ensures
            config.prompt@ == "shellflow> "@,
            config.aliases@.len() == 0,
            config.enabled_commands@.len() == 0,
            config.history_file@ == "shellflow_history.txt"@,
            config.theme.prompt_color@ == "green"@,
            config.theme.success_color@ == "cyan"@,
            config.theme.error_color@ == "red"@,
    {
        ShellConfig {
            prompt: default_prompt(),
            aliases: Vec::new(),
            enabled_commands: Vec::new(),
            history_file: default_history_file(),
            theme: ThemeConfig::default(),
        }
    }
}

} // verus!
