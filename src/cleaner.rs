//! The application state: the configurations to run, the directory to clean
//! and the run modes.
use vstd::prelude::*;
use crate::config::{kept_rules, lines, Config, ConfigView};
use crate::text::{remove_comment_text, strip_comment};

verus! {

/// What the application holds, as mathematical values.
pub struct AppView {
    pub configurations: Seq<ConfigView>,
    pub interactive_mode: bool,
    pub clean_path: Seq<char>,
    pub conf_file_path: Seq<char>,
    pub dry_run: bool,
}

/// The views of a sequence of configurations.
pub open spec fn config_views(v: Seq<Config>) -> Seq<ConfigView> {
    v.map_values(|c: Config| c@)
}

/// The configurations to run and how to run them.
#[derive(Clone, Debug)]
pub struct App {
    configurations: Vec<Config>,
    interactive_mode: bool,
    clean_path: String,
    conf_file_path: String,
    dry_run: bool,
}

impl View for App {
    type V = AppView;

    closed spec fn view(&self) -> AppView {
        AppView {
            configurations: config_views(self.configurations@),
            interactive_mode: self.interactive_mode,
            clean_path: self.clean_path@,
            conf_file_path: self.conf_file_path@,
            dry_run: self.dry_run,
        }
    }
}

impl App {
    /// A copy of the configuration at `index`.
    pub fn get_configuration(&self, index: usize) -> (r: Config)
        requires
            index < self@.configurations.len(),
        ensures
            r@ == self@.configurations[index as int],
    {
        self.configurations[index].duplicate()
    }

    /// An application with no directory to clean and no run mode, which runs
    /// configuration file `filename` of text `text`.
    pub fn new_for_test(filename: String, text: String) -> (r: Self)
        ensures
            r@.configurations.len() == 1,
            r@.configurations[0].filename == filename@,
            r@.configurations[0].rules == kept_rules(lines(text@)),
            r@.clean_path.len() == 0,
            r@.conf_file_path.len() == 0,
            !r@.dry_run,
            !r@.interactive_mode,
    {
        Self::new(Config::new(filename, text), String::new(), String::new(), false, false)
    }

    /// The configurations, in the order they run.
    pub fn get_configurations(&self) -> (r: &Vec<Config>)
        ensures
            config_views(r@) == self@.configurations,
    {
        &self.configurations
    }

    /// The text of `line` before its first `//`.
    pub fn remove_comment(line: &str) -> (r: String)
        ensures
            r@ == strip_comment(line@),
    {
        remove_comment_text(line)
    }

    /// Adds a configuration to run after the others.
    pub fn add_config(&mut self, config: Config)
        ensures
            final(self)@ == (AppView {
                configurations: old(self)@.configurations.push(config@),
                ..old(self)@
            }),
    {
        let ghost prev = self.configurations@;
        self.configurations.push(config);
        assert(config_views(self.configurations@) =~= config_views(prev).push(config@));
    }

    /// An application that runs `configuration` on directory `clean_path`;
    /// `conf_file_path` is the configuration path that was asked for (empty
    /// for the default one).
    pub fn new(
        configuration: Config,
        clean_path: String,
        conf_file_path: String,
        dry_run: bool,
        interactive_mode: bool,
    ) -> (r: Self)
        ensures
            r@ == (AppView {
                configurations: seq![configuration@],
                interactive_mode,
                clean_path: clean_path@,
                conf_file_path: conf_file_path@,
                dry_run,
            }),
    {
        let mut configurations: Vec<Config> = Vec::new();
        let ghost c = configuration@;
        configurations.push(configuration);
        assert(config_views(configurations@) =~= seq![c]);
        Self { configurations, interactive_mode, clean_path, conf_file_path, dry_run }
    }

    /// The directory the rules apply to.
    pub fn get_clean_path(&self) -> (r: &String)
        ensures
            r@ == self@.clean_path,
    {
        &self.clean_path
    }

    /// The configuration path that was asked for.
    pub fn get_conf_file_path(&self) -> (r: &String)
        ensures
            r@ == self@.conf_file_path,
    {
        &self.conf_file_path
    }

    /// Whether actions are described instead of performed.
    pub fn is_dry_run(&self) -> (r: bool)
        ensures
            r == self@.dry_run,
    {
        self.dry_run
    }

    /// Whether each action is confirmed first.
    pub fn is_interactive(&self) -> (r: bool)
        ensures
            r == self@.interactive_mode,
    {
        self.interactive_mode
    }
}

} // verus!
