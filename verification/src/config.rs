//! The program's configuration and the place of its file.

use vstd::prelude::*;
use vstd::string::*;

verus! {

/// The settings of the program.
#[derive(Debug)]
pub struct Config {
    pub app_name: String,
    pub version: String,
    pub debug: bool,
}

pub ghost struct ConfigView {
    pub app_name: Seq<char>,
    pub version: Seq<char>,
    pub debug: bool,
}

impl View for Config {
    type V = ConfigView;

    open spec fn view(&self) -> ConfigView {
        ConfigView { app_name: self.app_name@, version: self.version@, debug: self.debug }
    }
}

impl Clone for Config {
    fn clone(&self) -> (copy: Self)
        ensures
            copy@ == self@,
    {
        Config {
            app_name: self.app_name.clone(),
            version: self.version.clone(),
            debug: self.debug,
        }
    }
}

impl Default for Config {
    fn default() -> (config: Self)
        ensures
            config@ == (ConfigView { app_name: "termadio"@, version: "0.1.0"@, debug: false }),
    {
        Config {
            app_name: String::from_str("termadio"),
            version: String::from_str("0.1.0"),
            debug: false,
        }
    }
}

/// Why the place of the configuration file is not known.
#[derive(Debug, Clone, Copy, PartialEq, Eq, Structural)]
pub enum ConfigError {
    /// No home directory is known.
    NoHomeDirectory,
}

impl ConfigError {
    pub fn message(&self) -> (text: String)
        ensures
            text@ == "Could not find home directory"@,
    {
        String::from_str("Could not find home directory")
    }
}

/// `path` with `component` as a further step: a `/` comes between the two
/// unless `path` is empty or ends in one.
pub open spec fn pushed(path: Seq<char>, component: Seq<char>) -> Seq<char> {
    if path.len() == 0 || path.last() == '/' {
        path + component
    } else {
        path + "/"@ + component
    }
}

/// The configuration file below the home directory `home`.
pub open spec fn config_file(home: Seq<char>) -> Seq<char> {
    pushed(pushed(pushed(home, ".config"@), "termadio"@), "config.json"@)
}

fn push_step(path: &mut String, component: &str)
    ensures
        final(path)@ == pushed(old(path)@, component@),
{
    let len = path.as_str().unicode_len();
    if len > 0 && path.as_str().get_char(len - 1) != '/' {
        path.append("/");
        proof {
            reveal_strlit("/");
        }
    }
    path.append(component);
    proof {
        reveal_strlit("/");
        assert(final(path)@ =~= pushed(old(path)@, component@));
    }
}

impl Config {
    /// The path of the configuration file, given the home directory where one is known.
    pub fn config_path(home: Option<&str>) -> (path: Result<String, ConfigError>)
        ensures
            match home {
                Some(dir) => path matches Ok(file) && file@ == config_file(dir@),
                None => path == Err::<String, ConfigError>(ConfigError::NoHomeDirectory),
            },
    {
        match home {
            Some(dir) => {
                let mut path = String::from_str(dir);
                push_step(&mut path, ".config");
                push_step(&mut path, "termadio");
                push_step(&mut path, "config.json");
                Ok(path)
            },
            None => Err(ConfigError::NoHomeDirectory),
        }
    }
}

} // verus!
