//! The filter policy: which classes and methods are of interest, and which
//! program to launch.
//!
//! A policy is fixed for one monitored run. A name that is not listed is
//! suppressed at the producer: no envelope is ever built for it.

use vstd::prelude::*;
use crate::text::same_text;

verus! {

/// The loaded configuration.
#[derive(Debug, PartialEq, Eq)]
pub struct Config {
    /// The program to launch.
    pub jar: String,
    /// Dotted names of the classes of interest.
    pub class_loads: Vec<String>,
    /// Simple names of the methods of interest.
    pub methods: Vec<String>,
}

/// Model of a [`Config`].
pub struct ConfigView {
    pub jar: Seq<char>,
    pub class_loads: Seq<Seq<char>>,
    pub methods: Seq<Seq<char>>,
}

impl ConfigView {
    /// The class names of interest, as a set.
    pub open spec fn class_names(self) -> Set<Seq<char>> {
        self.class_loads.to_set()
    }

    /// The method names of interest, as a set.
    pub open spec fn method_names(self) -> Set<Seq<char>> {
        self.methods.to_set()
    }

    /// Whether a load of the class with this dotted name is reported.
    pub open spec fn wants_class(self, name: Seq<char>) -> bool {
        self.class_loads.contains(name)
    }

    /// Whether entries and exits of the method with this name are reported.
    pub open spec fn wants_method(self, name: Seq<char>) -> bool {
        self.methods.contains(name)
    }

    /// Whether any method is of interest at all. Only then does the hook
    /// layer ask the runtime for method events.
    pub open spec fn traces_methods(self) -> bool {
        self.methods.len() > 0
    }
}

impl View for Config {
    type V = ConfigView;

    open spec fn view(&self) -> ConfigView {
        ConfigView {
            jar: self.jar@,
            class_loads: self.class_loads.deep_view(),
            methods: self.methods.deep_view(),
        }
    }
}

impl DeepView for Config {
    type V = ConfigView;

    open spec fn deep_view(&self) -> ConfigView {
        self@
    }
}

impl Default for Config {
    /// The policy that lists nothing: every class load and every method
    /// event is suppressed.
    fn default() -> (config: Config)
        ensures
            config@ == (ConfigView {
                jar: Seq::empty(),
                class_loads: Seq::empty(),
                methods: Seq::empty(),
            }),
    {
        let config = Config { jar: String::new(), class_loads: Vec::new(), methods: Vec::new() };
        proof {
            assert(config.class_loads.deep_view() =~= Seq::empty());
            assert(config.methods.deep_view() =~= Seq::empty());
        }
        config
    }
}

/// Why a configuration was turned down.
#[derive(Debug, PartialEq, Eq, Clone, Copy)]
pub enum ConfigError {
    /// The source does not say which program to launch.
    MissingProgram,
}

/// The policy that the fields of a configuration source stand for. The
/// program is required; a missing list of names is an empty one.
pub open spec fn policy_of(
    program: Option<Seq<char>>,
    classes: Option<Seq<Seq<char>>>,
    methods: Option<Seq<Seq<char>>>,
) -> Result<ConfigView, ConfigError> {
    match program {
        None => Err(ConfigError::MissingProgram),
        Some(jar) => Ok(
            ConfigView {
                jar,
                class_loads: match classes {
                    Some(names) => names,
                    None => Seq::empty(),
                },
                methods: match methods {
                    Some(names) => names,
                    None => Seq::empty(),
                },
            },
        ),
    }
}

/// Builds the policy from the three recognized fields of a configuration
/// source, each present or absent.
pub fn load_config(
    program: Option<String>,
    classes: Option<Vec<String>>,
    methods: Option<Vec<String>>,
) -> (loaded: Result<Config, ConfigError>)
    ensures
        match loaded {
            Ok(config) => Ok(config@),
            Err(error) => Err(error),
        } == policy_of(program.deep_view(), classes.deep_view(), methods.deep_view()),
{
    match program {
        None => Err(ConfigError::MissingProgram),
        Some(jar) => {
            let class_loads = match classes {
                Some(names) => names,
                None => Vec::new(),
            };
            let method_names = match methods {
                Some(names) => names,
                None => Vec::new(),
            };
            proof {
                if classes is None {
                    assert(class_loads.deep_view() =~= Seq::empty());
                }
                if methods is None {
                    assert(method_names.deep_view() =~= Seq::empty());
                }
            }
            Ok(Config { jar, class_loads, methods: method_names })
        },
    }
}

/// Whether `name` occurs in `names`.
fn listed(names: &Vec<String>, name: &str) -> (found: bool)
    ensures
        found == names.deep_view().contains(name@),
{
    let mut i: usize = 0;
    while i < names.len()
        invariant
            i <= names.len(),
            forall|j: int| 0 <= j < i ==> names.deep_view()[j] != name@,
        decreases names.len() - i,
    {
        if same_text(names[i].as_str(), name) {
            assert(names.deep_view()[i as int] == name@);
            return true;
        }
        i = i + 1;
    }
    false
}

impl Config {
    /// Whether a load of the class with this dotted name is reported.
    pub fn wants_class(&self, name: &str) -> (wanted: bool)
        ensures
            wanted == self@.wants_class(name@),
    {
        listed(&self.class_loads, name)
    }

    /// Whether entries and exits of the method with this name are reported.
    pub fn wants_method(&self, name: &str) -> (wanted: bool)
        ensures
            wanted == self@.wants_method(name@),
    {
        listed(&self.methods, name)
    }

    /// Whether any method is of interest at all.
    pub fn traces_methods(&self) -> (traced: bool)
        ensures
            traced == self@.traces_methods(),
    {
        self.methods.len() > 0
    }
}

} // verus!
