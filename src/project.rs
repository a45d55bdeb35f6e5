//! The project as the provider sees it: the files at its root and the environment.
use vstd::prelude::*;

verus! {

/// Why a file of the project could not be read.
#[derive(Clone, Copy, Debug, PartialEq, Eq)]
pub enum ProviderError {
    /// No file has that path.
    MissingFile,
    /// The file exists but its contents could not be read.
    UnreadableFile,
}

/// A file at the project root; `contents` is `None` where reading it failed.
pub struct ProjectFile {
    pub path: String,
    pub contents: Option<String>,
}

impl View for ProjectFile {
    type V = (Seq<char>, Option<Seq<char>>);

    open spec fn view(&self) -> (Seq<char>, Option<Seq<char>>) {
        (
            self.path@,
            match self.contents {
                Some(c) => Some(c@),
                None => None,
            },
        )
    }
}

/// The files of a project, earlier entries taking precedence over later ones
/// with the same path.
pub struct App {
    pub files: Vec<ProjectFile>,
}

impl View for App {
    type V = Seq<(Seq<char>, Option<Seq<char>>)>;

    open spec fn view(&self) -> Seq<(Seq<char>, Option<Seq<char>>)> {
        self.files@.map_values(|f: ProjectFile| f@)
    }
}

/// The first entry for `path` at index `i` or later.
pub open spec fn entry_from(files: Seq<(Seq<char>, Option<Seq<char>>)>, path: Seq<char>, i: int) -> Option<Option<Seq<char>>>
    decreases files.len() - i,
{
    if 0 <= i < files.len() {
        if files[i].0 == path {
            Some(files[i].1)
        } else {
            entry_from(files, path, i + 1)
        }
    } else {
        None
    }
}

pub open spec fn has_file(files: Seq<(Seq<char>, Option<Seq<char>>)>, path: Seq<char>) -> bool {
    entry_from(files, path, 0) is Some
}

/// What reading `path` gives.
pub open spec fn read_spec(files: Seq<(Seq<char>, Option<Seq<char>>)>, path: Seq<char>) -> Result<Seq<char>, ProviderError> {
    match entry_from(files, path, 0) {
        None => Err(ProviderError::MissingFile),
        Some(None) => Err(ProviderError::UnreadableFile),
        Some(Some(c)) => Ok(c),
    }
}

impl App {
    pub fn new() -> (r: App)
        ensures
            r@ == Seq::<(Seq<char>, Option<Seq<char>>)>::empty(),
    {
        App { files: Vec::new() }
    }

    /// Adds a readable file.
    pub fn add_file(&mut self, path: &str, contents: &str)
        ensures
            final(self)@ == old(self)@.push((path@, Some(contents@))),
    {
        let f = ProjectFile { path: String::from_str(path), contents: Some(String::from_str(contents)) };
        self.files.push(f);
        assert(final(self)@ =~= old(self)@.push((path@, Some(contents@))));
    }

    /// Adds a file that exists but whose contents could not be read.
    pub fn add_unreadable_file(&mut self, path: &str)
        ensures
            final(self)@ == old(self)@.push((path@, None)),
    {
        let f = ProjectFile { path: String::from_str(path), contents: None };
        self.files.push(f);
        assert(final(self)@ =~= old(self)@.push((path@, None)));
    }

    fn find(&self, path: &str) -> (r: Option<usize>)
        ensures
            r matches Some(i) ==> i < self.files.len() && entry_from(self@, path@, 0) == Some(
                self@[i as int].1,
            ) && self@[i as int].0 == path@,
            r is None ==> entry_from(self@, path@, 0) is None,
    {
        let key = String::from_str(path);
        let mut i: usize = 0;
        while i < self.files.len()
            invariant
                i <= self.files.len(),
                key@ == path@,
                entry_from(self@, path@, 0) == entry_from(self@, path@, i as int),
            decreases self.files.len() - i,
        {
            if self.files[i].path == key {
                return Some(i);
            }
            i += 1;
        }
        None
    }

    /// Whether the project holds a file at `path`.
    pub fn includes_file(&self, path: &str) -> (r: bool)
        ensures
            r == has_file(self@, path@),
    {
        self.find(path).is_some()
    }

    /// The contents of the file at `path`.
    pub fn read_file(&self, path: &str) -> (r: Result<String, ProviderError>)
        ensures
            r matches Ok(c) ==> read_spec(self@, path@) == Ok::<Seq<char>, ProviderError>(c@),
            r matches Err(e) ==> read_spec(self@, path@) == Err::<Seq<char>, ProviderError>(e),
    {
        match self.find(path) {
            None => Err(ProviderError::MissingFile),
            Some(i) => match &self.files[i].contents {
                Some(c) => Ok(c.clone()),
                None => Err(ProviderError::UnreadableFile),
            },
        }
    }
}

/// A variable of the build environment.
pub struct EnvVar {
    pub name: String,
    pub value: String,
}

impl View for EnvVar {
    type V = (Seq<char>, Seq<char>);

    open spec fn view(&self) -> (Seq<char>, Seq<char>) {
        (self.name@, self.value@)
    }
}

/// The variables of the build environment, earlier entries taking precedence over
/// later ones with the same name.
pub struct Environment {
    pub variables: Vec<EnvVar>,
}

impl View for Environment {
    type V = Seq<(Seq<char>, Seq<char>)>;

    open spec fn view(&self) -> Seq<(Seq<char>, Seq<char>)> {
        self.variables@.map_values(|v: EnvVar| v@)
    }
}

/// The value of the first variable named `name` at index `i` or later.
pub open spec fn var_from(vars: Seq<(Seq<char>, Seq<char>)>, name: Seq<char>, i: int) -> Option<Seq<char>>
    decreases vars.len() - i,
{
    if 0 <= i < vars.len() {
        if vars[i].0 == name {
            Some(vars[i].1)
        } else {
            var_from(vars, name, i + 1)
        }
    } else {
        None
    }
}

/// Configuration variables carry this prefix in the environment.
pub const CONFIG_PREFIX: &'static str = "NIXPACKS_";

/// The configuration variable `name`: the variable of that name with the prefix.
pub open spec fn config_variable(vars: Seq<(Seq<char>, Seq<char>)>, name: Seq<char>) -> Option<Seq<char>> {
    var_from(vars, CONFIG_PREFIX@ + name, 0)
}

impl Environment {
    pub fn new() -> (r: Environment)
        ensures
            r@ == Seq::<(Seq<char>, Seq<char>)>::empty(),
    {
        Environment { variables: Vec::new() }
    }

    pub fn add_variable(&mut self, name: &str, value: &str)
        ensures
            final(self)@ == old(self)@.push((name@, value@)),
    {
        let v = EnvVar { name: String::from_str(name), value: String::from_str(value) };
        self.variables.push(v);
        assert(final(self)@ =~= old(self)@.push((name@, value@)));
    }

    fn lookup(&self, key: &String) -> (r: Option<String>)
        ensures
            r matches Some(v) ==> var_from(self@, key@, 0) == Some(v@),
            r is None ==> var_from(self@, key@, 0) is None,
    {
        let mut i: usize = 0;
        while i < self.variables.len()
            invariant
                i <= self.variables.len(),
                var_from(self@, key@, 0) == var_from(self@, key@, i as int),
            decreases self.variables.len() - i,
        {
            if self.variables[i].name == *key {
                return Some(self.variables[i].value.clone());
            }
            i += 1;
        }
        None
    }

    /// The value of the variable `name`.
    pub fn get_variable(&self, name: &str) -> (r: Option<String>)
        ensures
            r matches Some(v) ==> var_from(self@, name@, 0) == Some(v@),
            r is None ==> var_from(self@, name@, 0) is None,
    {
        self.lookup(&String::from_str(name))
    }

    /// The value of the configuration variable `name`.
    pub fn get_config_variable(&self, name: &str) -> (r: Option<String>)
        ensures
            r matches Some(v) ==> config_variable(self@, name@) == Some(v@),
            r is None ==> config_variable(self@, name@) is None,
    {
        let key = String::from_str(CONFIG_PREFIX).concat(name);
        self.lookup(&key)
    }
}

} // verus!
