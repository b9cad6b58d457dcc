//! The service descriptor: how a service's program is launched.

use vstd::prelude::*;
use vstd::string::*;

use crate::error::Error;
use crate::paths::{final_segment, last_segment};
use crate::text::{opt_text, texts};

verus! {

/// A descriptor as a mathematical value.
pub struct LaunchdConfigView {
    pub program: Option<Seq<char>>,
    pub args: Seq<Seq<char>>,
    pub working_directory: Seq<char>,
    pub stdout_path: Option<Seq<char>>,
    pub stderr_path: Option<Seq<char>>,
}

impl LaunchdConfigView {
    /// The descriptor names a program: either in its own field, or as the
    /// first of its arguments. Exactly one of the two forms is read.
    pub open spec fn names_program(self) -> bool {
        self.program is Some || self.args.len() > 0
    }

    /// The program that is launched.
    pub open spec fn program(self) -> Seq<char>
        recommends
            self.names_program(),
    {
        match self.program {
            Some(path) => path,
            None => self.args[0],
        }
    }

    /// The arguments that the program is launched with.
    pub open spec fn arguments(self) -> Seq<Seq<char>>
        recommends
            self.names_program(),
    {
        match self.program {
            Some(_) => self.args,
            None => self.args.subrange(1, self.args.len() as int),
        }
    }
}

/// The working directory of a descriptor that names none.
pub fn default_dir() -> (dir: String)
    ensures
        dir@ == seq!['.'],
{
    proof {
        reveal_strlit(".");
    }
    String::from_str(".")
}

/// A descriptor file's recognised keys as they were found in the document,
/// before any default is applied. A key that the document lacks is `None`.
pub struct LaunchdDocument {
    pub program: Option<String>,
    pub args: Option<Vec<String>>,
    pub working_directory: Option<String>,
    pub stdout_path: Option<String>,
    pub stderr_path: Option<String>,
}

/// How to launch a service: its program, arguments, working directory and
/// where its output goes.
#[derive(Debug, Clone)]
pub struct LaunchdConfig {
    program: Option<String>,
    args: Vec<String>,
    working_directory: String,
    stdout_path: Option<String>,
    stderr_path: Option<String>,
}

impl View for LaunchdConfig {
    type V = LaunchdConfigView;

    closed spec fn view(&self) -> LaunchdConfigView {
        LaunchdConfigView {
            program: opt_text(self.program),
            args: texts(self.args@),
            working_directory: self.working_directory@,
            stdout_path: opt_text(self.stdout_path),
            stderr_path: opt_text(self.stderr_path),
        }
    }
}

/// The borrowed form of an optional string.
fn borrowed(value: &Option<String>) -> (out: Option<&str>)
    ensures
        out is Some == value is Some,
        out matches Some(s) ==> s@ == value->0@,
{
    match value {
        Some(s) => Some(s.as_str()),
        None => None,
    }
}

impl LaunchdConfig {
    /// The descriptor that a document stands for: the keys it holds, and for
    /// the others no program, no arguments, the current directory and no
    /// output paths.
    pub fn from_document(document: LaunchdDocument) -> (config: LaunchdConfig)
        ensures
            config@.program == opt_text(document.program),
            config@.args == match document.args {
                Some(list) => texts(list@),
                None => Seq::<Seq<char>>::empty(),
            },
            config@.working_directory == match document.working_directory {
                Some(dir) => dir@,
                None => seq!['.'],
            },
            config@.stdout_path == opt_text(document.stdout_path),
            config@.stderr_path == opt_text(document.stderr_path),
    {
        let args = match document.args {
            Some(list) => list,
            None => {
                let none: Vec<String> = Vec::new();
                none
            },
        };
        let working_directory = match document.working_directory {
            Some(dir) => dir,
            None => default_dir(),
        };
        LaunchdConfig {
            program: document.program,
            args,
            working_directory,
            stdout_path: document.stdout_path,
            stderr_path: document.stderr_path,
        }
    }

    /// Whether the descriptor names a program at all.
    pub fn names_program(&self) -> (named: bool)
        ensures
            named == self@.names_program(),
    {
        self.program.is_some() || self.args.len() > 0
    }

    /// The last path segment of the program.
    pub fn binary_name(&self) -> (name: String)
        requires
            self@.names_program(),
        ensures
            name@ == final_segment(self@.program()),
    {
        last_segment(self.program())
    }

    /// The program: the explicit one, else the first argument.
    pub fn program(&self) -> (path: &str)
        requires
            self@.names_program(),
        ensures
            path@ == self@.program(),
    {
        match &self.program {
            Some(path) => path.as_str(),
            None => self.args[0].as_str(),
        }
    }

    /// The arguments: all of them beside an explicit program, else all but
    /// the first.
    pub fn args(&self) -> (list: &[String])
        requires
            self@.names_program(),
        ensures
            texts(list@) == self@.arguments(),
    {
        if self.program.is_some() {
            self.args.as_slice()
        } else {
            let n: usize = self.args.len();
            let list = &self.args.as_slice()[1..n];
            list
        }
    }

    pub fn working_directory(&self) -> (dir: &str)
        ensures
            dir@ == self@.working_directory,
    {
        self.working_directory.as_str()
    }

    pub fn stdout_path(&self) -> (path: Option<&str>)
        ensures
            path is Some == self@.stdout_path is Some,
            path matches Some(p) ==> p@ == self@.stdout_path->0,
    {
        borrowed(&self.stdout_path)
    }

    pub fn stderr_path(&self) -> (path: Option<&str>)
        ensures
            path is Some == self@.stderr_path is Some,
            path matches Some(p) ==> p@ == self@.stderr_path->0,
    {
        borrowed(&self.stderr_path)
    }
}

/// A builder's fields as mathematical values: `None` where a field was
/// never set.
pub struct LaunchdConfigBuilderView {
    pub program: Option<Option<Seq<char>>>,
    pub args: Option<Seq<Seq<char>>>,
    pub working_directory: Option<Seq<char>>,
    pub stdout_path: Option<Option<Seq<char>>>,
    pub stderr_path: Option<Option<Seq<char>>>,
}

impl LaunchdConfigBuilderView {
    /// The name of the first field, in the order of declaration, that was
    /// never set.
    pub open spec fn first_unset(self) -> Option<Seq<char>> {
        if self.program is None {
            Some("program"@)
        } else if self.args is None {
            Some("args"@)
        } else if self.working_directory is None {
            Some("working_directory"@)
        } else if self.stdout_path is None {
            Some("stdout_path"@)
        } else if self.stderr_path is None {
            Some("stderr_path"@)
        } else {
            None
        }
    }

    /// The descriptor of a builder whose fields are all set.
    pub open spec fn built(self) -> LaunchdConfigView
        recommends
            self.first_unset() is None,
    {
        LaunchdConfigView {
            program: self.program->0,
            args: self.args->0,
            working_directory: self.working_directory->0,
            stdout_path: self.stdout_path->0,
            stderr_path: self.stderr_path->0,
        }
    }
}

/// Builds a [`LaunchdConfig`] field by field. Every field has to be set
/// before `build` succeeds.
#[derive(Debug, Clone)]
pub struct LaunchdConfigBuilder {
    program: Option<Option<String>>,
    args: Option<Vec<String>>,
    working_directory: Option<String>,
    stdout_path: Option<Option<String>>,
    stderr_path: Option<Option<String>>,
}

impl View for LaunchdConfigBuilder {
    type V = LaunchdConfigBuilderView;

    closed spec fn view(&self) -> LaunchdConfigBuilderView {
        LaunchdConfigBuilderView {
            program: match self.program {
                Some(value) => Some(opt_text(value)),
                None => None,
            },
            args: match self.args {
                Some(list) => Some(texts(list@)),
                None => None,
            },
            working_directory: opt_text(self.working_directory),
            stdout_path: match self.stdout_path {
                Some(value) => Some(opt_text(value)),
                None => None,
            },
            stderr_path: match self.stderr_path {
                Some(value) => Some(opt_text(value)),
                None => None,
            },
        }
    }
}

impl Default for LaunchdConfigBuilder {
    /// A builder with no field set.
    fn default() -> (builder: Self)
        ensures
            builder@ == (LaunchdConfigBuilderView {
                program: None,
                args: None,
                working_directory: None,
                stdout_path: None,
                stderr_path: None,
            }),
    {
        LaunchdConfigBuilder {
            program: None,
            args: None,
            working_directory: None,
            stdout_path: None,
            stderr_path: None,
        }
    }
}

impl LaunchdConfigBuilder {
    pub fn program(self, value: Option<String>) -> (builder: Self)
        ensures
            builder@ == (LaunchdConfigBuilderView { program: Some(opt_text(value)), ..self@ }),
    {
        LaunchdConfigBuilder { program: Some(value), ..self }
    }

    pub fn args(self, value: Vec<String>) -> (builder: Self)
        ensures
            builder@ == (LaunchdConfigBuilderView { args: Some(texts(value@)), ..self@ }),
    {
        LaunchdConfigBuilder { args: Some(value), ..self }
    }

    pub fn working_directory(self, value: String) -> (builder: Self)
        ensures
            builder@ == (LaunchdConfigBuilderView { working_directory: Some(value@), ..self@ }),
    {
        LaunchdConfigBuilder { working_directory: Some(value), ..self }
    }

    pub fn stdout_path(self, value: Option<String>) -> (builder: Self)
        ensures
            builder@ == (LaunchdConfigBuilderView { stdout_path: Some(opt_text(value)), ..self@ }),
    {
        LaunchdConfigBuilder { stdout_path: Some(value), ..self }
    }

    pub fn stderr_path(self, value: Option<String>) -> (builder: Self)
        ensures
            builder@ == (LaunchdConfigBuilderView { stderr_path: Some(opt_text(value)), ..self@ }),
    {
        LaunchdConfigBuilder { stderr_path: Some(value), ..self }
    }

    /// The descriptor, once every field is set; else the name of the first
    /// field that is not.
    pub fn build(self) -> (built: Result<LaunchdConfig, Error>)
        ensures
            match self@.first_unset() {
                None => built matches Ok(config) && config@ == self@.built(),
                Some(field) => built matches Err(Error::MissingField(name)) && name@ == field,
            },
    {
        let program = match self.program {
            Some(value) => value,
            None => {
                return Err(Error::MissingField(String::from_str("program")));
            },
        };
        let args = match self.args {
            Some(value) => value,
            None => {
                return Err(Error::MissingField(String::from_str("args")));
            },
        };
        let working_directory = match self.working_directory {
            Some(value) => value,
            None => {
                return Err(Error::MissingField(String::from_str("working_directory")));
            },
        };
        let stdout_path = match self.stdout_path {
            Some(value) => value,
            None => {
                return Err(Error::MissingField(String::from_str("stdout_path")));
            },
        };
        let stderr_path = match self.stderr_path {
            Some(value) => value,
            None => {
                return Err(Error::MissingField(String::from_str("stderr_path")));
            },
        };
        Ok(LaunchdConfig { program, args, working_directory, stdout_path, stderr_path })
    }
}

} // verus!
