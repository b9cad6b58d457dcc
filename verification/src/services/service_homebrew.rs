//! Services that the package manager installed.

use vstd::prelude::*;
use vstd::string::*;

use crate::error::Error;
use crate::paths::{join_path, joined};
use crate::text::texts;

verus! {

/// The directory under which the package manager installs its formulas.
pub open spec fn homebrew_root() -> Seq<char> {
    "/opt/homebrew/opt/"@
}

/// The installation directory of a formula.
pub open spec fn homebrew_dir(formula: Seq<char>) -> Seq<char> {
    homebrew_root() + formula
}

/// The name of a formula's descriptor file.
pub open spec fn homebrew_plist_name(formula: Seq<char>) -> Seq<char> {
    "homebrew.mxcl."@ + formula + ".plist"@
}

/// The path of a formula's descriptor file, inside its installation
/// directory.
pub open spec fn homebrew_plist_path(formula: Seq<char>) -> Seq<char> {
    joined(homebrew_dir(formula), homebrew_plist_name(formula))
}

/// A package-managed service as a mathematical value.
pub struct ServiceHomebrewView {
    pub formula: Seq<char>,
    pub formula_plist_path: Seq<char>,
}

/// What resolving `formula` among the installed packages comes to, given
/// whether its installation directory and its descriptor file are there.
pub open spec fn homebrew_resolution(formula: Seq<char>, installed: bool, has_plist: bool) -> Option<
    ServiceHomebrewView,
> {
    if installed && has_plist {
        Some(ServiceHomebrewView { formula, formula_plist_path: homebrew_plist_path(formula) })
    } else {
        None
    }
}

/// One directory under the package root, and whether it holds the
/// descriptor that its name calls for.
#[derive(Debug, Clone)]
pub struct HomebrewEntry {
    pub name: String,
    pub has_plist: bool,
}

/// The name of an entry that holds its descriptor.
pub open spec fn served_name(entry: HomebrewEntry) -> Option<Seq<char>> {
    if entry.has_plist {
        Some(entry.name@)
    } else {
        None
    }
}

/// The formulas among the entries of the package root: the names of those
/// that hold their descriptor, in the order of the entries.
pub open spec fn homebrew_formulas(entries: Seq<HomebrewEntry>) -> Seq<Seq<char>> {
    entries.filter_map(|entry: HomebrewEntry| served_name(entry))
}

/// A service that the package manager installed, with its descriptor file.
#[derive(Debug)]
pub struct ServiceHomebrew {
    formula: String,
    formula_plist_path: String,
}

impl View for ServiceHomebrew {
    type V = ServiceHomebrewView;

    closed spec fn view(&self) -> ServiceHomebrewView {
        ServiceHomebrewView {
            formula: self.formula@,
            formula_plist_path: self.formula_plist_path@,
        }
    }
}

impl ServiceHomebrew {
    /// The directory whose entries are the installed formulas.
    pub fn root_dir() -> (dir: String)
        ensures
            dir@ == homebrew_root(),
    {
        String::from_str("/opt/homebrew/opt/")
    }

    /// The directory that the package manager installs `formula` in.
    pub fn formula_dir(formula: &str) -> (dir: String)
        ensures
            dir@ == homebrew_dir(formula@),
    {
        let mut dir = Self::root_dir();
        dir.append(formula);
        dir
    }

    /// The descriptor file that `formula` has if it is a service.
    pub fn plist_path(formula: &str) -> (path: String)
        ensures
            path@ == homebrew_plist_path(formula@),
    {
        let dir = Self::formula_dir(formula);
        let mut name = String::from_str("homebrew.mxcl.");
        name.append(formula);
        name.append(".plist");
        join_path(dir.as_str(), name.as_str())
    }

    /// The package-managed service `formula`. `installed` says whether its
    /// installation directory exists, `has_plist` whether its descriptor
    /// file does.
    pub fn new(formula: String, installed: bool, has_plist: bool) -> (service: Result<Self, Error>)
        ensures
            match service {
                Ok(found) => homebrew_resolution(formula@, installed, has_plist) == Some(found@),
                Err(Error::FormulaNotFound { formula: name }) => !installed && name@ == formula@,
                Err(Error::PlistNotFound { formula: name }) => installed && !has_plist && name@
                    == formula@,
                Err(_) => false,
            },
    {
        if !installed {
            return Err(Error::FormulaNotFound { formula });
        }
        if !has_plist {
            return Err(Error::PlistNotFound { formula });
        }
        let formula_plist_path = Self::plist_path(formula.as_str());
        Ok(ServiceHomebrew { formula, formula_plist_path })
    }

    /// The formulas among the entries of the package root.
    pub fn formulas(entries: &Vec<HomebrewEntry>) -> (names: Vec<String>)
        ensures
            texts(names@) == homebrew_formulas(entries@),
    {
        let mut names: Vec<String> = Vec::new();
        let ghost pick = |entry: HomebrewEntry| served_name(entry);
        let mut i: usize = 0;
        while i < entries.len()
            invariant
                i <= entries.len(),
                pick == |entry: HomebrewEntry| served_name(entry),
                texts(names@) == entries@.take(i as int).filter_map(pick),
            decreases entries.len() - i,
        {
            proof {
                entries@.lemma_filter_map_take_succ(pick, i as int);
            }
            if entries[i].has_plist {
                names.push(entries[i].name.clone());
            }
            i += 1;
        }
        assert(entries@.take(i as int) =~= entries@);
        names
    }

    pub fn formula_plist_path(&self) -> (path: &str)
        ensures
            path@ == self@.formula_plist_path,
    {
        self.formula_plist_path.as_str()
    }

    pub fn formula(&self) -> (formula: &str)
        ensures
            formula@ == self@.formula,
    {
        self.formula.as_str()
    }
}

} // verus!
