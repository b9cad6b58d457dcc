//! Services that the user registered as agents of their own.

use vstd::prelude::*;
use vstd::string::*;

use crate::error::Error;
use crate::paths::{join_path, joined};
use crate::text::{chars_of, ends_with, opt_text, starts_with, texts};

verus! {

/// The directory of a user's agents, under their home directory.
pub open spec fn agents_dir(home: Seq<char>) -> Seq<char> {
    joined(joined(home, "Library"@), "LaunchAgents"@)
}

/// The ending of the file names that describe `formula`.
pub open spec fn agent_file_suffix(formula: Seq<char>) -> Seq<char> {
    formula + ".plist"@
}

/// The file called `name` describes `formula`.
pub open spec fn describes(name: Seq<char>, formula: Seq<char>) -> bool {
    agent_file_suffix(formula).is_suffix_of(name)
}

/// The first of `names` that describes `formula`, by its index.
pub open spec fn first_described(names: Seq<Seq<char>>, formula: Seq<char>) -> Option<int>
    decreases names.len(),
{
    if names.len() == 0 {
        None
    } else if describes(names[0], formula) {
        Some(0)
    } else {
        match first_described(names.drop_first(), formula) {
            Some(i) => Some(i + 1),
            None => None,
        }
    }
}

/// The descriptor file of `formula` in the directory `dir` that holds the
/// files `names`: the first that describes it, in the order of the listing.
pub open spec fn found_plist(formula: Seq<char>, dir: Seq<char>, names: Seq<Seq<char>>) -> Option<
    Seq<char>,
> {
    match first_described(names, formula) {
        Some(i) => Some(joined(dir, names[i])),
        None => None,
    }
}

/// Where none of the first `n` names describes the formula, the search goes
/// on behind them.
proof fn lemma_first_described_skips(names: Seq<Seq<char>>, formula: Seq<char>, n: int)
    requires
        0 <= n <= names.len(),
        forall|j: int| 0 <= j < n ==> !describes(#[trigger] names[j], formula),
    ensures
        first_described(names, formula) == match first_described(names.skip(n), formula) {
            Some(i) => Some(i + n),
            None => None,
        },
    decreases n,
{
    if n == 0 {
        assert(names.skip(0) =~= names);
    } else {
        let rest = names.drop_first();
        assert(!describes(names[0], formula));
        assert forall|j: int| 0 <= j < n - 1 implies !describes(#[trigger] rest[j], formula) by {
            assert(rest[j] == names[j + 1]);
        }
        lemma_first_described_skips(rest, formula, n - 1);
        assert(rest.skip(n - 1) =~= names.skip(n));
    }
}

/// `name` without the ending of a descriptor file, where it has it.
pub open spec fn agent_stem(name: Seq<char>) -> Seq<char> {
    if ".plist"@.is_suffix_of(name) {
        name.take(name.len() - ".plist"@.len())
    } else {
        name
    }
}

/// The longest ending of `s` that holds at most `dots` dots.
pub open spec fn tail_within(s: Seq<char>, dots: nat) -> Seq<char>
    decreases s.len(),
{
    if s.len() == 0 {
        Seq::empty()
    } else if s.last() != '.' {
        tail_within(s.drop_last(), dots).push(s.last())
    } else if dots > 0 {
        tail_within(s.drop_last(), (dots - 1) as nat).push('.')
    } else {
        Seq::empty()
    }
}

/// The short name of an agent file: the last two of the components that
/// dots part its stem into, or the whole stem where it has fewer.
pub open spec fn short_name(name: Seq<char>) -> Seq<char> {
    tail_within(agent_stem(name), 1)
}

/// The short name belongs to the package manager's own namespace.
pub open spec fn is_reserved(short: Seq<char>) -> bool {
    "mxcl."@.is_prefix_of(short)
}

/// The formula that an agent file is listed as, if it is listed.
pub open spec fn listed_agent(name: Seq<char>) -> Option<Seq<char>> {
    if is_reserved(short_name(name)) {
        None
    } else {
        Some(short_name(name))
    }
}

/// The formulas of a user's agents: the short name of each file, in the
/// order of the listing, but for those in the package manager's namespace.
pub open spec fn agent_formulas(names: Seq<Seq<char>>) -> Seq<Seq<char>> {
    names.filter_map(|name: Seq<char>| listed_agent(name))
}

/// A user agent as a mathematical value.
pub struct ServiceUserAgentView {
    pub formula: Seq<char>,
    pub formula_plist_path: Seq<char>,
}

/// What resolving `formula` among a user's agents comes to, given the
/// descriptor file that the search found and whether that file exists.
pub open spec fn agent_resolution(formula: Seq<char>, found: Option<Seq<char>>, exists: bool) -> Option<
    ServiceUserAgentView,
> {
    match found {
        Some(path) if exists => Some(ServiceUserAgentView { formula, formula_plist_path: path }),
        _ => None,
    }
}

/// A service that the user registered as an agent, with its descriptor
/// file.
#[derive(Debug)]
pub struct ServiceUserAgent {
    formula: String,
    formula_plist_path: String,
}

impl View for ServiceUserAgent {
    type V = ServiceUserAgentView;

    closed spec fn view(&self) -> ServiceUserAgentView {
        ServiceUserAgentView {
            formula: self.formula@,
            formula_plist_path: self.formula_plist_path@,
        }
    }
}

impl ServiceUserAgent {
    /// The agents directory of the user whose home directory is `home`.
    pub fn launch_agents_dir(home: &str) -> (dir: String)
        ensures
            dir@ == agents_dir(home@),
    {
        let library = join_path(home, "Library");
        join_path(library.as_str(), "LaunchAgents")
    }

    /// The descriptor file of `formula` among the files `names` of the
    /// directory `dir`.
    pub fn find_plist(formula: &str, dir: &str, names: &Vec<String>) -> (found: Option<String>)
        ensures
            opt_text(found) == found_plist(formula@, dir@, texts(names@)),
    {
        let mut suffix = String::from_str(formula);
        suffix.append(".plist");
        let ghost list = texts(names@);
        let mut i: usize = 0;
        while i < names.len()
            invariant
                i <= names.len(),
                list == texts(names@),
                suffix@ == agent_file_suffix(formula@),
                forall|j: int| 0 <= j < i ==> !describes(#[trigger] list[j], formula@),
            decreases names.len() - i,
        {
            assert(list[i as int] == names@[i as int]@);
            if ends_with(names[i].as_str(), suffix.as_str()) {
                proof {
                    lemma_first_described_skips(list, formula@, i as int);
                    assert(list.skip(i as int)[0] == list[i as int]);
                }
                return Some(join_path(dir, names[i].as_str()));
            }
            i += 1;
        }
        proof {
            lemma_first_described_skips(list, formula@, i as int);
            assert(list.skip(i as int) =~= Seq::<Seq<char>>::empty());
        }
        None
    }

    /// The user agent `formula`. `found` is the descriptor file that the
    /// search in the agents directory came to, `exists` whether that file
    /// is there.
    pub fn new(formula: String, found: Option<String>, exists: bool) -> (service: Result<
        Self,
        Error,
    >)
        ensures
            match service {
                Ok(agent) => agent_resolution(formula@, opt_text(found), exists)
                    == Some(agent@),
                Err(Error::PlistNotFound { formula: name }) => agent_resolution(
                    formula@,
                    opt_text(found),
                    exists,
                ) is None && name@ == formula@,
                Err(_) => false,
            },
    {
        let formula_plist_path = match found {
            Some(path) => path,
            None => {
                return Err(Error::PlistNotFound { formula });
            },
        };
        if !exists {
            return Err(Error::PlistNotFound { formula });
        }
        Ok(ServiceUserAgent { formula, formula_plist_path })
    }

    /// The short name of the agent file `name`.
    pub fn transform(name: &str) -> (short: String)
        ensures
            short@ == short_name(name@),
    {
        let cs = chars_of(name);
        let end: usize = if ends_with(name, ".plist") {
            proof {
                reveal_strlit(".plist");
            }
            cs.len() - 6
        } else {
            cs.len()
        };
        proof {
            reveal_strlit(".plist");
        }
        let ghost stem = cs@.take(end as int);
        assert(stem == agent_stem(name@));
        let mut start: usize = end;
        let mut dots: usize = 0;
        assert(stem.take(end as int) =~= stem);
        assert(stem.subrange(end as int, end as int) =~= Seq::<char>::empty());
        loop
            invariant_except_break
                tail_within(stem, 1) == tail_within(stem.take(start as int), (1 - dots) as nat)
                    + stem.subrange(start as int, end as int),
            invariant
                cs@ == name@,
                stem == cs@.take(end as int),
                start <= end <= cs.len(),
                dots <= 1,
            ensures
                tail_within(stem, 1) == stem.subrange(start as int, end as int),
            decreases start,
        {
            let ghost head = stem.take(start as int);
            if start == 0 {
                assert(head =~= Seq::<char>::empty());
                break;
            }
            assert(head.last() == cs@[start - 1]);
            assert(head.drop_last() =~= stem.take(start - 1));
            if cs[start - 1] == '.' {
                if dots == 1 {
                    break;
                }
                dots = 1;
            }
            assert(stem.subrange(start - 1, end as int) =~= seq![cs@[start - 1]] + stem.subrange(
                start as int,
                end as int,
            ));
            start -= 1;
        }
        assert(stem.subrange(start as int, end as int) =~= cs@.subrange(start as int, end as int));
        String::from_str(name.substring_char(start, end))
    }

    /// The formulas of a user's agents, given the names of the files in
    /// their agents directory.
    pub fn formulas(names: &Vec<String>) -> (formulas: Vec<String>)
        ensures
            texts(formulas@) == agent_formulas(texts(names@)),
            forall|i: int| 0 <= i < formulas.len() ==> !is_reserved(#[trigger] formulas[i]@),
    {
        let mut formulas: Vec<String> = Vec::new();
        let ghost list = texts(names@);
        let ghost pick = |name: Seq<char>| listed_agent(name);
        assert(texts(formulas@) =~= list.take(0).filter_map(pick));
        let mut i: usize = 0;
        while i < names.len()
            invariant
                i <= names.len(),
                list == texts(names@),
                pick == |name: Seq<char>| listed_agent(name),
                texts(formulas@) == list.take(i as int).filter_map(pick),
                forall|k: int| 0 <= k < formulas.len() ==> !is_reserved(#[trigger] formulas[k]@),
            decreases names.len() - i,
        {
            proof {
                list.lemma_filter_map_take_succ(pick, i as int);
                assert(list[i as int] == names@[i as int]@);
            }
            let short = Self::transform(names[i].as_str());
            if !starts_with(short.as_str(), "mxcl.") {
                let ghost before = formulas@;
                formulas.push(short);
                assert(texts(formulas@) =~= texts(before).push(short@));
            }
            i += 1;
        }
        assert(list.take(i as int) =~= list);
        formulas
    }

    pub fn formula_plist_path(&self) -> (path: &str)
        ensures
            path@ == self@.formula_plist_path,
    {
        self.formula_plist_path.as_str()
    }

    pub fn formula(&self) -> (formula: &str)
        ensures
            formula@ == self@.formula,
    {
        self.formula.as_str()
    }
}

} // verus!
