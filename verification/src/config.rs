//! The configuration snapshot: the server bind address and the table mapping
//! project names to their enabled flags, plus the errors that resolving the
//! snapshot from its external source can produce.

use vstd::prelude::*;

verus! {

/// Why a configuration snapshot could not be resolved.
///
/// Reading the source and parsing what was read can fail independently; the
/// detail string carries the underlying cause's description.
pub enum ConfigError {
    /// The configuration source could not be read at all.
    ReadError(String),
    /// Bytes were read but do not conform to the expected shape.
    ParseError(String),
}

impl ConfigError {
    /// The description of the underlying cause.
    pub fn detail(&self) -> (r: &String)
        ensures
            r@ == self.detail_spec(),
    {
        match self {
            ConfigError::ReadError(d) => d,
            ConfigError::ParseError(d) => d,
        }
    }

    pub open spec fn detail_spec(self) -> Seq<char> {
        match self {
            ConfigError::ReadError(d) => d@,
            ConfigError::ParseError(d) => d@,
        }
    }
}

/// The address the service binds to.
pub struct ServerConfig {
    pub host: String,
    pub port: u16,
}

/// One resolved configuration snapshot.
///
/// The project table is kept as a list of (name, enabled) entries; its
/// mathematical meaning is the map [`Configuration::projects_map`], where an
/// earlier entry takes precedence over a later one with the same name.  A
/// well-formed snapshot ([`Configuration::wf`]) has no repeated names, so the
/// precedence never matters for one.
pub struct Configuration {
    pub server: ServerConfig,
    pub projects: Vec<(String, bool)>,
}

/// The map that a list of (name, enabled) entries denotes: the first entry
/// for a name decides its flag.
pub open spec fn map_of(entries: Seq<(String, bool)>) -> Map<Seq<char>, bool>
    decreases entries.len(),
{
    if entries.len() == 0 {
        Map::empty()
    } else {
        map_of(entries.skip(1)).insert(entries[0].0@, entries[0].1)
    }
}

/// A name is in the map exactly when some entry carries it.
pub proof fn lemma_map_of_domain(entries: Seq<(String, bool)>, name: Seq<char>)
    ensures
        map_of(entries).contains_key(name) <==> exists|j: int|
            0 <= j < entries.len() && entries[j].0@ == name,
    decreases entries.len(),
{
    if entries.len() > 0 {
        lemma_map_of_domain(entries.skip(1), name);
        if entries[0].0@ != name {
            if map_of(entries).contains_key(name) {
                let j = choose|j: int|
                    0 <= j < entries.skip(1).len() && entries.skip(1)[j].0@ == name;
                assert(entries[j + 1].0@ == name);
            }
            if exists|j: int| 0 <= j < entries.len() && entries[j].0@ == name {
                let j = choose|j: int| 0 <= j < entries.len() && entries[j].0@ == name;
                assert(entries.skip(1)[j - 1].0@ == name);
            }
        }
    }
}

/// The first entry that carries a name decides that name's flag.
pub proof fn lemma_map_of_first_match(entries: Seq<(String, bool)>, i: int)
    requires
        0 <= i < entries.len(),
        forall|j: int| 0 <= j < i ==> entries[j].0@ != entries[i].0@,
    ensures
        map_of(entries).contains_key(entries[i].0@),
        map_of(entries)[entries[i].0@] == entries[i].1,
    decreases i,
{
    if i > 0 {
        lemma_map_of_first_match(entries.skip(1), i - 1);
        assert(entries.skip(1)[i - 1] == entries[i]);
        assert(forall|j: int|
            0 <= j < i - 1 ==> #[trigger] entries.skip(1)[j].0@ != entries.skip(1)[i - 1].0@);
    }
}

impl Configuration {
    /// The project table as the map it denotes.
    pub open spec fn projects_map(self) -> Map<Seq<char>, bool> {
        map_of(self.projects@)
    }

    /// A well-formed snapshot carries each project name at most once.
    pub open spec fn wf(self) -> bool {
        forall|i: int, j: int|
            0 <= i < j < self.projects@.len() ==> self.projects@[i].0@ != self.projects@[j].0@
    }

    /// Whether the snapshot carries each project name at most once.
    pub fn well_formed(&self) -> (r: bool)
        ensures
            r == self.wf(),
    {
        let n = self.projects.len();
        for i in 0..n
            invariant
                n == self.projects@.len(),
                forall|p: int, q: int|
                    0 <= p < q < self.projects@.len() && p < i ==> self.projects@[p].0@
                        != self.projects@[q].0@,
        {
            for j in (i + 1)..n
                invariant
                    i < n == self.projects@.len(),
                    forall|p: int, q: int|
                        0 <= p < q < self.projects@.len() && p < i ==> self.projects@[p].0@
                            != self.projects@[q].0@,
                    forall|q: int| i < q < j ==> self.projects@[i as int].0@
                        != self.projects@[q].0@,
            {
                if self.projects[i].0 == self.projects[j].0 {
                    return false;
                }
            }
        }
        true
    }

    /// The flag recorded for a name, or `None` where the table does not know
    /// the name.
    pub fn lookup(&self, name: &String) -> (r: Option<bool>)
        ensures
            r is Some <==> self.projects_map().contains_key(name@),
            r matches Some(flag) ==> flag == self.projects_map()[name@],
    {
        let n = self.projects.len();
        for i in 0..n
            invariant
                n == self.projects@.len(),
                forall|j: int| 0 <= j < i ==> self.projects@[j].0@ != name@,
        {
            if self.projects[i].0 == *name {
                proof {
                    lemma_map_of_first_match(self.projects@, i as int);
                }
                return Some(self.projects[i].1);
            }
        }
        proof {
            lemma_map_of_domain(self.projects@, name@);
        }
        None
    }
}

} // verus!
