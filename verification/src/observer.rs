//! Observing the skill lists of the namespaces: which skills appeared and which disappeared since
//! the last look, and the record of what each namespace lists.
use vstd::prelude::*;

use crate::name_map::NameMap;
use crate::operator_config::{DescriptionSource, LoaderError, NamespaceConfigs, OperatorConfig};
use crate::text::str_eq;

verus! {

/// A skill as a namespace lists it: its name and, optionally, the tag of its image.
#[derive(Debug, Clone, PartialEq, Eq, Hash)]
pub struct Skill {
    pub name: String,
    pub tag: Option<String>,
}

/// The mathematical value of a [`Skill`]: its name and tag.
pub type SkillView = (Seq<char>, Option<Seq<char>>);

impl View for Skill {
    type V = SkillView;

    open spec fn view(&self) -> SkillView {
        (
            self.name@,
            match self.tag {
                Some(t) => Some(t@),
                None => None,
            },
        )
    }
}

impl Skill {
    /// A copy of this skill.
    pub fn duplicate(&self) -> (r: Skill)
        ensures
            r@ == self@,
    {
        Skill {
            name: self.name.clone(),
            tag: match &self.tag {
                Some(t) => Some(t.clone()),
                None => None,
            },
        }
    }
}

/// The values of a list of skills.
pub open spec fn skills_view(skills: Seq<Skill>) -> Seq<SkillView> {
    skills.map_values(|s: Skill| s@)
}

/// The skill list of a namespace.
#[derive(Debug, Clone, PartialEq, Eq)]
pub struct NamespaceDescription {
    pub skills: Vec<Skill>,
}

/// No value occurs twice.
pub open spec fn no_duplicates<T>(s: Seq<T>) -> bool {
    forall|i: int, j: int| 0 <= i < s.len() && 0 <= j < s.len() && i != j ==> s[i] != s[j]
}

/// Skills that appeared and skills that disappeared.
#[derive(Debug, Clone, PartialEq, Eq)]
pub struct Diff {
    pub added: Vec<Skill>,
    pub removed: Vec<Skill>,
}

/// `diff` lists, each once, the skills of `after` that are not in `before`, and the skills of
/// `before` that are not in `after`.
pub open spec fn is_diff(before: Seq<SkillView>, after: Seq<SkillView>, added: Seq<SkillView>, removed: Seq<SkillView>) -> bool {
    &&& no_duplicates(added)
    &&& no_duplicates(removed)
    &&& forall|s: SkillView| #[trigger] added.contains(s) <==> after.contains(s) && !before.contains(s)
    &&& forall|s: SkillView| #[trigger] removed.contains(s) <==> before.contains(s) && !after.contains(s)
}

/// Are the two skills the same, by name and tag?
pub fn skill_eq(a: &Skill, b: &Skill) -> (r: bool)
    ensures
        r == (a@ == b@),
{
    if !str_eq(a.name.as_str(), b.name.as_str()) {
        return false;
    }
    match (&a.tag, &b.tag) {
        (Some(x), Some(y)) => str_eq(x.as_str(), y.as_str()),
        (None, None) => true,
        _ => false,
    }
}

/// Does `skills` hold `skill`?
pub fn contains_skill(skills: &Vec<Skill>, skill: &Skill) -> (r: bool)
    ensures
        r == skills_view(skills@).contains(skill@),
{
    let mut i: usize = 0;
    while i < skills.len()
        invariant
            i <= skills.len(),
            forall|k: int| 0 <= k < i ==> #[trigger] skills@[k]@ != skill@,
        decreases skills.len() - i,
    {
        if skill_eq(&skills[i], skill) {
            assert(skills_view(skills@)[i as int] == skill@);
            return true;
        }
        i = i + 1;
    }
    proof {
        if skills_view(skills@).contains(skill@) {
            let k = choose|k: int|
                0 <= k < skills_view(skills@).len() && skills_view(skills@)[k] == skill@;
            assert(skills@[k]@ == skill@);
        }
    }
    false
}

/// The skills of `from`, each once, that `other` does not hold, in the order of their first
/// occurrence in `from`.
fn difference(from: &Vec<Skill>, other: &Vec<Skill>) -> (r: Vec<Skill>)
    ensures
        no_duplicates(skills_view(r@)),
        forall|s: SkillView| #[trigger] skills_view(r@).contains(s) <==> skills_view(from@).contains(s)
            && !skills_view(other@).contains(s),
{
    let mut r: Vec<Skill> = Vec::new();
    let mut i: usize = 0;
    while i < from.len()
        invariant
            i <= from.len(),
            no_duplicates(skills_view(r@)),
            forall|s: SkillView| #[trigger] skills_view(r@).contains(s) <==> skills_view(
                from@.subrange(0, i as int),
            ).contains(s) && !skills_view(other@).contains(s),
        decreases from.len() - i,
    {
        let skill = &from[i];
        let ghost prefix = skills_view(from@.subrange(0, i as int));
        let ghost next = skills_view(from@.subrange(0, i + 1));
        assert(next =~= prefix.push(skill@));
        if !contains_skill(other, skill) && !contains_skill(&r, skill) {
            let ghost before = skills_view(r@);
            r.push(skill.duplicate());
            assert(skills_view(r@) =~= before.push(skill@));
            assert forall|s: SkillView| #[trigger] skills_view(r@).contains(s) <==> next.contains(s)
                && !skills_view(other@).contains(s) by {
                if s == skill@ {
                    assert(skills_view(r@)[before.len() as int] == s);
                    assert(next[i as int] == s);
                } else {
                    if skills_view(r@).contains(s) {
                        let k = choose|k: int| 0 <= k < skills_view(r@).len() && skills_view(r@)[k] == s;
                        assert(before[k] == s);
                    }
                    if before.contains(s) {
                        let k = choose|k: int| 0 <= k < before.len() && before[k] == s;
                        assert(skills_view(r@)[k] == s);
                    }
                    if next.contains(s) {
                        let k = choose|k: int| 0 <= k < next.len() && next[k] == s;
                        assert(prefix[k] == s);
                    }
                    if prefix.contains(s) {
                        let k = choose|k: int| 0 <= k < prefix.len() && prefix[k] == s;
                        assert(next[k] == s);
                    }
                }
            }
        } else {
            assert forall|s: SkillView| #[trigger] skills_view(r@).contains(s) <==> next.contains(s)
                && !skills_view(other@).contains(s) by {
                if next.contains(s) {
                    let k = choose|k: int| 0 <= k < next.len() && next[k] == s;
                    if k < i {
                        assert(prefix[k] == s);
                    }
                }
                if prefix.contains(s) {
                    let k = choose|k: int| 0 <= k < prefix.len() && prefix[k] == s;
                    assert(next[k] == s);
                }
            }
        }
        i = i + 1;
    }
    assert(from@.subrange(0, from.len() as int) =~= from@);
    r
}

/// The skills that appeared in `incoming` and that disappeared from `existing`.
pub fn compute_diff(existing: &Vec<Skill>, incoming: &Vec<Skill>) -> (d: Diff)
    ensures
        is_diff(skills_view(existing@), skills_view(incoming@), skills_view(d.added@), skills_view(d.removed@)),
{
    let added = difference(incoming, existing);
    let removed = difference(existing, incoming);
    Diff { added, removed }
}

/// Reads the skill list of a namespace from a file.
#[derive(Debug, Clone, PartialEq, Eq)]
pub struct FileLoader {
    pub path: String,
}

impl FileLoader {
    /// A loader for the skill list in the file at `path`.
    pub fn new(path: String) -> (l: FileLoader)
        ensures
            l.path == path,
    {
        FileLoader { path }
    }
}

/// Fetches the skill list of a namespace over HTTP, with a bearer token where one is given.
#[derive(Debug, Clone, PartialEq, Eq)]
pub struct HttpLoader {
    pub url: String,
    pub token: Option<String>,
}

impl HttpLoader {
    /// A loader for the skill list at `url`.
    pub fn from_url(url: &str, token: Option<String>) -> (l: HttpLoader)
        ensures
            l.url@ == url@,
            l.token == token,
    {
        HttpLoader { url: url.to_owned(), token }
    }
}

/// Something that delivers the skill list of a namespace. Fetching it is input and output,
/// which callers of this crate implement.
pub trait NamespaceDescriptionLoader {
    /// The current skill list, or why it could not be had.
    fn description(&mut self) -> Result<NamespaceDescription, String>;
}

/// A configuration that can be observed for the skill lists of its namespaces.
pub trait ObservableConfig {
    /// The names of the namespaces.
    fn namespaces(&self) -> Vec<String>;

    /// The current skills of a namespace, or why they could not be had.
    fn skills(&mut self, namespace: &str) -> Result<Vec<Skill>, String>;
}

/// Where the skill list of each namespace comes from.
pub struct NamespaceDescriptionLoaders {
    pub namespaces: NameMap<DescriptionSource>,
}

/// The namespace at `i` is the first, in configuration order, where choosing sources stops:
/// its source cannot be chosen, or its `file` URL cannot be cut.
pub open spec fn first_stop_at(config: OperatorConfig, i: int) -> bool {
    let e = config.namespaces.entries();
    &&& 0 <= i < e.len()
    &&& (e[i].1.loader_fails() || e[i].1.cut_fails())
    &&& forall|k: int|
        0 <= k < i ==> !(#[trigger] e[k]).1.loader_fails() && !e[k].1.cut_fails()
}

/// Choosing the sources of the configuration meets, before any namespace whose source cannot
/// be chosen, a `file` URL that cannot be cut.
pub open spec fn cut_stops(config: OperatorConfig) -> bool {
    exists|i: int| #[trigger] first_stop_at(config, i) && config.namespaces.entries()[i].1.cut_fails()
}

/// `r` is the outcome of choosing the source of each namespace of the configuration, in order:
/// all of them, or the error of the first whose source cannot be chosen.
pub open spec fn loaders_outcome(config: OperatorConfig, r: Result<NamespaceDescriptionLoaders, LoaderError>) -> bool {
    let e = config.namespaces.entries();
    match r {
        Ok(l) => l.namespaces.well_formed() && l.namespaces.names() == config.namespaces.names()
            && forall|i: int|
            0 <= i < e.len() ==> (#[trigger] e[i]).1.loader_outcome(Ok(l.namespaces.entries()[i].1)),
        Err(err) => exists|i: int|
            #[trigger] first_stop_at(config, i) && e[i].1.loader_outcome(Err(err)) && !e[i].1.cut_fails(),
    }
}

impl NamespaceDescriptionLoaders {
    /// The source of the skill list of each namespace of the configuration; the first
    /// namespace, in configuration order, whose source cannot be chosen fails the whole. A
    /// configuration that meets a `file` URL that cannot be cut before that is left out.
    pub fn new(config: &OperatorConfig) -> (r: Result<NamespaceDescriptionLoaders, LoaderError>)
        requires
            config.namespaces.well_formed(),
            !cut_stops(*config),
        ensures
            loaders_outcome(*config, r),
    {
        let mut namespaces: NameMap<DescriptionSource> = NameMap::new();
        let n = config.namespaces.len();
        let mut i: usize = 0;
        while i < n
            invariant
                n == config.namespaces.entries().len(),
                config.namespaces.well_formed(),
                !cut_stops(*config),
                i <= n,
                namespaces.well_formed(),
                namespaces.entries().len() == i,
                namespaces.names() == config.namespaces.names().subrange(0, i as int),
                forall|k: int|
                    0 <= k < i ==> (#[trigger] config.namespaces.entries()[k]).1.loader_outcome(
                        Ok(namespaces.entries()[k].1),
                    ),
                forall|k: int|
                    0 <= k < i ==> !(#[trigger] config.namespaces.entries()[k]).1.loader_fails()
                        && !config.namespaces.entries()[k].1.cut_fails(),
            decreases n - i,
        {
            let name = config.namespaces.name_at(i);
            let value = config.namespaces.value_at(i);
            proof {
                if value.cut_fails() {
                    assert(first_stop_at(*config, i as int));
                    assert(cut_stops(*config));
                }
            }
            let source = value.loader();
            match source {
                Ok(source) => {
                    let ghost before = namespaces;
                    proof {
                        assert(!before.names().contains(name@)) by {
                            if before.names().contains(name@) {
                                let k = choose|k: int| 0 <= k < before.names().len() && before.names()[k] == name@;
                                assert(config.namespaces.entries()[k].0@ == config.namespaces.entries()[i as int].0@);
                                config.namespaces.lemma_names_distinct(k, i as int);
                            }
                        }
                    }
                    namespaces.insert(name.clone(), source);
                    proof {
                        assert(namespaces.names() =~= config.namespaces.names().subrange(0, i + 1));
                    }
                },
                Err(e) => {
                    proof {
                        assert(first_stop_at(*config, i as int));
                    }
                    return Err(e);
                },
            }
            i = i + 1;
        }
        assert(config.namespaces.names().subrange(0, n as int) =~= config.namespaces.names());
        Ok(NamespaceDescriptionLoaders { namespaces })
    }

    /// The sources of the skill lists of the configuration, as [`Self::new`] chooses them;
    /// `None` where the configuration meets a `file` URL that cannot be cut before any
    /// namespace whose source cannot be chosen, which that function leaves out.
    pub fn try_new(config: &OperatorConfig) -> (r: Option<Result<NamespaceDescriptionLoaders, LoaderError>>)
        requires
            config.namespaces.well_formed(),
        ensures
            r is None <==> cut_stops(*config),
            r matches Some(x) ==> loaders_outcome(*config, x),
    {
        let n = config.namespaces.len();
        let mut i: usize = 0;
        while i < n
            invariant
                n == config.namespaces.entries().len(),
                config.namespaces.well_formed(),
                i <= n,
                forall|k: int|
                    0 <= k < i ==> !(#[trigger] config.namespaces.entries()[k]).1.loader_fails()
                        && !config.namespaces.entries()[k].1.cut_fails(),
            decreases n - i,
        {
            let value = config.namespaces.value_at(i);
            if value.url_cut_fails() {
                proof {
                    assert(first_stop_at(*config, i as int));
                }
                return None;
            }
            let fails = match value.loader() {
                Ok(_) => false,
                Err(_) => true,
            };
            if fails {
                proof {
                    assert(first_stop_at(*config, i as int));
                    assert(!cut_stops(*config)) by {
                        if cut_stops(*config) {
                            let j = choose|j: int| #[trigger] first_stop_at(*config, j)
                                && config.namespaces.entries()[j].1.cut_fails();
                            if j < i {
                            } else if j > i {
                                assert(!config.namespaces.entries()[i as int].1.loader_fails());
                            }
                        }
                    }
                }
                return Some(Self::new(config));
            }
            i = i + 1;
        }
        proof {
            assert(!cut_stops(*config)) by {
                if cut_stops(*config) {
                    let j = choose|j: int| #[trigger] first_stop_at(*config, j)
                        && config.namespaces.entries()[j].1.cut_fails();
                    assert(!config.namespaces.entries()[j].1.cut_fails());
                }
            }
        }
        Some(Self::new(config))
    }
}

/// A skill of a namespace, by the names of both.
#[derive(Debug, Clone, PartialEq, Eq, Hash)]
pub struct SkillPath {
    pub namespace: String,
    pub name: String,
}

impl SkillPath {
    /// The skill `name` of the namespace `namespace`.
    pub fn new(namespace: &str, name: &str) -> (p: SkillPath)
        ensures
            p.namespace@ == namespace@,
            p.name@ == name@,
    {
        SkillPath { namespace: namespace.to_owned(), name: name.to_owned() }
    }
}

/// What the skill executor is told after a look at a namespace.
#[derive(Debug, Clone, PartialEq, Eq)]
pub enum SkillCommand {
    /// The skill appeared, with the tag of its image.
    Add { path: SkillPath, tag: Option<String> },
    /// The skill disappeared, with the tag of its image.
    Remove { path: SkillPath, tag: Option<String> },
}

/// `c` tells the executor that the skill `s` of `namespace` appeared (`add`) or disappeared.
pub open spec fn is_command(c: SkillCommand, add: bool, namespace: Seq<char>, s: SkillView) -> bool {
    match c {
        SkillCommand::Add { path, tag } => add && path.namespace@ == namespace && path.name@ == s.0
            && (match tag {
            Some(t) => Some(t@),
            None => None,
        }) == s.1,
        SkillCommand::Remove { path, tag } => !add && path.namespace@ == namespace && path.name@
            == s.0 && (match tag {
            Some(t) => Some(t@),
            None => None,
        }) == s.1,
    }
}

/// `commands` first adds each skill of `added`, then removes each skill of `removed`, in order.
pub open spec fn are_commands(
    commands: Seq<SkillCommand>,
    namespace: Seq<char>,
    added: Seq<SkillView>,
    removed: Seq<SkillView>,
) -> bool {
    &&& commands.len() == added.len() + removed.len()
    &&& forall|i: int| 0 <= i < added.len() ==> #[trigger] is_command(commands[i], true, namespace, added[i])
    &&& forall|i: int|
        0 <= i < removed.len() ==> #[trigger] is_command(
            commands[added.len() + i],
            false,
            namespace,
            removed[i],
        )
}

/// The commands for the executor after `diff` was found in `namespace`: additions first.
pub fn skill_commands(namespace: &str, diff: Diff) -> (commands: Vec<SkillCommand>)
    ensures
        are_commands(commands@, namespace@, skills_view(diff.added@), skills_view(diff.removed@)),
{
    let mut commands: Vec<SkillCommand> = Vec::new();
    let added = diff.added;
    let removed = diff.removed;
    let mut i: usize = 0;
    while i < added.len()
        invariant
            i <= added.len(),
            commands.len() == i,
            forall|k: int| 0 <= k < i ==> #[trigger] is_command(commands@[k], true, namespace@, added@[k]@),
        decreases added.len() - i,
    {
        let s = &added[i];
        let tag = match &s.tag {
            Some(t) => Some(t.clone()),
            None => None,
        };
        commands.push(SkillCommand::Add { path: SkillPath::new(namespace, s.name.as_str()), tag });
        i = i + 1;
    }
    let mut j: usize = 0;
    while j < removed.len()
        invariant
            j <= removed.len(),
            commands.len() == added.len() + j,
            forall|k: int| 0 <= k < added.len() ==> #[trigger] is_command(commands@[k], true, namespace@, added@[k]@),
            forall|k: int|
                0 <= k < j ==> #[trigger] is_command(
                    commands@[added.len() + k],
                    false,
                    namespace@,
                    removed@[k]@,
                ),
        decreases removed.len() - j,
    {
        let s = &removed[j];
        let tag = match &s.tag {
            Some(t) => Some(t.clone()),
            None => None,
        };
        commands.push(SkillCommand::Remove { path: SkillPath::new(namespace, s.name.as_str()), tag });
        j = j + 1;
    }
    commands
}

/// What the observer last saw of each namespace.
pub struct ObserverState {
    skills: NameMap<Vec<Skill>>,
}

impl ObserverState {
    /// The skills last seen in `namespace`; none where it has not been seen yet.
    pub closed spec fn known(&self, namespace: Seq<char>) -> Seq<SkillView> {
        match self.skills.lookup(namespace) {
            Some(v) => skills_view(v@),
            None => Seq::empty(),
        }
    }

    /// The internal map is well formed.
    pub closed spec fn well_formed(&self) -> bool {
        self.skills.well_formed()
    }

    /// An observer that has not seen any namespace yet.
    pub fn new() -> (s: ObserverState)
        ensures
            s.well_formed(),
            forall|n: Seq<char>| #[trigger] s.known(n) == Seq::<SkillView>::empty(),
    {
        ObserverState { skills: NameMap::new() }
    }

    /// Record the skills that `namespace` lists now, and answer which appeared and which
    /// disappeared since the last record of it.
    pub fn record(&mut self, namespace: &str, incoming: Vec<Skill>) -> (d: Diff)
        requires
            old(self).well_formed(),
        ensures
            final(self).well_formed(),
            is_diff(
                old(self).known(namespace@),
                skills_view(incoming@),
                skills_view(d.added@),
                skills_view(d.removed@),
            ),
            final(self).known(namespace@) == skills_view(incoming@),
            forall|other: Seq<char>|
                other != namespace@ ==> #[trigger] final(self).known(other) == old(self).known(other),
    {
        let ghost incoming_view = skills_view(incoming@);
        let previous = self.skills.insert(namespace.to_owned(), incoming);
        let existing = match previous {
            Some(v) => v,
            None => Vec::new(),
        };
        assert(skills_view(existing@) == old(self).known(namespace@)) by {
            if previous is None {
                assert(skills_view(existing@) =~= Seq::<SkillView>::empty());
            }
        }
        let incoming_ref = self.skills.get(namespace).unwrap();
        compute_diff(&existing, incoming_ref)
    }

    /// Take in what a look at `namespace` fetched and answer what the executor is told. Where
    /// the skill list could not be fetched, nothing changes and nothing is told.
    pub fn load(&mut self, namespace: &str, fetched: Result<Vec<Skill>, String>) -> (commands: Vec<
        SkillCommand,
    >)
        requires
            old(self).well_formed(),
        ensures
            final(self).well_formed(),
            match fetched {
                Err(_) => {
                    &&& commands.len() == 0
                    &&& forall|n: Seq<char>| #[trigger] final(self).known(n) == old(self).known(n)
                },
                Ok(incoming) => {
                    &&& exists|added: Seq<SkillView>, removed: Seq<SkillView>|
                        #[trigger] is_diff(old(self).known(namespace@), skills_view(incoming@), added, removed)
                            && are_commands(commands@, namespace@, added, removed)
                    &&& final(self).known(namespace@) == skills_view(incoming@)
                    &&& forall|other: Seq<char>|
                        other != namespace@ ==> #[trigger] final(self).known(other) == old(self).known(other)
                },
            },
    {
        match fetched {
            Err(_) => Vec::new(),
            Ok(incoming) => {
                let ghost before = old(self).known(namespace@);
                let ghost incoming_view = skills_view(incoming@);
                let diff = self.record(namespace, incoming);
                let ghost added = skills_view(diff.added@);
                let ghost removed = skills_view(diff.removed@);
                let commands = skill_commands(namespace, diff);
                assert(is_diff(before, incoming_view, added, removed));
                commands
            },
        }
    }
}

/// Removing what disappeared and adding what appeared turns the skills seen before into the
/// skills seen now.
pub proof fn law_diff_turns_before_into_after(
    before: Seq<SkillView>,
    after: Seq<SkillView>,
    added: Seq<SkillView>,
    removed: Seq<SkillView>,
)
    requires
        is_diff(before, after, added, removed),
    ensures
        forall|s: SkillView|
            #[trigger] after.contains(s) <==> (before.contains(s) && !removed.contains(s)) || added.contains(s),
{
}

/// Seeing the same skills again reports no change.
pub proof fn law_unchanged_skills_give_empty_diff(
    skills: Seq<SkillView>,
    added: Seq<SkillView>,
    removed: Seq<SkillView>,
)
    requires
        is_diff(skills, skills, added, removed),
    ensures
        added.len() == 0,
        removed.len() == 0,
{
    if added.len() > 0 {
        assert(added.contains(added[0]));
    }
    if removed.len() > 0 {
        assert(removed.contains(removed[0]));
    }
}

} // verus!
