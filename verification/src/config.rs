//! The configuration store: named URLs and named programs.

use vstd::prelude::*;
use crate::text::same_text;

verus! {

/// The mathematical reading of a list of `(name, target)` pairs.
pub open spec fn pairs_view(pairs: Seq<(String, String)>) -> Seq<(Seq<char>, Seq<char>)> {
    pairs.map_values(|p: (String, String)| (p.0@, p.1@))
}

/// The names of a list of `(name, target)` pairs, in order.
pub open spec fn names_of(pairs: Seq<(Seq<char>, Seq<char>)>) -> Seq<Seq<char>> {
    pairs.map_values(|p: (Seq<char>, Seq<char>)| p.0)
}

/// The mapping that a list of `(name, target)` pairs denotes. Where a name
/// occurs more than once, its last target stands.
pub open spec fn mapping_of(pairs: Seq<(Seq<char>, Seq<char>)>) -> Map<Seq<char>, Seq<char>>
    decreases pairs.len(),
{
    if pairs.len() == 0 {
        Map::empty()
    } else {
        mapping_of(pairs.drop_last()).insert(pairs.last().0, pairs.last().1)
    }
}

/// The texts of a list of strings, in order.
pub open spec fn texts(names: Seq<String>) -> Seq<Seq<char>> {
    names.map_values(|s: String| s@)
}

/// A name is in the mapping of a list exactly when some pair carries it.
pub proof fn lemma_mapping_domain(pairs: Seq<(Seq<char>, Seq<char>)>)
    ensures
        mapping_of(pairs).dom() == names_of(pairs).to_set(),
        mapping_of(pairs).dom().finite(),
    decreases pairs.len(),
{
    let names = names_of(pairs);
    if pairs.len() == 0 {
        assert(mapping_of(pairs).dom() =~= names.to_set());
    } else {
        let front = pairs.drop_last();
        lemma_mapping_domain(front);
        assert(names_of(front) =~= names.drop_last());
        assert forall|k: Seq<char>| mapping_of(pairs).dom().contains(k) <==> names.to_set().contains(
            k,
        ) by {
            if names.to_set().contains(k) {
                let i = choose|i: int| 0 <= i < names.len() && names[i] == k;
                if i < names.len() - 1 {
                    assert(names.drop_last()[i] == k);
                }
            }
            if names.drop_last().to_set().contains(k) {
                let i = choose|i: int| 0 <= i < names.drop_last().len() && names.drop_last()[i] == k;
                assert(names[i] == k);
            }
            assert(names[names.len() - 1] == pairs.last().0);
        }
        assert(mapping_of(pairs).dom() =~= names.to_set());
    }
}

/// Where no name occurs twice, each pair's name maps to that pair's target.
pub proof fn lemma_mapping_value(pairs: Seq<(Seq<char>, Seq<char>)>, i: int)
    requires
        names_of(pairs).no_duplicates(),
        0 <= i < pairs.len(),
    ensures
        mapping_of(pairs).contains_key(pairs[i].0),
        mapping_of(pairs)[pairs[i].0] == pairs[i].1,
    decreases pairs.len(),
{
    let names = names_of(pairs);
    let front = pairs.drop_last();
    assert(names_of(front) =~= names.drop_last());
    if i < pairs.len() - 1 {
        assert(names[i] != names[pairs.len() - 1]);
        lemma_mapping_value(front, i);
    }
}

/// Replacing the target of one pair is inserting its name with the new target.
pub proof fn lemma_mapping_update(
    pairs: Seq<(Seq<char>, Seq<char>)>,
    i: int,
    target: Seq<char>,
)
    requires
        names_of(pairs).no_duplicates(),
        0 <= i < pairs.len(),
    ensures
        names_of(pairs.update(i, (pairs[i].0, target))) == names_of(pairs),
        mapping_of(pairs.update(i, (pairs[i].0, target))) == mapping_of(pairs).insert(
            pairs[i].0,
            target,
        ),
    decreases pairs.len(),
{
    let names = names_of(pairs);
    let changed = pairs.update(i, (pairs[i].0, target));
    let front = pairs.drop_last();
    assert(names_of(changed) =~= names);
    assert(names_of(front) =~= names.drop_last());
    if i < pairs.len() - 1 {
        assert(names[i] != names[pairs.len() - 1]);
        lemma_mapping_update(front, i, target);
        assert(changed.drop_last() =~= front.update(i, (pairs[i].0, target)));
        assert(mapping_of(changed) =~= mapping_of(pairs).insert(pairs[i].0, target));
    } else {
        assert(changed.drop_last() =~= front);
        assert(mapping_of(changed) =~= mapping_of(pairs).insert(pairs[i].0, target));
    }
}

/// A list of pairs in which no name occurs twice keeps every pair: its
/// mapping holds exactly the names of the list, as many as the list has
/// pairs, and each name stands for the target it was listed with.
pub proof fn lemma_distinct_names_all_kept(pairs: Seq<(Seq<char>, Seq<char>)>)
    requires
        names_of(pairs).no_duplicates(),
    ensures
        mapping_of(pairs).dom() == names_of(pairs).to_set(),
        mapping_of(pairs).dom().finite(),
        mapping_of(pairs).dom().len() == pairs.len(),
        forall|i: int|
            0 <= i < pairs.len() ==> mapping_of(pairs).contains_key(#[trigger] pairs[i].0)
                && mapping_of(pairs)[pairs[i].0] == pairs[i].1,
{
    lemma_mapping_domain(pairs);
    names_of(pairs).unique_seq_to_set();
    assert forall|i: int| 0 <= i < pairs.len() implies mapping_of(pairs).contains_key(
        #[trigger] pairs[i].0,
    ) && mapping_of(pairs)[pairs[i].0] == pairs[i].1 by {
        lemma_mapping_value(pairs, i);
    }
}

/// One mapping from names to targets.
pub struct TargetMap {
    entries: Vec<(String, String)>,
}

impl View for TargetMap {
    type V = Map<Seq<char>, Seq<char>>;

    closed spec fn view(&self) -> Map<Seq<char>, Seq<char>> {
        mapping_of(pairs_view(self.entries@))
    }
}

impl TargetMap {
    /// No name is held twice.
    #[verifier::type_invariant]
    spec fn distinct_names(self) -> bool {
        names_of(pairs_view(self.entries@)).no_duplicates()
    }

    /// A mapping without names.
    pub fn new() -> (empty: TargetMap)
        ensures
            empty@ == Map::<Seq<char>, Seq<char>>::empty(),
    {
        TargetMap { entries: Vec::new() }
    }

    /// Where `name` stands among the entries, if it does.
    fn position(&self, name: &str) -> (found: Option<usize>)
        ensures
            match found {
                Some(i) => i < self.entries.len() && self.entries[i as int].0@ == name@,
                None => forall|j: int| 0 <= j < self.entries.len() ==> self.entries[j].0@ != name@,
            },
    {
        let mut i: usize = 0;
        while i < self.entries.len()
            invariant
                i <= self.entries.len(),
                forall|j: int| 0 <= j < i ==> self.entries[j].0@ != name@,
            decreases self.entries.len() - i,
        {
            if same_text(self.entries[i].0.as_str(), name) {
                return Some(i);
            }
            i += 1;
        }
        None
    }

    /// The target that `name` stands for, or `None` where the mapping does
    /// not hold the name.
    pub fn resolve(&self, name: &str) -> (target: Option<&String>)
        ensures
            match target {
                Some(t) => self@.contains_key(name@) && t@ == self@[name@],
                None => !self@.contains_key(name@),
            },
    {
        let ghost pairs = pairs_view(self.entries@);
        proof {
            use_type_invariant(self);
            lemma_mapping_domain(pairs);
        }
        match self.position(name) {
            Some(i) => {
                proof {
                    lemma_mapping_value(pairs, i as int);
                }
                Some(&self.entries[i].1)
            },
            None => {
                proof {
                    let names = names_of(pairs);
                    if names.to_set().contains(name@) {
                        let j = choose|j: int| 0 <= j < names.len() && names[j] == name@;
                        assert(self.entries[j].0@ == name@);
                    }
                }
                None
            },
        }
    }

    /// Whether the mapping holds `name`.
    pub fn contains(&self, name: &str) -> (held: bool)
        ensures
            held == self@.contains_key(name@),
    {
        self.resolve(name).is_some()
    }

    /// The number of names.
    pub fn len(&self) -> (count: usize)
        ensures
            count == self@.dom().len(),
            self@.dom().finite(),
    {
        proof {
            use_type_invariant(self);
            let pairs = pairs_view(self.entries@);
            lemma_mapping_domain(pairs);
            names_of(pairs).unique_seq_to_set();
        }
        self.entries.len()
    }

    /// Gives `name` the target `target`, in place of the one it had, if any.
    pub fn insert(&mut self, name: String, target: String)
        ensures
            final(self)@ == old(self)@.insert(name@, target@),
    {
        let ghost before = pairs_view(self.entries@);
        proof {
            use_type_invariant(&*self);
        }
        let found = self.position(name.as_str());
        let mut entries: Vec<(String, String)> = Vec::new();
        std::mem::swap(&mut self.entries, &mut entries);
        match found {
            Some(i) => {
                proof {
                    lemma_mapping_update(before, i as int, target@);
                }
                entries.set(i, (name, target));
                assert(pairs_view(entries@) =~= before.update(
                    i as int,
                    (before[i as int].0, target@),
                ));
            },
            None => {
                entries.push((name, target));
                let ghost after = pairs_view(entries@);
                assert(after.drop_last() =~= before);
                assert(names_of(after) =~= names_of(before).push(name@));
            },
        }
        self.entries = entries;
    }

    /// The mapping that a list of `(name, target)` pairs denotes.
    pub fn from_pairs(pairs: Vec<(String, String)>) -> (built: TargetMap)
        ensures
            built@ == mapping_of(pairs_view(pairs@)),
    {
        let mut built = TargetMap::new();
        let mut i: usize = 0;
        while i < pairs.len()
            invariant
                i <= pairs.len(),
                built@ == mapping_of(pairs_view(pairs@).take(i as int)),
            decreases pairs.len() - i,
        {
            let name = pairs[i].0.clone();
            let target = pairs[i].1.clone();
            built.insert(name, target);
            proof {
                let all = pairs_view(pairs@);
                assert(all.take(i + 1).drop_last() =~= all.take(i as int));
            }
            i += 1;
        }
        proof {
            let all = pairs_view(pairs@);
            assert(all.take(pairs.len() as int) =~= all);
        }
        built
    }

    /// The names of the mapping, each once, in no order that callers may
    /// rely on.
    pub fn names(&self) -> (names: Vec<String>)
        ensures
            texts(names@).to_set() == self@.dom(),
            texts(names@).no_duplicates(),
            names.len() == self@.dom().len(),
    {
        let ghost pairs = pairs_view(self.entries@);
        proof {
            use_type_invariant(self);
            lemma_mapping_domain(pairs);
            names_of(pairs).unique_seq_to_set();
        }
        let mut names: Vec<String> = Vec::new();
        let mut i: usize = 0;
        while i < self.entries.len()
            invariant
                i <= self.entries.len(),
                pairs == pairs_view(self.entries@),
                texts(names@) == names_of(pairs).take(i as int),
            decreases self.entries.len() - i,
        {
            let ghost before = texts(names@);
            let name = self.entries[i].0.clone();
            assert(name@ == names_of(pairs)[i as int]);
            names.push(name);
            assert(texts(names@) =~= before.push(name@));
            assert(texts(names@) =~= names_of(pairs).take(i + 1));
            i += 1;
        }
        assert(texts(names@) =~= names_of(pairs));
        names
    }
}

/// The configuration: which URL and which program each name stands for.
/// Once built it does not change.
pub struct Config {
    urls: TargetMap,
    programs: TargetMap,
}

impl Config {
    /// The mapping from names to URLs.
    pub closed spec fn urls(&self) -> Map<Seq<char>, Seq<char>> {
        self.urls@
    }

    /// The mapping from names to program paths.
    pub closed spec fn programs(&self) -> Map<Seq<char>, Seq<char>> {
        self.programs@
    }

    /// A configuration of two mappings.
    pub fn new(urls: TargetMap, programs: TargetMap) -> (config: Config)
        ensures
            config.urls() == urls@,
            config.programs() == programs@,
    {
        Config { urls, programs }
    }

    /// The configuration that two lists of `(name, target)` pairs denote.
    /// A list in which no name occurs twice gives as many names as it has
    /// pairs.
    pub fn from_entries(urls: Vec<(String, String)>, programs: Vec<(String, String)>) -> (config:
        Config)
        ensures
            config.urls() == mapping_of(pairs_view(urls@)),
            config.programs() == mapping_of(pairs_view(programs@)),
            names_of(pairs_view(urls@)).no_duplicates() ==> config.urls().dom().len()
                == urls.len(),
            names_of(pairs_view(programs@)).no_duplicates() ==> config.programs().dom().len()
                == programs.len(),
    {
        proof {
            if names_of(pairs_view(urls@)).no_duplicates() {
                lemma_distinct_names_all_kept(pairs_view(urls@));
            }
            if names_of(pairs_view(programs@)).no_duplicates() {
                lemma_distinct_names_all_kept(pairs_view(programs@));
            }
        }
        Config { urls: TargetMap::from_pairs(urls), programs: TargetMap::from_pairs(programs) }
    }

    /// The names that stand for a URL, each once.
    pub fn list_url_names(&self) -> (names: Vec<String>)
        ensures
            texts(names@).to_set() == self.urls().dom(),
            texts(names@).no_duplicates(),
            names.len() == self.urls().dom().len(),
    {
        self.urls.names()
    }

    /// The names that stand for a program, each once.
    pub fn list_program_names(&self) -> (names: Vec<String>)
        ensures
            texts(names@).to_set() == self.programs().dom(),
            texts(names@).no_duplicates(),
            names.len() == self.programs().dom().len(),
    {
        self.programs.names()
    }

    /// The URL that `name` stands for, or `None` for a name without one.
    pub fn resolve_url(&self, name: &str) -> (url: Option<&String>)
        ensures
            match url {
                Some(u) => self.urls().contains_key(name@) && u@ == self.urls()[name@],
                None => !self.urls().contains_key(name@),
            },
    {
        self.urls.resolve(name)
    }

    /// The program path that `name` stands for, or `None` for a name without
    /// one.
    pub fn resolve_program(&self, name: &str) -> (path: Option<&String>)
        ensures
            match path {
                Some(p) => self.programs().contains_key(name@) && p@ == self.programs()[name@],
                None => !self.programs().contains_key(name@),
            },
    {
        self.programs.resolve(name)
    }
}

} // verus!
