//! The proxy's configuration and how it is put together from arguments.
use vstd::prelude::*;
use indexmap::IndexMap;
use crate::endpoint::Endpoint;
use crate::text::{
    chars_of, decimal, decimal_digits, find, lemma_decimal_reads_back, position, slice, string_of,
};

verus! {

/// The ordered map of an outside crate, `indexmap::IndexMap`. Nothing of its
/// inside is known here; `entries_of` names what it holds.
#[verifier::external_type_specification]
#[verifier::external_body]
#[verifier::reject_recursive_types(K)]
#[verifier::reject_recursive_types(V)]
#[verifier::reject_recursive_types(S)]
pub struct ExIndexMap<K, V, S>(IndexMap<K, V, S>);

/// The entries of a map of named backends, each as a name and an address, in
/// the order in which the map hands them out.
pub uninterp spec fn entries_of(map: IndexMap<String, Endpoint>) -> Seq<(Seq<char>, Endpoint)>;

/// The index of the first of `entries` that has the name `name`.
pub open spec fn index_of_name(entries: Seq<(Seq<char>, Endpoint)>, name: Seq<char>) -> Option<
    int,
> {
    if exists|i: int| 0 <= i < entries.len() && entries[i].0 == name {
        Some(choose|i: int| is_first_with_name(entries, name, i))
    } else {
        None
    }
}

/// True when entry `i` has the name `name` and no entry before it has.
pub open spec fn is_first_with_name(
    entries: Seq<(Seq<char>, Endpoint)>,
    name: Seq<char>,
    i: int,
) -> bool {
    &&& 0 <= i < entries.len()
    &&& entries[i].0 == name
    &&& forall|k: int| 0 <= k < i ==> entries[k].0 != name
}

/// `IndexMap::new`: a map without entries.
#[verifier::external_body]
fn map_new() -> (map: IndexMap<String, Endpoint>)
    ensures
        entries_of(map) == Seq::<(Seq<char>, Endpoint)>::empty(),
{
    IndexMap::new()
}

/// `IndexMap::insert`: where an entry has the key already, the entry stays in
/// its place, takes the new value, and the value it had is returned; else the
/// new entry goes last and `None` is returned.
#[verifier::external_body]
fn map_insert(map: &mut IndexMap<String, Endpoint>, key: String, value: Endpoint) -> (previous:
    Option<Endpoint>)
    ensures
        match index_of_name(entries_of(*old(map)), key@) {
            Some(i) => {
                &&& entries_of(*final(map)) == entries_of(*old(map)).update(i, (key@, value))
                &&& previous == Some(entries_of(*old(map))[i].1)
            },
            None => {
                &&& entries_of(*final(map)) == entries_of(*old(map)).push((key@, value))
                &&& previous is None
            },
        },
{
    map.insert(key, value)
}

/// `IndexMap::clone`: a map with the same entries in the same order.
#[verifier::external_body]
fn map_clone(map: &IndexMap<String, Endpoint>) -> (copy: IndexMap<String, Endpoint>)
    ensures
        entries_of(copy) == entries_of(*map),
{
    map.clone()
}

/// `IndexMap::len`: the number of entries.
#[verifier::external_body]
fn map_len(map: &IndexMap<String, Endpoint>) -> (n: usize)
    ensures
        n == entries_of(*map).len(),
{
    map.len()
}

/// `IndexMap::get_index`: the entry at position `index`, copied out; `None`
/// when the map has no such position.
#[verifier::external_body]
fn map_get_index(map: &IndexMap<String, Endpoint>, index: usize) -> (entry: Option<
    (String, Endpoint),
>)
    ensures
        match entry {
            Some((name, addr)) => index < entries_of(*map).len() && (name@, addr) == entries_of(
                *map,
            )[index as int],
            None => index >= entries_of(*map).len(),
        },
{
    map.get_index(index).map(|(name, addr)| (name.clone(), *addr))
}

/// The backends of a configuration: addresses alone, or addresses by name.
pub enum Backends {
    Anon(Vec<Endpoint>),
    Named(IndexMap<String, Endpoint>),
}

/// The name that the backend at position `index` gets when it has none of its
/// own: `backend1` for the first, `backend2` for the second, and so on.
pub open spec fn backend_name(index: nat) -> Seq<char> {
    "backend"@ + decimal(index + 1)
}

/// Backends at different positions get different names.
pub proof fn lemma_backend_names_differ(i: nat, j: nat)
    requires
        i != j,
    ensures
        backend_name(i) != backend_name(j),
{
    let prefix = "backend"@;
    if backend_name(i) == backend_name(j) {
        let a = decimal(i + 1);
        let b = decimal(j + 1);
        assert((prefix + a).subrange(prefix.len() as int, (prefix + a).len() as int) == a);
        assert((prefix + b).subrange(prefix.len() as int, (prefix + b).len() as int) == b);
        lemma_decimal_reads_back(i + 1);
        lemma_decimal_reads_back(j + 1);
    }
}

/// The name of the backend at position `index` that has no name of its own.
pub fn auto_name(index: usize) -> (name: String)
    requires
        index < usize::MAX,
    ensures
        name@ == backend_name(index as nat),
{
    let mut chars = chars_of("backend");
    let mut digits = decimal_digits(index + 1);
    chars.append(&mut digits);
    string_of(chars)
}

impl Backends {
    /// The backends as names and addresses, in order. Backends without a name
    /// are named by their position.
    pub open spec fn listing(&self) -> Seq<(Seq<char>, Endpoint)> {
        match *self {
            Backends::Anon(addrs) => Seq::new(
                addrs@.len(),
                |i: int| (backend_name(i as nat), addrs@[i]),
            ),
            Backends::Named(map) => entries_of(map),
        }
    }
}

/// One backend as written on the command line: `name=address`, or the
/// address alone.
#[derive(Debug)]
pub struct BackendSpec {
    pub name: Option<String>,
    pub addr: String,
}

/// The name in a backend's text: what stands before the first `=`, if there
/// is one.
pub open spec fn spec_name(text: Seq<char>) -> Option<Seq<char>> {
    if position(text, '=') < text.len() {
        Some(text.subrange(0, position(text, '=') as int))
    } else {
        None
    }
}

/// The address in a backend's text: what stands after the first `=`, or the
/// whole text when it has none.
pub open spec fn spec_addr(text: Seq<char>) -> Seq<char> {
    if position(text, '=') < text.len() {
        text.subrange(position(text, '=') as int + 1, text.len() as int)
    } else {
        text
    }
}

/// Splits a backend's text at its first `=` into name and address.
pub fn split_backend(text: &str) -> (spec: BackendSpec)
    ensures
        match spec.name {
            Some(name) => spec_name(text@) == Some(name@),
            None => spec_name(text@) is None,
        },
        spec.addr@ == spec_addr(text@),
{
    let chars = chars_of(text);
    let p = find(&chars, '=');
    if p < chars.len() {
        let name = string_of(slice(&chars, 0, p));
        let addr = string_of(slice(&chars, p + 1, chars.len()));
        BackendSpec { name: Some(name), addr }
    } else {
        BackendSpec { name: None, addr: string_of(chars) }
    }
}

/// The entries that backends on the command line stand for, where `addrs[i]`
/// is what the address in `backends[i]` stands for: each entry holds the name
/// that precedes the first `=` of its text, if there is one, and its address.
pub fn entries_from(backends: &Vec<String>, addrs: &Vec<Endpoint>) -> (entries: Vec<
    (Option<String>, Endpoint),
>)
    requires
        addrs@.len() == backends@.len(),
    ensures
        entries@.len() == backends@.len(),
        forall|i: int|
            0 <= i < entries@.len() ==> text_of((#[trigger] entries@[i]).0) == spec_name(
                backends@[i]@,
            ) && entries@[i].1 == addrs@[i],
{
    let mut entries: Vec<(Option<String>, Endpoint)> = Vec::new();
    let mut i: usize = 0;
    while i < backends.len()
        invariant
            addrs@.len() == backends@.len(),
            i <= backends@.len(),
            entries@.len() == i,
            forall|k: int|
                0 <= k < i ==> text_of((#[trigger] entries@[k]).0) == spec_name(backends@[k]@)
                    && entries@[k].1 == addrs@[k],
        decreases backends.len() - i,
    {
        let spec = split_backend(backends[i].as_str());
        entries.push((spec.name, addrs[i]));
        i += 1;
    }
    entries
}

/// Why a configuration cannot be put together.
#[derive(Debug)]
pub enum ConfigError {
    /// Neither a configuration file nor a backend was given.
    MissingBackends,
    /// Backends were given without an address to listen on.
    MissingBind,
    /// Two backends have this name.
    DuplicateBackend(String),
}

/// The name in an entry, and its position's name where it has none.
pub open spec fn entry_name(entries: Seq<(Option<String>, Endpoint)>, i: int) -> Seq<char> {
    match entries[i].0 {
        Some(name) => name@,
        None => backend_name(i as nat),
    }
}

/// True when some entry carries a name of its own.
pub open spec fn any_named(entries: Seq<(Option<String>, Endpoint)>) -> bool {
    exists|i: int| 0 <= i < entries.len() && (#[trigger] entries[i]).0 is Some
}

/// True when entry `j` has the name of an entry before it.
pub open spec fn repeats(entries: Seq<(Option<String>, Endpoint)>, j: int) -> bool {
    exists|i: int| 0 <= i < j && #[trigger] entry_name(entries, i) == entry_name(entries, j)
}

/// The first `n` entries under their names.
pub open spec fn named_listing(entries: Seq<(Option<String>, Endpoint)>, n: int) -> Seq<
    (Seq<char>, Endpoint),
> {
    Seq::new(n as nat, |i: int| (entry_name(entries, i), entries[i].1))
}

/// The addresses of the first `n` entries.
pub open spec fn addresses(entries: Seq<(Option<String>, Endpoint)>, n: int) -> Seq<Endpoint> {
    Seq::new(n as nat, |i: int| entries[i].1)
}

/// The backends that a list of entries stands for.
///
/// Without any name the entries are anonymous backends. As soon as one entry
/// has a name, all of them are named, those without a name by their position,
/// and a name that occurs twice is an error: the error names the first entry
/// that repeats an earlier one.
pub fn backends_from(entries: Vec<(Option<String>, Endpoint)>) -> (result: Result<
    Backends,
    ConfigError,
>)
    ensures
        match result {
            Ok(Backends::Anon(addrs)) => {
                &&& !any_named(entries@)
                &&& addrs@ == addresses(entries@, entries@.len() as int)
            },
            Ok(Backends::Named(map)) => {
                &&& any_named(entries@)
                &&& forall|j: int| 0 <= j < entries@.len() ==> !repeats(entries@, j)
                &&& entries_of(map) == named_listing(entries@, entries@.len() as int)
            },
            Err(ConfigError::DuplicateBackend(name)) => {
                &&& any_named(entries@)
                &&& exists|j: int|
                    {
                        &&& 0 <= j < entries@.len()
                        &&& #[trigger] repeats(entries@, j)
                        &&& forall|k: int| 0 <= k < j ==> !repeats(entries@, k)
                        &&& name@ == entry_name(entries@, j)
                    }
            },
            Err(_) => false,
        },
{
    let n = entries.len();
    let mut named = false;
    let mut i: usize = 0;
    while i < n
        invariant
            n == entries@.len(),
            i <= n,
            named == exists|k: int| 0 <= k < i && (#[trigger] entries@[k]).0 is Some,
        decreases n - i,
    {
        if entries[i].0.is_some() {
            named = true;
        }
        i += 1;
    }
    if !named {
        let mut addrs: Vec<Endpoint> = Vec::new();
        let mut i: usize = 0;
        while i < n
            invariant
                n == entries@.len(),
                i <= n,
                addrs@ == addresses(entries@, i as int),
            decreases n - i,
        {
            addrs.push(entries[i].1);
            i += 1;
        }
        return Ok(Backends::Anon(addrs));
    }
    let mut map = map_new();
    let mut i: usize = 0;
    while i < n
        invariant
            n == entries@.len(),
            i <= n,
            any_named(entries@),
            entries_of(map) == named_listing(entries@, i as int),
            forall|j: int| 0 <= j < i ==> !repeats(entries@, j),
        decreases n - i,
    {
        let name = match &entries[i].0 {
            Some(name) => name.clone(),
            None => auto_name(i),
        };
        let ghost before = entries_of(map);
        proof {
            if repeats(entries@, i as int) {
                let k = choose|k: int|
                    0 <= k < i && #[trigger] entry_name(entries@, k) == entry_name(
                        entries@,
                        i as int,
                    );
                assert(before[k].0 == name@);
            }
        }
        let copy = name.clone();
        match map_insert(&mut map, name, entries[i].1) {
            Some(_) => {
                return Err(ConfigError::DuplicateBackend(copy));
            },
            None => {},
        }
        i += 1;
    }
    Ok(Backends::Named(map))
}

/// What the program was started with.
#[derive(Debug)]
pub struct Args {
    /// The path of a configuration file.
    pub config: Option<String>,
    /// The address to listen on.
    pub bind: Option<Endpoint>,
    /// The backends, each as `address` or `name=address`.
    pub backend: Option<Vec<String>>,
    /// The name of the backend whose responses the client gets.
    pub default: Option<String>,
}

/// Where the configuration comes from.
#[derive(Debug)]
pub enum Plan {
    /// It is read from the file at this path.
    Load(String),
    /// It is built from the arguments.
    Build { bind: Endpoint, backends: Vec<String>, default: Option<String> },
}

/// What a [`Plan`] is in contracts.
pub enum PlanModel {
    Load(Seq<char>),
    Build { bind: Endpoint, backends: Seq<Seq<char>>, default: Option<Seq<char>> },
}

/// The texts of a list of strings.
pub open spec fn texts(strings: Seq<String>) -> Seq<Seq<char>> {
    Seq::new(strings.len(), |i: int| strings[i]@)
}

/// The text of an optional string.
pub open spec fn text_of(string: Option<String>) -> Option<Seq<char>> {
    match string {
        Some(s) => Some(s@),
        None => None,
    }
}

impl View for Plan {
    type V = PlanModel;

    open spec fn view(&self) -> PlanModel {
        match *self {
            Plan::Load(path) => PlanModel::Load(path@),
            Plan::Build { bind, backends, default } => PlanModel::Build {
                bind,
                backends: texts(backends@),
                default: text_of(default),
            },
        }
    }
}

/// The plan that `args` ask for, where `default_exists` tells whether the
/// file `yprox.toml` exists where the program runs.
pub open spec fn plan_of(args: Args, default_exists: bool) -> Result<PlanModel, ConfigError> {
    match (args.config, args.backend, args.bind) {
        (Some(path), _, _) => Ok(PlanModel::Load(path@)),
        (None, None, _) => if default_exists {
            Ok(PlanModel::Load("yprox.toml"@))
        } else {
            Err(ConfigError::MissingBackends)
        },
        (None, Some(_), None) => Err(ConfigError::MissingBind),
        (None, Some(backends), Some(bind)) => Ok(
            PlanModel::Build { bind, backends: texts(backends@), default: text_of(args.default) },
        ),
    }
}

/// Decides where the configuration comes from.
///
/// A configuration file that was asked for is loaded. Without one and without
/// backends, `yprox.toml` is loaded if it exists, and the lack of both is an
/// error. Backends on the command line need an address to listen on.
pub fn parse(args: Args, default_exists: bool) -> (plan: Result<Plan, ConfigError>)
    ensures
        match plan {
            Ok(p) => plan_of(args, default_exists) == Ok::<PlanModel, ConfigError>(p@),
            Err(e) => plan_of(args, default_exists) == Err::<PlanModel, ConfigError>(e),
        },
{
    match (args.config, args.backend, args.bind) {
        (Some(path), _, _) => Ok(Plan::Load(path)),
        (None, None, _) => {
            if default_exists {
                Ok(Plan::Load(String::from_str("yprox.toml")))
            } else {
                Err(ConfigError::MissingBackends)
            }
        },
        (None, Some(_), None) => Err(ConfigError::MissingBind),
        (None, Some(backends), Some(bind)) => Ok(
            Plan::Build { bind, backends, default: args.default },
        ),
    }
}

/// The proxy's configuration.
pub struct Config {
    /// The address to listen on.
    pub bind: Endpoint,
    /// The targets that every payload is mirrored to.
    pub backends: Backends,
    /// The name of the target whose responses the client gets.
    pub default_backend: Option<String>,
    /// The scripts that are installed as hooks, in order.
    pub scripts: Vec<String>,
}

impl Config {
    /// The configuration that the arguments stand for, without scripts.
    pub fn from_args(
        bind: Endpoint,
        entries: Vec<(Option<String>, Endpoint)>,
        default: Option<String>,
    ) -> (result: Result<Config, ConfigError>)
        ensures
            match result {
                Ok(config) => {
                    &&& config.bind == bind
                    &&& config.default_backend == default
                    &&& config.scripts@.len() == 0
                    &&& forall|j: int| 0 <= j < entries@.len() ==> !repeats(entries@, j)
                    &&& config.backends.listing() == named_listing(
                        entries@,
                        entries@.len() as int,
                    )
                    &&& config.backends is Named <==> any_named(entries@)
                },
                Err(ConfigError::DuplicateBackend(name)) => {
                    &&& any_named(entries@)
                    &&& exists|j: int|
                        {
                            &&& 0 <= j < entries@.len()
                            &&& #[trigger] repeats(entries@, j)
                            &&& forall|k: int| 0 <= k < j ==> !repeats(entries@, k)
                            &&& name@ == entry_name(entries@, j)
                        }
                },
                Err(_) => false,
            },
    {
        let ghost n = entries@.len() as int;
        match backends_from(entries) {
            Ok(backends) => {
                proof {
                    if !any_named(entries@) {
                        assert forall|j: int| 0 <= j < n implies !repeats(entries@, j) by {
                            if repeats(entries@, j) {
                                let i = choose|i: int|
                                    0 <= i < j && #[trigger] entry_name(entries@, i) == entry_name(
                                        entries@,
                                        j,
                                    );
                                lemma_backend_names_differ(i as nat, j as nat);
                            }
                        }
                    }
                }
                Ok(Config { bind, backends, default_backend: default, scripts: Vec::new() })
            },
            Err(e) => Err(e),
        }
    }

    /// The backends by name, in order. Backends without a name are named by
    /// their position: `backend1`, `backend2`, and so on.
    pub fn backends(&self) -> (map: IndexMap<String, Endpoint>)
        ensures
            entries_of(map) == self.backends.listing(),
    {
        match &self.backends {
            Backends::Anon(addrs) => {
                let mut map = map_new();
                let mut i: usize = 0;
                while i < addrs.len()
                    invariant
                        i <= addrs.len(),
                        entries_of(map) == Seq::new(
                            i as nat,
                            |k: int| (backend_name(k as nat), addrs@[k]),
                        ),
                    decreases addrs.len() - i,
                {
                    let name = auto_name(i);
                    let ghost before = entries_of(map);
                    proof {
                        assert forall|k: int| 0 <= k < before.len() implies before[k].0
                            != name@ by {
                            lemma_backend_names_differ(k as nat, i as nat);
                        }
                    }
                    map_insert(&mut map, name, addrs[i]);
                    i += 1;
                }
                map
            },
            Backends::Named(map) => map_clone(map),
        }
    }

    /// The backends as a list of names and addresses, in order.
    pub fn targets(&self) -> (list: Vec<(String, Endpoint)>)
        ensures
            list@.len() == self.backends.listing().len(),
            forall|i: int|
                0 <= i < list@.len() ==> (#[trigger] list@[i]).0@ == self.backends.listing()[i].0
                    && list@[i].1 == self.backends.listing()[i].1,
    {
        let map = self.backends();
        let n = map_len(&map);
        let mut list: Vec<(String, Endpoint)> = Vec::new();
        let mut i: usize = 0;
        while i < n
            invariant
                n == entries_of(map).len(),
                entries_of(map) == self.backends.listing(),
                i <= n,
                list@.len() == i,
                forall|k: int|
                    0 <= k < i ==> (#[trigger] list@[k]).0@ == entries_of(map)[k].0 && list@[k].1
                        == entries_of(map)[k].1,
            decreases n - i,
        {
            match map_get_index(&map, i) {
                Some(entry) => {
                    list.push(entry);
                },
                None => {},
            }
            i += 1;
        }
        list
    }

    /// The name of the designated target: the one that the configuration
    /// names, else the first backend. `None` when there is neither.
    pub fn designated(&self) -> (name: Option<String>)
        ensures
            match self.default_backend {
                Some(chosen) => name matches Some(n) && n@ == chosen@,
                None => match name {
                    Some(n) => self.backends.listing().len() > 0 && n@
                        == self.backends.listing()[0].0,
                    None => self.backends.listing().len() == 0,
                },
            },
    {
        match &self.default_backend {
            Some(chosen) => Some(chosen.clone()),
            None => {
                let map = self.backends();
                match map_get_index(&map, 0) {
                    Some((name, _)) => Some(name),
                    None => None,
                }
            },
        }
    }
}

} // verus!
