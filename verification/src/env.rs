//! Environment variable names and precedence.
//!
//! One rule, applied everywhere: an explicit argument wins, then the
//! environment, then the SDK default. A variable set to whitespace counts as
//! unset, so an empty `TYPESAFE_API_KEY` exported by a shell profile reads as
//! "no key was provided" rather than as an attempt to authenticate with "".

use vstd::prelude::*;

use crate::text::{chars_of, is_blank, lemma_trim_empty_iff_blank, owned, str_eq, string_of, trim, trim_chars};

verus! {

/// The environment variable a setting may be read from.
#[derive(Debug, Clone, Copy, PartialEq, Eq, Structural)]
pub enum Var {
    /// The API key.
    ApiKey,
    /// The API root.
    BaseUrl,
    /// The model used when a request does not name one.
    DefaultModel,
    /// The log level.
    LogLevel,
}

/// The exported name of each variable.
pub open spec fn var_name(var: Var) -> Seq<char> {
    match var {
        Var::ApiKey => "TYPESAFE_API_KEY"@,
        Var::BaseUrl => "TYPESAFE_BASE_URL"@,
        Var::DefaultModel => "TYPESAFE_DEFAULT_MODEL"@,
        Var::LogLevel => "TYPESAFE_LOG_LEVEL"@,
    }
}

impl Var {
    /// The variable's name as exported in a shell.
    pub fn name(self) -> (r: &'static str)
        ensures
            r@ == var_name(self),
    {
        match self {
            Var::ApiKey => "TYPESAFE_API_KEY",
            Var::BaseUrl => "TYPESAFE_BASE_URL",
            Var::DefaultModel => "TYPESAFE_DEFAULT_MODEL",
            Var::LogLevel => "TYPESAFE_LOG_LEVEL",
        }
    }

    /// Every variable the SDK reads, in the order they are documented.
    pub fn all() -> (r: [Var; 4])
        ensures
            r@ == seq![Var::ApiKey, Var::BaseUrl, Var::DefaultModel, Var::LogLevel],
    {
        let r = [Var::ApiKey, Var::BaseUrl, Var::DefaultModel, Var::LogLevel];
        assert(r@ =~= seq![Var::ApiKey, Var::BaseUrl, Var::DefaultModel, Var::LogLevel]);
        r
    }

    /// The name, as an owned string (what `Display` writes).
    pub fn to_string(self) -> (r: String)
        ensures
            r@ == var_name(self),
    {
        owned(self.name())
    }
}

/// Somewhere to read environment variables from.
///
/// A trait rather than direct process access so tests can supply a fixed
/// environment; process environment mutation is not thread-safe.
///
/// A source whose contents are fixed while it is read (such as [`Fixed`])
/// says so through [`Source::is_snapshot`] and describes them with
/// [`Source::holds`]; `get` then answers exactly that. A live source, such as
/// the process environment, keeps the defaults and promises nothing.
pub trait Source {
    /// Whether `get` is known to answer what [`Source::holds`] says.
    open spec fn is_snapshot(&self) -> bool {
        false
    }

    /// What the source holds for `name`, before trimming, when it is a
    /// snapshot.
    open spec fn holds(&self, name: Seq<char>) -> Option<Seq<char>> {
        None
    }

    /// The raw value of `name`, before trimming.
    fn get(&self, name: &str) -> (r: Option<String>)
        ensures
            self.is_snapshot() ==> opt_view(r) == self.holds(name@),
    ;
}

/// What a raw value means as a setting: trimmed, and absent when blank.
pub open spec fn setting_of(raw: Option<Seq<char>>) -> Option<Seq<char>> {
    match raw {
        None => None,
        Some(v) => if is_blank(v) { None } else { Some(trim(v)) },
    }
}

/// The view of an optional string.
pub open spec fn opt_view(o: Option<String>) -> Option<Seq<char>> {
    match o {
        None => None,
        Some(s) => Some(s@),
    }
}

/// Turns a raw environment value into a setting: blank and whitespace-only
/// values count as unset, anything else is trimmed.
pub fn setting(raw: Option<String>) -> (r: Option<String>)
    ensures
        opt_view(r) == setting_of(opt_view(raw)),
{
    match raw {
        None => None,
        Some(v) => {
            let cs = chars_of(v.as_str());
            let t = trim_chars(&cs);
            proof {
                lemma_trim_empty_iff_blank(cs@);
            }
            if t.len() == 0 {
                None
            } else {
                Some(string_of(&t))
            }
        },
    }
}

/// A value [`setting`] gives back is trimmed and not blank.
pub proof fn lemma_setting_is_trimmed(raw: Option<Seq<char>>)
    ensures
        setting_of(raw) matches Some(v) ==> v == trim(v) && v.len() > 0,
{
    if let Some(v) = raw {
        if !is_blank(v) {
            crate::text::lemma_trim_fixpoint(v);
            lemma_trim_empty_iff_blank(v);
        }
    }
}

/// What [`read`] gives for `var` from a snapshot `source`.
pub open spec fn read_of<S: Source>(source: &S, var: Var) -> Option<Seq<char>> {
    setting_of(source.holds(var_name(var)))
}

/// Reads `var`, treating blank and whitespace-only values as unset.
///
/// The result is [`setting`] applied to what `source` answers for the
/// variable's name. For a snapshot that is exactly [`read_of`]; for any
/// source, a value that comes back is trimmed and not blank.
pub fn read<S: Source>(source: &S, var: Var) -> (r: Option<String>)
    ensures
        source.is_snapshot() ==> opt_view(r) == read_of(source, var),
        r matches Some(v) ==> v@ == trim(v@) && v@.len() > 0,
{
    let raw = source.get(var.name());
    let r = setting(raw);
    proof {
        lemma_setting_is_trimmed(opt_view(raw));
    }
    r
}

/// The explicit value if given, otherwise the environment.
pub fn from_code_or_env<S: Source>(from_code: Option<String>, source: &S, var: Var) -> (r: Option<String>)
    ensures
        from_code is Some ==> r == from_code,
        from_code is None ==> (r matches Some(v) ==> v@ == trim(v@) && v@.len() > 0),
        from_code is None && source.is_snapshot() ==> opt_view(r) == read_of(source, var),
{
    match from_code {
        Some(v) => Some(v),
        None => read(source, var),
    }
}

/// A fixed environment, for tests.
#[derive(Debug, Clone, Default)]
pub struct Fixed {
    pairs: Vec<(String, String)>,
}

/// The value bound to `name` by the first pair that names it.
pub open spec fn lookup(pairs: Seq<(Seq<char>, Seq<char>)>, name: Seq<char>) -> Option<Seq<char>>
    decreases pairs.len(),
{
    if pairs.len() == 0 {
        None
    } else if pairs[0].0 == name {
        Some(pairs[0].1)
    } else {
        lookup(pairs.drop_first(), name)
    }
}

impl View for Fixed {
    type V = Seq<(Seq<char>, Seq<char>)>;

    closed spec fn view(&self) -> Seq<(Seq<char>, Seq<char>)> {
        self.pairs@.map_values(|p: (String, String)| (p.0@, p.1@))
    }
}

impl Fixed {
    /// Builds an environment from name/value pairs.
    pub fn new(pairs: &[(&str, &str)]) -> (r: Fixed)
        ensures
            r@ == pairs@.map_values(|p: (&str, &str)| (p.0@, p.1@)),
    {
        let mut v: Vec<(String, String)> = Vec::new();
        let mut i: usize = 0;
        while i < pairs.len()
            invariant
                i <= pairs.len(),
                v.len() == i,
                forall|j: int| 0 <= j < i ==> (#[trigger] v@[j]).0@ == pairs@[j].0@ && v@[j].1@ == pairs@[j].1@,
            decreases pairs.len() - i,
        {
            let (name, value) = pairs[i];
            v.push((owned(name), owned(value)));
            i = i + 1;
        }
        let r = Fixed { pairs: v };
        assert(r@ =~= pairs@.map_values(|p: (&str, &str)| (p.0@, p.1@)));
        r
    }

    /// The raw value the first pair named `name` holds.
    pub fn value(&self, name: &str) -> (r: Option<String>)
        ensures
            opt_view(r) == lookup(self@, name@),
    {
        let mut i: usize = 0;
        assert(self@.subrange(0, self@.len() as int) =~= self@);
        while i < self.pairs.len()
            invariant
                i <= self.pairs.len(),
                lookup(self@, name@) == lookup(self@.subrange(i as int, self@.len() as int), name@),
            decreases self.pairs.len() - i,
        {
            let ghost rest = self@.subrange(i as int, self@.len() as int);
            assert(rest[0] == self@[i as int]);
            if str_eq(self.pairs[i].0.as_str(), name) {
                return Some(self.pairs[i].1.clone());
            }
            assert(rest.drop_first() =~= self@.subrange(i + 1, self@.len() as int));
            i = i + 1;
        }
        None
    }
}

impl Source for Fixed {
    open spec fn is_snapshot(&self) -> bool {
        true
    }

    open spec fn holds(&self, name: Seq<char>) -> Option<Seq<char>> {
        lookup(self@, name)
    }

    fn get(&self, name: &str) -> (r: Option<String>)
        ensures
            opt_view(r) == lookup(self@, name@),
    {
        self.value(name)
    }
}

} // verus!
