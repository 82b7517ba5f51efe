//! The body of a compile request: source text, user arguments and filters.
use vstd::prelude::*;
use vstd::string::*;

verus! {

/// The output toggles of a compilation.
#[derive(Debug, Clone, Copy, PartialEq, Eq, Structural)]
pub struct Filters {
    pub binary: bool,
    pub comment_only: bool,
    pub demangle: bool,
    pub directives: bool,
    pub execute: bool,
    pub intel: bool,
    pub labels: bool,
    pub library_code: bool,
    pub trim: bool,
}

impl Filters {
    /// The profile used when a request names no filters: comments-only,
    /// demangling, directives, Intel syntax and labels on; the rest off.
    pub open spec fn default_profile() -> Filters {
        Filters {
            binary: false,
            comment_only: true,
            demangle: true,
            directives: true,
            execute: false,
            intel: true,
            labels: true,
            library_code: false,
            trim: false,
        }
    }
}

impl Default for Filters {
    fn default() -> (r: Filters)
        ensures
            r == Filters::default_profile(),
    {
        Filters {
            binary: false,
            comment_only: true,
            demangle: true,
            directives: true,
            execute: false,
            intel: true,
            labels: true,
            library_code: false,
            trim: false,
        }
    }
}

/// User arguments for the compiler together with the output filters.
#[derive(Debug)]
pub struct Options {
    pub user_arguments: String,
    pub filters: Filters,
}

/// The arguments passed to the compiler when a request names none.
pub open spec fn default_user_arguments() -> Seq<char> {
    seq!['-', 'O']
}

impl Options {
    pub fn new(user_arguments: String, filters: Filters) -> (r: Options)
        ensures
            r.user_arguments == user_arguments,
            r.filters == filters,
    {
        Options { user_arguments, filters }
    }

    /// The default options: arguments `-O` and the default filter profile.
    pub open spec fn is_default(self) -> bool {
        &&& self.user_arguments@ == default_user_arguments()
        &&& self.filters == Filters::default_profile()
    }
}

impl Default for Options {
    fn default() -> (r: Options)
        ensures
            r.is_default(),
    {
        let user_arguments = String::from_str("-O");
        proof {
            reveal_strlit("-O");
        }
        assert(user_arguments@ =~= default_user_arguments());
        let filters = Filters::default();
        assert(filters == Filters::default_profile());
        Options { user_arguments, filters }
    }
}

/// A compile request: the source text, passed on unchanged, and its options.
#[derive(Debug)]
pub struct Source {
    pub source: String,
    pub options: Options,
}

impl Source {
    /// A request with caller-supplied options, taken verbatim.
    pub fn with_options(source: &str, options: Options) -> (r: Source)
        ensures
            r.source@ == source@,
            r.options == options,
    {
        Source { source: String::from_str(source), options }
    }

    /// A request with the default options.
    pub fn with_default_options(source: &str) -> (r: Source)
        ensures
            r.source@ == source@,
            r.options.is_default(),
    {
        Source::with_options(source, Options::default())
    }
}

/// The value of a string field that the service left out.
pub fn default_string() -> (r: String)
    ensures
        r@ == Seq::<char>::empty(),
{
    String::new()
}

/// A list that holds one empty string.
pub fn default_vec_string() -> (r: Vec<String>)
    ensures
        r@.len() == 1,
        r@[0]@ == Seq::<char>::empty(),
{
    let mut r: Vec<String> = Vec::new();
    r.push(default_string());
    r
}

} // verus!
