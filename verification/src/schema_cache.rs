//! Where the Smart Data Models catalog is kept between container runs.
use vstd::prelude::*;
use vstd::string::*;
use crate::outside::io_error_text;

verus! {

/// Why the schema cache could not be placed.
#[derive(Debug)]
pub enum SchemaCacheError {
    /// Neither variable that could say where the cache belongs is set.
    Homeless,
    /// The directory could not be created.
    Uncreatable {
        /// The cache directory.
        path: String,
        /// The underlying filesystem failure.
        source: std::io::Error,
    },
}

/// A path with a relative part appended, as `Path::join` does it on a unix host: an absolute part
/// replaces the path, and a separator goes between the two unless the path is empty or already
/// ends in one.
pub open spec fn joined(base: Seq<char>, part: Seq<char>) -> Seq<char> {
    if part.len() > 0 && part[0] == '/' {
        part
    } else if base.len() == 0 || base.last() == '/' {
        base + part
    } else {
        base + seq!['/'] + part
    }
}

/// A path with another appended, as `Path::join` does it on a unix host.
pub fn join_path(base: &str, part: &str) -> (path: String)
    ensures
        path@ == joined(base@, part@),
{
    let slash = "/";
    proof {
        reveal_strlit("/");
    }
    let absolute = part.unicode_len() > 0 && part.get_char(0) == '/';
    if absolute {
        return part.to_owned();
    }
    let n = base.unicode_len();
    let mut path = base.to_owned();
    if n == 0 || base.get_char(n - 1) == '/' {
        path.append(part);
    } else {
        path.append(slash);
        path.append(part);
    }
    path
}

/// The cache path for one environment: `XDG_CACHE_HOME` when it is set, and `$HOME/.cache`
/// otherwise, with the runner's own directory under it.
pub open spec fn cache_path_of(base: Seq<char>) -> Seq<char> {
    joined(joined(base, "cassiopeia-examples"@), "schemas"@)
}

/// Whether a variable is set to something: the XDG base directory specification reads a variable
/// that is set but empty as unset.
pub open spec fn configured(value: Option<String>) -> bool {
    value matches Some(text) && text@.len() > 0
}

/// The cache path for one environment.
///
/// The path follows the XDG base directory specification: `XDG_CACHE_HOME` when it is set and not
/// empty, and `$HOME/.cache` otherwise. Taking the two variables as arguments lets them be tested
/// without setting process-wide state.
pub fn resolve(cache_home: Option<String>, home: Option<String>) -> (path: Result<String, SchemaCacheError>)
    ensures
        configured(cache_home) ==> (path matches Ok(p) && p@ == cache_path_of(cache_home->0@)),
        !configured(cache_home) && home is Some ==> (path matches Ok(p) && p@ == cache_path_of(
            joined(home->0@, ".cache"@),
        )),
        !configured(cache_home) && home is None ==> path matches Err(SchemaCacheError::Homeless),
{
    let configured_home = match cache_home {
        Some(configured) => {
            if configured.as_str().unicode_len() > 0 {
                Some(configured)
            } else {
                None
            }
        },
        None => None,
    };
    let base = match configured_home {
        Some(configured) => configured,
        None => match home {
            Some(h) => join_path(h.as_str(), ".cache"),
            None => return Err(SchemaCacheError::Homeless),
        },
    };
    let examples = join_path(base.as_str(), "cassiopeia-examples");
    Ok(join_path(examples.as_str(), "schemas"))
}

/// What a schema cache failure prints as, where `detail` is what the operating system's failure,
/// if any, prints as.
pub open spec fn schema_cache_message(error: SchemaCacheError, detail: Seq<char>) -> Seq<char> {
    match error {
        SchemaCacheError::Homeless => "neither XDG_CACHE_HOME nor HOME is set, so the Smart Data Models cache has nowhere to live"@,
        SchemaCacheError::Uncreatable { path, .. } => "cannot create the schema cache at "@ + path@ + ": "@ + detail,
    }
}

impl SchemaCacheError {
    /// What the failure prints as, given what the operating system's failure, if any, prints as.
    pub fn describe(&self, detail: &str) -> (text: String)
        ensures
            text@ == schema_cache_message(*self, detail@),
    {
        let mut text = String::new();
        match self {
            SchemaCacheError::Homeless => {
                text.append("neither XDG_CACHE_HOME nor HOME is set, so the Smart Data Models cache has nowhere to live");
            },
            SchemaCacheError::Uncreatable { path, .. } => {
                text.append("cannot create the schema cache at ");
                text.append(path.as_str());
                text.append(": ");
                text.append(detail);
            },
        }
        text
    }

    /// What the operating system's failure, if any, prints as; nothing for a failure of the
    /// library's own.
    pub(crate) fn outside_detail(&self) -> (detail: String)
        ensures
            *self is Homeless ==> detail@ == Seq::<char>::empty(),
    {
        match self {
            SchemaCacheError::Uncreatable { source, .. } => io_error_text(source),
            SchemaCacheError::Homeless => String::new(),
        }
    }

    /// What the failure prints as: exactly for a missing home, and with the operating system's words
    /// for a directory it would not create.
    pub fn to_string(&self) -> (text: String)
        ensures
            exists|detail: Seq<char>| text@ == schema_cache_message(*self, detail),
            *self is Homeless ==> text@ == schema_cache_message(*self, Seq::empty()),
    {
        let detail = self.outside_detail();
        let text = self.describe(detail.as_str());
        assert(text@ == schema_cache_message(*self, detail@));
        text
    }
}

} // verus!
