//! Key-store paths: validated Arti paths, C Tor paths, and the patterns
//! that match them.
//!
//! An [`ArtiPath`] is a nonempty sequence of [`ArtiPathComponent`]s separated
//! by `/`. Path components may contain UTF-8 alphanumerics, and — except as
//! the first or last character — `-`, `_`, or `.`. Consequently, leading,
//! trailing or duplicated `/` are forbidden, and so is the path-traversal
//! pattern `..`.

use vstd::prelude::*;
use vstd::string::*;

verus! {

/// Name for std's Unicode test of one character: letter or digit.
pub uninterp spec fn char_alphanumeric(c: char) -> bool;

/// Relies on char::is_alphanumeric: a pure test of the one character,
/// true exactly on Unicode letters and numbers.
#[verifier::external_body]
fn is_alphanumeric_char(c: char) -> (r: bool)
    ensures
        r == char_alphanumeric(c),
{
    c.is_alphanumeric()
}

/// Name for what glob matching returns: the capture ranges of `path` under
/// `pattern`, or nothing when the pattern does not match. The result is a
/// function of the pattern and the path alone.
pub uninterp spec fn glob_captures(pattern: Seq<char>, path: Seq<char>) -> Option<
    Seq<(usize, usize)>,
>;

/// Relies on glob_match::glob_match_with_captures: whether `path` matches
/// the glob `pattern`, and if so the start and end of each dynamic part.
#[verifier::external_body]
fn glob_with_captures(pattern: &str, path: &str) -> (r: Option<Vec<(usize, usize)>>)
    ensures
        match r {
            Some(v) => glob_captures(pattern@, path@) == Some(v@),
            None => glob_captures(pattern@, path@) is None,
        },
{
    glob_match::glob_match_with_captures(pattern, path).map(
        |ranges: Vec<core::ops::Range<usize>>|
            ranges.into_iter().map(|c: core::ops::Range<usize>| (c.start, c.end)).collect::<Vec<(usize, usize)>>(),
    )
}

/// An error caused by an invalid [`ArtiPath`].
#[derive(Debug, Copy, Clone, PartialEq, Eq)]
pub enum ArtiPathError {
    /// Found an empty path component.
    EmptyPathComponent,
    /// The path contains a disallowed char.
    DisallowedChar(char),
    /// The path contains the `..` pattern.
    PathTraversal,
    /// The path starts or ends with a disallowed char.
    BadOuterChar(char),
}

/// An error returned by a [`KeySpecifier`].
#[derive(Debug, Clone)]
pub enum KeyPathError {
    /// An internal error, carrying its message.
    Bug(String),
    /// Returned by a specifier that does not have an [`ArtiPath`].
    ArtiPathUnavailable,
}

impl KeyPathError {
    /// Wrap an [`ArtiPathError`] as an internal error.
    pub fn from_arti_path_error(err: ArtiPathError) -> (r: Self)
        ensures
            match r {
                KeyPathError::Bug(m) => m@ == arti_path_error_message(err),
                KeyPathError::ArtiPathUnavailable => false,
            },
    {
        match err {
            ArtiPathError::EmptyPathComponent => KeyPathError::Bug(
                String::from_str("Empty path component"),
            ),
            ArtiPathError::DisallowedChar(_) => KeyPathError::Bug(
                String::from_str("Found disallowed char"),
            ),
            ArtiPathError::PathTraversal => KeyPathError::Bug(
                String::from_str("Found `..` pattern"),
            ),
            ArtiPathError::BadOuterChar(_) => KeyPathError::Bug(
                String::from_str("Path starts or ends with disallowed char"),
            ),
        }
    }
}

/// The message text of each [`ArtiPathError`].
pub open spec fn arti_path_error_message(err: ArtiPathError) -> Seq<char> {
    match err {
        ArtiPathError::EmptyPathComponent => "Empty path component"@,
        ArtiPathError::DisallowedChar(_) => "Found disallowed char"@,
        ArtiPathError::PathTraversal => "Found `..` pattern"@,
        ArtiPathError::BadOuterChar(_) => "Path starts or ends with disallowed char"@,
    }
}

/// Whether `c` can appear in a path component at all.
pub open spec fn is_allowed_char_spec(c: char) -> bool {
    char_alphanumeric(c) || c == '_' || c == '-' || c == '.'
}

/// The first index at or after `i` holding a character that cannot appear
/// in a path component, if any.
pub open spec fn find_disallowed(s: Seq<char>, i: int) -> Option<int>
    decreases s.len() - i,
    when 0 <= i <= s.len()
{
    if i >= s.len() {
        None
    } else if !is_allowed_char_spec(s[i]) {
        Some(i)
    } else {
        find_disallowed(s, i + 1)
    }
}

/// Whether `s` contains the path-traversal pattern: two dots side by side.
pub open spec fn has_dot_dot(s: Seq<char>) -> bool {
    exists|i: int| 0 <= i && i + 1 < s.len() && (#[trigger] s[i]) == '.' && s[i + 1] == '.'
}

/// The characters that may appear only in the middle of a component, tested
/// against its first and last character in the order `-`, `_`, `.`.
pub open spec fn bad_outer_char(s: Seq<char>) -> Option<char>
    recommends
        s.len() > 0,
{
    if s[0] == '-' || s[s.len() - 1] == '-' {
        Some('-')
    } else if s[0] == '_' || s[s.len() - 1] == '_' {
        Some('_')
    } else if s[0] == '.' || s[s.len() - 1] == '.' {
        Some('.')
    } else {
        None
    }
}

/// What validating one path component yields: the checks run in order —
/// emptiness, disallowed characters, path traversal, outer characters —
/// and the first failed check names the error.
pub open spec fn component_result(s: Seq<char>) -> Result<(), ArtiPathError> {
    if s.len() == 0 {
        Err(ArtiPathError::EmptyPathComponent)
    } else {
        match find_disallowed(s, 0) {
            Some(j) => Err(ArtiPathError::DisallowedChar(s[j])),
            None => {
                if has_dot_dot(s) {
                    Err(ArtiPathError::PathTraversal)
                } else {
                    match bad_outer_char(s) {
                        Some(c) => Err(ArtiPathError::BadOuterChar(c)),
                        None => Ok(()),
                    }
                }
            },
        }
    }
}

/// The first separator at or after `i`, if any.
pub open spec fn find_sep(s: Seq<char>, i: int) -> Option<int>
    decreases s.len() - i,
    when 0 <= i <= s.len()
{
    if i >= s.len() {
        None
    } else if s[i] == '/' {
        Some(i)
    } else {
        find_sep(s, i + 1)
    }
}

proof fn lemma_find_sep_bounds(s: Seq<char>, i: int)
    requires
        0 <= i <= s.len(),
    ensures
        match find_sep(s, i) {
            Some(j) => i <= j < s.len() && s[j] == '/',
            None => true,
        },
    decreases s.len() - i,
{
    if i < s.len() && s[i] != '/' {
        lemma_find_sep_bounds(s, i + 1);
    }
}

/// What validating a whole path yields: each `/`-separated component is
/// validated in turn, and the first failing component names the error.
pub open spec fn arti_path_result_from(s: Seq<char>, start: int) -> Result<(), ArtiPathError>
    decreases s.len() - start,
    when 0 <= start <= s.len()
    via arti_path_result_from_decreases
{
    match find_sep(s, start) {
        None => component_result(s.subrange(start, s.len() as int)),
        Some(j) => match component_result(s.subrange(start, j)) {
            Err(e) => Err(e),
            Ok(()) => arti_path_result_from(s, j + 1),
        },
    }
}

#[via_fn]
proof fn arti_path_result_from_decreases(s: Seq<char>, start: int) {
    lemma_find_sep_bounds(s, start);
}

/// What validating a whole path yields, from its beginning.
pub open spec fn arti_path_result(s: Seq<char>) -> Result<(), ArtiPathError> {
    arti_path_result_from(s, 0)
}

/// The path of a key in the Arti key store.
///
/// An `ArtiPath` is a nonempty sequence of [`ArtiPathComponent`]s, separated
/// by `/`.
#[derive(Debug, Clone)]
pub struct ArtiPath(String);

impl View for ArtiPath {
    type V = Seq<char>;

    closed spec fn view(&self) -> Seq<char> {
        self.0@
    }
}

/// A component of an [`ArtiPath`].
#[derive(Debug, Clone)]
pub struct ArtiPathComponent(String);

impl View for ArtiPathComponent {
    type V = Seq<char>;

    closed spec fn view(&self) -> Seq<char> {
        self.0@
    }
}

/// The path of a key in the C Tor key store.
#[derive(Debug, Clone)]
pub struct CTorPath(String);

impl View for CTorPath {
    type V = Seq<char>;

    closed spec fn view(&self) -> Seq<char> {
        self.0@
    }
}

proof fn lemma_find_disallowed_step(s: Seq<char>, i: int)
    requires
        0 <= i <= s.len(),
        forall|k: int| 0 <= k < i ==> is_allowed_char_spec(#[trigger] s[k]),
    ensures
        find_disallowed(s, 0) == find_disallowed(s, i),
    decreases i,
{
    if i > 0 {
        lemma_find_disallowed_step(s, i - 1);
    }
}

proof fn lemma_find_sep_step(s: Seq<char>, start: int, i: int)
    requires
        0 <= start <= i <= s.len(),
        forall|k: int| start <= k < i ==> #[trigger] s[k] != '/',
    ensures
        find_sep(s, start) == find_sep(s, i),
    decreases i - start,
{
    if start < i {
        lemma_find_sep_step(s, start + 1, i);
    }
}

impl ArtiPathComponent {
    /// Create a new [`ArtiPathComponent`], validating its text.
    pub fn new(inner: String) -> (r: Result<Self, ArtiPathError>)
        ensures
            match r {
                Ok(c) => component_result(inner@) == Ok::<(), ArtiPathError>(()) && c@ == inner@,
                Err(e) => component_result(inner@) == Err::<(), ArtiPathError>(e),
            },
    {
        match Self::validate_str(inner.as_str()) {
            Ok(()) => Ok(Self(inner)),
            Err(e) => Err(e),
        }
    }

    /// Check whether `c` can be used within an `ArtiPathComponent`.
    pub fn is_allowed_char(c: char) -> (r: bool)
        ensures
            r == is_allowed_char_spec(c),
    {
        is_alphanumeric_char(c) || c == '_' || c == '-' || c == '.'
    }

    /// Validate the text of an `ArtiPath` component: it must be nonempty,
    /// hold only allowed characters, never two dots side by side, and
    /// neither start nor end with `-`, `_` or `.`.
    pub fn validate_str(inner: &str) -> (r: Result<(), ArtiPathError>)
        ensures
            r == component_result(inner@),
    {
        let ghost s = inner@;
        let len = inner.unicode_len();
        if len == 0 {
            return Err(ArtiPathError::EmptyPathComponent);
        }
        let mut i: usize = 0;
        while i < len
            invariant
                0 <= i <= len,
                len == s.len(),
                s == inner@,
                forall|k: int| 0 <= k < i ==> is_allowed_char_spec(#[trigger] s[k]),
            decreases len - i,
        {
            let c = inner.get_char(i);
            if !Self::is_allowed_char(c) {
                proof {
                    lemma_find_disallowed_step(s, i as int);
                }
                return Err(ArtiPathError::DisallowedChar(c));
            }
            i += 1;
        }
        proof {
            lemma_find_disallowed_step(s, len as int);
        }
        let mut i: usize = 0;
        while i < len - 1
            invariant
                0 <= i <= len,
                1 <= len == s.len(),
                s == inner@,
                find_disallowed(s, 0) is None,
                forall|k: int| 0 <= k < i ==> !((#[trigger] s[k]) == '.' && s[k + 1] == '.'),
            decreases len - i,
        {
            if inner.get_char(i) == '.' && inner.get_char(i + 1) == '.' {
                proof {
                    assert(0 <= i as int && i as int + 1 < s.len() && s[i as int] == '.' && s[
                        i as int + 1] == '.');
                }
                return Err(ArtiPathError::PathTraversal);
            }
            i += 1;
        }
        assert(!has_dot_dot(s));
        let first = inner.get_char(0);
        let last = inner.get_char(len - 1);
        if first == '-' || last == '-' {
            return Err(ArtiPathError::BadOuterChar('-'));
        }
        if first == '_' || last == '_' {
            return Err(ArtiPathError::BadOuterChar('_'));
        }
        if first == '.' || last == '.' {
            return Err(ArtiPathError::BadOuterChar('.'));
        }
        Ok(())
    }

    /// The text of this component.
    pub fn as_str(&self) -> (r: &str)
        ensures
            r@ == self@,
    {
        self.0.as_str()
    }
}

impl ArtiPath {
    /// Create a new [`ArtiPath`], validating every `/`-separated component
    /// of its text.
    pub fn new(inner: String) -> (r: Result<Self, ArtiPathError>)
        ensures
            match r {
                Ok(p) => arti_path_result(inner@) == Ok::<(), ArtiPathError>(()) && p@ == inner@,
                Err(e) => arti_path_result(inner@) == Err::<(), ArtiPathError>(e),
            },
    {
        let ghost s = inner@;
        let len = inner.as_str().unicode_len();
        let mut start: usize = 0;
        loop
            invariant
                0 <= start <= len,
                len == s.len(),
                s == inner@,
                arti_path_result(s) == arti_path_result_from(s, start as int),
            decreases len - start,
        {
            let j = find_sep_from(inner.as_str(), start);
            proof {
                lemma_find_sep_bounds(s, start as int);
            }
            let seg = inner.as_str().substring_char(start, j);
            match ArtiPathComponent::validate_str(seg) {
                Err(e) => {
                    return Err(e);
                },
                Ok(()) => {},
            }
            if j == len {
                return Ok(Self(inner));
            }
            start = j + 1;
        }
    }

    /// Return the substring corresponding to the specified `range` of
    /// character positions, or nothing when the range's end does not lie
    /// strictly inside this path.
    pub fn substring(&self, range: &KeyPathRange) -> (r: Option<&str>)
        requires
            range.start <= range.end,
        ensures
            match r {
                Some(sub) => (range.end as int) < self@.len() && sub@ == self@.subrange(
                    range.start as int,
                    range.end as int,
                ),
                None => (range.end as int) >= self@.len(),
            },
    {
        let len = self.0.as_str().unicode_len();
        if range.end >= len {
            return None;
        }
        Some(self.0.as_str().substring_char(range.start, range.end))
    }

    /// The text of this path.
    pub fn as_str(&self) -> (r: &str)
        ensures
            r@ == self@,
    {
        self.0.as_str()
    }

}

/// Scan for the first separator at or after `start`; the string's length
/// stands for no separator.
fn find_sep_from(s: &str, start: usize) -> (r: usize)
    requires
        start as int <= s@.len(),
    ensures
        start <= r <= s@.len(),
        match find_sep(s@, start as int) {
            Some(j) => r == j,
            None => r as int == s@.len(),
        },
{
    let len = s.unicode_len();
    let mut j = start;
    while j < len
        invariant
            start <= j <= len,
            len == s@.len(),
            forall|k: int| start <= k < j ==> #[trigger] s@[k] != '/',
        decreases len - j,
    {
        let c = s.get_char(j);
        if c == '/' {
            proof {
                lemma_find_sep_step(s@, start as int, j as int);
            }
            return j;
        }
        j += 1;
    }
    proof {
        lemma_find_sep_step(s@, start as int, len as int);
    }
    len
}

impl CTorPath {
    /// Wrap the text of a C Tor key path.
    pub fn new(inner: String) -> (r: Self)
        ensures
            r@ == inner@,
    {
        Self(inner)
    }

    /// The text of this path.
    pub fn as_str(&self) -> (r: &str)
        ensures
            r@ == self@,
    {
        self.0.as_str()
    }
}

/// The identifier of a key: either an Arti key path or a C Tor key path.
#[derive(Debug, Clone)]
pub enum KeyPath {
    /// An Arti key path.
    Arti(ArtiPath),
    /// A C Tor key path.
    CTor(CTorPath),
}

/// A range specifying a substring of a [`KeyPath`].
#[derive(Debug, Clone, Copy, PartialEq, Eq, Structural)]
pub struct KeyPathRange {
    /// Where the substring starts.
    pub start: usize,
    /// Where the substring ends, exclusive.
    pub end: usize,
}

/// A pattern for matching [`ArtiPath`]s or [`CTorPath`]s, in glob syntax.
#[derive(Debug, Clone)]
pub struct KeyPathPattern(String);

impl View for KeyPathPattern {
    type V = Seq<char>;

    closed spec fn view(&self) -> Seq<char> {
        self.0@
    }
}

impl KeyPathPattern {
    /// Create a new `KeyPathPattern` from glob-syntax text.
    pub fn new(inner: String) -> (r: Self)
        ensures
            r@ == inner@,
    {
        Self(inner)
    }

    /// Create a `KeyPathPattern` that only matches the empty string, which
    /// no valid path is.
    pub fn empty() -> (r: Self)
        ensures
            r@ == Seq::<char>::empty(),
    {
        Self(String::new())
    }

    /// The glob text of this pattern.
    pub fn as_str(&self) -> (r: &str)
        ensures
            r@ == self@,
    {
        self.0.as_str()
    }
}

/// [`KeyPathPattern`]s that can be used to match [`ArtiPath`]s or
/// [`CTorPath`]s: one pattern for each kind of path.
#[derive(Debug, Clone)]
pub struct KeyPathPatternSet {
    /// A pattern for matching Arti paths.
    pub arti: KeyPathPattern,
    /// A pattern for matching C Tor paths.
    pub ctor: KeyPathPattern,
}

impl KeyPathPatternSet {
    /// Create a new [`KeyPathPatternSet`].
    pub fn new(arti: KeyPathPattern, ctor: KeyPathPattern) -> (r: Self)
        ensures
            r.arti == arti,
            r.ctor == ctor,
    {
        Self { arti, ctor }
    }
}

impl KeyPath {
    /// Check whether this `KeyPath` matches the specified pattern set: an
    /// Arti path is held against the Arti pattern, a C Tor path against the
    /// C Tor pattern. A match returns the ranges covering its dynamic parts.
    pub fn matches(&self, pat: &KeyPathPatternSet) -> (r: Option<Vec<KeyPathRange>>)
        ensures
            ({
                let caps = match self {
                    KeyPath::Arti(p) => glob_captures(pat.arti@, p@),
                    KeyPath::CTor(p) => glob_captures(pat.ctor@, p@),
                };
                match r {
                    Some(v) => match caps {
                        Some(c) => v@.len() == c.len() && forall|i: int|
                            0 <= i < c.len() ==> (#[trigger] v@[i]).start == c[i].0 && v@[i].end
                                == c[i].1,
                        None => false,
                    },
                    None => caps is None,
                }
            }),
    {
        let caps = match self {
            KeyPath::Arti(p) => glob_with_captures(pat.arti.as_str(), p.as_str()),
            KeyPath::CTor(p) => glob_with_captures(pat.ctor.as_str(), p.as_str()),
        };
        match caps {
            None => None,
            Some(v) => {
                let mut out: Vec<KeyPathRange> = Vec::new();
                let mut i: usize = 0;
                while i < v.len()
                    invariant
                        out@.len() == i,
                        i <= v@.len(),
                        forall|k: int|
                            0 <= k < i ==> (#[trigger] out@[k]).start == v@[k].0 && out@[k].end
                                == v@[k].1,
                    decreases v@.len() - i,
                {
                    let (s, e) = v[i];
                    out.push(KeyPathRange { start: s, end: e });
                    i += 1;
                }
                Some(out)
            },
        }
    }

    /// Return the underlying [`ArtiPath`], if this is an Arti key path.
    pub fn arti(&self) -> (r: Option<&ArtiPath>)
        ensures
            match self {
                KeyPath::Arti(p) => r == Some(p),
                KeyPath::CTor(_) => r is None,
            },
    {
        match self {
            KeyPath::Arti(p) => Some(p),
            KeyPath::CTor(_) => None,
        }
    }

    /// Return the underlying [`CTorPath`], if this is a C Tor key path.
    pub fn ctor(&self) -> (r: Option<&CTorPath>)
        ensures
            match self {
                KeyPath::Arti(_) => r is None,
                KeyPath::CTor(p) => r == Some(p),
            },
    {
        match self {
            KeyPath::Arti(_) => None,
            KeyPath::CTor(p) => Some(p),
        }
    }
}

/// The "specifier" of a key, which identifies an instance of a key by where
/// it lives in each kind of key store. Users of the library implement this
/// for their own key identities.
pub trait KeySpecifier {
    /// The Arti key-store path this specifier denotes, if it has one.
    spec fn spec_arti_path(&self) -> Option<Seq<char>>;

    /// The C Tor key-store path this specifier denotes, if it has one.
    spec fn spec_ctor_path(&self) -> Option<Seq<char>>;

    /// The location of the key in the Arti key store, which uniquely
    /// identifies a specific key instance.
    fn arti_path(&self) -> (r: Result<ArtiPath, KeyPathError>)
        ensures
            match r {
                Ok(p) => self.spec_arti_path() == Some(p@),
                Err(_) => self.spec_arti_path() is None,
            },
    ;

    /// The location of the key in the C Tor key store, for keys its stores
    /// recognize.
    fn ctor_path(&self) -> (r: Option<CTorPath>)
        ensures
            match r {
                Some(p) => self.spec_ctor_path() == Some(p@),
                None => self.spec_ctor_path() is None,
            },
    ;
}

impl KeySpecifier for ArtiPath {
    open spec fn spec_arti_path(&self) -> Option<Seq<char>> {
        Some(self@)
    }

    open spec fn spec_ctor_path(&self) -> Option<Seq<char>> {
        None
    }

    fn arti_path(&self) -> (r: Result<ArtiPath, KeyPathError>) {
        Ok(ArtiPath(self.0.clone()))
    }

    fn ctor_path(&self) -> (r: Option<CTorPath>) {
        None
    }
}

impl KeySpecifier for CTorPath {
    open spec fn spec_arti_path(&self) -> Option<Seq<char>> {
        None
    }

    open spec fn spec_ctor_path(&self) -> Option<Seq<char>> {
        Some(self@)
    }

    fn arti_path(&self) -> (r: Result<ArtiPath, KeyPathError>) {
        Err(KeyPathError::ArtiPathUnavailable)
    }

    fn ctor_path(&self) -> (r: Option<CTorPath>) {
        Some(CTorPath(self.0.clone()))
    }
}

impl KeySpecifier for KeyPath {
    open spec fn spec_arti_path(&self) -> Option<Seq<char>> {
        match self {
            KeyPath::Arti(p) => p.spec_arti_path(),
            KeyPath::CTor(p) => p.spec_arti_path(),
        }
    }

    open spec fn spec_ctor_path(&self) -> Option<Seq<char>> {
        match self {
            KeyPath::Arti(p) => p.spec_ctor_path(),
            KeyPath::CTor(p) => p.spec_ctor_path(),
        }
    }

    fn arti_path(&self) -> (r: Result<ArtiPath, KeyPathError>) {
        match self {
            KeyPath::Arti(p) => p.arti_path(),
            KeyPath::CTor(p) => p.arti_path(),
        }
    }

    fn ctor_path(&self) -> (r: Option<CTorPath>) {
        match self {
            KeyPath::Arti(p) => p.ctor_path(),
            KeyPath::CTor(p) => p.ctor_path(),
        }
    }
}

} // verus!
