//! Workspace access grants: validating a canonicalized user-chosen
//! directory against a trusted home root, and the registry model of
//! allowed directory subtrees.
//!
//! The surrounding process canonicalizes the raw path and probes its
//! file type; the outcome arrives here as a `CanonicalProbe` and every
//! decision after that point is made in this module.

use vstd::prelude::*;

verus! {

/// Why an access grant was refused.
#[derive(Clone, Copy, PartialEq, Eq, Structural, Debug)]
pub enum GrantError {
    /// The raw path does not exist or could not be canonicalized.
    InvalidPath,
    /// The canonical path exists but is not a directory.
    NotADirectory,
    /// A trusted home root is known and the directory is not under it.
    OutsideAllowedRoot,
    /// The host's permission registry rejected the registration.
    RegistrationFailed,
}

impl GrantError {
    /// The descriptive text of this error.
    pub open spec fn spec_message(self) -> Seq<char> {
        match self {
            GrantError::InvalidPath => "Invalid path"@,
            GrantError::NotADirectory => "Selected path is not a directory"@,
            GrantError::OutsideAllowedRoot => "Selected folder must be inside your home directory"@,
            GrantError::RegistrationFailed => "Failed to allow directory"@,
        }
    }

    /// The descriptive text of this error.
    pub fn message(&self) -> (r: String)
        ensures
            r@ == self.spec_message(),
    {
        match self {
            GrantError::InvalidPath => "Invalid path".to_owned(),
            GrantError::NotADirectory => "Selected path is not a directory".to_owned(),
            GrantError::OutsideAllowedRoot => "Selected folder must be inside your home directory"
                .to_owned(),
            GrantError::RegistrationFailed => "Failed to allow directory".to_owned(),
        }
    }
}

/// What canonicalizing a raw path and probing the result revealed:
/// the path could not be resolved, resolved to a non-directory, or
/// resolved to the canonical path of a directory.
pub enum CanonicalProbe {
    Unresolvable,
    NonDirectory,
    Directory(String),
}

/// `path` equals `root` or lies strictly below it, component-wise:
/// `root` is a proper prefix of `path` ending at a separator.
/// Both are expected in canonical form, without trailing separators.
pub open spec fn within_root(path: Seq<char>, root: Seq<char>) -> bool {
    path == root || (path.len() > root.len() && path.subrange(0, root.len() as int) == root
        && path[root.len() as int] == '/')
}

/// `s` without its trailing separators.
pub open spec fn strip_trailing_slashes(s: Seq<char>) -> Seq<char>
    decreases s.len(),
{
    if s.len() > 0 && s.last() == '/' {
        strip_trailing_slashes(s.drop_last())
    } else {
        s
    }
}

/// If every character of `s` from `j` on is a separator and the character
/// at `j - 1` (if any) is not, stripping keeps exactly `s[..j]`.
proof fn lemma_strip_range(s: Seq<char>, j: int)
    requires
        0 <= j <= s.len(),
        forall|k: int| j <= k < s.len() ==> s[k] == '/',
        j == 0 || s[j - 1] != '/',
    ensures
        strip_trailing_slashes(s) == s.subrange(0, j),
    decreases s.len() - j,
{
    if j == s.len() {
        assert(s.subrange(0, s.len() as int) =~= s);
    } else {
        let t = s.drop_last();
        lemma_strip_range(t, j);
        assert(t.subrange(0, j) =~= s.subrange(0, j));
    }
}

/// Least index `r` such that every character of `s` from `r` on is a
/// separator, scanning down from `upto`.
fn last_non_slash(s: &str, upto: usize) -> (r: usize)
    requires
        upto <= s@.len(),
        forall|k: int| upto <= k < s@.len() ==> s@[k] == '/',
    ensures
        r <= upto,
        forall|k: int| r <= k < s@.len() ==> s@[k] == '/',
        r == 0 || s@[r - 1] != '/',
    decreases upto,
{
    if upto > 0 {
        if s.get_char(upto - 1) == '/' {
            return last_non_slash(s, upto - 1);
        }
    }
    upto
}

/// Whether `path` is `root` or lies below it, compared character by
/// character; `root` is taken as given, without normalization.
fn is_within(path: &str, root: &str) -> (b: bool)
    ensures
        b == within_root(path@, root@),
{
    let n = path.unicode_len();
    let m = root.unicode_len();
    if n < m {
        return false;
    }
    if n > m {
        if path.get_char(m) != '/' {
            // A strictly longer path lies inside the root only with a
            // separator right after it; otherwise the root is merely a
            // prefix of a sibling's name.
            return false;
        }
    }
    let mut i: usize = 0;
    while i < m
        invariant
            m <= n,
            n == path@.len(),
            m == root@.len(),
            forall|k: int| 0 <= k < i ==> path@[k] == root@[k],
        decreases m - i,
    {
        if path.get_char(i) != root.get_char(i) {
            proof {
                assert(path@.subrange(0, m as int)[i as int] != root@[i as int]);
                if path@.len() == root@.len() {
                    assert(path@ != root@);
                }
            }
            return false;
        }
        i += 1;
    }
    proof {
        assert(path@.subrange(0, m as int) =~= root@);
        if n == m {
            assert(path@ =~= root@);
        }
    }
    true
}

/// Whether the canonical `path` lies inside the trusted root named by
/// `home`, after trailing separators of `home` are ignored.
pub fn path_within_home(path: &str, home: &str) -> (b: bool)
    ensures
        b == within_root(path@, strip_trailing_slashes(home@)),
{
    let n = home.unicode_len();
    let j = last_non_slash(home, n);
    let root = home.substring_char(0, j);
    proof {
        lemma_strip_range(home@, j as int);
    }
    is_within(path, root)
}

/// The view of an optional home root.
pub open spec fn home_view(home: Option<&String>) -> Option<Seq<char>> {
    match home {
        Some(h) => Some(h@),
        None => None,
    }
}

/// What `grant_access` decides for a probe outcome and an optional
/// trusted home root: the canonical directory to register, or the
/// error owed for that input.
pub open spec fn grant_decision(probe: CanonicalProbe, home: Option<Seq<char>>) -> Result<
    Seq<char>,
    GrantError,
> {
    match probe {
        CanonicalProbe::Unresolvable => Err(GrantError::InvalidPath),
        CanonicalProbe::NonDirectory => Err(GrantError::NotADirectory),
        CanonicalProbe::Directory(p) => match home {
            None => Ok(p@),
            Some(h) => if within_root(p@, strip_trailing_slashes(h)) {
                Ok(p@)
            } else {
                Err(GrantError::OutsideAllowedRoot)
            },
        },
    }
}

/// A directory confirmed fit to register: canonical, a directory on
/// disk at probe time, and inside the trusted root when one was known.
#[derive(Debug)]
pub struct DirectoryGrant {
    path: String,
}

impl View for DirectoryGrant {
    type V = Seq<char>;

    closed spec fn view(&self) -> Seq<char> {
        self.path@
    }
}

impl DirectoryGrant {
    /// The canonical path this grant covers.
    pub fn path(&self) -> (r: &String)
        ensures
            r@ == self@,
    {
        &self.path
    }

}

/// Validates a user-chosen directory. `probe` is what canonicalizing
/// the raw path revealed; `home` is the trusted home root if one is
/// known to the process. When no root is known the containment check
/// is skipped on purpose. Returns the grant to register, or the exact
/// error owed for the input.
pub fn grant_access(probe: CanonicalProbe, home: Option<&String>) -> (r: Result<
    DirectoryGrant,
    GrantError,
>)
    ensures
        (grant_decision(probe, home_view(home)) matches Ok(p) ==> r matches Ok(g) && g@ == p),
        (grant_decision(probe, home_view(home)) matches Err(e) ==> r == Err::<
            DirectoryGrant,
            GrantError,
        >(e)),
{
    match probe {
        CanonicalProbe::Unresolvable => Err(GrantError::InvalidPath),
        CanonicalProbe::NonDirectory => Err(GrantError::NotADirectory),
        CanonicalProbe::Directory(p) => match home {
            None => Ok(DirectoryGrant { path: p }),
            Some(h) => {
                if path_within_home(p.as_str(), h.as_str()) {
                    Ok(DirectoryGrant { path: p })
                } else {
                    Err(GrantError::OutsideAllowedRoot)
                }
            },
        },
    }
}

/// Maps the host registry's answer to the grant's outcome: success
/// exactly when the registration was accepted.
pub fn finish_grant(accepted: bool) -> (r: Result<(), GrantError>)
    ensures
        accepted ==> r == Ok::<(), GrantError>(()),
        !accepted ==> r == Err::<(), GrantError>(GrantError::RegistrationFailed),
{
    if accepted {
        Ok(())
    } else {
        Err(GrantError::RegistrationFailed)
    }
}

/// The set of root paths a sequence of registered grants covers.
pub open spec fn roots_of(s: Seq<String>) -> Set<Seq<char>>
    decreases s.len(),
{
    if s.len() == 0 {
        Set::<Seq<char>>::empty()
    } else {
        roots_of(s.drop_last()).insert(s.last()@)
    }
}

/// `path` lies inside some root of `roots`.
pub open spec fn allowed_in(roots: Set<Seq<char>>, path: Seq<char>) -> bool {
    exists|r: Seq<char>| roots.contains(r) && within_root(path, r)
}

/// The model of the host's permission registry: the set of directory
/// subtrees that have been granted so far. Each grant covers the
/// directory itself and everything below it.
pub struct GrantRegistry {
    allowed: Vec<String>,
}

impl View for GrantRegistry {
    type V = Set<Seq<char>>;

    closed spec fn view(&self) -> Set<Seq<char>> {
        roots_of(self.allowed@)
    }
}

impl GrantRegistry {
    /// A registry with nothing granted.
    pub fn new() -> (r: Self)
        ensures
            r@ == Set::<Seq<char>>::empty(),
    {
        GrantRegistry { allowed: Vec::new() }
    }

    /// Registers a validated grant, recursively: the root and all its
    /// present and future descendants become allowed.
    pub fn register(&mut self, grant: &DirectoryGrant)
        ensures
            final(self)@ == old(self)@.insert(grant@),
    {
        self.allowed.push(grant.path.clone());
        proof {
            assert(self.allowed@.drop_last() =~= old(self).allowed@);
        }
    }

    /// Whether `path` lies inside some granted subtree.
    pub fn is_allowed(&self, path: &str) -> (b: bool)
        ensures
            b == allowed_in(self@, path@),
    {
        let n = self.allowed.len();
        let mut i: usize = 0;
        while i < n
            invariant
                n == self.allowed@.len(),
                forall|k: int| 0 <= k < i ==> !within_root(path@, self.allowed@[k]@),
            decreases n - i,
        {
            if is_within(path, self.allowed[i].as_str()) {
                proof {
                    lemma_roots_of_contains(self.allowed@, path@);
                    assert(roots_of(self.allowed@).contains(self.allowed@[i as int]@));
                }
                return true;
            }
            i += 1;
        }
        proof {
            lemma_roots_of_contains(self.allowed@, path@);
        }
        false
    }
}

/// A root is in `roots_of(s)` exactly when some element of `s` views to it.
proof fn lemma_roots_of_contains(s: Seq<String>, path: Seq<char>)
    ensures
        forall|i: int| 0 <= i < s.len() ==> roots_of(s).contains(#[trigger] s[i]@),
        allowed_in(roots_of(s), path) ==> exists|i: int|
            0 <= i < s.len() && within_root(path, #[trigger] s[i]@),
    decreases s.len(),
{
    if s.len() > 0 {
        lemma_roots_of_contains(s.drop_last(), path);
        assert(forall|i: int| 0 <= i < s.len() - 1 ==> s.drop_last()[i]@ == #[trigger] s[i]@);
        if allowed_in(roots_of(s), path) {
            let r = choose|r: Seq<char>| roots_of(s).contains(r) && within_root(path, r);
            if r == s.last()@ {
                assert(within_root(path, s[s.len() - 1]@));
            } else {
                assert(roots_of(s.drop_last()).contains(r));
                assert(allowed_in(roots_of(s.drop_last()), path));
            }
        }
    }
}

/// Containment is reflexive: a directory lies inside its own subtree.
pub proof fn lemma_within_root_refl(p: Seq<char>)
    ensures
        within_root(p, p),
{
}

/// A directory just granted is allowed: after its root is registered,
/// a membership check on that same path answers yes.
pub proof fn lemma_registered_is_allowed(roots: Set<Seq<char>>, p: Seq<char>)
    ensures
        allowed_in(roots.insert(p), p),
{
    lemma_within_root_refl(p);
    assert(roots.insert(p).contains(p) && within_root(p, p));
}

/// Granting the same directory twice succeeds both times and leaves the
/// registry exactly as one grant would: the grant decision reads no
/// registry state, and registering an already-registered root is a
/// set insert that changes nothing.
pub proof fn lemma_grant_idempotent(
    probe: CanonicalProbe,
    home: Option<Seq<char>>,
    roots: Set<Seq<char>>,
)
    requires
        grant_decision(probe, home) is Ok,
    ensures
        roots.insert(grant_decision(probe, home)->Ok_0).insert(grant_decision(probe, home)->Ok_0)
            == roots.insert(grant_decision(probe, home)->Ok_0),
{
    let p = grant_decision(probe, home)->Ok_0;
    assert(roots.insert(p).insert(p) =~= roots.insert(p));
}

} // verus!
