//! The icon resolution pipeline: locating an installed application
//! bundle by name, discovering its icon resource, and preparing the
//! conversion to an embeddable PNG.
//!
//! The surrounding process runs the metadata search, the property-list
//! reader and the raster converter; every query they are handed and
//! every decision over their output is made here.

use vstd::prelude::*;

use crate::text::{ends_with, str_ends_with, str_trim, trimmed};

verus! {

/// Why an icon resolution failed.
#[derive(Debug, PartialEq, Eq)]
pub enum IconError {
    /// No installed bundle matched the query name and no well-known
    /// candidate path existed.
    AppNotFound { app_name: String },
    /// The property-list reader itself could not be run.
    PlistReadError,
    /// The expected icon resource is not on disk.
    IconNotFound { icns_path: String },
    /// The raster converter could not be run, exited with a failure,
    /// or its product could not be read back.
    ConversionFailed { detail: String },
}

impl IconError {
    /// The descriptive text of this error.
    pub open spec fn spec_message(self) -> Seq<char> {
        match self {
            IconError::AppNotFound { app_name } => "App not found: "@ + app_name@,
            IconError::PlistReadError => "Failed to read plist"@,
            IconError::IconNotFound { icns_path } => "Icon file not found: "@ + icns_path@,
            IconError::ConversionFailed { detail } => "Icon conversion failed: "@ + detail@,
        }
    }

    /// The descriptive text of this error.
    pub fn message(&self) -> (r: String)
        ensures
            r@ == self.spec_message(),
    {
        match self {
            IconError::AppNotFound { app_name } => {
                let mut m = "App not found: ".to_owned();
                m.append(app_name.as_str());
                m
            },
            IconError::PlistReadError => "Failed to read plist".to_owned(),
            IconError::IconNotFound { icns_path } => {
                let mut m = "Icon file not found: ".to_owned();
                m.append(icns_path.as_str());
                m
            },
            IconError::ConversionFailed { detail } => {
                let mut m = "Icon conversion failed: ".to_owned();
                m.append(detail.as_str());
                m
            },
        }
    }
}

/// How one character is written inside a single-quoted metadata query
/// literal: quotes and backslashes get a backslash in front.
pub open spec fn esc_char(c: char) -> Seq<char> {
    if c == '\'' || c == '\\' {
        seq!['\\', c]
    } else {
        seq![c]
    }
}

/// An untrusted name escaped for use inside a single-quoted metadata
/// query literal, so the name cannot break out of the quotes.
pub open spec fn escaped_query_literal(s: Seq<char>) -> Seq<char>
    decreases s.len(),
{
    if s.len() == 0 {
        Seq::<char>::empty()
    } else {
        escaped_query_literal(s.drop_last()) + esc_char(s.last())
    }
}

/// How a query parser reads a backslash-escaped literal back: a
/// backslash takes the character after it verbatim.
pub open spec fn unescaped_query_literal(t: Seq<char>) -> Seq<char>
    decreases t.len(),
{
    if t.len() == 0 {
        Seq::<char>::empty()
    } else if t.len() >= 2 && t[0] == '\\' {
        seq![t[1]] + unescaped_query_literal(t.skip(2))
    } else {
        seq![t[0]] + unescaped_query_literal(t.skip(1))
    }
}

/// The escaping also unfolds at the front, one character at a time.
proof fn lemma_escaped_front(s: Seq<char>)
    requires
        s.len() > 0,
    ensures
        escaped_query_literal(s) == esc_char(s[0]) + escaped_query_literal(s.drop_first()),
    decreases s.len(),
{
    if s.len() == 1 {
        assert(s.drop_last() =~= Seq::<char>::empty());
        assert(s.drop_first() =~= Seq::<char>::empty());
        assert(escaped_query_literal(s) =~= esc_char(s[0]) + escaped_query_literal(
            s.drop_first(),
        ));
    } else {
        let mid = s.drop_last().drop_first();
        lemma_escaped_front(s.drop_last());
        assert(s.drop_first().drop_last() =~= mid);
        assert(escaped_query_literal(s) =~= esc_char(s[0]) + escaped_query_literal(
            s.drop_first(),
        ));
    }
}

/// The escaping loses nothing: reading the escaped literal back gives
/// the name exactly, so the untrusted name cannot change what the
/// query matches, and two different names never build the same
/// literal.
pub proof fn lemma_escape_round_trip(s: Seq<char>)
    ensures
        unescaped_query_literal(escaped_query_literal(s)) == s,
    decreases s.len(),
{
    if s.len() == 0 {
        assert(unescaped_query_literal(escaped_query_literal(s)) =~= s);
    } else {
        lemma_escaped_front(s);
        lemma_escape_round_trip(s.drop_first());
        let t = escaped_query_literal(s);
        let rest = escaped_query_literal(s.drop_first());
        if s[0] == '\'' || s[0] == '\\' {
            assert(t =~= seq!['\\', s[0]] + rest);
            assert(t.skip(2) =~= rest);
            assert(unescaped_query_literal(t) =~= s);
        } else {
            assert(t =~= seq![s[0]] + rest);
            assert(t.skip(1) =~= rest);
            assert(unescaped_query_literal(t) =~= s);
        }
    }
}

/// Escapes an untrusted name for interpolation into a metadata query.
pub fn escape_query_literal(s: &str) -> (r: String)
    ensures
        r@ == escaped_query_literal(s@),
{
    let n = s.unicode_len();
    let mut out = String::new();
    proof {
        assert(s@.take(0) =~= Seq::<char>::empty());
    }
    let mut i: usize = 0;
    while i < n
        invariant
            i <= n,
            n == s@.len(),
            out@ == escaped_query_literal(s@.take(i as int)),
        decreases n - i,
    {
        let c = s.get_char(i);
        if c == '\'' || c == '\\' {
            out.append("\\");
            proof {
                reveal_strlit("\\");
            }
        }
        let piece = s.substring_char(i, i + 1);
        out.append(piece);
        proof {
            assert(piece@ =~= seq![s@[i as int]]);
            assert(s@.take(i + 1).drop_last() =~= s@.take(i as int));
            assert(s@.take(i + 1).last() == s@[i as int]);
        }
        i += 1;
    }
    proof {
        assert(s@.take(n as int) =~= s@);
    }
    out
}

/// The metadata query that matches an application by display name.
pub open spec fn display_query_of(name: Seq<char>) -> Seq<char> {
    "kMDItemDisplayName == '"@ + escaped_query_literal(name)
        + "' && kMDItemKind == 'Application'"@
}

/// Builds the display-name metadata query for an untrusted name.
pub fn display_name_query(app_name: &str) -> (q: String)
    ensures
        q@ == display_query_of(app_name@),
{
    let mut q = "kMDItemDisplayName == '".to_owned();
    let escaped = escape_query_literal(app_name);
    q.append(escaped.as_str());
    q.append("' && kMDItemKind == 'Application'");
    proof {
        assert(q@ =~= display_query_of(app_name@));
    }
    q
}

/// The metadata query that matches an application by filesystem name,
/// with the conventional bundle suffix appended inside the literal.
pub open spec fn fs_query_of(name: Seq<char>) -> Seq<char> {
    "kMDItemFSName == '"@ + escaped_query_literal(name)
        + ".app' && kMDItemKind == 'Application'"@
}

/// Builds the filesystem-name metadata query for an untrusted name.
pub fn fs_name_query(app_name: &str) -> (q: String)
    ensures
        q@ == fs_query_of(app_name@),
{
    let mut q = "kMDItemFSName == '".to_owned();
    let escaped = escape_query_literal(app_name);
    q.append(escaped.as_str());
    q.append(".app' && kMDItemKind == 'Application'");
    proof {
        assert(q@ =~= fs_query_of(app_name@));
    }
    q
}

/// Index of the first newline of `s`, or its length if there is none.
pub open spec fn line_end(s: Seq<char>) -> int
    decreases s.len(),
{
    if s.len() == 0 {
        0
    } else if s[0] == '\n' {
        0
    } else {
        1 + line_end(s.drop_first())
    }
}

/// The first newline index is in range, everything before it is not a
/// newline, and it points at a newline unless the text ends first.
pub proof fn lemma_line_end_bounds(s: Seq<char>)
    ensures
        0 <= line_end(s) <= s.len(),
        forall|k: int| 0 <= k < line_end(s) ==> s[k] != '\n',
        line_end(s) == s.len() || s[line_end(s)] == '\n',
    decreases s.len(),
{
    if s.len() == 0 || s[0] == '\n' {
    } else {
        lemma_line_end_bounds(s.drop_first());
        assert(forall|k: int| 1 <= k < line_end(s) ==> s[k] == s.drop_first()[k - 1]);
    }
}

/// An index with no newline before it that sits on a newline or at the
/// end is the first newline index.
proof fn lemma_line_end_at(s: Seq<char>, e: int)
    requires
        0 <= e <= s.len(),
        forall|k: int| 0 <= k < e ==> s[k] != '\n',
        e == s.len() || s[e] == '\n',
    ensures
        line_end(s) == e,
    decreases e,
{
    if e == 0 {
    } else {
        let t = s.drop_first();
        assert(forall|k: int| 0 <= k < e - 1 ==> t[k] == s[k + 1]);
        lemma_line_end_at(t, e - 1);
    }
}

/// The first line of `s` (split on newlines) that ends with the bundle
/// suffix `.app`, if any.
pub open spec fn first_bundle_line(s: Seq<char>) -> Option<Seq<char>>
    decreases s.len(),
    via first_bundle_line_dec
{
    if s.len() == 0 {
        None
    } else {
        let line = s.take(line_end(s));
        if ends_with(line, ".app"@) {
            Some(line)
        } else if line_end(s) == s.len() {
            None
        } else {
            first_bundle_line(s.skip(line_end(s) + 1))
        }
    }
}

#[via_fn]
proof fn first_bundle_line_dec(s: Seq<char>) {
    lemma_line_end_bounds(s);
}

/// Index of the first newline of `s` at or after `from`.
fn find_line_end(s: &str, from: usize) -> (r: usize)
    requires
        from <= s@.len(),
        forall|k: int| 0 <= k < from ==> s@[k] != '\n',
    ensures
        from <= r <= s@.len(),
        forall|k: int| 0 <= k < r ==> s@[k] != '\n',
        r == s@.len() || s@[r as int] == '\n',
    decreases s@.len() - from,
{
    let n = s.unicode_len();
    if from < n {
        if s.get_char(from) != '\n' {
            return find_line_end(s, from + 1);
        }
    }
    from
}

/// Scans a metadata search's output for the first line naming a
/// bundle: the first line that ends with `.app`.
pub fn first_bundle_path(output: &str) -> (r: Option<String>)
    ensures
        (r matches Some(p) ==> first_bundle_line(output@) == Some(p@)),
        (r is None ==> first_bundle_line(output@) is None),
    decreases output@.len(),
{
    let n = output.unicode_len();
    if n == 0 {
        return None;
    }
    let e = find_line_end(output, 0);
    proof {
        lemma_line_end_at(output@, e as int);
    }
    let line = output.substring_char(0, e);
    proof {
        assert(line@ =~= output@.take(e as int));
    }
    if str_ends_with(line, ".app") {
        return Some(line.to_owned());
    }
    if e == n {
        return None;
    }
    let rest = output.substring_char(e + 1, n);
    proof {
        assert(rest@ =~= output@.skip(e as int + 1));
    }
    first_bundle_path(rest)
}

/// A well-known installation directory, a name, and the bundle suffix.
pub open spec fn candidate_path(prefix: Seq<char>, name: Seq<char>) -> Seq<char> {
    prefix + name + ".app"@
}

/// One well-known candidate: directory, name, bundle suffix.
fn make_candidate(prefix: &str, name: &str) -> (r: String)
    ensures
        r@ == candidate_path(prefix@, name@),
{
    let mut r = prefix.to_owned();
    r.append(name);
    r.append(".app");
    proof {
        assert(r@ =~= candidate_path(prefix@, name@));
    }
    r
}

/// The well-known candidate bundle path at position `i` of the
/// fallback order.
pub open spec fn candidate_at(name: Seq<char>, i: int) -> Seq<char> {
    if i == 0 {
        candidate_path("/Applications/"@, name)
    } else if i == 1 {
        candidate_path("/System/Applications/"@, name)
    } else if i == 2 {
        candidate_path("/System/Applications/Utilities/"@, name)
    } else {
        candidate_path("/System/Library/CoreServices/"@, name)
    }
}

/// The fixed, ordered list of well-known installation directories the
/// pipeline falls back to when the metadata search finds nothing.
pub fn well_known_candidates(app_name: &str) -> (v: Vec<String>)
    ensures
        v@.len() == 4,
        forall|i: int| 0 <= i < 4 ==> v@[i]@ == candidate_at(app_name@, i),
{
    let mut v: Vec<String> = Vec::new();
    v.push(make_candidate("/Applications/", app_name));
    v.push(make_candidate("/System/Applications/", app_name));
    v.push(make_candidate("/System/Applications/Utilities/", app_name));
    v.push(make_candidate("/System/Library/CoreServices/", app_name));
    v
}

/// Picks the first candidate that exists on disk: `present[i]` is the
/// probe result for `candidates[i]`.
pub fn first_existing(candidates: &Vec<String>, present: &Vec<bool>) -> (r: Option<usize>)
    requires
        candidates@.len() == present@.len(),
    ensures
        (r matches Some(i) ==> i < candidates@.len() && present@[i as int] && forall|k: int|
            0 <= k < i ==> !present@[k]),
        (r is None ==> forall|k: int| 0 <= k < present@.len() ==> !present@[k]),
{
    let n = present.len();
    let mut i: usize = 0;
    while i < n
        invariant
            i <= n,
            n == present@.len(),
            candidates@.len() == present@.len(),
            forall|k: int| 0 <= k < i ==> !present@[k],
        decreases n - i,
    {
        if present[i] {
            return Some(i);
        }
        i += 1;
    }
    None
}

/// Maps the locate phase's outcome: the bundle path that was found, or
/// the error owed when neither the metadata search nor any well-known
/// candidate produced one.
pub fn locate_outcome(found: Option<String>, app_name: &str) -> (r: Result<String, IconError>)
    ensures
        (found matches Some(p) ==> r matches Ok(q) && q == p),
        (found is None ==> (r matches Err(e) && e matches IconError::AppNotFound { app_name: n }
            && n@ == app_name@)),
{
    match found {
        Some(p) => Ok(p),
        None => Err(IconError::AppNotFound { app_name: app_name.to_owned() }),
    }
}

/// Where the locate phase stands: which lookup runs next, or the
/// outcome it ended with.
#[derive(Debug, PartialEq, Eq)]
pub enum LocatePhase {
    /// The metadata search by display name is pending.
    DisplayQuery,
    /// The display-name search yielded nothing; the search by
    /// filesystem name is pending.
    FsNameQuery,
    /// Both searches yielded nothing; the well-known candidates are
    /// being probed.
    Candidates,
    /// The bundle path that was found, or the error owed.
    Done(Result<String, IconError>),
}

/// What the surrounding process reports back to the locate phase.
#[derive(Debug, PartialEq, Eq)]
pub enum LocateEvent {
    /// The metadata search's output; `None` when the search tool
    /// could not be run.
    SearchOutput(Option<String>),
    /// The existence probe of each well-known candidate, in order.
    CandidatesPresent(Vec<bool>),
}

/// What the surrounding process is asked to do next.
#[derive(Debug, PartialEq, Eq)]
pub enum LocateAction {
    /// Run the metadata search with this query.
    RunSearch(String),
    /// Probe these paths for existence, in order.
    ProbeCandidates(Vec<String>),
    /// The locate phase is over.
    Finish,
}

/// The bundle path a search's output names, if any.
pub open spec fn search_hit(out: Option<String>) -> Option<Seq<char>> {
    match out {
        Some(s) => first_bundle_line(s@),
        None => None,
    }
}

/// Scans a search's output, treating a search that could not be run
/// as one that found nothing.
fn search_output_hit(out: Option<String>) -> (r: Option<String>)
    ensures
        (r matches Some(p) ==> search_hit(out) == Some(p@)),
        (r is None ==> search_hit(out) is None),
{
    match out {
        Some(s) => first_bundle_path(s.as_str()),
        None => None,
    }
}

/// The events each phase can take: searches answer searches, probes
/// answer the candidate phase, and a finished phase takes nothing.
pub open spec fn locate_input_ok(phase: LocatePhase, event: LocateEvent) -> bool {
    match phase {
        LocatePhase::DisplayQuery => event is SearchOutput,
        LocatePhase::FsNameQuery => event is SearchOutput,
        LocatePhase::Candidates => event matches LocateEvent::CandidatesPresent(present)
            && present@.len() == 4,
        LocatePhase::Done(_) => false,
    }
}

/// Starts locating a bundle: the first lookup is the metadata search
/// by display name.
pub fn locate_begin(app_name: &str) -> (r: (LocatePhase, LocateAction))
    ensures
        r.0 is DisplayQuery,
        (r.1 matches LocateAction::RunSearch(q) && q@ == display_query_of(app_name@)),
{
    (LocatePhase::DisplayQuery, LocateAction::RunSearch(display_name_query(app_name)))
}

/// One step of the locate phase: takes what the surrounding process
/// reported and decides what happens next. A search that names a
/// bundle ends the phase with that path; a display-name miss falls
/// back to the filesystem-name search, a second miss to the
/// well-known candidates, and a miss there ends the phase with the
/// exact not-found error.
pub fn locate_step(phase: LocatePhase, app_name: &str, event: LocateEvent) -> (r: (
    LocatePhase,
    LocateAction,
))
    requires
        locate_input_ok(phase, event),
    ensures
        (phase is DisplayQuery ==> (event matches LocateEvent::SearchOutput(out) ==> ({
            &&& (search_hit(out) matches Some(p) ==> (r.0 matches LocatePhase::Done(res)
                && res matches Ok(q) && q@ == p && r.1 is Finish))
            &&& (search_hit(out) is None ==> ({
                &&& r.0 is FsNameQuery
                &&& (r.1 matches LocateAction::RunSearch(q) && q@ == fs_query_of(app_name@))
            }))
        }))),
        (phase is FsNameQuery ==> (event matches LocateEvent::SearchOutput(out) ==> ({
            &&& (search_hit(out) matches Some(p) ==> (r.0 matches LocatePhase::Done(res)
                && res matches Ok(q) && q@ == p && r.1 is Finish))
            &&& (search_hit(out) is None ==> ({
                &&& r.0 is Candidates
                &&& (r.1 matches LocateAction::ProbeCandidates(c) && c@.len() == 4 && forall|i: int|
                    0 <= i < 4 ==> c@[i]@ == candidate_at(app_name@, i))
            }))
        }))),
        (phase is Candidates ==> (event matches LocateEvent::CandidatesPresent(present) ==> ({
            &&& r.1 is Finish
            &&& ((exists|i: int| 0 <= i < 4 && present@[i]) ==> (r.0 matches LocatePhase::Done(res)
                && res matches Ok(q) && exists|i: int|
                0 <= i < 4 && present@[i] && (forall|k: int| 0 <= k < i ==> !present@[k])
                    && q@ == candidate_at(app_name@, i)))
            &&& ((forall|i: int| 0 <= i < 4 ==> !present@[i]) ==> (r.0 matches LocatePhase::Done(
                res,
            ) && res matches Err(e) && e matches IconError::AppNotFound { app_name: n } && n@
                == app_name@))
        }))),
{
    match (phase, event) {
        (LocatePhase::DisplayQuery, LocateEvent::SearchOutput(out)) => match search_output_hit(
            out,
        ) {
            Some(path) => (LocatePhase::Done(Ok(path)), LocateAction::Finish),
            None => (
                LocatePhase::FsNameQuery,
                LocateAction::RunSearch(fs_name_query(app_name)),
            ),
        },
        (LocatePhase::FsNameQuery, LocateEvent::SearchOutput(out)) => match search_output_hit(
            out,
        ) {
            Some(path) => (LocatePhase::Done(Ok(path)), LocateAction::Finish),
            None => (
                LocatePhase::Candidates,
                LocateAction::ProbeCandidates(well_known_candidates(app_name)),
            ),
        },
        (LocatePhase::Candidates, LocateEvent::CandidatesPresent(present)) => {
            let candidates = well_known_candidates(app_name);
            let found = match first_existing(&candidates, &present) {
                Some(i) => Some(candidates[i].clone()),
                None => None,
            };
            (LocatePhase::Done(locate_outcome(found, app_name)), LocateAction::Finish)
        },
        _ => unreached(),
    }
}

/// The bundle-relative property list the icon name is read from.
pub open spec fn plist_path_of(app_path: Seq<char>) -> Seq<char> {
    app_path + "/Contents/Info.plist"@
}

/// Builds the path of a bundle's embedded property list.
pub fn plist_path(app_path: &str) -> (r: String)
    ensures
        r@ == plist_path_of(app_path@),
{
    let mut r = app_path.to_owned();
    r.append("/Contents/Info.plist");
    r
}

/// The icon name the pipeline proceeds with: the read attribute with
/// blanks trimmed, the conventional default when that leaves nothing,
/// and the icon-resource suffix appended if not already present.
pub open spec fn normalized_icon_name(raw: Seq<char>) -> Seq<char> {
    let base = if trimmed(raw).len() == 0 {
        "AppIcon"@
    } else {
        trimmed(raw)
    };
    if ends_with(base, ".icns"@) {
        base
    } else {
        base + ".icns"@
    }
}

/// Normalizes the icon-file attribute read from the property list.
pub fn normalize_icon_name(raw: &str) -> (r: String)
    ensures
        r@ == normalized_icon_name(raw@),
{
    let t = str_trim(raw);
    let base = if t.as_str().unicode_len() == 0 {
        proof {
            assert(t@ =~= Seq::<char>::empty());
        }
        "AppIcon".to_owned()
    } else {
        t
    };
    if str_ends_with(base.as_str(), ".icns") {
        base
    } else {
        let mut r = base;
        r.append(".icns");
        r
    }
}

/// An empty icon-file attribute is a handled case, never a failure:
/// when the property list's attribute holds nothing but blanks, the
/// pipeline proceeds with the conventional default name and the
/// icon-resource suffix.
pub proof fn lemma_blank_attribute_uses_default(raw: Seq<char>)
    requires
        forall|k: int| 0 <= k < raw.len() ==> crate::text::is_space_char(raw[k]),
    ensures
        normalized_icon_name(raw) == "AppIcon.icns"@,
{
    crate::text::lemma_trimmed_of_blanks(raw);
    reveal_strlit("AppIcon");
    reveal_strlit(".icns");
    reveal_strlit("AppIcon.icns");
    assert("AppIcon"@.subrange(2, 7)[0] != ".icns"@[0]);
    assert(!ends_with("AppIcon"@, ".icns"@));
    assert("AppIcon"@ + ".icns"@ =~= "AppIcon.icns"@);
}

/// Maps the property-list read to the icon name the pipeline proceeds
/// with. `plist_stdout` is the reader's output, `None` when the reader
/// itself could not be run; an empty or blank attribute is a handled
/// case, not a failure.
pub fn icon_file_name(plist_stdout: Option<&String>) -> (r: Result<String, IconError>)
    ensures
        (plist_stdout matches Some(s) ==> r matches Ok(n) && n@ == normalized_icon_name(s@)),
        (plist_stdout is None ==> r == Err::<String, IconError>(IconError::PlistReadError)),
{
    match plist_stdout {
        Some(s) => Ok(normalize_icon_name(s.as_str())),
        None => Err(IconError::PlistReadError),
    }
}

/// Where a bundle keeps the named icon resource.
pub open spec fn icon_resource_path_of(app_path: Seq<char>, icon_name: Seq<char>) -> Seq<char> {
    app_path + "/Contents/Resources/"@ + icon_name
}

/// Builds the expected on-disk path of a bundle's icon resource.
pub fn icon_resource_path(app_path: &str, icon_name: &str) -> (r: String)
    ensures
        r@ == icon_resource_path_of(app_path@, icon_name@),
{
    let mut r = app_path.to_owned();
    r.append("/Contents/Resources/");
    r.append(icon_name);
    proof {
        assert(r@ =~= icon_resource_path_of(app_path@, icon_name@));
    }
    r
}

/// Maps the existence probe of the icon resource: the path itself when
/// it is on disk, the exact error naming it otherwise.
pub fn icon_presence(icns_path: String, exists: bool) -> (r: Result<String, IconError>)
    ensures
        (exists ==> (r matches Ok(p) && p == icns_path)),
        (!exists ==> (r matches Err(e) && e matches IconError::IconNotFound { icns_path: q }
            && q == icns_path)),
{
    if exists {
        Ok(icns_path)
    } else {
        Err(IconError::IconNotFound { icns_path })
    }
}

/// An application name with spaces replaced, fit for a file name.
pub open spec fn sanitized(s: Seq<char>) -> Seq<char> {
    s.map_values(|c: char| if c == ' ' { '_' } else { c })
}

/// The name of the temporary file the converter writes: derived from
/// the sanitized application name, with a caller-chosen token so that
/// concurrent resolutions of the same name cannot collide.
pub open spec fn temp_png_name_of(name: Seq<char>, token: u64) -> Seq<char> {
    "neo_icon_"@ + sanitized(name) + "_"@ + crate::text::dec_digits(token as nat) + ".png"@
}

/// Replaces spaces in an application name for use in a file name.
fn sanitize_name(s: &str) -> (r: String)
    ensures
        r@ == sanitized(s@),
{
    let n = s.unicode_len();
    let mut out = String::new();
    proof {
        assert(s@.take(0).map_values(|c: char| if c == ' ' { '_' } else { c }) =~= Seq::<
            char,
        >::empty());
    }
    let mut i: usize = 0;
    while i < n
        invariant
            i <= n,
            n == s@.len(),
            out@ == sanitized(s@.take(i as int)),
        decreases n - i,
    {
        let c = s.get_char(i);
        if c == ' ' {
            out.append("_");
            proof {
                reveal_strlit("_");
            }
        } else {
            let piece = s.substring_char(i, i + 1);
            out.append(piece);
            proof {
                assert(piece@ =~= seq![s@[i as int]]);
            }
        }
        proof {
            assert(sanitized(s@.take(i + 1)) =~= sanitized(s@.take(i as int)).push(
                if s@[i as int] == ' ' {
                    '_'
                } else {
                    s@[i as int]
                },
            ));
        }
        i += 1;
    }
    proof {
        assert(s@.take(n as int) =~= s@);
    }
    out
}

/// Builds the temporary file name the converter writes to.
pub fn temp_png_name(app_name: &str, token: u64) -> (r: String)
    ensures
        r@ == temp_png_name_of(app_name@, token),
{
    let mut r = "neo_icon_".to_owned();
    let clean = sanitize_name(app_name);
    r.append(clean.as_str());
    r.append("_");
    crate::text::append_decimal(&mut r, token);
    r.append(".png");
    proof {
        assert(r@ =~= temp_png_name_of(app_name@, token));
    }
    r
}

/// Maps the converter's outcome: success exactly when the converter
/// was spawned and exited cleanly, and otherwise the failure carrying
/// the diagnostic the caller collected (the spawn error, or what the
/// converter printed).
pub fn conversion_outcome(spawned: bool, exit_ok: bool, diagnostic: String) -> (r: Result<
    (),
    IconError,
>)
    ensures
        (spawned && exit_ok ==> r == Ok::<(), IconError>(())),
        (!(spawned && exit_ok) ==> (r matches Err(e) && e matches IconError::ConversionFailed {
            detail,
        } && detail == diagnostic)),
{
    if spawned && exit_ok {
        Ok(())
    } else {
        Err(IconError::ConversionFailed { detail: diagnostic })
    }
}

/// Where the pipeline stands once the bundle is located: the step that
/// runs next, or the outcome it ended with.
#[derive(Debug, PartialEq, Eq)]
pub enum ResolvePhase {
    /// The property-list read of the icon-file attribute is pending.
    ReadingPlist { app_path: String },
    /// The existence probe of the icon resource is pending.
    ProbingIcon { icns_path: String },
    /// The raster conversion into the temporary file is pending.
    Converting { tmp_name: String },
    /// The read-back of the converted file is pending.
    ReadingBack { tmp_name: String },
    /// The best-effort removal of the temporary file is pending; the
    /// outcome is already decided and removal cannot change it.
    CleaningUp { tmp_name: String, outcome: Result<String, IconError> },
    /// The data URL, or the error owed.
    Done(Result<String, IconError>),
}

/// What the surrounding process reports back to the pipeline.
#[derive(Debug, PartialEq, Eq)]
pub enum ResolveEvent {
    /// The property-list reader's output; `None` when the reader
    /// itself could not be run.
    PlistOutput(Option<String>),
    /// Whether the icon resource is on disk.
    IconPresent(bool),
    /// How the converter fared: whether it could be run, whether it
    /// exited cleanly, and the diagnostic collected for a failure.
    ConverterOutcome { spawned: bool, exit_ok: bool, diagnostic: String },
    /// The converted file's bytes; `None` when they could not be read.
    ReadBack(Option<Vec<u8>>),
    /// Whether the temporary file could be removed; either way the
    /// pipeline proceeds, removal is best-effort.
    TempRemoved(bool),
}

/// What the surrounding process is asked to do next.
#[derive(Debug, PartialEq, Eq)]
pub enum ResolveAction {
    /// Read the icon-file attribute of this property list.
    ReadPlist(String),
    /// Probe this path for existence.
    ProbeIcon(String),
    /// Convert `source` to a small square PNG in the temporary file of
    /// this name.
    Convert { source: String, target_name: String },
    /// Read the temporary file of this name back.
    ReadTemp(String),
    /// Remove the temporary file of this name, best-effort.
    RemoveTemp(String),
    /// The pipeline is over.
    Finish,
}

/// The events each phase can take, and the bound the encoder needs on
/// what was read back.
pub open spec fn resolve_input_ok(phase: ResolvePhase, event: ResolveEvent) -> bool {
    match phase {
        ResolvePhase::ReadingPlist { .. } => event is PlistOutput,
        ResolvePhase::ProbingIcon { .. } => event is IconPresent,
        ResolvePhase::Converting { .. } => event is ConverterOutcome,
        ResolvePhase::ReadingBack { .. } => event matches ResolveEvent::ReadBack(bytes) && (
        bytes matches Some(b) ==> crate::encode::fits_encoder(b@.len())),
        ResolvePhase::CleaningUp { .. } => event is TempRemoved,
        ResolvePhase::Done(_) => false,
    }
}

/// Starts the pipeline on a located bundle: the first step reads the
/// bundle's property list.
pub fn resolve_begin(app_path: String) -> (r: (ResolvePhase, ResolveAction))
    ensures
        (r.0 matches ResolvePhase::ReadingPlist { app_path: a } && a == app_path),
        (r.1 matches ResolveAction::ReadPlist(p) && p@ == plist_path_of(app_path@)),
{
    let plist = plist_path(app_path.as_str());
    (ResolvePhase::ReadingPlist { app_path }, ResolveAction::ReadPlist(plist))
}

/// One step of the pipeline after the bundle is located: takes what
/// the surrounding process reported and decides what happens next.
/// Each failure ends the pipeline with the exact error owed; the
/// temporary file's removal is always requested right after a
/// successful read-back, before the pipeline finishes.
pub fn resolve_step(phase: ResolvePhase, app_name: &str, token: u64, event: ResolveEvent) -> (r: (
    ResolvePhase,
    ResolveAction,
))
    requires
        resolve_input_ok(phase, event),
    ensures
        (phase matches ResolvePhase::ReadingPlist { app_path } ==> (event matches
            ResolveEvent::PlistOutput(out) ==> ({
            &&& (out matches Some(s) ==> ({
                &&& (r.0 matches ResolvePhase::ProbingIcon { icns_path } && icns_path@
                    == icon_resource_path_of(app_path@, normalized_icon_name(s@)))
                &&& (r.1 matches ResolveAction::ProbeIcon(p) && p@ == icon_resource_path_of(
                    app_path@,
                    normalized_icon_name(s@),
                ))
            }))
            &&& (out is None ==> ({
                &&& (r.0 matches ResolvePhase::Done(res) && res == Err::<String, IconError>(
                    IconError::PlistReadError,
                ))
                &&& r.1 is Finish
            }))
        }))),
        (phase matches ResolvePhase::ProbingIcon { icns_path } ==> (event matches
            ResolveEvent::IconPresent(present) ==> ({
            &&& (present ==> ({
                &&& (r.0 matches ResolvePhase::Converting { tmp_name } && tmp_name@
                    == temp_png_name_of(app_name@, token))
                &&& (r.1 matches ResolveAction::Convert { source, target_name } && source
                    == icns_path && target_name@ == temp_png_name_of(app_name@, token))
            }))
            &&& (!present ==> ({
                &&& (r.0 matches ResolvePhase::Done(res) && res matches Err(e) && e matches
                    IconError::IconNotFound { icns_path: q } && q == icns_path)
                &&& r.1 is Finish
            }))
        }))),
        (phase matches ResolvePhase::Converting { tmp_name } ==> (event matches
            ResolveEvent::ConverterOutcome { spawned, exit_ok, diagnostic } ==> ({
            &&& (spawned && exit_ok ==> ({
                &&& (r.0 matches ResolvePhase::ReadingBack { tmp_name: t } && t == tmp_name)
                &&& (r.1 matches ResolveAction::ReadTemp(t) && t == tmp_name)
            }))
            &&& (!(spawned && exit_ok) ==> ({
                &&& (r.0 matches ResolvePhase::Done(res) && res matches Err(e) && e matches
                    IconError::ConversionFailed { detail } && detail == diagnostic)
                &&& r.1 is Finish
            }))
        }))),
        (phase matches ResolvePhase::ReadingBack { tmp_name } ==> (event matches
            ResolveEvent::ReadBack(bytes) ==> ({
            &&& (bytes matches Some(b) ==> ({
                &&& (r.0 matches ResolvePhase::CleaningUp { tmp_name: t, outcome } && t == tmp_name
                    && (outcome matches Ok(u) && u@ == crate::encode::data_url_of(b@)))
                &&& (r.1 matches ResolveAction::RemoveTemp(t) && t == tmp_name)
            }))
            &&& (bytes is None ==> ({
                &&& (r.0 matches ResolvePhase::Done(res) && res matches Err(e) && e matches
                    IconError::ConversionFailed { detail } && detail@
                    == "converted icon could not be read back"@)
                &&& r.1 is Finish
            }))
        }))),
        (phase matches ResolvePhase::CleaningUp { tmp_name, outcome } ==> (event is TempRemoved
            ==> ({
            &&& (r.0 matches ResolvePhase::Done(res) && res == outcome)
            &&& r.1 is Finish
        }))),
{
    match (phase, event) {
        (ResolvePhase::ReadingPlist { app_path }, ResolveEvent::PlistOutput(out)) => {
            match icon_file_name(out.as_ref()) {
                Ok(name) => {
                    let icns = icon_resource_path(app_path.as_str(), name.as_str());
                    let probe = icns.clone();
                    (ResolvePhase::ProbingIcon { icns_path: icns }, ResolveAction::ProbeIcon(probe))
                },
                Err(e) => (ResolvePhase::Done(Err(e)), ResolveAction::Finish),
            }
        },
        (ResolvePhase::ProbingIcon { icns_path }, ResolveEvent::IconPresent(present)) => {
            match icon_presence(icns_path, present) {
                Ok(source) => {
                    let tmp = temp_png_name(app_name, token);
                    let target = tmp.clone();
                    (
                        ResolvePhase::Converting { tmp_name: tmp },
                        ResolveAction::Convert { source, target_name: target },
                    )
                },
                Err(e) => (ResolvePhase::Done(Err(e)), ResolveAction::Finish),
            }
        },
        (
            ResolvePhase::Converting { tmp_name },
            ResolveEvent::ConverterOutcome { spawned, exit_ok, diagnostic },
        ) => {
            match conversion_outcome(spawned, exit_ok, diagnostic) {
                Ok(()) => {
                    let read = tmp_name.clone();
                    (ResolvePhase::ReadingBack { tmp_name }, ResolveAction::ReadTemp(read))
                },
                Err(e) => (ResolvePhase::Done(Err(e)), ResolveAction::Finish),
            }
        },
        (ResolvePhase::ReadingBack { tmp_name }, ResolveEvent::ReadBack(bytes)) => {
            match crate::encode::encode_icon(bytes) {
                Ok(url) => {
                    let rm = tmp_name.clone();
                    (
                        ResolvePhase::CleaningUp { tmp_name, outcome: Ok(url) },
                        ResolveAction::RemoveTemp(rm),
                    )
                },
                Err(e) => (ResolvePhase::Done(Err(e)), ResolveAction::Finish),
            }
        },
        (ResolvePhase::CleaningUp { tmp_name: _, outcome }, ResolveEvent::TempRemoved(_)) => {
            (ResolvePhase::Done(outcome), ResolveAction::Finish)
        },
        _ => unreached(),
    }
}

} // verus!
