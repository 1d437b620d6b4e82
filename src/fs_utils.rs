//! The pattern engine: where wildcards and placeholders may stand, how a
//! source pattern becomes a matcher, and how captures fill a destination.

use crate::errors::MassMoveError;
use crate::text::{
    chars_of, contains_seq, decimal, decimal_of, find_first, replace_first, replace_first_in,
    string_of,
};
use vstd::prelude::*;
use vstd::string::StringExecFns;

verus! {

/// The part of a path before its last `/`; empty when there is none.
pub open spec fn parent_part(s: Seq<char>) -> Seq<char>
    decreases s.len(),
{
    if s.len() == 0 {
        Seq::empty()
    } else if s.last() == '/' {
        s.drop_last()
    } else {
        parent_part(s.drop_last())
    }
}

/// `marker` stands before the file name of `pattern`.
pub open spec fn marker_outside_file_name(pattern: Seq<char>, marker: Seq<char>) -> bool {
    contains_seq(parent_part(pattern), marker)
}

/// The text of every `PathError`.
pub open spec fn path_error_text() -> Seq<char> {
    "Invalid pattern entered. The pattern should only contain * in the file name."@
}

/// The part of `s` before its last `/`.
fn parent_of(s: &Vec<char>) -> (r: Vec<char>)
    ensures
        r@ == parent_part(s@),
{
    let mut n: usize = s.len();
    assert(s@.take(n as int) =~= s@);
    while n > 0
        invariant
            n <= s.len(),
            parent_part(s@) == parent_part(s@.take(n as int)),
        decreases n,
    {
        assert(s@.take(n as int).drop_last() =~= s@.take(n - 1));
        if s[n - 1] == '/' {
            let mut r: Vec<char> = Vec::new();
            let mut k: usize = 0;
            while k < n - 1
                invariant
                    n <= s.len(),
                    k <= n - 1,
                    r@ == s@.take(k as int),
                decreases n - 1 - k,
            {
                r.push(s[k]);
                k = k + 1;
                assert(r@ =~= s@.take(k as int));
            }
            return r;
        }
        n = n - 1;
    }
    Vec::new()
}

/// Fails with `PathError` exactly when `marker` stands in `pattern` before
/// its last `/`, that is outside the file name.
pub fn path_check(pattern: &str, marker: &str) -> (r: Result<(), MassMoveError>)
    ensures
        r is Err <==> marker_outside_file_name(pattern@, marker@),
        r matches Err(e) ==> (e matches MassMoveError::PathError(m) && m@ == path_error_text()),
{
    let p = chars_of(pattern);
    let m = chars_of(marker);
    let parent = parent_of(&p);
    match find_first(&parent, &m) {
        Some(_) => Err(
            MassMoveError::PathError(
                String::from_str(
                    "Invalid pattern entered. The pattern should only contain * in the file name.",
                ),
            ),
        ),
        None => Ok(()),
    }
}

/// The characters that the matcher's syntax gives a meaning of its own.
pub open spec fn is_regex_meta(c: char) -> bool {
    c == '\\' || c == '.' || c == '+' || c == '*' || c == '?' || c == '(' || c == ')' || c == '|'
        || c == '[' || c == ']' || c == '{' || c == '}' || c == '^' || c == '$' || c == '#'
        || c == '&' || c == '-' || c == '~'
}

/// What one character of a source pattern becomes in its matcher: a wildcard
/// becomes a group that takes any run of characters, a metacharacter is
/// escaped, and any other character stands for itself.
pub open spec fn translate_char(c: char) -> Seq<char> {
    if c == '*' {
        seq!['(', '.', '*', ')']
    } else if is_regex_meta(c) {
        seq!['\\', c]
    } else {
        seq![c]
    }
}

/// The matcher text of a source pattern, character by character.
pub open spec fn translated(p: Seq<char>) -> Seq<char>
    decreases p.len(),
{
    if p.len() == 0 {
        Seq::empty()
    } else {
        translated(p.drop_last()) + translate_char(p.last())
    }
}

/// The matcher of a source pattern: its translation, held to the whole path,
/// with `.` taking any character, line breaks included.
pub open spec fn matcher_text(p: Seq<char>) -> Seq<char> {
    seq!['(', '?', 's', ')', '^'] + translated(p) + seq!['$']
}

/// Whether `c` is one of the matcher's metacharacters.
fn regex_meta(c: char) -> (r: bool)
    ensures
        r == is_regex_meta(c),
{
    c == '\\' || c == '.' || c == '+' || c == '*' || c == '?' || c == '(' || c == ')' || c == '|'
        || c == '[' || c == ']' || c == '{' || c == '}' || c == '^' || c == '$' || c == '#'
        || c == '&' || c == '-' || c == '~'
}

/// The matcher text of `source_pattern`: metacharacters escaped first, each
/// wildcard turned into a capturing group that takes any characters, and the
/// whole anchored at both ends so that only a match of the full path counts.
pub fn translate_pattern(source_pattern: &str) -> (r: String)
    ensures
        r@ == matcher_text(source_pattern@),
{
    let p = chars_of(source_pattern);
    let mut out: Vec<char> = Vec::new();
    out.push('(');
    out.push('?');
    out.push('s');
    out.push(')');
    out.push('^');
    let mut i: usize = 0;
    while i < p.len()
        invariant
            i <= p.len(),
            out@ == seq!['(', '?', 's', ')', '^'] + translated(p@.take(i as int)),
        decreases p.len() - i,
    {
        let c = p[i];
        assert(p@.take(i + 1).drop_last() =~= p@.take(i as int));
        if c == '*' {
            out.push('(');
            out.push('.');
            out.push('*');
            out.push(')');
        } else if regex_meta(c) {
            out.push('\\');
            out.push(c);
        } else {
            out.push(c);
        }
        assert(out@ =~= seq!['(', '?', 's', ')', '^'] + translated(p@.take(i + 1)));
        i = i + 1;
    }
    assert(p@.take(p.len() as int) =~= p@);
    out.push('$');
    assert(out@ =~= matcher_text(source_pattern@));
    string_of(&out)
}

/// The placeholder token for capture `i`: `#` and `i` in decimal.
pub open spec fn placeholder(i: nat) -> Seq<char> {
    seq!['#'] + decimal(i)
}

/// `dest` after its first `n` placeholders, in order of index, were each
/// replaced at their leftmost remaining occurrence.
pub open spec fn render_upto(dest: Seq<char>, caps: Seq<Seq<char>>, n: nat) -> Seq<char>
    decreases n,
{
    if n == 0 {
        dest
    } else {
        replace_first(
            render_upto(dest, caps, (n - 1) as nat),
            placeholder(n),
            caps[n - 1],
        )
    }
}

/// `dest` with placeholder `#i` replaced by `caps[i - 1]` for each
/// `1 <= i <= caps.len()`; placeholders beyond that stay as written.
pub open spec fn render(dest: Seq<char>, caps: Seq<Seq<char>>) -> Seq<char> {
    render_upto(dest, caps, caps.len())
}

/// The text of each string, in order.
pub open spec fn views_of(v: Seq<String>) -> Seq<Seq<char>> {
    v.map_values(|g: String| g@)
}

/// Fills `destination_pattern` with `captures`: `#1` with the first, `#2`
/// with the second and so on, each at its leftmost remaining occurrence.
pub fn render_destination(destination_pattern: &str, captures: &Vec<String>) -> (r: String)
    ensures
        r@ == render(destination_pattern@, views_of(captures@)),
{
    let ghost caps = views_of(captures@);
    let mut cur = chars_of(destination_pattern);
    let mut i: usize = 0;
    while i < captures.len()
        invariant
            i <= captures.len(),
            caps == views_of(captures@),
            cur@ == render_upto(destination_pattern@, caps, i as nat),
        decreases captures.len() - i,
    {
        let mut token: Vec<char> = Vec::new();
        token.push('#');
        let digits = decimal_of(i + 1);
        let mut k: usize = 0;
        while k < digits.len()
            invariant
                k <= digits.len(),
                token@ == seq!['#'] + digits@.take(k as int),
            decreases digits.len() - k,
        {
            token.push(digits[k]);
            k = k + 1;
            assert(token@ =~= seq!['#'] + digits@.take(k as int));
        }
        assert(digits@.take(digits.len() as int) =~= digits@);
        let rep = chars_of(captures[i].as_str());
        cur = replace_first_in(&cur, &token, &rep);
        i = i + 1;
    }
    string_of(&cur)
}

/// What a search with the matcher text `regex_text` finds in `haystack`:
/// `None` where nothing matches, else each group of the leftmost match, the
/// whole match first, with `None` for a group that took no part.
pub uninterp spec fn regex_captures(regex_text: Seq<char>, haystack: Seq<char>) -> Option<
    Seq<Option<Seq<char>>>,
>;

/// A group's text as a character sequence.
pub open spec fn group_view(g: Option<String>) -> Option<Seq<char>> {
    match g {
        Some(t) => Some(t@),
        None => None,
    }
}

/// The groups of a search outcome as character sequences.
pub open spec fn groups_view(o: Option<Vec<Option<String>>>) -> Option<Seq<Option<Seq<char>>>> {
    match o {
        Some(v) => Some(v@.map_values(|g: Option<String>| group_view(g))),
        None => None,
    }
}

/// Relies on `regex::Regex::new`, which compiles `regex_text` or reports why
/// it cannot (whether it can depends also on the machine, through a size
/// limit, so nothing is claimed of that), and on `regex::Regex::captures`
/// with `Captures::iter`, which find the leftmost match in `haystack` and give
/// every group, the whole match first; what they find depends on the two
/// strings alone.
#[verifier::external_body]
fn search_captures(regex_text: &str, haystack: &str) -> (r: Result<
    Option<Vec<Option<String>>>,
    regex::Error,
>)
    ensures
        r matches Ok(o) ==> groups_view(o) == regex_captures(regex_text@, haystack@),
        r matches Ok(Some(v)) ==> v@.len() >= 1,
{
    let re = regex::Regex::new(regex_text)?;
    Ok(re.captures(haystack).map(|c| c.iter().map(|g| g.map(|g| g.as_str().to_string())).collect()))
}

/// The text a group stands for: empty where it took no part.
pub open spec fn group_text(g: Option<Seq<char>>) -> Seq<char> {
    match g {
        Some(t) => t,
        None => Seq::empty(),
    }
}

/// The captures among a match's groups: every group after the whole match,
/// as text.
pub open spec fn group_captures(groups: Seq<Option<Seq<char>>>) -> Seq<Seq<char>> {
    if groups.len() == 0 {
        Seq::empty()
    } else {
        groups.drop_first().map_values(|g: Option<Seq<char>>| group_text(g))
    }
}

/// The text of the `MatchError` for a pattern and a path it does not fit.
pub open spec fn match_error_text(source_pattern: Seq<char>, path: Seq<char>) -> Seq<char> {
    "Pattern "@ + source_pattern + " could not match the path "@ + path + "."@
}

/// The captures of `path` under `source_pattern`, one per wildcard, if the
/// pattern's matcher finds it.
pub open spec fn pattern_captures(source_pattern: Seq<char>, path: Seq<char>) -> Option<
    Seq<Seq<char>>,
> {
    match regex_captures(matcher_text(source_pattern), path) {
        Some(groups) => Some(group_captures(groups)),
        None => None,
    }
}

/// Both patterns keep their markers inside the file name.
pub open spec fn patterns_valid(source_pattern: Seq<char>, destination_pattern: Seq<char>) -> bool {
    &&& !marker_outside_file_name(source_pattern, seq!['*'])
    &&& !marker_outside_file_name(destination_pattern, seq!['#'])
}

/// Fails with `PathError`, before anything else is looked at, exactly when a
/// wildcard stands outside the source pattern's file name or a placeholder
/// outside the destination pattern's.
pub fn check_patterns(source_pattern: &str, destination_pattern: &str) -> (r: Result<
    (),
    MassMoveError,
>)
    ensures
        r is Ok <==> patterns_valid(source_pattern@, destination_pattern@),
        r matches Err(e) ==> (e matches MassMoveError::PathError(m) && m@ == path_error_text()),
{
    proof {
        reveal_strlit("*");
        reveal_strlit("#");
        assert("*"@ =~= seq!['*']);
        assert("#"@ =~= seq!['#']);
    }
    path_check(source_pattern, "*")?;
    path_check(destination_pattern, "#")
}

/// What `rename_file_by_pattern` may return for these inputs.
pub open spec fn rename_outcome(
    source_pattern: Seq<char>,
    path: Seq<char>,
    destination_pattern: Seq<char>,
    r: Result<String, MassMoveError>,
) -> bool {
    let valid = patterns_valid(source_pattern, destination_pattern);
    let caps = pattern_captures(source_pattern, path);
    &&& (!valid <==> r matches Err(MassMoveError::PathError(_)))
    &&& (r matches Err(MassMoveError::PathError(m)) ==> m@ == path_error_text())
    &&& (r matches Ok(s) ==> (caps matches Some(c) && s@ == render(destination_pattern, c)))
    &&& (r matches Err(MassMoveError::MatchError(m)) ==> (caps is None && m@ == match_error_text(
        source_pattern,
        path,
    )))
    &&& (r matches Err(MassMoveError::RegexError(_)) ==> valid)
    &&& (valid ==> (r is Ok || r matches Err(MassMoveError::MatchError(_)) || r matches Err(
        MassMoveError::RegexError(_),
    )))
    &&& (valid && !(r matches Err(MassMoveError::RegexError(_))) ==> ((r is Ok <==> caps is Some)
        && (caps is None ==> r matches Err(MassMoveError::MatchError(_)))))
}

/// The new path of `path`: the captures of `path` under `source_pattern`
/// fill the placeholders of `destination_pattern`.
///
/// Fails with `PathError` exactly when a marker stands outside a file name;
/// else with `RegexError` only where the matcher could not be compiled; else
/// with `MatchError`, naming both inputs, exactly when the path as a whole
/// does not fit the pattern.
pub fn rename_file_by_pattern(source_pattern: &str, path: &str, destination_pattern: &str) -> (r:
    Result<String, MassMoveError>)
    ensures
        rename_outcome(source_pattern@, path@, destination_pattern@, r),
{
    check_patterns(source_pattern, destination_pattern)?;
    let regex_text = translate_pattern(source_pattern);
    match search_captures(regex_text.as_str(), path) {
        Err(e) => Err(MassMoveError::RegexError(e)),
        Ok(found) => rename_from_search(source_pattern, path, destination_pattern, found),
    }
}

/// The captures held in the groups of a match: every group after the whole
/// match, with an empty text for a group that took no part.
pub fn captures_from_groups(groups: &Vec<Option<String>>) -> (r: Vec<String>)
    ensures
        views_of(r@) == group_captures(groups@.map_values(|g: Option<String>| group_view(g))),
{
    let ghost gs = groups@.map_values(|g: Option<String>| group_view(g));
    let mut captures: Vec<String> = Vec::new();
    if groups.len() == 0 {
        assert(views_of(captures@) =~= group_captures(gs));
        return captures;
    }
    let ghost texts = gs.drop_first().map_values(|g: Option<Seq<char>>| group_text(g));
    let mut k: usize = 1;
    while k < groups.len()
        invariant
            1 <= k <= groups.len(),
            gs == groups@.map_values(|g: Option<String>| group_view(g)),
            texts == gs.drop_first().map_values(|g: Option<Seq<char>>| group_text(g)),
            views_of(captures@) == texts.take(k - 1),
        decreases groups.len() - k,
    {
        let ghost old_caps = captures@;
        let t = match &groups[k] {
            Some(g) => g.clone(),
            None => String::new(),
        };
        captures.push(t);
        assert(captures@ =~= old_caps.push(t));
        assert(t@ == texts[k - 1]);
        assert(views_of(captures@) =~= views_of(old_caps).push(t@));
        k = k + 1;
        assert(views_of(captures@) =~= texts.take(k - 1));
    }
    assert(texts.take(groups.len() - 1) =~= texts);
    captures
}

/// The new path once the matcher has searched `path`: `MatchError` naming
/// both inputs where it found nothing, else the destination filled with the
/// captures among the groups found.
pub fn rename_from_search(
    source_pattern: &str,
    path: &str,
    destination_pattern: &str,
    found: Option<Vec<Option<String>>>,
) -> (r: Result<String, MassMoveError>)
    ensures
        found is None ==> (r matches Err(MassMoveError::MatchError(m)) && m@ == match_error_text(
            source_pattern@,
            path@,
        )),
        found is Some ==> (r matches Ok(s) && s@ == render(
            destination_pattern@,
            group_captures(groups_view(found)->Some_0),
        )),
{
    match found {
        None => {
            let mut m = String::from_str("Pattern ");
            m.append(source_pattern);
            m.append(" could not match the path ");
            m.append(path);
            m.append(".");
            Err(MassMoveError::MatchError(m))
        },
        Some(groups) => {
            let captures = captures_from_groups(&groups);
            Ok(render_destination(destination_pattern, &captures))
        },
    }
}

/// A listed path with `\\` separators written as `/`.
pub open spec fn normalized(p: Seq<char>) -> Seq<char> {
    p.map_values(|c: char| if c == '\\' { '/' } else { c })
}

/// The text of every `NotFoundError`.
pub open spec fn not_found_text() -> Seq<char> {
    "No matches for this pattern."@
}

/// `paths` names no path twice.
pub open spec fn distinct_paths(paths: Seq<String>) -> bool {
    forall|i: int, j: int| 0 <= i < j < paths.len() ==> paths[i]@ != paths[j]@
}

/// Some path of `listed`, with `/` as its separator, reads `p`.
pub open spec fn listed_as(listed: Seq<String>, p: Seq<char>) -> bool {
    exists|j: int| 0 <= j < listed.len() && p == normalized(#[trigger] listed[j]@)
}

/// Some path of `paths` reads `p`.
pub open spec fn among(paths: Seq<String>, p: Seq<char>) -> bool {
    exists|i: int| 0 <= i < paths.len() && #[trigger] paths[i]@ == p
}

/// `listed`, with `/` as its separator, holds exactly the paths of `paths`.
pub open spec fn same_paths(paths: Seq<String>, listed: Seq<String>) -> bool {
    &&& forall|i: int| 0 <= i < paths.len() ==> listed_as(listed, #[trigger] paths[i]@)
    &&& forall|j: int| 0 <= j < listed.len() ==> among(paths, normalized(#[trigger] listed[j]@))
}

/// `p` with each `\\` written as `/`.
fn normalize(p: &String) -> (r: String)
    ensures
        r@ == normalized(p@),
{
    let c = chars_of(p.as_str());
    let mut out: Vec<char> = Vec::new();
    let mut i: usize = 0;
    while i < c.len()
        invariant
            i <= c.len(),
            out@ == normalized(c@.take(i as int)),
        decreases c.len() - i,
    {
        if c[i] == '\\' {
            out.push('/');
        } else {
            out.push(c[i]);
        }
        i = i + 1;
        assert(out@ =~= normalized(c@.take(i as int)));
    }
    assert(c@.take(c.len() as int) =~= c@);
    string_of(&out)
}

/// What `collect_matches` may return for a listing.
pub open spec fn collect_outcome(listed: Seq<String>, r: Result<Vec<String>, MassMoveError>) -> bool {
    &&& (r is Err <==> listed.len() == 0)
    &&& (r matches Err(e) ==> (e matches MassMoveError::NotFoundError(m) && m@ == not_found_text()))
    &&& (r matches Ok(paths) ==> distinct_paths(paths@) && same_paths(paths@, listed))
}

/// The files that the listing of a source pattern found, each once and with
/// `/` as separator; `NotFoundError` when it found none.
pub fn collect_matches(listed: &Vec<String>) -> (r: Result<Vec<String>, MassMoveError>)
    ensures
        collect_outcome(listed@, r),
{
    if listed.len() == 0 {
        return Err(MassMoveError::NotFoundError(String::from_str("No matches for this pattern.")));
    }
    let mut paths: Vec<String> = Vec::new();
    let mut j: usize = 0;
    while j < listed.len()
        invariant
            j <= listed.len(),
            distinct_paths(paths@),
            same_paths(paths@, listed@.take(j as int)),
        decreases listed.len() - j,
    {
        let n = normalize(&listed[j]);
        let mut seen = false;
        let mut k: usize = 0;
        while k < paths.len()
            invariant
                k <= paths.len(),
                seen ==> exists|i: int| 0 <= i < paths.len() && #[trigger] paths@[i]@ == n@,
                !seen ==> forall|i: int| 0 <= i < k ==> #[trigger] paths@[i]@ != n@,
            decreases paths.len() - k,
        {
            if paths[k] == n {
                seen = true;
            }
            k = k + 1;
        }
        let ghost before = paths@;
        if !seen {
            paths.push(n);
        }
        proof {
            let lt = listed@.take(j + 1);
            let prev = listed@.take(j as int);
            assert forall|i: int| 0 <= i < paths@.len() implies listed_as(lt, #[trigger] paths@[i]@) by {
                if i < before.len() {
                    assert(listed_as(prev, before[i]@));
                    let m = choose|m: int| 0 <= m < prev.len() && before[i]@ == normalized(#[trigger] prev[m]@);
                    assert(lt[m] == prev[m]);
                } else {
                    assert(lt[j as int] == listed@[j as int]);
                }
            }
            assert forall|m: int| 0 <= m < lt.len() implies among(paths@, normalized(#[trigger] lt[m]@)) by {
                if m < j {
                    assert(lt[m] == prev[m]);
                    assert(among(before, normalized(prev[m]@)));
                    let i = choose|i: int| 0 <= i < before.len() && #[trigger] before[i]@ == normalized(prev[m]@);
                    assert(paths@[i] == before[i]);
                } else if !seen {
                    assert(paths@[before.len() as int]@ == n@);
                } else {
                    let i = choose|i: int| 0 <= i < paths.len() && #[trigger] paths@[i]@ == n@;
                    assert(paths@[i]@ == n@);
                }
            }
        }
        j = j + 1;
    }
    assert(listed@.take(listed.len() as int) =~= listed@);
    Ok(paths)
}

/// The line reported for one completed move: `<source> -> <destination>`.
pub fn move_record(source: &str, destination: &str) -> (r: String)
    ensures
        r@ == source@ + " -> "@ + destination@,
{
    let mut r = String::from_str(source);
    r.append(" -> ");
    r.append(destination);
    r
}

} // verus!
