//! What rendering a destination pattern does to a template whose only
//! placeholders are the ones it resolves, and to one it cannot resolve at all.

use crate::errors::MassMoveError;
use crate::fs_utils::{pattern_captures, placeholder, rename_outcome, render, render_upto};
use crate::text::{contains_seq, hash_free, lemma_replace_after_hash_free};
use vstd::prelude::*;

verus! {

/// `parts[0] fillers[0] parts[1] fillers[1] ... parts[n]`.
pub open spec fn weave(parts: Seq<Seq<char>>, fillers: Seq<Seq<char>>) -> Seq<char>
    decreases fillers.len(),
{
    if fillers.len() == 0 {
        parts[0]
    } else {
        weave(parts.drop_last(), fillers.drop_last()) + fillers.last() + parts.last()
    }
}

/// The tokens `#1`, `#2`, ..., `#n`.
pub open spec fn placeholders(n: nat) -> Seq<Seq<char>> {
    Seq::new(n, |i: int| placeholder((i + 1) as nat))
}

/// The first `n` captures, the tokens that remain unresolved, then `rest`.
pub open spec fn partly_filled(caps: Seq<Seq<char>>, rest: Seq<Seq<char>>, n: int) -> Seq<
    Seq<char>,
> {
    caps.take(n) + placeholders(caps.len()).skip(n) + rest
}

proof fn lemma_weave_split(parts: Seq<Seq<char>>, f: Seq<Seq<char>>, i: int)
    requires
        parts.len() == f.len() + 1,
        0 <= i < f.len(),
    ensures
        weave(parts, f) == weave(parts.take(i + 1), f.take(i)) + f[i] + weave(
            parts.skip(i + 1),
            f.skip(i + 1),
        ),
    decreases f.len(),
{
    let pd = parts.drop_last();
    let fd = f.drop_last();
    if i == f.len() - 1 {
        assert(parts.take(i + 1) =~= pd);
        assert(f.take(i) =~= fd);
        assert(f.skip(i + 1) =~= Seq::<Seq<char>>::empty());
        assert(parts.skip(i + 1)[0] == parts.last());
    } else {
        lemma_weave_split(pd, fd, i);
        assert(pd.take(i + 1) =~= parts.take(i + 1));
        assert(fd.take(i) =~= f.take(i));
        assert(parts.skip(i + 1).drop_last() =~= pd.skip(i + 1));
        assert(f.skip(i + 1).drop_last() =~= fd.skip(i + 1));
        assert(f.skip(i + 1).last() == f.last());
        assert(parts.skip(i + 1).last() == parts.last());
        assert(weave(parts, f) == weave(pd, fd) + f.last() + parts.last());
        assert(weave(parts.skip(i + 1), f.skip(i + 1)) == weave(pd.skip(i + 1), fd.skip(i + 1))
            + f.last() + parts.last());
        assert(weave(parts, f) =~= weave(parts.take(i + 1), f.take(i)) + f[i] + weave(
            parts.skip(i + 1),
            f.skip(i + 1),
        ));
    }
}

proof fn lemma_weave_hash_free(parts: Seq<Seq<char>>, f: Seq<Seq<char>>)
    requires
        parts.len() == f.len() + 1,
        forall|k: int| 0 <= k < parts.len() ==> hash_free(#[trigger] parts[k]),
        forall|k: int| 0 <= k < f.len() ==> hash_free(#[trigger] f[k]),
    ensures
        hash_free(weave(parts, f)),
    decreases f.len(),
{
    if f.len() > 0 {
        let pd = parts.drop_last();
        let fd = f.drop_last();
        assert forall|k: int| 0 <= k < pd.len() implies hash_free(#[trigger] pd[k]) by {
            assert(pd[k] == parts[k]);
        }
        assert forall|k: int| 0 <= k < fd.len() implies hash_free(#[trigger] fd[k]) by {
            assert(fd[k] == f[k]);
        }
        lemma_weave_hash_free(pd, fd);
        assert(hash_free(f[f.len() - 1]));
        assert(hash_free(parts[parts.len() - 1]));
        let w = weave(pd, fd) + f.last() + parts.last();
        assert forall|j: int| 0 <= j < w.len() implies w[j] != '#' by {
            let a = weave(pd, fd);
            if j < a.len() {
            } else if j < a.len() + f.last().len() {
                assert(w[j] == f.last()[j - a.len()]);
            } else {
                assert(w[j] == parts.last()[j - a.len() - f.last().len()]);
            }
        }
    }
}

proof fn lemma_render_partly(
    parts: Seq<Seq<char>>,
    caps: Seq<Seq<char>>,
    rest: Seq<Seq<char>>,
    n: nat,
)
    requires
        parts.len() == caps.len() + rest.len() + 1,
        n <= caps.len(),
        forall|k: int| 0 <= k < parts.len() ==> hash_free(#[trigger] parts[k]),
        forall|k: int| 0 <= k < caps.len() ==> hash_free(#[trigger] caps[k]),
    ensures
        render_upto(weave(parts, placeholders(caps.len()) + rest), caps, n) == weave(
            parts,
            partly_filled(caps, rest, n as int),
        ),
    decreases n,
{
    let tokens = placeholders(caps.len());
    if n == 0 {
        assert(partly_filled(caps, rest, 0) =~= tokens + rest);
    } else {
        let m = (n - 1) as nat;
        lemma_render_partly(parts, caps, rest, m);
        let before = partly_filled(caps, rest, m as int);
        let after = partly_filled(caps, rest, n as int);
        lemma_weave_split(parts, before, m as int);
        lemma_weave_split(parts, after, m as int);
        assert(before.take(m as int) =~= caps.take(m as int));
        assert(after.take(m as int) =~= caps.take(m as int));
        assert(before.skip(n as int) =~= after.skip(n as int));
        assert(before[m as int] == placeholder(n));
        assert(after[m as int] == caps[m as int]);
        let pre = parts.take(n as int);
        let fpre = caps.take(m as int);
        assert forall|k: int| 0 <= k < pre.len() implies hash_free(#[trigger] pre[k]) by {
            assert(pre[k] == parts[k]);
        }
        assert forall|k: int| 0 <= k < fpre.len() implies hash_free(#[trigger] fpre[k]) by {
            assert(fpre[k] == caps[k]);
        }
        lemma_weave_hash_free(pre, fpre);
        assert(placeholder(n)[0] == '#');
        lemma_replace_after_hash_free(
            weave(pre, fpre),
            placeholder(n),
            weave(parts.skip(n as int), before.skip(n as int)),
            caps[m as int],
        );
    }
}

/// Rendering fills placeholders in order and leaves the rest as written: a
/// destination made of literal text and the tokens `#1` to `#k`, each once
/// and in that order, followed by any further text (higher-numbered
/// placeholders among it), comes out with each of those tokens replaced by
/// the capture of the same rank and all further text unchanged, where
/// neither the literal text nor the captures hold a `#`.
pub proof fn lemma_render_fills_in_order(
    parts: Seq<Seq<char>>,
    caps: Seq<Seq<char>>,
    rest: Seq<Seq<char>>,
)
    requires
        parts.len() == caps.len() + rest.len() + 1,
        forall|k: int| 0 <= k < parts.len() ==> hash_free(#[trigger] parts[k]),
        forall|k: int| 0 <= k < caps.len() ==> hash_free(#[trigger] caps[k]),
    ensures
        render(weave(parts, placeholders(caps.len()) + rest), caps) == weave(parts, caps + rest),
{
    lemma_render_partly(parts, caps, rest, caps.len());
    assert(partly_filled(caps, rest, caps.len() as int) =~= caps + rest);
}

/// Placeholders that no capture resolves stay as written: where none of the
/// tokens `#1` to `#k` occurs in the destination, `k` captures leave it
/// unchanged, whatever higher-numbered tokens it holds.
pub proof fn lemma_unresolved_placeholders_kept(dest: Seq<char>, caps: Seq<Seq<char>>)
    requires
        forall|i: nat| 1 <= i <= caps.len() ==> !contains_seq(dest, #[trigger] placeholder(i)),
    ensures
        render(dest, caps) == dest,
{
    lemma_render_unchanged(dest, caps, caps.len());
}

proof fn lemma_render_unchanged(dest: Seq<char>, caps: Seq<Seq<char>>, n: nat)
    requires
        n <= caps.len(),
        forall|i: nat| 1 <= i <= caps.len() ==> !contains_seq(dest, #[trigger] placeholder(i)),
    ensures
        render_upto(dest, caps, n) == dest,
    decreases n,
{
    if n > 0 {
        lemma_render_unchanged(dest, caps, (n - 1) as nat);
        assert(!contains_seq(dest, placeholder(n)));
    }
}

/// A successful rename fills the destination in order: where the source
/// pattern's wildcards capture `caps` from `path` and the destination is
/// literal text with `#1` to `#k` in order, followed by any further text, the
/// new path holds each capture in place of its token and the further text
/// unchanged, where neither the literal text nor the captures hold a `#`.
pub proof fn lemma_renamed_path_fills_in_order(
    source_pattern: Seq<char>,
    path: Seq<char>,
    parts: Seq<Seq<char>>,
    caps: Seq<Seq<char>>,
    rest: Seq<Seq<char>>,
    r: Result<String, MassMoveError>,
)
    requires
        pattern_captures(source_pattern, path) == Some(caps),
        parts.len() == caps.len() + rest.len() + 1,
        forall|k: int| 0 <= k < parts.len() ==> hash_free(#[trigger] parts[k]),
        forall|k: int| 0 <= k < caps.len() ==> hash_free(#[trigger] caps[k]),
        rename_outcome(source_pattern, path, weave(parts, placeholders(caps.len()) + rest), r),
        r is Ok,
    ensures
        r matches Ok(s) && s@ == weave(parts, caps + rest),
{
    lemma_render_fills_in_order(parts, caps, rest);
}

} // verus!
