//! Runtime shared state: the table of authorised path roots, the live
//! search round and the files waiting to be opened.
//!
//! Authorisation comes only from explicit user intent (opening a
//! workspace, a file dialog, a drop, ...). Every other command checks its
//! path with [`AppState::ensure_allowed`] first. Paths reach this module
//! already canonicalised by the caller.
use vstd::prelude::*;
use crate::error::AppError;
use crate::paths::{comps_under, dv, is_under, lemma_is_under_trans, path_components, components};

verus! {

/// Whether some root in `roots` lies at or above `p`.
pub open spec fn covered(roots: Seq<Seq<Seq<char>>>, p: Seq<Seq<char>>) -> bool {
    exists|i: int| 0 <= i < roots.len() && is_under(p, #[trigger] roots[i])
}

/// No root lies below another one.
pub open spec fn antichain(roots: Seq<Seq<Seq<char>>>) -> bool {
    forall|i: int, j: int|
        0 <= i < roots.len() && 0 <= j < roots.len() && i != j ==> !is_under(
            #[trigger] roots[i],
            #[trigger] roots[j],
        )
}

pub open spec fn roots_dv(v: Seq<Vec<Vec<char>>>) -> Seq<Seq<Seq<char>>> {
    v.map_values(|x: Vec<Vec<char>>| dv(x@))
}

pub open spec fn not_under(cv: Seq<Seq<char>>) -> spec_fn(Seq<Seq<char>>) -> bool {
    |x: Seq<Seq<char>>| !is_under(x, cv)
}

/// A component vector copied.
fn clone_comps(v: &Vec<Vec<char>>) -> (r: Vec<Vec<char>>)
    ensures
        dv(r@) == dv(v@),
{
    let mut out: Vec<Vec<char>> = Vec::new();
    let mut i: usize = 0;
    while i < v.len()
        invariant
            i <= v@.len(),
            dv(out@) == dv(v@).take(i as int),
        decreases v@.len() - i,
    {
        let ghost before = dv(out@);
        let x = crate::text::slice_range(v[i].as_slice(), 0, v[i].len());
        assert(v[i as int]@.subrange(0, v[i as int]@.len() as int) =~= v[i as int]@);
        assert(x@ == dv(v@)[i as int]);
        out.push(x);
        assert(dv(out@) =~= before.push(x@));
        assert(dv(out@) =~= dv(v@).take(i + 1));
        i = i + 1;
    }
    assert(dv(v@).take(v@.len() as int) =~= dv(v@));
    out
}

proof fn lemma_filter_step<A>(s: Seq<A>, j: int, f: spec_fn(A) -> bool)
    requires
        0 <= j < s.len(),
    ensures
        s.take(j + 1).filter(f) == (if f(s[j]) { s.take(j).filter(f).push(s[j]) } else { s.take(j).filter(f) }),
{
    reveal(Seq::filter);
    assert(s.take(j + 1).drop_last() =~= s.take(j));
    assert(s.take(j + 1).last() == s[j]);
}

proof fn lemma_filter_antichain(s: Seq<Seq<Seq<char>>>, f: spec_fn(Seq<Seq<char>>) -> bool)
    requires
        antichain(s),
    ensures
        antichain(s.filter(f)),
        forall|k: int| 0 <= k < s.filter(f).len() ==> s.contains(#[trigger] s.filter(f)[k]),
    decreases s.len(),
{
    reveal(Seq::filter);
    if s.len() > 0 {
        let d = s.drop_last();
        assert forall|a: int, b: int| 0 <= a < d.len() && 0 <= b < d.len() && a != b implies !is_under(#[trigger] d[a], #[trigger] d[b]) by {
            assert(d[a] == s[a] && d[b] == s[b]);
        }
        lemma_filter_antichain(d, f);
        let fd = d.filter(f);
        let x = s.last();
        if f(x) {
            let r = fd.push(x);
            assert forall|k: int| 0 <= k < fd.len() implies !is_under(#[trigger] fd[k], x) && !is_under(x, fd[k]) by {
                assert(d.contains(fd[k]));
                let m = choose|m: int| 0 <= m < d.len() && d[m] == fd[k];
                assert(s[m] == fd[k]);
                assert(s[s.len() - 1] == x);
            }
            assert forall|a: int, b: int| 0 <= a < r.len() && 0 <= b < r.len() && a != b implies !is_under(#[trigger] r[a], #[trigger] r[b]) by {
                if a < fd.len() && b < fd.len() {
                    assert(r[a] == fd[a] && r[b] == fd[b]);
                } else if a < fd.len() {
                    assert(r[a] == fd[a]);
                } else {
                    assert(r[b] == fd[b]);
                }
            }
            assert forall|k: int| 0 <= k < r.len() implies s.contains(#[trigger] r[k]) by {
                if k < fd.len() {
                    assert(d.contains(fd[k]));
                    let m = choose|m: int| 0 <= m < d.len() && d[m] == fd[k];
                    assert(s[m] == r[k]);
                } else {
                    assert(s[s.len() - 1] == r[k]);
                }
            }
        } else {
            assert forall|k: int| 0 <= k < fd.len() implies s.contains(#[trigger] fd[k]) by {
                assert(d.contains(fd[k]));
                let m = choose|m: int| 0 <= m < d.len() && d[m] == fd[k];
                assert(s[m] == fd[k]);
            }
        }
    }
}

proof fn lemma_grant_result(old_roots: Seq<Seq<Seq<char>>>, cv: Seq<Seq<char>>)
    requires
        antichain(old_roots),
        forall|k: int| 0 <= k < old_roots.len() ==> !is_under(cv, #[trigger] old_roots[k]),
    ensures
        antichain(old_roots.filter(not_under(cv)).push(cv)),
        forall|p: Seq<Seq<char>>| covered(old_roots.filter(not_under(cv)).push(cv), p) <==> (covered(old_roots, p) || is_under(p, cv)),
{
    broadcast use vstd::seq_lib::group_filter_ensures;
    let f = not_under(cv);
    let kd = old_roots.filter(f);
    lemma_filter_antichain(old_roots, f);
    let nd = kd.push(cv);
    assert forall|k: int| 0 <= k < kd.len() implies !is_under(#[trigger] kd[k], cv) && !is_under(cv, kd[k]) by {
        assert(f(kd[k]));
        assert(old_roots.contains(kd[k]));
    }
    assert forall|a: int, b: int| 0 <= a < nd.len() && 0 <= b < nd.len() && a != b implies !is_under(#[trigger] nd[a], #[trigger] nd[b]) by {
        if a < kd.len() && b < kd.len() {
            assert(nd[a] == kd[a] && nd[b] == kd[b]);
        } else if a < kd.len() {
            assert(nd[a] == kd[a]);
        } else {
            assert(nd[b] == kd[b]);
        }
    }
    assert forall|p: Seq<Seq<char>>| covered(nd, p) <==> (covered(old_roots, p) || is_under(p, cv)) by {
        if covered(nd, p) {
            let i = choose|i: int| 0 <= i < nd.len() && is_under(p, #[trigger] nd[i]);
            if i < kd.len() {
                assert(old_roots.contains(kd[i]));
                let m = choose|m: int| 0 <= m < old_roots.len() && old_roots[m] == kd[i];
                assert(is_under(p, old_roots[m]));
            }
        }
        if covered(old_roots, p) {
            let m = choose|m: int| 0 <= m < old_roots.len() && is_under(p, #[trigger] old_roots[m]);
            if is_under(old_roots[m], cv) {
                lemma_is_under_trans(p, old_roots[m], cv);
                assert(is_under(p, nd[kd.len() as int]));
            } else {
                assert(f(old_roots[m]));
                assert(kd.contains(old_roots[m]));
                let k = choose|k: int| 0 <= k < kd.len() && kd[k] == old_roots[m];
                assert(is_under(p, nd[k]));
            }
        }
        if is_under(p, cv) {
            assert(is_under(p, nd[kd.len() as int]));
        }
    }
}

pub struct AppState {
    roots: Vec<Vec<Vec<char>>>,
    search_round: u64,
    pending_open: Vec<String>,
}

impl AppState {
    #[verifier::type_invariant]
    spec fn inv(self) -> bool {
        antichain(roots_dv(self.roots@))
    }

    /// The authorised roots, as component sequences.
    pub closed spec fn roots(self) -> Seq<Seq<Seq<char>>> {
        roots_dv(self.roots@)
    }

    /// Whether the canonical path with components `p` is authorised.
    pub open spec fn allows(self, p: Seq<Seq<char>>) -> bool {
        covered(self.roots(), p)
    }

    /// The number of the live search round.
    pub closed spec fn round(self) -> u64 {
        self.search_round
    }

    /// The files waiting to be opened.
    pub closed spec fn pending(self) -> Seq<String> {
        self.pending_open@
    }

    /// A state with nothing authorised, round 0 live and nothing pending.
    pub fn new() -> (s: AppState)
        ensures
            s.roots().len() == 0,
            antichain(s.roots()),
            forall|p: Seq<Seq<char>>| !s.allows(p),
            s.round() == 0,
            s.pending().len() == 0,
    {
        AppState { roots: Vec::new(), search_round: 0, pending_open: Vec::new() }
    }

    /// Authorises the canonical directory `canonical`. Idempotent: when an
    /// authorised root already covers it nothing changes; otherwise the roots
    /// that it covers give way to it.
    pub fn grant_root(&mut self, canonical: &str)
        ensures
            forall|p: Seq<Seq<char>>| #[trigger] final(self).allows(p) <==> (old(self).allows(p) || is_under(p, components(canonical@))),
            final(self).allows(components(canonical@)),
            old(self).allows(components(canonical@)) ==> final(self).roots() == old(self).roots(),
            !old(self).allows(components(canonical@)) ==> final(self).roots() == old(self).roots().filter(
                not_under(components(canonical@)),
            ).push(components(canonical@)),
            antichain(final(self).roots()),
            final(self).round() == old(self).round(),
            final(self).pending() == old(self).pending(),
    {
        proof {
            use_type_invariant(&*self);
        }
        let c = path_components(canonical);
        let ghost cv = dv(c@);
        assert(is_under(cv, cv)) by {
            assert(cv.subrange(0, cv.len() as int) =~= cv);
        }
        let ghost old_roots = self.roots();
        let mut i: usize = 0;
        while i < self.roots.len()
            invariant
                i <= self.roots@.len(),
                self.roots() == old_roots,
                antichain(old_roots),
                dv(c@) == cv,
                cv == components(canonical@),
                forall|k: int| 0 <= k < i ==> !is_under(cv, #[trigger] old_roots[k]),
            decreases self.roots@.len() - i,
        {
            if comps_under(&c, &self.roots[i]) {
                proof {
                    assert(is_under(cv, old_roots[i as int]));
                    assert(covered(old_roots, cv));
                    assert forall|p: Seq<Seq<char>>| is_under(p, cv) implies covered(old_roots, p) by {
                        lemma_is_under_trans(p, cv, old_roots[i as int]);
                    }
                    assert forall|p: Seq<Seq<char>>| #[trigger] self.allows(p) <==> (self.allows(p) || is_under(p, components(canonical@))) by {
                        if is_under(p, components(canonical@)) {
                            lemma_is_under_trans(p, cv, old_roots[i as int]);
                        }
                    }
                }
                return;
            }
            i = i + 1;
        }
        // keep only the roots that `c` does not cover
        let mut kept: Vec<Vec<Vec<char>>> = Vec::new();
        let mut j: usize = 0;
        while j < self.roots.len()
            invariant
                j <= self.roots@.len(),
                self.roots() == old_roots,
                dv(c@) == cv,
                cv == components(canonical@),
                roots_dv(kept@) == old_roots.take(j as int).filter(not_under(cv)),
            decreases self.roots@.len() - j,
        {
            let ghost before = roots_dv(kept@);
            if !comps_under(&self.roots[j], &c) {
                let r = clone_comps(&self.roots[j]);
                kept.push(r);
                assert(roots_dv(kept@) =~= before.push(old_roots[j as int]));
            }
            proof {
                lemma_filter_step(old_roots, j as int, not_under(cv));
            }
            j = j + 1;
        }
        proof {
            assert(old_roots.take(old_roots.len() as int) =~= old_roots);
        }
        let ghost kd = roots_dv(kept@);
        kept.push(c);
        proof {
            assert(roots_dv(kept@) =~= kd.push(cv));
            lemma_grant_result(old_roots, cv);
        }
        self.roots = kept;
    }

    /// Whether a path is authorised: `target` is its canonical form, or
    /// nothing when it could not be resolved (then it is refused).
    pub fn is_allowed(&self, target: Option<&str>) -> (r: bool)
        ensures
            r == (target is Some && self.allows(components(target->0@))),
    {
        match target {
            None => false,
            Some(t) => {
                let p = path_components(t);
                let mut i: usize = 0;
                while i < self.roots.len()
                    invariant
                        i <= self.roots@.len(),
                        dv(p@) == components(t@),
                        target == Some(t),
                        forall|k: int| 0 <= k < i ==> !is_under(dv(p@), #[trigger] self.roots()[k]),
                    decreases self.roots@.len() - i,
                {
                    if comps_under(&p, &self.roots[i]) {
                        assert(is_under(dv(p@), self.roots()[i as int]));
                        assert(self.allows(components(t@)));
                        return true;
                    }
                    i = i + 1;
                }
                false
            },
        }
    }

    /// The guard every path-taking command runs first: `Ok` when the path is
    /// authorised, `PermissionDenied` naming the path (`display`) otherwise.
    pub fn ensure_allowed(&self, target: Option<&str>, display: &str) -> (r: Result<(), AppError>)
        ensures
            r is Ok <==> (target is Some && self.allows(components(target->0@))),
            r matches Err(e) ==> e matches AppError::PermissionDenied(m) && m@ == "路径未授权（请先打开所在目录或工作区）: "@ + display@,
    {
        if self.is_allowed(target) {
            Ok(())
        } else {
            let m = String::from_str("路径未授权（请先打开所在目录或工作区）: ").concat(display);
            Err(AppError::PermissionDenied(m))
        }
    }

    /// Starts a new search round and returns its number. The round that was
    /// live before is no longer live from now on.
    pub fn begin_search(&mut self) -> (r: u64)
        ensures
            r == final(self).round(),
            r != old(self).round(),
            r == (if old(self).round() == u64::MAX { 0 } else { (old(self).round() + 1) as u64 }),
            final(self).roots() == old(self).roots(),
            final(self).pending() == old(self).pending(),
    {
        proof {
            use_type_invariant(&*self);
        }
        let r = if self.search_round == u64::MAX { 0 } else { self.search_round + 1 };
        self.search_round = r;
        r
    }

    /// Whether `round` is still the live search round; a round stops being
    /// live as soon as a newer one begins.
    pub fn is_live_round(&self, round: u64) -> (r: bool)
        ensures
            r == (round == self.round()),
    {
        round == self.search_round
    }

    /// Stores the files to open that the command line named (replacing any).
    pub fn set_pending_open(&mut self, files: Vec<String>)
        ensures
            final(self).pending() == files@,
            final(self).roots() == old(self).roots(),
            final(self).round() == old(self).round(),
    {
        proof {
            use_type_invariant(&*self);
        }
        self.pending_open = files;
    }

    /// Hands out the files waiting to be opened and forgets them.
    pub fn take_pending_open(&mut self) -> (r: Vec<String>)
        ensures
            r@ == old(self).pending(),
            final(self).pending().len() == 0,
            final(self).roots() == old(self).roots(),
            final(self).round() == old(self).round(),
    {
        proof {
            use_type_invariant(&*self);
        }
        let mut out: Vec<String> = Vec::new();
        std::mem::swap(&mut out, &mut self.pending_open);
        out
    }
}

impl Default for AppState {
    /// The state at start-up: nothing authorised, round 0 live, nothing
    /// pending.
    fn default() -> (s: AppState)
        ensures
            s.roots().len() == 0,
            forall|p: Seq<Seq<char>>| !s.allows(p),
            s.round() == 0,
            s.pending().len() == 0,
    {
        AppState::new()
    }
}

} // verus!
