//! The script locator: decides which file on disk is the backend entry
//! script, searching an ordered list of candidate locations.
//!
//! Resolution order, first match wins: an explicit override variable naming a
//! script path, accepted only if it exists; a fixed ordered list of
//! resource-relative candidate names, each resolved through the host
//! application's bundled-resource lookup; and a fixed ordered list of
//! working-directory-relative candidates. Every candidate is accepted only if
//! it exists on disk. Exhausting all candidates is an absent result, not an
//! error: the application then runs without a backend.
//!
//! The caller performs the resource lookups and existence checks and hands
//! each consulted path in as a [`Candidate`]; the search policy over those
//! observations is decided here.

use vstd::prelude::*;

verus! {

/// A path that was considered for the entry script, together with the
/// caller's observation of whether it exists on disk.
pub struct Candidate {
    /// The candidate path.
    pub path: String,
    /// Whether the path exists on disk.
    pub exists: bool,
}

/// The path of the first candidate that exists, if any.
pub open spec fn first_existing(cs: Seq<Candidate>) -> Option<Seq<char>>
    decreases cs.len(),
{
    if cs.len() == 0 {
        None
    } else if cs[0].exists {
        Some(cs[0].path@)
    } else {
        first_existing(cs.subrange(1, cs.len() as int))
    }
}

/// Searching a concatenation searches the left part first and falls back to
/// the right part only when the left has no existing candidate.
pub proof fn lemma_first_existing_concat(a: Seq<Candidate>, b: Seq<Candidate>)
    ensures
        first_existing(a + b) == (match first_existing(a) {
            Some(p) => Some(p),
            None => first_existing(b),
        }),
    decreases a.len(),
{
    if a.len() == 0 {
        assert(a + b =~= b);
    } else {
        assert((a + b).subrange(1, (a + b).len() as int) =~= a.subrange(1, a.len() as int) + b);
        lemma_first_existing_concat(a.subrange(1, a.len() as int), b);
    }
}

/// If no candidate exists, the search comes up empty.
pub proof fn lemma_no_candidate_exists(cs: Seq<Candidate>)
    requires
        forall|i: int| 0 <= i < cs.len() ==> !(#[trigger] cs[i]).exists,
    ensures
        first_existing(cs) is None,
    decreases cs.len(),
{
    if cs.len() > 0 {
        let tail = cs.subrange(1, cs.len() as int);
        assert(forall|i: int| 0 <= i < tail.len() ==> !(#[trigger] tail[i]).exists);
        lemma_no_candidate_exists(tail);
    }
}

/// The caller's observations for one script search: the override candidate
/// if its variable was set, the resolved resource-relative candidates in
/// their fixed order, and the working-directory candidates in their fixed
/// order.
pub struct ScriptProbe {
    /// The override candidate, present exactly when the override variable
    /// was set.
    pub override_script: Option<Candidate>,
    /// The resource-relative candidates the host application resolved, in
    /// search order.
    pub resource_candidates: Vec<Candidate>,
    /// The working-directory candidates, in search order.
    pub cwd_candidates: Vec<Candidate>,
}

/// The override candidate as a (possibly empty) search segment.
pub open spec fn override_seq(p: ScriptProbe) -> Seq<Candidate> {
    match p.override_script {
        Some(c) => seq![c],
        None => Seq::<Candidate>::empty(),
    }
}

/// All candidates in the order they are consulted: the override first, then
/// the resource candidates, then the working-directory candidates.
pub open spec fn probe_candidates(p: ScriptProbe) -> Seq<Candidate> {
    override_seq(p) + p.resource_candidates@ + p.cwd_candidates@
}

/// The search result the locator owes for a probe: the path of the first
/// existing candidate, or nothing.
pub open spec fn located_script_spec(p: ScriptProbe) -> Option<Seq<char>> {
    first_existing(probe_candidates(p))
}

/// The path of the first existing candidate of `cs`, if any.
fn pick_first(cs: &Vec<Candidate>) -> (r: Option<String>)
    ensures
        r matches Some(s) ==> first_existing(cs@) == Some(s@),
        r is None ==> first_existing(cs@) is None,
{
    let mut i: usize = 0;
    proof {
        assert(cs@.subrange(0, cs@.len() as int) =~= cs@);
    }
    while i < cs.len()
        invariant
            i <= cs@.len(),
            first_existing(cs@) == first_existing(cs@.subrange(i as int, cs@.len() as int)),
        decreases cs@.len() - i,
    {
        let c = &cs[i];
        proof {
            assert(cs@.subrange(i as int, cs@.len() as int)[0] == cs@[i as int]);
        }
        if c.exists {
            return Some(c.path.clone());
        }
        proof {
            let tail = cs@.subrange(i as int, cs@.len() as int);
            assert(tail.subrange(1, tail.len() as int) =~= cs@.subrange(
                i as int + 1,
                cs@.len() as int,
            ));
        }
        i = i + 1;
    }
    proof {
        assert(cs@.subrange(i as int, cs@.len() as int) =~= Seq::<Candidate>::empty());
    }
    None
}

/// Run the layered search over the probed candidates: the first existing
/// path wins, in the order override, resources, working directory; an
/// exhausted search returns nothing.
pub fn locate_script(p: &ScriptProbe) -> (r: Option<String>)
    ensures
        r matches Some(s) ==> located_script_spec(*p) == Some(s@),
        r is None ==> located_script_spec(*p) is None,
{
    proof {
        assert(probe_candidates(*p) =~= override_seq(*p) + (p.resource_candidates@
            + p.cwd_candidates@));
        lemma_first_existing_concat(
            override_seq(*p),
            p.resource_candidates@ + p.cwd_candidates@,
        );
        lemma_first_existing_concat(p.resource_candidates@, p.cwd_candidates@);
    }
    if let Some(c) = &p.override_script {
        proof {
            assert(override_seq(*p) =~= seq![*c]);
            assert(override_seq(*p)[0] == *c);
        }
        if c.exists {
            return Some(c.path.clone());
        }
        proof {
            let ov = override_seq(*p);
            assert(ov.len() == 1);
            assert(!ov[0].exists);
            assert(ov.subrange(1, ov.len() as int) =~= Seq::<Candidate>::empty());
            assert(first_existing(Seq::<Candidate>::empty()) is None);
            assert(first_existing(ov) == first_existing(ov.subrange(1, ov.len() as int)));
            assert(first_existing(ov) is None);
        }
    } else {
        proof {
            assert(override_seq(*p) =~= Seq::<Candidate>::empty());
            assert(first_existing(override_seq(*p)) is None);
        }
    }
    let from_resources = pick_first(&p.resource_candidates);
    if let Some(s) = from_resources {
        return Some(s);
    }
    pick_first(&p.cwd_candidates)
}

/// Law: an existing override script is always chosen, regardless of what any
/// other candidate resolves to or whether it exists.
pub proof fn lemma_override_script_wins(p: ScriptProbe, c: Candidate)
    requires
        p.override_script == Some(c),
        c.exists,
    ensures
        located_script_spec(p) == Some(c.path@),
{
    assert(probe_candidates(p)[0] == c);
}

/// Law: when no candidate exists on disk, the locator reports no script.
pub proof fn lemma_no_script_when_nothing_exists(p: ScriptProbe)
    requires
        forall|i: int| 0 <= i < probe_candidates(p).len() ==> !(#[trigger] probe_candidates(
            p,
        )[i]).exists,
    ensures
        located_script_spec(p) is None,
{
    lemma_no_candidate_exists(probe_candidates(p));
}

/// Name of the environment variable that overrides the script path.
pub fn script_override_var() -> (r: &'static str)
    ensures
        r@ == "TRADINGAGENTS_BACKEND_SCRIPT"@,
{
    "TRADINGAGENTS_BACKEND_SCRIPT"
}

/// A candidate path joined from a base directory and a relative name.
pub open spec fn join_path_spec(base: Seq<char>, rel: Seq<char>) -> Seq<char> {
    base + "/"@ + rel
}

/// Join a base directory and a relative name into one candidate path.
pub fn join_path(base: &str, rel: &str) -> (r: String)
    ensures
        r@ == join_path_spec(base@, rel@),
{
    let mut s = base.to_owned();
    s.append("/");
    s.append(rel);
    s
}

/// The resource-relative candidate names for the entry script, in search
/// order: at the resource root, one level up, and two levels up.
pub fn resource_candidate_names() -> (r: Vec<&'static str>)
    ensures
        r@.len() == 3,
        r@[0]@ == "run_backend.py"@,
        r@[1]@ == "../run_backend.py"@,
        r@[2]@ == "../../run_backend.py"@,
{
    let mut v: Vec<&'static str> = Vec::new();
    v.push("run_backend.py");
    v.push("../run_backend.py");
    v.push("../../run_backend.py");
    v
}

/// The working-directory candidate paths for the entry script, in search
/// order: the entry script in the working directory, then one level up.
pub fn cwd_candidate_paths(cwd: &str) -> (r: Vec<String>)
    ensures
        r@.len() == 2,
        r@[0]@ == join_path_spec(cwd@, "run_backend.py"@),
        r@[1]@ == join_path_spec(cwd@, "../run_backend.py"@),
{
    let mut v: Vec<String> = Vec::new();
    v.push(join_path(cwd, "run_backend.py"));
    v.push(join_path(cwd, "../run_backend.py"));
    v
}

} // verus!
