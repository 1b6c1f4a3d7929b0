use vstd::prelude::*;
use vstd::string::StringExecFns;
use crate::text::decimal;
use crate::text::decimal_spec;

verus! {

/// One remote repository's summary.
#[derive(Debug, Clone)]
pub struct Repo {
    pub id: usize,
    pub url: String,
    pub name: String,
    pub description: Option<String>,
    pub stargazers_count: usize,
}

/// The human-readable rendering of a repository: its stars, its name and,
/// when it has one, its description, one to a line.
pub open spec fn render_spec(r: Repo) -> Seq<char> {
    let desc = match r.description {
        Some(d) => "desc: "@ + d@,
        None => Seq::<char>::empty(),
    };
    "stars: "@ + decimal_spec(r.stargazers_count as nat) + "\nname: "@ + r.name@ + "\n"@ + desc
}

/// The canonical order: `a` may stand before `b` when it has at least as many stars.
pub open spec fn stands_before(a: Repo, b: Repo) -> bool {
    a.stargazers_count >= b.stargazers_count
}

/// A sequence is canonically sorted when star counts never increase along it.
pub open spec fn sorted_by_stars(s: Seq<Repo>) -> bool {
    forall|i: int, j: int| 0 <= i < j < s.len() ==> stands_before(#[trigger] s[i], #[trigger] s[j])
}

/// Holds of the repositories with exactly `k` stars.
pub open spec fn stars_is(k: usize) -> spec_fn(Repo) -> bool {
    |r: Repo| r.stargazers_count == k
}

/// The repositories of `s` with exactly `k` stars, in their order in `s`.
pub open spec fn with_stars(s: Seq<Repo>, k: usize) -> Seq<Repo> {
    s.filter(stars_is(k))
}

/// Inserting `x` at `j` into `p`, after all repositories with at least as
/// many stars and before all with fewer, puts it last among its ties.
proof fn lemma_insert_after_ties(p: Seq<Repo>, j: int, x: Repo, k: usize)
    requires
        0 <= j <= p.len(),
        forall|t: int| j <= t < p.len() ==> #[trigger] p[t].stargazers_count < x.stargazers_count,
    ensures
        with_stars(p.subrange(0, j).push(x) + p.subrange(j, p.len() as int), k) == if x.stargazers_count == k {
            with_stars(p, k).push(x)
        } else {
            with_stars(p, k)
        },
{
    let pred = stars_is(k);
    let a = p.subrange(0, j);
    let b = p.subrange(j, p.len() as int);
    assert(p == a + b);
    Seq::filter_distributes_over_add(a.push(x), b, pred);
    Seq::filter_distributes_over_add(a, b, pred);
    a.lemma_filter_push(x, pred);
    if x.stargazers_count == k {
        assert(b.all(|y: Repo| !pred(y))) by {
            assert forall|t: int| 0 <= t < b.len() implies !pred(#[trigger] b[t]) by {
                assert(b[t] == p[j + t]);
            }
        }
        b.lemma_all_neg_filter_empty(pred);
        assert(b.filter(pred) == Seq::<Repo>::empty());
        assert(a.filter(pred).push(x) + b.filter(pred) == (a.filter(pred) + b.filter(pred)).push(x));
    }
}

impl Repo {
    /// Renders the repository as `stars: <n>`, `name: <name>` and, only when a
    /// description is present, `desc: <description>`.
    pub fn render(&self) -> (r: String)
        ensures
            r@ == render_spec(*self),
    {
        let mut out = String::from_str("stars: ");
        let n = decimal(self.stargazers_count);
        out.append(n.as_str());
        out.append("\nname: ");
        out.append(self.name.as_str());
        out.append("\n");
        match &self.description {
            Some(d) => {
                out.append("desc: ");
                out.append(d.as_str());
            },
            None => {},
        }
        out
    }
}

/// Two repositories compare equal when their star counts are equal.
impl PartialEq for Repo {
    fn eq(&self, other: &Repo) -> (r: bool) {
        self.stargazers_count == other.stargazers_count
    }
}

impl vstd::std_specs::cmp::PartialEqSpecImpl for Repo {
    open spec fn obeys_eq_spec() -> bool {
        true
    }

    open spec fn eq_spec(&self, other: &Repo) -> bool {
        self.stargazers_count == other.stargazers_count
    }
}

/// Repositories order descending by star count: the one with more stars is the lesser.
impl PartialOrd for Repo {
    fn partial_cmp(&self, other: &Repo) -> (r: Option<core::cmp::Ordering>) {
        if other.stargazers_count < self.stargazers_count {
            Some(core::cmp::Ordering::Less)
        } else if other.stargazers_count == self.stargazers_count {
            Some(core::cmp::Ordering::Equal)
        } else {
            Some(core::cmp::Ordering::Greater)
        }
    }
}

impl vstd::std_specs::cmp::PartialOrdSpecImpl for Repo {
    open spec fn obeys_partial_cmp_spec() -> bool {
        true
    }

    open spec fn partial_cmp_spec(&self, other: &Repo) -> Option<core::cmp::Ordering> {
        if other.stargazers_count < self.stargazers_count {
            Some(core::cmp::Ordering::Less)
        } else if other.stargazers_count == self.stargazers_count {
            Some(core::cmp::Ordering::Equal)
        } else {
            Some(core::cmp::Ordering::Greater)
        }
    }
}

/// Sorts repositories descending by star count, in place. The sort is stable:
/// repositories with equal star counts keep their order of arrival.
pub fn sort_by_stars(v: &mut Vec<Repo>)
    ensures
        sorted_by_stars(final(v)@),
        final(v)@.to_multiset() == old(v)@.to_multiset(),
        final(v)@.len() == old(v)@.len(),
        forall|k: usize| #[trigger] with_stars(final(v)@, k) == with_stars(old(v)@, k),
{
    broadcast use vstd::seq_lib::group_to_multiset_ensures;
    let n = v.len();
    let mut i: usize = 1;
    if n == 0 {
        assert(v@ == old(v)@);
        return;
    }
    assert(v@.subrange(0, 1) == old(v)@.subrange(0, 1));
    while i < n
        invariant
            1 <= i <= n,
            n == v@.len(),
            n == old(v)@.len(),
            sorted_by_stars(v@.subrange(0, i as int)),
            v@.to_multiset() == old(v)@.to_multiset(),
            v@.subrange(i as int, n as int) == old(v)@.subrange(i as int, n as int),
            forall|k: usize| #[trigger] with_stars(v@.subrange(0, i as int), k)
                == with_stars(old(v)@.subrange(0, i as int), k),
        decreases n - i,
    {
        let ghost before = v@;
        let x = v.remove(i);
        let ghost pre = v@;
        let mut j: usize = 0;
        while j < i && v[j].stargazers_count >= x.stargazers_count
            invariant
                0 <= j <= i,
                i < n,
                v@ == pre,
                pre.len() == n - 1,
                sorted_by_stars(pre.subrange(0, i as int)),
                forall|k: int| 0 <= k < j ==> pre[k].stargazers_count >= x.stargazers_count,
            decreases i - j,
        {
            j = j + 1;
        }
        proof {
            assert forall|k: int| j <= k < i implies pre[k].stargazers_count < x.stargazers_count by {
                if j < i {
                    assert(pre.subrange(0, i as int)[j as int] == pre[j as int]);
                    assert(pre.subrange(0, i as int)[k] == pre[k]);
                    if k > j {
                        assert(stands_before(pre.subrange(0, i as int)[j as int], pre.subrange(0, i as int)[k]));
                    }
                }
            }
        }
        v.insert(j, x);
        proof {
            vstd::seq_lib::to_multiset_remove(before, i as int);
            vstd::seq_lib::to_multiset_insert(pre, j as int, x);
            assert(before[i as int] == x);
            assert(before.contains(x));
            vstd::seq_lib::to_multiset_contains(before, x);
            assert(before.to_multiset().remove(x).insert(x) =~= before.to_multiset()) by {
                broadcast use vstd::multiset::group_multiset_axioms;
            }
            let s = v@.subrange(0, i as int + 1);
            assert forall|a: int, b: int| 0 <= a < b < s.len() implies stands_before(#[trigger] s[a], #[trigger] s[b]) by {
                let p = pre.subrange(0, i as int);
                if b < j {
                    assert(s[a] == p[a] && s[b] == p[b]);
                } else if b == j {
                    assert(s[a] == pre[a]);
                } else if a < j {
                    assert(s[a] == p[a] && s[b] == p[b - 1]);
                    assert(stands_before(p[a], p[b - 1]));
                } else if a == j {
                    assert(s[b] == pre[b - 1]);
                } else {
                    assert(s[a] == p[a - 1] && s[b] == p[b - 1]);
                    assert(stands_before(p[a - 1], p[b - 1]));
                }
            }
        }
        proof {
            let o = old(v)@;
            let p = pre.subrange(0, i as int);
            assert(before.subrange(0, i as int) == p);
            assert(x == o[i as int]) by {
                assert(before.subrange(i as int, n as int)[0] == o.subrange(i as int, n as int)[0]);
            }
            assert(v@.subrange(0, i as int + 1) == p.subrange(0, j as int).push(x) + p.subrange(j as int, i as int));
            assert(o.subrange(0, i as int + 1) == o.subrange(0, i as int).push(x));
            assert forall|k: usize| #[trigger] with_stars(v@.subrange(0, i as int + 1), k)
                == with_stars(o.subrange(0, i as int + 1), k) by {
                lemma_insert_after_ties(p, j as int, x, k);
                o.subrange(0, i as int).lemma_filter_push(x, stars_is(k));
            }
            assert(v@.subrange(i as int + 1, n as int) == o.subrange(i as int + 1, n as int)) by {
                assert forall|t: int| 0 <= t < n - i - 1 implies #[trigger] v@.subrange(i as int + 1, n as int)[t]
                    == o.subrange(i as int + 1, n as int)[t] by {
                    assert(v@[i + 1 + t] == pre[i + t]);
                    assert(pre[i + t] == before[i + 1 + t]);
                    assert(before[i + 1 + t] == before.subrange(i as int, n as int)[1 + t]);
                }
            }
        }
        i = i + 1;
    }
    assert(v@.subrange(0, n as int) == v@);
    assert(old(v)@.subrange(0, n as int) == old(v)@);
}

} // verus!
