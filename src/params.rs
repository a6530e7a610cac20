//! Query parameters: named text values, each name at most once, kept in
//! the order in which the names were first set.
use vstd::prelude::*;

verus! {

/// One parameter as text: its name and its value.
pub type ParamView = (Seq<char>, Seq<char>);

/// No name occurs twice in `ps`.
pub open spec fn unique_names(ps: Seq<ParamView>) -> bool {
    forall|i: int, j: int|
        0 <= i < ps.len() && 0 <= j < ps.len() && i != j ==> #[trigger] ps[i].0 != #[trigger] ps[j].0
}

/// `ps` holds a parameter named `name`.
pub open spec fn has_name(ps: Seq<ParamView>, name: Seq<char>) -> bool {
    exists|i: int| 0 <= i < ps.len() && #[trigger] ps[i].0 == name
}

/// `ps` after setting `name` to `value`: an existing parameter of that name
/// takes the new value in place; otherwise the parameter goes at the end.
pub open spec fn set_param(ps: Seq<ParamView>, name: Seq<char>, value: Seq<char>) -> Seq<ParamView> {
    if has_name(ps, name) {
        let i = choose|i: int| 0 <= i < ps.len() && #[trigger] ps[i].0 == name;
        ps.update(i, (name, value))
    } else {
        ps.push((name, value))
    }
}

/// Setting a name twice is the same as setting it once to the second value:
/// a later value replaces an earlier one and the name's place is kept.
pub proof fn lemma_set_twice(ps: Seq<ParamView>, name: Seq<char>, v1: Seq<char>, v2: Seq<char>)
    requires
        unique_names(ps),
    ensures
        set_param(set_param(ps, name, v1), name, v2) == set_param(ps, name, v2),
{
    let ps1 = set_param(ps, name, v1);
    if has_name(ps, name) {
        let i = choose|i: int| 0 <= i < ps.len() && #[trigger] ps[i].0 == name;
        assert(ps1[i].0 == name);
        let j = choose|j: int| 0 <= j < ps1.len() && #[trigger] ps1[j].0 == name;
        if j != i {
            assert(ps[j].0 == ps1[j].0);
        }
        assert(j == i);
        assert(ps1.update(i, (name, v2)) =~= ps.update(i, (name, v2)));
    } else {
        let n = ps.len() as int;
        assert(ps1[n].0 == name);
        let j = choose|j: int| 0 <= j < ps1.len() && #[trigger] ps1[j].0 == name;
        if j < n {
            assert(ps[j].0 == ps1[j].0);
        }
        assert(ps1.update(n, (name, v2)) =~= ps.push((name, v2)));
    }
}

/// Setting a name keeps the names unique.
pub proof fn lemma_set_unique(ps: Seq<ParamView>, name: Seq<char>, value: Seq<char>)
    requires
        unique_names(ps),
    ensures
        unique_names(set_param(ps, name, value)),
        has_name(set_param(ps, name, value), name),
{
    let qs = set_param(ps, name, value);
    if has_name(ps, name) {
        let i = choose|i: int| 0 <= i < ps.len() && #[trigger] ps[i].0 == name;
        assert(qs[i].0 == name);
        assert forall|a: int, b: int|
            0 <= a < qs.len() && 0 <= b < qs.len() && a != b implies #[trigger] qs[a].0
            != #[trigger] qs[b].0 by {
            assert(qs[a].0 == ps[a].0);
            assert(qs[b].0 == ps[b].0);
        }
    } else {
        assert(qs[ps.len() as int].0 == name);
        assert forall|a: int, b: int|
            0 <= a < qs.len() && 0 <= b < qs.len() && a != b implies #[trigger] qs[a].0
            != #[trigger] qs[b].0 by {
            if a < ps.len() {
                assert(qs[a].0 == ps[a].0);
            }
            if b < ps.len() {
                assert(qs[b].0 == ps[b].0);
            }
        }
    }
}

pub open spec fn pair_view(p: (String, String)) -> ParamView {
    (p.0@, p.1@)
}

/// Named text values for a query string.
pub struct QueryParams {
    pairs: Vec<(String, String)>,
}

impl View for QueryParams {
    type V = Seq<ParamView>;

    closed spec fn view(&self) -> Seq<ParamView> {
        self.pairs@.map_values(|p: (String, String)| pair_view(p))
    }
}

impl QueryParams {
    /// Names are unique.
    pub open spec fn wf(&self) -> bool {
        unique_names(self@)
    }

    /// No parameters.
    pub fn new() -> (r: QueryParams)
        ensures
            r@ == Seq::<ParamView>::empty(),
            r.wf(),
    {
        let r = QueryParams { pairs: Vec::new() };
        assert(r@ =~= Seq::<ParamView>::empty());
        r
    }

    /// The number of parameters.
    pub fn len(&self) -> (r: usize)
        ensures
            r == self@.len(),
    {
        self.pairs.len()
    }

    /// Sets the parameter `name` to `value`.
    pub fn set(&mut self, name: &str, value: String)
        requires
            old(self).wf(),
        ensures
            final(self)@ == set_param(old(self)@, name@, value@),
            final(self).wf(),
    {
        let ghost ps = self@;
        let key = String::from_str(name);
        let n = self.pairs.len();
        let mut i: usize = 0;
        while i < n
            invariant
                n == self.pairs@.len(),
                self@ == ps,
                ps == old(self)@,
                key@ == name@,
                unique_names(ps),
                i <= n,
                forall|j: int| 0 <= j < i ==> #[trigger] ps[j].0 != name@,
            decreases n - i,
        {
            assert(ps[i as int] == pair_view(self.pairs@[i as int]));
            if self.pairs[i].0 == key {
                self.pairs.set(i, (key, value));
                proof {
                    assert(ps[i as int].0 == name@);
                    assert(has_name(ps, name@));
                    let k = choose|k: int| 0 <= k < ps.len() && #[trigger] ps[k].0 == name@;
                    assert(k == i as int);
                    assert(self@ =~= ps.update(i as int, (name@, value@)));
                    assert(set_param(ps, name@, value@) == ps.update(i as int, (name@, value@)));
                    let qs = self@;
                    assert forall|a: int, b: int|
                        0 <= a < qs.len() && 0 <= b < qs.len() && a != b implies #[trigger] qs[a].0
                        != #[trigger] qs[b].0 by {
                        assert(qs[a].0 == ps[a].0);
                        assert(qs[b].0 == ps[b].0);
                    }
                }
                return;
            }
            i = i + 1;
        }
        self.pairs.push((key, value));
        proof {
            assert(!has_name(ps, name@));
            assert(self@ =~= ps.push((name@, value@)));
            let qs = self@;
            assert forall|a: int, b: int|
                0 <= a < qs.len() && 0 <= b < qs.len() && a != b implies #[trigger] qs[a].0
                != #[trigger] qs[b].0 by {
                if a < ps.len() {
                    assert(qs[a].0 == ps[a].0);
                }
                if b < ps.len() {
                    assert(qs[b].0 == ps[b].0);
                }
            }
        }
    }

    /// The parameters, in order.
    pub fn pairs(&self) -> (r: &Vec<(String, String)>)
        ensures
            r@.map_values(|p: (String, String)| pair_view(p)) == self@,
    {
        &self.pairs
    }
}

} // verus!
