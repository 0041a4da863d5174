//! The environment variable table handed in full to every spawned command.
use vstd::prelude::*;
use vstd::string::*;

verus! {

pub type VarsView = Seq<(Seq<char>, Seq<char>)>;

/// The character sequences that a vector of name/value pairs holds.
pub open spec fn vars_view(v: Seq<(String, String)>) -> VarsView {
    v.map_values(|p: (String, String)| (p.0@, p.1@))
}

/// Position of the last assignment of `key` in `vars`, or -1.
pub open spec fn env_index(vars: VarsView, key: Seq<char>) -> int
    decreases vars.len(),
{
    if vars.len() == 0 {
        -1
    } else if vars.last().0 == key {
        vars.len() - 1
    } else {
        env_index(vars.drop_last(), key)
    }
}

/// The value `key` has in `vars`: its last assignment wins.
pub open spec fn env_get(vars: VarsView, key: Seq<char>) -> Option<Seq<char>> {
    let i = env_index(vars, key);
    if i >= 0 {
        Some(vars[i].1)
    } else {
        None
    }
}

/// `vars` after setting `key` to `value`: an existing entry is replaced in
/// place, a new one goes at the end.
pub open spec fn env_set(vars: VarsView, key: Seq<char>, value: Seq<char>) -> VarsView {
    let i = env_index(vars, key);
    if i >= 0 {
        vars.update(i, (key, value))
    } else {
        vars.push((key, value))
    }
}

/// `env_index` is the last position holding `key`.
pub proof fn lemma_env_index(vars: VarsView, key: Seq<char>)
    ensures
        -1 <= env_index(vars, key) < vars.len(),
        env_index(vars, key) >= 0 ==> vars[env_index(vars, key)].0 == key,
        forall|j: int| env_index(vars, key) < j < vars.len() ==> (#[trigger] vars[j]).0 != key,
    decreases vars.len(),
{
    if vars.len() > 0 && vars.last().0 != key {
        lemma_env_index(vars.drop_last(), key);
        assert forall|j: int| env_index(vars, key) < j < vars.len() implies (#[trigger] vars[j]).0
            != key by {
            if j < vars.len() - 1 {
                assert(vars[j] == vars.drop_last()[j]);
            }
        }
    }
}

/// A position holding `key` with no later one is what `env_index` finds.
pub proof fn lemma_env_index_unique(vars: VarsView, key: Seq<char>, i: int)
    requires
        -1 <= i < vars.len(),
        i >= 0 ==> vars[i].0 == key,
        forall|j: int| i < j < vars.len() ==> (#[trigger] vars[j]).0 != key,
    ensures
        env_index(vars, key) == i,
    decreases vars.len(),
{
    if vars.len() > 0 && i < vars.len() - 1 {
        assert(vars[vars.len() - 1].0 != key);
        assert forall|j: int| i < j < vars.drop_last().len() implies (
        #[trigger] vars.drop_last()[j]).0 != key by {
            assert(vars.drop_last()[j] == vars[j]);
        }
        lemma_env_index_unique(vars.drop_last(), key, i);
    }
}

/// After a variable is set, reading it gives the new value and every other
/// variable keeps its value.
pub proof fn lemma_set_then_get(vars: VarsView, key: Seq<char>, value: Seq<char>, other: Seq<char>)
    ensures
        env_get(env_set(vars, key, value), key) == Some(value),
        other != key ==> env_get(env_set(vars, key, value), other) == env_get(vars, other),
{
    let s = env_set(vars, key, value);
    let i = env_index(vars, key);
    lemma_env_index(vars, key);
    lemma_env_index(vars, other);
    if i >= 0 {
        assert forall|j: int| i < j < s.len() implies (#[trigger] s[j]).0 != key by {
            assert(s[j] == vars[j]);
        }
        lemma_env_index_unique(s, key, i);
        if other != key {
            let o = env_index(vars, other);
            assert(o != i);
            assert forall|j: int| o < j < s.len() implies (#[trigger] s[j]).0 != other by {
                if j != i {
                    assert(s[j] == vars[j]);
                }
            }
            lemma_env_index_unique(s, other, o);
        }
    } else {
        lemma_env_index_unique(s, key, vars.len() as int);
        if other != key {
            let o = env_index(vars, other);
            assert forall|j: int| o < j < s.len() implies (#[trigger] s[j]).0 != other by {
                if j < vars.len() {
                    assert(s[j] == vars[j]);
                }
            }
            lemma_env_index_unique(s, other, o);
        }
    }
}

/// The environment variable table that every spawned command receives a full
/// copy of.
#[derive(Clone, Debug)]
pub struct EnvTable {
    vars: Vec<(String, String)>,
}

impl View for EnvTable {
    type V = VarsView;

    closed spec fn view(&self) -> VarsView {
        vars_view(self.vars@)
    }
}

impl EnvTable {
    /// A table with no variables.
    pub fn new() -> (r: EnvTable)
        ensures
            r@ == Seq::<(Seq<char>, Seq<char>)>::empty(),
    {
        let r = EnvTable { vars: Vec::new() };
        assert(r@ =~= Seq::<(Seq<char>, Seq<char>)>::empty());
        r
    }

    fn index_of(&self, key: &str) -> (r: Option<usize>)
        ensures
            match r {
                Some(i) => i as int == env_index(self@, key@) && i < self.vars@.len(),
                None => env_index(self@, key@) == -1,
            },
    {
        let mut i: usize = self.vars.len();
        while i > 0
            invariant
                0 <= i <= self@.len(),
                self@.len() == self.vars@.len(),
                forall|j: int| i <= j < self@.len() ==> (#[trigger] self@[j]).0 != key@,
            decreases i,
        {
            if self.vars[i - 1].0.as_str().unicode_len() == key.unicode_len() && equal_text(
                self.vars[i - 1].0.as_str(),
                key,
            ) {
                assert(self@[i - 1].0 == key@);
                proof {
                    lemma_env_index_unique(self@, key@, i - 1);
                }
                return Some(i - 1);
            }
            i = i - 1;
        }
        proof {
            lemma_env_index_unique(self@, key@, -1);
        }
        None
    }

    proof fn lemma_view_len(&self)
        ensures
            self@.len() == self.vars@.len(),
            forall|i: int| 0 <= i < self.vars@.len() ==> #[trigger] self@[i] == (self.vars@[i].0@, self.vars@[i].1@),
    {
    }

    /// The value of `key`, if it is set.
    pub fn get(&self, key: &str) -> (r: Option<String>)
        ensures
            match r {
                Some(v) => env_get(self@, key@) == Some(v@),
                None => env_get(self@, key@).is_none(),
            },
    {
        proof {
            self.lemma_view_len();
        }
        match self.index_of(key) {
            Some(i) => Some(self.vars[i].1.clone()),
            None => None,
        }
    }

    /// Set `key` to `value`, replacing an earlier value.
    pub fn set(&mut self, key: &str, value: &str)
        ensures
            final(self)@ == env_set(old(self)@, key@, value@),
    {
        let pair = (String::from_str(key), String::from_str(value));
        proof {
            self.lemma_view_len();
        }
        match self.index_of(key) {
            Some(i) => {
                self.vars.set(i, pair);
            },
            None => {
                self.vars.push(pair);
            },
        }
        assert(self@ =~= env_set(old(self)@, key@, value@));
    }

    /// An explicit copy of every variable, as handed to a child process.
    pub fn vars(&self) -> (r: Vec<(String, String)>)
        ensures
            vars_view(r@) == self@,
    {
        let mut out: Vec<(String, String)> = Vec::new();
        let mut i: usize = 0;
        proof {
            self.lemma_view_len();
        }
        while i < self.vars.len()
            invariant
                0 <= i <= self.vars@.len(),
                self@.len() == self.vars@.len(),
                out@.len() == i,
                vars_view(out@) == self@.subrange(0, i as int),
            decreases self.vars@.len() - i,
        {
            let k = self.vars[i].0.clone();
            let v = self.vars[i].1.clone();
            proof {
                self.lemma_view_len();
            }
            out.push((k, v));
            assert(vars_view(out@)[i as int] == self@[i as int]);
            assert(vars_view(out@) =~= self@.subrange(
                0,
                i + 1,
            ));
            i = i + 1;
        }
        assert(self@.subrange(0, self@.len() as int) =~= self@);
        out
    }

    /// A table holding the given variables, set in order.
    pub fn from_vars(vars: Vec<(String, String)>) -> (r: EnvTable)
        ensures
            forall|k: Seq<char>|
                #![trigger env_get(r@, k)]
                env_get(r@, k) == env_get(vars_view(vars@), k),
    {
        let ghost src = vars_view(vars@);
        let mut t = EnvTable::new();
        let mut i: usize = 0;
        while i < vars.len()
            invariant
                0 <= i <= vars@.len(),
                src == vars_view(vars@),
                forall|k: Seq<char>|
                    #![trigger env_get(t@, k)]
                    env_get(t@, k) == env_get(src.subrange(0, i as int), k),
            decreases vars@.len() - i,
        {
            let ghost before = t@;
            t.set(vars[i].0.as_str(), vars[i].1.as_str());
            proof {
                let pre = src.subrange(0, i as int);
                let post = src.subrange(0, i + 1);
                assert(post =~= pre.push(src[i as int]));
                assert forall|k: Seq<char>| #![trigger env_get(t@, k)] env_get(t@, k) == env_get(post, k) by {
                    lemma_set_then_get(before, src[i as int].0, src[i as int].1, k);
                    lemma_env_index(post, k);
                    if k == src[i as int].0 {
                        lemma_env_index_unique(post, k, i as int);
                    } else {
                        lemma_env_index(pre, k);
                        assert forall|j: int| env_index(pre, k) < j < post.len() implies (
                        #[trigger] post[j]).0 != k by {
                            if j < pre.len() {
                                assert(post[j] == pre[j]);
                            }
                        }
                        lemma_env_index_unique(post, k, env_index(pre, k));
                    }
                }
            }
            i = i + 1;
        }
        assert(src.subrange(0, vars@.len() as int) =~= src);
        t
    }
}

/// Whether two texts are equal, character by character.
pub fn equal_text(a: &str, b: &str) -> (r: bool)
    ensures
        r == (a@ == b@),
{
    let n = a.unicode_len();
    if n != b.unicode_len() {
        return false;
    }
    let mut i: usize = 0;
    while i < n
        invariant
            n == a@.len(),
            n == b@.len(),
            0 <= i <= n,
            forall|k: int| 0 <= k < i ==> a@[k] == b@[k],
        decreases n - i,
    {
        if a.get_char(i) != b.get_char(i) {
            return false;
        }
        i = i + 1;
    }
    assert(a@ =~= b@);
    true
}

} // verus!
