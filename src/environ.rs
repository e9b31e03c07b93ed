//! An explicit view of the process environment.
//!
//! The launcher reads its inputs from an `EnvView` and records its
//! changes there; the caller applies the final view to the process once.

use vstd::prelude::*;

use crate::text::str_eq;

verus! {

/// The value of an environment variable: text, or raw bytes that are not
/// valid UTF-8.
pub enum EnvValue {
    Text(String),
    NonUtf8(Vec<u8>),
}

/// What an `EnvValue` holds.
pub enum EnvValueView {
    Text(Seq<char>),
    NonUtf8(Seq<u8>),
}

impl View for EnvValue {
    type V = EnvValueView;

    open spec fn view(&self) -> EnvValueView {
        match self {
            EnvValue::Text(s) => EnvValueView::Text(s@),
            EnvValue::NonUtf8(b) => EnvValueView::NonUtf8(b@),
        }
    }
}

impl EnvValueView {
    /// Whether the value holds no byte.
    pub open spec fn is_empty(self) -> bool {
        match self {
            EnvValueView::Text(s) => s.len() == 0,
            EnvValueView::NonUtf8(b) => b.len() == 0,
        }
    }
}

impl EnvValue {
    /// A text value.
    pub fn text(s: &str) -> (r: EnvValue)
        ensures
            r@ == EnvValueView::Text(s@),
    {
        EnvValue::Text(s.to_owned())
    }

    /// A copy of this value.
    pub fn duplicate(&self) -> (r: EnvValue)
        ensures
            r@ == self@,
    {
        match self {
            EnvValue::Text(s) => EnvValue::Text(s.clone()),
            EnvValue::NonUtf8(b) => {
                let mut c: Vec<u8> = Vec::new();
                let mut i: usize = 0;
                while i < b.len()
                    invariant
                        i <= b@.len(),
                        c@ == b@.subrange(0, i as int),
                    decreases b@.len() - i,
                {
                    c.push(b[i]);
                    i = i + 1;
                }
                assert(c@ == b@);
                EnvValue::NonUtf8(c)
            },
        }
    }

    /// Whether the value holds no byte.
    pub fn is_empty(&self) -> (r: bool)
        ensures
            r == self@.is_empty(),
    {
        match self {
            EnvValue::Text(s) => s.as_str().is_empty(),
            EnvValue::NonUtf8(b) => b.len() == 0,
        }
    }
}

/// The value bound to `name` in `vars`: the first binding of that name.
pub open spec fn lookup(vars: Seq<(Seq<char>, EnvValueView)>, name: Seq<char>) -> Option<EnvValueView>
    decreases vars.len(),
{
    if vars.len() == 0 {
        None
    } else if vars[0].0 == name {
        Some(vars[0].1)
    } else {
        lookup(vars.drop_first(), name)
    }
}

/// The variables of an environment, in order.
pub struct EnvView {
    pub vars: Vec<(String, EnvValue)>,
}

impl View for EnvView {
    type V = Seq<(Seq<char>, EnvValueView)>;

    open spec fn view(&self) -> Seq<(Seq<char>, EnvValueView)> {
        self.vars@.map_values(|e: (String, EnvValue)| (e.0@, e.1@))
    }
}

impl EnvView {
    /// The value of the variable `name`, if it is set.
    pub open spec fn var(self, name: Seq<char>) -> Option<EnvValueView> {
        lookup(self@, name)
    }

    /// Whether `name` is set to a value that is not empty.
    pub open spec fn is_set(self, name: Seq<char>) -> bool {
        self.var(name) matches Some(v) && !v.is_empty()
    }

    /// An environment with no variable.
    pub fn new() -> (r: EnvView)
        ensures
            r@.len() == 0,
            forall|n: Seq<char>| r.var(n) is None,
    {
        EnvView { vars: Vec::new() }
    }

    /// Adds a binding after the existing ones.
    pub fn push(&mut self, name: String, value: EnvValue)
        ensures
            final(self)@ == old(self)@.push((name@, value@)),
    {
        self.vars.push((name, value));
        assert(final(self)@ =~= old(self)@.push((name@, value@)));
    }

    fn index_of(&self, name: &str) -> (r: Option<usize>)
        ensures
            match r {
                Some(i) => i < self@.len() && self@[i as int].0 == name@ && lookup(self@, name@)
                    == Some(self@[i as int].1) && lookup(self@.subrange(0, i as int), name@) is None,
                None => lookup(self@, name@) is None,
            },
    {
        let mut i: usize = 0;
        while i < self.vars.len()
            invariant
                i <= self@.len(),
                self@.len() == self.vars@.len(),
                lookup(self@.subrange(0, i as int), name@) is None,
            decreases self@.len() - i,
        {
            let found = str_eq(self.vars[i].0.as_str(), name);
            proof {
                let pre = self@.subrange(0, i as int);
                let one = seq![self@[i as int]];
                let post = self@.subrange(i + 1, self@.len() as int);
                assert(self@.subrange(0, i + 1) =~= pre + one);
                assert(self@ =~= (pre + one) + post);
                lemma_lookup_concat(pre, one, name@);
                lemma_lookup_concat(pre + one, post, name@);
                lemma_lookup_single(self@[i as int], name@);
            }
            if found {
                return Some(i);
            }
            i = i + 1;
        }
        assert(self@.subrange(0, i as int) =~= self@);
        None
    }

    /// The value of the variable `name`, if it is set.
    pub fn get(&self, name: &str) -> (r: Option<&EnvValue>)
        ensures
            match r {
                Some(v) => self.var(name@) == Some(v@),
                None => self.var(name@) is None,
            },
    {
        match self.index_of(name) {
            Some(i) => Some(&self.vars[i].1),
            None => None,
        }
    }

    /// Binds `name` to `value`, replacing its current value if it has one.
    pub fn set(&mut self, name: String, value: EnvValue)
        ensures
            final(self).var(name@) == Some(value@),
            forall|n: Seq<char>| n != name@ ==> final(self).var(n) == old(self).var(n),
    {
        match self.index_of(name.as_str()) {
            Some(i) => {
                let ghost nm = name@;
                let ghost v = value@;
                self.vars.set(i, (name, value));
                assert(final(self)@ =~= old(self)@.update(i as int, (nm, v)));
                proof {
                    lemma_lookup_update(old(self)@, i as int, nm, v);
                }
            },
            None => {
                let ghost nm = name@;
                let ghost v = value@;
                self.vars.push((name, value));
                assert(final(self)@ =~= old(self)@.push((nm, v)));
                proof {
                    lemma_lookup_push(old(self)@, nm, v);
                }
            },
        }
    }
}

/// The first binding of `name` in `a + b` is its first binding in `a`,
/// or else its first binding in `b`.
proof fn lemma_lookup_concat(
    a: Seq<(Seq<char>, EnvValueView)>,
    b: Seq<(Seq<char>, EnvValueView)>,
    name: Seq<char>,
)
    ensures
        lookup(a + b, name) == match lookup(a, name) {
            Some(v) => Some(v),
            None => lookup(b, name),
        },
    decreases a.len(),
{
    if a.len() > 0 {
        assert((a + b).drop_first() =~= a.drop_first() + b);
        lemma_lookup_concat(a.drop_first(), b, name);
    } else {
        assert(a + b =~= b);
    }
}

proof fn lemma_lookup_single(e: (Seq<char>, EnvValueView), name: Seq<char>)
    ensures
        lookup(seq![e], name) == if e.0 == name { Some(e.1) } else { None::<EnvValueView> },
{
    let one = seq![e];
    assert(one.drop_first() =~= Seq::<(Seq<char>, EnvValueView)>::empty());
    assert(one[0] == e);
    assert(lookup(one.drop_first(), name) is None);
}

proof fn lemma_lookup_push(vars: Seq<(Seq<char>, EnvValueView)>, name: Seq<char>, v: EnvValueView)
    requires
        lookup(vars, name) is None,
    ensures
        lookup(vars.push((name, v)), name) == Some(v),
        forall|n: Seq<char>| n != name ==> lookup(vars.push((name, v)), n) == lookup(vars, n),
{
    let one = seq![(name, v)];
    assert(vars.push((name, v)) =~= vars + one);
    lemma_lookup_single((name, v), name);
    lemma_lookup_concat(vars, one, name);
    assert forall|n: Seq<char>| n != name implies lookup(vars.push((name, v)), n) == lookup(vars, n) by {
        lemma_lookup_single((name, v), n);
        lemma_lookup_concat(vars, one, n);
    }
}

proof fn lemma_lookup_update(
    vars: Seq<(Seq<char>, EnvValueView)>,
    i: int,
    name: Seq<char>,
    v: EnvValueView,
)
    requires
        0 <= i < vars.len(),
        vars[i].0 == name,
        lookup(vars.subrange(0, i), name) is None,
    ensures
        lookup(vars.update(i, (name, v)), name) == Some(v),
        forall|n: Seq<char>| n != name ==> lookup(vars.update(i, (name, v)), n) == lookup(vars, n),
{
    let pre = vars.subrange(0, i);
    let post = vars.subrange(i + 1, vars.len() as int);
    let old_one = seq![vars[i]];
    let new_one = seq![(name, v)];
    assert(vars =~= (pre + old_one) + post);
    assert(vars.update(i, (name, v)) =~= (pre + new_one) + post);
    lemma_lookup_single((name, v), name);
    lemma_lookup_concat(pre, new_one, name);
    lemma_lookup_concat(pre + new_one, post, name);
    assert forall|n: Seq<char>| n != name implies lookup(vars.update(i, (name, v)), n) == lookup(vars, n) by {
        lemma_lookup_single((name, v), n);
        lemma_lookup_single(vars[i], n);
        lemma_lookup_concat(pre, new_one, n);
        lemma_lookup_concat(pre + new_one, post, n);
        lemma_lookup_concat(pre, old_one, n);
        lemma_lookup_concat(pre + old_one, post, n);
    }
}

} // verus!
