//! The changes that a child's environment gets on top of the parent's, and
//! the environment that results.
use vstd::prelude::*;

use crate::bytes::{bytes_eq, contains_nul, copy_bytes, has_nul, join_with};

verus! {

/// A variable's name and, where it is set, its value; `None` removes it.
pub type Change = (Vec<u8>, Option<Vec<u8>>);

/// A variable's name and value.
pub type Var = (Vec<u8>, Vec<u8>);

pub open spec fn opt_view(o: Option<Vec<u8>>) -> Option<Seq<u8>> {
    match o {
        Some(v) => Some(v@),
        None => None,
    }
}

pub open spec fn change_view(c: Change) -> (Seq<u8>, Option<Seq<u8>>) {
    (c.0@, opt_view(c.1))
}

pub open spec fn var_view(v: Var) -> (Seq<u8>, Seq<u8>) {
    (v.0@, v.1@)
}

pub open spec fn vars_view(s: Seq<Var>) -> Seq<(Seq<u8>, Seq<u8>)> {
    s.map_values(|v: Var| var_view(v))
}

/// Whether a list of changes names a variable.
pub open spec fn names(changes: Seq<(Seq<u8>, Option<Seq<u8>>)>, key: Seq<u8>) -> bool {
    exists|i: int| 0 <= i < changes.len() && changes[i].0 == key
}

/// Where a list of changes names a variable.
pub open spec fn name_index(changes: Seq<(Seq<u8>, Option<Seq<u8>>)>, key: Seq<u8>) -> Option<int> {
    if names(changes, key) {
        Some(choose|i: int| 0 <= i < changes.len() && changes[i].0 == key)
    } else {
        None
    }
}

/// The changes with `c` in place of the change that names its variable, or
/// after the others if none does.
pub open spec fn with_change(
    changes: Seq<(Seq<u8>, Option<Seq<u8>>)>,
    c: (Seq<u8>, Option<Seq<u8>>),
) -> Seq<(Seq<u8>, Option<Seq<u8>>)> {
    match name_index(changes, c.0) {
        Some(i) => changes.update(i, c),
        None => changes.push(c),
    }
}

/// The changes without the one that names `key`.
pub open spec fn without_name(changes: Seq<(Seq<u8>, Option<Seq<u8>>)>, key: Seq<u8>) -> Seq<
    (Seq<u8>, Option<Seq<u8>>),
> {
    match name_index(changes, key) {
        Some(i) => changes.remove(i),
        None => changes,
    }
}

/// The changes after setting each of `vars` in turn.
pub open spec fn with_all(changes: Seq<(Seq<u8>, Option<Seq<u8>>)>, vars: Seq<(Seq<u8>, Seq<u8>)>) -> Seq<
    (Seq<u8>, Option<Seq<u8>>),
>
    decreases vars.len(),
{
    if vars.len() == 0 {
        changes
    } else {
        with_change(with_all(changes, vars.drop_last()), (vars.last().0, Some(vars.last().1)))
    }
}

/// Whether a name is `PATH`.
pub open spec fn is_path(key: Seq<u8>) -> bool {
    key == seq![0x50u8, 0x41u8, 0x54u8, 0x48u8]
}

/// The variables of `base` that no change names, in their order.
pub open spec fn kept_base(base: Seq<(Seq<u8>, Seq<u8>)>, changes: Seq<(Seq<u8>, Option<Seq<u8>>)>) -> Seq<
    (Seq<u8>, Seq<u8>),
>
    decreases base.len(),
{
    if base.len() == 0 {
        seq![]
    } else {
        let rest = kept_base(base.drop_last(), changes);
        if names(changes, base.last().0) {
            rest
        } else {
            rest.push(base.last())
        }
    }
}

/// The variables that the changes set, in their order.
pub open spec fn set_values(changes: Seq<(Seq<u8>, Option<Seq<u8>>)>) -> Seq<(Seq<u8>, Seq<u8>)>
    decreases changes.len(),
{
    if changes.len() == 0 {
        seq![]
    } else {
        let rest = set_values(changes.drop_last());
        match changes.last().1 {
            Some(v) => rest.push((changes.last().0, v)),
            None => rest,
        }
    }
}

/// The environment that results from the changes: the base's variables that
/// no change names (none if the base was cleared), then those the changes set.
pub open spec fn captured(
    cleared: bool,
    changes: Seq<(Seq<u8>, Option<Seq<u8>>)>,
    base: Seq<(Seq<u8>, Seq<u8>)>,
) -> Seq<(Seq<u8>, Seq<u8>)> {
    (if cleared {
        seq![]
    } else {
        kept_base(base, changes)
    }) + set_values(changes)
}

proof fn lemma_kept_base_has(
    base: Seq<(Seq<u8>, Seq<u8>)>,
    changes: Seq<(Seq<u8>, Option<Seq<u8>>)>,
    e: (Seq<u8>, Seq<u8>),
)
    ensures
        kept_base(base, changes).contains(e) <==> (base.contains(e) && !names(changes, e.0)),
    decreases base.len(),
{
    if base.len() > 0 {
        let init = base.drop_last();
        lemma_kept_base_has(init, changes, e);
        assert(base =~= init.push(base.last()));
        if base.contains(e) && !names(changes, e.0) {
            let i = choose|i: int| 0 <= i < base.len() && base[i] == e;
            if i < base.len() - 1 {
                assert(init[i] == e);
            }
        }
        if init.contains(e) {
            let i = choose|i: int| 0 <= i < init.len() && init[i] == e;
            assert(base[i] == e);
        }
        let rest = kept_base(init, changes);
        if !names(changes, base.last().0) {
            if rest.push(base.last()).contains(e) {
                let i = choose|i: int| 0 <= i < rest.len() + 1 && rest.push(base.last())[i] == e;
                if i < rest.len() {
                    assert(rest[i] == e);
                }
            }
            if rest.contains(e) {
                let i = choose|i: int| 0 <= i < rest.len() && rest[i] == e;
                assert(rest.push(base.last())[i] == e);
            }
            assert(rest.push(base.last())[rest.len() as int] == base.last());
        }
    }
}

proof fn lemma_set_values_has(changes: Seq<(Seq<u8>, Option<Seq<u8>>)>, e: (Seq<u8>, Seq<u8>))
    ensures
        set_values(changes).contains(e) <==> changes.contains((e.0, Some(e.1))),
    decreases changes.len(),
{
    if changes.len() > 0 {
        let init = changes.drop_last();
        lemma_set_values_has(init, e);
        assert(changes =~= init.push(changes.last()));
        let rest = set_values(init);
        if changes.contains((e.0, Some(e.1))) {
            let i = choose|i: int| 0 <= i < changes.len() && changes[i] == (e.0, Some(e.1));
            if i < changes.len() - 1 {
                assert(init[i] == (e.0, Some(e.1)));
            }
        }
        if init.contains((e.0, Some(e.1))) {
            let i = choose|i: int| 0 <= i < init.len() && init[i] == (e.0, Some(e.1));
            assert(changes[i] == (e.0, Some(e.1)));
        }
        match changes.last().1 {
            Some(v) => {
                let last = (changes.last().0, v);
                if rest.push(last).contains(e) {
                    let i = choose|i: int| 0 <= i < rest.len() + 1 && rest.push(last)[i] == e;
                    if i < rest.len() {
                        assert(rest[i] == e);
                    }
                }
                if rest.contains(e) {
                    let i = choose|i: int| 0 <= i < rest.len() && rest[i] == e;
                    assert(rest.push(last)[i] == e);
                }
                assert(rest.push(last)[rest.len() as int] == last);
            },
            None => {},
        }
    }
}

/// The child's environment holds a variable with a value exactly when a
/// change sets it to that value, or when the parent's environment is kept,
/// holds it, and no change names it.
pub proof fn lemma_captured_has(
    cleared: bool,
    changes: Seq<(Seq<u8>, Option<Seq<u8>>)>,
    base: Seq<(Seq<u8>, Seq<u8>)>,
    name: Seq<u8>,
    value: Seq<u8>,
)
    ensures
        captured(cleared, changes, base).contains((name, value)) <==> (changes.contains(
            (name, Some(value)),
        ) || (!cleared && base.contains((name, value)) && !names(changes, name))),
{
    let e = (name, value);
    let head: Seq<(Seq<u8>, Seq<u8>)> = if cleared {
        seq![]
    } else {
        kept_base(base, changes)
    };
    let tail = set_values(changes);
    lemma_set_values_has(changes, e);
    if !cleared {
        lemma_kept_base_has(base, changes, e);
    }
    let all = head + tail;
    if all.contains(e) {
        let i = choose|i: int| 0 <= i < all.len() && all[i] == e;
        if i < head.len() {
            assert(head[i] == e);
        } else {
            assert(tail[i - head.len()] == e);
        }
    }
    if head.contains(e) {
        let i = choose|i: int| 0 <= i < head.len() && head[i] == e;
        assert(all[i] == e);
    }
    if tail.contains(e) {
        let i = choose|i: int| 0 <= i < tail.len() && tail[i] == e;
        assert(all[head.len() + i] == e);
    }
}

/// The `NAME=value` entries of a list of variables, leaving out those that
/// hold a NUL byte.
pub open spec fn envp_of(vars: Seq<(Seq<u8>, Seq<u8>)>) -> Seq<Seq<u8>>
    decreases vars.len(),
{
    if vars.len() == 0 {
        seq![]
    } else {
        let rest = envp_of(vars.drop_last());
        let entry = vars.last().0.push(0x3d) + vars.last().1;
        if has_nul(entry) {
            rest
        } else {
            rest.push(entry)
        }
    }
}

/// Whether some variable's `NAME=value` entry holds a NUL byte.
pub open spec fn any_nul(vars: Seq<(Seq<u8>, Seq<u8>)>) -> bool {
    exists|i: int| 0 <= i < vars.len() && has_nul(vars[i].0.push(0x3d) + vars[i].1)
}

/// The changes to a child's environment.
#[derive(Debug)]
pub struct CommandEnv {
    clear: bool,
    saw_path: bool,
    vars: Vec<Change>,
}

impl CommandEnv {
    /// The changes, in the order in which their names first came.
    pub closed spec fn changes(&self) -> Seq<(Seq<u8>, Option<Seq<u8>>)> {
        self.vars@.map_values(|c: Change| change_view(c))
    }

    /// Whether the parent's environment is left out.
    pub closed spec fn cleared(&self) -> bool {
        self.clear
    }

    /// Whether a change named `PATH`.
    pub closed spec fn saw_path(&self) -> bool {
        self.saw_path
    }

    /// No name comes twice among the changes.
    pub open spec fn wf(&self) -> bool {
        forall|i: int, j: int|
            0 <= i < j < self.changes().len() ==> self.changes()[i].0 != self.changes()[j].0
    }

    /// No changes.
    pub fn new() -> (r: CommandEnv)
        ensures
            r.wf(),
            !r.cleared(),
            !r.saw_path(),
            r.changes().len() == 0,
    {
        let r = CommandEnv { clear: false, saw_path: false, vars: Vec::new() };
        assert(r.changes() =~= seq![]);
        r
    }

    fn find(&self, key: &[u8]) -> (r: Option<usize>)
        ensures
            r matches Some(i) ==> i < self.changes().len() && self.changes()[i as int].0 == key@,
            r is None ==> !names(self.changes(), key@),
    {
        let mut i: usize = 0;
        while i < self.vars.len()
            invariant
                i <= self.vars@.len(),
                forall|k: int| 0 <= k < i ==> self.changes()[k].0 != key@,
            decreases self.vars@.len() - i,
        {
            if bytes_eq(self.vars[i].0.as_slice(), key) {
                return Some(i);
            }
            i = i + 1;
        }
        None
    }

    fn note_path(&mut self, key: &[u8])
        ensures
            final(self).clear == old(self).clear,
            final(self).vars == old(self).vars,
            final(self).saw_path == (old(self).saw_path || is_path(key@)),
    {
        let is_path = key.len() == 4 && key[0] == 0x50 && key[1] == 0x41 && key[2] == 0x54 && key[3]
            == 0x48;
        assert(is_path == (key@ == seq![0x50u8, 0x41u8, 0x54u8, 0x48u8])) by {
            if is_path {
                assert(key@ =~= seq![0x50u8, 0x41u8, 0x54u8, 0x48u8]);
            }
        }
        if !self.saw_path && is_path {
            self.saw_path = true;
        }
    }

    fn put(&mut self, key: &[u8], value: Option<Vec<u8>>)
        requires
            old(self).wf(),
        ensures
            final(self).wf(),
            final(self).clear == old(self).clear,
            final(self).saw_path == old(self).saw_path,
            final(self).changes() == with_change(old(self).changes(), (key@, opt_view(value))),
    {
        let ghost c = (key@, opt_view(value));
        match self.find(key) {
            Some(i) => {
                self.vars.set(i, (copy_bytes(key), value));
                assert(self.changes() =~= old(self).changes().update(i as int, c));
                proof { old(self).lemma_index_of(i as int); }
            },
            None => {
                self.vars.push((copy_bytes(key), value));
                assert(self.changes() =~= old(self).changes().push(c));
            },
        }
    }

    proof fn lemma_index_of(&self, i: int)
        requires
            self.wf(),
            0 <= i < self.changes().len(),
        ensures
            name_index(self.changes(), self.changes()[i].0) == Some(i),
    {
        let key = self.changes()[i].0;
        assert(names(self.changes(), key));
        let j = choose|j: int| 0 <= j < self.changes().len() && self.changes()[j].0 == key;
        if j != i {
            if j < i {
                assert(self.changes()[j].0 != self.changes()[i].0);
            } else {
                assert(self.changes()[i].0 != self.changes()[j].0);
            }
        }
    }

    /// Sets a variable.
    pub fn set(&mut self, key: &[u8], value: &[u8])
        requires
            old(self).wf(),
        ensures
            final(self).wf(),
            final(self).cleared() == old(self).cleared(),
            final(self).saw_path() == (old(self).saw_path() || is_path(key@)),
            final(self).changes() == with_change(old(self).changes(), (key@, Some(value@))),
    {
        self.note_path(key);
        self.put(key, Some(copy_bytes(value)));
    }

    /// Removes a variable. After `clear` there is nothing to remove it from,
    /// so only a change that sets it is dropped.
    pub fn remove(&mut self, key: &[u8])
        requires
            old(self).wf(),
        ensures
            final(self).wf(),
            final(self).cleared() == old(self).cleared(),
            final(self).saw_path() == (old(self).saw_path() || is_path(key@)),
            final(self).changes() == if old(self).cleared() {
                without_name(old(self).changes(), key@)
            } else {
                with_change(old(self).changes(), (key@, None))
            },
    {
        self.note_path(key);
        assert(self.changes() == old(self).changes());
        if self.clear {
            match self.find(key) {
                Some(i) => {
                    let ghost before = self.changes();
                    self.vars.remove(i);
                    assert(self.changes() =~= before.remove(i as int));
                    proof { old(self).lemma_index_of(i as int); }
                },
                None => {},
            }
        } else {
            self.put(key, None);
        }
    }

    /// Leaves out the parent's environment and drops every change.
    pub fn clear(&mut self)
        ensures
            final(self).wf(),
            final(self).cleared(),
            final(self).saw_path() == old(self).saw_path(),
            final(self).changes().len() == 0,
    {
        self.clear = true;
        self.vars = Vec::new();
        assert(self.changes() =~= seq![]);
    }

    /// Whether the child gets the parent's environment as it is.
    pub open spec fn is_unchanged_spec(&self) -> bool {
        !self.cleared() && self.changes().len() == 0
    }

    /// Whether the child gets the parent's environment as it is.
    pub fn is_unchanged(&self) -> (r: bool)
        ensures
            r == self.is_unchanged_spec(),
    {
        !self.clear && self.vars.len() == 0
    }

    /// Whether the child's `PATH` may differ from the parent's.
    pub fn have_changed_path(&self) -> (r: bool)
        ensures
            r == (self.saw_path() || self.cleared()),
    {
        self.saw_path || self.clear
    }

    /// The child's environment: the changes applied to `base`, the parent's.
    pub fn capture(&self, base: &Vec<Var>) -> (r: Vec<Var>)
        ensures
            vars_view(r@) == captured(self.cleared(), self.changes(), vars_view(base@)),
    {
        let mut result: Vec<Var> = Vec::new();
        if !self.clear {
            let mut i: usize = 0;
            while i < base.len()
                invariant
                    i <= base@.len(),
                    vars_view(result@) == kept_base(vars_view(base@).take(i as int), self.changes()),
                decreases base@.len() - i,
            {
                let ghost prev = vars_view(base@).take(i as int);
                assert(vars_view(base@).take(i + 1).drop_last() =~= prev);
                let k = base[i].0.as_slice();
                match self.find(k) {
                    Some(_) => {},
                    None => {
                        result.push((copy_bytes(k), copy_bytes(base[i].1.as_slice())));
                        assert(vars_view(result@) =~= kept_base(prev, self.changes()).push(
                            vars_view(base@)[i as int],
                        ));
                    },
                }
                i = i + 1;
            }
            assert(vars_view(base@).take(base@.len() as int) =~= vars_view(base@));
        }
        let ghost start = vars_view(result@);
        assert(start == (if self.cleared() {
            seq![]
        } else {
            kept_base(vars_view(base@), self.changes())
        })) by {
            if self.cleared() {
                assert(vars_view(result@) =~= seq![]);
            }
        }
        let mut j: usize = 0;
        while j < self.vars.len()
            invariant
                j <= self.vars@.len(),
                vars_view(result@) == start + set_values(self.changes().take(j as int)),
            decreases self.vars@.len() - j,
        {
            let ghost prev = self.changes().take(j as int);
            assert(self.changes().take(j + 1).drop_last() =~= prev);
            match &self.vars[j].1 {
                Some(v) => {
                    result.push((copy_bytes(self.vars[j].0.as_slice()), copy_bytes(v.as_slice())));
                    assert(vars_view(result@) =~= (start + set_values(prev)).push(
                        (self.changes()[j as int].0, v@),
                    ));
                    assert(start + set_values(prev).push((self.changes()[j as int].0, v@)) =~= (start
                        + set_values(prev)).push((self.changes()[j as int].0, v@)));
                },
                None => {},
            }
            j = j + 1;
        }
        assert(self.changes().take(self.vars@.len() as int) =~= self.changes());
        result
    }

    /// The child's environment where the changes alter the parent's, and
    /// `None` where they leave it as it is.
    pub fn capture_if_changed(&self, base: &Vec<Var>) -> (r: Option<Vec<Var>>)
        ensures
            r is None <==> self.is_unchanged_spec(),
            r matches Some(v) ==> vars_view(v@) == captured(self.cleared(), self.changes(), vars_view(base@)),
    {
        if self.is_unchanged() {
            None
        } else {
            Some(self.capture(base))
        }
    }
}

/// The `NAME=value` entries of an environment. An entry that would hold a
/// NUL byte is left out, and `saw_nul` is set.
pub fn construct_envp(env: &Vec<Var>, saw_nul: &mut bool) -> (r: Vec<Vec<u8>>)
    ensures
        r@.map_values(|e: Vec<u8>| e@) == envp_of(vars_view(env@)),
        *final(saw_nul) == (*old(saw_nul) || any_nul(vars_view(env@))),
{
    let mut result: Vec<Vec<u8>> = Vec::new();
    let mut i: usize = 0;
    while i < env.len()
        invariant
            i <= env@.len(),
            result@.map_values(|e: Vec<u8>| e@) == envp_of(vars_view(env@).take(i as int)),
            *saw_nul == (*old(saw_nul) || any_nul(vars_view(env@).take(i as int))),
        decreases env@.len() - i,
    {
        let ghost prev = vars_view(env@).take(i as int);
        assert(vars_view(env@).take(i + 1).drop_last() =~= prev);
        let item = join_with(env[i].0.as_slice(), 0x3d, env[i].1.as_slice());
        if contains_nul(item.as_slice()) {
            *saw_nul = true;
        } else {
            result.push(item);
            assert(result@.map_values(|e: Vec<u8>| e@) =~= envp_of(prev).push(item@));
        }
        assert(any_nul(vars_view(env@).take(i + 1)) == (any_nul(prev) || has_nul(item@))) by {
            let next = vars_view(env@).take(i + 1);
            if any_nul(prev) {
                let k = choose|k: int| 0 <= k < prev.len() && has_nul(prev[k].0.push(0x3d) + prev[k].1);
                assert(next[k] == prev[k]);
            }
            if has_nul(item@) {
                assert(next[i as int] == var_view(env@[i as int]));
            }
            if any_nul(next) {
                let k = choose|k: int| 0 <= k < next.len() && has_nul(next[k].0.push(0x3d) + next[k].1);
                if k < i {
                    assert(prev[k] == next[k]);
                }
            }
        }
        i = i + 1;
    }
    assert(vars_view(env@).take(env@.len() as int) =~= vars_view(env@));
    result
}

} // verus!
