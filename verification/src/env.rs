//! The mutable environments the interpreter owns: `Ram` binds identifier
//! names to values (insert-or-replace, last writer wins), and `Functions`
//! records user function definitions (one-shot: a name cannot be redefined).
//! Both are association lists whose contracts speak of them as maps.

use vstd::prelude::*;

verus! {

use crate::value::Ast;
use crate::value::AstV;
use crate::value::Parameters;
use crate::value::Val;
use crate::value::ast_views;
use crate::value::val_wf;

/// The variable environment: identifier name to bound value.
pub struct Ram {
    entries: Vec<(String, Parameters)>,
}

/// A recorded user function: formal parameter list and body.
pub struct FunDef {
    pub args: Vec<Ast>,
    pub body: Ast,
}

/// The function table: function name to definition.
pub struct Functions {
    entries: Vec<(String, FunDef)>,
}

/// Map denoted by a run of entries, later entries winning.
pub open spec fn ram_map(entries: Seq<(String, Parameters)>) -> Map<Seq<char>, Val>
    decreases entries.len(),
{
    if entries.len() == 0 {
        Map::empty()
    } else {
        ram_map(entries.drop_last()).insert(entries.last().0@, entries.last().1@)
    }
}

/// Map denoted by a run of function entries, later entries winning.
pub open spec fn fun_map(entries: Seq<(String, FunDef)>) -> Map<Seq<char>, (Seq<AstV>, AstV)>
    decreases entries.len(),
{
    if entries.len() == 0 {
        Map::empty()
    } else {
        fun_map(entries.drop_last()).insert(
            entries.last().0@,
            (ast_views(entries.last().1.args@), entries.last().1.body@),
        )
    }
}

impl View for Ram {
    type V = Map<Seq<char>, Val>;

    closed spec fn view(&self) -> Map<Seq<char>, Val> {
        ram_map(self.entries@)
    }
}

impl View for Functions {
    type V = Map<Seq<char>, (Seq<AstV>, AstV)>;

    closed spec fn view(&self) -> Map<Seq<char>, (Seq<AstV>, AstV)> {
        fun_map(self.entries@)
    }
}

/// Every value bound in an environment is well-formed.
pub open spec fn ram_vals_wf(m: Map<Seq<char>, Val>) -> bool {
    forall|k: Seq<char>| m.dom().contains(k) ==> #[trigger] val_wf(m[k])
}

/// A name is bound exactly when some entry carries it.
proof fn lemma_ram_map_contains(entries: Seq<(String, Parameters)>, k: Seq<char>)
    ensures
        ram_map(entries).dom().contains(k) <==> exists|j: int|
            0 <= j < entries.len() && (#[trigger] entries[j].0)@ == k,
    decreases entries.len(),
{
    if entries.len() > 0 {
        lemma_ram_map_contains(entries.drop_last(), k);
        if entries.last().0@ == k {
            assert((entries[entries.len() - 1].0)@ == k);
        } else {
            if ram_map(entries).dom().contains(k) {
                let j = choose|j: int|
                    0 <= j < entries.len() - 1 && (#[trigger] entries.drop_last()[j].0)@ == k;
                assert((entries[j].0)@ == k);
            }
            if exists|j: int| 0 <= j < entries.len() && (#[trigger] entries[j].0)@ == k {
                let j = choose|j: int| 0 <= j < entries.len() && (#[trigger] entries[j].0)@ == k;
                assert(entries.drop_last()[j] == entries[j]);
            }
        }
    }
}

/// The value bound to a name is the one of its last entry carrying it.
proof fn lemma_ram_map_last_wins(entries: Seq<(String, Parameters)>, k: Seq<char>, fi: int)
    requires
        0 <= fi < entries.len(),
        (entries[fi].0)@ == k,
        forall|j: int| fi < j < entries.len() ==> (#[trigger] entries[j].0)@ != k,
    ensures
        ram_map(entries).dom().contains(k),
        ram_map(entries)[k] == entries[fi].1@,
    decreases entries.len(),
{
    if fi == entries.len() - 1 {
    } else {
        assert((entries[entries.len() - 1].0)@ != k);
        assert(entries.drop_last()[fi] == entries[fi]);
        assert forall|j: int| fi < j < entries.len() - 1 implies (#[trigger] entries.drop_last()[j].0)@
            != k by {
            assert(entries.drop_last()[j] == entries[j]);
        }
        lemma_ram_map_last_wins(entries.drop_last(), k, fi);
    }
}

impl Ram {
    /// An empty environment.
    pub fn new() -> (r: Ram)
        ensures
            r@ == Map::<Seq<char>, Val>::empty(),
    {
        Ram { entries: Vec::new() }
    }

    /// Whether `k` is bound.
    pub fn contains_key(&self, k: &String) -> (b: bool)
        ensures
            b == self@.dom().contains(k@),
    {
        let mut i: usize = 0;
        let n = self.entries.len();
        while i < n
            invariant
                0 <= i <= n,
                n == self.entries@.len(),
                forall|j: int| 0 <= j < i ==> (#[trigger] self.entries@[j].0)@ != k@,
            decreases n - i,
        {
            if self.entries[i].0 == *k {
                proof {
                    assert((self.entries@[i as int].0)@ == k@);
                    lemma_ram_map_contains(self.entries@, k@);
                }
                return true;
            }
            i = i + 1;
        }
        proof {
            lemma_ram_map_contains(self.entries@, k@);
        }
        false
    }

    /// Look a name up; the borrow lives as long as the environment.
    pub fn get(&self, k: &String) -> (r: Option<&Parameters>)
        ensures
            match r {
                Some(v) => self@.dom().contains(k@) && v@ == self@[k@],
                None => !self@.dom().contains(k@),
            },
    {
        let n = self.entries.len();
        let mut i: usize = 0;
        let mut found: Option<usize> = None;
        while i < n
            invariant
                0 <= i <= n,
                n == self.entries@.len(),
                match found {
                    Some(fi) => fi < i && (self.entries@[fi as int].0)@ == k@ && forall|j: int|
                        fi < j < i ==> (#[trigger] self.entries@[j].0)@ != k@,
                    None => forall|j: int| 0 <= j < i ==> (#[trigger] self.entries@[j].0)@ != k@,
                },
            decreases n - i,
        {
            if self.entries[i].0 == *k {
                found = Some(i);
            }
            i = i + 1;
        }
        match found {
            Some(fi) => {
                proof {
                    lemma_ram_map_last_wins(self.entries@, k@, fi as int);
                }
                Some(&self.entries[fi].1)
            },
            None => {
                proof {
                    lemma_ram_map_contains(self.entries@, k@);
                }
                None
            },
        }
    }

    /// Bind `k` to `v`, replacing any earlier binding.
    pub fn insert(&mut self, k: String, v: Parameters)
        ensures
            final(self)@ == old(self)@.insert(k@, v@),
    {
        let ghost gk = k@;
        let ghost gv = v@;
        self.entries.push((k, v));
        proof {
            assert(self.entries@.drop_last() =~= old(self).entries@);
            assert(self.entries@.last().0@ == gk && self.entries@.last().1@ == gv);
        }
    }

    /// Drop any binding of `k`.
    pub fn remove(&mut self, k: &String)
        ensures
            final(self)@ == old(self)@.remove(k@),
    {
        let n = self.entries.len();
        let mut res: Vec<(String, Parameters)> = Vec::new();
        let mut i: usize = 0;
        while i < n
            invariant
                0 <= i <= n,
                self.entries@ == old(self).entries@,
                n == self.entries@.len(),
                ram_map(res@) =~= ram_map(self.entries@.subrange(0, i as int)).remove(k@),
            decreases n - i,
        {
            let ghost post = self.entries@.subrange(0, i as int + 1);
            proof {
                assert(post.drop_last() =~= self.entries@.subrange(0, i as int));
                assert(post.last() == self.entries@[i as int]);
            }
            if !(self.entries[i].0 == *k) {
                let ghost pre_res = res@;
                let pair = (self.entries[i].0.clone(), self.entries[i].1.clone());
                res.push(pair);
                proof {
                    assert(res@.drop_last() =~= pre_res);
                    assert(ram_map(res@) =~= ram_map(post).remove(k@));
                }
            } else {
                proof {
                    assert(ram_map(res@) =~= ram_map(post).remove(k@));
                }
            }
            i = i + 1;
        }
        proof {
            assert(self.entries@.subrange(0, n as int) =~= self.entries@);
        }
        self.entries = res;
    }
}

/// A function name is recorded exactly when some entry carries it.
proof fn lemma_fun_map_contains(entries: Seq<(String, FunDef)>, k: Seq<char>)
    ensures
        fun_map(entries).dom().contains(k) <==> exists|j: int|
            0 <= j < entries.len() && (#[trigger] entries[j].0)@ == k,
    decreases entries.len(),
{
    if entries.len() > 0 {
        lemma_fun_map_contains(entries.drop_last(), k);
        if entries.last().0@ == k {
            assert((entries[entries.len() - 1].0)@ == k);
        } else {
            if fun_map(entries).dom().contains(k) {
                let j = choose|j: int|
                    0 <= j < entries.len() - 1 && (#[trigger] entries.drop_last()[j].0)@ == k;
                assert((entries[j].0)@ == k);
            }
            if exists|j: int| 0 <= j < entries.len() && (#[trigger] entries[j].0)@ == k {
                let j = choose|j: int| 0 <= j < entries.len() && (#[trigger] entries[j].0)@ == k;
                assert(entries.drop_last()[j] == entries[j]);
            }
        }
    }
}

/// The definition found for a name is the one of its last entry carrying it.
proof fn lemma_fun_map_last_wins(entries: Seq<(String, FunDef)>, k: Seq<char>, fi: int)
    requires
        0 <= fi < entries.len(),
        (entries[fi].0)@ == k,
        forall|j: int| fi < j < entries.len() ==> (#[trigger] entries[j].0)@ != k,
    ensures
        fun_map(entries).dom().contains(k),
        fun_map(entries)[k] == (ast_views(entries[fi].1.args@), entries[fi].1.body@),
    decreases entries.len(),
{
    if fi == entries.len() - 1 {
    } else {
        assert((entries[entries.len() - 1].0)@ != k);
        assert(entries.drop_last()[fi] == entries[fi]);
        assert forall|j: int| fi < j < entries.len() - 1 implies (#[trigger] entries.drop_last()[j].0)@
            != k by {
            assert(entries.drop_last()[j] == entries[j]);
        }
        lemma_fun_map_last_wins(entries.drop_last(), k, fi);
    }
}

impl Functions {
    /// An empty function table.
    pub fn new() -> (r: Functions)
        ensures
            r@ == Map::<Seq<char>, (Seq<AstV>, AstV)>::empty(),
    {
        Functions { entries: Vec::new() }
    }

    /// Whether a function of this name has been defined.
    pub fn contains_key(&self, k: &String) -> (b: bool)
        ensures
            b == self@.dom().contains(k@),
    {
        let mut i: usize = 0;
        let n = self.entries.len();
        while i < n
            invariant
                0 <= i <= n,
                n == self.entries@.len(),
                forall|j: int| 0 <= j < i ==> (#[trigger] self.entries@[j].0)@ != k@,
            decreases n - i,
        {
            if self.entries[i].0 == *k {
                proof {
                    assert((self.entries@[i as int].0)@ == k@);
                    lemma_fun_map_contains(self.entries@, k@);
                }
                return true;
            }
            i = i + 1;
        }
        proof {
            lemma_fun_map_contains(self.entries@, k@);
        }
        false
    }

    /// Look a definition up.
    pub fn get(&self, k: &String) -> (r: Option<&FunDef>)
        ensures
            match r {
                Some(d) => self@.dom().contains(k@) && (ast_views(d.args@), d.body@) == self@[k@],
                None => !self@.dom().contains(k@),
            },
    {
        let n = self.entries.len();
        let mut i: usize = 0;
        let mut found: Option<usize> = None;
        while i < n
            invariant
                0 <= i <= n,
                n == self.entries@.len(),
                match found {
                    Some(fi) => fi < i && (self.entries@[fi as int].0)@ == k@ && forall|j: int|
                        fi < j < i ==> (#[trigger] self.entries@[j].0)@ != k@,
                    None => forall|j: int| 0 <= j < i ==> (#[trigger] self.entries@[j].0)@ != k@,
                },
            decreases n - i,
        {
            if self.entries[i].0 == *k {
                found = Some(i);
            }
            i = i + 1;
        }
        match found {
            Some(fi) => {
                proof {
                    lemma_fun_map_last_wins(self.entries@, k@, fi as int);
                }
                Some(&self.entries[fi].1)
            },
            None => {
                proof {
                    lemma_fun_map_contains(self.entries@, k@);
                }
                None
            },
        }
    }

    /// Record a definition under a name.
    pub fn insert(&mut self, k: String, d: FunDef)
        ensures
            final(self)@ == old(self)@.insert(k@, (ast_views(d.args@), d.body@)),
    {
        let ghost gk = k@;
        let ghost gd = (ast_views(d.args@), d.body@);
        self.entries.push((k, d));
        proof {
            assert(self.entries@.drop_last() =~= old(self).entries@);
            assert(self.entries@.last().0@ == gk);
        }
    }
}

/// Clone a run of trees, preserving their mathematical views.
pub fn clone_ast_run(v: &Vec<Ast>) -> (r: Vec<Ast>)
    ensures
        ast_views(r@) == ast_views(v@),
{
    let mut res: Vec<Ast> = Vec::new();
    let n = v.len();
    let mut i: usize = 0;
    while i < n
        invariant
            0 <= i <= n,
            n == v@.len(),
            res@.len() == i as int,
            forall|j: int| 0 <= j < i as int ==> (#[trigger] res@[j])@ == v@[j]@,
        decreases n - i,
    {
        res.push(v[i].clone());
        i = i + 1;
    }
    proof {
        crate::value::lemma_ast_views(res@);
        crate::value::lemma_ast_views(v@);
        assert(ast_views(res@) =~= ast_views(v@));
    }
    res
}

impl Functions {
    /// A copy of the table, denoting the same map.
    pub fn duplicate(&self) -> (r: Functions)
        ensures
            r@ == self@,
    {
        let mut res: Vec<(String, FunDef)> = Vec::new();
        let n = self.entries.len();
        let mut i: usize = 0;
        while i < n
            invariant
                0 <= i <= n,
                n == self.entries@.len(),
                fun_map(res@) =~= fun_map(self.entries@.subrange(0, i as int)),
            decreases n - i,
        {
            let ghost pre = res@;
            let name = self.entries[i].0.clone();
            let d = FunDef {
                args: clone_ast_run(&self.entries[i].1.args),
                body: self.entries[i].1.body.clone(),
            };
            res.push((name, d));
            proof {
                assert(res@.drop_last() =~= pre);
                assert(self.entries@.subrange(0, i as int + 1).drop_last() =~= self.entries@
                    .subrange(0, i as int));
                assert(self.entries@.subrange(0, i as int + 1).last() == self.entries@[i as int]);
                assert(fun_map(res@) =~= fun_map(self.entries@.subrange(0, i as int + 1)));
            }
            i = i + 1;
        }
        proof {
            assert(self.entries@.subrange(0, n as int) =~= self.entries@);
        }
        Functions { entries: res }
    }
}

} // verus!
