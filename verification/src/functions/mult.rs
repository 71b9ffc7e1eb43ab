//! Multiplication over the whole value domain: exact numeric arithmetic
//! (an integral fraction times an integer collapses back to an integer, so
//! dividing and multiplying back round-trips exactly), scalar and matrix
//! products over vectors, dot products, and the symbolic rewrite rules that
//! fold monomials (exponents add) and distribute over sums.

use vstd::prelude::*;

verus! {

broadcast use crate::value::group_value_views;

use crate::env::Ram;
use crate::functions::function::BinOp;
use crate::functions::function::EVAL_DEPTH;
use crate::functions::function::apply_operator_fuel;
use crate::functions::function::apply_operator_reverse_fuel;
use crate::functions::function::depth_error;
use crate::functions::function::depth_error_value;
use crate::functions::function::oram;
use crate::functions::function::oram_wf;
use crate::functions::function::spec_apply_operator;
use crate::functions::function::spec_apply_operator_reverse;
use crate::functions::add::spec_add;
use crate::functions::add::add_fuel;
use crate::rational::Rationals;
use crate::rational::rat_make;
use crate::rational::rat_mul;
use crate::symbolic::smaller_of;
use crate::value::Parameters;
use crate::value::Val;
use crate::value::lemma_param_views;
use crate::value::lemma_vals_wf;
use crate::value::param_views;
use crate::value::val_wf;
use crate::value::wrap_add64;
use crate::value::wrap_mul64;
use vstd::string::StringExecFns;

/// Message of the incompatibility error for `mult`.
pub open spec fn mult_incompatible() -> Seq<char> {
    "@Those two values are incompatible with the * operator"@
}

/// Build the incompatibility error value for `mult`.
fn mult_error() -> (r: Parameters)
    ensures
        r@ == Val::Identifier(mult_incompatible()),
{
    Parameters::Identifier("@Those two values are incompatible with the * operator".to_owned())
}

/// Element-wise product of a vector with an integer scalar.
pub open spec fn spec_scale_elems(
    v: Seq<Val>,
    s: int,
    m: Option<Map<Seq<char>, Val>>,
    fuel: nat,
) -> Seq<Val>
    decreases fuel, 5int, 0int,
{
    if fuel == 0 {
        Seq::empty()
    } else {
        Seq::new(v.len(), |k: int| spec_mult(v[k], Val::Int(s), m, (fuel - 1) as nat))
    }
}

/// Element-wise scaling with an explicit depth budget.
fn scale_elems_fuel(v1: &Vec<Parameters>, s: i64, ram: Option<&Ram>, fuel: u64) -> (r: Vec<
    Parameters,
>)
    requires
        val_wf(Val::InterpreterVector(param_views(v1@))),
        oram_wf(oram(ram)),
    ensures
        param_views(r@) == spec_scale_elems(param_views(v1@), s as int, oram(ram), fuel as nat),
        val_wf(Val::InterpreterVector(param_views(r@))),
    decreases fuel, 5int, 0int,
{
    proof {
        lemma_param_views(v1@);
        lemma_vals_wf(param_views(v1@));
        assert forall|j: int| 0 <= j < v1@.len() implies val_wf((#[trigger] v1@[j])@) by {
            assert(val_wf(param_views(v1@)[j]));
        }
    }
    let mut res: Vec<Parameters> = Vec::new();
    if fuel == 0 {
        proof {
            lemma_param_views(res@);
            lemma_vals_wf(param_views(res@));
            assert(param_views(res@) =~= spec_scale_elems(
                param_views(v1@),
                s as int,
                oram(ram),
                fuel as nat,
            ));
        }
        return res;
    }
    let n = v1.len();
    let mut k: usize = 0;
    while k < n
        invariant
            0 <= k <= n,
            n == v1@.len(),
            fuel >= 1,
            res@.len() == k as int,
            forall|j: int| 0 <= j < k as int ==> (#[trigger] res@[j])@ == spec_mult(
                v1@[j]@,
                Val::Int(s as int),
                oram(ram),
                (fuel - 1) as nat,
            ),
            forall|j: int| 0 <= j < k as int ==> val_wf((#[trigger] res@[j])@),
            forall|j: int| 0 <= j < v1@.len() ==> val_wf((#[trigger] v1@[j])@),
            oram_wf(oram(ram)),
        decreases n - k,
    {
        let e = mult_fuel(v1[k].clone(), Parameters::Int(s), ram, fuel - 1);
        res.push(e);
        k = k + 1;
    }
    proof {
        lemma_param_views(res@);
        lemma_param_views(v1@);
        lemma_vals_wf(param_views(res@));
        assert forall|j: int| 0 <= j < param_views(res@).len() implies val_wf(
            #[trigger] param_views(res@)[j],
        ) by {
            assert(param_views(res@)[j] == res@[j]@);
        }
        assert(param_views(res@) =~= spec_scale_elems(
            param_views(v1@),
            s as int,
            oram(ram),
            fuel as nat,
        ));
    }
    res
}

/// Left fold of the dot product: products of aligned elements summed into
/// the accumulator, truncated to the shorter vector.
pub open spec fn spec_dot(
    acc: Val,
    v1: Seq<Val>,
    v2: Seq<Val>,
    k: int,
    m: Option<Map<Seq<char>, Val>>,
    fuel: nat,
) -> Val
    decreases fuel, 6int, (if v1.len() - k > 0 {
        v1.len() - k
    } else {
        0
    }),
{
    if fuel == 0 || k < 0 || k >= v1.len() || k >= v2.len() {
        acc
    } else {
        spec_dot(
            spec_add(
                acc,
                spec_mult(v1[k], v2[k], m, (fuel - 1) as nat),
                m,
                (fuel - 1) as nat,
            ),
            v1,
            v2,
            k + 1,
            m,
            fuel,
        )
    }
}

/// Dot product with an explicit depth budget.
fn dot_fuel(v1: &Vec<Parameters>, v2: &Vec<Parameters>, ram: Option<&Ram>, fuel: u64) -> (r:
    Parameters)
    requires
        val_wf(Val::InterpreterVector(param_views(v1@))),
        val_wf(Val::InterpreterVector(param_views(v2@))),
        oram_wf(oram(ram)),
    ensures
        r@ == spec_dot(Val::Null, param_views(v1@), param_views(v2@), 0, oram(ram), fuel as nat),
        val_wf(r@),
    decreases fuel, 6int, 0int,
{
    proof {
        lemma_param_views(v1@);
        lemma_param_views(v2@);
        lemma_vals_wf(param_views(v1@));
        lemma_vals_wf(param_views(v2@));
        assert forall|j: int| 0 <= j < v1@.len() implies val_wf((#[trigger] v1@[j])@) by {
            assert(val_wf(param_views(v1@)[j]));
        }
        assert forall|j: int| 0 <= j < v2@.len() implies val_wf((#[trigger] v2@[j])@) by {
            assert(val_wf(param_views(v2@)[j]));
        }
    }
    let mut sum = Parameters::Null;
    if fuel == 0 {
        return sum;
    }
    let n = if v1.len() <= v2.len() {
        v1.len()
    } else {
        v2.len()
    };
    let mut k: usize = 0;
    while k < n
        invariant
            0 <= k <= n,
            n == (if v1@.len() <= v2@.len() {
                v1@.len()
            } else {
                v2@.len()
            }),
            fuel >= 1,
            val_wf(sum@),
            param_views(v1@).len() == v1@.len(),
            param_views(v2@).len() == v2@.len(),
            forall|j: int| 0 <= j < v1@.len() ==> param_views(v1@)[j] == (#[trigger] v1@[j])@,
            forall|j: int| 0 <= j < v2@.len() ==> param_views(v2@)[j] == (#[trigger] v2@[j])@,
            forall|j: int| 0 <= j < v1@.len() ==> val_wf((#[trigger] v1@[j])@),
            forall|j: int| 0 <= j < v2@.len() ==> val_wf((#[trigger] v2@[j])@),
            spec_dot(Val::Null, param_views(v1@), param_views(v2@), 0, oram(ram), fuel as nat)
                == spec_dot(
                sum@,
                param_views(v1@),
                param_views(v2@),
                k as int,
                oram(ram),
                fuel as nat,
            ),
            oram_wf(oram(ram)),
        decreases n - k,
    {
        let p = mult_fuel(v1[k].clone(), v2[k].clone(), ram, fuel - 1);
        sum = add_fuel(sum, p, ram, fuel - 1);
        k = k + 1;
    }
    sum
}

/// Whether every element of a run is itself a vector (a matrix row).
pub open spec fn all_rows(v: Seq<Val>) -> bool
    decreases v.len(),
{
    if v.len() == 0 {
        true
    } else {
        all_rows(v.drop_last()) && v.last() is InterpreterVector
    }
}

/// A run is all rows exactly when each element is a vector.
proof fn lemma_all_rows(v: Seq<Val>)
    ensures
        all_rows(v) <==> (forall|i: int|
            0 <= i < v.len() ==> (#[trigger] v[i]) is InterpreterVector),
    decreases v.len(),
{
    if v.len() > 0 {
        lemma_all_rows(v.drop_last());
        if all_rows(v) {
            assert forall|i: int| 0 <= i < v.len() implies (#[trigger] v[i])
                is InterpreterVector by {
                if i < v.len() - 1 {
                    assert(v.drop_last()[i] == v[i]);
                } else {
                    assert(v.last() == v[i]);
                }
            }
        }
        if forall|i: int| 0 <= i < v.len() ==> (#[trigger] v[i]) is InterpreterVector {
            assert forall|i: int|
                0 <= i < v.drop_last().len() implies (#[trigger] v.drop_last()[i])
                is InterpreterVector by {
                assert(v.drop_last()[i] == v[i]);
            }
            assert(v.last() == v[v.len() - 1]);
        }
    }
}

/// Check that every element of the vector is itself a vector.
fn rows_check(v: &Vec<Parameters>) -> (b: bool)
    ensures
        b == all_rows(param_views(v@)),
{
    proof {
        lemma_param_views(v@);
        lemma_all_rows(param_views(v@));
    }
    let n = v.len();
    let mut k: usize = 0;
    while k < n
        invariant
            0 <= k <= n,
            n == v@.len(),
            param_views(v@).len() == v@.len(),
            forall|j: int| 0 <= j < v@.len() ==> param_views(v@)[j] == (#[trigger] v@[j])@,
            forall|j: int| 0 <= j < k as int ==> (#[trigger] param_views(v@)[j])
                is InterpreterVector,
        decreases n - k,
    {
        match &v[k] {
            Parameters::InterpreterVector(_) => {},
            _ => {
                proof {
                    lemma_all_rows(param_views(v@));
                    assert(!(v@[k as int]@ is InterpreterVector));
                }
                return false;
            },
        }
        k = k + 1;
    }
    proof {
        lemma_all_rows(param_views(v@));
    }
    true
}

/// The rows of a matrix, as plain runs of values.
pub open spec fn rows_of(v: Seq<Val>) -> Seq<Seq<Val>> {
    Seq::new(v.len(), |i: int| v[i]->InterpreterVector_0)
}

/// Column count of a matrix: the width of its first row.
pub open spec fn cols_of(b: Seq<Seq<Val>>) -> int {
    if b.len() == 0 {
        0
    } else {
        b[0].len() as int
    }
}

/// One cell of a matrix product: the running sum over `row[k] * b[k][j]`.
pub open spec fn spec_mat_cell(
    acc: Val,
    row: Seq<Val>,
    b: Seq<Seq<Val>>,
    j: int,
    k: int,
    m: Option<Map<Seq<char>, Val>>,
    fuel: nat,
) -> Val
    decreases fuel, 6int, (if row.len() - k > 0 {
        row.len() - k
    } else {
        0
    }),
{
    if fuel == 0 || k < 0 || k >= row.len() {
        acc
    } else {
        let acc2 = if k < b.len() && 0 <= j < b[k].len() {
            spec_add(
                acc,
                spec_mult(row[k], b[k][j], m, (fuel - 1) as nat),
                m,
                (fuel - 1) as nat,
            )
        } else {
            acc
        };
        spec_mat_cell(acc2, row, b, j, k + 1, m, fuel)
    }
}

/// Matrix product: rows of the left operand against columns of the right.
pub open spec fn spec_mat_mult(
    a: Seq<Seq<Val>>,
    b: Seq<Seq<Val>>,
    m: Option<Map<Seq<char>, Val>>,
    fuel: nat,
) -> Seq<Seq<Val>>
    decreases fuel, 7int, 0int,
{
    if fuel == 0 {
        Seq::empty()
    } else {
        Seq::new(
            a.len(),
            |i: int|
                Seq::new(
                    cols_of(b) as nat,
                    |j: int| spec_mat_cell(Val::Null, a[i], b, j, 0, m, (fuel - 1) as nat),
                ),
        )
    }
}

/// Wrap computed rows back into vector values.
pub open spec fn wrap_rows(mm: Seq<Seq<Val>>) -> Seq<Val> {
    Seq::new(mm.len(), |i: int| Val::InterpreterVector(mm[i]))
}

/// One cell of the product with an explicit depth budget.
fn mat_cell_fuel(
    row: &Vec<Parameters>,
    b: &Vec<Parameters>,
    j: usize,
    ram: Option<&Ram>,
    fuel: u64,
) -> (r: Parameters)
    requires
        all_rows(param_views(b@)),
        val_wf(Val::InterpreterVector(param_views(row@))),
        val_wf(Val::InterpreterVector(param_views(b@))),
        oram_wf(oram(ram)),
    ensures
        r@ == spec_mat_cell(
            Val::Null,
            param_views(row@),
            rows_of(param_views(b@)),
            j as int,
            0,
            oram(ram),
            fuel as nat,
        ),
        val_wf(r@),
    decreases fuel, 6int, 0int,
{
    proof {
        lemma_param_views(row@);
        lemma_param_views(b@);
        lemma_vals_wf(param_views(row@));
        lemma_vals_wf(param_views(b@));
        lemma_all_rows(param_views(b@));
        assert forall|i: int| 0 <= i < row@.len() implies val_wf((#[trigger] row@[i])@) by {
            assert(val_wf(param_views(row@)[i]));
        }
        assert forall|i: int| 0 <= i < b@.len() implies val_wf((#[trigger] b@[i])@) by {
            assert(val_wf(param_views(b@)[i]));
        }
    }
    let mut acc = Parameters::Null;
    if fuel == 0 {
        return acc;
    }
    let n = row.len();
    let mut k: usize = 0;
    while k < n
        invariant
            0 <= k <= n,
            n == row@.len(),
            fuel >= 1,
            val_wf(acc@),
            all_rows(param_views(b@)),
            param_views(row@).len() == row@.len(),
            param_views(b@).len() == b@.len(),
            forall|i: int| 0 <= i < row@.len() ==> param_views(row@)[i] == (#[trigger] row@[i])@,
            forall|i: int| 0 <= i < b@.len() ==> param_views(b@)[i] == (#[trigger] b@[i])@,
            forall|i: int| 0 <= i < row@.len() ==> val_wf((#[trigger] row@[i])@),
            forall|i: int| 0 <= i < b@.len() ==> val_wf((#[trigger] b@[i])@),
            spec_mat_cell(
                Val::Null,
                param_views(row@),
                rows_of(param_views(b@)),
                j as int,
                0,
                oram(ram),
                fuel as nat,
            ) == spec_mat_cell(
                acc@,
                param_views(row@),
                rows_of(param_views(b@)),
                j as int,
                k as int,
                oram(ram),
                fuel as nat,
            ),
            oram_wf(oram(ram)),
        decreases n - k,
    {
        proof {
            lemma_all_rows(param_views(b@));
        }
        if k < b.len() {
            match &b[k] {
                Parameters::InterpreterVector(brow) => {
                    proof {
                        lemma_param_views((**brow)@);
                        lemma_vals_wf(param_views((**brow)@));
                        assert(param_views(b@)[k as int] == b@[k as int]@);
                        assert(rows_of(param_views(b@))[k as int] == param_views((**brow)@));
                    }
                    if j < brow.len() {
                        proof {
                            assert(val_wf(param_views((**brow)@)[j as int]));
                            assert(param_views((**brow)@)[j as int] == (**brow)@[j as int]@);
                        }
                        let p = mult_fuel(row[k].clone(), brow[j].clone(), ram, fuel - 1);
                        acc = add_fuel(acc, p, ram, fuel - 1);
                    }
                },
                _ => {
                    proof {
                        assert(param_views(b@)[k as int] == b@[k as int]@);
                        assert(false);
                    }
                },
            }
        }
        k = k + 1;
    }
    acc
}

/// Matrix product with an explicit depth budget.
fn mult_matrix_fuel(a: &Vec<Parameters>, b: &Vec<Parameters>, ram: Option<&Ram>, fuel: u64) -> (r:
    Vec<Parameters>)
    requires
        all_rows(param_views(a@)),
        all_rows(param_views(b@)),
        val_wf(Val::InterpreterVector(param_views(a@))),
        val_wf(Val::InterpreterVector(param_views(b@))),
        oram_wf(oram(ram)),
        fuel >= 1,
    ensures
        param_views(r@) == wrap_rows(
            spec_mat_mult(rows_of(param_views(a@)), rows_of(param_views(b@)), oram(ram), fuel as nat),
        ),
        val_wf(Val::InterpreterVector(param_views(r@))),
    decreases fuel, 7int, 0int,
{
    proof {
        lemma_param_views(a@);
        lemma_param_views(b@);
        lemma_vals_wf(param_views(a@));
        lemma_vals_wf(param_views(b@));
        lemma_all_rows(param_views(a@));
        lemma_all_rows(param_views(b@));
        assert forall|i: int| 0 <= i < a@.len() implies val_wf((#[trigger] a@[i])@) by {
            assert(val_wf(param_views(a@)[i]));
        }
        assert forall|i: int| 0 <= i < b@.len() implies val_wf((#[trigger] b@[i])@) by {
            assert(val_wf(param_views(b@)[i]));
        }
    }
    let cols: usize = if b.len() == 0 {
        0
    } else {
        match &b[0] {
            Parameters::InterpreterVector(r0) => {
                proof {
                    lemma_param_views((**r0)@);
                    assert(param_views(b@)[0] == b@[0]@);
                }
                r0.len()
            },
            _ => {
                proof {
                    assert(param_views(b@)[0] == b@[0]@);
                    assert(false);
                }
                0
            },
        }
    };
    proof {
        if b@.len() > 0 {
            assert(param_views(b@)[0] == b@[0]@);
            assert(rows_of(param_views(b@))[0] == b@[0]@->InterpreterVector_0);
        }
        assert(cols as int == cols_of(rows_of(param_views(b@))));
    }
    let mut out: Vec<Parameters> = Vec::new();
    let n = a.len();
    let mut i: usize = 0;
    while i < n
        invariant
            0 <= i <= n,
            n == a@.len(),
            fuel >= 1,
            cols as int == cols_of(rows_of(param_views(b@))),
            all_rows(param_views(a@)),
            all_rows(param_views(b@)),
            val_wf(Val::InterpreterVector(param_views(b@))),
            param_views(a@).len() == a@.len(),
            forall|q: int| 0 <= q < a@.len() ==> param_views(a@)[q] == (#[trigger] a@[q])@,
            forall|q: int| 0 <= q < a@.len() ==> val_wf((#[trigger] a@[q])@),
            out@.len() == i as int,
            forall|q: int| 0 <= q < i as int ==> (#[trigger] out@[q])@ == wrap_rows(
                spec_mat_mult(
                    rows_of(param_views(a@)),
                    rows_of(param_views(b@)),
                    oram(ram),
                    fuel as nat,
                ),
            )[q],
            forall|q: int| 0 <= q < i as int ==> val_wf((#[trigger] out@[q])@),
            oram_wf(oram(ram)),
        decreases n - i,
    {
        proof {
            lemma_all_rows(param_views(a@));
        }
        match &a[i] {
            Parameters::InterpreterVector(row) => {
                proof {
                    lemma_param_views((**row)@);
                    lemma_vals_wf(param_views((**row)@));
                    assert(param_views(a@)[i as int] == a@[i as int]@);
                    assert(rows_of(param_views(a@))[i as int] == param_views((**row)@));
                    assert(val_wf(Val::InterpreterVector(param_views((**row)@))));
                }
                let mut cells: Vec<Parameters> = Vec::new();
                let mut j: usize = 0;
                while j < cols
                    invariant
                        0 <= j <= cols,
                        fuel >= 1,
                        all_rows(param_views(b@)),
                        val_wf(Val::InterpreterVector(param_views((**row)@))),
                        val_wf(Val::InterpreterVector(param_views(b@))),
                        cells@.len() == j as int,
                        forall|q: int| 0 <= q < j as int ==> (#[trigger] cells@[q])@
                            == spec_mat_cell(
                            Val::Null,
                            param_views((**row)@),
                            rows_of(param_views(b@)),
                            q,
                            0,
                            oram(ram),
                            (fuel - 1) as nat,
                        ),
                        forall|q: int| 0 <= q < j as int ==> val_wf((#[trigger] cells@[q])@),
                        oram_wf(oram(ram)),
                    decreases cols - j,
                {
                    let c = mat_cell_fuel(row, b, j, ram, fuel - 1);
                    cells.push(c);
                    j = j + 1;
                }
                proof {
                    lemma_param_views(cells@);
                    lemma_vals_wf(param_views(cells@));
                    assert forall|q: int| 0 <= q < param_views(cells@).len() implies val_wf(
                        #[trigger] param_views(cells@)[q],
                    ) by {
                        assert(param_views(cells@)[q] == cells@[q]@);
                    }
                    assert(param_views(cells@) =~= spec_mat_mult(
                        rows_of(param_views(a@)),
                        rows_of(param_views(b@)),
                        oram(ram),
                        fuel as nat,
                    )[i as int]);
                }
                out.push(Parameters::InterpreterVector(Box::new(cells)));
            },
            _ => {
                proof {
                    assert(param_views(a@)[i as int] == a@[i as int]@);
                    assert(false);
                }
            },
        }
        i = i + 1;
    }
    proof {
        lemma_param_views(out@);
        lemma_vals_wf(param_views(out@));
        assert forall|q: int| 0 <= q < param_views(out@).len() implies val_wf(
            #[trigger] param_views(out@)[q],
        ) by {
            assert(param_views(out@)[q] == out@[q]@);
        }
        assert(param_views(out@) =~= wrap_rows(
            spec_mat_mult(
                rows_of(param_views(a@)),
                rows_of(param_views(b@)),
                oram(ram),
                fuel as nat,
            ),
        ));
    }
    out
}

/// The vector-times-vector case: a matrix product when both operands are
/// vectors of vectors, otherwise a dot product that must come out numeric.
pub open spec fn spec_vec_mult_case(
    vec: Seq<Val>,
    vec2: Seq<Val>,
    m: Option<Map<Seq<char>, Val>>,
    fuel: nat,
) -> Val
    decreases fuel, 8int, 0int,
{
    if all_rows(vec) && all_rows(vec2) {
        let mm = spec_mat_mult(rows_of(vec), rows_of(vec2), m, fuel);
        if mm.len() == 0 {
            Val::Null
        } else {
            Val::InterpreterVector(wrap_rows(mm))
        }
    } else {
        let sum = spec_dot(Val::Null, vec, vec2, 0, m, fuel);
        if sum is Int {
            sum
        } else {
            Val::Identifier(mult_incompatible())
        }
    }
}

/// The vector-times-vector case with an explicit depth budget.
fn vec_mult_case_fuel(
    vec: Box<Vec<Parameters>>,
    vec2: Box<Vec<Parameters>>,
    ram: Option<&Ram>,
    fuel: u64,
) -> (r: Parameters)
    requires
        val_wf(Val::InterpreterVector(param_views(vec@))),
        val_wf(Val::InterpreterVector(param_views(vec2@))),
        oram_wf(oram(ram)),
        fuel >= 1,
    ensures
        r@ == spec_vec_mult_case(param_views(vec@), param_views(vec2@), oram(ram), fuel as nat),
        val_wf(r@),
    decreases fuel, 8int, 0int,
{
    let mat1 = rows_check(&vec);
    let mat2 = rows_check(&vec2);
    if mat1 && mat2 {
        let mm = mult_matrix_fuel(&vec, &vec2, ram, fuel);
        proof {
            lemma_param_views(mm@);
        }
        if mm.len() == 0 {
            Parameters::Null
        } else {
            Parameters::InterpreterVector(Box::new(mm))
        }
    } else {
        let sum = dot_fuel(&vec, &vec2, ram, fuel);
        match sum {
            Parameters::Int(n) => Parameters::Int(n),
            _ => mult_error(),
        }
    }
}


/// Mathematical model of `mult`.
pub open spec fn spec_mult(a: Val, b: Val, m: Option<Map<Seq<char>, Val>>, fuel: nat) -> Val
    decreases fuel, 9int, 0int,
{
    if fuel == 0 {
        Val::Identifier(depth_error())
    } else {
        match (a, b) {
            (Val::Null, Val::Int(v)) => Val::Int(v),
            (Val::Int(v), Val::Null) => Val::Int(v),
            (Val::Int(v), Val::Int(v2)) => Val::Int(wrap_mul64(v as int, v2 as int)),
            (Val::Rational(s), Val::Null) => Val::Rational(s),
            (Val::Null, Val::Rational(s)) => Val::Rational(s),
            (Val::Rational(s), Val::Rational(s2)) => Val::Rational(rat_mul(s, s2)),
            (Val::Rational(s), Val::Int(i)) => {
                let p = rat_mul(s, rat_make(i as int, 1));
                if s.d == 1 && p.d == 1 {
                    Val::Int(p.n)
                } else {
                    Val::Rational(p)
                }
            },
            (Val::Int(i), Val::Rational(s)) => Val::Rational(rat_mul(s, rat_make(i as int, 1))),
            (Val::Null, Val::InterpreterVector(vec)) => Val::InterpreterVector(vec),
            (Val::InterpreterVector(vec), Val::Null) => Val::InterpreterVector(vec),
            (Val::InterpreterVector(vec), Val::Int(v)) => Val::InterpreterVector(spec_scale_elems(vec, v as int, m, fuel)),
            (Val::Int(v), Val::InterpreterVector(vec)) => Val::InterpreterVector(spec_scale_elems(vec, v as int, m, fuel)),
            (Val::InterpreterVector(vec), Val::InterpreterVector(vec2)) => spec_vec_mult_case(vec, vec2, m, fuel),
            (Val::Bool(_), Val::Int(i)) => Val::Int(i),
            (Val::Int(i), Val::Bool(_)) => Val::Int(i),
            (Val::Bool(b), Val::Null) => Val::Bool(b),
            (Val::Null, Val::Bool(b)) => Val::Bool(b),
            (Val::Bool(b), Val::Bool(b2)) => Val::Bool(b && b2),
            (Val::Identifier(s), Val::Identifier(s2)) => match m {
                None => if s == s2 {
                    Val::Var(Box::new(Val::Int(1)), 2, s)
                } else {
                    Val::Mul(
                        Box::new(Val::Var(Box::new(Val::Int(1)), 1, s)),
                        Box::new(Val::Var(Box::new(Val::Int(1)), 1, s2)),
                    )
                },
                Some(_) => spec_apply_operator(
                    Val::Identifier(s),
                    Val::Identifier(s2),
                    m,
                    fuel,
                    BinOp::Mult,
                ),
            },
            (Val::Identifier(s), Val::Int(i)) => match m {
                None => Val::Var(Box::new(Val::Int(i)), 1, s),
                Some(_) => spec_apply_operator(Val::Identifier(s), Val::Int(i), m, fuel, BinOp::Mult),
            },
            (Val::Rational(r), Val::Identifier(ss)) => match m {
                None => Val::Var(Box::new(Val::Rational(r)), 1, ss),
                Some(_) => spec_apply_operator_reverse(Val::Rational(r), Val::Identifier(ss), m, fuel, BinOp::Mult),
            },
            (Val::Identifier(ss), Val::Rational(r)) => match m {
                None => Val::Var(Box::new(Val::Rational(r)), 1, ss),
                Some(_) => spec_apply_operator(Val::Identifier(ss), Val::Rational(r), m, fuel, BinOp::Mult),
            },
            (Val::Int(i), Val::Identifier(s)) => match m {
                None => Val::Var(Box::new(Val::Int(i)), 1, s),
                Some(_) => spec_apply_operator(Val::Identifier(s), Val::Int(i), m, fuel, BinOp::Mult),
            },
            (Val::Identifier(s), Val::InterpreterVector(vec)) => match m {
                None => Val::InterpreterVector(vec),
                Some(_) => spec_apply_operator(Val::Identifier(s), Val::InterpreterVector(vec), m, fuel, BinOp::Mult),
            },
            (Val::InterpreterVector(vec), Val::Identifier(s)) => match m {
                None => Val::InterpreterVector(vec),
                Some(_) => spec_apply_operator_reverse(Val::InterpreterVector(vec), Val::Identifier(s), m, fuel, BinOp::Mult),
            },
            (Val::Null, Val::Identifier(s)) => match m {
                None => Val::Var(Box::new(Val::Int(1)), 1, s),
                Some(_) => spec_apply_operator(Val::Identifier(s), Val::Null, m, fuel, BinOp::Mult),
            },
            (Val::Identifier(s), Val::Null) => match m {
                None => Val::Var(Box::new(Val::Int(1)), 1, s),
                Some(_) => spec_apply_operator(Val::Identifier(s), Val::Null, m, fuel, BinOp::Mult),
            },
            (Val::Bool(b), Val::Identifier(s)) => match m {
                None => Val::Bool(b),
                Some(_) => spec_apply_operator_reverse(Val::Bool(b), Val::Identifier(s), m, fuel, BinOp::Mult),
            },
            (Val::Identifier(s), Val::Bool(b)) => match m {
                None => Val::Bool(b),
                Some(_) => spec_apply_operator(Val::Identifier(s), Val::Bool(b), m, fuel, BinOp::Mult),
            },
            (Val::Plus(s1, s2), Val::Plus(s3, s4)) => {
                let first = Val::Plus(Box::new(spec_add(spec_mult(*s1, *s3, m, (fuel - 1) as nat), spec_mult(*s2, *s3, m, (fuel - 1) as nat), m, (fuel - 1) as nat)), Box::new(spec_add(spec_mult(*s1, *s4, m, (fuel - 1) as nat), spec_mult(*s2, *s4, m, (fuel - 1) as nat), m, (fuel - 1) as nat)));
                let second = Val::Plus(Box::new(spec_add(spec_mult(*s1, *s3, m, (fuel - 1) as nat), spec_mult(*s2, *s4, m, (fuel - 1) as nat), m, (fuel - 1) as nat)), Box::new(spec_add(spec_mult(*s2, *s3, m, (fuel - 1) as nat), spec_mult(*s1, *s4, m, (fuel - 1) as nat), m, (fuel - 1) as nat)));
                smaller_of(first, second)
            },
            (Val::Plus(s1, s2), Val::Identifier(s3)) => Val::Plus(Box::new(spec_mult(*s1, Val::Var(Box::new(Val::Int(1)), 1, s3), m, (fuel - 1) as nat)), Box::new(spec_mult(*s2, Val::Var(Box::new(Val::Int(1)), 1, s3), m, (fuel - 1) as nat))),
            (Val::Identifier(s3), Val::Plus(s1, s2)) => Val::Plus(Box::new(spec_mult(Val::Var(Box::new(Val::Int(1)), 1, s3), *s1, m, (fuel - 1) as nat)), Box::new(spec_mult(Val::Var(Box::new(Val::Int(1)), 1, s3), *s2, m, (fuel - 1) as nat))),
            (Val::Int(i), Val::Plus(s1, s2)) => Val::Plus(Box::new(spec_mult(Val::Int(i), *s1, m, (fuel - 1) as nat)), Box::new(spec_mult(Val::Int(i), *s2, m, (fuel - 1) as nat))),
            (Val::Plus(s1, s2), Val::Int(i)) => Val::Plus(Box::new(spec_mult(*s1, Val::Int(i), m, (fuel - 1) as nat)), Box::new(spec_mult(*s2, Val::Int(i), m, (fuel - 1) as nat))),
            (Val::Rational(r), Val::Plus(s1, s2)) => Val::Plus(Box::new(spec_mult(Val::Rational(r), *s1, m, (fuel - 1) as nat)), Box::new(spec_mult(Val::Rational(r), *s2, m, (fuel - 1) as nat))),
            (Val::Plus(s1, s2), Val::Rational(r)) => Val::Plus(Box::new(spec_mult(*s1, Val::Rational(r), m, (fuel - 1) as nat)), Box::new(spec_mult(*s2, Val::Rational(r), m, (fuel - 1) as nat))),
            (Val::Var(x, y, z), Val::Plus(s1, s2)) => Val::Plus(Box::new(spec_mult(*s1, Val::Var(x, y, z), m, (fuel - 1) as nat)), Box::new(spec_mult(*s2, Val::Var(x, y, z), m, (fuel - 1) as nat))),
            (Val::Plus(s1, s2), Val::Var(x, y, z)) => Val::Plus(Box::new(spec_mult(*s1, Val::Var(x, y, z), m, (fuel - 1) as nat)), Box::new(spec_mult(*s2, Val::Var(x, y, z), m, (fuel - 1) as nat))),
            (Val::Null, Val::Plus(s1, s2)) => Val::Plus(s1, s2),
            (Val::Plus(s1, s2), Val::Null) => Val::Plus(s1, s2),
            (Val::Var(x, y, z), Val::Mul(s1, s2)) => {
                let first = Val::Mul(Box::new(spec_mult(*s1, Val::Var(x, y, z), m, (fuel - 1) as nat)), s2);
                let second = Val::Mul(s1, Box::new(spec_mult(*s2, Val::Var(x, y, z), m, (fuel - 1) as nat)));
                smaller_of(first, second)
            },
            (Val::Mul(s1, s2), Val::Var(x, y, z)) => {
                let first = Val::Mul(Box::new(spec_mult(*s1, Val::Var(x, y, z), m, (fuel - 1) as nat)), s2);
                let second = Val::Mul(s1, Box::new(spec_mult(*s2, Val::Var(x, y, z), m, (fuel - 1) as nat)));
                smaller_of(first, second)
            },
            (Val::Mul(s1, s2), Val::Mul(s3, s4)) => {
                let first = Val::Mul(Box::new(spec_mult(*s1, *s3, m, (fuel - 1) as nat)), Box::new(spec_mult(*s2, *s4, m, (fuel - 1) as nat)));
                let second = Val::Mul(Box::new(spec_mult(*s1, *s4, m, (fuel - 1) as nat)), Box::new(spec_mult(*s2, *s3, m, (fuel - 1) as nat)));
                smaller_of(first, second)
            },
            (Val::Mul(s1, s2), Val::Identifier(s)) => Val::Mul(Box::new(spec_mult(*s1, Val::Var(Box::new(Val::Int(1)), 1, s), m, (fuel - 1) as nat)), s2),
            (Val::Identifier(s), Val::Mul(s1, s2)) => Val::Mul(Box::new(spec_mult(*s1, Val::Var(Box::new(Val::Int(1)), 1, s), m, (fuel - 1) as nat)), s2),
            (Val::Mul(s1, s2), Val::Int(i)) => Val::Mul(Box::new(spec_mult(*s1, Val::Int(i), m, (fuel - 1) as nat)), s2),
            (Val::Int(i), Val::Mul(s1, s2)) => Val::Mul(Box::new(spec_mult(*s1, Val::Int(i), m, (fuel - 1) as nat)), s2),
            (Val::Mul(s1, s2), Val::Rational(r)) => Val::Mul(Box::new(spec_mult(*s1, Val::Rational(r), m, (fuel - 1) as nat)), s2),
            (Val::Rational(r), Val::Mul(s1, s2)) => Val::Mul(Box::new(spec_mult(*s1, Val::Rational(r), m, (fuel - 1) as nat)), s2),
            (Val::Mul(s1, s2), Val::Plus(s3, s4)) => Val::Plus(Box::new(spec_mult(spec_mult(*s1, *s3, m, (fuel - 1) as nat), *s2, m, (fuel - 1) as nat)), Box::new(spec_mult(spec_mult(*s1, *s4, m, (fuel - 1) as nat), *s2, m, (fuel - 1) as nat))),
            (Val::Plus(s3, s4), Val::Mul(s1, s2)) => Val::Plus(Box::new(spec_mult(spec_mult(*s1, *s3, m, (fuel - 1) as nat), *s2, m, (fuel - 1) as nat)), Box::new(spec_mult(spec_mult(*s1, *s4, m, (fuel - 1) as nat), *s2, m, (fuel - 1) as nat))),
            (Val::Null, Val::Mul(s1, s2)) => Val::Mul(s1, s2),
            (Val::Mul(s1, s2), Val::Null) => Val::Mul(s1, s2),
            (Val::Var(x, y, z), Val::Var(x1, y1, z1)) => if z == z1 {
                Val::Var(
                    Box::new(spec_mult(*x, *x1, m, (fuel - 1) as nat)),
                    wrap_add64(y, y1),
                    z,
                )
            } else {
                Val::Mul(
                    Box::new(Val::Var(x, y, z)),
                    Box::new(
                        Val::Var(
                            Box::new(spec_mult(Val::Int(1), *x1, m, (fuel - 1) as nat)),
                            y1,
                            z1,
                        ),
                    ),
                )
            },
            (Val::Var(x, y, z), Val::Identifier(s)) => if z == s {
                Val::Var(x, wrap_add64(y, 1), z)
            } else {
                Val::Mul(
                    Box::new(Val::Var(x, y, z)),
                    Box::new(Val::Var(Box::new(Val::Int(1)), 1, s)),
                )
            },
            (Val::Identifier(s), Val::Var(x, y, z)) => if z == s {
                Val::Var(x, wrap_add64(y, 1), z)
            } else {
                Val::Mul(
                    Box::new(
                        Val::Var(
                            Box::new(spec_mult(Val::Int(1), *x, m, (fuel - 1) as nat)),
                            y,
                            z,
                        ),
                    ),
                    Box::new(Val::Var(Box::new(Val::Int(1)), 1, s)),
                )
            },
            (Val::Int(i), Val::Var(x, y, z)) => Val::Var(Box::new(spec_mult(*x, Val::Int(i), m, (fuel - 1) as nat)), y, z),
            (Val::Var(x, y, z), Val::Int(i)) => Val::Var(Box::new(spec_mult(*x, Val::Int(i), m, (fuel - 1) as nat)), y, z),
            (Val::Rational(r), Val::Var(x, y, z)) => Val::Var(Box::new(spec_mult(Val::Rational(r), *x, m, (fuel - 1) as nat)), y, z),
            (Val::Var(x, y, z), Val::Rational(r)) => Val::Var(Box::new(spec_mult(*x, Val::Rational(r), m, (fuel - 1) as nat)), y, z),
            (Val::Var(x, y, z), Val::Div(s1, s2)) => Val::Div(Box::new(spec_mult(Val::Var(x, y, z), *s1, m, (fuel - 1) as nat)), s2),
            (Val::Div(s1, s2), Val::Var(x, y, z)) => Val::Div(Box::new(spec_mult(*s1, Val::Var(x, y, z), m, (fuel - 1) as nat)), s2),
            (Val::Mul(s1, s2), Val::Div(s3, s4)) => Val::Div(Box::new(spec_mult(*s3, spec_mult(*s1, *s2, m, (fuel - 1) as nat), m, (fuel - 1) as nat)), s4),
            (Val::Div(s1, s2), Val::Mul(s3, s4)) => Val::Div(Box::new(spec_mult(*s1, spec_mult(*s3, *s4, m, (fuel - 1) as nat), m, (fuel - 1) as nat)), s2),
            (Val::Div(s1, s2), Val::Div(s3, s4)) => Val::Div(Box::new(spec_mult(*s1, *s3, m, (fuel - 1) as nat)), Box::new(spec_mult(*s2, *s4, m, (fuel - 1) as nat))),
            (Val::Div(s1, s2), Val::Identifier(s)) => Val::Div(Box::new(spec_mult(*s1, Val::Var(Box::new(Val::Int(1)), 1, s), m, (fuel - 1) as nat)), s2),
            (Val::Identifier(s), Val::Div(s1, s2)) => Val::Div(Box::new(spec_mult(Val::Var(Box::new(Val::Int(1)), 1, s), *s1, m, (fuel - 1) as nat)), s2),
            (Val::Div(s1, s2), Val::Int(i)) => Val::Div(Box::new(spec_mult(*s1, Val::Int(i), m, (fuel - 1) as nat)), s2),
            (Val::Int(i), Val::Div(s1, s2)) => Val::Div(Box::new(spec_mult(Val::Int(i), *s1, m, (fuel - 1) as nat)), s2),
            (Val::Div(s1, s2), Val::Rational(r)) => Val::Div(
                Box::new(spec_mult(*s1, Val::Int(r.n), m, (fuel - 1) as nat)),
                Box::new(spec_mult(*s2, Val::Int(r.d), m, (fuel - 1) as nat)),
            ),
            (Val::Rational(r), Val::Div(s1, s2)) => Val::Div(
                Box::new(spec_mult(Val::Int(r.n), *s1, m, (fuel - 1) as nat)),
                Box::new(spec_mult(*s2, Val::Int(r.d), m, (fuel - 1) as nat)),
            ),
            (Val::Div(s1, s2), Val::Plus(s3, s4)) => Val::Div(Box::new(spec_mult(*s1, spec_add(*s3, *s4, m, (fuel - 1) as nat), m, (fuel - 1) as nat)), s2),
            (Val::Plus(s3, s4), Val::Div(s1, s2)) => Val::Div(Box::new(spec_mult(*s1, spec_add(*s3, *s4, m, (fuel - 1) as nat), m, (fuel - 1) as nat)), s2),
            (Val::Null, Val::Div(s1, s2)) => Val::Div(s1, s2),
            (Val::Div(s1, s2), Val::Null) => Val::Div(s1, s2),
            (Val::Call(x, y), Val::Call(a, b)) => Val::Mul(Box::new(Val::Call(x, y)), Box::new(Val::Call(a, b))),
            (Val::Call(x, y), Val::Null) => Val::Call(x, y),
            (Val::Null, Val::Call(x, y)) => Val::Call(x, y),
            (Val::Call(x, y), Val::Int(i)) => Val::Mul(Box::new(Val::Call(x, y)), Box::new(Val::Int(i))),
            (Val::Call(x, y), Val::Rational(r)) => Val::Mul(Box::new(Val::Call(x, y)), Box::new(Val::Rational(r))),
            (Val::Int(i), Val::Call(x, y)) => Val::Mul(Box::new(Val::Call(x, y)), Box::new(Val::Int(i))),
            (Val::Rational(r), Val::Call(x, y)) => Val::Mul(Box::new(Val::Call(x, y)), Box::new(Val::Rational(r))),
            (Val::Call(x, y), Val::Identifier(a)) => Val::Mul(Box::new(Val::Call(x, y)), Box::new(Val::Var(Box::new(Val::Int(1)), 1, a))),
            (Val::Identifier(a), Val::Call(x, y)) => Val::Mul(Box::new(Val::Var(Box::new(Val::Int(1)), 1, a)), Box::new(Val::Call(x, y))),
            (Val::Call(x, y), Val::Var(a, b, c)) => Val::Mul(Box::new(Val::Call(x, y)), Box::new(Val::Var(a, b, c))),
            (Val::Var(a, b, c), Val::Call(x, y)) => Val::Mul(Box::new(Val::Var(a, b, c)), Box::new(Val::Call(x, y))),
            (Val::Call(x, y), Val::Plus(a, b)) => Val::Mul(Box::new(Val::Plus(a, b)), Box::new(Val::Call(x, y))),
            (Val::Plus(a, b), Val::Call(x, y)) => Val::Mul(Box::new(Val::Call(x, y)), Box::new(Val::Plus(a, b))),
            (Val::Call(x, y), Val::Mul(a, b)) => Val::Mul(Box::new(Val::Call(x, y)), Box::new(Val::Mul(a, b))),
            (Val::Mul(a, b), Val::Call(x, y)) => Val::Mul(Box::new(Val::Mul(a, b)), Box::new(Val::Call(x, y))),
            (Val::Call(x, y), Val::Div(a, b)) => Val::Mul(Box::new(Val::Call(x, y)), Box::new(Val::Div(a, b))),
            (Val::Div(a, b), Val::Call(x, y)) => Val::Mul(Box::new(Val::Div(a, b)), Box::new(Val::Call(x, y))),
            _ => Val::Identifier(mult_incompatible()),
        }
    }
}

/// `mult` with an explicit depth budget.
#[verifier::rlimit(100)]
pub(crate) fn mult_fuel(i: Parameters, i2: Parameters, ram: Option<&Ram>, fuel: u64) -> (r:
    Parameters)
    requires
        val_wf(i@),
        val_wf(i2@),
        oram_wf(oram(ram)),
    ensures
        r@ == spec_mult(i@, i2@, oram(ram), fuel as nat),
        val_wf(r@),
    decreases fuel, 9int, 0int,
{
    if fuel == 0 {
        return depth_error_value();
    }
    match (i, i2) {
        (Parameters::Null, Parameters::Int(v)) => Parameters::Int(v),
        (Parameters::Int(v), Parameters::Null) => Parameters::Int(v),
        (Parameters::Int(v), Parameters::Int(v2)) => Parameters::Int(v.wrapping_mul(v2)),
        (Parameters::Rational(s), Parameters::Null) => Parameters::Rational(s),
        (Parameters::Null, Parameters::Rational(s)) => Parameters::Rational(s),
        (Parameters::Rational(s), Parameters::Rational(s2)) => Parameters::Rational(s.mul(s2)),
        (Parameters::Rational(s), Parameters::Int(i)) => {
            let p = s.mul(Rationals::new(1, i));
            if s.under == 1 && p.under == 1 {
                Parameters::Int(p.over)
            } else {
                Parameters::Rational(p)
            }
        },
        (Parameters::Int(i), Parameters::Rational(s)) => Parameters::Rational(s.mul(Rationals::new(1, i))),
        (Parameters::Null, Parameters::InterpreterVector(vec)) => Parameters::InterpreterVector(vec),
        (Parameters::InterpreterVector(vec), Parameters::Null) => Parameters::InterpreterVector(vec),
        (Parameters::InterpreterVector(vec), Parameters::Int(v)) => {
            let res = scale_elems_fuel(&vec, v, ram, fuel);
            Parameters::InterpreterVector(Box::new(res))
        },
        (Parameters::Int(v), Parameters::InterpreterVector(vec)) => {
            let res = scale_elems_fuel(&vec, v, ram, fuel);
            Parameters::InterpreterVector(Box::new(res))
        },
        (Parameters::InterpreterVector(vec), Parameters::InterpreterVector(vec2)) => vec_mult_case_fuel(vec, vec2, ram, fuel),
        (Parameters::Bool(_), Parameters::Int(i)) => Parameters::Int(i),
        (Parameters::Int(i), Parameters::Bool(_)) => Parameters::Int(i),
        (Parameters::Bool(b), Parameters::Null) => Parameters::Bool(b),
        (Parameters::Null, Parameters::Bool(b)) => Parameters::Bool(b),
        (Parameters::Bool(b), Parameters::Bool(b2)) => Parameters::Bool(b && b2),
        (Parameters::Identifier(s), Parameters::Identifier(s2)) => match ram {
            None => if s == s2 {
                Parameters::Var(Box::new(Parameters::Int(1)), 2, s)
            } else {
                Parameters::Mul(
                    Box::new(Parameters::Var(Box::new(Parameters::Int(1)), 1, s)),
                    Box::new(Parameters::Var(Box::new(Parameters::Int(1)), 1, s2)),
                )
            },
            Some(_) => apply_operator_fuel(
                Parameters::Identifier(s),
                Parameters::Identifier(s2),
                ram,
                BinOp::Mult,
                fuel,
            ),
        },
        (Parameters::Identifier(s), Parameters::Int(i)) => match ram {
            None => Parameters::Var(Box::new(Parameters::Int(i)), 1, s.clone()),
            Some(_) => apply_operator_fuel(Parameters::Identifier(s.clone()), Parameters::Int(i), ram, BinOp::Mult, fuel),
        },
        (Parameters::Rational(r), Parameters::Identifier(ss)) => match ram {
            None => Parameters::Var(Box::new(Parameters::Rational(r)), 1, ss.clone()),
            Some(_) => apply_operator_reverse_fuel(Parameters::Rational(r), Parameters::Identifier(ss.clone()), ram, BinOp::Mult, fuel),
        },
        (Parameters::Identifier(ss), Parameters::Rational(r)) => match ram {
            None => Parameters::Var(Box::new(Parameters::Rational(r)), 1, ss.clone()),
            Some(_) => apply_operator_fuel(Parameters::Identifier(ss.clone()), Parameters::Rational(r), ram, BinOp::Mult, fuel),
        },
        (Parameters::Int(i), Parameters::Identifier(s)) => match ram {
            None => Parameters::Var(Box::new(Parameters::Int(i)), 1, s.clone()),
            Some(_) => apply_operator_fuel(Parameters::Identifier(s.clone()), Parameters::Int(i), ram, BinOp::Mult, fuel),
        },
        (Parameters::Identifier(s), Parameters::InterpreterVector(vec)) => match ram {
            None => Parameters::InterpreterVector(vec),
            Some(_) => apply_operator_fuel(Parameters::Identifier(s.clone()), Parameters::InterpreterVector(vec), ram, BinOp::Mult, fuel),
        },
        (Parameters::InterpreterVector(vec), Parameters::Identifier(s)) => match ram {
            None => Parameters::InterpreterVector(vec),
            Some(_) => apply_operator_reverse_fuel(Parameters::InterpreterVector(vec), Parameters::Identifier(s.clone()), ram, BinOp::Mult, fuel),
        },
        (Parameters::Null, Parameters::Identifier(s)) => match ram {
            None => Parameters::Var(Box::new(Parameters::Int(1)), 1, s.clone()),
            Some(_) => apply_operator_fuel(Parameters::Identifier(s.clone()), Parameters::Null, ram, BinOp::Mult, fuel),
        },
        (Parameters::Identifier(s), Parameters::Null) => match ram {
            None => Parameters::Var(Box::new(Parameters::Int(1)), 1, s.clone()),
            Some(_) => apply_operator_fuel(Parameters::Identifier(s.clone()), Parameters::Null, ram, BinOp::Mult, fuel),
        },
        (Parameters::Bool(b), Parameters::Identifier(s)) => match ram {
            None => Parameters::Bool(b),
            Some(_) => apply_operator_reverse_fuel(Parameters::Bool(b), Parameters::Identifier(s.clone()), ram, BinOp::Mult, fuel),
        },
        (Parameters::Identifier(s), Parameters::Bool(b)) => match ram {
            None => Parameters::Bool(b),
            Some(_) => apply_operator_fuel(Parameters::Identifier(s.clone()), Parameters::Bool(b), ram, BinOp::Mult, fuel),
        },
        (Parameters::Plus(s1, s2), Parameters::Plus(s3, s4)) => {
            let first = Parameters::Plus(Box::new(crate::functions::add::add_fuel(crate::functions::mult::mult_fuel((*s1).clone(), (*s3).clone(), ram, fuel - 1), crate::functions::mult::mult_fuel((*s2).clone(), (*s3).clone(), ram, fuel - 1), ram, fuel - 1)), Box::new(crate::functions::add::add_fuel(crate::functions::mult::mult_fuel((*s1).clone(), (*s4).clone(), ram, fuel - 1), crate::functions::mult::mult_fuel((*s2).clone(), (*s4).clone(), ram, fuel - 1), ram, fuel - 1)));
            let second = Parameters::Plus(Box::new(crate::functions::add::add_fuel(crate::functions::mult::mult_fuel((*s1).clone(), (*s3).clone(), ram, fuel - 1), crate::functions::mult::mult_fuel((*s2).clone(), (*s4).clone(), ram, fuel - 1), ram, fuel - 1)), Box::new(crate::functions::add::add_fuel(crate::functions::mult::mult_fuel((*s2).clone(), (*s3).clone(), ram, fuel - 1), crate::functions::mult::mult_fuel((*s1).clone(), (*s4).clone(), ram, fuel - 1), ram, fuel - 1)));
            let sz1 = crate::symbolic::size(&first);
            let sz2 = crate::symbolic::size(&second);
            if sz1 > sz2 {
                second
            } else {
                first
            }
        },
        (Parameters::Plus(s1, s2), Parameters::Identifier(s3)) => Parameters::Plus(Box::new(crate::functions::mult::mult_fuel((*s1).clone(), Parameters::Var(Box::new(Parameters::Int(1)), 1, s3.clone()), ram, fuel - 1)), Box::new(crate::functions::mult::mult_fuel((*s2).clone(), Parameters::Var(Box::new(Parameters::Int(1)), 1, s3.clone()), ram, fuel - 1))),
        (Parameters::Identifier(s3), Parameters::Plus(s1, s2)) => Parameters::Plus(Box::new(crate::functions::mult::mult_fuel(Parameters::Var(Box::new(Parameters::Int(1)), 1, s3.clone()), (*s1).clone(), ram, fuel - 1)), Box::new(crate::functions::mult::mult_fuel(Parameters::Var(Box::new(Parameters::Int(1)), 1, s3.clone()), (*s2).clone(), ram, fuel - 1))),
        (Parameters::Int(i), Parameters::Plus(s1, s2)) => Parameters::Plus(Box::new(crate::functions::mult::mult_fuel(Parameters::Int(i), (*s1).clone(), ram, fuel - 1)), Box::new(crate::functions::mult::mult_fuel(Parameters::Int(i), (*s2).clone(), ram, fuel - 1))),
        (Parameters::Plus(s1, s2), Parameters::Int(i)) => Parameters::Plus(Box::new(crate::functions::mult::mult_fuel((*s1).clone(), Parameters::Int(i), ram, fuel - 1)), Box::new(crate::functions::mult::mult_fuel((*s2).clone(), Parameters::Int(i), ram, fuel - 1))),
        (Parameters::Rational(r), Parameters::Plus(s1, s2)) => Parameters::Plus(Box::new(crate::functions::mult::mult_fuel(Parameters::Rational(r), (*s1).clone(), ram, fuel - 1)), Box::new(crate::functions::mult::mult_fuel(Parameters::Rational(r), (*s2).clone(), ram, fuel - 1))),
        (Parameters::Plus(s1, s2), Parameters::Rational(r)) => Parameters::Plus(Box::new(crate::functions::mult::mult_fuel((*s1).clone(), Parameters::Rational(r), ram, fuel - 1)), Box::new(crate::functions::mult::mult_fuel((*s2).clone(), Parameters::Rational(r), ram, fuel - 1))),
        (Parameters::Var(x, y, z), Parameters::Plus(s1, s2)) => Parameters::Plus(Box::new(crate::functions::mult::mult_fuel((*s1).clone(), Parameters::Var(x.clone(), y, z.clone()), ram, fuel - 1)), Box::new(crate::functions::mult::mult_fuel((*s2).clone(), Parameters::Var(x.clone(), y, z.clone()), ram, fuel - 1))),
        (Parameters::Plus(s1, s2), Parameters::Var(x, y, z)) => Parameters::Plus(Box::new(crate::functions::mult::mult_fuel((*s1).clone(), Parameters::Var(x.clone(), y, z.clone()), ram, fuel - 1)), Box::new(crate::functions::mult::mult_fuel((*s2).clone(), Parameters::Var(x.clone(), y, z.clone()), ram, fuel - 1))),
        (Parameters::Null, Parameters::Plus(s1, s2)) => Parameters::Plus(s1.clone(), s2.clone()),
        (Parameters::Plus(s1, s2), Parameters::Null) => Parameters::Plus(s1.clone(), s2.clone()),
        (Parameters::Var(x, y, z), Parameters::Mul(s1, s2)) => {
            let first = Parameters::Mul(Box::new(crate::functions::mult::mult_fuel((*s1).clone(), Parameters::Var(x.clone(), y, z.clone()), ram, fuel - 1)), s2.clone());
            let second = Parameters::Mul(s1.clone(), Box::new(crate::functions::mult::mult_fuel((*s2).clone(), Parameters::Var(x.clone(), y, z.clone()), ram, fuel - 1)));
            let sz1 = crate::symbolic::size(&first);
            let sz2 = crate::symbolic::size(&second);
            if sz1 > sz2 {
                second
            } else {
                first
            }
        },
        (Parameters::Mul(s1, s2), Parameters::Var(x, y, z)) => {
            let first = Parameters::Mul(Box::new(crate::functions::mult::mult_fuel((*s1).clone(), Parameters::Var(x.clone(), y, z.clone()), ram, fuel - 1)), s2.clone());
            let second = Parameters::Mul(s1.clone(), Box::new(crate::functions::mult::mult_fuel((*s2).clone(), Parameters::Var(x.clone(), y, z.clone()), ram, fuel - 1)));
            let sz1 = crate::symbolic::size(&first);
            let sz2 = crate::symbolic::size(&second);
            if sz1 > sz2 {
                second
            } else {
                first
            }
        },
        (Parameters::Mul(s1, s2), Parameters::Mul(s3, s4)) => {
            let first = Parameters::Mul(Box::new(crate::functions::mult::mult_fuel((*s1).clone(), (*s3).clone(), ram, fuel - 1)), Box::new(crate::functions::mult::mult_fuel((*s2).clone(), (*s4).clone(), ram, fuel - 1)));
            let second = Parameters::Mul(Box::new(crate::functions::mult::mult_fuel((*s1).clone(), (*s4).clone(), ram, fuel - 1)), Box::new(crate::functions::mult::mult_fuel((*s2).clone(), (*s3).clone(), ram, fuel - 1)));
            let sz1 = crate::symbolic::size(&first);
            let sz2 = crate::symbolic::size(&second);
            if sz1 > sz2 {
                second
            } else {
                first
            }
        },
        (Parameters::Mul(s1, s2), Parameters::Identifier(s)) => Parameters::Mul(Box::new(crate::functions::mult::mult_fuel((*s1).clone(), Parameters::Var(Box::new(Parameters::Int(1)), 1, s.clone()), ram, fuel - 1)), s2.clone()),
        (Parameters::Identifier(s), Parameters::Mul(s1, s2)) => Parameters::Mul(Box::new(crate::functions::mult::mult_fuel((*s1).clone(), Parameters::Var(Box::new(Parameters::Int(1)), 1, s.clone()), ram, fuel - 1)), s2.clone()),
        (Parameters::Mul(s1, s2), Parameters::Int(i)) => Parameters::Mul(Box::new(crate::functions::mult::mult_fuel((*s1).clone(), Parameters::Int(i), ram, fuel - 1)), s2.clone()),
        (Parameters::Int(i), Parameters::Mul(s1, s2)) => Parameters::Mul(Box::new(crate::functions::mult::mult_fuel((*s1).clone(), Parameters::Int(i), ram, fuel - 1)), s2.clone()),
        (Parameters::Mul(s1, s2), Parameters::Rational(r)) => Parameters::Mul(Box::new(crate::functions::mult::mult_fuel((*s1).clone(), Parameters::Rational(r), ram, fuel - 1)), s2.clone()),
        (Parameters::Rational(r), Parameters::Mul(s1, s2)) => Parameters::Mul(Box::new(crate::functions::mult::mult_fuel((*s1).clone(), Parameters::Rational(r), ram, fuel - 1)), s2.clone()),
        (Parameters::Mul(s1, s2), Parameters::Plus(s3, s4)) => Parameters::Plus(Box::new(crate::functions::mult::mult_fuel(crate::functions::mult::mult_fuel((*s1).clone(), (*s3).clone(), ram, fuel - 1), (*s2).clone(), ram, fuel - 1)), Box::new(crate::functions::mult::mult_fuel(crate::functions::mult::mult_fuel((*s1).clone(), (*s4).clone(), ram, fuel - 1), (*s2).clone(), ram, fuel - 1))),
        (Parameters::Plus(s3, s4), Parameters::Mul(s1, s2)) => Parameters::Plus(Box::new(crate::functions::mult::mult_fuel(crate::functions::mult::mult_fuel((*s1).clone(), (*s3).clone(), ram, fuel - 1), (*s2).clone(), ram, fuel - 1)), Box::new(crate::functions::mult::mult_fuel(crate::functions::mult::mult_fuel((*s1).clone(), (*s4).clone(), ram, fuel - 1), (*s2).clone(), ram, fuel - 1))),
        (Parameters::Null, Parameters::Mul(s1, s2)) => Parameters::Mul(s1.clone(), s2.clone()),
        (Parameters::Mul(s1, s2), Parameters::Null) => Parameters::Mul(s1.clone(), s2.clone()),
        (Parameters::Var(x, y, z), Parameters::Var(x1, y1, z1)) => if z == z1 {
            Parameters::Var(
                Box::new(
                    crate::functions::mult::mult_fuel(
                        (*x).clone(),
                        (*x1).clone(),
                        ram,
                        fuel - 1,
                    ),
                ),
                y.wrapping_add(y1),
                z,
            )
        } else {
            Parameters::Mul(
                Box::new(Parameters::Var(x.clone(), y, z.clone())),
                Box::new(
                    Parameters::Var(
                        Box::new(
                            crate::functions::mult::mult_fuel(
                                Parameters::Int(1),
                                (*x1).clone(),
                                ram,
                                fuel - 1,
                            ),
                        ),
                        y1,
                        z1,
                    ),
                ),
            )
        },
        (Parameters::Var(x, y, z), Parameters::Identifier(s)) => if z == s {
            Parameters::Var(x, y.wrapping_add(1), z)
        } else {
            Parameters::Mul(
                Box::new(Parameters::Var(x.clone(), y, z.clone())),
                Box::new(Parameters::Var(Box::new(Parameters::Int(1)), 1, s)),
            )
        },
        (Parameters::Identifier(s), Parameters::Var(x, y, z)) => if z == s {
            Parameters::Var(x, y.wrapping_add(1), z)
        } else {
            Parameters::Mul(
                Box::new(
                    Parameters::Var(
                        Box::new(
                            crate::functions::mult::mult_fuel(
                                Parameters::Int(1),
                                (*x).clone(),
                                ram,
                                fuel - 1,
                            ),
                        ),
                        y,
                        z.clone(),
                    ),
                ),
                Box::new(Parameters::Var(Box::new(Parameters::Int(1)), 1, s)),
            )
        },
        (Parameters::Int(i), Parameters::Var(x, y, z)) => Parameters::Var(Box::new(crate::functions::mult::mult_fuel((*x).clone(), Parameters::Int(i), ram, fuel - 1)), y, z.clone()),
        (Parameters::Var(x, y, z), Parameters::Int(i)) => Parameters::Var(Box::new(crate::functions::mult::mult_fuel((*x).clone(), Parameters::Int(i), ram, fuel - 1)), y, z.clone()),
        (Parameters::Rational(r), Parameters::Var(x, y, z)) => Parameters::Var(Box::new(crate::functions::mult::mult_fuel(Parameters::Rational(r), (*x).clone(), ram, fuel - 1)), y, z.clone()),
        (Parameters::Var(x, y, z), Parameters::Rational(r)) => Parameters::Var(Box::new(crate::functions::mult::mult_fuel((*x).clone(), Parameters::Rational(r), ram, fuel - 1)), y, z.clone()),
        (Parameters::Var(x, y, z), Parameters::Div(s1, s2)) => Parameters::Div(Box::new(crate::functions::mult::mult_fuel(Parameters::Var(x.clone(), y, z.clone()), (*s1).clone(), ram, fuel - 1)), s2.clone()),
        (Parameters::Div(s1, s2), Parameters::Var(x, y, z)) => Parameters::Div(Box::new(crate::functions::mult::mult_fuel((*s1).clone(), Parameters::Var(x.clone(), y, z.clone()), ram, fuel - 1)), s2.clone()),
        (Parameters::Mul(s1, s2), Parameters::Div(s3, s4)) => Parameters::Div(Box::new(crate::functions::mult::mult_fuel((*s3).clone(), crate::functions::mult::mult_fuel((*s1).clone(), (*s2).clone(), ram, fuel - 1), ram, fuel - 1)), s4.clone()),
        (Parameters::Div(s1, s2), Parameters::Mul(s3, s4)) => Parameters::Div(Box::new(crate::functions::mult::mult_fuel((*s1).clone(), crate::functions::mult::mult_fuel((*s3).clone(), (*s4).clone(), ram, fuel - 1), ram, fuel - 1)), s2.clone()),
        (Parameters::Div(s1, s2), Parameters::Div(s3, s4)) => Parameters::Div(Box::new(crate::functions::mult::mult_fuel((*s1).clone(), (*s3).clone(), ram, fuel - 1)), Box::new(crate::functions::mult::mult_fuel((*s2).clone(), (*s4).clone(), ram, fuel - 1))),
        (Parameters::Div(s1, s2), Parameters::Identifier(s)) => Parameters::Div(Box::new(crate::functions::mult::mult_fuel((*s1).clone(), Parameters::Var(Box::new(Parameters::Int(1)), 1, s.clone()), ram, fuel - 1)), s2.clone()),
        (Parameters::Identifier(s), Parameters::Div(s1, s2)) => Parameters::Div(Box::new(crate::functions::mult::mult_fuel(Parameters::Var(Box::new(Parameters::Int(1)), 1, s.clone()), (*s1).clone(), ram, fuel - 1)), s2.clone()),
        (Parameters::Div(s1, s2), Parameters::Int(i)) => Parameters::Div(Box::new(crate::functions::mult::mult_fuel((*s1).clone(), Parameters::Int(i), ram, fuel - 1)), s2.clone()),
        (Parameters::Int(i), Parameters::Div(s1, s2)) => Parameters::Div(Box::new(crate::functions::mult::mult_fuel(Parameters::Int(i), (*s1).clone(), ram, fuel - 1)), s2.clone()),
        (Parameters::Div(s1, s2), Parameters::Rational(r)) => Parameters::Div(
            Box::new(
                crate::functions::mult::mult_fuel(
                    (*s1).clone(),
                    Parameters::Int(r.over),
                    ram,
                    fuel - 1,
                ),
            ),
            Box::new(
                crate::functions::mult::mult_fuel(
                    (*s2).clone(),
                    Parameters::Int(r.under),
                    ram,
                    fuel - 1,
                ),
            ),
        ),
        (Parameters::Rational(r), Parameters::Div(s1, s2)) => Parameters::Div(
            Box::new(
                crate::functions::mult::mult_fuel(
                    Parameters::Int(r.over),
                    (*s1).clone(),
                    ram,
                    fuel - 1,
                ),
            ),
            Box::new(
                crate::functions::mult::mult_fuel(
                    (*s2).clone(),
                    Parameters::Int(r.under),
                    ram,
                    fuel - 1,
                ),
            ),
        ),
        (Parameters::Div(s1, s2), Parameters::Plus(s3, s4)) => Parameters::Div(Box::new(crate::functions::mult::mult_fuel((*s1).clone(), crate::functions::add::add_fuel((*s3).clone(), (*s4).clone(), ram, fuel - 1), ram, fuel - 1)), s2.clone()),
        (Parameters::Plus(s3, s4), Parameters::Div(s1, s2)) => Parameters::Div(Box::new(crate::functions::mult::mult_fuel((*s1).clone(), crate::functions::add::add_fuel((*s3).clone(), (*s4).clone(), ram, fuel - 1), ram, fuel - 1)), s2.clone()),
        (Parameters::Null, Parameters::Div(s1, s2)) => Parameters::Div(s1.clone(), s2.clone()),
        (Parameters::Div(s1, s2), Parameters::Null) => Parameters::Div(s1.clone(), s2.clone()),
        (Parameters::Call(x, y), Parameters::Call(a, b)) => Parameters::Mul(Box::new(Parameters::Call(x.clone(), y.clone())), Box::new(Parameters::Call(a.clone(), b.clone()))),
        (Parameters::Call(x, y), Parameters::Null) => Parameters::Call(x.clone(), y.clone()),
        (Parameters::Null, Parameters::Call(x, y)) => Parameters::Call(x.clone(), y.clone()),
        (Parameters::Call(x, y), Parameters::Int(i)) => Parameters::Mul(Box::new(Parameters::Call(x.clone(), y.clone())), Box::new(Parameters::Int(i))),
        (Parameters::Call(x, y), Parameters::Rational(r)) => Parameters::Mul(Box::new(Parameters::Call(x.clone(), y.clone())), Box::new(Parameters::Rational(r))),
        (Parameters::Int(i), Parameters::Call(x, y)) => Parameters::Mul(Box::new(Parameters::Call(x.clone(), y.clone())), Box::new(Parameters::Int(i))),
        (Parameters::Rational(r), Parameters::Call(x, y)) => Parameters::Mul(Box::new(Parameters::Call(x.clone(), y.clone())), Box::new(Parameters::Rational(r))),
        (Parameters::Call(x, y), Parameters::Identifier(a)) => Parameters::Mul(Box::new(Parameters::Call(x.clone(), y.clone())), Box::new(Parameters::Var(Box::new(Parameters::Int(1)), 1, a.clone()))),
        (Parameters::Identifier(a), Parameters::Call(x, y)) => Parameters::Mul(Box::new(Parameters::Var(Box::new(Parameters::Int(1)), 1, a.clone())), Box::new(Parameters::Call(x.clone(), y.clone()))),
        (Parameters::Call(x, y), Parameters::Var(a, b, c)) => Parameters::Mul(Box::new(Parameters::Call(x.clone(), y.clone())), Box::new(Parameters::Var(a.clone(), b, c.clone()))),
        (Parameters::Var(a, b, c), Parameters::Call(x, y)) => Parameters::Mul(Box::new(Parameters::Var(a.clone(), b, c.clone())), Box::new(Parameters::Call(x.clone(), y.clone()))),
        (Parameters::Call(x, y), Parameters::Plus(a, b)) => Parameters::Mul(Box::new(Parameters::Plus(a.clone(), b.clone())), Box::new(Parameters::Call(x.clone(), y.clone()))),
        (Parameters::Plus(a, b), Parameters::Call(x, y)) => Parameters::Mul(Box::new(Parameters::Call(x.clone(), y.clone())), Box::new(Parameters::Plus(a.clone(), b.clone()))),
        (Parameters::Call(x, y), Parameters::Mul(a, b)) => Parameters::Mul(Box::new(Parameters::Call(x.clone(), y.clone())), Box::new(Parameters::Mul(a.clone(), b.clone()))),
        (Parameters::Mul(a, b), Parameters::Call(x, y)) => Parameters::Mul(Box::new(Parameters::Mul(a.clone(), b.clone())), Box::new(Parameters::Call(x.clone(), y.clone()))),
        (Parameters::Call(x, y), Parameters::Div(a, b)) => Parameters::Mul(Box::new(Parameters::Call(x.clone(), y.clone())), Box::new(Parameters::Div(a.clone(), b.clone()))),
        (Parameters::Div(a, b), Parameters::Call(x, y)) => Parameters::Mul(Box::new(Parameters::Div(a.clone(), b.clone())), Box::new(Parameters::Call(x.clone(), y.clone()))),
        _ => mult_error(),
    }
}

/// Multiply two values, resolving identifiers against the environment.
pub fn mult(i: Parameters, i2: Parameters, ram: Option<&Ram>) -> (r: Parameters)
    requires
        val_wf(i@),
        val_wf(i2@),
        oram_wf(oram(ram)),
    ensures
        r@ == spec_mult(i@, i2@, oram(ram), EVAL_DEPTH as nat),
        val_wf(r@),
{
    mult_fuel(i, i2, ram, EVAL_DEPTH)
}

} // verus!
