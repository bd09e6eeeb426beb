//! Instancer state and the instance index table: the active instances of
//! each instancing level, and the flat table that lists every combination
//! of them with its running number.

use vstd::prelude::*;
use vstd::arithmetic::div_mod::{
    lemma_div_denominator, lemma_fundamental_div_mod, lemma_fundamental_div_mod_converse,
    lemma_mod_bound,
    lemma_multiply_divide_lt,
};
use vstd::arithmetic::mul::lemma_mul_strictly_positive;
use vstd::slice::slice_subrange;
use crate::named_entries::{lookup, lookup_entry, set_entry};
use crate::text::str_eq;

verus! {

/// Plain view of a list of index levels.
pub open spec fn levels_view(levels: Seq<Vec<i32>>) -> Seq<Seq<i32>> {
    levels.map_values(|v: Vec<i32>| v@)
}

/// Number of combinations of the first `l` levels: the product of their
/// lengths.
pub open spec fn level_span(levels: Seq<Seq<i32>>, l: nat) -> nat
    decreases l,
{
    if l == 0 {
        1
    } else {
        level_span(levels, (l - 1) as nat) * levels[l - 1].len()
    }
}

/// Combination `j` divided down past the first `l` levels.
pub open spec fn level_quotient(levels: Seq<Seq<i32>>, l: nat, j: nat) -> nat
    decreases l,
{
    if l == 0 {
        j
    } else {
        level_quotient(levels, (l - 1) as nat, j) / levels[l - 1].len()
    }
}

/// Position within level `l` of combination `j`; level 0 varies fastest.
pub open spec fn level_cursor(levels: Seq<Seq<i32>>, l: nat, j: nat) -> nat {
    level_quotient(levels, l, j) % levels[l as int].len()
}

/// Entry `r` of row `j` of the index table: the row number, then the index
/// chosen from each level.
pub open spec fn index_table_entry(levels: Seq<Seq<i32>>, j: nat, r: nat) -> i32 {
    if r == 0 {
        j as i32
    } else {
        levels[r - 1][level_cursor(levels, (r - 1) as nat, j) as int]
    }
}

/// Whether `out` is the index table of `levels`: empty when there are no
/// levels or no combination, otherwise one row of `1 + levels` entries per
/// combination.
pub open spec fn is_index_table(levels: Seq<Seq<i32>>, out: Seq<i32>) -> bool {
    let n = level_span(levels, levels.len());
    let w = levels.len() + 1;
    if levels.len() == 0 || n == 0 {
        out.len() == 0
    } else {
        &&& out.len() == n * w
        &&& forall|j: int, r: int|
            0 <= j < n && 0 <= r < w ==> #[trigger] out[j * w + r] == index_table_entry(
                levels,
                j as nat,
                r as nat,
            )
    }
}

/// The product of the lengths fits the machine at every prefix.
pub open spec fn spans_fit(levels: Seq<Seq<i32>>) -> bool {
    &&& forall|l: nat| l <= levels.len() ==> #[trigger] level_span(levels, l) <= usize::MAX
    &&& level_span(levels, levels.len()) * (levels.len() + 1) <= usize::MAX
}

proof fn lemma_span_factors(levels: Seq<Seq<i32>>, l: nat)
    requires
        l <= levels.len(),
        level_span(levels, l) > 0,
    ensures
        forall|m: nat| m < l ==> #[trigger] levels[m as int].len() > 0,
        forall|m: nat| m <= l ==> #[trigger] level_span(levels, m) > 0,
    decreases l,
{
    if l > 0 {
        let p = level_span(levels, (l - 1) as nat);
        let k = levels[l - 1].len();
        assert(p > 0 && k > 0) by {
            if p == 0 || k == 0 {
                assert(p * k == 0) by (nonlinear_arith)
                    requires
                        p == 0 || k == 0,
                ;
            }
        }
        lemma_span_factors(levels, (l - 1) as nat);
    }
}

proof fn lemma_quotient_is_division(levels: Seq<Seq<i32>>, l: nat, j: nat)
    requires
        l <= levels.len(),
        forall|m: nat| m < l ==> #[trigger] levels[m as int].len() > 0,
    ensures
        level_span(levels, l) > 0,
        level_quotient(levels, l, j) == j / level_span(levels, l),
    decreases l,
{
    if l > 0 {
        let lm = (l - 1) as nat;
        lemma_quotient_is_division(levels, lm, j);
        let s = level_span(levels, lm);
        let k = levels[lm as int].len();
        assert(k > 0);
        lemma_mul_strictly_positive(s as int, k as int);
        lemma_div_denominator(j as int, s as int, k as int);
        let q = level_quotient(levels, lm, j);
        assert(q == j / s);
        assert(level_quotient(levels, l, j) == q / k);
        assert(level_span(levels, l) == s * k);
        assert((j as int / s as int) / k as int == j as int / (s as int * k as int));
        assert(level_quotient(levels, l, j) == j / level_span(levels, l));
    } else {
        assert(level_span(levels, 0) == 1);
        assert(j / 1 == j);
    }
}

proof fn lemma_quotient_zero(levels: Seq<Seq<i32>>, l: nat)
    requires
        l <= levels.len(),
        forall|m: nat| m < l ==> #[trigger] levels[m as int].len() > 0,
    ensures
        level_quotient(levels, l, 0) == 0,
    decreases l,
{
    if l > 0 {
        lemma_quotient_zero(levels, (l - 1) as nat);
    }
}

proof fn lemma_quotients_agree(levels: Seq<Seq<i32>>, l: nat, m: nat, a: nat, b: nat)
    requires
        l <= m,
        level_quotient(levels, l, a) == level_quotient(levels, l, b),
    ensures
        level_quotient(levels, m, a) == level_quotient(levels, m, b),
    decreases m - l,
{
    if l < m {
        lemma_quotients_agree(levels, l, (m - 1) as nat, a, b);
    }
}

/// Adding one to `a` when its last digit in base `b` is the largest.
proof fn lemma_step_carry(a: nat, b: nat)
    requires
        b > 0,
        a % b == b - 1,
    ensures
        (a + 1) % b == 0,
        (a + 1) / b == a / b + 1,
{
    lemma_fundamental_div_mod(a as int, b as int);
    let q = a / b;
    let r = a % b;
    assert((a + 1) as int == (q + 1) * b + 0) by (nonlinear_arith)
        requires
            a as int == b * q + r,
            r == b - 1,
    ;
    lemma_fundamental_div_mod_converse((a + 1) as int, b as int, (q + 1) as int, 0);
}

/// Adding one to `a` when its last digit in base `b` is not the largest.
proof fn lemma_step_no_carry(a: nat, b: nat)
    requires
        b > 0,
        a % b + 1 < b,
    ensures
        (a + 1) % b == a % b + 1,
        (a + 1) / b == a / b,
{
    lemma_fundamental_div_mod(a as int, b as int);
    let q = a / b;
    let r = a % b;
    assert((a + 1) as int == q * b + (r + 1)) by (nonlinear_arith)
        requires
            a as int == b * q + r,
    ;
    lemma_fundamental_div_mod_converse((a + 1) as int, b as int, q as int, (r + 1) as int);
}

/// Below the number of combinations, every cursor stays inside its level.
proof fn lemma_cursor_bound(levels: Seq<Seq<i32>>, l: nat, j: nat)
    requires
        l < levels.len(),
        forall|m: nat| m < levels.len() ==> #[trigger] levels[m as int].len() > 0,
    ensures
        level_cursor(levels, l, j) < levels[l as int].len(),
{
    lemma_mod_bound(level_quotient(levels, l, j) as int, levels[l as int].len() as int);
}

/// Below the number of combinations, the quotient past all but the last
/// level is a position of the last level.
proof fn lemma_top_quotient_bound(levels: Seq<Seq<i32>>, j: nat)
    requires
        levels.len() > 0,
        forall|m: nat| m < levels.len() ==> #[trigger] levels[m as int].len() > 0,
        j < level_span(levels, levels.len()),
    ensures
        level_quotient(levels, (levels.len() - 1) as nat, j) < levels[levels.len() - 1].len(),
{
    let t = (levels.len() - 1) as nat;
    lemma_quotient_is_division(levels, t, j);
    lemma_multiply_divide_lt(j as int, level_span(levels, t) as int, levels[t as int].len() as int);
}

/// Lists every combination of the levels, level 0 varying fastest; each
/// row is the combination's number followed by the index taken from each
/// level.
fn build_index_table(levels: &Vec<Vec<i32>>) -> (out: Vec<i32>)
    requires
        spans_fit(levels_view(levels@)),
    ensures
        is_index_table(levels_view(levels@), out@),
{
    let ghost lv = levels_view(levels@);
    let num_levels = levels.len();
    if num_levels == 0 {
        return Vec::new();
    }
    let mut n_total: usize = 1;
    let mut l: usize = 0;
    while l < num_levels
        invariant
            lv == levels_view(levels@),
            num_levels == levels@.len(),
            spans_fit(lv),
            l <= num_levels,
            n_total == level_span(lv, l as nat),
        decreases num_levels - l,
    {
        assert(level_span(lv, (l + 1) as nat) <= usize::MAX);
        n_total = n_total * levels[l].len();
        l = l + 1;
    }
    if n_total == 0 {
        return Vec::new();
    }
    proof {
        lemma_span_factors(lv, num_levels as nat);
    }
    proof {
        assert(num_levels + 1 <= n_total * (num_levels + 1)) by (nonlinear_arith)
            requires
                n_total >= 1,
        ;
    }
    let index_width = 1 + num_levels;
    let ghost w = index_width as int;
    let mut output: Vec<i32> = Vec::new();
    let mut cursors: Vec<usize> = Vec::new();
    let mut c: usize = 0;
    while c < num_levels
        invariant
            c <= num_levels,
            cursors@.len() == c,
            forall|m: int| 0 <= m < c ==> #[trigger] cursors@[m] == 0,
        decreases num_levels - c,
    {
        cursors.push(0);
        c = c + 1;
    }
    proof {
        assert forall|m: nat| m < num_levels implies #[trigger] cursors@[m as int] == level_cursor(lv, m, 0) by {
            lemma_quotient_zero(lv, m);
            lemma_fundamental_div_mod_converse(0, lv[m as int].len() as int, 0, 0);
        }
    }
    let mut j: usize = 0;
    while j < n_total
        invariant
            lv == levels_view(levels@),
            num_levels == levels@.len(),
            num_levels > 0,
            index_width == num_levels + 1,
            w == index_width,
            n_total == level_span(lv, num_levels as nat),
            n_total > 0,
            forall|m: nat| m < num_levels ==> #[trigger] lv[m as int].len() > 0,
            j <= n_total,
            cursors@.len() == num_levels,
            output@.len() == j * w,
            j < n_total ==> forall|m: nat|
                m < num_levels ==> #[trigger] cursors@[m as int] == level_cursor(lv, m, j as nat),
            forall|jj: int, r: int|
                0 <= jj < j && 0 <= r < w ==> #[trigger] output@[jj * w + r] == index_table_entry(
                    lv,
                    jj as nat,
                    r as nat,
                ),
        decreases n_total - j,
    {
        let ghost prev = output@;
        output.push(j as i32);
        let mut level: usize = 0;
        while level < num_levels
            invariant
                lv == levels_view(levels@),
                num_levels == levels@.len(),
                w == num_levels + 1,
                forall|m: nat| m < num_levels ==> #[trigger] lv[m as int].len() > 0,
                cursors@.len() == num_levels,
                forall|m: nat|
                    m < num_levels ==> #[trigger] cursors@[m as int] == level_cursor(lv, m, j as nat),
                level <= num_levels,
                prev.len() == j * w,
                output@.len() == prev.len() + 1 + level,
                output@[prev.len() as int] == j as i32,
                forall|k: int| 0 <= k < prev.len() ==> #[trigger] output@[k] == prev[k],
                forall|r: int|
                    1 <= r < 1 + level ==> #[trigger] output@[prev.len() + r] == index_table_entry(
                        lv,
                        j as nat,
                        r as nat,
                    ),
            decreases num_levels - level,
        {
            let cursor = cursors[level];
            proof {
                lemma_cursor_bound(lv, level as nat, j as nat);
                assert(lv[level as int] == levels@[level as int]@);
            }
            output.push(levels[level][cursor]);
            level = level + 1;
        }
        proof {
            assert forall|jj: int, r: int| 0 <= jj < j + 1 && 0 <= r < w implies #[trigger] output@[jj * w + r]
                == index_table_entry(lv, jj as nat, r as nat) by {
                if jj < j {
                    assert(jj * w + r < j * w) by (nonlinear_arith)
                        requires
                            0 <= jj < j,
                            0 <= r < w,
                    ;
                    assert(jj * w + r >= 0) by (nonlinear_arith)
                        requires
                            0 <= jj,
                            0 <= r,
                            0 < w,
                    ;
                } else {
                    assert(jj * w + r == prev.len() + r);
                    if r > 0 {
                        assert(output@[prev.len() + r] == index_table_entry(lv, j as nat, r as nat));
                    }
                }
            }
            assert((j + 1) * w == j * w + w) by (nonlinear_arith);
        }
        let ghost digits = cursors@;
        let len0 = levels[0].len();
        proof {
            lemma_cursor_bound(lv, 0, j as nat);
            assert(lv[0] == levels@[0]@);
        }
        let first = cursors[0] + 1;
        cursors.set(0, first);
        let mut carry_level: usize = 0;
        while carry_level < num_levels - 1 && cursors[carry_level] >= levels[carry_level].len()
            invariant
                lv == levels_view(levels@),
                num_levels == levels@.len(),
                num_levels > 0,
                forall|m: nat| m < num_levels ==> #[trigger] lv[m as int].len() > 0,
                cursors@.len() == num_levels,
                digits.len() == num_levels,
                forall|m: nat|
                    m < num_levels ==> #[trigger] digits[m as int] == level_cursor(lv, m, j as nat),
                carry_level < num_levels,
                forall|m: int| 0 <= m < carry_level ==> #[trigger] cursors@[m] == 0,
                forall|m: nat| m < carry_level ==> #[trigger] level_cursor(lv, m, (j + 1) as nat) == 0,
                cursors@[carry_level as int] == digits[carry_level as int] + 1,
                forall|m: int| carry_level < m < num_levels ==> #[trigger] cursors@[m] == digits[m],
                level_quotient(lv, carry_level as nat, (j + 1) as nat) == level_quotient(
                    lv,
                    carry_level as nat,
                    j as nat,
                ) + 1,
            decreases num_levels - carry_level,
        {
            let c = carry_level;
            proof {
                let len = lv[c as int].len();
                assert(lv[c as int] == levels@[c as int]@);
                lemma_cursor_bound(lv, c as nat, j as nat);
                lemma_step_carry(level_quotient(lv, c as nat, j as nat), len);
                lemma_cursor_bound(lv, (c + 1) as nat, j as nat);
                assert(lv[c + 1] == levels@[c + 1]@);
            }
            let len_next = levels[c + 1].len();
            proof {
                assert(level_cursor(lv, c as nat, (j + 1) as nat) == 0);
                assert(level_quotient(lv, (c + 1) as nat, (j + 1) as nat) == level_quotient(
                    lv,
                    (c + 1) as nat,
                    j as nat,
                ) + 1);
            }
            let next = cursors[c + 1] + 1;
            cursors.set(c + 1, next);
            cursors.set(c, 0);
            carry_level = c + 1;
        }
        proof {
            if j + 1 < n_total {
                let c = carry_level;
                let len = lv[c as int].len();
                assert(lv[c as int] == levels@[c as int]@);
                lemma_cursor_bound(lv, c as nat, j as nat);
                if cursors@[c as int] < len {
                    lemma_step_no_carry(level_quotient(lv, c as nat, j as nat), len);
                    assert forall|m: nat| c < m < num_levels implies level_cursor(lv, m, (j + 1) as nat)
                        == level_cursor(lv, m, j as nat) by {
                        lemma_quotients_agree(lv, (c + 1) as nat, m, (j + 1) as nat, j as nat);
                    }
                } else {
                    let q = level_quotient(lv, c as nat, j as nat);
                    lemma_top_quotient_bound(lv, j as nat);
                    lemma_top_quotient_bound(lv, (j + 1) as nat);
                    lemma_fundamental_div_mod_converse(q as int, len as int, 0, q as int);
                }
                assert forall|m: nat| m < num_levels implies #[trigger] cursors@[m as int] == level_cursor(
                    lv,
                    m,
                    (j + 1) as nat,
                ) by {
                    if c < m {
                        assert(cursors@[m as int] == digits[m as int]);
                    }
                }
            }
        }
        j = j + 1;
    }
    output
}

/// Upper bound of valid instance indices: the number of instance primvar
/// elements when known, the instance count otherwise (as the signed index
/// type).
pub open spec fn spec_level_max_index(instance_count: usize, primvar_elements: usize) -> i32 {
    if primvar_elements > 0 {
        primvar_elements as i32
    } else {
        instance_count as i32
    }
}

/// Active instances of one level: the authored indices that lie in range,
/// every instance when none are authored, nothing when invisible.
pub open spec fn spec_level_indices(
    visible: bool,
    indices: Seq<i32>,
    instance_count: usize,
    primvar_elements: usize,
) -> Seq<i32> {
    let max = spec_level_max_index(instance_count, primvar_elements);
    if visible && indices.len() > 0 {
        indices.filter(|i: i32| 0 <= i && i < max)
    } else if visible && instance_count > 0 {
        let n = instance_count as i32;
        Seq::new(if n > 0 { n as nat } else { 0 }, |i: int| i as i32)
    } else {
        Seq::empty()
    }
}

/// Per-instance primvar data: its name, its values as 32-bit words (one
/// value shared by every instance, or one per instance), and whether each
/// instance has its own value.
#[derive(Debug, Clone)]
pub struct HdStInstancePrimvar {
    pub name: String,
    pub values: Vec<u32>,
    pub varying: bool,
}

impl HdStInstancePrimvar {
    pub fn new(name: String, values: Vec<u32>, varying: bool) -> (p: Self)
        ensures
            p.name == name,
            p.values == values,
            p.varying == varying,
    {
        HdStInstancePrimvar { name, values, varying }
    }

    /// One value shared by every instance.
    pub fn constant(name: String, value: Vec<u32>) -> (p: Self)
        ensures
            p.name == name,
            p.values == value,
            !p.varying,
    {
        Self::new(name, value, false)
    }

    /// One value per instance.
    pub fn varying(name: String, values: Vec<u32>) -> (p: Self)
        ensures
            p.name == name,
            p.values == values,
            p.varying,
    {
        Self::new(name, values, true)
    }
}

/// Instancing state: how many instances there are, which are active, the
/// per-instance transforms (sixteen `f64` bit patterns each, row-major),
/// and the flags the draw items read.
pub struct HdStInstancer {
    path: String,
    parent_path: Option<String>,
    instance_count: usize,
    transforms: Vec<u64>,
    primvars: Vec<(String, HdStInstancePrimvar)>,
    indices: Vec<i32>,
    dirty: bool,
    buffer_handle: u64,
    has_display_opacity: bool,
    has_normals: bool,
    visible: bool,
    instance_primvar_num_elements: usize,
}

impl HdStInstancer {
    /// Path of the instancer prim.
    pub closed spec fn spec_path(&self) -> Seq<char> {
        self.path@
    }

    /// Path of the parent instancer, if nested.
    pub closed spec fn spec_parent_path(&self) -> Option<Seq<char>> {
        match &self.parent_path {
            Some(p) => Some(p@),
            None => None,
        }
    }

    /// Number of instances.
    pub closed spec fn spec_instance_count(&self) -> usize {
        self.instance_count
    }

    /// Transform bit patterns, sixteen per instance.
    pub closed spec fn spec_transforms(&self) -> Seq<u64> {
        self.transforms@
    }

    /// Instance primvars by name; a name is looked up by its first entry.
    pub closed spec fn spec_primvars(&self) -> Seq<(String, HdStInstancePrimvar)> {
        self.primvars@
    }

    /// Authored active-instance indices.
    pub closed spec fn spec_indices(&self) -> Seq<i32> {
        self.indices@
    }

    /// Needs a sync.
    pub closed spec fn spec_dirty(&self) -> bool {
        self.dirty
    }

    /// Handle of the instance buffer (zero before the first sync).
    pub closed spec fn spec_buffer_handle(&self) -> u64 {
        self.buffer_handle
    }

    /// A `displayOpacity` primvar was authored.
    pub closed spec fn spec_has_display_opacity(&self) -> bool {
        self.has_display_opacity
    }

    /// A `normals` primvar was authored.
    pub closed spec fn spec_has_normals(&self) -> bool {
        self.has_normals
    }

    /// The instancer is visible.
    pub closed spec fn spec_visible(&self) -> bool {
        self.visible
    }

    /// Number of elements of the instance primvars (zero when unknown).
    pub closed spec fn spec_primvar_elements(&self) -> usize {
        self.instance_primvar_num_elements
    }

    /// Active instances of this instancer's level.
    pub open spec fn spec_level(&self) -> Seq<i32> {
        spec_level_indices(
            self.spec_visible(),
            self.spec_indices(),
            self.spec_instance_count(),
            self.spec_primvar_elements(),
        )
    }

    /// A visible root instancer with no instances, to be synced.
    pub fn new(path: String) -> (s: Self)
        ensures
            s.spec_path() == path@,
            s.spec_parent_path() is None,
            s.spec_instance_count() == 0,
            s.spec_transforms() == Seq::<u64>::empty(),
            s.spec_indices() == Seq::<i32>::empty(),
            s.spec_dirty(),
            s.spec_buffer_handle() == 0,
            !s.spec_has_display_opacity(),
            !s.spec_has_normals(),
            s.spec_visible(),
            s.spec_primvar_elements() == 0,
    {
        HdStInstancer {
            path,
            parent_path: None,
            instance_count: 0,
            transforms: Vec::new(),
            primvars: Vec::new(),
            indices: Vec::new(),
            dirty: true,
            buffer_handle: 0,
            has_display_opacity: false,
            has_normals: false,
            visible: true,
            instance_primvar_num_elements: 0,
        }
    }

    /// An instancer nested under `parent`, otherwise as `new`.
    pub fn new_nested(path: String, parent: String) -> (s: Self)
        ensures
            s.spec_path() == path@,
            s.spec_parent_path() == Some(parent@),
            s.spec_instance_count() == 0,
            s.spec_transforms() == Seq::<u64>::empty(),
            s.spec_indices() == Seq::<i32>::empty(),
            s.spec_dirty(),
            s.spec_buffer_handle() == 0,
            !s.spec_has_display_opacity(),
            !s.spec_has_normals(),
            s.spec_visible(),
            s.spec_primvar_elements() == 0,
    {
        let mut s = Self::new(path);
        s.parent_path = Some(parent);
        s
    }

    /// Path of the instancer prim.
    pub fn get_path(&self) -> (p: &String)
        ensures
            p@ == self.spec_path(),
    {
        &self.path
    }

    /// Path of the parent instancer, if nested.
    pub fn get_parent_path(&self) -> (p: Option<&String>)
        ensures
            match p {
                Some(s) => self.spec_parent_path() == Some(s@),
                None => self.spec_parent_path() is None,
            },
    {
        match &self.parent_path {
            Some(p) => Some(p),
            None => None,
        }
    }

    /// Whether the instancer has a parent instancer.
    pub fn is_nested(&self) -> (b: bool)
        ensures
            b == self.spec_parent_path() is Some,
    {
        self.parent_path.is_some()
    }

    /// Number of instances.
    pub fn get_instance_count(&self) -> (n: usize)
        ensures
            n == self.spec_instance_count(),
    {
        self.instance_count
    }

    /// Transform bit patterns, sixteen per instance.
    pub fn get_transforms(&self) -> (t: &[u64])
        ensures
            t@ == self.spec_transforms(),
    {
        self.transforms.as_slice()
    }

    /// Authored active-instance indices.
    pub fn get_indices(&self) -> (i: &[i32])
        ensures
            i@ == self.spec_indices(),
    {
        self.indices.as_slice()
    }

    /// Whether a sync is pending.
    pub fn is_dirty(&self) -> (b: bool)
        ensures
            b == self.spec_dirty(),
    {
        self.dirty
    }

    /// Whether the instance buffer exists.
    pub fn has_buffer(&self) -> (b: bool)
        ensures
            b == (self.spec_buffer_handle() != 0),
    {
        self.buffer_handle != 0
    }

    /// Whether a `displayOpacity` primvar was authored.
    pub fn has_display_opacity(&self) -> (b: bool)
        ensures
            b == self.spec_has_display_opacity(),
    {
        self.has_display_opacity
    }

    /// Whether a `normals` primvar was authored.
    pub fn has_normals(&self) -> (b: bool)
        ensures
            b == self.spec_has_normals(),
    {
        self.has_normals
    }

    /// Whether the instancer is visible.
    pub fn is_visible(&self) -> (b: bool)
        ensures
            b == self.spec_visible(),
    {
        self.visible
    }

    /// Handle of the instance buffer.
    pub fn get_buffer_handle(&self) -> (h: u64)
        ensures
            h == self.spec_buffer_handle(),
    {
        self.buffer_handle
    }

    /// Number of elements of the instance primvars.
    pub fn get_instance_primvar_num_elements(&self) -> (n: usize)
        ensures
            n == self.spec_primvar_elements(),
    {
        self.instance_primvar_num_elements
    }

    /// Sets the number of instances and marks the instancer dirty.
    pub fn set_instance_count(&mut self, count: usize)
        ensures
            final(self).spec_primvars() == old(self).spec_primvars(),
            final(self).spec_path() == old(self).spec_path(),
            final(self).spec_parent_path() == old(self).spec_parent_path(),
            final(self).spec_has_display_opacity() == old(self).spec_has_display_opacity(),
            final(self).spec_has_normals() == old(self).spec_has_normals(),
            final(self).spec_instance_count() == count,
            final(self).spec_dirty(),
            final(self).spec_transforms() == old(self).spec_transforms(),
            final(self).spec_indices() == old(self).spec_indices(),
            final(self).spec_visible() == old(self).spec_visible(),
            final(self).spec_primvar_elements() == old(self).spec_primvar_elements(),
            final(self).spec_buffer_handle() == old(self).spec_buffer_handle(),
    {
        self.instance_count = count;
        self.dirty = true;
    }

    /// Replaces the transforms, sixteen values per instance; the instance
    /// count becomes the number of matrices.
    pub fn set_transforms(&mut self, transforms: Vec<u64>)
        requires
            transforms@.len() % 16 == 0,
        ensures
            final(self).spec_primvars() == old(self).spec_primvars(),
            final(self).spec_path() == old(self).spec_path(),
            final(self).spec_parent_path() == old(self).spec_parent_path(),
            final(self).spec_has_display_opacity() == old(self).spec_has_display_opacity(),
            final(self).spec_has_normals() == old(self).spec_has_normals(),
            final(self).spec_transforms() == transforms@,
            final(self).spec_instance_count() == transforms@.len() / 16,
            final(self).spec_dirty(),
            final(self).spec_indices() == old(self).spec_indices(),
            final(self).spec_visible() == old(self).spec_visible(),
            final(self).spec_primvar_elements() == old(self).spec_primvar_elements(),
            final(self).spec_buffer_handle() == old(self).spec_buffer_handle(),
    {
        self.instance_count = transforms.len() / 16;
        self.transforms = transforms;
        self.dirty = true;
    }

    /// Applies the instance primvars pulled from the scene: a non-empty
    /// transform array of whole matrices (`f64` bit patterns, sixteen per
    /// instance) replaces the transforms and the instance count, and a
    /// non-empty index array replaces the active indices. Anything else is
    /// ignored. The instancer becomes dirty.
    pub fn sync_primvars(&mut self, transforms: Option<Vec<u64>>, indices: Option<Vec<i32>>)
        ensures
            final(self).spec_primvars() == old(self).spec_primvars(),
            final(self).spec_path() == old(self).spec_path(),
            final(self).spec_parent_path() == old(self).spec_parent_path(),
            match transforms {
                Some(t) if t@.len() % 16 == 0 && t@.len() > 0 => {
                    &&& final(self).spec_transforms() == t@
                    &&& final(self).spec_instance_count() == t@.len() / 16
                },
                _ => {
                    &&& final(self).spec_transforms() == old(self).spec_transforms()
                    &&& final(self).spec_instance_count() == old(self).spec_instance_count()
                },
            },
            match indices {
                Some(ix) if ix@.len() > 0 => final(self).spec_indices() == ix@,
                _ => final(self).spec_indices() == old(self).spec_indices(),
            },
            final(self).spec_dirty(),
            final(self).spec_visible() == old(self).spec_visible(),
            final(self).spec_primvar_elements() == old(self).spec_primvar_elements(),
            final(self).spec_buffer_handle() == old(self).spec_buffer_handle(),
            final(self).spec_has_display_opacity() == old(self).spec_has_display_opacity(),
            final(self).spec_has_normals() == old(self).spec_has_normals(),
    {
        match transforms {
            Some(t) => {
                if t.len() % 16 == 0 && t.len() > 0 {
                    self.instance_count = t.len() / 16;
                    self.transforms = t;
                }
            },
            None => {},
        }
        match indices {
            Some(ix) => {
                if ix.len() > 0 {
                    self.indices = ix;
                }
            },
            None => {},
        }
        self.dirty = true;
    }

    /// The sixteen values of instance `index`, or `None` past the last
    /// instance.
    pub fn get_instance_transform(&self, index: usize) -> (t: Option<&[u64]>)
        requires
            index < self.spec_instance_count() ==> (index + 1) * 16 <= self.spec_transforms().len(),
        ensures
            index < self.spec_instance_count() ==> t is Some && t.unwrap()@
                == self.spec_transforms().subrange(index * 16, index * 16 + 16),
            index >= self.spec_instance_count() ==> t is None,
    {
        let len = self.transforms.len();
        if index < self.instance_count {
            let s = index * 16;
            Some(slice_subrange(self.transforms.as_slice(), s, s + 16))
        } else {
            None
        }
    }

    /// Sets an instance primvar, replacing any of the same name:
    /// `displayOpacity` and `normals` set their flags, and the instancer
    /// becomes dirty.
    pub fn set_primvar(&mut self, pv: HdStInstancePrimvar)
        ensures
            forall|k: Seq<char>| #[trigger]
                lookup(final(self).spec_primvars(), k) == if k == pv.name@ {
                    Some(pv)
                } else {
                    lookup(old(self).spec_primvars(), k)
                },
            final(self).spec_primvars().len() == old(self).spec_primvars().len() + if lookup(
                old(self).spec_primvars(),
                pv.name@,
            ) is None {
                1int
            } else {
                0int
            },
            final(self).spec_has_display_opacity() == (old(self).spec_has_display_opacity()
                || pv.name@ == "displayOpacity"@),
            final(self).spec_has_normals() == (old(self).spec_has_normals() || pv.name@
                == "normals"@),
            final(self).spec_dirty(),
            final(self).spec_instance_count() == old(self).spec_instance_count(),
            final(self).spec_transforms() == old(self).spec_transforms(),
            final(self).spec_indices() == old(self).spec_indices(),
            final(self).spec_visible() == old(self).spec_visible(),
            final(self).spec_primvar_elements() == old(self).spec_primvar_elements(),
            final(self).spec_buffer_handle() == old(self).spec_buffer_handle(),
            final(self).spec_path() == old(self).spec_path(),
            final(self).spec_parent_path() == old(self).spec_parent_path(),
    {
        let is_opacity = str_eq(pv.name.as_str(), "displayOpacity");
        let is_normals = str_eq(pv.name.as_str(), "normals");
        self.has_display_opacity = self.has_display_opacity || is_opacity;
        self.has_normals = self.has_normals || is_normals;
        let name = pv.name.clone();
        set_entry(&mut self.primvars, name, pv);
        self.dirty = true;
    }

    /// The instance primvars.
    pub fn get_primvars(&self) -> (ps: &[(String, HdStInstancePrimvar)])
        ensures
            ps@ == self.spec_primvars(),
    {
        self.primvars.as_slice()
    }

    /// The instance primvar of a name.
    pub fn get_primvar(&self, name: &str) -> (p: Option<&HdStInstancePrimvar>)
        ensures
            match p {
                Some(x) => lookup(self.spec_primvars(), name@) == Some(*x),
                None => lookup(self.spec_primvars(), name@) is None,
            },
    {
        lookup_entry(&self.primvars, name)
    }

    /// Replaces the authored active-instance indices and marks the
    /// instancer dirty.
    pub fn set_indices(&mut self, indices: Vec<i32>)
        ensures
            final(self).spec_primvars() == old(self).spec_primvars(),
            final(self).spec_path() == old(self).spec_path(),
            final(self).spec_parent_path() == old(self).spec_parent_path(),
            final(self).spec_has_display_opacity() == old(self).spec_has_display_opacity(),
            final(self).spec_has_normals() == old(self).spec_has_normals(),
            final(self).spec_indices() == indices@,
            final(self).spec_dirty(),
            final(self).spec_instance_count() == old(self).spec_instance_count(),
            final(self).spec_transforms() == old(self).spec_transforms(),
            final(self).spec_visible() == old(self).spec_visible(),
            final(self).spec_primvar_elements() == old(self).spec_primvar_elements(),
            final(self).spec_buffer_handle() == old(self).spec_buffer_handle(),
    {
        self.indices = indices;
        self.dirty = true;
    }

    /// Marks the instancer dirty.
    pub fn mark_dirty(&mut self)
        ensures
            final(self).spec_primvars() == old(self).spec_primvars(),
            final(self).spec_path() == old(self).spec_path(),
            final(self).spec_parent_path() == old(self).spec_parent_path(),
            final(self).spec_has_display_opacity() == old(self).spec_has_display_opacity(),
            final(self).spec_has_normals() == old(self).spec_has_normals(),
            final(self).spec_dirty(),
            final(self).spec_instance_count() == old(self).spec_instance_count(),
            final(self).spec_transforms() == old(self).spec_transforms(),
            final(self).spec_indices() == old(self).spec_indices(),
            final(self).spec_visible() == old(self).spec_visible(),
            final(self).spec_primvar_elements() == old(self).spec_primvar_elements(),
            final(self).spec_buffer_handle() == old(self).spec_buffer_handle(),
    {
        self.dirty = true;
    }

    /// Shows or hides every instance.
    pub fn set_visible(&mut self, v: bool)
        ensures
            final(self).spec_primvars() == old(self).spec_primvars(),
            final(self).spec_path() == old(self).spec_path(),
            final(self).spec_parent_path() == old(self).spec_parent_path(),
            final(self).spec_has_display_opacity() == old(self).spec_has_display_opacity(),
            final(self).spec_has_normals() == old(self).spec_has_normals(),
            final(self).spec_visible() == v,
            final(self).spec_dirty() == old(self).spec_dirty(),
            final(self).spec_instance_count() == old(self).spec_instance_count(),
            final(self).spec_transforms() == old(self).spec_transforms(),
            final(self).spec_indices() == old(self).spec_indices(),
            final(self).spec_primvar_elements() == old(self).spec_primvar_elements(),
            final(self).spec_buffer_handle() == old(self).spec_buffer_handle(),
    {
        self.visible = v;
    }

    /// Sets the number of instance primvar elements, which bounds the valid
    /// indices.
    pub fn set_instance_primvar_num_elements(&mut self, n: usize)
        ensures
            final(self).spec_primvars() == old(self).spec_primvars(),
            final(self).spec_path() == old(self).spec_path(),
            final(self).spec_parent_path() == old(self).spec_parent_path(),
            final(self).spec_has_display_opacity() == old(self).spec_has_display_opacity(),
            final(self).spec_has_normals() == old(self).spec_has_normals(),
            final(self).spec_primvar_elements() == n,
            final(self).spec_dirty() == old(self).spec_dirty(),
            final(self).spec_instance_count() == old(self).spec_instance_count(),
            final(self).spec_transforms() == old(self).spec_transforms(),
            final(self).spec_indices() == old(self).spec_indices(),
            final(self).spec_visible() == old(self).spec_visible(),
            final(self).spec_buffer_handle() == old(self).spec_buffer_handle(),
    {
        self.instance_primvar_num_elements = n;
    }

    /// Brings the instance buffer up to date: a dirty instancer gets a
    /// buffer and is clean afterwards; a clean one is left as it is.
    pub fn sync(&mut self)
        ensures
            final(self).spec_primvars() == old(self).spec_primvars(),
            final(self).spec_path() == old(self).spec_path(),
            final(self).spec_parent_path() == old(self).spec_parent_path(),
            final(self).spec_has_display_opacity() == old(self).spec_has_display_opacity(),
            final(self).spec_has_normals() == old(self).spec_has_normals(),
            old(self).spec_dirty() ==> final(self).spec_buffer_handle() == 1 && !final(self).spec_dirty(),
            !old(self).spec_dirty() ==> final(self).spec_buffer_handle() == old(self).spec_buffer_handle()
                && !final(self).spec_dirty(),
            final(self).spec_instance_count() == old(self).spec_instance_count(),
            final(self).spec_transforms() == old(self).spec_transforms(),
            final(self).spec_indices() == old(self).spec_indices(),
            final(self).spec_visible() == old(self).spec_visible(),
            final(self).spec_primvar_elements() == old(self).spec_primvar_elements(),
    {
        if !self.dirty {
            return;
        }
        self.buffer_handle = 1;
        self.dirty = false;
    }

    /// Appends this instancer's level of active instances to `levels`.
    pub fn collect_level_indices(&self, levels: &mut Vec<Vec<i32>>)
        ensures
            levels_view(final(levels)@) == levels_view(old(levels)@).push(self.spec_level()),
    {
        let max_idx: i32 = if self.instance_primvar_num_elements > 0 {
            self.instance_primvar_num_elements as i32
        } else {
            self.instance_count as i32
        };
        let mut level_indices: Vec<i32> = Vec::new();
        if self.visible && self.indices.len() > 0 {
            let ghost pred = |i: i32| 0 <= i && i < max_idx;
            let mut k: usize = 0;
            while k < self.indices.len()
                invariant
                    k <= self.indices@.len(),
                    max_idx == spec_level_max_index(self.instance_count, self.instance_primvar_num_elements),
                    pred == (|i: i32| 0 <= i && i < max_idx),
                    level_indices@ == self.indices@.take(k as int).filter(pred),
                decreases self.indices.len() - k,
            {
                let idx = self.indices[k];
                proof {
                    reveal(Seq::filter);
                    assert(self.indices@.take(k + 1).drop_last() =~= self.indices@.take(k as int));
                }
                if idx >= 0 && idx < max_idx {
                    level_indices.push(idx);
                }
                k = k + 1;
            }
            proof {
                assert(self.indices@.take(self.indices@.len() as int) =~= self.indices@);
            }
        } else if self.visible && self.instance_count > 0 {
            let n = self.instance_count as i32;
            let mut i: i32 = 0;
            while i < n
                invariant
                    n == self.instance_count as i32,
                    0 <= i,
                    n > 0 ==> i <= n,
                    n <= 0 ==> i == 0,
                    level_indices@ == Seq::new(i as nat, |x: int| x as i32),
                decreases n - i,
            {
                level_indices.push(i);
                i = i + 1;
                proof {
                    assert(level_indices@ =~= Seq::new(i as nat, |x: int| x as i32));
                }
            }
            proof {
                assert(level_indices@ =~= Seq::new(if n > 0 { n as nat } else { 0 }, |x: int| x as i32));
            }
        }
        let ghost before = levels@;
        levels.push(level_indices);
        proof {
            assert(levels_view(levels@) =~= levels_view(before).push(self.spec_level()));
        }
    }

    /// The instance index table for a prototype: every active instance's
    /// running number followed by its index, two entries per instance.
    pub fn get_instance_indices(&self, _prototype_id: &str) -> (out: Vec<i32>)
        requires
            self.spec_level().len() * 2 <= usize::MAX,
        ensures
            is_index_table(seq![self.spec_level()], out@),
    {
        let mut levels: Vec<Vec<i32>> = Vec::new();
        self.collect_level_indices(&mut levels);
        proof {
            let lv = levels_view(levels@);
            assert(lv =~= seq![self.spec_level()]);
            assert(lv[0] == self.spec_level());
            assert(level_span(lv, 0) == 1);
            assert(level_span(lv, 1) == level_span(lv, 0) * lv[0].len());
            assert(level_span(lv, 1) == self.spec_level().len());
            assert forall|l: nat| l <= lv.len() implies #[trigger] level_span(lv, l) <= usize::MAX by {
                if l == 1 {
                    assert(level_span(lv, 1) == self.spec_level().len());
                }
            }
        }
        build_index_table(&levels)
    }

    /// Total number of instances.
    pub fn get_total_instance_count(&self) -> (n: usize)
        ensures
            n == self.spec_instance_count(),
    {
        self.instance_count
    }
}

/// An invisible instancer has no active instances, so its index table is
/// empty.
pub proof fn lemma_invisible_draws_nothing(
    indices: Seq<i32>,
    instance_count: usize,
    primvar_elements: usize,
    out: Seq<i32>,
)
    requires
        is_index_table(seq![spec_level_indices(false, indices, instance_count, primvar_elements)], out),
    ensures
        spec_level_indices(false, indices, instance_count, primvar_elements).len() == 0,
        out.len() == 0,
{
    let lv = seq![spec_level_indices(false, indices, instance_count, primvar_elements)];
    assert(lv[0].len() == 0);
    assert(level_span(lv, 1) == level_span(lv, 0) * lv[0].len());
}

/// Authored indices are kept only when they address an instance: every
/// active index is non-negative and below the index bound, and none is
/// invented.
pub proof fn lemma_active_indices_in_range(
    indices: Seq<i32>,
    instance_count: usize,
    primvar_elements: usize,
)
    requires
        indices.len() > 0,
    ensures
        forall|k: int|
            0 <= k < spec_level_indices(true, indices, instance_count, primvar_elements).len() ==> {
                let i = #[trigger] spec_level_indices(true, indices, instance_count, primvar_elements)[k];
                &&& 0 <= i < spec_level_max_index(instance_count, primvar_elements)
                &&& indices.contains(i)
            },
{
    let max = spec_level_max_index(instance_count, primvar_elements);
    let pred = |i: i32| 0 <= i && i < max;
    let level = indices.filter(pred);
    assert(spec_level_indices(true, indices, instance_count, primvar_elements) == level);
    assert forall|k: int| 0 <= k < level.len() implies {
        let i = #[trigger] level[k];
        &&& 0 <= i < max
        &&& indices.contains(i)
    } by {
        indices.lemma_filter_pred(pred, k);
        indices.lemma_filter_contains_rev(pred, level[k]);
    }
}

/// With no authored indices, a visible instancer activates every
/// instance in order.
pub proof fn lemma_all_instances_active(instance_count: usize, primvar_elements: usize)
    requires
        0 < instance_count <= i32::MAX,
    ensures
        spec_level_indices(true, Seq::<i32>::empty(), instance_count, primvar_elements).len()
            == instance_count,
        forall|k: int|
            0 <= k < instance_count ==> #[trigger] spec_level_indices(
                true,
                Seq::<i32>::empty(),
                instance_count,
                primvar_elements,
            )[k] == k,
{
}

} // verus!
