use vstd::prelude::*;

verus! {

use vstd::seq_lib::lemma_multiset_commutative;
use vstd::seq_lib::group_to_multiset_ensures;
use vstd::multiset::group_multiset_axioms;
use vstd::multiset::Multiset;

broadcast use group_to_multiset_ensures, group_multiset_axioms;

/// Bit pattern of the default time divisor, the single-precision value one
/// billion (1000000000), used when a module does not export TIME_DIVISOR.
pub const TIME_DIVISOR_DEFAULT: u32 = 0x4E6E6B28;

/// Bit pattern of the default time-dilation range, the single-precision
/// value one hundred (100), used when a module does not export
/// TIME_DIALATION_RANGE.
pub const TIME_DIALATION_RANGE_DEFAULT: u32 = 0x42C80000;

/// Bit pattern of the default intensity range, the single-precision value
/// one hundredth (1/100), used when a module does not export
/// INTENSITY_RANGE.
pub const INTENSITY_RANGE_DEFAULT: u32 = 0x3C23D70A;

/// Bit pattern of the default luminance modifier, the single-precision
/// value one hundred (100), used when a module does not export LUM_MOD.
pub const LUM_MOD_DEFAULT: u32 = 0x42C80000;

/// Byte-wise lexicographic order on filenames: the order the plugin index
/// contract is built on.
pub open spec fn lex_le(a: Seq<u8>, b: Seq<u8>) -> bool
    decreases a.len(),
{
    if a.len() == 0 {
        true
    } else if b.len() == 0 {
        false
    } else if a[0] < b[0] {
        true
    } else if a[0] > b[0] {
        false
    } else {
        lex_le(a.drop_first(), b.drop_first())
    }
}

pub proof fn lemma_lex_le_total(a: Seq<u8>, b: Seq<u8>)
    ensures
        lex_le(a, b) || lex_le(b, a),
    decreases a.len(),
{
    if a.len() > 0 && b.len() > 0 && a[0] == b[0] {
        lemma_lex_le_total(a.drop_first(), b.drop_first());
    }
}

pub proof fn lemma_lex_le_transitive(a: Seq<u8>, b: Seq<u8>, c: Seq<u8>)
    requires
        lex_le(a, b),
        lex_le(b, c),
    ensures
        lex_le(a, c),
    decreases a.len(),
{
    if a.len() > 0 && b.len() > 0 && c.len() > 0 && a[0] == b[0] && b[0] == c[0] {
        lemma_lex_le_transitive(a.drop_first(), b.drop_first(), c.drop_first());
    }
}

pub proof fn lemma_lex_le_antisymmetric(a: Seq<u8>, b: Seq<u8>)
    requires
        lex_le(a, b),
        lex_le(b, a),
    ensures
        a =~= b,
    decreases a.len(),
{
    if a.len() > 0 && b.len() > 0 && a[0] == b[0] {
        lemma_lex_le_antisymmetric(a.drop_first(), b.drop_first());
        assert(a =~= seq![a[0]] + a.drop_first());
        assert(b =~= seq![b[0]] + b.drop_first());
    }
}

/// Helper for the byte-comparison loop: while two names agree on a prefix,
/// their order is decided by the remainders.
proof fn lemma_lex_le_skip(a: Seq<u8>, b: Seq<u8>, i: int)
    requires
        0 <= i <= a.len(),
        i <= b.len(),
        forall|j: int| 0 <= j < i ==> a[j] == b[j],
    ensures
        lex_le(a, b) == lex_le(a.skip(i), b.skip(i)),
    decreases i,
{
    if i > 0 {
        lemma_lex_le_skip(a.drop_first(), b.drop_first(), i - 1);
        assert(a.drop_first().skip(i - 1) =~= a.skip(i));
        assert(b.drop_first().skip(i - 1) =~= b.skip(i));
    } else {
        assert(a.skip(0) =~= a);
        assert(b.skip(0) =~= b);
    }
}

/// Compares two filenames in byte-wise lexicographic order.
pub fn name_le(a: &Vec<u8>, b: &Vec<u8>) -> (r: bool)
    ensures
        r == lex_le(a@, b@),
{
    let mut i: usize = 0;
    let a_len = a.len();
    let b_len = b.len();
    while i < a_len && i < b_len
        invariant
            0 <= i <= a@.len(),
            i <= b@.len(),
            a_len == a@.len(),
            b_len == b@.len(),
            forall|j: int| 0 <= j < i ==> a@[j] == b@[j],
        decreases a@.len() - i,
    {
        if a[i] < b[i] {
            proof {
                lemma_lex_le_skip(a@, b@, i as int);
            }
            return true;
        }
        if a[i] > b[i] {
            proof {
                lemma_lex_le_skip(a@, b@, i as int);
            }
            return false;
        }
        i = i + 1;
    }
    proof {
        lemma_lex_le_skip(a@, b@, i as int);
    }
    a_len <= b_len
}

/// What the unverified loader found in one native module file: the source
/// filename (as bytes), the slot its live handle occupies in the loader's
/// module table, whether the mandatory `transform` entry point resolved,
/// and each optional exported constant (a single-precision bit pattern)
/// when present.
pub struct ModuleDesc {
    pub name: Vec<u8>,
    pub slot: usize,
    pub has_transform: bool,
    pub time_divisor: Option<u32>,
    pub time_dialation_range: Option<u32>,
    pub intensity_range: Option<u32>,
    pub lum_mod: Option<u32>,
}

/// One loaded transform module as the verified core sees it: its source
/// filename, the slot of the owning native handle in the loader's module
/// table, and its tunable constants with defaults already applied.
///
/// The slot stands for the module handle itself: the handle, and the
/// entry point borrowed from it, live outside the verified core, and a
/// transform call is made only through a slot obtained from the current
/// runtime list.
pub struct Plugin {
    pub name: Vec<u8>,
    pub slot: usize,
    pub time_divisor: u32,
    pub time_dialation_range: u32,
    pub intensity_range: u32,
    pub lum_mod: u32,
}

/// Why a full plugin load failed.  A missing mandatory entry point fails
/// the whole load: a runtime with a module that cannot be called has no
/// meaningful rendering behaviour to fall back to.
#[derive(Debug)]
pub enum LoadError {
    MissingTransform { name: Vec<u8> },
}

impl ModuleDesc {
    /// The plugin a descriptor turns into: optional constants fall back to
    /// their documented defaults.
    pub open spec fn to_plugin(self) -> Plugin {
        Plugin {
            name: self.name,
            slot: self.slot,
            time_divisor: opt_bits_or(self.time_divisor, TIME_DIVISOR_DEFAULT),
            time_dialation_range: opt_bits_or(self.time_dialation_range, TIME_DIALATION_RANGE_DEFAULT),
            intensity_range: opt_bits_or(self.intensity_range, INTENSITY_RANGE_DEFAULT),
            lum_mod: opt_bits_or(self.lum_mod, LUM_MOD_DEFAULT),
        }
    }
}

pub open spec fn opt_bits_or(o: Option<u32>, default: u32) -> u32 {
    match o {
        Option::Some(v) => v,
        Option::None => default,
    }
}

/// The plugins a row of descriptors turns into, in the same order.
pub open spec fn desc_plugins(s: Seq<ModuleDesc>) -> Seq<Plugin> {
    s.map_values(|d: ModuleDesc| d.to_plugin())
}

/// The runtime's index contract: plugins stand in ascending filename order.
pub open spec fn plugins_sorted(s: Seq<Plugin>) -> bool {
    forall|i: int, j: int| 0 <= i < j < s.len() ==> lex_le(#[trigger] s[i].name@, #[trigger] s[j].name@)
}

/// A valid plugin directory never holds two modules with the same filename.
pub open spec fn unique_names(s: Seq<Plugin>) -> bool {
    forall|i: int, j: int| 0 <= i < j < s.len() ==> (#[trigger] s[i].name@) != (#[trigger] s[j].name@)
}

/// The same, for what the loader found.
pub open spec fn unique_desc_names(s: Seq<ModuleDesc>) -> bool {
    forall|i: int, j: int| 0 <= i < j < s.len() ==> (#[trigger] s[i].name@) != (#[trigger] s[j].name@)
}

/// Helper: rearranging a runtime list cannot introduce a duplicate
/// filename.
proof fn lemma_unique_names_permutation(a: Seq<Plugin>, b: Seq<Plugin>)
    requires
        a.to_multiset() == b.to_multiset(),
        unique_names(a),
    ensures
        unique_names(b),
{
    assert forall|i: int, j: int| 0 <= i < j < b.len()
        implies (#[trigger] b[i].name@) != (#[trigger] b[j].name@) by {
        assert(b.contains(b[i]));
        assert(b.to_multiset().contains(b[i]));
        assert(a.contains(b[i]));
        let p = choose|p: int| 0 <= p < a.len() && a[p] == b[i];
        // Take one occurrence of b[i] out of both sides; one occurrence of
        // b[j] is still left on both.
        assert(b.remove(i).to_multiset() =~= b.to_multiset().remove(b[i]));
        assert(b.remove(i)[j - 1] == b[j]);
        assert(b.remove(i).contains(b[j]));
        assert(b.remove(i).to_multiset().contains(b[j]));
        assert(a.remove(p).to_multiset() =~= a.to_multiset().remove(a[p]));
        assert(a.remove(p).to_multiset().contains(b[j]));
        assert(a.remove(p).contains(b[j]));
        let q0 = choose|q0: int| 0 <= q0 < a.remove(p).len() && a.remove(p)[q0] == b[j];
        let q = if q0 < p { q0 } else { q0 + 1 };
        assert(a[q] == b[j]);
        assert(p != q);
        if b[i].name@ == b[j].name@ {
            if p < q {
                assert(a[p].name@ != a[q].name@);
            } else {
                assert(a[q].name@ != a[p].name@);
            }
            assert(false);
        }
    }
}

/// Inserting an element anywhere in a sequence adds it to the multiset.
proof fn lemma_insert_to_multiset(s: Seq<Plugin>, j: int, x: Plugin)
    requires
        0 <= j <= s.len(),
    ensures
        s.insert(j, x).to_multiset() =~= s.to_multiset().insert(x),
{

    let single = seq![x];
    assert(s.insert(j, x) =~= s.take(j) + (single + s.skip(j)));
    lemma_multiset_commutative(s.take(j), single + s.skip(j));
    lemma_multiset_commutative(single, s.skip(j));
    assert(s =~= s.take(j) + s.skip(j));
    lemma_multiset_commutative(s.take(j), s.skip(j));
    assert(single =~= Seq::<Plugin>::empty().push(x));
    assert(Seq::<Plugin>::empty().to_multiset() =~= Multiset::<Plugin>::empty());
    assert(single.to_multiset() =~= Multiset::<Plugin>::empty().insert(x));
}

/// Finds where a plugin belongs in a sorted runtime list: the first index
/// whose name does not precede the new name.
fn insertion_point(out: &Vec<Plugin>, d: &Plugin) -> (j: usize)
    requires
        plugins_sorted(out@),
    ensures
        j <= out@.len(),
        forall|k: int| 0 <= k < j ==> lex_le(#[trigger] out@[k].name@, d.name@),
        j < out@.len() ==> !lex_le(out@[j as int].name@, d.name@),
{
    let mut j: usize = 0;
    while j < out.len()
        invariant
            0 <= j <= out@.len(),
            forall|k: int| 0 <= k < j ==> lex_le(#[trigger] out@[k].name@, d.name@),
        decreases out@.len() - j,
    {
        if !name_le(&out[j].name, &d.name) {
            return j;
        }
        j = j + 1;
    }
    j
}

/// Inserts a plugin into a sorted runtime list, keeping it sorted.
fn insert_sorted(out: &mut Vec<Plugin>, d: Plugin)
    requires
        plugins_sorted(old(out)@),
    ensures
        plugins_sorted(final(out)@),
        final(out)@.to_multiset() =~= old(out)@.to_multiset().insert(d),
        final(out)@.len() == old(out)@.len() + 1,
{
    let j = insertion_point(out, &d);
    let ghost before = out@;
    let ghost dd = d;
    out.insert(j, d);
    proof {
        lemma_insert_to_multiset(before, j as int, dd);
        let after = before.insert(j as int, dd);
        assert forall|i1: int, i2: int| 0 <= i1 < i2 < after.len() implies
            lex_le(#[trigger] after[i1].name@, #[trigger] after[i2].name@) by {
            if i1 < j && i2 == j {
                assert(lex_le(before[i1].name@, dd.name@));
            } else if i1 == j && i2 > j {
                assert(!lex_le(before[j as int].name@, dd.name@));
                lemma_lex_le_total(before[j as int].name@, dd.name@);
                if i2 - 1 > j {
                    lemma_lex_le_transitive(dd.name@, before[j as int].name@, before[i2 - 1].name@);
                }
            } else if i1 < j && i2 > j {
                assert(after[i1] == before[i1]);
                assert(after[i2] == before[i2 - 1]);
            }
        }
    }
}

/// Sorts a plugin list into ascending filename order.  The result is a
/// permutation of the input: no plugin is lost or invented.
fn sort_plugins(v: Vec<Plugin>) -> (r: Vec<Plugin>)
    ensures
        plugins_sorted(r@),
        r@.to_multiset() =~= v@.to_multiset(),
        r@.len() == v@.len(),
{

    let ghost all = v@;
    let mut rest = v;
    let mut out: Vec<Plugin> = Vec::new();
    proof {
        assert(out@.to_multiset().add(rest@.to_multiset()) =~= all.to_multiset());
    }
    while rest.len() > 0
        invariant
            plugins_sorted(out@),
            out@.to_multiset().add(rest@.to_multiset()) =~= all.to_multiset(),
            out@.len() + rest@.len() == all.len(),
        decreases rest@.len(),
    {
        let ghost rest_before = rest@;
        let d = rest.remove(0);
        proof {
            assert(rest_before.to_multiset().remove(rest_before[0]) =~= rest@.to_multiset());
            assert(rest_before.to_multiset().contains(rest_before[0])) by {
                assert(rest_before.contains(rest_before[0]));
            }
        }
        insert_sorted(&mut out, d);
        proof {
            assert(out@.to_multiset().add(rest@.to_multiset()) =~= all.to_multiset());
        }
    }
    proof {
        assert(rest@.to_multiset() =~= Multiset::<Plugin>::empty());
        assert(out@.to_multiset() =~= all.to_multiset());
    }
    out
}

/// Builds the plugin runtime from what the loader found in the plugin
/// directory: fails the whole load when any module lacks the mandatory
/// `transform` entry point, otherwise applies the documented default to
/// every absent optional constant and returns the plugins in strict
/// ascending filename order — the order *is* the plugin index contract.
#[verifier::loop_isolation(false)]
pub fn build_runtime(descs: Vec<ModuleDesc>) -> (r: Result<Vec<Plugin>, LoadError>)
    ensures
        r matches Ok(out) ==> {
            &&& out@.len() == descs@.len()
            &&& plugins_sorted(out@)
            &&& out@.to_multiset() =~= desc_plugins(descs@).to_multiset()
            &&& forall|i: int| 0 <= i < descs@.len() ==> #[trigger] descs@[i].has_transform
            &&& (unique_desc_names(descs@) ==> unique_names(out@))
        },
        r matches Err(e) ==> {
            &&& exists|i: int| 0 <= i < descs@.len() && !(#[trigger] descs@[i].has_transform)
                && e == (LoadError::MissingTransform { name: descs@[i].name })
        },
        (forall|i: int| 0 <= i < descs@.len() ==> #[trigger] descs@[i].has_transform) <==> r matches Ok(_),
{
    let ghost dseq = descs@;
    let mut rest = descs;
    let mut plugins: Vec<Plugin> = Vec::new();
    let ghost mut k: int = 0;
    while rest.len() > 0
        invariant
            0 <= k <= dseq.len(),
            rest@ =~= dseq.skip(k),
            plugins@ =~= desc_plugins(dseq.take(k)),
            forall|i: int| 0 <= i < k ==> #[trigger] dseq[i].has_transform,
        decreases rest@.len(),
    {
        let d = rest.remove(0);
        proof {
            assert(d == dseq[k]);
            assert(rest@ =~= dseq.skip(k + 1));
        }
        if !d.has_transform {
            let err = LoadError::MissingTransform { name: d.name };
            proof {
                assert(!dseq[k].has_transform);
                assert(err == (LoadError::MissingTransform { name: dseq[k].name }));
                assert(exists|i: int| 0 <= i < dseq.len() && !(#[trigger] dseq[i].has_transform)
                    && err == (LoadError::MissingTransform { name: dseq[i].name }));
            }
            return Err(err);
        }
        let p = Plugin {
            slot: d.slot,
            time_divisor: match d.time_divisor {
                Some(v) => v,
                None => TIME_DIVISOR_DEFAULT,
            },
            time_dialation_range: match d.time_dialation_range {
                Some(v) => v,
                None => TIME_DIALATION_RANGE_DEFAULT,
            },
            intensity_range: match d.intensity_range {
                Some(v) => v,
                None => INTENSITY_RANGE_DEFAULT,
            },
            lum_mod: match d.lum_mod {
                Some(v) => v,
                None => LUM_MOD_DEFAULT,
            },
            name: d.name,
        };
        plugins.push(p);
        proof {
            assert(p == dseq[k].to_plugin());
            assert(desc_plugins(dseq.take(k + 1)) =~= desc_plugins(dseq.take(k)).push(dseq[k].to_plugin()));
            k = k + 1;
        }
    }
    proof {
        assert(k == dseq.len());
        assert(dseq.take(k) =~= dseq);
    }
    let out = sort_plugins(plugins);
    proof {
        if unique_desc_names(dseq) {
            let mapped = desc_plugins(dseq);
            assert forall|i: int, j: int| 0 <= i < j < mapped.len()
                implies (#[trigger] mapped[i].name@) != (#[trigger] mapped[j].name@) by {
                assert(mapped[i].name == dseq[i].name);
                assert(mapped[j].name == dseq[j].name);
            }
            lemma_unique_names_permutation(mapped, out@);
        }
    }
    Ok(out)
}

/// Law: loading an unchanged directory is stable.  Any two runtime lists
/// that are sorted by filename, drawn from the same collection of plugins,
/// and free of duplicate filenames (as files of one directory are) are
/// equal index by index, so plugin indices carry over between repeated
/// loads.
pub proof fn lemma_load_order_stable(a: Seq<Plugin>, b: Seq<Plugin>)
    requires
        plugins_sorted(a),
        plugins_sorted(b),
        unique_names(a),
        a.to_multiset() == b.to_multiset(),
    ensures
        a =~= b,
    decreases a.len(),
{

    if a.len() == 0 {
        assert(b.to_multiset().len() == 0);
    } else {
        assert(a.to_multiset().contains(a[0])) by {
            assert(a.contains(a[0]));
        }
        assert(b.to_multiset().contains(b[0])) by {
            assert(b.contains(b[0]));
        }
        assert(b.contains(a[0]));
        assert(a.contains(b[0]));
        let bi = choose|i: int| 0 <= i < b.len() && b[i] == a[0];
        let aj = choose|j: int| 0 <= j < a.len() && a[j] == b[0];
        if b[0] == a[0] {
        } else {
            assert(bi != 0);
            assert(aj != 0);
            assert(lex_le(b[0].name@, b[bi].name@));
            assert(lex_le(a[0].name@, a[aj].name@));
            lemma_lex_le_antisymmetric(a[0].name@, b[0].name@);
            assert(a[aj].name@ == a[0].name@);
            assert(false);
        }
        assert(a.drop_first().to_multiset() =~= a.to_multiset().remove(a[0])) by {
            assert(a.drop_first() =~= a.remove(0));
        }
        assert(b.drop_first().to_multiset() =~= b.to_multiset().remove(b[0])) by {
            assert(b.drop_first() =~= b.remove(0));
        }
        assert(plugins_sorted(a.drop_first()));
        assert(plugins_sorted(b.drop_first()));
        assert(unique_names(a.drop_first()));
        lemma_load_order_stable(a.drop_first(), b.drop_first());
        assert(a =~= seq![a[0]] + a.drop_first());
        assert(b =~= seq![b[0]] + b.drop_first());
    }
}

} // verus!
