//! Category filtering of the manifest: a pure selection that keeps a
//! descriptor exactly when its category is in the requested set, in the
//! original manifest order.

use vstd::prelude::*;
use crate::categories::Categories;
use crate::descriptor::AssetDescriptor;
use crate::descriptor::DescriptorView;
use crate::descriptor::descs_view;

verus! {

broadcast use vstd::seq_lib::group_seq_lib_default;

/// The descriptors of `m` whose category is in `cats`, in order.
pub open spec fn filtered_spec(m: Seq<DescriptorView>, cats: Seq<Seq<char>>) -> Seq<
    DescriptorView,
> {
    m.filter(|d: DescriptorView| cats.contains(d.category))
}

/// Keeps exactly the descriptors whose category is in `cats`, preserving
/// the manifest order. Pure: no errors are possible.
pub fn filter_by_category(manifest: &Vec<AssetDescriptor>, cats: &Categories) -> (r: Vec<
    AssetDescriptor,
>)
    ensures
        descs_view(r@) == filtered_spec(descs_view(manifest@), cats@),
{
    let ghost pred = |d: DescriptorView| cats@.contains(d.category);
    let mut r: Vec<AssetDescriptor> = Vec::new();
    let mut i: usize = 0;
    proof {
        assert(descs_view(manifest@.take(0)) =~= Seq::<DescriptorView>::empty());
        reveal(Seq::filter);
        assert(descs_view(r@) =~= descs_view(manifest@.take(0)).filter(pred));
    }
    while i < manifest.len()
        invariant
            i <= manifest.len(),
            descs_view(r@) == descs_view(manifest@.take(i as int)).filter(pred),
            pred == (|d: DescriptorView| cats@.contains(d.category)),
        decreases manifest.len() - i,
    {
        let ghost prev = r@;
        let d = &manifest[i];
        if cats.contains(&d.category) {
            r.push(d.clone());
        }
        proof {
            let t = descs_view(manifest@.take(i + 1));
            assert(t.drop_last() =~= descs_view(manifest@.take(i as int)));
            assert(t.last() == manifest@[i as int]@);
            reveal(Seq::filter);
            if pred(manifest@[i as int]@) {
                assert(descs_view(r@) =~= prev.map_values(|x: AssetDescriptor| x@).push(
                    manifest@[i as int]@,
                ));
            }
            assert(descs_view(r@) =~= t.filter(pred));
        }
        i = i + 1;
    }
    proof {
        assert(manifest@.take(manifest@.len() as int) =~= manifest@);
    }
    r
}

/// The filtered manifest holds exactly the descriptors of `m` whose
/// category is in `cats`: none is missing, none is added. Order
/// preservation is part of [`filtered_spec`] itself, which is a filter of
/// `m`.
pub proof fn lemma_filter_exact(m: Seq<DescriptorView>, cats: Seq<Seq<char>>)
    ensures
        forall|d: DescriptorView| #[trigger]
            filtered_spec(m, cats).contains(d) <==> m.contains(d) && cats.contains(d.category),
    decreases m.len(),
{
    broadcast use vstd::seq_lib::group_seq_lib_default;

    let pred = |d: DescriptorView| cats.contains(d.category);
    reveal(Seq::filter);
    if m.len() == 0 {
        assert(forall|d: DescriptorView| !(#[trigger] m.contains(d)));
    } else {
        lemma_filter_exact(m.drop_last(), cats);
        let f = filtered_spec(m, cats);
        let fd = filtered_spec(m.drop_last(), cats);
        assert forall|d: DescriptorView| #[trigger]
            f.contains(d) implies m.contains(d) && cats.contains(d.category) by {
            if f.contains(d) {
                if pred(m.last()) && d == m.last() {
                    assert(m.contains(d)) by {
                        assert(m[m.len() - 1] == d);
                    }
                } else {
                    if fd.contains(d) {
                        let k = choose|k: int| 0 <= k < m.drop_last().len() && m.drop_last()[k]
                            == d;
                        assert(m[k] == d);
                    } else {
                        assert(f == if pred(m.last()) {
                            fd.push(m.last())
                        } else {
                            fd
                        });
                        let j = choose|j: int| 0 <= j < f.len() && f[j] == d;
                        if pred(m.last()) {
                            if j < fd.len() {
                                assert(fd[j] == d);
                            } else {
                                assert(d == m.last());
                            }
                        } else {
                            assert(fd[j] == d);
                        }
                        assert(m.contains(d) && cats.contains(d.category));
                    }
                }
            }
        }
        assert forall|d: DescriptorView| m.contains(d) && cats.contains(d.category) implies #[trigger]
            f.contains(d) by {
            let k = choose|k: int| 0 <= k < m.len() && m[k] == d;
            if k < m.len() - 1 {
                assert(m.drop_last()[k] == d);
                assert(fd.contains(d));
                let j = choose|j: int| 0 <= j < fd.len() && fd[j] == d;
                if pred(m.last()) {
                    assert(fd.push(m.last())[j] == d);
                }
            } else {
                assert(d == m.last());
                assert(f == fd.push(m.last()));
                assert(f[f.len() - 1] == d);
            }
        }
    }
}

} // verus!
