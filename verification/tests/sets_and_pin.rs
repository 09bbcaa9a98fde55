// Field sets, the disjointness checks, and pinned projection, on model
// addresses.  The two-field parent mirrors an aggregate with one 4-byte
// and one 8-byte field laid out at offsets 0 and 8.

use gfp_core::ProjectTo;
use gfp_core::ProjectToSet;
use gfp_core::descriptor::NamedField;
use gfp_core::handle::ConstHandle;
use gfp_core::handle::ExclusiveHandle;
use gfp_core::handle::Metadata;
use gfp_core::handle::MutHandle;
use gfp_core::handle::Pinned;
use gfp_core::handle::SharedHandle;
use gfp_core::pin::Relocatable;
use gfp_core::pin::Stable;
use gfp_core::set::FieldSet;
use gfp_core::set::all_spans_disjoint;
use gfp_core::set::spans_are_disjoint;

struct Pair;

struct Quad;

fn pair_fields() -> (NamedField<Pair, u32>, NamedField<Pair, u64>) {
    (NamedField::new("a", 0), NamedField::new("b", 8))
}

#[test]
fn two_field_offsets_are_zero_and_eight() {
    let (a, b) = pair_fields();
    assert!(a.descriptor.offset == 0 || a.descriptor.offset == 8);
    assert!(b.descriptor.offset == 0 || b.descriptor.offset == 8);
    assert_ne!(a.descriptor.offset, b.descriptor.offset);
}

#[test]
fn exclusive_set_split_gives_both_field_handles() {
    let (a, b) = pair_fields();
    let parent: ExclusiveHandle<Pair> = ExclusiveHandle::new(4096, Metadata::Thin);
    let (ha, hb) = parent.project_set_to((a, b));
    assert_eq!(ha.addr, 4096);
    assert_eq!(hb.addr, 4104);
    assert_ne!(ha.addr, hb.addr);
}

#[test]
fn raw_set_projection_keeps_order_and_metadata() {
    let (a, b) = pair_fields();
    let parent: ConstHandle<Pair> = ConstHandle::new(512, Metadata::SliceLen(2));
    let (ha, hb) = parent.project_set_to((a, b));
    assert_eq!(ha.addr, 512);
    assert_eq!(ha.meta, Metadata::SliceLen(2));
    assert_eq!(hb.addr, 520);
    assert_eq!(hb.meta, Metadata::SliceLen(2));
}

#[test]
fn mut_and_shared_set_projection() {
    let (a, b) = pair_fields();
    let (ma, mb) = MutHandle::<Pair>::new(512, Metadata::Thin).project_set_to((a, b));
    assert_eq!(ma.addr, 512);
    assert_eq!(mb.addr, 520);
    let (sa, sb) = SharedHandle::<Pair>::new(512, Metadata::Thin).project_set_to((a, b));
    assert_eq!(sa.addr, 512);
    assert_eq!(sb.addr, 520);
}

#[test]
fn wider_sets_project_member_by_member() {
    let a: NamedField<Quad, u32> = NamedField::new("a", 0);
    let b: NamedField<Quad, u32> = NamedField::new("b", 4);
    let c: NamedField<Quad, u32> = NamedField::new("c", 8);
    let d: NamedField<Quad, u32> = NamedField::new("d", 12);
    let (ha, hb, hc) = ConstHandle::<Quad>::new(100, Metadata::Thin).project_set_to((a, b, c));
    assert_eq!((ha.addr, hb.addr, hc.addr), (100, 104, 108));
    let (ha, hb, hc, hd) = ConstHandle::<Quad>::new(100, Metadata::Thin).project_set_to((
        a,
        b,
        c,
        d,
    ));
    assert_eq!((ha.addr, hb.addr, hc.addr, hd.addr), (100, 104, 108, 112));
}

#[test]
fn singleton_set_equals_its_single_field() {
    let (a, _) = pair_fields();
    let (only,) = ConstHandle::<Pair>::new(777, Metadata::Thin).project_set_to((a,));
    let alone = ConstHandle::<Pair>::new(777, Metadata::Thin).project_to(a);
    assert_eq!(only.addr, alone.addr);
    assert_eq!(only.meta, alone.meta);
}

#[test]
fn span_disjointness_of_a_two_field_layout() {
    // spans of a 4-byte field at 0 and an 8-byte field at 8
    assert!(spans_are_disjoint(0, 4, 8, 8));
    // a 4-byte span at 0 overlaps an 8-byte span at 2
    assert!(!spans_are_disjoint(0, 4, 2, 8));
    // touching spans do not overlap
    assert!(spans_are_disjoint(0, 8, 8, 4));
}

#[test]
fn whole_layouts_checked_for_aliasing() {
    let offsets: Vec<usize> = vec![0, 4, 8, 12];
    let sizes: Vec<usize> = vec![4, 4, 4, 4];
    assert!(all_spans_disjoint(&offsets, &sizes));
    let offsets: Vec<usize> = vec![0, 2];
    let sizes: Vec<usize> = vec![4, 4];
    assert!(!all_spans_disjoint(&offsets, &sizes));
    let empty: Vec<usize> = Vec::new();
    let no_sizes: Vec<usize> = Vec::new();
    assert!(all_spans_disjoint(&empty, &no_sizes));
}

#[test]
fn set_methods_match_entry_points() {
    let (a, b) = pair_fields();
    let (ha, hb) = (a, b).project_raw_all(ConstHandle::new(64, Metadata::Thin));
    assert_eq!((ha.addr, hb.addr), (64, 72));
    let (ma, mb) = (a, b).project_raw_mut_all(MutHandle::new(64, Metadata::Thin));
    assert_eq!((ma.addr, mb.addr), (64, 72));
}

#[test]
fn pinned_projection_follows_the_field_declaration() {
    let (a, _) = pair_fields();
    let pinned_in = Pinned::new(SharedHandle::<Pair>::new(400, Metadata::Thin));
    let pinned_out = pinned_in.project_to(Stable::new(a));
    let plain_in = Pinned::new(SharedHandle::<Pair>::new(400, Metadata::Thin));
    let plain_out = plain_in.project_to(Relocatable::new(a));
    // same raw address either way; only the wrapper differs
    assert_eq!(pinned_out.handle.addr, 400);
    assert_eq!(plain_out.addr, 400);
}

#[test]
fn widest_set_projects_all_eight_members() {
    let fields: Vec<NamedField<Quad, u16>> =
        ["a", "b", "c", "d", "e", "f", "g", "h"]
            .iter()
            .enumerate()
            .map(|(i, n)| NamedField::new(n, 2 * i))
            .collect();
    let set = (
        fields[0], fields[1], fields[2], fields[3], fields[4], fields[5], fields[6], fields[7],
    );
    let hs = ConstHandle::<Quad>::new(1000, Metadata::Thin).project_set_to(set);
    assert_eq!(hs.0.addr, 1000);
    assert_eq!(hs.3.addr, 1006);
    assert_eq!(hs.7.addr, 1014);
}

#[test]
fn pinned_set_projection_follows_each_declaration() {
    let (a, b) = pair_fields();
    let parent = Pinned::new(SharedHandle::<Pair>::new(800, Metadata::Thin));
    let (pa, pb) = parent.project_set_to((Stable::new(a), Relocatable::new(b)));
    // the address-stable member stays pinned, the relocatable one does not
    assert_eq!(pa.handle.addr, 800);
    assert_eq!(pb.addr, 808);
}

#[test]
fn pinned_exclusive_set_split() {
    let (a, b) = pair_fields();
    let parent = Pinned::new(ExclusiveHandle::<Pair>::new(800, Metadata::Thin));
    let (pa, pb) = parent.project_set_to((Stable::new(a), Stable::new(b)));
    assert_eq!(pa.handle.addr, 800);
    assert_eq!(pb.handle.addr, 808);
}

#[test]
fn pinned_exclusive_projection() {
    let (_, b) = pair_fields();
    let pinned_in = Pinned::new(ExclusiveHandle::<Pair>::new(400, Metadata::Thin));
    let pinned_out = pinned_in.project_to(Stable::new(b));
    assert_eq!(pinned_out.handle.addr, 408);
    let plain_in = Pinned::new(ExclusiveHandle::<Pair>::new(400, Metadata::Thin));
    let plain_out = plain_in.project_to(Relocatable::new(b));
    assert_eq!(plain_out.addr, 408);
}
