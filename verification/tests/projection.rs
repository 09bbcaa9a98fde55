// Projection through descriptors, chains and handle kinds, on model
// addresses.  The parent types only carry the typing of the descriptors;
// the offsets are supplied by hand, as a code-generation frontend would
// supply the true layout offsets.

use gfp_core::Field;
use gfp_core::ProjectTo;
use gfp_core::descriptor::FieldDescriptor;
use gfp_core::descriptor::NamedField;
use gfp_core::handle::ConstHandle;
use gfp_core::handle::ExclusiveHandle;
use gfp_core::handle::Metadata;
use gfp_core::handle::MutHandle;
use gfp_core::handle::SharedHandle;

struct Parent;

struct Foo;

struct Bar;

struct Tap;

#[test]
fn project_raw_adds_offset() {
    let d: FieldDescriptor<Parent, u32> = FieldDescriptor::from_offset(4);
    let r = d.project_raw(ConstHandle::new(100, Metadata::Thin));
    assert_eq!(r.addr, 104);
    assert_eq!(r.meta, Metadata::Thin);
}

#[test]
fn project_raw_mut_agrees_with_project_raw() {
    let d: FieldDescriptor<Parent, u32> = FieldDescriptor::from_offset(12);
    let r = d.project_raw(ConstHandle::new(640, Metadata::Thin));
    let m = d.project_raw_mut(MutHandle::new(640, Metadata::Thin));
    assert_eq!(r.addr, m.addr);
}

#[test]
fn project_raw_wraps_at_top_of_address_space() {
    let d: FieldDescriptor<Parent, u32> = FieldDescriptor::from_offset(1);
    let r = d.project_raw(ConstHandle::new(usize::MAX, Metadata::Thin));
    assert_eq!(r.addr, 0);
}

#[test]
fn unchecked_projectors_add_offset() {
    let d: FieldDescriptor<Parent, u64> = FieldDescriptor::from_offset(8);
    let r = d.project_raw_unchecked(ConstHandle::new(3000, Metadata::Thin));
    let m = d.project_raw_mut_unchecked(MutHandle::new(3000, Metadata::Thin));
    assert_eq!(r.addr, 3008);
    assert_eq!(m.addr, 3008);
}

#[test]
fn from_pointers_matches_derived_offset() {
    let parent: MutHandle<Parent> = MutHandle::new(100, Metadata::Thin);
    let field: MutHandle<u64> = MutHandle::new(108, Metadata::Thin);
    let hand_built = FieldDescriptor::from_pointers(&parent, &field);
    let derived: FieldDescriptor<Parent, u64> = FieldDescriptor::from_offset(8);
    assert_eq!(hand_built.offset, derived.offset);
}

#[test]
fn named_field_single_segment_name() {
    let f: NamedField<Parent, u32> = NamedField::new("a", 0);
    assert_eq!(f.name(), vec!["a"]);
}

#[test]
fn distinct_fields_have_distinct_names() {
    let a: NamedField<Parent, u32> = NamedField::new("a", 0);
    let b: NamedField<Parent, u64> = NamedField::new("b", 8);
    assert_ne!(a.name(), b.name());
}

#[test]
fn slice_metadata_is_preserved() {
    let d: FieldDescriptor<Parent, u32> = FieldDescriptor::from_offset(8);
    let r = d.project_raw(ConstHandle::new(4096, Metadata::SliceLen(9)));
    assert_eq!(r.addr, 4104);
    assert_eq!(r.meta, Metadata::SliceLen(9));
}

#[test]
fn dispatch_table_metadata_is_preserved() {
    let d: FieldDescriptor<Parent, u32> = FieldDescriptor::from_offset(16);
    let r = d.project_raw(ConstHandle::new(8192, Metadata::DynTable(911600)));
    assert_eq!(r.addr, 8208);
    assert_eq!(r.meta, Metadata::DynTable(911600));
}

#[test]
fn chain_composes_projection_and_name() {
    let bar: NamedField<Foo, Bar> = NamedField::new("bar", 16);
    let tap: NamedField<Bar, Tap> = NamedField::new("tap", 8);
    let val: NamedField<Tap, u32> = NamedField::new("val", 4);
    let through = bar.chain(tap).chain(val);
    assert_eq!(through.name(), vec!["bar", "tap", "val"]);
    let r = through.project_raw(ConstHandle::new(5000, Metadata::Thin));
    assert_eq!(r.addr, 5028);
}

#[test]
fn chain_equals_stepwise_projection() {
    let bar: NamedField<Foo, Bar> = NamedField::new("bar", 16);
    let tap: NamedField<Bar, Tap> = NamedField::new("tap", 8);
    let chained = bar.chain(tap);
    let direct = chained.project_raw(ConstHandle::new(720, Metadata::Thin));
    let stepwise = tap.project_raw(bar.project_raw(ConstHandle::new(720, Metadata::Thin)));
    assert_eq!(direct.addr, stepwise.addr);
    assert_eq!(direct.addr, 744);
}

#[test]
fn chain_grouping_does_not_matter() {
    let bar: NamedField<Foo, Bar> = NamedField::new("bar", 16);
    let tap: NamedField<Bar, Tap> = NamedField::new("tap", 8);
    let val: NamedField<Tap, u32> = NamedField::new("val", 4);
    let left = bar.chain(tap).chain(val);
    let right = bar.chain(tap.chain(val));
    let from_left = left.project_raw(ConstHandle::new(64, Metadata::Thin));
    let from_right = right.project_raw(ConstHandle::new(64, Metadata::Thin));
    assert_eq!(from_left.addr, from_right.addr);
    assert_eq!(left.name(), right.name());
}

#[test]
fn project_to_each_handle_kind() {
    let f: NamedField<Parent, u32> = NamedField::new("a", 4);
    let c = ConstHandle::new(2000, Metadata::Thin).project_to(f);
    assert_eq!(c.addr, 2004);
    let m = MutHandle::new(2000, Metadata::Thin).project_to(f);
    assert_eq!(m.addr, 2004);
    let s = SharedHandle::new(2000, Metadata::Thin).project_to(f);
    assert_eq!(s.addr, 2004);
    let e = ExclusiveHandle::new(2000, Metadata::Thin).project_to(f);
    assert_eq!(e.addr, 2004);
}

#[test]
fn project_to_through_a_reference() {
    let f: NamedField<Parent, u32> = NamedField::new("a", 4);
    let r = ConstHandle::new(60, Metadata::Thin).project_to(&f);
    assert_eq!(r.addr, 64);
    assert_eq!((&f).name(), vec!["a"]);
}
