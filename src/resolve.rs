//! The second pass over an assembled schema: every named type reference must
//! resolve to a built-in or to a type the schema declares.
use vstd::prelude::*;

use crate::builtins::{local_part_of, qname_parts, AnySimpleType, AnySimpleTypeView};
use crate::elements::ElementView;
use crate::error::{SchemaError, SchemaErrorView};
use crate::schema::{Schema, SchemaView};
use crate::text::str_eq;
use crate::types::{SimpleTypeContent, SimpleTypeContentView, TopLevelType, TopLevelTypeView};

verus! {

/// The name a top-level type is declared with.
pub open spec fn declared_type_name(t: TopLevelTypeView) -> Seq<char> {
    match t {
        TopLevelTypeView::SimpleType(s) => s.name,
        TopLevelTypeView::ComplexType(c) => c.name,
    }
}

/// Whether `s` declares a type named `name`.
pub open spec fn declares_type(s: SchemaView, name: Seq<char>) -> bool {
    exists|i: int| 0 <= i < s.types.len() && declared_type_name(#[trigger] s.types[i]) == name
}

/// Whether a reference resolves in `s`: a built-in does; a named reference
/// does when `s` declares a type with the reference's local name.
pub open spec fn resolves(s: SchemaView, t: AnySimpleTypeView) -> bool {
    match t {
        AnySimpleTypeView::BuiltIn(_) => true,
        AnySimpleTypeView::Reference(q) => declares_type(s, qname_parts(q).1),
    }
}

/// The type references of element declarations, in order.
pub open spec fn element_refs(els: Seq<ElementView>) -> Seq<AnySimpleTypeView>
    decreases els.len(),
{
    if els.len() == 0 {
        Seq::empty()
    } else {
        match els.last().type_reference {
            Some(t) => element_refs(els.drop_last()).push(t),
            None => element_refs(els.drop_last()),
        }
    }
}

/// The references a simple type's content makes.
pub open spec fn content_refs(c: SimpleTypeContentView) -> Seq<AnySimpleTypeView> {
    match c {
        SimpleTypeContentView::Restriction(r) => seq![r.restriction_type],
        SimpleTypeContentView::List(l) => seq![l.item_type],
        SimpleTypeContentView::Union(u) => u.member_types,
    }
}

/// The references that type declarations make, in order.
pub open spec fn type_refs(ts: Seq<TopLevelTypeView>) -> Seq<AnySimpleTypeView>
    decreases ts.len(),
{
    if ts.len() == 0 {
        Seq::empty()
    } else {
        match ts.last() {
            TopLevelTypeView::SimpleType(s) => type_refs(ts.drop_last()) + content_refs(s.content),
            TopLevelTypeView::ComplexType(_) => type_refs(ts.drop_last()),
        }
    }
}

/// Every type reference of `s`: those of its elements, then those of its types.
pub open spec fn schema_refs(s: SchemaView) -> Seq<AnySimpleTypeView> {
    element_refs(s.elements) + type_refs(s.types)
}

/// `i` is the first reference of `s` that does not resolve.
pub open spec fn first_unresolved(s: SchemaView, i: int) -> bool {
    &&& 0 <= i < schema_refs(s).len()
    &&& !resolves(s, schema_refs(s)[i])
    &&& forall|j: int| 0 <= j < i ==> resolves(s, #[trigger] schema_refs(s)[j])
}

/// The verdict of resolving `s`'s references: the first unresolved one is
/// reported by name.
pub open spec fn resolution_of(s: SchemaView) -> Result<(), SchemaErrorView> {
    if exists|i: int| first_unresolved(s, i) {
        let i = choose|i: int| first_unresolved(s, i);
        match schema_refs(s)[i] {
            AnySimpleTypeView::Reference(q) => Err(
                SchemaErrorView::UnresolvedTypeReference { name: q },
            ),
            AnySimpleTypeView::BuiltIn(_) => Ok(()),
        }
    } else {
        Ok(())
    }
}

pub open spec fn ref_views(v: Seq<&AnySimpleType>) -> Seq<AnySimpleTypeView> {
    v.map_values(|t: &AnySimpleType| t@)
}

impl Schema {
    /// Whether this schema declares a type named `name`.
    pub fn declares_type(&self, name: &str) -> (r: bool)
        ensures
            r == declares_type(self@, name@),
    {
        let mut i: usize = 0;
        while i < self.types.len()
            invariant
                i <= self.types.len(),
                forall|j: int| 0 <= j < i ==> declared_type_name(#[trigger] self@.types[j]) != name@,
            decreases self.types.len() - i,
        {
            let declared = match &self.types[i] {
                TopLevelType::SimpleType(s) => &s.name,
                TopLevelType::ComplexType(c) => &c.name,
            };
            assert(declared@ == declared_type_name(self@.types[i as int]));
            if str_eq(declared.as_str(), name) {
                return true;
            }
            i += 1;
        }
        false
    }

    /// Whether the reference `t` resolves in this schema.
    pub fn type_resolves(&self, t: &AnySimpleType) -> (r: bool)
        ensures
            r == resolves(self@, t@),
    {
        match t {
            AnySimpleType::BuiltIn(_) => true,
            AnySimpleType::Reference(q) => self.declares_type(local_part_of(q.as_str())),
        }
    }

    /// Every type reference this schema makes, in order: those of its
    /// elements, then those of its simple types.
    pub fn type_references(&self) -> (r: Vec<&AnySimpleType>)
        ensures
            ref_views(r@) == schema_refs(self@),
    {
        let mut out: Vec<&AnySimpleType> = Vec::new();
        let mut i: usize = 0;
        while i < self.elements.len()
            invariant
                i <= self.elements.len(),
                ref_views(out@) == element_refs(self@.elements.take(i as int)),
            decreases self.elements.len() - i,
        {
            assert(self@.elements.take(i + 1).drop_last() =~= self@.elements.take(i as int));
            match &self.elements[i].type_reference {
                Some(t) => {
                    let ghost before = out@;
                    out.push(t);
                    assert(ref_views(out@) =~= ref_views(before).push(t@));
                },
                None => {},
            }
            i += 1;
        }
        assert(self@.elements.take(i as int) =~= self@.elements);
        let ghost from_elements = ref_views(out@);
        let mut i: usize = 0;
        while i < self.types.len()
            invariant
                i <= self.types.len(),
                from_elements == element_refs(self@.elements),
                ref_views(out@) == from_elements + type_refs(self@.types.take(i as int)),
            decreases self.types.len() - i,
        {
            assert(self@.types.take(i + 1).drop_last() =~= self@.types.take(i as int));
            let ghost before = ref_views(out@);
            match &self.types[i] {
                TopLevelType::SimpleType(s) => {
                    match &*s.content {
                        SimpleTypeContent::Restriction(r) => {
                            out.push(&r.restriction_type);
                        },
                        SimpleTypeContent::List(l) => {
                            out.push(&l.item_type);
                        },
                        SimpleTypeContent::Union(u) => {
                            let mut k: usize = 0;
                            while k < u.member_types.len()
                                invariant
                                    k <= u.member_types.len(),
                                    ref_views(out@) == before + u@.member_types.take(k as int),
                                decreases u.member_types.len() - k,
                            {
                                let ghost prev = out@;
                                out.push(&u.member_types[k]);
                                assert(ref_views(out@) =~= ref_views(prev).push(
                                    u@.member_types[k as int],
                                ));
                                assert(u@.member_types.take(k + 1) =~= u@.member_types.take(
                                    k as int,
                                ).push(u@.member_types[k as int]));
                                k += 1;
                            }
                            assert(u@.member_types.take(k as int) =~= u@.member_types);
                        },
                    }
                    assert(ref_views(out@) =~= before + content_refs(s@.content));
                },
                TopLevelType::ComplexType(_) => {},
            }
            i += 1;
        }
        assert(self@.types.take(i as int) =~= self@.types);
        out
    }

    /// Checks that every named type reference resolves; the first one that
    /// does not is reported.
    pub fn resolve_references(&self) -> (r: Result<(), SchemaError>)
        ensures
            match r {
                Ok(()) => resolution_of(self@) == Ok::<(), SchemaErrorView>(()),
                Err(e) => resolution_of(self@) == Err::<(), SchemaErrorView>(e@),
            },
    {
        let refs = self.type_references();
        let ghost all = schema_refs(self@);
        let mut i: usize = 0;
        while i < refs.len()
            invariant
                i <= refs.len(),
                all == schema_refs(self@),
                ref_views(refs@) == all,
                forall|j: int| 0 <= j < i ==> resolves(self@, #[trigger] all[j]),
            decreases refs.len() - i,
        {
            assert(refs@[i as int]@ == all[i as int]);
            if !self.type_resolves(refs[i]) {
                proof {
                    assert(first_unresolved(self@, i as int));
                    let k = choose|k: int| first_unresolved(self@, k);
                    assert(k == i) by {
                        if k < i {
                            assert(resolves(self@, all[k]));
                        }
                        if k > i {
                            assert(!resolves(self@, all[i as int]));
                        }
                    }
                }
                match refs[i] {
                    AnySimpleType::Reference(q) => {
                        return Err(SchemaError::UnresolvedTypeReference { name: q.clone() });
                    },
                    AnySimpleType::BuiltIn(_) => {},
                }
            }
            i += 1;
        }
        Ok(())
    }
}

} // verus!
