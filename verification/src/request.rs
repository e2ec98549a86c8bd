//! Payload of an inbound analysis request and its translation into domain
//! values: each component reference that parses becomes an identity, in
//! order; references that do not parse are skipped.

use vstd::prelude::*;

verus! {

use crate::component_id::{ComponentId, ComponentIdView, parse_ref};

/// An analysis request: a collection name and the component references it
/// should hold.
#[derive(Debug)]
pub struct CollectionInput {
    pub name: String,
    pub components: Vec<String>,
}

/// The identities of the references that parse, in order.
pub open spec fn parsed_refs(rs: Seq<Seq<char>>) -> Seq<ComponentIdView>
    decreases rs.len(),
{
    if rs.len() == 0 {
        Seq::<ComponentIdView>::empty()
    } else {
        let pre = parsed_refs(rs.drop_last());
        match parse_ref(rs.last()) {
            Some(v) => pre.push(v),
            None => pre,
        }
    }
}

/// Parses every component reference of the request, keeping those that
/// parse and skipping the rest.
pub fn component_ids_of(input: &CollectionInput) -> (r: Vec<ComponentId>)
    ensures
        r.deep_view() == parsed_refs(input.components.deep_view()),
{
    let ghost refs = input.components.deep_view();
    let mut r: Vec<ComponentId> = Vec::new();
    let mut i: usize = 0;
    while i < input.components.len()
        invariant
            i <= input.components@.len(),
            refs == input.components.deep_view(),
            r.deep_view() == parsed_refs(refs.take(i as int)),
        decreases input.components@.len() - i,
    {
        proof {
            assert(refs.take(i as int + 1).drop_last() =~= refs.take(i as int));
            assert(refs.take(i as int + 1).last() == refs[i as int]);
            assert(refs[i as int] == input.components@[i as int]@);
        }
        let ghost pre = r.deep_view();
        match ComponentId::parse(input.components[i].as_str()) {
            Ok(id) => {
                let ghost idv = id@;
                r.push(id);
                proof {
                    assert(r.deep_view() =~= pre.push(idv));
                }
            },
            Err(_) => {},
        }
        i = i + 1;
    }
    proof {
        assert(refs.take(refs.len() as int) =~= refs);
    }
    r
}

} // verus!
