//! Defined age groups: named groups of birth years.

use super::document::{children_named, req_text_is, DecodeError, Element};
use crate::text::str_eq;
use vstd::prelude::*;

verus! {

/// The age groups defined for a meet, if the document defines any.
#[derive(Debug, Clone, PartialEq, Eq)]
pub struct DefinedAgeGroups {
    /// The defined groups, in document order.
    pub age_groups: Option<Vec<AgeGroup>>,
}

/// One named age group and the birth years it covers.
#[derive(Debug, Clone, PartialEq, Eq)]
pub struct AgeGroup {
    /// Name of the group.
    pub age_group_name: String,
    /// The years of the group, kept as the raw texts of the document.
    pub year: Vec<String>,
}

impl AgeGroup {
    /// An age-group element decodes when its name is present; the year
    /// list may be empty.
    #[verifier::opaque]
    pub open spec fn decode_wf(cs: Seq<Element>) -> bool {
        super::document::field_spec(cs, "AgeGroupName"@) is Some
    }

    /// The group `v` holds the name and the raw `Year` texts in order.
    #[verifier::opaque]
    pub open spec fn decodes_to(cs: Seq<Element>, v: AgeGroup) -> bool {
        &&& req_text_is(cs, "AgeGroupName"@, v.age_group_name@)
        &&& {
            let ys = children_named(cs, "Year"@);
            &&& v.year@.len() == ys.len()
            &&& forall|j: int| 0 <= j < ys.len() ==> v.year@[j]@ == #[trigger] ys[j].text@
        }
    }

    /// Decode one age-group element.
    pub fn decode(elem: &Element) -> (r: Result<AgeGroup, DecodeError>)
        ensures
            r is Ok <==> Self::decode_wf(elem.children@),
            r matches Ok(v) ==> Self::decodes_to(elem.children@, v),
            r matches Err(e) ==> !(e is UnknownField),
    {
        proof {
            reveal(AgeGroup::decode_wf);
            reveal(AgeGroup::decodes_to);
            reveal(DefinedAgeGroups::decode_wf);
            reveal(DefinedAgeGroups::decodes_to);
        }
        let age_group_name = match elem.req_text("AgeGroupName") {
            Ok(v) => v,
            Err(e) => {
                return Err(e);
            },
        };
        let n = elem.children.len();
        let mut year: Vec<String> = Vec::new();
        let mut i: usize = 0;
        proof {
            assert(elem.children@.subrange(0, 0) =~= Seq::<Element>::empty());
        }
        while i < n
            invariant
                i <= n,
                n == elem.children@.len(),
                year@.len() == children_named(elem.children@.subrange(0, i as int), "Year"@).len(),
                forall|j: int|
                    0 <= j < year@.len() ==> year@[j]@ == #[trigger] children_named(
                        elem.children@.subrange(0, i as int),
                        "Year"@,
                    )[j].text@,
            decreases n - i,
        {
            proof {
                assert(elem.children@.subrange(0, i as int + 1).drop_last() =~= elem.children@
                    .subrange(0, i as int));
                assert(elem.children@.subrange(0, i as int + 1).last() == elem.children@[i as int]);
            }
            let c = &elem.children[i];
            if str_eq(c.name.as_str(), "Year") {
                year.push(c.text.clone());
            }
            i = i + 1;
        }
        proof {
            assert(elem.children@.subrange(0, n as int) =~= elem.children@);
        }
        Ok(AgeGroup { age_group_name, year })
    }
}

impl DefinedAgeGroups {
    /// The element decodes when every `AgeGroup` child decodes.
    #[verifier::opaque]
    pub open spec fn decode_wf(cs: Seq<Element>) -> bool {
        let gs = children_named(cs, "AgeGroup"@);
        forall|j: int| 0 <= j < gs.len() ==> AgeGroup::decode_wf(#[trigger] gs[j].children@)
    }

    /// The value holds the decodes of the `AgeGroup` children in order,
    /// or nothing when there are none.
    #[verifier::opaque]
    pub open spec fn decodes_to(cs: Seq<Element>, v: DefinedAgeGroups) -> bool {
        let gs = children_named(cs, "AgeGroup"@);
        if gs.len() == 0 {
            v.age_groups is None
        } else {
            v.age_groups matches Some(groups) && groups@.len() == gs.len() && (forall|j: int|
                0 <= j < gs.len() ==> AgeGroup::decodes_to(#[trigger] gs[j].children@, groups@[j]))
        }
    }

    /// Decode a defined-age-groups element; an element without any
    /// `AgeGroup` child yields no groups.
    pub fn decode(elem: &Element) -> (r: Result<DefinedAgeGroups, DecodeError>)
        ensures
            r is Ok <==> Self::decode_wf(elem.children@),
            r matches Ok(v) ==> Self::decodes_to(elem.children@, v),
            r matches Err(e) ==> !(e is UnknownField),
    {
        proof {
            reveal(AgeGroup::decode_wf);
            reveal(AgeGroup::decodes_to);
            reveal(DefinedAgeGroups::decode_wf);
            reveal(DefinedAgeGroups::decodes_to);
        }
        let n = elem.children.len();
        let mut groups: Vec<AgeGroup> = Vec::new();
        let mut i: usize = 0;
        proof {
            assert(elem.children@.subrange(0, 0) =~= Seq::<Element>::empty());
        }
        while i < n
            invariant
                i <= n,
                n == elem.children@.len(),
                groups@.len() == children_named(
                    elem.children@.subrange(0, i as int),
                    "AgeGroup"@,
                ).len(),
                forall|j: int|
                    0 <= j < groups@.len() ==> AgeGroup::decodes_to(
                        #[trigger] children_named(
                            elem.children@.subrange(0, i as int),
                            "AgeGroup"@,
                        )[j].children@,
                        groups@[j],
                    ),
                forall|j: int|
                    0 <= j < groups@.len() ==> AgeGroup::decode_wf(
                        #[trigger] children_named(
                            elem.children@.subrange(0, i as int),
                            "AgeGroup"@,
                        )[j].children@,
                    ),
            decreases n - i,
        {
            proof {
                assert(elem.children@.subrange(0, i as int + 1).drop_last() =~= elem.children@
                    .subrange(0, i as int));
                assert(elem.children@.subrange(0, i as int + 1).last() == elem.children@[i as int]);
            }
            let c = &elem.children[i];
            if str_eq(c.name.as_str(), "AgeGroup") {
                match AgeGroup::decode(c) {
                    Ok(g) => groups.push(g),
                    Err(e) => {
                        proof {
                            reveal(DefinedAgeGroups::decode_wf);
                            reveal(DefinedAgeGroups::decodes_to);
                            super::document::lemma_children_named_prefix(
                                elem.children@,
                                "AgeGroup"@,
                                i as int + 1,
                            );
                            let pre = children_named(
                                elem.children@.subrange(0, i as int + 1),
                                "AgeGroup"@,
                            );
                            assert(pre[pre.len() - 1] == elem.children@[i as int]);
                            assert(children_named(elem.children@, "AgeGroup"@)[pre.len() - 1]
                                == elem.children@[i as int]);
                        }
                        return Err(e);
                    },
                }
            }
            i = i + 1;
        }
        proof {
            assert(elem.children@.subrange(0, n as int) =~= elem.children@);
        }
        if groups.len() == 0 {
            Ok(DefinedAgeGroups { age_groups: None })
        } else {
            Ok(DefinedAgeGroups { age_groups: Some(groups) })
        }
    }
}

} // verus!
