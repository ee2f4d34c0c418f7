//! A named list of enrollment qualifications.

use super::document::{children_named, field_spec, req_text_is, DecodeError, Element};
use super::qualification::Qualification;
use crate::text::str_eq;
use vstd::prelude::*;

verus! {

/// A set of qualifications for enrollment: athletes without a valid time
/// under one of them cannot enroll.
#[derive(Debug, Clone, PartialEq, Eq)]
pub struct QualificationSet {
    /// Name of the qualification set.
    pub name: String,
    /// List of qualifications, in document order.
    pub qualifications: Vec<Qualification>,
}

impl QualificationSet {
    /// A qualification-set element decodes when its name is present and
    /// every `Qualification` child decodes.
    #[verifier::opaque]
    pub open spec fn decode_wf(cs: Seq<Element>, reference_year: int) -> bool {
        &&& field_spec(cs, "SetName"@) is Some
        &&& {
            let qs = children_named(cs, "Qualification"@);
            forall|j: int|
                0 <= j < qs.len() ==> Qualification::decode_wf(
                    #[trigger] qs[j].children@,
                    reference_year,
                )
        }
    }

    /// The set `v` holds exactly the decodes of the `Qualification`
    /// children, in order.
    #[verifier::opaque]
    pub open spec fn decodes_to(cs: Seq<Element>, reference_year: int, v: QualificationSet) -> bool {
        &&& req_text_is(cs, "SetName"@, v.name@)
        &&& {
            let qs = children_named(cs, "Qualification"@);
            &&& v.qualifications@.len() == qs.len()
            &&& forall|j: int|
                0 <= j < qs.len() ==> Qualification::decodes_to(
                    #[trigger] qs[j].children@,
                    reference_year,
                    v.qualifications@[j],
                )
        }
    }

    /// Decode one qualification-set element under a caller-supplied
    /// reference year.
    pub fn decode(elem: &Element, reference_year: i16) -> (r: Result<
        QualificationSet,
        DecodeError,
    >)
        ensures
            r is Ok <==> Self::decode_wf(elem.children@, reference_year as int),
            r matches Ok(v) ==> Self::decodes_to(elem.children@, reference_year as int, v),
            r matches Err(e) ==> !(e is UnknownField),
    {
        proof {
            reveal(QualificationSet::decode_wf);
            reveal(QualificationSet::decodes_to);
        }
        let name = match elem.req_text("SetName") {
            Ok(v) => v,
            Err(e) => {
                return Err(e);
            },
        };
        let n = elem.children.len();
        let mut qualifications: Vec<Qualification> = Vec::new();
        let mut i: usize = 0;
        proof {
            assert(elem.children@.subrange(0, 0) =~= Seq::<Element>::empty());
        }
        while i < n
            invariant
                i <= n,
                n == elem.children@.len(),
                qualifications@.len() == children_named(
                    elem.children@.subrange(0, i as int),
                    "Qualification"@,
                ).len(),
                forall|j: int|
                    0 <= j < qualifications@.len() ==> Qualification::decodes_to(
                        #[trigger] children_named(
                            elem.children@.subrange(0, i as int),
                            "Qualification"@,
                        )[j].children@,
                        reference_year as int,
                        qualifications@[j],
                    ),
                forall|j: int|
                    0 <= j < qualifications@.len() ==> Qualification::decode_wf(
                        #[trigger] children_named(
                            elem.children@.subrange(0, i as int),
                            "Qualification"@,
                        )[j].children@,
                        reference_year as int,
                    ),
            decreases n - i,
        {
            proof {
                assert(elem.children@.subrange(0, i as int + 1).drop_last() =~= elem.children@
                    .subrange(0, i as int));
                assert(elem.children@.subrange(0, i as int + 1).last() == elem.children@[i as int]);
            }
            let c = &elem.children[i];
            if str_eq(c.name.as_str(), "Qualification") {
                match Qualification::decode(c, reference_year) {
                    Ok(q) => qualifications.push(q),
                    Err(e) => {
                        proof {
                            reveal(QualificationSet::decode_wf);
                            reveal(QualificationSet::decodes_to);
                            super::document::lemma_children_named_prefix(
                                elem.children@,
                                "Qualification"@,
                                i as int + 1,
                            );
                            let pre = children_named(
                                elem.children@.subrange(0, i as int + 1),
                                "Qualification"@,
                            );
                            assert(pre[pre.len() - 1] == elem.children@[i as int]);
                            assert(children_named(elem.children@, "Qualification"@)[pre.len() - 1]
                                == elem.children@[i as int]);
                        }
                        return Err(e);
                    },
                }
            }
            i = i + 1;
        }
        proof {
            assert(elem.children@.subrange(0, n as int) =~= elem.children@);
        }
        Ok(QualificationSet { name, qualifications })
    }
}

} // verus!
