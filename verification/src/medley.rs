//! The meet-list feed of the medley service: discovery of upcoming
//! meets and their configuration documents.

pub mod meet_info;

use crate::meet_setup::document::{children_named, lemma_children_named_prefix, DecodeError, Element};
use crate::text::str_eq;
use self::meet_info::MeetInfo;
use vstd::prelude::*;

verus! {

/// The entries of one meet-list document.
#[derive(Debug, Clone, PartialEq, Eq)]
pub struct Entries {
    /// The announced meets, in feed order.
    pub meet_setup_entries: Vec<MeetInfo>,
}

impl Entries {
    /// A feed document decodes when every entry element decodes.
    pub open spec fn decode_wf(cs: Seq<Element>) -> bool {
        let es = children_named(cs, "strc_stevneoppsett"@);
        forall|j: int| 0 <= j < es.len() ==> MeetInfo::decode_wf(#[trigger] es[j].children@)
    }

    /// The entries are exactly the decodes of the feed's entry elements,
    /// in order.
    pub open spec fn decodes_to(cs: Seq<Element>, v: Entries) -> bool {
        let es = children_named(cs, "strc_stevneoppsett"@);
        &&& v.meet_setup_entries@.len() == es.len()
        &&& forall|j: int|
            0 <= j < es.len() ==> MeetInfo::decodes_to(
                #[trigger] es[j].children@,
                v.meet_setup_entries@[j],
            )
    }

    /// Decode a whole meet-list document: every `strc_stevneoppsett`
    /// child of the root becomes one entry.
    pub fn decode(root: &Element) -> (r: Result<Entries, DecodeError>)
        ensures
            r is Ok <==> Self::decode_wf(root.children@),
            r matches Ok(v) ==> Self::decodes_to(root.children@, v),
            r matches Err(e) ==> !(e is UnknownField),
    {
        let n = root.children.len();
        let mut entries: Vec<MeetInfo> = Vec::new();
        let mut i: usize = 0;
        proof {
            assert(root.children@.subrange(0, 0) =~= Seq::<Element>::empty());
        }
        while i < n
            invariant
                i <= n,
                n == root.children@.len(),
                entries@.len() == children_named(
                    root.children@.subrange(0, i as int),
                    "strc_stevneoppsett"@,
                ).len(),
                forall|j: int|
                    0 <= j < entries@.len() ==> MeetInfo::decodes_to(
                        #[trigger] children_named(
                            root.children@.subrange(0, i as int),
                            "strc_stevneoppsett"@,
                        )[j].children@,
                        entries@[j],
                    ),
                forall|j: int|
                    0 <= j < entries@.len() ==> MeetInfo::decode_wf(
                        #[trigger] children_named(
                            root.children@.subrange(0, i as int),
                            "strc_stevneoppsett"@,
                        )[j].children@,
                    ),
            decreases n - i,
        {
            proof {
                assert(root.children@.subrange(0, i as int + 1).drop_last() =~= root.children@
                    .subrange(0, i as int));
                assert(root.children@.subrange(0, i as int + 1).last() == root.children@[i as int]);
            }
            let c = &root.children[i];
            if str_eq(c.name.as_str(), "strc_stevneoppsett") {
                match MeetInfo::decode(c) {
                    Ok(m) => entries.push(m),
                    Err(e) => {
                        proof {
                            lemma_children_named_prefix(
                                root.children@,
                                "strc_stevneoppsett"@,
                                i as int + 1,
                            );
                            let pre = children_named(
                                root.children@.subrange(0, i as int + 1),
                                "strc_stevneoppsett"@,
                            );
                            assert(pre[pre.len() - 1] == root.children@[i as int]);
                            assert(children_named(root.children@, "strc_stevneoppsett"@)[pre.len()
                                - 1] == root.children@[i as int]);
                        }
                        return Err(e);
                    },
                }
            }
            i = i + 1;
        }
        proof {
            assert(root.children@.subrange(0, n as int) =~= root.children@);
        }
        Ok(Entries { meet_setup_entries: entries })
    }
}

} // verus!
