//! The shaping of one row's attributes into a record of a model.

use vstd::prelude::*;
use crate::attribute::{Attribute, Attributes};
use crate::model::{ModelDef, Record};
use crate::name_map::{distinct_names, entries_view, has_name, lemma_pairs_map_at, pairs_map};
use crate::text::same_text;

verus! {

/// Whether `r` is the record of `model` that holds the row `attributes`:
/// the row's value under the primary key's name is the record's id, each
/// declared attribute has the row's value of its name, or NULL of its kind
/// where the row has none, and a name that the model does not declare has
/// no place in the record.
pub open spec fn is_extracted(
    model: ModelDef,
    attributes: Map<Seq<char>, Attribute>,
    r: Record,
) -> bool {
    &&& r.ty@ == model.ty@
    &&& r.id == (if attributes.contains_key(model.primary_key@) {
        attributes[model.primary_key@]
    } else {
        Attribute::String(None)
    })
    &&& r.attributes@.dom() == model.attributes@.dom()
    &&& forall|k: Seq<char>| #[trigger]
        model.attributes@.contains_key(k) ==> r.attributes@[k] == (if k != model.primary_key@
            && attributes.contains_key(k) {
            attributes[k]
        } else {
            model.attributes@[k].absent()
        })
    &&& r.relationships@.dom() == model.relationships@.dom()
    &&& forall|k: Seq<char>| #[trigger]
        model.relationships@.contains_key(k) ==> model.relationships@[k].is_empty_form(
            r.relationships@[k],
        )
}

/// A way of turning the attributes of one row into a record of a model.
pub trait Serializer {
    /// Whether `r` is what this serializer makes of `attributes`.
    spec fn extracts(&self, model: ModelDef, attributes: Map<Seq<char>, Attribute>, r: Record) -> bool;

    fn extract(&self, model: &ModelDef, attributes: Attributes) -> (r: Record)
        ensures
            self.extracts(*model, attributes@, r),
    ;
}

/// The serializer that takes each column as the attribute of its name.
pub struct SimpleSerializer;

impl Serializer for SimpleSerializer {
    open spec fn extracts(
        &self,
        model: ModelDef,
        attributes: Map<Seq<char>, Attribute>,
        r: Record,
    ) -> bool {
        is_extracted(model, attributes, r)
    }

    fn extract(&self, model: &ModelDef, attributes: Attributes) -> (r: Record) {
        let mut record = model.create();
        let ghost row = attributes@;
        let ghost pairs = attributes.pairs();
        let mut entries = attributes.into_entries();
        while entries.len() > 0
            invariant
                entries_view(entries@) == pairs.take(entries@.len() as int),
                entries@.len() <= pairs.len(),
                distinct_names(pairs),
                row == pairs_map(pairs),
                record.ty@ == model.ty@,
                record.id == (if has_name(pairs.skip(entries@.len() as int), model.primary_key@) {
                    row[model.primary_key@]
                } else {
                    Attribute::String(None)
                }),
                record.attributes@.dom() == model.attributes@.dom(),
                forall|k: Seq<char>| #[trigger]
                    model.attributes@.contains_key(k) ==> record.attributes@[k] == (if k
                        != model.primary_key@ && has_name(pairs.skip(entries@.len() as int), k) {
                        row[k]
                    } else {
                        model.attributes@[k].absent()
                    }),
                record.relationships@.dom() == model.relationships@.dom(),
                forall|k: Seq<char>| #[trigger]
                    model.relationships@.contains_key(k) ==> model.relationships@[k].is_empty_form(
                        record.relationships@[k],
                    ),
            decreases entries@.len(),
        {
            let ghost n = entries@.len() as int;
            let ghost done_before = pairs.skip(n);
            let entry = entries.pop().unwrap();
            let ghost done = pairs.skip(n - 1);
            let name = entry.0;
            let value = entry.1;
            proof {
                assert(name@ == pairs[n - 1].0 && value == pairs[n - 1].1) by {
                    assert(pairs.take(n)[n - 1] == pairs[n - 1]);
                }
                lemma_pairs_map_at(pairs, n - 1);
                assert forall|k: Seq<char>| has_name(done, k) <==> (k == name@ || has_name(
                    done_before,
                    k,
                )) by {
                    if has_name(done, k) {
                        let j = choose|j: int| 0 <= j < done.len() && (#[trigger] done[j]).0 == k;
                        if j > 0 {
                            assert(done_before[j - 1].0 == k);
                        }
                    }
                    if has_name(done_before, k) {
                        let j = choose|j: int|
                            0 <= j < done_before.len() && (#[trigger] done_before[j]).0 == k;
                        assert(done[j + 1].0 == k);
                    }
                    if k == name@ {
                        assert(done[0].0 == k);
                    }
                }
            }
            if same_text(name.as_str(), model.primary_key) {
                record.id = value;
            } else {
                record.set(name.as_str(), value);
            }
        }
        assert(pairs.skip(0) =~= pairs);
        record
    }
}

} // verus!
