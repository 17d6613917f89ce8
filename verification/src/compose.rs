//! The compose tagger.
//!
//! A service's compose file is a YAML document with a top-level `services`
//! mapping; each unit under it is a mapping that may already hold a `labels`
//! sequence. The surrounding application parses the file and extracts the one
//! shape the tagger reads — whether `services` and the named unit exist,
//! whether the unit is a mapping, and its current `labels` sequence — then
//! writes the rewritten sequence back into the document, leaving every other
//! field untouched. The rewrite itself is verified here: it appends the
//! service's correlation label, creating the sequence when it is missing, and
//! reports a distinct missing-key failure for each way the document can be
//! ill-shaped. Label insertion is append-only: rewriting an already-tagged
//! file appends a duplicate label rather than deduplicating.

use vstd::prelude::*;

use crate::service::{label_of, Service};
use crate::status::{ServiceError, ServiceErrorView};

verus! {

/// How the `labels` key stands inside a compose unit's mapping.
#[derive(Clone, Debug, PartialEq, Eq)]
pub enum LabelsField {
    Missing,
    NotASequence,
    Items(Vec<String>),
}

/// Mathematical model of a `LabelsField`.
pub enum LabelsFieldView {
    Missing,
    NotASequence,
    Items(Seq<Seq<char>>),
}

impl View for LabelsField {
    type V = LabelsFieldView;

    open spec fn view(&self) -> LabelsFieldView {
        match self {
            LabelsField::Missing => LabelsFieldView::Missing,
            LabelsField::NotASequence => LabelsFieldView::NotASequence,
            LabelsField::Items(v) => LabelsFieldView::Items(
                v@.map_values(|s: String| s@),
            ),
        }
    }
}

/// The one shape of the compose document the tagger reads: whether the
/// top-level `services` mapping and the named unit exist, whether the unit is
/// a mapping, and the unit's `labels` field.
#[derive(Clone, Debug, PartialEq, Eq)]
pub enum ComposeShape {
    NoServices,
    NoUnit,
    UnitNotMapping,
    Unit(LabelsField),
}

/// Mathematical model of a `ComposeShape`.
pub enum ComposeShapeView {
    NoServices,
    NoUnit,
    UnitNotMapping,
    Unit(LabelsFieldView),
}

impl View for ComposeShape {
    type V = ComposeShapeView;

    open spec fn view(&self) -> ComposeShapeView {
        match self {
            ComposeShape::NoServices => ComposeShapeView::NoServices,
            ComposeShape::NoUnit => ComposeShapeView::NoUnit,
            ComposeShape::UnitNotMapping => ComposeShapeView::UnitNotMapping,
            ComposeShape::Unit(l) => ComposeShapeView::Unit(l@),
        }
    }
}

/// What the rewrite yields for each document shape: the unit's new `labels`
/// sequence — the old one with the correlation label appended, created as a
/// one-element sequence when missing — or the distinct missing-key failure
/// for the shape.
pub open spec fn rewrite_labels_spec(
    shape: ComposeShapeView,
    compose_name: Seq<char>,
    label: Seq<char>,
) -> Result<Seq<Seq<char>>, ServiceErrorView> {
    match shape {
        ComposeShapeView::NoServices => Result::Err(ServiceErrorView::Key("services"@)),
        ComposeShapeView::NoUnit => Result::Err(ServiceErrorView::Key(compose_name)),
        ComposeShapeView::UnitNotMapping => Result::Err(
            ServiceErrorView::Key(compose_name + " (as map)"@),
        ),
        ComposeShapeView::Unit(LabelsFieldView::NotASequence) => Result::Err(
            ServiceErrorView::Key(compose_name + " labels (as sequence)"@),
        ),
        ComposeShapeView::Unit(LabelsFieldView::Missing) => Result::Ok(seq![label]),
        ComposeShapeView::Unit(LabelsFieldView::Items(v)) => Result::Ok(v.push(label)),
    }
}

impl Service {
    /// The tag-rewrite step's decision: given the document's shape, the
    /// unit's new `labels` sequence to write back, or the missing-key error
    /// that aborts the pipeline.
    pub fn apply_tags(&self, shape: ComposeShape) -> (r: Result<Vec<String>, ServiceError>)
        ensures
            match r {
                Result::Ok(v) => rewrite_labels_spec(
                    shape@,
                    self@.compose_name,
                    label_of(self@.name),
                ) == Result::<Seq<Seq<char>>, ServiceErrorView>::Ok(
                    v@.map_values(|s: String| s@),
                ),
                Result::Err(e) => rewrite_labels_spec(
                    shape@,
                    self@.compose_name,
                    label_of(self@.name),
                ) == Result::<Seq<Seq<char>>, ServiceErrorView>::Err(e@),
            },
    {
        match shape {
            ComposeShape::NoServices => Result::Err(
                ServiceError::Key(String::from_str("services")),
            ),
            ComposeShape::NoUnit => Result::Err(ServiceError::Key(self.compose_name.clone())),
            ComposeShape::UnitNotMapping => Result::Err(
                ServiceError::Key(self.compose_name.clone().concat(" (as map)")),
            ),
            ComposeShape::Unit(LabelsField::NotASequence) => Result::Err(
                ServiceError::Key(self.compose_name.clone().concat(" labels (as sequence)")),
            ),
            ComposeShape::Unit(LabelsField::Missing) => {
                let mut out: Vec<String> = Vec::new();
                out.push(self.label_name());
                proof {
                    assert(out@.map_values(|s: String| s@) =~= seq![label_of(self@.name)]);
                }
                Result::Ok(out)
            },
            ComposeShape::Unit(LabelsField::Items(v)) => {
                let ghost before = v@.map_values(|s: String| s@);
                let mut out = v;
                out.push(self.label_name());
                proof {
                    assert(out@.map_values(|s: String| s@) =~= before.push(
                        label_of(self@.name),
                    ));
                }
                Result::Ok(out)
            },
        }
    }
}

/// Append-only tagging: rewriting a unit's labels and then rewriting the
/// result again appends the correlation label both times, so the final
/// sequence holds two more copies of the label than the original — duplicates
/// are kept, not collapsed.
pub proof fn lemma_apply_tags_append_only(
    v: Seq<Seq<char>>,
    compose_name: Seq<char>,
    label: Seq<char>,
)
    ensures
        rewrite_labels_spec(
            ComposeShapeView::Unit(LabelsFieldView::Items(v)),
            compose_name,
            label,
        ) == Result::<Seq<Seq<char>>, ServiceErrorView>::Ok(v.push(label)),
        rewrite_labels_spec(
            ComposeShapeView::Unit(LabelsFieldView::Items(v.push(label))),
            compose_name,
            label,
        ) == Result::<Seq<Seq<char>>, ServiceErrorView>::Ok(v.push(label).push(label)),
        v.push(label).push(label).to_multiset().count(label) == v.to_multiset().count(label)
            + 2,
{
    broadcast use vstd::seq_lib::group_seq_properties;

    v.to_multiset_ensures();
    v.push(label).to_multiset_ensures();
    assert(v.push(label).to_multiset() =~= v.to_multiset().insert(label));
    assert(v.push(label).push(label).to_multiset() =~= v.push(label).to_multiset().insert(
        label,
    ));
}

} // verus!
