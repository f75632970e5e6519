//! Finding the release that a pod belongs to.

use vstd::prelude::*;
use vstd::string::*;
use crate::status::text_of;

verus! {

/// One key/value label of a resource.
#[derive(Debug, Clone, PartialEq, Eq)]
pub struct Label {
    pub key: String,
    pub value: String,
}

/// The metadata of a pod as far as resolution reads it: its labels, in the
/// order the cluster listed them. A resource without labels has none here.
#[derive(Debug, Clone, PartialEq, Eq)]
pub struct PodMeta {
    pub labels: Vec<Label>,
}

pub struct LabelView {
    pub key: Seq<char>,
    pub value: Seq<char>,
}

impl View for Label {
    type V = LabelView;

    open spec fn view(&self) -> LabelView {
        LabelView { key: self.key@, value: self.value@ }
    }
}

impl View for PodMeta {
    type V = Seq<LabelView>;

    open spec fn view(&self) -> Seq<LabelView> {
        self.labels@.map_values(|l: Label| l@)
    }
}

/// No release identifier could be had for the pod: it is missing, it could
/// not be fetched, or it does not carry the instance label.
#[derive(Debug, Clone, Copy, PartialEq, Eq)]
pub struct ResolutionFailed;

/// What to do at startup with the operator's input.
#[derive(Debug, Clone, PartialEq, Eq)]
pub enum StartupPlan {
    /// The release was given: watch it.
    Watch { release: String },
    /// Only a pod was given: its release has to be resolved first.
    Resolve { pod: String },
    /// Neither was given.
    Missing,
}

pub enum StartupPlanView {
    Watch { release: Seq<char> },
    Resolve { pod: Seq<char> },
    Missing,
}

impl View for StartupPlan {
    type V = StartupPlanView;

    open spec fn view(&self) -> StartupPlanView {
        match self {
            StartupPlan::Watch { release } => StartupPlanView::Watch { release: release@ },
            StartupPlan::Resolve { pod } => StartupPlanView::Resolve { pod: pod@ },
            StartupPlan::Missing => StartupPlanView::Missing,
        }
    }
}

/// The well-known label that names the release a pod belongs to.
pub open spec fn instance_key() -> Seq<char> {
    "app.kubernetes.io/instance"@
}

/// The position of the first label with the given key, if there is one.
pub open spec fn first_with_key(labels: Seq<LabelView>, key: Seq<char>, i: int) -> bool {
    &&& 0 <= i < labels.len()
    &&& labels[i].key == key
    &&& forall|j: int| 0 <= j < i ==> (#[trigger] labels[j]).key != key
}

/// Whether some label has the given key.
pub open spec fn has_key(labels: Seq<LabelView>, key: Seq<char>) -> bool {
    exists|i: int| 0 <= i < labels.len() && (#[trigger] labels[i]).key == key
}

/// Whether no key occurs twice, as in the label map of a live resource.
pub open spec fn keys_distinct(labels: Seq<LabelView>) -> bool {
    forall|i: int, j: int|
        0 <= i < j < labels.len() ==> (#[trigger] labels[i]).key != (#[trigger] labels[j]).key
}

/// The label selector that scopes a watch to one release.
pub open spec fn selector_text(release: Seq<char>) -> Seq<char> {
    instance_key() + "="@ + release
}

/// Looks up the instance label. Returns the value of the first label whose
/// key is `app.kubernetes.io/instance`, and `None` exactly when no label has
/// that key.
pub fn get_instance_label(pod: &PodMeta) -> (r: Option<String>)
    ensures
        r is Some <==> has_key(pod@, instance_key()),
        r is Some ==> exists|i: int|
            first_with_key(pod@, instance_key(), i) && (#[trigger] pod@[i]).value == r->0@,
{
    let key = String::from_str("app.kubernetes.io/instance");
    let mut i: usize = 0;
    while i < pod.labels.len()
        invariant
            i <= pod.labels.len(),
            key@ == instance_key(),
            forall|j: int| 0 <= j < i ==> (#[trigger] pod@[j]).key != instance_key(),
        decreases pod.labels.len() - i,
    {
        let label = &pod.labels[i];
        if label.key == key {
            assert(first_with_key(pod@, instance_key(), i as int));
            return Some(label.value.clone());
        }
        i += 1;
    }
    None
}

/// Resolves the release of a pod from the outcome of fetching its metadata
/// (`None` where the pod is missing or the fetch failed). Succeeds exactly
/// when the metadata is there and carries the instance label.
pub fn resolve(fetched: Option<&PodMeta>) -> (r: Result<String, ResolutionFailed>)
    ensures
        r is Ok <==> fetched is Some && has_key(fetched->0@, instance_key()),
        r is Ok ==> exists|i: int|
            first_with_key(fetched->0@, instance_key(), i) && (#[trigger] fetched->0@[i]).value
                == r->Ok_0@,
{
    match fetched {
        Some(meta) => match get_instance_label(meta) {
            Some(release) => Ok(release),
            None => Err(ResolutionFailed),
        },
        None => Err(ResolutionFailed),
    }
}

/// Builds the label selector `app.kubernetes.io/instance=<release>`.
pub fn instance_selector(release: &str) -> (r: String)
    ensures
        r@ == selector_text(release@),
{
    let mut out = String::from_str("app.kubernetes.io/instance");
    out.append("=");
    out.append(release);
    out
}

/// Decides what startup does with the operator's input: a release that was
/// given wins over a pod; a pod alone asks for resolution; neither is
/// reported as missing.
pub fn plan_startup(release: Option<String>, pod: Option<String>) -> (r: StartupPlan)
    ensures
        r@ == match (text_of(release), text_of(pod)) {
            (Some(id), _) => StartupPlanView::Watch { release: id },
            (None, Some(name)) => StartupPlanView::Resolve { pod: name },
            (None, None) => StartupPlanView::Missing,
        },
{
    match release {
        Some(id) => StartupPlan::Watch { release: id },
        None => match pod {
            Some(name) => StartupPlan::Resolve { pod: name },
            None => StartupPlan::Missing,
        },
    }
}

/// Where no key occurs twice, the instance label found is the value of every
/// label that carries the instance key: which one is listed first does not
/// matter.
pub proof fn instance_label_is_unique(labels: Seq<LabelView>, i: int, k: int)
    requires
        keys_distinct(labels),
        first_with_key(labels, instance_key(), i),
        0 <= k < labels.len(),
        labels[k].key == instance_key(),
    ensures
        k == i,
        labels[k].value == labels[i].value,
{
    if k < i {
        assert(labels[k].key != instance_key());
    } else if i < k {
        assert(labels[i].key != labels[k].key);
    }
}

/// At most one position is the first to carry a key, so the lookup's result
/// is determined by the labels.
pub proof fn first_match_is_unique(labels: Seq<LabelView>, key: Seq<char>, i: int, k: int)
    requires
        first_with_key(labels, key, i),
        first_with_key(labels, key, k),
    ensures
        i == k,
{
    if i < k {
        assert(labels[i].key != key);
    } else if k < i {
        assert(labels[k].key != key);
    }
}

} // verus!
